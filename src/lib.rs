//! Relative operations on drawing contexts: each one returns a new context
//! built from the receiver's current state.
pub mod context;
pub mod source_rectangle;
pub mod view_transform;
