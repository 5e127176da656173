use vstd::prelude::*;
use crate::source_rectangle::{CanSourceRectangle, HasSourceRectangle, SourceRectangle};
use crate::view_transform::{GetTransform, GetViewTransform, SetTransform, SetViewTransform};

verus! {

/// A drawing context holding every attribute: a current transform and a view
/// transform of matrix type `M`, a color `C`, a rectangle `R` and a source
/// rectangle.
#[derive(Clone, Copy)]
pub struct Context<M, C, R> {
    pub transform: M,
    pub view_transform: M,
    pub color: C,
    pub rectangle: R,
    pub source_rectangle: SourceRectangle,
}

impl<M: Copy, C: Copy, R: Copy> Context<M, C, R> {
    /// A context whose current transform is the view transform.
    pub fn new(view: M, color: C, rectangle: R, source_rectangle: SourceRectangle) -> (r: Self)
        ensures
            r.transform == view,
            r.view_transform == view,
            r.color == color,
            r.rectangle == rectangle,
            r.source_rectangle == source_rectangle,
    {
        Context { transform: view, view_transform: view, color, rectangle, source_rectangle }
    }
}

impl<M: Copy, C: Copy, R: Copy> HasSourceRectangle for Context<M, C, R> {
    open spec fn source_rectangle_of(&self) -> SourceRectangle {
        self.source_rectangle
    }

    fn get_source_rectangle(&self) -> (r: SourceRectangle) {
        self.source_rectangle
    }
}

impl<M: Copy, C: Copy, R: Copy> CanSourceRectangle for Context<M, C, R> {
    open spec fn with_source_rectangle(&self, rect: SourceRectangle) -> Self {
        Context { source_rectangle: rect, ..*self }
    }

    proof fn lemma_with_source_rectangle(&self, a: SourceRectangle, b: SourceRectangle) {
    }

    fn source_rectangle(&self, rect: SourceRectangle) -> (r: Self) {
        Context { source_rectangle: rect, ..*self }
    }
}

impl<M: Copy, C: Copy, R: Copy> GetTransform<M> for Context<M, C, R> {
    open spec fn transform_of(&self) -> M {
        self.transform
    }

    fn get_transform(&self) -> (r: M) {
        self.transform
    }
}

impl<M: Copy, C: Copy, R: Copy> SetTransform<M> for Context<M, C, R> {
    open spec fn with_transform(&self, m: M) -> Self {
        Context { transform: m, ..*self }
    }

    proof fn lemma_with_transform(&self, a: M, b: M) {
    }

    fn set_transform(&mut self, m: M) {
        self.transform = m;
    }
}

impl<M: Copy, C: Copy, R: Copy> GetViewTransform<M> for Context<M, C, R> {
    open spec fn view_transform_of(&self) -> M {
        self.view_transform
    }

    fn get_view_transform(&self) -> (r: M) {
        self.view_transform
    }
}

impl<M: Copy, C: Copy, R: Copy> SetViewTransform<M> for Context<M, C, R> {
    open spec fn with_view_transform(&self, m: M) -> Self {
        Context { view_transform: m, ..*self }
    }

    proof fn lemma_with_view_transform(&self, a: M, b: M) {
    }

    fn set_view_transform(&mut self, m: M) {
        self.view_transform = m;
    }
}

} // verus!
