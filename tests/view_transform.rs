use relative_context::context::Context;
use relative_context::view_transform::{
    GetTransform, GetViewTransform, RelativeViewTransform, SetTransform,
};

type Matrix = [[f64; 3]; 2];
type Ctx = Context<Matrix, [f32; 4], [f64; 4]>;

const VIEW: Matrix = [[0.01, 0.0, -1.0], [0.0, -0.02, 1.0]];
const OTHER: Matrix = [[2.0, 0.0, 3.0], [0.0, 2.0, 4.0]];

fn ctx() -> Ctx {
    Context::new(VIEW, [1.0; 4], [0.0, 0.0, 1.0, 1.0], [0, 0, 8, 8])
}

#[test]
fn new_starts_in_view_frame() {
    let c = ctx();
    assert_eq!(c.get_transform(), VIEW);
    assert_eq!(c.get_view_transform(), VIEW);
}

#[test]
fn view_restores_view_transform() {
    let mut c = ctx();
    c.set_transform(OTHER);
    let v = c.view();
    assert_eq!(v.get_transform(), VIEW);
    assert_eq!(v.get_view_transform(), VIEW);
    assert_eq!(c.get_transform(), OTHER);
}

#[test]
fn store_view_keeps_current_transform() {
    let mut c = ctx();
    c.set_transform(OTHER);
    let s = c.store_view();
    assert_eq!(s.get_view_transform(), OTHER);
    assert_eq!(s.get_transform(), OTHER);
    assert_eq!(c.get_view_transform(), VIEW);
}

#[test]
fn store_view_then_view_round_trips() {
    let mut c = ctx();
    c.set_transform(OTHER);
    assert_eq!(c.store_view().view().get_transform(), c.get_transform());
}

#[test]
fn view_keeps_view_transform_and_other_attributes() {
    let mut c = ctx();
    c.set_transform(OTHER);
    let v = c.view();
    assert_eq!(v.color, c.color);
    assert_eq!(v.rectangle, c.rectangle);
    assert_eq!(v.source_rectangle, c.source_rectangle);
    let vv = v.view();
    assert_eq!(vv.transform, v.transform);
    assert_eq!(vv.view_transform, v.view_transform);
}

#[test]
fn store_view_twice_is_store_view_once() {
    let mut c = ctx();
    c.set_transform(OTHER);
    let once = c.store_view();
    let twice = once.store_view();
    assert_eq!(twice.transform, once.transform);
    assert_eq!(twice.view_transform, once.view_transform);
    assert_eq!(twice.color, once.color);
    assert_eq!(twice.rectangle, once.rectangle);
    assert_eq!(twice.source_rectangle, once.source_rectangle);
}
