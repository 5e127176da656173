use relative_context::context::Context;
use relative_context::source_rectangle::{
    relative_source_rectangle, CanSourceRectangle, HasSourceRectangle, RelativeSourceRectangle,
};

type Ctx = Context<[[f64; 3]; 2], [f32; 4], [f64; 4]>;

fn ctx(src: [i32; 4]) -> Ctx {
    let id = [[1.0, 0.0, 0.0], [0.0, 1.0, 0.0]];
    Context::new(id, [1.0, 0.5, 0.25, 1.0], [0.0, 0.0, 10.0, 20.0], src)
}

#[test]
fn src_rect_replaces_rectangle() {
    let c = ctx([1, 2, 3, 4]).src_rect(5, 6, -7, 8);
    assert_eq!(c.get_source_rectangle(), [5, 6, -7, 8]);
}

#[test]
fn src_flip_h_negates_width_and_shifts_origin() {
    let c = ctx([10, 20, 30, 40]).src_flip_h();
    assert_eq!(c.get_source_rectangle(), [40, 20, -30, 40]);
}

#[test]
fn src_flip_v_negates_height_and_shifts_origin() {
    let c = ctx([10, 20, 30, 40]).src_flip_v();
    assert_eq!(c.get_source_rectangle(), [10, 60, 30, -40]);
}

#[test]
fn src_flip_hv_flips_both_axes() {
    let c = ctx([10, 20, 30, 40]).src_flip_hv();
    assert_eq!(c.get_source_rectangle(), [40, 60, -30, -40]);
}

#[test]
fn flips_are_self_inverse() {
    for s in [[10, 20, 30, 40], [0, 0, 0, 0], [5, -3, -8, 7], [-100, 50, 25, -25]] {
        let c = ctx(s);
        assert_eq!(c.src_flip_h().src_flip_h().get_source_rectangle(), s);
        assert_eq!(c.src_flip_v().src_flip_v().get_source_rectangle(), s);
        assert_eq!(c.src_flip_hv().src_flip_hv().get_source_rectangle(), s);
    }
}

#[test]
fn flip_of_empty_rectangle_is_unchanged() {
    let c = ctx([3, 4, 0, 0]);
    assert_eq!(c.src_flip_hv().get_source_rectangle(), [3, 4, 0, 0]);
}

#[test]
fn flip_at_largest_width() {
    let c = ctx([0, 0, i32::MAX, 1]).src_flip_h();
    assert_eq!(c.get_source_rectangle(), [i32::MAX, 0, -i32::MAX, 1]);
}

#[test]
fn src_rel_moves_by_tiles() {
    let c = ctx([16, 32, 16, 32]).src_rel(2, -1);
    assert_eq!(c.get_source_rectangle(), [48, 0, 16, 32]);
}

#[test]
fn src_rel_with_flipped_tile() {
    let c = ctx([64, 0, -16, 16]).src_rel(1, 3);
    assert_eq!(c.get_source_rectangle(), [48, 48, -16, 16]);
}

#[test]
fn relative_source_rectangle_by_zero_tiles_is_unchanged() {
    assert_eq!(relative_source_rectangle([1, 2, 3, 4], 0, 0), [1, 2, 3, 4]);
    assert_eq!(relative_source_rectangle([1, 2, 3, 4], 1, 1), [4, 6, 3, 4]);
}

#[test]
fn source_rectangle_keeps_other_attributes() {
    let c = ctx([1, 2, 3, 4]);
    let d = c.source_rectangle([9, 9, 9, 9]);
    assert_eq!(d.color, c.color);
    assert_eq!(d.rectangle, c.rectangle);
    assert_eq!(d.transform, c.transform);
    assert_eq!(c.get_source_rectangle(), [1, 2, 3, 4]);
}

fn same(a: &Ctx, b: &Ctx) -> bool {
    a.transform == b.transform
        && a.view_transform == b.view_transform
        && a.color == b.color
        && a.rectangle == b.rectangle
        && a.source_rectangle == b.source_rectangle
}

#[test]
fn flips_keep_other_attributes() {
    let c = ctx([10, 20, 30, 40]);
    for d in [c.src_flip_h(), c.src_flip_v(), c.src_flip_hv(), c.src_rel(1, 1), c.src_rect(0, 0, 1, 1)] {
        assert_eq!(d.transform, c.transform);
        assert_eq!(d.view_transform, c.view_transform);
        assert_eq!(d.color, c.color);
        assert_eq!(d.rectangle, c.rectangle);
    }
}

#[test]
fn flipping_twice_gives_back_whole_context() {
    let c = ctx([-7, 3, 12, -9]);
    assert!(same(&c.src_flip_h().src_flip_h(), &c));
    assert!(same(&c.src_flip_v().src_flip_v(), &c));
    assert!(same(&c.src_flip_hv().src_flip_hv(), &c));
}

#[test]
fn flip_hv_is_h_then_v_in_either_order() {
    let c = ctx([10, 20, 30, 40]);
    assert!(same(&c.src_flip_h().src_flip_v(), &c.src_flip_hv()));
    assert!(same(&c.src_flip_v().src_flip_h(), &c.src_flip_hv()));
}

#[test]
fn src_rel_near_largest_values() {
    let c = ctx([i32::MAX - 10, i32::MIN + 10, 5, -5]).src_rel(2, 2);
    assert_eq!(c.get_source_rectangle(), [i32::MAX, i32::MIN, 5, -5]);
}
