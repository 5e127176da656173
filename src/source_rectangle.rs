use vstd::prelude::*;

verus! {

/// An integer rectangle `[x, y, w, h]` addressing a region of a texture.
/// A negative width or height samples the region mirrored on that axis.
pub type SourceRectangle = [i32; 4];

/// The rectangle flipped about its own right edge.
pub open spec fn flipped_h(r: SourceRectangle) -> Seq<int> {
    seq![r[0] + r[2], r[1] as int, -r[2], r[3] as int]
}

/// The rectangle flipped about its own bottom edge.
pub open spec fn flipped_v(r: SourceRectangle) -> Seq<int> {
    seq![r[0] as int, r[1] + r[3], r[2] as int, -r[3]]
}

/// The rectangle flipped on both axes.
pub open spec fn flipped_hv(r: SourceRectangle) -> Seq<int> {
    seq![r[0] + r[2], r[1] + r[3], -r[2], -r[3]]
}

/// The rectangle moved by `x` tiles to the right and `y` tiles down, a tile
/// being the rectangle's own size.
pub open spec fn moved_rel(r: SourceRectangle, x: int, y: int) -> Seq<int> {
    seq![r[0] + x * r[2], r[1] + y * r[3], r[2] as int, r[3] as int]
}

/// The four fields of a rectangle as integers.
pub open spec fn fields(r: SourceRectangle) -> Seq<int> {
    seq![r[0] as int, r[1] as int, r[2] as int, r[3] as int]
}

/// Whether every entry of `s` fits in an `i32`.
pub open spec fn fits_i32(s: Seq<int>) -> bool {
    forall|k: int| 0 <= k < s.len() ==> i32::MIN <= #[trigger] s[k] <= i32::MAX
}

/// A context that holds a source rectangle.
pub trait HasSourceRectangle {
    /// The source rectangle held.
    spec fn source_rectangle_of(&self) -> SourceRectangle;

    /// Returns the source rectangle held.
    fn get_source_rectangle(&self) -> (r: SourceRectangle)
        ensures
            r == self.source_rectangle_of(),
    ;
}

/// A context whose source rectangle can be replaced.
pub trait CanSourceRectangle: HasSourceRectangle + Sized {
    /// The context with its source rectangle replaced by `rect` and every
    /// other attribute kept.
    spec fn with_source_rectangle(&self, rect: SourceRectangle) -> Self;

    /// Replacing the source rectangle: the new one is held, a later
    /// replacement overrides an earlier one, and putting back the rectangle
    /// held changes nothing.
    proof fn lemma_with_source_rectangle(&self, a: SourceRectangle, b: SourceRectangle)
        ensures
            self.with_source_rectangle(a).source_rectangle_of() == a,
            self.with_source_rectangle(a).with_source_rectangle(b) == self.with_source_rectangle(
                b,
            ),
            self.with_source_rectangle(self.source_rectangle_of()) == *self,
    ;

    /// Returns a copy of the context with the source rectangle replaced.
    fn source_rectangle(&self, rect: SourceRectangle) -> (r: Self)
        ensures
            r == self.with_source_rectangle(rect),
    ;
}

/// Moving and flipping the source rectangle of a context. Each operation
/// replaces the source rectangle and keeps every other attribute.
pub trait RelativeSourceRectangle: HasSourceRectangle + CanSourceRectangle {
    /// Sets the source rectangle.
    fn src_rect(&self, x: i32, y: i32, w: i32, h: i32) -> (r: Self)
        ensures
            r == self.with_source_rectangle([x, y, w, h]),
            r.source_rectangle_of() == [x, y, w, h],
    {
        proof {
            self.lemma_with_source_rectangle([x, y, w, h], [x, y, w, h]);
        }
        self.source_rectangle([x, y, w, h])
    }

    /// Moves the source rectangle by whole tiles, the current rectangle being
    /// one tile.
    fn src_rel(&self, x: i32, y: i32) -> (r: Self)
        requires
            fits_i32(moved_rel(self.source_rectangle_of(), x as int, y as int)),
        ensures
            r == self.with_source_rectangle(r.source_rectangle_of()),
            fields(r.source_rectangle_of()) == moved_rel(
                self.source_rectangle_of(),
                x as int,
                y as int,
            ),
    {
        let rect = self.get_source_rectangle();
        let moved = relative_source_rectangle(rect, x, y);
        proof {
            self.lemma_with_source_rectangle(moved, moved);
        }
        self.source_rectangle(moved)
    }

    /// Flips the source rectangle horizontally.
    fn src_flip_h(&self) -> (r: Self)
        requires
            fits_i32(flipped_h(self.source_rectangle_of())),
        ensures
            r == self.with_source_rectangle(r.source_rectangle_of()),
            fields(r.source_rectangle_of()) == flipped_h(self.source_rectangle_of()),
    {
        let s = self.get_source_rectangle();
        assert({
            &&& i32::MIN <= flipped_h(s)[0] <= i32::MAX
            &&& i32::MIN <= flipped_h(s)[2] <= i32::MAX
        });
        let f = [s[0] + s[2], s[1], -s[2], s[3]];
        proof {
            self.lemma_with_source_rectangle(f, f);
        }
        let r = self.source_rectangle(f);
        assert(fields(r.source_rectangle_of()) =~= flipped_h(s));
        r
    }

    /// Flips the source rectangle vertically.
    fn src_flip_v(&self) -> (r: Self)
        requires
            fits_i32(flipped_v(self.source_rectangle_of())),
        ensures
            r == self.with_source_rectangle(r.source_rectangle_of()),
            fields(r.source_rectangle_of()) == flipped_v(self.source_rectangle_of()),
    {
        let s = self.get_source_rectangle();
        assert({
            &&& i32::MIN <= flipped_v(s)[1] <= i32::MAX
            &&& i32::MIN <= flipped_v(s)[3] <= i32::MAX
        });
        let f = [s[0], s[1] + s[3], s[2], -s[3]];
        proof {
            self.lemma_with_source_rectangle(f, f);
        }
        let r = self.source_rectangle(f);
        assert(fields(r.source_rectangle_of()) =~= flipped_v(s));
        r
    }

    /// Flips the source rectangle horizontally and vertically.
    fn src_flip_hv(&self) -> (r: Self)
        requires
            fits_i32(flipped_hv(self.source_rectangle_of())),
        ensures
            r == self.with_source_rectangle(r.source_rectangle_of()),
            fields(r.source_rectangle_of()) == flipped_hv(self.source_rectangle_of()),
    {
        let s = self.get_source_rectangle();
        assert({
            &&& i32::MIN <= flipped_hv(s)[0] <= i32::MAX
            &&& i32::MIN <= flipped_hv(s)[1] <= i32::MAX
            &&& i32::MIN <= flipped_hv(s)[2] <= i32::MAX
            &&& i32::MIN <= flipped_hv(s)[3] <= i32::MAX
        });
        let f = [s[0] + s[2], s[1] + s[3], -s[2], -s[3]];
        proof {
            self.lemma_with_source_rectangle(f, f);
        }
        let r = self.source_rectangle(f);
        assert(fields(r.source_rectangle_of()) =~= flipped_hv(s));
        r
    }
}

impl<T: HasSourceRectangle + CanSourceRectangle> RelativeSourceRectangle for T {}

/// Whether `r` is `c` with only its source rectangle replaced, by one whose
/// fields are `s`.
pub open spec fn replaced_by<T: CanSourceRectangle>(c: T, r: T, s: Seq<int>) -> bool {
    &&& r == c.with_source_rectangle(r.source_rectangle_of())
    &&& fields(r.source_rectangle_of()) == s
}

/// Flipping a context's source rectangle horizontally twice gives back the
/// whole context: where the first flip fits in `i32`, so does the second.
pub proof fn lemma_flip_h_twice<T: CanSourceRectangle>(c: T, once: T, twice: T)
    requires
        fits_i32(flipped_h(c.source_rectangle_of())),
        replaced_by(c, once, flipped_h(c.source_rectangle_of())),
        replaced_by(once, twice, flipped_h(once.source_rectangle_of())),
    ensures
        fits_i32(flipped_h(once.source_rectangle_of())),
        twice == c,
{
    let (r, f, g) = (c.source_rectangle_of(), once.source_rectangle_of(), twice.source_rectangle_of());
    lemma_fields_eq(f, flipped_h(r));
    lemma_fields_eq(g, flipped_h(f));
    lemma_fields_injective(g, r);
    lemma_back_to_start(c, once, twice);
}

/// Flipping a context's source rectangle vertically twice gives back the
/// whole context.
pub proof fn lemma_flip_v_twice<T: CanSourceRectangle>(c: T, once: T, twice: T)
    requires
        fits_i32(flipped_v(c.source_rectangle_of())),
        replaced_by(c, once, flipped_v(c.source_rectangle_of())),
        replaced_by(once, twice, flipped_v(once.source_rectangle_of())),
    ensures
        fits_i32(flipped_v(once.source_rectangle_of())),
        twice == c,
{
    let (r, f, g) = (c.source_rectangle_of(), once.source_rectangle_of(), twice.source_rectangle_of());
    lemma_fields_eq(f, flipped_v(r));
    lemma_fields_eq(g, flipped_v(f));
    lemma_fields_injective(g, r);
    lemma_back_to_start(c, once, twice);
}

/// Flipping a context's source rectangle on both axes twice gives back the
/// whole context.
pub proof fn lemma_flip_hv_twice<T: CanSourceRectangle>(c: T, once: T, twice: T)
    requires
        fits_i32(flipped_hv(c.source_rectangle_of())),
        replaced_by(c, once, flipped_hv(c.source_rectangle_of())),
        replaced_by(once, twice, flipped_hv(once.source_rectangle_of())),
    ensures
        fits_i32(flipped_hv(once.source_rectangle_of())),
        twice == c,
{
    let (r, f, g) = (c.source_rectangle_of(), once.source_rectangle_of(), twice.source_rectangle_of());
    lemma_fields_eq(f, flipped_hv(r));
    lemma_fields_eq(g, flipped_hv(f));
    lemma_fields_injective(g, r);
    lemma_back_to_start(c, once, twice);
}

/// Flipping horizontally and then vertically is flipping on both axes, and
/// the two steps fit in `i32` wherever the single one does.
pub proof fn lemma_flip_h_then_v<T: CanSourceRectangle>(c: T, h: T, hv: T, both: T)
    requires
        fits_i32(flipped_hv(c.source_rectangle_of())),
        replaced_by(c, h, flipped_h(c.source_rectangle_of())),
        replaced_by(h, hv, flipped_v(h.source_rectangle_of())),
        replaced_by(c, both, flipped_hv(c.source_rectangle_of())),
    ensures
        fits_i32(flipped_h(c.source_rectangle_of())),
        fits_i32(flipped_v(h.source_rectangle_of())),
        hv == both,
{
    let (r, f, g) = (c.source_rectangle_of(), h.source_rectangle_of(), hv.source_rectangle_of());
    lemma_fields_eq(both.source_rectangle_of(), flipped_hv(r));
    assert(fits_i32(flipped_h(r)));
    lemma_fields_eq(f, flipped_h(r));
    lemma_fields_eq(g, flipped_v(f));
    lemma_fields_injective(g, both.source_rectangle_of());
    c.lemma_with_source_rectangle(f, g);
}

/// Flipping vertically and then horizontally is flipping on both axes, and
/// the two steps fit in `i32` wherever the single one does.
pub proof fn lemma_flip_v_then_h<T: CanSourceRectangle>(c: T, v: T, vh: T, both: T)
    requires
        fits_i32(flipped_hv(c.source_rectangle_of())),
        replaced_by(c, v, flipped_v(c.source_rectangle_of())),
        replaced_by(v, vh, flipped_h(v.source_rectangle_of())),
        replaced_by(c, both, flipped_hv(c.source_rectangle_of())),
    ensures
        fits_i32(flipped_v(c.source_rectangle_of())),
        fits_i32(flipped_h(v.source_rectangle_of())),
        vh == both,
{
    let (r, f, g) = (c.source_rectangle_of(), v.source_rectangle_of(), vh.source_rectangle_of());
    lemma_fields_eq(both.source_rectangle_of(), flipped_hv(r));
    assert(fits_i32(flipped_v(r)));
    lemma_fields_eq(f, flipped_v(r));
    lemma_fields_eq(g, flipped_h(f));
    lemma_fields_injective(g, both.source_rectangle_of());
    c.lemma_with_source_rectangle(f, g);
}

/// Two replacements that end on the rectangle `c` started with give back `c`.
proof fn lemma_back_to_start<T: CanSourceRectangle>(c: T, once: T, twice: T)
    requires
        once == c.with_source_rectangle(once.source_rectangle_of()),
        twice == once.with_source_rectangle(twice.source_rectangle_of()),
        twice.source_rectangle_of() == c.source_rectangle_of(),
    ensures
        twice == c,
{
    c.lemma_with_source_rectangle(once.source_rectangle_of(), twice.source_rectangle_of());
    c.lemma_with_source_rectangle(c.source_rectangle_of(), c.source_rectangle_of());
}

proof fn lemma_fields_eq(r: SourceRectangle, s: Seq<int>)
    requires
        fields(r) == s,
    ensures
        s.len() == 4,
        r[0] == s[0],
        r[1] == s[1],
        r[2] == s[2],
        r[3] == s[3],
        fits_i32(s),
{
    assert(fields(r)[0] == s[0] && fields(r)[1] == s[1]);
    assert(fields(r)[2] == s[2] && fields(r)[3] == s[3]);
}

proof fn lemma_fields_injective(a: SourceRectangle, b: SourceRectangle)
    requires
        fields(a) == fields(b),
    ensures
        a == b,
{
    lemma_fields_eq(a, fields(b));
    assert(a@ =~= b@);
}

/// Moves `rect` by `x` tiles to the right and `y` tiles down, a tile being
/// the rectangle's own size.
pub fn relative_source_rectangle(rect: SourceRectangle, x: i32, y: i32) -> (r: SourceRectangle)
    requires
        fits_i32(moved_rel(rect, x as int, y as int)),
    ensures
        fields(r) == moved_rel(rect, x as int, y as int),
{
    let ghost m = moved_rel(rect, x as int, y as int);
    assert(i32::MIN <= m[0] <= i32::MAX && i32::MIN <= m[1] <= i32::MAX);
    proof {
        lemma_product_fits_i64(x, rect[2]);
        lemma_product_fits_i64(y, rect[3]);
    }
    let rx = rect[0] as i64 + x as i64 * rect[2] as i64;
    let ry = rect[1] as i64 + y as i64 * rect[3] as i64;
    let r = [rx as i32, ry as i32, rect[2], rect[3]];
    assert(fields(r) =~= m);
    r
}

proof fn lemma_product_fits_i64(a: i32, b: i32)
    ensures
        -0x4000_0000_0000_0000 <= a * b <= 0x4000_0000_0000_0000,
{
    assert(-0x4000_0000_0000_0000 <= a * b <= 0x4000_0000_0000_0000) by (nonlinear_arith)
        requires
            -0x8000_0000 <= a <= 0x7fff_ffff,
            -0x8000_0000 <= b <= 0x7fff_ffff,
    {
    }
}

} // verus!
