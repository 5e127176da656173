use vstd::prelude::*;

verus! {

/// A context that holds a current transform of matrix type `M`.
pub trait GetTransform<M> {
    /// The current transform.
    spec fn transform_of(&self) -> M;

    /// Returns the current transform.
    fn get_transform(&self) -> (r: M)
        ensures
            r == self.transform_of(),
    ;
}

/// A context whose current transform can be replaced.
pub trait SetTransform<M>: GetTransform<M> + Sized {
    /// The context with its current transform replaced by `m` and every other
    /// attribute kept.
    spec fn with_transform(&self, m: M) -> Self;

    /// Replacing the current transform: the new one is held, a later
    /// replacement overrides an earlier one, and putting back the transform
    /// held changes nothing.
    proof fn lemma_with_transform(&self, a: M, b: M)
        ensures
            self.with_transform(a).transform_of() == a,
            self.with_transform(a).with_transform(b) == self.with_transform(b),
            self.with_transform(self.transform_of()) == *self,
    ;

    /// Replaces the current transform.
    fn set_transform(&mut self, m: M)
        ensures
            *final(self) == old(self).with_transform(m),
    ;
}

/// A context that holds a view transform of matrix type `M`.
pub trait GetViewTransform<M> {
    /// The view transform.
    spec fn view_transform_of(&self) -> M;

    /// Returns the view transform.
    fn get_view_transform(&self) -> (r: M)
        ensures
            r == self.view_transform_of(),
    ;
}

/// A context whose view transform and current transform can each be
/// replaced without touching the other.
pub trait SetViewTransform<M>: GetViewTransform<M> + SetTransform<M> {
    /// The context with its view transform replaced by `m` and every other
    /// attribute kept.
    spec fn with_view_transform(&self, m: M) -> Self;

    /// Replacing the view transform: the new one is held, a later replacement
    /// overrides an earlier one, putting back the view held changes nothing,
    /// and neither transform is touched by replacing the other.
    proof fn lemma_with_view_transform(&self, a: M, b: M)
        ensures
            self.with_view_transform(a).view_transform_of() == a,
            self.with_view_transform(a).with_view_transform(b) == self.with_view_transform(b),
            self.with_view_transform(self.view_transform_of()) == *self,
            self.with_view_transform(a).transform_of() == self.transform_of(),
            self.with_transform(a).view_transform_of() == self.view_transform_of(),
    ;

    /// Replaces the view transform.
    fn set_view_transform(&mut self, m: M)
        ensures
            *final(self) == old(self).with_view_transform(m),
    ;
}

/// Switching between the view frame and the current transform.
pub trait RelativeViewTransform<M>: SetViewTransform<M> + Copy {
    /// Moves the current transform to the view coordinate system: the
    /// current transform becomes the view transform, all else is kept.
    fn view(&self) -> (r: Self)
        ensures
            r == self.with_transform(self.view_transform_of()),
            r.transform_of() == self.view_transform_of(),
            r.view_transform_of() == self.view_transform_of(),
    {
        let mut res = *self;
        let mat = self.get_view_transform();
        res.set_transform(mat);
        proof {
            self.lemma_with_transform(mat, mat);
            self.lemma_with_view_transform(mat, mat);
        }
        res
    }

    /// Stores the current transform as the new view transform, all else is
    /// kept.
    fn store_view(&self) -> (r: Self)
        ensures
            r == self.with_view_transform(self.transform_of()),
            r.view_transform_of() == self.transform_of(),
            r.transform_of() == self.transform_of(),
    {
        let mut res = *self;
        let mat = self.get_transform();
        res.set_view_transform(mat);
        proof {
            self.lemma_with_view_transform(mat, mat);
        }
        res
    }
}

impl<M, T: SetViewTransform<M> + Copy> RelativeViewTransform<M> for T {}

/// Moving to the view twice is moving to it once.
pub proof fn lemma_view_twice<M, T: RelativeViewTransform<M>>(c: T)
    ensures
        c.with_transform(c.view_transform_of()).with_transform(
            c.with_transform(c.view_transform_of()).view_transform_of(),
        ) == c.with_transform(c.view_transform_of()),
{
    let v = c.view_transform_of();
    c.lemma_with_view_transform(v, v);
    c.lemma_with_transform(v, v);
}

/// Storing the view twice is storing it once.
pub proof fn lemma_store_view_twice<M, T: RelativeViewTransform<M>>(c: T)
    ensures
        c.with_view_transform(c.transform_of()).with_view_transform(
            c.with_view_transform(c.transform_of()).transform_of(),
        ) == c.with_view_transform(c.transform_of()),
{
    let t = c.transform_of();
    c.lemma_with_view_transform(t, t);
}

/// Storing the current transform as the view and then moving to the view
/// changes nothing more than storing it: the current transform comes back.
pub proof fn lemma_store_view_then_view<M, T: RelativeViewTransform<M>>(c: T)
    ensures
        ({
            let stored = c.with_view_transform(c.transform_of());
            &&& stored.with_transform(stored.view_transform_of()) == stored
            &&& stored.with_transform(stored.view_transform_of()).transform_of()
                == c.transform_of()
        }),
{
    let t = c.transform_of();
    let stored = c.with_view_transform(t);
    c.lemma_with_view_transform(t, t);
    stored.lemma_with_view_transform(t, t);
    stored.lemma_with_transform(t, t);
}

} // verus!
