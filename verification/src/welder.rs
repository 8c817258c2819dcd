//! The welder: a consuming builder that accumulates elements into a
//! destination container, interleaving a glue value according to a
//! placement policy.

use vstd::prelude::*;

use crate::dest::Accept;
use crate::dest::Dest;
use crate::dest::Duplicate;
use crate::model::glue_both_parts;
use crate::model::glue_left_parts;
use crate::model::glue_right_parts;
use crate::model::no_glue_parts;
use crate::model::parts_of;

verus! {

/// A helper struct to accumulate elements.
///
/// It owns a glue value of type `G` and a destination container of type
/// `T`; appends mutate the destination, and [`Welder::weld`] surrenders
/// it to the caller.
pub struct Welder<G, T> {
    glue: G,
    welded: T,
}

impl<G, T> Welder<G, T> {
    /// The glue value the welder inserts.
    pub closed spec fn glue_val(&self) -> G {
        self.glue
    }

    /// The destination accumulated so far.
    pub closed spec fn acc(&self) -> T {
        self.welded
    }

    /// Retrieve the accumulated destination from the welder.
    pub fn weld(self) -> (r: T)
        ensures
            r == self.acc(),
    {
        self.welded
    }

    /// Add the element at the end, without any glue.
    pub fn elem_no_glue<E>(self, elem: E) -> (r: Self) where T: Accept<E>
        ensures
            r.glue_val() == self.glue_val(),
            r.acc().atoms() == self.acc().atoms() + <T as Accept<E>>::atoms_of(elem),
    {
        let Welder { glue, mut welded } = self;
        welded.accept(elem);
        Welder { glue, welded }
    }

    /// Add each element of the batch at the end, in order, without any
    /// glue.
    pub fn elems_no_glue<E>(self, elems: Vec<E>) -> (r: Self) where T: Accept<E>
        ensures
            r.glue_val() == self.glue_val(),
            r.acc().atoms() == self.acc().atoms() + no_glue_parts(parts_of::<T, E>(elems@)),
    {
        let ghost all = elems@;
        let ghost init = self.acc().atoms();
        let ghost g0 = self.glue_val();
        let ghost mut k: int = 0;
        let mut w = self;
        let mut rest = elems;
        while rest.len() > 0
            invariant
                0 <= k <= all.len(),
                rest@ == all.skip(k),
                w.glue_val() == g0,
                w.acc().atoms() == init + no_glue_parts(parts_of::<T, E>(all).take(k)),
            decreases rest.len(),
        {
            let e = rest.remove(0);
            proof {
                assert(all.skip(k).remove(0) =~= all.skip(k + 1));
            }
            w = w.elem_no_glue(e);
            proof {
                let parts = parts_of::<T, E>(all);
                assert(parts.take(k + 1).drop_last() =~= parts.take(k));
                assert(init + no_glue_parts(parts.take(k + 1)) =~= (init + no_glue_parts(
                    parts.take(k),
                )) + <T as Accept<E>>::atoms_of(e));
                k = k + 1;
            }
        }
        proof {
            assert(parts_of::<T, E>(all).take(k) =~= parts_of::<T, E>(all));
        }
        w
    }
}

impl<G, T: Dest> Welder<G, T> {
    /// Create an empty welder just by defining the glue used.
    pub fn new(glue: G) -> (r: Self)
        ensures
            r.glue_val() == glue,
            r.acc().atoms() == Seq::<<T as Dest>::Atom>::empty(),
    {
        Welder { glue, welded: T::empty() }
    }

    /// Create a welder with a first value and the glue it will use; the
    /// first value is inserted without glue.
    pub fn with_start<E>(glue: G, start: E) -> (r: Self) where T: Accept<E>
        ensures
            r.glue_val() == glue,
            r.acc().atoms() == <T as Accept<E>>::atoms_of(start),
    {
        let w: Welder<G, T> = Welder::new(glue);
        let r = w.elem_no_glue(start);
        proof {
            assert(r.acc().atoms() =~= <T as Accept<E>>::atoms_of(start));
        }
        r
    }

    /// Create a welder whose destination starts as a given base; no glue
    /// is inserted for the base content.
    pub fn from_base(glue: G, base: T) -> (r: Self)
        ensures
            r.glue_val() == glue,
            r.acc() == base,
    {
        Welder { glue, welded: base }
    }
}

impl<G: Duplicate, T: Accept<G>> Welder<G, T> {
    /// Push a new value after the already accumulated values, with a
    /// glue duplicate in front of it. This is the default policy, an
    /// alias for [`Welder::elem_glue_left`].
    pub fn elem<E>(self, elem: E) -> (r: Self) where T: Accept<E>
        ensures
            r.glue_val() == self.glue_val(),
            r.acc().atoms() == self.acc().atoms()
                + <T as Accept<G>>::atoms_of(self.glue_val())
                + <T as Accept<E>>::atoms_of(elem),
    {
        self.elem_glue_left(elem)
    }

    /// Add a glue duplicate in front of the element, then the element.
    pub fn elem_glue_left<E>(self, elem: E) -> (r: Self) where T: Accept<E>
        ensures
            r.glue_val() == self.glue_val(),
            r.acc().atoms() == self.acc().atoms()
                + <T as Accept<G>>::atoms_of(self.glue_val())
                + <T as Accept<E>>::atoms_of(elem),
    {
        let Welder { glue, mut welded } = self;
        let g = glue.dup();
        welded.accept(g);
        welded.accept(elem);
        Welder { glue, welded }
    }

    /// Add the element, then a glue duplicate after it.
    pub fn elem_glue_right<E>(self, elem: E) -> (r: Self) where T: Accept<E>
        ensures
            r.glue_val() == self.glue_val(),
            r.acc().atoms() == self.acc().atoms()
                + <T as Accept<E>>::atoms_of(elem)
                + <T as Accept<G>>::atoms_of(self.glue_val()),
    {
        let Welder { glue, mut welded } = self;
        welded.accept(elem);
        let g = glue.dup();
        welded.accept(g);
        Welder { glue, welded }
    }

    /// Add a glue duplicate on both sides of the element, each side
    /// independently.
    pub fn elem_glue_both<E>(self, elem: E) -> (r: Self) where T: Accept<E>
        ensures
            r.glue_val() == self.glue_val(),
            r.acc().atoms() == self.acc().atoms()
                + <T as Accept<G>>::atoms_of(self.glue_val())
                + <T as Accept<E>>::atoms_of(elem)
                + <T as Accept<G>>::atoms_of(self.glue_val()),
    {
        let Welder { glue, mut welded } = self;
        let g = glue.dup();
        welded.accept(g);
        welded.accept(elem);
        let g = glue.dup();
        welded.accept(g);
        Welder { glue, welded }
    }

    /// Push all elements of the batch, in order, with a glue duplicate
    /// in front of each. An alias for [`Welder::elems_glue_left`].
    pub fn elems<E>(self, elems: Vec<E>) -> (r: Self) where T: Accept<E>
        ensures
            r.glue_val() == self.glue_val(),
            r.acc().atoms() == self.acc().atoms() + glue_left_parts(
                <T as Accept<G>>::atoms_of(self.glue_val()),
                parts_of::<T, E>(elems@),
            ),
    {
        self.elems_glue_left(elems)
    }

    /// Add each element of the batch, in order, with a glue duplicate in
    /// front of it.
    pub fn elems_glue_left<E>(self, elems: Vec<E>) -> (r: Self) where T: Accept<E>
        ensures
            r.glue_val() == self.glue_val(),
            r.acc().atoms() == self.acc().atoms() + glue_left_parts(
                <T as Accept<G>>::atoms_of(self.glue_val()),
                parts_of::<T, E>(elems@),
            ),
    {
        let ghost all = elems@;
        let ghost init = self.acc().atoms();
        let ghost g0 = self.glue_val();
        let ghost ga = <T as Accept<G>>::atoms_of(g0);
        let ghost mut k: int = 0;
        let mut w = self;
        let mut rest = elems;
        while rest.len() > 0
            invariant
                0 <= k <= all.len(),
                rest@ == all.skip(k),
                w.glue_val() == g0,
                ga == <T as Accept<G>>::atoms_of(g0),
                w.acc().atoms() == init + glue_left_parts(ga, parts_of::<T, E>(all).take(k)),
            decreases rest.len(),
        {
            let e = rest.remove(0);
            proof {
                assert(all.skip(k).remove(0) =~= all.skip(k + 1));
            }
            w = w.elem_glue_left(e);
            proof {
                let parts = parts_of::<T, E>(all);
                assert(parts.take(k + 1).drop_last() =~= parts.take(k));
                assert(init + glue_left_parts(ga, parts.take(k + 1)) =~= (init + glue_left_parts(
                    ga,
                    parts.take(k),
                )) + ga + <T as Accept<E>>::atoms_of(e));
                k = k + 1;
            }
        }
        proof {
            assert(parts_of::<T, E>(all).take(k) =~= parts_of::<T, E>(all));
        }
        w
    }

    /// Add each element of the batch, in order, with a glue duplicate
    /// after it.
    pub fn elems_glue_right<E>(self, elems: Vec<E>) -> (r: Self) where T: Accept<E>
        ensures
            r.glue_val() == self.glue_val(),
            r.acc().atoms() == self.acc().atoms() + glue_right_parts(
                <T as Accept<G>>::atoms_of(self.glue_val()),
                parts_of::<T, E>(elems@),
            ),
    {
        let ghost all = elems@;
        let ghost init = self.acc().atoms();
        let ghost g0 = self.glue_val();
        let ghost ga = <T as Accept<G>>::atoms_of(g0);
        let ghost mut k: int = 0;
        let mut w = self;
        let mut rest = elems;
        while rest.len() > 0
            invariant
                0 <= k <= all.len(),
                rest@ == all.skip(k),
                w.glue_val() == g0,
                ga == <T as Accept<G>>::atoms_of(g0),
                w.acc().atoms() == init + glue_right_parts(ga, parts_of::<T, E>(all).take(k)),
            decreases rest.len(),
        {
            let e = rest.remove(0);
            proof {
                assert(all.skip(k).remove(0) =~= all.skip(k + 1));
            }
            w = w.elem_glue_right(e);
            proof {
                let parts = parts_of::<T, E>(all);
                assert(parts.take(k + 1).drop_last() =~= parts.take(k));
                assert(init + glue_right_parts(ga, parts.take(k + 1)) =~= (init + glue_right_parts(
                    ga,
                    parts.take(k),
                )) + <T as Accept<E>>::atoms_of(e) + ga);
                k = k + 1;
            }
        }
        proof {
            assert(parts_of::<T, E>(all).take(k) =~= parts_of::<T, E>(all));
        }
        w
    }

    /// Add each element of the batch, in order, with a glue duplicate on
    /// both of its sides.
    pub fn elems_glue_both<E>(self, elems: Vec<E>) -> (r: Self) where T: Accept<E>
        ensures
            r.glue_val() == self.glue_val(),
            r.acc().atoms() == self.acc().atoms() + glue_both_parts(
                <T as Accept<G>>::atoms_of(self.glue_val()),
                parts_of::<T, E>(elems@),
            ),
    {
        let ghost all = elems@;
        let ghost init = self.acc().atoms();
        let ghost g0 = self.glue_val();
        let ghost ga = <T as Accept<G>>::atoms_of(g0);
        let ghost mut k: int = 0;
        let mut w = self;
        let mut rest = elems;
        while rest.len() > 0
            invariant
                0 <= k <= all.len(),
                rest@ == all.skip(k),
                w.glue_val() == g0,
                ga == <T as Accept<G>>::atoms_of(g0),
                w.acc().atoms() == init + glue_both_parts(ga, parts_of::<T, E>(all).take(k)),
            decreases rest.len(),
        {
            let e = rest.remove(0);
            proof {
                assert(all.skip(k).remove(0) =~= all.skip(k + 1));
            }
            w = w.elem_glue_both(e);
            proof {
                let parts = parts_of::<T, E>(all);
                assert(parts.take(k + 1).drop_last() =~= parts.take(k));
                assert(init + glue_both_parts(ga, parts.take(k + 1)) =~= (init + glue_both_parts(
                    ga,
                    parts.take(k),
                )) + ga + <T as Accept<E>>::atoms_of(e) + ga);
                k = k + 1;
            }
        }
        proof {
            assert(parts_of::<T, E>(all).take(k) =~= parts_of::<T, E>(all));
        }
        w
    }
}

} // verus!
