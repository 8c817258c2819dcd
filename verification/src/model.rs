//! The mathematical model of welding.
//!
//! A batch of appended elements is modeled as a sequence of parts, one
//! per element, each part being the atoms that element contributes to
//! the destination. The spec functions here fold such a batch into the
//! atoms the destination gains under each glue placement policy.

use vstd::prelude::*;

use crate::dest::Accept;
use crate::dest::Dest;

verus! {

/// The parts of a batch of elements: for each element, in order, the
/// atoms it contributes to a destination of type `T`.
pub open spec fn parts_of<T: Accept<E>, E>(elems: Seq<E>) -> Seq<Seq<<T as Dest>::Atom>> {
    elems.map_values(|e: E| <T as Accept<E>>::atoms_of(e))
}

/// The atoms a destination gains from a batch under the no-glue policy:
/// the parts in order, with nothing inserted.
pub open spec fn no_glue_parts<A>(parts: Seq<Seq<A>>) -> Seq<A>
    decreases parts.len(),
{
    if parts.len() == 0 {
        Seq::empty()
    } else {
        no_glue_parts(parts.drop_last()) + parts.last()
    }
}

/// The atoms a destination gains from a batch under glue-left: one glue
/// run placed before each part.
pub open spec fn glue_left_parts<A>(glue: Seq<A>, parts: Seq<Seq<A>>) -> Seq<A>
    decreases parts.len(),
{
    if parts.len() == 0 {
        Seq::empty()
    } else {
        glue_left_parts(glue, parts.drop_last()) + glue + parts.last()
    }
}

/// The atoms a destination gains from a batch under glue-right: one glue
/// run placed after each part.
pub open spec fn glue_right_parts<A>(glue: Seq<A>, parts: Seq<Seq<A>>) -> Seq<A>
    decreases parts.len(),
{
    if parts.len() == 0 {
        Seq::empty()
    } else {
        glue_right_parts(glue, parts.drop_last()) + parts.last() + glue
    }
}

/// The atoms a destination gains from a batch under glue-both: one glue
/// run on each side of each part, independently, so interior parts are
/// separated by two glue runs.
pub open spec fn glue_both_parts<A>(glue: Seq<A>, parts: Seq<Seq<A>>) -> Seq<A>
    decreases parts.len(),
{
    if parts.len() == 0 {
        Seq::empty()
    } else {
        glue_both_parts(glue, parts.drop_last()) + glue + parts.last() + glue
    }
}

} // verus!
