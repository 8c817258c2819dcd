//! Laws of the welding model.
//!
//! The contracts of the welder state what a destination gains in terms
//! of the fold functions of [`crate::model`]. The proof functions here
//! pin those folds down: a batch is the same as repeated single-element
//! appends, each placement policy produces exactly the interleaving it
//! promises, and seeding a welder with a first element is observably
//! different from appending that element to an empty welder.

use vstd::prelude::*;

use crate::model::glue_both_parts;
use crate::model::glue_left_parts;
use crate::model::glue_right_parts;
use crate::model::no_glue_parts;

verus! {

/// Each element as its own single-atom part, for destinations where one
/// element contributes exactly one atom.
pub open spec fn single_parts<A>(elems: Seq<A>) -> Seq<Seq<A>> {
    elems.map_values(|e: A| seq![e])
}

/// A no-glue batch equals repeated single no-glue appends: an empty
/// batch contributes nothing, and a batch extended by one part
/// contributes the batch's atoms followed by that part.
pub proof fn lemma_no_glue_batch_is_singles<A>(parts: Seq<Seq<A>>, part: Seq<A>)
    ensures
        no_glue_parts(Seq::<Seq<A>>::empty()) == Seq::<A>::empty(),
        no_glue_parts(parts.push(part)) == no_glue_parts(parts) + part,
{
    assert(parts.push(part).drop_last() =~= parts);
}

/// A glue-left batch equals repeated single glue-left appends: an empty
/// batch contributes nothing, and a batch extended by one part
/// contributes the batch's atoms, then the glue, then that part.
pub proof fn lemma_glue_left_batch_is_singles<A>(glue: Seq<A>, parts: Seq<Seq<A>>, part: Seq<A>)
    ensures
        glue_left_parts(glue, Seq::<Seq<A>>::empty()) == Seq::<A>::empty(),
        glue_left_parts(glue, parts.push(part)) == glue_left_parts(glue, parts) + glue + part,
{
    assert(parts.push(part).drop_last() =~= parts);
}

/// A glue-right batch equals repeated single glue-right appends.
pub proof fn lemma_glue_right_batch_is_singles<A>(glue: Seq<A>, parts: Seq<Seq<A>>, part: Seq<A>)
    ensures
        glue_right_parts(glue, Seq::<Seq<A>>::empty()) == Seq::<A>::empty(),
        glue_right_parts(glue, parts.push(part)) == glue_right_parts(glue, parts) + part + glue,
{
    assert(parts.push(part).drop_last() =~= parts);
}

/// A glue-both batch equals repeated single glue-both appends.
pub proof fn lemma_glue_both_batch_is_singles<A>(glue: Seq<A>, parts: Seq<Seq<A>>, part: Seq<A>)
    ensures
        glue_both_parts(glue, Seq::<Seq<A>>::empty()) == Seq::<A>::empty(),
        glue_both_parts(glue, parts.push(part)) == glue_both_parts(glue, parts) + glue + part
            + glue,
{
    assert(parts.push(part).drop_last() =~= parts);
}

/// No-glue on elements `e1..en` yields exactly `[e1, .., en]`: nothing
/// is inserted, nothing reordered (stated for single-atom elements).
pub proof fn lemma_no_glue_shape<A>(elems: Seq<A>)
    ensures
        no_glue_parts(single_parts(elems)).len() == elems.len(),
        forall|j: int|
            0 <= j < elems.len() ==> #[trigger] no_glue_parts(single_parts(elems))[j] == elems[j],
    decreases elems.len(),
{
    let parts = single_parts(elems);
    let r = no_glue_parts(parts);
    if elems.len() > 0 {
        let prev = elems.drop_last();
        lemma_no_glue_shape(prev);
        assert(single_parts(prev) =~= parts.drop_last());
        let r0 = no_glue_parts(single_parts(prev));
        assert(r == r0 + seq![elems.last()]);
        assert forall|j: int| 0 <= j < elems.len() implies #[trigger] r[j] == elems[j] by {
            if j < prev.len() {
                assert(r[j] == r0[j]);
                assert(prev[j] == elems[j]);
            } else {
                assert(r[j] == elems.last());
            }
        }
    }
}

/// Glue-left on elements `e1..en` yields exactly
/// `[glue, e1, glue, e2, .., glue, en]`: the glue before every element
/// (stated for a single-atom glue and single-atom elements).
pub proof fn lemma_glue_left_shape<A>(g: A, elems: Seq<A>)
    ensures
        glue_left_parts(seq![g], single_parts(elems)).len() == 2 * elems.len(),
        forall|j: int|
            0 <= j < 2 * elems.len() ==> #[trigger] glue_left_parts(seq![g], single_parts(elems))[j]
                == (if j % 2 == 0 {
                    g
                } else {
                    elems[j / 2]
                }),
    decreases elems.len(),
{
    let parts = single_parts(elems);
    let r = glue_left_parts(seq![g], parts);
    if elems.len() > 0 {
        let prev = elems.drop_last();
        lemma_glue_left_shape(g, prev);
        assert(single_parts(prev) =~= parts.drop_last());
        let r0 = glue_left_parts(seq![g], single_parts(prev));
        assert(r == r0 + seq![g] + seq![elems.last()]);
        assert forall|j: int|
            0 <= j < 2 * elems.len() implies #[trigger] r[j] == (if j % 2 == 0 {
            g
        } else {
            elems[j / 2]
        }) by {
            if j < 2 * prev.len() {
                assert(r[j] == r0[j]);
                if j % 2 != 0 {
                    assert(prev[j / 2] == elems[j / 2]);
                }
            } else if j == 2 * prev.len() {
                assert(r[j] == g);
            } else {
                assert(j == 2 * prev.len() + 1);
                assert(r[j] == elems.last());
                assert(j / 2 == prev.len());
            }
        }
    }
}

/// Glue-right on elements `e1..en` yields exactly
/// `[e1, glue, e2, glue, .., en, glue]`: the glue after every element
/// (stated for a single-atom glue and single-atom elements).
pub proof fn lemma_glue_right_shape<A>(g: A, elems: Seq<A>)
    ensures
        glue_right_parts(seq![g], single_parts(elems)).len() == 2 * elems.len(),
        forall|j: int|
            0 <= j < 2 * elems.len() ==> #[trigger] glue_right_parts(
                seq![g],
                single_parts(elems),
            )[j] == (if j % 2 == 0 {
                elems[j / 2]
            } else {
                g
            }),
    decreases elems.len(),
{
    let parts = single_parts(elems);
    let r = glue_right_parts(seq![g], parts);
    if elems.len() > 0 {
        let prev = elems.drop_last();
        lemma_glue_right_shape(g, prev);
        assert(single_parts(prev) =~= parts.drop_last());
        let r0 = glue_right_parts(seq![g], single_parts(prev));
        assert(r == r0 + seq![elems.last()] + seq![g]);
        assert forall|j: int|
            0 <= j < 2 * elems.len() implies #[trigger] r[j] == (if j % 2 == 0 {
            elems[j / 2]
        } else {
            g
        }) by {
            if j < 2 * prev.len() {
                assert(r[j] == r0[j]);
                if j % 2 == 0 {
                    assert(prev[j / 2] == elems[j / 2]);
                }
            } else if j == 2 * prev.len() {
                assert(r[j] == elems.last());
                assert(j / 2 == prev.len());
            } else {
                assert(j == 2 * prev.len() + 1);
                assert(r[j] == g);
            }
        }
    }
}

/// Glue-both on elements `e1..en` yields exactly
/// `[glue, e1, glue, glue, e2, glue, .., glue, en, glue]`: each element
/// carries its own glue on both sides, so interior neighbours are
/// separated by a doubled glue (stated for a single-atom glue and
/// single-atom elements).
pub proof fn lemma_glue_both_shape<A>(g: A, elems: Seq<A>)
    ensures
        glue_both_parts(seq![g], single_parts(elems)).len() == 3 * elems.len(),
        forall|j: int|
            0 <= j < 3 * elems.len() ==> #[trigger] glue_both_parts(seq![g], single_parts(elems))[j]
                == (if j % 3 == 1 {
                    elems[j / 3]
                } else {
                    g
                }),
    decreases elems.len(),
{
    let parts = single_parts(elems);
    let r = glue_both_parts(seq![g], parts);
    if elems.len() > 0 {
        let prev = elems.drop_last();
        lemma_glue_both_shape(g, prev);
        assert(single_parts(prev) =~= parts.drop_last());
        let r0 = glue_both_parts(seq![g], single_parts(prev));
        assert(r == r0 + seq![g] + seq![elems.last()] + seq![g]);
        assert forall|j: int|
            0 <= j < 3 * elems.len() implies #[trigger] r[j] == (if j % 3 == 1 {
            elems[j / 3]
        } else {
            g
        }) by {
            if j < 3 * prev.len() {
                assert(r[j] == r0[j]);
                if j % 3 == 1 {
                    assert(prev[j / 3] == elems[j / 3]);
                }
            } else if j == 3 * prev.len() {
                assert(r[j] == g);
            } else if j == 3 * prev.len() + 1 {
                assert(r[j] == elems.last());
                assert(j / 3 == prev.len());
            } else {
                assert(j == 3 * prev.len() + 2);
                assert(r[j] == g);
            }
        }
    }
}

/// Seeding a welder with a first element is not the same as glue-left
/// appending that element first: the seeded weld starts with the first
/// element's atoms, while the empty-started weld puts the glue in front
/// of them, so with a non-empty glue the two results differ.
pub proof fn lemma_with_start_differs<A>(glue: Seq<A>, first: Seq<A>, rest: Seq<Seq<A>>)
    ensures
        glue_left_parts(glue, seq![first] + rest) == glue + first + glue_left_parts(glue, rest),
        glue.len() > 0 ==> first + glue_left_parts(glue, rest) != glue_left_parts(
            glue,
            seq![first] + rest,
        ),
    decreases rest.len(),
{
    let parts = seq![first] + rest;
    if rest.len() == 0 {
        assert(parts.drop_last() =~= Seq::<Seq<A>>::empty());
        assert(parts.last() == first);
        assert(glue_left_parts(glue, parts.drop_last()) == Seq::<A>::empty());
        assert(glue_left_parts(glue, rest) == Seq::<A>::empty());
        assert(glue_left_parts(glue, parts) =~= glue + first + glue_left_parts(glue, rest));
    } else {
        lemma_with_start_differs(glue, first, rest.drop_last());
        assert(parts.drop_last() =~= seq![first] + rest.drop_last());
        assert(parts.last() == rest.last());
        assert((glue + first + glue_left_parts(glue, rest.drop_last())) + glue + rest.last() =~=
            glue + first + glue_left_parts(glue, rest));
    }
}

} // verus!
