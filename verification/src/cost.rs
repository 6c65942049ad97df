//! The sum of the colored amounts of a mana cost, and what holds of it.

use vstd::prelude::*;
use vstd::seq_lib::{to_multiset_len, to_multiset_remove};
use crate::model::ManaColor;

verus! {

/// The sum of the amounts of a sequence of colored requirements.
pub open spec fn amounts_sum(pairs: Seq<(ManaColor, i32)>) -> int
    decreases pairs.len(),
{
    if pairs.len() == 0 {
        0
    } else {
        amounts_sum(pairs.drop_last()) + pairs.last().1
    }
}

/// Taking one more requirement into account adds its amount to the sum.
pub proof fn lemma_amounts_sum_step(pairs: Seq<(ManaColor, i32)>, i: int)
    requires
        0 <= i < pairs.len(),
    ensures
        amounts_sum(pairs.take(i + 1)) == amounts_sum(pairs.take(i)) + pairs[i].1,
{
    assert(pairs.take(i + 1).drop_last() =~= pairs.take(i));
}

/// The sum of `n` amounts lies within `n` times the range of one amount.
pub proof fn lemma_amounts_sum_bounds(pairs: Seq<(ManaColor, i32)>)
    ensures
        pairs.len() * (i32::MIN as int) <= amounts_sum(pairs) <= pairs.len() * (i32::MAX as int),
    decreases pairs.len(),
{
    if pairs.len() > 0 {
        lemma_amounts_sum_bounds(pairs.drop_last());
        assert((pairs.len() - 1) * (i32::MIN as int) + (i32::MIN as int) == pairs.len() * (
        i32::MIN as int)) by (nonlinear_arith);
        assert((pairs.len() - 1) * (i32::MAX as int) + (i32::MAX as int) == pairs.len() * (
        i32::MAX as int)) by (nonlinear_arith);
    }
}

/// A sum of amounts none of which is negative is not negative.
pub proof fn lemma_amounts_sum_non_negative(pairs: Seq<(ManaColor, i32)>)
    requires
        forall|i: int| 0 <= i < pairs.len() ==> (#[trigger] pairs[i]).1 >= 0,
    ensures
        amounts_sum(pairs) >= 0,
    decreases pairs.len(),
{
    if pairs.len() > 0 {
        let front = pairs.drop_last();
        assert forall|i: int| 0 <= i < front.len() implies (#[trigger] front[i]).1 >= 0 by {
            assert(front[i] == pairs[i]);
        }
        lemma_amounts_sum_non_negative(front);
    }
}

/// Taking one requirement out of a sequence takes its amount out of the sum.
pub proof fn lemma_amounts_sum_remove(pairs: Seq<(ManaColor, i32)>, i: int)
    requires
        0 <= i < pairs.len(),
    ensures
        amounts_sum(pairs) == amounts_sum(pairs.remove(i)) + pairs[i].1,
    decreases pairs.len(),
{
    if i == pairs.len() - 1 {
        assert(pairs.remove(i) =~= pairs.drop_last());
    } else {
        lemma_amounts_sum_remove(pairs.drop_last(), i);
        assert(pairs.remove(i).drop_last() =~= pairs.drop_last().remove(i));
        assert(pairs.remove(i).last() == pairs.last());
    }
}

/// The sum does not depend on the order of the requirements: two sequences
/// that list the same requirements, each as often as the other, have the same
/// sum.
pub proof fn lemma_amounts_sum_order_independent(
    a: Seq<(ManaColor, i32)>,
    b: Seq<(ManaColor, i32)>,
)
    requires
        a.to_multiset() == b.to_multiset(),
    ensures
        amounts_sum(a) == amounts_sum(b),
    decreases a.len(),
{
    to_multiset_len(a);
    to_multiset_len(b);
    if a.len() > 0 {
        let last = a.last();
        let front = a.drop_last();
        a.to_multiset_ensures();
        b.to_multiset_ensures();
        assert(a.contains(last));
        assert(b.to_multiset().count(last) > 0);
        let j = choose|j: int| 0 <= j < b.len() && b[j] == last;
        assert(front =~= a.remove(a.len() - 1));
        to_multiset_remove(a, a.len() - 1);
        to_multiset_remove(b, j);
        lemma_amounts_sum_order_independent(front, b.remove(j));
        lemma_amounts_sum_remove(b, j);
    }
}

} // verus!
