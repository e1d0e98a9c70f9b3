//! Facts about the model that the proofs of the operations rest on.

use vstd::prelude::*;

use crate::model::{
    ascending, highest_amount, is_first_peak, lists_keys, placed, rank, sorted_descending,
};
use crate::record::BidView;

verus! {

/// `rank` is a position in the list, with no lower bid before it and a
/// lower bid at it.
pub proof fn lemma_rank_bounds(bids: Seq<BidView>, amount: u32)
    ensures
        rank(bids, amount) <= bids.len(),
        forall|i: int| 0 <= i < rank(bids, amount) ==> (#[trigger] bids[i]).amount >= amount,
        rank(bids, amount) < bids.len() ==> bids[rank(bids, amount) as int].amount < amount,
    decreases bids.len(),
{
    if bids.len() == 0 || bids[0].amount < amount {
    } else {
        let rest = bids.drop_first();
        lemma_rank_bounds(rest, amount);
        assert forall|i: int| 0 <= i < rank(bids, amount) implies (#[trigger] bids[i]).amount
            >= amount by {
            if i > 0 {
                assert(bids[i] == rest[i - 1]);
            }
        }
        if rank(bids, amount) < bids.len() {
            assert(bids[rank(bids, amount) as int] == rest[rank(rest, amount) as int]);
        }
    }
}

/// A position with no lower bid before it and a lower bid at it is `rank`.
pub proof fn lemma_rank_is(bids: Seq<BidView>, amount: u32, place: int)
    requires
        0 <= place <= bids.len(),
        forall|i: int| 0 <= i < place ==> (#[trigger] bids[i]).amount >= amount,
        place < bids.len() ==> bids[place].amount < amount,
    ensures
        rank(bids, amount) == place,
    decreases bids.len(),
{
    if place == 0 {
    } else {
        let rest = bids.drop_first();
        assert(bids[0].amount >= amount);
        assert forall|i: int| 0 <= i < place - 1 implies (#[trigger] rest[i]).amount >= amount by {
            assert(rest[i] == bids[i + 1]);
        }
        if place - 1 < rest.len() {
            assert(rest[place - 1] == bids[place]);
        }
        lemma_rank_is(rest, amount, place - 1);
    }
}

/// Bids of which none is lower than the next stand highest first.
pub proof fn lemma_steps_down_is_sorted(bids: Seq<BidView>)
    requires
        forall|j: int| 0 < j < bids.len() ==> (#[trigger] bids[j - 1]).amount >= bids[j].amount,
    ensures
        sorted_descending(bids),
    decreases bids.len(),
{
    if bids.len() > 1 {
        let front = bids.drop_last();
        assert forall|j: int| 0 < j < front.len() implies (#[trigger] front[j - 1]).amount
            >= front[j].amount by {
            assert(front[j - 1] == bids[j - 1] && front[j] == bids[j]);
        }
        lemma_steps_down_is_sorted(front);
        let last = bids.len() - 1;
        assert(bids[last - 1].amount >= bids[last].amount);
        assert forall|i: int, j: int| 0 <= i < j < bids.len() implies bids[i].amount
            >= bids[j].amount by {
            if j < last {
                assert(front[i] == bids[i] && front[j] == bids[j]);
            } else if i < last - 1 {
                assert(front[i] == bids[i] && front[last - 1] == bids[last - 1]);
            }
        }
    }
}

/// Putting a bid in its place keeps the list sorted.
pub proof fn lemma_placed_sorted(bids: Seq<BidView>, bid: BidView)
    requires
        sorted_descending(bids),
    ensures
        sorted_descending(placed(bids, bid)),
{
    let place = rank(bids, bid.amount) as int;
    let after = placed(bids, bid);
    lemma_rank_bounds(bids, bid.amount);
    assert forall|i: int, j: int| 0 <= i < j < after.len() implies after[i].amount
        >= after[j].amount by {
        if j < place {
            assert(after[i] == bids[i] && after[j] == bids[j]);
        } else if j == place {
            assert(after[i] == bids[i]);
        } else if i < place {
            assert(after[i] == bids[i] && after[j] == bids[j - 1]);
        } else if i == place {
            assert(after[j] == bids[j - 1]);
            assert(bids[place].amount >= bids[j - 1].amount || place == j - 1);
        } else {
            assert(after[i] == bids[i - 1] && after[j] == bids[j - 1]);
        }
    }
}

/// A bid above all others is put first.
pub proof fn lemma_placed_leads(bids: Seq<BidView>, bid: BidView)
    requires
        forall|i: int| 0 <= i < bids.len() ==> (#[trigger] bids[i]).amount < bid.amount,
    ensures
        rank(bids, bid.amount) == 0,
        placed(bids, bid) == seq![bid] + bids,
{
    lemma_rank_is(bids, bid.amount, 0);
    assert(placed(bids, bid) =~= seq![bid] + bids);
}

/// `highest_amount` is an upper bound of the amounts, and is one of them
/// where there are bids.
pub proof fn lemma_highest_amount(bids: Seq<BidView>)
    ensures
        forall|i: int| 0 <= i < bids.len() ==> (#[trigger] bids[i]).amount <= highest_amount(bids),
        bids.len() == 0 ==> highest_amount(bids) == 0,
        bids.len() > 0 ==> exists|i: int|
            0 <= i < bids.len() && (#[trigger] bids[i]).amount == highest_amount(bids),
    decreases bids.len(),
{
    if bids.len() > 0 {
        let front = bids.drop_last();
        lemma_highest_amount(front);
        assert forall|i: int| 0 <= i < bids.len() implies (#[trigger] bids[i]).amount
            <= highest_amount(bids) by {
            if i < front.len() {
                assert(bids[i] == front[i]);
            }
        }
        if bids.last().amount >= highest_amount(front) {
            assert(bids[bids.len() - 1].amount == highest_amount(bids));
        } else {
            let i = choose|i: int|
                0 <= i < front.len() && (#[trigger] front[i]).amount == highest_amount(front);
            assert(bids[i] == front[i]);
        }
    }
}

/// An upper bound of the amounts that is one of them is `highest_amount`.
pub proof fn lemma_highest_amount_is(bids: Seq<BidView>, at: int)
    requires
        0 <= at < bids.len(),
        forall|i: int| 0 <= i < bids.len() ==> (#[trigger] bids[i]).amount <= bids[at].amount,
    ensures
        highest_amount(bids) == bids[at].amount,
{
    lemma_highest_amount(bids);
}

/// A list has at most one first peak.
pub proof fn lemma_first_peak_unique(heights: Seq<int>, i: int, j: int)
    requires
        is_first_peak(heights, i),
        is_first_peak(heights, j),
    ensures
        i == j,
{
}

/// A set has at most one ascending list of its members.
pub proof fn lemma_key_order_unique(first: Seq<u64>, second: Seq<u64>, domain: Set<u64>)
    requires
        lists_keys(first, domain),
        lists_keys(second, domain),
    ensures
        first == second,
    decreases first.len(),
{
    if first.len() == 0 {
        if second.len() > 0 {
            assert(second.contains(second[0]));
            assert(first.contains(second[0]));
        }
        assert(first =~= second);
    } else {
        let top = first.last();
        assert(first.contains(top));
        assert(second.contains(top));
        let at = choose|at: int| 0 <= at < second.len() && second[at] == top;
        if at < second.len() - 1 {
            let above = second.last();
            assert(second.contains(above));
            assert(first.contains(above));
            let back = choose|back: int| 0 <= back < first.len() && first[back] == above;
            assert(first[back] <= top);
        }
        let rest = domain.remove(top);
        let first_front = first.drop_last();
        let second_front = second.drop_last();
        assert(ascending(first_front));
        assert(ascending(second_front));
        assert forall|k: u64| rest.contains(k) <==> first_front.contains(k) by {
            if rest.contains(k) {
                assert(first.contains(k));
                let p = choose|p: int| 0 <= p < first.len() && first[p] == k;
                assert(first_front[p] == k);
            }
            if first_front.contains(k) {
                let p = choose|p: int| 0 <= p < first_front.len() && first_front[p] == k;
                assert(first[p] == k);
                assert(first.contains(k));
            }
        }
        assert forall|k: u64| rest.contains(k) <==> second_front.contains(k) by {
            if rest.contains(k) {
                assert(second.contains(k));
                let p = choose|p: int| 0 <= p < second.len() && second[p] == k;
                assert(second_front[p] == k);
            }
            if second_front.contains(k) {
                let p = choose|p: int| 0 <= p < second_front.len() && second_front[p] == k;
                assert(second[p] == k);
                assert(second.contains(k));
            }
        }
        lemma_key_order_unique(first_front, second_front, rest);
        assert(first =~= first_front.push(top));
        assert(second =~= second_front.push(top));
    }
}

} // verus!
