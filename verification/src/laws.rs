//! What holds of the ledger whatever is done to it.

use vstd::prelude::*;

use crate::deadline::Timestamp;
use crate::identity::anonymous_bytes;
use crate::lemmas::{
    lemma_first_peak_unique, lemma_highest_amount, lemma_highest_amount_is, lemma_placed_leads,
    lemma_placed_sorted,
};
use crate::model::{
    after_bid, after_close, after_create, after_edit, after_restore, amounts, bid_verdict, close_verdict,
    closed, consistent, create_verdict, edit_verdict, first_peak, has_peak, highest_amount,
    is_first_peak, leading_owner, offer, place_verdict, record_ok, sorted_descending,
    well_formed, with_bid,
};
use crate::record::{
    AuctionError, AuctionView, BidError, BidView, CreateAuctionView, CreateBidView,
};

verus! {

/// An accepted bid leaves the record well formed, with the new bid first
/// and the earlier bids behind it in their order.
pub proof fn law_accepted_bid_keeps_record(key: u64, prior: AuctionView, bid: BidView)
    requires
        record_ok(key, prior),
        bid_verdict(prior, bid.amount, bid.owner) is Ok,
        bid.auction == key,
    ensures
        record_ok(key, with_bid(prior, bid)),
        with_bid(prior, bid).bids == seq![bid] + prior.bids,
{
    let next = with_bid(prior, bid);
    lemma_highest_amount(prior.bids);
    lemma_placed_leads(prior.bids, bid);
    lemma_placed_sorted(prior.bids, bid);
    assert(next.bids[0] == bid);
    assert forall|i: int| 0 <= i < next.bids.len() implies (#[trigger] next.bids[i]).amount
        <= bid.amount by {
        if i > 0 {
            assert(next.bids[i] == prior.bids[i - 1]);
        }
    }
    lemma_highest_amount_is(next.bids, 0);
    assert forall|i: int| 0 <= i < next.bids.len() implies (#[trigger] next.bids[i]).amount > 0
        && next.bids[i].auction == key by {
        if i > 0 {
            assert(next.bids[i] == prior.bids[i - 1]);
        }
    }
}

/// Creating, editing, closing, bidding and restoring each leave every
/// record of the ledger well formed, whether the call succeeds or fails.
pub proof fn law_operations_keep_consistency(
    ledger: Map<u64, AuctionView>,
    key: u64,
    auction: CreateAuctionView,
    bid: CreateBidView,
    caller: Seq<u8>,
    end: Option<Timestamp>,
    now: Timestamp,
    record: AuctionView,
)
    requires
        consistent(ledger),
    ensures
        consistent(after_create(ledger, key, auction, caller, end, now)),
        consistent(after_edit(ledger, key, auction, caller)),
        consistent(after_close(ledger, key, caller)),
        consistent(after_bid(ledger, key, bid, caller)),
        consistent(after_restore(ledger, key, record)),
{
    lemma_highest_amount(Seq::<BidView>::empty());
    assert(consistent(after_create(ledger, key, auction, caller, end, now)));
    assert(consistent(after_edit(ledger, key, auction, caller)));
    assert(consistent(after_close(ledger, key, caller)));
    if place_verdict(ledger, key, bid, caller) is Ok {
        law_accepted_bid_keeps_record(key, ledger[key], offer(key, bid, caller));
    }
}

/// After every accepted bid the amount of the leading bid is the highest
/// amount among the bids of the auction, and the leading bid is the bid
/// just made.
pub proof fn law_leading_bid_is_highest(
    ledger: Map<u64, AuctionView>,
    key: u64,
    bid: CreateBidView,
    caller: Seq<u8>,
)
    requires
        consistent(ledger),
        place_verdict(ledger, key, bid, caller) is Ok,
    ensures
        after_bid(ledger, key, bid, caller)[key].main_bid == offer(key, bid, caller),
        after_bid(ledger, key, bid, caller)[key].main_bid.amount == highest_amount(
            after_bid(ledger, key, bid, caller)[key].bids,
        ),
{
    law_accepted_bid_keeps_record(key, ledger[key], offer(key, bid, caller));
}

/// In a ledger whose records are well formed, the leading bid of every
/// auction has the highest amount among its bids, and 0 where it has none.
pub proof fn law_leading_amount(ledger: Map<u64, AuctionView>, key: u64)
    requires
        consistent(ledger),
        ledger.contains_key(key),
    ensures
        ledger[key].main_bid.amount == highest_amount(ledger[key].bids),
        ledger[key].bids.len() == 0 ==> ledger[key].main_bid.amount == 0,
{
}

/// After every accepted bid the bids of the auction stand highest first:
/// the new bid, then the earlier bids in their order.
pub proof fn law_bids_stay_sorted(
    ledger: Map<u64, AuctionView>,
    key: u64,
    bid: CreateBidView,
    caller: Seq<u8>,
)
    requires
        consistent(ledger),
        place_verdict(ledger, key, bid, caller) is Ok,
    ensures
        sorted_descending(after_bid(ledger, key, bid, caller)[key].bids),
        after_bid(ledger, key, bid, caller)[key].bids == seq![offer(key, bid, caller)]
            + ledger[key].bids,
{
    law_accepted_bid_keeps_record(key, ledger[key], offer(key, bid, caller));
}

/// A bid on an active auction that is not above the reserve, or not above
/// the leading bid, is turned down with `BidAmountLessThanCurrent`, and the
/// ledger stays as it was.
pub proof fn law_low_bid_rejected(
    ledger: Map<u64, AuctionView>,
    key: u64,
    bid: CreateBidView,
    caller: Seq<u8>,
)
    requires
        ledger.contains_key(key),
        ledger[key].is_active,
        bid.amount <= ledger[key].amount || bid.amount <= ledger[key].main_bid.amount,
    ensures
        place_verdict(ledger, key, bid, caller) == Err::<(), BidError>(
            BidError::BidAmountLessThanCurrent,
        ),
        after_bid(ledger, key, bid, caller) == ledger,
{
}

/// Who leads an auction cannot bid on it again: the bid is turned down and
/// the ledger stays as it was.
pub proof fn law_leader_cannot_bid(
    ledger: Map<u64, AuctionView>,
    key: u64,
    bid: CreateBidView,
    caller: Seq<u8>,
)
    requires
        ledger.contains_key(key),
        caller == ledger[key].main_bid.owner,
    ensures
        place_verdict(ledger, key, bid, caller) is Err,
        after_bid(ledger, key, bid, caller) == ledger,
{
}

/// Whoever made an accepted bid is turned down when bidding again on the
/// same auction right after it, whatever the amount.
pub proof fn law_no_second_bid_in_a_row(
    ledger: Map<u64, AuctionView>,
    key: u64,
    first: CreateBidView,
    second: CreateBidView,
    caller: Seq<u8>,
)
    requires
        place_verdict(ledger, key, first, caller) is Ok,
    ensures
        place_verdict(after_bid(ledger, key, first, caller), key, second, caller) is Err,
        after_bid(after_bid(ledger, key, first, caller), key, second, caller) == after_bid(
            ledger,
            key,
            first,
            caller,
        ),
{
}

/// In a well-formed auction with bids the first bid is who leads.
pub proof fn law_first_bid_leads(auction: AuctionView)
    requires
        well_formed(auction),
        auction.bids.len() > 0,
    ensures
        leading_owner(auction.bids) == auction.bids[0].owner,
        leading_owner(auction.bids) == auction.main_bid.owner,
{
    let heights = amounts(auction.bids);
    assert(heights[0] == auction.bids[0].amount);
    assert forall|j: int| 0 < j < heights.len() implies #[trigger] heights[j] <= heights[0] by {
        assert(auction.bids[0].amount >= auction.bids[j].amount);
    }
    assert(is_first_peak(heights, 0));
    lemma_first_peak_unique(heights, 0, first_peak(heights));
}

/// Closing by the owner makes the auction inactive and names as winner
/// the highest bidder, who made the leading bid; an auction without bids
/// gets the anonymous identity as winner. Everything else stays.
pub proof fn law_close_names_highest_bidder(
    ledger: Map<u64, AuctionView>,
    key: u64,
    caller: Seq<u8>,
)
    requires
        consistent(ledger),
        close_verdict(ledger, key, caller) is Ok,
    ensures
        !after_close(ledger, key, caller)[key].is_active,
        ledger[key].bids.len() == 0 ==> after_close(ledger, key, caller)[key].new_owner
            == anonymous_bytes(),
        ledger[key].bids.len() > 0 ==> after_close(ledger, key, caller)[key].new_owner
            == ledger[key].main_bid.owner && ledger[key].main_bid.amount == highest_amount(
            ledger[key].bids,
        ),
        after_close(ledger, key, caller)[key].bids == ledger[key].bids,
        after_close(ledger, key, caller)[key].main_bid == ledger[key].main_bid,
        after_close(ledger, key, caller)[key].owner == ledger[key].owner,
{
    let auction = ledger[key];
    assert(record_ok(key, auction));
    assert(after_close(ledger, key, caller)[key] == closed(auction));
    if auction.bids.len() > 0 {
        law_first_bid_leads(auction);
    } else {
        assert(!has_peak(amounts(auction.bids)));
    }
}

/// Who is not the owner cannot edit an auction: an edit that is marked
/// active is turned down with `AccessRejected`, and the ledger stays as it
/// was.
pub proof fn law_only_owner_edits(
    ledger: Map<u64, AuctionView>,
    key: u64,
    payload: CreateAuctionView,
    caller: Seq<u8>,
)
    requires
        ledger.contains_key(key),
        payload.is_active,
        caller != ledger[key].owner,
    ensures
        edit_verdict(ledger, key, payload, caller) == Err::<(), AuctionError>(
            AuctionError::AccessRejected,
        ),
        after_edit(ledger, key, payload, caller) == ledger,
{
}

/// Who is not the owner cannot edit an auction, whatever the payload: the
/// call fails and the ledger stays as it was.
pub proof fn law_stranger_edit_fails(
    ledger: Map<u64, AuctionView>,
    key: u64,
    payload: CreateAuctionView,
    caller: Seq<u8>,
)
    requires
        ledger.contains_key(key),
        caller != ledger[key].owner,
    ensures
        edit_verdict(ledger, key, payload, caller) is Err,
        after_edit(ledger, key, payload, caller) == ledger,
{
}

/// Who is not the owner cannot close an auction: the call is turned down
/// with `AccessRejected`, and the ledger stays as it was.
pub proof fn law_only_owner_closes(ledger: Map<u64, AuctionView>, key: u64, caller: Seq<u8>)
    requires
        ledger.contains_key(key),
        caller != ledger[key].owner,
    ensures
        close_verdict(ledger, key, caller) == Err::<(), AuctionError>(AuctionError::AccessRejected),
        after_close(ledger, key, caller) == ledger,
{
}

/// Creating with an end time that is malformed or not strictly after the
/// current time fails with `InvalidDate`, and nothing is inserted.
pub proof fn law_past_end_time_rejected(
    ledger: Map<u64, AuctionView>,
    key: u64,
    payload: CreateAuctionView,
    caller: Seq<u8>,
    end: Option<Timestamp>,
    now: Timestamp,
)
    requires
        end matches Some(moment) ==> !moment.is_after(now),
    ensures
        create_verdict(ledger, key, end, now) == Err::<(), AuctionError>(AuctionError::InvalidDate),
        after_create(ledger, key, payload, caller, end, now) == ledger,
{
}

/// No operation makes an inactive auction active again, and none but
/// closing makes an active auction inactive.
pub proof fn law_activity_only_ends_by_closing(
    ledger: Map<u64, AuctionView>,
    key: u64,
    target: u64,
    auction: CreateAuctionView,
    bid: CreateBidView,
    caller: Seq<u8>,
    end: Option<Timestamp>,
    now: Timestamp,
)
    requires
        ledger.contains_key(key),
    ensures
        after_create(ledger, target, auction, caller, end, now)[key] == ledger[key],
        after_edit(ledger, target, auction, caller)[key].is_active == ledger[key].is_active,
        after_bid(ledger, target, bid, caller)[key].is_active == ledger[key].is_active,
        !ledger[key].is_active ==> !after_close(ledger, target, caller)[key].is_active,
{
}

} // verus!
