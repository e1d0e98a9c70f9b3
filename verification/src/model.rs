//! The rules of the ledger as mathematics: what each operation decides and
//! what it leaves behind, over the values of the records.

use vstd::prelude::*;

use crate::deadline::{end_time_verdict, Timestamp};
use crate::identity::anonymous_bytes;
use crate::record::{AuctionError, AuctionView, BidError, BidView, CreateAuctionView, CreateBidView};

verus! {

/// The leading bid of an auction without bids: nothing, offered by nobody.
pub open spec fn sentinel_bid() -> BidView {
    BidView { auction: 0, currency: Seq::empty(), amount: 0, owner: anonymous_bytes() }
}

/// The auction that `caller` creates from `payload`.
pub open spec fn opened(payload: CreateAuctionView, caller: Seq<u8>) -> AuctionView {
    AuctionView {
        title: payload.title,
        detail: payload.detail,
        currency: payload.currency,
        amount: payload.amount,
        end_time: payload.end_time,
        bids: Seq::empty(),
        main_bid: sentinel_bid(),
        owner: caller,
        new_owner: anonymous_bytes(),
        is_active: payload.is_active,
    }
}

/// `prior` with its description replaced by that of `payload`; bids, owner,
/// winner and activity stay as they were.
pub open spec fn revised(prior: AuctionView, payload: CreateAuctionView) -> AuctionView {
    AuctionView {
        title: payload.title,
        detail: payload.detail,
        currency: payload.currency,
        amount: payload.amount,
        end_time: payload.end_time,
        ..prior
    }
}

/// The bid that `caller` makes on auction `key` with `payload`.
pub open spec fn offer(key: u64, payload: CreateBidView, caller: Seq<u8>) -> BidView {
    BidView { auction: key, currency: payload.currency, amount: payload.amount, owner: caller }
}

/// Whether a bid of `amount` by `caller` is accepted on `auction`, and the
/// first reason why not.
pub open spec fn bid_verdict(auction: AuctionView, amount: u32, caller: Seq<u8>) -> Result<
    (),
    BidError,
> {
    if !auction.is_active {
        Err(BidError::AuctionIsNotActive)
    } else if amount <= auction.amount || amount <= auction.main_bid.amount {
        Err(BidError::BidAmountLessThanCurrent)
    } else if caller == auction.main_bid.owner {
        Err(BidError::OwnerCantBid)
    } else {
        Ok(())
    }
}

/// Whether no bid is followed by a higher one.
pub open spec fn sorted_descending(bids: Seq<BidView>) -> bool {
    forall|i: int, j: int| 0 <= i < j < bids.len() ==> bids[i].amount >= bids[j].amount
}

/// The highest amount among `bids`, or 0 where there are none.
pub open spec fn highest_amount(bids: Seq<BidView>) -> u32
    decreases bids.len(),
{
    if bids.len() == 0 {
        0
    } else if bids.last().amount >= highest_amount(bids.drop_last()) {
        bids.last().amount
    } else {
        highest_amount(bids.drop_last())
    }
}

/// The number of bids at the head of `bids` that are not lower than
/// `amount`: the place where a new bid of `amount` belongs.
pub open spec fn rank(bids: Seq<BidView>, amount: u32) -> nat
    decreases bids.len(),
{
    if bids.len() == 0 || bids[0].amount < amount {
        0
    } else {
        1 + rank(bids.drop_first(), amount)
    }
}

/// `bids` with `bid` put in its place.
pub open spec fn placed(bids: Seq<BidView>, bid: BidView) -> Seq<BidView> {
    bids.insert(rank(bids, bid.amount) as int, bid)
}

/// `auction` after `bid` was accepted: the bid leads and stands in its
/// place among the bids.
pub open spec fn with_bid(auction: AuctionView, bid: BidView) -> AuctionView {
    AuctionView { bids: placed(auction.bids, bid), main_bid: bid, ..auction }
}

/// Whether `i` is the first position of the highest value of `heights`,
/// that value being above 0.
pub open spec fn is_first_peak(heights: Seq<int>, i: int) -> bool {
    &&& 0 <= i < heights.len()
    &&& heights[i] > 0
    &&& forall|j: int| 0 <= j < i ==> heights[j] < heights[i]
    &&& forall|j: int| i < j < heights.len() ==> heights[j] <= heights[i]
}

/// Whether some value of `heights` is above 0.
pub open spec fn has_peak(heights: Seq<int>) -> bool {
    exists|i: int| is_first_peak(heights, i)
}

/// The first position of the highest value of `heights`.
pub open spec fn first_peak(heights: Seq<int>) -> int {
    choose|i: int| is_first_peak(heights, i)
}

/// The amounts of `bids`, in their order.
pub open spec fn amounts(bids: Seq<BidView>) -> Seq<int> {
    bids.map_values(|bid: BidView| bid.amount as int)
}

/// Who wins when the bids are `bids`: the owner of the first bid with the
/// highest amount, or nobody where no bid is above 0.
pub open spec fn leading_owner(bids: Seq<BidView>) -> Seq<u8> {
    if has_peak(amounts(bids)) {
        bids[first_peak(amounts(bids))].owner
    } else {
        anonymous_bytes()
    }
}

/// `auction` after closing: inactive, with its winner named.
pub open spec fn closed(auction: AuctionView) -> AuctionView {
    AuctionView { new_owner: leading_owner(auction.bids), is_active: false, ..auction }
}

/// What holds of every auction in the ledger: the bids stand highest
/// first, each above 0; the leading bid is the first of them, or the
/// sentinel while there is none, and its amount is the highest; and an
/// active auction has no winner yet.
pub open spec fn well_formed(auction: AuctionView) -> bool {
    &&& sorted_descending(auction.bids)
    &&& forall|i: int| 0 <= i < auction.bids.len() ==> (#[trigger] auction.bids[i]).amount > 0
    &&& auction.main_bid.amount == highest_amount(auction.bids)
    &&& auction.bids.len() == 0 ==> auction.main_bid == sentinel_bid()
    &&& auction.bids.len() > 0 ==> auction.main_bid == auction.bids[0]
    &&& auction.is_active ==> auction.new_owner == anonymous_bytes()
}

/// The number of bids of each auction in `auctions`.
pub open spec fn bid_counts(auctions: Seq<AuctionView>) -> Seq<int> {
    auctions.map_values(|auction: AuctionView| auction.bids.len() as int)
}

/// The first auction of `auctions` with the most bids, or `None` where
/// none has a bid.
pub open spec fn most_bidded(auctions: Seq<AuctionView>) -> Option<AuctionView> {
    if has_peak(bid_counts(auctions)) {
        Some(auctions[first_peak(bid_counts(auctions))])
    } else {
        None
    }
}

/// Whether `keys` strictly increase.
pub open spec fn ascending(keys: Seq<u64>) -> bool {
    forall|i: int, j: int| 0 <= i < j < keys.len() ==> keys[i] < keys[j]
}

/// Whether `keys` lists the members of `domain` in ascending order.
pub open spec fn lists_keys(keys: Seq<u64>, domain: Set<u64>) -> bool {
    &&& ascending(keys)
    &&& forall|k: u64| domain.contains(k) <==> keys.contains(k)
}

/// The members of `domain` in ascending order.
pub open spec fn key_order(domain: Set<u64>) -> Seq<u64> {
    choose|keys: Seq<u64>| lists_keys(keys, domain)
}

/// The auctions of `ledger` in the order of their keys.
pub open spec fn listing(ledger: Map<u64, AuctionView>) -> Seq<AuctionView> {
    key_order(ledger.dom()).map_values(|k: u64| ledger[k])
}

/// Whether creating an auction under `key` succeeds, and the first reason
/// why not. `end` is the end time as parsed, `now` the current time.
pub open spec fn create_verdict(
    ledger: Map<u64, AuctionView>,
    key: u64,
    end: Option<Timestamp>,
    now: Timestamp,
) -> Result<(), AuctionError> {
    if end_time_verdict(end, now) is Err {
        Err(AuctionError::InvalidDate)
    } else if ledger.contains_key(key) {
        Err(AuctionError::UpdateError)
    } else {
        Ok(())
    }
}

/// The ledger after an attempt to create an auction under `key`.
pub open spec fn after_create(
    ledger: Map<u64, AuctionView>,
    key: u64,
    payload: CreateAuctionView,
    caller: Seq<u8>,
    end: Option<Timestamp>,
    now: Timestamp,
) -> Map<u64, AuctionView> {
    if create_verdict(ledger, key, end, now) is Ok {
        ledger.insert(key, opened(payload, caller))
    } else {
        ledger
    }
}

/// Whether `caller` may edit auction `key` with `payload`, and the first
/// reason why not.
pub open spec fn edit_verdict(
    ledger: Map<u64, AuctionView>,
    key: u64,
    payload: CreateAuctionView,
    caller: Seq<u8>,
) -> Result<(), AuctionError> {
    if !ledger.contains_key(key) {
        Err(AuctionError::NoSuchAuction)
    } else if !payload.is_active {
        Err(AuctionError::AuctionIsNotActive)
    } else if caller != ledger[key].owner {
        Err(AuctionError::AccessRejected)
    } else {
        Ok(())
    }
}

/// The ledger after an attempt to edit auction `key`.
pub open spec fn after_edit(
    ledger: Map<u64, AuctionView>,
    key: u64,
    payload: CreateAuctionView,
    caller: Seq<u8>,
) -> Map<u64, AuctionView> {
    if edit_verdict(ledger, key, payload, caller) is Ok {
        ledger.insert(key, revised(ledger[key], payload))
    } else {
        ledger
    }
}

/// Whether `caller` may close auction `key`, and the first reason why not.
pub open spec fn close_verdict(ledger: Map<u64, AuctionView>, key: u64, caller: Seq<u8>) -> Result<
    (),
    AuctionError,
> {
    if !ledger.contains_key(key) {
        Err(AuctionError::NoSuchAuction)
    } else if caller != ledger[key].owner {
        Err(AuctionError::AccessRejected)
    } else {
        Ok(())
    }
}

/// The ledger after an attempt to close auction `key`.
pub open spec fn after_close(ledger: Map<u64, AuctionView>, key: u64, caller: Seq<u8>) -> Map<
    u64,
    AuctionView,
> {
    if close_verdict(ledger, key, caller) is Ok {
        ledger.insert(key, closed(ledger[key]))
    } else {
        ledger
    }
}

/// Whether a bid by `caller` on auction `key` is accepted, and the first
/// reason why not.
pub open spec fn place_verdict(
    ledger: Map<u64, AuctionView>,
    key: u64,
    payload: CreateBidView,
    caller: Seq<u8>,
) -> Result<(), BidError> {
    if !ledger.contains_key(key) {
        Err(BidError::NoSuchAuction)
    } else {
        bid_verdict(ledger[key], payload.amount, caller)
    }
}

/// The ledger after an attempt to bid on auction `key`.
pub open spec fn after_bid(
    ledger: Map<u64, AuctionView>,
    key: u64,
    payload: CreateBidView,
    caller: Seq<u8>,
) -> Map<u64, AuctionView> {
    if place_verdict(ledger, key, payload, caller) is Ok {
        ledger.insert(key, with_bid(ledger[key], offer(key, payload, caller)))
    } else {
        ledger
    }
}

/// Whether `auction` can be taken into the ledger under `key` as it is:
/// the key is free and the record is as the rules leave one.
pub open spec fn restorable(ledger: Map<u64, AuctionView>, key: u64, auction: AuctionView) -> bool {
    !ledger.contains_key(key) && record_ok(key, auction)
}

/// The ledger after an attempt to take `auction` in under `key`.
pub open spec fn after_restore(
    ledger: Map<u64, AuctionView>,
    key: u64,
    auction: AuctionView,
) -> Map<u64, AuctionView> {
    if restorable(ledger, key, auction) {
        ledger.insert(key, auction)
    } else {
        ledger
    }
}

/// What holds of the record under `key` in the ledger: it is well formed
/// and each of its bids names `key`.
pub open spec fn record_ok(key: u64, auction: AuctionView) -> bool {
    &&& well_formed(auction)
    &&& forall|i: int| 0 <= i < auction.bids.len() ==> (#[trigger] auction.bids[i]).auction == key
}

/// Whether every record of `ledger` is as `record_ok` says.
pub open spec fn consistent(ledger: Map<u64, AuctionView>) -> bool {
    forall|k: u64| #[trigger] ledger.contains_key(k) ==> record_ok(k, ledger[k])
}

} // verus!
