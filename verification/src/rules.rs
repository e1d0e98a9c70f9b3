//! The rules of the ledger on one record: opening, revising, bidding and
//! closing an auction.

use vstd::prelude::*;

use crate::identity::{anonymous_bytes, Identity};
use crate::lemmas::{
    lemma_first_peak_unique, lemma_highest_amount, lemma_highest_amount_is, lemma_rank_is,
    lemma_steps_down_is_sorted,
};
use crate::model::{
    amounts, bid_verdict, closed, first_peak, has_peak, is_first_peak, leading_owner, offer,
    opened, rank, record_ok, revised, sentinel_bid, sorted_descending, with_bid,
};
use crate::record::{bid_views, Auction, Bid, BidError, CreateAuction, CreateBid};

verus! {

impl Bid {
    /// The leading bid of an auction without bids.
    pub fn sentinel() -> (bid: Bid)
        ensures
            bid@ == sentinel_bid(),
    {
        Bid { auction: 0, currency: String::new(), amount: 0, owner: Identity::anonymous() }
    }

    /// Whether the two bids are the same in every field.
    pub fn same_as(&self, other: &Bid) -> (same: bool)
        ensures
            same == (self@ == other@),
    {
        self.auction == other.auction && self.amount == other.amount && self.currency
            == other.currency && self.owner.same_as(&other.owner)
    }

    /// The bid that `caller` makes on auction `key` with `payload`.
    pub fn offered(key: u64, payload: CreateBid, caller: Identity) -> (bid: Bid)
        ensures
            bid@ == offer(key, payload@, caller@),
    {
        Bid { auction: key, currency: payload.currency, amount: payload.amount, owner: caller }
    }
}

/// The place of a new bid of `amount` among `bids`: behind the bids that
/// are not lower.
pub fn place_of(bids: &Vec<Bid>, amount: u32) -> (place: usize)
    ensures
        place == rank(bid_views(bids@), amount),
        place <= bids@.len(),
{
    let mut place: usize = 0;
    while place < bids.len() && bids[place].amount >= amount
        invariant
            place <= bids@.len(),
            forall|i: int| 0 <= i < place ==> (#[trigger] bid_views(bids@)[i]).amount >= amount,
        decreases bids@.len() - place,
    {
        place += 1;
    }
    proof {
        lemma_rank_is(bid_views(bids@), amount, place as int);
    }
    place
}

impl Auction {
    /// The auction that `caller` creates from `payload`: no bids yet, the
    /// sentinel as leading bid, no winner.
    pub fn open(payload: CreateAuction, caller: Identity) -> (auction: Auction)
        ensures
            auction@ == opened(payload@, caller@),
    {
        let auction = Auction {
            title: payload.title,
            detail: payload.detail,
            currency: payload.currency,
            amount: payload.amount,
            end_time: payload.end_time,
            bids: Vec::new(),
            main_bid: Bid::sentinel(),
            owner: caller,
            new_owner: Identity::anonymous(),
            is_active: payload.is_active,
        };
        assert(auction@.bids =~= Seq::empty());
        auction
    }

    /// This auction with its title, detail, currency, reserve and end time
    /// taken from `payload`. The activity flag of `payload` is not taken.
    pub fn revise(self, payload: CreateAuction) -> (auction: Auction)
        ensures
            auction@ == revised(self@, payload@),
    {
        Auction {
            title: payload.title,
            detail: payload.detail,
            currency: payload.currency,
            amount: payload.amount,
            end_time: payload.end_time,
            bids: self.bids,
            main_bid: self.main_bid,
            owner: self.owner,
            new_owner: self.new_owner,
            is_active: self.is_active,
        }
    }

    /// Whether this record is as the rules leave a record under `key`: its
    /// bids name `key`, are above 0 and stand highest first; its leading
    /// bid is the first of them, or the sentinel where there is none; and
    /// it has no winner while it is active.
    pub fn fits(&self, key: u64) -> (ok: bool)
        ensures
            ok == record_ok(key, self@),
    {
        let ghost bids = self@.bids;
        let count: usize = self.bids.len();
        let mut i: usize = 0;
        while i < count
            invariant
                count == self.bids@.len(),
                bids == self@.bids,
                i <= count,
                forall|j: int|
                    0 <= j < i ==> (#[trigger] bids[j]).amount > 0 && bids[j].auction == key,
                forall|j: int| 0 < j < i ==> (#[trigger] bids[j - 1]).amount >= bids[j].amount,
            decreases count - i,
        {
            assert(bids[i as int] == self.bids@[i as int]@);
            if self.bids[i].amount == 0 || self.bids[i].auction != key {
                return false;
            }
            if i > 0 {
                assert(bids[i - 1] == self.bids@[i - 1]@);
                if self.bids[i - 1].amount < self.bids[i].amount {
                    assert(!sorted_descending(bids));
                    return false;
                }
            }
            i += 1;
        }
        proof {
            lemma_steps_down_is_sorted(bids);
            lemma_highest_amount(bids);
        }
        if self.is_active && !self.new_owner.is_anonymous() {
            return false;
        }
        if count == 0 {
            let sentinel = Bid::sentinel();
            self.main_bid.same_as(&sentinel)
        } else {
            assert(bids[0] == self.bids@[0]@);
            proof {
                lemma_highest_amount_is(bids, 0);
            }
            self.main_bid.same_as(&self.bids[0])
        }
    }

    /// Decides on a bid of `amount` by `caller`: the auction must be
    /// active, the amount above the reserve and above the leading bid, and
    /// the caller not the leading bidder, in this order.
    pub fn check_bid(&self, amount: u32, caller: &Identity) -> (verdict: Result<(), BidError>)
        ensures
            verdict == bid_verdict(self@, amount, caller@),
    {
        if !self.is_active {
            return Err(BidError::AuctionIsNotActive);
        }
        if amount <= self.amount {
            return Err(BidError::BidAmountLessThanCurrent);
        }
        if amount <= self.main_bid.amount {
            return Err(BidError::BidAmountLessThanCurrent);
        }
        if caller.same_as(&self.main_bid.owner) {
            return Err(BidError::OwnerCantBid);
        }
        Ok(())
    }

    /// Takes `bid` in: it becomes the leading bid and is put in its place
    /// among the bids, which stay sorted.
    pub fn accept_bid(&mut self, bid: Bid)
        requires
            sorted_descending(old(self)@.bids),
        ensures
            final(self)@ == with_bid(old(self)@, bid@),
    {
        let place = place_of(&self.bids, bid.amount);
        self.main_bid = bid.clone();
        self.bids.insert(place, bid);
        assert(bid_views(self.bids@) =~= bid_views(old(self).bids@).insert(place as int, bid@));
    }

    /// Who leads: the owner of the first bid with the highest amount, or
    /// the anonymous identity where no bid is above 0.
    pub fn leading_bidder(&self) -> (leader: Identity)
        ensures
            leader@ == leading_owner(self@.bids),
    {
        let mut highest: u32 = 0;
        let mut leader = Identity::anonymous();
        let ghost heights = amounts(self@.bids);
        let ghost mut best: int = -1;
        let mut i: usize = 0;
        while i < self.bids.len()
            invariant
                i <= self.bids@.len(),
                heights == amounts(self@.bids),
                heights.len() == self.bids@.len(),
                -1 <= best < i,
                best == -1 ==> highest == 0 && leader@ == anonymous_bytes(),
                best == -1 ==> forall|j: int| 0 <= j < i ==> heights[j] <= 0,
                best >= 0 ==> heights[best] == highest && highest > 0 && leader@
                    == self@.bids[best].owner,
                best >= 0 ==> forall|j: int| 0 <= j < best ==> heights[j] < heights[best],
                best >= 0 ==> forall|j: int| best < j < i ==> heights[j] <= heights[best],
            decreases self.bids@.len() - i,
        {
            assert(heights[i as int] == self.bids@[i as int].amount);
            if self.bids[i].amount > highest {
                highest = self.bids[i].amount;
                leader = self.bids[i].owner.clone();
                proof {
                    best = i as int;
                }
            }
            i += 1;
        }
        proof {
            if best >= 0 {
                assert(is_first_peak(heights, best));
                lemma_first_peak_unique(heights, best, first_peak(heights));
            } else {
                assert(!has_peak(heights));
            }
        }
        leader
    }

    /// Closes the auction: it is no longer active and its winner is who
    /// leads.
    pub fn close(&mut self)
        ensures
            final(self)@ == closed(old(self)@),
    {
        let winner = self.leading_bidder();
        self.new_owner = winner;
        self.is_active = false;
    }
}

} // verus!
