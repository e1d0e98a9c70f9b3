//! The auction store: one record per auction key, changed only by the
//! operations below.

use vstd::prelude::*;

use crate::deadline::{check_end_time, parse_end_time, parsed_end_time, Timestamp};
use crate::identity::Identity;
use crate::index::{
    index_entries, index_get, index_insert, index_len, index_new, index_pairs, lists_in_key_order,
    KeyIndex,
};
use crate::laws::law_accepted_bid_keeps_record;
use crate::lemmas::{lemma_first_peak_unique, lemma_highest_amount, lemma_key_order_unique};
use crate::model::{
    after_bid, after_close, after_create, after_edit, after_restore, bid_counts, close_verdict,
    consistent, create_verdict, edit_verdict, first_peak, has_peak, is_first_peak, key_order,
    listing, lists_keys, most_bidded, place_verdict, record_ok, restorable,
};
use crate::record::{
    auction_views, bid_views, clone_bids, Auction, AuctionError, AuctionView, Bid, BidError,
    CreateAuction, CreateBid,
};

verus! {

/// The ledger of auctions.
///
/// The keys stand in an ordered index that gives each its slot; the records
/// stand in the slots.
pub struct AuctionStore {
    index: KeyIndex,
    records: Vec<Auction>,
}

/// The value of an auction that may be absent.
pub open spec fn auction_option_view(found: Option<Auction>) -> Option<AuctionView> {
    match found {
        Some(auction) => Some(auction@),
        None => None,
    }
}

impl View for AuctionStore {
    type V = Map<u64, AuctionView>;

    closed spec fn view(&self) -> Map<u64, AuctionView> {
        Map::new(
            |k: u64| index_entries(self.index).contains_key(k),
            |k: u64| self.records@[index_entries(self.index)[k] as int]@,
        )
    }
}

impl AuctionStore {
    /// The index gives every key a slot of its own among the records.
    pub closed spec fn slots_ok(&self) -> bool {
        let entries = index_entries(self.index);
        &&& entries.dom().finite()
        &&& forall|k: u64| #[trigger] entries.contains_key(k) ==> entries[k] < self.records@.len()
        &&& forall|j: u64, k: u64|
            #[trigger] entries.contains_key(j) && #[trigger] entries.contains_key(k) && j != k
                ==> entries[j] != entries[k]
    }

    /// The store is in order: its index and records fit together, and every
    /// record is as the rules leave it.
    pub open spec fn wf(&self) -> bool {
        &&& self.slots_ok()
        &&& consistent(self@)
    }

    /// An empty store.
    pub fn new() -> (store: AuctionStore)
        ensures
            store.wf(),
            store@ == Map::<u64, AuctionView>::empty(),
    {
        let store = AuctionStore { index: index_new(), records: Vec::new() };
        assert(store@ =~= Map::<u64, AuctionView>::empty());
        store
    }

    /// The slot of `key`, if the store has a record under it.
    fn slot_of(&self, key: u64) -> (slot: Option<usize>)
        requires
            self.slots_ok(),
        ensures
            slot is Some <==> self@.contains_key(key),
            slot matches Some(at) ==> at < self.records@.len() && index_entries(self.index)[key]
                == at && self.records@[at as int]@ == self@[key],
    {
        match index_get(&self.index, key) {
            Some(at) => {
                assert(index_entries(self.index).contains_key(key));
                assert(at < self.records.len());
                Some(at as usize)
            },
            None => None,
        }
    }

    /// Puts `next` in the slot of `key` in place of the record there.
    fn replace(&mut self, key: u64, at: usize, next: Auction)
        requires
            old(self).slots_ok(),
            old(self)@.contains_key(key),
            index_entries(old(self).index)[key] == at,
        ensures
            final(self).slots_ok(),
            final(self)@ == old(self)@.insert(key, next@),
    {
        self.records.set(at, next);
        assert(self@ =~= old(self)@.insert(key, next@));
    }

    /// Takes a record that was kept elsewhere back in under `key`, as it is.
    ///
    /// The record is taken exactly when `key` is free and the record is as
    /// the rules leave one; otherwise nothing changes.
    pub fn restore(&mut self, key: u64, auction: Auction) -> (taken: bool)
        requires
            old(self).wf(),
        ensures
            final(self).wf(),
            taken == restorable(old(self)@, key, auction@),
            final(self)@ == after_restore(old(self)@, key, auction@),
    {
        if self.slot_of(key).is_some() || !auction.fits(key) {
            return false;
        }
        self.add(key, auction);
        true
    }

    /// Puts `auction` in a new slot under the free key `key`.
    fn add(&mut self, key: u64, auction: Auction)
        requires
            old(self).wf(),
            !old(self)@.contains_key(key),
            record_ok(key, auction@),
        ensures
            final(self).wf(),
            final(self)@ == old(self)@.insert(key, auction@),
    {
        let at: usize = self.records.len();
        self.records.push(auction);
        let _ = index_insert(&mut self.index, key, at as u64);
        proof {
            assert(self@ =~= old(self)@.insert(key, auction@));
            assert forall|k: u64| #[trigger] self@.contains_key(k) implies record_ok(k, self@[k]) by {
                if k != key {
                    assert(old(self)@.contains_key(k));
                }
            }
        }
    }

    /// Creates an auction under `key` from `payload`, owned by `caller`.
    ///
    /// Fails with `InvalidDate` unless the end time of the payload is an
    /// RFC 3339 date-time strictly after `now`, and with `UpdateError` where
    /// the key is taken. A failed call changes nothing.
    pub fn create_auction(
        &mut self,
        key: u64,
        payload: CreateAuction,
        caller: Identity,
        now: Timestamp,
    ) -> (outcome: Result<(), AuctionError>)
        requires
            old(self).wf(),
        ensures
            final(self).wf(),
            outcome == create_verdict(old(self)@, key, parsed_end_time(payload@.end_time), now),
            final(self)@ == after_create(
                old(self)@,
                key,
                payload@,
                caller@,
                parsed_end_time(payload@.end_time),
                now,
            ),
    {
        let end = parse_end_time(payload.end_time.as_str());
        self.create_auction_ending(key, payload, caller, end, now)
    }

    /// Creates an auction as `create_auction` does, with the end time of
    /// the payload already read: `end` is the moment it names, or `None`
    /// where it names none.
    pub fn create_auction_ending(
        &mut self,
        key: u64,
        payload: CreateAuction,
        caller: Identity,
        end: Option<Timestamp>,
        now: Timestamp,
    ) -> (outcome: Result<(), AuctionError>)
        requires
            old(self).wf(),
        ensures
            final(self).wf(),
            outcome == create_verdict(old(self)@, key, end, now),
            final(self)@ == after_create(old(self)@, key, payload@, caller@, end, now),
    {
        if check_end_time(end, now).is_err() {
            return Err(AuctionError::InvalidDate);
        }
        if self.slot_of(key).is_some() {
            return Err(AuctionError::UpdateError);
        }
        let auction = Auction::open(payload, caller);
        proof {
            lemma_highest_amount(auction@.bids);
        }
        self.add(key, auction);
        Ok(())
    }

    /// Replaces title, detail, currency, reserve and end time of auction
    /// `key` by those of `payload`.
    ///
    /// Fails with `NoSuchAuction` where there is no such auction, with
    /// `AuctionIsNotActive` where the payload is not marked active, and with
    /// `AccessRejected` where `caller` is not the owner, in this order. A
    /// failed call changes nothing.
    pub fn edit_auction(&mut self, key: u64, payload: CreateAuction, caller: &Identity) -> (outcome:
        Result<(), AuctionError>)
        requires
            old(self).wf(),
        ensures
            final(self).wf(),
            outcome == edit_verdict(old(self)@, key, payload@, caller@),
            final(self)@ == after_edit(old(self)@, key, payload@, caller@),
    {
        let at = match self.slot_of(key) {
            Some(at) => at,
            None => {
                return Err(AuctionError::NoSuchAuction);
            },
        };
        if !payload.is_active {
            return Err(AuctionError::AuctionIsNotActive);
        }
        if !caller.same_as(&self.records[at].owner) {
            return Err(AuctionError::AccessRejected);
        }
        let next = self.records[at].clone().revise(payload);
        self.replace(key, at, next);
        proof {
            assert forall|k: u64| #[trigger] self@.contains_key(k) implies record_ok(k, self@[k]) by {
                assert(old(self)@.contains_key(k));
            }
        }
        Ok(())
    }

    /// Closes auction `key`: it becomes inactive, and its winner is the
    /// owner of the first bid with the highest amount, or the anonymous
    /// identity where it has no bid.
    ///
    /// Fails with `NoSuchAuction` where there is no such auction and with
    /// `AccessRejected` where `caller` is not the owner, in this order. A
    /// failed call changes nothing. Closing a closed auction is accepted
    /// and names the winner again.
    pub fn end_proposal(&mut self, key: u64, caller: &Identity) -> (outcome: Result<
        (),
        AuctionError,
    >)
        requires
            old(self).wf(),
        ensures
            final(self).wf(),
            outcome == close_verdict(old(self)@, key, caller@),
            final(self)@ == after_close(old(self)@, key, caller@),
    {
        let at = match self.slot_of(key) {
            Some(at) => at,
            None => {
                return Err(AuctionError::NoSuchAuction);
            },
        };
        if !caller.same_as(&self.records[at].owner) {
            return Err(AuctionError::AccessRejected);
        }
        let mut next = self.records[at].clone();
        next.close();
        self.replace(key, at, next);
        proof {
            assert forall|k: u64| #[trigger] self@.contains_key(k) implies record_ok(k, self@[k]) by {
                assert(old(self)@.contains_key(k));
            }
        }
        Ok(())
    }

    /// Takes a bid by `caller` on auction `auction_key`.
    ///
    /// Fails with `NoSuchAuction` where there is no such auction, with
    /// `AuctionIsNotActive` where it is closed, with
    /// `BidAmountLessThanCurrent` where the amount is not above the reserve
    /// or not above the leading bid, and with `OwnerCantBid` where `caller`
    /// is the leading bidder, in this order. A failed call changes nothing.
    /// An accepted bid becomes the leading bid and the first of the bids.
    pub fn insert_bid(&mut self, auction_key: u64, payload: CreateBid, caller: Identity) -> (outcome:
        Result<(), BidError>)
        requires
            old(self).wf(),
        ensures
            final(self).wf(),
            outcome == place_verdict(old(self)@, auction_key, payload@, caller@),
            final(self)@ == after_bid(old(self)@, auction_key, payload@, caller@),
    {
        let at = match self.slot_of(auction_key) {
            Some(at) => at,
            None => {
                return Err(BidError::NoSuchAuction);
            },
        };
        match self.records[at].check_bid(payload.amount, &caller) {
            Err(reason) => {
                return Err(reason);
            },
            Ok(()) => {},
        }
        let bid = Bid::offered(auction_key, payload, caller);
        let mut next = self.records[at].clone();
        assert(old(self)@.contains_key(auction_key));
        assert(record_ok(auction_key, old(self)@[auction_key]));
        next.accept_bid(bid);
        self.replace(auction_key, at, next);
        proof {
            let prior = old(self)@[auction_key];
            law_accepted_bid_keeps_record(auction_key, prior, bid@);
            assert forall|k: u64| #[trigger] self@.contains_key(k) implies record_ok(k, self@[k]) by {
                assert(old(self)@.contains_key(k));
            }
        }
        Ok(())
    }

    /// The auction under `key`, if there is one.
    pub fn get_auction(&self, key: u64) -> (found: Option<Auction>)
        requires
            self.wf(),
        ensures
            found is Some <==> self@.contains_key(key),
            found matches Some(auction) ==> auction@ == self@[key],
    {
        match self.slot_of(key) {
            Some(at) => Some(self.records[at].clone()),
            None => None,
        }
    }

    /// The bids of the auction under `auction_key`, highest first, if
    /// there is such an auction.
    pub fn get_auction_bids(&self, auction_key: u64) -> (found: Option<Vec<Bid>>)
        requires
            self.wf(),
        ensures
            found is Some <==> self@.contains_key(auction_key),
            found matches Some(bids) ==> bid_views(bids@) == self@[auction_key].bids,
    {
        match self.slot_of(auction_key) {
            Some(at) => Some(clone_bids(&self.records[at].bids)),
            None => None,
        }
    }

    /// The listing of the store goes slot by slot through the pairs of the
    /// index, taken in key order.
    proof fn lemma_listing_follows_pairs(&self, pairs: Seq<(u64, u64)>)
        requires
            self.slots_ok(),
            lists_in_key_order(pairs, index_entries(self.index)),
        ensures
            lists_keys(key_order(self@.dom()), self@.dom()),
            listing(self@).len() == pairs.len(),
            forall|i: int|
                0 <= i < pairs.len() ==> (#[trigger] pairs[i]).1 < self.records@.len()
                    && listing(self@)[i] == self.records@[pairs[i].1 as int]@,
    {
        let entries = index_entries(self.index);
        let keys = pairs.map_values(|pair: (u64, u64)| pair.0);
        let domain = self@.dom();
        assert forall|k: u64| domain.contains(k) <==> keys.contains(k) by {
            if domain.contains(k) {
                assert(entries.contains_key(k));
                let i = choose|i: int| 0 <= i < pairs.len() && (#[trigger] pairs[i]).0 == k;
                assert(keys[i] == k);
            }
            if keys.contains(k) {
                let i = choose|i: int| 0 <= i < keys.len() && keys[i] == k;
                assert(entries.contains_pair(pairs[i].0, pairs[i].1));
            }
        }
        assert forall|i: int, j: int| 0 <= i < j < keys.len() implies keys[i] < keys[j] by {
            assert(pairs[i].0 < pairs[j].0);
        }
        assert(lists_keys(keys, domain));
        lemma_key_order_unique(keys, key_order(domain), domain);
        assert forall|i: int| 0 <= i < pairs.len() implies (#[trigger] pairs[i]).1
            < self.records@.len() && listing(self@)[i] == self.records@[pairs[i].1 as int]@ by {
            assert(entries.contains_pair(pairs[i].0, pairs[i].1));
            assert(entries.contains_key(pairs[i].0));
            assert(keys[i] == pairs[i].0);
        }
    }

    /// All auctions, in the order of their keys. The list is always there,
    /// empty for an empty store.
    pub fn get_auction_list(&self) -> (found: Option<Vec<Auction>>)
        requires
            self.wf(),
        ensures
            found matches Some(auctions) && auction_views(auctions@) == listing(self@),
            lists_keys(key_order(self@.dom()), self@.dom()),
    {
        let pairs = index_pairs(&self.index);
        proof {
            self.lemma_listing_follows_pairs(pairs@);
        }
        let mut auctions: Vec<Auction> = Vec::new();
        let mut i: usize = 0;
        while i < pairs.len()
            invariant
                i <= pairs@.len(),
                auctions@.len() == i,
                listing(self@).len() == pairs@.len(),
                forall|j: int|
                    0 <= j < pairs@.len() ==> (#[trigger] pairs@[j]).1 < self.records@.len()
                        && listing(self@)[j] == self.records@[pairs@[j].1 as int]@,
                forall|j: int| 0 <= j < i ==> auctions@[j]@ == listing(self@)[j],
            decreases pairs@.len() - i,
        {
            assert(pairs@[i as int].1 < self.records.len());
            let at = pairs[i].1 as usize;
            auctions.push(self.records[at].clone());
            i += 1;
        }
        assert(auction_views(auctions@) =~= listing(self@));
        Some(auctions)
    }

    /// The first auction in key order with the most bids, or `None` where
    /// no auction has a bid.
    pub fn get_most_bidded_auction(&self) -> (found: Option<Auction>)
        requires
            self.wf(),
        ensures
            auction_option_view(found) == most_bidded(listing(self@)),
            lists_keys(key_order(self@.dom()), self@.dom()),
    {
        let pairs = index_pairs(&self.index);
        proof {
            self.lemma_listing_follows_pairs(pairs@);
        }
        let ghost heights = bid_counts(listing(self@));
        let ghost mut best: int = -1;
        let mut most: usize = 0;
        let mut leader: Option<usize> = None;
        let mut i: usize = 0;
        while i < pairs.len()
            invariant
                i <= pairs@.len(),
                heights == bid_counts(listing(self@)),
                heights.len() == pairs@.len(),
                listing(self@).len() == pairs@.len(),
                forall|j: int|
                    0 <= j < pairs@.len() ==> (#[trigger] pairs@[j]).1 < self.records@.len()
                        && listing(self@)[j] == self.records@[pairs@[j].1 as int]@,
                -1 <= best < i,
                best == -1 ==> most == 0 && leader is None,
                best == -1 ==> forall|j: int| 0 <= j < i ==> heights[j] <= 0,
                best >= 0 ==> heights[best] == most && most > 0 && leader == Some(
                    pairs@[best].1 as usize,
                ),
                best >= 0 ==> forall|j: int| 0 <= j < best ==> heights[j] < heights[best],
                best >= 0 ==> forall|j: int| best < j < i ==> heights[j] <= heights[best],
            decreases pairs@.len() - i,
        {
            assert(pairs@[i as int].1 < self.records.len());
            let at = pairs[i].1 as usize;
            let count = self.records[at].bids.len();
            assert(heights[i as int] == count);
            if count > most {
                most = count;
                leader = Some(at);
                proof {
                    best = i as int;
                }
            }
            i += 1;
        }
        proof {
            if best >= 0 {
                assert(is_first_peak(heights, best));
                lemma_first_peak_unique(heights, best, first_peak(heights));
            } else {
                assert(!has_peak(heights));
            }
        }
        match leader {
            Some(at) => {
                assert(pairs@[best].1 < self.records.len());
                Some(self.records[at].clone())
            },
            None => None,
        }
    }

    /// The number of auctions.
    pub fn get_auctions_number(&self) -> (count: u64)
        requires
            self.wf(),
        ensures
            self@.dom().finite(),
            count == self@.dom().len(),
    {
        assert(self@.dom() =~= index_entries(self.index).dom());
        index_len(&self.index)
    }
}

} // verus!
