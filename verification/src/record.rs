//! The records of the ledger and the payloads that create them.

use vstd::prelude::*;

use crate::identity::Identity;

verus! {

/// An offer on an auction.
#[derive(Debug, PartialEq, Eq)]
pub struct Bid {
    /// The key of the auction that the bid was made on.
    pub auction: u64,
    pub currency: String,
    pub amount: u32,
    /// Who made the bid.
    pub owner: Identity,
}

/// What a bidder sends to make a bid.
#[derive(Debug, PartialEq, Eq)]
pub struct CreateBid {
    pub currency: String,
    pub amount: u32,
}

/// A lot for sale, with the bids made on it so far.
#[derive(Debug, PartialEq, Eq)]
pub struct Auction {
    pub title: String,
    pub detail: String,
    pub currency: String,
    /// The reserve: a bid must be higher than this.
    pub amount: u32,
    pub end_time: String,
    /// The accepted bids, highest first.
    pub bids: Vec<Bid>,
    /// The leading bid, or a bid of nothing by nobody while there is none.
    pub main_bid: Bid,
    pub owner: Identity,
    /// The winner once the auction is closed; nobody before that.
    pub new_owner: Identity,
    pub is_active: bool,
}

/// What an owner sends to create or edit an auction.
#[derive(Debug, PartialEq, Eq)]
pub struct CreateAuction {
    pub title: String,
    pub detail: String,
    pub currency: String,
    pub amount: u32,
    pub end_time: String,
    pub is_active: bool,
}

/// Why a bid was turned down.
#[derive(Debug, Clone, Copy, PartialEq, Eq, Structural)]
pub enum BidError {
    AuctionIsNotActive,
    NoSuchAuction,
    BidAmountLessThanCurrent,
    UpdateError,
    OwnerCantBid,
}

/// Why an auction was not created, edited or closed.
#[derive(Debug, Clone, Copy, PartialEq, Eq, Structural)]
pub enum AuctionError {
    AuctionIsNotActive,
    NoSuchAuction,
    AccessRejected,
    UpdateError,
    InvalidDate,
}

/// A bid as a mathematical value.
pub struct BidView {
    pub auction: u64,
    pub currency: Seq<char>,
    pub amount: u32,
    pub owner: Seq<u8>,
}

/// A bid payload as a mathematical value.
pub struct CreateBidView {
    pub currency: Seq<char>,
    pub amount: u32,
}

/// An auction as a mathematical value.
pub struct AuctionView {
    pub title: Seq<char>,
    pub detail: Seq<char>,
    pub currency: Seq<char>,
    pub amount: u32,
    pub end_time: Seq<char>,
    pub bids: Seq<BidView>,
    pub main_bid: BidView,
    pub owner: Seq<u8>,
    pub new_owner: Seq<u8>,
    pub is_active: bool,
}

/// An auction payload as a mathematical value.
pub struct CreateAuctionView {
    pub title: Seq<char>,
    pub detail: Seq<char>,
    pub currency: Seq<char>,
    pub amount: u32,
    pub end_time: Seq<char>,
    pub is_active: bool,
}

/// The values of a list of bids.
pub open spec fn bid_views(bids: Seq<Bid>) -> Seq<BidView> {
    bids.map_values(|bid: Bid| bid@)
}

/// The values of a list of auctions.
pub open spec fn auction_views(auctions: Seq<Auction>) -> Seq<AuctionView> {
    auctions.map_values(|auction: Auction| auction@)
}

impl View for Bid {
    type V = BidView;

    open spec fn view(&self) -> BidView {
        BidView {
            auction: self.auction,
            currency: self.currency@,
            amount: self.amount,
            owner: self.owner@,
        }
    }
}

impl View for CreateBid {
    type V = CreateBidView;

    open spec fn view(&self) -> CreateBidView {
        CreateBidView { currency: self.currency@, amount: self.amount }
    }
}

impl View for Auction {
    type V = AuctionView;

    open spec fn view(&self) -> AuctionView {
        AuctionView {
            title: self.title@,
            detail: self.detail@,
            currency: self.currency@,
            amount: self.amount,
            end_time: self.end_time@,
            bids: bid_views(self.bids@),
            main_bid: self.main_bid@,
            owner: self.owner@,
            new_owner: self.new_owner@,
            is_active: self.is_active,
        }
    }
}

impl View for CreateAuction {
    type V = CreateAuctionView;

    open spec fn view(&self) -> CreateAuctionView {
        CreateAuctionView {
            title: self.title@,
            detail: self.detail@,
            currency: self.currency@,
            amount: self.amount,
            end_time: self.end_time@,
            is_active: self.is_active,
        }
    }
}

impl Clone for Bid {
    fn clone(&self) -> (copy: Self)
        ensures
            copy@ == self@,
    {
        Bid {
            auction: self.auction,
            currency: self.currency.clone(),
            amount: self.amount,
            owner: self.owner.clone(),
        }
    }
}

impl Clone for CreateBid {
    fn clone(&self) -> (copy: Self)
        ensures
            copy@ == self@,
    {
        CreateBid { currency: self.currency.clone(), amount: self.amount }
    }
}

/// A copy of a list of bids.
pub fn clone_bids(bids: &Vec<Bid>) -> (copy: Vec<Bid>)
    ensures
        bid_views(copy@) == bid_views(bids@),
{
    let mut copy: Vec<Bid> = Vec::new();
    let mut i: usize = 0;
    while i < bids.len()
        invariant
            i <= bids.len(),
            copy@.len() == i,
            forall|j: int| 0 <= j < i ==> copy@[j]@ == bids@[j]@,
        decreases bids.len() - i,
    {
        copy.push(bids[i].clone());
        i += 1;
    }
    assert(bid_views(copy@) =~= bid_views(bids@));
    copy
}

impl Clone for Auction {
    fn clone(&self) -> (copy: Self)
        ensures
            copy@ == self@,
    {
        Auction {
            title: self.title.clone(),
            detail: self.detail.clone(),
            currency: self.currency.clone(),
            amount: self.amount,
            end_time: self.end_time.clone(),
            bids: clone_bids(&self.bids),
            main_bid: self.main_bid.clone(),
            owner: self.owner.clone(),
            new_owner: self.new_owner.clone(),
            is_active: self.is_active,
        }
    }
}

impl Clone for CreateAuction {
    fn clone(&self) -> (copy: Self)
        ensures
            copy@ == self@,
    {
        CreateAuction {
            title: self.title.clone(),
            detail: self.detail.clone(),
            currency: self.currency.clone(),
            amount: self.amount,
            end_time: self.end_time.clone(),
            is_active: self.is_active,
        }
    }
}

} // verus!
