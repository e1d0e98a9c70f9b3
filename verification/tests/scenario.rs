use auction_backend::deadline::Timestamp;
use auction_backend::identity::Identity;
use auction_backend::record::{Auction, AuctionError, Bid, BidError, CreateAuction, CreateBid};
use auction_backend::store::AuctionStore;

fn id(byte: u8) -> Identity {
    Identity::from_bytes(vec![byte]).unwrap()
}

fn now() -> Timestamp {
    // 2024-01-01T00:00:00Z
    Timestamp { secs: 1_704_067_200, nanos: 0 }
}

fn lot(reserve: u32) -> CreateAuction {
    CreateAuction {
        title: "Clock".to_string(),
        detail: "A brass carriage clock".to_string(),
        currency: "USD".to_string(),
        amount: reserve,
        end_time: "2025-01-01T00:00:00Z".to_string(),
        is_active: true,
    }
}

fn offer(amount: u32) -> CreateBid {
    CreateBid { currency: "USD".to_string(), amount }
}

fn bid_of(key: u64, amount: u32, owner: &Identity) -> Bid {
    Bid { auction: key, currency: "USD".to_string(), amount, owner: owner.clone() }
}

fn stored(store: &AuctionStore, key: u64) -> Auction {
    store.get_auction(key).unwrap()
}

#[test]
fn full_auction_from_creation_to_close() {
    let owner = id(1);
    let alice = id(2);
    let bob = id(3);
    let mut store = AuctionStore::new();

    assert_eq!(store.create_auction(1, lot(100), owner.clone(), now()), Ok(()));

    assert_eq!(store.insert_bid(1, offer(150), alice.clone()), Ok(()));
    assert_eq!(stored(&store, 1).main_bid, bid_of(1, 150, &alice));

    assert_eq!(store.insert_bid(1, offer(200), alice.clone()), Err(BidError::OwnerCantBid));
    assert_eq!(
        store.insert_bid(1, offer(120), bob.clone()),
        Err(BidError::BidAmountLessThanCurrent)
    );

    assert_eq!(store.insert_bid(1, offer(180), bob.clone()), Ok(()));
    let auction = stored(&store, 1);
    assert_eq!(auction.main_bid, bid_of(1, 180, &bob));
    assert_eq!(auction.bids, vec![bid_of(1, 180, &bob), bid_of(1, 150, &alice)]);

    assert_eq!(store.end_proposal(1, &owner), Ok(()));
    let auction = stored(&store, 1);
    assert!(!auction.is_active);
    assert_eq!(auction.new_owner, bob);

    assert_eq!(store.end_proposal(1, &alice), Err(AuctionError::AccessRejected));
    let auction = stored(&store, 1);
    assert!(!auction.is_active);
    assert_eq!(auction.new_owner, bob);
}

#[test]
fn created_auction_has_no_bids_and_no_winner() {
    let owner = id(1);
    let mut store = AuctionStore::new();
    assert_eq!(store.create_auction(7, lot(100), owner.clone(), now()), Ok(()));
    let auction = stored(&store, 7);
    assert_eq!(
        auction,
        Auction {
            title: "Clock".to_string(),
            detail: "A brass carriage clock".to_string(),
            currency: "USD".to_string(),
            amount: 100,
            end_time: "2025-01-01T00:00:00Z".to_string(),
            bids: vec![],
            main_bid: Bid {
                auction: 0,
                currency: String::new(),
                amount: 0,
                owner: Identity::anonymous(),
            },
            owner,
            new_owner: Identity::anonymous(),
            is_active: true,
        }
    );
}

#[test]
fn created_auction_takes_the_activity_flag_of_the_payload() {
    let mut store = AuctionStore::new();
    let mut payload = lot(100);
    payload.is_active = false;
    assert_eq!(store.create_auction(1, payload, id(1), now()), Ok(()));
    assert!(!stored(&store, 1).is_active);
    assert_eq!(store.insert_bid(1, offer(500), id(2)), Err(BidError::AuctionIsNotActive));
}

#[test]
fn create_rejects_end_time_in_the_past() {
    let mut store = AuctionStore::new();
    let mut payload = lot(100);
    payload.end_time = "2023-12-31T23:59:59Z".to_string();
    assert_eq!(store.create_auction(1, payload, id(1), now()), Err(AuctionError::InvalidDate));
    assert_eq!(store.get_auctions_number(), 0);
    assert_eq!(store.get_auction(1), None);
}

#[test]
fn create_rejects_end_time_equal_to_now() {
    let mut store = AuctionStore::new();
    let mut payload = lot(100);
    payload.end_time = "2024-01-01T00:00:00Z".to_string();
    assert_eq!(store.create_auction(1, payload, id(1), now()), Err(AuctionError::InvalidDate));
    assert_eq!(store.get_auctions_number(), 0);
}

#[test]
fn create_rejects_malformed_end_time() {
    let mut store = AuctionStore::new();
    let mut payload = lot(100);
    payload.end_time = "next tuesday".to_string();
    assert_eq!(store.create_auction(1, payload, id(1), now()), Err(AuctionError::InvalidDate));
    assert_eq!(store.get_auctions_number(), 0);
}

#[test]
fn create_with_parsed_end_time_follows_the_moment_given() {
    let mut store = AuctionStore::new();
    let later = Timestamp { secs: now().secs, nanos: 1 };
    assert_eq!(
        store.create_auction_ending(1, lot(100), id(1), None, now()),
        Err(AuctionError::InvalidDate)
    );
    assert_eq!(
        store.create_auction_ending(1, lot(100), id(1), Some(now()), now()),
        Err(AuctionError::InvalidDate)
    );
    assert_eq!(store.get_auctions_number(), 0);
    assert_eq!(store.create_auction_ending(1, lot(100), id(1), Some(later), now()), Ok(()));
    assert_eq!(store.get_auctions_number(), 1);
}

#[test]
fn create_on_a_taken_key_fails_and_keeps_the_record() {
    let mut store = AuctionStore::new();
    assert_eq!(store.create_auction(1, lot(100), id(1), now()), Ok(()));
    assert_eq!(store.insert_bid(1, offer(150), id(2)), Ok(()));
    let before = stored(&store, 1);
    assert_eq!(store.create_auction(1, lot(5), id(9), now()), Err(AuctionError::UpdateError));
    assert_eq!(stored(&store, 1), before);
    assert_eq!(store.get_auctions_number(), 1);
}

#[test]
fn date_is_checked_before_the_key() {
    let mut store = AuctionStore::new();
    assert_eq!(store.create_auction(1, lot(100), id(1), now()), Ok(()));
    let mut payload = lot(100);
    payload.end_time = "2020-01-01T00:00:00Z".to_string();
    assert_eq!(store.create_auction(1, payload, id(1), now()), Err(AuctionError::InvalidDate));
}

#[test]
fn edit_replaces_the_description_and_keeps_the_rest() {
    let owner = id(1);
    let alice = id(2);
    let mut store = AuctionStore::new();
    assert_eq!(store.create_auction(1, lot(100), owner.clone(), now()), Ok(()));
    assert_eq!(store.insert_bid(1, offer(150), alice.clone()), Ok(()));
    let payload = CreateAuction {
        title: "Watch".to_string(),
        detail: "A pocket watch".to_string(),
        currency: "EUR".to_string(),
        amount: 400,
        end_time: "not even a date".to_string(),
        is_active: true,
    };
    assert_eq!(store.edit_auction(1, payload, &owner), Ok(()));
    assert_eq!(
        stored(&store, 1),
        Auction {
            title: "Watch".to_string(),
            detail: "A pocket watch".to_string(),
            currency: "EUR".to_string(),
            amount: 400,
            end_time: "not even a date".to_string(),
            bids: vec![bid_of(1, 150, &alice)],
            main_bid: bid_of(1, 150, &alice),
            owner,
            new_owner: Identity::anonymous(),
            is_active: true,
        }
    );
}

#[test]
fn edit_of_a_missing_auction_fails() {
    let mut store = AuctionStore::new();
    assert_eq!(store.edit_auction(1, lot(100), &id(1)), Err(AuctionError::NoSuchAuction));
    assert_eq!(store.get_auctions_number(), 0);
}

#[test]
fn edit_with_an_inactive_payload_fails() {
    let owner = id(1);
    let mut store = AuctionStore::new();
    assert_eq!(store.create_auction(1, lot(100), owner.clone(), now()), Ok(()));
    let before = stored(&store, 1);
    let mut payload = lot(300);
    payload.is_active = false;
    assert_eq!(store.edit_auction(1, payload, &owner), Err(AuctionError::AuctionIsNotActive));
    assert_eq!(stored(&store, 1), before);
}

#[test]
fn inactive_payload_is_reported_before_the_wrong_caller() {
    let mut store = AuctionStore::new();
    assert_eq!(store.create_auction(1, lot(100), id(1), now()), Ok(()));
    let mut payload = lot(300);
    payload.is_active = false;
    assert_eq!(store.edit_auction(1, payload, &id(2)), Err(AuctionError::AuctionIsNotActive));
}

#[test]
fn edit_by_another_caller_is_rejected() {
    let mut store = AuctionStore::new();
    assert_eq!(store.create_auction(1, lot(100), id(1), now()), Ok(()));
    let before = stored(&store, 1);
    assert_eq!(store.edit_auction(1, lot(300), &id(2)), Err(AuctionError::AccessRejected));
    assert_eq!(stored(&store, 1), before);
}

#[test]
fn edit_of_a_closed_auction_keeps_it_closed() {
    let owner = id(1);
    let mut store = AuctionStore::new();
    assert_eq!(store.create_auction(1, lot(100), owner.clone(), now()), Ok(()));
    assert_eq!(store.end_proposal(1, &owner), Ok(()));
    assert_eq!(store.edit_auction(1, lot(300), &owner), Ok(()));
    let auction = stored(&store, 1);
    assert!(!auction.is_active);
    assert_eq!(auction.amount, 300);
}

#[test]
fn close_without_bids_names_nobody() {
    let owner = id(1);
    let mut store = AuctionStore::new();
    assert_eq!(store.create_auction(1, lot(100), owner.clone(), now()), Ok(()));
    assert_eq!(store.end_proposal(1, &owner), Ok(()));
    let auction = stored(&store, 1);
    assert!(!auction.is_active);
    assert_eq!(auction.new_owner, Identity::anonymous());
    assert!(auction.new_owner.is_anonymous());
}

#[test]
fn close_of_a_missing_auction_fails() {
    let mut store = AuctionStore::new();
    assert_eq!(store.end_proposal(4, &id(1)), Err(AuctionError::NoSuchAuction));
}

#[test]
fn close_by_another_caller_is_rejected() {
    let mut store = AuctionStore::new();
    assert_eq!(store.create_auction(1, lot(100), id(1), now()), Ok(()));
    assert_eq!(store.insert_bid(1, offer(150), id(2)), Ok(()));
    let before = stored(&store, 1);
    assert_eq!(store.end_proposal(1, &id(2)), Err(AuctionError::AccessRejected));
    assert_eq!(stored(&store, 1), before);
}

#[test]
fn closing_twice_is_accepted() {
    let owner = id(1);
    let mut store = AuctionStore::new();
    assert_eq!(store.create_auction(1, lot(100), owner.clone(), now()), Ok(()));
    assert_eq!(store.insert_bid(1, offer(150), id(2)), Ok(()));
    assert_eq!(store.end_proposal(1, &owner), Ok(()));
    let first = stored(&store, 1);
    assert_eq!(store.end_proposal(1, &owner), Ok(()));
    assert_eq!(stored(&store, 1), first);
    assert_eq!(first.new_owner, id(2));
}

#[test]
fn bid_on_a_missing_auction_fails() {
    let mut store = AuctionStore::new();
    assert_eq!(store.insert_bid(1, offer(150), id(2)), Err(BidError::NoSuchAuction));
}

#[test]
fn bid_on_a_closed_auction_fails() {
    let owner = id(1);
    let mut store = AuctionStore::new();
    assert_eq!(store.create_auction(1, lot(100), owner.clone(), now()), Ok(()));
    assert_eq!(store.end_proposal(1, &owner), Ok(()));
    let before = stored(&store, 1);
    assert_eq!(store.insert_bid(1, offer(150), id(2)), Err(BidError::AuctionIsNotActive));
    assert_eq!(stored(&store, 1), before);
}

#[test]
fn closed_is_reported_before_a_low_amount() {
    let owner = id(1);
    let mut store = AuctionStore::new();
    assert_eq!(store.create_auction(1, lot(100), owner.clone(), now()), Ok(()));
    assert_eq!(store.end_proposal(1, &owner), Ok(()));
    assert_eq!(store.insert_bid(1, offer(1), id(2)), Err(BidError::AuctionIsNotActive));
}

#[test]
fn bid_at_the_reserve_is_too_low() {
    let mut store = AuctionStore::new();
    assert_eq!(store.create_auction(1, lot(100), id(1), now()), Ok(()));
    let before = stored(&store, 1);
    assert_eq!(store.insert_bid(1, offer(100), id(2)), Err(BidError::BidAmountLessThanCurrent));
    assert_eq!(store.insert_bid(1, offer(0), id(2)), Err(BidError::BidAmountLessThanCurrent));
    assert_eq!(stored(&store, 1), before);
    assert_eq!(store.insert_bid(1, offer(101), id(2)), Ok(()));
}

#[test]
fn bid_at_the_leading_amount_is_too_low() {
    let mut store = AuctionStore::new();
    assert_eq!(store.create_auction(1, lot(100), id(1), now()), Ok(()));
    assert_eq!(store.insert_bid(1, offer(150), id(2)), Ok(()));
    let before = stored(&store, 1);
    assert_eq!(store.insert_bid(1, offer(150), id(3)), Err(BidError::BidAmountLessThanCurrent));
    assert_eq!(stored(&store, 1), before);
    assert_eq!(store.insert_bid(1, offer(151), id(3)), Ok(()));
}

#[test]
fn low_amount_is_reported_before_the_leading_bidder() {
    let mut store = AuctionStore::new();
    assert_eq!(store.create_auction(1, lot(100), id(1), now()), Ok(()));
    assert_eq!(store.insert_bid(1, offer(150), id(2)), Ok(()));
    assert_eq!(store.insert_bid(1, offer(150), id(2)), Err(BidError::BidAmountLessThanCurrent));
}

#[test]
fn leading_bidder_cannot_raise_their_own_bid() {
    let mut store = AuctionStore::new();
    assert_eq!(store.create_auction(1, lot(100), id(1), now()), Ok(()));
    assert_eq!(store.insert_bid(1, offer(150), id(2)), Ok(()));
    let before = stored(&store, 1);
    assert_eq!(store.insert_bid(1, offer(u32::MAX), id(2)), Err(BidError::OwnerCantBid));
    assert_eq!(stored(&store, 1), before);
}

#[test]
fn outbid_bidder_may_bid_again() {
    let mut store = AuctionStore::new();
    assert_eq!(store.create_auction(1, lot(100), id(1), now()), Ok(()));
    assert_eq!(store.insert_bid(1, offer(150), id(2)), Ok(()));
    assert_eq!(store.insert_bid(1, offer(160), id(3)), Ok(()));
    assert_eq!(store.insert_bid(1, offer(170), id(2)), Ok(()));
    let auction = stored(&store, 1);
    assert_eq!(
        auction.bids,
        vec![bid_of(1, 170, &id(2)), bid_of(1, 160, &id(3)), bid_of(1, 150, &id(2))]
    );
    assert_eq!(auction.main_bid, bid_of(1, 170, &id(2)));
}

#[test]
fn creator_may_bid_on_their_own_auction() {
    let owner = id(1);
    let mut store = AuctionStore::new();
    assert_eq!(store.create_auction(1, lot(100), owner.clone(), now()), Ok(()));
    assert_eq!(store.insert_bid(1, offer(150), owner.clone()), Ok(()));
    assert_eq!(stored(&store, 1).main_bid.owner, owner);
}

#[test]
fn anonymous_caller_cannot_open_the_bidding() {
    let mut store = AuctionStore::new();
    assert_eq!(store.create_auction(1, lot(100), id(1), now()), Ok(()));
    assert_eq!(store.insert_bid(1, offer(150), Identity::anonymous()), Err(BidError::OwnerCantBid));
    assert_eq!(stored(&store, 1).bids, vec![]);
}

#[test]
fn bid_keeps_its_own_currency() {
    let mut store = AuctionStore::new();
    assert_eq!(store.create_auction(1, lot(100), id(1), now()), Ok(()));
    let payload = CreateBid { currency: "EUR".to_string(), amount: 150 };
    assert_eq!(store.insert_bid(1, payload, id(2)), Ok(()));
    let auction = stored(&store, 1);
    assert_eq!(auction.main_bid.currency, "EUR");
    assert_eq!(auction.bids[0].currency, "EUR");
    assert_eq!(auction.currency, "USD");
}

#[test]
fn leading_amount_is_the_highest_after_every_bid() {
    let mut store = AuctionStore::new();
    assert_eq!(store.create_auction(1, lot(10), id(1), now()), Ok(()));
    assert_eq!(stored(&store, 1).main_bid.amount, 0);
    let amounts = [11u32, 12, 40, 41, 1000, 70_000, u32::MAX];
    for (round, amount) in amounts.iter().enumerate() {
        let bidder = id(2 + (round % 2) as u8);
        assert_eq!(store.insert_bid(1, offer(*amount), bidder), Ok(()));
        let auction = stored(&store, 1);
        let highest = auction.bids.iter().map(|bid| bid.amount).max().unwrap_or(0);
        assert_eq!(auction.main_bid.amount, highest);
        assert_eq!(auction.main_bid.amount, *amount);
        assert!(auction.bids.windows(2).all(|pair| pair[0].amount >= pair[1].amount));
        assert_eq!(auction.bids.len(), round + 1);
        assert!(auction.bids.iter().all(|bid| bid.auction == 1));
    }
}

#[test]
fn bids_of_an_auction_are_listed_highest_first() {
    let mut store = AuctionStore::new();
    assert_eq!(store.get_auction_bids(1), None);
    assert_eq!(store.create_auction(1, lot(100), id(1), now()), Ok(()));
    assert_eq!(store.get_auction_bids(1), Some(vec![]));
    assert_eq!(store.insert_bid(1, offer(150), id(2)), Ok(()));
    assert_eq!(store.insert_bid(1, offer(175), id(3)), Ok(()));
    assert_eq!(
        store.get_auction_bids(1),
        Some(vec![bid_of(1, 175, &id(3)), bid_of(1, 150, &id(2))])
    );
}

#[test]
fn auctions_are_listed_in_key_order() {
    let mut store = AuctionStore::new();
    assert_eq!(store.get_auction_list(), Some(vec![]));
    for key in [30u64, 10, 20, u64::MAX, 0] {
        let mut payload = lot(100);
        payload.title = format!("lot {}", key);
        assert_eq!(store.create_auction(key, payload, id(1), now()), Ok(()));
    }
    let titles: Vec<String> =
        store.get_auction_list().unwrap().into_iter().map(|auction| auction.title).collect();
    assert_eq!(
        titles,
        vec![
            "lot 0".to_string(),
            "lot 10".to_string(),
            "lot 20".to_string(),
            "lot 30".to_string(),
            format!("lot {}", u64::MAX),
        ]
    );
}

#[test]
fn number_of_auctions_counts_keys() {
    let mut store = AuctionStore::new();
    assert_eq!(store.get_auctions_number(), 0);
    assert_eq!(store.create_auction(5, lot(100), id(1), now()), Ok(()));
    assert_eq!(store.create_auction(6, lot(100), id(1), now()), Ok(()));
    assert_eq!(store.get_auctions_number(), 2);
    assert_eq!(store.create_auction(5, lot(100), id(1), now()), Err(AuctionError::UpdateError));
    assert_eq!(store.insert_bid(5, offer(150), id(2)), Ok(()));
    assert_eq!(store.end_proposal(6, &id(1)), Ok(()));
    assert_eq!(store.get_auctions_number(), 2);
}

#[test]
fn missing_auction_is_not_found() {
    let mut store = AuctionStore::new();
    assert_eq!(store.get_auction(1), None);
    assert_eq!(store.create_auction(2, lot(100), id(1), now()), Ok(()));
    assert_eq!(store.get_auction(1), None);
    assert_eq!(store.get_auction(2).map(|auction| auction.amount), Some(100));
}

#[test]
fn most_bidded_auction_is_none_without_bids() {
    let mut store = AuctionStore::new();
    assert_eq!(store.get_most_bidded_auction(), None);
    assert_eq!(store.create_auction(1, lot(100), id(1), now()), Ok(()));
    assert_eq!(store.create_auction(2, lot(100), id(1), now()), Ok(()));
    assert_eq!(store.get_most_bidded_auction(), None);
}

#[test]
fn most_bidded_auction_has_the_most_bids() {
    let mut store = AuctionStore::new();
    for key in [3u64, 1, 2] {
        let mut payload = lot(100);
        payload.title = format!("lot {}", key);
        assert_eq!(store.create_auction(key, payload, id(1), now()), Ok(()));
    }
    assert_eq!(store.insert_bid(3, offer(150), id(2)), Ok(()));
    assert_eq!(store.get_most_bidded_auction().unwrap().title, "lot 3");
    assert_eq!(store.insert_bid(2, offer(150), id(2)), Ok(()));
    assert_eq!(store.insert_bid(2, offer(160), id(3)), Ok(()));
    let found = store.get_most_bidded_auction().unwrap();
    assert_eq!(found.title, "lot 2");
    assert_eq!(found.bids.len(), 2);
}

#[test]
fn most_bidded_auction_takes_the_lowest_key_among_equals() {
    let mut store = AuctionStore::new();
    for key in [9u64, 4, 6] {
        let mut payload = lot(100);
        payload.title = format!("lot {}", key);
        assert_eq!(store.create_auction(key, payload, id(1), now()), Ok(()));
    }
    assert_eq!(store.insert_bid(9, offer(150), id(2)), Ok(()));
    assert_eq!(store.insert_bid(6, offer(150), id(2)), Ok(()));
    assert_eq!(store.get_most_bidded_auction().unwrap().title, "lot 6");
    assert_eq!(store.insert_bid(4, offer(150), id(2)), Ok(()));
    assert_eq!(store.get_most_bidded_auction().unwrap().title, "lot 4");
}

#[test]
fn auctions_do_not_share_their_bids() {
    let mut store = AuctionStore::new();
    assert_eq!(store.create_auction(1, lot(100), id(1), now()), Ok(()));
    assert_eq!(store.create_auction(2, lot(10), id(1), now()), Ok(()));
    assert_eq!(store.insert_bid(1, offer(150), id(2)), Ok(()));
    assert_eq!(store.insert_bid(2, offer(20), id(2)), Ok(()));
    assert_eq!(store.get_auction_bids(1), Some(vec![bid_of(1, 150, &id(2))]));
    assert_eq!(store.get_auction_bids(2), Some(vec![bid_of(2, 20, &id(2))]));
    assert_eq!(store.end_proposal(1, &id(1)), Ok(()));
    assert!(stored(&store, 2).is_active);
}

#[test]
fn restored_records_are_taken_as_they_are() {
    let owner = id(1);
    let mut first = AuctionStore::new();
    assert_eq!(first.create_auction(1, lot(100), owner.clone(), now()), Ok(()));
    assert_eq!(first.insert_bid(1, offer(150), id(2)), Ok(()));
    assert_eq!(first.insert_bid(1, offer(160), id(3)), Ok(()));
    assert_eq!(first.create_auction(2, lot(100), owner.clone(), now()), Ok(()));
    assert_eq!(first.end_proposal(2, &owner), Ok(()));

    let mut second = AuctionStore::new();
    assert!(second.restore(2, stored(&first, 2)));
    assert!(second.restore(1, stored(&first, 1)));
    assert_eq!(second.get_auction_list(), first.get_auction_list());
    assert_eq!(second.get_auctions_number(), 2);
    assert_eq!(second.insert_bid(1, offer(155), id(2)), Err(BidError::BidAmountLessThanCurrent));
    assert_eq!(second.insert_bid(1, offer(170), id(2)), Ok(()));
}

#[test]
fn restore_turns_down_a_taken_key_and_a_damaged_record() {
    let mut store = AuctionStore::new();
    assert_eq!(store.create_auction(1, lot(100), id(1), now()), Ok(()));
    let record = stored(&store, 1);
    assert!(!store.restore(1, record.clone()));

    let mut damaged = record.clone();
    damaged.bids = vec![bid_of(2, 150, &id(2))];
    assert!(!store.restore(2, damaged));

    let mut unsorted = record.clone();
    unsorted.bids = vec![bid_of(2, 150, &id(2)), bid_of(2, 160, &id(3))];
    unsorted.main_bid = bid_of(2, 150, &id(2));
    assert!(!store.restore(2, unsorted));

    assert_eq!(store.get_auctions_number(), 1);
    assert_eq!(store.get_auction(2), None);
    assert!(store.restore(2, record));
}
