//! A ledger of auctions and their bids.
//!
//! The store keeps one record per auction key and enforces the bidding
//! rules on every change: bids must beat the reserve and the leading bid,
//! the leading bidder may not outbid themselves, and only the owner of an
//! auction may edit or close it.

pub mod deadline;
pub mod identity;
pub mod index;
pub mod laws;
pub mod lemmas;
pub mod model;
pub mod record;
pub mod rules;
pub mod store;
