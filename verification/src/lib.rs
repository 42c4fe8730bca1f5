//! Ledger engine of a peer-to-peer marketplace.
//!
//! The crate holds the rules of the marketplace as plain functions over
//! plain records: the registry with its fee rate and counters, user profiles
//! with their running reputation, listings, and the purchase lifecycle from
//! sale through completion to review. Storage, identity checks and the
//! movement of funds belong to the host; it hands records in and takes the
//! updated records back.

pub mod error;
pub mod identity;
pub mod listing;
pub mod registry;
pub mod reputation;
pub mod review;
pub mod trade;
pub mod user;
