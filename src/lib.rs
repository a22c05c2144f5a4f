//! An escrow exchange: a bidder locks a token amount for one designated taker,
//! who either takes it by paying the agreed price, or the bidder takes it back.
//!
//! The offer store and the create / take / refund lifecycle are verified; the
//! host environment supplies caller identities and performs the transfers that
//! the operations hand back.

pub mod address;
pub mod amount;
pub mod structure_elements;
pub mod offer_store;
pub mod barterswap;
pub mod laws;
