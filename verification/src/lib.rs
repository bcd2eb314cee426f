//! A minimal on-chain pixel registry: a fixed-size grid of pixels that
//! wallets can claim, price, and lease with an expiry and a metadata pointer.
//!
//! The host chain keeps the records; this crate holds the verified logic:
//! the record types, the three request handlers (initialize the board, claim
//! a pixel, update a pixel's license), and a model of the account store that
//! ties them together.

pub mod handlers;
pub mod identity;
pub mod records;
pub mod registry;
