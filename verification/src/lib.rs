//! A bonding-curve token exchange engine.
//!
//! The unit price of an issuer's token grows linearly with the circulating
//! supply. This crate prices purchases and redemptions against that curve,
//! derives the platform fee, and sequences the ledger operations of one
//! request so that the supply counter moves only after every operation of
//! the request has been accepted.

pub mod books;
pub mod buy;
pub mod curve;
pub mod error;
pub mod fee;
pub mod ledger;
pub mod profile;
pub mod progress;
pub mod sell;
pub mod settlement;

pub use buy::{buy_token, BuyToken};
pub use curve::{buy_cost, sell_refund, SLOPE};
pub use error::{ErrorCode, LedgerError};
pub use fee::{buy_total, fee_for, sell_net, FEE_RATE_PERCENT};
pub use ledger::{move_value, Authorization, LedgerOp, Party};
pub use profile::{register_artist, ArtistProfile, RegisterArtist};
pub use progress::Progress;
pub use sell::{sell_token, SellToken};
pub use settlement::{buy_plan, sell_plan, Stage};
