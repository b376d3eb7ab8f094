//! A bonding-curve exchange for one asset against lamports, with a buyback
//! controller that burns supply out of a treasury pool and a reward program
//! for early buyers.
//!
//! Every operation takes the accounts it works on as plain values, decides
//! whether it goes through, and where it does, says exactly what the
//! accounts hold afterwards and what is to be moved on the ledger. An
//! operation that is refused changes nothing.

pub mod accounts;
pub mod buyback;
pub mod config;
pub mod creator;
pub mod curve;
pub mod early_bird;
pub mod errors;
pub mod events;
pub mod global;
pub mod holder;
pub mod identity;
pub mod keys;
pub mod launch;
pub mod laws;
pub mod math;
pub mod messages;
pub mod trade;
