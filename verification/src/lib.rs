//! Verified core of a two-party conditional asset swap with a custodial
//! vault, a time lock, and an externally scheduled automatic refund.
//!
//! The crate models durable account state (escrow records, vaults, token
//! balances) as plain values and proves the four transition handlers --
//! open, settle, manual refund, automatic refund -- against exact
//! contracts, including the idempotence of the automatic path.  A bridge
//! module builds the byte-level invocation that an external task scheduler
//! replays at maturity, and a small storage module round-trips values
//! through several serialization formats.

pub mod errors;
pub mod codec;
pub mod state;
pub mod models;
pub mod pairmap;
pub mod protocol;
pub mod laws;
pub mod authority;
pub mod schedule;
pub mod serializer;
pub mod storage;
