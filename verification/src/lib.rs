//! Payment-gated minting authorization.
//!
//! A collection is configured once (`init_collection`) with a price, a sale
//! start time, a per-wallet purchase cap and payout destinations.  Each
//! purchase attempt (`pay_and_validate`) is admitted only if the sale has
//! started, the buyer's per-wallet counter is below the cap and the configured
//! price is at or above a fixed floor; an admitted purchase then moves the
//! price from the buyer to the creator and the platform (a 99/100 split,
//! rounded down, with the remainder to the platform), increments the buyer's
//! counter and reports a notification event.
//!
//! All persistent state (configurations, per-wallet counters, balances) lives
//! in a [`gate::MintGate`] value, addressed deterministically by binding key
//! and wallet identity; every operation on it is specified as a whole-state
//! transition and verified against that specification.

pub mod errors;
pub mod records;
pub mod split;
pub mod tables;
pub mod gate;
pub mod proofs;
