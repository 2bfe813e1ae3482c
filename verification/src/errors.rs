//! Error taxonomy: validation failures and environment-level failures.

use vstd::prelude::*;

verus! {

/// The three validation failures of `pay_and_validate`.  Each is a
/// caller-recoverable outcome, not a crash, and each aborts the purchase with
/// no change to purchase state or balances.
#[derive(Clone, Copy, Debug, PartialEq, Eq, Structural)]
pub enum MintError {
    /// The current time precedes the configured sale start.
    SaleNotStarted,
    /// The buyer's wallet has exhausted its per-wallet allotment.
    PerWalletLimit,
    /// The collection's configured price is below the fixed floor.
    PriceTooLow,
}

/// Failure of `init_collection`: the store refuses to overwrite an existing
/// configuration record, so creation is idempotent by rejection.
#[derive(Clone, Copy, Debug, PartialEq, Eq, Structural)]
pub enum InitError {
    /// A configuration already exists under this binding key.
    ConfigExists,
}

/// Everything that can abort a purchase: a validation failure, or a failure
/// surfaced by the record store and the balance ledger themselves.
#[derive(Clone, Copy, Debug, PartialEq, Eq, Structural)]
pub enum PayError {
    /// No configuration record exists under the given binding key.
    UnknownCollection,
    /// The supplied creator or platform identity does not match the one
    /// recorded in the collection's configuration.
    AddressMismatch,
    /// One of the three validation checks failed.
    Validation(MintError),
    /// The buyer's balance does not cover the price.
    InsufficientFunds,
    /// Crediting a payout destination would overflow its balance.
    BalanceOverflow,
}

} // verus!
