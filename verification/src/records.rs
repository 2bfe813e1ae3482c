//! The persisted record types and the caller-supplied identity bundles.

use vstd::prelude::*;

verus! {

/// An opaque 32-byte identity: a wallet, a payout destination, or the binding
/// key that addresses a collection's records.
pub type Pubkey = [u8; 32];

/// Per-collection configuration, created once by `init_collection` and
/// immutable thereafter: no operation of this module updates or destroys it.
#[derive(Clone, Copy, Debug)]
pub struct Config {
    /// The identity that created the collection (recorded, not enforced
    /// further by this module).
    pub authority: Pubkey,
    /// Payout destination for the creator's share.
    pub creator: Pubkey,
    /// Payout destination for the platform's share.
    pub platform: Pubkey,
    /// Price per mint, in minor currency units.
    pub price_lamports: u64,
    /// Unix timestamp before which the sale is inadmissible.
    pub start_time: i64,
    /// Cap on successful purchases per wallet.
    pub per_wallet_limit: u16,
    /// Opaque identifier carried into the notification event; distinct from
    /// the binding key that addresses the record.
    pub collection_id: [u8; 32],
}

/// Per-(collection, wallet) purchase counter, created lazily with `count = 0`
/// on the first purchase attempt and incremented by one on each success.
#[derive(Clone, Copy, Debug, PartialEq, Eq, Structural)]
pub struct Counter {
    /// Number of successful purchases by this wallet for this collection.
    pub count: u16,
}

/// The identities a caller supplies to `init_collection`.  The binding key
/// `collection_seed` is what addresses the new configuration record.
#[derive(Clone, Copy, Debug)]
pub struct InitCollection {
    /// The authenticated caller creating the collection.
    pub authority: Pubkey,
    /// Payout destination recorded for the creator's share.
    pub creator: Pubkey,
    /// Payout destination recorded for the platform's share.
    pub platform: Pubkey,
    /// Binding key under which the configuration record is addressed.
    pub collection_seed: Pubkey,
}

/// The identities a caller supplies to `pay_and_validate`.  The creator and
/// platform identities are not authenticated; they are validated by equality
/// against the ones recorded in the collection's configuration.
#[derive(Clone, Copy, Debug)]
pub struct PayAndValidate {
    /// The authenticated buyer, debited by the price.
    pub buyer: Pubkey,
    /// Expected creator payout destination.
    pub creator: Pubkey,
    /// Expected platform payout destination.
    pub platform: Pubkey,
    /// Binding key of the collection being purchased from.
    pub collection_seed: Pubkey,
}

/// The notification reported by a successful purchase, for external observers.
/// Delivery is fire-and-forget and is no part of the success contract.
#[derive(Clone, Copy, Debug)]
pub struct MintAuthorized {
    /// The configured collection identifier.
    pub collection_id: [u8; 32],
    /// The buyer whose purchase was authorized.
    pub buyer: Pubkey,
}

} // verus!
