//! The admission and settlement engine over the persistent store.
//!
//! A [`MintGate`] holds all persistent state: configuration records, per-wallet
//! purchase counters and the balance ledger.  Its two operations are specified
//! as whole-state transitions ([`init_step`] and [`pay_step`]) over the
//! abstract [`GateView`], and the executable code is verified to implement
//! those transitions exactly.

use vstd::prelude::*;
use crate::errors::InitError;
use crate::errors::MintError;
use crate::errors::PayError;
use crate::records::Config;
use crate::records::Counter;
use crate::records::InitCollection;
use crate::records::MintAuthorized;
use crate::records::PayAndValidate;
use crate::records::Pubkey;
use crate::split::MIN_PRICE_LAMPORTS;
use crate::split::creator_cut;
use crate::split::split_payment;
use crate::tables::BalanceEntry;
use crate::tables::ConfigEntry;
use crate::tables::CounterEntry;
use crate::tables::bal;
use crate::tables::balance_get;
use crate::tables::balance_map;
use crate::tables::balance_put;
use crate::tables::balance_wf;
use crate::tables::config_get;
use crate::tables::config_map;
use crate::tables::config_put_new;
use crate::tables::config_wf;
use crate::tables::counter_get;
use crate::tables::counter_map;
use crate::tables::counter_put;
use crate::tables::counter_wf;
use crate::tables::keys_eq;

verus! {

/// The abstract state of a [`MintGate`]: three finite maps, keyed by the
/// stable addressing inputs of each record kind.
#[verifier::ext_equal]
pub struct GateView {
    /// Configuration records, by binding key.
    pub configs: Map<Seq<u8>, Config>,
    /// Purchase counts, by (binding key, wallet).
    pub counters: Map<(Seq<u8>, Seq<u8>), u16>,
    /// Balances, by owning identity.
    pub balances: Map<Seq<u8>, u64>,
}

/// The count a wallet stands at: its counter's value, or zero while no
/// counter record exists yet.
pub open spec fn counter_at(s: GateView, seed: Seq<u8>, wallet: Seq<u8>) -> u16 {
    if s.counters.contains_key((seed, wallet)) {
        s.counters[(seed, wallet)]
    } else {
        0
    }
}

/// Lazy materialization: ensure the wallet's counter record exists, creating
/// it with count zero if absent.  This runs before the limit check and its
/// effect persists even when a later check fails.
pub open spec fn materialize_counter(s: GateView, seed: Seq<u8>, wallet: Seq<u8>) -> GateView {
    if s.counters.contains_key((seed, wallet)) {
        s
    } else {
        GateView { counters: s.counters.insert((seed, wallet), 0), ..s }
    }
}

/// The admission decision on plain values: the three validation checks in
/// their fixed order, short-circuiting on the first failure.
pub open spec fn admission(
    price_lamports: u64,
    start_time: i64,
    per_wallet_limit: u16,
    count: u16,
    now: i64,
) -> Result<(), MintError> {
    if now < start_time {
        Err(MintError::SaleNotStarted)
    } else if count >= per_wallet_limit {
        Err(MintError::PerWalletLimit)
    } else if price_lamports < MIN_PRICE_LAMPORTS {
        Err(MintError::PriceTooLow)
    } else {
        Ok(())
    }
}

/// Decide admission of one purchase attempt from the configuration's values,
/// the wallet's current count and the current time.  This is the decision
/// core for a host that keeps the records itself and only needs the verdict.
pub fn validate_purchase(
    price_lamports: u64,
    start_time: i64,
    per_wallet_limit: u16,
    count: u16,
    now: i64,
) -> (r: Result<(), MintError>)
    ensures
        r == admission(price_lamports, start_time, per_wallet_limit, count, now),
{
    if now < start_time {
        Err(MintError::SaleNotStarted)
    } else if count >= per_wallet_limit {
        Err(MintError::PerWalletLimit)
    } else if price_lamports < MIN_PRICE_LAMPORTS {
        Err(MintError::PriceTooLow)
    } else {
        Ok(())
    }
}

/// The configuration record `init_collection` writes.
pub open spec fn init_config(
    accs: InitCollection,
    price_lamports: u64,
    start_time: i64,
    per_wallet_limit: u16,
    collection_id: [u8; 32],
) -> Config {
    Config {
        authority: accs.authority,
        creator: accs.creator,
        platform: accs.platform,
        price_lamports,
        start_time,
        per_wallet_limit,
        collection_id,
    }
}

/// The transition of `init_collection`: creation is exclusive, so a binding
/// key already in use leaves the state unchanged and fails.
pub open spec fn init_step(
    s: GateView,
    accs: InitCollection,
    price_lamports: u64,
    start_time: i64,
    per_wallet_limit: u16,
    collection_id: [u8; 32],
) -> (GateView, Result<(), InitError>) {
    if s.configs.contains_key(accs.collection_seed@) {
        (s, Err(InitError::ConfigExists))
    } else {
        let c = init_config(accs, price_lamports, start_time, per_wallet_limit, collection_id);
        (GateView { configs: s.configs.insert(accs.collection_seed@, c), ..s }, Ok(()))
    }
}

/// The transition of `pay_and_validate`.
///
/// The checks run in a fixed order and the first failure aborts the whole
/// operation: unknown binding key; payout identities differing from the
/// configured ones; sale not started; then, after the counter record is
/// materialized, the per-wallet limit, the price floor, the buyer's funds and
/// the two credit overflows.  Only a fully successful run moves funds and
/// increments the counter; every failure after materialization leaves exactly
/// the materialized state, and every failure before it leaves the state
/// untouched.
pub open spec fn pay_step(s: GateView, accs: PayAndValidate, now: i64) -> (
    GateView,
    Result<MintAuthorized, PayError>,
) {
    let seed = accs.collection_seed@;
    let wallet = accs.buyer@;
    if !s.configs.contains_key(seed) {
        (s, Err(PayError::UnknownCollection))
    } else {
        let cfg = s.configs[seed];
        if accs.creator@ != cfg.creator@ || accs.platform@ != cfg.platform@ {
            (s, Err(PayError::AddressMismatch))
        } else if now < cfg.start_time {
            (s, Err(PayError::Validation(MintError::SaleNotStarted)))
        } else {
            let s1 = materialize_counter(s, seed, wallet);
            let count = counter_at(s, seed, wallet);
            if count >= cfg.per_wallet_limit {
                (s1, Err(PayError::Validation(MintError::PerWalletLimit)))
            } else if cfg.price_lamports < MIN_PRICE_LAMPORTS {
                (s1, Err(PayError::Validation(MintError::PriceTooLow)))
            } else {
                let price = cfg.price_lamports;
                let to_creator = creator_cut(price);
                let to_platform = (price - to_creator) as u64;
                let buyer_bal = bal(s.balances, wallet);
                if buyer_bal < price {
                    (s1, Err(PayError::InsufficientFunds))
                } else {
                    let m1 = s.balances.insert(wallet, (buyer_bal - price) as u64);
                    if bal(m1, cfg.creator@) + to_creator > u64::MAX {
                        (s1, Err(PayError::BalanceOverflow))
                    } else {
                        let m2 = m1.insert(
                            cfg.creator@,
                            (bal(m1, cfg.creator@) + to_creator) as u64,
                        );
                        if bal(m2, cfg.platform@) + to_platform > u64::MAX {
                            (s1, Err(PayError::BalanceOverflow))
                        } else {
                            let m3 = m2.insert(
                                cfg.platform@,
                                (bal(m2, cfg.platform@) + to_platform) as u64,
                            );
                            let s2 = GateView {
                                counters: s1.counters.insert((seed, wallet), (count + 1) as u16),
                                balances: m3,
                                ..s1
                            };
                            let ev = MintAuthorized {
                                collection_id: cfg.collection_id,
                                buyer: accs.buyer,
                            };
                            (s2, Ok(ev))
                        }
                    }
                }
            }
        }
    }
}

/// The state `pay_and_validate` leaves behind.
pub open spec fn pay_post(s: GateView, accs: PayAndValidate, now: i64) -> GateView {
    pay_step(s, accs, now).0
}

/// The outcome `pay_and_validate` returns.
pub open spec fn pay_result(s: GateView, accs: PayAndValidate, now: i64) -> Result<
    MintAuthorized,
    PayError,
> {
    pay_step(s, accs, now).1
}

/// The persistent store and the engine over it: configuration records,
/// per-wallet counters and the balance ledger.
pub struct MintGate {
    configs: Vec<ConfigEntry>,
    counters: Vec<CounterEntry>,
    balances: Vec<BalanceEntry>,
}

impl View for MintGate {
    type V = GateView;

    closed spec fn view(&self) -> GateView {
        GateView {
            configs: config_map(self.configs@),
            counters: counter_map(self.counters@),
            balances: balance_map(self.balances@),
        }
    }
}

impl MintGate {
    /// Well-formed: each table holds pairwise-distinct keys, so every record
    /// is addressed by exactly one entry.
    pub closed spec fn wf(&self) -> bool {
        config_wf(self.configs@) && counter_wf(self.counters@) && balance_wf(self.balances@)
    }

    /// An empty store: no collections, no counters, no balances.
    pub fn new() -> (gate: MintGate)
        ensures
            gate.wf(),
            gate@ == (GateView {
                configs: Map::empty(),
                counters: Map::empty(),
                balances: Map::empty(),
            }),
    {
        MintGate { configs: Vec::new(), counters: Vec::new(), balances: Vec::new() }
    }

    /// Create a collection's configuration record at the address derived from
    /// the caller's binding key.  Creation is one-shot: if a configuration
    /// already exists under that key, nothing changes and the call fails, so
    /// a second creation can never overwrite the first.
    pub fn init_collection(
        &mut self,
        accs: &InitCollection,
        price_lamports: u64,
        start_time: i64,
        per_wallet_limit: u16,
        collection_id: [u8; 32],
    ) -> (r: Result<(), InitError>)
        requires
            old(self).wf(),
        ensures
            final(self).wf(),
            (final(self)@, r) == init_step(
                old(self)@,
                *accs,
                price_lamports,
                start_time,
                per_wallet_limit,
                collection_id,
            ),
    {
        match config_get(&self.configs, &accs.collection_seed) {
            Some(_) => Err(InitError::ConfigExists),
            None => {
                let c = Config {
                    authority: accs.authority,
                    creator: accs.creator,
                    platform: accs.platform,
                    price_lamports,
                    start_time,
                    per_wallet_limit,
                    collection_id,
                };
                config_put_new(
                    &mut self.configs,
                    ConfigEntry { seed: accs.collection_seed, config: c },
                );
                Ok(())
            },
        }
    }

    /// Validate and settle one purchase attempt at time `now`.
    ///
    /// On success the buyer is debited by the configured price, the creator
    /// and the platform are credited with its exact split, the buyer's
    /// counter is incremented by one, and the returned [`MintAuthorized`]
    /// value is the notification to report.  On failure the error says which
    /// check refused the purchase, no funds move and no count changes; the
    /// only state a failure can leave behind is the freshly materialized
    /// zero counter of a first-time buyer.
    pub fn pay_and_validate(&mut self, accs: &PayAndValidate, now: i64) -> (r: Result<
        MintAuthorized,
        PayError,
    >)
        requires
            old(self).wf(),
        ensures
            final(self).wf(),
            (final(self)@, r) == pay_step(old(self)@, *accs, now),
    {
        let cfg = match config_get(&self.configs, &accs.collection_seed) {
            Some(c) => c,
            None => {
                return Err(PayError::UnknownCollection);
            },
        };
        if !(keys_eq(&accs.creator, &cfg.creator) && keys_eq(
            &accs.platform,
            &cfg.platform,
        )) {
            return Err(PayError::AddressMismatch);
        }
        if now < cfg.start_time {
            return Err(PayError::Validation(MintError::SaleNotStarted));
        }
        // Materialize the counter record before the limit check; this is the
        // one effect that persists across the remaining failure paths.
        let count: u16 = match counter_get(&self.counters, &accs.collection_seed, &accs.buyer) {
            Some(n) => n,
            None => {
                counter_put(&mut self.counters, &accs.collection_seed, &accs.buyer, 0);
                0
            },
        };
        if count >= cfg.per_wallet_limit {
            return Err(PayError::Validation(MintError::PerWalletLimit));
        }
        if cfg.price_lamports < MIN_PRICE_LAMPORTS {
            return Err(PayError::Validation(MintError::PriceTooLow));
        }
        let price = cfg.price_lamports;
        let (to_creator, to_platform) = split_payment(price);
        let buyer_bal = balance_get(&self.balances, &accs.buyer);
        if buyer_bal < price {
            return Err(PayError::InsufficientFunds);
        }
        // Pre-compute both credited balances under the pending debit, so the
        // overflow checks run before any balance is written and a failing
        // check aborts with the ledger untouched.
        let creator_bal: u64 = if keys_eq(&cfg.creator, &accs.buyer) {
            buyer_bal - price
        } else {
            balance_get(&self.balances, &cfg.creator)
        };
        let creator_total: u64 = match creator_bal.checked_add(to_creator) {
            Some(x) => x,
            None => {
                return Err(PayError::BalanceOverflow);
            },
        };
        let platform_bal: u64 = if keys_eq(&cfg.platform, &cfg.creator) {
            creator_total
        } else if keys_eq(&cfg.platform, &accs.buyer) {
            buyer_bal - price
        } else {
            balance_get(&self.balances, &cfg.platform)
        };
        let platform_total: u64 = match platform_bal.checked_add(to_platform) {
            Some(x) => x,
            None => {
                return Err(PayError::BalanceOverflow);
            },
        };
        balance_put(&mut self.balances, &accs.buyer, buyer_bal - price);
        balance_put(&mut self.balances, &cfg.creator, creator_total);
        balance_put(&mut self.balances, &cfg.platform, platform_total);
        counter_put(&mut self.counters, &accs.collection_seed, &accs.buyer, count + 1);
        Ok(MintAuthorized { collection_id: cfg.collection_id, buyer: accs.buyer })
    }

    /// Credit an identity's balance: how an account is given funds before it
    /// purchases.  Returns whether the credit was applied; a credit that
    /// would overflow the balance is refused and changes nothing.
    pub fn fund(&mut self, owner: &Pubkey, amount: u64) -> (funded: bool)
        requires
            old(self).wf(),
        ensures
            final(self).wf(),
            bal(old(self)@.balances, owner@) + amount <= u64::MAX ==> funded && final(self)@
                == (GateView {
                balances: old(self)@.balances.insert(
                    owner@,
                    (bal(old(self)@.balances, owner@) + amount) as u64,
                ),
                ..old(self)@
            }),
            bal(old(self)@.balances, owner@) + amount > u64::MAX ==> !funded && final(self)@
                == old(self)@,
    {
        let b = balance_get(&self.balances, owner);
        match b.checked_add(amount) {
            Some(total) => {
                balance_put(&mut self.balances, owner, total);
                true
            },
            None => false,
        }
    }

    /// Read an identity's balance; an identity never credited holds zero.
    pub fn balance_of(&self, owner: &Pubkey) -> (r: u64)
        requires
            self.wf(),
        ensures
            r == bal(self@.balances, owner@),
    {
        balance_get(&self.balances, owner)
    }

    /// Read a wallet's counter record for a collection, if it exists.
    pub fn counter_of(&self, collection_seed: &Pubkey, wallet: &Pubkey) -> (r: Option<Counter>)
        requires
            self.wf(),
        ensures
            match r {
                Some(c) => self@.counters.contains_key((collection_seed@, wallet@))
                    && self@.counters[(collection_seed@, wallet@)] == c.count,
                None => !self@.counters.contains_key((collection_seed@, wallet@)),
            },
    {
        match counter_get(&self.counters, collection_seed, wallet) {
            Some(n) => Some(Counter { count: n }),
            None => None,
        }
    }

    /// Read a collection's configuration record, if it exists.
    pub fn config_of(&self, collection_seed: &Pubkey) -> (r: Option<Config>)
        requires
            self.wf(),
        ensures
            match r {
                Some(c) => self@.configs.contains_key(collection_seed@)
                    && self@.configs[collection_seed@] == c,
                None => !self@.configs.contains_key(collection_seed@),
            },
    {
        config_get(&self.configs, collection_seed)
    }
}

} // verus!
