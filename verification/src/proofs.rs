//! Lemmas over the abstract transitions of the engine: what every
//! reachable outcome of `init_step` and `pay_step` satisfies.

use vstd::prelude::*;
use crate::errors::InitError;
use crate::errors::MintError;
use crate::errors::PayError;
use crate::gate::GateView;
use crate::gate::admission;
use crate::gate::counter_at;
use crate::gate::init_config;
use crate::gate::init_step;
use crate::gate::pay_post;
use crate::gate::pay_result;
use crate::records::InitCollection;
use crate::records::PayAndValidate;
use crate::split::MIN_PRICE_LAMPORTS;
use crate::split::creator_cut;
use crate::tables::bal;

verus! {

/// Collection creation is exclusive: after a successful `init_collection`,
/// a second call under the same binding key fails with `ConfigExists`,
/// changes nothing, and the configuration still holds exactly what the
/// first call wrote.
pub proof fn lemma_init_exclusive(
    s: GateView,
    first: InitCollection,
    price_lamports: u64,
    start_time: i64,
    per_wallet_limit: u16,
    collection_id: [u8; 32],
    second: InitCollection,
    price2: u64,
    start2: i64,
    limit2: u16,
    id2: [u8; 32],
)
    requires
        second.collection_seed@ == first.collection_seed@,
        init_step(s, first, price_lamports, start_time, per_wallet_limit, collection_id).1
            is Ok,
    ensures
        ({
            let s1 = init_step(
                s,
                first,
                price_lamports,
                start_time,
                per_wallet_limit,
                collection_id,
            ).0;
            &&& init_step(s1, second, price2, start2, limit2, id2).1 == Err::<
                (),
                InitError,
            >(InitError::ConfigExists)
            &&& init_step(s1, second, price2, start2, limit2, id2).0 == s1
            &&& s1.configs[first.collection_seed@] == init_config(
                first,
                price_lamports,
                start_time,
                per_wallet_limit,
                collection_id,
            )
        }),
{
}

/// Repeated purchases: the state after a sequence of `pay_and_validate`
/// calls by one caller, one call per entry of `nows`.
pub open spec fn pay_seq(s: GateView, accs: PayAndValidate, nows: Seq<i64>) -> GateView
    decreases nows.len(),
{
    if nows.len() == 0 {
        s
    } else {
        pay_post(pay_seq(s, accs, nows.drop_last()), accs, nows.last())
    }
}

/// Whether every call of the sequence succeeds.
pub open spec fn all_succeed(s: GateView, accs: PayAndValidate, nows: Seq<i64>) -> bool
    decreases nows.len(),
{
    if nows.len() == 0 {
        true
    } else {
        all_succeed(s, accs, nows.drop_last()) && pay_result(
            pay_seq(s, accs, nows.drop_last()),
            accs,
            nows.last(),
        ) is Ok
    }
}

/// Across any sequence of N successful purchases by one wallet, the count
/// grows by exactly N, the configuration store is never touched, and the
/// final count never exceeds the collection's per-wallet limit.
pub proof fn lemma_counter_monotonic(s: GateView, accs: PayAndValidate, nows: Seq<i64>)
    requires
        all_succeed(s, accs, nows),
    ensures
        pay_seq(s, accs, nows).configs == s.configs,
        counter_at(pay_seq(s, accs, nows), accs.collection_seed@, accs.buyer@) == counter_at(
            s,
            accs.collection_seed@,
            accs.buyer@,
        ) + nows.len(),
        nows.len() > 0 ==> s.configs.contains_key(accs.collection_seed@) && counter_at(
            pay_seq(s, accs, nows),
            accs.collection_seed@,
            accs.buyer@,
        ) <= s.configs[accs.collection_seed@].per_wallet_limit,
    decreases nows.len(),
{
    if nows.len() > 0 {
        lemma_counter_monotonic(s, accs, nows.drop_last());
    }
}

/// The count after N successful purchases by a wallet that had no counter
/// record to begin with is exactly N.
pub proof fn lemma_counter_equals_successes(s: GateView, accs: PayAndValidate, nows: Seq<i64>)
    requires
        all_succeed(s, accs, nows),
        !s.counters.contains_key((accs.collection_seed@, accs.buyer@)),
    ensures
        counter_at(pay_seq(s, accs, nows), accs.collection_seed@, accs.buyer@) == nows.len(),
{
    lemma_counter_monotonic(s, accs, nows);
}

/// A successful purchase with three pairwise-distinct parties debits the
/// buyer by exactly the price, credits the creator by the creator's cut,
/// credits the platform by the exact remainder, and the two credits sum to
/// the price: no unit appears or vanishes.
pub proof fn lemma_fund_conservation(s: GateView, accs: PayAndValidate, now: i64)
    requires
        pay_result(s, accs, now) is Ok,
        accs.creator@ != accs.buyer@,
        accs.platform@ != accs.buyer@,
        accs.platform@ != accs.creator@,
    ensures
        ({
            let price = s.configs[accs.collection_seed@].price_lamports;
            let post = pay_post(s, accs, now);
            &&& bal(s.balances, accs.buyer@) - bal(post.balances, accs.buyer@) == price
            &&& bal(post.balances, accs.creator@) == bal(s.balances, accs.creator@)
                + creator_cut(price)
            &&& bal(post.balances, accs.platform@) == bal(s.balances, accs.platform@) + (price
                - creator_cut(price))
            &&& creator_cut(price) + (price - creator_cut(price)) == price
        }),
{
}

/// The creator's cut is the exact floored 99% of every price whose
/// ninety-nine-fold multiple still fits in the balance type; beyond that the
/// multiplication clamps.
pub proof fn lemma_creator_share_exact(price: u64)
    requires
        price * 99 <= u64::MAX,
    ensures
        creator_cut(price) == price * 99 / 100,
{
}

/// A refused purchase moves no funds, changes no configuration and
/// increments no count.  The only state a failure can leave
/// behind is the freshly materialized zero counter of a first-time buyer; in
/// particular a buyer whose counter record already exists, or a failure
/// before the sale has started, leaves the state bit-identical.
pub proof fn lemma_atomic_failure(s: GateView, accs: PayAndValidate, now: i64)
    requires
        pay_result(s, accs, now) is Err,
    ensures
        pay_post(s, accs, now).configs == s.configs,
        pay_post(s, accs, now).balances == s.balances,
        pay_post(s, accs, now).counters == s.counters || pay_post(s, accs, now).counters
            == s.counters.insert((accs.collection_seed@, accs.buyer@), 0),
        s.counters.contains_key((accs.collection_seed@, accs.buyer@)) ==> pay_post(s, accs, now)
            == s,
        pay_result(s, accs, now) == Err::<crate::records::MintAuthorized, PayError>(
            PayError::Validation(MintError::SaleNotStarted),
        ) ==> pay_post(s, accs, now) == s,
{
}

/// Deterministic addressing isolates records: one purchase attempt, however
/// it ends, never touches any configuration, never touches the counter of
/// another (collection, wallet) pair, and never touches the balance of
/// anyone but the buyer and the configured payout destinations.
pub proof fn lemma_pay_frame(
    s: GateView,
    accs: PayAndValidate,
    now: i64,
    ck: (Seq<u8>, Seq<u8>),
    owner: Seq<u8>,
)
    requires
        ck != (accs.collection_seed@, accs.buyer@),
        owner != accs.buyer@,
        s.configs.contains_key(accs.collection_seed@) ==> owner != s.configs[
            accs.collection_seed@
        ].creator@ && owner != s.configs[accs.collection_seed@].platform@,
    ensures
        pay_post(s, accs, now).configs == s.configs,
        pay_post(s, accs, now).counters.contains_key(ck) <==> s.counters.contains_key(ck),
        s.counters.contains_key(ck) ==> pay_post(s, accs, now).counters[ck] == s.counters[ck],
        bal(pay_post(s, accs, now).balances, owner) == bal(s.balances, owner),
{
}

/// The full engine follows the plain admission decision: whenever the call
/// reaches the validation checks (the collection exists and the payout
/// identities match), a refusing decision is returned verbatim as a
/// `Validation` error, and an admitting decision can only end in success or
/// in one of the two settlement failures.
pub proof fn lemma_pay_follows_admission(s: GateView, accs: PayAndValidate, now: i64)
    requires
        s.configs.contains_key(accs.collection_seed@),
        accs.creator@ == s.configs[accs.collection_seed@].creator@,
        accs.platform@ == s.configs[accs.collection_seed@].platform@,
    ensures
        ({
            let cfg = s.configs[accs.collection_seed@];
            let verdict = admission(
                cfg.price_lamports,
                cfg.start_time,
                cfg.per_wallet_limit,
                counter_at(s, accs.collection_seed@, accs.buyer@),
                now,
            );
            match verdict {
                Err(e) => pay_result(s, accs, now) == Err::<crate::records::MintAuthorized,
                    PayError,
                >(PayError::Validation(e)),
                Ok(_) => pay_result(s, accs, now) is Ok || pay_result(s, accs, now) == Err::<
                    crate::records::MintAuthorized,
                    PayError,
                >(PayError::InsufficientFunds) || pay_result(s, accs, now) == Err::<
                    crate::records::MintAuthorized,
                    PayError,
                >(PayError::BalanceOverflow),
            }
        }),
{
}

/// Whenever the call reaches the sale-start check (the collection exists
/// and the payout identities match), a current time before `start_time`
/// fails with `SaleNotStarted`.
pub proof fn lemma_time_gating_early(s: GateView, accs: PayAndValidate, now: i64)
    requires
        s.configs.contains_key(accs.collection_seed@),
        accs.creator@ == s.configs[accs.collection_seed@].creator@,
        accs.platform@ == s.configs[accs.collection_seed@].platform@,
        now < s.configs[accs.collection_seed@].start_time,
    ensures
        pay_result(s, accs, now) == Err::<crate::records::MintAuthorized, PayError>(
            PayError::Validation(MintError::SaleNotStarted),
        ),
        pay_post(s, accs, now) == s,
{
}

/// At or after `start_time`, with every other condition satisfied — the collection exists, the payout identities match,
/// the wallet is under its limit, the price is at or above the floor, the
/// buyer can pay, and neither credit overflows — the purchase succeeds.
pub proof fn lemma_time_gating_admits(s: GateView, accs: PayAndValidate, now: i64)
    requires
        s.configs.contains_key(accs.collection_seed@),
        accs.creator@ == s.configs[accs.collection_seed@].creator@,
        accs.platform@ == s.configs[accs.collection_seed@].platform@,
        now >= s.configs[accs.collection_seed@].start_time,
        counter_at(s, accs.collection_seed@, accs.buyer@) < s.configs[
            accs.collection_seed@
        ].per_wallet_limit,
        s.configs[accs.collection_seed@].price_lamports >= MIN_PRICE_LAMPORTS,
        bal(s.balances, accs.buyer@) >= s.configs[accs.collection_seed@].price_lamports,
        ({
            let cfg = s.configs[accs.collection_seed@];
            let price = cfg.price_lamports;
            let m1 = s.balances.insert(accs.buyer@, (bal(s.balances, accs.buyer@) - price) as u64);
            let m2 = m1.insert(cfg.creator@, (bal(m1, cfg.creator@) + creator_cut(price)) as u64);
            &&& bal(m1, cfg.creator@) + creator_cut(price) <= u64::MAX
            &&& bal(m2, cfg.platform@) + (price - creator_cut(price)) <= u64::MAX
        }),
    ensures
        pay_result(s, accs, now) is Ok,
{
}

} // verus!
