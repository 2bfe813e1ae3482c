//! Deterministically addressed record tables.
//!
//! Each persisted record kind lives in its own table, keyed by stable inputs:
//! configurations by the collection's binding key, counters by the pair
//! (binding key, wallet), balances by the owning identity.  A table is a
//! vector of entries with pairwise-distinct keys, and its specification view
//! is the finite `Map` from key to record, so the same inputs always resolve
//! to the same record and different wallets never collide.

use vstd::prelude::*;
use crate::records::Config;
use crate::records::Counter;
use crate::records::Pubkey;

verus! {

broadcast use vstd::array::group_array_axioms;

/// Byte-for-byte equality of two 32-byte keys.
pub(crate) fn keys_eq(a: &Pubkey, b: &Pubkey) -> (r: bool)
    ensures
        r <==> a@ == b@,
{
    let mut i: usize = 0;
    while i < 32
        invariant
            i <= 32,
            forall|j: int| 0 <= j < i ==> a@[j] == b@[j],
        decreases 32 - i,
    {
        if a[i] != b[i] {
            return false;
        }
        i = i + 1;
    }
    proof {
        assert(a@ =~= b@);
    }
    true
}

// ---------------------------------------------------------------------------
// Configuration table: binding key -> Config
// ---------------------------------------------------------------------------

/// One configuration record, addressed by its collection's binding key.
#[derive(Clone, Copy, Debug)]
pub struct ConfigEntry {
    /// Binding key under which the record is addressed.
    pub seed: Pubkey,
    /// The configuration record itself.
    pub config: Config,
}

/// The map a configuration table stands for.
pub open spec fn config_map(s: Seq<ConfigEntry>) -> Map<Seq<u8>, Config>
    decreases s.len(),
{
    if s.len() == 0 {
        Map::empty()
    } else {
        config_map(s.drop_last()).insert(s.last().seed@, s.last().config)
    }
}

/// Well-formed: no two entries share a binding key.
pub open spec fn config_wf(s: Seq<ConfigEntry>) -> bool {
    forall|i: int, j: int| 0 <= i < j < s.len() ==> s[i].seed@ != s[j].seed@
}

/// A key is in the map exactly when some entry carries it.
pub proof fn lemma_config_map_dom(s: Seq<ConfigEntry>, k: Seq<u8>)
    ensures
        config_map(s).contains_key(k) <==> exists|i: int| 0 <= i < s.len() && s[i].seed@ == k,
    decreases s.len(),
{
    if s.len() > 0 {
        lemma_config_map_dom(s.drop_last(), k);
        if s.last().seed@ == k {
            assert(s[s.len() - 1].seed@ == k);
        } else if config_map(s).contains_key(k) {
            let i = choose|i: int| 0 <= i < s.drop_last().len() && s.drop_last()[i].seed@ == k;
            assert(s[i].seed@ == k);
        } else if exists|i: int| 0 <= i < s.len() && s[i].seed@ == k {
            let i = choose|i: int| 0 <= i < s.len() && s[i].seed@ == k;
            assert(s.drop_last()[i].seed@ == k);
        }
    }
}

/// In a well-formed table the map sends each entry's key to that entry's record.
pub proof fn lemma_config_map_at(s: Seq<ConfigEntry>, i: int)
    requires
        config_wf(s),
        0 <= i < s.len(),
    ensures
        config_map(s).contains_key(s[i].seed@),
        config_map(s)[s[i].seed@] == s[i].config,
    decreases s.len(),
{
    if i < s.len() - 1 {
        assert(config_wf(s.drop_last()));
        lemma_config_map_at(s.drop_last(), i);
        assert(s[i].seed@ != s.last().seed@);
    }
}

/// Appending an entry inserts its binding into the map.
pub proof fn lemma_config_map_push(s: Seq<ConfigEntry>, e: ConfigEntry)
    ensures
        config_map(s.push(e)) == config_map(s).insert(e.seed@, e.config),
{
    assert(s.push(e).drop_last() =~= s);
    assert(s.push(e).last() == e);
}

/// Find the index of the entry under a binding key, if any.
fn config_find(v: &Vec<ConfigEntry>, seed: &Pubkey) -> (r: Option<usize>)
    ensures
        match r {
            Some(i) => i < v@.len() && v@[i as int].seed@ == seed@,
            None => forall|j: int| 0 <= j < v@.len() ==> v@[j].seed@ != seed@,
        },
{
    let mut i: usize = 0;
    while i < v.len()
        invariant
            i <= v@.len(),
            forall|j: int| 0 <= j < i ==> v@[j].seed@ != seed@,
        decreases v@.len() - i,
    {
        if keys_eq(&v[i].seed, seed) {
            return Some(i);
        }
        i = i + 1;
    }
    None
}

/// Look a configuration up by binding key.
pub fn config_get(v: &Vec<ConfigEntry>, seed: &Pubkey) -> (r: Option<Config>)
    requires
        config_wf(v@),
    ensures
        match r {
            Some(c) => config_map(v@).contains_key(seed@) && config_map(v@)[seed@] == c,
            None => !config_map(v@).contains_key(seed@),
        },
{
    match config_find(v, seed) {
        Some(i) => {
            proof {
                lemma_config_map_at(v@, i as int);
            }
            Some(v[i].config)
        },
        None => {
            proof {
                lemma_config_map_dom(v@, seed@);
            }
            None
        },
    }
}

/// Append a configuration whose binding key is not yet taken.
pub fn config_put_new(v: &mut Vec<ConfigEntry>, e: ConfigEntry)
    requires
        config_wf(old(v)@),
        !config_map(old(v)@).contains_key(e.seed@),
    ensures
        config_wf(final(v)@),
        config_map(final(v)@) == config_map(old(v)@).insert(e.seed@, e.config),
{
    proof {
        lemma_config_map_dom(old(v)@, e.seed@);
        lemma_config_map_push(old(v)@, e);
    }
    v.push(e);
}

// ---------------------------------------------------------------------------
// Counter table: (binding key, wallet) -> count
// ---------------------------------------------------------------------------

/// One purchase counter, addressed by its collection's binding key and the
/// owning wallet.
#[derive(Clone, Copy, Debug)]
pub struct CounterEntry {
    /// Binding key of the collection.
    pub seed: Pubkey,
    /// The wallet this counter belongs to.
    pub wallet: Pubkey,
    /// The counter record itself.
    pub counter: Counter,
}

/// The map a counter table stands for.
pub open spec fn counter_map(s: Seq<CounterEntry>) -> Map<(Seq<u8>, Seq<u8>), u16>
    decreases s.len(),
{
    if s.len() == 0 {
        Map::empty()
    } else {
        counter_map(s.drop_last()).insert(
            (s.last().seed@, s.last().wallet@),
            s.last().counter.count,
        )
    }
}

/// Well-formed: no two entries share both binding key and wallet.
pub open spec fn counter_wf(s: Seq<CounterEntry>) -> bool {
    forall|i: int, j: int|
        0 <= i < j < s.len() ==> (s[i].seed@, s[i].wallet@) != (s[j].seed@, s[j].wallet@)
}

/// A key pair is in the map exactly when some entry carries it.
pub proof fn lemma_counter_map_dom(s: Seq<CounterEntry>, k: (Seq<u8>, Seq<u8>))
    ensures
        counter_map(s).contains_key(k) <==> exists|i: int|
            0 <= i < s.len() && (s[i].seed@, s[i].wallet@) == k,
    decreases s.len(),
{
    if s.len() > 0 {
        lemma_counter_map_dom(s.drop_last(), k);
        if (s.last().seed@, s.last().wallet@) == k {
            assert((s[s.len() - 1].seed@, s[s.len() - 1].wallet@) == k);
        } else if counter_map(s).contains_key(k) {
            let i = choose|i: int|
                0 <= i < s.drop_last().len() && (s.drop_last()[i].seed@,
                s.drop_last()[i].wallet@) == k;
            assert((s[i].seed@, s[i].wallet@) == k);
        } else if exists|i: int| 0 <= i < s.len() && (s[i].seed@, s[i].wallet@) == k {
            let i = choose|i: int| 0 <= i < s.len() && (s[i].seed@, s[i].wallet@) == k;
            assert((s.drop_last()[i].seed@, s.drop_last()[i].wallet@) == k);
        }
    }
}

/// In a well-formed table the map sends each entry's key pair to its count.
pub proof fn lemma_counter_map_at(s: Seq<CounterEntry>, i: int)
    requires
        counter_wf(s),
        0 <= i < s.len(),
    ensures
        counter_map(s).contains_key((s[i].seed@, s[i].wallet@)),
        counter_map(s)[(s[i].seed@, s[i].wallet@)] == s[i].counter.count,
    decreases s.len(),
{
    if i < s.len() - 1 {
        assert(counter_wf(s.drop_last()));
        lemma_counter_map_at(s.drop_last(), i);
        assert((s[i].seed@, s[i].wallet@) != (s.last().seed@, s.last().wallet@));
    }
}

/// Appending an entry inserts its binding into the map.
pub proof fn lemma_counter_map_push(s: Seq<CounterEntry>, e: CounterEntry)
    ensures
        counter_map(s.push(e)) == counter_map(s).insert(
            (e.seed@, e.wallet@),
            e.counter.count,
        ),
{
    assert(s.push(e).drop_last() =~= s);
    assert(s.push(e).last() == e);
}

/// Overwriting the entry at `i` with an entry under the same key pair
/// re-inserts that key pair into the map.
pub proof fn lemma_counter_map_update(s: Seq<CounterEntry>, i: int, e: CounterEntry)
    requires
        counter_wf(s),
        0 <= i < s.len(),
        e.seed@ == s[i].seed@,
        e.wallet@ == s[i].wallet@,
    ensures
        counter_map(s.update(i, e)) == counter_map(s).insert(
            (e.seed@, e.wallet@),
            e.counter.count,
        ),
    decreases s.len(),
{
    let t = s.update(i, e);
    if i == s.len() - 1 {
        assert(t.drop_last() =~= s.drop_last());
        assert(counter_map(t) =~= counter_map(s).insert((e.seed@, e.wallet@), e.counter.count));
    } else {
        assert(counter_wf(s.drop_last()));
        assert(t.drop_last() =~= s.drop_last().update(i, e));
        lemma_counter_map_update(s.drop_last(), i, e);
        assert((s[i].seed@, s[i].wallet@) != (s.last().seed@, s.last().wallet@));
        assert(t.last() == s.last());
        assert(counter_map(t) =~= counter_map(s).insert((e.seed@, e.wallet@), e.counter.count));
    }
}

/// Find the index of the counter for a (binding key, wallet) pair, if any.
fn counter_find(v: &Vec<CounterEntry>, seed: &Pubkey, wallet: &Pubkey) -> (r: Option<usize>)
    ensures
        match r {
            Some(i) => i < v@.len() && v@[i as int].seed@ == seed@ && v@[i as int].wallet@
                == wallet@,
            None => forall|j: int|
                0 <= j < v@.len() ==> (v@[j].seed@, v@[j].wallet@) != (seed@, wallet@),
        },
{
    let mut i: usize = 0;
    while i < v.len()
        invariant
            i <= v@.len(),
            forall|j: int| 0 <= j < i ==> (v@[j].seed@, v@[j].wallet@) != (seed@, wallet@),
        decreases v@.len() - i,
    {
        if keys_eq(&v[i].seed, seed) && keys_eq(&v[i].wallet, wallet) {
            return Some(i);
        }
        i = i + 1;
    }
    None
}

/// Look a wallet's count up, if its counter record exists.
pub fn counter_get(v: &Vec<CounterEntry>, seed: &Pubkey, wallet: &Pubkey) -> (r: Option<u16>)
    requires
        counter_wf(v@),
    ensures
        match r {
            Some(n) => counter_map(v@).contains_key((seed@, wallet@)) && counter_map(
                v@,
            )[(seed@, wallet@)] == n,
            None => !counter_map(v@).contains_key((seed@, wallet@)),
        },
{
    match counter_find(v, seed, wallet) {
        Some(i) => {
            proof {
                lemma_counter_map_at(v@, i as int);
            }
            Some(v[i].counter.count)
        },
        None => {
            proof {
                lemma_counter_map_dom(v@, (seed@, wallet@));
            }
            None
        },
    }
}

/// Set a wallet's count, creating its counter record if absent.
pub fn counter_put(v: &mut Vec<CounterEntry>, seed: &Pubkey, wallet: &Pubkey, count: u16)
    requires
        counter_wf(old(v)@),
    ensures
        counter_wf(final(v)@),
        counter_map(final(v)@) == counter_map(old(v)@).insert((seed@, wallet@), count),
{
    match counter_find(v, seed, wallet) {
        Some(i) => {
            let e = CounterEntry { seed: v[i].seed, wallet: v[i].wallet, counter: Counter { count } };
            proof {
                lemma_counter_map_update(v@, i as int, e);
            }
            v[i] = e;
            proof {
                assert(counter_wf(v@));
            }
        },
        None => {
            let e = CounterEntry { seed: *seed, wallet: *wallet, counter: Counter { count } };
            proof {
                lemma_counter_map_push(old(v)@, e);
            }
            v.push(e);
        },
    }
}

// ---------------------------------------------------------------------------
// Balance table: identity -> lamports
// ---------------------------------------------------------------------------

/// One balance-bearing account.
#[derive(Clone, Copy, Debug)]
pub struct BalanceEntry {
    /// The identity that owns the balance.
    pub owner: Pubkey,
    /// The balance, in minor currency units.
    pub lamports: u64,
}

/// The map a balance table stands for.
pub open spec fn balance_map(s: Seq<BalanceEntry>) -> Map<Seq<u8>, u64>
    decreases s.len(),
{
    if s.len() == 0 {
        Map::empty()
    } else {
        balance_map(s.drop_last()).insert(s.last().owner@, s.last().lamports)
    }
}

/// Well-formed: no two entries share an owner.
pub open spec fn balance_wf(s: Seq<BalanceEntry>) -> bool {
    forall|i: int, j: int| 0 <= i < j < s.len() ==> s[i].owner@ != s[j].owner@
}

/// The balance of an identity: its recorded balance, or zero if it has no
/// record yet.
pub open spec fn bal(m: Map<Seq<u8>, u64>, k: Seq<u8>) -> u64 {
    if m.contains_key(k) {
        m[k]
    } else {
        0
    }
}

/// A key is in the map exactly when some entry carries it.
pub proof fn lemma_balance_map_dom(s: Seq<BalanceEntry>, k: Seq<u8>)
    ensures
        balance_map(s).contains_key(k) <==> exists|i: int| 0 <= i < s.len() && s[i].owner@ == k,
    decreases s.len(),
{
    if s.len() > 0 {
        lemma_balance_map_dom(s.drop_last(), k);
        if s.last().owner@ == k {
            assert(s[s.len() - 1].owner@ == k);
        } else if balance_map(s).contains_key(k) {
            let i = choose|i: int| 0 <= i < s.drop_last().len() && s.drop_last()[i].owner@ == k;
            assert(s[i].owner@ == k);
        } else if exists|i: int| 0 <= i < s.len() && s[i].owner@ == k {
            let i = choose|i: int| 0 <= i < s.len() && s[i].owner@ == k;
            assert(s.drop_last()[i].owner@ == k);
        }
    }
}

/// In a well-formed table the map sends each entry's owner to its balance.
pub proof fn lemma_balance_map_at(s: Seq<BalanceEntry>, i: int)
    requires
        balance_wf(s),
        0 <= i < s.len(),
    ensures
        balance_map(s).contains_key(s[i].owner@),
        balance_map(s)[s[i].owner@] == s[i].lamports,
    decreases s.len(),
{
    if i < s.len() - 1 {
        assert(balance_wf(s.drop_last()));
        lemma_balance_map_at(s.drop_last(), i);
        assert(s[i].owner@ != s.last().owner@);
    }
}

/// Appending an entry inserts its binding into the map.
pub proof fn lemma_balance_map_push(s: Seq<BalanceEntry>, e: BalanceEntry)
    ensures
        balance_map(s.push(e)) == balance_map(s).insert(e.owner@, e.lamports),
{
    assert(s.push(e).drop_last() =~= s);
    assert(s.push(e).last() == e);
}

/// Overwriting the entry at `i` with one under the same owner re-inserts that
/// owner into the map.
pub proof fn lemma_balance_map_update(s: Seq<BalanceEntry>, i: int, e: BalanceEntry)
    requires
        balance_wf(s),
        0 <= i < s.len(),
        e.owner@ == s[i].owner@,
    ensures
        balance_map(s.update(i, e)) == balance_map(s).insert(e.owner@, e.lamports),
    decreases s.len(),
{
    let t = s.update(i, e);
    if i == s.len() - 1 {
        assert(t.drop_last() =~= s.drop_last());
        assert(balance_map(t) =~= balance_map(s).insert(e.owner@, e.lamports));
    } else {
        assert(balance_wf(s.drop_last()));
        assert(t.drop_last() =~= s.drop_last().update(i, e));
        lemma_balance_map_update(s.drop_last(), i, e);
        assert(s[i].owner@ != s.last().owner@);
        assert(t.last() == s.last());
        assert(balance_map(t) =~= balance_map(s).insert(e.owner@, e.lamports));
    }
}

/// Find the index of an identity's balance record, if any.
fn balance_find(v: &Vec<BalanceEntry>, owner: &Pubkey) -> (r: Option<usize>)
    ensures
        match r {
            Some(i) => i < v@.len() && v@[i as int].owner@ == owner@,
            None => forall|j: int| 0 <= j < v@.len() ==> v@[j].owner@ != owner@,
        },
{
    let mut i: usize = 0;
    while i < v.len()
        invariant
            i <= v@.len(),
            forall|j: int| 0 <= j < i ==> v@[j].owner@ != owner@,
        decreases v@.len() - i,
    {
        if keys_eq(&v[i].owner, owner) {
            return Some(i);
        }
        i = i + 1;
    }
    None
}

/// Read an identity's balance; an identity with no record holds zero.
pub fn balance_get(v: &Vec<BalanceEntry>, owner: &Pubkey) -> (r: u64)
    requires
        balance_wf(v@),
    ensures
        r == bal(balance_map(v@), owner@),
{
    match balance_find(v, owner) {
        Some(i) => {
            proof {
                lemma_balance_map_at(v@, i as int);
            }
            v[i].lamports
        },
        None => {
            proof {
                lemma_balance_map_dom(v@, owner@);
            }
            0
        },
    }
}

/// Set an identity's balance, creating its record if absent.
pub fn balance_put(v: &mut Vec<BalanceEntry>, owner: &Pubkey, lamports: u64)
    requires
        balance_wf(old(v)@),
    ensures
        balance_wf(final(v)@),
        balance_map(final(v)@) == balance_map(old(v)@).insert(owner@, lamports),
{
    match balance_find(v, owner) {
        Some(i) => {
            let e = BalanceEntry { owner: v[i].owner, lamports };
            proof {
                lemma_balance_map_update(v@, i as int, e);
            }
            v[i] = e;
            proof {
                assert(balance_wf(v@));
            }
        },
        None => {
            let e = BalanceEntry { owner: *owner, lamports };
            proof {
                lemma_balance_map_push(old(v)@, e);
            }
            v.push(e);
        },
    }
}

} // verus!
