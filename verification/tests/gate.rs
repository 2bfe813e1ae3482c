use mint_gate::errors::InitError;
use mint_gate::errors::MintError;
use mint_gate::errors::PayError;
use mint_gate::gate::MintGate;
use mint_gate::gate::validate_purchase;
use mint_gate::records::Counter;
use mint_gate::records::InitCollection;
use mint_gate::records::PayAndValidate;
use mint_gate::split::split_payment;

fn key(n: u8) -> [u8; 32] {
    let mut a = [0u8; 32];
    a[0] = n;
    a
}

const AUTHORITY: u8 = 1;
const CREATOR: u8 = 2;
const PLATFORM: u8 = 3;
const BUYER: u8 = 4;
const SEED: u8 = 9;
const COLLECTION_ID: u8 = 7;

fn init_accounts() -> InitCollection {
    InitCollection {
        authority: key(AUTHORITY),
        creator: key(CREATOR),
        platform: key(PLATFORM),
        collection_seed: key(SEED),
    }
}

fn pay_accounts() -> PayAndValidate {
    PayAndValidate {
        buyer: key(BUYER),
        creator: key(CREATOR),
        platform: key(PLATFORM),
        collection_seed: key(SEED),
    }
}

fn setup(price: u64, start: i64, limit: u16) -> MintGate {
    let mut gate = MintGate::new();
    gate.init_collection(&init_accounts(), price, start, limit, key(COLLECTION_ID))
        .unwrap();
    gate
}

#[test]
fn first_purchase_succeeds_with_exact_split() {
    let mut gate = setup(10_000_000, 0, 2);
    assert!(gate.fund(&key(BUYER), 50_000_000));
    let ev = gate.pay_and_validate(&pay_accounts(), 100).unwrap();
    assert_eq!(ev.collection_id, key(COLLECTION_ID));
    assert_eq!(ev.buyer, key(BUYER));
    assert_eq!(gate.balance_of(&key(BUYER)), 40_000_000);
    assert_eq!(gate.balance_of(&key(CREATOR)), 9_900_000);
    assert_eq!(gate.balance_of(&key(PLATFORM)), 100_000);
    assert_eq!(gate.counter_of(&key(SEED), &key(BUYER)), Some(Counter { count: 1 }));
}

#[test]
fn per_wallet_limit_stops_the_third_purchase() {
    let mut gate = setup(10_000_000, 0, 2);
    assert!(gate.fund(&key(BUYER), 50_000_000));
    gate.pay_and_validate(&pay_accounts(), 100).unwrap();
    gate.pay_and_validate(&pay_accounts(), 101).unwrap();
    assert_eq!(gate.counter_of(&key(SEED), &key(BUYER)), Some(Counter { count: 2 }));
    let r = gate.pay_and_validate(&pay_accounts(), 102);
    assert!(matches!(r, Err(PayError::Validation(MintError::PerWalletLimit))));
    // Balances and count are unchanged from after the second purchase.
    assert_eq!(gate.balance_of(&key(BUYER)), 30_000_000);
    assert_eq!(gate.balance_of(&key(CREATOR)), 19_800_000);
    assert_eq!(gate.balance_of(&key(PLATFORM)), 200_000);
    assert_eq!(gate.counter_of(&key(SEED), &key(BUYER)), Some(Counter { count: 2 }));
}

#[test]
fn price_below_floor_is_rejected_regardless_of_time_and_counter() {
    let mut gate = setup(9_999_999, 0, 5);
    assert!(gate.fund(&key(BUYER), 100_000_000));
    for now in [0, 1_000_000, i64::MAX] {
        let r = gate.pay_and_validate(&pay_accounts(), now);
        assert!(matches!(r, Err(PayError::Validation(MintError::PriceTooLow))));
    }
    // No funds moved; the only persisted effect is the zero counter record.
    assert_eq!(gate.balance_of(&key(BUYER)), 100_000_000);
    assert_eq!(gate.balance_of(&key(CREATOR)), 0);
    assert_eq!(gate.balance_of(&key(PLATFORM)), 0);
    assert_eq!(gate.counter_of(&key(SEED), &key(BUYER)), Some(Counter { count: 0 }));
}

#[test]
fn sale_not_started_before_start_time_and_admitted_at_it() {
    let mut gate = setup(10_000_000, 1_000, 1);
    assert!(gate.fund(&key(BUYER), 10_000_000));
    let r = gate.pay_and_validate(&pay_accounts(), 999);
    assert!(matches!(r, Err(PayError::Validation(MintError::SaleNotStarted))));
    // Failing before the counter check leaves no counter record behind.
    assert_eq!(gate.counter_of(&key(SEED), &key(BUYER)), None);
    assert_eq!(gate.balance_of(&key(BUYER)), 10_000_000);
    // At the start time exactly, the purchase is admitted.
    gate.pay_and_validate(&pay_accounts(), 1_000).unwrap();
    assert_eq!(gate.counter_of(&key(SEED), &key(BUYER)), Some(Counter { count: 1 }));
}

#[test]
fn init_twice_with_same_binding_key_fails_and_keeps_the_first_config() {
    let mut gate = setup(10_000_000, 5, 2);
    let again = InitCollection {
        authority: key(8),
        creator: key(8),
        platform: key(8),
        collection_seed: key(SEED),
    };
    let r = gate.init_collection(&again, 1, 2, 3, key(6));
    assert_eq!(r, Err(InitError::ConfigExists));
    let cfg = gate.config_of(&key(SEED)).unwrap();
    assert_eq!(cfg.authority, key(AUTHORITY));
    assert_eq!(cfg.creator, key(CREATOR));
    assert_eq!(cfg.platform, key(PLATFORM));
    assert_eq!(cfg.price_lamports, 10_000_000);
    assert_eq!(cfg.start_time, 5);
    assert_eq!(cfg.per_wallet_limit, 2);
    assert_eq!(cfg.collection_id, key(COLLECTION_ID));
}

#[test]
fn distinct_binding_keys_hold_distinct_collections() {
    let mut gate = setup(10_000_000, 0, 2);
    let other = InitCollection {
        authority: key(AUTHORITY),
        creator: key(CREATOR),
        platform: key(PLATFORM),
        collection_seed: key(10),
    };
    gate.init_collection(&other, 20_000_000, 50, 1, key(11)).unwrap();
    assert_eq!(gate.config_of(&key(SEED)).unwrap().price_lamports, 10_000_000);
    assert_eq!(gate.config_of(&key(10)).unwrap().price_lamports, 20_000_000);
}

#[test]
fn unknown_collection_is_refused() {
    let mut gate = MintGate::new();
    assert!(gate.fund(&key(BUYER), 10_000_000));
    let r = gate.pay_and_validate(&pay_accounts(), 0);
    assert!(matches!(r, Err(PayError::UnknownCollection)));
}

#[test]
fn mismatched_payout_identities_are_refused() {
    let mut gate = setup(10_000_000, 0, 2);
    assert!(gate.fund(&key(BUYER), 10_000_000));
    let wrong_creator = PayAndValidate { creator: key(13), ..pay_accounts() };
    assert!(matches!(
        gate.pay_and_validate(&wrong_creator, 0),
        Err(PayError::AddressMismatch)
    ));
    let wrong_platform = PayAndValidate { platform: key(13), ..pay_accounts() };
    assert!(matches!(
        gate.pay_and_validate(&wrong_platform, 0),
        Err(PayError::AddressMismatch)
    ));
    // The mismatch is caught before the counter check: no record is created.
    assert_eq!(gate.counter_of(&key(SEED), &key(BUYER)), None);
    assert_eq!(gate.balance_of(&key(BUYER)), 10_000_000);
}

#[test]
fn insufficient_funds_abort_without_moving_anything() {
    let mut gate = setup(10_000_000, 0, 2);
    assert!(gate.fund(&key(BUYER), 9_999_999));
    let r = gate.pay_and_validate(&pay_accounts(), 0);
    assert!(matches!(r, Err(PayError::InsufficientFunds)));
    assert_eq!(gate.balance_of(&key(BUYER)), 9_999_999);
    assert_eq!(gate.balance_of(&key(CREATOR)), 0);
    assert_eq!(gate.balance_of(&key(PLATFORM)), 0);
    assert_eq!(gate.counter_of(&key(SEED), &key(BUYER)), Some(Counter { count: 0 }));
}

#[test]
fn credit_overflow_aborts_without_moving_anything() {
    let mut gate = setup(10_000_000, 0, 2);
    assert!(gate.fund(&key(BUYER), 10_000_000));
    assert!(gate.fund(&key(CREATOR), u64::MAX));
    let r = gate.pay_and_validate(&pay_accounts(), 0);
    assert!(matches!(r, Err(PayError::BalanceOverflow)));
    assert_eq!(gate.balance_of(&key(BUYER)), 10_000_000);
    assert_eq!(gate.balance_of(&key(CREATOR)), u64::MAX);
    assert_eq!(gate.balance_of(&key(PLATFORM)), 0);
    assert_eq!(gate.counter_of(&key(SEED), &key(BUYER)), Some(Counter { count: 0 }));
}

#[test]
fn fund_refuses_a_credit_that_would_overflow() {
    let mut gate = MintGate::new();
    assert!(gate.fund(&key(BUYER), u64::MAX));
    assert!(!gate.fund(&key(BUYER), 1));
    assert_eq!(gate.balance_of(&key(BUYER)), u64::MAX);
}

#[test]
fn split_is_exact_floored_99_percent() {
    assert_eq!(split_payment(10_000_000), (9_900_000, 100_000));
    assert_eq!(split_payment(10_000_001), (9_900_000, 100_001));
    assert_eq!(split_payment(100), (99, 1));
    // Near the top of the range the multiplication clamps, but the two
    // shares still sum to the price exactly.
    let (creator, platform) = split_payment(u64::MAX);
    assert_eq!(creator, u64::MAX / 100);
    assert_eq!(creator + platform, u64::MAX);
}

#[test]
fn odd_price_remainder_goes_to_the_platform() {
    let mut gate = setup(10_000_001, 0, 1);
    assert!(gate.fund(&key(BUYER), 10_000_001));
    gate.pay_and_validate(&pay_accounts(), 0).unwrap();
    assert_eq!(gate.balance_of(&key(BUYER)), 0);
    assert_eq!(gate.balance_of(&key(CREATOR)), 9_900_000);
    assert_eq!(gate.balance_of(&key(PLATFORM)), 100_001);
}

#[test]
fn buyer_who_is_also_the_creator_pays_only_the_platform_share() {
    let mut gate = MintGate::new();
    let init = InitCollection {
        authority: key(AUTHORITY),
        creator: key(BUYER),
        platform: key(PLATFORM),
        collection_seed: key(SEED),
    };
    gate.init_collection(&init, 10_000_000, 0, 1, key(COLLECTION_ID)).unwrap();
    assert!(gate.fund(&key(BUYER), 10_000_000));
    let pay = PayAndValidate { creator: key(BUYER), ..pay_accounts() };
    gate.pay_and_validate(&pay, 0).unwrap();
    // The buyer is debited the price and credited the creator's share back.
    assert_eq!(gate.balance_of(&key(BUYER)), 9_900_000);
    assert_eq!(gate.balance_of(&key(PLATFORM)), 100_000);
}

#[test]
fn zero_limit_makes_a_collection_unpurchasable() {
    let mut gate = setup(10_000_000, 0, 0);
    assert!(gate.fund(&key(BUYER), 10_000_000));
    let r = gate.pay_and_validate(&pay_accounts(), 0);
    assert!(matches!(r, Err(PayError::Validation(MintError::PerWalletLimit))));
    // The zero counter record is the one persisted effect.
    assert_eq!(gate.counter_of(&key(SEED), &key(BUYER)), Some(Counter { count: 0 }));
    assert_eq!(gate.balance_of(&key(BUYER)), 10_000_000);
}

#[test]
fn two_wallets_count_independently() {
    let mut gate = setup(10_000_000, 0, 1);
    let other_buyer = key(14);
    assert!(gate.fund(&key(BUYER), 10_000_000));
    assert!(gate.fund(&other_buyer, 10_000_000));
    gate.pay_and_validate(&pay_accounts(), 0).unwrap();
    let second = PayAndValidate { buyer: other_buyer, ..pay_accounts() };
    gate.pay_and_validate(&second, 0).unwrap();
    assert_eq!(gate.counter_of(&key(SEED), &key(BUYER)), Some(Counter { count: 1 }));
    assert_eq!(gate.counter_of(&key(SEED), &other_buyer), Some(Counter { count: 1 }));
}

#[test]
fn validate_purchase_reports_the_first_failing_check() {
    // All three checks would fail: the sale-start check wins.
    assert_eq!(
        validate_purchase(1, 1_000, 0, 5, 999),
        Err(MintError::SaleNotStarted)
    );
    // Sale started, limit and price both failing: the limit check wins.
    assert_eq!(
        validate_purchase(1, 1_000, 0, 5, 1_000),
        Err(MintError::PerWalletLimit)
    );
    // Only the price is failing.
    assert_eq!(validate_purchase(9_999_999, 0, 5, 0, 7), Err(MintError::PriceTooLow));
    assert_eq!(validate_purchase(10_000_000, 0, 5, 4, 7), Ok(()));
}

#[test]
fn failing_checks_are_reported_in_their_fixed_order() {
    // Start time in the future, zero limit and a price below the floor.
    let mut gate = MintGate::new();
    let init = InitCollection {
        authority: key(AUTHORITY),
        creator: key(CREATOR),
        platform: key(PLATFORM),
        collection_seed: key(SEED),
    };
    gate.init_collection(&init, 1, 1_000, 0, key(COLLECTION_ID)).unwrap();
    let r = gate.pay_and_validate(&pay_accounts(), 999);
    assert!(matches!(r, Err(PayError::Validation(MintError::SaleNotStarted))));
    let r = gate.pay_and_validate(&pay_accounts(), 1_000);
    assert!(matches!(r, Err(PayError::Validation(MintError::PerWalletLimit))));
}
