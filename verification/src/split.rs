//! The fee split: 99% of the price to the creator, rounded down, and the
//! exact remainder to the platform, so no unit is created or destroyed.

use vstd::prelude::*;

verus! {

/// Price floor, re-verified at purchase time rather than at initialization:
/// a collection configured below it is permanently unpurchasable.
pub const MIN_PRICE_LAMPORTS: u64 = 10_000_000;

/// The creator's share of a price: `floor(price * 99 / 100)`, where the
/// multiplication clamps at `u64::MAX` instead of overflowing.
pub open spec fn creator_cut(price: u64) -> u64 {
    if price * 99 <= u64::MAX {
        ((price * 99) / 100) as u64
    } else {
        (u64::MAX / 100) as u64
    }
}

/// The creator's share never exceeds the price, so the platform's remainder
/// is never negative.
pub proof fn lemma_creator_cut_le_price(price: u64)
    ensures
        creator_cut(price) <= price,
{
    if price * 99 <= u64::MAX {
        assert((price * 99) / 100 <= price) by (nonlinear_arith);
    } else {
        assert(u64::MAX / 100 <= price) by (nonlinear_arith)
            requires
                price * 99 > u64::MAX,
        ;
    }
}

/// Split a price into (creator share, platform share).  The two shares sum to
/// the price exactly.
pub fn split_payment(price: u64) -> (split: (u64, u64))
    ensures
        split.0 == creator_cut(price),
        split.1 == price - creator_cut(price),
        split.0 + split.1 == price,
{
    proof {
        lemma_creator_cut_le_price(price);
    }
    let to_creator: u64 = match price.checked_mul(99) {
        Some(p) => p / 100,
        None => u64::MAX / 100,
    };
    let to_platform: u64 = price - to_creator;
    (to_creator, to_platform)
}

} // verus!
