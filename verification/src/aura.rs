//! The packed aura identifier.
//!
//! A car's aura encodes the player's driving style as a position on a
//! two-dimensional grid (cool/wild against smooth/rough, each axis in
//! `[-4, 4]`) together with a tier derived from the odometer. The three
//! components are packed into one integer with a fixed-radix formula.

use vstd::prelude::*;

verus! {

/// Which of the eight odometer brackets a mileage falls in.
pub open spec fn spec_mileage_tier(odometer: u32) -> u32 {
    if odometer <= 5000 {
        0
    } else if odometer <= 10000 {
        1
    } else if odometer <= 30000 {
        2
    } else if odometer <= 100000 {
        3
    } else if odometer <= 500000 {
        4
    } else if odometer <= 1000000 {
        5
    } else if odometer <= 2000000 {
        6
    } else {
        7
    }
}

/// The aura identifier packed from the two style axes (each shifted from
/// `[-4, 4]` to `[0, 8]`) and the mileage tier.
pub open spec fn spec_aura(cool_or_wild: int, smooth_or_rough: int, tier: int) -> int {
    544 + (cool_or_wild + 4) * 128 + (smooth_or_rough + 4) * 8 + tier
}

/// Maps an odometer reading to its mileage tier.
pub fn mileage_tier(odometer: u32) -> (tier: u32)
    ensures
        tier == spec_mileage_tier(odometer),
{
    if odometer <= 5000 {
        0
    } else if odometer <= 10000 {
        1
    } else if odometer <= 30000 {
        2
    } else if odometer <= 100000 {
        3
    } else if odometer <= 500000 {
        4
    } else if odometer <= 1000000 {
        5
    } else if odometer <= 2000000 {
        6
    } else {
        7
    }
}

/// Computes the packed aura identifier for a style coordinate and an
/// odometer reading.
pub fn aura_value(odometer: u32, cool_or_wild: i32, smooth_or_rough: i32) -> (aura: u32)
    requires
        -4 <= cool_or_wild <= 4,
        -4 <= smooth_or_rough <= 4,
    ensures
        aura == spec_aura(
            cool_or_wild as int,
            smooth_or_rough as int,
            spec_mileage_tier(odometer) as int,
        ),
{
    let tier = mileage_tier(odometer);
    544 + ((cool_or_wild + 4) as u32) * 128 + ((smooth_or_rough + 4) as u32) * 8 + tier
}

/// The mileage tier never grows when the odometer shrinks: tiers follow
/// the bracket order.
pub proof fn lemma_tier_monotonic(o1: u32, o2: u32)
    requires
        o1 <= o2,
    ensures
        spec_mileage_tier(o1) <= spec_mileage_tier(o2),
{
}

/// The aura packing is injective: no two distinct (cool/wild,
/// smooth/rough, tier) triples share an aura identifier.
pub proof fn lemma_aura_injective(x1: int, y1: int, t1: int, x2: int, y2: int, t2: int)
    requires
        -4 <= x1 <= 4,
        -4 <= y1 <= 4,
        0 <= t1 <= 7,
        -4 <= x2 <= 4,
        -4 <= y2 <= 4,
        0 <= t2 <= 7,
        spec_aura(x1, y1, t1) == spec_aura(x2, y2, t2),
    ensures
        x1 == x2,
        y1 == y2,
        t1 == t2,
{
}

} // verus!
