//! The settlement burn, and the balanced ratio that follows from it.
//!
//! A requester is debited the gross price of a settlement; the host is credited the price less the
//! burn. A node that hosts exactly as much as it consumes therefore has a ratio below one, and the
//! floor for such nodes is derived from the burn rate.

use crate::ratio::Ratio;
use core::cmp::Ordering;
use vstd::prelude::*;

verus! {

/// Settlement burn rate in basis points (1.00%).
pub const SETTLEMENT_BURN_BPS: u128 = 100;

/// Basis-point denominator.
pub const BPS_DENOM: u128 = 10_000;

/// How far below the balanced point the default floor lies, in basis points.
pub const FLOOR_MARGIN_BPS: u128 = 400;

/// Numerator of the balanced point: what is left of `BPS_DENOM` after the burn.
pub open spec fn balanced_num() -> u128 {
    (BPS_DENOM - SETTLEMENT_BURN_BPS) as u128
}

/// Numerator of the default floor.
pub open spec fn floor_num() -> u128 {
    (balanced_num() * (BPS_DENOM - FLOOR_MARGIN_BPS)) as u128
}

/// Denominator of the default floor.
pub open spec fn floor_den() -> u128 {
    (BPS_DENOM * BPS_DENOM) as u128
}

/// The burn-adjusted balanced ratio as an exact `(num, den)` pair: the ratio of a node that hosts
/// exactly as much gross volume as it consumes.
pub fn balanced_point() -> (r: (u128, u128))
    ensures
        r.0 == balanced_num(),
        r.1 == BPS_DENOM,
        r == (9_900u128, 10_000u128),
{
    (BPS_DENOM - SETTLEMENT_BURN_BPS, BPS_DENOM)
}

/// The default balanced floor as an exact `(num, den)` pair: the balanced point, lowered by
/// [`FLOOR_MARGIN_BPS`].
pub fn default_balanced_floor() -> (r: (u128, u128))
    ensures
        r.0 == floor_num(),
        r.1 == floor_den(),
        r == (95_040_000u128, 100_000_000u128),
{
    let (bp_num, bp_den) = balanced_point();
    let num: u128 = bp_num * (BPS_DENOM - FLOOR_MARGIN_BPS);
    let den: u128 = bp_den * BPS_DENOM;
    (num, den)
}

/// What a settlement of a gross amount destroys, rounded down to whole base units.
pub open spec fn burned(gross: nat) -> nat {
    gross * (SETTLEMENT_BURN_BPS as nat) / (BPS_DENOM as nat)
}

/// What the host of a settlement is credited.
pub open spec fn settled(gross: nat) -> int {
    gross - burned(gross)
}

/// What the requesters of a series of settlements are debited, by gross amount.
pub open spec fn total_gross(legs: Seq<nat>) -> nat
    decreases legs.len(),
{
    if legs.len() == 0 {
        0
    } else {
        total_gross(legs.drop_last()) + legs.last()
    }
}

/// What the hosts of a series of settlements are credited.
pub open spec fn total_settled(legs: Seq<nat>) -> int
    decreases legs.len(),
{
    if legs.len() == 0 {
        0
    } else {
        total_settled(legs.drop_last()) + settled(legs.last())
    }
}

/// What a series of settlements destroys.
pub open spec fn total_burned(legs: Seq<nat>) -> nat
    decreases legs.len(),
{
    if legs.len() == 0 {
        0
    } else {
        total_burned(legs.drop_last()) + burned(legs.last())
    }
}

/// Whether every settlement burns a whole number of base units, so that nothing is rounded.
pub open spec fn unrounded(legs: Seq<nat>) -> bool {
    forall|i: int|
        0 <= i < legs.len() ==> (#[trigger] legs[i] * (SETTLEMENT_BURN_BPS as nat)) % (
        BPS_DENOM as nat) == 0
}

/// The default floor lies strictly below the balanced point.
pub proof fn law_floor_below_balanced_point()
    ensures
        0 < floor_num(),
        floor_num() * BPS_DENOM < balanced_num() * floor_den(),
{
    assert(balanced_num() == 9_900 && floor_num() == 95_040_000 && floor_den() == 100_000_000);
}

/// A ratio that reaches the balanced point clears the default floor.
pub proof fn law_balanced_point_clears_floor(r: Ratio)
    requires
        r.clears(balanced_num(), BPS_DENOM),
    ensures
        r.clears(floor_num(), floor_den()),
{
    assert(balanced_num() == 9_900 && floor_num() == 95_040_000 && floor_den() == 100_000_000);
}

/// The rounding of one settlement.
proof fn lemma_settled(gross: nat)
    ensures
        0 <= burned(gross) <= gross,
        settled(gross) * 10_000 >= gross * 9_900,
        (gross * 100) % 10_000 == 0 ==> settled(gross) * 10_000 == gross * 9_900,
{
}

/// A node that is paid for the gross volume that it pays for never falls below the balanced point,
/// nor below the default floor, whatever the amounts: rounding costs the host no more than the burn
/// rate.
pub proof fn law_honest_trace_clears_floor(legs: Seq<nat>, r: Ratio)
    requires
        r.contributed == total_settled(legs),
        r.consumed == total_gross(legs),
    ensures
        r.clears(balanced_num(), BPS_DENOM),
        r.clears(floor_num(), floor_den()),
{
    lemma_totals(legs);
    law_balanced_point_clears_floor(r);
}

/// The burn keeps such a node strictly below a ratio of one, as soon as one settlement burns
/// anything.
pub proof fn law_burn_keeps_ratio_below_one(legs: Seq<nat>, r: Ratio)
    requires
        r.contributed == total_settled(legs),
        r.consumed == total_gross(legs),
        total_burned(legs) > 0,
    ensures
        r.order_against(1, 1) == Ordering::Less,
{
    lemma_totals(legs);
}

/// The combined ratio of a closed ring, whose members settle only with each other, is exactly the
/// balanced point: no volume of wash trades lifts it higher. What the ring destroys meanwhile grows
/// with the volume, at the burn rate.
pub proof fn law_ring_combined_ratio_is_balanced_point(legs: Seq<nat>, combined: Ratio)
    requires
        unrounded(legs),
        combined.contributed == total_settled(legs),
        combined.consumed == total_gross(legs),
        combined.consumed > 0,
    ensures
        combined.order_against(balanced_num(), BPS_DENOM) == Ordering::Equal,
        total_burned(legs) * BPS_DENOM == total_gross(legs) * SETTLEMENT_BURN_BPS,
{
    lemma_totals(legs);
}

/// A closed ring lifts one part of itself above the balanced point only by sinking the rest below
/// it.
pub proof fn law_ring_lifts_one_by_sinking_the_rest(legs: Seq<nat>, lifted: Ratio, rest: Ratio)
    requires
        unrounded(legs),
        lifted.contributed + rest.contributed == total_settled(legs),
        lifted.consumed + rest.consumed == total_gross(legs),
        lifted.contributed > 0 || lifted.consumed > 0,
        lifted.order_against(balanced_num(), BPS_DENOM) == Ordering::Greater,
    ensures
        rest.order_against(balanced_num(), BPS_DENOM) == Ordering::Less,
{
    lemma_totals(legs);
}

/// The totals of a series of settlements, related through the burn rate.
pub(crate) proof fn lemma_totals(legs: Seq<nat>)
    ensures
        balanced_num() == 9_900,
        total_settled(legs) * 10_000 >= total_gross(legs) * 9_900,
        total_settled(legs) + total_burned(legs) == total_gross(legs),
        unrounded(legs) ==> total_settled(legs) * 10_000 == total_gross(legs) * 9_900,
    decreases legs.len(),
{
    if legs.len() > 0 {
        lemma_totals(legs.drop_last());
        lemma_settled(legs.last());
        if unrounded(legs) {
            assert forall|i: int| 0 <= i < legs.drop_last().len() implies (
            #[trigger] legs.drop_last()[i] * (SETTLEMENT_BURN_BPS as nat)) % (BPS_DENOM as nat)
                == 0 by {
                assert(legs.drop_last()[i] == legs[i]);
            }
            assert(legs.last() == legs[legs.len() - 1]);
        }
    }
}

/// A settlement loses one hundredth of its gross amount, rounded down, and nothing else: what is
/// burned and what the host is credited make up the gross amount.
pub proof fn law_settlement_burns_one_percent(gross: nat)
    ensures
        burned(gross) * 100 <= gross < (burned(gross) + 1) * 100,
        settled(gross) + burned(gross) == gross,
{
}

/// Settlements add up from nothing: one more leg adds its gross amount, its credit and its burn to
/// the totals.
pub proof fn law_totals_add_up(legs: Seq<nat>, gross: nat)
    ensures
        legs.len() == 0 ==> total_gross(legs) == 0 && total_settled(legs) == 0 && total_burned(legs)
            == 0,
        total_gross(legs.push(gross)) == total_gross(legs) + gross,
        total_settled(legs.push(gross)) == total_settled(legs) + settled(gross),
        total_burned(legs.push(gross)) == total_burned(legs) + burned(gross),
{
    assert(legs.push(gross).drop_last() =~= legs);
}

} // verus!
