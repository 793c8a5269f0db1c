//! Recency: how much weight a node's standing keeps as it falls dormant.
//!
//! Histories are cumulative, with no rolling window, so recency goes by the height of the latest
//! interaction alone. It orders and displays; no threshold comparison reads it.

use vstd::prelude::*;

verus! {

/// Full recency weight in basis points: no decay.
pub const RECENCY_FULL_BPS: u32 = 10_000;

/// How many blocks the latest activity lies behind the tip.
pub open spec fn blocks_behind(last_height: u64, beacon_height: u64) -> int {
    if beacon_height > last_height {
        beacon_height - last_height
    } else {
        0
    }
}

/// The recency weight: full inside the active window, then a straight line down to the floor over
/// `decay_blocks`, then the floor. A node that never interacted has the floor.
pub open spec fn recency(
    last_height: u64,
    beacon_height: u64,
    active_blocks: u64,
    decay_blocks: u64,
    floor_bps: u32,
) -> int {
    let dormant = blocks_behind(last_height, beacon_height) - active_blocks;
    if last_height == 0 {
        floor_bps as int
    } else if dormant <= 0 {
        RECENCY_FULL_BPS as int
    } else if dormant >= decay_blocks {
        floor_bps as int
    } else {
        RECENCY_FULL_BPS - recency_span(floor_bps) * dormant / (decay_blocks as int)
    }
}

/// The height of the descent from full weight to the floor.
pub open spec fn recency_span(floor_bps: u32) -> int {
    if floor_bps < RECENCY_FULL_BPS {
        RECENCY_FULL_BPS - floor_bps
    } else {
        0
    }
}

/// A part of the descent, taken over a part of the span, is no larger than the descent.
proof fn lemma_drop_bound(span: int, dormant: int, decay: int)
    requires
        0 <= span,
        0 <= dormant < decay,
    ensures
        0 <= span * dormant / decay <= span,
{
    assert(0 <= span * dormant <= span * decay) by (nonlinear_arith)
        requires
            0 <= span,
            0 <= dormant < decay,
    ;
    vstd::arithmetic::div_mod::lemma_div_is_ordered(0, span * dormant, decay);
    vstd::arithmetic::div_mod::lemma_div_is_ordered(span * dormant, span * decay, decay);
    vstd::arithmetic::div_mod::lemma_div_by_multiple(span, decay);
    vstd::arithmetic::div_mod::lemma_div_basics(decay);
}

/// The recency weight fits in a word.
pub(crate) proof fn lemma_recency_fits(
    last_height: u64,
    beacon_height: u64,
    active_blocks: u64,
    decay_blocks: u64,
    floor_bps: u32,
)
    ensures
        0 <= recency(last_height, beacon_height, active_blocks, decay_blocks, floor_bps)
            <= u32::MAX,
{
    let dormant = blocks_behind(last_height, beacon_height) - active_blocks;
    if 0 <= dormant < decay_blocks {
        lemma_drop_bound(recency_span(floor_bps), dormant, decay_blocks as int);
    }
}

/// The recency multiplier of a node, in basis points.
pub fn recency_factor_bps(
    last_height: u64,
    beacon_height: u64,
    active_blocks: u64,
    decay_blocks: u64,
    floor_bps: u32,
) -> (r: u32)
    ensures
        r == recency(last_height, beacon_height, active_blocks, decay_blocks, floor_bps),
{
    if last_height == 0 {
        return floor_bps;
    }
    let behind: u64 = beacon_height.saturating_sub(last_height);
    if behind <= active_blocks {
        return RECENCY_FULL_BPS;
    }
    if decay_blocks == 0 {
        return floor_bps;
    }
    let into_decay: u64 = behind - active_blocks;
    if into_decay >= decay_blocks {
        return floor_bps;
    }
    let span: u128 = RECENCY_FULL_BPS.saturating_sub(floor_bps) as u128;
    assert(span * into_decay <= 10_000 * u64::MAX) by (nonlinear_arith)
        requires
            span <= 10_000,
            into_decay <= u64::MAX,
    ;
    let drop: u128 = span * into_decay as u128 / decay_blocks as u128;
    proof {
        lemma_drop_bound(span as int, into_decay as int, decay_blocks as int);
    }
    RECENCY_FULL_BPS - drop as u32
}

/// Recency never leaves the interval between the floor and full weight.
pub proof fn law_recency_bounded(
    last_height: u64,
    beacon_height: u64,
    active_blocks: u64,
    decay_blocks: u64,
    floor_bps: u32,
)
    requires
        floor_bps <= RECENCY_FULL_BPS,
    ensures
        floor_bps <= recency(last_height, beacon_height, active_blocks, decay_blocks, floor_bps)
            <= RECENCY_FULL_BPS,
{
    let dormant = blocks_behind(last_height, beacon_height) - active_blocks;
    if 0 <= dormant < decay_blocks {
        lemma_drop_bound(recency_span(floor_bps), dormant, decay_blocks as int);
    }
}

/// More dormancy never raises recency: as the tip moves on past a node's latest activity, its
/// weight does not increase.
pub proof fn law_recency_falls_with_dormancy(
    last_height: u64,
    earlier_tip: u64,
    later_tip: u64,
    active_blocks: u64,
    decay_blocks: u64,
    floor_bps: u32,
)
    requires
        floor_bps <= RECENCY_FULL_BPS,
        earlier_tip <= later_tip,
    ensures
        recency(last_height, later_tip, active_blocks, decay_blocks, floor_bps) <= recency(
            last_height,
            earlier_tip,
            active_blocks,
            decay_blocks,
            floor_bps,
        ),
{
    lemma_recency_antitone(
        blocks_behind(last_height, earlier_tip),
        blocks_behind(last_height, later_tip),
        active_blocks,
        decay_blocks,
        floor_bps,
    );
    law_recency_bounded(last_height, earlier_tip, active_blocks, decay_blocks, floor_bps);
    law_recency_bounded(last_height, later_tip, active_blocks, decay_blocks, floor_bps);
}

/// Later activity never lowers recency: of two nodes seen from one tip, the one that was active
/// later weighs at least as much.
pub proof fn law_recency_rises_with_activity(
    earlier_activity: u64,
    later_activity: u64,
    beacon_height: u64,
    active_blocks: u64,
    decay_blocks: u64,
    floor_bps: u32,
)
    requires
        floor_bps <= RECENCY_FULL_BPS,
        earlier_activity <= later_activity,
    ensures
        recency(earlier_activity, beacon_height, active_blocks, decay_blocks, floor_bps) <= recency(
            later_activity,
            beacon_height,
            active_blocks,
            decay_blocks,
            floor_bps,
        ),
{
    lemma_recency_antitone(
        blocks_behind(later_activity, beacon_height),
        blocks_behind(earlier_activity, beacon_height),
        active_blocks,
        decay_blocks,
        floor_bps,
    );
    law_recency_bounded(earlier_activity, beacon_height, active_blocks, decay_blocks, floor_bps);
    law_recency_bounded(later_activity, beacon_height, active_blocks, decay_blocks, floor_bps);
}

/// On the descent, more dormancy means at least as large a drop.
proof fn lemma_recency_antitone(
    near: int,
    far: int,
    active_blocks: u64,
    decay_blocks: u64,
    floor_bps: u32,
)
    requires
        near <= far,
    ensures
        ({
            let (d0, d1) = (near - active_blocks, far - active_blocks);
            let span = recency_span(floor_bps);
            0 <= d0 && d1 < decay_blocks ==> span * d0 / (decay_blocks as int) <= span * d1
                / (decay_blocks as int)
        }),
{
    let (d0, d1) = (near - active_blocks, far - active_blocks);
    let span = recency_span(floor_bps);
    if 0 <= d0 && d1 < decay_blocks {
        assert(span * d0 <= span * d1) by (nonlinear_arith)
            requires
                0 <= span,
                d0 <= d1,
        ;
        vstd::arithmetic::div_mod::lemma_div_is_ordered(span * d0, span * d1, decay_blocks as int);
    }
}

/// A node that was active within the window has full weight.
pub proof fn law_recency_is_full_while_active(
    last_height: u64,
    beacon_height: u64,
    active_blocks: u64,
    decay_blocks: u64,
    floor_bps: u32,
)
    requires
        last_height != 0,
        beacon_height <= last_height + active_blocks,
    ensures
        recency(last_height, beacon_height, active_blocks, decay_blocks, floor_bps) == 10_000,
{
}

/// A node that never interacted, or has been dormant for the whole span, weighs the floor.
pub proof fn law_recency_rests_at_the_floor(
    last_height: u64,
    beacon_height: u64,
    active_blocks: u64,
    decay_blocks: u64,
    floor_bps: u32,
)
    requires
        last_height == 0 || (beacon_height > last_height + active_blocks && beacon_height
            >= last_height + active_blocks + decay_blocks),
    ensures
        recency(last_height, beacon_height, active_blocks, decay_blocks, floor_bps) == floor_bps,
{
}

/// The descent is a straight line: the weight lost, rounded down, is to the whole descent as the
/// dormant blocks are to the whole span. A floor above full weight leaves nothing to descend.
pub proof fn law_recency_descends_in_a_straight_line(
    last_height: u64,
    beacon_height: u64,
    active_blocks: u64,
    decay_blocks: u64,
    floor_bps: u32,
)
    requires
        last_height != 0,
        0 < beacon_height - last_height - active_blocks < decay_blocks,
    ensures
        ({
            let lost = 10_000 - recency(
                last_height,
                beacon_height,
                active_blocks,
                decay_blocks,
                floor_bps,
            );
            let dormant = beacon_height - last_height - active_blocks;
            &&& floor_bps <= 10_000 ==> lost * decay_blocks <= (10_000 - floor_bps) * dormant < (
            lost + 1) * decay_blocks
            &&& floor_bps >= 10_000 ==> lost == 0
        }),
{
    let dormant = beacon_height - last_height - active_blocks;
    let (span, decay) = (recency_span(floor_bps), decay_blocks as int);
    let lost = span * dormant / decay;
    vstd::arithmetic::div_mod::lemma_fundamental_div_mod(span * dormant, decay);
    vstd::arithmetic::div_mod::lemma_mod_bound(span * dormant, decay);
    assert(lost * decay <= span * dormant < (lost + 1) * decay) by (nonlinear_arith)
        requires
            span * dormant == decay * lost + (span * dormant) % decay,
            0 <= (span * dormant) % decay < decay,
    ;
    if floor_bps >= 10_000 {
        vstd::arithmetic::div_mod::lemma_div_basics(decay);
    }
}

/// Only the distance to the tip counts: moving the tip and the latest activity by the same number of
/// blocks leaves the weight as it is.
pub proof fn law_recency_goes_by_distance(
    last_height: u64,
    beacon_height: u64,
    later_activity: u64,
    later_tip: u64,
    active_blocks: u64,
    decay_blocks: u64,
    floor_bps: u32,
)
    requires
        last_height != 0,
        later_activity != 0,
        beacon_height - last_height == later_tip - later_activity,
    ensures
        recency(last_height, beacon_height, active_blocks, decay_blocks, floor_bps) == recency(
            later_activity,
            later_tip,
            active_blocks,
            decay_blocks,
            floor_bps,
        ),
{
}

} // verus!
