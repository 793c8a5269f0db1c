//! Admission: the price at which a host takes a requester's bid.

use crate::amount::Amount;
use crate::burn::BPS_DENOM;
use crate::decay::RECENCY_FULL_BPS;
use crate::history::NodeHistory;
use crate::tier;
use crate::tier::{RatioConfig, Tier};
use vstd::prelude::*;

verus! {

/// The jobs that a requester's expiries are measured against: those it paid for, at least one.
pub open spec fn attempts(h: NodeHistory) -> nat {
    if h.jobs_paid == 0 {
        1
    } else {
        h.jobs_paid as nat
    }
}

/// A requester's expiry rate in basis points, rounded down.
pub open spec fn expiry_rate_bps(h: NodeHistory) -> nat {
    h.expiries as nat * BPS_DENOM as nat / attempts(h)
}

/// The multiplier before it is clamped: 1.0x, or 1.25x for a leech, raised by the expiry rate.
pub open spec fn raw_price_bps(t: Tier, rate_bps: nat) -> nat {
    match t {
        Tier::Leech => 12_500 * (10_000 + rate_bps) / 10_000,
        _ => 10_000 + rate_bps,
    }
}

/// The price multiplier in basis points, clamped between 1.0x and 2.0x.
pub open spec fn price_bps(t: Tier, rate_bps: nat) -> nat {
    let raw = raw_price_bps(t, rate_bps);
    if raw < 10_000 {
        10_000
    } else if raw > 20_000 {
        20_000
    } else {
        raw
    }
}

/// Host-side decision on a requester's bid: whether to accept it, and at what price multiplier in
/// basis points (`10_000` is 1.0x).
///
/// Leeches are re-priced, never blocked. Requesters that let bids expire pay a hit-and-run tax that
/// grows with their expiry rate.
pub fn admit_requester(h: &NodeHistory, beacon_height: u64, cfg: &RatioConfig) -> (r: (bool, u32))
    requires
        tier::ratable(*h, beacon_height, *cfg),
    ensures
        r.0,
        r.1 == price_bps(tier::tier_of(*h, beacon_height, *cfg), expiry_rate_bps(*h)),
{
    let t: Tier = tier::classify(h, beacon_height, cfg);
    let base: u32 = match t {
        Tier::Leech => 12_500,
        Tier::Newcomer | Tier::Probation => 10_000,
        Tier::Balanced => 10_000,
        Tier::Contributor => 10_000,
    };
    let paid: u64 = if h.jobs_paid == 0 {
        1
    } else {
        h.jobs_paid
    };
    let rate: u128 = h.expiries as u128 * BPS_DENOM / paid as u128;
    let capped_rate: u32 = if rate > u32::MAX as u128 {
        u32::MAX
    } else {
        rate as u32
    };
    let mult: u32 = mul_bps(base, RECENCY_FULL_BPS.saturating_add(capped_rate));
    let clamped: u32 = if mult < 10_000 {
        10_000
    } else if mult > 20_000 {
        20_000
    } else {
        mult
    };
    (true, clamped)
}

/// Multiplies two basis-point multipliers, saturating.
fn mul_bps(a: u32, b: u32) -> (r: u32)
    ensures
        r == (if a * b / (BPS_DENOM as int) > u32::MAX {
            u32::MAX as int
        } else {
            a * b / (BPS_DENOM as int)
        }),
{
    assert(0 <= a * b <= u32::MAX * u32::MAX) by (nonlinear_arith)
        requires
            0 <= a <= u32::MAX,
            0 <= b <= u32::MAX,
    ;
    let product: u128 = a as u128 * b as u128 / BPS_DENOM;
    if product > u32::MAX as u128 {
        u32::MAX
    } else {
        product as u32
    }
}

/// A larger share of expired bids has at least as high a rate in basis points.
proof fn lemma_rate_ordered(h: NodeHistory, worse: NodeHistory)
    requires
        h.expiries * attempts(worse) <= worse.expiries * attempts(h),
    ensures
        expiry_rate_bps(h) <= expiry_rate_bps(worse),
{
    let (e0, p0) = (h.expiries as int, attempts(h) as int);
    let (e1, p1) = (worse.expiries as int, attempts(worse) as int);
    let q0 = expiry_rate_bps(h) as int;
    vstd::arithmetic::div_mod::lemma_fundamental_div_mod(e0 * 10_000, p0);
    vstd::arithmetic::div_mod::lemma_mod_bound(e0 * 10_000, p0);
    assert(q0 * p0 <= e0 * 10_000) by (nonlinear_arith)
        requires
            e0 * 10_000 == p0 * q0 + (e0 * 10_000) % p0,
            (e0 * 10_000) % p0 >= 0,
    ;
    assert(q0 * p1 <= e1 * 10_000) by (nonlinear_arith)
        requires
            q0 * p0 <= e0 * 10_000,
            e0 * p1 <= e1 * p0,
            p0 > 0,
            p1 > 0,
    {
        assert((q0 * p0) * p1 <= (e0 * 10_000) * p1);
        assert((e0 * 10_000) * p1 == (e0 * p1) * 10_000);
        assert((e1 * p0) * 10_000 == (e1 * 10_000) * p0);
        assert((q0 * p0) * p1 == (q0 * p1) * p0);
        assert((q0 * p1) * p0 <= (e1 * 10_000) * p0);
    }
    vstd::arithmetic::div_mod::lemma_div_is_ordered(q0 * p1, e1 * 10_000, p1);
    vstd::arithmetic::div_mod::lemma_div_by_multiple(q0, p1);
}

/// The price always lies between 1.0x and 2.0x, and for a leech between 1.25x and 2.0x.
pub proof fn law_price_in_band(t: Tier, rate_bps: nat)
    ensures
        10_000 <= price_bps(t, rate_bps) <= 20_000,
        t == Tier::Leech ==> 12_500 <= price_bps(t, rate_bps),
{
}

/// Only leeches and requesters that let bids expire pay more than 1.0x.
pub proof fn law_clean_requester_pays_base(t: Tier, rate_bps: nat)
    ensures
        price_bps(t, rate_bps) == 10_000 <==> t != Tier::Leech && rate_bps == 0,
{
}

/// The price grows with the expiry rate: of two requesters of one tier, the one that lets at least
/// as large a share of its bids expire pays at least as much.
pub proof fn law_price_rises_with_expiries(t: Tier, h: NodeHistory, worse: NodeHistory)
    requires
        h.expiries * attempts(worse) <= worse.expiries * attempts(h),
    ensures
        price_bps(t, expiry_rate_bps(h)) <= price_bps(t, expiry_rate_bps(worse)),
{
    lemma_rate_ordered(h, worse);
}

/// A leech pays at least what a node of any other tier pays at the same expiry rate.
pub proof fn law_leech_pays_most(t: Tier, rate_bps: nat)
    ensures
        price_bps(t, rate_bps) <= price_bps(Tier::Leech, rate_bps),
{
}

/// More earned never raises the price that a requester pays, all else being equal.
pub proof fn law_price_falls_with_earned(
    h: NodeHistory,
    more_earned: Amount,
    beacon_height: u64,
    cfg: RatioConfig,
)
    requires
        h.earned@ <= more_earned@,
    ensures
        ({
            let more = NodeHistory { earned: more_earned, ..h };
            price_bps(tier::tier_of(more, beacon_height, cfg), expiry_rate_bps(more)) <= price_bps(
                tier::tier_of(h, beacon_height, cfg),
                expiry_rate_bps(h),
            )
        }),
{
    let more = NodeHistory { earned: more_earned, ..h };
    let t = tier::tier_of(h, beacon_height, cfg);
    let raised = tier::tier_of(more, beacon_height, cfg);
    tier::law_tier_rises_with_earned(h, more_earned, beacon_height, cfg);
    law_leech_pays_most(raised, expiry_rate_bps(h));
}

/// The hit-and-run tax is proportional: above 1.0x, a requester that is no leech pays the share of
/// its bids that it let expire, rounded down to a basis point. One that let as many bids expire as it
/// paid for, or more, pays the ceiling. Without paid jobs, one attempt is counted.
pub proof fn law_hit_and_run_tax_is_proportional(t: Tier, h: NodeHistory, bids: nat)
    requires
        t != Tier::Leech,
        bids == h.jobs_paid || (bids == 1 && h.jobs_paid == 0),
        bids > 0,
    ensures
        ({
            let tax = price_bps(t, expiry_rate_bps(h)) - 10_000;
            &&& h.expiries <= bids ==> tax * bids <= 10_000 * h.expiries < (tax + 1) * bids
            &&& h.expiries >= bids ==> tax == 10_000
        }),
{
    let (e, p) = (h.expiries as int, bids as int);
    let q = expiry_rate_bps(h) as int;
    vstd::arithmetic::div_mod::lemma_fundamental_div_mod(e * 10_000, p);
    vstd::arithmetic::div_mod::lemma_mod_bound(e * 10_000, p);
    assert(q * p <= 10_000 * e < (q + 1) * p) by (nonlinear_arith)
        requires
            e * 10_000 == p * q + (e * 10_000) % p,
            0 <= (e * 10_000) % p < p,
    ;
    if e <= p {
        assert(q <= 10_000) by (nonlinear_arith)
            requires
                q * p <= 10_000 * e,
                e <= p,
                p > 0,
        ;
    }
    if e >= p {
        assert(q >= 10_000) by (nonlinear_arith)
            requires
                10_000 * e < (q + 1) * p,
                e >= p,
                p > 0,
        ;
    }
}

/// The leech tax is a quarter: at one expiry rate a leech pays five quarters of what anyone else pays,
/// rounded down, up to the ceiling.
pub proof fn law_leech_pays_five_quarters(t: Tier, rate_bps: nat)
    requires
        t != Tier::Leech,
    ensures
        ({
            let (leech, other) = (price_bps(Tier::Leech, rate_bps), price_bps(t, rate_bps));
            &&& other < 16_000 ==> 4 * leech <= 5 * other < 4 * (leech + 1)
            &&& other >= 16_000 ==> leech == 20_000
        }),
{
}

/// Except for leeches, the tier does not enter the price.
pub proof fn law_price_tells_only_leeches_apart(one: Tier, other: Tier, rate_bps: nat)
    requires
        one != Tier::Leech,
        other != Tier::Leech,
    ensures
        price_bps(one, rate_bps) == price_bps(other, rate_bps),
{
}

} // verus!
