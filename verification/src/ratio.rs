//! The share ratio: what a node contributed over what it consumed, as an exact rational.

use crate::history::NodeHistory;
use crate::wide;
use core::cmp::Ordering;
use vstd::prelude::*;

verus! {

/// A node's exact share ratio, `contributed / consumed`.
///
/// Every threshold is decided by cross-multiplication; nothing is rounded.
#[derive(Debug, Clone, Copy, PartialEq, Eq, Structural)]
pub struct Ratio {
    /// Earned as host, net of burn (base units).
    pub contributed: u128,
    /// Spent as requester, gross (base units).
    pub consumed: u128,
}

impl Ratio {
    /// Whether `contributed / consumed >= num / den`, over the integers.
    ///
    /// A node that consumed nothing has an infinite ratio and clears every threshold; everyone
    /// clears a zero threshold.
    pub open spec fn clears(self, num: u128, den: u128) -> bool {
        num == 0 || self.consumed == 0 || self.contributed * den >= self.consumed * num
    }

    /// How `contributed / consumed` orders against `num / den`, over the integers.
    ///
    /// A node that consumed nothing is above every threshold but zero, where it is level.
    pub open spec fn order_against(self, num: u128, den: u128) -> Ordering {
        if self.consumed == 0 {
            if num == 0 {
                Ordering::Equal
            } else {
                Ordering::Greater
            }
        } else {
            wide::int_order(self.contributed * den, self.consumed * num)
        }
    }

    /// Exact, float-free: is `contributed / consumed >= num / den`?
    pub fn at_least(&self, num: u128, den: u128) -> (r: bool)
        ensures
            r == self.clears(num, den),
            r <==> num == 0 || self.consumed == 0 || self.contributed * den >= self.consumed * num,
    {
        if num == 0 {
            return true;
        }
        if self.consumed == 0 {
            return true;
        }
        matches!(
            wide::cmp_u128_products(self.contributed, den, self.consumed, num),
            Ordering::Greater | Ordering::Equal
        )
    }

    /// Exact ordering of `contributed / consumed` against `num / den`.
    pub fn cmp_threshold(&self, num: u128, den: u128) -> (r: Ordering)
        ensures
            r == self.order_against(num, den),
    {
        if self.consumed == 0 {
            return if num == 0 {
                Ordering::Equal
            } else {
                Ordering::Greater
            };
        }
        wide::cmp_u128_products(self.contributed, den, self.consumed, num)
    }
}

/// The share ratio that a history attests, with negative totals read as zero; `None` for a node
/// that never consumed.
pub open spec fn attested_ratio(h: NodeHistory) -> Option<Ratio> {
    if h.spent.clamped() == 0 {
        None
    } else {
        Some(Ratio { contributed: h.earned.clamped(), consumed: h.spent.clamped() })
    }
}

/// The exact [`Ratio`] of a node's history.
///
/// `None` when the node consumed nothing: there is no denominator, and the node is an infinite
/// contributor.
pub fn ratio_of(h: &NodeHistory) -> (r: Option<Ratio>)
    ensures
        r == attested_ratio(*h),
        r is None <==> h.spent.units <= 0,
        r matches Some(q) ==> q.consumed == h.spent.units && q.contributed == (
        if h.earned.units < 0 {
            0
        } else {
            h.earned.units as int
        }),
{
    let consumed: u128 = h.spent.base_u128();
    if consumed == 0 {
        return None;
    }
    Some(Ratio { contributed: h.earned.base_u128(), consumed })
}

/// A ratio is at least a threshold exactly when it does not order below it.
pub proof fn law_at_least_agrees_with_order(r: Ratio, num: u128, den: u128)
    ensures
        r.clears(num, den) <==> r.order_against(num, den) != Ordering::Less,
{
    let product = r.contributed * den;
    assert(product >= 0) by (nonlinear_arith)
        requires
            product == r.contributed * den,
    ;
}

/// A node that consumed nothing clears every threshold.
pub proof fn law_infinite_contributor_clears_all(contributed: u128, num: u128, den: u128)
    ensures
        (Ratio { contributed, consumed: 0 }).clears(num, den),
{
}

/// A ratio that clears a threshold clears every lower one: one with a numerator that is no larger,
/// over a denominator that is no smaller.
pub proof fn law_clears_lower_threshold(
    r: Ratio,
    num: u128,
    den: u128,
    lower_num: u128,
    higher_den: u128,
)
    requires
        r.clears(num, den),
        lower_num <= num,
        den <= higher_den,
    ensures
        r.clears(lower_num, higher_den),
{
    assert(r.consumed * lower_num <= r.consumed * num) by (nonlinear_arith)
        requires
            lower_num <= num,
    ;
    assert(r.contributed * den <= r.contributed * higher_den) by (nonlinear_arith)
        requires
            den <= higher_den,
    ;
}

/// A node that contributed at least as much, and consumed at most as much, clears every threshold
/// that another node clears.
pub proof fn law_clears_with_more_contributed(lesser: Ratio, greater: Ratio, num: u128, den: u128)
    requires
        lesser.clears(num, den),
        lesser.contributed <= greater.contributed,
        greater.consumed <= lesser.consumed,
    ensures
        greater.clears(num, den),
{
    assert(lesser.contributed * den <= greater.contributed * den) by (nonlinear_arith)
        requires
            lesser.contributed <= greater.contributed,
    ;
    assert(greater.consumed * num <= lesser.consumed * num) by (nonlinear_arith)
        requires
            greater.consumed <= lesser.consumed,
    ;
}

/// The comparison is exact: a ratio orders against a threshold as the cross products do, for every
/// node that consumed anything.
pub proof fn law_order_is_that_of_cross_products(r: Ratio, num: u128, den: u128)
    requires
        r.consumed > 0,
    ensures
        r.order_against(num, den) == Ordering::Less <==> r.contributed * den < r.consumed * num,
        r.order_against(num, den) == Ordering::Equal <==> r.contributed * den == r.consumed * num,
        r.order_against(num, den) == Ordering::Greater <==> r.contributed * den > r.consumed * num,
        r.clears(num, den) <==> r.contributed * den >= r.consumed * num,
{
    assert(r.contributed * den >= 0) by (nonlinear_arith);
}

/// A node that consumed nothing is level with a zero threshold and above every other one.
pub proof fn law_infinite_contributor_orders_above_all(contributed: u128, num: u128, den: u128)
    ensures
        (Ratio { contributed, consumed: 0 }).order_against(num, den) == Ordering::Equal <==> num
            == 0,
        (Ratio { contributed, consumed: 0 }).order_against(num, den) == Ordering::Greater <==> num
            > 0,
{
}

/// Only the ratio counts, not the volume: a node with `scale` times the totals of another clears the
/// same thresholds.
pub proof fn law_ratio_is_scale_free(r: Ratio, scaled: Ratio, scale: nat, num: u128, den: u128)
    requires
        scale > 0,
        scaled.contributed == scale * r.contributed,
        scaled.consumed == scale * r.consumed,
    ensures
        scaled.clears(num, den) == r.clears(num, den),
{
    let (a, b) = (r.contributed * den, r.consumed * num);
    assert(scaled.contributed * den == scale * a) by (nonlinear_arith)
        requires
            scaled.contributed == scale * r.contributed,
            a == r.contributed * den,
    ;
    assert(scaled.consumed * num == scale * b) by (nonlinear_arith)
        requires
            scaled.consumed == scale * r.consumed,
            b == r.consumed * num,
    ;
    assert(scale * a >= scale * b <==> a >= b) by (nonlinear_arith)
        requires
            scale > 0,
    ;
    assert(scaled.consumed == 0 <==> r.consumed == 0) by (nonlinear_arith)
        requires
            scale > 0,
            scaled.consumed == scale * r.consumed,
    ;
}

/// A threshold is sharp: a node clears its own ratio, and fails one that is larger by any part.
pub proof fn law_threshold_is_sharp(r: Ratio, above: u128)
    requires
        r.consumed > 0,
        above > r.contributed,
    ensures
        r.clears(r.contributed, r.consumed),
        !r.clears(above, r.consumed),
{
    assert(r.contributed * r.consumed == r.consumed * r.contributed) by (nonlinear_arith);
    assert(r.contributed * r.consumed < r.consumed * above) by (nonlinear_arith)
        requires
            r.consumed > 0,
            above > r.contributed,
    ;
}

/// The ratio that a history attests holds its two totals, with debts read as nothing; there is none
/// exactly where nothing was spent.
pub proof fn law_attested_ratio_holds_the_totals(h: NodeHistory)
    ensures
        attested_ratio(h) is None <==> h.spent.units <= 0,
        attested_ratio(h) matches Some(q) ==> q.consumed == h.spent.units && (h.earned.units >= 0
            ==> q.contributed == h.earned.units) && (h.earned.units < 0 ==> q.contributed == 0),
{
}

} // verus!
