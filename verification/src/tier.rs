//! Tiers: what a node's history says of its standing.
//!
//! A tier ranks, orders and prices. It grants and denies nothing.

use crate::amount::Amount;
use crate::burn;
use crate::history::NodeHistory;
use crate::ratio;
use crate::ratio::Ratio;
use vstd::prelude::*;

verus! {

/// A node's reputation tier, a soft signal.
#[derive(Debug, Clone, Copy, PartialEq, Eq, Structural)]
pub enum Tier {
    /// Never interacted. Bounded freeleech, a trickle of low-value work.
    Newcomer,
    /// Within the vetting window and under the freeleech cap.
    Probation,
    /// Below the balanced floor. De-prioritized and re-priced, never blocked.
    Leech,
    /// At or above the balanced floor, below the contributor threshold.
    Balanced,
    /// At or above the contributor threshold.
    Contributor,
}

impl Tier {
    /// The rank of a tier; a higher one is preferred.
    pub open spec fn score(self) -> u8 {
        match self {
            Tier::Leech => 0,
            Tier::Newcomer => 1,
            Tier::Probation => 2,
            Tier::Balanced => 3,
            Tier::Contributor => 4,
        }
    }

    /// A rank score (higher is preferred) that orders already-permitted candidates.
    pub fn rank_score(self) -> (r: u8)
        ensures
            r == self.score(),
            self == Tier::Leech ==> r == 0,
            self == Tier::Newcomer ==> r == 1,
            self == Tier::Probation ==> r == 2,
            self == Tier::Balanced ==> r == 3,
            self == Tier::Contributor ==> r == 4,
    {
        match self {
            Tier::Leech => 0,
            Tier::Newcomer => 1,
            Tier::Probation => 2,
            Tier::Balanced => 3,
            Tier::Contributor => 4,
        }
    }
}

/// Policy knobs for rating and pricing.
#[derive(Debug, Clone)]
pub struct RatioConfig {
    /// Balanced floor, numerator; by default derived from the burn.
    pub balanced_floor_num: u128,
    /// Balanced floor, denominator.
    pub balanced_floor_den: u128,
    /// Contributor threshold, numerator; by default `2`.
    pub contributor_num: u128,
    /// Contributor threshold, denominator; by default `1`.
    pub contributor_den: u128,
    /// Vetting window in blocks for newcomer grace.
    pub vetting_blocks: u64,
    /// Bounded freeleech credit cap.
    pub freeleech_cap: Amount,
    /// A node active within this many blocks of the tip has full recency.
    pub active_blocks: u64,
    /// Span of the linear decay past `active_blocks`.
    pub decay_blocks: u64,
    /// Recency floor in basis points for fully dormant nodes.
    pub recency_floor_bps: u32,
    /// The least number of host events for [`Tier::Contributor`].
    pub min_host_events_for_contributor: u64,
}

/// The default policy.
pub open spec fn is_default(cfg: RatioConfig) -> bool {
    &&& cfg.balanced_floor_num == burn::floor_num()
    &&& cfg.balanced_floor_den == burn::floor_den()
    &&& cfg.contributor_num == 2
    &&& cfg.contributor_den == 1
    &&& cfg.vetting_blocks == 8_640
    &&& cfg.freeleech_cap@ == 5_000_000_000_000_000_000
    &&& cfg.active_blocks == 8_640
    &&& cfg.decay_blocks == 259_200
    &&& cfg.recency_floor_bps == 2_000
    &&& cfg.min_host_events_for_contributor == 8
}

impl Default for RatioConfig {
    fn default() -> (r: Self)
        ensures
            is_default(r),
            r.balanced_floor_num == 95_040_000,
            r.balanced_floor_den == 100_000_000,
            r.contributor_num == 2,
            r.contributor_den == 1,
            r.vetting_blocks == 8_640,
            r.freeleech_cap.units == 5_000_000_000_000_000_000,
            r.active_blocks == 8_640,
            r.decay_blocks == 259_200,
            r.recency_floor_bps == 2_000,
            r.min_host_events_for_contributor == 8,
    {
        let (floor_num, floor_den) = burn::default_balanced_floor();
        RatioConfig {
            balanced_floor_num: floor_num,
            balanced_floor_den: floor_den,
            contributor_num: 2,
            contributor_den: 1,
            vetting_blocks: 8_640,
            freeleech_cap: Amount::from_credits(5),
            active_blocks: 8_640,
            decay_blocks: 259_200,
            recency_floor_bps: 2_000,
            min_host_events_for_contributor: 8,
        }
    }
}

/// Blocks since a node's first interaction.
pub open spec fn age(h: NodeHistory, beacon_height: u64) -> int {
    if beacon_height > h.first_height {
        beacon_height - h.first_height
    } else {
        0
    }
}

/// Whether a node that has interacted is still in its newcomer grace, which a time cap and a credit
/// cap both bound.
pub open spec fn in_grace(h: NodeHistory, beacon_height: u64, cfg: RatioConfig) -> bool {
    age(h, beacon_height) < cfg.vetting_blocks && h.spent@ < cfg.freeleech_cap@
}

/// Whether a node is past its grace, so that its ratio rates it.
pub open spec fn is_rated(h: NodeHistory, beacon_height: u64, cfg: RatioConfig) -> bool {
    h.first_height != 0 && !in_grace(h, beacon_height, cfg)
}

/// Whether a history clears a threshold; one without consumption clears them all.
pub open spec fn clears(h: NodeHistory, num: u128, den: u128) -> bool {
    match ratio::attested_ratio(h) {
        Some(r) => r.clears(num, den),
        None => true,
    }
}

/// Whether a history clears the balanced floor.
pub open spec fn clears_floor(h: NodeHistory, cfg: RatioConfig) -> bool {
    clears(h, cfg.balanced_floor_num, cfg.balanced_floor_den)
}

/// Whether a history clears both thresholds, so that only the diversity of its host events is left
/// to decide.
pub open spec fn clears_both(h: NodeHistory, cfg: RatioConfig) -> bool {
    clears_floor(h, cfg) && clears(h, cfg.contributor_num, cfg.contributor_den)
}

/// The tier of a node.
pub open spec fn tier_of(h: NodeHistory, beacon_height: u64, cfg: RatioConfig) -> Tier {
    if h.first_height == 0 {
        Tier::Newcomer
    } else if in_grace(h, beacon_height, cfg) {
        Tier::Probation
    } else if !clears_floor(h, cfg) {
        Tier::Leech
    } else if clears_both(h, cfg) && h.host_events() >= cfg.min_host_events_for_contributor {
        Tier::Contributor
    } else {
        Tier::Balanced
    }
}

/// Whether a node can be rated: where its host events decide, their count fits in a word.
pub open spec fn ratable(h: NodeHistory, beacon_height: u64, cfg: RatioConfig) -> bool {
    is_rated(h, beacon_height, cfg) && clears_both(h, cfg) ==> h.countable()
}

/// Decides whether a node can be rated, for callers that take histories as they come.
pub fn is_ratable(h: &NodeHistory, beacon_height: u64, cfg: &RatioConfig) -> (r: bool)
    ensures
        r == ratable(*h, beacon_height, *cfg),
{
    if h.jobs_hosted <= u64::MAX - h.heartbeats_hosted || h.is_newcomer() {
        return true;
    }
    let age_blocks: u64 = beacon_height.saturating_sub(h.first_height);
    if age_blocks < cfg.vetting_blocks && h.spent.base() < cfg.freeleech_cap.base() {
        return true;
    }
    match ratio::ratio_of(h) {
        None => false,
        Some(r) => !(r.at_least(cfg.balanced_floor_num, cfg.balanced_floor_den) && r.at_least(
            cfg.contributor_num,
            cfg.contributor_den,
        )),
    }
}

/// Classifies a node into a [`Tier`] from its history and the current beacon height.
///
/// Newcomer grace is bounded by a time cap and by a credit cap. Once either is exceeded the node is
/// rated by its exact ratio.
pub fn classify(h: &NodeHistory, beacon_height: u64, cfg: &RatioConfig) -> (r: Tier)
    requires
        ratable(*h, beacon_height, *cfg),
    ensures
        r == tier_of(*h, beacon_height, *cfg),
{
    if h.first_height == 0 {
        return Tier::Newcomer;
    }
    let age_blocks: u64 = beacon_height.saturating_sub(h.first_height);
    let under_credit_cap: bool = h.spent.base() < cfg.freeleech_cap.base();
    if age_blocks < cfg.vetting_blocks && under_credit_cap {
        return Tier::Probation;
    }
    match ratio::ratio_of(h) {
        None => contributor_or_capped(h, cfg),
        Some(r) => {
            if !r.at_least(cfg.balanced_floor_num, cfg.balanced_floor_den) {
                Tier::Leech
            } else if r.at_least(cfg.contributor_num, cfg.contributor_den) {
                contributor_or_capped(h, cfg)
            } else {
                Tier::Balanced
            }
        },
    }
}

/// The low-diversity guard: a node whose earnings accrued over very few host events is capped at
/// [`Tier::Balanced`], however high its ratio.
fn contributor_or_capped(h: &NodeHistory, cfg: &RatioConfig) -> (r: Tier)
    requires
        h.countable(),
    ensures
        r == (if h.host_events() >= cfg.min_host_events_for_contributor {
            Tier::Contributor
        } else {
            Tier::Balanced
        }),
{
    if h.delivered_work() >= cfg.min_host_events_for_contributor {
        Tier::Contributor
    } else {
        Tier::Balanced
    }
}

/// Classifies a node and reads its exact ratio, `None` if it never consumed.
pub fn classify_with_ratio(h: &NodeHistory, beacon_height: u64, cfg: &RatioConfig) -> (r: (
    Tier,
    Option<Ratio>,
))
    requires
        ratable(*h, beacon_height, *cfg),
    ensures
        r.0 == tier_of(*h, beacon_height, *cfg),
        r.1 == ratio::attested_ratio(*h),
{
    (classify(h, beacon_height, cfg), ratio::ratio_of(h))
}

/// The freeleech cap less what a node has spent; negative for one that has spent more.
pub open spec fn credit_left(h: NodeHistory, cfg: RatioConfig) -> int {
    cfg.freeleech_cap@ - (if h.spent@ < 0 {
        0
    } else {
        h.spent@
    })
}

/// The freeleech budget of a node at a height: nothing once the credit cap is reached or, for a node
/// that has interacted, once the vetting window has passed.
pub open spec fn freeleech_budget(h: NodeHistory, height: u64, cfg: RatioConfig) -> int {
    if credit_left(h, cfg) < 0 {
        0
    } else if h.first_height != 0 && age(h, height) >= cfg.vetting_blocks {
        0
    } else {
        credit_left(h, cfg)
    }
}

/// Remaining bounded freeleech budget of a node at a height.
pub fn freeleech_remaining_at(h: &NodeHistory, height: u64, cfg: &RatioConfig) -> (r: Amount)
    requires
        credit_left(*h, *cfg) >= i128::MIN,
    ensures
        r@ == freeleech_budget(*h, height, *cfg),
        ({
            let spent = if h.spent.units < 0 {
                0
            } else {
                h.spent.units as int
            };
            let vetting = h.first_height == 0 || (cfg.vetting_blocks > 0 && height
                - h.first_height < cfg.vetting_blocks);
            &&& vetting && spent <= cfg.freeleech_cap.units ==> r.units + spent
                == cfg.freeleech_cap.units
            &&& !vetting || spent >= cfg.freeleech_cap.units ==> r.units == 0
        }),
{
    let cap: i128 = cfg.freeleech_cap.base();
    let total: i128 = h.spent.base();
    let spent: i128 = if total < 0 {
        0
    } else {
        total
    };
    let left: i128 = cap - spent;
    let past_window: bool = !h.is_newcomer() && height.saturating_sub(h.first_height)
        >= cfg.vetting_blocks;
    if left < 0 || past_window {
        Amount::zero()
    } else {
        Amount::from_base(left)
    }
}

/// Remaining bounded freeleech budget of a node, as far as its history tells the time: the budget
/// at the height of its latest interaction.
///
/// The full cap for a newcomer, which has spent nothing; zero once the credit cap is reached or, for
/// a node that has interacted, once its history runs past the vetting window.
pub fn freeleech_remaining(h: &NodeHistory, cfg: &RatioConfig) -> (r: Amount)
    requires
        credit_left(*h, *cfg) >= i128::MIN,
    ensures
        r@ == freeleech_budget(*h, h.last_height, *cfg),
        ({
            let spent = if h.spent.units < 0 {
                0
            } else {
                h.spent.units as int
            };
            let vetting = h.first_height == 0 || (cfg.vetting_blocks > 0 && h.last_height
                - h.first_height < cfg.vetting_blocks);
            &&& vetting && spent <= cfg.freeleech_cap.units ==> r.units + spent
                == cfg.freeleech_cap.units
            &&& !vetting || spent >= cfg.freeleech_cap.units ==> r.units == 0
        }),
{
    freeleech_remaining_at(h, h.last_height, cfg)
}

/// More earned never lowers a node's tier, all else being equal.
pub proof fn law_tier_rises_with_earned(
    h: NodeHistory,
    more_earned: Amount,
    beacon_height: u64,
    cfg: RatioConfig,
)
    requires
        h.earned@ <= more_earned@,
    ensures
        tier_of(h, beacon_height, cfg).score() <= tier_of(
            NodeHistory { earned: more_earned, ..h },
            beacon_height,
            cfg,
        ).score(),
{
    let more = NodeHistory { earned: more_earned, ..h };
    if let Some(r) = ratio::attested_ratio(h) {
        let raised = ratio::attested_ratio(more)->Some_0;
        if r.clears(cfg.balanced_floor_num, cfg.balanced_floor_den) {
            ratio::law_clears_with_more_contributed(
                r,
                raised,
                cfg.balanced_floor_num,
                cfg.balanced_floor_den,
            );
        }
        if r.clears(cfg.contributor_num, cfg.contributor_den) {
            ratio::law_clears_with_more_contributed(
                r,
                raised,
                cfg.contributor_num,
                cfg.contributor_den,
            );
        }
    }
}

/// More delivered work never lowers a node's tier, all else being equal.
pub proof fn law_tier_rises_with_host_events(
    h: NodeHistory,
    more_jobs: u64,
    more_heartbeats: u64,
    beacon_height: u64,
    cfg: RatioConfig,
)
    requires
        h.host_events() <= more_jobs + more_heartbeats,
    ensures
        tier_of(h, beacon_height, cfg).score() <= tier_of(
            NodeHistory { jobs_hosted: more_jobs, heartbeats_hosted: more_heartbeats, ..h },
            beacon_height,
            cfg,
        ).score(),
{
}

/// Recency rates nobody: when a node was last active does not enter its tier.
pub proof fn law_tier_ignores_recency(
    h: NodeHistory,
    last_height: u64,
    beacon_height: u64,
    cfg: RatioConfig,
)
    ensures
        tier_of(NodeHistory { last_height, ..h }, beacon_height, cfg) == tier_of(
            h,
            beacon_height,
            cfg,
        ),
{
}

/// A node that never interacted is a newcomer at every height, under every policy.
pub proof fn law_stranger_is_newcomer(h: NodeHistory, beacon_height: u64, cfg: RatioConfig)
    ensures
        h.first_height == 0 <==> tier_of(h, beacon_height, cfg) == Tier::Newcomer,
{
}

/// Past its grace a node is a leech exactly when its exact ratio is below the balanced floor.
pub proof fn law_leech_is_below_floor(h: NodeHistory, beacon_height: u64, cfg: RatioConfig)
    ensures
        tier_of(h, beacon_height, cfg) == Tier::Leech <==> is_rated(h, beacon_height, cfg)
            && !clears_floor(h, cfg),
{
}

/// Grace is bounded twice: on probation, a node is inside the vetting window and under the freeleech
/// cap.
pub proof fn law_probation_is_bounded(h: NodeHistory, beacon_height: u64, cfg: RatioConfig)
    requires
        tier_of(h, beacon_height, cfg) == Tier::Probation,
    ensures
        age(h, beacon_height) < cfg.vetting_blocks,
        h.spent@ < cfg.freeleech_cap@,
{
}

/// Grace does not come back: an identity that has been rated stays rated, since its first height
/// stands and neither the tip nor its spending goes back.
pub proof fn law_grace_does_not_return(
    h: NodeHistory,
    beacon_height: u64,
    later: NodeHistory,
    later_height: u64,
    cfg: RatioConfig,
)
    requires
        is_rated(h, beacon_height, cfg),
        later.first_height == h.first_height,
        h.spent@ <= later.spent@,
        beacon_height <= later_height,
    ensures
        is_rated(later, later_height, cfg),
        tier_of(later, later_height, cfg) != Tier::Newcomer,
        tier_of(later, later_height, cfg) != Tier::Probation,
{
}

/// A node with too few host events is never a contributor, however high its ratio.
pub proof fn law_low_diversity_is_capped(h: NodeHistory, beacon_height: u64, cfg: RatioConfig)
    requires
        h.host_events() < cfg.min_host_events_for_contributor,
    ensures
        tier_of(h, beacon_height, cfg) != Tier::Contributor,
{
}

/// An honest node, paid for the gross volume that it pays for, is never a leech by the default
/// floor: the burn that it already paid does not count against it.
pub proof fn law_honest_node_is_no_leech(
    h: NodeHistory,
    legs: Seq<nat>,
    beacon_height: u64,
    cfg: RatioConfig,
)
    requires
        cfg.balanced_floor_num == burn::floor_num(),
        cfg.balanced_floor_den == burn::floor_den(),
        h.earned@ == burn::total_settled(legs),
        h.spent@ == burn::total_gross(legs),
    ensures
        tier_of(h, beacon_height, cfg) != Tier::Leech,
{
    if let Some(r) = ratio::attested_ratio(h) {
        burn::lemma_totals(legs);
        burn::law_honest_trace_clears_floor(legs, r);
    }
}

/// Trading with itself makes no node a contributor, where contributors must give more than they
/// take.
pub proof fn law_self_dealing_is_no_contribution(
    h: NodeHistory,
    legs: Seq<nat>,
    beacon_height: u64,
    cfg: RatioConfig,
)
    requires
        cfg.contributor_num > cfg.contributor_den,
        h.earned@ == burn::total_settled(legs),
        h.spent@ == burn::total_gross(legs),
        h.spent@ > 0,
    ensures
        tier_of(h, beacon_height, cfg) != Tier::Contributor,
{
    burn::lemma_totals(legs);
    let (earned, spent) = (h.earned.clamped(), h.spent.clamped());
    let (num, den) = (cfg.contributor_num, cfg.contributor_den);
    assert(earned * den < spent * num) by (nonlinear_arith)
        requires
            earned <= spent,
            0 < spent,
            den < num,
    ;
}

/// The freeleech budget is bounded: never negative, never above the cap.
pub proof fn law_freeleech_is_bounded(h: NodeHistory, height: u64, cfg: RatioConfig)
    requires
        cfg.freeleech_cap@ >= 0,
    ensures
        0 <= freeleech_budget(h, height, cfg) <= cfg.freeleech_cap@,
        h.first_height == 0 && h.spent@ == 0 ==> freeleech_budget(h, height, cfg)
            == cfg.freeleech_cap@,
{
}

/// The freeleech budget of an identity never grows: neither spending nor time gives any back.
pub proof fn law_freeleech_never_grows(
    h: NodeHistory,
    height: u64,
    later: NodeHistory,
    later_height: u64,
    cfg: RatioConfig,
)
    requires
        later.first_height == h.first_height,
        h.spent@ <= later.spent@,
        height <= later_height,
    ensures
        freeleech_budget(later, later_height, cfg) <= freeleech_budget(h, height, cfg),
{
}

/// A node that has interacted has freeleech left exactly while it is on probation.
pub proof fn law_freeleech_is_probation(h: NodeHistory, height: u64, cfg: RatioConfig)
    requires
        cfg.freeleech_cap@ > 0,
        h.first_height != 0,
    ensures
        freeleech_budget(h, height, cfg) > 0 <==> tier_of(h, height, cfg) == Tier::Probation,
{
}

/// The vetting window runs from the node's own first interaction: a node that has interacted is on
/// probation exactly while fewer blocks than the window have passed since then, and while it has
/// spent less than the freeleech cap. A tip behind the first interaction counts as no blocks.
pub proof fn law_vetting_runs_from_first_interaction(
    h: NodeHistory,
    beacon_height: u64,
    cfg: RatioConfig,
)
    ensures
        tier_of(h, beacon_height, cfg) == Tier::Newcomer <==> h.first_height == 0,
        tier_of(h, beacon_height, cfg) == Tier::Probation <==> h.first_height != 0
            && cfg.vetting_blocks > 0 && beacon_height - h.first_height < cfg.vetting_blocks
            && h.spent.units < cfg.freeleech_cap.units,
{
}

/// Past its grace a node is rated by cross products of its two totals, debts read as nothing: a
/// leech is below the floor, a contributor is at both thresholds with enough host events, and
/// everyone else is balanced.
pub proof fn law_rating_goes_by_cross_products(
    h: NodeHistory,
    beacon_height: u64,
    cfg: RatioConfig,
    earned: nat,
    spent: nat,
)
    requires
        h.first_height != 0,
        cfg.vetting_blocks == 0 || beacon_height - h.first_height >= cfg.vetting_blocks
            || h.spent.units >= cfg.freeleech_cap.units,
        earned == h.earned.units || (earned == 0 && h.earned.units < 0),
        spent == h.spent.units || (spent == 0 && h.spent.units < 0),
    ensures
        ({
            let t = tier_of(h, beacon_height, cfg);
            let at_floor = earned * cfg.balanced_floor_den >= spent * cfg.balanced_floor_num;
            let at_contributor = earned * cfg.contributor_den >= spent * cfg.contributor_num;
            let diverse = h.jobs_hosted + h.heartbeats_hosted
                >= cfg.min_host_events_for_contributor;
            &&& t == Tier::Leech <==> !at_floor
            &&& t == Tier::Contributor <==> at_floor && at_contributor && diverse
            &&& t == Tier::Balanced <==> at_floor && !(at_contributor && diverse)
        }),
{
    assert(earned * cfg.balanced_floor_den >= 0) by (nonlinear_arith);
    assert(earned * cfg.contributor_den >= 0) by (nonlinear_arith);
}

/// Where the chain stands does not matter: moving a node's first interaction and the tip by the same
/// number of blocks leaves its tier as it is.
pub proof fn law_tier_goes_by_age(
    h: NodeHistory,
    beacon_height: u64,
    first_height: u64,
    later_height: u64,
    cfg: RatioConfig,
)
    requires
        h.first_height != 0,
        first_height != 0,
        beacon_height - h.first_height == later_height - first_height,
    ensures
        tier_of(NodeHistory { first_height, ..h }, later_height, cfg) == tier_of(
            h,
            beacon_height,
            cfg,
        ),
{
}

/// Past its grace a node's tier goes by its ratio, not by its volume: with `scale` times the totals
/// it has the same tier.
pub proof fn law_tier_is_scale_free(
    h: NodeHistory,
    scaled: NodeHistory,
    scale: nat,
    beacon_height: u64,
    cfg: RatioConfig,
)
    requires
        scale > 0,
        scaled == (NodeHistory { earned: scaled.earned, spent: scaled.spent, ..h }),
        scaled.earned.units == scale * h.earned.units,
        scaled.spent.units == scale * h.spent.units,
        h.first_height != 0,
        beacon_height - h.first_height >= cfg.vetting_blocks,
    ensures
        tier_of(scaled, beacon_height, cfg) == tier_of(h, beacon_height, cfg),
{
    let (e, s) = (h.earned.units as int, h.spent.units as int);
    assert((scale * e < 0 <==> e < 0) && (scale * s < 0 <==> s < 0) && (scale * s == 0 <==> s == 0)
        && scale * 0 == 0) by (nonlinear_arith)
        requires
            scale > 0,
    ;
    if let Some(r) = ratio::attested_ratio(h) {
        let r1 = ratio::attested_ratio(scaled)->Some_0;
        ratio::law_ratio_is_scale_free(
            r,
            r1,
            scale,
            cfg.balanced_floor_num,
            cfg.balanced_floor_den,
        );
        ratio::law_ratio_is_scale_free(r, r1, scale, cfg.contributor_num, cfg.contributor_den);
    }
}

/// Tiers are preferred in this order: contributors, the balanced, those on probation, newcomers,
/// leeches.
pub proof fn law_tier_preference()
    ensures
        Tier::Contributor.score() > Tier::Balanced.score(),
        Tier::Balanced.score() > Tier::Probation.score(),
        Tier::Probation.score() > Tier::Newcomer.score(),
        Tier::Newcomer.score() > Tier::Leech.score(),
{
}

/// A node cannot be rated only if its host events would decide its tier and exceed a word: it is
/// past its grace and at both thresholds.
pub proof fn law_only_uncountable_deciders_are_unratable(
    h: NodeHistory,
    beacon_height: u64,
    cfg: RatioConfig,
    earned: nat,
    spent: nat,
)
    requires
        earned == h.earned.units || (earned == 0 && h.earned.units < 0),
        spent == h.spent.units || (spent == 0 && h.spent.units < 0),
    ensures
        !ratable(h, beacon_height, cfg) <==> h.jobs_hosted + h.heartbeats_hosted > u64::MAX
            && h.first_height != 0 && (cfg.vetting_blocks == 0 || beacon_height - h.first_height
            >= cfg.vetting_blocks || h.spent.units >= cfg.freeleech_cap.units) && earned
            * cfg.balanced_floor_den >= spent * cfg.balanced_floor_num && earned
            * cfg.contributor_den >= spent * cfg.contributor_num,
{
    assert(earned * cfg.balanced_floor_den >= 0) by (nonlinear_arith);
    assert(earned * cfg.contributor_den >= 0) by (nonlinear_arith);
}

/// While a node is vetted, its budget and what it has spent make up the cap; afterwards, and once the
/// cap is spent, there is no budget. A newcomer is vetted at every height.
pub proof fn law_freeleech_and_spending_make_up_the_cap(
    h: NodeHistory,
    height: u64,
    cfg: RatioConfig,
    spent: nat,
)
    requires
        spent == h.spent.units || (spent == 0 && h.spent.units < 0),
    ensures
        ({
            let vetting = h.first_height == 0 || (cfg.vetting_blocks > 0 && height - h.first_height
                < cfg.vetting_blocks);
            &&& vetting && spent <= cfg.freeleech_cap.units ==> freeleech_budget(h, height, cfg)
                + spent == cfg.freeleech_cap.units
            &&& !vetting || spent >= cfg.freeleech_cap.units ==> freeleech_budget(h, height, cfg)
                == 0
        }),
{
}

/// Each unit that a node spends takes one unit off its budget, as long as there is any.
pub proof fn law_freeleech_is_spent_unit_by_unit(
    h: NodeHistory,
    later: NodeHistory,
    height: u64,
    cfg: RatioConfig,
)
    requires
        later.first_height == h.first_height,
        0 <= h.spent.units <= later.spent.units <= cfg.freeleech_cap.units,
        freeleech_budget(h, height, cfg) > 0,
    ensures
        freeleech_budget(h, height, cfg) - freeleech_budget(later, height, cfg)
            == later.spent.units - h.spent.units,
{
}

} // verus!
