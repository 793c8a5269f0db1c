use ce_ratio::{
    balanced_point, default_balanced_floor, history_path, ratio_of, Amount, NodeHistory, Ratio,
    RatioConfig, BPS_DENOM, CREDIT, FLOOR_MARGIN_BPS, SETTLEMENT_BURN_BPS,
};
use std::cmp::Ordering;

const CREDIT_I: i128 = 1_000_000_000_000_000_000;

fn hist(earned_cr: i128, spent_cr: i128, first: u64, last: u64) -> NodeHistory {
    NodeHistory {
        node_id: "n".into(),
        jobs_hosted: 20,
        jobs_paid: 5,
        heartbeats_hosted: 0,
        heartbeats_paid: 0,
        expiries: 0,
        earned: Amount::from_base(earned_cr * CREDIT_I),
        spent: Amount::from_base(spent_cr * CREDIT_I),
        first_height: first,
        last_height: last,
    }
}

/// A small deterministic generator of operands.
struct Draw(u64);

impl Draw {
    fn word(&mut self) -> u64 {
        self.0 = self.0.wrapping_mul(6364136223846793005).wrapping_add(1442695040888963407);
        self.0 ^ (self.0 >> 29)
    }

    fn wide(&mut self) -> u128 {
        let shift = self.word() % 128;
        ((self.word() as u128) << 64 | self.word() as u128) >> shift
    }
}

// --- burn-derived floor -----------------------------------------------------

#[test]
fn balanced_point_is_derived_from_burn_not_hardcoded() {
    // At 1% burn: 9900/10000 = 0.99 exactly.
    let (n, d) = balanced_point();
    assert_eq!((n, d), (9_900, 10_000));
    // The honest balanced node (earned = spent * 0.99) clears the balanced floor exactly.
    let r = Ratio { contributed: 99, consumed: 100 };
    let (fnum, fden) = default_balanced_floor();
    assert!(r.at_least(fnum, fden), "honest burn-balanced node must NOT be a leech");
}

#[test]
fn default_floor_is_about_0_95() {
    let (n, d) = default_balanced_floor();
    // 9900*9600 / (10000*10000) = 95_040_000 / 100_000_000 = 0.9504
    let approx = n as f64 / d as f64;
    assert!((approx - 0.9504).abs() < 1e-9, "got {approx}");
}

#[test]
fn floor_follows_the_constants() {
    let (n, d) = default_balanced_floor();
    assert_eq!(n, (BPS_DENOM - SETTLEMENT_BURN_BPS) * (BPS_DENOM - FLOOR_MARGIN_BPS));
    assert_eq!(d, BPS_DENOM * BPS_DENOM);
    assert_eq!((n, d), (95_040_000, 100_000_000));
}

#[test]
fn balanced_floor_is_strictly_below_balanced_point() {
    // The floor must sit below the exact burn-balanced point so honest nodes are never leeches.
    let (bp_n, bp_d) = balanced_point();
    let (f_n, f_d) = default_balanced_floor();
    // f_n/f_d < bp_n/bp_d  <=>  f_n*bp_d < bp_n*f_d
    assert!(f_n * bp_d < bp_n * f_d, "floor must be below the balanced point");
}

// --- ratio exactness --------------------------------------------------------

#[test]
fn ratio_none_when_consumed_zero() {
    let h = hist(10, 0, 5, 5);
    assert!(ratio_of(&h).is_none());
}

#[test]
fn ratio_of_reads_both_totals() {
    let r = ratio_of(&hist(3, 2, 5, 5)).expect("has consumption");
    assert_eq!(r.contributed, 3 * CREDIT_I as u128);
    assert_eq!(r.consumed, 2 * CREDIT_I as u128);
}

#[test]
fn at_least_is_exact_cross_multiplication() {
    let r = Ratio { contributed: 3, consumed: 2 }; // 1.5
    assert!(r.at_least(3, 2));
    assert!(r.at_least(1, 1));
    assert!(!r.at_least(2, 1));
    // boundary equality
    assert!(r.at_least(15, 10));
    assert!(!r.at_least(151, 100));
}

#[test]
fn at_least_handles_huge_values_without_overflow() {
    let big = u128::MAX / 2;
    let r = Ratio { contributed: big, consumed: big };
    assert!(r.at_least(1, 1));
    assert!(!r.at_least(2, 1));
}

#[test]
fn infinite_contributor_clears_any_threshold() {
    let r = Ratio { contributed: 5, consumed: 0 };
    assert!(r.at_least(1_000_000, 1));
}

#[test]
fn as_f64_is_display_only_infinity_for_zero_consumed() {
    let r = Ratio { contributed: 1, consumed: 0 };
    // Gating says "clears" without ever touching a float.
    assert!(r.at_least(u128::MAX, 1));
}

#[test]
fn threshold_orderings() {
    let r = Ratio { contributed: 3, consumed: 2 };
    assert_eq!(r.cmp_threshold(1, 1), Ordering::Greater);
    assert_eq!(r.cmp_threshold(30, 20), Ordering::Equal);
    assert_eq!(r.cmp_threshold(151, 100), Ordering::Less);
    let none = Ratio { contributed: 7, consumed: 0 };
    assert_eq!(none.cmp_threshold(1, 1), Ordering::Greater);
    assert_eq!(none.cmp_threshold(0, 1), Ordering::Equal);
    let idle = Ratio { contributed: 0, consumed: 0 };
    assert_eq!(idle.cmp_threshold(u128::MAX, 1), Ordering::Greater);
}

#[test]
fn zero_thresholds_and_zero_denominators() {
    let r = Ratio { contributed: 0, consumed: 9 };
    assert!(r.at_least(0, 1));
    assert!(r.at_least(0, 0));
    assert!(!r.at_least(1, 0));
    assert_eq!(r.cmp_threshold(0, 1), Ordering::Equal);
    assert_eq!(r.cmp_threshold(1, 0), Ordering::Less);
}

#[test]
fn products_that_differ_only_in_the_low_word_are_told_apart() {
    let m = u128::MAX;
    // m * m against m * (m - 1) and (m - 1) * m, then against (m - 1) * (m + 1) = m * m - 1.
    assert_eq!(Ratio { contributed: m, consumed: m }.cmp_threshold(m - 1, m), Ordering::Greater);
    assert_eq!(Ratio { contributed: m, consumed: m }.cmp_threshold(m, m - 1), Ordering::Less);
    assert_eq!(Ratio { contributed: m, consumed: m }.cmp_threshold(m, m), Ordering::Equal);
    let half = 1u128 << 127;
    // 2^127 * 2 = 2^128 against (2^128 - 1) * 1.
    assert_eq!(Ratio { contributed: half, consumed: m }.cmp_threshold(1, 2), Ordering::Greater);
    // (2^64 + 1) * (2^64 - 1) = 2^128 - 1 against the same.
    let limb = 1u128 << 64;
    let r = Ratio { contributed: limb + 1, consumed: m };
    assert_eq!(r.cmp_threshold(1, limb - 1), Ordering::Equal);
    assert_eq!(r.cmp_threshold(1, limb), Ordering::Greater);
}

#[test]
fn at_least_matches_reference() {
    let mut draw = Draw(1);
    let mut compared = 0;
    for _ in 0..20_000 {
        let (contributed, consumed) = (draw.wide(), draw.wide());
        let num = draw.word() as u128 % 1_000_000;
        let den = 1 + draw.word() as u128 % 999_999;
        let r = Ratio { contributed, consumed };
        if num == 0 || consumed == 0 {
            assert!(r.at_least(num, den));
        } else if let (Some(lhs), Some(rhs)) = (contributed.checked_mul(den), consumed.checked_mul(num))
        {
            assert_eq!(r.at_least(num, den), lhs >= rhs);
            compared += 1;
        }
    }
    assert!(compared > 1_000);
}

#[test]
fn at_least_and_cmp_threshold_agree() {
    let mut draw = Draw(2);
    for _ in 0..20_000 {
        let r = Ratio { contributed: draw.wide(), consumed: draw.wide() };
        let (num, den) = (draw.wide(), draw.wide());
        let from_order =
            matches!(r.cmp_threshold(num, den), Ordering::Greater | Ordering::Equal);
        assert_eq!(r.at_least(num, den), from_order);
    }
}

#[test]
fn at_least_never_overflows_at_extremes() {
    for a in 0..3u128 {
        for b in 0..3u128 {
            for c in 0..3u128 {
                for d in 0..3u128 {
                    let r = Ratio { contributed: u128::MAX - a, consumed: u128::MAX - b };
                    let (num, den) = (u128::MAX - c, u128::MAX - d);
                    // (M-a)(M-d) - (M-b)(M-c) has the sign of (b + c - a - d) for such operands,
                    // and of a*d - b*c where that vanishes.
                    let lead = (b + c) as i32 - (a + d) as i32;
                    let tail = (a * d) as i32 - (b * c) as i32;
                    let expected = if lead != 0 { lead.cmp(&0) } else { tail.cmp(&0) };
                    assert_eq!(r.cmp_threshold(num, den), expected);
                    assert_eq!(r.at_least(num, den), expected != Ordering::Less);
                }
            }
        }
    }
}

#[test]
fn at_least_monotone_in_threshold() {
    let mut draw = Draw(3);
    for _ in 0..5_000 {
        let r = Ratio { contributed: draw.wide() >> 48, consumed: 1 + (draw.wide() >> 48) };
        let num = draw.word() as u128 % 10_000;
        let den = 1 + draw.word() as u128 % 9_999;
        if num > 0 && r.at_least(num, den) {
            assert!(r.at_least(num - 1, den), "clearing num must clear num-1");
            assert!(r.at_least(num, den + 1), "a larger denominator lowers the threshold");
        }
    }
}

#[test]
fn ratio_of_clamps_negative_defensively() {
    // Cumulative totals should never be negative, but a malformed feed must not panic — it clamps.
    let h = hist(-5, -3, 1, 1);
    // consumed clamps to 0 -> None (infinite contributor), never a panic or negative u128.
    assert!(ratio_of(&h).is_none());
}

#[test]
fn ratio_of_negative_earned_clamps_to_zero_contributed() {
    let h = hist(-5, 10, 1, 1);
    let r = ratio_of(&h).expect("has consumption");
    assert_eq!(r.contributed, 0, "negative earned clamps to 0");
    assert_eq!(r.consumed, 10 * CREDIT_I as u128);
}

// --- honest traces and rings ------------------------------------------------

#[test]
fn honest_balanced_trace_never_dips_below_floor() {
    let cfg = RatioConfig::default();
    // Simulate N cycles of hosting == consuming with the 1% burn.
    // Each cycle: consume gross G, earn G*(1-burn). Cumulative ratio = (1-burn) constant.
    let g: u128 = 1_000 * CREDIT_I as u128;
    let burn = g * SETTLEMENT_BURN_BPS / BPS_DENOM;
    let net = g - burn;
    let mut earned: u128 = 0;
    let mut spent: u128 = 0;
    for _ in 0..50 {
        earned += net;
        spent += g;
        let r = Ratio { contributed: earned, consumed: spent };
        assert!(
            r.at_least(cfg.balanced_floor_num, cfg.balanced_floor_den),
            "honest balanced node must stay above the burn-derived floor"
        );
        // and never claims to exceed 1.0
        assert!(!r.at_least(1, 1) || earned == 0, "burn keeps ratio < 1.0");
    }
}

#[test]
fn honest_trace_of_odd_amounts_clears_the_floor() {
    let (fnum, fden) = default_balanced_floor();
    let mut draw = Draw(4);
    let mut earned: u128 = 0;
    let mut spent: u128 = 0;
    for _ in 0..500 {
        let g = draw.word() as u128 % 1_000;
        earned += g - g * SETTLEMENT_BURN_BPS / BPS_DENOM;
        spent += g;
        assert!(Ratio { contributed: earned, consumed: spent }.at_least(fnum, fden));
    }
    assert!(!Ratio { contributed: earned, consumed: spent }.at_least(1, 1));
}

#[test]
fn honest_burn_balanced_node_clears_floor_exactly() {
    // earned = spent * (1 - burn): the canonical honest node. Must clear the floor at any scale.
    let cfg = RatioConfig::default();
    for scale in [1u128, 1000, CREDIT_I as u128, (CREDIT_I as u128) * 1_000_000] {
        let spent = 100 * scale;
        let earned = spent * (10_000 - 100) / 10_000; // 1% burn
        let r = Ratio { contributed: earned, consumed: spent };
        assert!(
            r.at_least(cfg.balanced_floor_num, cfg.balanced_floor_den),
            "honest burn-balanced node must clear the floor at scale {scale}"
        );
    }
}

#[test]
fn self_dealing_ring_combined_ratio_below_balanced() {
    // Two identities A,B trade only with each other. Each leg burns 1%.
    // A pays B (B earns net, A spends gross); B pays A (A earns net, B spends gross).
    let g: u128 = 1_000 * CREDIT_I as u128;
    let net = g - g * SETTLEMENT_BURN_BPS / BPS_DENOM;
    let cycles = 100u128;
    // Symmetric: both earn `net*cycles`, both spend `g*cycles`.
    let combined_earned = 2 * net * cycles;
    let combined_spent = 2 * g * cycles;
    let combined = Ratio { contributed: combined_earned, consumed: combined_spent };
    let (bp_num, bp_den) = balanced_point();
    // Combined ring ratio equals exactly the balanced point (0.99) — it can never exceed it,
    // so a ring can only push ONE node up by sinking the other, at a cumulative burn cost.
    assert_eq!(combined.cmp_threshold(bp_num + 1, bp_den), core::cmp::Ordering::Less);
    assert_eq!(combined.cmp_threshold(bp_num, bp_den), Ordering::Equal);
    // burned capital grows linearly with faked volume.
    let burned = 2 * (g * SETTLEMENT_BURN_BPS / BPS_DENOM) * cycles;
    assert!(burned > 0);
    assert_eq!(burned, 2 * cycles * (g / 100));
}

#[test]
fn lopsided_ring_sinks_the_other_member() {
    // B pays A nine times, A pays B once, 1000 each.
    let a = Ratio { contributed: 9 * 990, consumed: 1_000 };
    let b = Ratio { contributed: 990, consumed: 9_000 };
    let (bp_num, bp_den) = balanced_point();
    assert_eq!(a.cmp_threshold(bp_num, bp_den), Ordering::Greater);
    assert_eq!(b.cmp_threshold(bp_num, bp_den), Ordering::Less);
}

// --- amounts and histories --------------------------------------------------

#[test]
fn amounts_count_base_units() {
    assert_eq!(CREDIT, CREDIT_I);
    assert_eq!(Amount::from_credits(3), Amount::from_base(3 * CREDIT_I));
    assert_eq!(Amount::from_base(-7).base(), -7);
    assert_eq!(Amount::zero().base(), 0);
    assert_eq!(Amount::from_credits(u64::MAX).base(), u64::MAX as i128 * CREDIT_I);
}

#[test]
fn history_counts_host_events() {
    let mut h = hist(0, 0, 0, 0);
    h.heartbeats_hosted = 7;
    assert_eq!(h.delivered_work(), 27);
    assert!(h.is_newcomer());
    h.first_height = 1;
    assert!(!h.is_newcomer());
}

#[test]
fn history_path_names_the_node() {
    assert_eq!(history_path("ab12"), "/history/ab12");
    assert_eq!(history_path(""), "/history/");
}
