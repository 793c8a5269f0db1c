use ce_ratio::{
    rank_host_indices, rank_hosts, Amount, AtlasEntry, HistoryMap, NodeHistory, RatioConfig, Tier,
};

const CREDIT_I: i128 = 1_000_000_000_000_000_000;

fn hist(earned_cr: i128, spent_cr: i128, first: u64, last: u64) -> NodeHistory {
    NodeHistory {
        node_id: "n".into(),
        jobs_hosted: 20,
        jobs_paid: 5,
        heartbeats_hosted: 0,
        heartbeats_paid: 0,
        expiries: 0,
        earned: Amount::from_base(earned_cr * CREDIT_I),
        spent: Amount::from_base(spent_cr * CREDIT_I),
        first_height: first,
        last_height: last,
    }
}

fn atlas_entry(id: &str, cpu: u32, running: u32) -> AtlasEntry {
    AtlasEntry {
        node_id: id.into(),
        cpu_cores: cpu,
        mem_mb: 1024,
        running_jobs: running,
        last_seen_secs: 0,
        tags: vec![],
    }
}

fn known(entries: Vec<(&str, NodeHistory)>) -> HistoryMap {
    let mut map = HistoryMap::new();
    for (id, mut h) in entries {
        h.node_id = id.into();
        map.insert(id.to_string(), h);
    }
    map
}

#[test]
fn rank_orders_contributor_before_leech() {
    let cfg = RatioConfig::default();
    let atlas = vec![atlas_entry("leech", 4, 0), atlas_entry("contrib", 4, 0)];
    let mut hist_map = HistoryMap::new();
    hist_map.insert("leech".to_string(), {
        let mut h = hist(10, 100, 1, 90_000); // ratio 0.1, recent
        h.node_id = "leech".into();
        h
    });
    hist_map.insert("contrib".to_string(), {
        let mut h = hist(300, 100, 1, 90_000); // ratio 3.0, recent, 20 host events
        h.node_id = "contrib".into();
        h
    });
    let ranked = rank_hosts(&atlas, &hist_map, 100_000, &cfg);
    assert_eq!(ranked[0].node_id, "contrib");
    assert_eq!(ranked[0].tier, Tier::Contributor);
    assert_eq!(ranked[1].tier, Tier::Leech);
}

#[test]
fn rank_prefers_free_capacity_over_reputation() {
    let cfg = RatioConfig::default();
    // busy contributor vs free balanced node: free capacity wins (a busy host can't take it).
    let atlas = vec![
        atlas_entry("busy_contrib", 4, 4), // no free capacity
        atlas_entry("free_balanced", 4, 0),
    ];
    let hist_map = known(vec![
        ("busy_contrib", hist(300, 100, 1, 90_000)),
        ("free_balanced", hist(99, 100, 1, 90_000)),
    ]);
    let ranked = rank_hosts(&atlas, &hist_map, 100_000, &cfg);
    assert_eq!(ranked[0].node_id, "free_balanced");
    assert!(ranked[0].has_free_capacity);
    assert!(!ranked[1].has_free_capacity);
}

#[test]
fn unknown_host_treated_as_newcomer() {
    let cfg = RatioConfig::default();
    let atlas = vec![atlas_entry("unknown", 4, 0)];
    let hist_map = HistoryMap::new();
    let ranked = rank_hosts(&atlas, &hist_map, 100_000, &cfg);
    assert_eq!(ranked[0].tier, Tier::Newcomer);
    assert_eq!(ranked[0].recency_bps, 2_000);
}

#[test]
fn rank_is_deterministic_and_stable() {
    // Same input -> identical output order across runs (no nondeterministic sort).
    let cfg = RatioConfig::default();
    let atlas: Vec<AtlasEntry> = (0..8)
        .map(|i| AtlasEntry {
            node_id: format!("node{i:02}"),
            cpu_cores: 4,
            mem_mb: 1024,
            running_jobs: i % 4,
            last_seen_secs: 0,
            tags: vec![],
        })
        .collect();
    let mut hist_map = HistoryMap::new();
    for i in 0..8 {
        let mut h = hist((i as i128) * 50, 50, 1, 90_000);
        h.node_id = format!("node{i:02}");
        h.jobs_hosted = 20;
        hist_map.insert(format!("node{i:02}"), h);
    }
    let a = rank_hosts(&atlas, &hist_map, 100_000, &cfg);
    let b = rank_hosts(&atlas, &hist_map, 100_000, &cfg);
    let ids_a: Vec<_> = a.iter().map(|r| r.node_id.clone()).collect();
    let ids_b: Vec<_> = b.iter().map(|r| r.node_id.clone()).collect();
    assert_eq!(ids_a, ids_b, "ranking must be deterministic");
    // Free-capacity hosts (running < cpu) must all precede saturated ones.
    let first_busy = a.iter().position(|r| !r.has_free_capacity);
    if let Some(busy_idx) = first_busy {
        assert!(
            a[..busy_idx].iter().all(|r| r.has_free_capacity),
            "all free-capacity hosts must rank before any saturated host"
        );
    }
    // Contributors (ratio >= 2) by load then id, then the balanced one, then the leech.
    let expected =
        ["node04", "node05", "node02", "node06", "node03", "node07", "node01", "node00"];
    assert_eq!(ids_a, expected);
}

#[test]
fn empty_atlas_ranks_to_empty() {
    let cfg = RatioConfig::default();
    let ranked = rank_hosts(&[], &HistoryMap::new(), 100, &cfg);
    assert!(ranked.is_empty());
    assert!(rank_host_indices(&[], &HistoryMap::new(), 100, &cfg).is_empty());
}

#[test]
fn each_signal_breaks_ties_of_the_one_before() {
    let cfg = RatioConfig::default();
    let hist_map = known(vec![
        ("dormant", hist(300, 100, 1, 10_000)),
        ("loaded", hist(300, 100, 1, 99_000)),
        ("b", hist(300, 100, 1, 99_000)),
        ("a", hist(300, 100, 1, 99_000)),
        ("busy", hist(300, 100, 1, 99_000)),
        ("leech", hist(10, 100, 1, 99_000)),
    ]);
    let atlas = vec![
        atlas_entry("busy", 2, 2),
        atlas_entry("leech", 4, 0),
        atlas_entry("stranger", 4, 0),
        atlas_entry("dormant", 4, 0),
        atlas_entry("loaded", 4, 1),
        atlas_entry("b", 4, 0),
        atlas_entry("a", 4, 0),
    ];
    let ranked = rank_hosts(&atlas, &hist_map, 100_000, &cfg);
    let ids: Vec<_> = ranked.iter().map(|r| r.node_id.as_str()).collect();
    assert_eq!(ids, ["a", "b", "loaded", "dormant", "stranger", "leech", "busy"]);
    assert_eq!(ranked[0].recency_bps, 10_000);
    // 90_000 behind, 81_360 into a span of 259_200: 8000 * 81_360 / 259_200 = 2511.
    assert_eq!(ranked[3].recency_bps, 7_489);
    assert_eq!(rank_host_indices(&atlas, &hist_map, 100_000, &cfg), [6, 5, 4, 3, 2, 1, 0]);
}

#[test]
fn equal_hosts_keep_their_places() {
    let cfg = RatioConfig::default();
    let atlas: Vec<AtlasEntry> = (0..9).map(|_| atlas_entry("same", 4, 1)).collect();
    let order = rank_host_indices(&atlas, &HistoryMap::new(), 5, &cfg);
    assert_eq!(order, [0, 1, 2, 3, 4, 5, 6, 7, 8]);
}

#[test]
fn ids_order_as_strings_do() {
    let cfg = RatioConfig::default();
    let mut ids = vec!["", "a", "aa", "ab", "b", "Z", "\u{e9}", "\u{ffff}", "\u{10000}", "a\u{e9}"];
    let atlas: Vec<AtlasEntry> = ids.iter().map(|id| atlas_entry(id, 4, 1)).collect();
    let ranked = rank_hosts(&atlas, &HistoryMap::new(), 5, &cfg);
    ids.sort();
    let got: Vec<_> = ranked.iter().map(|r| r.node_id.as_str()).collect();
    assert_eq!(got, ids);
}

#[test]
fn every_host_is_ranked_once_whatever_the_order_of_the_atlas() {
    let cfg = RatioConfig::default();
    let mut hist_map = HistoryMap::new();
    let mut atlas = Vec::new();
    for i in 0..57u32 {
        let id = format!("host{:02}", (i * 23) % 57);
        if i % 3 != 0 {
            let h = hist((i % 7) as i128 * 60, 100, 1, 1_000 * (i % 11) as u64 + 1);
            hist_map.insert(id.clone(), h);
        }
        atlas.push(atlas_entry(&id, 4, i % 6));
    }
    let ranked = rank_hosts(&atlas, &hist_map, 100_000, &cfg);
    let mut seen: Vec<usize> = ranked.iter().map(|r| r.index).collect();
    seen.sort();
    assert_eq!(seen, (0..57).collect::<Vec<usize>>());
    for r in &ranked {
        assert_eq!(r.node_id, atlas[r.index].node_id);
    }
    let mut reversed = atlas.clone();
    reversed.reverse();
    let again = rank_hosts(&reversed, &hist_map, 100_000, &cfg);
    let ids = |v: &Vec<ce_ratio::RankedHost>| -> Vec<String> {
        v.iter().map(|r| r.node_id.clone()).collect()
    };
    assert_eq!(ids(&ranked), ids(&again));
    // The ranking agrees with a sort by the keys themselves.
    let mut expected: Vec<usize> = (0..57).collect();
    let place = |i: usize| ranked.iter().find(|r| r.index == i).unwrap();
    expected.sort_by_key(|&i| {
        let r = place(i);
        (
            !r.has_free_capacity,
            4 - r.tier.rank_score(),
            u32::MAX - r.recency_bps,
            atlas[i].running_jobs,
            r.node_id.clone(),
        )
    });
    assert_eq!(rank_host_indices(&atlas, &hist_map, 100_000, &cfg), expected);
}
