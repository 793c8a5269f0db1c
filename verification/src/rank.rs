//! Ranking: candidate hosts in order of preference.
//!
//! The order is a preference, not a permission.

use crate::decay;
use crate::history;
use crate::history::NodeHistory;
use crate::names;
use crate::tier;
use crate::tier::{RatioConfig, Tier};
use vstd::hash_map::StringHashMap;
use vstd::prelude::*;

verus! {

/// What a host advertises about itself.
#[derive(Debug, Clone)]
pub struct AtlasEntry {
    /// The host's node id (hex).
    pub node_id: String,
    /// Its CPU cores.
    pub cpu_cores: u32,
    /// Its memory in megabytes.
    pub mem_mb: u64,
    /// The jobs that it currently runs.
    pub running_jobs: u32,
    /// How long ago it was last seen, in seconds.
    pub last_seen_secs: u64,
    /// Free-form tags.
    pub tags: Vec<String>,
}

/// Histories by node id (hex).
pub type HistoryMap = StringHashMap<NodeHistory>;

/// A ranked host: its place in the atlas and the signals that ordered it.
#[derive(Debug, Clone)]
pub struct RankedHost {
    /// Index into the atlas.
    pub index: usize,
    /// The host's node id (hex).
    pub node_id: String,
    /// The host's tier.
    pub tier: Tier,
    /// Recency multiplier in basis points.
    pub recency_bps: u32,
    /// Whether the host runs fewer jobs than it has cores.
    pub has_free_capacity: bool,
}

/// The signals of a host that are worked out before the hosts are ordered.
struct Signals {
    tier: Tier,
    recency_bps: u32,
    has_free_capacity: bool,
}

/// Whether a host can be rated: a stranger always can.
pub open spec fn host_ratable(
    known: Map<Seq<char>, NodeHistory>,
    id: Seq<char>,
    beacon_height: u64,
    cfg: RatioConfig,
) -> bool {
    known.contains_key(id) ==> tier::ratable(known[id], beacon_height, cfg)
}

/// The tier of a host; a host without history is a newcomer.
pub open spec fn host_tier(
    known: Map<Seq<char>, NodeHistory>,
    id: Seq<char>,
    beacon_height: u64,
    cfg: RatioConfig,
) -> Tier {
    if known.contains_key(id) {
        tier::tier_of(known[id], beacon_height, cfg)
    } else {
        Tier::Newcomer
    }
}

/// The recency of a host; a host without history has the floor.
pub open spec fn host_recency(
    known: Map<Seq<char>, NodeHistory>,
    id: Seq<char>,
    beacon_height: u64,
    cfg: RatioConfig,
) -> int {
    if known.contains_key(id) {
        decay::recency(
            known[id].last_height,
            beacon_height,
            cfg.active_blocks,
            cfg.decay_blocks,
            cfg.recency_floor_bps,
        )
    } else {
        cfg.recency_floor_bps as int
    }
}

/// The entry of the ranking that stands for the host at an index of the atlas.
pub open spec fn ranked_host(
    atlas: Seq<AtlasEntry>,
    known: Map<Seq<char>, NodeHistory>,
    beacon_height: u64,
    cfg: RatioConfig,
    index: usize,
) -> RankedHost {
    let entry = atlas[index as int];
    RankedHost {
        index,
        node_id: entry.node_id,
        tier: host_tier(known, entry.node_id@, beacon_height, cfg),
        recency_bps: host_recency(known, entry.node_id@, beacon_height, cfg) as u32,
        has_free_capacity: entry.running_jobs < entry.cpu_cores,
    }
}

/// Whether one host is preferred to another: by free capacity, then by tier, then by recency, then
/// by lower load, then by node id, and at last by place in the atlas.
pub open spec fn outranks(atlas: Seq<AtlasEntry>, a: RankedHost, b: RankedHost) -> bool {
    let load_a = atlas[a.index as int].running_jobs;
    let load_b = atlas[b.index as int].running_jobs;
    if a.has_free_capacity != b.has_free_capacity {
        a.has_free_capacity
    } else if a.tier.score() != b.tier.score() {
        a.tier.score() > b.tier.score()
    } else if a.recency_bps != b.recency_bps {
        a.recency_bps > b.recency_bps
    } else if load_a != load_b {
        load_a < load_b
    } else if a.node_id@ != b.node_id@ {
        names::text_before(a.node_id@, b.node_id@)
    } else {
        a.index < b.index
    }
}

/// The entries of the ranking that stand for the hosts at some indices of the atlas.
pub open spec fn hosts_at(
    indices: Seq<usize>,
    atlas: Seq<AtlasEntry>,
    known: Map<Seq<char>, NodeHistory>,
    beacon_height: u64,
    cfg: RatioConfig,
) -> Seq<RankedHost> {
    Seq::new(
        indices.len(),
        |p: int| ranked_host(atlas, known, beacon_height, cfg, indices[p]),
    )
}

/// Whether the host at an index of the atlas stands somewhere in a ranking.
pub open spec fn has_place(ranked: Seq<RankedHost>, index: int) -> bool {
    exists|p: int| 0 <= p < ranked.len() && (#[trigger] ranked[p]).index == index
}

/// Whether a sequence ranks an atlas: every host stands in it once, with its own signals, and every
/// host outranks those behind it.
pub open spec fn is_ranking(
    ranked: Seq<RankedHost>,
    atlas: Seq<AtlasEntry>,
    known: Map<Seq<char>, NodeHistory>,
    beacon_height: u64,
    cfg: RatioConfig,
) -> bool {
    &&& ranked.len() == atlas.len()
    &&& forall|p: int|
        0 <= p < ranked.len() ==> (#[trigger] ranked[p]).index < atlas.len() && ranked[p]
            == ranked_host(atlas, known, beacon_height, cfg, ranked[p].index)
    &&& forall|i: int| 0 <= i < atlas.len() ==> #[trigger] has_place(ranked, i)
    &&& forall|p: int, q: int|
        0 <= p < q < ranked.len() ==> outranks(atlas, #[trigger] ranked[p], #[trigger] ranked[q])
}

/// Preference among hosts is a strict total order: no host outranks itself, of two entries for
/// different places in the atlas exactly one outranks the other, and preference is transitive.
pub proof fn law_preference_is_total(
    atlas: Seq<AtlasEntry>,
    a: RankedHost,
    b: RankedHost,
    c: RankedHost,
)
    ensures
        !outranks(atlas, a, a),
        a.index != b.index ==> outranks(atlas, a, b) || outranks(atlas, b, a),
        !(outranks(atlas, a, b) && outranks(atlas, b, a)),
        outranks(atlas, a, b) && outranks(atlas, b, c) ==> outranks(atlas, a, c),
{
    names::law_text_order_is_total(a.node_id@, b.node_id@, c.node_id@);
    names::law_text_order_is_total(b.node_id@, a.node_id@, b.node_id@);
}

/// The entry for a host whose signals are known.
spec fn host_at(atlas: Seq<AtlasEntry>, signals: Seq<Signals>, index: usize) -> RankedHost {
    RankedHost {
        index,
        node_id: atlas[index as int].node_id,
        tier: signals[index as int].tier,
        recency_bps: signals[index as int].recency_bps,
        has_free_capacity: signals[index as int].has_free_capacity,
    }
}

/// Whether the host at one index outranks the host at another.
spec fn goes_first(atlas: Seq<AtlasEntry>, signals: Seq<Signals>, i: usize, j: usize) -> bool {
    outranks(atlas, host_at(atlas, signals, i), host_at(atlas, signals, j))
}

/// Whether indices stand in order of preference.
spec fn in_order(atlas: Seq<AtlasEntry>, signals: Seq<Signals>, order: Seq<usize>) -> bool {
    forall|p: int, q: int|
        0 <= p < q < order.len() ==> goes_first(
            atlas,
            signals,
            #[trigger] order[p],
            #[trigger] order[q],
        )
}

/// Works out the signals of one host.
fn signals_of(entry: &AtlasEntry, hist: &HistoryMap, beacon_height: u64, cfg: &RatioConfig) -> (r:
    Signals)
    requires
        host_ratable(hist@, entry.node_id@, beacon_height, *cfg),
    ensures
        r.tier == host_tier(hist@, entry.node_id@, beacon_height, *cfg),
        r.recency_bps == host_recency(hist@, entry.node_id@, beacon_height, *cfg),
        r.has_free_capacity == (entry.running_jobs < entry.cpu_cores),
{
    let stranger: NodeHistory = history::newcomer_history();
    let h: &NodeHistory = match hist.get(entry.node_id.as_str()) {
        Some(known) => known,
        None => &stranger,
    };
    let tier: Tier = tier::classify(h, beacon_height, cfg);
    let recency_bps: u32 = decay::recency_factor_bps(
        h.last_height,
        beacon_height,
        cfg.active_blocks,
        cfg.decay_blocks,
        cfg.recency_floor_bps,
    );
    Signals { tier, recency_bps, has_free_capacity: entry.running_jobs < entry.cpu_cores }
}

/// Decides whether the host at one index outranks the host at another.
fn is_preferred(atlas: &[AtlasEntry], signals: &Vec<Signals>, i: usize, j: usize) -> (r: bool)
    requires
        signals.len() == atlas.len(),
        i < atlas.len(),
        j < atlas.len(),
    ensures
        r == goes_first(atlas@, signals@, i, j),
{
    let (a, b) = (&signals[i], &signals[j]);
    if a.has_free_capacity != b.has_free_capacity {
        return a.has_free_capacity;
    }
    let (score_a, score_b): (u8, u8) = (a.tier.rank_score(), b.tier.rank_score());
    if score_a != score_b {
        return score_a > score_b;
    }
    if a.recency_bps != b.recency_bps {
        return a.recency_bps > b.recency_bps;
    }
    let (load_a, load_b): (u32, u32) = (atlas[i].running_jobs, atlas[j].running_jobs);
    if load_a != load_b {
        return load_a < load_b;
    }
    if atlas[i].node_id == atlas[j].node_id {
        i < j
    } else {
        names::comes_before(atlas[i].node_id.as_str(), atlas[j].node_id.as_str())
    }
}

/// Merges two ordered runs of indices into one.
fn merge(
    atlas: &[AtlasEntry],
    signals: &Vec<Signals>,
    left: &Vec<usize>,
    right: &Vec<usize>,
) -> (r: Vec<usize>)
    requires
        signals.len() == atlas.len(),
        left.len() + right.len() <= usize::MAX,
        forall|p: int| 0 <= p < left.len() ==> #[trigger] left[p] < atlas.len(),
        forall|q: int| 0 <= q < right.len() ==> #[trigger] right[q] < atlas.len(),
        forall|p: int, q: int|
            0 <= p < left.len() && 0 <= q < right.len() ==> #[trigger] left[p]
                != #[trigger] right[q],
        in_order(atlas@, signals@, left@),
        in_order(atlas@, signals@, right@),
    ensures
        r.len() == left.len() + right.len(),
        in_order(atlas@, signals@, r@),
        forall|k: usize| r@.contains(k) <==> left@.contains(k) || right@.contains(k),
{
    let mut r: Vec<usize> = Vec::new();
    let mut i: usize = 0;
    let mut j: usize = 0;
    while i < left.len() || j < right.len()
        invariant
            signals.len() == atlas.len(),
            left.len() + right.len() <= usize::MAX,
            forall|p: int| 0 <= p < left.len() ==> #[trigger] left[p] < atlas.len(),
            forall|q: int| 0 <= q < right.len() ==> #[trigger] right[q] < atlas.len(),
            forall|p: int, q: int|
                0 <= p < left.len() && 0 <= q < right.len() ==> #[trigger] left[p]
                    != #[trigger] right[q],
            in_order(atlas@, signals@, left@),
            in_order(atlas@, signals@, right@),
            i <= left.len(),
            j <= right.len(),
            r.len() == i + j,
            in_order(atlas@, signals@, r@),
            forall|p: int, q: int|
                0 <= p < r.len() && i <= q < left.len() ==> goes_first(
                    atlas@,
                    signals@,
                    #[trigger] r[p],
                    #[trigger] left[q],
                ),
            forall|p: int, q: int|
                0 <= p < r.len() && j <= q < right.len() ==> goes_first(
                    atlas@,
                    signals@,
                    #[trigger] r[p],
                    #[trigger] right[q],
                ),
            forall|p: int|
                0 <= p < r.len() ==> left@.contains(#[trigger] r[p]) || right@.contains(r[p]),
            forall|p: int| 0 <= p < i ==> r@.contains(#[trigger] left[p]),
            forall|q: int| 0 <= q < j ==> r@.contains(#[trigger] right[q]),
        decreases left.len() + right.len() - i - j,
    {
        let take_left: bool = j == right.len() || (i < left.len() && is_preferred(
            atlas,
            signals,
            left[i],
            right[j],
        ));
        let ghost before = r@;
        if take_left {
            proof {
                if j < right.len() {
                    lemma_head_leads(atlas@, signals@, left[i as int], right@, j as int);
                }
            }
            r.push(left[i]);
            i += 1;
        } else {
            proof {
                if i < left.len() {
                    law_preference_is_total(
                        atlas@,
                        host_at(atlas@, signals@, left[i as int]),
                        host_at(atlas@, signals@, right[j as int]),
                        host_at(atlas@, signals@, right[j as int]),
                    );
                    lemma_head_leads(atlas@, signals@, right[j as int], left@, i as int);
                }
            }
            r.push(right[j]);
            j += 1;
        }
        assert(r@ == before.push(r@.last()));
        assert forall|k: usize| before.contains(k) implies r@.contains(k) by {
            let p = before.index_of(k);
            assert(r@[p] == k);
        }
        assert(r@.contains(r@[before.len() as int]));
    }
    assert forall|k: usize| r@.contains(k) <==> left@.contains(k) || right@.contains(k) by {
        if left@.contains(k) {
            assert(left[left@.index_of(k)] == k);
        }
        if right@.contains(k) {
            assert(right[right@.index_of(k)] == k);
        }
    }
    r
}

/// A host that outranks the head of an ordered run outranks all of it.
proof fn lemma_head_leads(
    atlas: Seq<AtlasEntry>,
    signals: Seq<Signals>,
    k: usize,
    run: Seq<usize>,
    head: int,
)
    requires
        0 <= head < run.len(),
        in_order(atlas, signals, run),
        goes_first(atlas, signals, k, run[head]),
    ensures
        forall|q: int| head <= q < run.len() ==> goes_first(atlas, signals, k, #[trigger] run[q]),
{
    assert forall|q: int| head <= q < run.len() implies goes_first(
        atlas,
        signals,
        k,
        #[trigger] run[q],
    ) by {
        law_preference_is_total(
            atlas,
            host_at(atlas, signals, k),
            host_at(atlas, signals, run[head]),
            host_at(atlas, signals, run[q]),
        );
    }
}

/// The indices from `lo` up to `hi`, in order of preference.
fn sort_range(atlas: &[AtlasEntry], signals: &Vec<Signals>, lo: usize, hi: usize) -> (r: Vec<usize>)
    requires
        signals.len() == atlas.len(),
        lo <= hi <= atlas.len(),
    ensures
        r.len() == hi - lo,
        in_order(atlas@, signals@, r@),
        forall|k: usize| r@.contains(k) <==> lo <= k < hi,
    decreases hi - lo,
{
    let mut r: Vec<usize> = Vec::new();
    if hi - lo == 0 {
        return r;
    }
    if hi - lo == 1 {
        r.push(lo);
        assert(r@[0] == lo);
        return r;
    }
    let mid: usize = lo + (hi - lo) / 2;
    let left: Vec<usize> = sort_range(atlas, signals, lo, mid);
    let right: Vec<usize> = sort_range(atlas, signals, mid, hi);
    assert forall|p: int| 0 <= p < left.len() implies lo <= #[trigger] left[p] < mid by {
        assert(left@.contains(left[p]));
    }
    assert forall|q: int| 0 <= q < right.len() implies mid <= #[trigger] right[q] < hi by {
        assert(right@.contains(right[q]));
    }
    merge(atlas, signals, &left, &right)
}

/// Ranks candidate hosts from the atlas for placement, best first.
///
/// Hosts with free capacity come first, then higher tiers, then the recently active, then the less
/// loaded, then by node id. A host without history is a stranger.
pub fn rank_hosts(
    atlas: &[AtlasEntry],
    hist: &HistoryMap,
    beacon_height: u64,
    cfg: &RatioConfig,
) -> (r: Vec<RankedHost>)
    requires
        forall|i: int|
            0 <= i < atlas.len() ==> host_ratable(
                hist@,
                (#[trigger] atlas[i]).node_id@,
                beacon_height,
                *cfg,
            ),
    ensures
        is_ranking(r@, atlas@, hist@, beacon_height, *cfg),
        forall|p: int|
            #![trigger r[p]]
            0 <= p < r.len() ==> {
                let entry = atlas[r[p].index as int];
                let id = entry.node_id@;
                &&& r[p].index < atlas.len()
                &&& r[p].node_id == entry.node_id
                &&& r[p].has_free_capacity <==> entry.running_jobs < entry.cpu_cores
                &&& hist@.contains_key(id) ==> r[p].tier == tier::tier_of(
                    hist@[id],
                    beacon_height,
                    *cfg,
                )
                &&& !hist@.contains_key(id) ==> r[p].tier == Tier::Newcomer
                &&& hist@.contains_key(id) ==> r[p].recency_bps == decay::recency(
                    hist@[id].last_height,
                    beacon_height,
                    cfg.active_blocks,
                    cfg.decay_blocks,
                    cfg.recency_floor_bps,
                )
                &&& !hist@.contains_key(id) ==> r[p].recency_bps == cfg.recency_floor_bps
            },
        r.len() == atlas.len(),
{
    let mut signals: Vec<Signals> = Vec::new();
    for i in 0..atlas.len()
        invariant
            forall|k: int|
                0 <= k < atlas.len() ==> host_ratable(
                    hist@,
                    (#[trigger] atlas[k]).node_id@,
                    beacon_height,
                    *cfg,
                ),
            signals.len() == i,
            forall|k: usize|
                k < i ==> #[trigger] host_at(atlas@, signals@, k) == ranked_host(
                    atlas@,
                    hist@,
                    beacon_height,
                    *cfg,
                    k,
                ),
    {
        let ghost before = signals@;
        signals.push(signals_of(&atlas[i], hist, beacon_height, cfg));
        assert forall|k: usize| k < i + 1 implies #[trigger] host_at(atlas@, signals@, k)
            == ranked_host(atlas@, hist@, beacon_height, *cfg, k) by {
            if k < i {
                assert(host_at(atlas@, before, k) == ranked_host(
                    atlas@,
                    hist@,
                    beacon_height,
                    *cfg,
                    k,
                ));
            }
        }
    }
    let order: Vec<usize> = sort_range(atlas, &signals, 0, atlas.len());
    assert forall|p: int| 0 <= p < order.len() implies #[trigger] order[p] < atlas.len() by {
        assert(order@.contains(order[p]));
    }
    let mut r: Vec<RankedHost> = Vec::new();
    for p in 0..order.len()
        invariant
            signals.len() == atlas.len(),
            order.len() == atlas.len(),
            forall|q: int| 0 <= q < order.len() ==> #[trigger] order[q] < atlas.len(),
            r.len() == p,
            forall|q: int| 0 <= q < p ==> #[trigger] r[q] == host_at(atlas@, signals@, order[q]),
    {
        let index: usize = order[p];
        let s: &Signals = &signals[index];
        r.push(
            RankedHost {
                index,
                node_id: atlas[index].node_id.clone(),
                tier: s.tier,
                recency_bps: s.recency_bps,
                has_free_capacity: s.has_free_capacity,
            },
        );
    }
    proof {
        assert forall|i: int| 0 <= i < atlas.len() implies #[trigger] has_place(r@, i) by {
            assert(order@.contains(i as usize));
            let p = order@.index_of(i as usize);
            assert(r@[p].index == i);
        }
        assert forall|p: int, q: int| 0 <= p < q < r.len() implies outranks(
            atlas@,
            #[trigger] r[p],
            #[trigger] r[q],
        ) by {
            assert(goes_first(atlas@, signals@, order[p], order[q]));
        }
        assert forall|p: int| 0 <= p < r.len() implies (#[trigger] r[p]).recency_bps
            == host_recency(
            hist@,
            atlas[r[p].index as int].node_id@,
            beacon_height,
            *cfg,
        ) by {
            decay::lemma_recency_fits(
                hist@[atlas[r[p].index as int].node_id@].last_height,
                beacon_height,
                cfg.active_blocks,
                cfg.decay_blocks,
                cfg.recency_floor_bps,
            );
        }
    }
    r
}

/// Ranks the hosts and returns just their atlas indices, best first.
pub fn rank_host_indices(
    atlas: &[AtlasEntry],
    hist: &HistoryMap,
    beacon_height: u64,
    cfg: &RatioConfig,
) -> (r: Vec<usize>)
    requires
        forall|i: int|
            0 <= i < atlas.len() ==> host_ratable(
                hist@,
                (#[trigger] atlas[i]).node_id@,
                beacon_height,
                *cfg,
            ),
    ensures
        is_ranking(
            hosts_at(r@, atlas@, hist@, beacon_height, *cfg),
            atlas@,
            hist@,
            beacon_height,
            *cfg,
        ),
        forall|ranked: Seq<RankedHost>|
            #![trigger is_ranking(ranked, atlas@, hist@, beacon_height, *cfg)]
            is_ranking(ranked, atlas@, hist@, beacon_height, *cfg) ==> r.len() == ranked.len() && (
            forall|p: int| 0 <= p < r.len() ==> #[trigger] r[p] == ranked[p].index),
        r.len() == atlas.len(),
        forall|i: usize| i < atlas.len() <==> #[trigger] r@.contains(i),
{
    let ranked: Vec<RankedHost> = rank_hosts(atlas, hist, beacon_height, cfg);
    let mut r: Vec<usize> = Vec::new();
    for p in 0..ranked.len()
        invariant
            r.len() == p,
            forall|q: int| 0 <= q < p ==> #[trigger] r[q] == ranked[q].index,
    {
        r.push(ranked[p].index);
    }
    assert(hosts_at(r@, atlas@, hist@, beacon_height, *cfg) =~= ranked@);
    proof {
        assert forall|other: Seq<RankedHost>|
            #![trigger is_ranking(other, atlas@, hist@, beacon_height, *cfg)]
            is_ranking(other, atlas@, hist@, beacon_height, *cfg) implies r.len() == other.len() && (
        forall|p: int| 0 <= p < r.len() ==> #[trigger] r[p] == other[p].index) by {
            law_ranking_is_unique(other, ranked@, atlas@, hist@, beacon_height, *cfg);
        }
        assert forall|i: usize| i < atlas.len() <==> #[trigger] r@.contains(i) by {
            if i < atlas.len() {
                assert(has_place(ranked@, i as int));
                let p = choose|p: int| 0 <= p < ranked.len() && (#[trigger] ranked@[p]).index == i;
                assert(r@[p] == i);
            }
            if r@.contains(i) {
                let p = r@.index_of(i);
                assert(ranked@[p].index == i);
            }
        }
    }
    r
}

/// A ranking puts what a requester prefers first: free hosts before saturated ones; of hosts with
/// equal capacity, higher tiers before lower ones; and of those with equal tiers, the more recently
/// active first.
pub proof fn law_ranking_prefers_capacity_then_tier(
    ranked: Seq<RankedHost>,
    atlas: Seq<AtlasEntry>,
    known: Map<Seq<char>, NodeHistory>,
    beacon_height: u64,
    cfg: RatioConfig,
    p: int,
    q: int,
)
    requires
        is_ranking(ranked, atlas, known, beacon_height, cfg),
        0 <= p < q < ranked.len(),
    ensures
        ranked[q].has_free_capacity ==> ranked[p].has_free_capacity,
        ranked[p].has_free_capacity == ranked[q].has_free_capacity ==> ranked[p].tier.score()
            >= ranked[q].tier.score(),
        ranked[p].has_free_capacity == ranked[q].has_free_capacity && ranked[p].tier
            == ranked[q].tier ==> ranked[p].recency_bps >= ranked[q].recency_bps,
{
    assert(outranks(atlas, ranked[p], ranked[q]));
}

/// Every host of the atlas stands in a ranking exactly once.
pub proof fn law_ranking_holds_each_host_once(
    ranked: Seq<RankedHost>,
    atlas: Seq<AtlasEntry>,
    known: Map<Seq<char>, NodeHistory>,
    beacon_height: u64,
    cfg: RatioConfig,
    index: usize,
)
    requires
        is_ranking(ranked, atlas, known, beacon_height, cfg),
        index < atlas.len(),
    ensures
        exists|p: int| 0 <= p < ranked.len() && (#[trigger] ranked[p]).index == index,
        forall|p: int, q: int|
            0 <= p < ranked.len() && 0 <= q < ranked.len() && (#[trigger] ranked[p]).index == index
                && (#[trigger] ranked[q]).index == index ==> p == q,
{
    assert(has_place(ranked, index as int));
    assert forall|p: int, q: int|
        0 <= p < ranked.len() && 0 <= q < ranked.len() && (#[trigger] ranked[p]).index == index && (
        #[trigger] ranked[q]).index == index implies p == q by {
        law_preference_is_total(atlas, ranked[p], ranked[q], ranked[p]);
    }
}

/// Ranking is deterministic: an atlas has only one ranking.
pub proof fn law_ranking_is_unique(
    one: Seq<RankedHost>,
    other: Seq<RankedHost>,
    atlas: Seq<AtlasEntry>,
    known: Map<Seq<char>, NodeHistory>,
    beacon_height: u64,
    cfg: RatioConfig,
)
    requires
        is_ranking(one, atlas, known, beacon_height, cfg),
        is_ranking(other, atlas, known, beacon_height, cfg),
    ensures
        one == other,
{
    assert forall|p: int| 0 <= p < one.len() implies one[p] == other[p] by {
        lemma_same_place(one, other, atlas, known, beacon_height, cfg, p);
    }
    assert(one =~= other);
}

/// Two rankings of one atlas agree at a place.
proof fn lemma_same_place(
    one: Seq<RankedHost>,
    other: Seq<RankedHost>,
    atlas: Seq<AtlasEntry>,
    known: Map<Seq<char>, NodeHistory>,
    beacon_height: u64,
    cfg: RatioConfig,
    p: int,
)
    requires
        is_ranking(one, atlas, known, beacon_height, cfg),
        is_ranking(other, atlas, known, beacon_height, cfg),
        0 <= p < one.len(),
    ensures
        one[p] == other[p],
    decreases p,
{
    assert forall|q: int| 0 <= q < p implies one[q] == other[q] by {
        lemma_same_place(one, other, atlas, known, beacon_height, cfg, q);
    }
    let (a, b) = (one[p], other[p]);
    if a.index != b.index {
        assert(has_place(other, a.index as int));
        assert(has_place(one, b.index as int));
        let q = choose|q: int| 0 <= q < other.len() && (#[trigger] other[q]).index == a.index;
        let r = choose|r: int| 0 <= r < one.len() && (#[trigger] one[r]).index == b.index;
        assert(other[q] == a && one[r] == b);
        law_preference_is_total(atlas, a, b, a);
        if q < p {
            assert(one[q] == a);
            assert(outranks(atlas, one[q], one[p]));
        } else if r < p {
            assert(other[r] == b);
            assert(outranks(atlas, other[r], other[p]));
        } else {
            assert(outranks(atlas, other[p], other[q]));
            assert(outranks(atlas, one[p], one[r]));
        }
    }
}

/// Whether no two hosts of an atlas share a node id.
pub open spec fn distinct_ids(atlas: Seq<AtlasEntry>) -> bool {
    forall|i: int, j: int|
        0 <= i < atlas.len() && 0 <= j < atlas.len() && (#[trigger] atlas[i]).node_id@ == (
        #[trigger] atlas[j]).node_id@ ==> i == j
}

/// Ranking does not depend on the order of the atlas: where node ids are distinct, the hosts of a
/// reordered atlas come out in the same order.
pub proof fn law_ranking_ignores_atlas_order(
    ranked: Seq<RankedHost>,
    atlas: Seq<AtlasEntry>,
    reranked: Seq<RankedHost>,
    reordered: Seq<AtlasEntry>,
    known: Map<Seq<char>, NodeHistory>,
    beacon_height: u64,
    cfg: RatioConfig,
)
    requires
        is_ranking(ranked, atlas, known, beacon_height, cfg),
        is_ranking(reranked, reordered, known, beacon_height, cfg),
        atlas.to_multiset() == reordered.to_multiset(),
        distinct_ids(atlas),
    ensures
        ranked.len() == reranked.len(),
        forall|p: int|
            0 <= p < ranked.len() ==> atlas[(#[trigger] ranked[p]).index as int]
                == reordered[reranked[p].index as int],
{
    atlas.to_multiset_ensures();
    reordered.to_multiset_ensures();
    lemma_reordered_ids(atlas, reordered);
    assert forall|p: int| 0 <= p < ranked.len() implies atlas[(#[trigger] ranked[p]).index as int]
        == reordered[reranked[p].index as int] by {
        lemma_same_host(ranked, atlas, reranked, reordered, known, beacon_height, cfg, p);
    }
}

/// Reordering an atlas keeps its node ids distinct.
proof fn lemma_reordered_ids(atlas: Seq<AtlasEntry>, reordered: Seq<AtlasEntry>)
    requires
        atlas.to_multiset() == reordered.to_multiset(),
        distinct_ids(atlas),
    ensures
        distinct_ids(reordered),
        forall|e: AtlasEntry| atlas.contains(e) <==> reordered.contains(e),
{
    atlas.to_multiset_ensures();
    reordered.to_multiset_ensures();
    assert forall|e: AtlasEntry| atlas.contains(e) <==> reordered.contains(e) by {
        if atlas.contains(e) {
            assert(atlas.to_multiset().count(e) > 0);
            assert(reordered.to_multiset().count(e) > 0);
        }
        if reordered.contains(e) {
            assert(reordered.to_multiset().count(e) > 0);
            assert(atlas.to_multiset().count(e) > 0);
        }
    }
    assert(atlas.no_duplicates()) by {
        assert forall|i: int, j: int|
            0 <= i < atlas.len() && 0 <= j < atlas.len() && i != j implies atlas[i] != atlas[j] by {
        }
    }
    atlas.lemma_multiset_has_no_duplicates();
    reordered.lemma_multiset_has_no_duplicates_conv();
    assert forall|i: int, j: int|
        0 <= i < reordered.len() && 0 <= j < reordered.len() && (
        #[trigger] reordered[i]).node_id@ == (#[trigger] reordered[j]).node_id@ implies i == j by {
        assert(reordered.contains(reordered[i]) && reordered.contains(reordered[j]));
        let k = atlas.index_of(reordered[i]);
        let l = atlas.index_of(reordered[j]);
        assert(atlas[k].node_id@ == atlas[l].node_id@);
    }
}

/// The rankings of an atlas and of a reordered one hold the same host at a place.
proof fn lemma_same_host(
    ranked: Seq<RankedHost>,
    atlas: Seq<AtlasEntry>,
    reranked: Seq<RankedHost>,
    reordered: Seq<AtlasEntry>,
    known: Map<Seq<char>, NodeHistory>,
    beacon_height: u64,
    cfg: RatioConfig,
    p: int,
)
    requires
        is_ranking(ranked, atlas, known, beacon_height, cfg),
        is_ranking(reranked, reordered, known, beacon_height, cfg),
        atlas.len() == reordered.len(),
        forall|e: AtlasEntry| atlas.contains(e) <==> reordered.contains(e),
        distinct_ids(atlas),
        distinct_ids(reordered),
        0 <= p < ranked.len(),
    ensures
        atlas[ranked[p].index as int] == reordered[reranked[p].index as int],
    decreases p,
{
    let (a, b) = (ranked[p], reranked[p]);
    let e = atlas[a.index as int];
    let f = reordered[b.index as int];
    if e != f {
        assert(atlas.contains(e) && reordered.contains(f));
        let q = lemma_place_of(reranked, reordered, known, beacon_height, cfg, e);
        let r = lemma_place_of(ranked, atlas, known, beacon_height, cfg, f);
        if q < p {
            lemma_same_host(ranked, atlas, reranked, reordered, known, beacon_height, cfg, q);
            law_preference_is_total(atlas, ranked[q], ranked[p], ranked[q]);
            assert(outranks(atlas, ranked[q], ranked[p]));
        } else if r < p {
            lemma_same_host(ranked, atlas, reranked, reordered, known, beacon_height, cfg, r);
            law_preference_is_total(reordered, reranked[r], reranked[p], reranked[r]);
            assert(outranks(reordered, reranked[r], reranked[p]));
        } else {
            assert(outranks(atlas, ranked[p], ranked[r]));
            assert(outranks(reordered, reranked[p], reranked[q]));
            names::law_text_order_is_total(e.node_id@, f.node_id@, e.node_id@);
            names::law_text_order_is_total(f.node_id@, e.node_id@, f.node_id@);
        }
    }
}

/// The place in a ranking of a host that the atlas holds.
proof fn lemma_place_of(
    ranked: Seq<RankedHost>,
    atlas: Seq<AtlasEntry>,
    known: Map<Seq<char>, NodeHistory>,
    beacon_height: u64,
    cfg: RatioConfig,
    entry: AtlasEntry,
) -> (p: int)
    requires
        is_ranking(ranked, atlas, known, beacon_height, cfg),
        atlas.contains(entry),
    ensures
        0 <= p < ranked.len(),
        atlas[ranked[p].index as int] == entry,
{
    let i = atlas.index_of(entry);
    assert(has_place(ranked, i));
    choose|p: int| 0 <= p < ranked.len() && (#[trigger] ranked[p]).index == i
}

/// Every entry of a ranking carries what is known of its host: its node id, the tier and the recency
/// that its history gives it (for a host without history, those of a stranger), and whether it runs
/// fewer jobs than it has cores.
pub proof fn law_ranking_carries_each_hosts_signals(
    ranked: Seq<RankedHost>,
    atlas: Seq<AtlasEntry>,
    known: Map<Seq<char>, NodeHistory>,
    beacon_height: u64,
    cfg: RatioConfig,
    p: int,
)
    requires
        is_ranking(ranked, atlas, known, beacon_height, cfg),
        0 <= p < ranked.len(),
    ensures
        ranked.len() == atlas.len(),
        ranked[p].index < atlas.len(),
        ({
            let host = ranked[p];
            let entry = atlas[host.index as int];
            let id = entry.node_id@;
            let h = known[id];
            &&& host.node_id == entry.node_id
            &&& host.has_free_capacity <==> entry.running_jobs < entry.cpu_cores
            &&& known.contains_key(id) ==> host.tier == tier::tier_of(h, beacon_height, cfg)
            &&& !known.contains_key(id) ==> host.tier == Tier::Newcomer
            &&& known.contains_key(id) ==> host.recency_bps == decay::recency(
                h.last_height,
                beacon_height,
                cfg.active_blocks,
                cfg.decay_blocks,
                cfg.recency_floor_bps,
            )
            &&& !known.contains_key(id) ==> host.recency_bps == cfg.recency_floor_bps
        }),
{
    let h = known[atlas[ranked[p].index as int].node_id@];
    decay::lemma_recency_fits(
        h.last_height,
        beacon_height,
        cfg.active_blocks,
        cfg.decay_blocks,
        cfg.recency_floor_bps,
    );
}

/// The better host stands ahead: of two hosts of a ranking, the one ahead is never worse in the first
/// signal in which they differ, of free capacity, tier, recency, load, node id and place in the
/// atlas, in this order.
pub proof fn law_ranking_is_lexicographic(
    ranked: Seq<RankedHost>,
    atlas: Seq<AtlasEntry>,
    known: Map<Seq<char>, NodeHistory>,
    beacon_height: u64,
    cfg: RatioConfig,
    p: int,
    q: int,
)
    requires
        is_ranking(ranked, atlas, known, beacon_height, cfg),
        0 <= p < q < ranked.len(),
    ensures
        ({
            let (a, b) = (ranked[p], ranked[q]);
            let (x, y) = (atlas[a.index as int], atlas[b.index as int]);
            let (free_x, free_y) = (x.running_jobs < x.cpu_cores, y.running_jobs < y.cpu_cores);
            let same_capacity = free_x == free_y;
            let same_tier = same_capacity && a.tier == b.tier;
            let same_recency = same_tier && a.recency_bps == b.recency_bps;
            let same_load = same_recency && x.running_jobs == y.running_jobs;
            let same_id = same_load && x.node_id@ == y.node_id@;
            &&& free_y ==> free_x
            &&& same_capacity ==> a.tier.score() >= b.tier.score()
            &&& same_tier ==> a.recency_bps >= b.recency_bps
            &&& same_recency ==> x.running_jobs <= y.running_jobs
            &&& same_load ==> same_id || names::text_before(x.node_id@, y.node_id@)
            &&& same_id ==> a.index < b.index
        }),
{
    assert(outranks(atlas, ranked[p], ranked[q]));
}

/// Of two known hosts that are both free, or both saturated, the one with the preferred tier stands
/// ahead of the other.
pub proof fn law_preferred_tier_stands_ahead(
    ranked: Seq<RankedHost>,
    atlas: Seq<AtlasEntry>,
    known: Map<Seq<char>, NodeHistory>,
    beacon_height: u64,
    cfg: RatioConfig,
    p: int,
    q: int,
)
    requires
        is_ranking(ranked, atlas, known, beacon_height, cfg),
        0 <= p < ranked.len(),
        0 <= q < ranked.len(),
        ({
            let (x, y) = (atlas[ranked[p].index as int], atlas[ranked[q].index as int]);
            &&& (x.running_jobs < x.cpu_cores) == (y.running_jobs < y.cpu_cores)
            &&& known.contains_key(x.node_id@) && known.contains_key(y.node_id@)
            &&& tier::tier_of(known[x.node_id@], beacon_height, cfg).score() > tier::tier_of(
                known[y.node_id@],
                beacon_height,
                cfg,
            ).score()
        }),
    ensures
        p < q,
{
    law_ranking_carries_each_hosts_signals(ranked, atlas, known, beacon_height, cfg, p);
    law_ranking_carries_each_hosts_signals(ranked, atlas, known, beacon_height, cfg, q);
    if q < p {
        law_ranking_is_lexicographic(ranked, atlas, known, beacon_height, cfg, q, p);
    }
}

/// A free host stands ahead of every saturated one.
pub proof fn law_free_host_stands_ahead(
    ranked: Seq<RankedHost>,
    atlas: Seq<AtlasEntry>,
    known: Map<Seq<char>, NodeHistory>,
    beacon_height: u64,
    cfg: RatioConfig,
    p: int,
    q: int,
)
    requires
        is_ranking(ranked, atlas, known, beacon_height, cfg),
        0 <= p < ranked.len(),
        0 <= q < ranked.len(),
        atlas[ranked[p].index as int].running_jobs < atlas[ranked[p].index as int].cpu_cores,
        atlas[ranked[q].index as int].running_jobs >= atlas[ranked[q].index as int].cpu_cores,
    ensures
        p < q,
{
    if q < p {
        law_ranking_is_lexicographic(ranked, atlas, known, beacon_height, cfg, q, p);
    }
}

/// A host without history can always be rated; a known one whenever its history can.
pub proof fn law_stranger_can_be_rated(
    known: Map<Seq<char>, NodeHistory>,
    id: Seq<char>,
    beacon_height: u64,
    cfg: RatioConfig,
)
    ensures
        !known.contains_key(id) ==> host_ratable(known, id, beacon_height, cfg),
        known.contains_key(id) ==> host_ratable(known, id, beacon_height, cfg) == tier::ratable(
            known[id],
            beacon_height,
            cfg,
        ),
{
}

} // verus!
