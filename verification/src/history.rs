//! A node's interaction history: the facts that every rating is derived from.

use crate::amount::Amount;
use vstd::prelude::*;
use vstd::string::*;

verus! {

/// What the ledger attests about one node, as cumulative totals.
#[derive(Debug, Clone)]
pub struct NodeHistory {
    /// The node's id (hex).
    pub node_id: String,
    /// Jobs that the node hosted and was paid for.
    pub jobs_hosted: u64,
    /// Jobs that the node paid for.
    pub jobs_paid: u64,
    /// Heartbeats that the node hosted and was paid for.
    pub heartbeats_hosted: u64,
    /// Heartbeats that the node paid for.
    pub heartbeats_paid: u64,
    /// Bids of the node that it let expire.
    pub expiries: u64,
    /// Earned as host, net of the settlement burn.
    pub earned: Amount,
    /// Spent as requester, gross.
    pub spent: Amount,
    /// Height of the first interaction; `0` for a node that never interacted.
    pub first_height: u64,
    /// Height of the latest interaction; `0` for a node that never interacted.
    pub last_height: u64,
}

impl NodeHistory {
    /// The number of host events: settled jobs and heartbeats received.
    pub open spec fn host_events(self) -> int {
        self.jobs_hosted + self.heartbeats_hosted
    }

    /// Whether the count of host events fits in a word.
    pub open spec fn countable(self) -> bool {
        self.host_events() <= u64::MAX
    }

    /// A node with no recorded interactions: a stranger.
    pub fn is_newcomer(&self) -> (r: bool)
        ensures
            r == (self.first_height == 0),
    {
        self.first_height == 0
    }

    /// Total work that this host delivered and was paid for.
    pub fn delivered_work(&self) -> (r: u64)
        requires
            self.countable(),
        ensures
            r == self.host_events(),
            r == self.jobs_hosted + self.heartbeats_hosted,
    {
        self.jobs_hosted + self.heartbeats_hosted
    }
}

/// Whether a history is that of a node which nothing is recorded of.
pub open spec fn is_blank(h: NodeHistory) -> bool {
    &&& h.node_id@.len() == 0
    &&& h.jobs_hosted == 0
    &&& h.jobs_paid == 0
    &&& h.heartbeats_hosted == 0
    &&& h.heartbeats_paid == 0
    &&& h.expiries == 0
    &&& h.earned@ == 0
    &&& h.spent@ == 0
    &&& h.first_height == 0
    &&& h.last_height == 0
}

/// The history of a host that nothing is recorded of.
pub(crate) fn newcomer_history() -> (r: NodeHistory)
    ensures
        is_blank(r),
{
    NodeHistory {
        node_id: String::new(),
        jobs_hosted: 0,
        jobs_paid: 0,
        heartbeats_hosted: 0,
        heartbeats_paid: 0,
        expiries: 0,
        earned: Amount::zero(),
        spent: Amount::zero(),
        first_height: 0,
        last_height: 0,
    }
}

/// The path under which a node serves another node's history.
pub fn history_path(node_id: &str) -> (r: String)
    ensures
        r@ == "/history/"@ + node_id@,
{
    let prefix: String = String::from_str("/history/");
    prefix.concat(node_id)
}

} // verus!
