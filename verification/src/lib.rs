//! Torrent-style compute share-ratio and reputation.
//!
//! A node's share ratio is what it contributed over what it consumed, both read from immutable
//! ledger totals. It ranks, orders and prices scheduling choices; it authorizes nothing.
//!
//! Money is whole base units, and every threshold is decided by exact integer cross-multiplication.
//! Each function states in its contract what it returns, over the spec functions beside it; the
//! proof functions named `law_..` state what holds of the library as a whole.
//!
//! - [`amount`]: money.
//! - [`history`]: the ledger totals of a node.
//! - [`burn`]: the settlement burn and the thresholds that follow from it.
//! - [`ratio`], over [`wide`]: the exact share ratio and its comparison with a threshold.
//! - [`decay`]: recency.
//! - [`tier`]: tiers, policy, and the newcomer's bounded freeleech.
//! - [`admission`]: the price that a requester pays.
//! - [`rank`], over [`names`]: hosts in order of preference.
//!
//! # Anti-gaming
//!
//! Whitewashing: grace is bounded by a time cap and a credit cap
//! ([`tier::law_probation_is_bounded`]) and does not come back to an identity that has used it up
//! ([`tier::law_grace_does_not_return`], [`tier::law_freeleech_never_grows`]).
//!
//! Self-dealing rings: the burn holds a ring's combined ratio at the balanced point
//! ([`burn::law_ring_combined_ratio_is_balanced_point`]), so lifting one member sinks the rest
//! ([`burn::law_ring_lifts_one_by_sinking_the_rest`]); a node with few host events is capped
//! ([`tier::law_low_diversity_is_capped`]).

pub mod admission;
pub mod amount;
pub mod burn;
pub mod decay;
pub mod history;
pub mod names;
pub mod rank;
pub mod ratio;
pub mod tier;
pub mod wide;

pub use admission::admit_requester;
pub use amount::{Amount, CREDIT};
pub use burn::{
    balanced_point, default_balanced_floor, BPS_DENOM, FLOOR_MARGIN_BPS, SETTLEMENT_BURN_BPS,
};
pub use decay::{recency_factor_bps, RECENCY_FULL_BPS};
pub use history::{history_path, NodeHistory};
pub use rank::{rank_host_indices, rank_hosts, AtlasEntry, HistoryMap, RankedHost};
pub use ratio::{ratio_of, Ratio};
pub use tier::{
    classify, classify_with_ratio, freeleech_remaining, freeleech_remaining_at, is_ratable,
    RatioConfig, Tier,
};
