//! Metrics registration for a peer-to-peer network layer.
//!
//! A node may run up to three optional sub-protocols — topic-based broadcast,
//! single-query-multiple-response (SQMR) sessions, and the gossip transport —
//! each with its own group of counters and gauges. [`NetworkMetrics`] owns the
//! node-wide gauges and whichever groups are configured, and a single
//! registration pass declares every present metric to the backend and sets
//! every gauge to its zero baseline. The contracts state exactly which names
//! each pass declares, over a ghost model of the backend kept by
//! [`registry::MetricsRegistry`].

pub mod laws;
pub mod network;
pub mod primitives;
pub mod registry;
pub mod topic;

pub use network::BroadcastNetworkMetrics;
pub use network::GossipsubMetrics;
pub use network::NetworkMetrics;
pub use network::SqmrNetworkMetrics;
pub use primitives::Counter;
pub use primitives::Gauge;
pub use registry::MetricsRegistry;
pub use registry::RegistryView;
pub use topic::Topic;
