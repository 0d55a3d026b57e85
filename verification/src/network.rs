//! The metric groups of the network layer and their registration pass.
//!
//! [`NetworkMetrics`] owns the node-wide gauges and one optional group per
//! sub-protocol: per-topic broadcast counters, SQMR session gauges, and the
//! gossip transport's counters. An absent group means the sub-protocol is
//! disabled and contributes nothing to the pass. The contract of each
//! `register` states, over the registry's model, exactly which names the
//! pass declares and which gauges it sets to the zero baseline.

use vstd::prelude::*;
use vstd::multiset::Multiset;

use crate::primitives::Counter;
use crate::primitives::Gauge;
use crate::registry::MetricsRegistry;
use crate::topic::Topic;

verus! {

broadcast use vstd::multiset::group_multiset_axioms;

/// Counters for one topic's broadcast traffic.
pub struct BroadcastNetworkMetrics {
    pub num_sent_broadcast_messages: Counter,
    pub num_received_broadcast_messages: Counter,
}

impl BroadcastNetworkMetrics {
    /// The names this group declares: one counter for sent and one for
    /// received broadcast messages.
    pub open spec fn counter_names(self) -> Multiset<Seq<char>> {
        Multiset::empty()
            .insert(self.num_sent_broadcast_messages@)
            .insert(self.num_received_broadcast_messages@)
    }

    /// Declares both counters. No baseline is set: counters start at zero by
    /// convention of the primitive.
    pub fn register(&self, registry: &mut MetricsRegistry)
        ensures
            final(registry)@.counters == old(registry)@.counters.add(self.counter_names()),
            final(registry)@.gauges == old(registry)@.gauges,
            final(registry)@.gauge_values == old(registry)@.gauge_values,
    {
        self.num_sent_broadcast_messages.register(registry);
        self.num_received_broadcast_messages.register(registry);
        proof {
            assert(registry@.counters =~= old(registry)@.counters.add(self.counter_names()));
        }
    }
}

/// Gauges for the currently open SQMR sessions, present only when the SQMR
/// protocol is enabled.
pub struct SqmrNetworkMetrics {
    pub num_active_inbound_sessions: Gauge,
    pub num_active_outbound_sessions: Gauge,
}

impl SqmrNetworkMetrics {
    /// The names this group declares: one gauge per session direction.
    pub open spec fn gauge_names(self) -> Multiset<Seq<char>> {
        Multiset::empty()
            .insert(self.num_active_inbound_sessions@)
            .insert(self.num_active_outbound_sessions@)
    }

    /// Declares both session gauges and explicitly sets each to zero: no
    /// session can be open before registration, and the gauges must read that
    /// baseline rather than whatever the backend's default is.
    pub fn register(&self, registry: &mut MetricsRegistry)
        ensures
            final(registry)@.counters == old(registry)@.counters,
            final(registry)@.gauges == old(registry)@.gauges.add(self.gauge_names()),
            final(registry)@.gauge_values == old(registry)@.gauge_values
                .insert(self.num_active_inbound_sessions@, 0)
                .insert(self.num_active_outbound_sessions@, 0),
            final(registry)@.gauge_values[self.num_active_inbound_sessions@] == 0,
            final(registry)@.gauge_values[self.num_active_outbound_sessions@] == 0,
    {
        self.num_active_inbound_sessions.register(registry);
        self.num_active_inbound_sessions.set(registry, 0);
        self.num_active_outbound_sessions.register(registry);
        self.num_active_outbound_sessions.set(registry, 0);
        proof {
            assert(registry@.gauges =~= old(registry)@.gauges.add(self.gauge_names()));
        }
    }
}

/// Counters for the gossip transport's internal events, present only when
/// the gossip transport is enabled.
pub struct GossipsubMetrics {
    pub num_messages_received: Counter,
    pub num_messages_published: Counter,
    pub num_subscriptions: Counter,
    pub num_unsubscriptions: Counter,
    pub num_peer_subscribed: Counter,
    pub num_peer_unsubscribed: Counter,
    pub num_gossipsub_not_supported: Counter,
    pub num_slow_peers: Counter,
    pub num_peer_added: Counter,
    pub num_peer_removed: Counter,
}

impl GossipsubMetrics {
    /// The ten counter names this group declares, one per transport event.
    pub open spec fn counter_names(self) -> Multiset<Seq<char>> {
        Multiset::empty()
            .insert(self.num_messages_received@)
            .insert(self.num_messages_published@)
            .insert(self.num_subscriptions@)
            .insert(self.num_unsubscriptions@)
            .insert(self.num_peer_subscribed@)
            .insert(self.num_peer_unsubscribed@)
            .insert(self.num_gossipsub_not_supported@)
            .insert(self.num_slow_peers@)
            .insert(self.num_peer_added@)
            .insert(self.num_peer_removed@)
    }

    /// Declares all ten counters, in no significant order. No counter is set
    /// to an initial value: each stays at the primitive's implicit zero.
    pub fn register(&self, registry: &mut MetricsRegistry)
        ensures
            final(registry)@.counters == old(registry)@.counters.add(self.counter_names()),
            final(registry)@.gauges == old(registry)@.gauges,
            final(registry)@.gauge_values == old(registry)@.gauge_values,
    {
        self.num_messages_received.register(registry);
        self.num_messages_published.register(registry);
        self.num_subscriptions.register(registry);
        self.num_unsubscriptions.register(registry);
        self.num_peer_subscribed.register(registry);
        self.num_peer_unsubscribed.register(registry);
        self.num_gossipsub_not_supported.register(registry);
        self.num_slow_peers.register(registry);
        self.num_peer_added.register(registry);
        self.num_peer_removed.register(registry);
        proof {
            assert(registry@.counters =~= old(registry)@.counters.add(self.counter_names()));
        }
    }
}

/// The counter names declared for the first `entries.len()` topics of a
/// per-topic broadcast mapping, two per topic.
pub open spec fn broadcast_counter_names_of(
    entries: Seq<(Topic, BroadcastNetworkMetrics)>,
) -> Multiset<Seq<char>>
    decreases entries.len(),
{
    if entries.len() == 0 {
        Multiset::empty()
    } else {
        broadcast_counter_names_of(entries.drop_last()).add(entries.last().1.counter_names())
    }
}

/// The root aggregate: the node-wide gauges, and one optional group per
/// sub-protocol. An absent group means the sub-protocol is disabled; it is
/// never an error and contributes nothing to the registration pass.
pub struct NetworkMetrics {
    pub num_connected_peers: Gauge,
    pub num_blacklisted_peers: Gauge,
    pub broadcast_metrics_by_topic: Option<Vec<(Topic, BroadcastNetworkMetrics)>>,
    pub sqmr_metrics: Option<SqmrNetworkMetrics>,
    pub gossipsub_metrics: Option<GossipsubMetrics>,
}

impl NetworkMetrics {
    /// The per-topic mapping holds at most one entry per topic identity.
    pub open spec fn wf(self) -> bool {
        match self.broadcast_metrics_by_topic {
            Some(entries) => forall|i: int, j: int|
                0 <= i < j < entries@.len() ==> entries@[i].0@ != entries@[j].0@,
            None => true,
        }
    }

    /// The counter names the broadcast group contributes to a pass: two per
    /// configured topic, none when broadcast is disabled.
    pub open spec fn broadcast_counter_names(self) -> Multiset<Seq<char>> {
        match self.broadcast_metrics_by_topic {
            Some(entries) => broadcast_counter_names_of(entries@),
            None => Multiset::empty(),
        }
    }

    /// The counter names the gossip group contributes to a pass: its ten
    /// event counters, none when the gossip transport is disabled.
    pub open spec fn gossip_counter_names(self) -> Multiset<Seq<char>> {
        match self.gossipsub_metrics {
            Some(gossip) => gossip.counter_names(),
            None => Multiset::empty(),
        }
    }

    /// Every counter name a pass declares.
    pub open spec fn counter_names(self) -> Multiset<Seq<char>> {
        self.broadcast_counter_names().add(self.gossip_counter_names())
    }

    /// The gauge names the SQMR group contributes to a pass: its two session
    /// gauges, none when SQMR is disabled.
    pub open spec fn sqmr_gauge_names(self) -> Multiset<Seq<char>> {
        match self.sqmr_metrics {
            Some(sqmr) => sqmr.gauge_names(),
            None => Multiset::empty(),
        }
    }

    /// Every gauge name a pass declares: the two node-wide gauges, and the
    /// session gauges when SQMR is enabled.
    pub open spec fn gauge_names(self) -> Multiset<Seq<char>> {
        Multiset::empty()
            .insert(self.num_connected_peers@)
            .insert(self.num_blacklisted_peers@)
            .add(self.sqmr_gauge_names())
    }

    /// The gauge readings after a pass over prior readings `prior`: every
    /// declared gauge is explicitly set to zero, in the order the pass sets
    /// them.
    pub open spec fn baseline_gauge_values(
        self,
        prior: Map<Seq<char>, int>,
    ) -> Map<Seq<char>, int> {
        let node_wide = prior
            .insert(self.num_connected_peers@, 0)
            .insert(self.num_blacklisted_peers@, 0);
        match self.sqmr_metrics {
            Some(sqmr) => node_wide
                .insert(sqmr.num_active_inbound_sessions@, 0)
                .insert(sqmr.num_active_outbound_sessions@, 0),
            None => node_wide,
        }
    }

    /// The single registration pass, run once at startup after construction:
    /// declares the node-wide gauges and sets them to zero, then delegates to
    /// each present group. Nothing is declared for an absent group, and the
    /// groups present are declared exactly as they would be alone.
    pub fn register(&self, registry: &mut MetricsRegistry)
        ensures
            final(registry)@.counters == old(registry)@.counters.add(self.counter_names()),
            final(registry)@.gauges == old(registry)@.gauges.add(self.gauge_names()),
            final(registry)@.gauge_values
                == self.baseline_gauge_values(old(registry)@.gauge_values),
            final(registry)@.gauge_values[self.num_connected_peers@] == 0,
            final(registry)@.gauge_values[self.num_blacklisted_peers@] == 0,
            self.sqmr_metrics is Some ==> final(registry)@.gauge_values[self.sqmr_metrics
                .unwrap()
                .num_active_inbound_sessions@] == 0,
            self.sqmr_metrics is Some ==> final(registry)@.gauge_values[self.sqmr_metrics
                .unwrap()
                .num_active_outbound_sessions@] == 0,
    {
        self.num_connected_peers.register(registry);
        self.num_connected_peers.set(registry, 0);
        self.num_blacklisted_peers.register(registry);
        self.num_blacklisted_peers.set(registry, 0);
        let ghost after_node_wide = registry@;
        if let Some(entries) = self.broadcast_metrics_by_topic.as_ref() {
            let n = entries.len();
            let mut i: usize = 0;
            while i < n
                invariant
                    i <= n,
                    n == entries@.len(),
                    registry@.counters == after_node_wide.counters.add(
                        broadcast_counter_names_of(entries@.take(i as int)),
                    ),
                    registry@.gauges == after_node_wide.gauges,
                    registry@.gauge_values == after_node_wide.gauge_values,
                decreases n - i,
            {
                let ghost prefix = entries@.take(i as int);
                entries[i].1.register(registry);
                proof {
                    assert(entries@.take(i + 1 as int).drop_last() =~= prefix);
                    assert(entries@.take(i + 1 as int).last() == entries@[i as int]);
                    assert(registry@.counters =~= after_node_wide.counters.add(
                        broadcast_counter_names_of(entries@.take(i + 1 as int)),
                    ));
                }
                i = i + 1;
            }
            proof {
                assert(entries@.take(n as int) =~= entries@);
            }
        }
        proof {
            assert(registry@.counters =~= after_node_wide.counters.add(
                self.broadcast_counter_names(),
            ));
        }
        if let Some(sqmr) = self.sqmr_metrics.as_ref() {
            sqmr.register(registry);
        }
        if let Some(gossip) = self.gossipsub_metrics.as_ref() {
            gossip.register(registry);
        }
        proof {
            assert(registry@.counters =~= old(registry)@.counters.add(self.counter_names()));
            assert(registry@.gauges =~= old(registry)@.gauges.add(self.gauge_names()));
        }
    }

    /// The entries of the per-topic mapping, for contracts that quantify over
    /// the configured topics.
    pub open spec fn broadcast_entries(self) -> Seq<(Topic, BroadcastNetworkMetrics)>
        recommends
            self.broadcast_metrics_by_topic is Some,
    {
        self.broadcast_metrics_by_topic.unwrap()@
    }

    /// The broadcast group configured for `topic`: a match from the per-topic
    /// mapping when broadcast is enabled and the topic is configured, and
    /// nothing otherwise. Under [`Self::wf`] the match is the topic's only
    /// entry.
    pub fn broadcast_metrics(&self, topic: &Topic) -> (r: Option<&BroadcastNetworkMetrics>)
        ensures
            r is Some <==> (self.broadcast_metrics_by_topic is Some && exists|k: int|
                0 <= k < self.broadcast_entries().len() && self.broadcast_entries()[k].0@
                    == topic@),
            r is Some ==> exists|k: int|
                0 <= k < self.broadcast_entries().len() && self.broadcast_entries()[k].0@
                    == topic@ && *r.unwrap() == self.broadcast_entries()[k].1,
            self.wf() && r is Some ==> forall|k: int|
                0 <= k < self.broadcast_entries().len() && self.broadcast_entries()[k].0@
                    == topic@ ==> *r.unwrap() == self.broadcast_entries()[k].1,
    {
        match self.broadcast_metrics_by_topic.as_ref() {
            None => None,
            Some(entries) => {
                let n = entries.len();
                let mut i: usize = 0;
                while i < n
                    invariant
                        i <= n,
                        n == entries@.len(),
                        self.broadcast_metrics_by_topic is Some,
                        entries@ == self.broadcast_entries(),
                        forall|k: int| 0 <= k < i ==> entries@[k].0@ != topic@,
                    decreases n - i,
                {
                    if entries[i].0 == *topic {
                        proof {
                            assert(self.broadcast_entries()[i as int].0@ == topic@);
                        }
                        return Some(&entries[i].1);
                    }
                    i = i + 1;
                }
                None
            },
        }
    }
}

} // verus!
