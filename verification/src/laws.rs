//! The registration pass's guarantees that relate several functions or
//! quantify over whole configurations, stated over the same model that the
//! `register` contracts use.

use vstd::prelude::*;
use vstd::multiset::Multiset;

use crate::network::BroadcastNetworkMetrics;
use crate::network::GossipsubMetrics;
use crate::network::NetworkMetrics;
use crate::network::broadcast_counter_names_of;
use crate::topic::Topic;

verus! {

broadcast use vstd::multiset::group_multiset_axioms;

/// An absent optional group contributes nothing to a registration pass, and
/// the present groups contribute exactly what they would contribute alone.
///
/// With broadcast disabled the declared counters are the gossip group's
/// alone; with gossip disabled they are the broadcast group's alone; with
/// SQMR disabled the declared gauges are the two node-wide gauges alone, and
/// those two are the only readings the pass touches.
pub proof fn lemma_absent_group_registers_nothing(
    m: NetworkMetrics,
    prior: Map<Seq<char>, int>,
)
    ensures
        m.broadcast_metrics_by_topic is None ==> m.counter_names() =~= m.gossip_counter_names(),
        m.gossipsub_metrics is None ==> m.counter_names() =~= m.broadcast_counter_names(),
        m.sqmr_metrics is None ==> m.gauge_names() =~= Multiset::empty()
            .insert(m.num_connected_peers@)
            .insert(m.num_blacklisted_peers@),
        m.sqmr_metrics is None ==> m.baseline_gauge_values(prior) == prior
            .insert(m.num_connected_peers@, 0)
            .insert(m.num_blacklisted_peers@, 0),
{
}

/// No two of the counter names configured across a per-topic mapping
/// coincide: within one topic the sent and received counters are different
/// series, and no name is shared across topics.
pub open spec fn broadcast_names_distinct(
    entries: Seq<(Topic, BroadcastNetworkMetrics)>,
) -> bool {
    &&& forall|i: int|
        0 <= i < entries.len()
            ==> entries[i].1.num_sent_broadcast_messages@
            != entries[i].1.num_received_broadcast_messages@
    &&& forall|i: int, j: int|
        0 <= i < entries.len() && 0 <= j < entries.len() && i != j ==> {
            &&& entries[i].1.num_sent_broadcast_messages@
                != entries[j].1.num_sent_broadcast_messages@
            &&& entries[i].1.num_sent_broadcast_messages@
                != entries[j].1.num_received_broadcast_messages@
            &&& entries[i].1.num_received_broadcast_messages@
                != entries[j].1.num_received_broadcast_messages@
        }
}

/// A name configured for none of the topics is not declared by the broadcast
/// group at all.
proof fn lemma_foreign_name_not_declared(
    entries: Seq<(Topic, BroadcastNetworkMetrics)>,
    name: Seq<char>,
)
    requires
        forall|i: int|
            0 <= i < entries.len() ==> entries[i].1.num_sent_broadcast_messages@ != name
                && entries[i].1.num_received_broadcast_messages@ != name,
    ensures
        broadcast_counter_names_of(entries).count(name) == 0,
    decreases entries.len(),
{
    if entries.len() > 0 {
        lemma_foreign_name_not_declared(entries.drop_last(), name);
    }
}

/// A pass over N configured broadcast topics declares exactly 2 N counters:
/// one pair per topic.
pub proof fn lemma_broadcast_declares_pair_per_topic(
    entries: Seq<(Topic, BroadcastNetworkMetrics)>,
)
    ensures
        broadcast_counter_names_of(entries).len() == 2 * entries.len(),
    decreases entries.len(),
{
    if entries.len() > 0 {
        lemma_broadcast_declares_pair_per_topic(entries.drop_last());
        assert(entries.last().1.counter_names().len() == 2);
    }
}

/// With all configured names distinct, each topic's sent and received
/// counters are declared exactly once: no cross-topic aliasing, every
/// topic's pair independently addressable.
pub proof fn lemma_broadcast_counters_not_aliased(
    entries: Seq<(Topic, BroadcastNetworkMetrics)>,
    i: int,
)
    requires
        broadcast_names_distinct(entries),
        0 <= i < entries.len(),
    ensures
        broadcast_counter_names_of(entries).count(
            entries[i].1.num_sent_broadcast_messages@,
        ) == 1,
        broadcast_counter_names_of(entries).count(
            entries[i].1.num_received_broadcast_messages@,
        ) == 1,
    decreases entries.len(),
{
    let prefix = entries.drop_last();
    let last = entries.last();
    let sent = entries[i].1.num_sent_broadcast_messages@;
    let received = entries[i].1.num_received_broadcast_messages@;
    if i == entries.len() - 1 {
        lemma_foreign_name_not_declared(prefix, sent);
        lemma_foreign_name_not_declared(prefix, received);
    } else {
        assert(broadcast_names_distinct(prefix));
        lemma_broadcast_counters_not_aliased(prefix, i);
        assert(last.1.counter_names().count(sent) == 0);
        assert(last.1.counter_names().count(received) == 0);
    }
}

/// The ten gossip counter names, in field order.
pub open spec fn gossip_counter_name_list(g: GossipsubMetrics) -> Seq<Seq<char>> {
    seq![
        g.num_messages_received@,
        g.num_messages_published@,
        g.num_subscriptions@,
        g.num_unsubscriptions@,
        g.num_peer_subscribed@,
        g.num_peer_unsubscribed@,
        g.num_gossipsub_not_supported@,
        g.num_slow_peers@,
        g.num_peer_added@,
        g.num_peer_removed@,
    ]
}

/// No two of the gossip group's configured counter names coincide.
pub open spec fn gossip_names_distinct(g: GossipsubMetrics) -> bool {
    forall|i: int, j: int|
        0 <= i < j < gossip_counter_name_list(g).len()
            ==> gossip_counter_name_list(g)[i] != gossip_counter_name_list(g)[j]
}

/// With its ten names distinct, a gossip pass declares exactly ten counters,
/// each of them exactly once.
pub proof fn lemma_gossipsub_declares_each_once(g: GossipsubMetrics)
    requires
        gossip_names_distinct(g),
    ensures
        g.counter_names().len() == 10,
        forall|k: int|
            0 <= k < 10 ==> g.counter_names().count(#[trigger] gossip_counter_name_list(g)[k])
                == 1,
{
    let l = gossip_counter_name_list(g);
    assert forall|k: int| 0 <= k < 10 implies g.counter_names().count(
        #[trigger] l[k],
    ) == 1 by {
        assert(forall|i: int, j: int| 0 <= i < 10 && 0 <= j < 10 && i != j ==> l[i] != l[j]);
    }
}

/// A registration pass is not idempotent in the model: a second pass over
/// the same aggregate declares every name of the first pass a second time,
/// so repeating a pass is visible, not absorbed.
pub proof fn lemma_second_pass_declares_again(
    m: NetworkMetrics,
    prior: Multiset<Seq<char>>,
    name: Seq<char>,
)
    ensures
        prior.add(m.counter_names()).add(m.counter_names()).count(name) == prior.count(name)
            + 2 * m.counter_names().count(name),
{
}

} // verus!
