use metrics_exporter_prometheus::PrometheusBuilder;
use network_metrics::BroadcastNetworkMetrics;
use network_metrics::Counter;
use network_metrics::Gauge;
use network_metrics::GossipsubMetrics;
use network_metrics::MetricsRegistry;
use network_metrics::NetworkMetrics;
use network_metrics::SqmrNetworkMetrics;
use network_metrics::Topic;

/// Runs `f` against a fresh prometheus recorder and returns the rendered
/// backend state afterwards.
fn render_after<F: FnOnce(&mut MetricsRegistry)>(f: F) -> String {
    let recorder = PrometheusBuilder::new().build_recorder();
    let handle = recorder.handle();
    metrics::with_local_recorder(&recorder, || {
        let mut registry = MetricsRegistry::new();
        f(&mut registry);
    });
    handle.render()
}

fn type_line_count(rendered: &str) -> usize {
    rendered.matches("# TYPE ").count()
}

fn broadcast_group(prefix: &str) -> BroadcastNetworkMetrics {
    BroadcastNetworkMetrics {
        num_sent_broadcast_messages: Counter::new(format!("{prefix}_num_sent_broadcast_messages")),
        num_received_broadcast_messages: Counter::new(format!(
            "{prefix}_num_received_broadcast_messages"
        )),
    }
}

fn sqmr_group() -> SqmrNetworkMetrics {
    SqmrNetworkMetrics {
        num_active_inbound_sessions: Gauge::new("num_active_inbound_sessions".to_string()),
        num_active_outbound_sessions: Gauge::new("num_active_outbound_sessions".to_string()),
    }
}

fn gossipsub_group() -> GossipsubMetrics {
    GossipsubMetrics {
        num_messages_received: Counter::new("num_messages_received".to_string()),
        num_messages_published: Counter::new("num_messages_published".to_string()),
        num_subscriptions: Counter::new("num_subscriptions".to_string()),
        num_unsubscriptions: Counter::new("num_unsubscriptions".to_string()),
        num_peer_subscribed: Counter::new("num_peer_subscribed".to_string()),
        num_peer_unsubscribed: Counter::new("num_peer_unsubscribed".to_string()),
        num_gossipsub_not_supported: Counter::new("num_gossipsub_not_supported".to_string()),
        num_slow_peers: Counter::new("num_slow_peers".to_string()),
        num_peer_added: Counter::new("num_peer_added".to_string()),
        num_peer_removed: Counter::new("num_peer_removed".to_string()),
    }
}

fn node_metrics(
    broadcast: Option<Vec<(Topic, BroadcastNetworkMetrics)>>,
    sqmr: Option<SqmrNetworkMetrics>,
    gossipsub: Option<GossipsubMetrics>,
) -> NetworkMetrics {
    NetworkMetrics {
        num_connected_peers: Gauge::new("num_connected_peers".to_string()),
        num_blacklisted_peers: Gauge::new("num_blacklisted_peers".to_string()),
        broadcast_metrics_by_topic: broadcast,
        sqmr_metrics: sqmr,
        gossipsub_metrics: gossipsub,
    }
}

#[test]
fn all_groups_absent_registers_only_node_gauges() {
    let rendered = render_after(|registry| {
        node_metrics(None, None, None).register(registry);
    });
    assert!(rendered.contains("num_connected_peers 0"));
    assert!(rendered.contains("num_blacklisted_peers 0"));
    assert_eq!(type_line_count(&rendered), 2);
}

#[test]
fn absent_group_does_not_affect_siblings() {
    let rendered = render_after(|registry| {
        let broadcast = vec![(Topic::from_raw("t1".to_string()), broadcast_group("t1"))];
        node_metrics(Some(broadcast), None, Some(gossipsub_group())).register(registry);
    });
    // No SQMR gauges appear, while the enabled siblings register in full.
    assert!(!rendered.contains("num_active_inbound_sessions"));
    assert!(!rendered.contains("num_active_outbound_sessions"));
    assert_eq!(type_line_count(&rendered), 2 + 2 + 10);
}

#[test]
fn node_gauges_read_zero_in_every_configuration() {
    let empty = render_after(|registry| {
        node_metrics(None, None, None).register(registry);
    });
    let full = render_after(|registry| {
        let broadcast = vec![
            (Topic::from_raw("t1".to_string()), broadcast_group("t1")),
            (Topic::from_raw("t2".to_string()), broadcast_group("t2")),
        ];
        node_metrics(Some(broadcast), Some(sqmr_group()), Some(gossipsub_group()))
            .register(registry);
    });
    for rendered in [empty, full] {
        assert!(rendered.contains("num_connected_peers 0"));
        assert!(rendered.contains("num_blacklisted_peers 0"));
    }
}

#[test]
fn sqmr_register_zeroes_both_session_gauges() {
    let rendered = render_after(|registry| {
        sqmr_group().register(registry);
    });
    assert!(rendered.contains("num_active_inbound_sessions 0"));
    assert!(rendered.contains("num_active_outbound_sessions 0"));
    assert_eq!(type_line_count(&rendered), 2);
}

#[test]
fn broadcast_registers_one_counter_pair_per_topic() {
    let rendered = render_after(|registry| {
        let broadcast = vec![
            (Topic::from_raw("t1".to_string()), broadcast_group("t1")),
            (Topic::from_raw("t2".to_string()), broadcast_group("t2")),
            (Topic::from_raw("t3".to_string()), broadcast_group("t3")),
        ];
        node_metrics(Some(broadcast), None, None).register(registry);
    });
    assert_eq!(type_line_count(&rendered), 2 + 2 * 3);
    for prefix in ["t1", "t2", "t3"] {
        assert!(rendered.contains(&format!("{prefix}_num_sent_broadcast_messages 0")));
        assert!(rendered.contains(&format!("{prefix}_num_received_broadcast_messages 0")));
    }
}

#[test]
fn broadcast_with_no_topics_registers_no_counters() {
    let rendered = render_after(|registry| {
        node_metrics(Some(Vec::new()), None, None).register(registry);
    });
    assert_eq!(type_line_count(&rendered), 2);
    assert!(!rendered.contains("broadcast"));
}

#[test]
fn gossipsub_registers_all_ten_counters_once_at_implicit_zero() {
    let rendered = render_after(|registry| {
        gossipsub_group().register(registry);
    });
    assert_eq!(type_line_count(&rendered), 10);
    let names = [
        "num_messages_received",
        "num_messages_published",
        "num_subscriptions",
        "num_unsubscriptions",
        "num_peer_subscribed",
        "num_peer_unsubscribed",
        "num_gossipsub_not_supported",
        "num_slow_peers",
        "num_peer_added",
        "num_peer_removed",
    ];
    for name in names {
        assert_eq!(rendered.matches(&format!("# TYPE {name} counter")).count(), 1);
        assert!(rendered.contains(&format!("{name} 0")));
    }
}

#[test]
fn second_register_pass_is_absorbed_by_this_backend() {
    // A second pass is out of contract for the aggregate; this asserts the
    // backend's own documented reaction: re-declaring a name returns the
    // existing series, so nothing is duplicated, and the pass's explicit
    // zeroing resets the node gauges.
    let rendered = render_after(|registry| {
        let m = node_metrics(None, Some(sqmr_group()), None);
        m.register(registry);
        m.num_connected_peers.set(registry, 7);
        m.register(registry);
    });
    assert_eq!(type_line_count(&rendered), 4);
    assert_eq!(rendered.matches("# TYPE num_connected_peers gauge").count(), 1);
    assert!(rendered.contains("num_connected_peers 0"));
}

#[test]
fn scenario_broadcast_only_on_two_topics() {
    let rendered = render_after(|registry| {
        let broadcast = vec![
            (Topic::from_raw("t1".to_string()), broadcast_group("t1")),
            (Topic::from_raw("t2".to_string()), broadcast_group("t2")),
        ];
        node_metrics(Some(broadcast), None, None).register(registry);
    });
    assert!(rendered.contains("num_connected_peers 0"));
    assert!(rendered.contains("num_blacklisted_peers 0"));
    // Exactly 4 broadcast counters, no SQMR gauges, no gossip counters.
    assert_eq!(rendered.matches(" counter").count(), 4);
    assert_eq!(rendered.matches(" gauge").count(), 2);
    assert_eq!(type_line_count(&rendered), 6);
    assert!(!rendered.contains("num_active_inbound_sessions"));
    assert!(!rendered.contains("num_messages_received"));
}

#[test]
fn scenario_all_groups_with_one_topic() {
    let rendered = render_after(|registry| {
        let broadcast = vec![(Topic::from_raw("blocks".to_string()), broadcast_group("blocks"))];
        node_metrics(Some(broadcast), Some(sqmr_group()), Some(gossipsub_group()))
            .register(registry);
    });
    // 2 node-wide gauges + 2 broadcast counters + 2 SQMR gauges + 10 gossip
    // counters: 16 backend registrations in all.
    assert_eq!(type_line_count(&rendered), 16);
    assert!(rendered.contains("num_connected_peers 0"));
    assert!(rendered.contains("num_blacklisted_peers 0"));
    assert!(rendered.contains("blocks_num_sent_broadcast_messages 0"));
    assert!(rendered.contains("blocks_num_received_broadcast_messages 0"));
    assert!(rendered.contains("num_active_inbound_sessions 0"));
    assert!(rendered.contains("num_active_outbound_sessions 0"));
}

#[test]
fn gauge_set_changes_the_backend_reading() {
    // Would fail if the set wrapper dropped its value instead of handing it
    // to the backend.
    let rendered = render_after(|registry| {
        let gauge = Gauge::new("num_connected_peers".to_string());
        gauge.register(registry);
        gauge.set(registry, 42);
    });
    assert!(rendered.contains("num_connected_peers 42"));
}

#[test]
fn lookup_finds_the_topic_entry() {
    let broadcast = vec![
        (Topic::from_raw("t1".to_string()), broadcast_group("t1")),
        (Topic::from_raw("t2".to_string()), broadcast_group("t2")),
    ];
    let m = node_metrics(Some(broadcast), None, None);
    let found = m.broadcast_metrics(&Topic::from_raw("t2".to_string()));
    assert!(found.is_some());
    assert_eq!(
        found.unwrap().num_sent_broadcast_messages.name(),
        "t2_num_sent_broadcast_messages"
    );
    assert!(m.broadcast_metrics(&Topic::from_raw("t3".to_string())).is_none());
}

#[test]
fn lookup_is_empty_when_broadcast_is_disabled() {
    let m = node_metrics(None, None, None);
    assert!(m.broadcast_metrics(&Topic::from_raw("t1".to_string())).is_none());
}

#[test]
fn topics_compare_by_content() {
    assert!(Topic::from_raw("t1".to_string()) == Topic::from_raw("t1".to_string()));
    assert!(Topic::from_raw("t1".to_string()) != Topic::from_raw("t2".to_string()));
    assert_eq!(Topic::from_raw("t1".to_string()).as_str(), "t1");
}

#[test]
fn primitives_report_their_names() {
    assert_eq!(Counter::new("c".to_string()).name(), "c");
    assert_eq!(Gauge::new("g".to_string()).name(), "g");
}
