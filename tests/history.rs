use monitoring_agent::history::MetricsRotation;
use monitoring_agent::scheduler::{record_tick, Agent};
use monitoring_agent::snapshot::{ExtendedSystemData, LoadAverages, ThreadMetrics};

fn snapshot(timestamp: u64) -> ExtendedSystemData {
    ExtendedSystemData {
        timestamp,
        agent_id: None,
        cpu_usage: 1250,
        total_memory: 8 << 30,
        used_memory: 2 << 30,
        disk_usage: Vec::new(),
        network_usage: Vec::new(),
        top_processes: Vec::new(),
        system_load: LoadAverages { one_minute: 50, five_minutes: 40, fifteen_minutes: 30 },
        thread_metrics: ThreadMetrics {
            total_threads: 0,
            active_threads: 0,
            core_count: 4,
            thread_details: Vec::new(),
        },
    }
}

fn timestamps(v: &[ExtendedSystemData]) -> Vec<u64> {
    v.iter().map(|s| s.timestamp).collect()
}

#[test]
fn capacity_three_keeps_newest_three() {
    let mut store = MetricsRotation::new(3);
    for t in 1..=4 {
        store.add_metric(snapshot(t));
    }
    assert_eq!(timestamps(&store.get_metrics()), vec![2, 3, 4]);
    assert_eq!(store.latest().map(|s| s.timestamp), Some(4));
}

#[test]
fn overflow_by_one_evicts_only_the_first() {
    let cap = 5;
    let mut store = MetricsRotation::new(cap);
    for t in 0..=(cap as u64) {
        store.add_metric(snapshot(100 + t));
    }
    assert_eq!(store.len(), cap);
    assert_eq!(timestamps(&store.get_metrics()), vec![101, 102, 103, 104, 105]);
}

#[test]
fn below_capacity_keeps_everything() {
    let mut store = MetricsRotation::new(10);
    store.add_metric(snapshot(7));
    store.add_metric(snapshot(8));
    assert_eq!(timestamps(&store.get_metrics()), vec![7, 8]);
}

#[test]
fn returned_history_is_a_copy() {
    let mut store = MetricsRotation::new(2);
    store.add_metric(snapshot(1));
    let copy = store.get_metrics();
    store.add_metric(snapshot(2));
    store.add_metric(snapshot(3));
    assert_eq!(timestamps(&copy), vec![1]);
    assert_eq!(timestamps(&store.get_metrics()), vec![2, 3]);
}

#[test]
fn empty_store_has_no_latest() {
    let store = MetricsRotation::new(4);
    assert!(store.latest().is_none());
    assert_eq!(store.len(), 0);
}

#[test]
fn capacity_zero_retains_nothing() {
    let mut store = MetricsRotation::new(0);
    store.add_metric(snapshot(1));
    store.add_metric(snapshot(2));
    assert!(store.latest().is_none());
    assert!(store.get_metrics().is_empty());
}

#[test]
fn tick_appends_and_returns_delivery_copy() {
    let mut store = MetricsRotation::new(2);
    let sent = record_tick(&mut store, snapshot(9), None);
    assert_eq!(sent.timestamp, 9);
    assert_eq!(sent.agent_id, None);
    assert_eq!(store.latest().map(|s| s.timestamp), Some(9));
}

#[test]
fn agent_tick_tags_source() {
    let agent = Agent::new("edge-1".to_string(), 5);
    assert_eq!(agent.interval_secs(), 5);
    let mut store = MetricsRotation::new(2);
    let sent = agent.tick(&mut store, snapshot(11));
    assert_eq!(sent.agent_id.as_deref(), Some("edge-1"));
    let kept = store.latest().unwrap();
    assert_eq!(kept.agent_id.as_deref(), Some("edge-1"));
    assert_eq!(kept.timestamp, 11);
}
