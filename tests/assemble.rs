use monitoring_agent::assemble::{
    collect_extended_metrics, disk_usage_hundredths, physical_disks, thread_metrics, top_processes, DiskReading,
    ProcessReading, SystemReadings,
};
use monitoring_agent::snapshot::{DiskIOMetrics, LoadAverages, NetworkMetrics, ProcessMetrics, ThreadDetail};

fn process(pid: usize, cpu: u32) -> ProcessMetrics {
    ProcessMetrics { pid, name: format!("p{}", pid), cpu_usage: cpu, memory_usage: 1024 * pid as u64 }
}

#[test]
fn disk_of_size_zero_has_zero_usage() {
    assert_eq!(disk_usage_hundredths(0, 0), 0);
    assert_eq!(disk_usage_hundredths(0, 500), 0);
}

#[test]
fn disk_usage_formula() {
    assert_eq!(disk_usage_hundredths(1000, 250), 7500);
    assert_eq!(disk_usage_hundredths(3, 2), 3333);
    assert_eq!(disk_usage_hundredths(1000, 1000), 0);
    assert_eq!(disk_usage_hundredths(1000, 0), 10000);
    assert_eq!(disk_usage_hundredths(u64::MAX, 0), 10000);
}

#[test]
fn top_processes_sorted_and_bounded() {
    let procs: Vec<ProcessMetrics> = (1..=15).map(|i| process(i, (i as u32 * 37) % 11)).collect();
    let top = top_processes(&procs);
    assert!(top.len() <= 10);
    assert_eq!(top.len(), 10);
    for w in top.windows(2) {
        assert!(w[0].cpu_usage >= w[1].cpu_usage);
    }
    assert!(top.iter().all(|p| p.cpu_usage > 0));
}

#[test]
fn top_processes_skips_idle_and_keeps_tie_order() {
    let procs = vec![process(1, 0), process(2, 500), process(3, 900), process(4, 500), process(5, 0)];
    let top = top_processes(&procs);
    let pids: Vec<usize> = top.iter().map(|p| p.pid).collect();
    assert_eq!(pids, vec![3, 2, 4]);
}

#[test]
fn top_processes_of_no_process() {
    assert!(top_processes(&Vec::new()).is_empty());
}

#[test]
fn thread_totals_count_active_above_threshold() {
    let details = vec![
        ThreadDetail { process_name: "a".to_string(), thread_count: 4, cpu_usage: 11 },
        ThreadDetail { process_name: "b".to_string(), thread_count: 2, cpu_usage: 10 },
        ThreadDetail { process_name: "c".to_string(), thread_count: 1, cpu_usage: 0 },
    ];
    let m = thread_metrics(details, 2);
    assert_eq!(m.total_threads, 7);
    assert_eq!(m.active_threads, 4);
    assert_eq!(m.core_count, 2);
    assert_eq!(m.thread_details.len(), 3);
    let per_core = m.total_threads as f32 / m.core_count as f32;
    assert!((per_core - 3.5).abs() < 1e-6);
}

#[test]
fn assembles_snapshot_from_readings() {
    let readings = SystemReadings {
        timestamp: 1_700_000_000,
        cpu_usage: 4200,
        total_memory: 16,
        used_memory: 9,
        disks: vec![
            DiskReading { name: "/dev/sda1".to_string(), total_bytes: 200, available_bytes: 50 },
            DiskReading { name: "tmpfs".to_string(), total_bytes: 0, available_bytes: 0 },
        ],
        networks: vec![NetworkMetrics {
            interface_name: "eth0".to_string(),
            bytes_received: 10,
            bytes_sent: 20,
        }],
        processes: vec![
            ProcessReading { pid: 1, name: "init".to_string(), cpu_usage: 0, memory_usage: 5, thread_count: 1 },
            ProcessReading { pid: 2, name: "db".to_string(), cpu_usage: 3000, memory_usage: 6, thread_count: 8 },
            ProcessReading { pid: 3, name: "web".to_string(), cpu_usage: 5, memory_usage: 7, thread_count: 3 },
        ],
        load: LoadAverages { one_minute: 123, five_minutes: 45, fifteen_minutes: 6 },
        core_count: 4,
    };
    let s = collect_extended_metrics(readings);
    assert_eq!(s.timestamp, 1_700_000_000);
    assert_eq!(s.agent_id, None);
    assert_eq!(s.cpu_usage, 4200);
    assert_eq!(s.disk_usage[0].usage_hundredths, 7500);
    assert_eq!(s.disk_usage[1].usage_hundredths, 0);
    assert_eq!(s.network_usage[0].bytes_sent, 20);
    let pids: Vec<usize> = s.top_processes.iter().map(|p| p.pid).collect();
    assert_eq!(pids, vec![2, 3]);
    assert_eq!(s.system_load, LoadAverages { one_minute: 123, five_minutes: 45, fifteen_minutes: 6 });
    assert_eq!(s.thread_metrics.total_threads, 12);
    assert_eq!(s.thread_metrics.active_threads, 8);
    assert_eq!(s.thread_metrics.core_count, 4);
}

#[test]
fn keeps_only_device_volumes() {
    let disk = |name: &str| DiskIOMetrics {
        name: name.to_string(),
        usage_hundredths: 100,
        total_bytes: 10,
        available_bytes: 9,
    };
    let disks = vec![disk("/dev/sda1"), disk("tmpfs"), disk("/de"), disk("/dev/nvme0n1p2"), disk("overlay")];
    let kept: Vec<String> = physical_disks(&disks).into_iter().map(|d| d.name).collect();
    assert_eq!(kept, vec!["/dev/sda1".to_string(), "/dev/nvme0n1p2".to_string()]);
}
