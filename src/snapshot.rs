use vstd::prelude::*;

verus! {

/// Usage of one mounted volume.
pub struct DiskIOMetrics {
    pub name: String,
    /// Used share of the volume, in hundredths of a percent (0..=10000).
    pub usage_hundredths: u64,
    pub total_bytes: u64,
    pub available_bytes: u64,
}

/// Cumulative traffic counters of one network interface.
pub struct NetworkMetrics {
    pub interface_name: String,
    pub bytes_received: u64,
    pub bytes_sent: u64,
}

/// One process among the busiest ones.
pub struct ProcessMetrics {
    pub pid: usize,
    pub name: String,
    /// CPU usage in hundredths of a percent.
    pub cpu_usage: u32,
    pub memory_usage: u64,
}

/// Load averages over 1, 5 and 15 minutes, in hundredths.
#[derive(Clone, Copy, Debug, PartialEq, Eq)]
pub struct LoadAverages {
    pub one_minute: u64,
    pub five_minutes: u64,
    pub fifteen_minutes: u64,
}

/// Thread count of one process.
pub struct ThreadDetail {
    pub process_name: String,
    pub thread_count: usize,
    /// CPU usage in hundredths of a percent.
    pub cpu_usage: u32,
}

/// Thread totals over all processes. Threads per core is
/// `total_threads / core_count`.
pub struct ThreadMetrics {
    pub total_threads: usize,
    pub active_threads: usize,
    pub core_count: usize,
    pub thread_details: Vec<ThreadDetail>,
}

/// One point-in-time bundle of host metrics.
pub struct ExtendedSystemData {
    pub timestamp: u64,
    pub agent_id: Option<String>,
    /// Global CPU usage in hundredths of a percent.
    pub cpu_usage: u32,
    pub total_memory: u64,
    pub used_memory: u64,
    pub disk_usage: Vec<DiskIOMetrics>,
    pub network_usage: Vec<NetworkMetrics>,
    pub top_processes: Vec<ProcessMetrics>,
    pub system_load: LoadAverages,
    pub thread_metrics: ThreadMetrics,
}

pub struct ThreadMetricsView {
    pub total_threads: usize,
    pub active_threads: usize,
    pub core_count: usize,
    pub thread_details: Seq<ThreadDetail>,
}

pub struct SnapshotView {
    pub timestamp: u64,
    pub agent_id: Option<String>,
    pub cpu_usage: u32,
    pub total_memory: u64,
    pub used_memory: u64,
    pub disk_usage: Seq<DiskIOMetrics>,
    pub network_usage: Seq<NetworkMetrics>,
    pub top_processes: Seq<ProcessMetrics>,
    pub system_load: LoadAverages,
    pub thread_metrics: ThreadMetricsView,
}

impl View for ThreadMetrics {
    type V = ThreadMetricsView;

    open spec fn view(&self) -> ThreadMetricsView {
        ThreadMetricsView {
            total_threads: self.total_threads,
            active_threads: self.active_threads,
            core_count: self.core_count,
            thread_details: self.thread_details@,
        }
    }
}

impl View for ExtendedSystemData {
    type V = SnapshotView;

    open spec fn view(&self) -> SnapshotView {
        SnapshotView {
            timestamp: self.timestamp,
            agent_id: self.agent_id,
            cpu_usage: self.cpu_usage,
            total_memory: self.total_memory,
            used_memory: self.used_memory,
            disk_usage: self.disk_usage@,
            network_usage: self.network_usage@,
            top_processes: self.top_processes@,
            system_load: self.system_load,
            thread_metrics: self.thread_metrics@,
        }
    }
}

impl Clone for DiskIOMetrics {
    fn clone(&self) -> (r: Self)
        ensures
            r == *self,
    {
        DiskIOMetrics {
            name: self.name.clone(),
            usage_hundredths: self.usage_hundredths,
            total_bytes: self.total_bytes,
            available_bytes: self.available_bytes,
        }
    }
}

impl Clone for NetworkMetrics {
    fn clone(&self) -> (r: Self)
        ensures
            r == *self,
    {
        NetworkMetrics {
            interface_name: self.interface_name.clone(),
            bytes_received: self.bytes_received,
            bytes_sent: self.bytes_sent,
        }
    }
}

impl Clone for ProcessMetrics {
    fn clone(&self) -> (r: Self)
        ensures
            r == *self,
    {
        ProcessMetrics {
            pid: self.pid,
            name: self.name.clone(),
            cpu_usage: self.cpu_usage,
            memory_usage: self.memory_usage,
        }
    }
}

impl Clone for ThreadDetail {
    fn clone(&self) -> (r: Self)
        ensures
            r == *self,
    {
        ThreadDetail {
            process_name: self.process_name.clone(),
            thread_count: self.thread_count,
            cpu_usage: self.cpu_usage,
        }
    }
}

impl Clone for ThreadMetrics {
    fn clone(&self) -> (r: Self)
        ensures
            r@ == self@,
    {
        let details = self.thread_details.clone();
        assert(details@ =~= self.thread_details@);
        ThreadMetrics {
            total_threads: self.total_threads,
            active_threads: self.active_threads,
            core_count: self.core_count,
            thread_details: details,
        }
    }
}

impl Clone for ExtendedSystemData {
    fn clone(&self) -> (r: Self)
        ensures
            r@ == self@,
    {
        let agent_id = match &self.agent_id {
            Some(id) => Some(id.clone()),
            None => None,
        };
        let disks = self.disk_usage.clone();
        assert(disks@ =~= self.disk_usage@);
        let networks = self.network_usage.clone();
        assert(networks@ =~= self.network_usage@);
        let processes = self.top_processes.clone();
        assert(processes@ =~= self.top_processes@);
        ExtendedSystemData {
            timestamp: self.timestamp,
            agent_id,
            cpu_usage: self.cpu_usage,
            total_memory: self.total_memory,
            used_memory: self.used_memory,
            disk_usage: disks,
            network_usage: networks,
            top_processes: processes,
            system_load: self.system_load,
            thread_metrics: self.thread_metrics.clone(),
        }
    }
}

} // verus!
