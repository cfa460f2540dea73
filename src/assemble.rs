use vstd::prelude::*;
use itertools::Itertools;
use crate::snapshot::{
    DiskIOMetrics, ExtendedSystemData, LoadAverages, NetworkMetrics, ProcessMetrics, ThreadDetail,
    ThreadMetrics, ThreadMetricsView,
};

verus! {

broadcast use vstd::seq_lib::to_multiset_contains;

/// Most processes listed in a snapshot.
pub const TOP_PROCESS_LIMIT: usize = 10;

/// A process counts as active above this CPU usage (0.1%, in hundredths).
pub const ACTIVE_CPU_HUNDREDTHS: u32 = 10;

/// Space of one mounted volume, as the OS reports it.
pub struct DiskReading {
    pub name: String,
    pub total_bytes: u64,
    pub available_bytes: u64,
}

/// One process, as the OS reports it.
pub struct ProcessReading {
    pub pid: usize,
    pub name: String,
    /// CPU usage in hundredths of a percent.
    pub cpu_usage: u32,
    pub memory_usage: u64,
    /// Threads of the process; 1 where the count could not be read.
    pub thread_count: usize,
}

/// Everything read from the OS for one snapshot.
pub struct SystemReadings {
    pub timestamp: u64,
    pub cpu_usage: u32,
    pub total_memory: u64,
    pub used_memory: u64,
    pub disks: Vec<DiskReading>,
    pub networks: Vec<NetworkMetrics>,
    pub processes: Vec<ProcessReading>,
    pub load: LoadAverages,
    pub core_count: usize,
}

/// Used share of a volume in hundredths of a percent: `10000 * (total - available) / total`,
/// and 0 for a volume of size 0 (or one that reports more space available than it has).
pub open spec fn disk_usage_spec(total: u64, available: u64) -> int {
    if total == 0 || available >= total {
        0
    } else {
        ((total - available) as int * 10000) / (total as int)
    }
}

pub open spec fn disk_metric_spec(d: DiskReading) -> DiskIOMetrics {
    DiskIOMetrics {
        name: d.name,
        usage_hundredths: disk_usage_spec(d.total_bytes, d.available_bytes) as u64,
        total_bytes: d.total_bytes,
        available_bytes: d.available_bytes,
    }
}

pub open spec fn process_metric_spec(p: ProcessReading) -> ProcessMetrics {
    ProcessMetrics { pid: p.pid, name: p.name, cpu_usage: p.cpu_usage, memory_usage: p.memory_usage }
}

pub open spec fn thread_detail_spec(p: ProcessReading) -> ThreadDetail {
    ThreadDetail { process_name: p.name, thread_count: p.thread_count, cpu_usage: p.cpu_usage }
}

/// Sum of the thread counts.
pub open spec fn total_of(d: Seq<ThreadDetail>) -> int
    decreases d.len(),
{
    if d.len() == 0 {
        0
    } else {
        total_of(d.drop_last()) + d.last().thread_count
    }
}

/// Sum of the thread counts of the active processes.
pub open spec fn active_of(d: Seq<ThreadDetail>) -> int
    decreases d.len(),
{
    if d.len() == 0 {
        0
    } else {
        active_of(d.drop_last()) + if d.last().cpu_usage > ACTIVE_CPU_HUNDREDTHS {
            d.last().thread_count as int
        } else {
            0
        }
    }
}

/// Thread totals over `d` on `core_count` logical cores.
pub open spec fn thread_metrics_spec(d: Seq<ThreadDetail>, core_count: usize) -> ThreadMetricsView {
    ThreadMetricsView {
        total_threads: total_of(d) as usize,
        active_threads: active_of(d) as usize,
        core_count,
        thread_details: d,
    }
}

/// Rank keys `(cpu usage, position)` of the processes among the first `n`
/// whose CPU usage is above zero, in enumeration order.
pub open spec fn candidates(p: Seq<ProcessMetrics>, n: nat) -> Seq<(u32, usize)>
    decreases n,
{
    if n == 0 {
        Seq::empty()
    } else {
        let c = candidates(p, (n - 1) as nat);
        if p[n - 1].cpu_usage > 0 {
            c.push((p[n - 1].cpu_usage, (n - 1) as usize))
        } else {
            c
        }
    }
}

/// `a` may stand before `b`: higher CPU usage first, ties in enumeration order.
pub open spec fn ranks_no_later(a: (u32, usize), b: (u32, usize)) -> bool {
    a.0 > b.0 || (a.0 == b.0 && a.1 <= b.1)
}

/// `a` stands strictly before `b` in the ranking.
pub open spec fn ranks_before(a: (u32, usize), b: (u32, usize)) -> bool {
    a.0 > b.0 || (a.0 == b.0 && a.1 < b.1)
}

/// Rank key of the process at position `j`.
pub open spec fn rank_key(p: Seq<ProcessMetrics>, j: int) -> (u32, usize) {
    (p[j].cpu_usage, j as usize)
}

/// `r` lists the processes of `p` at positions `idx`: all with CPU usage
/// above zero, in strict rank order, and every other such process ranks after
/// the last one listed.
pub open spec fn ranked_at(r: Seq<ProcessMetrics>, p: Seq<ProcessMetrics>, idx: Seq<int>) -> bool {
    &&& idx.len() == r.len()
    &&& forall|i: int|
        0 <= i < r.len() ==> 0 <= #[trigger] idx[i] < p.len() && p[idx[i]].cpu_usage > 0 && r[i]
            == p[idx[i]]
    &&& forall|i: int, j: int|
        0 <= i < j < r.len() ==> ranks_before(rank_key(p, idx[i]), rank_key(p, idx[j]))
    &&& forall|j: int|
        0 <= j < p.len() && p[j].cpu_usage > 0 && !idx.contains(j) ==> ranks_before(
            rank_key(p, idx.last()),
            #[trigger] rank_key(p, j),
        )
}

/// `r` lists the busiest processes of `p`: the ten (or fewer) with CPU usage
/// above zero that rank first, by non-increasing CPU usage, ties in
/// enumeration order.
pub open spec fn is_top_ranking(r: Seq<ProcessMetrics>, p: Seq<ProcessMetrics>) -> bool {
    let n = candidates(p, p.len()).len();
    &&& r.len() == if n < TOP_PROCESS_LIMIT { n } else { TOP_PROCESS_LIMIT as nat }
    &&& forall|i: int, j: int| 0 <= i < j < r.len() ==> r[i].cpu_usage >= r[j].cpu_usage
    &&& exists|idx: Seq<int>| ranked_at(r, p, idx)
}

/// Used share of a volume in hundredths of a percent; 0 for a volume of size 0.
pub fn disk_usage_hundredths(total: u64, available: u64) -> (r: u64)
    ensures
        r == disk_usage_spec(total, available),
        r <= 10000,
{
    if total == 0 || available >= total {
        0
    } else {
        let used: u128 = (total - available) as u128;
        assert(used * 10000 <= u64::MAX as u128 * 10000) by (nonlinear_arith)
            requires used <= u64::MAX;
        let scaled: u128 = used * 10000;
        let q: u128 = scaled / (total as u128);
        assert(q <= 10000) by (nonlinear_arith)
            requires q == scaled / (total as u128), scaled == used * 10000, used <= total, total > 0;
        q as u64
    }
}

/// Volumes backed by a device: names under `/dev/`.
pub open spec fn is_device_name(name: Seq<char>) -> bool {
    name.len() >= 5 && name.subrange(0, 5) =~= seq!['/', 'd', 'e', 'v', '/']
}

/// Relies on str::starts_with: whether `s` begins with `prefix`.
#[verifier::external_body]
fn starts_with(s: &str, prefix: &str) -> (r: bool)
    ensures
        r == (prefix@.len() <= s@.len() && s@.subrange(0, prefix@.len() as int) == prefix@),
{
    s.starts_with(prefix)
}

/// The device-backed volumes among `disks`, in order.
pub fn physical_disks(disks: &Vec<DiskIOMetrics>) -> (r: Vec<DiskIOMetrics>)
    ensures
        r@ == disks@.filter(|d: DiskIOMetrics| is_device_name(d.name@)),
{
    let mut r: Vec<DiskIOMetrics> = Vec::new();
    let mut i: usize = 0;
    while i < disks.len()
        invariant
            i <= disks.len(),
            r@ == disks@.subrange(0, i as int).filter(|d: DiskIOMetrics| is_device_name(d.name@)),
        decreases disks.len() - i,
    {
        let ghost prefix = disks@.subrange(0, i + 1);
        assert(prefix.drop_last() =~= disks@.subrange(0, i as int));
        reveal(Seq::filter);
        proof {
            reveal_strlit("/dev/");
            assert("/dev/"@ =~= seq!['/', 'd', 'e', 'v', '/']);
            assert(prefix.last() == disks@[i as int]);
        }
        let device = starts_with(disks[i].name.as_str(), "/dev/");
        assert(device == is_device_name(disks@[i as int].name@));
        if device {
            r.push(disks[i].clone());
        }
        i += 1;
    }
    assert(disks@.subrange(0, i as int) =~= disks@);
    r
}

fn cmp_rank(a: &(u32, usize), b: &(u32, usize)) -> (r: core::cmp::Ordering)
    ensures
        (r == core::cmp::Ordering::Less) == (ranks_no_later(*a, *b) && *a != *b),
        (r == core::cmp::Ordering::Equal) == (*a == *b),
{
    if a.0 > b.0 || (a.0 == b.0 && a.1 < b.1) {
        core::cmp::Ordering::Less
    } else if a.0 == b.0 && a.1 == b.1 {
        core::cmp::Ordering::Equal
    } else {
        core::cmp::Ordering::Greater
    }
}

/// Relies on itertools::Itertools::sorted_by: the same items, reordered so
/// that the comparator (a total order here) never puts a later one first.
#[verifier::external_body]
fn sort_by_rank(keys: Vec<(u32, usize)>) -> (r: Vec<(u32, usize)>)
    ensures
        r@.to_multiset() == keys@.to_multiset(),
        forall|i: int, j: int| 0 <= i < j < r.len() ==> ranks_no_later(r@[i], r@[j]),
{
    keys.into_iter().sorted_by(|a, b| cmp_rank(a, b)).collect()
}

proof fn lemma_candidates_sound(p: Seq<ProcessMetrics>, n: nat)
    requires
        n <= p.len(),
        p.len() <= usize::MAX,
    ensures
        forall|k: int|
            0 <= k < candidates(p, n).len() ==> {
                let c = #[trigger] candidates(p, n)[k];
                c.1 < n && p[c.1 as int].cpu_usage == c.0 && c.0 > 0
            },
        forall|a: int, b: int|
            0 <= a < b < candidates(p, n).len() ==> candidates(p, n)[a].1 < candidates(p, n)[b].1,
    decreases n,
{
    if n > 0 {
        let c = candidates(p, (n - 1) as nat);
        lemma_candidates_sound(p, (n - 1) as nat);
        assert forall|k: int| 0 <= k < candidates(p, n).len() implies {
            let e = #[trigger] candidates(p, n)[k];
            e.1 < n && p[e.1 as int].cpu_usage == e.0 && e.0 > 0
        } by {
            if k < c.len() {
                assert(candidates(p, n)[k] == c[k]);
            }
        }
        assert forall|a: int, b: int| 0 <= a < b < candidates(p, n).len() implies candidates(
            p,
            n,
        )[a].1 < candidates(p, n)[b].1 by {
            assert(candidates(p, n)[a] == c[a]);
            if b < c.len() {
                assert(candidates(p, n)[b] == c[b]);
            }
        }
    }
}

proof fn lemma_candidates_complete(p: Seq<ProcessMetrics>, n: nat, j: int)
    requires
        0 <= j < n <= p.len(),
        p.len() <= usize::MAX,
        p[j].cpu_usage > 0,
    ensures
        candidates(p, n).contains((p[j].cpu_usage, j as usize)),
    decreases n,
{
    let c = candidates(p, (n - 1) as nat);
    if j == n - 1 {
        assert(candidates(p, n).last() == (p[j].cpu_usage, j as usize));
    } else {
        lemma_candidates_complete(p, (n - 1) as nat, j);
        let k = choose|k: int| 0 <= k < c.len() && c[k] == (p[j].cpu_usage, j as usize);
        assert(candidates(p, n)[k] == c[k]);
    }
}

/// The busiest processes: those with CPU usage above zero, by non-increasing
/// CPU usage with ties in enumeration order, at most ten.
pub fn top_processes(procs: &Vec<ProcessMetrics>) -> (r: Vec<ProcessMetrics>)
    ensures
        is_top_ranking(r@, procs@),
{
    let mut keys: Vec<(u32, usize)> = Vec::new();
    let mut i: usize = 0;
    while i < procs.len()
        invariant
            i <= procs.len(),
            keys@ == candidates(procs@, i as nat),
        decreases procs.len() - i,
    {
        if procs[i].cpu_usage > 0 {
            keys.push((procs[i].cpu_usage, i));
        }
        i += 1;
    }
    let ghost cands = keys@;
    proof {
        lemma_candidates_sound(procs@, procs@.len());
    }
    let sorted = sort_by_rank(keys);
    proof {
        assert forall|k: int| 0 <= k < sorted.len() implies {
            let c = #[trigger] sorted@[k];
            c.1 < procs.len() && procs@[c.1 as int].cpu_usage == c.0 && c.0 > 0
        } by {
            assert(sorted@.to_multiset().count(sorted@[k]) > 0);
            assert(cands.contains(sorted@[k]));
        }
        vstd::seq_lib::to_multiset_len(sorted@);
        vstd::seq_lib::to_multiset_len(cands);
        assert(cands.no_duplicates());
        cands.lemma_multiset_has_no_duplicates();
        sorted@.lemma_multiset_has_no_duplicates_conv();
    }
    let m: usize = if sorted.len() < TOP_PROCESS_LIMIT { sorted.len() } else { TOP_PROCESS_LIMIT };
    let mut out: Vec<ProcessMetrics> = Vec::new();
    let mut q: usize = 0;
    while q < m
        invariant
            m <= sorted.len(),
            q <= m,
            out.len() == q,
            forall|k: int| 0 <= k < q ==> out@[k] == procs@[#[trigger] sorted@[k].1 as int],
            forall|k: int|
                0 <= k < sorted.len() ==> {
                    let c = #[trigger] sorted@[k];
                    c.1 < procs.len() && procs@[c.1 as int].cpu_usage == c.0 && c.0 > 0
                },
        decreases m - q,
    {
        let idx = sorted[q].1;
        out.push(procs[idx].clone());
        q += 1;
    }
    proof {
        let idx = sorted@.subrange(0, m as int).map_values(|k: (u32, usize)| k.1 as int);
        assert forall|a: int| 0 <= a < sorted.len() implies #[trigger] rank_key(
            procs@,
            sorted@[a].1 as int,
        ) == sorted@[a] by {}
        assert forall|a: int, b: int| 0 <= a < b < out.len() implies ranks_before(
            rank_key(procs@, idx[a]),
            rank_key(procs@, idx[b]),
) by {
            assert(rank_key(procs@, idx[a]) == sorted@[a]);
            assert(rank_key(procs@, idx[b]) == sorted@[b]);
            assert(ranks_no_later(sorted@[a], sorted@[b]));
        }
        assert forall|a: int| 0 <= a < out.len() implies 0 <= #[trigger] idx[a] < procs.len()
            && procs@[idx[a]].cpu_usage > 0 && out@[a] == procs@[idx[a]] by {}
        assert forall|j: int|
            0 <= j < procs.len() && procs@[j].cpu_usage > 0 && !idx.contains(j) implies ranks_before(
            rank_key(procs@, idx.last()),
            #[trigger] rank_key(procs@, j),
        ) by {
            lemma_candidates_complete(procs@, procs@.len(), j);
            let key = (procs@[j].cpu_usage, j as usize);
            assert(cands.to_multiset().count(key) > 0);
            assert(sorted@.contains(key));
            let pos = choose|pos: int| 0 <= pos < sorted.len() && sorted@[pos] == key;
            if pos < m {
                assert(idx[pos] == j);
                assert(false);
            }
            assert(ranks_no_later(sorted@[m - 1], sorted@[pos]));
            assert(rank_key(procs@, idx.last()) == sorted@[m - 1]);
        }
        assert(ranked_at(out@, procs@, idx));
        assert forall|a: int, b: int| 0 <= a < b < out.len() implies out@[a].cpu_usage
            >= out@[b].cpu_usage by {
            assert(ranks_before(rank_key(procs@, idx[a]), rank_key(procs@, idx[b])));
        }
    }
    out
}

proof fn lemma_active_within_total(d: Seq<ThreadDetail>)
    ensures
        0 <= active_of(d) <= total_of(d),
    decreases d.len(),
{
    if d.len() > 0 {
        lemma_active_within_total(d.drop_last());
    }
}

proof fn lemma_total_of_prefix(d: Seq<ThreadDetail>, i: int)
    requires
        0 <= i <= d.len(),
    ensures
        total_of(d.subrange(0, i)) <= total_of(d),
    decreases d.len() - i,
{
    if i < d.len() {
        lemma_total_of_prefix(d, i + 1);
        assert(d.subrange(0, i + 1).drop_last() =~= d.subrange(0, i));
    } else {
        assert(d.subrange(0, i) =~= d);
    }
}

/// Thread totals over the given per-process counts: all threads, and those
/// of processes whose CPU usage is above 0.1%.
pub fn thread_metrics(thread_details: Vec<ThreadDetail>, core_count: usize) -> (r: ThreadMetrics)
    requires
        total_of(thread_details@) <= usize::MAX,
    ensures
        r@.total_threads == total_of(thread_details@),
        r@.active_threads == active_of(thread_details@),
        r@.core_count == core_count,
        r@.thread_details == thread_details@,
{
    let mut total: usize = 0;
    let mut active: usize = 0;
    let mut i: usize = 0;
    while i < thread_details.len()
        invariant
            i <= thread_details.len(),
            total == total_of(thread_details@.subrange(0, i as int)),
            active == active_of(thread_details@.subrange(0, i as int)),
            total_of(thread_details@) <= usize::MAX,
        decreases thread_details.len() - i,
    {
        let ghost d = thread_details@;
        proof {
            assert(d.subrange(0, i + 1).drop_last() =~= d.subrange(0, i as int));
            lemma_total_of_prefix(d, i + 1);
            lemma_active_within_total(d.subrange(0, i + 1));
        }
        let count = thread_details[i].thread_count;
        total = total + count;
        if thread_details[i].cpu_usage > ACTIVE_CPU_HUNDREDTHS {
            active = active + count;
        }
        i += 1;
    }
    assert(thread_details@.subrange(0, i as int) =~= thread_details@);
    ThreadMetrics { total_threads: total, active_threads: active, core_count, thread_details }
}

/// Assembles one snapshot from what was read of the OS: disk usage per
/// volume, network counters unmodified, the busiest processes, load averages
/// unmodified and thread totals.
pub fn collect_extended_metrics(readings: SystemReadings) -> (r: ExtendedSystemData)
    requires
        total_of(readings.processes@.map_values(|p: ProcessReading| thread_detail_spec(p)))
            <= usize::MAX,
    ensures
        r@.timestamp == readings.timestamp,
        r@.agent_id is None,
        r@.cpu_usage == readings.cpu_usage,
        r@.total_memory == readings.total_memory,
        r@.used_memory == readings.used_memory,
        r@.disk_usage == readings.disks@.map_values(|d: DiskReading| disk_metric_spec(d)),
        r@.network_usage == readings.networks@,
        is_top_ranking(
            r@.top_processes,
            readings.processes@.map_values(|p: ProcessReading| process_metric_spec(p)),
        ),
        r@.system_load == readings.load,
        r@.thread_metrics == thread_metrics_spec(
            readings.processes@.map_values(|p: ProcessReading| thread_detail_spec(p)),
            readings.core_count,
        ),
{
    let SystemReadings {
        timestamp,
        cpu_usage,
        total_memory,
        used_memory,
        disks,
        networks,
        processes,
        load,
        core_count,
    } = readings;
    let mut disk_usage: Vec<DiskIOMetrics> = Vec::new();
    let mut i: usize = 0;
    while i < disks.len()
        invariant
            i <= disks.len(),
            disk_usage@ == disks@.subrange(0, i as int).map_values(
                |d: DiskReading| disk_metric_spec(d),
            ),
        decreases disks.len() - i,
    {
        let d = &disks[i];
        disk_usage.push(
            DiskIOMetrics {
                name: d.name.clone(),
                usage_hundredths: disk_usage_hundredths(d.total_bytes, d.available_bytes),
                total_bytes: d.total_bytes,
                available_bytes: d.available_bytes,
            },
        );
        i += 1;
        assert(disk_usage@ =~= disks@.subrange(0, i as int).map_values(
            |d: DiskReading| disk_metric_spec(d),
        ));
    }
    assert(disks@.subrange(0, i as int) =~= disks@);
    let mut procs: Vec<ProcessMetrics> = Vec::new();
    let mut details: Vec<ThreadDetail> = Vec::new();
    let mut j: usize = 0;
    while j < processes.len()
        invariant
            j <= processes.len(),
            procs@ == processes@.subrange(0, j as int).map_values(
                |p: ProcessReading| process_metric_spec(p),
            ),
            details@ == processes@.subrange(0, j as int).map_values(
                |p: ProcessReading| thread_detail_spec(p),
            ),
        decreases processes.len() - j,
    {
        let p = &processes[j];
        procs.push(
            ProcessMetrics {
                pid: p.pid,
                name: p.name.clone(),
                cpu_usage: p.cpu_usage,
                memory_usage: p.memory_usage,
            },
        );
        details.push(
            ThreadDetail {
                process_name: p.name.clone(),
                thread_count: p.thread_count,
                cpu_usage: p.cpu_usage,
            },
        );
        j += 1;
        assert(procs@ =~= processes@.subrange(0, j as int).map_values(
            |p: ProcessReading| process_metric_spec(p),
        ));
        assert(details@ =~= processes@.subrange(0, j as int).map_values(
            |p: ProcessReading| thread_detail_spec(p),
        ));
    }
    assert(processes@.subrange(0, j as int) =~= processes@);
    let top = top_processes(&procs);
    let threads = thread_metrics(details, core_count);
    ExtendedSystemData {
        timestamp,
        agent_id: None,
        cpu_usage,
        total_memory,
        used_memory,
        disk_usage,
        network_usage: networks,
        top_processes: top,
        system_load: load,
        thread_metrics: threads,
    }
}

} // verus!
