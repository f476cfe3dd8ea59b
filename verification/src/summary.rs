use vstd::prelude::*;

use crate::metrics::{max_nat, MonitorSample, SharedMetrics};
use crate::scheduler::Policy;
use crate::task::{CompletedTask, TaskKind};

verus! {

/// Nanoseconds in a millisecond.
pub const NANOS_PER_MILLI: u64 = 1_000_000;

/// Whole milliseconds from `from_ns` to `to_ns`, or 0 if `to_ns` is earlier.
pub open spec fn elapsed_ms(from_ns: u64, to_ns: u64) -> nat {
    if to_ns >= from_ns {
        ((to_ns - from_ns) / (NANOS_PER_MILLI as int)) as nat
    } else {
        0
    }
}

/// How long a task waited between arriving and starting.
pub open spec fn wait_of() -> spec_fn(CompletedTask) -> nat {
    |c: CompletedTask| elapsed_ms(c.task.arrival_ns, c.start_ns)
}

/// How long a task took between arriving and finishing.
pub open spec fn turnaround_of() -> spec_fn(CompletedTask) -> nat {
    |c: CompletedTask| elapsed_ms(c.task.arrival_ns, c.finish_ns)
}

/// 1 for a CPU-bound task, 0 for an IO-bound one.
pub open spec fn cpu_indicator() -> spec_fn(CompletedTask) -> nat {
    |c: CompletedTask|
        if c.task.kind == TaskKind::Cpu {
            1nat
        } else {
            0nat
        }
}

/// Active workers recorded in a sample.
pub open spec fn active_of() -> spec_fn(MonitorSample) -> nat {
    |s: MonitorSample| s.active_workers as nat
}

/// CPU use recorded in a sample.
pub open spec fn usage_of() -> spec_fn(MonitorSample) -> nat {
    |s: MonitorSample| s.cpu_usage as nat
}

/// Sum of `f` over `s`.
pub open spec fn sum_by<A>(s: Seq<A>, f: spec_fn(A) -> nat) -> nat
    decreases s.len(),
{
    if s.len() == 0 {
        0
    } else {
        sum_by(s.drop_last(), f) + f(s.last())
    }
}

/// Largest value of `f` over `s`, or 0 for an empty `s`.
pub open spec fn max_by<A>(s: Seq<A>, f: spec_fn(A) -> nat) -> nat
    decreases s.len(),
{
    if s.len() == 0 {
        0
    } else {
        max_nat(max_by(s.drop_last(), f), f(s.last()))
    }
}

pub open spec fn cpu_count(s: Seq<CompletedTask>) -> nat {
    sum_by(s, cpu_indicator())
}

pub open spec fn total_wait_ms(s: Seq<CompletedTask>) -> nat {
    sum_by(s, wait_of())
}

pub open spec fn total_turnaround_ms(s: Seq<CompletedTask>) -> nat {
    sum_by(s, turnaround_of())
}

pub open spec fn max_wait_ms(s: Seq<CompletedTask>) -> nat {
    max_by(s, wait_of())
}

pub proof fn lemma_sum_by_step<A>(s: Seq<A>, f: spec_fn(A) -> nat, i: int)
    requires
        0 <= i < s.len(),
    ensures
        sum_by(s.take(i + 1), f) == sum_by(s.take(i), f) + f(s[i]),
        max_by(s.take(i + 1), f) == max_nat(max_by(s.take(i), f), f(s[i])),
{
    assert(s.take(i + 1).drop_last() =~= s.take(i));
}

/// Integer totals of one experiment; averages are these totals divided by
/// `total_completed` or `sample_count`.
pub struct Summary {
    pub experiment_name: String,
    pub policy: Policy,
    pub total_completed: usize,
    pub cpu_completed: usize,
    pub io_completed: usize,
    pub makespan_ms: u128,
    pub total_wait_ms: u128,
    pub total_turnaround_ms: u128,
    pub max_wait_ms: u128,
    /// Number of monitor samples, at least 1 so that it can divide.
    pub sample_count: usize,
    pub total_active_workers: u128,
    pub total_cpu_usage: u128,
    pub max_queue_len: usize,
}

/// Whole milliseconds from `from_ns` to `to_ns`, or 0 if `to_ns` is earlier.
pub fn elapsed_millis(from_ns: u64, to_ns: u64) -> (ms: u64)
    ensures
        ms == elapsed_ms(from_ns, to_ns),
        ms <= u64::MAX / NANOS_PER_MILLI,
{
    if to_ns >= from_ns {
        (to_ns - from_ns) / NANOS_PER_MILLI
    } else {
        0
    }
}

/// Summarises an experiment from its completed tasks and the monitor's metrics.
pub fn build_summary(
    experiment_name: &str,
    policy: Policy,
    completed_tasks: &Vec<CompletedTask>,
    shared_metrics: &SharedMetrics,
    makespan_ms: u128,
) -> (summary: Summary)
    ensures
        summary.experiment_name@ == experiment_name@,
        summary.policy == policy,
        summary.total_completed == completed_tasks@.len(),
        summary.cpu_completed == cpu_count(completed_tasks@),
        summary.io_completed == completed_tasks@.len() - cpu_count(completed_tasks@),
        summary.makespan_ms == makespan_ms,
        summary.total_wait_ms == total_wait_ms(completed_tasks@),
        summary.total_turnaround_ms == total_turnaround_ms(completed_tasks@),
        summary.max_wait_ms == max_wait_ms(completed_tasks@),
        summary.sample_count == max_nat(shared_metrics.samples@.len(), 1),
        summary.total_active_workers == sum_by(shared_metrics.samples@, active_of()),
        summary.total_cpu_usage == sum_by(shared_metrics.samples@, usage_of()),
        summary.max_queue_len == shared_metrics.max_queue_len,
{
    let tasks = completed_tasks;
    let n = tasks.len();
    let mut cpu_completed: usize = 0;
    let mut wait_sum: u128 = 0;
    let mut turnaround_sum: u128 = 0;
    let mut wait_max: u128 = 0;
    let mut i: usize = 0;
    while i < n
        invariant
            n == tasks@.len(),
            i <= n,
            cpu_completed == cpu_count(tasks@.take(i as int)),
            cpu_completed <= i,
            wait_sum == total_wait_ms(tasks@.take(i as int)),
            wait_sum <= i * 18446744073709,
            turnaround_sum == total_turnaround_ms(tasks@.take(i as int)),
            turnaround_sum <= i * 18446744073709,
            wait_max == max_wait_ms(tasks@.take(i as int)),
        decreases n - i,
    {
        let done = tasks[i];
        proof {
            lemma_sum_by_step(tasks@, cpu_indicator(), i as int);
            lemma_sum_by_step(tasks@, wait_of(), i as int);
            lemma_sum_by_step(tasks@, turnaround_of(), i as int);
        }
        let wait = elapsed_millis(done.task.arrival_ns, done.start_ns) as u128;
        let turnaround = elapsed_millis(done.task.arrival_ns, done.finish_ns) as u128;
        if done.task.kind == TaskKind::Cpu {
            cpu_completed = cpu_completed + 1;
        }
        wait_sum = wait_sum + wait;
        turnaround_sum = turnaround_sum + turnaround;
        if wait > wait_max {
            wait_max = wait;
        }
        i = i + 1;
    }
    proof {
        assert(tasks@.take(n as int) =~= tasks@);
    }

    let samples = &shared_metrics.samples;
    let m = samples.len();
    let mut active_sum: u128 = 0;
    let mut usage_sum: u128 = 0;
    let mut j: usize = 0;
    while j < m
        invariant
            m == samples@.len(),
            j <= m,
            active_sum == sum_by(samples@.take(j as int), active_of()),
            active_sum <= j * 18446744073709551615,
            usage_sum == sum_by(samples@.take(j as int), usage_of()),
            usage_sum <= j * 4294967295,
        decreases m - j,
    {
        let sample = samples[j];
        proof {
            lemma_sum_by_step(samples@, active_of(), j as int);
            lemma_sum_by_step(samples@, usage_of(), j as int);
        }
        active_sum = active_sum + sample.active_workers as u128;
        usage_sum = usage_sum + sample.cpu_usage as u128;
        j = j + 1;
    }
    proof {
        assert(samples@.take(m as int) =~= samples@);
    }

    let sample_count = if m > 1 {
        m
    } else {
        1
    };

    Summary {
        experiment_name: experiment_name.to_owned(),
        policy,
        total_completed: n,
        cpu_completed,
        io_completed: n - cpu_completed,
        makespan_ms,
        total_wait_ms: wait_sum,
        total_turnaround_ms: turnaround_sum,
        max_wait_ms: wait_max,
        sample_count,
        total_active_workers: active_sum,
        total_cpu_usage: usage_sum,
        max_queue_len: shared_metrics.max_queue_len,
    }
}

} // verus!
