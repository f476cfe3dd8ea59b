use vstd::prelude::*;

verus! {

/// Number of workers in the fixed pool.
pub const WORKER_COUNT: usize = 8;

/// Global CPU budget: a task is only started if it keeps the total under this cap.
pub const GLOBAL_CPU_LIMIT: u32 = 100;

/// Number of tasks generated for one experiment.
pub const TOTAL_TASKS: usize = 1000;

/// Simulated running time of every task, in milliseconds.
pub const TASK_DURATION_MS: u64 = 200;

/// What kind of work a task does.
#[derive(Clone, Copy, Debug, PartialEq, Eq, Structural)]
pub enum TaskKind {
    /// CPU-bound: uses a large share of the CPU budget.
    Cpu,
    /// IO-bound: uses a small share of the CPU budget.
    Io,
}

/// One unit of work.
///
/// Times are nanoseconds since the start of the simulation.
#[derive(Clone, Copy, Debug, PartialEq, Eq, Structural)]
pub struct Task {
    pub id: usize,
    pub arrival_ns: u64,
    pub kind: TaskKind,
    pub duration_ms: u64,
    pub cpu_cost: u32,
}

/// A task that a worker has finished, with the times it started and ended.
#[derive(Clone, Copy, Debug, PartialEq, Eq, Structural)]
pub struct CompletedTask {
    pub task: Task,
    pub start_ns: u64,
    pub finish_ns: u64,
    pub worker_id: usize,
}

/// Whether a task of cost `cost` may start while `cpu_now` is in use.
pub open spec fn fits_under_cap(cpu_now: u32, cost: u32) -> bool {
    cpu_now + cost <= GLOBAL_CPU_LIMIT
}

/// Whether `queue` has a front task that fits under the cap.
pub open spec fn front_fits(queue: Seq<Task>, cpu_now: u32) -> bool {
    queue.len() > 0 && fits_under_cap(cpu_now, queue[0].cpu_cost)
}

/// Checks `fits_under_cap` without overflowing.
pub fn fits_cpu_limit(cpu_now: u32, cost: u32) -> (b: bool)
    ensures
        b == fits_under_cap(cpu_now, cost),
{
    (cpu_now as u64) + (cost as u64) <= GLOBAL_CPU_LIMIT as u64
}

} // verus!
