use vstd::prelude::*;
use rand::rngs::StdRng;
use rand::Rng;
use rand::SeedableRng;

use crate::task::{Task, TaskKind, TASK_DURATION_MS};

verus! {

/// CPU cost of every CPU-bound task.
pub const CPU_TASK_COST: u32 = 35;

/// Smallest CPU cost of an IO-bound task.
pub const IO_COST_MIN: u32 = 5;

/// Largest CPU cost of an IO-bound task.
pub const IO_COST_MAX: u32 = 15;

#[verifier::external_type_specification]
#[verifier::external_body]
pub struct ExStdRng(StdRng);

/// `rand::SeedableRng::seed_from_u64` for `StdRng`: a generator whose stream is
/// fixed by `seed`. Nothing is claimed of the stream.
#[verifier::external_body]
fn seeded_std_rng(seed: u64) -> StdRng {
    StdRng::seed_from_u64(seed)
}

/// `rand::Rng::gen_range` on the half-open range `0..bound`: rand documents a
/// value `v` with `0 <= v < bound`, and panics on an empty range, which
/// `requires` leaves out.
#[verifier::external_body]
fn draw_below(rng: &mut StdRng, bound: u32) -> (v: u32)
    requires
        bound > 0,
    ensures
        v < bound,
{
    rng.gen_range(0..bound)
}

/// `rand::Rng::gen_range` on the inclusive range `low..=high`: rand documents a
/// value `v` with `low <= v <= high`, and panics when `low > high`, which
/// `requires` leaves out.
#[verifier::external_body]
fn draw_between(rng: &mut StdRng, low: u32, high: u32) -> (v: u32)
    requires
        low <= high,
    ensures
        low <= v <= high,
{
    rng.gen_range(low..=high)
}

/// The kind that a draw `random_value` from `0..io_ratio + cpu_ratio` selects:
/// draws below `io_ratio` give IO tasks, the rest CPU tasks.
pub open spec fn kind_for_draw(random_value: u32, io_ratio: u32) -> TaskKind {
    if random_value < io_ratio {
        TaskKind::Io
    } else {
        TaskKind::Cpu
    }
}

/// The task with number `id` arriving at `arrival_ns`, of the kind that
/// `random_value` selects; an IO task costs `io_cost`, a CPU task `CPU_TASK_COST`.
pub open spec fn task_for_draws(
    id: usize,
    arrival_ns: u64,
    io_ratio: u32,
    random_value: u32,
    io_cost: u32,
) -> Task {
    let kind = kind_for_draw(random_value, io_ratio);
    Task {
        id: id,
        arrival_ns: arrival_ns,
        kind: kind,
        duration_ms: TASK_DURATION_MS,
        cpu_cost: match kind {
            TaskKind::Io => io_cost,
            TaskKind::Cpu => CPU_TASK_COST,
        },
    }
}

/// Builds a task from its draws: the kind from `random_value` and, for an IO
/// task, the cost `io_cost`.
pub fn task_from_draws(
    id: usize,
    arrival_ns: u64,
    io_ratio: u32,
    random_value: u32,
    io_cost: u32,
) -> (task: Task)
    ensures
        task == task_for_draws(id, arrival_ns, io_ratio, random_value, io_cost),
{
    let kind = if random_value < io_ratio {
        TaskKind::Io
    } else {
        TaskKind::Cpu
    };
    let cpu_cost = match kind {
        TaskKind::Io => io_cost,
        TaskKind::Cpu => CPU_TASK_COST,
    };
    Task { id, arrival_ns, kind, duration_ms: TASK_DURATION_MS, cpu_cost }
}

/// Produces the tasks of one experiment from a seeded random stream, with IO
/// and CPU tasks in the ratio `io_ratio : cpu_ratio`.
pub struct TaskGenerator {
    rng: StdRng,
    io_ratio: u32,
    cpu_ratio: u32,
    total_ratio: u32,
}

impl TaskGenerator {
    pub closed spec fn io_ratio(&self) -> u32 {
        self.io_ratio
    }

    pub closed spec fn cpu_ratio(&self) -> u32 {
        self.cpu_ratio
    }

    pub closed spec fn wf(&self) -> bool {
        self.total_ratio == self.io_ratio + self.cpu_ratio
    }

    /// A generator seeded with `seed`; the same seed gives the same tasks.
    pub fn new(seed: u64, io_ratio: u32, cpu_ratio: u32) -> (g: TaskGenerator)
        requires
            io_ratio + cpu_ratio <= u32::MAX,
        ensures
            g.wf(),
            g.io_ratio() == io_ratio,
            g.cpu_ratio() == cpu_ratio,
    {
        TaskGenerator {
            rng: seeded_std_rng(seed),
            io_ratio,
            cpu_ratio,
            total_ratio: io_ratio + cpu_ratio,
        }
    }

    /// The next task, numbered `id` and arriving at `arrival_ns`. Its kind is
    /// drawn from `0..io_ratio + cpu_ratio` (below `io_ratio` means IO); an IO
    /// task then draws its cost from `IO_COST_MIN..=IO_COST_MAX`, a CPU task
    /// costs `CPU_TASK_COST`. Every task runs for `TASK_DURATION_MS`.
    pub fn next_task(&mut self, id: usize, arrival_ns: u64) -> (task: Task)
        requires
            old(self).wf(),
            old(self).io_ratio() + old(self).cpu_ratio() > 0,
        ensures
            final(self).wf(),
            final(self).io_ratio() == old(self).io_ratio(),
            final(self).cpu_ratio() == old(self).cpu_ratio(),
            exists|random_value: u32, io_cost: u32|
                {
                    &&& random_value < old(self).io_ratio() + old(self).cpu_ratio()
                    &&& IO_COST_MIN <= io_cost <= IO_COST_MAX
                    &&& task == task_for_draws(
                        id,
                        arrival_ns,
                        old(self).io_ratio(),
                        random_value,
                        io_cost,
                    )
                },
    {
        let random_value = draw_below(&mut self.rng, self.total_ratio);
        let io_cost = if random_value < self.io_ratio {
            draw_between(&mut self.rng, IO_COST_MIN, IO_COST_MAX)
        } else {
            IO_COST_MIN
        };
        task_from_draws(id, arrival_ns, self.io_ratio, random_value, io_cost)
    }
}

} // verus!
