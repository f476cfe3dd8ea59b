use vstd::prelude::*;
use std::collections::VecDeque;

use crate::metrics::SharedMetrics;
use crate::task::{fits_cpu_limit, front_fits, CompletedTask, Task, TaskKind};

verus! {

/// How waiting tasks are handed to workers.
#[derive(Clone, Copy, Debug, PartialEq, Eq, Structural)]
pub enum Policy {
    /// One shared queue, served in arrival order.
    Fifo,
    /// Separate CPU and IO queues; three turns prefer IO, then one prefers CPU.
    Optimized,
}

/// Which queue the optimized policy takes its next task from.
pub enum QueueChoice {
    CpuQueue,
    IoQueue,
    Neither,
}

/// The optimized policy prefers the IO queue on three turns out of four.
pub open spec fn prefers_io(turn: int) -> bool {
    turn % 4 != 3
}

/// The queue the optimized policy serves on `turn`: the preferred queue if its
/// front task fits under the cap, else the other one if its front task fits.
pub open spec fn optimized_choice(
    cpu_queue: Seq<Task>,
    io_queue: Seq<Task>,
    cpu_now: u32,
    turn: int,
) -> QueueChoice {
    if prefers_io(turn) {
        if front_fits(io_queue, cpu_now) {
            QueueChoice::IoQueue
        } else if front_fits(cpu_queue, cpu_now) {
            QueueChoice::CpuQueue
        } else {
            QueueChoice::Neither
        }
    } else {
        if front_fits(cpu_queue, cpu_now) {
            QueueChoice::CpuQueue
        } else if front_fits(io_queue, cpu_now) {
            QueueChoice::IoQueue
        } else {
            QueueChoice::Neither
        }
    }
}

/// FIFO policy: takes the front task only if it fits under the CPU cap.
pub fn pop_fifo_task_if_possible(queue: &mut VecDeque<Task>, metrics: &SharedMetrics) -> (next:
    Option<Task>)
    ensures
        front_fits(old(queue)@, metrics.current_cpu) ==> next == Some(old(queue)@[0])
            && final(queue)@ == old(queue)@.drop_first(),
        !front_fits(old(queue)@, metrics.current_cpu) ==> next is None && final(queue)@ == old(
            queue,
        )@,
{
    let cpu_now = metrics.current_cpu;
    if queue.len() == 0 {
        return None;
    }
    if fits_cpu_limit(cpu_now, queue[0].cpu_cost) {
        queue.pop_front()
    } else {
        None
    }
}

/// Optimized policy: advances the turn counter and takes the front task of the
/// queue that `optimized_choice` names, if any.
pub fn pop_optimized_task_if_possible(
    cpu_queue: &mut VecDeque<Task>,
    io_queue: &mut VecDeque<Task>,
    metrics: &SharedMetrics,
    optimized_turn: &mut usize,
) -> (next: Option<Task>)
    requires
        *old(optimized_turn) < usize::MAX,
    ensures
        *final(optimized_turn) == *old(optimized_turn) + 1,
        match optimized_choice(
            old(cpu_queue)@,
            old(io_queue)@,
            metrics.current_cpu,
            *old(optimized_turn) as int,
        ) {
            QueueChoice::IoQueue => {
                &&& next == Some(old(io_queue)@[0])
                &&& final(io_queue)@ == old(io_queue)@.drop_first()
                &&& final(cpu_queue)@ == old(cpu_queue)@
            },
            QueueChoice::CpuQueue => {
                &&& next == Some(old(cpu_queue)@[0])
                &&& final(cpu_queue)@ == old(cpu_queue)@.drop_first()
                &&& final(io_queue)@ == old(io_queue)@
            },
            QueueChoice::Neither => {
                &&& next is None
                &&& final(cpu_queue)@ == old(cpu_queue)@
                &&& final(io_queue)@ == old(io_queue)@
            },
        },
{
    let cpu_now = metrics.current_cpu;
    let prefer_io = *optimized_turn % 4 != 3;
    *optimized_turn = *optimized_turn + 1;

    if prefer_io {
        if io_queue.len() > 0 && fits_cpu_limit(cpu_now, io_queue[0].cpu_cost) {
            return io_queue.pop_front();
        }
        if cpu_queue.len() > 0 && fits_cpu_limit(cpu_now, cpu_queue[0].cpu_cost) {
            return cpu_queue.pop_front();
        }
    } else {
        if cpu_queue.len() > 0 && fits_cpu_limit(cpu_now, cpu_queue[0].cpu_cost) {
            return cpu_queue.pop_front();
        }
        if io_queue.len() > 0 && fits_cpu_limit(cpu_now, io_queue[0].cpu_cost) {
            return io_queue.pop_front();
        }
    }
    None
}


/// The mathematical value of a `Dispatcher`.
pub struct DispatcherView {
    pub policy: Policy,
    pub shared_queue: Seq<Task>,
    pub cpu_queue: Seq<Task>,
    pub io_queue: Seq<Task>,
    pub idle_workers: Seq<usize>,
    pub completed: Seq<CompletedTask>,
    pub generator_done: bool,
    pub optimized_turn: nat,
}

impl DispatcherView {
    /// What every dispatcher keeps true: no worker is idle twice, each
    /// per-kind queue holds only its kind, and a policy uses only its own queues.
    pub open spec fn wf(self) -> bool {
        &&& self.idle_workers.no_duplicates()
        &&& forall|i: int|
            0 <= i < self.cpu_queue.len() ==> #[trigger] self.cpu_queue[i].kind == TaskKind::Cpu
        &&& forall|i: int|
            0 <= i < self.io_queue.len() ==> #[trigger] self.io_queue[i].kind == TaskKind::Io
        &&& self.policy == Policy::Fifo ==> {
            &&& self.cpu_queue.len() == 0
            &&& self.io_queue.len() == 0
            &&& self.optimized_turn == 0
        }
        &&& self.policy == Policy::Optimized ==> self.shared_queue.len() == 0
    }

    /// Every task waiting, in the order shared, CPU, IO.
    pub open spec fn queued(self) -> Seq<Task> {
        self.shared_queue + self.cpu_queue + self.io_queue
    }

    /// A worker reports that it is ready; it joins the back of the idle list
    /// unless it is already there.
    pub open spec fn with_ready_worker(self, worker_id: usize) -> DispatcherView {
        if self.idle_workers.contains(worker_id) {
            self
        } else {
            DispatcherView { idle_workers: self.idle_workers.push(worker_id), ..self }
        }
    }

    /// A worker reports a finished task.
    pub open spec fn with_completion(self, done: CompletedTask) -> DispatcherView {
        DispatcherView { completed: self.completed.push(done), ..self }
    }

    /// A new task arrives: FIFO queues every task in the shared queue, the
    /// optimized policy queues it by kind.
    pub open spec fn with_arrival(self, task: Task) -> DispatcherView {
        match self.policy {
            Policy::Fifo => DispatcherView { shared_queue: self.shared_queue.push(task), ..self },
            Policy::Optimized => match task.kind {
                TaskKind::Cpu => DispatcherView { cpu_queue: self.cpu_queue.push(task), ..self },
                TaskKind::Io => DispatcherView { io_queue: self.io_queue.push(task), ..self },
            },
        }
    }

    /// The generator has stopped sending tasks.
    pub open spec fn with_generator_done(self) -> DispatcherView {
        DispatcherView { generator_done: true, ..self }
    }

    /// One attempt to hand a task to the first idle worker while `cpu_now` of
    /// the CPU budget is in use: the new state and the assignment, if one was made.
    /// When no task can start the worker stays first in the idle list.
    pub open spec fn dispatch_step(self, cpu_now: u32) -> (DispatcherView, Option<(usize, Task)>) {
        if self.idle_workers.len() == 0 {
            (self, None)
        } else {
            let worker = self.idle_workers[0];
            let rest = self.idle_workers.drop_first();
            match self.policy {
                Policy::Fifo => if front_fits(self.shared_queue, cpu_now) {
                    (
                        DispatcherView {
                            shared_queue: self.shared_queue.drop_first(),
                            idle_workers: rest,
                            ..self
                        },
                        Some((worker, self.shared_queue[0])),
                    )
                } else {
                    (self, None)
                },
                Policy::Optimized => {
                    let turned = DispatcherView {
                        optimized_turn: self.optimized_turn + 1,
                        ..self
                    };
                    match optimized_choice(
                        self.cpu_queue,
                        self.io_queue,
                        cpu_now,
                        self.optimized_turn as int,
                    ) {
                        QueueChoice::IoQueue => (
                            DispatcherView {
                                io_queue: self.io_queue.drop_first(),
                                idle_workers: rest,
                                ..turned
                            },
                            Some((worker, self.io_queue[0])),
                        ),
                        QueueChoice::CpuQueue => (
                            DispatcherView {
                                cpu_queue: self.cpu_queue.drop_first(),
                                idle_workers: rest,
                                ..turned
                            },
                            Some((worker, self.cpu_queue[0])),
                        ),
                        QueueChoice::Neither => (turned, None),
                    }
                },
            }
        }
    }

    /// Whether a dispatch step may run without the turn counter overflowing.
    pub open spec fn can_step(self) -> bool {
        self.policy == Policy::Optimized && self.idle_workers.len() > 0 ==> self.optimized_turn
            < usize::MAX
    }

    /// The run is over: no more arrivals, nothing waiting, and `total` tasks done.
    pub open spec fn all_done(self, total: nat) -> bool {
        &&& self.generator_done
        &&& self.shared_queue.len() == 0
        &&& self.cpu_queue.len() == 0
        &&& self.io_queue.len() == 0
        &&& self.completed.len() == total
    }
}

/// The dispatcher's state: waiting tasks, idle workers and finished tasks.
pub struct Dispatcher {
    policy: Policy,
    shared_queue: VecDeque<Task>,
    cpu_queue: VecDeque<Task>,
    io_queue: VecDeque<Task>,
    idle_workers: VecDeque<usize>,
    completed_tasks: Vec<CompletedTask>,
    generator_done: bool,
    optimized_turn: usize,
}

impl View for Dispatcher {
    type V = DispatcherView;

    closed spec fn view(&self) -> DispatcherView {
        DispatcherView {
            policy: self.policy,
            shared_queue: self.shared_queue@,
            cpu_queue: self.cpu_queue@,
            io_queue: self.io_queue@,
            idle_workers: self.idle_workers@,
            completed: self.completed_tasks@,
            generator_done: self.generator_done,
            optimized_turn: self.optimized_turn as nat,
        }
    }
}

fn contains_worker(workers: &VecDeque<usize>, worker_id: usize) -> (found: bool)
    ensures
        found == workers@.contains(worker_id),
{
    let n = workers.len();
    let mut i: usize = 0;
    while i < n
        invariant
            n == workers@.len(),
            i <= n,
            forall|j: int| 0 <= j < i ==> workers@[j] != worker_id,
        decreases n - i,
    {
        if workers[i] == worker_id {
            return true;
        }
        i = i + 1;
    }
    false
}

impl Dispatcher {
    /// A dispatcher with empty queues, no idle workers and nothing completed.
    pub fn new(policy: Policy) -> (d: Dispatcher)
        ensures
            d@ == (DispatcherView {
                policy: policy,
                shared_queue: Seq::empty(),
                cpu_queue: Seq::empty(),
                io_queue: Seq::empty(),
                idle_workers: Seq::empty(),
                completed: Seq::empty(),
                generator_done: false,
                optimized_turn: 0,
            }),
            d@.wf(),
    {
        Dispatcher {
            policy,
            shared_queue: VecDeque::new(),
            cpu_queue: VecDeque::new(),
            io_queue: VecDeque::new(),
            idle_workers: VecDeque::new(),
            completed_tasks: Vec::new(),
            generator_done: false,
            optimized_turn: 0,
        }
    }

    /// Handles a worker's "ready" message.
    pub fn worker_ready(&mut self, worker_id: usize)
        requires
            old(self)@.wf(),
        ensures
            final(self)@ == old(self)@.with_ready_worker(worker_id),
            final(self)@.wf(),
    {
        if !contains_worker(&self.idle_workers, worker_id) {
            self.idle_workers.push_back(worker_id);
        }
    }

    /// Handles a worker's report of a finished task.
    pub fn task_completed(&mut self, done: CompletedTask)
        requires
            old(self)@.wf(),
        ensures
            final(self)@ == old(self)@.with_completion(done),
            final(self)@.wf(),
    {
        self.completed_tasks.push(done);
    }

    /// Queues a newly arrived task according to the policy.
    pub fn task_arrived(&mut self, task: Task)
        requires
            old(self)@.wf(),
        ensures
            final(self)@ == old(self)@.with_arrival(task),
            final(self)@.wf(),
    {
        match self.policy {
            Policy::Fifo => self.shared_queue.push_back(task),
            Policy::Optimized => match task.kind {
                TaskKind::Cpu => self.cpu_queue.push_back(task),
                TaskKind::Io => self.io_queue.push_back(task),
            },
        }
    }

    /// Notes that the generator will send no more tasks.
    pub fn generator_finished(&mut self)
        requires
            old(self)@.wf(),
        ensures
            final(self)@ == old(self)@.with_generator_done(),
            final(self)@.wf(),
    {
        self.generator_done = true;
    }

    /// Tries to hand a task to the first idle worker under the current CPU use
    /// in `metrics`. On success the worker leaves the idle list and the pair is
    /// returned; the caller reserves the task's CPU and sends it to the worker.
    pub fn dispatch_next(&mut self, metrics: &SharedMetrics) -> (assigned: Option<(usize, Task)>)
        requires
            old(self)@.wf(),
            old(self)@.can_step(),
        ensures
            (final(self)@, assigned) == old(self)@.dispatch_step(metrics.current_cpu),
            final(self)@.wf(),
    {
        let ghost before = self@;
        let worker_id = match self.idle_workers.pop_front() {
            Some(w) => w,
            None => {
                return None;
            },
        };
        let next_task = match self.policy {
            Policy::Fifo => pop_fifo_task_if_possible(&mut self.shared_queue, metrics),
            Policy::Optimized => pop_optimized_task_if_possible(
                &mut self.cpu_queue,
                &mut self.io_queue,
                metrics,
                &mut self.optimized_turn,
            ),
        };
        match next_task {
            Some(task) => {
                proof {
                    assert(self@.idle_workers =~= before.idle_workers.drop_first());
                }
                Some((worker_id, task))
            },
            None => {
                self.idle_workers.push_front(worker_id);
                proof {
                    assert(self@.idle_workers =~= before.idle_workers);
                }
                None
            },
        }
    }

    /// Whether the run is over for `total_tasks` tasks.
    pub fn all_done(&self, total_tasks: usize) -> (done: bool)
        ensures
            done == self@.all_done(total_tasks as nat),
    {
        self.generator_done && self.shared_queue.len() == 0 && self.cpu_queue.len() == 0
            && self.io_queue.len() == 0 && self.completed_tasks.len() == total_tasks
    }

    /// The policy this dispatcher follows.
    pub fn policy(&self) -> (p: Policy)
        ensures
            p == self@.policy,
    {
        self.policy
    }

    /// Lengths of the shared, CPU and IO queues.
    pub fn queue_lengths(&self) -> (lens: (usize, usize, usize))
        ensures
            lens.0 == self@.shared_queue.len(),
            lens.1 == self@.cpu_queue.len(),
            lens.2 == self@.io_queue.len(),
    {
        (self.shared_queue.len(), self.cpu_queue.len(), self.io_queue.len())
    }

    /// Number of idle workers.
    pub fn idle_count(&self) -> (n: usize)
        ensures
            n == self@.idle_workers.len(),
    {
        self.idle_workers.len()
    }

    /// The optimized policy's turn counter.
    pub fn optimized_turn(&self) -> (t: usize)
        ensures
            t == self@.optimized_turn,
    {
        self.optimized_turn
    }

    /// The tasks reported finished so far, in the order they were reported.
    pub fn completed_tasks(&self) -> (done: &Vec<CompletedTask>)
        ensures
            done@ == self@.completed,
    {
        &self.completed_tasks
    }
}

} // verus!
