use vstd::prelude::*;

use crate::generator::{task_for_draws, CPU_TASK_COST, IO_COST_MAX, IO_COST_MIN};
use crate::metrics::MetricsView;
use crate::scheduler::{optimized_choice, DispatcherView, Policy, QueueChoice, prefers_io};
use crate::metrics::max_nat;
use crate::summary::{
    cpu_count, cpu_indicator, max_by, max_wait_ms, sum_by, total_turnaround_ms, total_wait_ms,
    elapsed_ms, turnaround_of, wait_of,
};
use crate::task::{CompletedTask, Task, TaskKind, GLOBAL_CPU_LIMIT, TASK_DURATION_MS};

verus! {

broadcast use vstd::seq_lib::group_to_multiset_ensures, vstd::seq_lib::lemma_multiset_commutative;

/// Finishing a task gives back exactly what starting it took: the CPU budget
/// and the active-worker count return to where they were.
pub proof fn lemma_release_undoes_reserve(m: MetricsView, cost: nat)
    ensures
        m.after_reserve(cost).after_release(cost) == m,
{
}

/// The dispatcher never starts a task that would push CPU use over the cap:
/// whatever a dispatch step hands out fits in the budget in use when it was
/// chosen, so reserving it leaves the metrics at or under `GLOBAL_CPU_LIMIT`.
pub proof fn lemma_dispatch_respects_cap(d: DispatcherView, m: MetricsView, cpu_now: u32)
    requires
        m.current_cpu == cpu_now,
    ensures
        d.dispatch_step(cpu_now).1 matches Some((w, t)) ==> {
            &&& cpu_now + t.cpu_cost <= GLOBAL_CPU_LIMIT
            &&& m.after_reserve(t.cpu_cost as nat).current_cpu <= GLOBAL_CPU_LIMIT
        },
{
}

/// Freeing a finished task never takes CPU use over the cap.
pub proof fn lemma_release_keeps_cap(m: MetricsView, cost: nat)
    requires
        m.current_cpu <= GLOBAL_CPU_LIMIT,
        cost <= m.current_cpu,
    ensures
        m.after_release(cost).current_cpu <= GLOBAL_CPU_LIMIT,
{
}

/// No task is lost or duplicated by a dispatch step: an assigned task leaves
/// the queues exactly once and its worker leaves the front of the idle list;
/// when nothing is assigned, the queues and the idle list are unchanged.
/// Completed tasks are never touched.
pub proof fn lemma_dispatch_conserves_tasks(d: DispatcherView, cpu_now: u32)
    requires
        d.wf(),
    ensures
        ({
            let (next, assigned) = d.dispatch_step(cpu_now);
            &&& next.completed == d.completed
            &&& next.policy == d.policy
            &&& match assigned {
                Some((w, t)) => {
                    &&& d.queued().to_multiset() == next.queued().to_multiset().insert(t)
                    &&& d.idle_workers == seq![w] + next.idle_workers
                },
                None => {
                    &&& next.queued() == d.queued()
                    &&& next.idle_workers == d.idle_workers
                },
            }
        }),
{
    let (next, assigned) = d.dispatch_step(cpu_now);
    if let Some((w, t)) = assigned {
        assert(d.idle_workers =~= seq![w] + next.idle_workers);
        let s = d.shared_queue;
        let c = d.cpu_queue;
        let i = d.io_queue;
        if d.policy == Policy::Fifo {
            assert(s =~= seq![t] + s.drop_first());
            assert(d.queued() =~= seq![t] + next.queued());
        } else if next.io_queue.len() < i.len() {
            assert(i =~= seq![t] + i.drop_first());
            assert(d.queued() =~= (s + c) + (seq![t] + i.drop_first()));
            assert(next.queued() =~= (s + c) + i.drop_first());
            assert((seq![t] + i.drop_first()).to_multiset() =~= i.drop_first().to_multiset().insert(t)) by {
                assert(seq![t] =~= Seq::<Task>::empty().push(t));
            }
        } else {
            assert(c =~= seq![t] + c.drop_first());
            assert(d.queued() =~= s + (seq![t] + c.drop_first()) + i);
            assert(next.queued() =~= s + c.drop_first() + i);
            assert((seq![t] + c.drop_first()).to_multiset() =~= c.drop_first().to_multiset().insert(t)) by {
                assert(seq![t] =~= Seq::<Task>::empty().push(t));
            }
        }
        assert(d.queued().to_multiset() =~= next.queued().to_multiset().insert(t)) by {
            assert(seq![t] =~= Seq::<Task>::empty().push(t));
        }
    } else {
        assert(next.queued() =~= d.queued());
    }
}

/// An arriving task joins the waiting tasks exactly once.
pub proof fn lemma_arrival_adds_task(d: DispatcherView, task: Task)
    ensures
        d.with_arrival(task).queued().to_multiset() == d.queued().to_multiset().insert(task),
        d.with_arrival(task).idle_workers == d.idle_workers,
        d.with_arrival(task).completed == d.completed,
{
    let next = d.with_arrival(task);
    let s = d.shared_queue;
    let c = d.cpu_queue;
    let i = d.io_queue;
    if d.policy == Policy::Fifo {
        assert(next.queued() =~= s.push(task) + c + i);
    } else if task.kind == TaskKind::Cpu {
        assert(next.queued() =~= s + c.push(task) + i);
    } else {
        assert(next.queued() =~= (s + c + i).push(task));
    }
}


/// Something the dispatcher is told, or asked to do.
pub enum Event {
    WorkerReady(usize),
    TaskArrived(Task),
    TaskCompleted(CompletedTask),
    GeneratorFinished,
    /// One dispatch attempt while the given CPU budget is in use.
    Dispatch(u32),
}

/// The state after `event`, and the tasks it handed to workers.
pub open spec fn apply_event(d: DispatcherView, event: Event) -> (DispatcherView, Seq<Task>) {
    match event {
        Event::WorkerReady(w) => (d.with_ready_worker(w), Seq::empty()),
        Event::TaskArrived(t) => (d.with_arrival(t), Seq::empty()),
        Event::TaskCompleted(c) => (d.with_completion(c), Seq::empty()),
        Event::GeneratorFinished => (d.with_generator_done(), Seq::empty()),
        Event::Dispatch(cpu_now) => {
            let (next, assigned) = d.dispatch_step(cpu_now);
            match assigned {
                Some((w, t)) => (next, seq![t]),
                None => (next, Seq::empty()),
            }
        },
    }
}

/// The state after `events` in order, and the tasks handed out, in order.
pub open spec fn run_events(d: DispatcherView, events: Seq<Event>) -> (DispatcherView, Seq<Task>)
    decreases events.len(),
{
    if events.len() == 0 {
        (d, Seq::empty())
    } else {
        let (mid, out) = run_events(d, events.drop_last());
        let (end, more) = apply_event(mid, events.last());
        (end, out + more)
    }
}

/// The tasks that arrive in `events`, in order.
pub open spec fn arrivals(events: Seq<Event>) -> Seq<Task>
    decreases events.len(),
{
    if events.len() == 0 {
        Seq::empty()
    } else {
        match events.last() {
            Event::TaskArrived(t) => arrivals(events.drop_last()).push(t),
            _ => arrivals(events.drop_last()),
        }
    }
}

/// The tasks of kind `kind` in `s`, in order.
pub open spec fn of_kind(s: Seq<Task>, kind: TaskKind) -> Seq<Task>
    decreases s.len(),
{
    if s.len() == 0 {
        Seq::empty()
    } else if s.last().kind == kind {
        of_kind(s.drop_last(), kind).push(s.last())
    } else {
        of_kind(s.drop_last(), kind)
    }
}

proof fn lemma_of_kind_append(a: Seq<Task>, b: Seq<Task>, kind: TaskKind)
    ensures
        of_kind(a + b, kind) == of_kind(a, kind) + of_kind(b, kind),
    decreases b.len(),
{
    if b.len() == 0 {
        assert(a + b =~= a);
        assert(of_kind(a, kind) + of_kind(b, kind) =~= of_kind(a, kind));
    } else {
        lemma_of_kind_append(a, b.drop_last(), kind);
        assert((a + b).drop_last() =~= a + b.drop_last());
        if b.last().kind == kind {
            assert(of_kind(a, kind) + of_kind(b.drop_last(), kind).push(b.last())
                =~= (of_kind(a, kind) + of_kind(b.drop_last(), kind)).push(b.last()));
        }
    }
}

/// Every event keeps the dispatcher well formed, and none changes the policy.
pub proof fn lemma_event_preserves_wf(d: DispatcherView, event: Event)
    requires
        d.wf(),
    ensures
        apply_event(d, event).0.wf(),
        apply_event(d, event).0.policy == d.policy,
{
}

/// Running any events keeps the dispatcher well formed and its policy fixed.
pub proof fn lemma_run_preserves_wf(d: DispatcherView, events: Seq<Event>)
    requires
        d.wf(),
    ensures
        run_events(d, events).0.wf(),
        run_events(d, events).0.policy == d.policy,
    decreases events.len(),
{
    if events.len() > 0 {
        lemma_run_preserves_wf(d, events.drop_last());
        let (mid, out) = run_events(d, events.drop_last());
        lemma_event_preserves_wf(mid, events.last());
    }
}

/// FIFO hands out tasks in exactly the order they arrived: over any run, the
/// tasks handed out followed by those still waiting are the tasks that were
/// waiting at the start followed by those that arrived.
pub proof fn lemma_fifo_serves_in_arrival_order(d: DispatcherView, events: Seq<Event>)
    requires
        d.wf(),
        d.policy == Policy::Fifo,
    ensures
        run_events(d, events).1 + run_events(d, events).0.shared_queue == d.shared_queue
            + arrivals(events),
    decreases events.len(),
{
    if events.len() > 0 {
        let pre = events.drop_last();
        lemma_fifo_serves_in_arrival_order(d, pre);
        lemma_run_preserves_wf(d, pre);
        let (mid, out) = run_events(d, pre);
        let (end, more) = apply_event(mid, events.last());
        match events.last() {
            Event::TaskArrived(t) => {
                assert(out + more + end.shared_queue =~= (out + mid.shared_queue).push(t));
                assert(d.shared_queue + arrivals(events) =~= (d.shared_queue + arrivals(pre)).push(t));
            },
            Event::Dispatch(cpu_now) => {
                if more.len() > 0 {
                    assert(mid.shared_queue =~= more + end.shared_queue);
                    assert(out + more + end.shared_queue =~= out + mid.shared_queue);
                } else {
                    assert(out + more =~= out);
                }
            },
            _ => {
                assert(out + more =~= out);
            },
        }
    }
}

/// The optimized policy serves each kind in arrival order: over any run, the
/// IO tasks handed out followed by the IO queue are the IO tasks waiting at the
/// start followed by the IO tasks that arrived, and likewise for CPU tasks.
pub proof fn lemma_optimized_serves_each_kind_in_arrival_order(
    d: DispatcherView,
    events: Seq<Event>,
)
    requires
        d.wf(),
        d.policy == Policy::Optimized,
    ensures
        of_kind(run_events(d, events).1, TaskKind::Io) + run_events(d, events).0.io_queue
            == d.io_queue + of_kind(arrivals(events), TaskKind::Io),
        of_kind(run_events(d, events).1, TaskKind::Cpu) + run_events(d, events).0.cpu_queue
            == d.cpu_queue + of_kind(arrivals(events), TaskKind::Cpu),
    decreases events.len(),
{
    if events.len() > 0 {
        let pre = events.drop_last();
        lemma_optimized_serves_each_kind_in_arrival_order(d, pre);
        lemma_run_preserves_wf(d, pre);
        let (mid, out) = run_events(d, pre);
        let (end, more) = apply_event(mid, events.last());
        lemma_of_kind_append(out, more, TaskKind::Io);
        lemma_of_kind_append(out, more, TaskKind::Cpu);
        match events.last() {
            Event::TaskArrived(t) => {
                assert(more =~= Seq::<Task>::empty());
                assert(out + more =~= out);
                assert(of_kind(more, TaskKind::Io) =~= Seq::<Task>::empty());
                assert(of_kind(more, TaskKind::Cpu) =~= Seq::<Task>::empty());
                assert(arrivals(events) == arrivals(pre).push(t));
                assert(arrivals(events).drop_last() =~= arrivals(pre));
                if t.kind == TaskKind::Io {
                    assert(of_kind(out, TaskKind::Io) + end.io_queue
                        =~= (of_kind(out, TaskKind::Io) + mid.io_queue).push(t));
                } else {
                    assert(of_kind(out, TaskKind::Cpu) + end.cpu_queue
                        =~= (of_kind(out, TaskKind::Cpu) + mid.cpu_queue).push(t));
                }
            },
            Event::Dispatch(cpu_now) => {
                if more.len() > 0 {
                    let t = more[0];
                    assert(more =~= Seq::<Task>::empty().push(t));
                    assert(more.drop_last() =~= Seq::<Task>::empty());
                    assert(of_kind(more.drop_last(), TaskKind::Io) =~= Seq::<Task>::empty());
                    assert(of_kind(more.drop_last(), TaskKind::Cpu) =~= Seq::<Task>::empty());
                    if end.io_queue.len() < mid.io_queue.len() {
                        assert(t.kind == TaskKind::Io);
                        assert(mid.io_queue =~= more + end.io_queue);
                        assert(of_kind(more, TaskKind::Io) =~= more);
                        assert(of_kind(more, TaskKind::Cpu) =~= Seq::<Task>::empty());
                        assert(of_kind(out, TaskKind::Io) + more + end.io_queue
                            =~= of_kind(out, TaskKind::Io) + mid.io_queue);
                        assert(of_kind(out, TaskKind::Cpu) + Seq::<Task>::empty()
                            =~= of_kind(out, TaskKind::Cpu));
                    } else {
                        assert(t.kind == TaskKind::Cpu);
                        assert(mid.cpu_queue =~= more + end.cpu_queue);
                        assert(of_kind(more, TaskKind::Cpu) =~= more);
                        assert(of_kind(more, TaskKind::Io) =~= Seq::<Task>::empty());
                        assert(of_kind(out, TaskKind::Cpu) + more + end.cpu_queue
                            =~= of_kind(out, TaskKind::Cpu) + mid.cpu_queue);
                        assert(of_kind(out, TaskKind::Io) + Seq::<Task>::empty()
                            =~= of_kind(out, TaskKind::Io));
                    }
                } else {
                    assert(more =~= Seq::<Task>::empty());
                    assert(out + more =~= out);
                }
            },
            _ => {
                assert(more =~= Seq::<Task>::empty());
                assert(out + more =~= out);
            },
        }
    }
}


/// A worker that reports ready is idle afterwards, and a second report from
/// the same worker changes nothing.
pub proof fn lemma_worker_ready_idempotent(d: DispatcherView, worker_id: usize)
    ensures
        d.with_ready_worker(worker_id).idle_workers.contains(worker_id),
        d.with_ready_worker(worker_id).with_ready_worker(worker_id) == d.with_ready_worker(
            worker_id,
        ),
{
    let once = d.with_ready_worker(worker_id);
    if !d.idle_workers.contains(worker_id) {
        assert(once.idle_workers[once.idle_workers.len() - 1] == worker_id);
    }
}

/// The optimized policy prefers IO on exactly three of any four consecutive
/// turns, and so gives CPU tasks first pick once in every four.
pub proof fn lemma_optimized_weighting(turn: int)
    requires
        turn >= 0,
    ensures
        (if prefers_io(turn) { 1int } else { 0int }) + (if prefers_io(turn + 1) { 1int } else { 0int })
            + (if prefers_io(turn + 2) { 1int } else { 0int }) + (if prefers_io(turn + 3) { 1int } else { 0int }) == 3,
{
}

/// The largest total queue length on record never drops, and after any update
/// or sample it is at least the total just published or sampled.
pub proof fn lemma_max_queue_len_tracks_peak(
    m: MetricsView,
    shared: nat,
    cpu: nat,
    io: nat,
    time_ms: u128,
)
    ensures
        m.after_queue_update(shared, cpu, io).max_queue_len >= m.max_queue_len,
        m.after_queue_update(shared, cpu, io).max_queue_len >= shared + cpu + io,
        m.after_sample(time_ms).max_queue_len >= m.max_queue_len,
        m.after_sample(time_ms).max_queue_len >= m.total_queue_len(),
{
}

/// Every generated task runs for `TASK_DURATION_MS` and is either an IO task
/// costing between `IO_COST_MIN` and `IO_COST_MAX` or a CPU task costing
/// `CPU_TASK_COST`; with no CPU share every task is IO, with no IO share every
/// task is CPU.
pub proof fn lemma_generated_task_shape(
    id: usize,
    arrival_ns: u64,
    io_ratio: u32,
    cpu_ratio: u32,
    random_value: u32,
    io_cost: u32,
)
    requires
        random_value < io_ratio + cpu_ratio,
        IO_COST_MIN <= io_cost <= IO_COST_MAX,
    ensures
        ({
            let t = task_for_draws(id, arrival_ns, io_ratio, random_value, io_cost);
            &&& t.id == id
            &&& t.arrival_ns == arrival_ns
            &&& t.duration_ms == TASK_DURATION_MS
            &&& t.kind == TaskKind::Io ==> IO_COST_MIN <= t.cpu_cost <= IO_COST_MAX
            &&& t.kind == TaskKind::Cpu ==> t.cpu_cost == CPU_TASK_COST
            &&& cpu_ratio == 0 ==> t.kind == TaskKind::Io
            &&& io_ratio == 0 ==> t.kind == TaskKind::Cpu
        }),
{
}

/// Counts the IO tasks among completed tasks.
pub open spec fn io_count(s: Seq<CompletedTask>) -> nat
    decreases s.len(),
{
    if s.len() == 0 {
        0
    } else {
        io_count(s.drop_last()) + if s.last().task.kind == TaskKind::Io {
            1nat
        } else {
            0nat
        }
    }
}

/// Every completed task is counted once, as CPU or as IO: the summary's IO
/// count is the number of IO tasks.
pub proof fn lemma_completed_kinds_partition(s: Seq<CompletedTask>)
    ensures
        cpu_count(s) + io_count(s) == s.len(),
    decreases s.len(),
{
    if s.len() > 0 {
        lemma_completed_kinds_partition(s.drop_last());
    }
}


proof fn lemma_sum_by_remove<A>(s: Seq<A>, f: spec_fn(A) -> nat, k: int)
    requires
        0 <= k < s.len(),
    ensures
        sum_by(s, f) == sum_by(s.remove(k), f) + f(s[k]),
        max_by(s, f) == max_nat(max_by(s.remove(k), f), f(s[k])),
    decreases s.len(),
{
    if k == s.len() - 1 {
        assert(s.remove(k) =~= s.drop_last());
    } else {
        lemma_sum_by_remove(s.drop_last(), f, k);
        assert(s.remove(k).drop_last() =~= s.drop_last().remove(k));
        assert(s.remove(k).last() == s.last());
    }
}

/// Sums and maxima over a sequence depend only on which elements it holds, not
/// on their order.
proof fn lemma_sum_by_reorder<A>(s: Seq<A>, t: Seq<A>, f: spec_fn(A) -> nat)
    requires
        s.to_multiset() == t.to_multiset(),
    ensures
        sum_by(s, f) == sum_by(t, f),
        max_by(s, f) == max_by(t, f),
        s.len() == t.len(),
    decreases s.len(),
{
    broadcast use vstd::multiset::group_multiset_axioms;

    assert(s.len() == s.to_multiset().len());
    assert(t.len() == t.to_multiset().len());
    if s.len() > 0 {
        let x = s.last();
        assert(s =~= s.drop_last().push(x));
        assert(s.to_multiset() =~= s.drop_last().to_multiset().insert(x));
        assert(s.to_multiset().count(x) > 0);
        assert(t.contains(x));
        let k = choose|k: int| 0 <= k < t.len() && t[k] == x;
        assert(t.remove(k).to_multiset() =~= t.to_multiset().remove(x));
        assert(s.drop_last().to_multiset() =~= s.to_multiset().remove(x));
        lemma_sum_by_reorder(s.drop_last(), t.remove(k), f);
        lemma_sum_by_remove(t, f, k);
    }
}

/// The summary does not depend on the order in which tasks were reported
/// finished: any reordering of the completed tasks gives the same count of
/// tasks and of CPU tasks, the same wait and turnaround totals and the same
/// longest wait.
pub proof fn lemma_summary_ignores_completion_order(s: Seq<CompletedTask>, p: Seq<CompletedTask>)
    requires
        s.to_multiset() == p.to_multiset(),
    ensures
        s.len() == p.len(),
        cpu_count(s) == cpu_count(p),
        total_wait_ms(s) == total_wait_ms(p),
        total_turnaround_ms(s) == total_turnaround_ms(p),
        max_wait_ms(s) == max_wait_ms(p),
{
    lemma_sum_by_reorder(s, p, cpu_indicator());
    lemma_sum_by_reorder(s, p, wait_of());
    lemma_sum_by_reorder(s, p, turnaround_of());
}


/// The optimized pick serves the CPU queue first on every turn `t` with
/// `t % 4 == 3` and the IO queue first on every other turn: the preferred
/// queue's front task is taken whenever it fits under the cap, the other
/// queue's front task only when the preferred one has none that fits, and
/// nothing when neither fits.
pub proof fn lemma_optimized_pick_by_turn(
    cpu_queue: Seq<Task>,
    io_queue: Seq<Task>,
    cpu_now: u32,
    turn: int,
)
    requires
        turn >= 0,
    ensures
        ({
            let cpu_fits = cpu_queue.len() > 0 && cpu_now + cpu_queue[0].cpu_cost <= GLOBAL_CPU_LIMIT;
            let io_fits = io_queue.len() > 0 && cpu_now + io_queue[0].cpu_cost <= GLOBAL_CPU_LIMIT;
            let choice = optimized_choice(cpu_queue, io_queue, cpu_now, turn);
            &&& turn % 4 == 3 && cpu_fits ==> choice == QueueChoice::CpuQueue
            &&& turn % 4 == 3 && !cpu_fits && io_fits ==> choice == QueueChoice::IoQueue
            &&& turn % 4 != 3 && io_fits ==> choice == QueueChoice::IoQueue
            &&& turn % 4 != 3 && !io_fits && cpu_fits ==> choice == QueueChoice::CpuQueue
            &&& !cpu_fits && !io_fits ==> choice == QueueChoice::Neither
        }),
{
}

/// Elapsed milliseconds are the floor of the whole nanosecond difference, for
/// every difference, and 0 when the end lies before the start.
pub proof fn lemma_elapsed_ms_is_floor(from_ns: u64, to_ns: u64)
    ensures
        from_ns <= to_ns ==> elapsed_ms(from_ns, to_ns) * 1_000_000 <= to_ns - from_ns < (
        elapsed_ms(from_ns, to_ns) + 1) * 1_000_000,
        to_ns < from_ns ==> elapsed_ms(from_ns, to_ns) == 0,
{
}

/// The run is over exactly when the generator is done, no task waits in any
/// queue, and the number of completed tasks is the total.
pub proof fn lemma_all_done_means_nothing_left(d: DispatcherView, total: nat)
    ensures
        d.all_done(total) <==> (d.generator_done && d.queued().len() == 0 && d.completed.len()
            == total),
{
}

/// Every monitor sample is kept: the sample list grows by exactly one, the
/// earlier samples stay, and the new one records the time, the active workers,
/// the CPU in use and the total queue length of the state it was taken in.
pub proof fn lemma_sample_always_recorded(m: MetricsView, time_ms: u128)
    requires
        m.active_workers <= usize::MAX,
        m.current_cpu <= u32::MAX,
        m.shared_queue_len + m.cpu_queue_len + m.io_queue_len <= usize::MAX,
    ensures
        ({
            let after = m.after_sample(time_ms).samples;
            &&& after.len() == m.samples.len() + 1
            &&& after.subrange(0, m.samples.len() as int) == m.samples
            &&& after.last().time_ms == time_ms
            &&& after.last().active_workers == m.active_workers
            &&& after.last().cpu_usage == m.current_cpu
            &&& after.last().total_queue_len == m.shared_queue_len + m.cpu_queue_len
                + m.io_queue_len
        }),
{
    assert(m.after_sample(time_ms).samples.subrange(0, m.samples.len() as int) =~= m.samples);
}

/// A drawn task is IO-bound exactly when the draw is below `io_ratio`; an IO
/// task costs the drawn IO cost and a CPU task costs `CPU_TASK_COST`.
pub proof fn lemma_draw_decides_kind(
    id: usize,
    arrival_ns: u64,
    io_ratio: u32,
    random_value: u32,
    io_cost: u32,
)
    ensures
        ({
            let t = task_for_draws(id, arrival_ns, io_ratio, random_value, io_cost);
            &&& (t.kind == TaskKind::Io) <==> random_value < io_ratio
            &&& random_value < io_ratio ==> t.cpu_cost == io_cost
            &&& random_value >= io_ratio ==> t.kind == TaskKind::Cpu && t.cpu_cost
                == CPU_TASK_COST
        }),
{
}

} // verus!
