use std::collections::VecDeque;

use task_dispatcher::generator::{task_from_draws, TaskGenerator, CPU_TASK_COST, IO_COST_MAX, IO_COST_MIN};
use task_dispatcher::metrics::{update_queue_metrics, SharedMetrics};
use task_dispatcher::scheduler::{
    pop_fifo_task_if_possible, pop_optimized_task_if_possible, Dispatcher, Policy,
};
use task_dispatcher::summary::{build_summary, elapsed_millis};
use task_dispatcher::task::{
    fits_cpu_limit, CompletedTask, Task, TaskKind, GLOBAL_CPU_LIMIT, TASK_DURATION_MS,
};

fn task(id: usize, kind: TaskKind, cpu_cost: u32) -> Task {
    Task { id, arrival_ns: 0, kind, duration_ms: TASK_DURATION_MS, cpu_cost }
}

fn metrics_with_cpu(cpu: u32) -> SharedMetrics {
    let mut m = SharedMetrics::new();
    m.current_cpu = cpu;
    m
}

#[test]
fn fits_cpu_limit_boundaries() {
    assert!(fits_cpu_limit(65, 35));
    assert!(!fits_cpu_limit(66, 35));
    assert!(!fits_cpu_limit(u32::MAX, 1));
    assert!(fits_cpu_limit(0, GLOBAL_CPU_LIMIT));
}

#[test]
fn fifo_takes_front_when_it_fits() {
    let mut q = VecDeque::new();
    q.push_back(task(0, TaskKind::Cpu, 35));
    q.push_back(task(1, TaskKind::Io, 5));
    let next = pop_fifo_task_if_possible(&mut q, &metrics_with_cpu(65));
    assert_eq!(next, Some(task(0, TaskKind::Cpu, 35)));
    assert_eq!(q.len(), 1);
    assert_eq!(q[0].id, 1);
}

#[test]
fn fifo_leaves_queue_when_front_over_cap() {
    let mut q = VecDeque::new();
    q.push_back(task(0, TaskKind::Cpu, 35));
    q.push_back(task(1, TaskKind::Io, 5));
    let next = pop_fifo_task_if_possible(&mut q, &metrics_with_cpu(70));
    assert_eq!(next, None);
    assert_eq!(q.len(), 2);
    assert_eq!(q[0].id, 0);
}

#[test]
fn fifo_on_empty_queue() {
    let mut q: VecDeque<Task> = VecDeque::new();
    assert_eq!(pop_fifo_task_if_possible(&mut q, &metrics_with_cpu(0)), None);
}

#[test]
fn optimized_prefers_io_then_cpu() {
    let mut cpu_q = VecDeque::new();
    let mut io_q = VecDeque::new();
    for i in 0..4 {
        cpu_q.push_back(task(i, TaskKind::Cpu, 35));
        io_q.push_back(task(10 + i, TaskKind::Io, 5));
    }
    let m = metrics_with_cpu(0);
    let mut turn: usize = 0;
    let picked: Vec<usize> = (0..4)
        .map(|_| pop_optimized_task_if_possible(&mut cpu_q, &mut io_q, &m, &mut turn).unwrap().id)
        .collect();
    assert_eq!(picked, vec![10, 11, 12, 0]);
    assert_eq!(turn, 4);
}

#[test]
fn optimized_falls_back_to_other_queue() {
    let mut cpu_q = VecDeque::new();
    let mut io_q = VecDeque::new();
    cpu_q.push_back(task(0, TaskKind::Cpu, 35));
    let m = metrics_with_cpu(0);
    let mut turn: usize = 0;
    let next = pop_optimized_task_if_possible(&mut cpu_q, &mut io_q, &m, &mut turn);
    assert_eq!(next.map(|t| t.id), Some(0));
    assert_eq!(turn, 1);

    // On a CPU turn whose CPU task does not fit, an IO task that fits is taken.
    cpu_q.push_back(task(1, TaskKind::Cpu, 35));
    io_q.push_back(task(2, TaskKind::Io, 10));
    let mut turn: usize = 3;
    let next = pop_optimized_task_if_possible(&mut cpu_q, &mut io_q, &metrics_with_cpu(80), &mut turn);
    assert_eq!(next.map(|t| t.id), Some(2));
    assert_eq!(cpu_q.len(), 1);
    assert_eq!(turn, 4);
}

#[test]
fn optimized_nothing_fits_still_advances_turn() {
    let mut cpu_q = VecDeque::new();
    let mut io_q = VecDeque::new();
    cpu_q.push_back(task(0, TaskKind::Cpu, 35));
    io_q.push_back(task(1, TaskKind::Io, 15));
    let mut turn: usize = 5;
    let next = pop_optimized_task_if_possible(&mut cpu_q, &mut io_q, &metrics_with_cpu(90), &mut turn);
    assert_eq!(next, None);
    assert_eq!((cpu_q.len(), io_q.len()), (1, 1));
    assert_eq!(turn, 6);
}

#[test]
fn queue_metrics_keep_peak() {
    let mut m = SharedMetrics::new();
    update_queue_metrics(&mut m, 3, 4, 5);
    assert_eq!((m.shared_queue_len, m.cpu_queue_len, m.io_queue_len, m.max_queue_len), (3, 4, 5, 12));
    update_queue_metrics(&mut m, 1, 0, 0);
    assert_eq!((m.shared_queue_len, m.cpu_queue_len, m.io_queue_len, m.max_queue_len), (1, 0, 0, 12));
}

#[test]
fn release_undoes_reserve() {
    let mut m = metrics_with_cpu(20);
    m.active_workers = 2;
    m.reserve(35);
    assert_eq!((m.current_cpu, m.active_workers), (55, 3));
    m.release(35);
    assert_eq!((m.current_cpu, m.active_workers), (20, 2));
}

#[test]
fn monitor_sample_records_state() {
    let mut m = SharedMetrics::new();
    update_queue_metrics(&mut m, 2, 0, 0);
    m.reserve(15);
    m.cpu_queue_len = 7;
    m.record_sample(42);
    assert_eq!(m.max_queue_len, 9);
    assert_eq!(m.samples.len(), 1);
    let s = m.samples[0];
    assert_eq!((s.time_ms, s.active_workers, s.cpu_usage, s.total_queue_len), (42, 1, 15, 9));
}

#[test]
fn worker_ready_is_idempotent() {
    let mut d = Dispatcher::new(Policy::Fifo);
    d.worker_ready(3);
    d.worker_ready(3);
    d.worker_ready(1);
    assert_eq!(d.idle_count(), 2);
}

#[test]
fn arrivals_are_routed_by_policy() {
    let mut fifo = Dispatcher::new(Policy::Fifo);
    fifo.task_arrived(task(0, TaskKind::Cpu, 35));
    fifo.task_arrived(task(1, TaskKind::Io, 5));
    assert_eq!(fifo.queue_lengths(), (2, 0, 0));

    let mut opt = Dispatcher::new(Policy::Optimized);
    opt.task_arrived(task(0, TaskKind::Cpu, 35));
    opt.task_arrived(task(1, TaskKind::Io, 5));
    opt.task_arrived(task(2, TaskKind::Io, 6));
    assert_eq!(opt.queue_lengths(), (0, 1, 2));
}

#[test]
fn fifo_dispatches_in_arrival_order_under_cap() {
    let mut d = Dispatcher::new(Policy::Fifo);
    let mut m = SharedMetrics::new();
    for w in 0..8 {
        d.worker_ready(w);
    }
    for id in 0..5 {
        d.task_arrived(task(id, TaskKind::Cpu, 35));
    }
    let mut order = Vec::new();
    while let Some((w, t)) = d.dispatch_next(&m) {
        m.reserve(t.cpu_cost);
        assert!(m.current_cpu <= GLOBAL_CPU_LIMIT);
        order.push((w, t.id));
    }
    // Two CPU tasks use 70 of the 100 budget; a third would exceed it.
    assert_eq!(order, vec![(0, 0), (1, 1)]);
    assert_eq!(d.idle_count(), 6);
    assert_eq!(d.queue_lengths(), (3, 0, 0));

    m.release(35);
    let next = d.dispatch_next(&m);
    assert_eq!(next.map(|(w, t)| (w, t.id)), Some((2, 2)));
}

#[test]
fn dispatch_without_idle_worker_does_nothing() {
    let mut d = Dispatcher::new(Policy::Optimized);
    d.task_arrived(task(0, TaskKind::Io, 5));
    assert_eq!(d.dispatch_next(&SharedMetrics::new()), None);
    assert_eq!(d.queue_lengths(), (0, 0, 1));
    assert_eq!(d.optimized_turn(), 0);
}

#[test]
fn optimized_dispatcher_turns_and_kinds() {
    let mut d = Dispatcher::new(Policy::Optimized);
    let m = SharedMetrics::new();
    d.worker_ready(0);
    d.task_arrived(task(0, TaskKind::Cpu, 35));
    d.task_arrived(task(1, TaskKind::Io, 5));
    let first = d.dispatch_next(&m);
    assert_eq!(first.map(|(w, t)| (w, t.id)), Some((0, 1)));
    assert_eq!(d.optimized_turn(), 1);
    assert_eq!(d.dispatch_next(&m), None);
    assert_eq!(d.optimized_turn(), 1);
}

#[test]
fn run_is_done_only_when_everything_is() {
    let mut d = Dispatcher::new(Policy::Fifo);
    let t = task(0, TaskKind::Io, 5);
    d.task_arrived(t);
    d.worker_ready(0);
    assert!(!d.all_done(1));
    let (w, t) = d.dispatch_next(&SharedMetrics::new()).unwrap();
    d.task_completed(CompletedTask { task: t, start_ns: 0, finish_ns: 1, worker_id: w });
    assert!(!d.all_done(1));
    d.generator_finished();
    assert!(d.all_done(1));
    assert!(!d.all_done(2));
    assert_eq!(d.completed_tasks().len(), 1);
}

#[test]
fn elapsed_millis_floors_and_saturates() {
    assert_eq!(elapsed_millis(1_000_000, 3_999_999), 2);
    assert_eq!(elapsed_millis(5, 4), 0);
    assert_eq!(elapsed_millis(0, 0), 0);
}

#[test]
fn summary_totals() {
    let done = vec![
        CompletedTask {
            task: Task { id: 0, arrival_ns: 1_000_000, kind: TaskKind::Cpu, duration_ms: 200, cpu_cost: 35 },
            start_ns: 11_500_000,
            finish_ns: 211_500_000,
            worker_id: 0,
        },
        CompletedTask {
            task: Task { id: 1, arrival_ns: 2_000_000, kind: TaskKind::Io, duration_ms: 200, cpu_cost: 7 },
            start_ns: 32_000_000,
            finish_ns: 232_999_999,
            worker_id: 1,
        },
        CompletedTask {
            task: Task { id: 2, arrival_ns: 3_000_000, kind: TaskKind::Io, duration_ms: 200, cpu_cost: 9 },
            start_ns: 3_000_000,
            finish_ns: 203_000_000,
            worker_id: 2,
        },
    ];
    let mut m = SharedMetrics::new();
    m.reserve(35);
    m.record_sample(10);
    m.reserve(7);
    update_queue_metrics(&mut m, 4, 0, 0);
    m.record_sample(20);
    let s = build_summary("run", Policy::Fifo, &done, &m, 500);
    assert_eq!(s.experiment_name, "run");
    assert_eq!(s.policy, Policy::Fifo);
    assert_eq!((s.total_completed, s.cpu_completed, s.io_completed), (3, 1, 2));
    assert_eq!(s.makespan_ms, 500);
    assert_eq!(s.total_wait_ms, 10 + 30 + 0);
    assert_eq!(s.total_turnaround_ms, 210 + 230 + 200);
    assert_eq!(s.max_wait_ms, 30);
    assert_eq!(s.sample_count, 2);
    assert_eq!(s.total_active_workers, 1 + 2);
    assert_eq!(s.total_cpu_usage, 35 + 42);
    assert_eq!(s.max_queue_len, 4);
}

#[test]
fn summary_of_nothing() {
    let s = build_summary("empty", Policy::Optimized, &Vec::new(), &SharedMetrics::new(), 0);
    assert_eq!((s.total_completed, s.cpu_completed, s.io_completed), (0, 0, 0));
    assert_eq!((s.total_wait_ms, s.max_wait_ms), (0, 0));
    assert_eq!(s.sample_count, 1);
}

#[test]
fn task_from_draws_by_ratio() {
    let io = task_from_draws(4, 9, 700, 699, 12);
    assert_eq!(io, Task { id: 4, arrival_ns: 9, kind: TaskKind::Io, duration_ms: 200, cpu_cost: 12 });
    let cpu = task_from_draws(5, 9, 700, 700, 12);
    assert_eq!(cpu, Task { id: 5, arrival_ns: 9, kind: TaskKind::Cpu, duration_ms: 200, cpu_cost: CPU_TASK_COST });
}

fn draw_all(seed: u64, io_ratio: u32, cpu_ratio: u32, n: usize) -> Vec<Task> {
    let mut g = TaskGenerator::new(seed, io_ratio, cpu_ratio);
    (0..n).map(|id| g.next_task(id, id as u64)).collect()
}

#[test]
fn generated_tasks_have_their_kind_costs() {
    let tasks = draw_all(42, 700, 300, 1000);
    for (id, t) in tasks.iter().enumerate() {
        assert_eq!(t.id, id);
        assert_eq!(t.duration_ms, TASK_DURATION_MS);
        match t.kind {
            TaskKind::Io => assert!(IO_COST_MIN <= t.cpu_cost && t.cpu_cost <= IO_COST_MAX),
            TaskKind::Cpu => assert_eq!(t.cpu_cost, CPU_TASK_COST),
        }
    }
    let io = tasks.iter().filter(|t| t.kind == TaskKind::Io).count();
    assert!(io > 600 && io < 800);
    let distinct_io_costs: std::collections::BTreeSet<u32> =
        tasks.iter().filter(|t| t.kind == TaskKind::Io).map(|t| t.cpu_cost).collect();
    assert!(distinct_io_costs.len() > 5);
}

#[test]
fn generator_ratio_extremes() {
    assert!(draw_all(7, 10, 0, 200).iter().all(|t| t.kind == TaskKind::Io));
    assert!(draw_all(7, 0, 10, 200).iter().all(|t| t.kind == TaskKind::Cpu));
}

#[test]
fn same_seed_same_tasks() {
    assert_eq!(draw_all(99, 800, 200, 300), draw_all(99, 800, 200, 300));
    assert_ne!(draw_all(99, 800, 200, 300), draw_all(42, 800, 200, 300));
}

#[test]
fn summary_ignores_completion_order() {
    let mk = |id: usize, kind: TaskKind, arrival_ns: u64, start_ns: u64, finish_ns: u64| CompletedTask {
        task: Task { id, arrival_ns, kind, duration_ms: 200, cpu_cost: 10 },
        start_ns,
        finish_ns,
        worker_id: id,
    };
    let a = mk(0, TaskKind::Cpu, 0, 5_000_000, 205_000_000);
    let b = mk(1, TaskKind::Io, 1_000_000, 41_000_000, 241_000_000);
    let c = mk(2, TaskKind::Io, 2_000_000, 9_500_000, 209_500_000);
    let m = SharedMetrics::new();
    let s1 = build_summary("x", Policy::Fifo, &vec![a, b, c], &m, 7);
    let s2 = build_summary("x", Policy::Fifo, &vec![c, a, b], &m, 7);
    assert_eq!((s1.total_completed, s1.cpu_completed, s1.io_completed), (s2.total_completed, s2.cpu_completed, s2.io_completed));
    assert_eq!((s1.total_wait_ms, s1.total_turnaround_ms, s1.max_wait_ms), (s2.total_wait_ms, s2.total_turnaround_ms, s2.max_wait_ms));
    assert_eq!((s1.total_wait_ms, s1.max_wait_ms), (5 + 40 + 7, 40));
}
