# task_dispatcher

A verified task dispatcher for a simulated worker pool. Tasks of two kinds
(CPU-bound and IO-bound) arrive over time, wait in queues, and are handed to a
fixed pool of workers under a global CPU cap, following either a FIFO policy or
an optimized policy that keeps separate CPU and IO queues and prefers IO three
turns out of four.

- `src/task.rs` – tasks, completed tasks, the CPU cap.
- `src/metrics.rs` – the counters shared by dispatcher, workers and monitor.
- `src/scheduler.rs` – the two policies and the dispatcher's state machine.
- `src/generator.rs` – seeded task generation (through `rand`).
- `src/summary.rs` – integer totals of an experiment.
- `src/laws.rs` – properties that span calls: the CPU cap, task conservation,
  arrival order, the optimized policy's weighting.
- `app/main.rs` – the experiments themselves: threads, channels, clocks,
  floating-point averages and printing.
