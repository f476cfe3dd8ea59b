use vstd::prelude::*;

verus! {

/// One observation of the system taken by the monitor.
#[derive(Clone, Copy, Debug)]
pub struct MonitorSample {
    pub time_ms: u128,
    pub active_workers: usize,
    pub cpu_usage: u32,
    pub total_queue_len: usize,
}

/// Values shared between the dispatcher, the workers and the monitor.
pub struct SharedMetrics {
    pub current_cpu: u32,
    pub active_workers: usize,
    pub shared_queue_len: usize,
    pub cpu_queue_len: usize,
    pub io_queue_len: usize,
    pub max_queue_len: usize,
    pub samples: Vec<MonitorSample>,
}

/// The mathematical value of a `SharedMetrics`.
pub struct MetricsView {
    pub current_cpu: nat,
    pub active_workers: nat,
    pub shared_queue_len: nat,
    pub cpu_queue_len: nat,
    pub io_queue_len: nat,
    pub max_queue_len: nat,
    pub samples: Seq<MonitorSample>,
}

pub open spec fn max_nat(a: nat, b: nat) -> nat {
    if a >= b { a } else { b }
}

impl MetricsView {
    /// Total number of tasks waiting, as last published.
    pub open spec fn total_queue_len(self) -> nat {
        self.shared_queue_len + self.cpu_queue_len + self.io_queue_len
    }

    /// State after a task of `cost` has been started on a worker.
    pub open spec fn after_reserve(self, cost: nat) -> MetricsView {
        MetricsView {
            current_cpu: self.current_cpu + cost,
            active_workers: self.active_workers + 1,
            ..self
        }
    }

    /// State after a task of `cost` has finished on a worker.
    pub open spec fn after_release(self, cost: nat) -> MetricsView {
        MetricsView {
            current_cpu: (self.current_cpu - cost) as nat,
            active_workers: (self.active_workers - 1) as nat,
            ..self
        }
    }

    /// State after the queue lengths have been published.
    pub open spec fn after_queue_update(self, shared: nat, cpu: nat, io: nat) -> MetricsView {
        MetricsView {
            shared_queue_len: shared,
            cpu_queue_len: cpu,
            io_queue_len: io,
            max_queue_len: max_nat(self.max_queue_len, shared + cpu + io),
            ..self
        }
    }

    /// The sample the monitor takes of this state at `time_ms`.
    pub open spec fn sample_at(self, time_ms: u128) -> MonitorSample {
        MonitorSample {
            time_ms: time_ms,
            active_workers: self.active_workers as usize,
            cpu_usage: self.current_cpu as u32,
            total_queue_len: self.total_queue_len() as usize,
        }
    }

    /// State after the monitor has taken a sample at `time_ms`.
    pub open spec fn after_sample(self, time_ms: u128) -> MetricsView {
        MetricsView {
            max_queue_len: max_nat(self.max_queue_len, self.total_queue_len()),
            samples: self.samples.push(self.sample_at(time_ms)),
            ..self
        }
    }
}

impl View for SharedMetrics {
    type V = MetricsView;

    open spec fn view(&self) -> MetricsView {
        MetricsView {
            current_cpu: self.current_cpu as nat,
            active_workers: self.active_workers as nat,
            shared_queue_len: self.shared_queue_len as nat,
            cpu_queue_len: self.cpu_queue_len as nat,
            io_queue_len: self.io_queue_len as nat,
            max_queue_len: self.max_queue_len as nat,
            samples: self.samples@,
        }
    }
}

impl SharedMetrics {
    /// All counters at zero and no samples.
    pub fn new() -> (m: SharedMetrics)
        ensures
            m@ == (MetricsView {
                current_cpu: 0,
                active_workers: 0,
                shared_queue_len: 0,
                cpu_queue_len: 0,
                io_queue_len: 0,
                max_queue_len: 0,
                samples: Seq::empty(),
            }),
    {
        SharedMetrics {
            current_cpu: 0,
            active_workers: 0,
            shared_queue_len: 0,
            cpu_queue_len: 0,
            io_queue_len: 0,
            max_queue_len: 0,
            samples: Vec::new(),
        }
    }

    /// Records that a task of `cpu_cost` was started: reserves its CPU and marks
    /// one more worker active.
    pub fn reserve(&mut self, cpu_cost: u32)
        requires
            old(self).current_cpu + cpu_cost <= u32::MAX,
            old(self).active_workers < usize::MAX,
        ensures
            final(self)@ == old(self)@.after_reserve(cpu_cost as nat),
    {
        self.current_cpu = self.current_cpu + cpu_cost;
        self.active_workers = self.active_workers + 1;
    }

    /// Records that a task of `cpu_cost` finished: frees its CPU and marks one
    /// worker no longer active.
    pub fn release(&mut self, cpu_cost: u32)
        requires
            old(self).current_cpu >= cpu_cost,
            old(self).active_workers >= 1,
        ensures
            final(self)@ == old(self)@.after_release(cpu_cost as nat),
    {
        self.current_cpu = self.current_cpu - cpu_cost;
        self.active_workers = self.active_workers - 1;
    }

    /// Takes one monitor sample at `time_ms`: remembers the largest total queue
    /// length seen and appends the sample.
    pub fn record_sample(&mut self, time_ms: u128)
        requires
            old(self).shared_queue_len + old(self).cpu_queue_len + old(self).io_queue_len
                <= usize::MAX,
        ensures
            final(self)@ == old(self)@.after_sample(time_ms),
    {
        let queue_len = self.shared_queue_len + self.cpu_queue_len + self.io_queue_len;
        if queue_len > self.max_queue_len {
            self.max_queue_len = queue_len;
        }
        let sample = MonitorSample {
            time_ms,
            active_workers: self.active_workers,
            cpu_usage: self.current_cpu,
            total_queue_len: queue_len,
        };
        self.samples.push(sample);
    }
}

/// Publishes the current queue lengths and keeps the largest total seen.
pub fn update_queue_metrics(
    shared_metrics: &mut SharedMetrics,
    shared_len: usize,
    cpu_len: usize,
    io_len: usize,
)
    requires
        shared_len + cpu_len + io_len <= usize::MAX,
    ensures
        final(shared_metrics)@ == old(shared_metrics)@.after_queue_update(
            shared_len as nat,
            cpu_len as nat,
            io_len as nat,
        ),
{
    shared_metrics.shared_queue_len = shared_len;
    shared_metrics.cpu_queue_len = cpu_len;
    shared_metrics.io_queue_len = io_len;
    let total = shared_len + cpu_len + io_len;
    if total > shared_metrics.max_queue_len {
        shared_metrics.max_queue_len = total;
    }
}

} // verus!
