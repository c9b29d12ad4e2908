//! The numbers that the pool publishes about itself.

use vstd::prelude::*;

verus! {

/// The gauges of the pool as a whole.
#[derive(Clone, Copy, Debug, PartialEq, Eq, Structural)]
pub enum WorkerPoolMetricType {
    TotalWorkers,
    Active,
}

/// The gauges of the tasks.
#[derive(Clone, Copy, Debug, PartialEq, Eq, Structural)]
pub enum WorkerPoolTaskType {
    Executed,
    Panic,
    Queued,
    Dispatched,
}

/// How long one worker has been busy, and of how long.
#[derive(Clone, Copy, Debug, PartialEq, Eq, Structural)]
pub struct WorkerUtilization {
    pub worker_id: usize,
    pub active_nanos: u128,
    pub total_nanos: u128,
}

/// The values of the gauges.
#[derive(Debug, PartialEq, Eq)]
pub struct PoolMetrics {
    pub total_workers: i64,
    pub active: i64,
    pub executed: i64,
    pub panic: i64,
    pub queued: i64,
    pub dispatched: i64,
    pub utilization: Vec<WorkerUtilization>,
}

/// The number after `value`; the count starts over at the smallest number
/// when it has run through the numbers of the machine.
pub open spec fn up(value: i64) -> i64 {
    if value == i64::MAX {
        i64::MIN
    } else {
        (value + 1) as i64
    }
}

/// The number before `value`; the count starts over at the largest number
/// when it has run through the numbers of the machine.
pub open spec fn down(value: i64) -> i64 {
    if value == i64::MIN {
        i64::MAX
    } else {
        (value - 1) as i64
    }
}

impl WorkerPoolMetricType {
    /// The label of the gauge.
    pub open spec fn label_spec(self) -> Seq<char> {
        match self {
            WorkerPoolMetricType::TotalWorkers => "total_workers"@,
            WorkerPoolMetricType::Active => "active"@,
        }
    }

    /// The label of the gauge.
    pub fn label(self) -> (r: &'static str)
        ensures
            r@ == self.label_spec(),
    {
        match self {
            WorkerPoolMetricType::TotalWorkers => "total_workers",
            WorkerPoolMetricType::Active => "active",
        }
    }
}

impl WorkerPoolTaskType {
    /// The label of the gauge.
    pub open spec fn label_spec(self) -> Seq<char> {
        match self {
            WorkerPoolTaskType::Executed => "executed"@,
            WorkerPoolTaskType::Panic => "panic"@,
            WorkerPoolTaskType::Dispatched => "dispatched"@,
            WorkerPoolTaskType::Queued => "queued"@,
        }
    }

    /// The label of the gauge.
    pub fn label(self) -> (r: &'static str)
        ensures
            r@ == self.label_spec(),
    {
        match self {
            WorkerPoolTaskType::Executed => "executed",
            WorkerPoolTaskType::Panic => "panic",
            WorkerPoolTaskType::Dispatched => "dispatched",
            WorkerPoolTaskType::Queued => "queued",
        }
    }
}

/// `rows` with `row` in the place of the first row of the same worker, or
/// at the end where that worker has no row.
pub open spec fn with_row(rows: Seq<WorkerUtilization>, row: WorkerUtilization) -> Seq<
    WorkerUtilization,
>
    decreases rows.len(),
{
    if rows.len() == 0 {
        seq![row]
    } else if rows[0].worker_id == row.worker_id {
        seq![row] + rows.drop_first()
    } else {
        seq![rows[0]] + with_row(rows.drop_first(), row)
    }
}

/// The gauges with nothing counted yet.
pub fn register_metrics() -> (r: PoolMetrics)
    ensures
        r.total_workers == 0,
        r.active == 0,
        r.executed == 0,
        r.panic == 0,
        r.queued == 0,
        r.dispatched == 0,
        r.utilization@.len() == 0,
{
    PoolMetrics {
        total_workers: 0,
        active: 0,
        executed: 0,
        panic: 0,
        queued: 0,
        dispatched: 0,
        utilization: Vec::new(),
    }
}

/// Counts one task more on the gauge `task_type`.
pub fn increment_task(metrics: &mut PoolMetrics, task_type: WorkerPoolTaskType)
    ensures
        *final(metrics) == (match task_type {
            WorkerPoolTaskType::Executed => PoolMetrics {
                executed: up(old(metrics).executed),
                ..*old(metrics)
            },
            WorkerPoolTaskType::Panic => PoolMetrics {
                panic: up(old(metrics).panic),
                ..*old(metrics)
            },
            WorkerPoolTaskType::Queued => PoolMetrics {
                queued: up(old(metrics).queued),
                ..*old(metrics)
            },
            WorkerPoolTaskType::Dispatched => PoolMetrics {
                dispatched: up(old(metrics).dispatched),
                ..*old(metrics)
            },
        }),
{
    match task_type {
        WorkerPoolTaskType::Executed => {
            metrics.executed = metrics.executed.wrapping_add(1);
        },
        WorkerPoolTaskType::Panic => {
            metrics.panic = metrics.panic.wrapping_add(1);
        },
        WorkerPoolTaskType::Queued => {
            metrics.queued = metrics.queued.wrapping_add(1);
        },
        WorkerPoolTaskType::Dispatched => {
            metrics.dispatched = metrics.dispatched.wrapping_add(1);
        },
    }
}

/// Counts one task fewer on the gauge of the queued tasks.
pub fn decrement_task_queue(metrics: &mut PoolMetrics)
    ensures
        *final(metrics) == (PoolMetrics { queued: down(old(metrics).queued), ..*old(metrics) }),
{
    metrics.queued = metrics.queued.wrapping_sub(1);
}

/// Sets the gauge `metric_type` to `value`, or to the largest number of
/// the gauge where `value` is beyond it.
pub fn set_worker_pool_metric(
    metrics: &mut PoolMetrics,
    metric_type: WorkerPoolMetricType,
    value: usize,
)
    ensures
        *final(metrics) == (match metric_type {
            WorkerPoolMetricType::TotalWorkers => PoolMetrics {
                total_workers: gauge_value(value),
                ..*old(metrics)
            },
            WorkerPoolMetricType::Active => PoolMetrics {
                active: gauge_value(value),
                ..*old(metrics)
            },
        }),
{
    let shown: i64 = if value as u64 > 0x7fff_ffff_ffff_ffff {
        i64::MAX
    } else {
        value as i64
    };
    match metric_type {
        WorkerPoolMetricType::TotalWorkers => {
            metrics.total_workers = shown;
        },
        WorkerPoolMetricType::Active => {
            metrics.active = shown;
        },
    }
}

/// What a gauge shows for `value`.
pub open spec fn gauge_value(value: usize) -> i64 {
    if value > i64::MAX {
        i64::MAX
    } else {
        value as i64
    }
}

/// Notes how long worker `worker_id` has been busy and of how long, in
/// nanoseconds. The worker keeps its row where it has one, and gets a new
/// one at the end where it has none.
pub fn update_worker_utilization(
    metrics: &mut PoolMetrics,
    worker_id: usize,
    active_nanos: u128,
    total_nanos: u128,
)
    ensures
        final(metrics).total_workers == old(metrics).total_workers,
        final(metrics).active == old(metrics).active,
        final(metrics).executed == old(metrics).executed,
        final(metrics).panic == old(metrics).panic,
        final(metrics).queued == old(metrics).queued,
        final(metrics).dispatched == old(metrics).dispatched,
        final(metrics).utilization@ == with_row(
            old(metrics).utilization@,
            WorkerUtilization { worker_id, active_nanos, total_nanos },
        ),
{
    let row = WorkerUtilization { worker_id, active_nanos, total_nanos };
    let ghost rows = metrics.utilization@;
    let mut i: usize = 0;
    assert(rows.subrange(0, 0) + with_row(rows.subrange(0, rows.len() as int), row) =~= with_row(
        rows,
        row,
    )) by {
        assert(rows.subrange(0, rows.len() as int) =~= rows);
    }
    while i < metrics.utilization.len()
        invariant
            0 <= i <= rows.len(),
            metrics.utilization@ == rows,
            *metrics == *old(metrics),
            row == (WorkerUtilization { worker_id, active_nanos, total_nanos }),
            with_row(rows, row) == rows.subrange(0, i as int) + with_row(
                rows.subrange(i as int, rows.len() as int),
                row,
            ),
        decreases rows.len() - i,
    {
        let ghost rest = rows.subrange(i as int, rows.len() as int);
        assert(rest[0] == rows[i as int]);
        assert(rest.drop_first() =~= rows.subrange(i + 1, rows.len() as int));
        if metrics.utilization[i].worker_id == worker_id {
            metrics.utilization.set(i, row);
            assert(metrics.utilization@ =~= rows.subrange(0, i as int) + (seq![row]
                + rest.drop_first()));
            return ;
        }
        assert(rows.subrange(0, i + 1) + with_row(rest.drop_first(), row) =~= rows.subrange(
            0,
            i as int,
        ) + (seq![rows[i as int]] + with_row(rest.drop_first(), row)));
        i = i + 1;
    }
    metrics.utilization.push(row);
    assert(metrics.utilization@ =~= rows.subrange(0, rows.len() as int) + seq![row]);
    assert(rows.subrange(rows.len() as int, rows.len() as int).len() == 0);
}

} // verus!
