//! Scheduler configuration and run statistics.

use vstd::prelude::*;

verus! {

/// Nanoseconds in one millisecond.
pub const NANOS_PER_MILLI: u128 = 1_000_000u128;

/// Nanoseconds in one second.
pub const NANOS_PER_SECOND: u128 = 1_000_000_000u128;

/// Runtime configuration for the in-memory scheduler, in nanoseconds.
#[derive(Debug, Clone, Copy, PartialEq, Eq, Structural)]
pub struct SchedulerConfig {
    /// How often the runtime looks for due checks.
    pub tick_interval: u128,
    /// The length of one unit of `Check::interval_seconds`.
    pub interval_unit: u128,
}

impl Default for SchedulerConfig {
    /// Ticks every 250 ms; one interval unit is one second.
    fn default() -> (config: Self)
        ensures
            config.tick_interval == 250 * NANOS_PER_MILLI,
            config.interval_unit == NANOS_PER_SECOND,
    {
        SchedulerConfig { tick_interval: 250 * NANOS_PER_MILLI, interval_unit: NANOS_PER_SECOND }
    }
}

/// Summary of a scheduler run after shutdown.
#[derive(Debug, Clone, Copy, PartialEq, Eq, Structural)]
pub struct SchedulerRunStats {
    pub completed_executions: u64,
    pub sink_errors: u64,
    pub task_failures: u64,
}

impl Default for SchedulerRunStats {
    /// All counters start at zero.
    fn default() -> (stats: Self)
        ensures
            stats == (SchedulerRunStats { completed_executions: 0, sink_errors: 0, task_failures: 0 }),
    {
        SchedulerRunStats { completed_executions: 0, sink_errors: 0, task_failures: 0 }
    }
}

} // verus!
