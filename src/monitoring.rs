//! Aggregate run statistics. Every change stamps `last_update` with the clock.
use vstd::prelude::*;

use crate::platform::now_timestamp;

verus! {

/// A snapshot of the run statistics.
#[derive(Debug, Clone, Copy, PartialEq, Eq)]
pub struct MonitoringStats {
    pub active_pipelines: usize,
    pub data_processed: u64,
    pub errors: u64,
    pub last_update: i64,
}

/// Holds the process-wide run statistics.
pub struct Monitor {
    stats: MonitoringStats,
}

/// `after` is `before` with `amount` more data processed, stamped at `after.last_update`.
pub open spec fn data_added(before: MonitoringStats, after: MonitoringStats, amount: u64) -> bool {
    after == MonitoringStats {
        data_processed: (before.data_processed + amount) as u64,
        last_update: after.last_update,
        ..before
    }
}

/// Adding `n1` and then `n2` to a monitor that has processed nothing leaves
/// `n1 + n2` processed.
pub proof fn lemma_increment_data_additive(
    s0: MonitoringStats,
    s1: MonitoringStats,
    s2: MonitoringStats,
    n1: u64,
    n2: u64,
)
    requires
        s0.data_processed == 0,
        n1 + n2 <= u64::MAX,
        data_added(s0, s1, n1),
        data_added(s1, s2, n2),
    ensures
        s2.data_processed == n1 + n2,
{
}

impl Monitor {
    pub closed spec fn view(&self) -> MonitoringStats {
        self.stats
    }

    /// Statistics at zero, stamped now.
    pub fn new() -> (r: Monitor)
        ensures
            r.view().active_pipelines == 0,
            r.view().data_processed == 0,
            r.view().errors == 0,
    {
        Monitor {
            stats: MonitoringStats {
                active_pipelines: 0,
                data_processed: 0,
                errors: 0,
                last_update: now_timestamp(),
            },
        }
    }

    /// A copy of the current statistics.
    pub fn get_stats(&self) -> (r: MonitoringStats)
        ensures
            r == self.view(),
    {
        self.stats
    }

    /// Replaces the statistics with `stats`, stamped now.
    pub fn update_stats(&mut self, stats: MonitoringStats)
        ensures
            final(self).view() == (MonitoringStats {
                last_update: final(self).view().last_update,
                ..stats
            }),
    {
        self.stats = stats;
        self.stats.last_update = now_timestamp();
    }

    /// Adds `amount` to the data processed, stamped now.
    pub fn increment_data(&mut self, amount: u64)
        requires
            old(self).view().data_processed + amount <= u64::MAX,
        ensures
            data_added(old(self).view(), final(self).view(), amount),
    {
        self.stats.data_processed = self.stats.data_processed + amount;
        self.stats.last_update = now_timestamp();
    }

    /// Adds one to the error count, stamped now.
    pub fn increment_errors(&mut self)
        requires
            old(self).view().errors < u64::MAX,
        ensures
            final(self).view() == (MonitoringStats {
                errors: (old(self).view().errors + 1) as u64,
                last_update: final(self).view().last_update,
                ..old(self).view()
            }),
    {
        self.stats.errors = self.stats.errors + 1;
        self.stats.last_update = now_timestamp();
    }

    /// Sets the number of active pipelines, stamped now.
    pub fn set_active_pipelines(&mut self, active: usize)
        ensures
            final(self).view() == (MonitoringStats {
                active_pipelines: active,
                last_update: final(self).view().last_update,
                ..old(self).view()
            }),
    {
        self.stats.active_pipelines = active;
        self.stats.last_update = now_timestamp();
    }
}

impl Default for Monitor {
    fn default() -> (r: Monitor)
        ensures
            r.view().active_pipelines == 0,
            r.view().data_processed == 0,
            r.view().errors == 0,
    {
        Monitor::new()
    }
}

} // verus!
