//! Health reporting of the detector service.
use vstd::prelude::*;

use crate::json::{owned, str_eq};
use crate::platform::now_timestamp;

verus! {

/// The clock in whole seconds since the Unix epoch, zero before it.
fn clock_secs() -> (r: u64) {
    let t = now_timestamp();
    if t < 0 {
        0
    } else {
        t as u64
    }
}

/// The version reported in health checks.
pub const SERVICE_VERSION: &'static str = "0.1.0";

/// A health report.
#[derive(Debug)]
pub struct HealthStatus {
    pub status: String,
    pub version: String,
    pub uptime_seconds: u64,
    /// Seconds since the Unix epoch of the last API check.
    pub last_api_check_timestamp: Option<u64>,
    pub api_healthy: bool,
    pub cdif_compliance: bool,
    pub fire_marshal_terminology: bool,
}

/// `a` and `b` report the same.
pub open spec fn same_report(a: HealthStatus, b: HealthStatus) -> bool {
    &&& a.status@ == b.status@
    &&& a.version@ == b.version@
    &&& a.uptime_seconds == b.uptime_seconds
    &&& a.last_api_check_timestamp == b.last_api_check_timestamp
    &&& a.api_healthy == b.api_healthy
    &&& a.cdif_compliance == b.cdif_compliance
    &&& a.fire_marshal_terminology == b.fire_marshal_terminology
}

impl HealthStatus {
    /// A fresh report: healthy, no uptime, API not yet checked.
    pub fn new() -> (r: HealthStatus)
        ensures
            r.status@ == "healthy"@,
            r.version@ == SERVICE_VERSION@,
            r.uptime_seconds == 0,
            r.last_api_check_timestamp is None,
            !r.api_healthy,
            r.cdif_compliance,
            r.fire_marshal_terminology,
    {
        HealthStatus {
            status: owned("healthy"),
            version: owned(SERVICE_VERSION),
            uptime_seconds: 0,
            last_api_check_timestamp: None,
            api_healthy: false,
            cdif_compliance: true,
            fire_marshal_terminology: true,
        }
    }

    /// A copy of the report.
    pub fn copy(&self) -> (r: HealthStatus)
        ensures
            same_report(r, *self),
    {
        HealthStatus {
            status: self.status.clone(),
            version: self.version.clone(),
            uptime_seconds: self.uptime_seconds,
            last_api_check_timestamp: self.last_api_check_timestamp,
            api_healthy: self.api_healthy,
            cdif_compliance: self.cdif_compliance,
            fire_marshal_terminology: self.fire_marshal_terminology,
        }
    }

    /// Healthy when the status is `healthy` and the API answered.
    pub fn is_healthy(&self) -> (r: bool)
        ensures
            r == (self.status@ == "healthy"@ && self.api_healthy),
    {
        str_eq(self.status.as_str(), "healthy") && self.api_healthy
    }

    /// Records the result of an API check, stamped with the clock. A failed
    /// check marks the status `degraded`.
    pub fn update_api_health(&mut self, healthy: bool)
        ensures
            final(self).api_healthy == healthy,
            final(self).last_api_check_timestamp is Some,
            final(self).status@ == if healthy {
                old(self).status@
            } else {
                "degraded"@
            },
            final(self).version@ == old(self).version@,
            final(self).uptime_seconds == old(self).uptime_seconds,
            final(self).cdif_compliance == old(self).cdif_compliance,
            final(self).fire_marshal_terminology == old(self).fire_marshal_terminology,
    {
        self.api_healthy = healthy;
        self.last_api_check_timestamp = Some(clock_secs());
        if !healthy {
            self.status = owned("degraded");
        }
    }

    /// Sets the uptime, in whole seconds.
    pub fn update_uptime(&mut self, uptime_secs: u64)
        ensures
            same_report(*final(self), (HealthStatus { uptime_seconds: uptime_secs, ..*old(self) })),
    {
        self.uptime_seconds = uptime_secs;
    }
}

impl Default for HealthStatus {
    fn default() -> (r: HealthStatus)
        ensures
            r.status@ == "healthy"@,
            !r.api_healthy,
    {
        HealthStatus::new()
    }
}

/// The whole seconds from `start` to `now`, or zero if `now` is earlier.
pub open spec fn elapsed_secs(start: u64, now: u64) -> u64 {
    if now >= start {
        (now - start) as u64
    } else {
        0
    }
}

/// Tracks the service's health since it started.
pub struct HealthChecker {
    start_secs: u64,
    health: HealthStatus,
}

impl HealthChecker {
    pub closed spec fn report(&self) -> HealthStatus {
        self.health
    }

    pub closed spec fn started_at(&self) -> u64 {
        self.start_secs
    }

    /// A checker started now, with a fresh report.
    pub fn new() -> (r: HealthChecker)
        ensures
            r.report().status@ == "healthy"@,
            r.report().uptime_seconds == 0,
            r.report().last_api_check_timestamp is None,
            !r.report().api_healthy,
    {
        HealthChecker { start_secs: clock_secs(), health: HealthStatus::new() }
    }

    /// The report, with the uptime brought up to date: the seconds since the
    /// start, or zero if the clock now reads earlier than the start.
    pub fn get_health(&mut self) -> (r: HealthStatus)
        ensures
            final(self).started_at() == old(self).started_at(),
            same_report(r, final(self).report()),
            same_report(
                final(self).report(),
                (HealthStatus {
                    uptime_seconds: final(self).report().uptime_seconds,
                    ..old(self).report()
                }),
            ),
            exists|now: u64|
                #[trigger] elapsed_secs(old(self).started_at(), now) == final(self).report().uptime_seconds,
    {
        let now = clock_secs();
        let uptime = if now >= self.start_secs {
            now - self.start_secs
        } else {
            0
        };
        self.health.update_uptime(uptime);
        assert(elapsed_secs(old(self).started_at(), now) == self.health.uptime_seconds);
        self.health.copy()
    }

    /// Records the result of an API check.
    pub fn update_api_health(&mut self, healthy: bool)
        ensures
            final(self).started_at() == old(self).started_at(),
            final(self).report().api_healthy == healthy,
            final(self).report().last_api_check_timestamp is Some,
            final(self).report().status@ == if healthy {
                old(self).report().status@
            } else {
                "degraded"@
            },
            final(self).report().uptime_seconds == old(self).report().uptime_seconds,
    {
        self.health.update_api_health(healthy);
    }

    /// Whether the current report is healthy.
    pub fn is_healthy(&self) -> (r: bool)
        ensures
            r == (self.report().status@ == "healthy"@ && self.report().api_healthy),
    {
        self.health.is_healthy()
    }
}

impl Default for HealthChecker {
    fn default() -> (r: HealthChecker)
        ensures
            !r.report().api_healthy,
    {
        HealthChecker::new()
    }
}

} // verus!
