//! Health-check bookkeeping: the latest backend snapshot, mapped to the
//! wire shape.  The periodic loop that takes the snapshots runs in the
//! program around the library and hands each one to [`HealthCheckImpl::record`].

use vstd::prelude::*;
use vstd::string::StringExecFns;

use crate::shared::database::DatabaseStats;

verus! {

/// The health snapshot answered on the health route.
#[derive(Debug, Clone)]
pub struct HealthCheckStats {
    pub database_status: String,
    pub database_name: String,
}

/// The health capability the handlers consume; implemented by
/// [`HealthCheckImpl`] and left open for test doubles.
pub trait HealthCheck {
    fn collect(&self) -> Option<HealthCheckStats>;
}

/// The wire word for a backend that answered its ping, or one still trying.
pub open spec fn spec_status_word(connected: bool) -> Seq<char> {
    if connected {
        "connected"@
    } else {
        "connecting"@
    }
}

/// Keeps the latest health snapshot.
#[derive(Debug)]
pub struct HealthCheckImpl {
    last_health_check_stats: Option<HealthCheckStats>,
}

impl HealthCheckImpl {
    /// The snapshot the next collect answers.
    pub closed spec fn spec_last(&self) -> Option<HealthCheckStats> {
        self.last_health_check_stats
    }

    /// A fresh checker; nothing is known until the first snapshot arrives.
    pub fn new() -> (r: Self)
        ensures
            r.spec_last() is None,
    {
        HealthCheckImpl { last_health_check_stats: None }
    }

    /// Records one backend snapshot, mapped to the wire shape.
    pub fn record(&mut self, stats: DatabaseStats)
        ensures
            final(self).spec_last() matches Some(h)
                && h.database_status@ == spec_status_word(stats.connected)
                && h.database_name == stats.name,
    {
        let database_status = if stats.connected {
            String::from_str("connected")
        } else {
            String::from_str("connecting")
        };
        self.last_health_check_stats = Some(HealthCheckStats {
            database_status,
            database_name: stats.name,
        });
    }

    /// The latest snapshot, if any arrived yet.
    pub fn collect(&self) -> (r: Option<HealthCheckStats>)
        ensures
            r is Some <==> self.spec_last() is Some,
            r matches Some(h) ==> {
                let last = self.spec_last()->0;
                h.database_status@ == last.database_status@
                    && h.database_name@ == last.database_name@
            },
    {
        match &self.last_health_check_stats {
            None => None,
            Some(stats) => Some(HealthCheckStats {
                database_status: stats.database_status.clone(),
                database_name: stats.database_name.clone(),
            }),
        }
    }
}

impl HealthCheck for HealthCheckImpl {
    fn collect(&self) -> Option<HealthCheckStats> {
        HealthCheckImpl::collect(self)
    }
}

} // verus!
