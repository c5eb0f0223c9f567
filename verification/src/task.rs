//! The background tasks: what sets them off, and how long their runs stay on record.
use vstd::prelude::*;

use crate::time::{Timestamp, MIN_SECS, SECS_PER_DAY};

verus! {

use crate::time::day_nanos;

/// What set a background task off: the schedule, or the user.
#[derive(Clone, Copy, Debug, PartialEq, Eq, Structural)]
pub enum TaskTrigger {
    Scheduled,
    Manual,
}

/// How a background task is doing.
#[derive(Clone, Copy, Debug, PartialEq, Eq, Structural)]
pub struct TaskStatus {
    pub is_running: bool,
    pub last_run: Option<Timestamp>,
    pub last_finish: Option<Timestamp>,
    pub next_run: Option<Timestamp>,
}

impl Default for TaskStatus {
    /// A task that has never run.
    fn default() -> (r: Self)
        ensures
            r == idle_status(),
    {
        TaskStatus { is_running: false, last_run: None, last_finish: None, next_run: None }
    }
}

/// A task that has never run.
pub open spec fn idle_status() -> TaskStatus {
    TaskStatus { is_running: false, last_run: None, last_finish: None, next_run: None }
}

/// How many days a run stays on record.
pub const RUN_RETENTION_DAYS: i64 = 30;

/// A run that started then is to be deleted now.
pub open spec fn run_expired(started_at: Timestamp, now: Timestamp) -> bool {
    now.since_epoch() - started_at.since_epoch() > RUN_RETENTION_DAYS * day_nanos()
}

/// The time before which a run must have started to be deleted now. Where the calendar holds no
/// such time, no run is to be deleted.
pub fn retention_cutoff(now: Timestamp) -> (r: Option<Timestamp>)
    requires
        now.wf(),
    ensures
        r matches Some(cutoff) ==> cutoff.wf(),
        r == (if now.secs - RUN_RETENTION_DAYS * SECS_PER_DAY < MIN_SECS {
            None
        } else {
            Some(
                Timestamp {
                    secs: (now.secs - RUN_RETENTION_DAYS * SECS_PER_DAY) as i64,
                    nanos: now.nanos,
                },
            )
        }),
        forall|started_at: Timestamp|
            started_at.wf() ==> (#[trigger] run_expired(started_at, now) <==> (r matches Some(
                cutoff,
            ) && cutoff.after(started_at))),
{
    let cutoff: i64 = now.secs - RUN_RETENTION_DAYS * SECS_PER_DAY;
    if cutoff < MIN_SECS {
        None
    } else {
        Some(Timestamp { secs: cutoff, nanos: now.nanos })
    }
}

/// A run that has ended is kept for 30 days of 86400 seconds from its start, to the nanosecond:
/// what started longer ago than that, and nothing else, lies before the cutoff.
pub proof fn law_runs_are_kept_for_thirty_days(
    now: Timestamp,
    cutoff: Option<Timestamp>,
    started_at: Timestamp,
)
    requires
        now.wf(),
        started_at.wf(),
        call_ensures(retention_cutoff, (now,), cutoff),
    ensures
        (now.secs - started_at.secs) * 1_000_000_000 + now.nanos - started_at.nanos > 30 * 86_400
            * 1_000_000_000 <==> (cutoff matches Some(cutoff) && (started_at.secs < cutoff.secs || (
        started_at.secs == cutoff.secs && started_at.nanos < cutoff.nanos))),
{
}

} // verus!
