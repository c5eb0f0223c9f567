//! Moments in UTC, held as plain numbers, with the calendar left to `chrono`.
use vstd::prelude::*;

verus! {

/// Seconds in a day.
pub const SECS_PER_DAY: i64 = 86400;

/// Nanoseconds in a second.
pub const NANOS_PER_SEC: u32 = 1000000000;

/// The first second that the calendar can hold: January 1 of the year -262143.
pub const MIN_SECS: i64 = -8334601228800;

/// The last second that the calendar can hold: December 31 of the year 262142, 23:59:59.
pub const MAX_SECS: i64 = 8210266876799;

/// A moment: whole seconds since January 1, 1970 UTC, and the nanoseconds after that second.
#[derive(Clone, Copy, Debug, PartialEq, Eq, Structural)]
pub struct Timestamp {
    pub secs: i64,
    pub nanos: u32,
}

impl Timestamp {
    /// The moment lies in the calendar's range and is no leap second.
    pub open spec fn wf(self) -> bool {
        MIN_SECS <= self.secs <= MAX_SECS && self.nanos < NANOS_PER_SEC
    }

    /// Nanoseconds since January 1, 1970 UTC.
    pub open spec fn since_epoch(self) -> int {
        self.secs * NANOS_PER_SEC + self.nanos
    }

    /// This moment comes after the other one.
    pub open spec fn after(self, other: Timestamp) -> bool {
        self.secs > other.secs || (self.secs == other.secs && self.nanos > other.nanos)
    }

    /// Whether this moment comes after the other one.
    pub fn is_after(&self, other: &Timestamp) -> (r: bool)
        ensures
            r == self.after(*other),
    {
        self.secs > other.secs || (self.secs == other.secs && self.nanos > other.nanos)
    }

    /// Whether the moment is second zero of the epoch, whatever its fraction.
    pub fn is_epoch(&self) -> (r: bool)
        ensures
            r == (self.secs == 0),
    {
        self.secs == 0
    }
}

/// Nanoseconds in a day.
pub open spec fn day_nanos() -> int {
    SECS_PER_DAY * NANOS_PER_SEC
}

/// The whole days in a span of nanoseconds, rounded toward zero.
pub open spec fn whole_days(span: int) -> int {
    if span >= 0 {
        span / day_nanos()
    } else {
        -((-span) / day_nanos())
    }
}

/// The text of a moment, as [`chrono::NaiveDateTime`] displays it.
pub uninterp spec fn datetime_text(secs: i64, nanos: u32) -> Seq<char>;

/// [`chrono::DateTime::from_timestamp`], asked for a whole second: it finds a moment for every
/// second from [`MIN_SECS`] to [`MAX_SECS`] and for no other.
#[verifier::external_body]
fn calendar_holds(secs: i64) -> (r: bool)
    ensures
        r == (MIN_SECS <= secs <= MAX_SECS),
{
    chrono::DateTime::from_timestamp(secs, 0).is_some()
}

/// The difference of two [`chrono::NaiveDateTime`]s and [`chrono::TimeDelta::num_days`] of it:
/// the whole days from `earlier` to `now`, rounded toward zero.
#[verifier::external_body]
fn delta_num_days(now: Timestamp, earlier: Timestamp) -> (r: i64)
    requires
        now.wf(),
        earlier.wf(),
    ensures
        r == whole_days(now.since_epoch() - earlier.since_epoch()),
{
    let now = chrono::DateTime::from_timestamp(now.secs, now.nanos).unwrap().naive_utc();
    let earlier = chrono::DateTime::from_timestamp(earlier.secs, earlier.nanos).unwrap().naive_utc();
    (now - earlier).num_days()
}

/// The [`std::fmt::Display`] text of a [`chrono::NaiveDateTime`], which its two numbers fix.
#[verifier::external_body]
fn display_datetime(at: Timestamp) -> (r: String)
    requires
        at.wf(),
    ensures
        r@ == datetime_text(at.secs, at.nanos),
{
    chrono::DateTime::from_timestamp(at.secs, at.nanos).unwrap().naive_utc().to_string()
}

/// The moment of a UNIX timestamp, where the calendar holds it.
pub fn from_unix(secs: i64) -> (r: Option<Timestamp>)
    ensures
        r == (if MIN_SECS <= secs <= MAX_SECS {
            Some(Timestamp { secs, nanos: 0 })
        } else {
            None
        }),
{
    if calendar_holds(secs) {
        Some(Timestamp { secs, nanos: 0 })
    } else {
        None
    }
}

/// The whole days that have passed from `earlier` to `now`.
pub fn days_between(now: Timestamp, earlier: Timestamp) -> (r: i64)
    requires
        now.wf(),
        earlier.wf(),
    ensures
        r == whole_days(now.since_epoch() - earlier.since_epoch()),
{
    delta_num_days(now, earlier)
}

/// The text of a moment.
pub fn datetime_to_text(at: Timestamp) -> (r: String)
    requires
        at.wf(),
    ensures
        r@ == datetime_text(at.secs, at.nanos),
{
    display_datetime(at)
}

/// One moment comes after another exactly where more nanoseconds have passed since the epoch.
pub proof fn law_after_counts_nanoseconds(a: Timestamp, b: Timestamp)
    requires
        a.wf(),
        b.wf(),
    ensures
        a.after(b) == (a.since_epoch() > b.since_epoch()),
        a.after(b) <==> a.secs * 1_000_000_000 + a.nanos > b.secs * 1_000_000_000 + b.nanos,
        forall|r: bool| #[trigger]
            call_ensures(Timestamp::is_after, (&a, &b), r) ==> r == (a.secs * 1_000_000_000 + a.nanos
                > b.secs * 1_000_000_000 + b.nanos),
{
}

/// Days are counted in whole spans of 86400 seconds, toward zero: `d` of them fit into the time
/// between two moments, and one more does not.
pub proof fn law_days_are_whole_spans_of_86400_seconds(now: Timestamp, earlier: Timestamp, d: int)
    requires
        now.wf(),
        earlier.wf(),
        ({
            let span = (now.secs - earlier.secs) * 1_000_000_000 + (now.nanos - earlier.nanos);
            if span >= 0 {
                d * 86_400_000_000_000 <= span < (d + 1) * 86_400_000_000_000
            } else {
                (-d) * 86_400_000_000_000 <= -span < (-d + 1) * 86_400_000_000_000
            }
        }),
    ensures
        forall|days: i64| #[trigger]
            call_ensures(days_between, (now, earlier), days) ==> days == d,
        whole_days(now.since_epoch() - earlier.since_epoch()) == d,
        i64::MIN <= d <= i64::MAX,
{
    let span = (now.secs - earlier.secs) * 1_000_000_000 + (now.nanos - earlier.nanos);
    assert(span == now.since_epoch() - earlier.since_epoch());
    assert(day_nanos() == 86_400_000_000_000);
    if span >= 0 {
        assert(span / 86_400_000_000_000 == d) by (nonlinear_arith)
            requires
                d * 86_400_000_000_000 <= span < (d + 1) * 86_400_000_000_000,
        ;
    } else {
        assert((-span) / 86_400_000_000_000 == -d) by (nonlinear_arith)
            requires
                (-d) * 86_400_000_000_000 <= -span < (-d + 1) * 86_400_000_000_000,
        ;
    }
}

/// The number of whole days between two moments that the calendar holds is a number of the
/// machine's.
pub proof fn lemma_days_fit(now: Timestamp, earlier: Timestamp)
    requires
        now.wf(),
        earlier.wf(),
    ensures
        i64::MIN <= whole_days(now.since_epoch() - earlier.since_epoch()) <= i64::MAX,
{
    assert(day_nanos() == 86_400_000_000_000);
}

} // verus!
