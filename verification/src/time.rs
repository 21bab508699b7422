//! Instants in UTC, held as plain integers within chrono's range.
use vstd::prelude::*;

verus! {

/// The earliest Unix timestamp (in seconds) that chrono's `DateTime<Utc>` holds:
/// -262143-01-01T00:00:00.
pub const MIN_TIMESTAMP: i64 = -8_334_601_228_800;

/// The latest Unix timestamp (in seconds) that chrono's `DateTime<Utc>` holds:
/// +262142-12-31T23:59:59.
pub const MAX_TIMESTAMP: i64 = 8_210_266_876_799;

/// Seconds in a day.
pub const SECS_PER_DAY: i64 = 86_400;

/// An instant in UTC as chrono holds it: whole seconds since the Unix epoch and the
/// nanoseconds within that second. During a leap second (which chrono places after
/// second 59 of a minute) the nanoseconds run from one to two billion.
#[derive(Clone, Copy, Debug, PartialEq, Eq, Structural)]
pub struct UtcTime {
    pub secs: i64,
    pub nanos: u32,
}

impl UtcTime {
    /// The pair is one that chrono's `DateTime::<Utc>::from_timestamp` accepts: the
    /// seconds lie in chrono's range, and nanoseconds of a billion or more (a leap
    /// second) only follow second 59 of a minute.
    pub open spec fn wf(self) -> bool {
        &&& MIN_TIMESTAMP <= self.secs <= MAX_TIMESTAMP
        &&& self.nanos < 2_000_000_000
        &&& self.nanos >= 1_000_000_000 ==> self.secs % 60 == 59
    }

    /// Whether the instant falls in a leap second.
    pub open spec fn in_leap_second(self) -> bool {
        self.nanos >= 1_000_000_000
    }

    /// chrono's order of instants: by the seconds, then by the nanoseconds.
    pub open spec fn earlier_than(self, other: UtcTime) -> bool {
        self.secs < other.secs || (self.secs == other.secs && self.nanos < other.nanos)
    }

    /// The seconds of the instant `secs` seconds after `self`, as chrono's
    /// `DateTime + TimeDelta::seconds(secs)` counts them: a move out of a leap second
    /// backwards starts from the second after it.
    pub open spec fn shifted_secs(self, secs: i64) -> int {
        if self.in_leap_second() && secs < 0 { self.secs + 1 + secs } else { self.secs + secs }
    }

    /// The instant `secs` seconds after `self`, as chrono's `DateTime + TimeDelta::seconds(secs)`
    /// gives it: a move out of a leap second leaves the extra second behind, a move by
    /// zero seconds stays where it is.
    pub open spec fn shifted(self, secs: i64) -> UtcTime {
        if self.in_leap_second() && secs != 0 {
            UtcTime { secs: self.shifted_secs(secs) as i64, nanos: (self.nanos - 1_000_000_000) as u32 }
        } else {
            UtcTime { secs: self.shifted_secs(secs) as i64, nanos: self.nanos }
        }
    }

    /// Midnight (UTC) at the start of the given day.
    pub open spec fn spec_midnight(day: i64) -> UtcTime {
        UtcTime { secs: (day * SECS_PER_DAY) as i64, nanos: 0 }
    }

    /// Whether `self` lies strictly before `other`, as chrono's `<` on `DateTime<Utc>` says.
    pub fn is_before(&self, other: &UtcTime) -> (b: bool)
        ensures
            b == self.earlier_than(*other),
    {
        self.secs < other.secs || (self.secs == other.secs && self.nanos < other.nanos)
    }

    /// The instant `secs` seconds after `self`, as chrono's `DateTime + TimeDelta::seconds` gives it.
    pub fn plus_seconds(&self, secs: i64) -> (t: UtcTime)
        requires
            self.wf(),
            MIN_TIMESTAMP <= self.shifted_secs(secs) <= MAX_TIMESTAMP,
        ensures
            t == self.shifted(secs),
            t.wf(),
    {
        let t = if self.nanos >= 1_000_000_000 && secs != 0 {
            let base = if secs < 0 { self.secs + 1 } else { self.secs };
            UtcTime { secs: base + secs, nanos: self.nanos - 1_000_000_000 }
        } else {
            UtcTime { secs: self.secs + secs, nanos: self.nanos }
        };
        assert(t.nanos >= 1_000_000_000 ==> t == *self);
        t
    }

    /// Midnight (UTC) at the start of day `day` since the Unix epoch.
    pub fn midnight(day: i64) -> (t: UtcTime)
        requires
            valid_day(day),
        ensures
            t == UtcTime::spec_midnight(day),
            t.wf(),
    {
        UtcTime { secs: day * SECS_PER_DAY, nanos: 0 }
    }
}

/// The second of the day of a Unix timestamp.
pub open spec fn second_of_day(secs: int) -> int {
    secs % 86_400
}

/// The time from `from` to `to` in nanoseconds, as chrono's `signed_duration_since` counts
/// it: a leap second that lies between the two times of day adds one second.
pub open spec fn elapsed_nanos(from: UtcTime, to: UtcTime) -> int {
    let adjust: int = if second_of_day(to.secs as int) > second_of_day(from.secs as int) && from.in_leap_second() {
        1
    } else if second_of_day(to.secs as int) < second_of_day(from.secs as int) && to.in_leap_second() {
        -1
    } else {
        0
    };
    (to.secs - from.secs + adjust) * 1_000_000_000 + to.nanos - from.nanos
}

/// The second of the day of an instant in chrono's range.
pub fn time_of_day(secs: i64) -> (d: i64)
    requires
        MIN_TIMESTAMP <= secs <= MAX_TIMESTAMP,
    ensures
        d == second_of_day(secs as int),
        0 <= d < 86_400,
{
    // `secs - MIN_TIMESTAMP` is not negative and MIN_TIMESTAMP is a whole number of days,
    // so its remainder is the time of day.
    let shifted: i64 = secs - MIN_TIMESTAMP;
    let d: i64 = shifted % SECS_PER_DAY;
    assert(d == (secs as int) % 86_400) by {
        assert(MIN_TIMESTAMP == -96_465_292 * 86_400);
        lemma_shift_days(secs as int, 96_465_292);
    }
    d
}

proof fn lemma_shift_days(x: int, k: nat)
    ensures
        (x + k * 86_400) % 86_400 == x % 86_400,
    decreases k,
{
    if k > 0 {
        lemma_shift_days(x, (k - 1) as nat);
        vstd::arithmetic::div_mod::lemma_mod_add_multiples_vanish(x + (k - 1) * 86_400, 86_400);
        assert(x + k * 86_400 == (x + (k - 1) * 86_400) + 86_400) by (nonlinear_arith);
    }
}

/// The time from `from` to `to` in nanoseconds, as chrono's `signed_duration_since` counts it.
pub fn elapsed(from: &UtcTime, to: &UtcTime) -> (n: i128)
    requires
        from.wf(),
        to.wf(),
    ensures
        n == elapsed_nanos(*from, *to),
{
    let from_day = time_of_day(from.secs);
    let to_day = time_of_day(to.secs);
    let adjust: i128 = if to_day > from_day && from.nanos >= 1_000_000_000 {
        1
    } else if to_day < from_day && to.nanos >= 1_000_000_000 {
        -1
    } else {
        0
    };
    (to.secs as i128 - from.secs as i128 + adjust) * 1_000_000_000 + (to.nanos as i128 - from.nanos as i128)
}

/// The first day (counted from the Unix epoch) that chrono's `NaiveDate` holds: -262143-01-01.
pub const MIN_DAY: i64 = -96_465_292;

/// The last day (counted from the Unix epoch) that chrono's `NaiveDate` holds: +262142-12-31.
pub const MAX_DAY: i64 = 95_026_236;

/// A day count since the Unix epoch that chrono's `NaiveDate` can hold.
pub open spec fn valid_day(day: i64) -> bool {
    MIN_DAY <= day <= MAX_DAY
}

} // verus!
