//! The time source: readings of the clock and their calendar texts in UTC.

use vstd::prelude::*;

verus! {

/// The last second of the year 9999, in seconds since 1970-01-01 00:00:00 UTC.
pub const LATEST_SECONDS: i64 = 253_402_300_799;

/// The text that the calendar gives for the instant `seconds` after
/// 1970-01-01 00:00:00 UTC under the strftime pattern `pattern`, or `None`
/// where the calendar does not reach that instant.
pub uninterp spec fn utc_text(seconds: i64, pattern: Seq<char>) -> Option<Seq<char>>;

/// The patterns under which this library writes a reading of the clock.
#[derive(Clone, Copy, Debug, PartialEq, Eq, Structural)]
pub enum DatePattern {
    /// Year, month and day: `2026-01-28`.
    Day,
    /// Year to second, fit for a file name: `2026-01-28_12-00-00`.
    Second,
}

/// The strftime pattern that stands behind `pattern`.
pub open spec fn pattern_text(pattern: DatePattern) -> Seq<char> {
    match pattern {
        DatePattern::Day => "%Y-%m-%d"@,
        DatePattern::Second => "%Y-%m-%d_%H-%M-%S"@,
    }
}

/// `chrono::DateTime::<Utc>::from_timestamp` followed by `format`: the
/// calendar text of an instant. The result depends on the two arguments
/// alone. chrono answers `None` only outside its calendar, which holds every
/// year from 1970 to 9999; it panics on a pattern it cannot read, so only the
/// two patterns of `DatePattern` are let in.
#[verifier::external_body]
fn format_utc(seconds: i64, pattern: &str) -> (r: Option<String>)
    requires
        pattern@ == pattern_text(DatePattern::Day) || pattern@ == pattern_text(DatePattern::Second),
    ensures
        crate::text::optional_text(r) == utc_text(seconds, pattern@),
        0 <= seconds <= LATEST_SECONDS ==> r is Some,
{
    chrono::DateTime::from_timestamp(seconds, 0).map(|t| t.format(pattern).to_string())
}

/// `chrono::Utc::now`, as whole seconds since 1970-01-01 00:00:00 UTC. chrono
/// panics where the clock of the machine stands before that instant, so a
/// reading that is given is not negative.
#[verifier::external_body]
fn system_seconds() -> (r: i64)
    ensures
        0 <= r,
{
    chrono::Utc::now().timestamp()
}

/// A reading of the clock: a second between 1970 and the end of the year 9999, in UTC.
#[derive(Clone, Copy, Debug, PartialEq, Eq)]
pub struct Timestamp {
    seconds: i64,
}

impl Timestamp {
    #[verifier::type_invariant]
    spec fn in_calendar(&self) -> bool {
        0 <= self.seconds <= LATEST_SECONDS
    }

    /// Seconds since 1970-01-01 00:00:00 UTC.
    pub closed spec fn view(&self) -> i64 {
        self.seconds
    }

    /// The reading `seconds` after 1970-01-01 00:00:00 UTC, where that lies
    /// between 1970 and the end of the year 9999.
    pub fn new(seconds: i64) -> (r: Option<Self>)
        ensures
            0 <= seconds <= LATEST_SECONDS <==> r is Some,
            r matches Some(t) ==> t@ == seconds,
    {
        if 0 <= seconds && seconds <= LATEST_SECONDS {
            Some(Timestamp { seconds })
        } else {
            None
        }
    }

    /// The last reading there is.
    pub fn latest() -> (r: Self)
        ensures
            r@ == LATEST_SECONDS,
    {
        Timestamp { seconds: LATEST_SECONDS }
    }

    /// Seconds since 1970-01-01 00:00:00 UTC.
    pub fn seconds(&self) -> (r: i64)
        ensures
            r == self@,
            0 <= r <= LATEST_SECONDS,
    {
        proof {
            use_type_invariant(self);
        }
        self.seconds
    }

    /// The calendar text of this reading under `pattern`.
    pub fn format(&self, pattern: DatePattern) -> (r: String)
        ensures
            utc_text(self@, pattern_text(pattern)) == Some(r@),
    {
        proof {
            use_type_invariant(self);
        }
        let written = match pattern {
            DatePattern::Day => format_utc(self.seconds, "%Y-%m-%d"),
            DatePattern::Second => format_utc(self.seconds, "%Y-%m-%d_%H-%M-%S"),
        };
        match written {
            Some(text) => text,
            None => String::new(),
        }
    }
}

/// A source of readings of the time.
pub trait Clock {
    /// Whether `now` may answer `reading`. A clock that says nothing may
    /// answer any reading.
    open spec fn reads(&self, reading: Timestamp) -> bool {
        true
    }

    /// The present reading.
    fn now(&self) -> (r: Timestamp)
        ensures
            self.reads(r),
    ;
}

/// The clock of the machine.
pub struct SystemClock;

impl Clock for SystemClock {
    /// The reading nearest to what the machine says at the moment of the call
    /// (see `Timestamp::nearest`): past the year 9999, the last second of it.
    /// Where the clock of the machine stands before 1970, chrono panics.
    fn now(&self) -> (r: Timestamp) {
        Timestamp::nearest(system_seconds())
    }
}

/// A clock that stands still.
pub struct StaticClock {
    now: Timestamp,
}

impl StaticClock {
    /// The reading at which the clock stands.
    pub closed spec fn view(&self) -> Timestamp {
        self.now
    }

    /// A clock that stands at `now`.
    pub fn new(now: Timestamp) -> (r: Self)
        ensures
            r@ == now,
    {
        StaticClock { now }
    }
}

impl Clock for StaticClock {
    open spec fn reads(&self, reading: Timestamp) -> bool {
        reading == self@
    }

    fn now(&self) -> (r: Timestamp) {
        self.now
    }
}

/// The second between 1970 and the end of the year 9999 that is nearest to `seconds`.
pub open spec fn nearest_seconds(seconds: i64) -> i64 {
    if seconds < 0 {
        0
    } else if seconds > LATEST_SECONDS {
        LATEST_SECONDS
    } else {
        seconds
    }
}

impl Timestamp {
    /// The reading nearest to `seconds` after 1970-01-01 00:00:00 UTC: that
    /// second itself where it lies between 1970 and the end of the year
    /// 9999, otherwise the first or the last reading there is.
    pub fn nearest(seconds: i64) -> (r: Self)
        ensures
            r@ == nearest_seconds(seconds),
    {
        if seconds < 0 {
            Timestamp { seconds: 0 }
        } else if seconds > LATEST_SECONDS {
            Timestamp { seconds: LATEST_SECONDS }
        } else {
            Timestamp { seconds }
        }
    }
}

} // verus!
