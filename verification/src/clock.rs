//! Wall-clock time as events carry it.

use vstd::prelude::*;

verus! {

/// A point of the system's clock.
#[verifier::external_type_specification]
#[verifier::external_body]
pub struct ExSystemTime(std::time::SystemTime);

/// What `duration_since` reports when the clock stands before the reference point.
#[verifier::external_type_specification]
#[verifier::external_body]
pub struct ExSystemTimeError(std::time::SystemTimeError);

/// `SystemTime::now` reads the clock: nothing is known of the point it returns.
pub assume_specification[ std::time::SystemTime::now ]() -> std::time::SystemTime;

/// The span from the Unix epoch to a point of the clock, unless the point lies before it.
pub uninterp spec fn elapsed(point: std::time::SystemTime) -> Option<std::time::Duration>;

/// The whole seconds of a span.
pub uninterp spec fn whole_seconds(span: std::time::Duration) -> u64;

/// The nanoseconds of a span beyond its whole seconds.
pub uninterp spec fn nanos_beyond(span: std::time::Duration) -> u32;

/// `SystemTime::duration_since` with `SystemTime::UNIX_EPOCH` as the earlier point: the span
/// between the two, or an error where the epoch is the later. Nothing is said of which span that
/// is, only that the point fixes it.
#[verifier::external_body]
fn since_epoch(point: &std::time::SystemTime) -> (span: Result<
    std::time::Duration,
    std::time::SystemTimeError,
>)
    ensures
        match span {
            Ok(span) => elapsed(*point) == Some(span),
            Err(_) => elapsed(*point) is None,
        },
{
    point.duration_since(std::time::SystemTime::UNIX_EPOCH)
}

/// `Duration::as_secs` gives the whole seconds of a span.
pub assume_specification[ std::time::Duration::as_secs ](span: &std::time::Duration) -> (secs: u64)
    ensures
        secs == whole_seconds(*span),
;

/// `Duration::subsec_nanos` gives the part of a span that is less than a second.
pub assume_specification[ std::time::Duration::subsec_nanos ](
    span: &std::time::Duration,
) -> (nanos: u32)
    ensures
        nanos == nanos_beyond(*span),
        nanos < 1_000_000_000,
;

/// Time since the Unix epoch.
#[derive(Clone, Copy, Debug, PartialEq, Eq, Structural)]
pub struct WallTime {
    pub secs: u64,
    pub nanos: u32,
}

impl WallTime {
    /// Whether the nanoseconds are less than a second.
    pub open spec fn valid(self) -> bool {
        self.nanos < 1_000_000_000
    }

    /// The time that lies this span after the epoch. Without a span it is the epoch itself.
    pub open spec fn after_epoch(span: Option<std::time::Duration>) -> Self {
        match span {
            Some(span) => WallTime { secs: whole_seconds(span), nanos: nanos_beyond(span) },
            None => WallTime { secs: 0, nanos: 0 },
        }
    }

    /// Whether the system's clock shows this time at some point.
    pub open spec fn is_shown(self) -> bool {
        &&& self.valid()
        &&& exists|clock: std::time::SystemTime|
            self == Self::after_epoch(#[trigger] elapsed(clock))
    }

    /// The time that a clock shows which stands this span after the epoch. A clock that stands
    /// before the epoch shows the epoch itself.
    pub fn shown(span: Result<std::time::Duration, std::time::SystemTimeError>) -> (time: Self)
        ensures
            time == Self::after_epoch(span.ok()),
            time.valid(),
    {
        match span {
            Ok(span) => WallTime { secs: span.as_secs(), nanos: span.subsec_nanos() },
            Err(_) => WallTime { secs: 0, nanos: 0 },
        }
    }

    /// The current time: what the system's clock shows, whatever point it stands at.
    pub fn now() -> (now: Self)
        ensures
            now.is_shown(),
    {
        let clock = std::time::SystemTime::now();
        let span = since_epoch(&clock);
        assert(span.ok() == elapsed(clock));
        Self::shown(span)
    }
}

/// A length of time, as periods are given.
#[derive(Clone, Copy, Debug, PartialEq, Eq, Structural)]
pub struct Period {
    pub secs: u64,
    pub nanos: u32,
}

impl Period {
    /// The whole milliseconds of the period.
    pub open spec fn millis(self) -> nat {
        (self.secs * 1000 + self.nanos / 1_000_000) as nat
    }

    /// A period of `millis` milliseconds.
    pub fn from_millis(millis: u64) -> (period: Self)
        ensures
            period.millis() == millis,
            period.nanos < 1_000_000_000,
            period.nanos % 1_000_000 == 0,
    {
        let rest: u64 = millis % 1000;
        Period { secs: millis / 1000, nanos: (rest * 1_000_000) as u32 }
    }

    /// The whole milliseconds of the period.
    pub fn as_millis(&self) -> (millis: u128)
        ensures
            millis == self.millis(),
    {
        self.secs as u128 * 1000 + (self.nanos / 1_000_000) as u128
    }
}

/// A time is what has passed since the epoch, in whole seconds and the rest of them, or nothing
/// where the clock stands before the epoch.
pub proof fn times_count_from_the_epoch(span: std::time::Duration)
    ensures
        WallTime::after_epoch(Some(span)).secs == whole_seconds(span),
        WallTime::after_epoch(Some(span)).nanos == nanos_beyond(span),
        WallTime::after_epoch(None).secs == 0,
        WallTime::after_epoch(None).nanos == 0,
{
}

/// A time that a clock shows is one that some clock shows, and has less than a second beyond its
/// seconds.
pub proof fn shown_times_are_on_a_clock(time: WallTime)
    requires
        time.is_shown(),
    ensures
        time.nanos < 1_000_000_000,
        exists|clock: std::time::SystemTime|
            match #[trigger] elapsed(clock) {
                Some(span) => time.secs == whole_seconds(span) && time.nanos == nanos_beyond(span),
                None => time.secs == 0 && time.nanos == 0,
            },
{
    let clock = choose|clock: std::time::SystemTime|
        time == WallTime::after_epoch(#[trigger] elapsed(clock));
    assert(time == WallTime::after_epoch(elapsed(clock)));
}

/// A period lasts for as many milliseconds as its seconds and its nanoseconds have together; what
/// is less than one is left out.
pub proof fn periods_last_for_milliseconds(period: Period)
    ensures
        period.millis() * 1_000_000 <= period.secs * 1_000_000_000 + period.nanos,
        period.secs * 1_000_000_000 + period.nanos < (period.millis() + 1) * 1_000_000,
{
}

/// A period of so many milliseconds lasts for exactly that long.
pub proof fn periods_of_milliseconds(millis: u64, period: Period)
    requires
        call_ensures(Period::from_millis, (millis,), period),
    ensures
        period.secs * 1_000_000_000 + period.nanos == millis * 1_000_000,
        period.nanos < 1_000_000_000,
{
}

/// The time that is shown is that since the epoch, or the epoch itself where that cannot be told.
pub proof fn shown_times_count_from_the_epoch(
    span: Result<std::time::Duration, std::time::SystemTimeError>,
    time: WallTime,
)
    requires
        call_ensures(WallTime::shown, (span,), time),
    ensures
        span matches Ok(span) ==> time.secs == whole_seconds(span) && time.nanos == nanos_beyond(
            span,
        ),
        span is Err ==> time.secs == 0 && time.nanos == 0,
        time.nanos < 1_000_000_000,
{
}

/// As many milliseconds as were asked for are told of a period.
pub proof fn milliseconds_are_told(millis: u64, period: Period, told: u128)
    requires
        call_ensures(Period::from_millis, (millis,), period),
        call_ensures(Period::as_millis, (&period,), told),
    ensures
        told == millis,
{
}

} // verus!
