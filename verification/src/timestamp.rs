//! The moment at which a transaction was recorded, in whole seconds since the
//! Unix epoch, and its calendar date in UTC as `chrono` writes it.

use vstd::prelude::*;

verus! {

/// The first second for which `chrono` has a `DateTime<Utc>`: midnight on the
/// first day of the year -262143, counted from the Unix epoch.
pub const MIN_UNIX_SECONDS: i64 = -8_334_601_228_800;

/// The last second for which `chrono` has a `DateTime<Utc>`: the end of the
/// last day of the year 262142, counted from the Unix epoch.
pub const MAX_UNIX_SECONDS: i64 = 8_210_266_876_799;

/// Whether the moment this many seconds after the Unix epoch has a calendar
/// date: whether it lies in the years that `chrono` counts.
pub open spec fn representable(seconds: int) -> bool {
    MIN_UNIX_SECONDS <= seconds <= MAX_UNIX_SECONDS
}

/// What `chrono` writes under the format `%Y/%m/%d` for the moment this many
/// seconds after the Unix epoch, in UTC.
pub uninterp spec fn date_text(seconds: int) -> Seq<char>;

/// Calls `chrono::Utc::now` and takes the `timestamp` of what it gives. That is
/// the Unix timestamp of a `DateTime<Utc>`, all of which lie between the first
/// second of `DateTime::MIN_UTC` and the last of `DateTime::MAX_UTC`.
/// `Utc::now` panics on a system clock set before 1970.
#[verifier::external_body]
fn current_seconds() -> (seconds: i64)
    ensures
        representable(seconds as int),
{
    chrono::Utc::now().timestamp()
}

/// Calls `format("%Y/%m/%d")` on the `DateTime<Utc>` that
/// `chrono::DateTime::from_timestamp` gives for `seconds` and no nanoseconds,
/// and collects the text. `from_timestamp` has a `DateTime<Utc>` for every
/// second from that of `DateTime::MIN_UTC` to that of `DateTime::MAX_UTC`.
#[verifier::external_body]
fn format_date(seconds: i64) -> (text: String)
    requires
        representable(seconds as int),
    ensures
        text@ == date_text(seconds as int),
{
    chrono::DateTime::from_timestamp(seconds, 0).unwrap().format("%Y/%m/%d").to_string()
}

/// A moment in time: whole seconds since the Unix epoch, from
/// `MIN_UNIX_SECONDS` to `MAX_UNIX_SECONDS`.
#[derive(Clone, Copy, Debug, PartialEq, Eq, Structural)]
pub struct Timestamp(i64);

impl View for Timestamp {
    type V = int;

    closed spec fn view(&self) -> int {
        self.0 as int
    }
}

impl Timestamp {
    #[verifier::type_invariant]
    spec fn has_calendar_date(self) -> bool {
        representable(self.0 as int)
    }

    /// The present moment, read from the system clock. This panics where the
    /// system clock stands before 1970; `from_unix_seconds` never panics.
    pub fn now() -> (moment: Timestamp)
        ensures
            representable(moment@),
    {
        Timestamp(current_seconds())
    }

    /// The moment `seconds` after the Unix epoch (before it, if negative), if
    /// it has a calendar date.
    pub fn from_unix_seconds(seconds: i64) -> (moment: Option<Timestamp>)
        ensures
            moment is Some <==> representable(seconds as int),
            moment matches Some(t) ==> t@ == seconds,
    {
        if MIN_UNIX_SECONDS <= seconds && seconds <= MAX_UNIX_SECONDS {
            Some(Timestamp(seconds))
        } else {
            None
        }
    }

    /// Seconds since the Unix epoch.
    pub fn unix_seconds(&self) -> (seconds: i64)
        ensures
            seconds == self@,
            representable(self@),
    {
        proof {
            use_type_invariant(self);
        }
        self.0
    }

    /// The calendar date of the moment in UTC, as year, month and day with `/`
    /// between them.
    pub fn date(&self) -> (text: String)
        ensures
            text@ == date_text(self@),
    {
        proof {
            use_type_invariant(self);
        }
        format_date(self.0)
    }
}

} // verus!
