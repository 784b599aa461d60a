//! Instants, and the two things the engine asks of the calendar library:
//! the current time and the text of a timestamp.

use vstd::prelude::*;

verus! {

/// An instant with the UTC offset it was quoted in.
///
/// `secs` counts whole seconds since the Unix epoch and alone decides the
/// order of two timestamps; `offset_secs` (local time minus UTC) only shapes
/// the text.
#[derive(Clone, Copy, Debug, PartialEq, Eq, Structural)]
pub struct Timestamp {
    pub secs: i64,
    pub offset_secs: i32,
}

/// The RFC 3339 text that `chrono` writes for the instant `secs` in a zone
/// `offset_secs` east of UTC, or `None` where `chrono` cannot represent one
/// of the two.
pub uninterp spec fn rfc3339_text(secs: int, offset_secs: int) -> Option<Seq<char>>;

/// Trusted: `chrono::DateTime::to_rfc3339` on the instant built by
/// `DateTime::from_timestamp(secs, 0)` and moved to the zone
/// `FixedOffset::east_opt(offset_secs)`. The contract only names the outcome:
/// it is the same for the same two numbers, and absent when either
/// constructor declines its argument.
#[verifier::external_body]
fn format_rfc3339(secs: i64, offset_secs: i32) -> (text: Option<String>)
    ensures
        text matches Some(s) ==> rfc3339_text(secs as int, offset_secs as int) == Some(s@),
        text is None ==> rfc3339_text(secs as int, offset_secs as int) is None,
{
    let utc = chrono::DateTime::from_timestamp(secs, 0)?;
    let zone = chrono::FixedOffset::east_opt(offset_secs)?;
    Some(utc.with_timezone(&zone).to_rfc3339())
}

/// Trusted: `chrono::Utc::now`, as whole seconds since the Unix epoch and
/// the nanoseconds past them. Nothing is claimed of a clock reading. Like
/// `chrono`, this stops the program on a system clock set before 1970.
#[verifier::external_body]
pub(crate) fn utc_now() -> (now: (i64, u32)) {
    let now = chrono::Utc::now();
    (now.timestamp(), now.timestamp_subsec_nanos())
}

/// The first whole second that is not before a clock reading.
pub open spec fn second_at_or_after(secs: int, nanos: int) -> int {
    if nanos > 0 && secs < i64::MAX {
        secs + 1
    } else {
        secs
    }
}

/// Executable `second_at_or_after`.
pub fn round_up_to_second(secs: i64, nanos: u32) -> (s: i64)
    ensures
        s == second_at_or_after(secs as int, nanos as int),
{
    if nanos > 0 && secs < i64::MAX {
        secs + 1
    } else {
        secs
    }
}

/// The current time in whole seconds, rounded down.
pub(crate) fn current_second() -> i64 {
    let (secs, _nanos) = utc_now();
    secs
}

/// The first whole second that is not in the past: a slot is still ahead
/// exactly if it starts at or after this second.
pub(crate) fn next_whole_second() -> i64 {
    let (secs, nanos) = utc_now();
    round_up_to_second(secs, nanos)
}

impl Timestamp {
    /// The timestamp as RFC 3339 text, when the calendar can express it.
    pub fn to_rfc3339(&self) -> (text: Option<String>)
        ensures
            text matches Some(s) ==> rfc3339_text(self.secs as int, self.offset_secs as int)
                == Some(s@),
            text is None ==> rfc3339_text(self.secs as int, self.offset_secs as int) is None,
    {
        format_rfc3339(self.secs, self.offset_secs)
    }

    /// Whole minutes from `earlier` to `self`, rounded toward zero.
    pub open spec fn minutes_since(self, earlier: Timestamp) -> int {
        crate::units::trunc_div(self.secs - earlier.secs, 60)
    }

    /// Executable `minutes_since`.
    pub fn whole_minutes_since(&self, earlier: &Timestamp) -> (m: i64)
        ensures
            m == self.minutes_since(*earlier),
    {
        let diff: i128 = self.secs as i128 - earlier.secs as i128;
        let q: i128 = crate::units::trunc_div_exec(diff, 60);
        q as i64
    }
}

} // verus!
