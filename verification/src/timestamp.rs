use vstd::prelude::*;

verus! {

/// An hour and a minute of a day, in UTC.
#[derive(Debug, Clone, Copy, PartialEq, Eq, Structural)]
pub struct TimeOfDay {
    pub hour: u32,
    pub minute: u32,
}

impl TimeOfDay {
    /// The hour is below 24 and the minute below 60.
    pub open spec fn wf(&self) -> bool {
        self.hour < 24 && self.minute < 60
    }
}

/// The UTC hour and minute of the instant that `text` denotes as an RFC 3339 timestamp,
/// or `None` where `text` is no such timestamp.
pub uninterp spec fn rfc3339_time_of_day(text: Seq<char>) -> Option<TimeOfDay>;

/// Parses with `chrono::DateTime::parse_from_rfc3339`, moves the instant to UTC with
/// `DateTime::with_timezone` and reads `Timelike::hour` and `Timelike::minute`. Trusted:
/// the result is what `rfc3339_time_of_day` names, and an hour read this way is below 24
/// and a minute below 60.
#[verifier::external_body]
pub(crate) fn parse_time_of_day(text: &str) -> (out: Option<TimeOfDay>)
    ensures
        out == rfc3339_time_of_day(text@),
        out matches Some(time) ==> time.wf(),
{
    match chrono::DateTime::parse_from_rfc3339(text) {
        Ok(parsed) => {
            let utc = parsed.with_timezone(&chrono::Utc);
            Some(TimeOfDay { hour: chrono::Timelike::hour(&utc), minute: chrono::Timelike::minute(&utc) })
        },
        Err(_) => None,
    }
}

} // verus!
