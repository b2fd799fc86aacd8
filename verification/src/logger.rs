//! Lines of the supervisor's log. The library makes the lines; writing
//! them to the console and to the log file is the caller's.

use vstd::prelude::*;
use vstd::string::StringExecFns;

verus! {

/// How the time of a log line is written: date and time of day, as in
/// `2024-05-17 09:30:00`.
pub const TIME_PATTERN: &'static str = "%F %T";

/// The last second of the year 9999, counted from the start of 1970.
pub const LAST_SECOND: i64 = 253_402_300_799;

/// The text that stands for the instant `seconds` after the start of 1970,
/// in universal time, written as `pattern` says.
pub uninterp spec fn utc_text(seconds: i64, pattern: Seq<char>) -> Seq<char>;

/// The line that records `message` at the time written as `time`.
pub open spec fn line_text(time: Seq<char>, message: Seq<char>) -> Seq<char> {
    "["@ + time + "]: "@ + message
}

/// `chrono::DateTime::<Utc>::from_timestamp` with no fraction of a second,
/// then `DateTime::format` and the `to_string` of what it gives.
///
/// Trusted: the text depends on the two arguments alone, and an instant
/// between the start of 1970 and the end of 9999 has one. Only the one
/// pattern of the log is let through, whose items chrono all knows; with
/// an item that it does not know, `to_string` would panic.
#[verifier::external_body]
fn format_utc(seconds: i64, pattern: &str) -> (text: Option<String>)
    requires
        pattern@ == TIME_PATTERN@,
    ensures
        text matches Some(written) ==> written@ == utc_text(seconds, pattern@),
        0 <= seconds <= LAST_SECOND ==> text is Some,
{
    match chrono::DateTime::<chrono::Utc>::from_timestamp(seconds, 0) {
        Some(instant) => Some(instant.format(pattern).to_string()),
        None => None,
    }
}

/// Makes the line that records `message` at the time written as `time`:
/// the time in square brackets, a colon, a blank, the message.
pub fn format_line(time: &str, message: &str) -> (line: String)
    ensures
        line@ == line_text(time@, message@),
{
    let mut line = String::from_str("[");
    line.append(time);
    line.append("]: ");
    line.append(message);
    line
}

/// Makes the log line for `message` at the instant `seconds` after the
/// start of 1970, in universal time. There is a line for every instant up
/// to the end of the year 9999; `None` is for an instant that the calendar
/// cannot hold.
pub fn log_write(seconds: i64, message: &str) -> (line: Option<String>)
    ensures
        line matches Some(written) ==> written@ == line_text(utc_text(seconds, TIME_PATTERN@), message@),
        0 <= seconds <= LAST_SECOND ==> line is Some,
{
    match format_utc(seconds, TIME_PATTERN) {
        Some(time) => Some(format_line(time.as_str(), message)),
        None => None,
    }
}

} // verus!
