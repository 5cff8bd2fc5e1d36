//! Clock readings and the engine's log lines.
use vstd::prelude::*;
use vstd::string::StringExecFns;

verus! {

/// Whether `c` is an ASCII digit.
pub open spec fn is_digit(c: char) -> bool {
    '0' <= c && c <= '9'
}

/// Whether `s` ends in a time of day ` HH:MM:SS`.
pub open spec fn ends_with_clock(s: Seq<char>) -> bool {
    let n = s.len() as int;
    &&& n >= 9
    &&& s[n - 9] == ' '
    &&& is_digit(s[n - 8]) && is_digit(s[n - 7])
    &&& s[n - 6] == ':'
    &&& is_digit(s[n - 5]) && is_digit(s[n - 4])
    &&& s[n - 3] == ':'
    &&& is_digit(s[n - 2]) && is_digit(s[n - 1])
}

/// Relies on chrono's `DateTime<Local>::from(SystemTime)` formatted as
/// `%F %T`: the local date, a space, and the zero-padded time of day. Which
/// date and time it is depends on the clock.
#[verifier::external_body]
pub fn now() -> (r: String)
    ensures
        ends_with_clock(r@),
{
    chrono::DateTime::<chrono::Local>::from(std::time::SystemTime::now()).format("%F %T").to_string()
}

/// Relies on std's `SystemTime::now` and `duration_since(UNIX_EPOCH)`: the
/// milliseconds since the Unix epoch, 0 for a clock set before it. Nothing
/// more is promised of a reading of the clock.
#[verifier::external_body]
pub fn get_current_timestamp() -> (r: i64)
    ensures
        r >= 0,
{
    match std::time::SystemTime::now().duration_since(std::time::UNIX_EPOCH) {
        Ok(d) => i64::try_from(d.as_millis()).unwrap_or(i64::MAX),
        Err(_) => 0,
    }
}

/// Severity of a log line.
#[derive(Clone, Copy, Debug, PartialEq, Eq, Structural)]
pub enum Level {
    Info,
    Error,
}

/// A line for the log, with its severity.
pub struct LogLine {
    pub level: Level,
    pub text: String,
}

/// The text of a log line: `[time] [account]: message`.
pub open spec fn line_text(time: Seq<char>, name: Seq<char>, msg: Seq<char>) -> Seq<char> {
    "["@ + time + "] ["@ + name + "]: "@ + msg
}

/// Formats a log line for an account at a given time.
pub fn format_line(time: &str, name: &str, msg: &str) -> (r: String)
    ensures
        r@ == line_text(time@, name@, msg@),
{
    let mut s = String::from_str("[");
    s.append(time);
    s.append("] [");
    s.append(name);
    s.append("]: ");
    s.append(msg);
    s
}

/// An informational log line for an account, stamped with the local time.
pub fn format_println(name: &str, msg: &str) -> (r: LogLine)
    ensures
        r.level == Level::Info,
        exists|t: Seq<char>| ends_with_clock(t) && r.text@ == line_text(t, name@, msg@),
{
    let t = now();
    LogLine { level: Level::Info, text: format_line(t.as_str(), name, msg) }
}

/// An error log line for an account, stamped with the local time.
pub fn format_error(name: &str, msg: &str) -> (r: LogLine)
    ensures
        r.level == Level::Error,
        exists|t: Seq<char>| ends_with_clock(t) && r.text@ == line_text(t, name@, msg@),
{
    let t = now();
    LogLine { level: Level::Error, text: format_line(t.as_str(), name, msg) }
}

} // verus!
