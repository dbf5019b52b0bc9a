//! Log lines of the bot: every line goes to the `home` target.

use vstd::prelude::*;

verus! {

/// Severity of a log line.
pub enum Level {
    Error,
    Info,
    Debug,
}

/// One log line: its severity, its target and its text.
pub struct LogRecord {
    pub level: Level,
    pub target: String,
    pub message: String,
}

/// A log line of severity `level` for the `home` target.
fn record(level: Level, message: String) -> (r: LogRecord)
    ensures
        r.level == level,
        r.target@ == "home"@,
        r.message == message,
{
    LogRecord { level, target: String::from_str("home"), message }
}

/// The debug line that says `message`.
pub fn _debug(message: String) -> (r: LogRecord)
    ensures
        r.level == Level::Debug,
        r.target@ == "home"@,
        r.message == message,
{
    record(Level::Debug, message)
}

/// The error line that says `message`.
pub fn error(message: String) -> (r: LogRecord)
    ensures
        r.level == Level::Error,
        r.target@ == "home"@,
        r.message == message,
{
    record(Level::Error, message)
}

/// The information line that says `message`.
pub fn info(message: String) -> (r: LogRecord)
    ensures
        r.level == Level::Info,
        r.target@ == "home"@,
        r.message == message,
{
    record(Level::Info, message)
}

} // verus!
