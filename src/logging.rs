use vstd::prelude::*;
use vstd::string::*;

use crate::lookup::{has_substring, text_contains};

verus! {

/// How important a log message is.
#[derive(Debug, Clone, Copy, PartialEq, Eq, Structural)]
pub enum Level {
    Debug,
    Info,
    Warning,
    Error,
}

/// A message to log, with its level.
#[derive(Debug)]
pub struct LogRecord {
    pub level: Level,
    pub text: String,
}

pub open spec fn level_name_of(level: Level) -> Seq<char> {
    match level {
        Level::Debug => "DEBUG"@,
        Level::Info => "INFO"@,
        Level::Warning => "WARNING"@,
        Level::Error => "ERROR"@,
    }
}

/// The name of a level, as it is printed and as a log-level setting
/// spells it.
pub fn level_name(level: Level) -> (r: String)
    ensures
        r@ == level_name_of(level),
{
    match level {
        Level::Debug => String::from_str("DEBUG"),
        Level::Info => String::from_str("INFO"),
        Level::Warning => String::from_str("WARNING"),
        Level::Error => String::from_str("ERROR"),
    }
}

/// Whether a message of `level` is printed under the log-level `setting`:
/// nothing is printed where the setting holds `NO`; otherwise information,
/// warnings and errors always are, and debug messages where the setting
/// holds `DEBUG`.
pub open spec fn log_enabled_spec(setting: Seq<char>, level: Level) -> bool {
    !has_substring(setting, "NO"@) && (has_substring(setting, level_name_of(level)) || !(
    level is Debug))
}

/// Decides whether a message of `level` is printed under `setting`.
pub fn log_enabled(setting: &str, level: Level) -> (r: bool)
    ensures
        r == log_enabled_spec(setting@, level),
{
    if text_contains(setting, "NO") {
        return false;
    }
    let name = level_name(level);
    text_contains(setting, name.as_str()) || !matches!(level, Level::Debug)
}

/// An information message.
pub fn info(text: String) -> (r: LogRecord)
    ensures
        r.level == Level::Info,
        r.text == text,
{
    LogRecord { level: Level::Info, text }
}

/// A warning.
pub fn warning(text: String) -> (r: LogRecord)
    ensures
        r.level == Level::Warning,
        r.text == text,
{
    LogRecord { level: Level::Warning, text }
}

/// An error message.
pub fn error(text: String) -> (r: LogRecord)
    ensures
        r.level == Level::Error,
        r.text == text,
{
    LogRecord { level: Level::Error, text }
}

/// A debug message.
pub fn debug(text: String) -> (r: LogRecord)
    ensures
        r.level == Level::Debug,
        r.text == text,
{
    LogRecord { level: Level::Debug, text }
}

} // verus!
