//! Diagnostic log collaborator.
//!
//! The logger is explicit state handed to the functions that emit
//! diagnostics: it filters messages by a configured minimum level and
//! collects the admitted ones in order. The surrounding program drains and
//! prints the collected entries; nothing in this crate performs output.

use vstd::prelude::*;

verus! {

/// Severity of a log message, or `NONE` to suppress all output.
#[allow(non_camel_case_types)]
#[derive(Clone, Copy, PartialEq, Eq, Structural, Debug)]
pub enum LogLevel {
    DEBUG,
    WARNING,
    ERROR,
    NONE,
}

/// Numeric severity rank; higher is more severe, `NONE` suppresses.
pub open spec fn level_rank(level: LogLevel) -> int {
    match level {
        LogLevel::DEBUG => 0,
        LogLevel::WARNING => 1,
        LogLevel::ERROR => 2,
        LogLevel::NONE => 3,
    }
}

/// A message of severity `message_level` is kept when the active level
/// admits it: neither side is `NONE` and the message is at least as severe
/// as the active level.
pub open spec fn level_admits(active: LogLevel, message_level: LogLevel) -> bool {
    &&& level_rank(message_level) < 3
    &&& level_rank(active) < 3
    &&& level_rank(active) <= level_rank(message_level)
}

/// One collected diagnostic message.
#[derive(Clone, Debug)]
pub struct LogEntry {
    pub level: LogLevel,
    pub message: String,
}

/// Collects admitted diagnostic messages in emission order.
#[derive(Debug)]
pub struct Logger {
    /// Minimum level a message must reach to be kept.
    pub level: LogLevel,
    pub entries: Vec<LogEntry>,
}

impl Logger {
    pub fn new(level: LogLevel) -> (r: Logger)
        ensures
            r.level == level,
            r.entries@.len() == 0,
    {
        Logger { level, entries: Vec::new() }
    }
}

/// Sets the minimum log level the logger will keep.
pub fn set_active_log_level(logger: &mut Logger, level: LogLevel)
    ensures
        final(logger).level == level,
        final(logger).entries@ == old(logger).entries@,
{
    logger.level = level;
}

/// Records `message` at `level` when the logger's active level admits it;
/// otherwise the logger is unchanged.
pub fn log(logger: &mut Logger, level: LogLevel, message: String)
    ensures
        final(logger).level == old(logger).level,
        level_admits(old(logger).level, level) ==> final(logger).entries@ == old(
            logger,
        ).entries@.push(LogEntry { level, message }),
        !level_admits(old(logger).level, level) ==> final(logger).entries@ == old(
            logger,
        ).entries@,
{
    let admitted = match (level, logger.level) {
        (LogLevel::DEBUG, LogLevel::DEBUG) => true,
        (LogLevel::WARNING, LogLevel::DEBUG) => true,
        (LogLevel::WARNING, LogLevel::WARNING) => true,
        (LogLevel::ERROR, LogLevel::DEBUG) => true,
        (LogLevel::ERROR, LogLevel::WARNING) => true,
        (LogLevel::ERROR, LogLevel::ERROR) => true,
        _ => false,
    };
    if admitted {
        logger.entries.push(LogEntry { level, message });
    }
}

pub fn debug(logger: &mut Logger, message: String)
    ensures
        final(logger).level == old(logger).level,
        level_admits(old(logger).level, LogLevel::DEBUG) ==> final(logger).entries@ == old(
            logger,
        ).entries@.push(LogEntry { level: LogLevel::DEBUG, message }),
        !level_admits(old(logger).level, LogLevel::DEBUG) ==> final(logger).entries@ == old(
            logger,
        ).entries@,
{
    log(logger, LogLevel::DEBUG, message);
}

pub fn warning(logger: &mut Logger, message: String)
    ensures
        final(logger).level == old(logger).level,
        level_admits(old(logger).level, LogLevel::WARNING) ==> final(logger).entries@ == old(
            logger,
        ).entries@.push(LogEntry { level: LogLevel::WARNING, message }),
        !level_admits(old(logger).level, LogLevel::WARNING) ==> final(logger).entries@ == old(
            logger,
        ).entries@,
{
    log(logger, LogLevel::WARNING, message);
}

pub fn error(logger: &mut Logger, message: String)
    ensures
        final(logger).level == old(logger).level,
        level_admits(old(logger).level, LogLevel::ERROR) ==> final(logger).entries@ == old(
            logger,
        ).entries@.push(LogEntry { level: LogLevel::ERROR, message }),
        !level_admits(old(logger).level, LogLevel::ERROR) ==> final(logger).entries@ == old(
            logger,
        ).entries@,
{
    log(logger, LogLevel::ERROR, message);
}

/// The display name of a log level.
pub fn get_log_level_str(level: LogLevel) -> (r: &'static str)
    ensures
        level is DEBUG ==> r@ == "DEBUG"@,
        level is WARNING ==> r@ == "WARNING"@,
        level is ERROR ==> r@ == "ERROR"@,
        level is NONE ==> r@ == "NONE"@,
{
    match level {
        LogLevel::DEBUG => "DEBUG",
        LogLevel::WARNING => "WARNING",
        LogLevel::ERROR => "ERROR",
        LogLevel::NONE => "NONE",
    }
}

} // verus!
