//! Log severities and the decision whether a message is shown.
use vstd::prelude::*;
use crate::context::Context;

verus! {

/// Severity of a log message, from least to most severe.
#[derive(Clone, Copy, Debug, PartialEq, Eq, Structural)]
pub enum LogLevel {
    Debug,
    Info,
    Warning,
    Error,
    Critical,
}

impl Default for LogLevel {
    fn default() -> (r: LogLevel)
        ensures
            r == LogLevel::Info,
    {
        LogLevel::Info
    }
}

/// The rank of a severity: 0 for `Debug` up to 4 for `Critical`.
pub open spec fn rank(level: LogLevel) -> i32 {
    match level {
        LogLevel::Debug => 0,
        LogLevel::Info => 1,
        LogLevel::Warning => 2,
        LogLevel::Error => 3,
        LogLevel::Critical => 4,
    }
}

/// The rank of `level`.
pub fn level_to_val(level: LogLevel) -> (r: i32)
    ensures
        r == rank(level),
{
    match level {
        LogLevel::Debug => 0,
        LogLevel::Info => 1,
        LogLevel::Warning => 2,
        LogLevel::Error => 3,
        LogLevel::Critical => 4,
    }
}

/// The least severity that `ctx` shows.
pub fn get_log_level(ctx: &Context) -> (r: LogLevel)
    ensures
        r == ctx.log_level,
{
    ctx.log_level
}

/// Whether a message of severity `log_level` is shown under `ctx`.
pub fn should_log(ctx: &Context, log_level: LogLevel) -> (r: bool)
    ensures
        r == (rank(log_level) >= rank(ctx.log_level)),
{
    let curr_level = level_to_val(get_log_level(ctx));
    let req_level = level_to_val(log_level);
    req_level >= curr_level
}

} // verus!
