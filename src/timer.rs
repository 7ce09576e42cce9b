//! Timeout values and their resolution to spans of time.
use vstd::prelude::*;
use std::time::Duration;
use crate::context::Context;

verus! {

/// Error of a time-bounded task.
#[derive(Debug)]
pub enum TimerError {
    TimeoutError,
    DisconnectError,
    StdIOError(std::io::Error),
}

/// A timeout: the configured default, no bound, or a given span.
#[derive(Clone, Copy, Debug)]
pub enum TimeoutVal {
    Default,
    Forever,
    Duration(Duration),
}

impl Default for TimeoutVal {
    fn default() -> (r: TimeoutVal)
        ensures
            r == TimeoutVal::Default,
    {
        TimeoutVal::Default
    }
}

/// The span of `secs` seconds and `nanos` nanoseconds.
pub uninterp spec fn span(secs: u64, nanos: u32) -> Duration;

/// Relies on `Duration::new`: the span of `secs` seconds and `nanos`
/// nanoseconds; with `nanos` below one second it cannot overflow.
#[verifier::external_body]
fn make_span(secs: u64, nanos: u32) -> (r: Duration)
    requires
        nanos < 1_000_000_000,
    ensures
        r == span(secs, nanos),
{
    Duration::new(secs, nanos)
}

/// The span used when neither the call nor the context gives one: 100 ms.
pub open spec fn fallback_span() -> Duration {
    span(0, 100_000_000)
}

/// The largest span there is.
pub open spec fn max_span() -> Duration {
    span(u64::MAX, 999_999_999)
}

/// The span that a timeout stands for: its own span, the largest span for
/// `Forever`, and for `Default` the context's timeout, or 100 ms when the
/// context sets none.
pub open spec fn resolved(timeout: TimeoutVal, ctx_timeout: TimeoutVal) -> Duration {
    match timeout {
        TimeoutVal::Duration(d) => d,
        TimeoutVal::Forever => max_span(),
        TimeoutVal::Default => match ctx_timeout {
            TimeoutVal::Duration(d) => d,
            TimeoutVal::Forever => max_span(),
            TimeoutVal::Default => fallback_span(),
        },
    }
}

/// Resolves `timeout` against the context `ctx`.
pub fn timeout_to_duration(timeout: TimeoutVal, ctx: &Context) -> (r: Duration)
    ensures
        r == resolved(timeout, ctx.timeout),
{
    let own = match timeout {
        TimeoutVal::Default => ctx.timeout,
        other => other,
    };
    match own {
        TimeoutVal::Duration(d) => d,
        TimeoutVal::Forever => make_span(u64::MAX, 999_999_999),
        TimeoutVal::Default => make_span(0, 100_000_000),
    }
}

} // verus!
