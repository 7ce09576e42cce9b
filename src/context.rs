//! The configuration that tubes and logging read.
use vstd::prelude::*;
use crate::logging::LogLevel;
use crate::timer::TimeoutVal;

verus! {

/// Configuration: whether spawned processes keep address-space
/// randomisation, the least severity that is logged, and the default
/// timeout.
pub struct Context {
    pub aslr: bool,
    pub log_level: LogLevel,
    pub timeout: TimeoutVal,
}

impl Default for Context {
    fn default() -> (r: Context)
        ensures
            r.aslr,
            r.log_level == LogLevel::Info,
            r.timeout == TimeoutVal::Default,
    {
        Context { aslr: true, log_level: LogLevel::Info, timeout: TimeoutVal::Default }
    }
}

/// Runs `f` with exclusive access to `ctx` and returns what it returns.
pub fn access<F, R>(ctx: &mut Context, f: F) -> (r: R)
    where
        F: FnOnce(&mut Context) -> R,
    requires
        forall|c: &mut Context| call_requires(f, (c,)),
    ensures
        exists|c: &mut Context| *c == *old(ctx) && call_ensures(f, (c,), r) && *final(c) == *final(ctx),
{
    f(ctx)
}

} // verus!
