//! The checks made before a child process is spawned.
use vstd::prelude::*;

verus! {

/// Error of a process tube.
#[derive(Debug)]
pub enum Error {
    ArgsError(String),
    StdIOError(std::io::Error),
    RecvError(String),
    SendError(String),
}

/// How a child process is started.
pub struct ProcessConfig {
    pub aslr: bool,
}

impl Default for ProcessConfig {
    fn default() -> (r: ProcessConfig)
        ensures
            r.aslr,
    {
        ProcessConfig { aslr: true }
    }
}

/// Accepts an argument vector when it names a program.
pub fn check_argv(argv: &Vec<String>) -> (r: Result<(), Error>)
    ensures
        r.is_ok() <==> argv@.len() > 0,
        r matches Err(Error::ArgsError(m)) ==> m@ == "Process argv was empty!"@,
        r matches Err(e) ==> e is ArgsError,
{
    if argv.len() == 0 {
        return Err(Error::ArgsError("Process argv was empty!".to_owned()));
    }
    Ok(())
}

/// Whether the child is spawned with address-space randomisation turned off.
pub fn disables_aslr(cfg: &ProcessConfig) -> (r: bool)
    ensures
        r == !cfg.aslr,
{
    !cfg.aslr
}

} // verus!
