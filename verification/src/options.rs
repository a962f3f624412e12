use vstd::prelude::*;

verus! {

/// The command-line surface: the configuration file path, an optional
/// extensions-directory override that outranks the configured one, and the
/// repeatable verbosity flag.
#[derive(Debug, Clone, PartialEq, Eq)]
pub struct CliOptions {
    pub config: String,
    pub extensions_path: Option<String>,
    pub verbose: u64,
}

/// The log levels the verbosity flag selects among.
#[derive(Debug, Clone, Copy, PartialEq, Eq, Structural)]
pub enum LogLevel {
    Info,
    Debug,
    Trace,
}

/// Maps the repeatable verbosity flag to a log level: `0` is info, `1` is
/// debug, two or more is trace.
pub fn log_level_for(verbose: u64) -> (r: LogLevel)
    ensures
        verbose == 0 ==> r is Info,
        verbose == 1 ==> r is Debug,
        verbose >= 2 ==> r is Trace,
{
    match verbose {
        0 => LogLevel::Info,
        1 => LogLevel::Debug,
        _ => LogLevel::Trace,
    }
}

} // verus!
