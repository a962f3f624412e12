use vstd::prelude::*;

verus! {

/// The fatal startup failures: each aborts the process before any background
/// service thread is started. The payload carries the diagnostic detail.
#[derive(Debug, PartialEq, Eq)]
pub enum StartupError {
    /// The configuration file existed but could not be read or parsed.
    ConfigParse(String),
    /// The persistent library store could not be opened at the configured path.
    StoreOpen(String),
    /// A chosen extension directory held a unit that failed to load.
    ExtensionLoad(String),
    /// A configured player backend could not be built.
    PlayerBuild(String),
    /// The process interrupt handler could not be installed.
    InterruptHandler(String),
}

impl StartupError {
    /// The diagnostic detail the error was built with.
    pub fn detail(&self) -> (r: &String)
        ensures
            r@ == self.detail_spec(),
    {
        match self {
            StartupError::ConfigParse(d) => d,
            StartupError::StoreOpen(d) => d,
            StartupError::ExtensionLoad(d) => d,
            StartupError::PlayerBuild(d) => d,
            StartupError::InterruptHandler(d) => d,
        }
    }

    pub open spec fn detail_spec(&self) -> Seq<char> {
        match self {
            StartupError::ConfigParse(d) => d@,
            StartupError::StoreOpen(d) => d@,
            StartupError::ExtensionLoad(d) => d@,
            StartupError::PlayerBuild(d) => d@,
            StartupError::InterruptHandler(d) => d@,
        }
    }
}

/// The process exit status demanded at the CLI surface: zero on clean
/// shutdown, non-zero on any fatal startup error.
pub fn exit_code(outcome: &Result<(), StartupError>) -> (r: i32)
    ensures
        r == 0 <==> outcome is Ok,
{
    match outcome {
        Ok(_) => 0,
        Err(_) => 1,
    }
}

} // verus!
