//! Command-line options as plain data, and the verbosity-to-filter rule.
//!
//! The structs mirror what the command line hands the program; the parsing
//! itself is done outside the library and only the resulting values enter.

use vstd::prelude::*;

verus! {

/// A logging threshold, from most to least talkative.
#[derive(Clone, Copy, Debug, PartialEq, Eq, Structural)]
pub enum LevelFilter {
    Trace,
    Debug,
    Info,
    Warn,
}

pub struct Verbosity {
    pub debug: bool,
    pub verbose: bool,
    pub quiet: bool,
}

pub struct Authentication {
    pub username: Option<String>,
    pub password: Option<String>,
    pub insecure: bool,
}

pub struct Arguments {
    pub verbosity: Verbosity,
    pub authentication: Authentication,
    pub hostname: String,
    pub port: u16,
    pub output: String,
}

impl Verbosity {
    /// The logging threshold that a set of verbosity flags selects:
    /// `debug` wins over `verbose`, which wins over `quiet`; with no flag
    /// set, informational messages and above are shown.
    pub fn to_filter(&self) -> (filter: LevelFilter)
        ensures
            filter == (if self.debug {
                LevelFilter::Trace
            } else if self.verbose {
                LevelFilter::Debug
            } else if self.quiet {
                LevelFilter::Warn
            } else {
                LevelFilter::Info
            }),
    {
        if self.debug {
            LevelFilter::Trace
        } else if self.verbose {
            LevelFilter::Debug
        } else if self.quiet {
            LevelFilter::Warn
        } else {
            LevelFilter::Info
        }
    }
}

} // verus!
