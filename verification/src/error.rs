//! The error kinds of the core.

use vstd::prelude::*;

verus! {

/// Why a run failed.
#[derive(Clone, Copy, Debug, PartialEq, Eq, Structural)]
pub enum Error {
    /// Switching the terminal mode, or drawing, failed.
    Terminal,
    /// The input stream ended or could not be read.
    Input,
    /// An event was sent on a command bus that no longer receives.
    Channel,
    /// A timer rate was not positive.
    Config,
}

impl Error {
    /// A short description of the error kind.
    pub fn message(&self) -> (r: &'static str)
        ensures
            r@ == (match *self {
                Error::Terminal => "terminal error"@,
                Error::Input => "input error"@,
                Error::Channel => "channel error"@,
                Error::Config => "configuration error"@,
            }),
    {
        match self {
            Error::Terminal => "terminal error",
            Error::Input => "input error",
            Error::Channel => "channel error",
            Error::Config => "configuration error",
        }
    }
}

} // verus!
