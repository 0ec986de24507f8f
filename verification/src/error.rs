//! The ways in which the reconciliation can be refused.
use vstd::prelude::*;
use vstd::string::*;

verus! {

/// Why an operation of the library did not go through.
#[derive(Debug, PartialEq, Eq)]
pub enum FoxsurError {
    /// No source is registered under the requested name.
    SourceNotFound,
    /// The Slack options are missing from the command line arguments.
    SlackOptionsNotFound,
    /// A source's pattern does not compile; the compiler's own message.
    InvalidRegex(String),
    /// An exchange answer holds no `markets` entry.
    NoMarkets,
    /// An exchange answer holds no `result` entry.
    NoResult,
}

impl FoxsurError {
    /// The message that reports the error.
    pub fn describe(&self) -> (r: String)
        ensures
            r@ == self.message(),
    {
        match self {
            FoxsurError::SourceNotFound => String::from_str("Source not found"),
            FoxsurError::SlackOptionsNotFound => String::from_str("Slack options not found"),
            FoxsurError::InvalidRegex(m) => m.clone(),
            FoxsurError::NoMarkets => String::from_str("No markets found"),
            FoxsurError::NoResult => String::from_str("No result found"),
        }
    }

    /// The message that reports the error, as text.
    pub open spec fn message(&self) -> Seq<char> {
        match self {
            FoxsurError::SourceNotFound => "Source not found"@,
            FoxsurError::SlackOptionsNotFound => "Slack options not found"@,
            FoxsurError::InvalidRegex(m) => m@,
            FoxsurError::NoMarkets => "No markets found"@,
            FoxsurError::NoResult => "No result found"@,
        }
    }
}

} // verus!
