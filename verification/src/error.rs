//! The error kinds of the extraction pipeline. Every failure is fatal to the
//! run; the payload carries the diagnostic text shown to the operator.

use vstd::prelude::*;

verus! {

/// A fatal failure of the pipeline. Each variant carries diagnostic text.
#[derive(Debug)]
pub enum IdlError {
    /// The external macro-expansion command exited with a non-zero status.
    ExpansionFailure(String),
    /// The expanded source text is not syntactically valid.
    ParseFailure(String),
    /// The manifest is missing, unreadable or malformed.
    ConfigError(String),
    /// The output document could not be persisted.
    WriteFailure(String),
}

impl IdlError {
    /// The diagnostic text carried by this error.
    pub fn diagnostic(&self) -> (r: &String)
        ensures
            r@ == self.diagnostic_text(),
    {
        match self {
            IdlError::ExpansionFailure(d) => d,
            IdlError::ParseFailure(d) => d,
            IdlError::ConfigError(d) => d,
            IdlError::WriteFailure(d) => d,
        }
    }

    /// The diagnostic text, as a sequence of characters.
    pub open spec fn diagnostic_text(&self) -> Seq<char> {
        match self {
            IdlError::ExpansionFailure(d) => d@,
            IdlError::ParseFailure(d) => d@,
            IdlError::ConfigError(d) => d@,
            IdlError::WriteFailure(d) => d@,
        }
    }
}

} // verus!
