//! Error taxonomy of the transport layer.

use vstd::prelude::*;

verus! {

/// What went wrong, by kind.
///
/// `IOError` is a transport-level read or write failure; `ClosedError` a use
/// of the queue or the assembler after close; `TimeoutError` an elapsed
/// liveness deadline or bounded wait; `ParseError` a malformed frame;
/// `InterruptedError` an application handler's explicit fatal classification.
#[derive(Clone, Debug)]
pub enum Error {
    IOError(String),
    ClosedError,
    TimeoutError,
    ParseError,
    InterruptedError,
}

impl Error {
    /// A short description of the error kind.
    pub fn describe(&self) -> (s: &'static str)
        ensures
            self is IOError ==> s@ == "io error"@,
            self is ClosedError ==> s@ == "closed"@,
            self is TimeoutError ==> s@ == "timeout"@,
            self is ParseError ==> s@ == "parse error"@,
            self is InterruptedError ==> s@ == "interrupted"@,
    {
        match self {
            Error::IOError(_) => "io error",
            Error::ClosedError => "closed",
            Error::TimeoutError => "timeout",
            Error::ParseError => "parse error",
            Error::InterruptedError => "interrupted",
        }
    }
}

} // verus!
