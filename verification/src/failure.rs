//! The failures that an operation can report, and how each is classed.
use vstd::prelude::*;
use vstd::string::*;

verus! {

/// Why an operation failed.
#[derive(Clone, Debug, PartialEq, Eq)]
pub enum Failure {
    /// The upload grew beyond the byte budget.
    StreamTooLong,
    /// The upload ended before any chunk arrived.
    IncompleteMessage,
    /// No identifier is left to hand out.
    IdentifiersExhausted,
    /// The store refused to write the record; the text is the store's own.
    Store(String),
    /// The store refused the relayed statement; the text is the store's own.
    Query(String),
}

/// The class under which a failure is reported to the caller.
#[derive(Clone, Copy, Debug, PartialEq, Eq, Structural)]
pub enum FailureKind {
    Cancelled,
    Aborted,
    Internal,
    NotFound,
}

impl Failure {
    /// The class of this failure.
    pub open spec fn spec_kind(&self) -> FailureKind {
        match self {
            Failure::StreamTooLong => FailureKind::Cancelled,
            Failure::IncompleteMessage => FailureKind::Aborted,
            Failure::IdentifiersExhausted => FailureKind::Internal,
            Failure::Store(_) => FailureKind::Internal,
            Failure::Query(_) => FailureKind::NotFound,
        }
    }

    /// The text that accompanies this failure.
    pub open spec fn spec_message(&self) -> Seq<char> {
        match self {
            Failure::StreamTooLong => "too long input data"@,
            Failure::IncompleteMessage => "Incomplete message or invalid data"@,
            Failure::IdentifiersExhausted => "no identifier left"@,
            Failure::Store(e) => "runtime execution error: "@ + e@,
            Failure::Query(e) => "Invalid query or Not Found: "@ + e@,
        }
    }

    /// The class of this failure.
    pub fn kind(&self) -> (k: FailureKind)
        ensures
            k == self.spec_kind(),
    {
        match self {
            Failure::StreamTooLong => FailureKind::Cancelled,
            Failure::IncompleteMessage => FailureKind::Aborted,
            Failure::IdentifiersExhausted => FailureKind::Internal,
            Failure::Store(_) => FailureKind::Internal,
            Failure::Query(_) => FailureKind::NotFound,
        }
    }

    /// The text that accompanies this failure: a fixed sentence, followed
    /// by the store's description where the store caused it.
    pub fn message(&self) -> (m: String)
        ensures
            m@ == self.spec_message(),
    {
        match self {
            Failure::StreamTooLong => String::from_str("too long input data"),
            Failure::IncompleteMessage => String::from_str("Incomplete message or invalid data"),
            Failure::IdentifiersExhausted => String::from_str("no identifier left"),
            Failure::Store(e) => String::from_str("runtime execution error: ").concat(e.as_str()),
            Failure::Query(e) => String::from_str("Invalid query or Not Found: ").concat(
                e.as_str(),
            ),
        }
    }
}

} // verus!
