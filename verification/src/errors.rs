//! The failures that end a workflow.

use vstd::prelude::*;
use vstd::string::*;

verus! {

/// The kinds of failure.
#[derive(Debug, Clone, Copy, PartialEq, Eq, Structural)]
pub enum ErrorKind {
    /// The store could not be reached.
    Connection,
    /// An input file could not be opened.
    Io,
    /// An input document is not of the expected shape.
    Decode,
    /// A currency amount has no counterpart in the other representation.
    AmountConversion,
    /// A query that must return a value returned none.
    MissingResult,
    /// The store reported a failure of a query or a statement.
    StoreOperation,
}

/// A failure: its kind and the message that is logged for it.
#[derive(Debug, PartialEq, Eq)]
pub struct Failure {
    pub kind: ErrorKind,
    pub message: String,
}

/// What a failure holds.
pub struct FailureView {
    pub kind: ErrorKind,
    pub message: Seq<char>,
}

impl View for Failure {
    type V = FailureView;

    open spec fn view(&self) -> FailureView {
        FailureView { kind: self.kind, message: self.message@ }
    }
}

/// The failure of the given kind with the given message.
pub open spec fn failure_of(kind: ErrorKind, message: &str) -> FailureView {
    FailureView { kind, message: message@ }
}

/// The failure when the store has no sum of deposits.
pub open spec fn no_deposits() -> FailureView {
    failure_of(ErrorKind::MissingResult, "No Deposits Found")
}

/// The failure when the store has no count of deposits.
pub open spec fn no_transactions() -> FailureView {
    failure_of(ErrorKind::MissingResult, "No Transactions Found")
}

/// The failure when the store has no smallest deposit.
pub open spec fn no_min() -> FailureView {
    failure_of(ErrorKind::MissingResult, "No Min Found")
}

/// The failure when the store has no largest deposit.
pub open spec fn no_max() -> FailureView {
    failure_of(ErrorKind::MissingResult, "No Max Found")
}

/// The outcome of a step that yields nothing, as its view.
pub open spec fn outcome_view(outcome: Result<(), Failure>) -> Result<(), FailureView> {
    match outcome {
        Ok(()) => Ok(()),
        Err(failure) => Err(failure@),
    }
}

impl Failure {
    /// The failure of the given kind with the given message.
    pub fn new(kind: ErrorKind, message: &str) -> (failure: Failure)
        ensures
            failure@ == failure_of(kind, message),
    {
        Failure { kind, message: String::from_str(message) }
    }

    /// A copy of the failure.
    pub fn duplicate(&self) -> (copy: Failure)
        ensures
            copy@ == self@,
    {
        Failure { kind: self.kind, message: self.message.clone() }
    }

    /// The message, as it is logged.
    pub fn to_string(&self) -> (message: String)
        ensures
            message@ == self@.message,
    {
        self.message.clone()
    }
}

} // verus!
