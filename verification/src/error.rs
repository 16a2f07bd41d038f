//! The errors that construction, wiring and per-block evaluation report.

use vstd::prelude::*;

verus! {

/// What went wrong, apart from the message.
#[derive(Clone, Copy, PartialEq, Eq, Structural, Debug)]
pub enum ErrorKind {
    /// A stage was built from something it cannot run, such as an aggregate
    /// function in a per-block transform.
    BadTransformType,
    /// An evaluator produced a column whose length is not its block's row count.
    BadDataArrayLength,
    /// A stage was wired to an upstream that it cannot accept.
    BadPipeline,
    /// An expression names a function that the registry does not know.
    UnknownFunction,
    /// An expression names a column that the schema does not hold.
    UnknownColumn,
    /// An expression was applied to values of a type it does not accept.
    IllegalDataType,
    /// Any other failure of an evaluator or of an upstream stage.
    Evaluation,
}

/// An error: its kind and a message for the end user.
#[derive(Debug)]
pub struct ErrorCode {
    kind: ErrorKind,
    message: String,
}

/// The mathematical value of an `ErrorCode`.
pub struct ErrorView {
    pub kind: ErrorKind,
    pub message: Seq<char>,
}

impl View for ErrorCode {
    type V = ErrorView;

    closed spec fn view(&self) -> ErrorView {
        ErrorView { kind: self.kind, message: self.message@ }
    }
}

impl ErrorCode {
    /// An error of the given kind with the given message.
    pub fn new(kind: ErrorKind, message: String) -> (e: ErrorCode)
        ensures
            e@ == (ErrorView { kind, message: message@ }),
    {
        ErrorCode { kind, message }
    }

    /// The kind of the error.
    pub fn kind(&self) -> (k: ErrorKind)
        ensures
            k == self@.kind,
    {
        self.kind
    }

    /// The message of the error.
    pub fn message(&self) -> (m: &String)
        ensures
            m@ == self@.message,
    {
        &self.message
    }
}

impl Clone for ErrorCode {
    fn clone(&self) -> (e: ErrorCode)
        ensures
            e@ == self@,
    {
        ErrorCode { kind: self.kind, message: self.message.clone() }
    }
}

impl PartialEq for ErrorCode {
    fn eq(&self, other: &ErrorCode) -> (same: bool) {
        self.kind == other.kind && self.message == other.message
    }
}

impl vstd::std_specs::cmp::PartialEqSpecImpl for ErrorCode {
    open spec fn obeys_eq_spec() -> bool {
        true
    }

    open spec fn eq_spec(&self, other: &ErrorCode) -> bool {
        self@ == other@
    }
}

} // verus!
