use vstd::prelude::*;

verus! {

/// The semantic kind of a write failure.
#[derive(Clone, Copy, Debug, PartialEq, Eq, Structural)]
pub enum ErrorKind {
    /// The operation is not meaningful for the writer's configuration.
    Unsupported,
    /// The state observed on the server conflicts with the operation.
    ConditionNotMatch,
    /// The writer or the backend reached a state it cannot continue from.
    Unexpected,
}

/// A write failure: its kind and a human-readable message.
#[derive(Debug)]
pub struct Error {
    pub kind: ErrorKind,
    pub message: String,
}

impl Error {
    pub fn new(kind: ErrorKind, message: &str) -> (r: Error)
        ensures
            r.kind == kind,
            r.message@ == message@,
    {
        Error { kind, message: message.to_string() }
    }

    pub fn kind(&self) -> (r: ErrorKind)
        ensures
            r == self.kind,
    {
        self.kind
    }
}

} // verus!
