//! The failures an ingest can end in.

use vstd::prelude::*;

verus! {

/// The class under which a failed ingest is reported to the caller.
#[derive(Clone, Copy, Debug, PartialEq, Eq, Structural)]
pub enum ErrorKind {
    /// The request carried something that cannot be understood.
    InvalidArgument,
    /// The chunk stream broke the contract the endpoint relies on.
    FailedPrecondition,
    /// Naming, decoding or storing failed on the server side.
    Internal,
}

/// What an [`IngestError`] says, as a mathematical value.
pub struct Failure {
    pub kind: ErrorKind,
    pub message: Seq<char>,
}

/// A failed ingest: its class and a message that names the cause.
#[derive(Debug, PartialEq, Eq)]
pub struct IngestError {
    pub kind: ErrorKind,
    pub message: String,
}

impl View for IngestError {
    type V = Failure;

    open spec fn view(&self) -> Failure {
        Failure { kind: self.kind, message: self.message@ }
    }
}

impl Clone for IngestError {
    fn clone(&self) -> (copy: IngestError)
        ensures
            copy@ == self@,
    {
        IngestError { kind: self.kind, message: self.message.clone() }
    }
}

/// The message `prefix` followed by `detail`.
pub open spec fn explained(prefix: Seq<char>, detail: Seq<char>) -> Seq<char> {
    prefix + detail
}

impl IngestError {
    /// An error of class `kind` whose message is `message`.
    pub fn new(kind: ErrorKind, message: String) -> (e: IngestError)
        ensures
            e@ == (Failure { kind, message: message@ }),
    {
        IngestError { kind, message }
    }

    /// An error of class `kind` whose message is `prefix` followed by `detail`.
    pub fn explain(kind: ErrorKind, prefix: &str, detail: &str) -> (e: IngestError)
        ensures
            e@ == (Failure { kind, message: explained(prefix@, detail@) }),
    {
        let mut message = prefix.to_owned();
        message.append(detail);
        IngestError { kind, message }
    }
}

} // verus!
