use vstd::prelude::*;

verus! {

/// Kinds of errors of the desktop frontend's RPC layer.
#[derive(Debug, Clone, Copy, PartialEq, Eq, Structural)]
pub enum ErrorKind {
    Unknown,
    Abort,
}

/// An error of the desktop frontend's RPC layer.
#[derive(Debug, Clone)]
pub struct Error {
    pub kind: ErrorKind,
    pub msg: String,
}

impl Error {
    /// An error of kind `kind` with message `msg`.
    pub fn new(kind: ErrorKind, msg: &str) -> (e: Error)
        ensures
            e.kind == kind,
            e.msg@ == msg@,
    {
        Error { kind, msg: msg.to_owned() }
    }

    /// An error of unknown kind with message `msg`.
    pub fn unknown(msg: &str) -> (e: Error)
        ensures
            e.kind == ErrorKind::Unknown,
            e.msg@ == msg@,
    {
        Error { kind: ErrorKind::Unknown, msg: msg.to_owned() }
    }

    /// An aborting error with message `msg`.
    pub fn abort(msg: &str) -> (e: Error)
        ensures
            e.kind == ErrorKind::Abort,
            e.msg@ == msg@,
    {
        Error { kind: ErrorKind::Abort, msg: msg.to_owned() }
    }
}

} // verus!
