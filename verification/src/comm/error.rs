use vstd::prelude::*;

verus! {

/// An error of the connection to the daemon, carrying a message.
#[derive(Debug, Clone)]
pub struct Error {
    pub msg: String,
}

impl Error {
    /// An error whose message is `msg`.
    pub fn new(msg: String) -> (e: Error)
        ensures
            e.msg == msg,
    {
        Error { msg }
    }
}

} // verus!
