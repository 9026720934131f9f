use vstd::prelude::*;

verus! {

/// An error reported to the window, carrying a message.
#[derive(Debug, Clone)]
pub struct Error {
    msg: String,
}

impl View for Error {
    type V = Seq<char>;

    closed spec fn view(&self) -> Seq<char> {
        self.msg@
    }
}

impl Error {
    /// An error whose message is `msg`.
    pub fn from(msg: &str) -> (e: Error)
        ensures
            e@ == msg@,
    {
        Error { msg: msg.to_owned() }
    }
}

} // verus!
