use vstd::prelude::*;

verus! {

/// An error of the RPC layer, carrying a message.
#[derive(Debug, Clone)]
pub struct Error {
    pub msg: String,
}

impl Error {
    /// An error whose message is `msg`.
    pub fn new(msg: String) -> (e: Error)
        ensures
            e.msg == msg,
    {
        Error { msg }
    }
}

impl From<String> for Error {
    fn from(s: String) -> (e: Error) {
        Error::new(s)
    }
}

impl vstd::std_specs::convert::FromSpecImpl<String> for Error {
    open spec fn obeys_from_spec() -> bool {
        true
    }

    open spec fn from_spec(v: String) -> Error {
        Error { msg: v }
    }
}

impl From<&str> for Error {
    fn from(s: &str) -> (e: Error)
        ensures
            e.msg@ == s@,
    {
        Error::new(s.to_owned())
    }
}

impl vstd::std_specs::convert::FromSpecImpl<&str> for Error {
    /// A `String` cannot be named from the view of a `&str` in a spec
    /// function: the conversion is described by its own `ensures` instead.
    open spec fn obeys_from_spec() -> bool {
        false
    }

    open spec fn from_spec(v: &str) -> Error {
        vstd::pervasive::arbitrary()
    }
}

} // verus!
