use vstd::prelude::*;

verus! {

use super::error::Error;
use crate::transport::endpoint_from_shared;
pub use crate::transport::{endpoint_parse_error, endpoint_uri_valid, ServiceEndpoint};

/// How many times a service tries to connect.
pub const MAX_TRY_CONNECT: usize = 3;

/// How long, in milliseconds, one attempt to connect may take.
pub const MAX_CONNECT_TIMEOUT: u64 = 100;

/// The gRPC status code `FAILED_PRECONDITION`.
pub const CODE_FAILED_PRECONDITION: i32 = 9;

/// What a service does after a request failed: ask again at once, ask
/// again after 100 ms, or fail.
#[derive(Debug)]
pub enum Retry {
    Now,
    AfterWait,
    Fail(Error),
}

/// After a request failed with gRPC status `code` and status message
/// `message`: an extension that answers "failed precondition" with
/// `retry` or `wait` is asked again (at once, or after a pause); any other
/// failure ends the request with an unknown-kind error carrying the message.
pub fn on_request_failure(code: i32, message: &str) -> (r: Retry)
    ensures
        code == CODE_FAILED_PRECONDITION && message@ == "retry"@ ==> r is Now,
        code == CODE_FAILED_PRECONDITION && message@ == "wait"@ ==> r is AfterWait,
        !(code == CODE_FAILED_PRECONDITION && (message@ == "retry"@ || message@ == "wait"@)) ==> (
        r matches Retry::Fail(e) && e.kind == super::error::ErrorKind::Unknown && e.msg@
            == message@),
{
    proof {
        reveal_strlit("retry");
        reveal_strlit("wait");
        assert("retry"@.len() == 5);
        assert("wait"@.len() == 4);
        assert("retry"@ != "wait"@);
    }
    if code == CODE_FAILED_PRECONDITION {
        let m = message.to_owned();
        if m == "retry".to_owned() {
            return Retry::Now;
        }
        if m == "wait".to_owned() {
            return Retry::AfterWait;
        }
    }
    Retry::Fail(Error::unknown(message))
}

/// The endpoint of the service at `addr`, taken as a whole URI; an error of
/// unknown kind carrying tonic's message when it is no valid URI.
pub fn endpoint_with_addr(addr: &str) -> (r: Result<ServiceEndpoint, Error>)
    ensures
        r is Ok <==> endpoint_uri_valid(addr@),
        r matches Ok(e) ==> e.uri() == addr@,
        r matches Err(e) ==> e.kind == super::error::ErrorKind::Unknown && e.msg@ == "invalid URI"@,
{
    match endpoint_from_shared(addr.to_owned()) {
        Ok(ep) => Ok(ep),
        Err((display, _)) => Err(Error::unknown(display.as_str())),
    }
}

} // verus!
