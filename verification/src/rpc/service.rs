use vstd::prelude::*;

pub mod error;
pub mod response;

pub use error::Error;
pub use response::IntoResult;

verus! {

use crate::transport::endpoint_from_shared;
pub use crate::transport::{endpoint_parse_error, endpoint_uri_valid, ServiceEndpoint};

/// How many times a service tries to connect before it reports failure.
pub const MAX_TRY_CONNECT: usize = 3;

/// The gRPC status code `UNAVAILABLE`.
pub const CODE_UNAVAILABLE: i32 = 14;

/// The URI under which the service at `addr` is reached.
pub open spec fn uri_of_addr(addr: Seq<char>) -> Seq<char> {
    "http://"@ + addr
}

/// The endpoint of the service at `addr` (a `host:port`), reached over
/// plain HTTP; an error when that makes no valid URI.
pub fn endpoint_with_addr(addr: &str) -> (r: Result<ServiceEndpoint, Error>)
    ensures
        r is Ok <==> endpoint_uri_valid(uri_of_addr(addr@)),
        r matches Ok(e) ==> e.uri() == uri_of_addr(addr@),
        r matches Err(e) ==> e.msg@ == "can't create endpoint "@ + endpoint_parse_error(
            uri_of_addr(addr@),
        )->0,
{
    let uri = "http://".to_owned().concat(addr);
    match endpoint_from_shared(uri) {
        Ok(ep) => Ok(ep),
        Err((_, debug)) => {
            let msg = "can't create endpoint ".to_owned().concat(debug.as_str());
            Err(Error::new(msg))
        },
    }
}

/// What a service does after a request failed.
#[derive(Debug)]
pub enum Retry {
    Again,
    Fail(Error),
}

/// After a request failed with gRPC status `code` and status text
/// `status_text`: an unavailable server is asked again; any other failure
/// ends the request with an error.
pub fn on_request_failure(code: i32, status_text: &str) -> (r: Retry)
    ensures
        code == CODE_UNAVAILABLE ==> r is Again,
        code != CODE_UNAVAILABLE ==> (r matches Retry::Fail(e) && e.msg@ == "request failed: "@
            + status_text@),
{
    if code == CODE_UNAVAILABLE {
        Retry::Again
    } else {
        Retry::Fail(Error::new("request failed: ".to_owned().concat(status_text)))
    }
}

} // verus!
