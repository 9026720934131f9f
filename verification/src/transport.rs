use vstd::prelude::*;

verus! {

#[verifier::external_type_specification]
#[verifier::external_body]
pub struct ExEndpoint(tonic::transport::Endpoint);

/// What tonic reports when it parses `uri` as the address of an endpoint:
/// `None` when it accepts it, else the `{:#?}` text of its error.
pub uninterp spec fn endpoint_parse_error(uri: Seq<char>) -> Option<Seq<char>>;

/// Whether tonic accepts `uri` as the address of an endpoint.
pub open spec fn endpoint_uri_valid(uri: Seq<char>) -> bool {
    endpoint_parse_error(uri) is None
}

/// The endpoint of a gRPC service together with the URI it was made from.
pub struct ServiceEndpoint {
    ep: tonic::transport::Endpoint,
    uri: Ghost<Seq<char>>,
}

impl ServiceEndpoint {
    /// The URI the endpoint was made from.
    pub closed spec fn uri(&self) -> Seq<char> {
        self.uri@
    }

    /// The tonic endpoint.
    pub closed spec fn tonic_endpoint(&self) -> tonic::transport::Endpoint {
        self.ep
    }

    /// The tonic endpoint, to connect to.
    pub fn endpoint(&self) -> (r: &tonic::transport::Endpoint)
        ensures
            *r == self.tonic_endpoint(),
    {
        &self.ep
    }
}

/// Calls `tonic::transport::Endpoint::from_shared`, which parses `uri` as a
/// URI and keeps it in the endpoint, and turns a failure into its `{}` and
/// `{:#?}` texts. Claimed: the result is an endpoint exactly when the URI is
/// valid, which depends on the text alone, and that endpoint is the one for
/// `uri`; a failure is always of tonic's invalid-URI kind, whose `{}` text is
/// `invalid URI`, and its `{:#?}` text depends on `uri` alone.
#[verifier::external_body]
pub(crate) fn endpoint_from_shared(uri: String) -> (r: Result<ServiceEndpoint, (String, String)>)
    ensures
        r is Ok <==> endpoint_parse_error(uri@) is None,
        r matches Ok(e) ==> e.uri() == uri@,
        r matches Err((display, debug)) ==> display@ == "invalid URI"@ && endpoint_parse_error(
            uri@,
        ) == Some(debug@),
{
    let text = Ghost(uri@);
    match tonic::transport::Endpoint::from_shared(uri) {
        Ok(ep) => Ok(ServiceEndpoint { ep, uri: text }),
        Err(e) => Err((format!("{}", e), format!("{:#?}", e))),
    }
}

} // verus!
