//! Core of an HTTP echo guest: the response to a request is its own body
//! with a fixed greeting appended. Reading the event and writing the
//! response belong to the host runtime's bindings; this library decides,
//! from what the event exposed, exactly which bytes are written back, or
//! why nothing is.

use vstd::prelude::*;

verus! {

/// The text appended to every request body.
pub open spec fn greeting() -> Seq<char> {
    "Hello world"@
}

/// The full response for a request whose body decoded to `body`.
pub open spec fn response_of(body: Seq<char>) -> Seq<char> {
    body + greeting()
}

/// Why an invocation produced no response.
#[derive(Clone, Copy, Debug, PartialEq, Eq)]
pub enum GuestError {
    /// The inbound event exposed no HTTP facet.
    MissingHttpFacet,
    /// The request body was not valid text.
    InvalidBodyEncoding,
}

/// Appends the greeting to a decoded request body.
pub fn build_response(body: &str) -> (r: String)
    ensures
        r@ == response_of(body@),
{
    let mut r = String::from_str(body);
    r.append("Hello world");
    r
}

/// One invocation of the guest, with the event reduced to plain values:
/// whether it exposed an HTTP facet, and its body where that decoded to
/// text. Returns the exact response to write back, or the reason the
/// invocation aborts before writing one.
pub fn handle_event(http_present: bool, body: Option<String>) -> (r: Result<String, GuestError>)
    ensures
        r is Ok <==> http_present && body is Some,
        !http_present ==> r == Err::<String, GuestError>(GuestError::MissingHttpFacet),
        http_present && body is None ==> r == Err::<String, GuestError>(
            GuestError::InvalidBodyEncoding,
        ),
        http_present && body is Some ==> r->Ok_0@ == response_of(body->0@),
{
    if !http_present {
        Err(GuestError::MissingHttpFacet)
    } else {
        match body {
            None => Err(GuestError::InvalidBodyEncoding),
            Some(b) => Ok(build_response(b.as_str())),
        }
    }
}

} // verus!
