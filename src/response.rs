//! HTTP responses produced by the handlers, as a status code and a text body.
use vstd::prelude::*;

verus! {

/// `200 OK`.
pub const STATUS_OK: u16 = 200;

/// `404 Not Found`.
pub const STATUS_NOT_FOUND: u16 = 404;

/// `422 Unprocessable Entity`.
pub const STATUS_UNPROCESSABLE_ENTITY: u16 = 422;

/// `500 Internal Server Error`.
pub const STATUS_INTERNAL_SERVER_ERROR: u16 = 500;

/// A response: its status code and its body text.
#[derive(Debug)]
pub struct Response {
    pub status: u16,
    pub body: String,
}

/// The fixed body of the liveness probe.
pub open spec fn health_check_body() -> Seq<char> {
    "Health check passed!"@
}

/// The body of a not-found response for the request target `uri`.
pub open spec fn not_found_body(uri: Seq<char>) -> Seq<char> {
    "No route "@ + uri
}

/// The liveness probe: always a success with the fixed text.
pub fn health_check() -> (r: Response)
    ensures
        r.status == STATUS_OK,
        r.body@ == health_check_body(),
{
    Response { status: STATUS_OK, body: String::from_str("Health check passed!") }
}

/// The answer for a request that no route matches: not found, naming the
/// request target verbatim.
pub fn fallback(uri: &str) -> (r: Response)
    ensures
        r.status == STATUS_NOT_FOUND,
        r.body@ == not_found_body(uri@),
        r.body@.subrange(r.body@.len() - uri@.len(), r.body@.len() as int) == uri@,
{
    let body = String::from_str("No route ").concat(uri);
    proof {
        assert(body@.subrange(body@.len() - uri@.len(), body@.len() as int) =~= uri@);
    }
    Response { status: STATUS_NOT_FOUND, body }
}

/// A failure of the store, reported as a server error whose body is the
/// failure's description.
pub fn internal_error(message: String) -> (r: Response)
    ensures
        r.status == STATUS_INTERNAL_SERVER_ERROR,
        r.body@ == message@,
{
    Response { status: STATUS_INTERNAL_SERVER_ERROR, body: message }
}

} // verus!
