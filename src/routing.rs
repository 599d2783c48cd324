//! Route dispatch: which handler answers a request, and what it decides.
use vstd::prelude::*;

use crate::response::{
    fallback, health_check, health_check_body, not_found_body, Response, STATUS_NOT_FOUND,
    STATUS_OK, STATUS_UNPROCESSABLE_ENTITY,
};
use crate::subscriptions::{
    form_error_text, form_outcome, form_pairs_of, is_random_uuid, subscribe, SubscriptionRecord,
};

verus! {

/// The handler that a request goes to.
#[derive(Debug, Clone, Copy, PartialEq, Eq, Structural)]
pub enum Route {
    /// `GET /health_check`.
    HealthCheck,
    /// `POST /subscriptions`.
    Subscribe,
    /// Every other method and path.
    Fallback,
}

/// The route of a request with method `method` to path `path`.
pub open spec fn route_of(method: Seq<char>, path: Seq<char>) -> Route {
    if method == "GET"@ && path == "/health_check"@ {
        Route::HealthCheck
    } else if method == "POST"@ && path == "/subscriptions"@ {
        Route::Subscribe
    } else {
        Route::Fallback
    }
}

fn same_text(a: &str, b: &str) -> (r: bool)
    ensures
        r == (a@ == b@),
{
    String::from_str(a) == String::from_str(b)
}

/// Picks the handler for a request with method `method` to path `path`.
pub fn route(method: &str, path: &str) -> (r: Route)
    ensures
        r == route_of(method@, path@),
{
    if same_text(method, "GET") && same_text(path, "/health_check") {
        Route::HealthCheck
    } else if same_text(method, "POST") && same_text(path, "/subscriptions") {
        Route::Subscribe
    } else {
        Route::Fallback
    }
}

/// What a request calls for: an answer now, or the insert of a record whose
/// outcome the answer depends on.
#[derive(Debug)]
pub enum Handling {
    Respond(Response),
    Store(SubscriptionRecord),
}

/// Handles a request with method `method` to path `path`, whose full target
/// is `uri` and whose body is `body`. Exactly one handler runs.
pub fn handle(method: &str, path: &str, uri: &str, body: &[u8]) -> (r: Handling)
    ensures
        route_of(method@, path@) == Route::HealthCheck ==> r is Respond
            && r->Respond_0.status == STATUS_OK && r->Respond_0.body@ == health_check_body(),
        route_of(method@, path@) == Route::Fallback ==> r is Respond
            && r->Respond_0.status == STATUS_NOT_FOUND && r->Respond_0.body@ == not_found_body(
            uri@,
        ),
        route_of(method@, path@) == Route::Subscribe ==> match form_outcome(form_pairs_of(body@)) {
            Ok((email, name)) => r is Store && r->Store_0.email@ == email && r->Store_0.name@
                == name && is_random_uuid(r->Store_0.id),
            Err(e) => r is Respond && r->Respond_0.status == STATUS_UNPROCESSABLE_ENTITY
                && r->Respond_0.body@ == form_error_text(e),
        },
        // a probe of liveness always passes
        method@ == "GET"@ && path@ == "/health_check"@ ==> r is Respond
            && r->Respond_0.status == STATUS_OK && r->Respond_0.body@ == health_check_body(),
        // a path with no route is not found, and the answer names the target
        path@ != "/health_check"@ && path@ != "/subscriptions"@ ==> r is Respond
            && r->Respond_0.status == STATUS_NOT_FOUND && r->Respond_0.body@.subrange(
            r->Respond_0.body@.len() - uri@.len(),
            r->Respond_0.body@.len() as int,
        ) == uri@,
{
    match route(method, path) {
        Route::HealthCheck => Handling::Respond(health_check()),
        Route::Subscribe => match subscribe(body) {
            Ok(record) => Handling::Store(record),
            Err(rejected) => Handling::Respond(rejected),
        },
        Route::Fallback => Handling::Respond(fallback(uri)),
    }
}

} // verus!
