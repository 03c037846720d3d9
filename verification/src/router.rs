//! The dispatch table: a pure map from HTTP method and path to one of the six
//! handlers, plus the two static answers. Unmatched routes return nothing and
//! fall through to the platform's not-found behaviour.

use vstd::prelude::*;
use crate::response::{BodyKind, HttpResponse, text_response};
use crate::text::str_eq;

verus! {

/// The HTTP methods the relay distinguishes.
#[derive(Clone, Copy, Debug, PartialEq, Eq, Structural)]
pub enum Method {
    Get,
    Post,
}

/// The six handlers of the relay.
#[derive(Clone, Copy, Debug, PartialEq, Eq, Structural)]
pub enum Route {
    Root,
    Ping,
    Login,
    Register,
    Me,
    Send,
}

/// The dispatch table as a mathematical function.
pub open spec fn spec_route(m: Method, path: Seq<char>) -> Option<Route> {
    match m {
        Method::Get => if path == "/"@ {
            Option::Some(Route::Root)
        } else if path == "/ping"@ {
            Option::Some(Route::Ping)
        } else if path == "/api/me"@ {
            Option::Some(Route::Me)
        } else {
            Option::<Route>::None
        },
        Method::Post => if path == "/api/login"@ {
            Option::Some(Route::Login)
        } else if path == "/api/register"@ {
            Option::Some(Route::Register)
        } else if path == "/api/send"@ {
            Option::Some(Route::Send)
        } else {
            Option::<Route>::None
        },
    }
}

/// Dispatches a request to its handler, exactly as `spec_route` says.
pub fn route(m: Method, path: &str) -> (r: Option<Route>)
    ensures
        r == spec_route(m, path@),
{
    match m {
        Method::Get => {
            if str_eq(path, "/") {
                Option::Some(Route::Root)
            } else if str_eq(path, "/ping") {
                Option::Some(Route::Ping)
            } else if str_eq(path, "/api/me") {
                Option::Some(Route::Me)
            } else {
                Option::None
            }
        },
        Method::Post => {
            if str_eq(path, "/api/login") {
                Option::Some(Route::Login)
            } else if str_eq(path, "/api/register") {
                Option::Some(Route::Register)
            } else if str_eq(path, "/api/send") {
                Option::Some(Route::Send)
            } else {
                Option::None
            }
        },
    }
}

/// The static greeting at the root path.
pub fn root_response() -> (r: HttpResponse)
    ensures
        r.status == 200,
        r.kind == BodyKind::Text,
        r.body@ == "Send message to Discord channel"@,
{
    text_response("Send message to Discord channel")
}

/// The liveness check: whatever the request carried, the answer is status 200
/// with the plain text `pong` — this function takes no part of the request at
/// all, so headers and body cannot influence it.
pub fn ping_response() -> (r: HttpResponse)
    ensures
        r.status == 200,
        r.kind == BodyKind::Text,
        r.body@ == "pong"@,
{
    text_response("pong")
}

} // verus!
