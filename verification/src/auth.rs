//! The authentication handlers' logic. Each handler is split in two verified
//! halves around its single outbound call: a `begin` function that inspects
//! the configuration and the request and either answers at once or names the
//! call to make, and a `finish` function that turns the call's outcome into
//! the HTTP answer. The platform glue only performs the named call.

use vstd::prelude::*;
use crate::model::{AuthLookup, Credentials, Session, SignUpOutcome, User};
use crate::model::{confirmation_json, session_json, user_json};
use crate::response::{BodyKind, HttpResponse, error_json, error_response};

verus! {

/// Everything the auth service needs to be called: the project URL, the API
/// key and the signing secret, all present.
pub struct AuthConfig {
    pub project_url: String,
    pub api_key: String,
    pub jwt_secret: String,
}

/// What a credential-carrying handler decides before its outbound call:
/// answer at once, or call the auth service with this configuration and
/// these credentials.
pub enum AuthAction {
    Respond(HttpResponse),
    Call(AuthConfig, Credentials),
}

/// What the user-lookup handler decides before its outbound call: answer at
/// once, or look this bearer token up with this configuration.
pub enum MeAction {
    Respond(HttpResponse),
    Call(AuthConfig, String),
}

/// The error text for an absent secret.
pub open spec fn missing_secret_text(name: Seq<char>) -> Seq<char> {
    "Missing secret: "@ + name
}

/// The answer for an absent secret: the request fails with status 500 before
/// any outbound call is attempted.
pub fn missing_secret_response(name: &str) -> (r: HttpResponse)
    ensures
        r.status == 500,
        r.kind == BodyKind::Json,
        r.body@ == error_json(missing_secret_text(name@)),
{
    let mut message = String::from_str("Missing secret: ");
    message.append(name);
    error_response(message.as_str(), 500)
}

/// The answer for a request body that did not parse into the expected shape.
pub fn malformed_body_response() -> (r: HttpResponse)
    ensures
        r.status == 400,
        r.kind == BodyKind::Json,
        r.body@ == error_json("Malformed request body"@),
{
    error_response("Malformed request body", 400)
}

/// The decision half shared by login and registration. The secrets are
/// checked first, in a fixed order, and a missing one fails the request at
/// once: when any secret is absent the result is never `Call`, so no
/// outbound call can be issued. Only with all secrets present and a parsed
/// body does the handler name the call to make.
pub fn auth_begin(
    project_url: Option<String>,
    api_key: Option<String>,
    jwt_secret: Option<String>,
    body: Option<Credentials>,
) -> (r: AuthAction)
    ensures
        match r {
            AuthAction::Respond(resp) => {
                &&& (project_url is None || api_key is None || jwt_secret is None || body is None)
                &&& resp.kind == BodyKind::Json
                &&& if project_url is None {
                    resp.status == 500 && resp.body@ == error_json(
                        missing_secret_text("SUPABASE_URL"@),
                    )
                } else if api_key is None {
                    resp.status == 500 && resp.body@ == error_json(
                        missing_secret_text("SUPABASE_API_KEY"@),
                    )
                } else if jwt_secret is None {
                    resp.status == 500 && resp.body@ == error_json(
                        missing_secret_text("SUPABASE_JWT_SECRET"@),
                    )
                } else {
                    resp.status == 400 && resp.body@ == error_json("Malformed request body"@)
                }
            },
            AuthAction::Call(cfg, creds) => {
                &&& project_url is Some && api_key is Some && jwt_secret is Some && body is Some
                &&& cfg.project_url@ == project_url->Some_0@
                &&& cfg.api_key@ == api_key->Some_0@
                &&& cfg.jwt_secret@ == jwt_secret->Some_0@
                &&& creds.email@ == body->Some_0.email@
                &&& creds.password@ == body->Some_0.password@
            },
        },
{
    let url = match project_url {
        Option::Some(u) => u,
        Option::None => {
            return AuthAction::Respond(missing_secret_response("SUPABASE_URL"));
        },
    };
    let key = match api_key {
        Option::Some(k) => k,
        Option::None => {
            return AuthAction::Respond(missing_secret_response("SUPABASE_API_KEY"));
        },
    };
    let secret = match jwt_secret {
        Option::Some(s) => s,
        Option::None => {
            return AuthAction::Respond(missing_secret_response("SUPABASE_JWT_SECRET"));
        },
    };
    let creds = match body {
        Option::Some(c) => c,
        Option::None => {
            return AuthAction::Respond(malformed_body_response());
        },
    };
    AuthAction::Call(AuthConfig { project_url: url, api_key: key, jwt_secret: secret }, creds)
}

/// Turns the auth service's login outcome into the HTTP answer: a session is
/// serialized at status 200 with exactly the session field set; an external
/// error is passed through verbatim at status 400.
pub fn login_finish(outcome: Result<Session, String>) -> (r: HttpResponse)
    ensures
        r.kind == BodyKind::Json,
        match outcome {
            Result::Ok(s) => r.status == 200 && r.body@ == session_json(s),
            Result::Err(m) => r.status == 400 && r.body@ == error_json(m@),
        },
{
    match outcome {
        Result::Ok(session) => {
            let body = crate::model::render_session(&session);
            HttpResponse { status: 200, kind: BodyKind::Json, body }
        },
        Result::Err(message) => error_response(message.as_str(), 400),
    }
}

/// Turns the auth service's sign-up outcome into the HTTP answer. The schema
/// is selected strictly by the variant: an immediately active session is
/// serialized as its user object, a pending confirmation with the
/// confirmation field set, and never the one for the other. An external
/// error is passed through verbatim at status 500.
pub fn register_finish(outcome: Result<SignUpOutcome, String>) -> (r: HttpResponse)
    ensures
        r.kind == BodyKind::Json,
        match outcome {
            Result::Ok(SignUpOutcome::SessionResult(s)) => r.status == 200 && r.body@ == user_json(
                s.user,
            ),
            Result::Ok(SignUpOutcome::ConfirmationResult(c)) => r.status == 200 && r.body@
                == confirmation_json(c),
            Result::Err(m) => r.status == 500 && r.body@ == error_json(m@),
        },
{
    match outcome {
        Result::Ok(SignUpOutcome::SessionResult(session)) => {
            let body = crate::model::render_user(&session.user);
            HttpResponse { status: 200, kind: BodyKind::Json, body }
        },
        Result::Ok(SignUpOutcome::ConfirmationResult(confirmation)) => {
            let body = crate::model::render_confirmation(&confirmation);
            HttpResponse { status: 200, kind: BodyKind::Json, body }
        },
        Result::Err(message) => error_response(message.as_str(), 500),
    }
}

/// The decision half of the user-lookup handler. The secrets are checked
/// first, as for the other auth handlers; with them present, a request that
/// carries no Authorization header at all is answered 401 at once — the soft
/// path, which issues no outbound call and is not an error. Only a request
/// that does carry a token names the lookup call.
pub fn me_begin(
    project_url: Option<String>,
    api_key: Option<String>,
    jwt_secret: Option<String>,
    auth_header: Option<String>,
) -> (r: MeAction)
    ensures
        match r {
            MeAction::Respond(resp) => {
                &&& (project_url is None || api_key is None || jwt_secret is None || auth_header
                    is None)
                &&& resp.kind == BodyKind::Json
                &&& if project_url is None {
                    resp.status == 500 && resp.body@ == error_json(
                        missing_secret_text("SUPABASE_URL"@),
                    )
                } else if api_key is None {
                    resp.status == 500 && resp.body@ == error_json(
                        missing_secret_text("SUPABASE_API_KEY"@),
                    )
                } else if jwt_secret is None {
                    resp.status == 500 && resp.body@ == error_json(
                        missing_secret_text("SUPABASE_JWT_SECRET"@),
                    )
                } else {
                    resp.status == 401 && resp.body@ == error_json("Unauthorized"@)
                }
            },
            MeAction::Call(cfg, token) => {
                &&& project_url is Some && api_key is Some && jwt_secret is Some && auth_header
                    is Some
                &&& cfg.project_url@ == project_url->Some_0@
                &&& cfg.api_key@ == api_key->Some_0@
                &&& cfg.jwt_secret@ == jwt_secret->Some_0@
                &&& token@ == auth_header->Some_0@
            },
        },
{
    let url = match project_url {
        Option::Some(u) => u,
        Option::None => {
            return MeAction::Respond(missing_secret_response("SUPABASE_URL"));
        },
    };
    let key = match api_key {
        Option::Some(k) => k,
        Option::None => {
            return MeAction::Respond(missing_secret_response("SUPABASE_API_KEY"));
        },
    };
    let secret = match jwt_secret {
        Option::Some(s) => s,
        Option::None => {
            return MeAction::Respond(missing_secret_response("SUPABASE_JWT_SECRET"));
        },
    };
    let token = match auth_header {
        Option::Some(t) => t,
        Option::None => {
            return MeAction::Respond(error_response("Unauthorized", 401));
        },
    };
    MeAction::Call(AuthConfig { project_url: url, api_key: key, jwt_secret: secret }, token)
}

/// Classifies the outcome of the token lookup into the three-state result:
/// a user the service vouched for, or the hard `Invalid` state for a token
/// the service rejected. The soft `NoToken` state never comes from here — it
/// arises only in `me_begin`, before any call.
pub fn me_lookup(outcome: Result<User, String>) -> (r: AuthLookup)
    ensures
        match outcome {
            Result::Ok(u) => r matches AuthLookup::Found(f) && f.id@ == u.id@ && f.email@ == u.email@
                && f.created_at@ == u.created_at@ && f.updated_at@ == u.updated_at@
                && crate::model::opt_view(f.last_sign_in_at) == crate::model::opt_view(
                u.last_sign_in_at,
            ) && crate::model::opt_view(f.email_confirmed_at) == crate::model::opt_view(
                u.email_confirmed_at,
            ),
            Result::Err(_) => r is Invalid,
        },
{
    match outcome {
        Result::Ok(user) => AuthLookup::Found(user),
        Result::Err(_) => AuthLookup::Invalid,
    }
}

/// Normalizes the three-state lookup result: a found user is serialized at
/// status 200; both failure states answer 401 with the `Unauthorized` error
/// body, though they reach here as distinct states.
pub fn me_finish(lookup: AuthLookup) -> (r: HttpResponse)
    ensures
        r.kind == BodyKind::Json,
        match lookup {
            AuthLookup::Found(u) => r.status == 200 && r.body@ == user_json(u),
            AuthLookup::NoToken => r.status == 401 && r.body@ == error_json("Unauthorized"@),
            AuthLookup::Invalid => r.status == 401 && r.body@ == error_json("Unauthorized"@),
        },
{
    match lookup {
        AuthLookup::Found(user) => {
            let body = crate::model::render_user(&user);
            HttpResponse { status: 200, kind: BodyKind::Json, body }
        },
        AuthLookup::NoToken => error_response("Unauthorized", 401),
        AuthLookup::Invalid => error_response("Unauthorized", 401),
    }
}

} // verus!
