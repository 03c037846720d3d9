//! Behavioural tests for the routing table, the handler decision halves, the
//! outcome normalization, and the exact response schemas.

use edge_relay::auth::{
    auth_begin, login_finish, malformed_body_response, me_begin, me_finish, me_lookup,
    missing_secret_response, register_finish, AuthAction, MeAction,
};
use edge_relay::model::{
    AuthLookup, Credentials, PendingConfirmation, SendMessage, Session, SignUpOutcome, User,
};
use edge_relay::relay::{build_send_request, send_begin, send_finish, SendAction};
use edge_relay::response::{error_response, BodyKind};
use edge_relay::router::{ping_response, root_response, route, Method, Route};

fn sample_user() -> User {
    User {
        id: String::from("9f1c2e60-0000-4000-8000-123456789abc"),
        email: String::from("a@b.co"),
        created_at: String::from("2024-01-01T00:00:00Z"),
        updated_at: String::from("2024-01-02T00:00:00Z"),
        last_sign_in_at: Some(String::from("2024-01-03T00:00:00Z")),
        email_confirmed_at: None,
    }
}

fn sample_session() -> Session {
    Session {
        access_token: String::from("at"),
        refresh_token: String::from("rt"),
        expires_in: 3600,
        expires_at: 1700000000,
        token_type: String::from("bearer"),
        user: sample_user(),
    }
}

fn secrets() -> (Option<String>, Option<String>, Option<String>) {
    (
        Some(String::from("https://proj.supabase.co")),
        Some(String::from("api-key")),
        Some(String::from("jwt-secret")),
    )
}

fn creds() -> Option<Credentials> {
    Some(Credentials { email: String::from("a@b.co"), password: String::from("pw") })
}

// Routing

#[test]
fn routes_match_the_table() {
    assert_eq!(route(Method::Get, "/"), Some(Route::Root));
    assert_eq!(route(Method::Get, "/ping"), Some(Route::Ping));
    assert_eq!(route(Method::Get, "/api/me"), Some(Route::Me));
    assert_eq!(route(Method::Post, "/api/login"), Some(Route::Login));
    assert_eq!(route(Method::Post, "/api/register"), Some(Route::Register));
    assert_eq!(route(Method::Post, "/api/send"), Some(Route::Send));
}

#[test]
fn unmatched_routes_fall_through() {
    assert_eq!(route(Method::Get, "/api/login"), None);
    assert_eq!(route(Method::Post, "/ping"), None);
    assert_eq!(route(Method::Get, "/nope"), None);
    assert_eq!(route(Method::Post, ""), None);
}

#[test]
fn ping_is_always_pong() {
    let r = ping_response();
    assert_eq!(r.status, 200);
    assert_eq!(r.kind, BodyKind::Text);
    assert_eq!(r.body, "pong");
}

#[test]
fn root_greets() {
    let r = root_response();
    assert_eq!(r.status, 200);
    assert_eq!(r.kind, BodyKind::Text);
    assert_eq!(r.body, "Send message to Discord channel");
}

// Login

#[test]
fn login_success_has_exactly_the_session_fields() {
    let r = login_finish(Ok(sample_session()));
    assert_eq!(r.status, 200);
    assert_eq!(r.kind, BodyKind::Json);
    assert_eq!(
        r.body,
        "{\"access_token\":\"at\",\"refresh_token\":\"rt\",\"expires_in\":3600,\
         \"expires_at\":1700000000,\"token_type\":\"bearer\",\
         \"user\":{\"id\":\"9f1c2e60-0000-4000-8000-123456789abc\",\"email\":\"a@b.co\",\
         \"created_at\":\"2024-01-01T00:00:00Z\",\"updated_at\":\"2024-01-02T00:00:00Z\",\
         \"last_sign_in_at\":\"2024-01-03T00:00:00Z\",\"email_confirmed_at\":null}}"
    );
}

#[test]
fn login_body_parses_with_exact_key_sets() {
    let r = login_finish(Ok(sample_session()));
    let v: serde_json::Value = serde_json::from_str(&r.body).unwrap();
    let top = v.as_object().unwrap();
    let mut top_keys: Vec<&String> = top.keys().collect();
    top_keys.sort();
    let mut expected_top =
        vec!["access_token", "refresh_token", "expires_in", "expires_at", "token_type", "user"];
    expected_top.sort();
    assert_eq!(top_keys, expected_top);
    let mut user_keys: Vec<&String> = top["user"].as_object().unwrap().keys().collect();
    user_keys.sort();
    let mut expected_user =
        vec!["id", "email", "created_at", "updated_at", "last_sign_in_at", "email_confirmed_at"];
    expected_user.sort();
    assert_eq!(user_keys, expected_user);
    assert_eq!(top["expires_in"], serde_json::Value::from(3600u64));
    assert!(top["user"]["email_confirmed_at"].is_null());
}

#[test]
fn login_failure_is_400_with_the_external_message() {
    let r = login_finish(Err(String::from("invalid login credentials")));
    assert_eq!(r.status, 400);
    assert_eq!(r.body, "{\"error\":\"invalid login credentials\"}");
}

#[test]
fn login_error_message_is_escaped() {
    let r = login_finish(Err(String::from("a \"strange\" error\n")));
    assert_eq!(r.status, 400);
    assert_eq!(r.body, "{\"error\":\"a \\\"strange\\\" error\\n\"}");
}

// Registration

#[test]
fn register_session_variant_uses_the_user_schema() {
    let r = register_finish(Ok(SignUpOutcome::SessionResult(sample_session())));
    assert_eq!(r.status, 200);
    assert_eq!(
        r.body,
        "{\"id\":\"9f1c2e60-0000-4000-8000-123456789abc\",\"email\":\"a@b.co\",\
         \"created_at\":\"2024-01-01T00:00:00Z\",\"updated_at\":\"2024-01-02T00:00:00Z\",\
         \"last_sign_in_at\":\"2024-01-03T00:00:00Z\",\"email_confirmed_at\":null}"
    );
    let v: serde_json::Value = serde_json::from_str(&r.body).unwrap();
    let keys: Vec<&String> = v.as_object().unwrap().keys().collect();
    assert!(!keys.contains(&&String::from("aud")));
    assert!(!keys.contains(&&String::from("confirmation_sent_at")));
}

#[test]
fn register_confirmation_variant_uses_the_confirmation_schema() {
    let c = PendingConfirmation {
        id: String::from("0f0f"),
        aud: String::from("authenticated"),
        role: String::from("authenticated"),
        confirmation_sent_at: String::from("2024-02-01T00:00:00Z"),
        is_anonymous: false,
        created_at: String::from("2024-02-01T00:00:00Z"),
        updated_at: String::from("2024-02-01T00:00:00Z"),
    };
    let r = register_finish(Ok(SignUpOutcome::ConfirmationResult(c)));
    assert_eq!(r.status, 200);
    assert_eq!(
        r.body,
        "{\"id\":\"0f0f\",\"aud\":\"authenticated\",\"role\":\"authenticated\",\
         \"confirmation_sent_at\":\"2024-02-01T00:00:00Z\",\"is_anonymous\":false,\
         \"created_at\":\"2024-02-01T00:00:00Z\",\"updated_at\":\"2024-02-01T00:00:00Z\"}"
    );
    let v: serde_json::Value = serde_json::from_str(&r.body).unwrap();
    let mut keys: Vec<&String> = v.as_object().unwrap().keys().collect();
    keys.sort();
    let mut expected =
        vec!["id", "aud", "role", "confirmation_sent_at", "is_anonymous", "created_at", "updated_at"];
    expected.sort();
    assert_eq!(keys, expected);
    assert!(!keys.contains(&&String::from("access_token")));
    assert!(!keys.contains(&&String::from("last_sign_in_at")));
}

#[test]
fn register_failure_is_500_with_the_external_message() {
    let r = register_finish(Err(String::from("user already registered")));
    assert_eq!(r.status, 500);
    assert_eq!(r.body, "{\"error\":\"user already registered\"}");
}

// Token lookup: the soft and the hard path

#[test]
fn me_without_header_answers_401_before_any_call() {
    let (u, k, s) = secrets();
    let action = me_begin(u, k, s, None);
    match action {
        MeAction::Respond(r) => {
            assert_eq!(r.status, 401);
            assert_eq!(r.body, "{\"error\":\"Unauthorized\"}");
        },
        MeAction::Call(_, _) => panic!("no outbound call may be issued without a token"),
    }
}

#[test]
fn me_with_header_names_the_lookup_call() {
    let (u, k, s) = secrets();
    let action = me_begin(u, k, s, Some(String::from("token-123")));
    match action {
        MeAction::Respond(_) => panic!("a supplied token must lead to the lookup call"),
        MeAction::Call(cfg, token) => {
            assert_eq!(cfg.project_url, "https://proj.supabase.co");
            assert_eq!(cfg.api_key, "api-key");
            assert_eq!(cfg.jwt_secret, "jwt-secret");
            assert_eq!(token, "token-123");
        },
    }
}

#[test]
fn rejected_token_takes_the_hard_path_to_the_same_401() {
    // The soft path: no token was supplied at all.
    let soft = AuthLookup::NoToken;
    // The hard path: a token was supplied and the service rejected it.
    let hard = me_lookup(Err(String::from("bad token")));
    assert!(matches!(hard, AuthLookup::Invalid));
    assert!(!matches!(hard, AuthLookup::NoToken));
    // Distinct states, identical surface: both answer 401 with the same body.
    let soft_resp = me_finish(soft);
    let hard_resp = me_finish(hard);
    assert_eq!(soft_resp.status, 401);
    assert_eq!(hard_resp.status, 401);
    assert_eq!(soft_resp.body, "{\"error\":\"Unauthorized\"}");
    assert_eq!(hard_resp.body, soft_resp.body);
}

#[test]
fn accepted_token_serializes_the_user() {
    let lookup = me_lookup(Ok(sample_user()));
    assert!(matches!(lookup, AuthLookup::Found(_)));
    let r = me_finish(lookup);
    assert_eq!(r.status, 200);
    assert_eq!(
        r.body,
        "{\"id\":\"9f1c2e60-0000-4000-8000-123456789abc\",\"email\":\"a@b.co\",\
         \"created_at\":\"2024-01-01T00:00:00Z\",\"updated_at\":\"2024-01-02T00:00:00Z\",\
         \"last_sign_in_at\":\"2024-01-03T00:00:00Z\",\"email_confirmed_at\":null}"
    );
}

// Missing secrets fail every dependent handler before its outbound call

#[test]
fn login_register_fail_without_project_url() {
    let (_, k, s) = secrets();
    match auth_begin(None, k, s, creds()) {
        AuthAction::Respond(r) => {
            assert_eq!(r.status, 500);
            assert_eq!(r.body, "{\"error\":\"Missing secret: SUPABASE_URL\"}");
        },
        AuthAction::Call(_, _) => panic!("no outbound call may be issued without the project URL"),
    }
}

#[test]
fn login_register_fail_without_api_key() {
    let (u, _, s) = secrets();
    match auth_begin(u, None, s, creds()) {
        AuthAction::Respond(r) => {
            assert_eq!(r.status, 500);
            assert_eq!(r.body, "{\"error\":\"Missing secret: SUPABASE_API_KEY\"}");
        },
        AuthAction::Call(_, _) => panic!("no outbound call may be issued without the API key"),
    }
}

#[test]
fn login_register_fail_without_jwt_secret() {
    let (u, k, _) = secrets();
    match auth_begin(u, k, None, creds()) {
        AuthAction::Respond(r) => {
            assert_eq!(r.status, 500);
            assert_eq!(r.body, "{\"error\":\"Missing secret: SUPABASE_JWT_SECRET\"}");
        },
        AuthAction::Call(_, _) => panic!("no outbound call may be issued without the signing secret"),
    }
}

#[test]
fn me_fails_without_any_auth_secret() {
    let (u, k, _) = secrets();
    match me_begin(u, k, None, Some(String::from("token"))) {
        MeAction::Respond(r) => {
            assert_eq!(r.status, 500);
            assert_eq!(r.body, "{\"error\":\"Missing secret: SUPABASE_JWT_SECRET\"}");
        },
        MeAction::Call(_, _) => panic!("no outbound call may be issued without the signing secret"),
    }
}

#[test]
fn send_fails_without_bot_token() {
    let body = Some(SendMessage { channel_id: String::from("42"), url: String::from("https://x") });
    match send_begin(None, body) {
        SendAction::Respond(r) => {
            assert_eq!(r.status, 500);
            assert_eq!(r.body, "{\"error\":\"Missing secret: DISCORD_TOKEN\"}");
        },
        SendAction::Call(_) => panic!("no outbound call may be issued without the bot token"),
    }
}

#[test]
fn auth_begin_with_everything_names_the_login_call() {
    let (u, k, s) = secrets();
    match auth_begin(u, k, s, creds()) {
        AuthAction::Respond(_) => panic!("a complete request must lead to the auth call"),
        AuthAction::Call(cfg, c) => {
            assert_eq!(cfg.project_url, "https://proj.supabase.co");
            assert_eq!(c.email, "a@b.co");
            assert_eq!(c.password, "pw");
        },
    }
}

#[test]
fn malformed_bodies_answer_400() {
    let (u, k, s) = secrets();
    match auth_begin(u, k, s, None) {
        AuthAction::Respond(r) => {
            assert_eq!(r.status, 400);
            assert_eq!(r.body, "{\"error\":\"Malformed request body\"}");
        },
        AuthAction::Call(_, _) => panic!("an unparsed body must not lead to a call"),
    }
    match send_begin(Some(String::from("bot-token")), None) {
        SendAction::Respond(r) => {
            assert_eq!(r.status, 400);
            assert_eq!(r.body, "{\"error\":\"Malformed request body\"}");
        },
        SendAction::Call(_) => panic!("an unparsed body must not lead to a call"),
    }
}

// The outbound message POST

#[test]
fn send_request_is_built_exactly() {
    let r = build_send_request("123456", "https://example.com/a?b=c", "tok-9");
    assert_eq!(r.url, "https://discord.com/api/v10/channels/123456/messages");
    assert_eq!(r.bot_auth, "Bot tok-9");
    assert_eq!(r.content_type, "application/json");
    assert_eq!(r.body, "{\"content\":\"https://example.com/a?b=c\"}");
}

#[test]
fn send_begin_with_everything_names_the_post() {
    let body = Some(SendMessage { channel_id: String::from("42"), url: String::from("https://x") });
    match send_begin(Some(String::from("bot-token")), body) {
        SendAction::Respond(_) => panic!("a complete request must lead to the POST"),
        SendAction::Call(req) => {
            assert_eq!(req.url, "https://discord.com/api/v10/channels/42/messages");
            assert_eq!(req.bot_auth, "Bot bot-token");
            assert_eq!(req.body, "{\"content\":\"https://x\"}");
        },
    }
}

#[test]
fn send_status_204_is_ok() {
    let r = send_finish(204);
    assert_eq!(r.status, 200);
    assert_eq!(r.body, "{\"status\":\"ok\"}");
}

#[test]
fn send_status_429_mirrors_the_status() {
    let r = send_finish(429);
    assert_eq!(r.status, 429);
    assert_eq!(r.body, "{\"error\":\"Discord API error: 429\"}");
}

#[test]
fn send_status_boundaries() {
    assert_eq!(send_finish(200).status, 200);
    assert_eq!(send_finish(299).status, 200);
    let low = send_finish(199);
    assert_eq!(low.status, 199);
    assert_eq!(low.body, "{\"error\":\"Discord API error: 199\"}");
    let high = send_finish(300);
    assert_eq!(high.status, 300);
    assert_eq!(high.body, "{\"error\":\"Discord API error: 300\"}");
}

// The shared normalizer

#[test]
fn error_response_shapes_any_message() {
    let r = error_response("boom", 503);
    assert_eq!(r.status, 503);
    assert_eq!(r.kind, BodyKind::Json);
    assert_eq!(r.body, "{\"error\":\"boom\"}");
}

#[test]
fn helper_responses_have_their_fixed_shapes() {
    let m = missing_secret_response("SUPABASE_URL");
    assert_eq!(m.status, 500);
    assert_eq!(m.body, "{\"error\":\"Missing secret: SUPABASE_URL\"}");
    let b = malformed_body_response();
    assert_eq!(b.status, 400);
    assert_eq!(b.body, "{\"error\":\"Malformed request body\"}");
}
