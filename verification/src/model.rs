//! The relay's data model: the request bodies it accepts, the auth-service
//! results it re-serializes, and the exact JSON field set of each response
//! shape. Values of the external services are mirrored here as plain strings,
//! integers and booleans; the platform glue converts at the boundary.

use vstd::prelude::*;
use crate::json::{
    bool_text, json_bool, json_opt_string, json_string, json_u64, obj_text, opt_quoted, pairs_view,
    quoted, render_object,
};
use crate::text::dec_of;

verus! {

/// A login or sign-up request body.
pub struct Credentials {
    pub email: String,
    pub password: String,
}

/// A message-relay request body: the target channel and the text to post.
pub struct SendMessage {
    pub channel_id: String,
    pub url: String,
}

/// The subset of the auth service's user record that the relay re-serializes.
pub struct User {
    pub id: String,
    pub email: String,
    pub created_at: String,
    pub updated_at: String,
    pub last_sign_in_at: Option<String>,
    pub email_confirmed_at: Option<String>,
}

/// An authenticated session returned by the auth service.
pub struct Session {
    pub access_token: String,
    pub refresh_token: String,
    pub expires_in: u64,
    pub expires_at: u64,
    pub token_type: String,
    pub user: User,
}

/// A sign-up that is waiting for email confirmation.
pub struct PendingConfirmation {
    pub id: String,
    pub aud: String,
    pub role: String,
    pub confirmation_sent_at: String,
    pub is_anonymous: bool,
    pub created_at: String,
    pub updated_at: String,
}

/// The two mutually exclusive outcomes of a sign-up: an immediately active
/// session, or a pending confirmation. Each variant is serialized with its
/// own field set; there is no shared schema.
pub enum SignUpOutcome {
    SessionResult(Session),
    ConfirmationResult(PendingConfirmation),
}

/// The three-state result of a bearer-token lookup: a user was found, no
/// token was supplied at all (soft: not an error), or a token was supplied
/// and the auth service rejected it (hard: an error). The two failure states
/// both surface as the same HTTP status, but they are distinct states and
/// take distinct paths through the relay.
pub enum AuthLookup {
    Found(User),
    NoToken,
    Invalid,
}

/// The spec-level view of an optional string.
pub open spec fn opt_view(s: Option<String>) -> Option<Seq<char>> {
    match s {
        Option::None => Option::<Seq<char>>::None,
        Option::Some(t) => Option::Some(t@),
    }
}

/// The rendered members of a serialized `User`, in order: exactly these six
/// keys and no others.
pub open spec fn user_fields(u: User) -> Seq<(Seq<char>, Seq<char>)> {
    seq![
        ("id"@, quoted(u.id@)),
        ("email"@, quoted(u.email@)),
        ("created_at"@, quoted(u.created_at@)),
        ("updated_at"@, quoted(u.updated_at@)),
        ("last_sign_in_at"@, opt_quoted(opt_view(u.last_sign_in_at))),
        ("email_confirmed_at"@, opt_quoted(opt_view(u.email_confirmed_at))),
    ]
}

/// The JSON body for a `User`.
pub open spec fn user_json(u: User) -> Seq<char> {
    obj_text(user_fields(u))
}

/// The rendered members of a serialized `Session`, in order: exactly these
/// six keys and no others, the last being the nested user object.
pub open spec fn session_fields(s: Session) -> Seq<(Seq<char>, Seq<char>)> {
    seq![
        ("access_token"@, quoted(s.access_token@)),
        ("refresh_token"@, quoted(s.refresh_token@)),
        ("expires_in"@, dec_of(s.expires_in as int)),
        ("expires_at"@, dec_of(s.expires_at as int)),
        ("token_type"@, quoted(s.token_type@)),
        ("user"@, user_json(s.user)),
    ]
}

/// The JSON body for a `Session`.
pub open spec fn session_json(s: Session) -> Seq<char> {
    obj_text(session_fields(s))
}

/// The rendered members of a serialized `PendingConfirmation`, in order:
/// exactly these seven keys and no others.
pub open spec fn confirmation_fields(c: PendingConfirmation) -> Seq<(Seq<char>, Seq<char>)> {
    seq![
        ("id"@, quoted(c.id@)),
        ("aud"@, quoted(c.aud@)),
        ("role"@, quoted(c.role@)),
        ("confirmation_sent_at"@, quoted(c.confirmation_sent_at@)),
        ("is_anonymous"@, bool_text(c.is_anonymous)),
        ("created_at"@, quoted(c.created_at@)),
        ("updated_at"@, quoted(c.updated_at@)),
    ]
}

/// The JSON body for a `PendingConfirmation`.
pub open spec fn confirmation_json(c: PendingConfirmation) -> Seq<char> {
    obj_text(confirmation_fields(c))
}

/// The key sequence of a rendered field list.
pub open spec fn field_keys(fs: Seq<(Seq<char>, Seq<char>)>) -> Seq<Seq<char>> {
    fs.map_values(|f: (Seq<char>, Seq<char>)| f.0)
}

/// The two sign-up schemas are disjoint: whatever the values, a serialized
/// session variant and a serialized confirmation variant never carry the same
/// field set — they differ in their number of keys and already in their
/// second key.
pub proof fn lemma_signup_schemas_differ(u: User, c: PendingConfirmation)
    ensures
        field_keys(user_fields(u)) != field_keys(confirmation_fields(c)),
        field_keys(user_fields(u)).len() == 6,
        field_keys(confirmation_fields(c)).len() == 7,
{
    assert(field_keys(user_fields(u)).len() == 6);
    assert(field_keys(confirmation_fields(c)).len() == 7);
}

/// The second key really differs between the two sign-up schemas, so the
/// disjointness does not rest on the key count alone.
pub proof fn lemma_signup_second_key_differs(u: User, c: PendingConfirmation)
    ensures
        field_keys(user_fields(u))[1] != field_keys(confirmation_fields(c))[1],
{
    reveal_strlit("email");
    reveal_strlit("aud");
    assert(field_keys(user_fields(u))[1] == "email"@);
    assert(field_keys(confirmation_fields(c))[1] == "aud"@);
    assert("email"@.len() == 5);
    assert("aud"@.len() == 3);
}

/// Renders a `User` with exactly the six keys of `user_fields`.
pub fn render_user(u: &User) -> (r: String)
    ensures
        r@ == user_json(*u),
{
    let mut fields: Vec<(String, String)> = Vec::new();
    fields.push((String::from_str("id"), json_string(u.id.as_str())));
    fields.push((String::from_str("email"), json_string(u.email.as_str())));
    fields.push((String::from_str("created_at"), json_string(u.created_at.as_str())));
    fields.push((String::from_str("updated_at"), json_string(u.updated_at.as_str())));
    fields.push((String::from_str("last_sign_in_at"), json_opt_string(&u.last_sign_in_at)));
    fields.push((String::from_str("email_confirmed_at"), json_opt_string(&u.email_confirmed_at)));
    let r = render_object(&fields);
    proof {
        assert(pairs_view(fields@) =~= user_fields(*u));
    }
    r
}

/// Renders a `Session` with exactly the six keys of `session_fields`.
pub fn render_session(s: &Session) -> (r: String)
    ensures
        r@ == session_json(*s),
{
    let mut fields: Vec<(String, String)> = Vec::new();
    fields.push((String::from_str("access_token"), json_string(s.access_token.as_str())));
    fields.push((String::from_str("refresh_token"), json_string(s.refresh_token.as_str())));
    fields.push((String::from_str("expires_in"), json_u64(s.expires_in)));
    fields.push((String::from_str("expires_at"), json_u64(s.expires_at)));
    fields.push((String::from_str("token_type"), json_string(s.token_type.as_str())));
    fields.push((String::from_str("user"), render_user(&s.user)));
    let r = render_object(&fields);
    proof {
        assert(pairs_view(fields@) =~= session_fields(*s));
    }
    r
}

/// Renders a `PendingConfirmation` with exactly the seven keys of
/// `confirmation_fields`.
pub fn render_confirmation(c: &PendingConfirmation) -> (r: String)
    ensures
        r@ == confirmation_json(*c),
{
    let mut fields: Vec<(String, String)> = Vec::new();
    fields.push((String::from_str("id"), json_string(c.id.as_str())));
    fields.push((String::from_str("aud"), json_string(c.aud.as_str())));
    fields.push((String::from_str("role"), json_string(c.role.as_str())));
    fields.push((
        String::from_str("confirmation_sent_at"),
        json_string(c.confirmation_sent_at.as_str()),
    ));
    fields.push((String::from_str("is_anonymous"), json_bool(c.is_anonymous)));
    fields.push((String::from_str("created_at"), json_string(c.created_at.as_str())));
    fields.push((String::from_str("updated_at"), json_string(c.updated_at.as_str())));
    let r = render_object(&fields);
    proof {
        assert(pairs_view(fields@) =~= confirmation_fields(*c));
    }
    r
}

} // verus!
