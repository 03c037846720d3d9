//! The uniform HTTP answer of the relay: a status code, a body kind, and the
//! body text. Every handler outcome — success value, external error, missing
//! credential, missing configuration — is normalized into this one shape.

use vstd::prelude::*;
use crate::json::{obj_text, quoted};

verus! {

/// Whether a response body is JSON or plain text.
#[derive(Clone, Copy, Debug, PartialEq, Eq, Structural)]
pub enum BodyKind {
    Json,
    Text,
}

/// A fully formed HTTP answer, ready for the platform glue to emit.
pub struct HttpResponse {
    pub status: u16,
    pub kind: BodyKind,
    pub body: String,
}

/// The uniform error body: an object with the single key `error`.
pub open spec fn error_json(message: Seq<char>) -> Seq<char> {
    obj_text(seq![("error"@, quoted(message))])
}

/// Normalizes an error message into a JSON answer at the given status.
pub fn error_response(message: &str, status: u16) -> (r: HttpResponse)
    ensures
        r.status == status,
        r.kind == BodyKind::Json,
        r.body@ == error_json(message@),
{
    let mut fields: Vec<(String, String)> = Vec::new();
    fields.push((String::from_str("error"), crate::json::json_string(message)));
    let body = crate::json::render_object(&fields);
    proof {
        assert(crate::json::pairs_view(fields@) =~= seq![("error"@, quoted(message@))]);
    }
    HttpResponse { status, kind: BodyKind::Json, body }
}

/// A plain-text answer at status 200.
pub fn text_response(text: &str) -> (r: HttpResponse)
    ensures
        r.status == 200,
        r.kind == BodyKind::Text,
        r.body@ == text@,
{
    HttpResponse { status: 200, kind: BodyKind::Text, body: String::from_str(text) }
}

} // verus!
