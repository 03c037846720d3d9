//! The message-relay handler: building the single outbound POST to the chat
//! platform's channel-message endpoint, and classifying its HTTP status. The
//! relay makes at most one attempt, never retries, and never inspects the
//! error response body — only its numeric status.

use vstd::prelude::*;
use crate::json::{obj_text, quoted};
use crate::model::SendMessage;
use crate::response::{BodyKind, HttpResponse, error_json, error_response};
use crate::text::{dec_of, u64_dec};

verus! {

/// The one outbound request of the relay: a POST whose target, bot
/// authorization header, content type and JSON body are fixed by the chat
/// platform's API.
pub struct OutboundRequest {
    pub url: String,
    pub bot_auth: String,
    pub content_type: String,
    pub body: String,
}

/// What the send handler decides before its outbound call: answer at once,
/// or perform exactly this POST.
pub enum SendAction {
    Respond(HttpResponse),
    Call(OutboundRequest),
}

/// The channel-message endpoint for a channel.
pub open spec fn channel_url(channel_id: Seq<char>) -> Seq<char> {
    "https://discord.com/api/v10/channels/"@ + channel_id + "/messages"@
}

/// The outbound JSON body: an object with the single key `content` — the
/// field name is fixed by the external API.
pub open spec fn content_body(text: Seq<char>) -> Seq<char> {
    obj_text(seq![("content"@, quoted(text))])
}

/// The bot authorization header value.
pub open spec fn bot_auth_text(token: Seq<char>) -> Seq<char> {
    "Bot "@ + token
}

/// Builds the outbound POST for a message: target URL, `Bot` authorization,
/// JSON content type, and the one-key body.
pub fn build_send_request(channel_id: &str, text: &str, bot_token: &str) -> (r: OutboundRequest)
    ensures
        r.url@ == channel_url(channel_id@),
        r.bot_auth@ == bot_auth_text(bot_token@),
        r.content_type@ == "application/json"@,
        r.body@ == content_body(text@),
{
    let mut url = String::from_str("https://discord.com/api/v10/channels/");
    url.append(channel_id);
    url.append("/messages");
    let mut bot_auth = String::from_str("Bot ");
    bot_auth.append(bot_token);
    let mut fields: Vec<(String, String)> = Vec::new();
    fields.push((String::from_str("content"), crate::json::json_string(text)));
    let body = crate::json::render_object(&fields);
    proof {
        assert(crate::json::pairs_view(fields@) =~= seq![("content"@, quoted(text@))]);
    }
    OutboundRequest { url, bot_auth, content_type: String::from_str("application/json"), body }
}

/// The decision half of the send handler: a missing bot token fails the
/// request at once — the result is then never `Call`, so no outbound call
/// can be issued — and so does a request body that did not parse. Otherwise
/// the handler names exactly the POST to perform.
pub fn send_begin(bot_token: Option<String>, body: Option<SendMessage>) -> (r: SendAction)
    ensures
        match r {
            SendAction::Respond(resp) => {
                &&& (bot_token is None || body is None)
                &&& resp.kind == BodyKind::Json
                &&& if bot_token is None {
                    resp.status == 500 && resp.body@ == error_json(
                        crate::auth::missing_secret_text("DISCORD_TOKEN"@),
                    )
                } else {
                    resp.status == 400 && resp.body@ == error_json("Malformed request body"@)
                }
            },
            SendAction::Call(req) => {
                &&& bot_token is Some && body is Some
                &&& req.url@ == channel_url(body->Some_0.channel_id@)
                &&& req.bot_auth@ == bot_auth_text(bot_token->Some_0@)
                &&& req.content_type@ == "application/json"@
                &&& req.body@ == content_body(body->Some_0.url@)
            },
        },
{
    let token = match bot_token {
        Option::Some(t) => t,
        Option::None => {
            return SendAction::Respond(crate::auth::missing_secret_response("DISCORD_TOKEN"));
        },
    };
    let message = match body {
        Option::Some(m) => m,
        Option::None => {
            return SendAction::Respond(crate::auth::malformed_body_response());
        },
    };
    SendAction::Call(
        build_send_request(message.channel_id.as_str(), message.url.as_str(), token.as_str()),
    )
}

/// The success body of the send handler.
pub open spec fn status_ok_json() -> Seq<char> {
    obj_text(seq![("status"@, quoted("ok"@))])
}

/// The error text carrying the external platform's status.
pub open spec fn relay_error_text(status: int) -> Seq<char> {
    "Discord API error: "@ + dec_of(status)
}

/// Classifies the external platform's HTTP status: any status in [200, 300)
/// is success and answers 200 with `{"status":"ok"}`; any other status is an
/// error whose answer carries that same numeric status.
pub fn send_finish(status: u16) -> (r: HttpResponse)
    ensures
        r.kind == BodyKind::Json,
        200 <= status < 300 ==> r.status == 200 && r.body@ == status_ok_json(),
        !(200 <= status < 300) ==> r.status == status && r.body@ == error_json(
            relay_error_text(status as int),
        ),
{
    if 200 <= status && status < 300 {
        let mut fields: Vec<(String, String)> = Vec::new();
        fields.push((String::from_str("status"), crate::json::json_string("ok")));
        let body = crate::json::render_object(&fields);
        proof {
            assert(crate::json::pairs_view(fields@) =~= seq![("status"@, quoted("ok"@))]);
        }
        HttpResponse { status: 200, kind: BodyKind::Json, body }
    } else {
        let mut message = String::from_str("Discord API error: ");
        message.append(u64_dec(status as u64).as_str());
        error_response(message.as_str(), status)
    }
}

} // verus!
