//! Answers to requests: a JSON document, or a status with a document that says
//! what went wrong.
use vstd::prelude::*;
use crate::json;
use crate::json::{Json, JsonObject, JsonView};

verus! {

pub const BAD_REQUEST: u16 = 400;

pub const UNAUTHORIZED: u16 = 401;

pub const PAYMENT_REQUIRED: u16 = 402;

pub const FORBIDDEN: u16 = 403;

pub const NOT_FOUND: u16 = 404;

pub const CONFLICT: u16 = 409;

pub const PAYLOAD_TOO_LARGE: u16 = 413;

pub const INTERNAL_ERROR: u16 = 500;

pub const BAD_GATEWAY: u16 = 502;

pub const SERVICE_UNAVAILABLE: u16 = 503;

/// A refused request: the status and the document it is answered with.
#[derive(Debug)]
pub struct Reply {
    pub status: u16,
    pub body: Json,
}

/// What a refused request is answered.
pub ghost struct ReplyView {
    pub status: u16,
    pub body: JsonView,
}

impl View for Reply {
    type V = ReplyView;

    open spec fn view(&self) -> ReplyView {
        ReplyView { status: self.status, body: self.body@ }
    }
}

/// What a request is answered: a document, or a refusal.
pub open spec fn outcome(r: Result<Json, Reply>) -> Result<JsonView, ReplyView> {
    match r {
        Ok(body) => Ok(body@),
        Err(reply) => Err(reply@),
    }
}

/// The document of a refusal.
pub open spec fn error_body(message: Seq<char>) -> JsonView {
    JsonView::Object(
        map!["status"@ => JsonView::Text("error"@), "message"@ => JsonView::Text(message)],
    )
}

/// A refusal with a message.
pub open spec fn refusal(status: u16, message: Seq<char>) -> ReplyView {
    ReplyView { status, body: error_body(message) }
}

/// The refusal of a request that shows no right to be served.
pub open spec fn unauthorized_view() -> ReplyView {
    refusal(UNAUTHORIZED, "Unauthorized"@)
}

/// The document of a refusal.
pub fn error_document(message: &str) -> (r: Json)
    ensures
        r@ == error_body(message@),
{
    let mut body = JsonObject::new();
    body.put("status", json::text_value("error"));
    body.put("message", json::text_value(message));
    Json::Object(body)
}

/// A refusal with a message.
pub fn refuse(status: u16, message: &str) -> (r: Reply)
    ensures
        r@ == refusal(status, message@),
{
    Reply { status, body: error_document(message) }
}

/// The refusal of a request that shows no right to be served.
pub fn unauthorized() -> (r: Reply)
    ensures
        r@ == unauthorized_view(),
{
    refuse(UNAUTHORIZED, "Unauthorized")
}

/// Refuses a request that shows no right to be served.
pub fn require_authorized(authorized: bool) -> (r: Result<(), Reply>)
    ensures
        match r {
            Ok(_) => authorized,
            Err(reply) => !authorized && reply@ == unauthorized_view(),
        },
{
    if authorized {
        Ok(())
    } else {
        Err(unauthorized())
    }
}

} // verus!
