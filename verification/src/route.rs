//! What each route answers, as plain values.

use vstd::prelude::*;
use vstd::string::*;
use crate::reply::{
    completion_from_outcome, completion_json_frame, completion_of, json_string_text,
    ProviderError, ProviderOutcome,
};

verus! {

/// The kind of body a response carries.
#[derive(Clone, Copy, Debug, PartialEq, Eq, Structural)]
pub enum BodyKind {
    Text,
    Json,
}

/// A response, ready to be sent.
#[derive(Clone, Debug, PartialEq, Eq)]
pub struct HttpReply {
    pub status: u16,
    pub kind: BodyKind,
    pub body: String,
}

/// The answer of the liveness probe at `/`. It takes nothing from the
/// request, so it is the same whatever the request's headers are.
pub fn hello() -> (reply: HttpReply)
    ensures
        reply.status == 200,
        reply.kind == BodyKind::Text,
        reply.body@ == "Hello, world!"@,
{
    HttpReply { status: 200, kind: BodyKind::Text, body: String::from_str("Hello, world!") }
}

/// The answer of the second liveness probe, at `/hey`.
pub fn manual_hello() -> (reply: HttpReply)
    ensures
        reply.status == 200,
        reply.kind == BodyKind::Text,
        reply.body@ == "Hello, there!"@,
{
    HttpReply { status: 200, kind: BodyKind::Text, body: String::from_str("Hello, there!") }
}

/// The answer of `/complete` and of `/suggestion` once the provider has
/// answered: status 200 and the completion as JSON, or the reason why there
/// is no completion.
pub fn completion_reply(outcome: &ProviderOutcome) -> (r: Result<HttpReply, ProviderError>)
    ensures
        match (r, completion_of(*outcome)) {
            (Ok(reply), Ok(text)) => {
                &&& reply.status == 200
                &&& reply.kind == BodyKind::Json
                &&& reply.body@ == completion_json_frame(json_string_text(text))
            },
            (Err(e), Err(f)) => e == f,
            _ => false,
        },
{
    match completion_from_outcome(outcome) {
        Ok(response) => Ok(HttpReply { status: 200, kind: BodyKind::Json, body: response.to_json() }),
        Err(e) => Err(e),
    }
}

} // verus!
