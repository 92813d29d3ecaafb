use prompt_relay::reply::{ProviderError, ProviderOutcome};
use prompt_relay::route::{completion_reply, hello, manual_hello, BodyKind, HttpReply};

#[test]
fn hello_answers_hello_world() {
    let reply = hello();
    assert_eq!(
        reply,
        HttpReply { status: 200, kind: BodyKind::Text, body: "Hello, world!".to_string() }
    );
    assert_eq!(hello(), reply);
}

#[test]
fn manual_hello_answers_hello_there() {
    assert_eq!(
        manual_hello(),
        HttpReply { status: 200, kind: BodyKind::Text, body: "Hello, there!".to_string() }
    );
}

#[test]
fn completion_reply_is_json_with_status_200() {
    let outcome = ProviderOutcome::Replied(vec![Some("  x = \"1\"\n".to_string())]);
    assert_eq!(
        completion_reply(&outcome),
        Ok(HttpReply {
            status: 200,
            kind: BodyKind::Json,
            body: "{\"completion\":\"x = \\\"1\\\"\"}".to_string(),
        })
    );
}

#[test]
fn completion_reply_hands_each_error_on() {
    assert_eq!(completion_reply(&ProviderOutcome::Failed), Err(ProviderError::CallFailed));
    assert_eq!(
        completion_reply(&ProviderOutcome::Replied(vec![])),
        Err(ProviderError::NoMessage)
    );
    assert_eq!(
        completion_reply(&ProviderOutcome::Replied(vec![None])),
        Err(ProviderError::NoContent)
    );
}
