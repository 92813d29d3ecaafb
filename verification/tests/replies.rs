use prompt_relay::reply::{
    completion_from_outcome, first_message_text, frame_completion_json, CompletionResponse,
    ProviderError, ProviderOutcome,
};

fn replied(texts: Vec<Option<&str>>) -> ProviderOutcome {
    ProviderOutcome::Replied(texts.into_iter().map(|t| t.map(|s| s.to_string())).collect())
}

#[test]
fn failed_call_gives_call_failed() {
    assert_eq!(first_message_text(&ProviderOutcome::Failed), Err(ProviderError::CallFailed));
    assert_eq!(completion_from_outcome(&ProviderOutcome::Failed), Err(ProviderError::CallFailed));
}

#[test]
fn answer_without_message_gives_no_message() {
    let outcome = replied(vec![]);
    assert_eq!(first_message_text(&outcome), Err(ProviderError::NoMessage));
    assert_eq!(completion_from_outcome(&outcome), Err(ProviderError::NoMessage));
}

#[test]
fn first_message_without_text_gives_no_content() {
    let outcome = replied(vec![None, Some("later")]);
    assert_eq!(first_message_text(&outcome), Err(ProviderError::NoContent));
    assert_eq!(completion_from_outcome(&outcome), Err(ProviderError::NoContent));
}

#[test]
fn first_message_is_taken_as_it_is() {
    let outcome = replied(vec![Some("  first \n"), Some("second"), None]);
    assert_eq!(first_message_text(&outcome), Ok("  first \n"));
}

#[test]
fn completion_is_the_first_message_trimmed() {
    let outcome = replied(vec![Some("\n  return 42;\t \r\n"), Some("other")]);
    assert_eq!(
        completion_from_outcome(&outcome),
        Ok(CompletionResponse { completion: "return 42;".to_string() })
    );
}

#[test]
fn trimming_keeps_inner_white_space() {
    let response = CompletionResponse::from_reply("  a  b\n\n c  ");
    assert_eq!(response.completion, "a  b\n\n c");
}

#[test]
fn trimming_goes_by_the_unicode_property() {
    let response = CompletionResponse::from_reply("\u{a0}\u{2003}\u{3000}x\u{85}\u{2028}");
    assert_eq!(response.completion, "x");
    let kept = CompletionResponse::from_reply("\u{200b}x\u{feff}");
    assert_eq!(kept.completion, "\u{200b}x\u{feff}");
}

#[test]
fn trimming_white_space_alone_leaves_nothing() {
    assert_eq!(CompletionResponse::from_reply(" \t\r\n").completion, "");
    assert_eq!(CompletionResponse::from_reply("").completion, "");
    assert_eq!(
        completion_from_outcome(&replied(vec![Some("   ")])),
        Ok(CompletionResponse { completion: String::new() })
    );
}

#[test]
fn trimming_leaves_trimmed_text_alone() {
    assert_eq!(CompletionResponse::from_reply("let x = 1;").completion, "let x = 1;");
}

#[test]
fn json_body_of_a_plain_completion() {
    let response = CompletionResponse { completion: "return 42;".to_string() };
    assert_eq!(response.to_json(), "{\"completion\":\"return 42;\"}");
}

#[test]
fn json_body_escapes_what_json_wants_escaped() {
    let response = CompletionResponse { completion: "say \"hi\"\n\tc:\\dir \u{1}".to_string() };
    assert_eq!(
        response.to_json(),
        "{\"completion\":\"say \\\"hi\\\"\\n\\tc:\\\\dir \\u0001\"}"
    );
}

#[test]
fn json_body_keeps_other_characters() {
    let response = CompletionResponse { completion: "caf\u{e9} \u{4e16}\u{754c} </script>".to_string() };
    assert_eq!(response.to_json(), "{\"completion\":\"caf\u{e9} \u{4e16}\u{754c} </script>\"}");
}

#[test]
fn json_body_of_an_empty_completion() {
    let response = CompletionResponse { completion: String::new() };
    assert_eq!(response.to_json(), "{\"completion\":\"\"}");
}

#[test]
fn json_body_reads_back_as_the_completion() {
    let text = "fn main() {\n    println!(\"{}\", 1);\n}";
    let body = CompletionResponse { completion: text.to_string() }.to_json();
    let value: serde_json::Value = serde_json::from_str(&body).unwrap();
    let object = value.as_object().unwrap();
    assert_eq!(object.len(), 1);
    assert_eq!(object.get("completion").and_then(|v| v.as_str()), Some(text));
}

#[test]
fn frame_puts_the_value_behind_the_member_name() {
    assert_eq!(frame_completion_json("\"x\""), "{\"completion\":\"x\"}");
    assert_eq!(frame_completion_json(""), "{\"completion\":}");
    assert_eq!(frame_completion_json("null"), "{\"completion\":null}");
}
