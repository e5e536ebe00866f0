use aishell::encode::encode_request;
use aishell::message::{Conversation, TurnOutcome};
use aishell::prompt::{join_words, system_message};
use aishell::response::extract_content;

#[test]
fn one_shot_request_body_is_exact() {
    let conv = Conversation::new(String::from("sys"));
    let body = encode_request("gpt-3.5-turbo", &conv, "hello");
    assert_eq!(
        body,
        r#"{"model":"gpt-3.5-turbo","messages":[{"role":"system","content":"sys"},{"role":"user","content":"hello"}]}"#
    );
}

#[test]
fn request_body_after_a_turn_lists_all_four_messages() {
    let mut conv = Conversation::new(String::from("s"));
    conv = conv.after_turn(String::from("q1"), TurnOutcome::Reply(String::from("a1")));
    let body = encode_request("m", &conv, "q2");
    assert_eq!(
        body,
        r#"{"model":"m","messages":[{"role":"system","content":"s"},{"role":"user","content":"q1"},{"role":"assistant","content":"a1"},{"role":"user","content":"q2"}]}"#
    );
}

#[test]
fn content_is_escaped_for_json() {
    let conv = Conversation::new(String::from("a\"b\\c\nd\re\tf"));
    let body = encode_request("m", &conv, "\u{1}\u{1f} ");
    assert_eq!(
        body,
        "{\"model\":\"m\",\"messages\":[{\"role\":\"system\",\"content\":\"a\\\"b\\\\c\\nd\\re\\tf\"},{\"role\":\"user\",\"content\":\"\\u0001\\u001f \"}]}"
    );
}

#[test]
fn encoded_body_parses_back_with_a_real_json_parser() {
    let mut conv = Conversation::new(system_message("zsh", "macos"));
    conv = conv.after_turn(String::from("q \"uoted\""), TurnOutcome::Reply(String::from("a1")));
    let prompt = join_words(&vec![String::from("list"), String::from("files")]);
    let body = encode_request("gpt-3.5-turbo", &conv, &prompt);

    let parsed: serde_json::Value = serde_json::from_str(&body).expect("body must be valid JSON");
    assert_eq!(parsed.get("model").unwrap().as_str().unwrap(), "gpt-3.5-turbo");
    let messages = parsed.get("messages").unwrap().as_array().unwrap();
    assert_eq!(messages.len(), 4);
    assert_eq!(messages[0].get("role").unwrap().as_str().unwrap(), "system");
    assert_eq!(messages[1].get("content").unwrap().as_str().unwrap(), "q \"uoted\"");
    assert_eq!(messages[2].get("role").unwrap().as_str().unwrap(), "assistant");
    // the one-shot prompt words arrive space-joined as the user content
    assert_eq!(messages[3].get("role").unwrap().as_str().unwrap(), "user");
    assert_eq!(messages[3].get("content").unwrap().as_str().unwrap(), "list files");
}

#[test]
fn system_message_embeds_the_shell_and_os() {
    let m = system_message("zsh", "macos");
    assert!(m.starts_with(
        "You are both an AI assistant and a natural language to zsh command translation engine on macos.\n"
    ));
    assert!(m.contains("Always use valid syntax for zsh.\n"));
    assert!(m.contains("Always make sure the command will work properly on macos.\n"));
    assert!(m.ends_with("with absolutely no exceptions whatsoever."));
}

#[test]
fn extract_content_finds_the_first_choice_text() {
    let resp: serde_json::Value =
        serde_json::from_str(r#"{"choices":[{"message":{"content":"hi there"}}]}"#).unwrap();
    assert_eq!(extract_content(resp), Ok(String::from("hi there")));
}

#[test]
fn extract_content_hands_an_error_payload_back_untouched() {
    let text = r#"{"error":{"message":"model overloaded","type":"server_error"}}"#;
    let resp: serde_json::Value = serde_json::from_str(text).unwrap();
    let expected: serde_json::Value = serde_json::from_str(text).unwrap();
    assert_eq!(extract_content(resp), Err(expected));
}

#[test]
fn extract_content_rejects_a_non_string_content() {
    let text = r#"{"choices":[{"message":{"content":42}}]}"#;
    let resp: serde_json::Value = serde_json::from_str(text).unwrap();
    let expected: serde_json::Value = serde_json::from_str(text).unwrap();
    assert_eq!(extract_content(resp), Err(expected));
}

#[test]
fn extract_content_rejects_an_empty_choices_list() {
    let text = r#"{"choices":[]}"#;
    let resp: serde_json::Value = serde_json::from_str(text).unwrap();
    let expected: serde_json::Value = serde_json::from_str(text).unwrap();
    assert_eq!(extract_content(resp), Err(expected));
}
