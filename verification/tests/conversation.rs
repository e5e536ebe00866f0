use aishell::message::{Conversation, Message, Role, TurnOutcome};

fn snapshot(conv: &Conversation) -> Vec<(Role, String)> {
    let mut out = Vec::new();
    let mut i = 0;
    while i < conv.len() {
        let m: &Message = conv.message_at(i);
        out.push((m.role, m.content.clone()));
        i += 1;
    }
    out
}

#[test]
fn new_conversation_holds_only_the_system_message() {
    let conv = Conversation::new(String::from("be helpful"));
    assert_eq!(conv.len(), 1);
    assert_eq!(conv.message_at(0).role, Role::System);
    assert_eq!(conv.message_at(0).content, "be helpful");
}

#[test]
fn successful_turns_append_alternating_pairs() {
    let mut conv = Conversation::new(String::from("sys"));
    let turns = [("first question", "first answer"), ("second question", "second answer"), (
        "third question",
        "third answer",
    )];
    for (q, a) in turns.iter() {
        conv = conv.after_turn(q.to_string(), TurnOutcome::Reply(a.to_string()));
    }
    // 2N + 1 messages after N successful turns
    assert_eq!(conv.len(), 2 * turns.len() + 1);
    assert_eq!(conv.message_at(0).role, Role::System);
    for (i, (q, a)) in turns.iter().enumerate() {
        let user = conv.message_at(1 + 2 * i);
        assert_eq!(user.role, Role::User);
        assert_eq!(user.content, *q);
        let assistant = conv.message_at(2 + 2 * i);
        assert_eq!(assistant.role, Role::Assistant);
        assert_eq!(assistant.content, *a);
    }
}

#[test]
fn provider_error_leaves_the_conversation_unchanged() {
    let mut conv = Conversation::new(String::from("sys"));
    conv = conv.after_turn(String::from("q"), TurnOutcome::Reply(String::from("a")));
    let before = snapshot(&conv);
    conv = conv.after_turn(String::from("does not matter"), TurnOutcome::ProviderError);
    assert_eq!(snapshot(&conv), before);
}

#[test]
fn transport_error_leaves_the_conversation_unchanged() {
    let mut conv = Conversation::new(String::from("sys"));
    let before = snapshot(&conv);
    conv = conv.after_turn(String::from("lost in transit"), TurnOutcome::TransportError);
    assert_eq!(snapshot(&conv), before);
    // and a later successful turn still lands in the right place
    conv = conv.after_turn(String::from("q"), TurnOutcome::Reply(String::from("a")));
    assert_eq!(conv.len(), 3);
    assert_eq!(conv.message_at(1).content, "q");
    assert_eq!(conv.message_at(2).content, "a");
}
