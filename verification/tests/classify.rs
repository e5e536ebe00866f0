use aishell::output::{approved_command, classify, Reply};
use aishell::text::trim;

#[test]
fn marked_response_yields_the_trimmed_command() {
    match classify("  [shell] ls -la  ") {
        Reply::Command(c) => assert_eq!(c, "ls -la"),
        Reply::Answer(_) => panic!("marked response was treated as a plain answer"),
    }
}

#[test]
fn unmarked_response_is_a_plain_answer_unchanged() {
    match classify("The capital of France is Paris.") {
        Reply::Command(_) => panic!("plain answer was treated as a command"),
        Reply::Answer(a) => assert_eq!(a, "The capital of France is Paris."),
    }
}

#[test]
fn marker_alone_yields_an_empty_command() {
    match classify("[shell]") {
        Reply::Command(c) => assert_eq!(c, ""),
        Reply::Answer(_) => panic!("marked response was treated as a plain answer"),
    }
}

#[test]
fn marker_not_in_front_stays_a_plain_answer() {
    match classify("run [shell] ls") {
        Reply::Command(_) => panic!("marker inside the text must not mark a command"),
        Reply::Answer(a) => assert_eq!(a, "run [shell] ls"),
    }
}

#[test]
fn untrimmed_plain_answer_keeps_its_whitespace() {
    match classify("  plain  ") {
        Reply::Command(_) => panic!("plain answer was treated as a command"),
        Reply::Answer(a) => assert_eq!(a, "  plain  "),
    }
}

#[test]
fn declined_confirmation_never_yields_a_command_to_run() {
    assert_eq!(approved_command(String::from("rm -rf /"), false), None);
    assert_eq!(approved_command(String::from("ls"), false), None);
    assert_eq!(approved_command(String::from(""), false), None);
}

#[test]
fn confirmed_command_is_handed_back_for_execution() {
    assert_eq!(approved_command(String::from("ls -la"), true), Some(String::from("ls -la")));
}

#[test]
fn trim_removes_leading_and_trailing_whitespace_only() {
    assert_eq!(trim(" \t\r\n abc \n"), "abc");
    assert_eq!(trim("a  b"), "a  b");
    assert_eq!(trim(""), "");
    assert_eq!(trim(" \t "), "");
}

#[test]
fn trim_removes_unicode_whitespace_as_the_platform_does() {
    assert_eq!(trim("\u{a0}\u{2003}abc\u{3000}"), "abc");
    assert_eq!(trim("\u{a0}\u{2003}abc\u{3000}"), "\u{a0}\u{2003}abc\u{3000}".trim());
}

#[test]
fn marker_without_a_space_still_yields_the_command() {
    match classify("[shell]ls") {
        Reply::Command(c) => assert_eq!(c, "ls"),
        Reply::Answer(_) => panic!("marked response was treated as a plain answer"),
    }
}

#[test]
fn unicode_whitespace_before_the_marker_still_marks_a_command() {
    match classify("\u{a0}[shell] ls") {
        Reply::Command(c) => assert_eq!(c, "ls"),
        Reply::Answer(_) => panic!("marked response was treated as a plain answer"),
    }
}
