use giveup::{ErrorValue, Giveup, Termination};

#[test]
fn message_is_bold_where_styling_is_on() {
    colored::control::set_override(true);
    let end = Termination::new("Write failed", "disk full\n");
    assert_eq!(end.diagnostic, "\u{1b}[1mWrite failed\u{1b}[0m: disk full\n");
    assert_eq!(end.status, 1);
}

#[test]
fn giveup_emphasizes_only_the_message() {
    colored::control::set_override(true);
    let outcome: Result<(), ErrorValue> = Err(ErrorValue::new("disk full"));
    let end = outcome.giveup("Write failed").unwrap_err();
    assert_eq!(end.diagnostic, "\u{1b}[1mWrite failed\u{1b}[0m: disk full\n");
}
