use giveup::giveup::{diagnostic, EXIT_STATUS};
use giveup::{ErrorValue, Example, Giveup, Termination};

fn disk_full() -> ErrorValue {
    ErrorValue::new("disk full").caused_by(ErrorValue::new("no space on device"))
}

#[test]
fn end_to_end_write_failed() {
    colored::control::set_override(false);
    let outcome: Result<(), ErrorValue> = Err(disk_full());
    let end = outcome
        .hint("Free up space")
        .example("rm largefile")
        .giveup("Write failed")
        .unwrap_err();
    assert_eq!(
        end.diagnostic,
        "Write failed: disk full\nCaused by: no space on device\nFree up space: `rm largefile`\n"
    );
    assert_eq!(end.status, 1);
}

#[test]
fn giveup_hands_a_success_on() {
    colored::control::set_override(false);
    let outcome: Result<u32, ErrorValue> = Ok(42);
    assert_eq!(outcome.giveup("unused"), Ok(42));
}

#[test]
fn giveup_after_hint_hands_a_success_on() {
    colored::control::set_override(false);
    let outcome: Result<&str, ErrorValue> = Ok("value");
    let end = outcome.hint("a hint").example("an example").giveup("unused");
    assert_eq!(end, Ok("value"));
}

#[test]
fn giveup_without_hint_reports_the_chain() {
    colored::control::set_override(false);
    let outcome: Result<(), ErrorValue> = Err(disk_full());
    let end = outcome.giveup("Write failed").unwrap_err();
    assert_eq!(end.diagnostic, "Write failed: disk full\nCaused by: no space on device\n");
    assert_eq!(end.status, EXIT_STATUS);
}

#[test]
fn exit_status_is_one() {
    assert_eq!(EXIT_STATUS, 1);
}

#[test]
fn diagnostic_joins_label_and_body() {
    assert_eq!(diagnostic("label", "body\n"), "label: body\n");
    assert_eq!(diagnostic("", ""), ": ");
}

#[test]
fn termination_appends_no_newline() {
    colored::control::set_override(false);
    let end = Termination::new("msg", "body\n");
    assert_eq!(end.diagnostic, "msg: body\n");
    assert_eq!(end.status, 1);
}
