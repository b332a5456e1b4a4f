use chat_relay::prompt::tag_prompt;

#[test]
fn prompt_is_tagged_with_the_sender() {
    assert_eq!(tag_prompt("alice", "hi"), "[alice]: hi");
}

#[test]
fn text_is_kept_as_it_came() {
    assert_eq!(tag_prompt("bob", "  two  spaces\nand a line "), "[bob]:   two  spaces\nand a line ");
    assert_eq!(tag_prompt("bob", "[alice]: hi"), "[bob]: [alice]: hi");
}

#[test]
fn empty_parts_leave_the_tag() {
    assert_eq!(tag_prompt("alice", ""), "[alice]: ");
    assert_eq!(tag_prompt("", "hi"), "[]: hi");
    assert_eq!(tag_prompt("", ""), "[]: ");
}

#[test]
fn letters_outside_ascii_are_kept() {
    assert_eq!(tag_prompt("zoë", "¿qué tal? 👋"), "[zoë]: ¿qué tal? 👋");
}
