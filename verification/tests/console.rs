use kvlr::console::{can_cut_console_line, console_call_args, console_reply};

#[test]
fn console_arguments_are_transcoded_from_the_first_paren() {
    assert_eq!(console_call_args("add(1, 2)"), Some(vec![0x92, 1, 2]));
    // The cut is at the byte offset equal to the character position of the `(`.
    // Here that offset (1) falls inside the two bytes of `é`, so the line cannot be cut.
    assert!(!can_cut_console_line("é(true, 3)"));
    // Here the offset (2) is a boundary, but it is the `,` that comes before the `(`.
    assert!(can_cut_console_line("é,(1)"));
    assert_eq!(console_call_args("é,(1)"), None);
    assert!(can_cut_console_line("no arguments"));
    assert!(can_cut_console_line("add(1, 2)"));
    assert_eq!(console_call_args("no arguments"), None);
    assert_eq!(console_call_args("broken(1, "), None);
}

#[test]
fn console_replies_are_shown_as_ron() {
    assert_eq!(console_reply(&[0xc3]), Some("true".to_string()));
    assert_eq!(console_reply(&[0x92, 1, 2]), Some("[1,2]".to_string()));
    assert_eq!(console_reply(&[0xc1]), None);
}
