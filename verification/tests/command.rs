use mcrw::command::{ends_with_terminator, normalize_all, normalize_command};

#[test]
fn unterminated_command_gets_one_terminator() {
    assert_eq!(normalize_command("say hello".to_string()), "say hello\n");
}

#[test]
fn terminated_command_is_not_terminated_twice() {
    assert_eq!(normalize_command("say hello\n".to_string()), "say hello\n");
}

#[test]
fn normalizing_twice_changes_nothing() {
    let once = normalize_command("stop".to_string());
    let twice = normalize_command(once.clone());
    assert_eq!(once, twice);
    assert_eq!(twice, "stop\n");
}

#[test]
fn empty_command_becomes_a_bare_terminator() {
    assert_eq!(normalize_command(String::new()), "\n");
}

#[test]
fn command_with_several_terminators_is_left_alone() {
    assert_eq!(normalize_command("list\n\n".to_string()), "list\n\n");
}

#[test]
fn terminator_inside_a_command_does_not_count() {
    assert_eq!(normalize_command("a\nb".to_string()), "a\nb\n");
}

#[test]
fn carriage_return_is_no_terminator() {
    assert_eq!(normalize_command("list\r".to_string()), "list\r\n");
}

#[test]
fn non_ascii_command_is_normalized_by_characters() {
    assert_eq!(normalize_command("say héllo ✓".to_string()), "say héllo ✓\n");
    assert_eq!(normalize_command("say héllo ✓\n".to_string()), "say héllo ✓\n");
}

#[test]
fn ends_with_terminator_looks_at_the_last_character_only() {
    assert!(ends_with_terminator("x\n"));
    assert!(ends_with_terminator("\n"));
    assert!(!ends_with_terminator(""));
    assert!(!ends_with_terminator("\nx"));
}

#[test]
fn normalize_all_keeps_order_and_count() {
    let cmds = vec!["a".to_string(), "b\n".to_string(), String::new(), "c".to_string()];
    assert_eq!(
        normalize_all(cmds),
        vec!["a\n".to_string(), "b\n".to_string(), "\n".to_string(), "c\n".to_string()]
    );
}

#[test]
fn normalize_all_of_nothing_is_nothing() {
    assert_eq!(normalize_all(Vec::new()), Vec::<String>::new());
}
