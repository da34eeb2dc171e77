use kimcli::resume_command::resume_command;
use kimcli::resume_command::resume_hint;
use kimcli::resume_command::shlex_join;
use kimcli::thread_id::ThreadId;

#[test]
fn prefers_name_over_id() {
    let thread_id = ThreadId::from_string("123e4567-e89b-12d3-a456-426614174000").unwrap();
    let command = resume_command(Some("my-thread"), Some(thread_id));
    assert_eq!(command, Some("kimcli resume my-thread".to_string()));
}

#[test]
fn formats_thread_id_when_name_is_missing() {
    let thread_id = ThreadId::from_string("123e4567-e89b-12d3-a456-426614174000").unwrap();
    let command = resume_command(None, Some(thread_id));
    assert_eq!(
        command,
        Some("kimcli resume 123e4567-e89b-12d3-a456-426614174000".to_string())
    );
}

#[test]
fn returns_none_without_a_resume_target() {
    let command = resume_command(None, None);
    assert_eq!(command, None);
}

#[test]
fn quotes_thread_names_when_needed() {
    let command = resume_command(Some("-starts-with-dash"), None);
    assert_eq!(
        command,
        Some("kimcli resume -- -starts-with-dash".to_string())
    );

    let command = resume_command(Some("two words"), None);
    assert_eq!(command, Some("kimcli resume 'two words'".to_string()));

    let command = resume_command(Some("quote'case"), None);
    assert_eq!(command, Some("kimcli resume \"quote'case\"".to_string()));
}

#[test]
fn resume_hint_names_picker_item_with_id() {
    let thread_id = ThreadId::from_string("123e4567-e89b-12d3-a456-426614174000").unwrap();
    let hint = resume_hint(Some("my-thread"), Some(thread_id));
    assert_eq!(
        hint,
        Some(
            "kimcli resume, then select my-thread (123e4567-e89b-12d3-a456-426614174000)"
                .to_string()
        )
    );
}

#[test]
fn resume_hint_uses_direct_id_command_without_name() {
    let thread_id = ThreadId::from_string("123e4567-e89b-12d3-a456-426614174000").unwrap();
    let hint = resume_hint(None, Some(thread_id));
    assert_eq!(
        hint,
        Some("kimcli resume 123e4567-e89b-12d3-a456-426614174000".to_string())
    );
}

#[test]
fn resume_hint_requires_thread_id() {
    let hint = resume_hint(Some("my-thread"), None);
    assert_eq!(hint, None);
}

#[test]
fn empty_name_falls_back_to_thread_id() {
    let thread_id = ThreadId::from_string("123e4567-e89b-12d3-a456-426614174000").unwrap();
    assert_eq!(
        resume_command(Some(""), Some(thread_id)),
        Some("kimcli resume 123e4567-e89b-12d3-a456-426614174000".to_string())
    );
    assert_eq!(
        resume_hint(Some(""), Some(thread_id)),
        resume_command(None, Some(thread_id))
    );
}

#[test]
fn empty_name_without_id_gives_no_command() {
    assert_eq!(resume_command(Some(""), None), None);
}

#[test]
fn name_wins_whatever_the_id() {
    let a = ThreadId::from_string("123e4567-e89b-12d3-a456-426614174000").unwrap();
    assert_eq!(
        resume_command(Some("my-thread"), Some(a)),
        resume_command(Some("my-thread"), None)
    );
}

#[test]
fn thread_id_parse_rejects_non_uuid_and_prints_lower_case() {
    assert!(ThreadId::from_string("not-a-uuid").is_err());
    let id = ThreadId::from_string("123E4567-E89B-12D3-A456-426614174000").unwrap();
    assert_eq!(id.to_string(), "123e4567-e89b-12d3-a456-426614174000");
    let simple = ThreadId::from_string("123e4567e89b12d3a456426614174000").unwrap();
    assert_eq!(simple, id);
}

#[test]
fn nul_byte_in_name_becomes_placeholder() {
    assert_eq!(
        resume_command(Some("a\0b"), None),
        Some("kimcli resume <command included NUL byte>".to_string())
    );
    assert_eq!(
        shlex_join(&vec!["a".to_string(), "\0".to_string()]),
        "<command included NUL byte>"
    );
}

#[test]
fn shlex_join_separates_words_with_spaces() {
    assert_eq!(
        shlex_join(&vec!["git".to_string(), "commit".to_string(), "-m".to_string(), "a b".to_string()]),
        "git commit -m 'a b'"
    );
    assert_eq!(shlex_join(&vec!["".to_string()]), "''");
}
