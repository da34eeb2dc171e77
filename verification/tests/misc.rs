use kimcli::app_cmd::run_app;
use kimcli::draft_state::DraftState;
use kimcli::paths::file_name;
use kimcli::paths::join;
use kimcli::paths::same_path;
use kimcli::text::trim;
use kimcli::updates::get_upgrade_version;
use kimcli::updates::get_upgrade_version_for_popup;
use kimcli::updates::Config;

#[test]
fn app_subcommand_always_refuses() {
    let err = run_app().unwrap_err();
    assert!(err.starts_with("kimcli does not bundle or install a desktop app"));
    assert!(err.ends_with("instead of running `kimcli app`."));
}

#[test]
fn empty_draft_state() {
    let draft = DraftState::new();
    assert!(draft.textarea.text.is_empty());
    assert_eq!(draft.textarea.cursor, 0);
    assert!(draft.recent_submission_mention_bindings.is_empty());
    assert!(!draft.is_bash_mode);
    assert!(draft.pending_pastes.is_empty());
    assert!(draft.input_enabled);
    assert_eq!(draft.input_disabled_placeholder, None);
    assert!(!draft.disable_paste_burst);
    assert!(draft.mention_bindings.is_empty());
    assert!(!draft.escape_clear_armed);
}

#[test]
fn pinned_build_never_offers_an_upgrade() {
    let config = Config { check_for_update_on_startup: true, codex_home: "/h".to_string() };
    assert_eq!(get_upgrade_version(&config), None);
    assert_eq!(get_upgrade_version_for_popup(&config, false, None), None);
    assert_eq!(get_upgrade_version_for_popup(&config, false, Some("1.0.0")), None);
    let off = Config { check_for_update_on_startup: false, codex_home: "/h".to_string() };
    assert_eq!(get_upgrade_version_for_popup(&off, true, None), None);
}

#[test]
fn path_helpers() {
    assert_eq!(join("/a", "b"), "/a/b");
    assert_eq!(join("/a/", "b"), "/a/b");
    assert_eq!(join("", "b"), "b");
    assert_eq!(join("/a", "/b"), "/b");
    assert_eq!(join("a", ""), "a/");
    assert_eq!(file_name("/a/b.txt"), Some("b.txt".to_string()));
    assert_eq!(file_name("a/b//"), Some("b".to_string()));
    assert_eq!(file_name("."), None);
    assert_eq!(file_name(""), None);
    assert_eq!(file_name("a/.."), None);
    assert!(same_path("/a//b/", "/a/b"));
    assert!(same_path("./a", "./a/."));
    assert!(!same_path("./a", "a"));
    assert!(!same_path("/a", "a"));
}

#[test]
fn trim_matches_std() {
    for s in ["", "  ", " a ", "\u{85}x\u{2028}", "\t\r\nabc def\n", "\u{200b}z"] {
        assert_eq!(trim(s), s.trim(), "{s:?}");
    }
}

#[test]
fn joined_plain_name_is_the_file_name() {
    for base in ["", "/", "/a", "a/b/", "./x"] {
        assert_eq!(file_name(&join(base, "plugin")), Some("plugin".to_string()), "{base:?}");
    }
}
