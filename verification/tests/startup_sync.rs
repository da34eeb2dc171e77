use kimcli::startup_sync::curated_plugins_api_marketplace_path;
use kimcli::startup_sync::curated_plugins_marketplace_manifest_path;
use kimcli::startup_sync::curated_plugins_repo_path;
use kimcli::startup_sync::curated_plugins_sha_path;
use kimcli::startup_sync::curated_plugins_stale_temp_dir_max_age_secs;
use kimcli::startup_sync::fetch_curated_plugins_commit;
use kimcli::startup_sync::fetch_curated_plugins_commit_from;
use kimcli::startup_sync::fetch_curated_repo_backup_archive_zip;
use kimcli::startup_sync::fetch_curated_repo_remote_sha;
use kimcli::startup_sync::fetch_curated_repo_zipball;
use kimcli::startup_sync::find_packed_ref_sha;
use kimcli::startup_sync::fetch_github_bytes;
use kimcli::startup_sync::fetch_github_text;
use kimcli::startup_sync::fetch_public_bytes;
use kimcli::startup_sync::fetch_public_text;
use kimcli::startup_sync::git_command_environment;
use kimcli::startup_sync::git_ls_remote_head_sha;
use kimcli::startup_sync::has_local_curated_plugins_snapshot;
use kimcli::startup_sync::is_plugins_clone_dir;
use kimcli::startup_sync::is_stale_temp_dir;
use kimcli::startup_sync::macos_git_binary_from_path;
use kimcli::startup_sync::parse_backup_archive_git_head;
use kimcli::startup_sync::read_curated_plugins_sha;
use kimcli::startup_sync::read_git_ref_sha;
use kimcli::startup_sync::read_sha_file;
use kimcli::startup_sync::sync_openai_plugins_repo;
use kimcli::startup_sync::sync_openai_plugins_repo_via_backup_archive;
use kimcli::startup_sync::sync_openai_plugins_repo_via_git;
use kimcli::startup_sync::sync_openai_plugins_repo_via_http;
use kimcli::startup_sync::sync_openai_plugins_repo_with_transport_overrides;
use kimcli::startup_sync::validate_backup_archive_git_ref;
use kimcli::startup_sync::GitHeadTarget;

const DISABLED: &str = "kimcli does not sync curated plugins from openai/plugins.git, api.github.com, or chatgpt.com (curated plugin sync is disabled)";

#[test]
fn curated_paths_live_under_codex_home() {
    assert_eq!(curated_plugins_repo_path("/home/u/.codex"), "/home/u/.codex/.tmp/plugins");
    assert_eq!(curated_plugins_sha_path("/home/u/.codex/"), "/home/u/.codex/.tmp/plugins.sha");
    assert_eq!(
        curated_plugins_api_marketplace_path("/h"),
        "/h/.tmp/plugins/.agents/plugins/api_marketplace.json"
    );
    assert_eq!(
        curated_plugins_marketplace_manifest_path("/h"),
        "/h/.tmp/plugins/.agents/plugins/marketplace.json"
    );
}

#[test]
fn sha_file_is_trimmed_and_blank_means_none() {
    assert_eq!(read_sha_file(Some("  abc123\n")), Some("abc123".to_string()));
    assert_eq!(read_sha_file(Some(" \n\t ")), None);
    assert_eq!(read_sha_file(None), None);
    assert_eq!(read_curated_plugins_sha(Some("deadbeef\r\n")), Some("deadbeef".to_string()));
    assert_eq!(read_curated_plugins_sha(Some("\u{a0}x y\u{3000}")), Some("x y".to_string()));
}

#[test]
fn snapshot_needs_manifest_and_sha() {
    assert!(has_local_curated_plugins_snapshot(true, true));
    assert!(!has_local_curated_plugins_snapshot(true, false));
    assert!(!has_local_curated_plugins_snapshot(false, true));
}

#[test]
fn every_sync_transport_is_inert() {
    assert_eq!(sync_openai_plugins_repo("/h"), Ok(String::new()));
    assert_eq!(
        sync_openai_plugins_repo_with_transport_overrides("/h", Some("/usr/bin/git"), "https://api", "https://backup"),
        Ok(String::new())
    );
    assert_eq!(sync_openai_plugins_repo_via_git("/h", "git"), Ok(String::new()));
    assert_eq!(sync_openai_plugins_repo_via_http("/h", "https://api"), Ok(String::new()));
    assert_eq!(sync_openai_plugins_repo_via_backup_archive("/h", "https://backup"), Ok(String::new()));
    assert_eq!(fetch_curated_plugins_commit("/r", "sha", "git"), Err(DISABLED.to_string()));
    assert_eq!(fetch_curated_plugins_commit_from("/r", "src", "rev", "git", "ctx"), Err(DISABLED.to_string()));
    assert_eq!(git_ls_remote_head_sha("git"), Err(DISABLED.to_string()));
    assert_eq!(fetch_curated_repo_remote_sha("https://api"), Err(DISABLED.to_string()));
    assert_eq!(fetch_curated_repo_zipball("https://api", "sha"), Err(DISABLED.to_string()));
    assert_eq!(fetch_curated_repo_backup_archive_zip("https://backup"), Err(DISABLED.to_string()));
    assert_eq!(fetch_github_text("https://api/x", "ctx"), Err(DISABLED.to_string()));
    assert_eq!(fetch_github_bytes("https://api/x", "ctx"), Err(DISABLED.to_string()));
    assert_eq!(fetch_public_text("https://b/x", "ctx"), Err(DISABLED.to_string()));
    assert_eq!(fetch_public_bytes("https://b/x", "ctx"), Err(DISABLED.to_string()));
}

#[test]
fn git_command_sanitizes_ambient_repository_environment() {
    let env = git_command_environment();
    assert_eq!(env.set, vec![("GIT_OPTIONAL_LOCKS".to_string(), "0".to_string())]);
    assert_eq!(env.remove.len(), 17);
    assert!(env.remove.contains(&"GIT_DIR".to_string()));
    assert!(env.remove.contains(&"GIT_WORK_TREE".to_string()));
    assert!(env.remove.contains(&"GIT_CONFIG_PARAMETERS".to_string()));
    assert_eq!(env.remove[0], "GIT_ALTERNATE_OBJECT_DIRECTORIES");
}

#[test]
fn apple_git_without_developer_tools_is_unavailable() {
    assert_eq!(macos_git_binary_from_path("/usr/bin/git".to_string(), false), None);
    assert_eq!(macos_git_binary_from_path("/usr//bin/git/".to_string(), false), None);
    assert_eq!(macos_git_binary_from_path("/usr/bin/./git".to_string(), false), None);
    assert_eq!(
        macos_git_binary_from_path("/usr/bin/git".to_string(), true),
        Some("/usr/bin/git".to_string())
    );
    assert_eq!(
        macos_git_binary_from_path("/opt/homebrew/bin/git".to_string(), false),
        Some("/opt/homebrew/bin/git".to_string())
    );
    assert_eq!(
        macos_git_binary_from_path("usr/bin/git".to_string(), false),
        Some("usr/bin/git".to_string())
    );
}

#[test]
fn stale_clone_dirs_are_old_plugin_clone_directories() {
    assert!(is_plugins_clone_dir(true, Some("plugins-clone-abc")));
    assert!(!is_plugins_clone_dir(false, Some("plugins-clone-abc")));
    assert!(!is_plugins_clone_dir(true, Some("plugins")));
    assert!(!is_plugins_clone_dir(true, None));
    assert_eq!(curated_plugins_stale_temp_dir_max_age_secs(), 600);
    assert!(is_stale_temp_dir(600, 600));
    assert!(!is_stale_temp_dir(599, 600));
}

#[test]
fn backup_archive_git_refs_must_stay_under_refs() {
    assert_eq!(validate_backup_archive_git_ref("refs/heads/main"), Ok("refs/heads/main"));
    assert_eq!(validate_backup_archive_git_ref("refs/./heads//main"), Ok("refs/./heads//main"));
    assert_eq!(
        validate_backup_archive_git_ref("heads/main"),
        Err("curated plugins backup archive git ref must stay under refs/: heads/main".to_string())
    );
    assert_eq!(
        validate_backup_archive_git_ref("/refs/heads/main"),
        Err("curated plugins backup archive git ref must stay under refs/: /refs/heads/main".to_string())
    );
    assert_eq!(
        validate_backup_archive_git_ref("refs/../../etc/passwd"),
        Err("curated plugins backup archive git ref contains invalid path components: refs/../../etc/passwd".to_string())
    );
}

#[test]
fn packed_refs_give_the_sha_of_the_named_ref() {
    let packed = "# pack-refs with: peeled fully-peeled sorted\n\
                  1111111111111111111111111111111111111111 refs/heads/other\n\
                  ^2222222222222222222222222222222222222222\n\
                  \n\
                  3333333333333333333333333333333333333333 refs/heads/main\r\n";
    assert_eq!(
        find_packed_ref_sha(packed, "refs/heads/main"),
        Some("3333333333333333333333333333333333333333".to_string())
    );
    assert_eq!(
        find_packed_ref_sha(packed, "refs/heads/other"),
        Some("1111111111111111111111111111111111111111".to_string())
    );
    assert_eq!(find_packed_ref_sha(packed, "refs/heads/missing"), None);
    assert_eq!(find_packed_ref_sha("nospace\n", "nospace"), None);
}

#[test]
fn loose_ref_file_wins_over_packed_refs() {
    assert_eq!(
        read_git_ref_sha("/r/.git", "refs/heads/main", Some("abc\n"), Some("def refs/heads/main\n")),
        Ok("abc".to_string())
    );
    assert_eq!(
        read_git_ref_sha("/r/.git", "refs/heads/main", None, Some("def refs/heads/main\n")),
        Ok("def".to_string())
    );
    assert_eq!(
        read_git_ref_sha("/r/.git", "refs/heads/main", Some("  \n"), None),
        Err("curated plugins backup archive git ref refs/heads/main is empty at /r/.git/refs/heads/main".to_string())
    );
    assert_eq!(
        read_git_ref_sha("/r/.git", "refs/heads/main", None, None),
        Err("failed to resolve curated plugins backup archive git ref refs/heads/main from /r/.git".to_string())
    );
}

#[test]
fn backup_archive_head_is_a_sha_or_a_validated_ref() {
    assert_eq!(
        parse_backup_archive_git_head("/r/.git/HEAD", Ok("abc123\n")),
        Ok(GitHeadTarget::Detached("abc123".to_string()))
    );
    assert_eq!(
        parse_backup_archive_git_head("/r/.git/HEAD", Ok("ref:  refs/heads/main \n")),
        Ok(GitHeadTarget::Symbolic("refs/heads/main".to_string()))
    );
    assert_eq!(
        parse_backup_archive_git_head("/r/.git/HEAD", Ok("ref: ../escape")),
        Err("curated plugins backup archive git ref must stay under refs/: ../escape".to_string())
    );
    assert_eq!(
        parse_backup_archive_git_head("/r/.git/HEAD", Ok("   ")),
        Err("curated plugins backup archive git HEAD is empty at /r/.git/HEAD".to_string())
    );
    assert_eq!(
        parse_backup_archive_git_head("/r/.git/HEAD", Err("permission denied")),
        Err("failed to read curated plugins backup archive git HEAD /r/.git/HEAD: permission denied".to_string())
    );
}
