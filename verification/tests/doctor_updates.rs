use kimcli::doctor_updates::update_action_label;
use kimcli::doctor_updates::updates_check;
use kimcli::doctor_updates::push_cached_version_details;
use kimcli::doctor_updates::version_file_path;
use kimcli::doctor_updates::CheckStatus;
use kimcli::doctor_updates::InstallContext;
use kimcli::doctor_updates::InstallMethod;
use kimcli::doctor_updates::NpmRootCheck;
use kimcli::doctor_updates::VersionCacheRead;
use kimcli::doctor_updates::VersionInfo;
use kimcli::updates::Config;

#[test]
fn update_action_labels_install_contexts() {
    assert_eq!(
        update_action_label(&InstallContext {
            method: InstallMethod::Npm,
            package_layout: None,
        }),
        "npm install -g @openai/codex"
    );
    assert_eq!(
        update_action_label(&InstallContext {
            method: InstallMethod::Pnpm,
            package_layout: None,
        }),
        "pnpm add -g @openai/codex"
    );
    assert_eq!(
        update_action_label(&InstallContext {
            method: InstallMethod::Other,
            package_layout: None,
        }),
        "manual or unknown"
    );
}

fn config() -> Config {
    Config { check_for_update_on_startup: true, codex_home: "/home/u/.codex".to_string() }
}

fn npm_context() -> InstallContext {
    InstallContext { method: InstallMethod::Npm, package_layout: None }
}

#[test]
fn version_file_lives_in_codex_home() {
    assert_eq!(version_file_path(&config()), "/home/u/.codex/version.json");
}

#[test]
fn updates_check_without_npm_passes() {
    let check = updates_check(&config(), &npm_context(), VersionCacheRead::Missing, None);
    assert_eq!(check.id, "updates.status");
    assert_eq!(check.category, "updates");
    assert_eq!(check.status, CheckStatus::Pass);
    assert_eq!(check.summary, "update configuration is locally consistent");
    assert_eq!(check.remediation, None);
    assert_eq!(
        check.details,
        vec![
            "kimcli is a pinned rebrand of Codex CLI 0.144.3 managed by Kim; self-update is disabled. Update via scripts/install_kimcli.sh in the kim repo.".to_string(),
            "check for update on startup: true (ignored; kimcli never checks upstream)".to_string(),
            "upstream Codex update channel (informational only): npm install -g @openai/codex".to_string(),
            "version cache: /home/u/.codex/version.json".to_string(),
            "version cache: missing".to_string(),
        ]
    );
}

#[test]
fn updates_check_mismatch_fails_with_remediation() {
    let check = updates_check(
        &config(),
        &npm_context(),
        VersionCacheRead::ReadError("permission denied".to_string()),
        Some(NpmRootCheck::Mismatch {
            running_package_root: "/a".to_string(),
            npm_package_root: "/b".to_string(),
        }),
    );
    assert_eq!(check.status, CheckStatus::Fail);
    assert_eq!(check.summary, "update would target a different npm install");
    assert_eq!(
        check.remediation,
        Some("Fix PATH or npm prefix so the running package root (/a) matches the npm global package root (/b).".to_string())
    );
    assert_eq!(&check.details[4], "version cache read: permission denied");
    assert_eq!(&check.details[5], "running package root: /a");
    assert_eq!(&check.details[6], "npm package root: /b");
    assert_eq!(check.details.len(), 7);
}

#[test]
fn updates_check_missing_root_and_unavailable_npm_warn() {
    let missing = updates_check(&config(), &npm_context(), VersionCacheRead::Missing, Some(NpmRootCheck::MissingPackageRoot));
    assert_eq!(missing.status, CheckStatus::Warning);
    assert_eq!(missing.summary, "npm update target could not be proven");
    assert_eq!(
        missing.remediation,
        Some("Reinstall or update Kim so the JS shim provides CODEX_MANAGED_PACKAGE_ROOT.".to_string())
    );
    let unavailable = updates_check(
        &Config { check_for_update_on_startup: false, codex_home: "h".to_string() },
        &InstallContext { method: InstallMethod::Brew, package_layout: None },
        VersionCacheRead::Missing,
        Some(NpmRootCheck::NpmUnavailable("spawn failed".to_string())),
    );
    assert_eq!(unavailable.status, CheckStatus::Warning);
    assert_eq!(unavailable.summary, "npm update target could not be inspected");
    assert_eq!(unavailable.remediation, None);
    assert_eq!(&unavailable.details[1], "check for update on startup: false (ignored; kimcli never checks upstream)");
    assert_eq!(&unavailable.details[2], "upstream Codex update channel (informational only): brew upgrade --cask codex");
    assert_eq!(unavailable.details.last().unwrap(), "npm root -g failed: spawn failed");
}

#[test]
fn updates_check_match_reports_target() {
    let check = updates_check(&config(), &npm_context(), VersionCacheRead::Missing, Some(NpmRootCheck::Match { package_root: "/p".to_string() }));
    assert_eq!(check.status, CheckStatus::Pass);
    assert_eq!(check.details.last().unwrap(), "npm update target: /p");
}

#[test]
fn cached_version_details_list_what_the_cache_holds() {
    let mut details = vec!["first".to_string()];
    push_cached_version_details(
        &mut details,
        "/v.json",
        VersionCacheRead::Parsed(VersionInfo {
            latest_version: "1.2.3".to_string(),
            last_checked_at: Some("2024-01-01".to_string()),
            dismissed_version: None,
        }),
    );
    assert_eq!(
        details,
        vec![
            "first".to_string(),
            "version cache: /v.json".to_string(),
            "cached latest version: 1.2.3".to_string(),
            "last checked at: 2024-01-01".to_string(),
        ]
    );
    let mut details = Vec::new();
    push_cached_version_details(&mut details, "/v.json", VersionCacheRead::ParseError("bad json".to_string()));
    assert_eq!(details, vec!["version cache: /v.json".to_string(), "version cache parse: bad json".to_string()]);
}

#[test]
fn check_status_max_is_the_worse() {
    assert_eq!(CheckStatus::Pass.max(CheckStatus::Warning), CheckStatus::Warning);
    assert_eq!(CheckStatus::Fail.max(CheckStatus::Warning), CheckStatus::Fail);
    assert_eq!(CheckStatus::Pass.max(CheckStatus::Pass), CheckStatus::Pass);
}
