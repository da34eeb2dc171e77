use kimcli::remote_catalog::AuthMode;
use kimcli::remote_catalog::CodexAuth;
use kimcli::remote_catalog::RemotePluginCatalogError;
use kimcli::remote_catalog::RemotePluginServiceConfig;
use kimcli::remote_catalog::ensure_chatgpt_auth;
use kimcli::share::archive_filename;
use kimcli::share::archive_plugin_for_upload;
use kimcli::share::archive_plugin_for_upload_with_limit;
use kimcli::share::delete_remote_plugin_share;
use kimcli::share::ensure_unlisted_workspace_target;
use kimcli::share::fetch_created_workspace_plugins;
use kimcli::share::list_remote_plugin_shares;
use kimcli::share::load_plugin_share_remote_ids_by_local_path;
use kimcli::share::remote_plugin_share_max_archive_bytes;
use kimcli::share::save_remote_plugin_share;
use kimcli::share::update_remote_plugin_share_targets;
use kimcli::share::PluginBundlePackError;
use kimcli::share::RemotePluginShareAccessPolicy;
use kimcli::share::RemotePluginShareDiscoverability;
use kimcli::share::RemotePluginSharePrincipalType;
use kimcli::share::RemotePluginShareTarget;
use kimcli::share::RemotePluginShareTargetRole;
use kimcli::share::RemotePluginShareUpdateDiscoverability;

fn config() -> RemotePluginServiceConfig {
    RemotePluginServiceConfig { chatgpt_base_url: "https://chatgpt.com/backend-api".to_string() }
}

fn chatgpt(account: Option<&str>) -> CodexAuth {
    CodexAuth { mode: AuthMode::Chatgpt, account_id: account.map(|a| a.to_string()) }
}

fn target(kind: RemotePluginSharePrincipalType, id: &str, role: RemotePluginShareTargetRole) -> RemotePluginShareTarget {
    RemotePluginShareTarget { principal_type: kind, principal_id: id.to_string(), role }
}

#[test]
fn only_chatgpt_sign_in_is_accepted() {
    assert_eq!(ensure_chatgpt_auth(None).unwrap_err(), RemotePluginCatalogError::AuthRequired);
    let api = CodexAuth { mode: AuthMode::ApiKey, account_id: None };
    assert_eq!(ensure_chatgpt_auth(Some(&api)).unwrap_err(), RemotePluginCatalogError::UnsupportedAuthMode);
    let ok = chatgpt(Some("acct"));
    assert_eq!(ensure_chatgpt_auth(Some(&ok)).unwrap(), &ok);
}

#[test]
fn unlisted_share_adds_own_workspace_once() {
    let auth = chatgpt(Some("acct-1"));
    let given = vec![target(RemotePluginSharePrincipalType::User, "u1", RemotePluginShareTargetRole::Editor)];
    let once = ensure_unlisted_workspace_target(&auth, Some(RemotePluginShareDiscoverability::Unlisted), Some(given.clone()))
        .unwrap()
        .unwrap();
    assert_eq!(
        once,
        vec![
            given[0].clone(),
            target(RemotePluginSharePrincipalType::Workspace, "acct-1", RemotePluginShareTargetRole::Reader),
        ]
    );
    let twice = ensure_unlisted_workspace_target(&auth, Some(RemotePluginShareDiscoverability::Unlisted), Some(once.clone()))
        .unwrap()
        .unwrap();
    assert_eq!(twice, once);
    let from_none = ensure_unlisted_workspace_target(&auth, Some(RemotePluginShareDiscoverability::Unlisted), None).unwrap();
    assert_eq!(
        from_none,
        Some(vec![target(RemotePluginSharePrincipalType::Workspace, "acct-1", RemotePluginShareTargetRole::Reader)])
    );
}

#[test]
fn existing_workspace_editor_target_is_kept() {
    let auth = chatgpt(Some("acct-1"));
    let given = vec![target(RemotePluginSharePrincipalType::Workspace, "acct-1", RemotePluginShareTargetRole::Editor)];
    let r = ensure_unlisted_workspace_target(&auth, Some(RemotePluginShareDiscoverability::Unlisted), Some(given.clone()));
    assert_eq!(r, Ok(Some(given)));
}

#[test]
fn other_discoverability_keeps_targets_and_needs_no_account() {
    let auth = chatgpt(None);
    assert_eq!(ensure_unlisted_workspace_target(&auth, Some(RemotePluginShareDiscoverability::Listed), None), Ok(None));
    assert_eq!(ensure_unlisted_workspace_target(&auth, None, None), Ok(None));
    assert_eq!(
        ensure_unlisted_workspace_target(&auth, Some(RemotePluginShareDiscoverability::Unlisted), None),
        Err(RemotePluginCatalogError::UnexpectedResponse("workspace plugin share requires an account id".to_string()))
    );
}

#[test]
fn archive_is_named_after_the_plugin_directory() {
    assert_eq!(archive_filename("/work/my-plugin"), Ok("my-plugin.tar.gz".to_string()));
    assert_eq!(archive_filename("/work/my-plugin/"), Ok("my-plugin.tar.gz".to_string()));
    assert_eq!(archive_filename("/work/my-plugin/."), Ok("my-plugin.tar.gz".to_string()));
    assert_eq!(
        archive_filename("/work/.."),
        Err(RemotePluginCatalogError::InvalidPluginPath {
            path: "/work/..".to_string(),
            reason: "plugin path must end in a valid UTF-8 directory name".to_string(),
        })
    );
    assert!(archive_filename("/").is_err());
}

#[test]
fn packing_errors_become_catalog_errors() {
    assert_eq!(remote_plugin_share_max_archive_bytes(), 52428800);
    assert_eq!(archive_plugin_for_upload("/p", Ok(vec![1, 2, 3])), Ok(vec![1, 2, 3]));
    assert_eq!(
        archive_plugin_for_upload_with_limit("/p", Err(PluginBundlePackError::ArchiveTooLarge { bytes: 11, max_bytes: 10 })),
        Err(RemotePluginCatalogError::ArchiveTooLarge { bytes: 11, max_bytes: 10 })
    );
    assert_eq!(
        archive_plugin_for_upload("/p", Err(PluginBundlePackError::Io { source: "denied".to_string() })),
        Err(RemotePluginCatalogError::Archive { path: "/p".to_string(), source: "denied".to_string() })
    );
    assert_eq!(
        archive_plugin_for_upload(
            "/p",
            Err(PluginBundlePackError::InvalidPluginPath { path: "/p".to_string(), reason: "no manifest".to_string() })
        ),
        Err(RemotePluginCatalogError::InvalidPluginPath { path: "/p".to_string(), reason: "no manifest".to_string() })
    );
}

#[test]
fn saving_a_share_never_reaches_the_network() {
    let auth = chatgpt(Some("acct"));
    let policy = RemotePluginShareAccessPolicy::default();
    assert_eq!(
        save_remote_plugin_share(&config(), None, "/h", "/w/p", None, policy.clone(), Ok(vec![1])),
        Err(RemotePluginCatalogError::AuthRequired)
    );
    assert_eq!(
        save_remote_plugin_share(&config(), Some(&auth), "/h", "/", None, policy.clone(), Ok(vec![1])),
        Err(RemotePluginCatalogError::InvalidPluginPath {
            path: "/".to_string(),
            reason: "plugin path must end in a valid UTF-8 directory name".to_string(),
        })
    );
    assert_eq!(
        save_remote_plugin_share(
            &config(),
            Some(&auth),
            "/h",
            "/w/p",
            None,
            policy.clone(),
            Err(PluginBundlePackError::ArchiveTooLarge { bytes: 9, max_bytes: 1 })
        ),
        Err(RemotePluginCatalogError::ArchiveTooLarge { bytes: 9, max_bytes: 1 })
    );
    assert_eq!(
        save_remote_plugin_share(&config(), Some(&auth), "/h", "/w/p", Some("plg_1"), policy, Ok(vec![1])),
        Err(RemotePluginCatalogError::NetworkDisabled)
    );
}

#[test]
fn share_mutations_are_network_disabled_and_listing_is_empty() {
    let auth = chatgpt(Some("acct"));
    assert_eq!(
        delete_remote_plugin_share(&config(), Some(&auth), "/h", "plg_1"),
        Err(RemotePluginCatalogError::NetworkDisabled)
    );
    assert_eq!(
        update_remote_plugin_share_targets(&config(), Some(&auth), "plg_1", Vec::new(), RemotePluginShareUpdateDiscoverability::Private),
        Err(RemotePluginCatalogError::NetworkDisabled)
    );
    assert_eq!(fetch_created_workspace_plugins(&config(), &auth), Ok(Vec::new()));
}

#[test]
fn listing_shares_needs_chatgpt_and_finds_none() {
    assert_eq!(list_remote_plugin_shares(&config(), None, "/h"), Err(RemotePluginCatalogError::AuthRequired));
    let api = CodexAuth { mode: AuthMode::ApiKey, account_id: None };
    assert_eq!(
        list_remote_plugin_shares(&config(), Some(&api), "/h"),
        Err(RemotePluginCatalogError::UnsupportedAuthMode)
    );
    assert_eq!(list_remote_plugin_shares(&config(), Some(&chatgpt(Some("a"))), "/h"), Ok(Vec::new()));
}

#[test]
fn local_path_mapping_is_inverted_after_checking_ids() {
    let valid = |id: &String| id.starts_with("plg_");
    let mapping = vec![
        ("plg_a".to_string(), "/w/a".to_string()),
        ("plg_b".to_string(), "/w/b".to_string()),
    ];
    assert_eq!(
        load_plugin_share_remote_ids_by_local_path(mapping, valid),
        Ok(vec![("/w/a".to_string(), "plg_a".to_string()), ("/w/b".to_string(), "plg_b".to_string())])
    );
    let mapping = vec![
        ("plg_a".to_string(), "/w/a".to_string()),
        ("../evil".to_string(), "/w/b".to_string()),
        ("bad2".to_string(), "/w/c".to_string()),
    ];
    assert_eq!(
        load_plugin_share_remote_ids_by_local_path(mapping, valid),
        Err("invalid remote plugin id in share local path mapping: ../evil".to_string())
    );
    assert_eq!(load_plugin_share_remote_ids_by_local_path(Vec::new(), valid), Ok(Vec::new()));
}
