use kimcli::remote_catalog::AuthMode;
use kimcli::remote_catalog::CodexAuth;
use kimcli::remote_catalog::RemotePluginServiceConfig;
use kimcli::remote_legacy::enable_remote_plugin;
use kimcli::remote_legacy::fetch_remote_featured_plugin_ids;
use kimcli::remote_legacy::uninstall_remote_plugin;
use kimcli::remote_legacy::RemotePluginFetchError;
use kimcli::remote_legacy::RemotePluginMutationError;

fn config() -> RemotePluginServiceConfig {
    RemotePluginServiceConfig { chatgpt_base_url: "https://chatgpt.com/backend-api".to_string() }
}

#[test]
fn featured_plugins_are_empty_without_a_request() {
    assert_eq!(fetch_remote_featured_plugin_ids(&config(), None), Ok(Vec::new()));
}

#[test]
fn enable_and_uninstall_fail_honestly() {
    let auth = CodexAuth { mode: AuthMode::Chatgpt, account_id: Some("a".to_string()) };
    let err = enable_remote_plugin(&config(), Some(&auth), "plg").unwrap_err();
    assert_eq!(err, RemotePluginMutationError::NetworkDisabled);
    assert_eq!(
        err.message(),
        "kimcli does not issue plugin requests to OpenAI-hosted infrastructure (chatgpt_base_url)"
    );
    assert_eq!(
        uninstall_remote_plugin(&config(), None, "plg").unwrap_err(),
        RemotePluginMutationError::NetworkDisabled
    );
}

#[test]
fn mutation_error_messages() {
    assert_eq!(
        RemotePluginMutationError::UnsupportedAuthMode.message(),
        "chatgpt authentication required for remote plugin mutation; api key auth is not supported"
    );
    assert_eq!(
        RemotePluginMutationError::UnexpectedEnabledState {
            plugin_id: "p".to_string(),
            expected_enabled: true,
            actual_enabled: false,
        }
        .message(),
        "remote plugin mutation returned unexpected enabled state for `p`: expected true, got false"
    );
    assert_eq!(
        RemotePluginMutationError::UnexpectedPluginId { expected: "a".to_string(), actual: "b".to_string() }.message(),
        "remote plugin mutation returned unexpected plugin id: expected `a`, got `b`"
    );
    assert_eq!(
        RemotePluginMutationError::UnexpectedStatus {
            url: "u".to_string(),
            status: "404 Not Found".to_string(),
            body: "nope".to_string(),
        }
        .message(),
        "remote plugin mutation failed with status 404 Not Found from u: nope"
    );
}

#[test]
fn fetch_error_messages() {
    assert_eq!(
        RemotePluginFetchError::UnexpectedStatus {
            url: "u".to_string(),
            status: "500 Internal Server Error".to_string(),
            body: "b".to_string(),
        }
        .message(),
        "remote featured plugin request to u failed with status 500 Internal Server Error: b"
    );
    assert_eq!(
        RemotePluginFetchError::Decode { url: "u".to_string(), source: "eof".to_string() }.message(),
        "failed to parse remote featured plugin response from u: eof"
    );
}
