//! Legacy remote plugin endpoints: featured plugins, enable, uninstall.
//!
//! kimcli never issues these requests to OpenAI-hosted infrastructure. The
//! featured-plugins listing answers "nothing to feature", which every caller
//! already handles; enable and uninstall have a real remote side effect, so
//! they fail honestly instead of faking success.
use vstd::prelude::*;
use crate::remote_catalog::{CodexAuth, RemotePluginServiceConfig};

verus! {

broadcast use vstd::string::group_string_axioms;

/// The service's answer to a plugin mutation.
#[derive(Debug, Clone, PartialEq, Eq)]
struct RemotePluginMutationResponse {
    pub id: String,
    pub enabled: bool,
}

/// Errors of a plugin mutation (enable or uninstall).
#[derive(Debug, PartialEq, Eq)]
pub enum RemotePluginMutationError {
    AuthRequired,
    UnsupportedAuthMode,
    /// Reading the auth token failed; the reader's message.
    AuthToken(String),
    /// The base url does not parse; the parser's message.
    InvalidBaseUrl(String),
    InvalidBaseUrlPath,
    /// Sending the request failed; the client's message.
    Request { url: String, source: String },
    /// The service answered with an error status (as `<code> <reason>`).
    UnexpectedStatus { url: String, status: String, body: String },
    /// The answer does not decode; the decoder's message.
    Decode { url: String, source: String },
    UnexpectedPluginId { expected: String, actual: String },
    UnexpectedEnabledState { plugin_id: String, expected_enabled: bool, actual_enabled: bool },
    /// No request is ever sent to `chatgpt_base_url`.
    NetworkDisabled,
}

/// Errors of the featured-plugins listing.
#[derive(Debug, PartialEq, Eq)]
pub enum RemotePluginFetchError {
    Request { url: String, source: String },
    UnexpectedStatus { url: String, status: String, body: String },
    Decode { url: String, source: String },
}

/// `true` or `false`.
pub open spec fn bool_text(b: bool) -> Seq<char> {
    if b {
        "true"@
    } else {
        "false"@
    }
}

/// The message of a mutation error, as it is shown to the user.
pub open spec fn mutation_error_message(e: RemotePluginMutationError) -> Seq<char> {
    match e {
        RemotePluginMutationError::AuthRequired => "chatgpt authentication required for remote plugin mutation"@,
        RemotePluginMutationError::UnsupportedAuthMode =>
            "chatgpt authentication required for remote plugin mutation; api key auth is not supported"@,
        RemotePluginMutationError::AuthToken(m) => "failed to read auth token for remote plugin mutation: "@ + m@,
        RemotePluginMutationError::InvalidBaseUrl(m) => "invalid chatgpt base url for remote plugin mutation: "@ + m@,
        RemotePluginMutationError::InvalidBaseUrlPath => "chatgpt base url cannot be used for plugin mutation"@,
        RemotePluginMutationError::Request { url, source } =>
            "failed to send remote plugin mutation request to "@ + url@ + ": "@ + source@,
        RemotePluginMutationError::UnexpectedStatus { url, status, body } =>
            "remote plugin mutation failed with status "@ + status@ + " from "@ + url@ + ": "@ + body@,
        RemotePluginMutationError::Decode { url, source } =>
            "failed to parse remote plugin mutation response from "@ + url@ + ": "@ + source@,
        RemotePluginMutationError::UnexpectedPluginId { expected, actual } =>
            "remote plugin mutation returned unexpected plugin id: expected `"@ + expected@ + "`, got `"@
                + actual@ + "`"@,
        RemotePluginMutationError::UnexpectedEnabledState { plugin_id, expected_enabled, actual_enabled } =>
            "remote plugin mutation returned unexpected enabled state for `"@ + plugin_id@ + "`: expected "@
                + bool_text(expected_enabled) + ", got "@ + bool_text(actual_enabled),
        RemotePluginMutationError::NetworkDisabled =>
            "kimcli does not issue plugin requests to OpenAI-hosted infrastructure (chatgpt_base_url)"@,
    }
}

/// The message of a featured-plugins error, as it is shown to the user.
pub open spec fn fetch_error_message(e: RemotePluginFetchError) -> Seq<char> {
    match e {
        RemotePluginFetchError::Request { url, source } =>
            "failed to send remote featured plugin request to "@ + url@ + ": "@ + source@,
        RemotePluginFetchError::UnexpectedStatus { url, status, body } =>
            "remote featured plugin request to "@ + url@ + " failed with status "@ + status@ + ": "@ + body@,
        RemotePluginFetchError::Decode { url, source } =>
            "failed to parse remote featured plugin response from "@ + url@ + ": "@ + source@,
    }
}

fn append_bool(s: &mut String, b: bool)
    ensures
        final(s)@ == old(s)@ + bool_text(b),
{
    if b {
        s.append("true");
    } else {
        s.append("false");
    }
}

impl RemotePluginMutationError {
    /// The message shown to the user.
    pub fn message(&self) -> (r: String)
        ensures
            r@ == mutation_error_message(*self),
    {
        match self {
            RemotePluginMutationError::AuthRequired => String::from_str(
                "chatgpt authentication required for remote plugin mutation",
            ),
            RemotePluginMutationError::UnsupportedAuthMode => String::from_str(
                "chatgpt authentication required for remote plugin mutation; api key auth is not supported",
            ),
            RemotePluginMutationError::AuthToken(m) => {
                let mut r = String::from_str("failed to read auth token for remote plugin mutation: ");
                r.append(m.as_str());
                r
            },
            RemotePluginMutationError::InvalidBaseUrl(m) => {
                let mut r = String::from_str("invalid chatgpt base url for remote plugin mutation: ");
                r.append(m.as_str());
                r
            },
            RemotePluginMutationError::InvalidBaseUrlPath => String::from_str(
                "chatgpt base url cannot be used for plugin mutation",
            ),
            RemotePluginMutationError::Request { url, source } => {
                let mut r = String::from_str("failed to send remote plugin mutation request to ");
                r.append(url.as_str());
                r.append(": ");
                r.append(source.as_str());
                r
            },
            RemotePluginMutationError::UnexpectedStatus { url, status, body } => {
                let mut r = String::from_str("remote plugin mutation failed with status ");
                r.append(status.as_str());
                r.append(" from ");
                r.append(url.as_str());
                r.append(": ");
                r.append(body.as_str());
                r
            },
            RemotePluginMutationError::Decode { url, source } => {
                let mut r = String::from_str("failed to parse remote plugin mutation response from ");
                r.append(url.as_str());
                r.append(": ");
                r.append(source.as_str());
                r
            },
            RemotePluginMutationError::UnexpectedPluginId { expected, actual } => {
                let mut r = String::from_str("remote plugin mutation returned unexpected plugin id: expected `");
                r.append(expected.as_str());
                r.append("`, got `");
                r.append(actual.as_str());
                r.append("`");
                r
            },
            RemotePluginMutationError::UnexpectedEnabledState { plugin_id, expected_enabled, actual_enabled } => {
                let mut r = String::from_str("remote plugin mutation returned unexpected enabled state for `");
                r.append(plugin_id.as_str());
                r.append("`: expected ");
                append_bool(&mut r, *expected_enabled);
                r.append(", got ");
                append_bool(&mut r, *actual_enabled);
                r
            },
            RemotePluginMutationError::NetworkDisabled => String::from_str(
                "kimcli does not issue plugin requests to OpenAI-hosted infrastructure (chatgpt_base_url)",
            ),
        }
    }
}

impl RemotePluginFetchError {
    /// The message shown to the user.
    pub fn message(&self) -> (r: String)
        ensures
            r@ == fetch_error_message(*self),
    {
        match self {
            RemotePluginFetchError::Request { url, source } => {
                let mut r = String::from_str("failed to send remote featured plugin request to ");
                r.append(url.as_str());
                r.append(": ");
                r.append(source.as_str());
                r
            },
            RemotePluginFetchError::UnexpectedStatus { url, status, body } => {
                let mut r = String::from_str("remote featured plugin request to ");
                r.append(url.as_str());
                r.append(" failed with status ");
                r.append(status.as_str());
                r.append(": ");
                r.append(body.as_str());
                r
            },
            RemotePluginFetchError::Decode { url, source } => {
                let mut r = String::from_str("failed to parse remote featured plugin response from ");
                r.append(url.as_str());
                r.append(": ");
                r.append(source.as_str());
                r
            },
        }
    }
}

/// The ids of the featured plugins. No request is issued: the answer is
/// "nothing to feature", indistinguishable from an empty live answer.
pub fn fetch_remote_featured_plugin_ids(
    config: &RemotePluginServiceConfig,
    auth: Option<&CodexAuth>,
) -> (r: Result<Vec<String>, RemotePluginFetchError>)
    ensures
        r matches Ok(ids) && ids@.len() == 0,
{
    let _ = (config, auth);
    Ok(Vec::new())
}

/// The shared mutation request of enable and uninstall. Never sent: it fails
/// with `NetworkDisabled`.
fn post_remote_plugin_mutation(
    config: &RemotePluginServiceConfig,
    auth: Option<&CodexAuth>,
    plugin_id: &str,
    action: &str,
) -> (r: Result<RemotePluginMutationResponse, RemotePluginMutationError>)
    ensures
        r matches Err(RemotePluginMutationError::NetworkDisabled),
{
    let _ = (config, auth, plugin_id, action);
    Err(RemotePluginMutationError::NetworkDisabled)
}

/// Enables a remote plugin. Fails with `NetworkDisabled`: no request is sent.
pub fn enable_remote_plugin(
    config: &RemotePluginServiceConfig,
    auth: Option<&CodexAuth>,
    plugin_id: &str,
) -> (r: Result<(), RemotePluginMutationError>)
    ensures
        r matches Err(RemotePluginMutationError::NetworkDisabled),
{
    match post_remote_plugin_mutation(config, auth, plugin_id, "enable") {
        Ok(_) => Ok(()),
        Err(e) => Err(e),
    }
}

/// Uninstalls a remote plugin. Fails with `NetworkDisabled`: no request is sent.
pub fn uninstall_remote_plugin(
    config: &RemotePluginServiceConfig,
    auth: Option<&CodexAuth>,
    plugin_id: &str,
) -> (r: Result<(), RemotePluginMutationError>)
    ensures
        r matches Err(RemotePluginMutationError::NetworkDisabled),
{
    match post_remote_plugin_mutation(config, auth, plugin_id, "uninstall") {
        Ok(_) => Ok(()),
        Err(e) => Err(e),
    }
}

} // verus!
