//! Sharing plugins through the remote plugin service.
//!
//! The share types are the library's own. The requests themselves are never
//! issued by kimcli: each request builder fails with `NetworkDisabled` (or
//! answers an empty listing page) on its own, independently of its callers.
//! What remains verified here is the local logic around them: which sign-in
//! is accepted, how the archive is named and checked, and the workspace
//! target that an unlisted share must carry.
use vstd::prelude::*;
use crate::remote_catalog::{
    CodexAuth, RemotePluginCatalogError, CatalogErrorView, RemotePluginServiceConfig,
    RemotePluginDirectoryItem, RemotePluginListResponse, RemotePluginPagination, ensure_chatgpt_auth,
    chatgpt_auth_spec, opt_deref,
};
use crate::paths::{file_name, file_name_spec};

verus! {

broadcast use vstd::string::group_string_axioms;

/// The result of saving a share.
#[derive(Debug, Clone, PartialEq, Eq)]
pub struct RemotePluginShareSaveResult {
    pub remote_plugin_id: String,
    pub share_url: Option<String>,
}

/// Who can find a shared plugin.
#[derive(Debug, Clone, Copy, PartialEq, Eq, Structural)]
pub enum RemotePluginShareDiscoverability {
    Listed,
    Unlisted,
    Private,
}

/// Who can find a shared plugin, in an update of its targets.
#[derive(Debug, Clone, Copy, PartialEq, Eq, Structural)]
pub enum RemotePluginShareUpdateDiscoverability {
    Listed,
    Unlisted,
    Private,
}

/// The kind of principal a share targets.
#[derive(Debug, Clone, Copy, PartialEq, Eq, Structural)]
pub enum RemotePluginSharePrincipalType {
    User,
    Group,
    Workspace,
}

/// The role a share target is given.
#[derive(Debug, Clone, Copy, PartialEq, Eq, Structural)]
pub enum RemotePluginShareTargetRole {
    Reader,
    Editor,
}

/// The role a principal holds on a shared plugin.
#[derive(Debug, Clone, Copy, PartialEq, Eq, Structural)]
pub enum RemotePluginSharePrincipalRole {
    Reader,
    Editor,
    Owner,
}

/// A principal a plugin is shared with, and its role.
#[derive(Debug, Clone, PartialEq, Eq)]
pub struct RemotePluginShareTarget {
    pub principal_type: RemotePluginSharePrincipalType,
    pub principal_id: String,
    pub role: RemotePluginShareTargetRole,
}

/// A share target as plain values.
pub struct ShareTargetView {
    pub principal_type: RemotePluginSharePrincipalType,
    pub principal_id: Seq<char>,
    pub role: RemotePluginShareTargetRole,
}

impl View for RemotePluginShareTarget {
    type V = ShareTargetView;

    open spec fn view(&self) -> ShareTargetView {
        ShareTargetView { principal_type: self.principal_type, principal_id: self.principal_id@, role: self.role }
    }
}

/// A principal a plugin is shared with, as the service reports it.
#[derive(Debug, Clone, PartialEq, Eq)]
pub struct RemotePluginSharePrincipal {
    pub principal_type: RemotePluginSharePrincipalType,
    pub principal_id: String,
    pub role: RemotePluginSharePrincipalRole,
    pub name: String,
}

/// Who a shared plugin is for.
#[derive(Debug, Clone, PartialEq, Eq)]
pub struct RemotePluginShareAccessPolicy {
    pub discoverability: Option<RemotePluginShareDiscoverability>,
    pub share_targets: Option<Vec<RemotePluginShareTarget>>,
}

impl Default for RemotePluginShareAccessPolicy {
    /// No discoverability and no targets given.
    fn default() -> (r: Self)
        ensures
            r.discoverability is None,
            r.share_targets is None,
    {
        RemotePluginShareAccessPolicy { discoverability: None, share_targets: None }
    }
}

/// The result of updating the targets of a share.
#[derive(Debug, Clone, PartialEq, Eq)]
pub struct RemotePluginShareUpdateTargetsResult {
    pub principals: Vec<RemotePluginSharePrincipal>,
    pub discoverability: RemotePluginShareDiscoverability,
}

/// The service's answer to an upload request.
struct RemoteWorkspacePluginUploadUrlResponse {
    file_id: String,
    upload_url: String,
    etag: Option<String>,
}

/// The request that turns an uploaded archive into a workspace plugin.
struct RemoteWorkspacePluginCreateRequest {
    file_id: String,
    etag: String,
    discoverability: Option<RemotePluginShareDiscoverability>,
    share_targets: Option<Vec<RemotePluginShareTarget>>,
}

/// The service's answer to a create request.
struct RemoteWorkspacePluginCreateResponse {
    plugin_id: String,
    share_url: Option<String>,
}

/// Why packing a plugin directory into an archive failed.
#[derive(Debug, PartialEq, Eq)]
pub enum PluginBundlePackError {
    InvalidPluginPath { path: String, reason: String },
    ArchiveTooLarge { bytes: usize, max_bytes: usize },
    /// Reading the plugin failed; the reader's message.
    Io { source: String },
}

/// The largest plugin archive a share accepts: 50 MiB.
pub fn remote_plugin_share_max_archive_bytes() -> (r: usize)
    ensures
        r == 50 * 1024 * 1024,
{
    50 * 1024 * 1024
}

/// The views of a sequence of share targets.
pub open spec fn targets_view(targets: Seq<RemotePluginShareTarget>) -> Seq<ShareTargetView> {
    targets.map_values(|t: RemotePluginShareTarget| t@)
}

/// The optional views of optional share targets.
pub open spec fn opt_targets_view(targets: Option<Vec<RemotePluginShareTarget>>) -> Option<Seq<ShareTargetView>> {
    match targets {
        Some(v) => Some(targets_view(v@)),
        None => None,
    }
}

/// Some target is the workspace `account_id`.
pub open spec fn has_workspace_target(targets: Seq<ShareTargetView>, account_id: Seq<char>) -> bool {
    exists|i: int|
        0 <= i < targets.len() && #[trigger] targets[i].principal_type == RemotePluginSharePrincipalType::Workspace
            && targets[i].principal_id == account_id
}

/// The workspace target of an account, as a reader.
pub open spec fn workspace_reader(account_id: Seq<char>) -> ShareTargetView {
    ShareTargetView {
        principal_type: RemotePluginSharePrincipalType::Workspace,
        principal_id: account_id,
        role: RemotePluginShareTargetRole::Reader,
    }
}

/// An unlisted share must be readable by the sharer's own workspace: the
/// targets gain the workspace (as reader) unless it is already among them. A
/// sign-in without an account id cannot share unlisted. Other shares keep
/// their targets as given.
pub open spec fn ensure_unlisted_workspace_target_spec(
    account_id: Option<Seq<char>>,
    discoverability: Option<RemotePluginShareDiscoverability>,
    targets: Option<Seq<ShareTargetView>>,
) -> Result<Option<Seq<ShareTargetView>>, CatalogErrorView> {
    if discoverability != Some(RemotePluginShareDiscoverability::Unlisted) {
        Ok(targets)
    } else {
        match account_id {
            None => Err(CatalogErrorView::UnexpectedResponse("workspace plugin share requires an account id"@)),
            Some(id) => {
                let current = match targets {
                    Some(t) => t,
                    None => Seq::<ShareTargetView>::empty(),
                };
                if has_workspace_target(current, id) {
                    Ok(Some(current))
                } else {
                    Ok(Some(current.push(workspace_reader(id))))
                }
            },
        }
    }
}

/// The account id of a sign-in, as text.
pub open spec fn account_id_view(auth: CodexAuth) -> Option<Seq<char>> {
    match auth.account_id {
        Some(id) => Some(id@),
        None => None,
    }
}

/// The view of the outcome of `ensure_unlisted_workspace_target`.
pub open spec fn targets_result_view(
    r: Result<Option<Vec<RemotePluginShareTarget>>, RemotePluginCatalogError>,
) -> Result<Option<Seq<ShareTargetView>>, CatalogErrorView> {
    match r {
        Ok(t) => Ok(opt_targets_view(t)),
        Err(e) => Err(e@),
    }
}

/// Adds the sharer's workspace to the targets of an unlisted share.
pub fn ensure_unlisted_workspace_target(
    auth: &CodexAuth,
    discoverability: Option<RemotePluginShareDiscoverability>,
    targets: Option<Vec<RemotePluginShareTarget>>,
) -> (r: Result<Option<Vec<RemotePluginShareTarget>>, RemotePluginCatalogError>)
    ensures
        targets_result_view(r) == ensure_unlisted_workspace_target_spec(
            account_id_view(*auth),
            discoverability,
            opt_targets_view(targets),
        ),
{
    let ghost given = opt_targets_view(targets);
    let unlisted = match discoverability {
        Some(RemotePluginShareDiscoverability::Unlisted) => true,
        _ => false,
    };
    if !unlisted {
        return Ok(targets);
    }
    let account_id = match auth.get_account_id() {
        Some(id) => id,
        None => {
            return Err(
                RemotePluginCatalogError::UnexpectedResponse(
                    String::from_str("workspace plugin share requires an account id"),
                ),
            );
        },
    };
    let mut list = match targets {
        Some(t) => t,
        None => Vec::new(),
    };
    let ghost current = targets_view(list@);
    assert(current =~= match given {
        Some(t) => t,
        None => Seq::<ShareTargetView>::empty(),
    });
    let mut found = false;
    let mut i: usize = 0;
    while i < list.len()
        invariant
            i <= list@.len(),
            current == targets_view(list@),
            current == match given {
                Some(t) => t,
                None => Seq::<ShareTargetView>::empty(),
            },
            given == opt_targets_view(targets),
            account_id_view(*auth) == Some(account_id@),
            discoverability == Some(RemotePluginShareDiscoverability::Unlisted),
            found == exists|k: int|
                0 <= k < i && #[trigger] current[k].principal_type == RemotePluginSharePrincipalType::Workspace
                    && current[k].principal_id == account_id@,
        decreases list@.len() - i,
    {
        let t = &list[i];
        assert(current[i as int] == t@);
        let is_workspace = match t.principal_type {
            RemotePluginSharePrincipalType::Workspace => true,
            _ => false,
        };
        if is_workspace && crate::text::str_eq(t.principal_id.as_str(), account_id.as_str()) {
            assert(current[i as int].principal_type == RemotePluginSharePrincipalType::Workspace);
            found = true;
        }
        i = i + 1;
    }
    if !found {
        let target = RemotePluginShareTarget {
            principal_type: RemotePluginSharePrincipalType::Workspace,
            principal_id: account_id,
            role: RemotePluginShareTargetRole::Reader,
        };
        list.push(target);
        assert(targets_view(list@) =~= current.push(workspace_reader(account_id@)));
    }
    Ok(Some(list))
}

/// The reason a plugin path without a usable final directory name is refused.
pub open spec fn plugin_path_name_reason() -> Seq<char> {
    "plugin path must end in a valid UTF-8 directory name"@
}

/// The archive of a plugin is named after the plugin directory: `<name>.tar.gz`.
pub open spec fn archive_filename_spec(plugin_path: Seq<char>) -> Result<Seq<char>, CatalogErrorView> {
    match file_name_spec(plugin_path) {
        Some(name) => Ok(name + ".tar.gz"@),
        None => Err(CatalogErrorView::InvalidPluginPath { path: plugin_path, reason: plugin_path_name_reason() }),
    }
}

/// The view of a string-or-catalog-error outcome.
pub open spec fn name_result_view(r: Result<String, RemotePluginCatalogError>) -> Result<Seq<char>, CatalogErrorView> {
    match r {
        Ok(s) => Ok(s@),
        Err(e) => Err(e@),
    }
}

/// The file name of the archive uploaded for the plugin at `plugin_path`.
pub fn archive_filename(plugin_path: &str) -> (r: Result<String, RemotePluginCatalogError>)
    ensures
        name_result_view(r) == archive_filename_spec(plugin_path@),
{
    match file_name(plugin_path) {
        Some(name) => {
            let mut r = name;
            r.append(".tar.gz");
            Ok(r)
        },
        None => Err(
            RemotePluginCatalogError::InvalidPluginPath {
                path: String::from_str(plugin_path),
                reason: String::from_str("plugin path must end in a valid UTF-8 directory name"),
            },
        ),
    }
}

/// The catalog error a packing error of the plugin at `plugin_path` becomes.
pub open spec fn pack_error_view(e: PluginBundlePackError, plugin_path: Seq<char>) -> CatalogErrorView {
    match e {
        PluginBundlePackError::InvalidPluginPath { path, reason } =>
            CatalogErrorView::InvalidPluginPath { path: path@, reason: reason@ },
        PluginBundlePackError::ArchiveTooLarge { bytes, max_bytes } =>
            CatalogErrorView::ArchiveTooLarge { bytes, max_bytes },
        PluginBundlePackError::Io { source } => CatalogErrorView::Archive { path: plugin_path, source: source@ },
    }
}

/// The outcome of archiving the plugin at `plugin_path`, given the outcome of
/// packing it.
pub open spec fn archive_spec(
    plugin_path: Seq<char>,
    packed: Result<Vec<u8>, PluginBundlePackError>,
) -> Result<Seq<u8>, CatalogErrorView> {
    match packed {
        Ok(bytes) => Ok(bytes@),
        Err(e) => Err(pack_error_view(e, plugin_path)),
    }
}

/// The view of a bytes-or-catalog-error outcome.
pub open spec fn bytes_result_view(r: Result<Vec<u8>, RemotePluginCatalogError>) -> Result<Seq<u8>, CatalogErrorView> {
    match r {
        Ok(b) => Ok(b@),
        Err(e) => Err(e@),
    }
}

/// The archive of the plugin at `plugin_path`, given the outcome of packing
/// the plugin directory under a size limit (packing reads the directory, so
/// the caller does it): the archive bytes, or the packing error as a catalog
/// error.
pub fn archive_plugin_for_upload_with_limit(
    plugin_path: &str,
    packed: Result<Vec<u8>, PluginBundlePackError>,
) -> (r: Result<Vec<u8>, RemotePluginCatalogError>)
    ensures
        bytes_result_view(r) == archive_spec(plugin_path@, packed),
{
    match packed {
        Ok(bytes) => Ok(bytes),
        Err(PluginBundlePackError::InvalidPluginPath { path, reason }) => Err(
            RemotePluginCatalogError::InvalidPluginPath { path, reason },
        ),
        Err(PluginBundlePackError::ArchiveTooLarge { bytes, max_bytes }) => Err(
            RemotePluginCatalogError::ArchiveTooLarge { bytes, max_bytes },
        ),
        Err(PluginBundlePackError::Io { source }) => Err(
            RemotePluginCatalogError::Archive { path: String::from_str(plugin_path), source },
        ),
    }
}

/// The archive of the plugin at `plugin_path`, given the outcome of packing
/// it with the share size limit (`remote_plugin_share_max_archive_bytes`).
pub fn archive_plugin_for_upload(
    plugin_path: &str,
    packed: Result<Vec<u8>, PluginBundlePackError>,
) -> (r: Result<Vec<u8>, RemotePluginCatalogError>)
    ensures
        bytes_result_view(r) == archive_spec(plugin_path@, packed),
{
    archive_plugin_for_upload_with_limit(plugin_path, packed)
}

/// One page of the workspace plugins the user created. No request is issued:
/// the page is empty and has no next page.
fn get_created_workspace_plugins_page(
    config: &RemotePluginServiceConfig,
    auth: &CodexAuth,
    page_token: Option<&str>,
) -> (r: Result<RemotePluginListResponse, RemotePluginCatalogError>)
    ensures
        r matches Ok(page) && page.plugins@.len() == 0 && page.pagination.next_page_token is None,
{
    let _ = (config, auth, page_token);
    Ok(RemotePluginListResponse { plugins: Vec::new(), pagination: RemotePluginPagination { next_page_token: None } })
}

/// All workspace plugins the user created, page after page until a page has
/// no next page. Since no page request is issued, there are none.
pub fn fetch_created_workspace_plugins(
    config: &RemotePluginServiceConfig,
    auth: &CodexAuth,
) -> (r: Result<Vec<RemotePluginDirectoryItem>, RemotePluginCatalogError>)
    ensures
        r matches Ok(plugins) && plugins@.len() == 0,
{
    let mut plugins: Vec<RemotePluginDirectoryItem> = Vec::new();
    let mut page_token: Option<String> = None;
    loop
        invariant
            plugins@.len() == 0,
        decreases 0nat,
    {
        let token = match &page_token {
            Some(t) => Some(t.as_str()),
            None => None,
        };
        let response = match get_created_workspace_plugins_page(config, auth, token) {
            Ok(page) => page,
            Err(e) => {
                return Err(e);
            },
        };
        let mut page_plugins = response.plugins;
        plugins.append(&mut page_plugins);
        match response.pagination.next_page_token {
            None => {
                break;
            },
            Some(next) => {
                page_token = Some(next);
            },
        }
    }
    Ok(plugins)
}

/// Asks the service for an upload url. No request is issued: it fails with
/// `NetworkDisabled`, which makes the whole share-upload flow inert.
fn create_workspace_plugin_upload(
    config: &RemotePluginServiceConfig,
    auth: &CodexAuth,
    filename: &str,
    size_bytes: usize,
    remote_plugin_id: Option<&str>,
) -> (r: Result<RemoteWorkspacePluginUploadUrlResponse, RemotePluginCatalogError>)
    ensures
        r matches Err(RemotePluginCatalogError::NetworkDisabled),
{
    let _ = (config, auth, filename, size_bytes, remote_plugin_id);
    Err(RemotePluginCatalogError::NetworkDisabled)
}

/// Uploads the archive bytes to a server-issued url. No request is issued:
/// it fails with `NetworkDisabled`, independently of its caller.
fn put_workspace_plugin_upload(upload_url: &str, archive_bytes: Vec<u8>) -> (r: Result<(), RemotePluginCatalogError>)
    ensures
        r matches Err(RemotePluginCatalogError::NetworkDisabled),
{
    let _ = (upload_url, archive_bytes);
    Err(RemotePluginCatalogError::NetworkDisabled)
}

/// Turns an uploaded archive into a workspace plugin. No request is issued:
/// it fails with `NetworkDisabled`.
fn finalize_workspace_plugin_upload(
    config: &RemotePluginServiceConfig,
    auth: &CodexAuth,
    remote_plugin_id: Option<&str>,
    body: RemoteWorkspacePluginCreateRequest,
) -> (r: Result<RemoteWorkspacePluginCreateResponse, RemotePluginCatalogError>)
    ensures
        r matches Err(RemotePluginCatalogError::NetworkDisabled),
{
    let _ = (config, auth, remote_plugin_id, body);
    Err(RemotePluginCatalogError::NetworkDisabled)
}

/// Saving a share fails with the first of: the sign-in check, the archive
/// name check, the archive itself, and then — since the upload request is
/// never issued — `NetworkDisabled`.
pub open spec fn save_share_error_spec(
    auth: Option<CodexAuth>,
    plugin_path: Seq<char>,
    packed: Result<Vec<u8>, PluginBundlePackError>,
) -> CatalogErrorView {
    match chatgpt_auth_spec(auth) {
        Err(e) => e,
        Ok(_) => match archive_filename_spec(plugin_path) {
            Err(e) => e,
            Ok(_) => match archive_spec(plugin_path, packed) {
                Err(e) => e,
                Ok(_) => CatalogErrorView::NetworkDisabled,
            },
        },
    }
}

/// Shares the plugin at `plugin_path` with the workspace, given the outcome
/// of packing the plugin directory (`archive_plugin_for_upload`). The upload
/// is never sent, so this always fails; which error comes first is stated by
/// `save_share_error_spec`.
pub fn save_remote_plugin_share(
    config: &RemotePluginServiceConfig,
    auth: Option<&CodexAuth>,
    codex_home: &str,
    plugin_path: &str,
    remote_plugin_id: Option<&str>,
    access_policy: RemotePluginShareAccessPolicy,
    packed: Result<Vec<u8>, PluginBundlePackError>,
) -> (r: Result<RemotePluginShareSaveResult, RemotePluginCatalogError>)
    ensures
        r matches Err(e) && e@ == save_share_error_spec(opt_deref(auth), plugin_path@, packed),
{
    let _ = codex_home;
    let auth = match ensure_chatgpt_auth(auth) {
        Ok(a) => a,
        Err(e) => {
            return Err(e);
        },
    };
    let filename = match archive_filename(plugin_path) {
        Ok(f) => f,
        Err(e) => {
            return Err(e);
        },
    };
    let archive_bytes = match archive_plugin_for_upload(plugin_path, packed) {
        Ok(b) => b,
        Err(e) => {
            return Err(e);
        },
    };
    let upload = match create_workspace_plugin_upload(
        config,
        auth,
        filename.as_str(),
        archive_bytes.len(),
        remote_plugin_id,
    ) {
        Ok(u) => u,
        Err(e) => {
            return Err(e);
        },
    };
    let etag = match upload.etag {
        Some(t) => t,
        None => {
            return Err(RemotePluginCatalogError::MissingUploadEtag);
        },
    };
    match put_workspace_plugin_upload(upload.upload_url.as_str(), archive_bytes) {
        Ok(()) => {},
        Err(e) => {
            return Err(e);
        },
    }
    let share_targets = match ensure_unlisted_workspace_target(
        auth,
        access_policy.discoverability,
        access_policy.share_targets,
    ) {
        Ok(t) => t,
        Err(e) => {
            return Err(e);
        },
    };
    let response = match finalize_workspace_plugin_upload(
        config,
        auth,
        remote_plugin_id,
        RemoteWorkspacePluginCreateRequest {
            file_id: upload.file_id,
            etag,
            discoverability: access_policy.discoverability,
            share_targets,
        },
    ) {
        Ok(r) => r,
        Err(e) => {
            return Err(e);
        },
    };
    if response.plugin_id.as_str().is_empty() {
        return Err(
            RemotePluginCatalogError::UnexpectedResponse(
                String::from_str("workspace plugin create response did not include a plugin id"),
            ),
        );
    }
    Ok(RemotePluginShareSaveResult { remote_plugin_id: response.plugin_id, share_url: response.share_url })
}

/// Deletes a share. No request is issued: it fails with `NetworkDisabled`
/// rather than faking success (the caller would then drop local state for a
/// delete that never reached the service).
pub fn delete_remote_plugin_share(
    config: &RemotePluginServiceConfig,
    auth: Option<&CodexAuth>,
    codex_home: &str,
    remote_plugin_id: &str,
) -> (r: Result<(), RemotePluginCatalogError>)
    ensures
        r matches Err(RemotePluginCatalogError::NetworkDisabled),
{
    let _ = (config, auth, codex_home, remote_plugin_id);
    Err(RemotePluginCatalogError::NetworkDisabled)
}

/// Updates the targets of a share. No request is issued: it fails with
/// `NetworkDisabled`.
pub fn update_remote_plugin_share_targets(
    config: &RemotePluginServiceConfig,
    auth: Option<&CodexAuth>,
    remote_plugin_id: &str,
    targets: Vec<RemotePluginShareTarget>,
    discoverability: RemotePluginShareUpdateDiscoverability,
) -> (r: Result<RemotePluginShareUpdateTargetsResult, RemotePluginCatalogError>)
    ensures
        r matches Err(RemotePluginCatalogError::NetworkDisabled),
{
    let _ = (config, auth, remote_plugin_id, targets, discoverability);
    Err(RemotePluginCatalogError::NetworkDisabled)
}

/// Ensuring the workspace target of a share a second time changes nothing.
pub proof fn law_unlisted_workspace_target_idempotent(
    account_id: Option<Seq<char>>,
    discoverability: Option<RemotePluginShareDiscoverability>,
    targets: Option<Seq<ShareTargetView>>,
)
    ensures
        ensure_unlisted_workspace_target_spec(account_id, discoverability, targets) matches Ok(once)
            ==> ensure_unlisted_workspace_target_spec(account_id, discoverability, once) == Ok::<
            Option<Seq<ShareTargetView>>,
            CatalogErrorView,
        >(once),
{
    if discoverability == Some(RemotePluginShareDiscoverability::Unlisted) {
        if let Some(id) = account_id {
            let current = match targets {
                Some(t) => t,
                None => Seq::<ShareTargetView>::empty(),
            };
            if !has_workspace_target(current, id) {
                let grown = current.push(workspace_reader(id));
                assert(grown[current.len() as int].principal_type == RemotePluginSharePrincipalType::Workspace);
                assert(has_workspace_target(grown, id));
            }
        }
    }
}

/// An unlisted share by a sign-in with an account id is readable by that
/// account's workspace, and keeps every target it was given, first and in order.
pub proof fn law_unlisted_share_reaches_own_workspace(account_id: Seq<char>, targets: Option<Seq<ShareTargetView>>)
    ensures
        ensure_unlisted_workspace_target_spec(
            Some(account_id),
            Some(RemotePluginShareDiscoverability::Unlisted),
            targets,
        ) matches Ok(Some(result)) && has_workspace_target(result, account_id) && (targets matches Some(given)
            ==> result.take(given.len() as int) == given),
{
    let current = match targets {
        Some(t) => t,
        None => Seq::<ShareTargetView>::empty(),
    };
    if !has_workspace_target(current, account_id) {
        let grown = current.push(workspace_reader(account_id));
        assert(grown[current.len() as int].principal_type == RemotePluginSharePrincipalType::Workspace);
        assert(grown.take(current.len() as int) =~= current);
    } else {
        assert(current.take(current.len() as int) =~= current);
    }
}

/// Shares that are not unlisted keep their targets exactly as given.
pub proof fn law_other_shares_keep_targets(
    account_id: Option<Seq<char>>,
    discoverability: Option<RemotePluginShareDiscoverability>,
    targets: Option<Seq<ShareTargetView>>,
)
    requires
        discoverability != Some(RemotePluginShareDiscoverability::Unlisted),
    ensures
        ensure_unlisted_workspace_target_spec(account_id, discoverability, targets) == Ok::<
            Option<Seq<ShareTargetView>>,
            CatalogErrorView,
        >(targets),
{
}

/// The archive of a plugin directory `<parent>/<name>` is `<name>.tar.gz`.
pub proof fn law_archive_named_after_plugin_directory(parent: Seq<char>, name: Seq<char>)
    requires
        crate::paths::is_plain_name(name),
    ensures
        archive_filename_spec(crate::paths::join_spec(parent, name)) == Ok::<Seq<char>, CatalogErrorView>(
            name + ".tar.gz"@,
        ),
{
    crate::paths::law_join_then_file_name(parent, name);
}

/// A shared plugin as listed: its remote id and, when known, the local
/// directory it was shared from.
#[derive(Debug, Clone, PartialEq, Eq)]
pub struct RemotePluginShareSummary {
    pub remote_plugin_id: String,
    pub local_plugin_path: Option<String>,
}

/// The plugins the user shared with the workspace. A sign-in that the
/// service does not accept is refused with `ensure_chatgpt_auth`'s error;
/// otherwise the listing is empty: the created plugins come from the listing
/// request, which is never issued, so there is nothing to summarise.
pub fn list_remote_plugin_shares(
    config: &RemotePluginServiceConfig,
    auth: Option<&CodexAuth>,
    codex_home: &str,
) -> (r: Result<Vec<RemotePluginShareSummary>, RemotePluginCatalogError>)
    ensures
        chatgpt_auth_spec(opt_deref(auth)) is Ok ==> (r matches Ok(shares) && shares@.len() == 0),
        match chatgpt_auth_spec(opt_deref(auth)) {
            Ok(_) => true,
            Err(e) => r matches Err(err) && err@ == e,
        },
{
    let _ = codex_home;
    let auth = match ensure_chatgpt_auth(auth) {
        Ok(a) => a,
        Err(e) => {
            return Err(e);
        },
    };
    let created_plugins = match fetch_created_workspace_plugins(config, auth) {
        Ok(plugins) => plugins,
        Err(e) => {
            return Err(e);
        },
    };
    assert(created_plugins@.len() == 0);
    Ok(Vec::new())
}

/// The message for a remote id in the local path mapping that is not valid.
pub open spec fn invalid_remote_id_message(remote_plugin_id: Seq<char>) -> Seq<char> {
    "invalid remote plugin id in share local path mapping: "@ + remote_plugin_id
}

/// Inverts the share local path mapping — (remote plugin id, local plugin
/// path) pairs, in the mapping's order — into (local plugin path, remote
/// plugin id) pairs, in the same order (a map built from them keeps the last
/// id of a path). Each remote id is checked with `is_valid_remote_plugin_id`
/// (the remote catalog's rule for plugin ids); the first one refused makes
/// the whole inversion fail with a message naming it.
pub fn load_plugin_share_remote_ids_by_local_path<F: Fn(&String) -> bool>(
    local_paths: Vec<(String, String)>,
    is_valid_remote_plugin_id: F,
) -> (r: Result<Vec<(String, String)>, String>)
    requires
        forall|id: &String| is_valid_remote_plugin_id.requires((id,)),
    ensures
        r matches Ok(pairs) ==> {
            &&& pairs@.len() == local_paths@.len()
            &&& forall|i: int|
                0 <= i < local_paths@.len() ==> {
                    &&& #[trigger] pairs@[i].0@ == local_paths@[i].1@
                    &&& pairs@[i].1@ == local_paths@[i].0@
                    &&& is_valid_remote_plugin_id.ensures((&local_paths@[i].0,), true)
                }
        },
        r matches Err(msg) ==> exists|i: int|
            {
                &&& 0 <= i < local_paths@.len()
                &&& is_valid_remote_plugin_id.ensures((#[trigger] &local_paths@[i].0,), false)
                &&& msg@ == invalid_remote_id_message(local_paths@[i].0@)
                &&& forall|j: int| 0 <= j < i ==> is_valid_remote_plugin_id.ensures((&local_paths@[j].0,), true)
            },
{
    let mut pairs: Vec<(String, String)> = Vec::new();
    let mut i: usize = 0;
    while i < local_paths.len()
        invariant
            i <= local_paths@.len(),
            pairs@.len() == i,
            forall|id: &String| is_valid_remote_plugin_id.requires((id,)),
            forall|k: int|
                0 <= k < i ==> {
                    &&& #[trigger] pairs@[k].0@ == local_paths@[k].1@
                    &&& pairs@[k].1@ == local_paths@[k].0@
                    &&& is_valid_remote_plugin_id.ensures((&local_paths@[k].0,), true)
                },
        decreases local_paths@.len() - i,
    {
        let entry = &local_paths[i];
        if !is_valid_remote_plugin_id(&entry.0) {
            let mut msg = String::from_str("invalid remote plugin id in share local path mapping: ");
            msg.append(entry.0.as_str());
            assert(is_valid_remote_plugin_id.ensures((&local_paths@[i as int].0,), false));
            assert(forall|j: int| 0 <= j < i ==> is_valid_remote_plugin_id.ensures((&local_paths@[j].0,), true)) by {
                assert forall|j: int| 0 <= j < i implies is_valid_remote_plugin_id.ensures((&local_paths@[j].0,), true) by {
                    assert(pairs@[j].0@ == local_paths@[j].1@);
                }
            }
            return Err(msg);
        }
        pairs.push((entry.1.clone(), entry.0.clone()));
        i = i + 1;
    }
    Ok(pairs)
}

/// An unlisted share by a sign-in with account id `account_id` always ends
/// up with a target that is the workspace `account_id` itself; and the
/// targets come back unchanged only when such a target was already given.
pub proof fn law_unlisted_share_targets_own_workspace(account_id: Seq<char>, targets: Option<Seq<ShareTargetView>>)
    ensures
        ensure_unlisted_workspace_target_spec(
            Some(account_id),
            Some(RemotePluginShareDiscoverability::Unlisted),
            targets,
        ) matches Ok(Some(_)),
        ensure_unlisted_workspace_target_spec(
            Some(account_id),
            Some(RemotePluginShareDiscoverability::Unlisted),
            targets,
        ) matches Ok(Some(result)) ==> exists|i: int|
            0 <= i < result.len() && (#[trigger] result[i]).principal_type == RemotePluginSharePrincipalType::Workspace
                && result[i].principal_id == account_id,
        ensure_unlisted_workspace_target_spec(
            Some(account_id),
            Some(RemotePluginShareDiscoverability::Unlisted),
            targets,
        ) == Ok::<Option<Seq<ShareTargetView>>, CatalogErrorView>(targets) ==> (targets matches Some(given)
            && exists|i: int|
            0 <= i < given.len() && (#[trigger] given[i]).principal_type == RemotePluginSharePrincipalType::Workspace
                && given[i].principal_id == account_id),
{
    let current = match targets {
        Some(t) => t,
        None => Seq::<ShareTargetView>::empty(),
    };
    if !has_workspace_target(current, account_id) {
        let grown = current.push(workspace_reader(account_id));
        assert(grown[current.len() as int] == workspace_reader(account_id));
        assert(grown[current.len() as int].principal_type == RemotePluginSharePrincipalType::Workspace);
        assert(grown.len() != current.len());
        assert(exists|j: int|
            0 <= j < grown.len() && (#[trigger] grown[j]).principal_type == RemotePluginSharePrincipalType::Workspace
                && grown[j].principal_id == account_id);
        assert(ensure_unlisted_workspace_target_spec(
            Some(account_id),
            Some(RemotePluginShareDiscoverability::Unlisted),
            targets,
        ) == Ok::<Option<Seq<ShareTargetView>>, CatalogErrorView>(Some(grown)));
        let r = ensure_unlisted_workspace_target_spec(
            Some(account_id),
            Some(RemotePluginShareDiscoverability::Unlisted),
            targets,
        );
        let result = r->Ok_0->Some_0;
        assert(result == grown);
        assert(result[current.len() as int].principal_type == RemotePluginSharePrincipalType::Workspace);
        assert(result[current.len() as int].principal_id == account_id);
    } else {
        let i = choose|i: int|
            0 <= i < current.len() && #[trigger] current[i].principal_type
                == RemotePluginSharePrincipalType::Workspace && current[i].principal_id == account_id;
        assert(current[i].principal_type == RemotePluginSharePrincipalType::Workspace);
        assert(exists|j: int|
            0 <= j < current.len() && (#[trigger] current[j]).principal_type == RemotePluginSharePrincipalType::Workspace
                && current[j].principal_id == account_id);
        assert(ensure_unlisted_workspace_target_spec(
            Some(account_id),
            Some(RemotePluginShareDiscoverability::Unlisted),
            targets,
        ) == Ok::<Option<Seq<ShareTargetView>>, CatalogErrorView>(Some(current)));
        if targets is None {
            assert(current.len() == 0);
        }
    }
}

} // verus!
