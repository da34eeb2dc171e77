//! The remote plugin service as the plugin code sees it: its configuration,
//! the sign-in it is called with, its catalog errors, and the listing pages
//! it answers with.
use vstd::prelude::*;

verus! {

/// Where the remote plugin service is reached.
#[derive(Debug, Clone, PartialEq, Eq)]
pub struct RemotePluginServiceConfig {
    pub chatgpt_base_url: String,
}

/// How the user is signed in.
#[derive(Debug, Clone, Copy, PartialEq, Eq, Structural)]
pub enum AuthMode {
    /// An API key.
    ApiKey,
    /// A ChatGPT account.
    Chatgpt,
}

/// The sign-in a request would be made with: its mode and, for a ChatGPT
/// account, the account id (workspace) it belongs to.
#[derive(Debug, Clone, PartialEq, Eq)]
pub struct CodexAuth {
    pub mode: AuthMode,
    pub account_id: Option<String>,
}

impl CodexAuth {
    /// The account id of the sign-in, if it has one.
    pub fn get_account_id(&self) -> (r: Option<String>)
        ensures
            r is Some <==> self.account_id is Some,
            r matches Some(id) ==> self.account_id matches Some(own) && id@ == own@,
    {
        match &self.account_id {
            Some(id) => Some(id.clone()),
            None => None,
        }
    }
}

/// Errors of the remote plugin catalog.
#[derive(Debug, PartialEq, Eq)]
pub enum RemotePluginCatalogError {
    /// No sign-in.
    AuthRequired,
    /// A sign-in that is not a ChatGPT account.
    UnsupportedAuthMode,
    /// The archiving task did not complete; its message.
    ArchiveJoin(String),
    /// The service's upload answer has no etag.
    MissingUploadEtag,
    /// The service answered with something unexpected.
    UnexpectedResponse(String),
    /// The plugin path cannot be archived.
    InvalidPluginPath { path: String, reason: String },
    /// The plugin archive is larger than allowed.
    ArchiveTooLarge { bytes: usize, max_bytes: usize },
    /// Reading the plugin to archive it failed; the reader's message.
    Archive { path: String, source: String },
    /// kimcli does not send requests to the remote plugin service.
    NetworkDisabled,
}

/// A catalog error as plain values.
pub enum CatalogErrorView {
    AuthRequired,
    UnsupportedAuthMode,
    ArchiveJoin(Seq<char>),
    MissingUploadEtag,
    UnexpectedResponse(Seq<char>),
    InvalidPluginPath { path: Seq<char>, reason: Seq<char> },
    ArchiveTooLarge { bytes: usize, max_bytes: usize },
    Archive { path: Seq<char>, source: Seq<char> },
    NetworkDisabled,
}

impl View for RemotePluginCatalogError {
    type V = CatalogErrorView;

    open spec fn view(&self) -> CatalogErrorView {
        match self {
            RemotePluginCatalogError::AuthRequired => CatalogErrorView::AuthRequired,
            RemotePluginCatalogError::UnsupportedAuthMode => CatalogErrorView::UnsupportedAuthMode,
            RemotePluginCatalogError::ArchiveJoin(m) => CatalogErrorView::ArchiveJoin(m@),
            RemotePluginCatalogError::MissingUploadEtag => CatalogErrorView::MissingUploadEtag,
            RemotePluginCatalogError::UnexpectedResponse(m) => CatalogErrorView::UnexpectedResponse(m@),
            RemotePluginCatalogError::InvalidPluginPath { path, reason } =>
                CatalogErrorView::InvalidPluginPath { path: path@, reason: reason@ },
            RemotePluginCatalogError::ArchiveTooLarge { bytes, max_bytes } =>
                CatalogErrorView::ArchiveTooLarge { bytes: *bytes, max_bytes: *max_bytes },
            RemotePluginCatalogError::Archive { path, source } =>
                CatalogErrorView::Archive { path: path@, source: source@ },
            RemotePluginCatalogError::NetworkDisabled => CatalogErrorView::NetworkDisabled,
        }
    }
}

/// The sign-in the plugin service accepts: a ChatGPT account.
pub open spec fn chatgpt_auth_spec(auth: Option<CodexAuth>) -> Result<CodexAuth, CatalogErrorView> {
    match auth {
        None => Err(CatalogErrorView::AuthRequired),
        Some(a) => if a.mode == AuthMode::Chatgpt {
            Ok(a)
        } else {
            Err(CatalogErrorView::UnsupportedAuthMode)
        },
    }
}

/// The optional value behind an optional reference.
pub open spec fn opt_deref<T>(o: Option<&T>) -> Option<T> {
    match o {
        Some(x) => Some(*x),
        None => None,
    }
}

/// The sign-in to call the plugin service with: there must be one, and it
/// must be a ChatGPT account.
pub fn ensure_chatgpt_auth<'a>(auth: Option<&'a CodexAuth>) -> (r: Result<&'a CodexAuth, RemotePluginCatalogError>)
    ensures
        match r {
            Ok(a) => chatgpt_auth_spec(opt_deref(auth)) == Ok::<CodexAuth, CatalogErrorView>(*a),
            Err(e) => chatgpt_auth_spec(opt_deref(auth)) == Err::<CodexAuth, CatalogErrorView>(e@),
        },
{
    match auth {
        None => Err(RemotePluginCatalogError::AuthRequired),
        Some(a) => match a.mode {
            AuthMode::Chatgpt => Ok(a),
            AuthMode::ApiKey => Err(RemotePluginCatalogError::UnsupportedAuthMode),
        },
    }
}

/// A plugin as the service lists it.
#[derive(Debug, Clone, PartialEq, Eq)]
pub struct RemotePluginDirectoryItem {
    pub id: String,
}

/// Where the next page of a listing starts.
#[derive(Debug, Clone, PartialEq, Eq)]
pub struct RemotePluginPagination {
    pub next_page_token: Option<String>,
}

/// One page of a plugin listing.
#[derive(Debug, Clone, PartialEq, Eq)]
pub struct RemotePluginListResponse {
    pub plugins: Vec<RemotePluginDirectoryItem>,
    pub pagination: RemotePluginPagination,
}

} // verus!
