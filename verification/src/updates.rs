//! The update popup of the terminal UI.
//!
//! kimcli is a pinned build: it never checks upstream for a newer release and
//! never downloads or installs anything, so there is never an upgrade to offer.
use vstd::prelude::*;

verus! {

/// The part of the configuration that update checks read.
#[derive(Debug, Clone, PartialEq, Eq)]
pub struct Config {
    /// Whether the user asked for an update check at startup.
    pub check_for_update_on_startup: bool,
    /// The CODEX_HOME directory.
    pub codex_home: String,
}

/// The latest version to offer: none, ever.
pub open spec fn upgrade_version_spec(config: Config) -> Option<Seq<char>> {
    None
}

/// The version to show in the update popup: the latest version, unless the
/// user turned update checks off, this is a source build, or the user
/// dismissed exactly that version.
pub open spec fn popup_version_spec(
    config: Config,
    running_is_source_build: bool,
    dismissed_version: Option<Seq<char>>,
) -> Option<Seq<char>> {
    if !config.check_for_update_on_startup || running_is_source_build {
        None
    } else {
        match upgrade_version_spec(config) {
            None => None,
            Some(latest) => if dismissed_version == Some(latest) {
                None
            } else {
                Some(latest)
            },
        }
    }
}

/// The latest version available upstream. kimcli never checks: `None`.
pub fn get_upgrade_version(config: &Config) -> (r: Option<String>)
    ensures
        r is None,
        r is None <==> upgrade_version_spec(*config) is None,
{
    let _ = config;
    None
}

/// The latest version to show in a popup, if it should be shown; respects
/// the user's dismissal of that version (`dismissed_version`, as recorded in
/// the version cache).
pub fn get_upgrade_version_for_popup(
    config: &Config,
    running_is_source_build: bool,
    dismissed_version: Option<&str>,
) -> (r: Option<String>)
    ensures
        r is None,
        r is None <==> popup_version_spec(
            *config,
            running_is_source_build,
            crate::startup_sync::opt_view(dismissed_version),
        ) is None,
{
    if !config.check_for_update_on_startup || running_is_source_build {
        return None;
    }
    let latest = match get_upgrade_version(config) {
        Some(v) => v,
        None => {
            return None;
        },
    };
    match dismissed_version {
        Some(d) if crate::text::str_eq(d, latest.as_str()) => None,
        _ => Some(latest),
    }
}

} // verus!
