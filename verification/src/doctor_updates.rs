//! The "updates" row of `kimcli doctor`.
//!
//! kimcli permanently disables the self-update flow, so this check never looks
//! for a newer release. It reports what is known locally (the cached
//! version-check state and the install channel) and, for npm-managed launches,
//! whether `npm install -g` would update the package root that launched the
//! running process, which catches PATH and prefix mismatches.
use vstd::prelude::*;
use crate::updates::Config;

verus! {

broadcast use vstd::string::group_string_axioms;

/// How kimcli was installed.
#[derive(Debug, Clone, Copy, PartialEq, Eq, Structural)]
pub enum InstallMethod {
    Npm,
    Bun,
    Pnpm,
    Brew,
    Standalone,
    Other,
}

/// What is known of the running installation.
#[derive(Debug, Clone, PartialEq, Eq)]
pub struct InstallContext {
    pub method: InstallMethod,
    /// The package layout of the installation, where one was detected.
    pub package_layout: Option<String>,
}

/// The upstream update command for an install channel.
pub open spec fn update_action_label_spec(method: InstallMethod) -> Seq<char> {
    match method {
        InstallMethod::Npm => "npm install -g @openai/codex"@,
        InstallMethod::Bun => "bun install -g @openai/codex"@,
        InstallMethod::Pnpm => "pnpm add -g @openai/codex"@,
        InstallMethod::Brew => "brew upgrade --cask codex"@,
        InstallMethod::Standalone => "standalone installer"@,
        InstallMethod::Other => "manual or unknown"@,
    }
}

/// How the upstream update would be run for this installation (shown for
/// information only).
pub fn update_action_label(context: &InstallContext) -> (r: &'static str)
    ensures
        r@ == update_action_label_spec(context.method),
{
    match context.method {
        InstallMethod::Npm => "npm install -g @openai/codex",
        InstallMethod::Bun => "bun install -g @openai/codex",
        InstallMethod::Pnpm => "pnpm add -g @openai/codex",
        InstallMethod::Brew => "brew upgrade --cask codex",
        InstallMethod::Standalone => "standalone installer",
        InstallMethod::Other => "manual or unknown",
    }
}

/// Outcome of a doctor check, from best to worst (`Pass` is the healthy outcome).
#[derive(Debug, Clone, Copy, PartialEq, Eq, Structural)]
pub enum CheckStatus {
    Pass,
    Warning,
    Fail,
}

/// The position of a status in the order `Pass < Warning < Fail`.
pub open spec fn status_rank(s: CheckStatus) -> int {
    match s {
        CheckStatus::Pass => 0,
        CheckStatus::Warning => 1,
        CheckStatus::Fail => 2,
    }
}

impl CheckStatus {
    /// The worse of two statuses.
    pub fn max(self, other: CheckStatus) -> (r: CheckStatus)
        ensures
            status_rank(r) == if status_rank(self) >= status_rank(other) {
                status_rank(self)
            } else {
                status_rank(other)
            },
            r == self || r == other,
    {
        let a: u8 = match self {
            CheckStatus::Pass => 0,
            CheckStatus::Warning => 1,
            CheckStatus::Fail => 2,
        };
        let b: u8 = match other {
            CheckStatus::Pass => 0,
            CheckStatus::Warning => 1,
            CheckStatus::Fail => 2,
        };
        if a >= b {
            self
        } else {
            other
        }
    }
}

/// Whether `npm install -g` would update the package root that launched the
/// running process.
#[derive(Debug, Clone, PartialEq, Eq)]
pub enum NpmRootCheck {
    Match { package_root: String },
    Mismatch { running_package_root: String, npm_package_root: String },
    MissingPackageRoot,
    NpmUnavailable(String),
}

/// The version-check state cached in `version.json`.
#[derive(Debug, Clone, PartialEq, Eq)]
pub struct VersionInfo {
    pub latest_version: String,
    pub last_checked_at: Option<String>,
    pub dismissed_version: Option<String>,
}

/// What reading `version.json` gave.
#[derive(Debug, Clone, PartialEq, Eq)]
pub enum VersionCacheRead {
    /// The file was read and parsed.
    Parsed(VersionInfo),
    /// The file was read but did not parse; the parser's message.
    ParseError(String),
    /// The file does not exist.
    Missing,
    /// The file could not be read; the reader's message.
    ReadError(String),
}

/// One row of `kimcli doctor`.
#[derive(Debug, Clone, PartialEq, Eq)]
pub struct DoctorCheck {
    pub id: String,
    pub category: String,
    pub status: CheckStatus,
    pub summary: String,
    pub details: Vec<String>,
    pub remediation: Option<String>,
}

/// A doctor row as plain values.
pub struct DoctorCheckView {
    pub id: Seq<char>,
    pub category: Seq<char>,
    pub status: CheckStatus,
    pub summary: Seq<char>,
    pub details: Seq<Seq<char>>,
    pub remediation: Option<Seq<char>>,
}

/// The views of a vector of strings.
pub open spec fn strings_view(v: Seq<String>) -> Seq<Seq<char>> {
    v.map_values(|s: String| s@)
}

impl View for DoctorCheck {
    type V = DoctorCheckView;

    open spec fn view(&self) -> DoctorCheckView {
        DoctorCheckView {
            id: self.id@,
            category: self.category@,
            status: self.status,
            summary: self.summary@,
            details: strings_view(self.details@),
            remediation: match self.remediation {
                Some(r) => Some(r@),
                None => None,
            },
        }
    }
}

impl DoctorCheck {
    /// A row with no details and no remediation.
    pub fn new(id: &str, category: &str, status: CheckStatus, summary: String) -> (r: DoctorCheck)
        ensures
            r@.id == id@,
            r@.category == category@,
            r@.status == status,
            r@.summary == summary@,
            r@.details.len() == 0,
            r@.remediation is None,
    {
        let r = DoctorCheck {
            id: String::from_str(id),
            category: String::from_str(category),
            status,
            summary,
            details: Vec::new(),
            remediation: None,
        };
        assert(strings_view(r.details@) =~= Seq::<Seq<char>>::empty());
        r
    }

    /// The same row with these details.
    pub fn details(self, details: Vec<String>) -> (r: DoctorCheck)
        ensures
            r@.id == self@.id,
            r@.category == self@.category,
            r@.status == self@.status,
            r@.summary == self@.summary,
            r@.details == strings_view(details@),
            r@.remediation == self@.remediation,
    {
        DoctorCheck { details, ..self }
    }

    /// The same row with this remediation.
    pub fn remediation(self, remediation: String) -> (r: DoctorCheck)
        ensures
            r@.id == self@.id,
            r@.category == self@.category,
            r@.status == self@.status,
            r@.summary == self@.summary,
            r@.details == self@.details,
            r@.remediation == Some(remediation@),
    {
        DoctorCheck { remediation: Some(remediation), ..self }
    }
}

/// `true` or `false`, as `Display` of `bool` prints it.
pub open spec fn bool_text(b: bool) -> Seq<char> {
    if b {
        "true"@
    } else {
        "false"@
    }
}

/// The notice that heads every updates row.
pub open spec fn pinned_notice() -> Seq<char> {
    "kimcli is a pinned rebrand of Codex CLI 0.144.3 managed by Kim; self-update is disabled. Update via scripts/install_kimcli.sh in the kim repo."@
}

/// The detail lines the version cache contributes.
pub open spec fn cached_version_details_spec(version_file: Seq<char>, cache: VersionCacheRead) -> Seq<Seq<char>> {
    let head = seq!["version cache: "@ + version_file];
    match cache {
        VersionCacheRead::Parsed(info) => {
            let with_latest = head.push("cached latest version: "@ + info.latest_version@);
            let with_checked = match info.last_checked_at {
                Some(at) => with_latest.push("last checked at: "@ + at@),
                None => with_latest,
            };
            match info.dismissed_version {
                Some(v) => with_checked.push("dismissed version: "@ + v@),
                None => with_checked,
            }
        },
        VersionCacheRead::ParseError(e) => head.push("version cache parse: "@ + e@),
        VersionCacheRead::Missing => head.push("version cache: missing"@),
        VersionCacheRead::ReadError(e) => head.push("version cache read: "@ + e@),
    }
}

/// Text made of a prefix and a value.
fn labelled(prefix: &str, value: &str) -> (r: String)
    ensures
        r@ == prefix@ + value@,
{
    let mut r = String::from_str(prefix);
    r.append(value);
    r
}

/// Appends to `details` what the version cache at `version_file` holds.
pub fn push_cached_version_details(details: &mut Vec<String>, version_file: &str, cache: VersionCacheRead)
    ensures
        strings_view(final(details)@) == strings_view(old(details)@) + cached_version_details_spec(
            version_file@,
            cache,
        ),
{
    let ghost start = strings_view(details@);
    details.push(labelled("version cache: ", version_file));
    match cache {
        VersionCacheRead::Parsed(info) => {
            details.push(labelled("cached latest version: ", info.latest_version.as_str()));
            if let Some(at) = &info.last_checked_at {
                details.push(labelled("last checked at: ", at.as_str()));
            }
            if let Some(v) = &info.dismissed_version {
                details.push(labelled("dismissed version: ", v.as_str()));
            }
        },
        VersionCacheRead::ParseError(e) => {
            details.push(labelled("version cache parse: ", e.as_str()));
        },
        VersionCacheRead::Missing => {
            details.push(String::from_str("version cache: missing"));
        },
        VersionCacheRead::ReadError(e) => {
            details.push(labelled("version cache read: ", e.as_str()));
        },
    }
    assert(strings_view(details@) =~= start + cached_version_details_spec(version_file@, cache));
}

/// The version cache file: `<codex_home>/version.json`.
pub open spec fn version_file_path_spec(config: Config) -> Seq<char> {
    crate::paths::join_spec(config.codex_home@, "version.json"@)
}

/// The version cache file of this configuration.
pub fn version_file_path(config: &Config) -> (r: String)
    ensures
        r@ == version_file_path_spec(*config),
{
    crate::paths::join(config.codex_home.as_str(), "version.json")
}

/// The detail lines every updates row starts with.
pub open spec fn base_details(config: Config, method: InstallMethod, cache: VersionCacheRead) -> Seq<Seq<char>> {
    seq![
        pinned_notice(),
        "check for update on startup: "@ + bool_text(config.check_for_update_on_startup)
            + " (ignored; kimcli never checks upstream)"@,
        "upstream Codex update channel (informational only): "@ + update_action_label_spec(method),
    ] + cached_version_details_spec(version_file_path_spec(config), cache)
}

/// The updates row: always about the local state only. Without an npm check
/// (an installation not managed by npm) it passes; with one, a mismatch of
/// package roots fails the row, and a missing package root or an unusable npm
/// only warns.
pub open spec fn updates_check_spec(
    config: Config,
    method: InstallMethod,
    cache: VersionCacheRead,
    npm_root_check: Option<NpmRootCheck>,
) -> DoctorCheckView {
    let details = base_details(config, method, cache);
    let (status, summary, details, remediation) = match npm_root_check {
        None => (CheckStatus::Pass, "update configuration is locally consistent"@, details, None),
        Some(NpmRootCheck::Match { package_root }) => (
            CheckStatus::Pass,
            "update configuration is locally consistent"@,
            details.push("npm update target: "@ + package_root@),
            None,
        ),
        Some(NpmRootCheck::Mismatch { running_package_root, npm_package_root }) => (
            CheckStatus::Fail,
            "update would target a different npm install"@,
            details.push("running package root: "@ + running_package_root@).push(
                "npm package root: "@ + npm_package_root@,
            ),
            Some(
                "Fix PATH or npm prefix so the running package root ("@ + running_package_root@
                    + ") matches the npm global package root ("@ + npm_package_root@ + ")."@,
            ),
        ),
        Some(NpmRootCheck::MissingPackageRoot) => (
            CheckStatus::Warning,
            "npm update target could not be proven"@,
            details,
            Some("Reinstall or update Kim so the JS shim provides CODEX_MANAGED_PACKAGE_ROOT."@),
        ),
        Some(NpmRootCheck::NpmUnavailable(error)) => (
            CheckStatus::Warning,
            "npm update target could not be inspected"@,
            details.push("npm root -g failed: "@ + error@),
            None,
        ),
    };
    DoctorCheckView {
        id: "updates.status"@,
        category: "updates"@,
        status,
        summary,
        details,
        remediation,
    }
}

/// Builds the updates row for the running installation, given what was
/// read of the version cache at `version_file_path(config)` and, for an
/// installation managed by npm, the result of comparing package roots
/// (`None` for one that is not).
pub fn updates_check(
    config: &Config,
    install_context: &InstallContext,
    version_cache: VersionCacheRead,
    npm_root_check: Option<NpmRootCheck>,
) -> (r: DoctorCheck)
    ensures
        r@ == updates_check_spec(*config, install_context.method, version_cache, npm_root_check),
{
    let ghost cache = version_cache;
    let mut details: Vec<String> = Vec::new();
    details.push(
        String::from_str(
            "kimcli is a pinned rebrand of Codex CLI 0.144.3 managed by Kim; self-update is disabled. Update via scripts/install_kimcli.sh in the kim repo.",
        ),
    );
    let mut startup = String::from_str("check for update on startup: ");
    if config.check_for_update_on_startup {
        startup.append("true");
    } else {
        startup.append("false");
    }
    startup.append(" (ignored; kimcli never checks upstream)");
    details.push(startup);
    details.push(labelled("upstream Codex update channel (informational only): ", update_action_label(install_context)));
    let version_file = version_file_path(config);
    push_cached_version_details(&mut details, version_file.as_str(), version_cache);
    assert(strings_view(details@) =~= base_details(*config, install_context.method, cache));

    let mut status = CheckStatus::Pass;
    let mut summary = String::from_str("update configuration is locally consistent");
    let mut remediation: Option<String> = None;

    match npm_root_check {
        None => {},
        Some(NpmRootCheck::Match { package_root }) => {
            details.push(labelled("npm update target: ", package_root.as_str()));
            assert(strings_view(details@) =~= base_details(*config, install_context.method, cache).push(
                "npm update target: "@ + package_root@,
            ));
        },
        Some(NpmRootCheck::Mismatch { running_package_root, npm_package_root }) => {
            status = CheckStatus::Fail;
            summary = String::from_str("update would target a different npm install");
            details.push(labelled("running package root: ", running_package_root.as_str()));
            details.push(labelled("npm package root: ", npm_package_root.as_str()));
            assert(strings_view(details@) =~= base_details(*config, install_context.method, cache).push(
                "running package root: "@ + running_package_root@,
            ).push("npm package root: "@ + npm_package_root@));
            let mut fix = String::from_str("Fix PATH or npm prefix so the running package root (");
            fix.append(running_package_root.as_str());
            fix.append(") matches the npm global package root (");
            fix.append(npm_package_root.as_str());
            fix.append(").");
            remediation = Some(fix);
        },
        Some(NpmRootCheck::MissingPackageRoot) => {
            status = status.max(CheckStatus::Warning);
            summary = String::from_str("npm update target could not be proven");
            remediation = Some(
                String::from_str("Reinstall or update Kim so the JS shim provides CODEX_MANAGED_PACKAGE_ROOT."),
            );
        },
        Some(NpmRootCheck::NpmUnavailable(error)) => {
            status = status.max(CheckStatus::Warning);
            summary = String::from_str("npm update target could not be inspected");
            details.push(labelled("npm root -g failed: ", error.as_str()));
            assert(strings_view(details@) =~= base_details(*config, install_context.method, cache).push(
                "npm root -g failed: "@ + error@,
            ));
        },
    }

    let check = DoctorCheck::new("updates.status", "updates", status, summary).details(details);
    let r = match remediation {
        Some(fix) => check.remediation(fix),
        None => check,
    };
    assert(r@.details =~= updates_check_spec(*config, install_context.method, cache, npm_root_check).details);
    r
}

/// The updates row fails exactly when npm would update a different install;
/// it asks for a remedy exactly when the npm target is wrong or unproven; and
/// it always opens with the notice that self-update is disabled.
pub proof fn law_updates_row_outcome(
    config: Config,
    method: InstallMethod,
    cache: VersionCacheRead,
    npm_root_check: Option<NpmRootCheck>,
)
    ensures
        updates_check_spec(config, method, cache, npm_root_check).status == CheckStatus::Fail <==> (
        npm_root_check matches Some(NpmRootCheck::Mismatch { .. })),
        updates_check_spec(config, method, cache, npm_root_check).remediation is Some <==> (
        npm_root_check matches Some(NpmRootCheck::Mismatch { .. }) || npm_root_check matches Some(
            NpmRootCheck::MissingPackageRoot,
        )),
        updates_check_spec(config, method, cache, npm_root_check).details[0] == pinned_notice(),
        updates_check_spec(config, method, cache, npm_root_check).id == "updates.status"@,
{
    let base = base_details(config, method, cache);
    assert(base[0] == pinned_notice());
    assert(base.len() >= 3);
}

/// The updates row reads "update configuration is locally consistent"
/// exactly when it passes (no npm check, or matching npm roots), and
/// "update would target a different npm install" exactly when the npm
/// roots mismatch.
pub proof fn law_updates_summary_follows_the_npm_check(
    config: Config,
    method: InstallMethod,
    cache: VersionCacheRead,
    npm_root_check: Option<NpmRootCheck>,
)
    ensures
        updates_check_spec(config, method, cache, npm_root_check).summary == "update configuration is locally consistent"@
            <==> updates_check_spec(config, method, cache, npm_root_check).status == CheckStatus::Pass,
        updates_check_spec(config, method, cache, npm_root_check).status == CheckStatus::Pass <==> (npm_root_check is None
            || npm_root_check matches Some(NpmRootCheck::Match { .. })),
        updates_check_spec(config, method, cache, npm_root_check).summary == "update would target a different npm install"@
            <==> npm_root_check matches Some(NpmRootCheck::Mismatch { .. }),
{
    reveal_strlit("update configuration is locally consistent");
    reveal_strlit("update would target a different npm install");
    reveal_strlit("npm update target could not be proven");
    reveal_strlit("npm update target could not be inspected");
    assert("update configuration is locally consistent"@.len() == 42);
    assert("update would target a different npm install"@.len() == 43);
    assert("npm update target could not be proven"@.len() == 37);
    assert("npm update target could not be inspected"@.len() == 40);
}

} // verus!
