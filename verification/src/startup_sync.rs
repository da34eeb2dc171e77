//! Curated-plugins bookkeeping under CODEX_HOME.
//!
//! The startup sync of curated plugins from remote sources is disabled in
//! kimcli: every entry point that would clone, fetch or download returns an
//! empty "nothing synced" success or the sync-disabled error, before doing any
//! work. What remains is local: where the curated snapshot lives, reading the
//! recorded sha, and resolving the git sha of an extracted backup archive.
use vstd::prelude::*;
use crate::paths::{join, join_spec, is_absolute, has_leading_cur_dir, is_absolute_spec,
    starts_with_cur_dir, same_path, same_path_spec};
use crate::text::{chars_of, split_chars, split_spec, split_once, split_once_spec, starts_with,
    starts_with_spec, trim, trim_spec, string_from_chars, chars_eq, has_char, is_unicode_whitespace,
    is_first_index_of, lemma_first_index_unique, lemma_split_first_piece, lemma_trim_of_untrimmable,
    lemma_trim_idempotent};

verus! {

broadcast use vstd::string::group_string_axioms;

/// The error every disabled sync transport returns.
pub open spec fn sync_disabled_text() -> Seq<char> {
    "kimcli does not sync curated plugins from openai/plugins.git, api.github.com, or chatgpt.com (curated plugin sync is disabled)"@
}

/// The error every disabled sync transport returns.
pub fn sync_disabled_error() -> (r: String)
    ensures
        r@ == sync_disabled_text(),
{
    String::from_str(
        "kimcli does not sync curated plugins from openai/plugins.git, api.github.com, or chatgpt.com (curated plugin sync is disabled)",
    )
}

/// Where the curated plugins snapshot lives: `<codex_home>/.tmp/plugins`.
pub open spec fn curated_plugins_repo_path_spec(codex_home: Seq<char>) -> Seq<char> {
    join_spec(codex_home, ".tmp/plugins"@)
}

/// The file that records the sha of the snapshot: `<codex_home>/.tmp/plugins.sha`.
pub open spec fn curated_plugins_sha_path_spec(codex_home: Seq<char>) -> Seq<char> {
    join_spec(codex_home, ".tmp/plugins.sha"@)
}

/// Where the curated plugins snapshot lives.
pub fn curated_plugins_repo_path(codex_home: &str) -> (r: String)
    ensures
        r@ == curated_plugins_repo_path_spec(codex_home@),
{
    join(codex_home, ".tmp/plugins")
}

/// The API marketplace manifest of the snapshot.
pub fn curated_plugins_api_marketplace_path(codex_home: &str) -> (r: String)
    ensures
        r@ == join_spec(curated_plugins_repo_path_spec(codex_home@), ".agents/plugins/api_marketplace.json"@),
{
    let repo = curated_plugins_repo_path(codex_home);
    join(repo.as_str(), ".agents/plugins/api_marketplace.json")
}

/// The marketplace manifest whose presence marks a local snapshot.
pub fn curated_plugins_marketplace_manifest_path(codex_home: &str) -> (r: String)
    ensures
        r@ == join_spec(curated_plugins_repo_path_spec(codex_home@), ".agents/plugins/marketplace.json"@),
{
    let repo = curated_plugins_repo_path(codex_home);
    join(repo.as_str(), ".agents/plugins/marketplace.json")
}

/// The file that records the sha of the snapshot.
pub fn curated_plugins_sha_path(codex_home: &str) -> (r: String)
    ensures
        r@ == curated_plugins_sha_path_spec(codex_home@),
{
    join(codex_home, ".tmp/plugins.sha")
}

/// The optional view of an optional string slice.
pub open spec fn opt_view(o: Option<&str>) -> Option<Seq<char>> {
    match o {
        Some(s) => Some(s@),
        None => None,
    }
}

/// What a sha file holds: its trimmed contents, unless it could not be read
/// or holds nothing but whitespace.
pub open spec fn sha_file_value(contents: Option<Seq<char>>) -> Option<Seq<char>> {
    match contents {
        Some(c) => if trim_spec(c).len() > 0 {
            Some(trim_spec(c))
        } else {
            None
        },
        None => None,
    }
}

/// The sha recorded in a sha file, from the file's contents (`None` when it
/// could not be read).
pub fn read_sha_file(contents: Option<&str>) -> (r: Option<String>)
    ensures
        match r {
            Some(sha) => sha_file_value(opt_view(contents)) == Some(sha@),
            None => sha_file_value(opt_view(contents)) is None,
        },
{
    match contents {
        None => None,
        Some(c) => {
            let sha = trim(c);
            if sha.as_str().is_empty() {
                None
            } else {
                Some(sha)
            }
        },
    }
}

/// The sha of the local curated plugins snapshot, from the contents of the
/// file at `curated_plugins_sha_path` (`None` when it could not be read).
pub fn read_curated_plugins_sha(sha_file_contents: Option<&str>) -> (r: Option<String>)
    ensures
        match r {
            Some(sha) => sha_file_value(opt_view(sha_file_contents)) == Some(sha@),
            None => sha_file_value(opt_view(sha_file_contents)) is None,
        },
{
    read_sha_file(sha_file_contents)
}

/// A local snapshot exists when both its marketplace manifest and its sha file
/// are regular files.
pub fn has_local_curated_plugins_snapshot(marketplace_manifest_is_file: bool, sha_file_is_file: bool) -> (r: bool)
    ensures
        r == (marketplace_manifest_is_file && sha_file_is_file),
{
    marketplace_manifest_is_file && sha_file_is_file
}

/// The curated-plugins startup sync. Disabled: it reports "nothing synced"
/// (an empty sha) without cloning or downloading anything.
pub fn sync_openai_plugins_repo(codex_home: &str) -> (r: Result<String, String>)
    ensures
        r matches Ok(sha) && sha@.len() == 0,
{
    let _ = codex_home;
    Ok(String::new())
}

/// The transport-fallback orchestrator of the sync. Disabled like the sync itself.
pub fn sync_openai_plugins_repo_with_transport_overrides(
    codex_home: &str,
    git_binary: Option<&str>,
    api_base_url: &str,
    backup_archive_api_url: &str,
) -> (r: Result<String, String>)
    ensures
        r matches Ok(sha) && sha@.len() == 0,
{
    let _ = (codex_home, git_binary, api_base_url, backup_archive_api_url);
    Ok(String::new())
}

/// The git transport of the sync. Disabled.
pub fn sync_openai_plugins_repo_via_git(codex_home: &str, git_binary: &str) -> (r: Result<String, String>)
    ensures
        r matches Ok(sha) && sha@.len() == 0,
{
    let _ = (codex_home, git_binary);
    Ok(String::new())
}

/// The GitHub REST transport of the sync. Disabled.
pub fn sync_openai_plugins_repo_via_http(codex_home: &str, api_base_url: &str) -> (r: Result<String, String>)
    ensures
        r matches Ok(sha) && sha@.len() == 0,
{
    let _ = (codex_home, api_base_url);
    Ok(String::new())
}

/// The backup-archive transport of the sync. Disabled.
pub fn sync_openai_plugins_repo_via_backup_archive(codex_home: &str, backup_archive_api_url: &str) -> (r: Result<String, String>)
    ensures
        r matches Ok(sha) && sha@.len() == 0,
{
    let _ = (codex_home, backup_archive_api_url);
    Ok(String::new())
}

/// Fetching a commit of the curated plugins repository. Disabled.
pub fn fetch_curated_plugins_commit(repo_path: &str, remote_sha: &str, git_binary: &str) -> (r: Result<(), String>)
    ensures
        r matches Err(e) && e@ == sync_disabled_text(),
{
    let _ = (repo_path, remote_sha, git_binary);
    Err(sync_disabled_error())
}

/// `git fetch <source> <revision>` into the snapshot. Disabled.
pub fn fetch_curated_plugins_commit_from(
    repo_path: &str,
    source: &str,
    source_revision: &str,
    git_binary: &str,
    context: &str,
) -> (r: Result<(), String>)
    ensures
        r matches Err(e) && e@ == sync_disabled_text(),
{
    let _ = (repo_path, source, source_revision, git_binary, context);
    Err(sync_disabled_error())
}

/// `git ls-remote` of the curated plugins repository. Disabled.
pub fn git_ls_remote_head_sha(git_binary: &str) -> (r: Result<String, String>)
    ensures
        r matches Err(e) && e@ == sync_disabled_text(),
{
    let _ = git_binary;
    Err(sync_disabled_error())
}

/// The remote head sha from the GitHub REST API. Disabled.
pub fn fetch_curated_repo_remote_sha(api_base_url: &str) -> (r: Result<String, String>)
    ensures
        r matches Err(e) && e@ == sync_disabled_text(),
{
    let _ = api_base_url;
    Err(sync_disabled_error())
}

/// A zipball of the repository from the GitHub REST API. Disabled.
pub fn fetch_curated_repo_zipball(api_base_url: &str, remote_sha: &str) -> (r: Result<Vec<u8>, String>)
    ensures
        r matches Err(e) && e@ == sync_disabled_text(),
{
    let _ = (api_base_url, remote_sha);
    Err(sync_disabled_error())
}

/// The export archive of the curated plugins. Disabled.
pub fn fetch_curated_repo_backup_archive_zip(backup_archive_api_url: &str) -> (r: Result<Vec<u8>, String>)
    ensures
        r matches Err(e) && e@ == sync_disabled_text(),
{
    let _ = backup_archive_api_url;
    Err(sync_disabled_error())
}

/// The request leaf for GitHub API text answers. Disabled: nothing is sent.
pub fn fetch_github_text(url: &str, context: &str) -> (r: Result<String, String>)
    ensures
        r matches Err(e) && e@ == sync_disabled_text(),
{
    let _ = (url, context);
    Err(sync_disabled_error())
}

/// The request leaf for GitHub API binary answers (zipballs). Disabled.
pub fn fetch_github_bytes(url: &str, context: &str) -> (r: Result<Vec<u8>, String>)
    ensures
        r matches Err(e) && e@ == sync_disabled_text(),
{
    let _ = (url, context);
    Err(sync_disabled_error())
}

/// The request leaf for the export-archive metadata. Disabled.
pub fn fetch_public_text(url: &str, context: &str) -> (r: Result<String, String>)
    ensures
        r matches Err(e) && e@ == sync_disabled_text(),
{
    let _ = (url, context);
    Err(sync_disabled_error())
}

/// The request leaf for the export-archive download. Disabled.
pub fn fetch_public_bytes(url: &str, context: &str) -> (r: Result<Vec<u8>, String>)
    ensures
        r matches Err(e) && e@ == sync_disabled_text(),
{
    let _ = (url, context);
    Err(sync_disabled_error())
}

/// The environment variables that can redirect git away from the repository
/// selected by `-C`, or inject command-scoped configuration into the sync
/// commands; sync commands run without them.
pub open spec fn repository_local_git_environment_variables() -> Seq<Seq<char>> {
    seq![
        "GIT_ALTERNATE_OBJECT_DIRECTORIES"@,
        "GIT_CEILING_DIRECTORIES"@,
        "GIT_COMMON_DIR"@,
        "GIT_CONFIG"@,
        "GIT_CONFIG_COUNT"@,
        "GIT_CONFIG_PARAMETERS"@,
        "GIT_DIR"@,
        "GIT_DISCOVERY_ACROSS_FILESYSTEM"@,
        "GIT_GRAFT_FILE"@,
        "GIT_IMPLICIT_WORK_TREE"@,
        "GIT_INDEX_FILE"@,
        "GIT_NAMESPACE"@,
        "GIT_OBJECT_DIRECTORY"@,
        "GIT_PREFIX"@,
        "GIT_REPLACE_REF_BASE"@,
        "GIT_SHALLOW_FILE"@,
        "GIT_WORK_TREE"@,
    ]
}

/// The environment a git command of the sync runs with: variables to set,
/// and variables to remove from the inherited environment.
pub struct GitCommandEnvironment {
    pub set: Vec<(String, String)>,
    pub remove: Vec<String>,
}

/// The environment of a sanitized git command: `GIT_OPTIONAL_LOCKS=0`, and
/// none of the repository-local git variables.
pub fn git_command_environment() -> (r: GitCommandEnvironment)
    ensures
        r.set@.len() == 1,
        r.set@[0].0@ == "GIT_OPTIONAL_LOCKS"@,
        r.set@[0].1@ == "0"@,
        r.remove@.len() == repository_local_git_environment_variables().len(),
        forall|i: int| 0 <= i < r.remove@.len() ==> #[trigger] r.remove@[i]@
            == repository_local_git_environment_variables()[i],
{
    let mut set: Vec<(String, String)> = Vec::new();
    set.push((String::from_str("GIT_OPTIONAL_LOCKS"), String::from_str("0")));
    let mut remove: Vec<String> = Vec::new();
    remove.push(String::from_str("GIT_ALTERNATE_OBJECT_DIRECTORIES"));
    remove.push(String::from_str("GIT_CEILING_DIRECTORIES"));
    remove.push(String::from_str("GIT_COMMON_DIR"));
    remove.push(String::from_str("GIT_CONFIG"));
    remove.push(String::from_str("GIT_CONFIG_COUNT"));
    remove.push(String::from_str("GIT_CONFIG_PARAMETERS"));
    remove.push(String::from_str("GIT_DIR"));
    remove.push(String::from_str("GIT_DISCOVERY_ACROSS_FILESYSTEM"));
    remove.push(String::from_str("GIT_GRAFT_FILE"));
    remove.push(String::from_str("GIT_IMPLICIT_WORK_TREE"));
    remove.push(String::from_str("GIT_INDEX_FILE"));
    remove.push(String::from_str("GIT_NAMESPACE"));
    remove.push(String::from_str("GIT_OBJECT_DIRECTORY"));
    remove.push(String::from_str("GIT_PREFIX"));
    remove.push(String::from_str("GIT_REPLACE_REF_BASE"));
    remove.push(String::from_str("GIT_SHALLOW_FILE"));
    remove.push(String::from_str("GIT_WORK_TREE"));
    GitCommandEnvironment { set, remove }
}

/// On macOS, `/usr/bin/git` is only a stub that prompts for the developer
/// tools when they are missing: such a git is treated as unavailable.
pub open spec fn macos_git_binary_spec(git_path: Seq<char>, apple_developer_tools_available: bool) -> Option<Seq<char>> {
    if same_path_spec(git_path, "/usr/bin/git"@) && !apple_developer_tools_available {
        None
    } else {
        Some(git_path)
    }
}

/// The git binary to use on macOS, given the one found on `PATH`.
pub fn macos_git_binary_from_path(git_path: String, apple_developer_tools_available: bool) -> (r: Option<String>)
    ensures
        match r {
            Some(p) => macos_git_binary_spec(git_path@, apple_developer_tools_available) == Some(p@),
            None => macos_git_binary_spec(git_path@, apple_developer_tools_available) is None,
        },
{
    if same_path(git_path.as_str(), "/usr/bin/git") && !apple_developer_tools_available {
        None
    } else {
        Some(git_path)
    }
}

/// How old a leftover clone directory may get before it counts as stale:
/// ten minutes, comfortably above a normal sync attempt so that a sync of
/// another process is not disturbed.
pub fn curated_plugins_stale_temp_dir_max_age_secs() -> (r: u64)
    ensures
        r == 600,
{
    10 * 60
}

/// A leftover clone directory of a sync: a directory named `plugins-clone-*`.
pub open spec fn is_plugins_clone_dir_spec(is_dir: bool, name: Option<Seq<char>>) -> bool {
    is_dir && match name {
        Some(n) => starts_with_spec(n, "plugins-clone-"@),
        None => false,
    }
}

/// Whether a directory entry is a leftover clone directory of a sync, given
/// whether it is a directory and its name (`None` when it is not valid UTF-8).
pub fn is_plugins_clone_dir(is_dir: bool, name: Option<&str>) -> (r: bool)
    ensures
        r == is_plugins_clone_dir_spec(is_dir, opt_view(name)),
{
    if !is_dir {
        return false;
    }
    match name {
        None => false,
        Some(n) => {
            let chars = chars_of(n);
            let prefix = chars_of("plugins-clone-");
            starts_with(&chars, &prefix)
        },
    }
}

/// Whether a clone directory of the given age (in nanoseconds) is stale.
pub fn is_stale_temp_dir(age_nanos: u128, max_age_nanos: u128) -> (r: bool)
    ensures
        r == (age_nanos >= max_age_nanos),
{
    !(age_nanos < max_age_nanos)
}

/// Some segment of `path` is "..", which makes a `Component::ParentDir`.
pub open spec fn has_parent_segment(path: Seq<char>) -> bool {
    exists|i: int| 0 <= i < split_spec(path, '/').len() && #[trigger] split_spec(path, '/')[i] == seq!['.', '.']
}

/// Every component of `path` is a normal one: no root, no leading `.`, no `..`.
pub open spec fn all_components_normal(path: Seq<char>) -> bool {
    !is_absolute_spec(path) && !starts_with_cur_dir(path) && !has_parent_segment(path)
}

/// What a git ref named by an extracted backup archive must look like: under
/// `refs/`, relative, and made of normal components only, so that it cannot
/// name a file outside the archive's `.git` directory. Returns the ref, or the
/// reason it is refused.
pub open spec fn validate_backup_archive_git_ref_spec(reference: Seq<char>) -> Result<Seq<char>, Seq<char>> {
    if !starts_with_spec(reference, "refs/"@) {
        Err("curated plugins backup archive git ref must stay under refs/: "@ + reference)
    } else if is_absolute_spec(reference) {
        Err("curated plugins backup archive git ref must be relative: "@ + reference)
    } else if !all_components_normal(reference) {
        Err("curated plugins backup archive git ref contains invalid path components: "@ + reference)
    } else {
        Ok(reference)
    }
}

/// The optional view of a string result.
pub open spec fn result_view(r: Result<String, String>) -> Result<Seq<char>, Seq<char>> {
    match r {
        Ok(s) => Ok(s@),
        Err(e) => Err(e@),
    }
}

/// Whether some segment of `path` is "..".
fn contains_parent_segment(path: &Vec<char>) -> (r: bool)
    ensures
        r == has_parent_segment(path@),
{
    let pieces = split_chars(path, '/');
    let dotdot: Vec<char> = vec!['.', '.'];
    let mut i: usize = 0;
    while i < pieces.len()
        invariant
            i <= pieces@.len(),
            pieces@.len() == split_spec(path@, '/').len(),
            forall|k: int| 0 <= k < pieces@.len() ==> #[trigger] pieces@[k]@ == split_spec(path@, '/')[k],
            forall|k: int| 0 <= k < i ==> split_spec(path@, '/')[k] != seq!['.', '.'],
            dotdot@ == seq!['.', '.'],
        decreases pieces@.len() - i,
    {
        assert(pieces@[i as int]@ == split_spec(path@, '/')[i as int]);
        if chars_eq(&pieces[i], &dotdot) {
            return true;
        }
        i = i + 1;
    }
    false
}

/// A message followed by the text of `value`.
fn message_with(prefix: &str, value: &str) -> (r: String)
    ensures
        r@ == prefix@ + value@,
{
    let mut r = String::from_str(prefix);
    r.append(value);
    r
}

/// Checks a git ref named by the HEAD of an extracted backup archive.
pub fn validate_backup_archive_git_ref<'a>(reference: &'a str) -> (r: Result<&'a str, String>)
    ensures
        match r {
            Ok(s) => validate_backup_archive_git_ref_spec(reference@) == Ok::<Seq<char>, Seq<char>>(s@),
            Err(e) => validate_backup_archive_git_ref_spec(reference@) == Err::<Seq<char>, Seq<char>>(e@),
        },
{
    let chars = chars_of(reference);
    let prefix = chars_of("refs/");
    if !starts_with(&chars, &prefix) {
        return Err(message_with("curated plugins backup archive git ref must stay under refs/: ", reference));
    }
    if is_absolute(&chars) {
        return Err(message_with("curated plugins backup archive git ref must be relative: ", reference));
    }
    if has_leading_cur_dir(&chars) || contains_parent_segment(&chars) {
        return Err(
            message_with("curated plugins backup archive git ref contains invalid path components: ", reference),
        );
    }
    Ok(reference)
}

/// The sha a packed-refs line gives for `reference`: the line, trimmed, is
/// `<sha> <ref>`; blank lines, comments (`#`) and peeled entries (`^`) give none.
pub open spec fn packed_ref_line_sha(line: Seq<char>, reference: Seq<char>) -> Option<Seq<char>> {
    let t = trim_spec(line);
    if t.len() == 0 || t[0] == '#' || t[0] == '^' {
        None
    } else {
        match split_once_spec(t, ' ') {
            Some((sha, candidate)) => if candidate == reference {
                Some(sha)
            } else {
                None
            },
            None => None,
        }
    }
}

/// The sha of the first of `lines` that gives one for `reference`.
pub open spec fn first_packed_ref_sha(lines: Seq<Seq<char>>, reference: Seq<char>) -> Option<Seq<char>>
    decreases lines.len(),
{
    if lines.len() == 0 {
        None
    } else {
        match packed_ref_line_sha(lines[0], reference) {
            Some(sha) => Some(sha),
            None => first_packed_ref_sha(lines.drop_first(), reference),
        }
    }
}

/// The sha that a `packed-refs` file gives for `reference`. (Cutting the
/// file at every '\n' gives the same answer as `str::lines`: a '\r' before a
/// '\n' is trimmed away with the rest of the whitespace, and a final empty
/// piece is a blank line.)
pub open spec fn packed_ref_sha_spec(packed_refs: Seq<char>, reference: Seq<char>) -> Option<Seq<char>> {
    first_packed_ref_sha(split_spec(packed_refs, '\n'), reference)
}

/// The sha one packed-refs line gives for `reference`.
fn packed_ref_line_lookup(line: &Vec<char>, reference: &Vec<char>) -> (r: Option<String>)
    ensures
        match r {
            Some(sha) => packed_ref_line_sha(line@, reference@) == Some(sha@),
            None => packed_ref_line_sha(line@, reference@) is None,
        },
{
    let line_text = string_from_chars(line);
    let trimmed_text = trim(line_text.as_str());
    let trimmed = chars_of(trimmed_text.as_str());
    if trimmed.len() == 0 || trimmed[0] == '#' || trimmed[0] == '^' {
        return None;
    }
    match split_once(&trimmed, ' ') {
        None => None,
        Some((sha, candidate)) => {
            if chars_eq(&candidate, reference) {
                Some(string_from_chars(&sha))
            } else {
                None
            }
        },
    }
}

/// The sha that the contents of a `packed-refs` file give for `reference`.
pub fn find_packed_ref_sha(packed_refs: &str, reference: &str) -> (r: Option<String>)
    ensures
        match r {
            Some(sha) => packed_ref_sha_spec(packed_refs@, reference@) == Some(sha@),
            None => packed_ref_sha_spec(packed_refs@, reference@) is None,
        },
{
    let chars = chars_of(packed_refs);
    let reference_chars = chars_of(reference);
    let lines = split_chars(&chars, '\n');
    let ghost all = split_spec(packed_refs@, '\n');
    assert(all.skip(0) =~= all);
    let mut i: usize = 0;
    while i < lines.len()
        invariant
            i <= lines@.len(),
            lines@.len() == all.len(),
            all == split_spec(packed_refs@, '\n'),
            reference_chars@ == reference@,
            forall|k: int| 0 <= k < lines@.len() ==> #[trigger] lines@[k]@ == all[k],
            first_packed_ref_sha(all, reference@) == first_packed_ref_sha(all.skip(i as int), reference@),
        decreases lines@.len() - i,
    {
        assert(all.skip(i as int)[0] == all[i as int]);
        assert(all.skip(i as int).drop_first() =~= all.skip(i + 1));
        assert(lines@[i as int]@ == all[i as int]);
        let found = packed_ref_line_lookup(&lines[i], &reference_chars);
        if found.is_some() {
            return found;
        }
        i = i + 1;
    }
    None
}

/// The path of a file inside a git directory.
pub fn git_dir_file(git_dir: &str, name: &str) -> (r: String)
    ensures
        r@ == join_spec(git_dir@, name@),
{
    join(git_dir, name)
}

/// How the sha of a ref is resolved: from the loose ref file at
/// `<git_dir>/<reference>` when it could be read (`ref_file`), else from the
/// `packed-refs` file (`packed_refs`).
pub open spec fn read_git_ref_sha_spec(
    git_dir: Seq<char>,
    reference: Seq<char>,
    ref_file: Option<Seq<char>>,
    packed_refs: Option<Seq<char>>,
) -> Result<Seq<char>, Seq<char>> {
    match ref_file {
        Some(contents) => if trim_spec(contents).len() == 0 {
            Err(
                "curated plugins backup archive git ref "@ + reference + " is empty at "@
                    + join_spec(git_dir, reference),
            )
        } else {
            Ok(trim_spec(contents))
        },
        None => {
            let found = match packed_refs {
                Some(p) => packed_ref_sha_spec(p, reference),
                None => None,
            };
            match found {
                Some(sha) => Ok(sha),
                None => Err(
                    "failed to resolve curated plugins backup archive git ref "@ + reference
                        + " from "@ + git_dir,
                ),
            }
        },
    }
}

/// Resolves the sha of `reference` in an extracted archive's git directory,
/// given the contents of its loose ref file (`None` when it could not be
/// read) and of its `packed-refs` file (`None` when it could not be read; it
/// is consulted only when the loose ref file could not be read).
pub fn read_git_ref_sha(
    git_dir: &str,
    reference: &str,
    ref_file: Option<&str>,
    packed_refs: Option<&str>,
) -> (r: Result<String, String>)
    ensures
        result_view(r) == read_git_ref_sha_spec(git_dir@, reference@, opt_view(ref_file), opt_view(packed_refs)),
{
    if let Some(contents) = ref_file {
        let sha = trim(contents);
        if sha.as_str().is_empty() {
            let ref_path = git_dir_file(git_dir, reference);
            let mut msg = String::from_str("curated plugins backup archive git ref ");
            msg.append(reference);
            msg.append(" is empty at ");
            msg.append(ref_path.as_str());
            return Err(msg);
        }
        return Ok(sha);
    }
    if let Some(packed) = packed_refs {
        if let Some(sha) = find_packed_ref_sha(packed, reference) {
            return Ok(sha);
        }
    }
    let mut msg = String::from_str("failed to resolve curated plugins backup archive git ref ");
    msg.append(reference);
    msg.append(" from ");
    msg.append(git_dir);
    Err(msg)
}

/// What the HEAD file of an extracted archive points at.
#[derive(Debug, PartialEq, Eq)]
pub enum GitHeadTarget {
    /// A detached HEAD: the sha itself.
    Detached(String),
    /// A symbolic HEAD: the (validated) ref it names.
    Symbolic(String),
}

/// A HEAD target as (is symbolic, text).
pub open spec fn head_target_view(t: GitHeadTarget) -> (bool, Seq<char>) {
    match t {
        GitHeadTarget::Detached(sha) => (false, sha@),
        GitHeadTarget::Symbolic(reference) => (true, reference@),
    }
}

/// How the HEAD file at `head_path` is read: a read error or an empty HEAD is
/// an error; `ref: <ref>` names a ref, which must pass
/// `validate_backup_archive_git_ref`; anything else is the sha itself.
pub open spec fn parse_backup_archive_git_head_spec(
    head_path: Seq<char>,
    head: Result<Seq<char>, Seq<char>>,
) -> Result<(bool, Seq<char>), Seq<char>> {
    match head {
        Err(e) => Err("failed to read curated plugins backup archive git HEAD "@ + head_path + ": "@ + e),
        Ok(text) => {
            let t = trim_spec(text);
            if t.len() == 0 {
                Err("curated plugins backup archive git HEAD is empty at "@ + head_path)
            } else if starts_with_spec(t, "ref: "@) {
                match validate_backup_archive_git_ref_spec(trim_spec(t.skip(5))) {
                    Ok(reference) => Ok((true, reference)),
                    Err(e) => Err(e),
                }
            } else {
                Ok((false, t))
            }
        },
    }
}

/// The view of a read outcome: the text read, or the error text.
pub open spec fn read_view(r: Result<&str, &str>) -> Result<Seq<char>, Seq<char>> {
    match r {
        Ok(s) => Ok(s@),
        Err(e) => Err(e@),
    }
}

/// Reads the HEAD file of an extracted archive's git directory, given the
/// outcome of reading it (its contents, or the text of the read error).
pub fn parse_backup_archive_git_head(head_path: &str, head: Result<&str, &str>) -> (r: Result<GitHeadTarget, String>)
    ensures
        match r {
            Ok(t) => parse_backup_archive_git_head_spec(head_path@, read_view(head)) == Ok::<(bool, Seq<char>), Seq<char>>(head_target_view(t)),
            Err(e) => parse_backup_archive_git_head_spec(head_path@, read_view(head)) == Err::<(bool, Seq<char>), Seq<char>>(e@),
        },
{
    let text = match head {
        Err(e) => {
            let mut msg = String::from_str("failed to read curated plugins backup archive git HEAD ");
            msg.append(head_path);
            msg.append(": ");
            msg.append(e);
            return Err(msg);
        },
        Ok(text) => text,
    };
    let trimmed = trim(text);
    let chars = chars_of(trimmed.as_str());
    if chars.len() == 0 {
        return Err(message_with("curated plugins backup archive git HEAD is empty at ", head_path));
    }
    let prefix = chars_of("ref: ");
    if starts_with(&chars, &prefix) {
        proof {
            reveal_strlit("ref: ");
        }
        let rest = crate::text::string_from_range(&chars, 5, chars.len());
        assert(rest@ == trimmed@.skip(5));
        let reference = trim(rest.as_str());
        return match validate_backup_archive_git_ref(reference.as_str()) {
            Ok(valid) => Ok(GitHeadTarget::Symbolic(valid.to_owned())),
            Err(e) => Err(e),
        };
    }
    Ok(GitHeadTarget::Detached(trimmed))
}

/// A ref accepted from an archive's HEAD is the ref as written, stays under
/// `refs/`, is relative, and has no `.` or `..` component that could lead
/// out of the archive's git directory.
pub proof fn law_validated_ref_stays_in_git_dir(reference: Seq<char>)
    ensures
        validate_backup_archive_git_ref_spec(reference) is Ok ==> {
            &&& validate_backup_archive_git_ref_spec(reference) == Ok::<Seq<char>, Seq<char>>(reference)
            &&& starts_with_spec(reference, "refs/"@)
            &&& !is_absolute_spec(reference)
            &&& !starts_with_cur_dir(reference)
            &&& !has_parent_segment(reference)
        },
{
}

/// A recorded sha is never blank and carries no surrounding whitespace.
pub proof fn law_recorded_sha_is_trimmed(contents: Option<Seq<char>>)
    ensures
        sha_file_value(contents) matches Some(sha) ==> sha.len() > 0 && trim_spec(sha) == sha,
{
    if let Some(c) = contents {
        lemma_trim_idempotent(c);
    }
}

/// A loose ref file that holds a sha takes precedence over `packed-refs`.
pub proof fn law_loose_ref_wins(git_dir: Seq<char>, reference: Seq<char>, contents: Seq<char>, packed_refs: Option<Seq<char>>)
    requires
        trim_spec(contents).len() > 0,
    ensures
        read_git_ref_sha_spec(git_dir, reference, Some(contents), packed_refs) == Ok::<Seq<char>, Seq<char>>(
            trim_spec(contents),
        ),
{
}

/// A `packed-refs` file whose first line is `<sha> <ref>` gives that sha
/// for that ref, whatever follows.
pub proof fn law_packed_ref_line_read_back(sha: Seq<char>, reference: Seq<char>, rest: Seq<char>)
    requires
        sha.len() > 0,
        reference.len() > 0,
        !has_char(sha, ' '),
        !has_char(sha, '\n'),
        !has_char(reference, '\n'),
        sha[0] != '#' && sha[0] != '^',
        !is_unicode_whitespace(sha[0]),
        !is_unicode_whitespace(reference.last()),
    ensures
        packed_ref_sha_spec(sha + seq![' '] + reference + seq!['\n'] + rest, reference) == Some(sha),
{
    let line = sha + seq![' '] + reference;
    assert(!has_char(line, '\n')) by {
        if has_char(line, '\n') {
            let i = choose|i: int| 0 <= i < line.len() && line[i] == '\n';
            if i < sha.len() {
                assert(sha[i] == '\n');
            } else if i > sha.len() {
                assert(reference[i - sha.len() - 1] == '\n');
            }
        }
    }
    assert(sha + seq![' '] + reference + seq!['\n'] + rest =~= line + seq!['\n'] + rest);
    lemma_split_first_piece(line, '\n', rest);
    assert(line[0] == sha[0]);
    assert(line.last() == reference.last());
    lemma_trim_of_untrimmable(line);
    let k = sha.len() as int;
    assert(is_first_index_of(line, ' ', k)) by {
        assert forall|j: int| 0 <= j < k implies line[j] != ' ' by {
            assert(line[j] == sha[j]);
        }
    }
    assert(has_char(line, ' '));
    let k2 = choose|k2: int| is_first_index_of(line, ' ', k2);
    lemma_first_index_unique(line, ' ', k, k2);
    assert(line.take(k) =~= sha);
    assert(line.skip(k + 1) =~= reference);
    assert(packed_ref_line_sha(line, reference) == Some(sha));
}

/// A packed-refs line gives a sha for a ref only when the line, trimmed, is
/// exactly that sha, one space, and that very ref: a ref that merely starts
/// with the line's ref, or extends it, gets nothing from it.
pub proof fn law_packed_ref_line_names_exactly_the_ref(line: Seq<char>, reference: Seq<char>)
    ensures
        packed_ref_line_sha(line, reference) matches Some(sha) ==> trim_spec(line) == sha + seq![' '] + reference,
{
    let t = trim_spec(line);
    if let Some(sha) = packed_ref_line_sha(line, reference) {
        crate::text::lemma_first_index_exists(t, ' ');
        let k = choose|k: int| is_first_index_of(t, ' ', k);
        assert(t.take(k) + seq![' '] + t.skip(k + 1) =~= t);
    }
}

/// The sha that `packed-refs` gives for a ref comes from a line that is
/// exactly `<sha> <ref>` for that ref.
pub proof fn law_packed_ref_sha_comes_from_its_own_line(packed_refs: Seq<char>, reference: Seq<char>)
    ensures
        packed_ref_sha_spec(packed_refs, reference) matches Some(sha) ==> exists|i: int|
            0 <= i < split_spec(packed_refs, '\n').len() && trim_spec(#[trigger] split_spec(packed_refs, '\n')[i])
                == sha + seq![' '] + reference,
{
    lemma_first_packed_ref_line(split_spec(packed_refs, '\n'), reference);
}

proof fn lemma_first_packed_ref_line(lines: Seq<Seq<char>>, reference: Seq<char>)
    ensures
        first_packed_ref_sha(lines, reference) matches Some(sha) ==> exists|i: int|
            0 <= i < lines.len() && trim_spec(#[trigger] lines[i]) == sha + seq![' '] + reference,
    decreases lines.len(),
{
    if lines.len() > 0 {
        law_packed_ref_line_names_exactly_the_ref(lines[0], reference);
        match packed_ref_line_sha(lines[0], reference) {
            Some(sha) => {
                assert(trim_spec(lines[0]) == sha + seq![' '] + reference);
            },
            None => {
                lemma_first_packed_ref_line(lines.drop_first(), reference);
                if let Some(sha) = first_packed_ref_sha(lines.drop_first(), reference) {
                    let i = choose|i: int|
                        0 <= i < lines.drop_first().len() && trim_spec(#[trigger] lines.drop_first()[i]) == sha
                            + seq![' '] + reference;
                    assert(lines[i + 1] == lines.drop_first()[i]);
                }
            },
        }
    }
}

/// The macOS git choice drops the found git only when it is `/usr/bin/git`
/// as a path and the developer tools are missing; every other git path,
/// such as `/usr/local/bin/git`, is kept as it is.
pub proof fn law_only_the_apple_stub_is_dropped(git_path: Seq<char>, apple_developer_tools_available: bool)
    ensures
        macos_git_binary_spec(git_path, apple_developer_tools_available) is None <==> (same_path_spec(
            git_path,
            "/usr/bin/git"@,
        ) && !apple_developer_tools_available),
        macos_git_binary_spec(git_path, apple_developer_tools_available) is Some ==> macos_git_binary_spec(
            git_path,
            apple_developer_tools_available,
        ) == Some(git_path),
        crate::paths::named_segments(split_spec(git_path, '/')) != crate::paths::named_segments(
            split_spec("/usr/bin/git"@, '/'),
        ) ==> macos_git_binary_spec(git_path, apple_developer_tools_available) == Some(git_path),
{
}

} // verus!
