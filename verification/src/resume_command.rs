//! The user-facing `kimcli resume` hints shown when a session ends.
//!
//! `kimcli resume <target>` reopens a session by thread name or thread id; the
//! target is shell-quoted with the `shlex` crate so that the hint can be pasted
//! into a shell as it is.
use vstd::prelude::*;
use crate::thread_id::{ThreadId, uuid_hyphenated};

verus! {

broadcast use vstd::string::group_string_axioms;

/// What `shlex::try_join` makes of `words`: the words shell-quoted and
/// separated by single spaces, or `None` where it refuses them.
pub uninterp spec fn shlex_try_join(words: Seq<Seq<char>>) -> Option<Seq<char>>;

/// A character that `shlex` emits without quoting.
pub open spec fn shell_safe_char(c: char) -> bool {
    ||| c == '+' || c == '-' || c == '.' || c == '/' || c == ':' || c == '@' || c == ']' || c == '_'
    ||| ('0' <= c && c <= '9')
    ||| ('A' <= c && c <= 'Z')
    ||| ('a' <= c && c <= 'z')
}

/// A non-empty word made of shell-safe characters only.
pub open spec fn shell_safe_word(w: Seq<char>) -> bool {
    w.len() > 0 && forall|i: int| 0 <= i < w.len() ==> shell_safe_char(#[trigger] w[i])
}

/// Some word holds a NUL character.
pub open spec fn some_word_has_nul(words: Seq<Seq<char>>) -> bool {
    exists|i: int| 0 <= i < words.len() && crate::text::has_char(#[trigger] words[i], '\0')
}

/// Every word is shell-safe.
pub open spec fn all_shell_safe(words: Seq<Seq<char>>) -> bool {
    forall|i: int| 0 <= i < words.len() ==> shell_safe_word(#[trigger] words[i])
}

/// `words` separated by single spaces.
pub open spec fn join_with_spaces(words: Seq<Seq<char>>) -> Seq<char>
    decreases words.len(),
{
    if words.len() == 0 {
        Seq::<char>::empty()
    } else if words.len() == 1 {
        words[0]
    } else {
        join_with_spaces(words.drop_last()) + seq![' '] + words.last()
    }
}

/// The character views of a vector of strings.
pub open spec fn word_views(words: Seq<String>) -> Seq<Seq<char>> {
    words.map_values(|w: String| w@)
}

/// `shlex::try_join` over the words. Claims, as the crate's source shows:
/// the result is a function of the words; it is refused exactly when some
/// word holds a NUL character; words made only of shell-safe characters come
/// out unquoted, separated by single spaces. How other words are quoted is
/// left to the name `shlex_try_join`.
#[verifier::external_body]
fn try_join(words: &Vec<String>) -> (r: Option<String>)
    ensures
        opt_string_view(r) == shlex_try_join(word_views(words@)),
        r is None <==> some_word_has_nul(word_views(words@)),
        all_shell_safe(word_views(words@)) ==> opt_string_view(r) == Some(
            join_with_spaces(word_views(words@)),
        ),
{
    shlex::try_join(words.iter().map(|w| w.as_str())).ok()
}

/// The text that stands for a command that cannot be quoted.
pub open spec fn nul_command_text() -> Seq<char> {
    "<command included NUL byte>"@
}

/// The shell-quoted command line for `tokens`.
pub open spec fn shlex_join_spec(tokens: Seq<Seq<char>>) -> Seq<char> {
    match shlex_try_join(tokens) {
        Some(s) => s,
        None => nul_command_text(),
    }
}

/// Joins `tokens` into one shell command line, quoting where needed; a token
/// holding a NUL character makes the whole line a placeholder text.
pub fn shlex_join(tokens: &Vec<String>) -> (r: String)
    ensures
        r@ == shlex_join_spec(word_views(tokens@)),
        some_word_has_nul(word_views(tokens@)) ==> r@ == nul_command_text(),
        all_shell_safe(word_views(tokens@)) ==> r@ == join_with_spaces(word_views(tokens@)),
{
    match try_join(tokens) {
        Some(s) => s,
        None => String::from_str("<command included NUL byte>"),
    }
}

/// The character view of an optional string slice.
pub open spec fn opt_str_view(o: Option<&str>) -> Option<Seq<char>> {
    match o {
        Some(s) => Some(s@),
        None => None,
    }
}

/// The character view of an optional `String`.
pub open spec fn opt_string_view(o: Option<String>) -> Option<Seq<char>> {
    match o {
        Some(s) => Some(s@),
        None => None,
    }
}

/// The value of an optional thread id.
pub open spec fn opt_id_view(o: Option<ThreadId>) -> Option<u128> {
    match o {
        Some(id) => Some(id@),
        None => None,
    }
}

/// What a resume command names: the thread name when it is non-empty,
/// otherwise the thread id in its textual form.
pub open spec fn resume_target(thread_name: Option<Seq<char>>, thread_id: Option<u128>) -> Option<Seq<char>> {
    match thread_name {
        Some(name) if name.len() > 0 => Some(name),
        _ => match thread_id {
            Some(id) => Some(uuid_hyphenated(id)),
            None => None,
        },
    }
}

/// `kimcli resume `, with `--` for a target that starts with '-' so that it
/// is not read as an option.
pub open spec fn resume_command_prefix(target: Seq<char>) -> Seq<char> {
    if target.len() > 0 && target[0] == '-' {
        "kimcli resume -- "@
    } else {
        "kimcli resume "@
    }
}

/// `kimcli resume <escaped target>`.
pub open spec fn resume_command_text(target: Seq<char>) -> Seq<char> {
    resume_command_prefix(target) + shlex_join_spec(seq![target])
}

/// The resume command for a thread, if it has a name or an id.
pub open spec fn resume_command_spec(thread_name: Option<Seq<char>>, thread_id: Option<u128>) -> Option<Seq<char>> {
    match resume_target(thread_name, thread_id) {
        Some(target) => Some(resume_command_text(target)),
        None => None,
    }
}

/// The resume hint for a thread: a thread with a non-empty name is pointed to
/// in the session picker by name and id; a thread without one gets the direct
/// command by id; a thread without an id gets no hint.
pub open spec fn resume_hint_spec(thread_name: Option<Seq<char>>, thread_id: Option<u128>) -> Option<Seq<char>> {
    match thread_id {
        None => None,
        Some(id) => match thread_name {
            Some(name) if name.len() > 0 => Some(
                "kimcli resume, then select "@ + name + " ("@ + uuid_hyphenated(id) + ")"@,
            ),
            _ => resume_command_spec(None, Some(id)),
        },
    }
}

/// The command that resumes a thread: `kimcli resume <name>` when the thread
/// has a non-empty name, else `kimcli resume <id>`; `None` when it has neither.
pub fn resume_command(thread_name: Option<&str>, thread_id: Option<ThreadId>) -> (r: Option<String>)
    ensures
        opt_string_view(r) == resume_command_spec(opt_str_view(thread_name), opt_id_view(thread_id)),
        resume_target(opt_str_view(thread_name), opt_id_view(thread_id)) matches Some(t) ==> (
        shell_safe_word(t) ==> opt_string_view(r) == Some(resume_command_prefix(t) + t)),
        resume_target(opt_str_view(thread_name), opt_id_view(thread_id)) matches Some(t) ==> (
        crate::text::has_char(t, '\0') ==> opt_string_view(r) == Some(
            resume_command_prefix(t) + nul_command_text(),
        )),
{
    let target: String = match thread_name {
        Some(name) if !name.is_empty() => name.to_owned(),
        _ => match thread_id {
            Some(id) => id.to_string(),
            None => {
                return None;
            },
        },
    };
    let target_chars = crate::text::chars_of(target.as_str());
    let needs_double_dash = target_chars.len() > 0 && target_chars[0] == '-';
    let mut tokens: Vec<String> = Vec::new();
    tokens.push(target.clone());
    let escaped = shlex_join(&tokens);
    proof {
        assert(word_views(tokens@) =~= seq![target@]);
        if shell_safe_word(target@) {
            assert(all_shell_safe(seq![target@]));
        }
        if crate::text::has_char(target@, '\0') {
            assert(seq![target@][0] == target@);
            assert(some_word_has_nul(seq![target@]));
        }
    }
    let mut command = if needs_double_dash {
        String::from_str("kimcli resume -- ")
    } else {
        String::from_str("kimcli resume ")
    };
    command.append(escaped.as_str());
    Some(command)
}

/// The hint that tells the user how to come back to a thread.
pub fn resume_hint(thread_name: Option<&str>, thread_id: Option<ThreadId>) -> (r: Option<String>)
    ensures
        opt_string_view(r) == resume_hint_spec(opt_str_view(thread_name), opt_id_view(thread_id)),
{
    let thread_id = match thread_id {
        Some(id) => id,
        None => {
            return None;
        },
    };
    match thread_name {
        Some(name) if !name.is_empty() => {
            let mut hint = String::from_str("kimcli resume, then select ");
            hint.append(name);
            hint.append(" (");
            let id_text = thread_id.to_string();
            hint.append(id_text.as_str());
            hint.append(")");
            Some(hint)
        },
        _ => resume_command(None, Some(thread_id)),
    }
}

/// A thread with no name (or an empty one) is hinted with the direct resume
/// command by id.
pub proof fn law_hint_without_name_is_the_command(thread_name: Option<Seq<char>>, thread_id: u128)
    requires
        thread_name matches Some(name) ==> name.len() == 0,
    ensures
        resume_hint_spec(thread_name, Some(thread_id)) == resume_command_spec(None, Some(thread_id)),
{
}

/// A thread without an id gets no hint, named or not.
pub proof fn law_no_hint_without_thread_id(thread_name: Option<Seq<char>>)
    ensures
        resume_hint_spec(thread_name, None) is None,
{
}

/// A non-empty thread name decides the resume command, whatever the id.
pub proof fn law_name_decides_the_command(name: Seq<char>, a: Option<u128>, b: Option<u128>)
    requires
        name.len() > 0,
    ensures
        resume_command_spec(Some(name), a) == resume_command_spec(Some(name), b),
{
}

/// There is a resume command exactly when the thread has a non-empty name or an id.
pub proof fn law_command_exists_iff_target(thread_name: Option<Seq<char>>, thread_id: Option<u128>)
    ensures
        resume_command_spec(thread_name, thread_id) is Some <==> ((thread_name matches Some(name) && name.len()
            > 0) || thread_id is Some),
{
}

/// A hint for a named thread points to the picker entry, never to the id command.
pub proof fn law_named_hint_mentions_name_and_id(name: Seq<char>, thread_id: u128)
    requires
        name.len() > 0,
    ensures
        resume_hint_spec(Some(name), Some(thread_id)) == Some(
            "kimcli resume, then select "@ + name + " ("@ + uuid_hyphenated(thread_id) + ")"@,
        ),
{
}

} // verus!
