//! File-system paths as the library handles them: '/'-separated strings.
//!
//! The spec functions state what `Path::join` and `Path::file_name` of std
//! compute on such paths; the caller converts `Path`s to strings and back.
use vstd::prelude::*;
use crate::text::{chars_of, chars_eq, push_char, split_chars, split_spec, string_from_chars, has_char,
    lemma_split_last_piece, lemma_split_without_separator};

verus! {

broadcast use vstd::string::group_string_axioms;

/// `base.join(rel)`: `rel` when it is absolute, otherwise `rel` appended to
/// `base` with one '/' between them unless `base` is empty or already ends in '/'.
pub open spec fn join_spec(base: Seq<char>, rel: Seq<char>) -> Seq<char> {
    if rel.len() > 0 && rel[0] == '/' {
        rel
    } else if base.len() == 0 || base.last() == '/' {
        base + rel
    } else {
        base + seq!['/'] + rel
    }
}

/// A segment that names something: neither empty (a repeated or trailing
/// separator) nor "." (which path normalisation drops).
pub open spec fn is_named_segment(seg: Seq<char>) -> bool {
    seg.len() > 0 && seg != seq!['.']
}

/// The last named segment of `segs`, if any.
pub open spec fn last_named_segment(segs: Seq<Seq<char>>) -> Option<Seq<char>>
    decreases segs.len(),
{
    if segs.len() == 0 {
        None
    } else if is_named_segment(segs.last()) {
        Some(segs.last())
    } else {
        last_named_segment(segs.drop_last())
    }
}

/// `Path::file_name`: the final component of the path when it is a normal
/// one; `None` for an empty path, the root, "." and paths ending in "..".
pub open spec fn file_name_spec(path: Seq<char>) -> Option<Seq<char>> {
    match last_named_segment(split_spec(path, '/')) {
        Some(seg) => if seg == seq!['.', '.'] {
            None
        } else {
            Some(seg)
        },
        None => None,
    }
}

/// `base.join(rel)` for '/'-separated paths.
pub fn join(base: &str, rel: &str) -> (r: String)
    ensures
        r@ == join_spec(base@, rel@),
{
    let rel_chars = chars_of(rel);
    if rel_chars.len() > 0 && rel_chars[0] == '/' {
        return rel.to_owned();
    }
    let base_chars = chars_of(base);
    let mut r = base.to_owned();
    if base_chars.len() > 0 && base_chars[base_chars.len() - 1] != '/' {
        push_char(&mut r, '/');
    }
    r.append(rel);
    r
}

/// The final normal component of `path` (`Path::file_name`).
pub fn file_name(path: &str) -> (r: Option<String>)
    ensures
        match r {
            Some(name) => file_name_spec(path@) == Some(name@),
            None => file_name_spec(path@) is None,
        },
{
    let chars = chars_of(path);
    let pieces = split_chars(&chars, '/');
    let ghost segs = split_spec(path@, '/');
    let dot: Vec<char> = vec!['.'];
    let dotdot: Vec<char> = vec!['.', '.'];
    let mut j = pieces.len();
    assert(segs.take(segs.len() as int) =~= segs);
    while j > 0
        invariant
            j <= pieces@.len(),
            segs == split_spec(path@, '/'),
            pieces@.len() == segs.len(),
            forall|i: int| 0 <= i < pieces@.len() ==> #[trigger] pieces@[i]@ == segs[i],
            last_named_segment(segs) == last_named_segment(segs.take(j as int)),
            dot@ == seq!['.'],
            dotdot@ == seq!['.', '.'],
        decreases j,
    {
        let piece = &pieces[j - 1];
        assert(piece@ == segs[j - 1]);
        assert(segs.take(j as int).last() == segs[j - 1]);
        assert(segs.take(j as int).drop_last() =~= segs.take(j - 1));
        if piece.len() > 0 && !chars_eq(piece, &dot) {
            assert(is_named_segment(segs[j - 1]));
            assert(last_named_segment(segs) == Some(segs[j - 1]));
            if chars_eq(piece, &dotdot) {
                return None;
            }
            return Some(string_from_chars(piece));
        }
        j = j - 1;
    }
    None
}

/// `Path::is_absolute` for '/'-separated paths: the path starts at the root.
pub open spec fn is_absolute_spec(path: Seq<char>) -> bool {
    path.len() > 0 && path[0] == '/'
}

/// A relative path whose first component is `.` (`Component::CurDir`).
pub open spec fn starts_with_cur_dir(path: Seq<char>) -> bool {
    !is_absolute_spec(path) && split_spec(path, '/')[0] == seq!['.']
}

/// The named segments of `segs`, in order: what remains once empty and "."
/// segments are dropped.
pub open spec fn named_segments(segs: Seq<Seq<char>>) -> Seq<Seq<char>>
    decreases segs.len(),
{
    if segs.len() == 0 {
        Seq::<Seq<char>>::empty()
    } else {
        let rest = named_segments(segs.drop_last());
        if is_named_segment(segs.last()) {
            rest.push(segs.last())
        } else {
            rest
        }
    }
}

/// `a == b` on `Path`s: the two have the same components — root, a leading
/// `.` and the named segments — so repeated separators, a trailing separator
/// and "." segments past the first make no difference.
pub open spec fn same_path_spec(a: Seq<char>, b: Seq<char>) -> bool {
    &&& is_absolute_spec(a) == is_absolute_spec(b)
    &&& starts_with_cur_dir(a) == starts_with_cur_dir(b)
    &&& named_segments(split_spec(a, '/')) == named_segments(split_spec(b, '/'))
}

/// Whether `path` is absolute (`Path::is_absolute`).
pub fn is_absolute(path: &Vec<char>) -> (r: bool)
    ensures
        r == is_absolute_spec(path@),
{
    path.len() > 0 && path[0] == '/'
}

/// Whether `path` begins with a `.` component.
pub fn has_leading_cur_dir(path: &Vec<char>) -> (r: bool)
    ensures
        r == starts_with_cur_dir(path@),
{
    if is_absolute(path) {
        return false;
    }
    let pieces = split_chars(path, '/');
    proof {
        crate::text::lemma_split_spec_nonempty(path@, '/');
    }
    let dot: Vec<char> = vec!['.'];
    assert(pieces@[0]@ == split_spec(path@, '/')[0]);
    assert(dot@ =~= seq!['.']);
    chars_eq(&pieces[0], &dot)
}

/// The named segments of `path`.
pub fn named_segments_of(path: &Vec<char>) -> (r: Vec<Vec<char>>)
    ensures
        r@.len() == named_segments(split_spec(path@, '/')).len(),
        forall|i: int| 0 <= i < r@.len() ==> #[trigger] r@[i]@ == named_segments(split_spec(path@, '/'))[i],
{
    let pieces = split_chars(path, '/');
    let ghost segs = split_spec(path@, '/');
    let dot: Vec<char> = vec!['.'];
    let mut r: Vec<Vec<char>> = Vec::new();
    let mut i: usize = 0;
    while i < pieces.len()
        invariant
            i <= pieces@.len(),
            pieces@.len() == segs.len(),
            forall|k: int| 0 <= k < pieces@.len() ==> #[trigger] pieces@[k]@ == segs[k],
            r@.len() == named_segments(segs.take(i as int)).len(),
            forall|k: int| 0 <= k < r@.len() ==> #[trigger] r@[k]@ == named_segments(segs.take(i as int))[k],
            dot@ == seq!['.'],
        decreases pieces@.len() - i,
    {
        assert(segs.take(i + 1).drop_last() =~= segs.take(i as int));
        assert(segs.take(i + 1).last() == segs[i as int]);
        let piece = &pieces[i];
        assert(piece@ == segs[i as int]);
        if piece.len() > 0 && !chars_eq(piece, &dot) {
            r.push(piece.clone());
        }
        i = i + 1;
    }
    assert(segs.take(segs.len() as int) =~= segs);
    r
}

/// Whether two paths name the same path (`==` on `Path`).
pub fn same_path(a: &str, b: &str) -> (r: bool)
    ensures
        r == same_path_spec(a@, b@),
{
    let a_chars = chars_of(a);
    let b_chars = chars_of(b);
    if is_absolute(&a_chars) != is_absolute(&b_chars) {
        return false;
    }
    if has_leading_cur_dir(&a_chars) != has_leading_cur_dir(&b_chars) {
        return false;
    }
    let a_named = named_segments_of(&a_chars);
    let b_named = named_segments_of(&b_chars);
    let ghost sa = named_segments(split_spec(a@, '/'));
    let ghost sb = named_segments(split_spec(b@, '/'));
    if a_named.len() != b_named.len() {
        return false;
    }
    let mut i: usize = 0;
    while i < a_named.len()
        invariant
            i <= a_named@.len(),
            a_named@.len() == b_named@.len(),
            a_named@.len() == sa.len(),
            b_named@.len() == sb.len(),
            forall|k: int| 0 <= k < a_named@.len() ==> #[trigger] a_named@[k]@ == sa[k],
            forall|k: int| 0 <= k < b_named@.len() ==> #[trigger] b_named@[k]@ == sb[k],
            forall|k: int| 0 <= k < i ==> sa[k] == sb[k],
            sa == named_segments(split_spec(a@, '/')),
            sb == named_segments(split_spec(b@, '/')),
            is_absolute_spec(a@) == is_absolute_spec(b@),
            starts_with_cur_dir(a@) == starts_with_cur_dir(b@),
        decreases a_named@.len() - i,
    {
        assert(a_named@[i as int]@ == sa[i as int]);
        assert(b_named@[i as int]@ == sb[i as int]);
        if !chars_eq(&a_named[i], &b_named[i]) {
            assert(sa[i as int] != sb[i as int]);
            return false;
        }
        i = i + 1;
    }
    assert(sa =~= sb);
    true
}

/// A plain name: one named segment, not "..".
pub open spec fn is_plain_name(name: Seq<char>) -> bool {
    name.len() > 0 && !has_char(name, '/') && name != seq!['.'] && name != seq!['.', '.']
}

/// The file name of `base` joined with a plain name is that name.
pub proof fn law_join_then_file_name(base: Seq<char>, name: Seq<char>)
    requires
        is_plain_name(name),
    ensures
        file_name_spec(join_spec(base, name)) == Some(name),
{
    let joined = join_spec(base, name);
    if base.len() == 0 {
        assert(joined =~= name);
        lemma_split_without_separator(name, '/');
    } else if base.last() == '/' {
        assert(joined =~= base.drop_last() + seq!['/'] + name);
        lemma_split_last_piece(base.drop_last(), '/', name);
    } else {
        lemma_split_last_piece(base, '/', name);
    }
    crate::text::lemma_split_spec_nonempty(joined, '/');
    assert(is_named_segment(name));
}

} // verus!
