//! Character-level string helpers shared by the rest of the library.
//!
//! Strings are handled as sequences of `char`s; the spec functions here state
//! what the corresponding `str` methods of std compute.
use vstd::prelude::*;

verus! {

broadcast use vstd::string::group_string_axioms;

/// Appends one character to a `String` (std's `String::push`).
#[verifier::external_body]
pub(crate) fn push_char(s: &mut String, c: char)
    ensures
        final(s)@ == old(s)@.push(c),
{
    s.push(c)
}

/// `char::is_whitespace`: the characters with the Unicode `White_Space` property.
pub open spec fn is_unicode_whitespace(c: char) -> bool {
    ||| ('\u{9}' <= c && c <= '\u{d}')
    ||| c == ' '
    ||| c == '\u{85}'
    ||| c == '\u{a0}'
    ||| c == '\u{1680}'
    ||| ('\u{2000}' <= c && c <= '\u{200a}')
    ||| c == '\u{2028}'
    ||| c == '\u{2029}'
    ||| c == '\u{202f}'
    ||| c == '\u{205f}'
    ||| c == '\u{3000}'
}

/// `s` without its leading whitespace (`str::trim_start`).
pub open spec fn trim_start_spec(s: Seq<char>) -> Seq<char>
    decreases s.len(),
{
    if s.len() > 0 && is_unicode_whitespace(s[0]) {
        trim_start_spec(s.drop_first())
    } else {
        s
    }
}

/// `s` without its trailing whitespace (`str::trim_end`).
pub open spec fn trim_end_spec(s: Seq<char>) -> Seq<char>
    decreases s.len(),
{
    if s.len() > 0 && is_unicode_whitespace(s.last()) {
        trim_end_spec(s.drop_last())
    } else {
        s
    }
}

/// `s` without leading and trailing whitespace (`str::trim`).
pub open spec fn trim_spec(s: Seq<char>) -> Seq<char> {
    trim_end_spec(trim_start_spec(s))
}

/// `s` begins with `prefix` (`str::starts_with`).
pub open spec fn starts_with_spec(s: Seq<char>, prefix: Seq<char>) -> bool {
    prefix.len() <= s.len() && s.subrange(0, prefix.len() as int) == prefix
}

/// `s` split at every occurrence of `sep` (`str::split` with a `char`
/// pattern): always one more piece than there are separators.
pub open spec fn split_spec(s: Seq<char>, sep: char) -> Seq<Seq<char>>
    decreases s.len(),
{
    if s.len() == 0 {
        seq![Seq::<char>::empty()]
    } else {
        let rest = split_spec(s.drop_last(), sep);
        if s.last() == sep {
            rest.push(Seq::<char>::empty())
        } else {
            rest.update(rest.len() - 1, rest.last().push(s.last()))
        }
    }
}

/// `s` contains the character `c`.
pub open spec fn has_char(s: Seq<char>, c: char) -> bool {
    exists|i: int| 0 <= i < s.len() && s[i] == c
}

pub proof fn lemma_split_spec_nonempty(s: Seq<char>, sep: char)
    ensures
        split_spec(s, sep).len() >= 1,
    decreases s.len(),
{
    if s.len() > 0 {
        lemma_split_spec_nonempty(s.drop_last(), sep);
    }
}

/// The characters of `s`, in order.
pub fn chars_of(s: &str) -> (v: Vec<char>)
    ensures
        v@ == s@,
{
    let mut v: Vec<char> = Vec::new();
    for c in it: s.chars()
        invariant
            it.seq() == s@,
            v@ == it.seq().take(it.index() as int),
    {
        v.push(c);
    }
    v
}

/// A `String` holding the characters `v[from..to]`.
pub fn string_from_range(v: &Vec<char>, from: usize, to: usize) -> (s: String)
    requires
        from <= to <= v.len(),
    ensures
        s@ == v@.subrange(from as int, to as int),
{
    let mut s = String::new();
    let mut i = from;
    while i < to
        invariant
            from <= i <= to <= v.len(),
            s@ == v@.subrange(from as int, i as int),
        decreases to - i,
    {
        push_char(&mut s, v[i]);
        assert(v@.subrange(from as int, i + 1) == v@.subrange(from as int, i as int).push(v@[i as int]));
        i = i + 1;
    }
    s
}

/// A `String` holding the characters of `v`.
pub fn string_from_chars(v: &Vec<char>) -> (s: String)
    ensures
        s@ == v@,
{
    let s = string_from_range(v, 0, v.len());
    assert(v@.subrange(0, v@.len() as int) == v@);
    s
}

/// Appends the characters of `v` to `s`.
pub fn push_chars(s: &mut String, v: &Vec<char>)
    ensures
        final(s)@ == old(s)@ + v@,
{
    let ghost start = s@;
    let mut i: usize = 0;
    while i < v.len()
        invariant
            i <= v.len(),
            s@ == start + v@.subrange(0, i as int),
        decreases v.len() - i,
    {
        push_char(s, v[i]);
        assert(v@.subrange(0, i + 1) == v@.subrange(0, i as int).push(v@[i as int]));
        i = i + 1;
    }
    assert(v@.subrange(0, v@.len() as int) == v@);
}

/// Whether `a` and `b` hold the same characters.
pub fn chars_eq(a: &Vec<char>, b: &Vec<char>) -> (r: bool)
    ensures
        r == (a@ == b@),
{
    if a.len() != b.len() {
        return false;
    }
    let mut i: usize = 0;
    while i < a.len()
        invariant
            a.len() == b.len(),
            i <= a.len(),
            forall|k: int| 0 <= k < i ==> a@[k] == b@[k],
        decreases a.len() - i,
    {
        if a[i] != b[i] {
            return false;
        }
        i = i + 1;
    }
    assert(a@ =~= b@);
    true
}

/// Whether `s` begins with the characters of `prefix`.
pub fn starts_with(s: &Vec<char>, prefix: &Vec<char>) -> (r: bool)
    ensures
        r == starts_with_spec(s@, prefix@),
{
    if prefix.len() > s.len() {
        return false;
    }
    let mut i: usize = 0;
    while i < prefix.len()
        invariant
            prefix.len() <= s.len(),
            i <= prefix.len(),
            forall|k: int| 0 <= k < i ==> s@[k] == prefix@[k],
        decreases prefix.len() - i,
    {
        if s[i] != prefix[i] {
            assert(s@.subrange(0, prefix@.len() as int)[i as int] != prefix@[i as int]);
            return false;
        }
        i = i + 1;
    }
    assert(s@.subrange(0, prefix@.len() as int) =~= prefix@);
    true
}

/// Whether `s` contains the character `c`.
pub fn contains_char(s: &Vec<char>, c: char) -> (r: bool)
    ensures
        r == has_char(s@, c),
{
    let mut i: usize = 0;
    while i < s.len()
        invariant
            i <= s.len(),
            forall|k: int| 0 <= k < i ==> s@[k] != c,
        decreases s.len() - i,
    {
        if s[i] == c {
            return true;
        }
        i = i + 1;
    }
    false
}

/// Whether `c` is Unicode whitespace (`char::is_whitespace`).
pub fn is_whitespace(c: char) -> (r: bool)
    ensures
        r == is_unicode_whitespace(c),
{
    ('\u{9}' <= c && c <= '\u{d}') || c == ' ' || c == '\u{85}' || c == '\u{a0}' || c
        == '\u{1680}' || ('\u{2000}' <= c && c <= '\u{200a}') || c == '\u{2028}' || c
        == '\u{2029}' || c == '\u{202f}' || c == '\u{205f}' || c == '\u{3000}'
}

/// The bounds `(start, end)` of `v` with leading and trailing whitespace cut off.
pub fn trim_bounds(v: &Vec<char>) -> (r: (usize, usize))
    ensures
        r.0 <= r.1 <= v.len(),
        v@.subrange(r.0 as int, r.1 as int) == trim_spec(v@),
{
    let mut start: usize = 0;
    assert(v@.subrange(0, v@.len() as int) =~= v@);
    while start < v.len() && is_whitespace(v[start])
        invariant
            start <= v.len(),
            trim_start_spec(v@) == trim_start_spec(v@.subrange(start as int, v@.len() as int)),
        decreases v.len() - start,
    {
        let ghost sub = v@.subrange(start as int, v@.len() as int);
        assert(sub.drop_first() =~= v@.subrange(start + 1, v@.len() as int));
        start = start + 1;
    }
    let ghost head = v@.subrange(start as int, v@.len() as int);
    assert(trim_start_spec(head) == head);
    let mut end: usize = v.len();
    while end > start && is_whitespace(v[end - 1])
        invariant
            start <= end <= v.len(),
            head == v@.subrange(start as int, v@.len() as int),
            trim_end_spec(head) == trim_end_spec(v@.subrange(start as int, end as int)),
        decreases end,
    {
        let ghost sub = v@.subrange(start as int, end as int);
        assert(sub.drop_last() =~= v@.subrange(start as int, end - 1));
        end = end - 1;
    }
    (start, end)
}

/// `s` with leading and trailing whitespace removed (`str::trim`).
pub fn trim(s: &str) -> (r: String)
    ensures
        r@ == trim_spec(s@),
{
    let v = chars_of(s);
    let (start, end) = trim_bounds(&v);
    string_from_range(&v, start, end)
}

/// `s` split at every occurrence of `sep`.
pub fn split_chars(s: &Vec<char>, sep: char) -> (pieces: Vec<Vec<char>>)
    ensures
        pieces@.len() == split_spec(s@, sep).len(),
        forall|i: int| 0 <= i < pieces@.len() ==> #[trigger] pieces@[i]@ == split_spec(s@, sep)[i],
{
    let mut pieces: Vec<Vec<char>> = Vec::new();
    let mut cur: Vec<char> = Vec::new();
    let mut i: usize = 0;
    while i < s.len()
        invariant
            i <= s.len(),
            pieces@.len() + 1 == split_spec(s@.take(i as int), sep).len(),
            forall|k: int| 0 <= k < pieces@.len() ==> #[trigger] pieces@[k]@ == split_spec(s@.take(i as int), sep)[k],
            cur@ == split_spec(s@.take(i as int), sep).last(),
        decreases s.len() - i,
    {
        proof {
            lemma_split_spec_nonempty(s@.take(i as int), sep);
            assert(s@.take(i + 1).drop_last() =~= s@.take(i as int));
        }
        if s[i] == sep {
            let done = cur;
            pieces.push(done);
            cur = Vec::new();
        } else {
            cur.push(s[i]);
        }
        i = i + 1;
    }
    proof {
        lemma_split_spec_nonempty(s@.take(i as int), sep);
        assert(s@.take(s@.len() as int) =~= s@);
    }
    pieces.push(cur);
    pieces
}

/// `k` is the position of the first `c` in `s`.
pub open spec fn is_first_index_of(s: Seq<char>, c: char, k: int) -> bool {
    &&& 0 <= k < s.len()
    &&& s[k] == c
    &&& forall|j: int| 0 <= j < k ==> s[j] != c
}

/// `s` cut at its first `c` (`str::split_once` with a `char` pattern): the
/// part before it and the part after it, or `None` when `s` has no `c`.
pub open spec fn split_once_spec(s: Seq<char>, c: char) -> Option<(Seq<char>, Seq<char>)> {
    if has_char(s, c) {
        let k = choose|k: int| is_first_index_of(s, c, k);
        Some((s.take(k), s.skip(k + 1)))
    } else {
        None
    }
}

pub proof fn lemma_first_index_unique(s: Seq<char>, c: char, k1: int, k2: int)
    requires
        is_first_index_of(s, c, k1),
        is_first_index_of(s, c, k2),
    ensures
        k1 == k2,
{
    if k1 < k2 {
        assert(s[k1] != c);
    } else if k2 < k1 {
        assert(s[k2] != c);
    }
}

/// The position of the first `c` in `s`.
pub fn find_char(s: &Vec<char>, c: char) -> (r: Option<usize>)
    ensures
        match r {
            Some(k) => is_first_index_of(s@, c, k as int),
            None => !has_char(s@, c),
        },
{
    let mut i: usize = 0;
    while i < s.len()
        invariant
            i <= s.len(),
            forall|k: int| 0 <= k < i ==> s@[k] != c,
        decreases s.len() - i,
    {
        if s[i] == c {
            return Some(i);
        }
        i = i + 1;
    }
    None
}

/// `s` cut at its first `c` (`str::split_once`).
pub fn split_once(s: &Vec<char>, c: char) -> (r: Option<(Vec<char>, Vec<char>)>)
    ensures
        match r {
            Some((a, b)) => split_once_spec(s@, c) == Some((a@, b@)),
            None => split_once_spec(s@, c) is None,
        },
{
    match find_char(s, c) {
        None => None,
        Some(k) => {
            proof {
                let k2 = choose|k2: int| is_first_index_of(s@, c, k2);
                lemma_first_index_unique(s@, c, k as int, k2);
            }
            let mut before: Vec<char> = Vec::new();
            let mut i: usize = 0;
            while i < k
                invariant
                    i <= k < s.len(),
                    before@ == s@.take(i as int),
                decreases k - i,
            {
                before.push(s[i]);
                assert(s@.take(i + 1) == s@.take(i as int).push(s@[i as int]));
                i = i + 1;
            }
            let mut after: Vec<char> = Vec::new();
            let mut j: usize = k + 1;
            while j < s.len()
                invariant
                    k + 1 <= j <= s.len(),
                    after@ == s@.subrange(k + 1, j as int),
                decreases s.len() - j,
            {
                after.push(s[j]);
                assert(s@.subrange(k + 1, j + 1) == s@.subrange(k + 1, j as int).push(s@[j as int]));
                j = j + 1;
            }
            assert(after@ =~= s@.skip(k + 1));
            Some((before, after))
        },
    }
}

/// Whether two strings hold the same characters.
pub fn str_eq(a: &str, b: &str) -> (r: bool)
    ensures
        r == (a@ == b@),
{
    let a_chars = chars_of(a);
    let b_chars = chars_of(b);
    chars_eq(&a_chars, &b_chars)
}

/// The decimal digit character for `d` in `0..10`.
pub open spec fn digit_char(d: int) -> char {
    (48 + d) as char
}

/// `n` in decimal notation, as `Display` of an integer prints it.
pub open spec fn decimal_spec(n: nat) -> Seq<char>
    decreases n,
{
    if n < 10 {
        seq![digit_char(n as int)]
    } else {
        decimal_spec(n / 10).push(digit_char((n % 10) as int))
    }
}

/// Appends `n` in decimal notation to `s`.
pub fn push_decimal(s: &mut String, n: u64)
    ensures
        final(s)@ == old(s)@ + decimal_spec(n as nat),
    decreases n,
{
    if n >= 10 {
        push_decimal(s, n / 10);
    }
    let d = (n % 10) as u8;
    let c = (48u8 + d) as char;
    push_char(s, c);
    assert(s@ =~= old(s)@ + decimal_spec(n as nat));
}

/// A string with no separator splits into itself alone.
pub proof fn lemma_split_without_separator(s: Seq<char>, sep: char)
    requires
        !has_char(s, sep),
    ensures
        split_spec(s, sep) == seq![s],
    decreases s.len(),
{
    if s.len() == 0 {
        assert(s =~= Seq::<char>::empty());
        assert(split_spec(s, sep) =~= seq![s]);
    } else {
        assert(!has_char(s.drop_last(), sep)) by {
            if has_char(s.drop_last(), sep) {
                let i = choose|i: int| 0 <= i < s.drop_last().len() && s.drop_last()[i] == sep;
                assert(s[i] == sep);
            }
        }
        lemma_split_without_separator(s.drop_last(), sep);
        assert(s.last() != sep);
        let rest = split_spec(s.drop_last(), sep);
        assert(rest.len() == 1 && rest[0] == s.drop_last());
        assert(split_spec(s, sep) == rest.update(0, rest.last().push(s.last())));
        assert(s.drop_last().push(s.last()) =~= s);
        assert(rest.update(0, rest.last().push(s.last())) =~= seq![s]);
    }
}

/// The first piece of `a + [sep] + b` is `a`, when `a` holds no separator.
pub proof fn lemma_split_first_piece(a: Seq<char>, sep: char, b: Seq<char>)
    requires
        !has_char(a, sep),
    ensures
        split_spec(a + seq![sep] + b, sep).len() >= 2,
        split_spec(a + seq![sep] + b, sep)[0] == a,
    decreases b.len(),
{
    let s = a + seq![sep] + b;
    if b.len() == 0 {
        lemma_split_without_separator(a, sep);
        assert(s.drop_last() =~= a);
        assert(s.last() == sep);
    } else {
        lemma_split_first_piece(a, sep, b.drop_last());
        assert(s.drop_last() =~= a + seq![sep] + b.drop_last());
    }
}

/// `trim_start_spec(s)` is what remains of `s` after some leading characters.
pub proof fn lemma_trim_start_is_suffix(s: Seq<char>)
    ensures
        exists|k: int| 0 <= k <= s.len() && trim_start_spec(s) == s.skip(k),
        trim_start_spec(s).len() > 0 ==> !is_unicode_whitespace(trim_start_spec(s)[0]),
    decreases s.len(),
{
    if s.len() > 0 && is_unicode_whitespace(s[0]) {
        lemma_trim_start_is_suffix(s.drop_first());
        let k = choose|k: int| 0 <= k <= s.drop_first().len() && trim_start_spec(s.drop_first()) == s.drop_first().skip(k);
        assert(s.drop_first().skip(k) =~= s.skip(k + 1));
    } else {
        assert(s.skip(0) =~= s);
    }
}

/// `trim_end_spec(s)` is what remains of `s` before some trailing characters.
pub proof fn lemma_trim_end_is_prefix(s: Seq<char>)
    ensures
        exists|k: int| 0 <= k <= s.len() && trim_end_spec(s) == s.take(k),
        trim_end_spec(s).len() > 0 ==> !is_unicode_whitespace(trim_end_spec(s).last()),
    decreases s.len(),
{
    if s.len() > 0 && is_unicode_whitespace(s.last()) {
        lemma_trim_end_is_prefix(s.drop_last());
        let k = choose|k: int| 0 <= k <= s.drop_last().len() && trim_end_spec(s.drop_last()) == s.drop_last().take(k);
        assert(s.drop_last().take(k) =~= s.take(k));
    } else {
        assert(s.take(s.len() as int) =~= s);
    }
}

/// Trimming a string with no whitespace at either end leaves it as it is.
pub proof fn lemma_trim_of_untrimmable(s: Seq<char>)
    requires
        s.len() > 0 ==> !is_unicode_whitespace(s[0]) && !is_unicode_whitespace(s.last()),
    ensures
        trim_spec(s) == s,
{
    assert(trim_start_spec(s) == s);
    assert(trim_end_spec(s) == s);
}

/// Trimming is idempotent.
pub proof fn lemma_trim_idempotent(s: Seq<char>)
    ensures
        trim_spec(trim_spec(s)) == trim_spec(s),
{
    let t = trim_start_spec(s);
    lemma_trim_start_is_suffix(s);
    lemma_trim_end_is_prefix(t);
    let u = trim_end_spec(t);
    let k = choose|k: int| 0 <= k <= t.len() && u == t.take(k);
    if u.len() > 0 {
        assert(u[0] == t[0]);
    }
    lemma_trim_of_untrimmable(u);
}

/// The last piece of `a + [sep] + b` is `b`, when `b` holds no separator.
pub proof fn lemma_split_last_piece(a: Seq<char>, sep: char, b: Seq<char>)
    requires
        !has_char(b, sep),
    ensures
        split_spec(a + seq![sep] + b, sep).last() == b,
    decreases b.len(),
{
    let s = a + seq![sep] + b;
    if b.len() == 0 {
        assert(s.drop_last() =~= a);
        assert(b =~= Seq::<char>::empty());
    } else {
        assert(!has_char(b.drop_last(), sep)) by {
            if has_char(b.drop_last(), sep) {
                let i = choose|i: int| 0 <= i < b.drop_last().len() && b.drop_last()[i] == sep;
                assert(b[i] == sep);
            }
        }
        lemma_split_last_piece(a, sep, b.drop_last());
        assert(s.drop_last() =~= a + seq![sep] + b.drop_last());
        lemma_split_spec_nonempty(s.drop_last(), sep);
        assert(s.last() == b.last());
        assert(b.drop_last().push(b.last()) =~= b);
    }
}

/// A string that holds `c` has a first occurrence of it.
pub proof fn lemma_first_index_exists(s: Seq<char>, c: char)
    requires
        has_char(s, c),
    ensures
        exists|k: int| is_first_index_of(s, c, k),
    decreases s.len(),
{
    if s[0] == c {
        assert(is_first_index_of(s, c, 0));
    } else {
        let i = choose|i: int| 0 <= i < s.len() && s[i] == c;
        assert(s.drop_first()[i - 1] == c);
        lemma_first_index_exists(s.drop_first(), c);
        let k = choose|k: int| is_first_index_of(s.drop_first(), c, k);
        assert forall|j: int| 0 <= j < k + 1 implies s[j] != c by {
            if j > 0 {
                assert(s[j] == s.drop_first()[j - 1]);
            }
        }
        assert(is_first_index_of(s, c, k + 1));
    }
}

} // verus!
