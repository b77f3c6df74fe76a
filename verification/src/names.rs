//! Reading names typed on the command line: whitespace trimming, ASCII case
//! folding, comparison with fixed words, prefixes and comma-separated lists.
use crate::text::{chars_of, string_from_chars};
use vstd::prelude::*;

verus! {

/// The characters with the Unicode `White_Space` property.
pub open spec fn is_white_space(c: char) -> bool {
    let u = c as u32;
    (0x09 <= u && u <= 0x0D) || u == 0x20 || u == 0x85 || u == 0xA0 || u == 0x1680 || (0x2000
        <= u && u <= 0x200A) || u == 0x2028 || u == 0x2029 || u == 0x202F || u == 0x205F || u
        == 0x3000
}

/// `char::is_whitespace`.
pub fn is_whitespace(c: char) -> (r: bool)
    ensures
        r == is_white_space(c),
{
    let u = c as u32;
    (0x09 <= u && u <= 0x0D) || u == 0x20 || u == 0x85 || u == 0xA0 || u == 0x1680 || (0x2000
        <= u && u <= 0x200A) || u == 0x2028 || u == 0x2029 || u == 0x202F || u == 0x205F || u
        == 0x3000
}

/// The index of the first character at or after `i` that is not whitespace.
pub open spec fn trim_start_index(s: Seq<char>, i: int) -> int
    decreases s.len() - i,
{
    if 0 <= i < s.len() && is_white_space(s[i]) {
        trim_start_index(s, i + 1)
    } else {
        i
    }
}

/// One past the last character before `j`, and not before `lo`, that is not
/// whitespace.
pub open spec fn trim_end_index(s: Seq<char>, lo: int, j: int) -> int
    decreases j - lo,
{
    if lo < j && j <= s.len() && is_white_space(s[j - 1]) {
        trim_end_index(s, lo, j - 1)
    } else {
        j
    }
}

/// `s` without its leading and trailing whitespace, as `str::trim` gives it.
pub open spec fn trimmed(s: Seq<char>) -> Seq<char> {
    let i = trim_start_index(s, 0);
    s.subrange(i, trim_end_index(s, i, s.len() as int))
}

/// ASCII letters `A`..`Z` turned into `a`..`z`; every other character kept.
pub open spec fn ascii_lower(c: char) -> char {
    if 'A' <= c && c <= 'Z' {
        ((c as int) + 32) as char
    } else {
        c
    }
}

/// A string with its ASCII upper-case letters turned into lower case.
pub open spec fn ascii_lowercase(s: Seq<char>) -> Seq<char> {
    Seq::new(s.len(), |i: int| ascii_lower(s[i]))
}

/// The form in which a module name is looked up: trimmed and lower-cased.
pub open spec fn normalized(s: Seq<char>) -> Seq<char> {
    ascii_lowercase(trimmed(s))
}

/// `char::to_ascii_lowercase`.
pub fn to_ascii_lower(c: char) -> (r: char)
    ensures
        r == ascii_lower(c),
{
    if 'A' <= c && c <= 'Z' {
        ((c as u8) + 32) as char
    } else {
        c
    }
}

/// `str::to_ascii_lowercase`, on characters.
pub fn lowercase_chars(v: &Vec<char>) -> (r: Vec<char>)
    ensures
        r@ == ascii_lowercase(v@),
{
    let mut out: Vec<char> = Vec::new();
    let mut k: usize = 0;
    while k < v.len()
        invariant
            k <= v@.len(),
            out@ == ascii_lowercase(v@.subrange(0, k as int)),
        decreases v.len() - k,
    {
        out.push(to_ascii_lower(v[k]));
        k = k + 1;
        proof {
            assert(out@ =~= ascii_lowercase(v@.subrange(0, k as int)));
        }
    }
    proof {
        assert(v@.subrange(0, v@.len() as int) =~= v@);
    }
    out
}

/// `str::trim`, on characters.
pub fn trim_chars(v: &Vec<char>) -> (r: Vec<char>)
    ensures
        r@ == trimmed(v@),
{
    let n = v.len();
    let mut i: usize = 0;
    while i < n && is_whitespace(v[i])
        invariant
            n == v@.len(),
            0 <= i <= n,
            trim_start_index(v@, i as int) == trim_start_index(v@, 0),
        decreases n - i,
    {
        i = i + 1;
    }
    let mut j: usize = n;
    while j > i && is_whitespace(v[j - 1])
        invariant
            n == v@.len(),
            i <= j <= n,
            trim_end_index(v@, i as int, j as int) == trim_end_index(v@, i as int, n as int),
        decreases j,
    {
        j = j - 1;
    }
    let mut out: Vec<char> = Vec::new();
    let mut k: usize = i;
    while k < j
        invariant
            i <= k <= j <= n,
            n == v@.len(),
            out@ == v@.subrange(i as int, k as int),
        decreases j - k,
    {
        out.push(v[k]);
        k = k + 1;
        proof {
            assert(out@ =~= v@.subrange(i as int, k as int));
        }
    }
    out
}

/// `str::trim` followed by `str::to_ascii_lowercase`, on characters.
pub fn normalize_chars(v: &Vec<char>) -> (r: Vec<char>)
    ensures
        r@ == normalized(v@),
{
    let t = trim_chars(v);
    lowercase_chars(&t)
}

/// `str::trim` followed by `str::to_ascii_lowercase`.
pub fn normalize(s: &str) -> (r: Vec<char>)
    ensures
        r@ == normalized(s@),
{
    let v = chars_of(s);
    normalize_chars(&v)
}

/// Whether the string is empty once trimmed (`s.trim().is_empty()`).
pub fn is_blank(s: &str) -> (r: bool)
    ensures
        r == (trimmed(s@).len() == 0),
{
    let v = normalize(s);
    v.len() == 0
}

/// Whether the characters `v` spell out `word`.
pub fn chars_equal(v: &Vec<char>, word: &str) -> (r: bool)
    ensures
        r == (v@ == word@),
{
    let n = word.unicode_len();
    if v.len() != n {
        return false;
    }
    let mut i: usize = 0;
    while i < n
        invariant
            n == word@.len(),
            n == v@.len(),
            i <= n,
            forall|k: int| 0 <= k < i ==> v@[k] == word@[k],
        decreases n - i,
    {
        if v[i] != word.get_char(i) {
            return false;
        }
        i = i + 1;
    }
    proof {
        assert(v@ =~= word@);
    }
    true
}

/// Whether two strings are the same.
pub fn str_equal(a: &str, b: &str) -> (r: bool)
    ensures
        r == (a@ == b@),
{
    let v = chars_of(a);
    chars_equal(&v, b)
}

/// Whether `s` starts with the character `c`.
pub fn starts_with_char(s: &str, c: char) -> (r: bool)
    ensures
        r == (s@.len() > 0 && s@[0] == c),
{
    s.unicode_len() > 0 && s.get_char(0) == c
}

/// What follows `prefix` in `s`, if `s` starts with it (`str::strip_prefix`).
pub open spec fn after_prefix(s: Seq<char>, prefix: Seq<char>) -> Option<Seq<char>> {
    if prefix.len() <= s.len() && s.subrange(0, prefix.len() as int) == prefix {
        Some(s.subrange(prefix.len() as int, s.len() as int))
    } else {
        None
    }
}

pub fn strip_prefix(s: &str, prefix: &str) -> (r: Option<String>)
    ensures
        match r {
            Some(rest) => after_prefix(s@, prefix@) == Some(rest@),
            None => after_prefix(s@, prefix@) is None,
        },
{
    let v = chars_of(s);
    let m = prefix.unicode_len();
    if m > v.len() {
        return None;
    }
    let mut i: usize = 0;
    while i < m
        invariant
            m == prefix@.len(),
            m <= v@.len(),
            v@ == s@,
            i <= m,
            forall|k: int| 0 <= k < i ==> v@[k] == prefix@[k],
        decreases m - i,
    {
        if v[i] != prefix.get_char(i) {
            proof {
                assert(s@.subrange(0, m as int)[i as int] != prefix@[i as int]);
            }
            return None;
        }
        i = i + 1;
    }
    proof {
        assert(s@.subrange(0, m as int) =~= prefix@);
    }
    let mut rest: Vec<char> = Vec::new();
    let mut k: usize = m;
    while k < v.len()
        invariant
            m <= k <= v@.len(),
            rest@ == v@.subrange(m as int, k as int),
        decreases v.len() - k,
    {
        rest.push(v[k]);
        k = k + 1;
        proof {
            assert(rest@ =~= v@.subrange(m as int, k as int));
        }
    }
    Some(string_from_chars(&rest))
}

/// The pieces of `s` between the separator `sep`, as `str::split` yields
/// them (an empty string gives one empty piece).
pub open spec fn split_on(s: Seq<char>, sep: char) -> Seq<Seq<char>>
    decreases s.len(),
{
    if s.len() == 0 {
        seq![Seq::empty()]
    } else {
        let init = split_on(s.drop_last(), sep);
        if s.last() == sep {
            init.push(Seq::empty())
        } else {
            init.update(init.len() - 1, init.last().push(s.last()))
        }
    }
}

pub proof fn lemma_split_on_nonempty(s: Seq<char>, sep: char)
    ensures
        split_on(s, sep).len() >= 1,
    decreases s.len(),
{
    if s.len() > 0 {
        lemma_split_on_nonempty(s.drop_last(), sep);
    }
}

/// Splits `s` at every `sep`.
pub fn split(s: &str, sep: char) -> (r: Vec<String>)
    ensures
        r@.map_values(|p: String| p@) == split_on(s@, sep),
{
    let v = chars_of(s);
    let n = v.len();
    let mut pieces: Vec<String> = Vec::new();
    let mut current: Vec<char> = Vec::new();
    let mut i: usize = 0;
    while i < n
        invariant
            i <= n,
            n == v@.len(),
            v@ == s@,
            split_on(v@.subrange(0, i as int), sep) == pieces@.map_values(|p: String| p@).push(
                current@,
            ),
        decreases n - i,
    {
        let c = v[i];
        proof {
            assert(v@.subrange(0, i + 1).drop_last() =~= v@.subrange(0, i as int));
            assert(v@.subrange(0, i + 1).last() == c);
        }
        if c == sep {
            let piece = string_from_chars(&current);
            pieces.push(piece);
            current = Vec::new();
        } else {
            current.push(c);
        }
        i = i + 1;
        proof {
            assert(split_on(v@.subrange(0, i as int), sep) =~= pieces@.map_values(
                |p: String| p@,
            ).push(current@));
        }
    }
    let last = string_from_chars(&current);
    pieces.push(last);
    proof {
        assert(v@.subrange(0, n as int) =~= v@);
        assert(pieces@.map_values(|p: String| p@) =~= split_on(s@, sep));
    }
    pieces
}


/// A name written in lower case with no whitespace at either end reads as
/// itself.
pub proof fn lemma_normalized_plain(s: Seq<char>)
    requires
        s.len() > 0 ==> !is_white_space(s[0]) && !is_white_space(s[s.len() - 1]),
        forall|i: int| 0 <= i < s.len() ==> !('A' <= #[trigger] s[i] && s[i] <= 'Z'),
    ensures
        normalized(s) == s,
{
    assert(trim_start_index(s, 0) == 0);
    assert(trim_end_index(s, 0, s.len() as int) == s.len());
    assert(trimmed(s) =~= s);
    assert(ascii_lowercase(s) =~= s);
}


/// A string without the separator is one piece.
pub proof fn lemma_split_on_no_separator(s: Seq<char>, sep: char)
    requires
        forall|i: int| 0 <= i < s.len() ==> #[trigger] s[i] != sep,
    ensures
        split_on(s, sep) == seq![s],
    decreases s.len(),
{
    if s.len() > 0 {
        assert forall|i: int| 0 <= i < s.drop_last().len() implies #[trigger] s.drop_last()[i]
            != sep by {
            assert(s.drop_last()[i] == s[i]);
        }
        lemma_split_on_no_separator(s.drop_last(), sep);
        assert(s.drop_last().push(s.last()) =~= s);
        assert(seq![s.drop_last()].update(0, s.drop_last().push(s.last())) =~= seq![s]);
    } else {
        assert(s =~= Seq::<char>::empty());
    }
}


proof fn lemma_trim_start(s: Seq<char>, i: int)
    requires
        0 <= i <= s.len(),
    ensures
        i <= trim_start_index(s, i) <= s.len(),
        trim_start_index(s, i) == s.len() || !is_white_space(s[trim_start_index(s, i)]),
    decreases s.len() - i,
{
    if i < s.len() && is_white_space(s[i]) {
        lemma_trim_start(s, i + 1);
    }
}

proof fn lemma_trim_end(s: Seq<char>, lo: int, j: int)
    requires
        0 <= lo <= j <= s.len(),
    ensures
        lo <= trim_end_index(s, lo, j) <= j,
        trim_end_index(s, lo, j) == lo || !is_white_space(s[trim_end_index(s, lo, j) - 1]),
    decreases j - lo,
{
    if lo < j && is_white_space(s[j - 1]) {
        lemma_trim_end(s, lo, j - 1);
    }
}

proof fn lemma_lower_keeps_whitespace(c: char)
    ensures
        is_white_space(ascii_lower(c)) == is_white_space(c),
        !('A' <= ascii_lower(c) && ascii_lower(c) <= 'Z'),
{
    if 'A' <= c && c <= 'Z' {
        assert(65 <= (c as int) <= 90);
        assert(97 <= (ascii_lower(c) as int) <= 122);
    }
}

/// Trimming and lower-casing a second time changes nothing.
pub proof fn lemma_normalized_idempotent(s: Seq<char>)
    ensures
        normalized(normalized(s)) == normalized(s),
{
    let i = trim_start_index(s, 0);
    lemma_trim_start(s, 0);
    lemma_trim_end(s, i, s.len() as int);
    let t = trimmed(s);
    let n = normalized(s);
    assert(n.len() == t.len());
    if n.len() > 0 {
        lemma_lower_keeps_whitespace(t[0]);
        lemma_lower_keeps_whitespace(t[t.len() - 1]);
        assert(n[0] == ascii_lower(t[0]));
        assert(n[n.len() - 1] == ascii_lower(t[t.len() - 1]));
    }
    assert forall|k: int| 0 <= k < n.len() implies !('A' <= #[trigger] n[k] && n[k] <= 'Z') by {
        lemma_lower_keeps_whitespace(t[k]);
    }
    lemma_normalized_plain(n);
}

} // verus!
