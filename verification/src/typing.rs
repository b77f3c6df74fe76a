//! Comparing a typed line with the line it copies: which letters earn money,
//! which are mistakes, and how the line is marked on screen.
use crate::names::{is_white_space, is_whitespace};
use crate::text::chars_of;
use crate::text_sources::{to_lowercase, unicode_lowercase_text};
use vstd::prelude::*;

verus! {

/// What one position of a typed line is worth.
#[derive(Clone, Copy, Debug, PartialEq, Eq, Structural)]
pub enum LetterScore {
    /// The right letter; `capital` when it earns the capital-letter bonus.
    Correct { capital: bool },
    /// A wrong, missing or extra letter.
    Mistake,
}

pub open spec fn is_ascii_upper(c: char) -> bool {
    'A' <= c && c <= 'Z'
}

/// The score of position `i`, if it has one: mistakes are not scored once
/// the penalty is disabled.
pub open spec fn score_at(
    typed: Seq<char>,
    reference: Seq<char>,
    capital_bonus: bool,
    no_penalty: bool,
    i: int,
) -> Option<LetterScore> {
    if i < typed.len() && i < reference.len() && typed[i] == reference[i] {
        Some(LetterScore::Correct { capital: is_ascii_upper(typed[i]) && capital_bonus })
    } else if no_penalty {
        None
    } else {
        Some(LetterScore::Mistake)
    }
}

/// The scores of the first `n` positions, in order.
pub open spec fn scores_upto(
    typed: Seq<char>,
    reference: Seq<char>,
    capital_bonus: bool,
    no_penalty: bool,
    n: int,
) -> Seq<LetterScore>
    decreases n,
{
    if n <= 0 {
        Seq::empty()
    } else {
        let before = scores_upto(typed, reference, capital_bonus, no_penalty, n - 1);
        match score_at(typed, reference, capital_bonus, no_penalty, n - 1) {
            Some(s) => before.push(s),
            None => before,
        }
    }
}

/// The line that typing is compared with: as written once capital letters
/// count, in lower case before.
pub open spec fn compared_line(reference: Seq<char>, capital_bonus: bool) -> Seq<char> {
    if capital_bonus {
        reference
    } else {
        unicode_lowercase_text(reference)
    }
}

/// The scores of a typed line against its reference, one per position up to
/// the longer of the two.
pub open spec fn line_scores(
    typed: Seq<char>,
    reference: Seq<char>,
    capital_bonus: bool,
    no_penalty: bool,
) -> Seq<LetterScore> {
    let r = compared_line(reference, capital_bonus);
    scores_upto(
        typed,
        r,
        capital_bonus,
        no_penalty,
        if typed.len() >= r.len() {
            typed.len() as int
        } else {
            r.len() as int
        },
    )
}

/// The scores of a typed line against the line it is compared with (already
/// in lower case when capital letters do not count), one per position up to
/// the longer of the two.
pub open spec fn scores_against(
    typed: Seq<char>,
    compared: Seq<char>,
    capital_bonus: bool,
    no_penalty: bool,
) -> Seq<LetterScore> {
    scores_upto(
        typed,
        compared,
        capital_bonus,
        no_penalty,
        if typed.len() >= compared.len() {
            typed.len() as int
        } else {
            compared.len() as int
        },
    )
}

/// Scores a typed line against the line it is compared with.
pub fn score_against(typed: &str, compared: &str, capital_bonus: bool, no_penalty: bool) -> (r: Vec<
    LetterScore,
>)
    ensures
        r@ == scores_against(typed@, compared@, capital_bonus, no_penalty),
{
    let typed_chars = chars_of(typed);
    let ref_chars = chars_of(compared);
    let len = if typed_chars.len() >= ref_chars.len() {
        typed_chars.len()
    } else {
        ref_chars.len()
    };
    let mut scores: Vec<LetterScore> = Vec::new();
    let mut i: usize = 0;
    while i < len
        invariant
            i <= len,
            typed_chars@ == typed@,
            ref_chars@ == compared@,
            scores@ == scores_upto(typed@, ref_chars@, capital_bonus, no_penalty, i as int),
        decreases len - i,
    {
        if i < typed_chars.len() && i < ref_chars.len() && typed_chars[i] == ref_chars[i] {
            let c = typed_chars[i];
            let capital = 'A' <= c && c <= 'Z' && capital_bonus;
            scores.push(LetterScore::Correct { capital });
        } else if !no_penalty {
            scores.push(LetterScore::Mistake);
        }
        i = i + 1;
    }
    scores
}

/// Scores a typed line against its reference (see `line_scores`).
pub fn score_line(typed: &str, reference: &str, capital_bonus: bool, no_penalty: bool) -> (r: Vec<
    LetterScore,
>)
    ensures
        r@ == line_scores(typed@, reference@, capital_bonus, no_penalty),
{
    if capital_bonus {
        score_against(typed, reference, capital_bonus, no_penalty)
    } else {
        let lowered = to_lowercase(reference);
        score_against(typed, lowered.as_str(), capital_bonus, no_penalty)
    }
}

/// How many of the first `n` positions hold the same character in both lines.
pub open spec fn matches_upto(a: Seq<char>, b: Seq<char>, n: int) -> nat
    decreases n,
{
    if n <= 0 {
        0
    } else {
        matches_upto(a, b, n - 1) + if a[n - 1] == b[n - 1] {
            1nat
        } else {
            0nat
        }
    }
}

/// How many positions, up to the shorter line, hold the same character.
pub open spec fn matching_count(a: Seq<char>, b: Seq<char>) -> nat {
    matches_upto(a, b, if a.len() <= b.len() {
        a.len() as int
    } else {
        b.len() as int
    })
}

/// Counts the positions at which the typed line matches the reference.
pub fn matching_chars(typed: &str, reference: &str) -> (r: usize)
    ensures
        r == matching_count(typed@, reference@),
{
    let a = chars_of(typed);
    let b = chars_of(reference);
    let n = if a.len() <= b.len() {
        a.len()
    } else {
        b.len()
    };
    let mut count: usize = 0;
    let mut i: usize = 0;
    while i < n
        invariant
            i <= n,
            n <= a@.len(),
            n <= b@.len(),
            a@ == typed@,
            b@ == reference@,
            count == matches_upto(a@, b@, i as int),
            count <= i,
        decreases n - i,
    {
        if a[i] == b[i] {
            count = count + 1;
        }
        i = i + 1;
    }
    count
}

/// How a character of the line being typed is shown.
#[derive(Clone, Copy, Debug, PartialEq, Eq, Structural)]
pub enum CharMark {
    /// Typed right.
    Correct(char),
    /// Typed wrong: the character typed.
    Wrong(char),
    /// A whitespace character typed in the wrong place.
    WrongSpace(char),
    /// The next character to type.
    Cursor(char),
    /// A character not typed yet.
    Pending(char),
    /// A character typed past the end of the line.
    Extra(char),
    /// A whitespace character typed past the end of the line.
    ExtraSpace(char),
}

/// The mark of position `i` of the reference.
pub open spec fn mark_at(typed: Seq<char>, reference: Seq<char>, i: int) -> CharMark {
    if i < typed.len() {
        if typed[i] == reference[i] {
            CharMark::Correct(typed[i])
        } else if !is_white_space(typed[i]) {
            CharMark::Wrong(typed[i])
        } else {
            CharMark::WrongSpace(typed[i])
        }
    } else if i == typed.len() {
        CharMark::Cursor(reference[i])
    } else {
        CharMark::Pending(reference[i])
    }
}

/// The mark of a character typed past the end of the reference.
pub open spec fn extra_mark(c: char) -> CharMark {
    if is_white_space(c) {
        CharMark::ExtraSpace(c)
    } else {
        CharMark::Extra(c)
    }
}

/// The marks of a line: one per character of the reference, then one per
/// character typed past its end.
pub open spec fn line_marks(typed: Seq<char>, reference: Seq<char>) -> Seq<CharMark> {
    Seq::new(
        if typed.len() > reference.len() {
            typed.len()
        } else {
            reference.len()
        },
        |i: int|
            if i < reference.len() {
                mark_at(typed, reference, i)
            } else {
                extra_mark(typed[i])
            },
    )
}

/// Marks the line being typed. Also returns how many characters are right
/// and how many are checked: the longer line's length, plus once more each
/// character typed past the end of the reference.
pub fn mark_line(typed: &str, reference: &str) -> (r: (Vec<CharMark>, usize, usize))
    requires
        typed@.len() + typed@.len() <= usize::MAX,
    ensures
        r.0@ == line_marks(typed@, reference@),
        r.1 == matching_count(typed@, reference@),
        r.2 == (if typed@.len() > reference@.len() {
            2 * typed@.len() - reference@.len()
        } else {
            reference@.len() as int
        }),
{
    let typed_chars = chars_of(typed);
    let ref_chars = chars_of(reference);
    let mut marks: Vec<CharMark> = Vec::new();
    let mut correct: usize = 0;
    let mut checked: usize = if ref_chars.len() >= typed_chars.len() {
        ref_chars.len()
    } else {
        typed_chars.len()
    };
    let mut i: usize = 0;
    while i < ref_chars.len()
        invariant
            typed_chars@ == typed@,
            ref_chars@ == reference@,
            i <= ref_chars@.len(),
            marks@.len() == i,
            forall|k: int| 0 <= k < i ==> marks@[k] == mark_at(typed@, reference@, k),
            correct == matches_upto(typed@, reference@, if i <= typed@.len() {
                i as int
            } else {
                typed@.len() as int
            }),
            correct <= i,
        decreases ref_chars.len() - i,
    {
        let e = ref_chars[i];
        if i < typed_chars.len() {
            let c = typed_chars[i];
            if c == e {
                correct = correct + 1;
                marks.push(CharMark::Correct(c));
            } else if !is_whitespace(c) {
                marks.push(CharMark::Wrong(c));
            } else {
                marks.push(CharMark::WrongSpace(c));
            }
        } else if i == typed_chars.len() {
            marks.push(CharMark::Cursor(e));
        } else {
            marks.push(CharMark::Pending(e));
        }
        assert(marks@.len() == i + 1);
        assert(marks@[i as int] == mark_at(typed@, reference@, i as int));
        i = i + 1;
    }
    let mut k: usize = ref_chars.len();
    while k < typed_chars.len()
        invariant
            k == ref_chars@.len() ==> checked == (if ref_chars@.len() >= typed_chars@.len() {
                ref_chars@.len()
            } else {
                typed_chars@.len()
            }),
            typed_chars@ == typed@,
            ref_chars@ == reference@,
            ref_chars@.len() <= k,
            k == ref_chars@.len() || k <= typed_chars@.len(),
            marks@.len() == k,
            forall|m: int| 0 <= m < ref_chars@.len() ==> marks@[m] == mark_at(typed@, reference@, m),
            forall|m: int| ref_chars@.len() <= m < k ==> marks@[m] == extra_mark(typed@[m]),
            k > ref_chars@.len() ==> checked == typed@.len() + (k - reference@.len()),
            typed@.len() + typed@.len() <= usize::MAX,
        decreases typed_chars.len() - k,
    {
        let c = typed_chars[k];
        checked = checked + 1;
        if is_whitespace(c) {
            marks.push(CharMark::ExtraSpace(c));
        } else {
            marks.push(CharMark::Extra(c));
        }
        assert(marks@.len() == k + 1);
        assert(marks@[k as int] == extra_mark(typed@[k as int]));
        k = k + 1;
    }
    proof {
        assert(marks@ =~= line_marks(typed@, reference@));
    }
    (marks, correct, checked)
}

} // verus!
