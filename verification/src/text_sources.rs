//! The texts that the player types and the letter machine sorts, split into
//! lines.
use crate::names::split_on;
use crate::text::{chars_of, string_from_chars};
use vstd::prelude::*;

verus! {

#[derive(Clone, Copy, Debug, PartialEq, Eq, Hash, Structural)]
pub enum TextSource {
    Wasteland,
    Intro,
    IntroCapital,
    Bartleby,
}

/// The lower-case form of a string, by the Unicode case mapping.
pub uninterp spec fn unicode_lowercase_text(s: Seq<char>) -> Seq<char>;

/// `str::to_lowercase`.
/// Trusted: the result is the Unicode lower-case mapping of `s`, which is a
/// function of `s` alone; the mapping itself is not stated.
#[verifier::external_body]
pub fn to_lowercase(s: &str) -> (r: String)
    ensures
        r@ == unicode_lowercase_text(s@),
{
    s.to_lowercase()
}

/// A line without the `\r` of a `\r\n` ending.
pub open spec fn without_cr(line: Seq<char>) -> Seq<char> {
    if line.len() > 0 && line.last() == '\r' {
        line.drop_last()
    } else {
        line
    }
}

/// The lines of a text, as `str::lines` yields them: split at `\n`, with the
/// `\r` before a `\n` dropped, and no empty line after a final line ending.
pub open spec fn lines_of(s: Seq<char>) -> Seq<Seq<char>> {
    let pieces = split_on(s, '\n');
    let n = pieces.len();
    let full = if pieces.last().len() == 0 {
        (n - 1) as nat
    } else {
        n as nat
    };
    Seq::new(
        full,
        |i: int|
            if i < n - 1 {
                without_cr(pieces[i])
            } else {
                pieces[i]
            },
    )
}

/// `str::lines`.
pub fn lines(s: &str) -> (r: Vec<String>)
    ensures
        r@.map_values(|l: String| l@) == lines_of(s@),
{
    let pieces = crate::names::split(s, '\n');
    proof {
        crate::names::lemma_split_on_nonempty(s@, '\n');
    }
    let ghost views = pieces@.map_values(|p: String| p@);
    let n = pieces.len();
    let last_empty = pieces[n - 1].as_str().unicode_len() == 0;
    let full = if last_empty {
        n - 1
    } else {
        n
    };
    let mut out: Vec<String> = Vec::new();
    let mut i: usize = 0;
    while i < full
        invariant
            full <= n,
            n == pieces@.len(),
            views == pieces@.map_values(|p: String| p@),
            views == split_on(s@, '\n'),
            full == lines_of(s@).len(),
            i <= full,
            out@.len() == i,
            forall|k: int| 0 <= k < i ==> #[trigger] out@[k]@ == lines_of(s@)[k],
        decreases full - i,
    {
        let v = chars_of(pieces[i].as_str());
        if i + 1 < n && v.len() > 0 && v[v.len() - 1] == '\r' {
            let mut w: Vec<char> = Vec::new();
            let mut k: usize = 0;
            while k + 1 < v.len()
                invariant
                    v@.len() > 0,
                    k + 1 <= v@.len(),
                    w@ == v@.subrange(0, k as int),
                decreases v.len() - k,
            {
                w.push(v[k]);
                k = k + 1;
                proof {
                    assert(w@ =~= v@.subrange(0, k as int));
                }
            }
            proof {
                assert(w@ =~= v@.drop_last());
            }
            out.push(string_from_chars(&w));
        } else {
            out.push(string_from_chars(&v));
        }
        i = i + 1;
    }
    proof {
        assert(out@.map_values(|l: String| l@) =~= lines_of(s@));
    }
    out
}

/// The lines of every text, one list per text. The texts are split once
/// when the library is built and the library is handed to whatever reads a
/// line; a lazily built `static` map is refused here, and a `HashMap` keyed by
/// `TextSource` would have no hashing model for its contracts.
pub struct TextLibrary {
    wasteland: Vec<String>,
    intro: Vec<String>,
    intro_capital: Vec<String>,
    bartleby: Vec<String>,
}

impl TextLibrary {
    /// The lines of `source`.
    pub closed spec fn lines(&self, source: TextSource) -> Seq<Seq<char>> {
        match source {
            TextSource::Wasteland => self.wasteland@.map_values(|l: String| l@),
            TextSource::Intro => self.intro@.map_values(|l: String| l@),
            TextSource::IntroCapital => self.intro_capital@.map_values(|l: String| l@),
            TextSource::Bartleby => self.bartleby@.map_values(|l: String| l@),
        }
    }

    /// Splits the texts into lines. The intro is kept both as written (for
    /// when capital letters count) and in lower case.
    pub fn from_texts(wasteland: &str, intro: &str, bartleby: &str) -> (r: TextLibrary)
        ensures
            r.lines(TextSource::Wasteland) == lines_of(wasteland@),
            r.lines(TextSource::IntroCapital) == lines_of(intro@),
            r.lines(TextSource::Intro) == lines_of(intro@).map_values(
                |l: Seq<char>| unicode_lowercase_text(l),
            ),
            r.lines(TextSource::Bartleby) == lines_of(bartleby@),
    {
        let intro_capital = lines(intro);
        let mut intro_lower: Vec<String> = Vec::new();
        let mut i: usize = 0;
        while i < intro_capital.len()
            invariant
                i <= intro_capital@.len(),
                intro_lower@.len() == i,
                forall|k: int|
                    0 <= k < i ==> #[trigger] intro_lower@[k]@ == unicode_lowercase_text(
                        intro_capital@[k]@,
                    ),
            decreases intro_capital.len() - i,
        {
            intro_lower.push(to_lowercase(intro_capital[i].as_str()));
            i = i + 1;
        }
        let r = TextLibrary {
            wasteland: lines(wasteland),
            intro: intro_lower,
            intro_capital,
            bartleby: lines(bartleby),
        };
        proof {
            assert(r.intro@.map_values(|l: String| l@) =~= lines_of(intro@).map_values(
                |l: Seq<char>| unicode_lowercase_text(l),
            ));
        }
        r
    }

    /// How many lines `source` has.
    pub fn line_count(&self, source: TextSource) -> (r: usize)
        ensures
            r == self.lines(source).len(),
    {
        match source {
            TextSource::Wasteland => self.wasteland.len(),
            TextSource::Intro => self.intro.len(),
            TextSource::IntroCapital => self.intro_capital.len(),
            TextSource::Bartleby => self.bartleby.len(),
        }
    }
}

/// The line at `offset` in `source`.
pub fn get_lines_from_source(library: &TextLibrary, source: TextSource, offset: usize) -> (r: &str)
    requires
        offset < library.lines(source).len(),
    ensures
        r@ == library.lines(source)[offset as int],
{
    let lines = match source {
        TextSource::Wasteland => &library.wasteland,
        TextSource::Intro => &library.intro,
        TextSource::IntroCapital => &library.intro_capital,
        TextSource::Bartleby => &library.bartleby,
    };
    lines[offset].as_str()
}

} // verus!
