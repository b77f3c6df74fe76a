//! The auto typer selector: an overlay in which the player spreads the auto
//! typers they own over the letters that the letter machine types by itself.
use crate::input::{is_lowercase, is_uppercase, unicode_is_lowercase, unicode_is_uppercase, Key};
use crate::letter_counts::LetterCounts;
use crate::names::{ascii_lower, to_ascii_lower};
use crate::text::{decimal, push_char, push_decimal, push_str};
use vstd::prelude::*;

verus! {

#[derive(Clone, Debug, PartialEq, Eq)]
pub struct AutoTyperSelector {
    /// How many auto typers work on each letter.
    pub auto_typer_counts: LetterCounts,
    /// How many auto typers are still free.
    pub max_auto_typers: u32,
}

/// What a key press does to the selector: `(counts, free typers, close)`.
/// Enter closes the overlay once no typer is left free; a lower-case letter
/// puts a free typer on that letter; an upper-case letter takes one off its
/// (ASCII) lower-case letter.
pub open spec fn selector_step(sel: AutoTyperSelector, key: Key) -> (Map<char, u32>, u32, bool) {
    let counts = sel.auto_typer_counts;
    let free = sel.max_auto_typers;
    let m = Map::new(|c: char| counts.get_spec(c) is Some, |c: char| counts.count(c));
    match key {
        Key::Enter => (m, free, free == 0),
        Key::Char(c) => if unicode_is_lowercase(c) {
            if free > 0 {
                (m.insert(c, (counts.count(c) + 1) as u32), (free - 1) as u32, false)
            } else {
                (m, free, false)
            }
        } else if unicode_is_uppercase(c) {
            let l = ascii_lower(c);
            if counts.get_spec(l) is Some && counts.count(l) > 0 {
                (m.insert(l, (counts.count(l) - 1) as u32), (free + 1) as u32, false)
            } else {
                (m, free, false)
            }
        } else {
            (m, free, false)
        },
        _ => (m, free, false),
    }
}

impl AutoTyperSelector {
    /// All the typers: the free ones and those working on a letter.
    pub open spec fn typers_total(self) -> int {
        self.max_auto_typers + self.auto_typer_counts.total()
    }

    /// The counts as a map.
    pub open spec fn counts_map(self) -> Map<char, u32> {
        Map::new(
            |c: char| self.auto_typer_counts.get_spec(c) is Some,
            |c: char| self.auto_typer_counts.count(c),
        )
    }

    /// A key press can be taken without a count running over.
    pub open spec fn can_handle(self, key: Key) -> bool {
        match key {
            Key::Char(c) => {
                &&& (unicode_is_lowercase(c) && self.max_auto_typers > 0)
                    ==> self.auto_typer_counts.count(c) < u32::MAX
                &&& (!unicode_is_lowercase(c) && unicode_is_uppercase(c)
                    && self.auto_typer_counts.count(ascii_lower(c)) > 0) ==> self.max_auto_typers
                    < u32::MAX
            },
            _ => true,
        }
    }

    /// Whether a key press can be taken without a count running over.
    pub fn fits_key(&self, key: Key) -> (r: bool)
        ensures
            r == self.can_handle(key),
    {
        match key {
            Key::Char(c) => {
                let lower = is_lowercase(c);
                let upper = is_uppercase(c);
                let adds = lower && self.max_auto_typers > 0;
                let takes = !lower && upper && self.auto_typer_counts.count_of(to_ascii_lower(c)) > 0;
                (!adds || self.auto_typer_counts.count_of(c) < u32::MAX) && (!takes
                    || self.max_auto_typers < u32::MAX)
            },
            _ => true,
        }
    }

    /// No typers yet, and every letter from `a` to `z` listed with none.
    pub fn new() -> (r: AutoTyperSelector)
        ensures
            r.max_auto_typers == 0,
            forall|c: char| 'a' <= c <= 'z' ==> r.auto_typer_counts.get_spec(c) == Some(0u32),
            forall|c: char| !('a' <= c <= 'z') ==> r.auto_typer_counts.get_spec(c) is None,
    {
        let mut auto_typer_counts = LetterCounts::new();
        let mut c: u8 = 97;
        while c <= 122
            invariant
                97 <= c <= 123,
                forall|d: char|
                    97 <= (d as int) < c ==> auto_typer_counts.get_spec(d) == Some(0u32),
                forall|d: char| !(97 <= (d as int) < c) ==> auto_typer_counts.get_spec(d) is None,
            decreases 123 - c,
        {
            auto_typer_counts.set(c as char, 0);
            c = c + 1;
        }
        AutoTyperSelector { auto_typer_counts, max_auto_typers: 0 }
    }

    /// How many typers work on `letter`.
    pub fn get_letter_counts(&self, letter: char) -> (r: u32)
        ensures
            r == self.auto_typer_counts.count(letter),
    {
        self.auto_typer_counts.count_of(letter)
    }

    /// Applies a key press; the result tells whether the overlay should close.
    pub fn handle_input(&mut self, key: Key) -> (close: bool)
        requires
            old(self).can_handle(key),
        ensures
            selector_step(*old(self), key) == (final(self).counts_map(), final(self).max_auto_typers, close),
            final(self).typers_total() == old(self).typers_total(),
    {
        let ghost m = self.counts_map();
        match key {
            Key::Enter => {
                if self.max_auto_typers == 0 {
                    return true;
                }
            },
            Key::Char(c) => {
                if is_lowercase(c) {
                    if self.max_auto_typers > 0 {
                        self.max_auto_typers = self.max_auto_typers - 1;
                        let n = self.auto_typer_counts.count_of(c);
                        self.auto_typer_counts.set(c, n + 1);
                        proof {
                            assert(self.counts_map() =~= m.insert(c, (n + 1) as u32));
                        }
                    }
                } else if is_uppercase(c) {
                    let l = to_ascii_lower(c);
                    if let Some(count) = self.auto_typer_counts.get(l) {
                        if count > 0 {
                            self.auto_typer_counts.set(l, count - 1);
                            self.max_auto_typers = self.max_auto_typers + 1;
                            proof {
                                assert(self.counts_map() =~= m.insert(l, (count - 1) as u32));
                            }
                        }
                    }
                }
            },
            _ => {},
        }
        false
    }
}

impl Default for AutoTyperSelector {
    fn default() -> (r: AutoTyperSelector)
        ensures
            r.max_auto_typers == 0,
            forall|c: char| 'a' <= c <= 'z' ==> r.auto_typer_counts.get_spec(c) == Some(0u32),
            forall|c: char| !('a' <= c <= 'z') ==> r.auto_typer_counts.get_spec(c) is None,
    {
        Self::new()
    }
}


/// The bar of a letter's typers: two blocks per typer.
pub open spec fn typer_bar(count: nat) -> Seq<char> {
    Seq::new(2 * count, |i: int| '█')
}

/// The overlay's line for letter `c`.
pub open spec fn letter_line(c: char, count: nat) -> Seq<char> {
    "    "@ + seq![c, ':', ' '] + typer_bar(count)
}

impl AutoTyperSelector {
    pub fn title() -> (r: &'static str)
        ensures
            r@ == "Auto Typers Selector"@,
    {
        "Auto Typers Selector"
    }

    fn letter_line_string(&self, c: char) -> (r: String)
        ensures
            r@ == letter_line(c, self.auto_typer_counts.count(c) as nat),
    {
        let count = self.auto_typer_counts.count_of(c);
        let mut s = String::new();
        let indent = "    ";
        proof {
            reveal_strlit("    ");
        }
        push_str(&mut s, indent);
        push_char(&mut s, c);
        push_char(&mut s, ':');
        push_char(&mut s, ' ');
        let ghost head = s@;
        let mut k: u64 = 0;
        let n: u64 = 2 * (count as u64);
        while k < n
            invariant
                k <= n,
                n == 2 * count,
                s@ == head + typer_bar(count as nat).subrange(0, k as int),
            decreases n - k,
        {
            push_char(&mut s, '█');
            k = k + 1;
            proof {
                assert(typer_bar(count as nat).subrange(0, k as int) =~= typer_bar(
                    count as nat,
                ).subrange(0, k - 1).push('█'));
            }
        }
        proof {
            assert(typer_bar(count as nat).subrange(0, n as int) =~= typer_bar(count as nat));
            assert(s@ =~= letter_line(c, count as nat));
        }
        s
    }

    /// The overlay's lines: the typers still free, a line per letter from
    /// `a` to `z` with a bar of its typers, and how to use the keys.
    pub fn render_texts(&self) -> (r: Vec<String>)
        ensures
            r@.len() == 29,
            r@[0]@ == "Available auto typers: "@ + decimal(self.max_auto_typers as nat),
            forall|j: int|
                0 <= j < 26 ==> (#[trigger] r@[j + 1])@ == letter_line(
                    (97 + j) as char,
                    self.auto_typer_counts.count((97 + j) as char) as nat,
                ),
            r@[27]@ == "lowercase: increase count, uppercase: decrease count"@,
            r@[28]@ == "Press Enter to confirm"@,
    {
        let mut lines: Vec<String> = Vec::new();
        let mut first = String::new();
        let label = "Available auto typers: ";
        proof {
            reveal_strlit("Available auto typers: ");
        }
        push_str(&mut first, label);
        push_decimal(&mut first, self.max_auto_typers as u64);
        lines.push(first);
        let mut c: u8 = 97;
        while c <= 122
            invariant
                97 <= c <= 123,
                lines@.len() == c - 96,
                lines@[0]@ == "Available auto typers: "@ + decimal(self.max_auto_typers as nat),
                forall|j: int|
                    0 <= j < c - 97 ==> (#[trigger] lines@[j + 1])@ == letter_line(
                        (97 + j) as char,
                        self.auto_typer_counts.count((97 + j) as char) as nat,
                    ),
            decreases 123 - c,
        {
            lines.push(self.letter_line_string(c as char));
            c = c + 1;
        }
        let mut help = String::new();
        push_str(&mut help, "lowercase: increase count, uppercase: decrease count");
        lines.push(help);
        let mut confirm = String::new();
        push_str(&mut confirm, "Press Enter to confirm");
        lines.push(confirm);
        lines
    }
}

} // verus!
