//! The typing pane: the line to copy and what the player has typed so far.
use crate::input::Key;
use crate::layout::{Constraint, TEXT_ROWS};
use crate::text::{chars_of, push_char, string_from_chars};
use crate::text_sources::{get_lines_from_source, TextLibrary, TextSource};
use vstd::prelude::*;

verus! {

#[derive(Clone, Debug)]
pub struct TextPane {
    pub current_text: TextSource,
    pub current_line: usize,
    pub typed: String,
}

/// What a key does to the pane: a character is typed, Backspace removes
/// the last one, and Enter empties the line and moves on to the next line.
pub open spec fn text_step(before: TextPane, after: TextPane, key: Key) -> bool {
    &&& after.current_text == before.current_text
    &&& match key {
        Key::Enter => {
            &&& after.typed@ == Seq::<char>::empty()
            &&& after.current_line == before.current_line + 1
        },
        Key::Char(c) => {
            &&& after.typed@ == before.typed@.push(c)
            &&& after.current_line == before.current_line
        },
        Key::Backspace => {
            &&& after.typed@ == if before.typed@.len() > 0 {
                before.typed@.drop_last()
            } else {
                before.typed@
            }
            &&& after.current_line == before.current_line
        },
        _ => {
            &&& after.typed@ == before.typed@
            &&& after.current_line == before.current_line
        },
    }
}

impl TextPane {
    pub fn title() -> (r: &'static str)
        ensures
            r@ == "Text"@,
    {
        "Text"
    }

    /// The row the pane takes in the main column: seven lines.
    pub fn main_column_row_constraint() -> (r: Option<Constraint>)
        ensures
            r == Some(Constraint::Length(TEXT_ROWS)),
    {
        Some(Constraint::Length(TEXT_ROWS))
    }

    /// The pane at the start of the game: the first line of the intro,
    /// nothing typed.
    pub fn new() -> (r: TextPane)
        ensures
            r.current_text == TextSource::Intro,
            r.current_line == 0,
            r.typed@ == Seq::<char>::empty(),
    {
        TextPane { current_text: TextSource::Intro, current_line: 0, typed: String::new() }
    }

    /// The line `offset` lines below the current one (the current one when
    /// `offset` is `None`).
    pub open spec fn line_index(self, offset: Option<usize>) -> int {
        self.current_line + match offset {
            Some(o) => o as int,
            None => 0,
        }
    }

    pub fn get_line<'a>(&self, library: &'a TextLibrary, offset: Option<usize>) -> (r: &'a str)
        requires
            self.line_index(offset) < library.lines(self.current_text).len(),
        ensures
            r@ == library.lines(self.current_text)[self.line_index(offset)],
    {
        let extra = match offset {
            Some(o) => o,
            None => 0,
        };
        let count = library.line_count(self.current_text);
        proof {
            assert(self.current_line + extra < count);
        }
        get_lines_from_source(library, self.current_text, self.current_line + extra)
    }

    /// Applies a key: a character is typed, Backspace removes the last one,
    /// and Enter hands back the typed line and moves on to the next line.
    pub fn handle_key(&mut self, key: Key) -> (submitted: Option<String>)
        requires
            key == Key::Enter ==> old(self).current_line < usize::MAX,
        ensures
            text_step(*old(self), *final(self), key),
            match key {
                Key::Enter => submitted matches Some(line) && line@ == old(self).typed@,
                _ => submitted is None,
            },
    {
        match key {
            Key::Enter => {
                let mut typed = String::new();
                std::mem::swap(&mut typed, &mut self.typed);
                self.current_line = self.current_line + 1;
                Some(typed)
            },
            Key::Char(c) => {
                push_char(&mut self.typed, c);
                None
            },
            Key::Backspace => {
                let mut chars = chars_of(self.typed.as_str());
                chars.pop();
                self.typed = string_from_chars(&chars);
                None
            },
            _ => None,
        }
    }
}

impl Default for TextPane {
    fn default() -> (r: TextPane)
        ensures
            r.current_text == TextSource::Intro,
            r.current_line == 0,
            r.typed@ == Seq::<char>::empty(),
    {
        TextPane::new()
    }
}


/// Backspace right after a typed character takes it back.
pub proof fn lemma_backspace_undoes_typing(a: TextPane, b: TextPane, c: TextPane, ch: char)
    requires
        text_step(a, b, Key::Char(ch)),
        text_step(b, c, Key::Backspace),
    ensures
        c.typed@ == a.typed@,
        c.current_line == a.current_line,
        c.current_text == a.current_text,
{
    assert(a.typed@.push(ch).drop_last() =~= a.typed@);
}

} // verus!
