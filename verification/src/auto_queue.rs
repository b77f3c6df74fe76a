//! The letter machine: it takes the lines of a text, sorts their letters into
//! one row per letter, and pushes them through a queue; a letter that leaves
//! the queue is typed when the player has a count left for it.
use crate::auto_typer_selector::AutoTyperSelector;
use crate::input::Key;
use crate::letter_counts::{
    distinct_keys, lemma_lookup_at, lemma_lookup_found, lookup, LetterCounts,
};
use crate::names::{ascii_lower, to_ascii_lower};
use crate::layout::Constraint;
use crate::pane_module::{LayoutContext, ModuleId};
use crate::text::{chars_of, decimal, push_char, push_decimal, push_str};
use crate::text_sources::{get_lines_from_source, TextLibrary, TextSource};
use vstd::prelude::*;

verus! {

pub const NUM_LETTERS: usize = 26;

pub const MAX_LINE_LENGTH: usize = 40;

pub const LETTER_QUEUE_LEN: usize = 10;

pub const QUEUE_MOVED_PER_UPDATE: usize = 2;

/// Columns of the grid: the sorting area followed by the letter queue.
pub const QUEUE_COLUMNS: usize = 50;

/// Cells of the grid: one per column and letter.
pub const GRID_CELLS: usize = 1300;

/// Milliseconds between sorter steps in each phase, between queue moves, and
/// between the auto typers' rounds.
pub const READY_DELAY: u64 = 0;

pub const SORTING_DELAY: u64 = 100;

pub const QUEUING_DELAY: u64 = 300;

pub const QUEUE_DELAY: u64 = 50;

pub const LETTER_INCREMENT_DELAY: u64 = 2000;

/// The highest count a letter can reach.
pub const MAX_LETTER_COUNT: u32 = 999;

/// The `idx`-th lower-case letter.
pub open spec fn letter_of(idx: int) -> char {
    (97 + idx) as char
}

/// The character `idx` places after `a` (the index taken modulo 256, as a
/// byte): the `idx`-th letter for `idx < 26`.
pub fn idx_to_letter(idx: usize) -> (r: char)
    requires
        idx % 256 + 97 <= 255,
    ensures
        r == (97 + idx % 256) as char,
        idx < 26 ==> r == letter_of(idx as int),
{
    let b = (idx % 256) as u8;
    (97u8 + b) as char
}

#[derive(Clone, Copy, Debug, PartialEq, Eq, Structural)]
pub enum SorterPhase {
    Ready,
    Sorting,
    Queueing,
}

/// The position in the grid of the cell in column `i` and the row of letter `j`.
pub open spec fn cell_index(i: int, j: int) -> int {
    i * 26 + j
}

/// Letters in column `i` move one column to the right into the cells of
/// column `i` that are empty; only the rows `j < rows` are done.
pub open spec fn fall_rows(q: Seq<char>, i: int, rows: int) -> Seq<char> {
    Seq::new(
        q.len(),
        |k: int|
            if i * 26 <= k < i * 26 + rows {
                if q[k] == ' ' {
                    q[k - 26]
                } else {
                    q[k]
                }
            } else if (i - 1) * 26 <= k < (i - 1) * 26 + rows {
                if q[k + 26] == ' ' {
                    ' '
                } else {
                    q[k]
                }
            } else {
                q[k]
            },
    )
}

/// One fall into column `i`, for every row.
pub open spec fn fall(q: Seq<char>, i: int) -> Seq<char> {
    fall_rows(q, i, 26)
}

/// Falls into the columns `hi - 1`, `hi - 2`, ..., `lo`, in that order: every
/// letter with an empty cell to its right, counting cells emptied on the way,
/// moves one column to the right.
pub open spec fn shift(q: Seq<char>, lo: int, hi: int) -> Seq<char>
    decreases hi - lo,
{
    if lo >= hi {
        q
    } else {
        fall(shift(q, lo + 1, hi), lo)
    }
}

/// A sorting step on the row of letter `line`, for the columns `i < cols`:
/// every such cell in that row that does not hold the row's letter passes
/// its content to the next row down.
pub open spec fn sort_columns(q: Seq<char>, line: int, cols: int) -> Seq<char> {
    Seq::new(
        q.len(),
        |k: int|
            if 0 <= k < cols * 26 && k % 26 == line {
                if q[k] != letter_of(line) {
                    ' '
                } else {
                    q[k]
                }
            } else if 0 <= k < cols * 26 && k % 26 == line + 1 {
                if q[k - 1] != letter_of(line) {
                    q[k - 1]
                } else {
                    q[k]
                }
            } else {
                q[k]
            },
    )
}

/// A sorting step over the whole sorting area.
pub open spec fn sort_step(q: Seq<char>, line: int) -> Seq<char> {
    sort_columns(q, line, 40)
}

/// The first `n` characters of a new line put into the first row.
pub open spec fn load_prefix(q: Seq<char>, line: Seq<char>, n: int) -> Seq<char> {
    Seq::new(
        q.len(),
        |k: int|
            if 0 <= k && k % 26 == 0 && k / 26 < n {
                line[k / 26]
            } else {
                q[k]
            },
    )
}

/// The characters of a new line put into the first row of the sorting area.
pub open spec fn load_line(q: Seq<char>, line: Seq<char>) -> Seq<char> {
    load_prefix(q, line, line.len() as int)
}

/// No letter is left in the sorting area.
pub open spec fn sorting_area_empty(q: Seq<char>) -> bool {
    forall|k: int| 0 <= k < 40 * 26 ==> q[k] == ' '
}

/// One move of the sorter, from its phase: `(grid, phase, sorted rows,
/// next text line, last move)`. When ready it loads the next line of text;
/// while sorting it sorts one row per step until 25 rows are done; while
/// queueing it moves the letters two columns to the right per step, and is
/// ready again once the sorting area is empty.
pub open spec fn sorter_step(
    q: Seq<char>,
    phase: SorterPhase,
    line_num: int,
    current_line: int,
    last: u64,
    now: u64,
    next_line: Seq<char>,
) -> (Seq<char>, SorterPhase, int, int, u64) {
    match phase {
        SorterPhase::Ready => if elapsed(last, now) < READY_DELAY {
            (q, phase, line_num, current_line, last)
        } else {
            (load_line(q, next_line), SorterPhase::Sorting, 0, current_line + 1, now)
        },
        SorterPhase::Sorting => if elapsed(last, now) < SORTING_DELAY {
            (q, phase, line_num, current_line, last)
        } else if line_num >= 25 {
            (q, SorterPhase::Queueing, line_num, current_line, now)
        } else {
            (sort_step(q, line_num), SorterPhase::Sorting, line_num + 1, current_line, now)
        },
        SorterPhase::Queueing => if elapsed(last, now) < QUEUING_DELAY {
            (q, phase, line_num, current_line, last)
        } else {
            let moved = shift(shift(q, 1, 41), 1, 41);
            (
                moved,
                if sorting_area_empty(moved) {
                    SorterPhase::Ready
                } else {
                    SorterPhase::Queueing
                },
                line_num,
                current_line,
                now,
            )
        },
    }
}

/// Milliseconds from `last` to `now` (none if the clock went back).
pub open spec fn elapsed(last: u64, now: u64) -> int {
    if now >= last {
        now - last
    } else {
        0
    }
}

/// The counts after a round of the auto typers: every letter that has typers
/// gains that many, up to the maximum.
pub open spec fn counts_after_typing(counts: Map<char, u32>, typers: Map<char, u32>) -> Map<
    char,
    u32,
> {
    Map::new(
        |c: char| counts.contains_key(c) || typers.contains_key(c),
        |c: char|
            if typers.contains_key(c) {
                let old_count: int = if counts.contains_key(c) {
                    counts[c] as int
                } else {
                    0
                };
                if old_count + typers[c] <= 999 {
                    (old_count + typers[c]) as u32
                } else {
                    999u32
                }
            } else {
                counts[c]
            },
    )
}

/// The counts after the typers of the first `n` entries have typed, one
/// entry after the other.
pub open spec fn add_typers(counts: Map<char, u32>, entries: Seq<(char, u32)>, n: int) -> Map<
    char,
    u32,
>
    decreases n,
{
    if n <= 0 {
        counts
    } else {
        let m = add_typers(counts, entries, n - 1);
        let e = entries[n - 1];
        let before: int = if m.contains_key(e.0) {
            m[e.0] as int
        } else {
            0
        };
        m.insert(
            e.0,
            if before + e.1 <= 999 {
                (before + e.1) as u32
            } else {
                999u32
            },
        )
    }
}

/// The map that a list of entries with distinct keys stands for.
pub open spec fn entries_map(entries: Seq<(char, u32)>) -> Map<char, u32> {
    Map::new(|c: char| lookup(entries, c) is Some, |c: char| lookup(entries, c)->0)
}

/// Typing entry after entry gives the same counts as a whole round.
pub proof fn lemma_add_typers(counts: Map<char, u32>, entries: Seq<(char, u32)>, n: int)
    requires
        distinct_keys(entries),
        0 <= n <= entries.len(),
    ensures
        add_typers(counts, entries, n) == counts_after_typing(
            counts,
            entries_map(entries.subrange(0, n)),
        ),
    decreases n,
{
    if n == 0 {
        assert(entries_map(entries.subrange(0, 0)) =~= Map::<char, u32>::empty());
        assert(counts_after_typing(counts, Map::<char, u32>::empty()) =~= counts);
    } else {
        lemma_add_typers(counts, entries, n - 1);
        let prev = entries.subrange(0, n - 1);
        let cur = entries.subrange(0, n);
        let k = entries[n - 1].0;
        assert(cur.drop_last() =~= prev);
        assert(entries_map(cur) =~= entries_map(prev).insert(k, entries[n - 1].1));
        if lookup(prev, k) is Some {
            lemma_lookup_found(prev, k);
            let i = choose|i: int| 0 <= i < prev.len() && #[trigger] prev[i].0 == k;
            assert(entries[i].0 == entries[n - 1].0);
        }
        assert(!entries_map(prev).contains_key(k));
        assert(add_typers(counts, entries, n) =~= counts_after_typing(counts, entries_map(cur)));
    }
}

/// The letter of row `j` leaves the queue: its cell in the last column holds
/// it and the player has a count left for it.
pub open spec fn leaves_queue(q: Seq<char>, counts: Map<char, u32>, j: int) -> bool {
    q[49 * 26 + j] == letter_of(j) && counts.contains_key(letter_of(j)) && counts[letter_of(
        j,
    )] > 0
}

/// The letters that leave the queue, among the rows `j < rows`, in row order.
pub open spec fn typed_letters(q: Seq<char>, counts: Map<char, u32>, rows: int) -> Seq<char>
    decreases rows,
{
    if rows <= 0 {
        Seq::empty()
    } else if leaves_queue(q, counts, rows - 1) {
        typed_letters(q, counts, rows - 1).push(letter_of(rows - 1))
    } else {
        typed_letters(q, counts, rows - 1)
    }
}

/// The grid once the letters of the rows `j < rows` that leave the queue
/// are gone.
pub open spec fn queue_after_typing_rows(q: Seq<char>, counts: Map<char, u32>, rows: int) -> Seq<
    char,
> {
    Seq::new(
        q.len(),
        |k: int|
            if 49 * 26 <= k < 49 * 26 + rows && leaves_queue(q, counts, k - 49 * 26) {
                ' '
            } else {
                q[k]
            },
    )
}

pub open spec fn queue_after_typing(q: Seq<char>, counts: Map<char, u32>) -> Seq<char> {
    queue_after_typing_rows(q, counts, 26)
}

/// The counts once one of each letter of the rows `j < rows` that leaves the
/// queue is spent.
pub open spec fn counts_after_spending_rows(q: Seq<char>, counts: Map<char, u32>, rows: int) -> Map<
    char,
    u32,
> {
    Map::new(
        |c: char| counts.contains_key(c),
        |c: char|
            if 97 <= (c as int) < 97 + rows && leaves_queue(q, counts, (c as int) - 97) {
                (counts[c] - 1) as u32
            } else {
                counts[c]
            },
    )
}

pub open spec fn counts_after_spending(q: Seq<char>, counts: Map<char, u32>) -> Map<char, u32> {
    counts_after_spending_rows(q, counts, 26)
}

/// A letter is among those typed out of the first `rows` rows exactly when
/// its own row is one of them and leaves the queue.
proof fn lemma_typed_letters_contains(q: Seq<char>, counts: Map<char, u32>, rows: int, c: char)
    requires
        0 <= rows <= 26,
    ensures
        typed_letters(q, counts, rows).contains(c) <==> (97 <= (c as int) < 97 + rows
            && leaves_queue(q, counts, (c as int) - 97)),
    decreases rows,
{
    if rows > 0 {
        lemma_typed_letters_contains(q, counts, rows - 1, c);
        let prev = typed_letters(q, counts, rows - 1);
        let l = letter_of(rows - 1);
        assert((l as int) == 97 + rows - 1);
        if leaves_queue(q, counts, rows - 1) {
            let cur = prev.push(l);
            if c == l {
                assert(cur[prev.len() as int] == c);
            }
            if prev.contains(c) {
                let i = choose|i: int| 0 <= i < prev.len() && prev[i] == c;
                assert(cur[i] == c);
            }
            if cur.contains(c) && c != l {
                let i = choose|i: int| 0 <= i < cur.len() && cur[i] == c;
                assert(prev[i] == c);
            }
            if (c as int) == 97 + rows - 1 {
                assert(c == l);
            }
        } else {
            if (c as int) == 97 + rows - 1 {
                assert(c == l);
            }
        }
    }
}

/// Typing clears exactly the last-column cells of the letters typed; every
/// other cell of the grid stays as it was.
pub proof fn lemma_typing_clears_cells(q: Seq<char>, counts: Map<char, u32>)
    requires
        q.len() == GRID_CELLS,
    ensures
        queue_after_typing(q, counts).len() == q.len(),
        forall|k: int| 0 <= k < 49 * 26 ==> #[trigger] queue_after_typing(q, counts)[k] == q[k],
        forall|j: int|
            0 <= j < 26 ==> #[trigger] queue_after_typing(q, counts)[49 * 26 + j] == if typed_letters(
                q,
                counts,
                26,
            ).contains(letter_of(j)) {
                ' '
            } else {
                q[49 * 26 + j]
            },
{
    assert forall|j: int| 0 <= j < 26 implies #[trigger] queue_after_typing(q, counts)[49 * 26 + j]
        == if typed_letters(q, counts, 26).contains(letter_of(j)) {
        ' '
    } else {
        q[49 * 26 + j]
    } by {
        lemma_typed_letters_contains(q, counts, 26, letter_of(j));
        assert((letter_of(j) as int) == 97 + j);
    }
}

/// Each letter typed out of the queue costs exactly one of its count, and
/// every other count stays as it was: the counts lost are the letters typed.
/// No letter gains or loses its entry.
pub proof fn lemma_spending_matches_typing(q: Seq<char>, counts: Map<char, u32>)
    ensures
        counts_after_spending(q, counts).dom() == counts.dom(),
        forall|c: char|
            #[trigger] counts.contains_key(c) ==> counts_after_spending(q, counts)[c] == counts[c]
                - (if typed_letters(q, counts, 26).contains(c) {
                1int
            } else {
                0int
            }),
        forall|c: char|
            #[trigger] typed_letters(q, counts, 26).contains(c) ==> counts.contains_key(c)
                && counts[c] > 0,
{
    assert(counts_after_spending(q, counts).dom() =~= counts.dom());
    assert forall|c: char| #[trigger] counts.contains_key(c) implies counts_after_spending(
        q,
        counts,
    )[c] == counts[c] - (if typed_letters(q, counts, 26).contains(c) {
        1int
    } else {
        0int
    }) by {
        lemma_typed_letters_contains(q, counts, 26, c);
    }
    assert forall|c: char| #[trigger] typed_letters(q, counts, 26).contains(c) implies counts.contains_key(c)
        && counts[c] > 0 by {
        lemma_typed_letters_contains(q, counts, 26, c);
        assert(letter_of((c as int) - 97) == c);
    }
}

/// Falls into column `i`, row by row.
fn fall_column(q: &mut Vec<char>, i: usize)
    requires
        1 <= i < QUEUE_COLUMNS,
        old(q)@.len() == GRID_CELLS,
    ensures
        final(q)@ == fall(old(q)@, i as int),
{
    let ghost q0 = q@;
    let mut j: usize = 0;
    while j < NUM_LETTERS
        invariant
            1 <= i < QUEUE_COLUMNS,
            j <= NUM_LETTERS,
            q0.len() == GRID_CELLS,
            q@ == fall_rows(q0, i as int, j as int),
        decreases NUM_LETTERS - j,
    {
        let here = i * NUM_LETTERS + j;
        let left = (i - 1) * NUM_LETTERS + j;
        if q[here] == ' ' {
            let moved = q[left];
            q.set(here, moved);
            q.set(left, ' ');
        }
        j = j + 1;
        proof {
            assert(q@ =~= fall_rows(q0, i as int, j as int));
        }
    }
}

/// Falls into the columns `hi - 1` down to `lo`.
fn shift_columns(q: &mut Vec<char>, lo: usize, hi: usize)
    requires
        1 <= lo <= hi <= QUEUE_COLUMNS,
        old(q)@.len() == GRID_CELLS,
    ensures
        final(q)@ == shift(old(q)@, lo as int, hi as int),
        final(q)@.len() == GRID_CELLS,
{
    let ghost q0 = q@;
    let mut i: usize = hi;
    while i > lo
        invariant
            1 <= lo <= i <= hi <= QUEUE_COLUMNS,
            q@ == shift(q0, i as int, hi as int),
            q@.len() == GRID_CELLS,
        decreases i,
    {
        i = i - 1;
        fall_column(q, i);
    }
}

#[derive(Clone, Debug, PartialEq, Eq)]
pub struct AutoQueue {
    pub auto_current_text: TextSource,
    pub auto_current_line: usize,
    pub letter_counts: LetterCounts,
    /// The grid, column by column: the cell of column `i` and letter row `j`
    /// is at `i * 26 + j`. Columns `0..40` are the sorting area, `40..50`
    /// the queue.
    pub letter_queue: Vec<char>,
    pub letter_compression_unlocked: bool,
    pub phase: SorterPhase,
    pub line_num: usize,
    /// When the sorter, the queue and the auto typers last moved, in
    /// milliseconds on the game's clock.
    pub last_sorter_update: u64,
    pub last_queue_update: u64,
    pub last_letter_increment: u64,
    pub auto_typer_selector: AutoTyperSelector,
}

impl AutoQueue {
    pub open spec fn wf(self) -> bool {
        self.letter_queue@.len() == GRID_CELLS
    }

    /// An empty machine on the first line of Bartleby, its clocks set to `now`.
    pub fn new(now: u64) -> (r: AutoQueue)
        ensures
            r.wf(),
            r.auto_current_text == TextSource::Bartleby,
            r.auto_current_line == 0,
            r.letter_counts@ == Map::<char, u32>::empty(),
            forall|k: int| 0 <= k < GRID_CELLS ==> r.letter_queue@[k] == ' ',
            !r.letter_compression_unlocked,
            r.phase == SorterPhase::Ready,
            r.line_num == 0,
            r.last_sorter_update == now,
            r.last_queue_update == now,
            r.last_letter_increment == now,
            r.auto_typer_selector.max_auto_typers == 0,
            forall|c: char|
                'a' <= c <= 'z' ==> r.auto_typer_selector.auto_typer_counts.get_spec(c) == Some(
                    0u32,
                ),
            forall|c: char|
                !('a' <= c <= 'z') ==> r.auto_typer_selector.auto_typer_counts.get_spec(c) is None,
    {
        let mut letter_queue: Vec<char> = Vec::new();
        let mut k: usize = 0;
        while k < GRID_CELLS
            invariant
                k <= GRID_CELLS,
                letter_queue@.len() == k,
                forall|m: int| 0 <= m < k ==> letter_queue@[m] == ' ',
            decreases GRID_CELLS - k,
        {
            letter_queue.push(' ');
            k = k + 1;
        }
        let letter_counts = LetterCounts::new();
        proof {
            assert(letter_counts@ =~= Map::<char, u32>::empty());
        }
        AutoQueue {
            auto_current_text: TextSource::Bartleby,
            auto_current_line: 0,
            letter_counts,
            letter_queue,
            letter_compression_unlocked: false,
            phase: SorterPhase::Ready,
            line_num: 0,
            last_sorter_update: now,
            last_queue_update: now,
            last_letter_increment: now,
            auto_typer_selector: AutoTyperSelector::new(),
        }
    }

    /// Width of the pane: the grid, the borders, the letter, its count and
    /// the spaces between them.
    pub fn pane_width() -> (r: u16)
        ensures
            r == 58,
    {
        MAX_LINE_LENGTH as u16 + LETTER_QUEUE_LEN as u16 + 2 + 1 + 1 + 4
    }

    /// The player's count for `letter`.
    pub fn get_letter_counts(&self, letter: char) -> (r: u32)
        ensures
            r == self.letter_counts.count(letter),
    {
        self.letter_counts.count_of(letter)
    }

    /// Adds `count` to the player's count for `letter`, up to the maximum.
    pub fn increment_letter_count(&mut self, letter: char, count: u32)
        requires
            old(self).letter_counts.count(letter) + count <= u32::MAX,
        ensures
            final(self).letter_counts@ == old(self).letter_counts@.insert(
                letter,
                if old(self).letter_counts.count(letter) + count <= 999 {
                    (old(self).letter_counts.count(letter) + count) as u32
                } else {
                    999u32
                },
            ),
            final(self).letter_queue == old(self).letter_queue,
            final(self).auto_typer_selector == old(self).auto_typer_selector,
            final(self).phase == old(self).phase,
            final(self).line_num == old(self).line_num,
            final(self).auto_current_text == old(self).auto_current_text,
            final(self).auto_current_line == old(self).auto_current_line,
            final(self).letter_compression_unlocked == old(self).letter_compression_unlocked,
            final(self).last_sorter_update == old(self).last_sorter_update,
            final(self).last_queue_update == old(self).last_queue_update,
            final(self).last_letter_increment == old(self).last_letter_increment,
    {
        let entry = self.letter_counts.count_of(letter);
        let sum = entry + count;
        let capped = if sum < MAX_LETTER_COUNT {
            sum
        } else {
            MAX_LETTER_COUNT
        };
        self.letter_counts.insert(letter, capped);
    }

    /// A typed key counts one for its (ASCII lower-case) letter.
    pub fn handle_input(&mut self, key: Key)
        requires
            key matches Key::Char(c) ==> old(self).letter_counts.count(ascii_lower(c)) + 1
                <= u32::MAX,
        ensures
            key matches Key::Char(c) ==> final(self).letter_counts@ == old(
                self,
            ).letter_counts@.insert(
                ascii_lower(c),
                if old(self).letter_counts.count(ascii_lower(c)) + 1 <= 999 {
                    (old(self).letter_counts.count(ascii_lower(c)) + 1) as u32
                } else {
                    999u32
                },
            ),
            !(key is Char) ==> final(self).letter_counts == old(self).letter_counts,
            *final(self) == (AutoQueue { letter_counts: final(self).letter_counts, ..*old(self) }),
            counts_capped(old(self).letter_counts@) ==> counts_capped(final(self).letter_counts@),
    {
        if let Key::Char(c) = key {
            self.increment_letter_count(to_ascii_lower(c), 1);
        }
    }
}

impl AutoQueue {
    /// Types the letters that leave the queue: each one is cleared from the
    /// last column and costs one of its count. Returns them in row order.
    fn process_letter_queue(&mut self) -> (r: String)
        requires
            old(self).wf(),
        ensures
            final(self).wf(),
            r@ == typed_letters(old(self).letter_queue@, old(self).letter_counts@, 26),
            final(self).letter_queue@ == queue_after_typing(
                old(self).letter_queue@,
                old(self).letter_counts@,
            ),
            final(self).letter_counts@ == counts_after_spending(
                old(self).letter_queue@,
                old(self).letter_counts@,
            ),
            final(self).letter_counts@.dom() == old(self).letter_counts@.dom(),
            forall|c: char|
                #[trigger] old(self).letter_counts@.contains_key(c)
                    ==> final(self).letter_counts@[c] == old(self).letter_counts@[c] - (if r@.contains(
                    c,
                ) {
                    1int
                } else {
                    0int
                }),
            forall|c: char| #[trigger] r@.contains(c) ==> old(self).letter_counts.count(c) > 0,
            forall|j: int|
                0 <= j < 26 ==> #[trigger] final(self).letter_queue@[49 * 26 + j] == if r@.contains(
                    letter_of(j),
                ) {
                    ' '
                } else {
                    old(self).letter_queue@[49 * 26 + j]
                },
            final(self).auto_typer_selector == old(self).auto_typer_selector,
            final(self).phase == old(self).phase,
            final(self).line_num == old(self).line_num,
            final(self).auto_current_text == old(self).auto_current_text,
            final(self).auto_current_line == old(self).auto_current_line,
            final(self).letter_compression_unlocked == old(self).letter_compression_unlocked,
            final(self).last_sorter_update == old(self).last_sorter_update,
            final(self).last_queue_update == old(self).last_queue_update,
            final(self).last_letter_increment == old(self).last_letter_increment,
    {
        let ghost q0 = self.letter_queue@;
        let ghost c0 = self.letter_counts@;
        let mut processed = String::new();
        let mut j: usize = 0;
        while j < NUM_LETTERS
            invariant
                j <= NUM_LETTERS,
                q0.len() == GRID_CELLS,
                self.letter_queue@ == queue_after_typing_rows(q0, c0, j as int),
                self.letter_counts@ == counts_after_spending_rows(q0, c0, j as int),
                processed@ == typed_letters(q0, c0, j as int),
                self.auto_typer_selector == old(self).auto_typer_selector,
                self.phase == old(self).phase,
                self.line_num == old(self).line_num,
                self.auto_current_text == old(self).auto_current_text,
                self.auto_current_line == old(self).auto_current_line,
                self.letter_compression_unlocked == old(self).letter_compression_unlocked,
                self.last_sorter_update == old(self).last_sorter_update,
                self.last_queue_update == old(self).last_queue_update,
                self.last_letter_increment == old(self).last_letter_increment,
            decreases NUM_LETTERS - j,
        {
            let letter = idx_to_letter(j);
            let last_cell = (QUEUE_COLUMNS - 1) * NUM_LETTERS + j;
            let count = self.letter_counts.get(letter);
            proof {
                assert(self.letter_queue@[last_cell as int] == q0[last_cell as int]);
                assert((letter as int) - 97 == j);
                if c0.contains_key(letter) {
                    assert(self.letter_counts@[letter] == c0[letter]);
                }
            }
            let ghost before_counts = self.letter_counts@;
            proof {
                assert(count is Some ==> before_counts.contains_key(letter));
                assert(count is Some ==> c0.contains_key(letter));
                assert(count is Some ==> before_counts[letter] == count->0);
                assert(count is Some ==> c0[letter] == count->0);
            }
            if self.letter_queue[last_cell] == letter && count.is_some() && count.unwrap() > 0 {
                push_char(&mut processed, letter);
                self.letter_queue.set(last_cell, ' ');
                let n = count.unwrap();
                self.letter_counts.insert(letter, n - 1);
                proof {
                    assert(leaves_queue(q0, c0, j as int));
                }
            } else {
                proof {
                    assert(!leaves_queue(q0, c0, j as int));
                }
            }
            j = j + 1;
            proof {
                assert(self.letter_queue@ =~= queue_after_typing_rows(q0, c0, j as int));
                assert(self.letter_counts@ =~= counts_after_spending_rows(q0, c0, j as int));
            }
        }
        proof {
            lemma_spending_matches_typing(q0, c0);
            lemma_typing_clears_cells(q0, c0);
        }
        processed
    }
}

impl AutoQueue {
    /// Every two seconds the auto typers type: each letter gains as many as
    /// there are typers on it, up to the maximum count.
    fn increment_letter_counts(&mut self, now: u64)
        requires
            elapsed(old(self).last_letter_increment, now) >= LETTER_INCREMENT_DELAY ==> forall|
                c: char,
            |
                #![trigger old(self).auto_typer_selector.auto_typer_counts@.contains_key(c)]
                old(self).auto_typer_selector.auto_typer_counts@.contains_key(c) ==> old(self).letter_counts.count(c) + old(self).auto_typer_selector.auto_typer_counts@[c]
                    <= u32::MAX,
        ensures
            elapsed(old(self).last_letter_increment, now) < LETTER_INCREMENT_DELAY
                ==> *final(self) == *old(self),
            elapsed(old(self).last_letter_increment, now) >= LETTER_INCREMENT_DELAY ==> {
                &&& final(self).letter_counts@ == counts_after_typing(
                    old(self).letter_counts@,
                    old(self).auto_typer_selector.auto_typer_counts@,
                )
                &&& final(self).last_letter_increment == now
            },
            final(self).letter_queue == old(self).letter_queue,
            final(self).auto_typer_selector == old(self).auto_typer_selector,
            final(self).phase == old(self).phase,
            final(self).line_num == old(self).line_num,
            final(self).auto_current_text == old(self).auto_current_text,
            final(self).auto_current_line == old(self).auto_current_line,
            final(self).letter_compression_unlocked == old(self).letter_compression_unlocked,
            final(self).last_sorter_update == old(self).last_sorter_update,
            final(self).last_queue_update == old(self).last_queue_update,
    {
        let since = if now >= self.last_letter_increment {
            now - self.last_letter_increment
        } else {
            0
        };
        if since < LETTER_INCREMENT_DELAY {
            return;
        }
        self.last_letter_increment = now;
        let ghost c0 = self.letter_counts@;
        let ghost entries = self.auto_typer_selector.auto_typer_counts.entry_seq();
        self.auto_typer_selector.auto_typer_counts.lemma_distinct();
        let n = self.auto_typer_selector.auto_typer_counts.len();
        let mut i: usize = 0;
        while i < n
            invariant
                i <= n,
                n == entries.len(),
                entries == self.auto_typer_selector.auto_typer_counts.entry_seq(),
                distinct_keys(entries),
                self.letter_counts@ == add_typers(c0, entries, i as int),
                forall|c: char|
                    #![trigger old(self).auto_typer_selector.auto_typer_counts@.contains_key(c)]
                    old(self).auto_typer_selector.auto_typer_counts@.contains_key(c) ==> old(self).letter_counts.count(c) + old(self).auto_typer_selector.auto_typer_counts@[c]
                        <= u32::MAX,
                c0 == old(self).letter_counts@,
                self.auto_typer_selector == old(self).auto_typer_selector,
                self.letter_queue == old(self).letter_queue,
                self.phase == old(self).phase,
                self.line_num == old(self).line_num,
                self.auto_current_text == old(self).auto_current_text,
                self.auto_current_line == old(self).auto_current_line,
                self.letter_compression_unlocked == old(self).letter_compression_unlocked,
                self.last_sorter_update == old(self).last_sorter_update,
                self.last_queue_update == old(self).last_queue_update,
                self.last_letter_increment == now,
            decreases n - i,
        {
            let (letter, count) = self.auto_typer_selector.auto_typer_counts.entry(i);
            proof {
                lemma_lookup_at(entries, i as int);
                lemma_add_typers(c0, entries, i as int);
                let prev = entries.subrange(0, i as int);
                if lookup(prev, letter) is Some {
                    lemma_lookup_found(prev, letter);
                    let k = choose|k: int| 0 <= k < prev.len() && #[trigger] prev[k].0 == letter;
                    assert(entries[k].0 == entries[i as int].0);
                }
                assert(!entries_map(prev).contains_key(letter));
                assert(old(self).auto_typer_selector.auto_typer_counts@.contains_key(letter));
                assert(self.letter_counts@.contains_key(letter) == c0.contains_key(letter));
                if c0.contains_key(letter) {
                    assert(self.letter_counts@[letter] == c0[letter]);
                }
            }
            self.increment_letter_count(letter, count);
            i = i + 1;
            proof {
                assert(self.letter_counts@ =~= add_typers(c0, entries, i as int));
            }
        }
        proof {
            lemma_add_typers(c0, entries, n as int);
            assert(entries.subrange(0, n as int) =~= entries);
            assert(entries_map(entries) =~= self.auto_typer_selector.auto_typer_counts@);
        }
    }
}

fn elapsed_ms(last: u64, now: u64) -> (r: u64)
    ensures
        r == elapsed(last, now),
{
    if now >= last {
        now - last
    } else {
        0
    }
}

/// Whether the sorting area holds no letter.
fn sorting_area_is_empty(q: &Vec<char>) -> (r: bool)
    requires
        q@.len() == GRID_CELLS,
    ensures
        r == sorting_area_empty(q@),
{
    let mut k: usize = 0;
    while k < MAX_LINE_LENGTH * NUM_LETTERS
        invariant
            k <= 40 * 26,
            q@.len() == GRID_CELLS,
            forall|m: int| 0 <= m < k ==> q@[m] == ' ',
        decreases 40 * 26 - k,
    {
        if q[k] != ' ' {
            return false;
        }
        k = k + 1;
    }
    true
}

/// One sorting step on the row of letter `line`.
fn sort_row(q: &mut Vec<char>, line: usize)
    requires
        line < 25,
        old(q)@.len() == GRID_CELLS,
    ensures
        final(q)@ == sort_step(old(q)@, line as int),
{
    let ghost q0 = q@;
    let letter = idx_to_letter(line);
    let mut i: usize = 0;
    while i < MAX_LINE_LENGTH
        invariant
            line < 25,
            i <= 40,
            q0.len() == GRID_CELLS,
            letter == letter_of(line as int),
            q@ == sort_columns(q0, line as int, i as int),
        decreases 40 - i,
    {
        let here = i * NUM_LETTERS + line;
        let ch = q[here];
        proof {
            assert(q@[here as int] == q0[here as int]);
            assert((here as int) % 26 == line);
            assert(((here + 1) as int) % 26 == line + 1);
        }
        if ch != letter {
            q.set(here + 1, ch);
            q.set(here, ' ');
        }
        i = i + 1;
        proof {
            assert(q@ =~= sort_columns(q0, line as int, i as int));
        }
    }
}

/// Writes a line's characters into the first row of the sorting area.
fn load_into_grid(q: &mut Vec<char>, line: &str)
    requires
        line@.len() <= 40,
        old(q)@.len() == GRID_CELLS,
    ensures
        final(q)@ == load_line(old(q)@, line@),
{
    let ghost q0 = q@;
    let chars = chars_of(line);
    let mut i: usize = 0;
    while i < chars.len()
        invariant
            chars@ == line@,
            chars@.len() <= 40,
            i <= chars@.len(),
            q0.len() == GRID_CELLS,
            q@ == load_prefix(q0, line@, i as int),
        decreases chars.len() - i,
    {
        q.set(i * NUM_LETTERS, chars[i]);
        i = i + 1;
        proof {
            assert(q@ =~= load_prefix(q0, line@, i as int));
        }
    }
}

/// What a tick at `now` does to the letter machine, from `before` to
/// `after`, typing `typed`: the auto typers type (every two seconds), the
/// letters leaving the queue are typed, the queue moves (every 50 ms) and
/// the sorter takes a step.
pub open spec fn machine_step(
    before: AutoQueue,
    after: AutoQueue,
    now: u64,
    library: &TextLibrary,
    typed: Seq<char>,
) -> bool {
    let typing = elapsed(before.last_letter_increment, now) >= LETTER_INCREMENT_DELAY;
    let moving = elapsed(before.last_queue_update, now) >= QUEUE_DELAY;
    let counts = if typing {
        counts_after_typing(before.letter_counts@, before.auto_typer_selector.auto_typer_counts@)
    } else {
        before.letter_counts@
    };
    let q0 = before.letter_queue@;
    let typed_grid = queue_after_typing(q0, counts);
    let queued = if moving {
        shift(typed_grid, 40, 50)
    } else {
        typed_grid
    };
    let step = sorter_step(
        queued,
        before.phase,
        before.line_num as int,
        before.auto_current_line as int,
        before.last_sorter_update,
        now,
        before.next_line(library),
    );
    &&& after.wf()
    &&& typed == typed_letters(q0, counts, 26)
    &&& after.letter_counts@ == counts_after_spending(q0, counts)
    &&& after.letter_queue@ == step.0
    &&& after.phase == step.1
    &&& after.line_num == step.2
    &&& after.auto_current_line == step.3
    &&& after.last_sorter_update == step.4
    &&& after.last_queue_update == if moving {
        now
    } else {
        before.last_queue_update
    }
    &&& after.last_letter_increment == if typing {
        now
    } else {
        before.last_letter_increment
    }
    &&& after.auto_typer_selector == before.auto_typer_selector
    &&& after.auto_current_text == before.auto_current_text
    &&& after.letter_compression_unlocked == before.letter_compression_unlocked
}

impl AutoQueue {
    /// Every letter with auto typers can take a round of them without its
    /// count running over.
    pub open spec fn typers_fit(self) -> bool {
        forall|c: char|
            #![trigger self.auto_typer_selector.auto_typer_counts@.contains_key(c)]
            self.auto_typer_selector.auto_typer_counts@.contains_key(c) ==> self.letter_counts.count(c)
                + self.auto_typer_selector.auto_typer_counts@[c] <= u32::MAX
    }

    /// A tick at `now` can run: the grid has its size, the sorter's next
    /// line exists and fits, and a round of the auto typers (if one is due)
    /// keeps every count in range.
    pub open spec fn can_update(self, now: u64, library: &TextLibrary) -> bool {
        &&& self.wf()
        &&& self.sorter_can_run(library)
        &&& elapsed(self.last_letter_increment, now) >= LETTER_INCREMENT_DELAY ==> self.typers_fit()
    }

    /// Whether a tick at `now` can run.
    pub fn ready_to_update(&self, now: u64, library: &TextLibrary) -> (r: bool)
        ensures
            r == self.can_update(now, library),
    {
        if self.letter_queue.len() != GRID_CELLS {
            return false;
        }
        if self.phase == SorterPhase::Ready {
            if self.auto_current_line >= library.line_count(self.auto_current_text) {
                return false;
            }
            let line = get_lines_from_source(library, self.auto_current_text, self.auto_current_line);
            if chars_of(line).len() > MAX_LINE_LENGTH {
                return false;
            }
        }
        if now >= self.last_letter_increment && now - self.last_letter_increment >= LETTER_INCREMENT_DELAY {
            let typers = &self.auto_typer_selector.auto_typer_counts;
            typers.lemma_distinct();
            let mut i: usize = 0;
            while i < typers.len()
                invariant
                    i <= typers.entry_seq().len(),
                    distinct_keys(typers.entry_seq()),
                    *typers == self.auto_typer_selector.auto_typer_counts,
                    elapsed(self.last_letter_increment, now) >= LETTER_INCREMENT_DELAY,
                    forall|k: int|
                        0 <= k < i ==> self.letter_counts.count(#[trigger] typers.entry_seq()[k].0)
                            + typers.entry_seq()[k].1 <= u32::MAX,
                decreases typers.entry_seq().len() - i,
            {
                let (c, n) = typers.entry(i);
                let have = self.letter_counts.count_of(c);
                if have as u64 + n as u64 > 0xffff_ffff {
                    proof {
                        typers.lemma_entry(i as int);
                        assert(typers@.contains_key(c));
                        assert(typers@[c] == n);
                        assert(elapsed(self.last_letter_increment, now) >= LETTER_INCREMENT_DELAY);
                        assert(!self.typers_fit());
                    }
                    return false;
                }
                i = i + 1;
            }
            proof {
                assert forall|c: char| #[trigger] typers@.contains_key(c) implies self.letter_counts.count(c)
                    + typers@[c] <= u32::MAX by {
                    lemma_lookup_found(typers.entry_seq(), c);
                    let k = choose|k: int| 0 <= k < typers.entry_seq().len() && #[trigger] typers.entry_seq()[k].0 == c;
                    typers.lemma_entry(k);
                }
            }
        }
        true
    }
}

impl AutoQueue {
    /// The sorter can take its next step: when ready, the next line of its
    /// text exists and fits in the sorting area.
    pub open spec fn sorter_can_run(self, library: &TextLibrary) -> bool {
        self.phase == SorterPhase::Ready ==> {
            &&& self.auto_current_line < library.lines(self.auto_current_text).len()
            &&& library.lines(self.auto_current_text)[self.auto_current_line as int].len() <= 40
        }
    }

    /// The line the sorter loads next, when there is one.
    pub open spec fn next_line(self, library: &TextLibrary) -> Seq<char> {
        library.lines(self.auto_current_text)[self.auto_current_line as int]
    }

    /// Every 50 ms the queue moves its letters one column to the right.
    fn run_queue(&mut self, now: u64)
        requires
            old(self).wf(),
        ensures
            final(self).wf(),
            elapsed(old(self).last_queue_update, now) < QUEUE_DELAY ==> *final(self) == *old(self),
            elapsed(old(self).last_queue_update, now) >= QUEUE_DELAY ==> {
                &&& final(self).letter_queue@ == shift(old(self).letter_queue@, 40, 50)
                &&& final(self).last_queue_update == now
            },
            final(self).letter_counts == old(self).letter_counts,
            final(self).auto_typer_selector == old(self).auto_typer_selector,
            final(self).phase == old(self).phase,
            final(self).line_num == old(self).line_num,
            final(self).auto_current_text == old(self).auto_current_text,
            final(self).auto_current_line == old(self).auto_current_line,
            final(self).letter_compression_unlocked == old(self).letter_compression_unlocked,
            final(self).last_sorter_update == old(self).last_sorter_update,
            final(self).last_letter_increment == old(self).last_letter_increment,
    {
        if elapsed_ms(self.last_queue_update, now) < QUEUE_DELAY {
            return;
        }
        self.last_queue_update = now;
        // move letters to the right putting one letter in the letter queue
        shift_columns(&mut self.letter_queue, MAX_LINE_LENGTH, MAX_LINE_LENGTH + LETTER_QUEUE_LEN);
    }

    /// One move of the sorter (see `sorter_step`).
    pub fn run_sorter(&mut self, now: u64, library: &TextLibrary)
        requires
            old(self).wf(),
            old(self).sorter_can_run(library),
        ensures
            final(self).wf(),
            (
                final(self).letter_queue@,
                final(self).phase,
                final(self).line_num as int,
                final(self).auto_current_line as int,
                final(self).last_sorter_update,
            ) == sorter_step(
                old(self).letter_queue@,
                old(self).phase,
                old(self).line_num as int,
                old(self).auto_current_line as int,
                old(self).last_sorter_update,
                now,
                old(self).next_line(library),
            ),
            final(self).letter_counts == old(self).letter_counts,
            final(self).auto_typer_selector == old(self).auto_typer_selector,
            final(self).auto_current_text == old(self).auto_current_text,
            final(self).letter_compression_unlocked == old(self).letter_compression_unlocked,
            final(self).last_queue_update == old(self).last_queue_update,
            final(self).last_letter_increment == old(self).last_letter_increment,
    {
        let since = elapsed_ms(self.last_sorter_update, now);
        match self.phase {
            SorterPhase::Ready => {
                if since < READY_DELAY {
                    return;
                }
                self.last_sorter_update = now;
                self.phase = SorterPhase::Sorting;
                self.line_num = 0;
                let next_line = get_lines_from_source(
                    library,
                    self.auto_current_text,
                    self.auto_current_line,
                );
                let mut grid: Vec<char> = Vec::new();
                std::mem::swap(&mut grid, &mut self.letter_queue);
                load_into_grid(&mut grid, next_line);
                self.letter_queue = grid;
                let line_count = library.line_count(self.auto_current_text);
                self.auto_current_line = self.auto_current_line + 1;
                proof {
                    assert(line_count == library.lines(self.auto_current_text).len());
                }
            },
            SorterPhase::Sorting => {
                if since < SORTING_DELAY {
                    return;
                }
                self.last_sorter_update = now;
                if self.line_num >= NUM_LETTERS - 1 {
                    self.phase = SorterPhase::Queueing;
                    return;
                }
                // move letters down unless this is their line
                let mut grid: Vec<char> = Vec::new();
                std::mem::swap(&mut grid, &mut self.letter_queue);
                sort_row(&mut grid, self.line_num);
                self.letter_queue = grid;
                self.line_num = self.line_num + 1;
            },
            SorterPhase::Queueing => {
                if since < QUEUING_DELAY {
                    return;
                }
                self.last_sorter_update = now;
                let mut grid: Vec<char> = Vec::new();
                std::mem::swap(&mut grid, &mut self.letter_queue);
                let mut round: usize = 0;
                let ghost q0 = grid@;
                while round < QUEUE_MOVED_PER_UPDATE
                    invariant
                        round <= 2,
                        grid@.len() == GRID_CELLS,
                        round == 0 ==> grid@ == q0,
                        round == 1 ==> grid@ == shift(q0, 1, 41),
                        round == 2 ==> grid@ == shift(shift(q0, 1, 41), 1, 41),
                    decreases 2 - round,
                {
                    // move letters to the right putting one letter in the letter queue
                    shift_columns(&mut grid, 1, MAX_LINE_LENGTH + 1);
                    round = round + 1;
                }
                self.letter_queue = grid;
                if sorting_area_is_empty(&self.letter_queue) {
                    self.phase = SorterPhase::Ready;
                }
            },
        }
    }

    /// Advances the letter machine to the time `now` (milliseconds on the
    /// game's clock): the auto typers type, the letters leaving the queue
    /// are typed, the queue moves and the sorter takes a step. Returns the
    /// letters typed.
    pub fn update(&mut self, now: u64, library: &TextLibrary) -> (r: String)
        requires
            old(self).can_update(now, library),
        ensures
            machine_step(*old(self), *final(self), now, library, r@),
    {
        self.increment_letter_counts(now);
        let processed = self.process_letter_queue();
        self.run_queue(now);
        self.run_sorter(now, library);
        processed
    }
}


/// How a letter's count is coloured: red at zero, orange below ten, green
/// from ten.
#[derive(Clone, Copy, Debug, PartialEq, Eq, Structural)]
pub enum CountColor {
    Red,
    Orange,
    Green,
}

pub fn count_color(count: u32) -> (r: CountColor)
    ensures
        r == if count == 0 {
            CountColor::Red
        } else if count < 10 {
            CountColor::Orange
        } else {
            CountColor::Green
        },
{
    if count == 0 {
        CountColor::Red
    } else if count < 10 {
        CountColor::Orange
    } else {
        CountColor::Green
    }
}

/// The cells of letter row `j` across the grid, left to right.
pub open spec fn grid_row(q: Seq<char>, j: int) -> Seq<char> {
    Seq::new(QUEUE_COLUMNS as nat, |i: int| q[cell_index(i, j)])
}

/// The pane's line for letter row `j`: the cells, the letter, its count.
pub open spec fn letter_row_text(q: Seq<char>, counts: LetterCounts, j: int) -> Seq<char> {
    grid_row(q, j) + seq![' ', letter_of(j), ' '] + decimal(counts.count(letter_of(j)) as nat)
}

impl AutoQueue {
    pub fn title() -> (r: &'static str)
        ensures
            r@ == "Keys"@,
    {
        "Keys"
    }

    /// The machine's column: as wide as the pane beside other panes,
    /// filling the screen otherwise.
    pub fn column_constraint(ctx: &LayoutContext) -> (r: Option<Constraint>)
        ensures
            r == Some(
                if ctx.text_active || ctx.upgrade_active || ctx.graph_active {
                    Constraint::Length(58)
                } else {
                    Constraint::Fill(1)
                },
            ),
    {
        if ctx.has_side_neighbors(ModuleId::AutoQueue) {
            Some(Constraint::Length(Self::pane_width()))
        } else {
            Some(Constraint::Fill(1))
        }
    }

    fn letter_row(&self, j: usize) -> (r: String)
        requires
            self.wf(),
            j < NUM_LETTERS,
        ensures
            r@ == letter_row_text(self.letter_queue@, self.letter_counts, j as int),
    {
        let mut s = String::new();
        let mut i: usize = 0;
        while i < QUEUE_COLUMNS
            invariant
                self.wf(),
                j < NUM_LETTERS,
                i <= QUEUE_COLUMNS,
                s@ == grid_row(self.letter_queue@, j as int).subrange(0, i as int),
            decreases QUEUE_COLUMNS - i,
        {
            push_char(&mut s, self.letter_queue[i * NUM_LETTERS + j]);
            i = i + 1;
            proof {
                assert(s@ =~= grid_row(self.letter_queue@, j as int).subrange(0, i as int));
            }
        }
        let letter = idx_to_letter(j);
        push_char(&mut s, ' ');
        push_char(&mut s, letter);
        push_char(&mut s, ' ');
        push_decimal(&mut s, self.letter_counts.count_of(letter) as u64);
        proof {
            assert(grid_row(self.letter_queue@, j as int).subrange(0, QUEUE_COLUMNS as int) =~= grid_row(
                self.letter_queue@,
                j as int,
            ));
            assert(s@ =~= letter_row_text(self.letter_queue@, self.letter_counts, j as int));
        }
        s
    }

    /// The pane's lines for `height` rows inside its borders: the coming
    /// lines of the machine's text, the furthest first, then a line per
    /// letter with its cells across the grid, the letter and its count.
    pub fn render_texts(&self, height: usize, library: &TextLibrary) -> (r: Vec<String>)
        requires
            self.wf(),
            height >= NUM_LETTERS,
            height > NUM_LETTERS ==> self.auto_current_line + (height - NUM_LETTERS) <= library.lines(
                self.auto_current_text,
            ).len(),
        ensures
            r@.len() == height,
            forall|i: int|
                0 <= i < height - NUM_LETTERS ==> (#[trigger] r@[i])@ == library.lines(
                    self.auto_current_text,
                )[self.auto_current_line + (height - NUM_LETTERS - 1 - i)],
            forall|j: int|
                0 <= j < NUM_LETTERS ==> (#[trigger] r@[height - NUM_LETTERS + j])@
                    == letter_row_text(self.letter_queue@, self.letter_counts, j),
    {
        let source_length = height - NUM_LETTERS;
        let count = library.line_count(self.auto_current_text);
        let mut lines: Vec<String> = Vec::new();
        let mut k: usize = 0;
        while k < source_length
            invariant
                source_length == height - NUM_LETTERS,
                count == library.lines(self.auto_current_text).len(),
                k <= source_length,
                lines@.len() == k,
                source_length > 0 ==> self.auto_current_line + source_length <= library.lines(
                    self.auto_current_text,
                ).len(),
                forall|i: int|
                    0 <= i < k ==> (#[trigger] lines@[i])@ == library.lines(
                        self.auto_current_text,
                    )[self.auto_current_line + (source_length - 1 - i)],
            decreases source_length - k,
        {
            let line_idx = self.auto_current_line + (source_length - 1 - k);
            let mut line = String::new();
            push_str(&mut line, get_lines_from_source(library, self.auto_current_text, line_idx));
            lines.push(line);
            k = k + 1;
        }
        let mut j: usize = 0;
        while j < NUM_LETTERS
            invariant
                self.wf(),
                source_length == height - NUM_LETTERS,
                j <= NUM_LETTERS,
                lines@.len() == source_length + j,
                forall|i: int|
                    0 <= i < source_length ==> (#[trigger] lines@[i])@ == library.lines(
                        self.auto_current_text,
                    )[self.auto_current_line + (source_length - 1 - i)],
                forall|m: int|
                    0 <= m < j ==> (#[trigger] lines@[source_length + m])@ == letter_row_text(
                        self.letter_queue@,
                        self.letter_counts,
                        m,
                    ),
            decreases NUM_LETTERS - j,
        {
            let row = self.letter_row(j);
            lines.push(row);
            j = j + 1;
        }
        lines
    }
}


/// No count is above the maximum.
pub open spec fn counts_capped(counts: Map<char, u32>) -> bool {
    forall|c: char| #[trigger] counts.contains_key(c) ==> counts[c] <= MAX_LETTER_COUNT
}

/// A tick of the letter machine never takes a letter's count past the
/// maximum: the auto typers stop at it and the queue only spends.
pub proof fn lemma_machine_step_keeps_counts_capped(
    before: AutoQueue,
    after: AutoQueue,
    now: u64,
    library: &TextLibrary,
    typed: Seq<char>,
)
    requires
        counts_capped(before.letter_counts@),
        machine_step(before, after, now, library, typed),
    ensures
        counts_capped(after.letter_counts@),
{
    let typers = before.auto_typer_selector.auto_typer_counts@;
    let counts = if elapsed(before.last_letter_increment, now) >= LETTER_INCREMENT_DELAY {
        counts_after_typing(before.letter_counts@, typers)
    } else {
        before.letter_counts@
    };
    assert(counts_capped(counts_after_typing(before.letter_counts@, typers)));
    assert(counts_capped(counts));
    assert(counts_capped(counts_after_spending(before.letter_queue@, counts)));
}


/// The row a character ends in: its letter's row, or the last row for
/// anything that is not a lower-case letter.
pub open spec fn home_row(c: char) -> int {
    if 'a' <= c && c <= 'z' {
        c as int - 97
    } else {
        25
    }
}

/// The grid while a line is sorted, after the rows of the first `n`
/// letters are done: each character of the line is in its own column, in
/// its home row if that row is done and in row `n` otherwise; the rest of
/// the sorting area is empty and the queue columns are as in `q`.
pub open spec fn sorting_progress(q: Seq<char>, line: Seq<char>, n: int) -> Seq<char> {
    Seq::new(
        q.len(),
        |k: int|
            if 0 <= k < 40 * 26 {
                let i = k / 26;
                let j = k % 26;
                if i < line.len() && j == (if home_row(line[i]) < n {
                    home_row(line[i])
                } else {
                    n
                }) {
                    line[i]
                } else {
                    ' '
                }
            } else {
                q[k]
            },
    )
}

proof fn lemma_sorting_step(q: Seq<char>, line: Seq<char>, n: int)
    requires
        q.len() == GRID_CELLS,
        line.len() <= 40,
        0 <= n < 25,
    ensures
        sort_step(sorting_progress(q, line, n), n) == sorting_progress(q, line, n + 1),
{
    let a = sorting_progress(q, line, n);
    let b = sort_step(a, n);
    let c = sorting_progress(q, line, n + 1);
    assert forall|k: int| 0 <= k < b.len() implies b[k] == c[k] by {
        if 0 <= k < 40 * 26 {
            let i = k / 26;
            let j = k % 26;
            if j == n + 1 {
                assert((k - 1) / 26 == i);
                assert((k - 1) % 26 == n);
            }
        }
    }
    assert(b =~= c);
}

/// The sorter's state after moves at the given times, one after the other:
/// `(grid, phase, sorted rows, next text line, last move)`. Only a ready
/// sorter reads the next line, which is `line` here.
pub open spec fn sorter_moves(
    start: (Seq<char>, SorterPhase, int, int, u64),
    times: Seq<u64>,
    line: Seq<char>,
) -> (Seq<char>, SorterPhase, int, int, u64)
    decreases times.len(),
{
    if times.len() == 0 {
        start
    } else {
        let s = sorter_moves(start, times.drop_last(), line);
        sorter_step(s.0, s.1, s.2, s.3, s.4, times.last(), line)
    }
}

#[verifier::spinoff_prover]
proof fn lemma_sorter_moves_progress(
    start: (Seq<char>, SorterPhase, int, int, u64),
    times: Seq<u64>,
    line: Seq<char>,
    n: int,
)
    requires
        start.0.len() == GRID_CELLS,
        sorting_area_empty(start.0),
        start.1 == SorterPhase::Ready,
        line.len() <= 40,
        1 <= n <= 26,
        n <= times.len(),
        forall|k: int|
            1 <= k < times.len() ==> elapsed(#[trigger] times[k - 1], times[k]) >= SORTING_DELAY,
    ensures
        sorter_moves(start, times.take(n), line) == (
            sorting_progress(start.0, line, n - 1),
            SorterPhase::Sorting,
            n - 1,
            start.3 + 1,
            times[n - 1],
        ),
    decreases n,
{
    let before = sorter_moves(start, times.take(n - 1), line);
    assert(times.take(n).drop_last() =~= times.take(n - 1));
    assert(times.take(n).last() == times[n - 1]);
    assert(sorter_moves(start, times.take(n), line) == sorter_step(
        before.0,
        before.1,
        before.2,
        before.3,
        before.4,
        times[n - 1],
        line,
    ));
    if n == 1 {
        assert(times.take(0) =~= Seq::<u64>::empty());
        assert(before == start);
        assert(load_line(start.0, line) =~= sorting_progress(start.0, line, 0));
    } else {
        lemma_sorter_moves_progress(start, times, line, n - 1);
        assert(elapsed(times[n - 2], times[n - 1]) >= SORTING_DELAY);
        lemma_sorting_step(start.0, line, n - 2);
    }
}

/// A whole sorting cycle of the sorter: from ready, with an empty sorting
/// area and a next line of at most 40 characters, 27 moves each coming at
/// least the sorting delay after the one before (the first loads the line,
/// the next 25 sort the rows of `a` to `y`, the last turns to queueing)
/// leave every character of the line in its own column and in its letter's
/// row (the last row for anything else), the rest of the sorting area
/// empty, the queue columns untouched and the sorter queueing.
pub proof fn lemma_sorting_cycle(
    start: (Seq<char>, SorterPhase, int, int, u64),
    times: Seq<u64>,
    line: Seq<char>,
)
    requires
        start.0.len() == GRID_CELLS,
        sorting_area_empty(start.0),
        start.1 == SorterPhase::Ready,
        line.len() <= 40,
        times.len() == 27,
        forall|k: int|
            1 <= k < times.len() ==> elapsed(#[trigger] times[k - 1], times[k]) >= SORTING_DELAY,
    ensures
        sorter_moves(start, times, line) == (
            sorting_progress(start.0, line, 26),
            SorterPhase::Queueing,
            25int,
            start.3 + 1,
            times[26],
        ),
        forall|i: int|
            0 <= i < line.len() ==> #[trigger] sorter_moves(start, times, line).0[i * 26
                + home_row(line[i])] == line[i],
{
    lemma_sorter_moves_progress(start, times, line, 26);
    assert(times.take(27) =~= times);
    assert(times.drop_last() =~= times.take(26));
    assert(elapsed(times[25], times[26]) >= SORTING_DELAY);
    assert(sorting_progress(start.0, line, 25) =~= sorting_progress(start.0, line, 26));
    assert forall|i: int| 0 <= i < line.len() implies #[trigger] sorter_moves(start, times, line).0[i
        * 26 + home_row(line[i])] == line[i] by {
        let k = i * 26 + home_row(line[i]);
        assert(k / 26 == i);
        assert(k % 26 == home_row(line[i]));
    }
}

} // verus!
