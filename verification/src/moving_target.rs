//! Moving Target: guess a number from 0 to 100 while the target drifts a
//! little after every guess, by up to half the distance between the last two
//! guesses.
use crate::input::Key;
use crate::names::{ascii_lower, trim_chars, trimmed};
use crate::text::{chars_of, decimal, push_char, push_decimal, push_str, string_from_chars};
use vstd::prelude::*;

verus! {

/// `rand::random_range(lo..hi)`.
/// Trusted: the result lies in `lo..hi` (the range is not empty); which
/// value it is rests on chance and is not stated.
#[verifier::external_body]
fn random_range(lo: i32, hi: i32) -> (r: i32)
    requires
        lo < hi,
    ensures
        lo <= r < hi,
{
    rand::random_range(lo..hi)
}

/// `format!("{:?}", s)`: the string in double quotes, its special characters
/// escaped.
pub uninterp spec fn debug_quoted(s: Seq<char>) -> Seq<char>;

/// `<str as Debug>::fmt`, through `format!("{:?}")`.
/// Trusted: the result is the named quoted form of `s`, which begins and
/// ends with a double quote; how each character is escaped is not stated.
#[verifier::external_body]
fn debug_string(s: &str) -> (r: String)
    ensures
        r@ == debug_quoted(s@),
        r@.len() >= 2,
        r@[0] == '"',
        r@.last() == '"',
{
    format!("{:?}", s)
}

/// The state of a round.
#[derive(Clone, Copy, Debug, PartialEq, Eq, Structural)]
pub struct Game {
    pub target: i32,
    pub prev_guess: Option<i32>,
    pub won: bool,
}

/// What a guess gets.
#[derive(Clone, Copy, Debug, PartialEq, Eq, Structural)]
pub enum Verdict {
    OutOfRange,
    Repeated,
    TooHigh,
    TooLow,
    Won,
}

pub open spec fn verdict_text(v: Verdict) -> Seq<char> {
    match v {
        Verdict::OutOfRange => "Please enter a number between 0 and 100."@,
        Verdict::Repeated => "You guessed the same number as before!"@,
        Verdict::TooHigh => "Too high!"@,
        Verdict::TooLow => "Too low!"@,
        Verdict::Won => "You guessed it! Press Esc to quit, or type 'r' + Enter to restart."@,
    }
}

/// How far the target may drift after `guess`: the distance from the
/// previous guess (ten for the first guess), at least one.
pub open spec fn drift(prev: Option<i32>, guess: i32) -> int {
    let d: int = match prev {
        Some(p) => if p >= guess {
            p - guess
        } else {
            guess - p
        },
        None => 10,
    };
    if d < 1 {
        1
    } else {
        d
    }
}

/// The least step of the target's walk for a drift `d`.
pub open spec fn walk_low(d: int) -> int {
    -(d / 2)
}

/// One past the greatest step of the target's walk for a drift `d`.
pub open spec fn walk_high(d: int) -> int {
    if d / 2 > 1 {
        d / 2
    } else {
        1
    }
}

/// `x` kept within `0..=100`.
pub open spec fn clamp100(x: int) -> int {
    if x < 0 {
        0
    } else if x > 100 {
        100
    } else {
        x
    }
}

/// A guess counts: it is within `0..=100` and differs from the last one.
pub open spec fn in_play(g: Game, guess: i32) -> bool {
    0 <= guess <= 100 && g.prev_guess != Some(guess)
}

/// The round after `guess`, the target having walked `walk`, and the verdict.
pub open spec fn guessed(g: Game, guess: i32, walk: int) -> (Game, Verdict) {
    if !(0 <= guess <= 100) {
        (g, Verdict::OutOfRange)
    } else if g.prev_guess == Some(guess) {
        (g, Verdict::Repeated)
    } else {
        let target = clamp100(g.target + walk);
        let verdict = if target < guess {
            Verdict::TooHigh
        } else if target > guess {
            Verdict::TooLow
        } else {
            Verdict::Won
        };
        (
            Game { target: target as i32, prev_guess: Some(guess), won: g.won || verdict == Verdict::Won },
            verdict,
        )
    }
}

impl Game {
    /// The target and the last guess lie within `0..=100`.
    pub open spec fn wf(self) -> bool {
        &&& 0 <= self.target <= 100
        &&& self.prev_guess matches Some(p) ==> 0 <= p <= 100
    }

    /// A new round with a target drawn from `0..100`.
    pub fn new() -> (r: Game)
        ensures
            r.wf(),
            r.target < 100,
            r.prev_guess is None,
            !r.won,
    {
        Game { target: random_range(0, 100), prev_guess: None, won: false }
    }

    /// Applies a guess after which the target walks `walk` steps.
    pub fn guess_with_walk(&mut self, guess: i32, walk: i32) -> (r: Verdict)
        requires
            old(self).wf(),
            in_play(*old(self), guess) ==> walk_low(drift(old(self).prev_guess, guess)) <= walk
                < walk_high(drift(old(self).prev_guess, guess)),
        ensures
            final(self).wf(),
            (*final(self), r) == guessed(*old(self), guess, walk as int),
    {
        if guess < 0 || guess > 100 {
            return Verdict::OutOfRange;
        }
        if self.prev_guess == Some(guess) {
            return Verdict::Repeated;
        }
        self.prev_guess = Some(guess);
        let moved = self.target + walk;
        self.target = if moved < 0 {
            0
        } else if moved > 100 {
            100
        } else {
            moved
        };
        if self.target < guess {
            Verdict::TooHigh
        } else if self.target > guess {
            Verdict::TooLow
        } else {
            self.won = true;
            Verdict::Won
        }
    }

    /// Applies a guess and returns what it gets, for the log. The target
    /// walks a random number of steps in `walk_low(d)..walk_high(d)` for
    /// the drift `d`.
    pub fn guess(&mut self, guess: i32) -> (r: String)
        requires
            old(self).wf(),
        ensures
            final(self).wf(),
            exists|walk: int|
                #![trigger guessed(*old(self), guess, walk)]
                (in_play(*old(self), guess) ==> walk_low(drift(old(self).prev_guess, guess))
                    <= walk < walk_high(drift(old(self).prev_guess, guess))) && *final(self)
                    == guessed(*old(self), guess, walk).0 && r@ == verdict_text(
                    guessed(*old(self), guess, walk).1,
                ),
    {
        let mut walk: i32 = 0;
        if 0 <= guess && guess <= 100 && self.prev_guess != Some(guess) {
            let d: i32 = match self.prev_guess {
                Some(p) => if p >= guess {
                    p - guess
                } else {
                    guess - p
                },
                None => 10,
            };
            let d = if d < 1 {
                1
            } else {
                d
            };
            let half = d / 2;
            walk = random_range(-half, if half > 1 {
                half
            } else {
                1
            });
        }
        let ghost before = *self;
        let v = self.guess_with_walk(guess, walk);
        proof {
            assert(guessed(before, guess, walk as int).1 == v);
        }
        Self::verdict_string(v)
    }

    fn verdict_string(v: Verdict) -> (r: String)
        ensures
            r@ == verdict_text(v),
    {
        let mut s = String::new();
        match v {
            Verdict::OutOfRange => push_str(&mut s, "Please enter a number between 0 and 100."),
            Verdict::Repeated => push_str(&mut s, "You guessed the same number as before!"),
            Verdict::TooHigh => push_str(&mut s, "Too high!"),
            Verdict::TooLow => push_str(&mut s, "Too low!"),
            Verdict::Won => push_str(
                &mut s,
                "You guessed it! Press Esc to quit, or type 'r' + Enter to restart.",
            ),
        }
        s
    }

    /// Starts a new round.
    pub fn reset(&mut self)
        ensures
            final(self).wf(),
            final(self).target < 100,
            final(self).prev_guess is None,
            !final(self).won,
    {
        *self = Self::new();
    }
}


/// The value of a run of decimal digits.
pub open spec fn digits_value(s: Seq<char>) -> int
    decreases s.len(),
{
    if s.len() == 0 {
        0
    } else {
        digits_value(s.drop_last()) * 10 + (s.last() as int - 48)
    }
}

pub open spec fn all_digits(s: Seq<char>) -> bool {
    forall|i: int| 0 <= i < s.len() ==> '0' <= #[trigger] s[i] && s[i] <= '9'
}

/// What `str::parse::<i32>` makes of `s`: an optional sign, then one digit
/// or more, whose value fits in an `i32`.
pub open spec fn parsed_i32(s: Seq<char>) -> Option<i32> {
    let negative = s.len() > 0 && s[0] == '-';
    let body = if s.len() > 0 && (s[0] == '-' || s[0] == '+') {
        s.drop_first()
    } else {
        s
    };
    let value = if negative {
        -digits_value(body)
    } else {
        digits_value(body)
    };
    if body.len() > 0 && all_digits(body) && i32::MIN <= value <= i32::MAX {
        Some(value as i32)
    } else {
        None
    }
}

proof fn lemma_digits_value_grows(s: Seq<char>, k: int)
    requires
        all_digits(s),
        0 <= k <= s.len(),
    ensures
        0 <= digits_value(s.take(k)) <= digits_value(s),
    decreases s.len(),
{
    if s.len() > 0 {
        if k == s.len() {
            assert(s.take(k) =~= s);
            lemma_digits_value_grows(s.drop_last(), k - 1);
            assert(s.drop_last().take(k - 1) =~= s.drop_last());
        } else {
            assert(s.drop_last().take(k) =~= s.take(k));
            lemma_digits_value_grows(s.drop_last(), k);
            lemma_digits_value_grows(s.drop_last(), s.len() - 1);
            assert(s.drop_last().take(s.len() - 1) =~= s.drop_last());
        }
    }
}

/// Reads a decimal `i32` as `str::parse` does.
pub fn parse_i32(s: &Vec<char>) -> (r: Option<i32>)
    ensures
        r == parsed_i32(s@),
{
    let n = s.len();
    let negative = n > 0 && s[0] == '-';
    let start: usize = if n > 0 && (s[0] == '-' || s[0] == '+') {
        1
    } else {
        0
    };
    let ghost body = if s@.len() > 0 && (s@[0] == '-' || s@[0] == '+') {
        s@.drop_first()
    } else {
        s@
    };
    if start == n {
        return None;
    }
    let mut value: i64 = 0;
    let mut i: usize = start;
    while i < n
        invariant
            start <= i <= n,
            n == s@.len(),
            start < n,
            body == s@.subrange(start as int, n as int),
            body == (if s@.len() > 0 && (s@[0] == '-' || s@[0] == '+') {
                s@.drop_first()
            } else {
                s@
            }),
            all_digits(s@.subrange(start as int, i as int)),
            value == digits_value(s@.subrange(start as int, i as int)),
            0 <= value <= 2147483648,
        decreases n - i,
    {
        let c = s[i];
        if c < '0' || c > '9' {
            proof {
                assert(body[i - start] == c);
                assert(!all_digits(body));
            }
            return None;
        }
        proof {
            assert(s@.subrange(start as int, i + 1).drop_last() =~= s@.subrange(start as int, i as int));
        }
        let next = value * 10 + ((c as u32 - 48) as i64);
        proof {
            assert(next == digits_value(s@.subrange(start as int, i + 1)));
        }
        if next > 2147483648 {
            proof {
                assert(all_digits(s@.subrange(start as int, i + 1)));
                if all_digits(body) {
                    lemma_digits_value_grows(body, i + 1 - start);
                    assert(body.take(i + 1 - start) =~= s@.subrange(start as int, i + 1));
                    assert(digits_value(body) > 2147483648);
                }
                assert(parsed_i32(s@) is None);
            }
            return None;
        }
        value = next;
        i = i + 1;
        proof {
            assert(all_digits(s@.subrange(start as int, i as int)));
        }
    }
    proof {
        assert(s@.subrange(start as int, n as int) =~= body);
    }
    if negative {
        Some((-value) as i32)
    } else if value <= 2147483647 {
        Some(value as i32)
    } else {
        None
    }
}

/// The log of a game: greeting first, newest line last.
pub struct App {
    pub game: Game,
    pub input: String,
    pub messages: Vec<String>,
    pub should_quit: bool,
}

/// The lines of a log.
pub open spec fn log_view(v: Seq<String>) -> Seq<Seq<char>> {
    v.map_values(|l: String| l@)
}

/// The last fifty lines of a log.
pub open spec fn kept(log: Seq<Seq<char>>) -> Seq<Seq<char>> {
    if log.len() > 50 {
        log.subrange(log.len() - 50, log.len() as int)
    } else {
        log
    }
}

/// An `i32` in decimal, with a minus sign when it is negative.
pub open spec fn number_text(n: i32) -> Seq<char> {
    if n < 0 {
        seq!['-'] + decimal((-n) as nat)
    } else {
        decimal(n as nat)
    }
}

/// Appends an `i32` in decimal.
fn push_number(s: &mut String, n: i32)
    ensures
        final(s)@ == old(s)@ + number_text(n),
{
    if n < 0 {
        push_char(s, '-');
        push_decimal(s, (-(n as i64)) as u64);
    } else {
        push_decimal(s, n as u64);
    }
    proof {
        assert(final(s)@ =~= old(s)@ + number_text(n));
    }
}

/// The log line for a guess of `n` that got `verdict`.
pub open spec fn guess_line(n: i32, verdict: Verdict) -> Seq<char> {
    "Guess "@ + number_text(n) + ": "@ + verdict_text(verdict)
}

/// The last guess as the status line shows it: a dash before any guess.
pub open spec fn last_guess(game: Game) -> Seq<char> {
    match game.prev_guess {
        Some(g) => number_text(g),
        None => "—"@,
    }
}

/// The status line: a win, or the last guess while guessing.
pub open spec fn status_line(game: Game) -> Seq<char> {
    if game.won {
        "Status: YOU WIN"@
    } else {
        "Status: Guessing…   |   Last guess: "@ + last_guess(game)
    }
}

/// The last guess as the status line shows it.
pub fn last_guess_text(game: &Game) -> (r: String)
    ensures
        r@ == last_guess(*game),
{
    let mut s = String::new();
    match game.prev_guess {
        Some(g) => push_number(&mut s, g),
        None => push_str(&mut s, "—"),
    }
    proof {
        assert(s@ =~= last_guess(*game));
    }
    s
}

/// The status line of a round.
pub fn status_text(game: &Game) -> (r: String)
    ensures
        r@ == status_line(*game),
{
    let mut s = String::new();
    if game.won {
        push_str(&mut s, "Status: YOU WIN");
    } else {
        push_str(&mut s, "Status: Guessing…   |   Last guess: ");
        let guess = last_guess_text(game);
        push_str(&mut s, guess.as_str());
    }
    proof {
        assert(s@ =~= status_line(*game));
    }
    s
}

/// The lines of the log that a box `height` rows high shows inside its
/// borders: the newest first.
pub fn visible_log(messages: &Vec<String>, height: u16) -> (r: Vec<String>)
    ensures
        r@.len() == if messages@.len() < height - 2 {
            messages@.len() as int
        } else if height >= 2 {
            height - 2
        } else {
            0
        },
        forall|i: int|
            0 <= i < r@.len() ==> (#[trigger] r@[i])@ == messages@[messages@.len() - 1 - i]@,
{
    let rows: usize = if height >= 2 {
        (height - 2) as usize
    } else {
        0
    };
    let n = messages.len();
    let mut r: Vec<String> = Vec::new();
    let mut i: usize = 0;
    while i < rows && i < n
        invariant
            i <= rows,
            i <= n,
            n == messages@.len(),
            r@.len() == i,
            forall|k: int| 0 <= k < i ==> (#[trigger] r@[k])@ == messages@[n - 1 - k]@,
        decreases n - i,
    {
        let mut line = String::new();
        push_str(&mut line, messages[n - 1 - i].as_str());
        proof {
            assert(line@ =~= messages@[n - 1 - i]@);
        }
        r.push(line);
        i = i + 1;
    }
    r
}

/// `raw` reads as the restart command `r`, in either case.
pub open spec fn is_restart(raw: Seq<char>) -> bool {
    raw.len() == 1 && ascii_lower(raw[0]) == 'r'
}

impl App {
    pub open spec fn wf(self) -> bool {
        self.game.wf()
    }

    /// A new game with the greeting in the log.
    pub fn new() -> (r: App)
        ensures
            r.wf(),
            !r.game.won && r.game.prev_guess is None,
            r.input@ == Seq::<char>::empty(),
            log_view(r.messages@) == seq![
                "Welcome to Moving Target!"@,
                "Guess a number from 0–100. The target moves after each guess."@,
                "Type a number and press Enter. Esc quits."@,
            ],
            !r.should_quit,
    {
        let mut messages: Vec<String> = Vec::new();
        let mut a = String::new();
        push_str(&mut a, "Welcome to Moving Target!");
        messages.push(a);
        let mut b = String::new();
        push_str(&mut b, "Guess a number from 0–100. The target moves after each guess.");
        messages.push(b);
        let mut c = String::new();
        push_str(&mut c, "Type a number and press Enter. Esc quits.");
        messages.push(c);
        proof {
            assert(log_view(messages@) =~= seq![
                "Welcome to Moving Target!"@,
                "Guess a number from 0–100. The target moves after each guess."@,
                "Type a number and press Enter. Esc quits."@,
            ]);
        }
        App { game: Game::new(), input: String::new(), messages, should_quit: false }
    }

    fn log(&mut self, line: String)
        ensures
            log_view(final(self).messages@) == log_view(old(self).messages@).push(line@),
            final(self).game == old(self).game,
            final(self).input == old(self).input,
            final(self).should_quit == old(self).should_quit,
    {
        self.messages.push(line);
        proof {
            assert(log_view(self.messages@) =~= log_view(old(self).messages@).push(line@));
        }
    }

    /// Keeps the last fifty lines of the log.
    fn trim_log(&mut self)
        ensures
            log_view(final(self).messages@) == kept(log_view(old(self).messages@)),
            final(self).game == old(self).game,
            final(self).input == old(self).input,
            final(self).should_quit == old(self).should_quit,
    {
        let n = self.messages.len();
        if n > 50 {
            let mut old_lines: Vec<String> = Vec::new();
            std::mem::swap(&mut old_lines, &mut self.messages);
            let ghost all = log_view(old_lines@);
            let mut rest: Vec<String> = Vec::new();
            let mut i: usize = n - 50;
            while i < n
                invariant
                    n == old_lines@.len(),
                    n > 50,
                    n - 50 <= i <= n,
                    all == log_view(old_lines@),
                    all.len() == n,
                    log_view(rest@) == all.subrange(n - 50, i as int),
                decreases n - i,
            {
                let mut copy = String::new();
                push_str(&mut copy, old_lines[i].as_str());
                proof {
                    assert(copy@ =~= old_lines@[i as int]@);
                }
                let ghost prev = rest@;
                rest.push(copy);
                i = i + 1;
                proof {
                    assert(rest@ =~= prev.push(copy));
                    assert(log_view(rest@) =~= log_view(prev).push(copy@));
                    let lo = n - 50;
                    let hi = i as int;
                    assert(0 <= lo < hi <= all.len());
                    assert(all.subrange(lo, hi) =~= all.subrange(lo, hi - 1).push(all[hi - 1]));
                    assert(log_view(rest@) =~= all.subrange(n - 50, i as int));
                }
            }
            self.messages = rest;
        }
    }

    /// Handles the typed line: `r` restarts a won game, a number is a guess,
    /// anything else is reported; blank lines are ignored. The log keeps its
    /// last fifty lines after a guess or a report.
    pub fn submit(&mut self)
        requires
            old(self).wf(),
        ensures
            final(self).wf(),
            final(self).input@ == Seq::<char>::empty(),
            final(self).should_quit == old(self).should_quit,
            ({
                let raw = trimmed(old(self).input@);
                let log = log_view(old(self).messages@);
                let new_log = log_view(final(self).messages@);
                if raw.len() == 0 {
                    new_log == log && final(self).game == old(self).game
                } else if is_restart(raw) && old(self).game.won {
                    &&& new_log == log.push("New game started."@)
                    &&& !final(self).game.won && final(self).game.prev_guess is None
                } else if old(self).game.won {
                    &&& new_log == log.push("Game over — type 'r' to restart, or Esc to quit."@)
                    &&& final(self).game == old(self).game
                } else {
                    match parsed_i32(raw) {
                        Some(n) => exists|walk: int|
                            #![trigger guessed(old(self).game, n, walk)]
                            (in_play(old(self).game, n) ==> walk_low(
                                drift(old(self).game.prev_guess, n),
                            ) <= walk < walk_high(drift(old(self).game.prev_guess, n)))
                                && final(self).game == guessed(old(self).game, n, walk).0
                                && new_log == kept(
                                log.push(guess_line(n, guessed(old(self).game, n, walk).1)),
                            ),
                        None => {
                            &&& new_log == kept(log.push("Not a number: "@ + debug_quoted(raw)))
                            &&& final(self).game == old(self).game
                        },
                    }
                }
            }),
    {
        let typed = chars_of(self.input.as_str());
        let raw_chars = trim_chars(&typed);
        self.input = String::new();
        if raw_chars.len() == 0 {
            return;
        }
        if raw_chars.len() == 1 && (raw_chars[0] == 'r' || raw_chars[0] == 'R') && self.game.won {
            self.game.reset();
            let mut line = String::new();
            push_str(&mut line, "New game started.");
            self.log(line);
            return;
        }
        if self.game.won {
            let mut line = String::new();
            push_str(&mut line, "Game over — type 'r' to restart, or Esc to quit.");
            self.log(line);
            return;
        }
        proof {
            if is_restart(raw_chars@) {
                assert(raw_chars@[0] == 'r' || raw_chars@[0] == 'R');
            }
        }
        match parse_i32(&raw_chars) {
            Some(n) => {
                let ghost before = self.game;
                let verdict = self.game.guess(n);
                let mut line = String::new();
                push_str(&mut line, "Guess ");
                push_number(&mut line, n);
                push_str(&mut line, ": ");
                push_str(&mut line, verdict.as_str());
                proof {
                    let walk = choose|walk: int|
                        #![trigger guessed(before, n, walk)]
                        (in_play(before, n) ==> walk_low(drift(before.prev_guess, n)) <= walk
                            < walk_high(drift(before.prev_guess, n))) && self.game == guessed(
                            before,
                            n,
                            walk,
                        ).0 && verdict@ == verdict_text(guessed(before, n, walk).1);
                    assert(line@ =~= guess_line(n, guessed(before, n, walk).1));
                }
                self.log(line);
            },
            None => {
                let raw = string_from_chars(&raw_chars);
                let quoted = debug_string(raw.as_str());
                let mut line = String::new();
                push_str(&mut line, "Not a number: ");
                push_str(&mut line, quoted.as_str());
                self.log(line);
            },
        }
        self.trim_log();
    }

    /// A key press: Esc quits, Enter submits the line, Backspace deletes the
    /// last character and a character is typed.
    pub fn on_key(&mut self, key: Key)
        requires
            old(self).wf(),
        ensures
            final(self).wf(),
            key == Key::Esc ==> final(self).should_quit && final(self).game == old(self).game
                && final(self).input@ == old(self).input@,
            key matches Key::Char(c) ==> final(self).input@ == old(self).input@.push(c)
                && final(self).game == old(self).game && final(self).should_quit == old(
                self,
            ).should_quit,
            key == Key::Backspace ==> final(self).input@ == (if old(self).input@.len() > 0 {
                old(self).input@.drop_last()
            } else {
                old(self).input@
            }) && final(self).game == old(self).game,
            key == Key::Enter ==> final(self).input@ == Seq::<char>::empty(),
            !(key == Key::Esc || key == Key::Enter || key == Key::Backspace || key is Char) ==> (
            final(self).input@ == old(self).input@ && final(self).game == old(self).game
                && final(self).should_quit == old(self).should_quit),
    {
        match key {
            Key::Esc => {
                self.should_quit = true;
            },
            Key::Enter => self.submit(),
            Key::Backspace => {
                let mut chars = chars_of(self.input.as_str());
                chars.pop();
                self.input = string_from_chars(&chars);
            },
            Key::Char(c) => push_char(&mut self.input, c),
            _ => {},
        }
    }
}

} // verus!
