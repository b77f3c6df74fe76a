//! The upgrade pane: the list of upgrades that can be bought, one line each
//! with its key, its level, its price, its name and what it does.
use crate::game::{Game, UPGRADE_KEYS};
use crate::layout::{Constraint, UPGRADE_MIN_ROWS};
use crate::text::{
    decimal, pad_left, pad_right, push_char, push_decimal, push_padded_left, push_padded_right,
    push_str,
};
use crate::upgrade::{infinite, level_count, upgrade_description, upgrade_name, UpgradeId};
use vstd::prelude::*;

verus! {

pub struct UpgradePane;

/// The key shown in front of the `i`-th listed upgrade.
pub open spec fn key_label(i: int) -> char {
    if 0 <= i < 10 {
        UPGRADE_KEYS@[i]
    } else {
        '?'
    }
}

/// `(level/levels)` for an upgrade with levels; nothing for one that can be
/// bought again and again.
pub open spec fn level_text(id: UpgradeId, level: nat) -> Seq<char> {
    if infinite(id) {
        Seq::empty()
    } else {
        seq!['('] + decimal(level) + seq!['/'] + decimal(level_count(id)) + seq![')']
    }
}

/// The length of the longest of `texts` (zero for none).
pub open spec fn max_width(texts: Seq<Seq<char>>) -> nat
    decreases texts.len(),
{
    if texts.len() == 0 {
        0
    } else {
        let rest = max_width(texts.drop_last());
        if texts.last().len() > rest {
            texts.last().len()
        } else {
            rest
        }
    }
}

/// One line of the list: `[key] level price name --- description`, the
/// level, price and name columns padded to widths `lw`, `cw` and `nw` (the
/// price to the right); with no level column, `[key] price name description`.
pub open spec fn row_text(
    key: char,
    level: Seq<char>,
    cost: Seq<char>,
    name: Seq<char>,
    description: Seq<char>,
    lw: nat,
    cw: nat,
    nw: nat,
) -> Seq<char> {
    if lw > 0 {
        seq!['[', key, ']', ' '] + pad_right(level, lw) + seq![' '] + pad_left(cost, cw) + seq![' ']
            + pad_right(name, nw) + " --- "@ + description
    } else {
        seq!['[', key, ']', ' '] + pad_left(cost, cw) + seq![' '] + pad_right(name, nw) + seq![' ']
            + description
    }
}

/// The level texts of the listed upgrades.
pub open spec fn level_texts(game: Game, shown: Seq<UpgradeId>) -> Seq<Seq<char>> {
    Seq::new(
        shown.len(),
        |i: int| level_text(shown[i], game.game_state.upgrade_levels.level(shown[i]) as nat),
    )
}

/// The names of the listed upgrades.
pub open spec fn name_texts(shown: Seq<UpgradeId>) -> Seq<Seq<char>> {
    Seq::new(shown.len(), |i: int| upgrade_name(shown[i]))
}

/// The views of some strings.
pub open spec fn views(v: Seq<String>) -> Seq<Seq<char>> {
    Seq::new(v.len(), |i: int| v[i]@)
}

/// The length of the longest of some strings.
fn widest(texts: &Vec<String>) -> (r: usize)
    ensures
        r == max_width(views(texts@)),
{
    let mut w: usize = 0;
    let mut i: usize = 0;
    while i < texts.len()
        invariant
            i <= texts@.len(),
            w == max_width(views(texts@.subrange(0, i as int))),
        decreases texts.len() - i,
    {
        let n = texts[i].as_str().unicode_len();
        proof {
            assert(views(texts@.subrange(0, i + 1)).drop_last() =~= views(
                texts@.subrange(0, i as int),
            ));
        }
        if n > w {
            w = n;
        }
        i = i + 1;
    }
    proof {
        assert(texts@.subrange(0, i as int) =~= texts@);
    }
    w
}

impl UpgradePane {
    pub fn title() -> (r: &'static str)
        ensures
            r@ == "Upgrades"@,
    {
        "Upgrades"
    }

    /// The row the pane takes in the main column: at least five lines.
    pub fn main_column_row_constraint() -> (r: Option<Constraint>)
        ensures
            r == Some(Constraint::Min(UPGRADE_MIN_ROWS)),
    {
        Some(Constraint::Min(UPGRADE_MIN_ROWS))
    }

    fn level_string(id: UpgradeId, level: usize) -> (r: String)
        ensures
            r@ == level_text(id, level as nat),
    {
        let mut s = String::new();
        if !id.is_infinite() {
            push_char(&mut s, '(');
            push_decimal(&mut s, level as u64);
            push_char(&mut s, '/');
            push_decimal(&mut s, id.max_level() as u64);
            push_char(&mut s, ')');
        }
        proof {
            assert(s@ =~= level_text(id, level as nat));
        }
        s
    }

    fn row_string(
        key: char,
        level: &str,
        cost: &str,
        name: &str,
        description: &str,
        lw: usize,
        cw: usize,
        nw: usize,
    ) -> (r: String)
        ensures
            r@ == row_text(key, level@, cost@, name@, description@, lw as nat, cw as nat, nw as nat),
    {
        let mut s = String::new();
        push_char(&mut s, '[');
        push_char(&mut s, key);
        push_char(&mut s, ']');
        push_char(&mut s, ' ');
        if lw > 0 {
            push_padded_right(&mut s, level, lw);
            push_char(&mut s, ' ');
            push_padded_left(&mut s, cost, cw);
            push_char(&mut s, ' ');
            push_padded_right(&mut s, name, nw);
            let sep = " --- ";
            proof {
                reveal_strlit(" --- ");
            }
            push_str(&mut s, sep);
            push_str(&mut s, description);
        } else {
            push_padded_left(&mut s, cost, cw);
            push_char(&mut s, ' ');
            push_padded_right(&mut s, name, nw);
            push_char(&mut s, ' ');
            push_str(&mut s, description);
        }
        proof {
            assert(s@ =~= row_text(
                key,
                level@,
                cost@,
                name@,
                description@,
                lw as nat,
                cw as nat,
                nw as nat,
            ));
        }
        s
    }

    /// The lines of the list, for the upgrades `shown` in order, `costs[i]`
    /// being the written price of the next level of `shown[i]`. The level,
    /// price and name columns are as wide as their widest entry.
    pub fn render_rows(game: &Game, shown: &Vec<UpgradeId>, costs: &Vec<String>) -> (r: Vec<String>)
        requires
            costs@.len() == shown@.len(),
        ensures
            r@.len() == shown@.len(),
            forall|i: int|
                0 <= i < shown@.len() ==> (#[trigger] r@[i])@ == row_text(
                    key_label(i),
                    level_texts(*game, shown@)[i],
                    costs@[i]@,
                    upgrade_name(shown@[i]),
                    upgrade_description(shown@[i]),
                    max_width(level_texts(*game, shown@)),
                    max_width(views(costs@)),
                    max_width(name_texts(shown@)),
                ),
    {
        let mut levels: Vec<String> = Vec::new();
        let mut names: Vec<String> = Vec::new();
        let mut i: usize = 0;
        while i < shown.len()
            invariant
                i <= shown@.len(),
                levels@.len() == i,
                names@.len() == i,
                forall|k: int|
                    0 <= k < i ==> (#[trigger] levels@[k])@ == level_texts(*game, shown@)[k],
                forall|k: int| 0 <= k < i ==> (#[trigger] names@[k])@ == name_texts(shown@)[k],
            decreases shown.len() - i,
        {
            let id = shown[i];
            levels.push(Self::level_string(id, game.game_state.upgrade_levels.get(id)));
            let mut name = String::new();
            push_str(&mut name, id.name());
            names.push(name);
            i = i + 1;
        }
        proof {
            assert(views(levels@) =~= level_texts(*game, shown@));
            assert(views(names@) =~= name_texts(shown@));
        }
        let lw = widest(&levels);
        let cw = widest(costs);
        let nw = widest(&names);
        let mut rows: Vec<String> = Vec::new();
        let mut j: usize = 0;
        while j < shown.len()
            invariant
                j <= shown@.len(),
                costs@.len() == shown@.len(),
                levels@.len() == shown@.len(),
                rows@.len() == j,
                forall|k: int|
                    0 <= k < shown@.len() ==> (#[trigger] levels@[k])@ == level_texts(*game, shown@)[k],
                lw == max_width(level_texts(*game, shown@)),
                cw == max_width(views(costs@)),
                nw == max_width(name_texts(shown@)),
                forall|k: int|
                    0 <= k < j ==> (#[trigger] rows@[k])@ == row_text(
                        key_label(k),
                        level_texts(*game, shown@)[k],
                        costs@[k]@,
                        upgrade_name(shown@[k]),
                        upgrade_description(shown@[k]),
                        lw as nat,
                        cw as nat,
                        nw as nat,
                    ),
            decreases shown.len() - j,
        {
            let id = shown[j];
            let key = if j < 10 {
                UPGRADE_KEYS[j]
            } else {
                '?'
            };
            let row = Self::row_string(
                key,
                levels[j].as_str(),
                costs[j].as_str(),
                id.name(),
                id.description(),
                lw,
                cw,
                nw,
            );
            rows.push(row);
            j = j + 1;
        }
        rows
    }
}

} // verus!
