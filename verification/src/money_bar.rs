//! The money bar along the top of the screen: the money, the trust level
//! once it matters, and the seniority title once there is one.
use crate::game::Game;
use crate::layout::Constraint;
use crate::text::{decimal, push_char, push_decimal, push_str};
use vstd::prelude::*;

verus! {

/// The height of the bar, borders included.
pub const MONEY_BAR_HEIGHT: u16 = 3;

pub struct MoneyBar;

/// An integer in decimal, with a minus sign when it is negative.
pub open spec fn signed_decimal(n: int) -> Seq<char> {
    if n < 0 {
        seq!['-'] + decimal((-n) as nat)
    } else {
        decimal(n as nat)
    }
}

/// The roman numeral of a seniority level, from none to five.
pub open spec fn numeral(level: int) -> Seq<char> {
    if level == 0 {
        "I"@
    } else if level == 1 {
        "II"@
    } else if level == 2 {
        "III"@
    } else if level == 3 {
        "IV"@
    } else if level == 4 {
        "V"@
    } else {
        "VI"@
    }
}

/// The bar's text for written money `money`: the trust level is shown once
/// it is not zero or trust is unlocked, the seniority title once there is a
/// level of it.
pub open spec fn bar_text(money: Seq<char>, trust_level: i32, streaks_unlocked: bool, seniority_level: u8) -> Seq<char> {
    let trust = if trust_level != 0 || streaks_unlocked {
        " (Trust: "@ + signed_decimal(trust_level as int) + "%)"@
    } else {
        Seq::empty()
    };
    let title = if seniority_level > 0 {
        " Typer "@ + numeral(seniority_level as int)
    } else {
        Seq::empty()
    };
    "Money: "@ + money + trust + title
}

fn numeral_str(level: u8) -> (r: &'static str)
    requires
        level <= 5,
    ensures
        r@ == numeral(level as int),
{
    if level == 0 {
        "I"
    } else if level == 1 {
        "II"
    } else if level == 2 {
        "III"
    } else if level == 3 {
        "IV"
    } else if level == 4 {
        "V"
    } else {
        "VI"
    }
}

/// Appends an integer in decimal.
fn push_signed(s: &mut String, n: i32)
    ensures
        final(s)@ == old(s)@ + signed_decimal(n as int),
{
    if n < 0 {
        push_char(s, '-');
        let m: i64 = n as i64;
        push_decimal(s, (-m) as u64);
    } else {
        push_decimal(s, n as u64);
    }
    proof {
        assert(final(s)@ =~= old(s)@ + signed_decimal(n as int));
    }
}

impl MoneyBar {
    pub fn title() -> (r: &'static str)
        ensures
            r@ == "Money"@,
    {
        "Money"
    }

    /// The bar takes three rows.
    pub fn height_constraint() -> (r: Constraint)
        ensures
            r == Constraint::Length(MONEY_BAR_HEIGHT),
    {
        Constraint::Length(MONEY_BAR_HEIGHT)
    }

    /// The text of the bar, `money` being the written money. There are
    /// titles for seniority levels up to five.
    pub fn bar_line(game: &Game, money: &str) -> (r: String)
        requires
            game.game_state.seniority_level <= 5,
        ensures
            r@ == bar_text(
                money@,
                game.game_state.trust_level,
                game.game_state.streaks_unlocked,
                game.game_state.seniority_level,
            ),
    {
        let s0 = "Money: ";
        let s1 = " (Trust: ";
        let s2 = "%)";
        let s3 = " Typer ";
        proof {
            reveal_strlit("Money: ");
            reveal_strlit(" (Trust: ");
            reveal_strlit("%)");
            reveal_strlit(" Typer ");
        }
        let mut s = String::new();
        push_str(&mut s, s0);
        push_str(&mut s, money);
        if game.game_state.trust_level != 0 || game.game_state.streaks_unlocked {
            push_str(&mut s, s1);
            push_signed(&mut s, game.game_state.trust_level);
            push_str(&mut s, s2);
        }
        if game.game_state.seniority_level > 0 {
            push_str(&mut s, s3);
            push_str(&mut s, numeral_str(game.game_state.seniority_level));
        }
        proof {
            assert(s@ =~= bar_text(
                money@,
                game.game_state.trust_level,
                game.game_state.streaks_unlocked,
                game.game_state.seniority_level,
            ));
        }
        s
    }
}

} // verus!
