//! The answers to the questions asked when a game starts and ends: whether
//! to load or save, and how to save.
use crate::names::{chars_equal, normalize, normalized};
use vstd::prelude::*;

verus! {

/// What to do with the save file the game came from.
#[derive(Clone, Copy, Debug, PartialEq, Eq, Structural)]
pub enum ExitSaveChoice {
    Save,
    SaveAs,
    Skip,
}

/// The answer to a yes-or-no question, read in any case and without the
/// surrounding whitespace: nothing takes the default, `y`/`yes` and `n`/`no`
/// answer it, anything else asks again (`None`).
pub open spec fn yes_no(line: Seq<char>, default_yes: bool) -> Option<bool> {
    let a = normalized(line);
    if a.len() == 0 {
        Some(default_yes)
    } else if a == "y"@ || a == "yes"@ {
        Some(true)
    } else if a == "n"@ || a == "no"@ {
        Some(false)
    } else {
        None
    }
}

/// The answer to "save to the same file?": nothing or yes saves there, no
/// skips saving, `a`, `s`, `save as` or `saveas` asks for another file;
/// anything else asks again (`None`).
pub open spec fn save_choice(line: Seq<char>) -> Option<ExitSaveChoice> {
    let a = normalized(line);
    if a.len() == 0 || a == "y"@ || a == "yes"@ {
        Some(ExitSaveChoice::Save)
    } else if a == "n"@ || a == "no"@ {
        Some(ExitSaveChoice::Skip)
    } else if a == "a"@ || a == "s"@ || a == "save as"@ || a == "saveas"@ {
        Some(ExitSaveChoice::SaveAs)
    } else {
        None
    }
}

/// The answers to the two questions, in any case and without the
/// surrounding whitespace: nothing takes the default of a yes-or-no question
/// and saves to the same file; `y` and `yes` say yes and save there; `n` and
/// `no` say no and skip saving; `a`, `s`, `save as` and `saveas` ask for
/// another file. A yes or a no means the same to both questions.
#[verifier::spinoff_prover]
#[verifier::rlimit(40)]
pub proof fn lemma_answers(line: Seq<char>, default_yes: bool)
    ensures
        normalized(line).len() == 0 ==> yes_no(line, default_yes) == Some(default_yes),
        normalized(line) == "y"@ || normalized(line) == "yes"@ ==> yes_no(line, default_yes)
            == Some(true),
        normalized(line) == "n"@ || normalized(line) == "no"@ ==> yes_no(line, default_yes)
            == Some(false),
        normalized(line).len() == 0 || normalized(line) == "y"@ || normalized(line) == "yes"@
            ==> save_choice(line) == Some(ExitSaveChoice::Save),
        normalized(line) == "n"@ || normalized(line) == "no"@ ==> save_choice(line) == Some(
            ExitSaveChoice::Skip,
        ),
        normalized(line) == "a"@ || normalized(line) == "s"@ || normalized(line) == "save as"@
            || normalized(line) == "saveas"@ ==> save_choice(line) == Some(ExitSaveChoice::SaveAs),
        save_choice(line) == Some(ExitSaveChoice::Save) <==> yes_no(line, true) == Some(true),
        save_choice(line) == Some(ExitSaveChoice::Skip) <==> yes_no(line, true) == Some(false),
{
    reveal_strlit("y");
    reveal_strlit("yes");
    reveal_strlit("n");
    reveal_strlit("no");
    reveal_strlit("a");
    reveal_strlit("s");
    reveal_strlit("save as");
    reveal_strlit("saveas");
    let t = normalized(line);
    if t == "y"@ {
        assert(t[0] == 'y');
    }
    if t == "yes"@ {
        assert(t[0] == 'y');
    }
    if t == "n"@ {
        assert(t[0] == 'n');
    }
    if t == "no"@ {
        assert(t[0] == 'n');
    }
    if t == "a"@ {
        assert(t[0] == 'a');
    }
    if t == "s"@ {
        assert(t[0] == 's');
    }
    if t == "save as"@ {
        assert(t[0] == 's' && t[4] == ' ' && t[5] == 'a');
    }
    if t == "saveas"@ {
        assert(t[0] == 's' && t[4] == 'a' && t[5] == 's');
    }
}

pub fn yes_no_answer(line: &str, default_yes: bool) -> (r: Option<bool>)
    ensures
        r == yes_no(line@, default_yes),
        normalized(line@).len() == 0 ==> r == Some(default_yes),
        normalized(line@) == "y"@ || normalized(line@) == "yes"@ ==> r == Some(true),
        normalized(line@) == "n"@ || normalized(line@) == "no"@ ==> r == Some(false),
{
    proof {
        lemma_answers(line@, default_yes);
    }
    let a = normalize(line);
    if a.len() == 0 {
        Some(default_yes)
    } else if chars_equal(&a, "y") || chars_equal(&a, "yes") {
        Some(true)
    } else if chars_equal(&a, "n") || chars_equal(&a, "no") {
        Some(false)
    } else {
        None
    }
}

pub fn exit_save_choice(line: &str) -> (r: Option<ExitSaveChoice>)
    ensures
        r == save_choice(line@),
        normalized(line@).len() == 0 || normalized(line@) == "y"@ || normalized(line@) == "yes"@
            ==> r == Some(ExitSaveChoice::Save),
        normalized(line@) == "n"@ || normalized(line@) == "no"@ ==> r == Some(ExitSaveChoice::Skip),
        normalized(line@) == "a"@ || normalized(line@) == "s"@ || normalized(line@) == "save as"@
            || normalized(line@) == "saveas"@ ==> r == Some(ExitSaveChoice::SaveAs),
{
    proof {
        lemma_answers(line@, true);
    }
    let a = normalize(line);
    if a.len() == 0 || chars_equal(&a, "y") || chars_equal(&a, "yes") {
        Some(ExitSaveChoice::Save)
    } else if chars_equal(&a, "n") || chars_equal(&a, "no") {
        Some(ExitSaveChoice::Skip)
    } else if chars_equal(&a, "a") || chars_equal(&a, "s") || chars_equal(&a, "save as")
        || chars_equal(&a, "saveas") {
        Some(ExitSaveChoice::SaveAs)
    } else {
        None
    }
}

} // verus!
