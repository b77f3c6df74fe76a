//! The game's panes and overlays, and the facts about which of them are
//! shown that decide the screen layout.
use crate::names::{
    chars_equal, lemma_normalized_idempotent, lemma_normalized_plain, normalize_chars, normalized,
};
use crate::text::chars_of;
use vstd::prelude::*;

verus! {

#[derive(Clone, Copy, Debug, PartialEq, Eq, Hash, Structural)]
pub enum ModuleId {
    AutoQueue,
    Text,
    Upgrade,
    Graph,
    MoneyBar,
    AutoTyperSelector,
}

/// The module that a (trimmed, lower-cased) name stands for.
pub open spec fn module_named(t: Seq<char>) -> Option<ModuleId> {
    if t == "auto-queue"@ || t == "auto_queue"@ || t == "autoqueue"@ || t == "queue"@ || t
        == "auto"@ || t == "keys"@ {
        Some(ModuleId::AutoQueue)
    } else if t == "text"@ || t == "typing"@ {
        Some(ModuleId::Text)
    } else if t == "upgrade"@ || t == "upgrades"@ || t == "shop"@ {
        Some(ModuleId::Upgrade)
    } else if t == "graph"@ || t == "graphs"@ {
        Some(ModuleId::Graph)
    } else if t == "money"@ || t == "money-bar"@ || t == "money_bar"@ || t == "moneybar"@ {
        Some(ModuleId::MoneyBar)
    } else if t == "auto-typer-selector"@ || t == "auto_typer_selector"@ || t == "auto-typer"@
        || t == "auto_typer"@ {
        Some(ModuleId::AutoTyperSelector)
    } else {
        None
    }
}

pub open spec fn module_name(m: ModuleId) -> Seq<char> {
    match m {
        ModuleId::AutoQueue => "auto-queue"@,
        ModuleId::Text => "text"@,
        ModuleId::Upgrade => "upgrade"@,
        ModuleId::Graph => "graph"@,
        ModuleId::MoneyBar => "money-bar"@,
        ModuleId::AutoTyperSelector => "auto-typer-selector"@,
    }
}

impl ModuleId {
    /// Reads a module name, ignoring surrounding whitespace and ASCII case.
    pub fn parse(s: &str) -> (r: Option<ModuleId>)
        ensures
            r == module_named(normalized(s@)),
            normalized(s@) == "auto-queue"@ || normalized(s@) == "auto_queue"@ || normalized(s@)
                == "autoqueue"@ || normalized(s@) == "queue"@ || normalized(s@) == "auto"@
                || normalized(s@) == "keys"@ ==> r == Some(ModuleId::AutoQueue),
            normalized(s@) == "text"@ || normalized(s@) == "typing"@ ==> r == Some(ModuleId::Text),
            normalized(s@) == "upgrade"@ || normalized(s@) == "upgrades"@ || normalized(s@)
                == "shop"@ ==> r == Some(ModuleId::Upgrade),
            normalized(s@) == "graph"@ || normalized(s@) == "graphs"@ ==> r == Some(ModuleId::Graph),
            normalized(s@) == "money"@ || normalized(s@) == "money-bar"@ || normalized(s@)
                == "money_bar"@ || normalized(s@) == "moneybar"@ ==> r == Some(ModuleId::MoneyBar),
            normalized(s@) == "auto-typer-selector"@ || normalized(s@) == "auto_typer_selector"@
                || normalized(s@) == "auto-typer"@ || normalized(s@) == "auto_typer"@ ==> r == Some(
                ModuleId::AutoTyperSelector,
            ),
    {
        proof {
            lemma_module_aliases(s@);
        }
        let v = chars_of(s);
        let t = normalize_chars(&v);
        if chars_equal(&t, "auto-queue") || chars_equal(&t, "auto_queue") || chars_equal(
            &t,
            "autoqueue",
        ) || chars_equal(&t, "queue") || chars_equal(&t, "auto") || chars_equal(&t, "keys") {
            Some(ModuleId::AutoQueue)
        } else if chars_equal(&t, "text") || chars_equal(&t, "typing") {
            Some(ModuleId::Text)
        } else if chars_equal(&t, "upgrade") || chars_equal(&t, "upgrades") || chars_equal(
            &t,
            "shop",
        ) {
            Some(ModuleId::Upgrade)
        } else if chars_equal(&t, "graph") || chars_equal(&t, "graphs") {
            Some(ModuleId::Graph)
        } else if chars_equal(&t, "money") || chars_equal(&t, "money-bar") || chars_equal(
            &t,
            "money_bar",
        ) || chars_equal(&t, "moneybar") {
            Some(ModuleId::MoneyBar)
        } else if chars_equal(&t, "auto-typer-selector") || chars_equal(&t, "auto_typer_selector")
            || chars_equal(&t, "auto-typer") || chars_equal(&t, "auto_typer") {
            Some(ModuleId::AutoTyperSelector)
        } else {
            None
        }
    }

    /// The module's canonical name.
    pub fn name(&self) -> (r: &'static str)
        ensures
            r@ == module_name(*self),
    {
        match self {
            ModuleId::AutoQueue => "auto-queue",
            ModuleId::Text => "text",
            ModuleId::Upgrade => "upgrade",
            ModuleId::Graph => "graph",
            ModuleId::MoneyBar => "money-bar",
            ModuleId::AutoTyperSelector => "auto-typer-selector",
        }
    }
}

/// Context for computing multi-pane layout constraints.
#[derive(Clone, Copy, Debug, PartialEq, Eq, Structural)]
pub struct LayoutContext {
    pub text_active: bool,
    pub upgrade_active: bool,
    pub auto_active: bool,
    pub graph_active: bool,
}

pub open spec fn bool_count(b: bool) -> nat {
    if b {
        1
    } else {
        0
    }
}

impl LayoutContext {
    /// How many of the four panes are shown.
    pub open spec fn pane_count(self) -> nat {
        bool_count(self.text_active) + bool_count(self.upgrade_active) + bool_count(
            self.auto_active,
        ) + bool_count(self.graph_active)
    }

    pub fn active_pane_count(&self) -> (r: usize)
        ensures
            r == self.pane_count(),
    {
        let mut count: usize = 0;
        if self.text_active {
            count = count + 1;
        }
        if self.upgrade_active {
            count = count + 1;
        }
        if self.auto_active {
            count = count + 1;
        }
        if self.graph_active {
            count = count + 1;
        }
        count
    }

    /// Whether the main column (text and upgrades) is shown.
    pub fn has_main_column(&self) -> (r: bool)
        ensures
            r == (self.text_active || self.upgrade_active),
    {
        self.text_active || self.upgrade_active
    }

    /// Whether a side pane (the letter machine or the graph) shares the
    /// screen with another pane; other modules have no side neighbours.
    pub fn has_side_neighbors(&self, module: ModuleId) -> (r: bool)
        ensures
            r == match module {
                ModuleId::AutoQueue => self.text_active || self.upgrade_active
                    || self.graph_active,
                ModuleId::Graph => self.text_active || self.upgrade_active || self.auto_active,
                _ => false,
            },
    {
        match module {
            ModuleId::AutoQueue => self.text_active || self.upgrade_active || self.graph_active,
            ModuleId::Graph => self.text_active || self.upgrade_active || self.auto_active,
            _ => false,
        }
    }
}


/// The colour of a pane's border: cyan when it has the focus.
#[derive(Clone, Copy, Debug, PartialEq, Eq, Structural)]
pub enum BorderColor {
    Cyan,
    White,
}

pub fn focus_border_color(focused: bool) -> (r: BorderColor)
    ensures
        r == if focused {
            BorderColor::Cyan
        } else {
            BorderColor::White
        },
{
    if focused {
        BorderColor::Cyan
    } else {
        BorderColor::White
    }
}


/// Every alias of a pane reads as that pane, whatever the surrounding
/// whitespace and ASCII case: the names of the test-mode modules, and
/// `auto-typer-selector`, `auto_typer_selector`, `auto-typer` and
/// `auto_typer` for the auto typer selector.
#[verifier::spinoff_prover]
#[verifier::rlimit(40)]
pub proof fn lemma_module_aliases(s: Seq<char>)
    ensures
        normalized(s) == "auto-queue"@ || normalized(s) == "auto_queue"@ || normalized(s)
            == "autoqueue"@ || normalized(s) == "queue"@ || normalized(s) == "auto"@
            || normalized(s) == "keys"@ ==> module_named(normalized(s)) == Some(ModuleId::AutoQueue),
        normalized(s) == "text"@ || normalized(s) == "typing"@ ==> module_named(normalized(s))
            == Some(ModuleId::Text),
        normalized(s) == "upgrade"@ || normalized(s) == "upgrades"@ || normalized(s) == "shop"@
            ==> module_named(normalized(s)) == Some(ModuleId::Upgrade),
        normalized(s) == "graph"@ || normalized(s) == "graphs"@ ==> module_named(normalized(s))
            == Some(ModuleId::Graph),
        normalized(s) == "money"@ || normalized(s) == "money-bar"@ || normalized(s)
            == "money_bar"@ || normalized(s) == "moneybar"@ ==> module_named(normalized(s)) == Some(
            ModuleId::MoneyBar,
        ),
        normalized(s) == "auto-typer-selector"@ || normalized(s) == "auto_typer_selector"@
            || normalized(s) == "auto-typer"@ || normalized(s) == "auto_typer"@ ==> module_named(
            normalized(s),
        ) == Some(ModuleId::AutoTyperSelector),
{
    reveal_strlit("auto-queue");
    reveal_strlit("auto_queue");
    reveal_strlit("autoqueue");
    reveal_strlit("queue");
    reveal_strlit("auto");
    reveal_strlit("keys");
    reveal_strlit("text");
    reveal_strlit("typing");
    reveal_strlit("upgrade");
    reveal_strlit("upgrades");
    reveal_strlit("shop");
    reveal_strlit("graph");
    reveal_strlit("graphs");
    reveal_strlit("money");
    reveal_strlit("money-bar");
    reveal_strlit("money_bar");
    reveal_strlit("moneybar");
    reveal_strlit("auto-typer-selector");
    reveal_strlit("auto_typer_selector");
    reveal_strlit("auto-typer");
    reveal_strlit("auto_typer");
    let t = normalized(s);
    if t == "auto-queue"@ {
        assert(t[0] == 'a' && t[4] == '-' && t[5] == 'q');
    }
    if t == "auto_queue"@ {
        assert(t[0] == 'a' && t[4] == '_' && t[5] == 'q');
    }
    if t == "autoqueue"@ {
        assert(t[0] == 'a' && t[4] == 'q' && t[5] == 'u');
    }
    if t == "queue"@ {
        assert(t[0] == 'q' && t[4] == 'e');
    }
    if t == "auto"@ {
        assert(t[0] == 'a');
    }
    if t == "keys"@ {
        assert(t[0] == 'k');
    }
    if t == "text"@ {
        assert(t[0] == 't');
    }
    if t == "typing"@ {
        assert(t[0] == 't' && t[4] == 'n' && t[5] == 'g');
    }
    if t == "upgrade"@ {
        assert(t[0] == 'u' && t[4] == 'a' && t[5] == 'd');
    }
    if t == "upgrades"@ {
        assert(t[0] == 'u' && t[4] == 'a' && t[5] == 'd');
    }
    if t == "shop"@ {
        assert(t[0] == 's');
    }
    if t == "graph"@ {
        assert(t[0] == 'g' && t[4] == 'h');
    }
    if t == "graphs"@ {
        assert(t[0] == 'g' && t[4] == 'h' && t[5] == 's');
    }
    if t == "money"@ {
        assert(t[0] == 'm' && t[4] == 'y');
    }
    if t == "money-bar"@ {
        assert(t[0] == 'm' && t[4] == 'y' && t[5] == '-');
    }
    if t == "money_bar"@ {
        assert(t[0] == 'm' && t[4] == 'y' && t[5] == '_');
    }
    if t == "moneybar"@ {
        assert(t[0] == 'm' && t[4] == 'y' && t[5] == 'b');
    }
    if t == "auto-typer-selector"@ {
        assert(t[0] == 'a' && t[4] == '-' && t[5] == 't');
        assert(t.len() == 19);
        assert(module_named(t) == Some(ModuleId::AutoTyperSelector));
    }
    if t == "auto_typer_selector"@ {
        assert(t[0] == 'a' && t[4] == '_' && t[5] == 't');
        assert(t.len() == 19);
        assert(module_named(t) == Some(ModuleId::AutoTyperSelector));
    }
    if t == "auto-typer"@ {
        assert(t[0] == 'a' && t[4] == '-' && t[5] == 't');
        assert("auto-queue"@[5] == 'q' && "auto_queue"@[5] == 'q');
        assert(t.len() == 10 && "auto-typer-selector"@.len() == 19);
        assert(module_named(t) == Some(ModuleId::AutoTyperSelector));
    }
    if t == "auto_typer"@ {
        assert(t[0] == 'a' && t[4] == '_' && t[5] == 't');
        assert("auto-queue"@[5] == 'q' && "auto_queue"@[5] == 'q');
        assert(t.len() == 10 && "auto-typer-selector"@.len() == 19);
        assert(module_named(t) == Some(ModuleId::AutoTyperSelector));
    }
}

/// A module's name reads back as that module.
pub proof fn lemma_name_parses(m: ModuleId)
    ensures
        module_named(normalized(module_name(m))) == Some(m),
{
    reveal_strlit("auto-queue");
    reveal_strlit("text");
    reveal_strlit("upgrade");
    reveal_strlit("graph");
    reveal_strlit("money-bar");
    reveal_strlit("auto-typer-selector");
    reveal_strlit("auto_queue");
    reveal_strlit("autoqueue");
    reveal_strlit("queue");
    reveal_strlit("auto");
    reveal_strlit("keys");
    reveal_strlit("typing");
    reveal_strlit("upgrades");
    reveal_strlit("shop");
    reveal_strlit("graphs");
    reveal_strlit("money");
    reveal_strlit("money_bar");
    reveal_strlit("moneybar");
    reveal_strlit("auto_typer_selector");
    reveal_strlit("auto-typer");
    reveal_strlit("auto_typer");
    let s = module_name(m);
    assert forall|i: int| 0 <= i < s.len() implies !('A' <= #[trigger] s[i] && s[i] <= 'Z') by {}
    lemma_normalized_plain(s);
}


/// Reading a name ignores its surrounding whitespace and ASCII case: a name
/// trimmed and lower-cased beforehand reads as the same module.
pub proof fn lemma_parse_ignores_space_and_case(s: Seq<char>)
    ensures
        module_named(normalized(normalized(s))) == module_named(normalized(s)),
{
    lemma_normalized_idempotent(s);
}

} // verus!
