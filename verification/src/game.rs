//! The game's state apart from its money, and the decisions made on it: which
//! panes are shown, which one has the focus, how keys and clicks move the
//! focus, and what buying an upgrade does.
use crate::auto_queue::{elapsed, machine_step, AutoQueue, SorterPhase, GRID_CELLS};
use crate::auto_typer_selector::{selector_step, AutoTyperSelector};
use crate::names::{ascii_lower, to_ascii_lower};
use crate::input::Key;
use crate::layout::Rect;
use crate::pane_module::{module_named, LayoutContext, ModuleId};
use crate::test_mode::{app_module_named, AppModule, TestMode};
use crate::text_pane::{text_step, TextPane};
use crate::text_sources::{TextLibrary, TextSource};
use crate::upgrade::{
    index_of, infinite, level_count, upgrade_at, UpgradeId, UpgradeLevels, NUM_UPGRADES,
};
use vstd::prelude::*;

verus! {

pub const MAX_TRUST_LEVEL: i32 = 100;

/// Profit is kept for this many five-second periods (plus the current one).
pub const NUM_POLLS: usize = 30;

/// Where each pane was drawn last.
#[derive(Clone, Copy, Debug, PartialEq, Eq, Default, Structural)]
pub struct PaneRects {
    pub text: Rect,
    pub upgrade: Rect,
    pub graph: Option<Rect>,
    pub auto_keys: Option<Rect>,
}

/// The state that is saved with a game, apart from its money.
#[derive(Clone, Debug)]
pub struct GameState {
    pub text_pane: TextPane,
    pub auto_queue: AutoQueue,
    pub second_profit_bucket_head: usize,
    pub upgrade_levels: UpgradeLevels,
    pub trust_level: i32,
    pub streaks_unlocked: bool,
    pub capital_letter_bonus_unlocked: bool,
    pub automation_unlocked: bool,
    pub seniority_level: u8,
    pub graphs_unlocked: bool,
    pub disable_penalty: bool,
    pub window_x: u16,
    pub window_y: u16,
    pub current_pane: ModuleId,
    pub previous_window_x: u16,
    pub previous_window_y: u16,
}

impl GameState {
    /// A new game's state, its clocks at `now`: the first line of the intro
    /// with nothing typed, an empty letter machine on the first line of
    /// Bartleby, nothing bought or unlocked, the focus on the text.
    pub open spec fn is_new(self, now: u64) -> bool {
        &&& self.text_pane.current_text == TextSource::Intro
        &&& self.text_pane.current_line == 0
        &&& self.text_pane.typed@ == Seq::<char>::empty()
        &&& self.auto_queue.wf()
        &&& self.auto_queue.auto_current_text == TextSource::Bartleby
        &&& self.auto_queue.auto_current_line == 0
        &&& self.auto_queue.letter_counts@ == Map::<char, u32>::empty()
        &&& (forall|k: int| 0 <= k < GRID_CELLS ==> self.auto_queue.letter_queue@[k] == ' ')
        &&& !self.auto_queue.letter_compression_unlocked
        &&& self.auto_queue.phase == SorterPhase::Ready
        &&& self.auto_queue.line_num == 0
        &&& self.auto_queue.last_sorter_update == now
        &&& self.auto_queue.last_queue_update == now
        &&& self.auto_queue.last_letter_increment == now
        &&& self.auto_queue.auto_typer_selector.max_auto_typers == 0
        &&& (forall|c: char|
            'a' <= c <= 'z' ==> self.auto_queue.auto_typer_selector.auto_typer_counts.get_spec(c)
                == Some(0u32))
        &&& (forall|c: char|
            !('a' <= c <= 'z') ==> self.auto_queue.auto_typer_selector.auto_typer_counts.get_spec(
                c,
            ) is None)
        &&& self.second_profit_bucket_head == 0
        &&& (forall|id: UpgradeId| #[trigger] self.upgrade_levels.level(id) == 0)
        &&& self.trust_level == 0
        &&& !self.streaks_unlocked
        &&& !self.capital_letter_bonus_unlocked
        &&& !self.automation_unlocked
        &&& self.seniority_level == 0
        &&& !self.graphs_unlocked
        &&& !self.disable_penalty
        &&& self.window_x == 1
        &&& self.window_y == 0
        &&& self.current_pane == ModuleId::Text
        &&& self.previous_window_x == 1
        &&& self.previous_window_y == 0
    }

    /// The state of a new game, its clocks set to `now`.
    pub fn new(now: u64) -> (r: GameState)
        ensures
            r.is_new(now),
    {
        GameState {
            text_pane: TextPane::new(),
            auto_queue: AutoQueue::new(now),
            second_profit_bucket_head: 0,
            upgrade_levels: UpgradeLevels::new(),
            trust_level: 0,
            streaks_unlocked: false,
            capital_letter_bonus_unlocked: false,
            automation_unlocked: false,
            seniority_level: 0,
            graphs_unlocked: false,
            disable_penalty: false,
            window_x: 1,
            window_y: 0,
            current_pane: ModuleId::Text,
            previous_window_x: 1,
            previous_window_y: 0,
        }
    }
}

/// The test-mode module that stands for a pane, if there is one.
pub open spec fn app_module_of(m: ModuleId) -> Option<AppModule> {
    match m {
        ModuleId::AutoQueue => Some(AppModule::AutoQueue),
        ModuleId::Text => Some(AppModule::Text),
        ModuleId::Upgrade => Some(AppModule::Upgrade),
        ModuleId::Graph => Some(AppModule::Graph),
        ModuleId::MoneyBar => Some(AppModule::MoneyBar),
        ModuleId::AutoTyperSelector => None,
    }
}

/// The pane of a test-mode module.
pub open spec fn module_of(m: AppModule) -> ModuleId {
    match m {
        AppModule::AutoQueue => ModuleId::AutoQueue,
        AppModule::Text => ModuleId::Text,
        AppModule::Upgrade => ModuleId::Upgrade,
        AppModule::Graph => ModuleId::Graph,
        AppModule::MoneyBar => ModuleId::MoneyBar,
    }
}

/// The two name readers agree: a name reads as a test-mode module exactly
/// when it reads as that module's pane, and the names of the auto typer
/// selector, which has no test mode, read as no test-mode module.
#[verifier::spinoff_prover]
#[verifier::rlimit(40)]
pub proof fn lemma_module_names_agree(t: Seq<char>)
    ensures
        app_module_named(t) == match module_named(t) {
            Some(m) => app_module_of(m),
            None => None,
        },
{
    reveal_strlit("auto-queue");
    reveal_strlit("auto_queue");
    reveal_strlit("autoqueue");
    reveal_strlit("queue");
    reveal_strlit("auto");
    reveal_strlit("keys");
    reveal_strlit("text");
    reveal_strlit("typing");
    reveal_strlit("upgrade");
    reveal_strlit("upgrades");
    reveal_strlit("shop");
    reveal_strlit("graph");
    reveal_strlit("graphs");
    reveal_strlit("money");
    reveal_strlit("money-bar");
    reveal_strlit("money_bar");
    reveal_strlit("moneybar");
    reveal_strlit("auto-typer-selector");
    reveal_strlit("auto_typer_selector");
    reveal_strlit("auto-typer");
    reveal_strlit("auto_typer");
    if t == "auto-queue"@ {
        assert(t[0] == 'a' && t[4] == '-' && t[5] == 'q');
    }
    if t == "auto_queue"@ {
        assert(t[0] == 'a' && t[4] == '_' && t[5] == 'q');
    }
    if t == "autoqueue"@ {
        assert(t[0] == 'a' && t[4] == 'q' && t[5] == 'u');
    }
    if t == "queue"@ {
        assert(t[0] == 'q' && t[4] == 'e');
    }
    if t == "auto"@ {
        assert(t[0] == 'a');
    }
    if t == "keys"@ {
        assert(t[0] == 'k');
    }
    if t == "text"@ {
        assert(t[0] == 't');
    }
    if t == "typing"@ {
        assert(t[0] == 't' && t[4] == 'n' && t[5] == 'g');
    }
    if t == "upgrade"@ {
        assert(t[0] == 'u' && t[4] == 'a' && t[5] == 'd');
    }
    if t == "upgrades"@ {
        assert(t[0] == 'u' && t[4] == 'a' && t[5] == 'd');
    }
    if t == "shop"@ {
        assert(t[0] == 's');
    }
    if t == "graph"@ {
        assert(t[0] == 'g' && t[4] == 'h');
    }
    if t == "graphs"@ {
        assert(t[0] == 'g' && t[4] == 'h' && t[5] == 's');
    }
    if t == "money"@ {
        assert(t[0] == 'm' && t[4] == 'y');
    }
    if t == "money-bar"@ {
        assert(t[0] == 'm' && t[4] == 'y' && t[5] == '-');
    }
    if t == "money_bar"@ {
        assert(t[0] == 'm' && t[4] == 'y' && t[5] == '_');
    }
    if t == "moneybar"@ {
        assert(t[0] == 'm' && t[4] == 'y' && t[5] == 'b');
    }
    if t == "auto-typer-selector"@ {
        assert(t[0] == 'a' && t[4] == '-' && t[5] == 't');
        assert(t.len() == 19);
    }
    if t == "auto_typer_selector"@ {
        assert(t[0] == 'a' && t[4] == '_' && t[5] == 't');
        assert(t.len() == 19);
    }
    if t == "auto-typer"@ {
        assert(t[0] == 'a' && t[4] == '-' && t[5] == 't');
        assert("auto-queue"@[5] == 'q' && "auto_queue"@[5] == 'q');
        assert(t.len() == 10 && "auto-typer-selector"@.len() == 19);
    }
    if t == "auto_typer"@ {
        assert(t[0] == 'a' && t[4] == '_' && t[5] == 't');
        assert("auto-queue"@[5] == 'q' && "auto_queue"@[5] == 'q');
        assert(t.len() == 10 && "auto-typer-selector"@.len() == 19);
    }
}

fn to_module_id(m: AppModule) -> (r: ModuleId)
    ensures
        r == module_of(m),
{
    match m {
        AppModule::AutoQueue => ModuleId::AutoQueue,
        AppModule::Text => ModuleId::Text,
        AppModule::Upgrade => ModuleId::Upgrade,
        AppModule::Graph => ModuleId::Graph,
        AppModule::MoneyBar => ModuleId::MoneyBar,
    }
}

/// The game apart from its money and its input channel.
#[derive(Clone, Debug)]
pub struct Game {
    pub game_state: GameState,
    pub should_quit: bool,
    pub pane_rects: PaneRects,
    /// When the profit buckets last moved on, in milliseconds on the game's
    /// clock.
    pub last_profit_time: u64,
    pub test_mode: Option<TestMode>,
    pub floating_pane_queue: Vec<ModuleId>,
}

/// The focused pane given the focus position, when no overlay is open:
/// the text pane top left, the upgrades below it, the letter machine on
/// the right once it is shown.
pub open spec fn pane_at(window_x: u16, window_y: u16, auto_active: bool) -> ModuleId {
    if window_x == 0 && window_y == 0 {
        ModuleId::Text
    } else if window_x == 0 && window_y == 1 {
        ModuleId::Upgrade
    } else if auto_active && window_x == 1 {
        ModuleId::AutoQueue
    } else {
        ModuleId::Text
    }
}

impl Game {
    /// Whether a pane is shown: in test mode, the panes of the chosen
    /// modules; otherwise the text, the upgrades, the money bar and the
    /// overlay always, the letter machine and the graph once unlocked.
    pub open spec fn active(self, module: ModuleId) -> bool {
        match self.test_mode {
            Some(tm) => match app_module_of(module) {
                Some(m) => tm.has(m),
                None => false,
            },
            None => match module {
                ModuleId::AutoQueue => self.game_state.automation_unlocked,
                ModuleId::Graph => self.game_state.graphs_unlocked,
                _ => true,
            },
        }
    }

    /// The overlay shown over the panes: in test mode the one module that
    /// runs alone, if any; otherwise the first in the queue.
    pub open spec fn floating(self) -> Option<ModuleId> {
        match self.test_mode {
            Some(tm) => if tm.count() == 1 {
                Some(
                    if tm.auto_queue {
                        ModuleId::AutoQueue
                    } else if tm.text {
                        ModuleId::Text
                    } else if tm.upgrade {
                        ModuleId::Upgrade
                    } else if tm.graph {
                        ModuleId::Graph
                    } else {
                        ModuleId::MoneyBar
                    },
                )
            } else {
                None
            },
            None => if self.floating_pane_queue@.len() > 0 {
                Some(self.floating_pane_queue@[0])
            } else {
                None
            },
        }
    }

    /// Whether a pane is shown.
    pub fn is_module_active(&self, module: ModuleId) -> (r: bool)
        ensures
            r == self.active(module),
    {
        match &self.test_mode {
            Some(tm) => match module {
                ModuleId::AutoQueue => tm.is_active(AppModule::AutoQueue),
                ModuleId::Text => tm.is_active(AppModule::Text),
                ModuleId::Upgrade => tm.is_active(AppModule::Upgrade),
                ModuleId::Graph => tm.is_active(AppModule::Graph),
                ModuleId::MoneyBar => tm.is_active(AppModule::MoneyBar),
                ModuleId::AutoTyperSelector => false,
            },
            None => match module {
                ModuleId::Text => true,
                ModuleId::Upgrade => true,
                ModuleId::AutoQueue => self.game_state.automation_unlocked,
                ModuleId::Graph => self.game_state.graphs_unlocked,
                ModuleId::MoneyBar => true,
                ModuleId::AutoTyperSelector => true,
            },
        }
    }

    pub fn get_floating_pane(&self) -> (r: Option<ModuleId>)
        ensures
            r == self.floating(),
    {
        match &self.test_mode {
            Some(tm) => {
                let single = tm.single_active_module();
                match single {
                    Some(m) => {
                        let r = to_module_id(m);
                        proof {
                            assert(tm.count() == 1);
                        }
                        Some(r)
                    },
                    None => None,
                }
            },
            None => {
                if self.floating_pane_queue.len() > 0 {
                    Some(self.floating_pane_queue[0])
                } else {
                    None
                }
            },
        }
    }
}


/// The game with another focus: its focus position, the position saved
/// while the upgrades are open, and the focused pane.
pub open spec fn with_focus(g: Game, wx: u16, wy: u16, px: u16, py: u16, pane: ModuleId) -> Game {
    Game {
        game_state: GameState {
            window_x: wx,
            window_y: wy,
            previous_window_x: px,
            previous_window_y: py,
            current_pane: pane,
            ..g.game_state
        },
        ..g
    }
}

/// The focus worked out again from the focus position: in test mode with
/// one module, that module; under an overlay, the overlay, the position
/// going back to the saved one; otherwise the pane at the position, which
/// is first kept inside the columns that are shown.
pub open spec fn recalculated(g: Game) -> Game {
    let s = g.game_state;
    match g.floating() {
        Some(m) => if g.test_mode is Some {
            with_focus(g, s.window_x, s.window_y, s.previous_window_x, s.previous_window_y, m)
        } else {
            with_focus(g, s.previous_window_x, s.previous_window_y, s.previous_window_x, s.previous_window_y, m)
        },
        None => {
            let auto = g.active(ModuleId::AutoQueue);
            let limit: u16 = if auto { 1 } else { 0 };
            let wx = if s.window_x < limit { s.window_x } else { limit };
            with_focus(g, wx, s.window_y, s.previous_window_x, s.previous_window_y, pane_at(wx, s.window_y, auto))
        },
    }
}

impl Game {
    fn recalculate_current_pane(&mut self)
        ensures
            *final(self) == recalculated(*old(self)),
    {
        if let Some(module) = self.get_floating_pane() {
            if self.test_mode.is_none() {
                self.game_state.window_x = self.game_state.previous_window_x;
                self.game_state.window_y = self.game_state.previous_window_y;
            }
            self.game_state.current_pane = module;
            return;
        }
        let auto_active = self.is_module_active(ModuleId::AutoQueue);
        if auto_active {
            if self.game_state.window_x > 1 {
                self.game_state.window_x = 1;
            }
        } else {
            self.game_state.window_x = 0;
        }
        let wx = self.game_state.window_x;
        let wy = self.game_state.window_y;
        self.game_state.current_pane = if wx == 0 && wy == 0 {
            ModuleId::Text
        } else if wx == 0 && wy == 1 {
            ModuleId::Upgrade
        } else if auto_active && wx == 1 {
            ModuleId::AutoQueue
        } else {
            ModuleId::Text
        };
    }
}


/// Tab: with the upgrades shown, focusing them saves the focus position and
/// moves to them; leaving them goes back to the saved position.
pub open spec fn toggled(g: Game) -> Game {
    if !g.active(ModuleId::Upgrade) {
        g
    } else {
        let r = recalculated(g);
        let s = r.game_state;
        let t = if s.current_pane == ModuleId::Upgrade {
            with_focus(r, s.previous_window_x, s.previous_window_y, s.previous_window_x, s.previous_window_y, s.current_pane)
        } else {
            with_focus(r, 0, 1, s.window_x, s.window_y, s.current_pane)
        };
        recalculated(t)
    }
}

/// A left click at `(column, row)`: an overlay keeps the focus; otherwise
/// the shown pane under the pointer takes it (text, upgrades, letter
/// machine, graph, in that order of precedence).
pub open spec fn clicked(g: Game, column: u16, row: u16) -> Game {
    let s = g.game_state;
    let rects = g.pane_rects;
    match g.floating() {
        Some(m) => with_focus(g, s.window_x, s.window_y, s.previous_window_x, s.previous_window_y, m),
        None => if g.active(ModuleId::Text) && rects.text.holds(column, row) {
            with_focus(g, 0, 0, s.previous_window_x, s.previous_window_y, ModuleId::Text)
        } else if g.active(ModuleId::Upgrade) && rects.upgrade.holds(column, row) {
            with_focus(g, 0, 1, s.previous_window_x, s.previous_window_y, ModuleId::Upgrade)
        } else if g.active(ModuleId::AutoQueue) && (rects.auto_keys matches Some(r) && r.holds(column, row)) {
            with_focus(g, 1, 0, s.previous_window_x, s.previous_window_y, ModuleId::AutoQueue)
        } else if g.active(ModuleId::Graph) && (rects.graph matches Some(r) && r.holds(column, row)) {
            with_focus(g, s.window_x, s.window_y, s.previous_window_x, s.previous_window_y, ModuleId::Graph)
        } else {
            g
        },
    }
}

/// The game with another overlay queue.
pub open spec fn with_queue(g: Game, queue: Vec<ModuleId>) -> Game {
    Game { floating_pane_queue: queue, ..g }
}

/// The queue without any entry of `m`.
pub open spec fn without(q: Seq<ModuleId>, m: ModuleId) -> Seq<ModuleId> {
    q.filter(|x: ModuleId| x != m)
}

impl Game {
    fn toggle_upgrade_pane(&mut self)
        ensures
            *final(self) == toggled(*old(self)),
    {
        if !self.is_module_active(ModuleId::Upgrade) {
            return;
        }
        self.recalculate_current_pane();
        match self.game_state.current_pane {
            ModuleId::Upgrade => {
                self.game_state.window_x = self.game_state.previous_window_x;
                self.game_state.window_y = self.game_state.previous_window_y;
            },
            _ => {
                self.game_state.previous_window_x = self.game_state.window_x;
                self.game_state.previous_window_y = self.game_state.window_y;
                self.game_state.window_x = 0;
                self.game_state.window_y = 1;
            },
        }
        self.recalculate_current_pane();
    }

    /// Moves the focus to the pane under a left click.
    pub fn handle_mouse_click(&mut self, column: u16, row: u16)
        ensures
            *final(self) == clicked(*old(self), column, row),
    {
        if let Some(module) = self.get_floating_pane() {
            self.game_state.current_pane = module;
            return;
        }
        let on_auto_keys = match self.pane_rects.auto_keys {
            Some(rect) => rect.contains(column, row),
            None => false,
        };
        let on_graph = match self.pane_rects.graph {
            Some(rect) => rect.contains(column, row),
            None => false,
        };
        if self.is_module_active(ModuleId::Text) && self.pane_rects.text.contains(column, row) {
            self.game_state.window_x = 0;
            self.game_state.window_y = 0;
            self.game_state.current_pane = ModuleId::Text;
        } else if self.is_module_active(ModuleId::Upgrade) && self.pane_rects.upgrade.contains(
            column,
            row,
        ) {
            self.game_state.window_x = 0;
            self.game_state.window_y = 1;
            self.game_state.current_pane = ModuleId::Upgrade;
        } else if self.is_module_active(ModuleId::AutoQueue) && on_auto_keys {
            self.game_state.window_x = 1;
            self.game_state.window_y = 0;
            self.game_state.current_pane = ModuleId::AutoQueue;
        } else if self.is_module_active(ModuleId::Graph) && on_graph {
            self.game_state.current_pane = ModuleId::Graph;
        }
    }

    /// Queues an overlay, unless it is queued already.
    pub fn add_floating_pane(&mut self, module: ModuleId)
        ensures
            final(self).floating_pane_queue@ == if old(self).floating_pane_queue@.contains(module) {
                old(self).floating_pane_queue@
            } else {
                old(self).floating_pane_queue@.push(module)
            },
            *final(self) == with_queue(*old(self), final(self).floating_pane_queue),
            final(self).floating_pane_queue@.contains(module),
            old(self).floating_pane_queue@.no_duplicates()
                ==> final(self).floating_pane_queue@.no_duplicates(),
    {
        let mut found = false;
        let mut i: usize = 0;
        while i < self.floating_pane_queue.len()
            invariant
                i <= self.floating_pane_queue@.len(),
                found == exists|k: int| 0 <= k < i && self.floating_pane_queue@[k] == module,
            decreases self.floating_pane_queue.len() - i,
        {
            if self.floating_pane_queue[i] == module {
                found = true;
            }
            i = i + 1;
        }
        if !found {
            self.floating_pane_queue.push(module);
            proof {
                let q = self.floating_pane_queue@;
                assert(q[q.len() - 1] == module);
            }
        }
    }

    /// Takes an overlay out of the queue and works the focus out again.
    pub fn remove_floating_pane(&mut self, module: ModuleId)
        ensures
            final(self).floating_pane_queue@ == without(old(self).floating_pane_queue@, module),
            *final(self) == recalculated(with_queue(*old(self), final(self).floating_pane_queue)),
    {
        let mut kept: Vec<ModuleId> = Vec::new();
        let mut i: usize = 0;
        while i < self.floating_pane_queue.len()
            invariant
                i <= self.floating_pane_queue@.len(),
                kept@ == without(self.floating_pane_queue@.take(i as int), module),
            decreases self.floating_pane_queue.len() - i,
        {
            let m = self.floating_pane_queue[i];
            proof {
                let q = self.floating_pane_queue@;
                assert(q.take(i + 1).drop_last() =~= q.take(i as int));
                reveal(Seq::filter);
            }
            if m != module {
                kept.push(m);
            }
            i = i + 1;
        }
        proof {
            assert(self.floating_pane_queue@.take(i as int) =~= self.floating_pane_queue@);
        }
        self.floating_pane_queue = kept;
        self.recalculate_current_pane();
    }
}


/// The keys that buy the displayed upgrades, first to last.
pub const UPGRADE_KEYS: [char; 10] = ['q', 'w', 'e', 'r', 't', 'a', 's', 'd', 'f', 'g'];

/// The position of `c` among the upgrade keys.
pub open spec fn key_position(c: char) -> Option<int> {
    if c == 'q' {
        Some(0)
    } else if c == 'w' {
        Some(1)
    } else if c == 'e' {
        Some(2)
    } else if c == 'r' {
        Some(3)
    } else if c == 't' {
        Some(4)
    } else if c == 'a' {
        Some(5)
    } else if c == 's' {
        Some(6)
    } else if c == 'd' {
        Some(7)
    } else if c == 'f' {
        Some(8)
    } else if c == 'g' {
        Some(9)
    } else {
        None
    }
}

/// What came of an attempt to buy an upgrade.
#[derive(Clone, Copy, Debug, PartialEq, Eq, Structural)]
pub enum Purchase {
    /// Its unlock condition does not hold.
    Locked,
    /// Every level has been bought.
    MaxedOut,
    /// It costs more than the money there is.
    NotEnoughMoney,
    Bought,
}

/// Whether upgrade `id` is shown: it is unlocked (`unlocked[i]` for the
/// upgrade at position `i`) and not every level of it is bought.
pub open spec fn shown(g: Game, unlocked: Seq<bool>, id: UpgradeId) -> bool {
    unlocked[index_of(id)] && g.game_state.upgrade_levels.level(id) < level_count(id)
}

/// The shown upgrades among the first `n`, in their order.
pub open spec fn displayed_upto(g: Game, unlocked: Seq<bool>, n: int) -> Seq<UpgradeId>
    decreases n,
{
    if n <= 0 {
        Seq::empty()
    } else {
        let before = displayed_upto(g, unlocked, n - 1);
        if shown(g, unlocked, upgrade_at(n - 1)) {
            before.push(upgrade_at(n - 1))
        } else {
            before
        }
    }
}

pub open spec fn displayed(g: Game, unlocked: Seq<bool>) -> Seq<UpgradeId> {
    displayed_upto(g, unlocked, NUM_UPGRADES as int)
}

/// The displayed upgrade that key `c` buys, if any.
pub open spec fn upgrade_for(shown_list: Seq<UpgradeId>, c: char) -> Option<UpgradeId> {
    match key_position(c) {
        Some(i) => if i < shown_list.len() {
            Some(shown_list[i])
        } else {
            None
        },
        None => None,
    }
}

/// The outcome of trying to buy `id`, given whether its unlock condition
/// holds and whether the money covers its next level (or it is free).
pub open spec fn purchase_outcome(g: Game, id: UpgradeId, unlocked: bool, affordable: bool) -> Purchase {
    if !unlocked {
        Purchase::Locked
    } else if g.game_state.upgrade_levels.level(id) >= level_count(id) {
        Purchase::MaxedOut
    } else if !affordable {
        Purchase::NotEnoughMoney
    } else {
        Purchase::Bought
    }
}

/// What buying `id` does apart from the money and the level: trust lost for
/// help, the unlocks, the capitalised intro, one more seniority level or
/// auto typer.
pub open spec fn purchase_effect(g: Game, id: UpgradeId) -> Game {
    let s = g.game_state;
    let q = s.auto_queue;
    match id {
        UpgradeId::IncreaseCorrectIncrement => g,
        UpgradeId::ResetMoneyForTrust => Game {
            game_state: GameState { trust_level: (s.trust_level - 1) as i32, ..s },
            ..g
        },
        UpgradeId::UnlockStreak => Game {
            game_state: GameState { streaks_unlocked: true, ..s },
            ..g
        },
        UpgradeId::CapitalLetterBonus => Game {
            game_state: GameState {
                capital_letter_bonus_unlocked: true,
                text_pane: TextPane { current_text: TextSource::IntroCapital, ..s.text_pane },
                ..s
            },
            ..g
        },
        UpgradeId::UnlockAutomation => Game {
            game_state: GameState { automation_unlocked: true, ..s },
            ..g
        },
        UpgradeId::Seniority => Game {
            game_state: GameState { seniority_level: (s.seniority_level + 1) as u8, ..s },
            ..g
        },
        UpgradeId::Graphs => Game { game_state: GameState { graphs_unlocked: true, ..s }, ..g },
        UpgradeId::LetterCompression => Game {
            game_state: GameState {
                auto_queue: AutoQueue { letter_compression_unlocked: true, ..q },
                ..s
            },
            ..g
        },
        UpgradeId::DisablePenalty => Game {
            game_state: GameState { disable_penalty: true, ..s },
            ..g
        },
        UpgradeId::AutoLetterCount => Game {
            game_state: GameState {
                auto_queue: AutoQueue {
                    auto_typer_selector: AutoTyperSelector {
                        max_auto_typers: (q.auto_typer_selector.max_auto_typers + 1) as u32,
                        ..q.auto_typer_selector
                    },
                    ..q
                },
                ..s
            },
            ..g
        },
    }
}

/// What buying upgrade `id` turned on or counted, from the game `before` to
/// the game `after`: "Unlock Trust" unlocks the trust multiplier, the shift
/// key unlocks the capital letter bonus and starts the capitalised intro,
/// the robots unlock the letter machine, "Graphs" the graphs, letter
/// compression its compression, and the penalty can be switched off;
/// begging for help costs one trust, seniority gains one level and the
/// auto letter count one more auto typer, whose selector is then on the
/// overlay queue.
pub open spec fn bought_effect_holds(before: Game, after: Game, id: UpgradeId) -> bool {
    let b = before.game_state;
    let a = after.game_state;
    &&& id == UpgradeId::UnlockStreak ==> a.streaks_unlocked
    &&& id == UpgradeId::CapitalLetterBonus ==> a.capital_letter_bonus_unlocked
        && a.text_pane.current_text == TextSource::IntroCapital
    &&& id == UpgradeId::UnlockAutomation ==> a.automation_unlocked
    &&& id == UpgradeId::Graphs ==> a.graphs_unlocked
    &&& id == UpgradeId::LetterCompression ==> a.auto_queue.letter_compression_unlocked
    &&& id == UpgradeId::DisablePenalty ==> a.disable_penalty
    &&& id == UpgradeId::ResetMoneyForTrust ==> a.trust_level == b.trust_level - 1
    &&& id == UpgradeId::Seniority ==> a.seniority_level == b.seniority_level + 1
    &&& id == UpgradeId::AutoLetterCount ==> {
        &&& a.auto_queue.auto_typer_selector.max_auto_typers
            == b.auto_queue.auto_typer_selector.max_auto_typers + 1
        &&& after.floating_pane_queue@.contains(ModuleId::AutoTyperSelector)
    }
    &&& b.streaks_unlocked ==> a.streaks_unlocked
    &&& b.capital_letter_bonus_unlocked ==> a.capital_letter_bonus_unlocked
    &&& b.automation_unlocked ==> a.automation_unlocked
    &&& b.graphs_unlocked ==> a.graphs_unlocked
    &&& b.auto_queue.letter_compression_unlocked ==> a.auto_queue.letter_compression_unlocked
    &&& b.disable_penalty ==> a.disable_penalty
}

/// Buying an upgrade does what it is for: each unlock turns its feature on,
/// and the counters move by one; no purchase takes an unlock away. This
/// holds whatever the upgrade levels become, and whatever the overlay queue
/// becomes as long as it holds the auto typer selector after one more auto
/// typer is bought.
pub proof fn lemma_purchase_effects(
    g: Game,
    id: UpgradeId,
    levels: UpgradeLevels,
    queue: Vec<ModuleId>,
)
    requires
        purchase_fits(g, id),
        id == UpgradeId::AutoLetterCount ==> queue@.contains(ModuleId::AutoTyperSelector),
    ensures
        bought_effect_holds(g, with_levels_and_queue(purchase_effect(g, id), levels, queue), id),
{
}

/// The counters that buying `id` raises are below their maximum.
pub open spec fn purchase_fits(g: Game, id: UpgradeId) -> bool {
    match id {
        UpgradeId::ResetMoneyForTrust => g.game_state.trust_level > i32::MIN,
        UpgradeId::Seniority => g.game_state.seniority_level < u8::MAX,
        UpgradeId::AutoLetterCount => g.game_state.auto_queue.auto_typer_selector.max_auto_typers
            < u32::MAX,
        _ => true,
    }
}

/// No upgrade has more levels bought than it has.
pub open spec fn levels_in_range(g: Game) -> bool {
    forall|id: UpgradeId| #[trigger] g.game_state.upgrade_levels.level(id) <= level_count(id)
}

/// The game with other upgrade levels and another overlay queue.
pub open spec fn with_levels_and_queue(g: Game, levels: UpgradeLevels, queue: Vec<ModuleId>) -> Game {
    Game {
        game_state: GameState { upgrade_levels: levels, ..g.game_state },
        floating_pane_queue: queue,
        ..g
    }
}

impl Game {
    /// The upgrades to list: those unlocked (`unlocked[i]` for the upgrade
    /// at position `i`) with a level left to buy, in their order.
    pub fn get_displayed_upgrades(&self, unlocked: &Vec<bool>) -> (r: Vec<UpgradeId>)
        requires
            unlocked@.len() == NUM_UPGRADES,
        ensures
            r@ == displayed(*self, unlocked@),
            r@.no_duplicates(),
            forall|i: int| 0 <= i < r@.len() ==> shown(*self, unlocked@, #[trigger] r@[i]),
    {
        let mut r: Vec<UpgradeId> = Vec::new();
        let mut i: usize = 0;
        while i < NUM_UPGRADES
            invariant
                i <= NUM_UPGRADES,
                unlocked@.len() == NUM_UPGRADES,
                r@ == displayed_upto(*self, unlocked@, i as int),
                r@.no_duplicates(),
                forall|k: int| 0 <= k < r@.len() ==> shown(*self, unlocked@, #[trigger] r@[k]),
                forall|k: int| 0 <= k < r@.len() ==> index_of(#[trigger] r@[k]) < i,
            decreases NUM_UPGRADES - i,
        {
            let id = UpgradeId::from_index(i);
            if unlocked[i] && self.game_state.upgrade_levels.get(id) < id.max_level() {
                r.push(id);
            }
            i = i + 1;
        }
        r
    }

    /// Makes the changes of buying `id` other than the level.
    #[verifier::rlimit(50)]
    #[verifier::spinoff_prover]
    fn apply_purchase_effect(&mut self, id: UpgradeId)
        requires
            purchase_fits(*old(self), id),
        ensures
            final(self).floating_pane_queue@ == if id == UpgradeId::AutoLetterCount
                && !old(self).floating_pane_queue@.contains(ModuleId::AutoTyperSelector) {
                old(self).floating_pane_queue@.push(ModuleId::AutoTyperSelector)
            } else {
                old(self).floating_pane_queue@
            },
            *final(self) == with_levels_and_queue(
                purchase_effect(*old(self), id),
                old(self).game_state.upgrade_levels,
                final(self).floating_pane_queue,
            ),
    {
        match id {
            UpgradeId::IncreaseCorrectIncrement => {},
            UpgradeId::ResetMoneyForTrust => {
                self.game_state.trust_level = self.game_state.trust_level - 1;
            },
            UpgradeId::UnlockStreak => {
                self.game_state.streaks_unlocked = true;
            },
            UpgradeId::CapitalLetterBonus => {
                self.game_state.capital_letter_bonus_unlocked = true;
                self.game_state.text_pane.current_text = TextSource::IntroCapital;
            },
            UpgradeId::UnlockAutomation => {
                self.game_state.automation_unlocked = true;
            },
            UpgradeId::Seniority => {
                self.game_state.seniority_level = self.game_state.seniority_level + 1;
            },
            UpgradeId::Graphs => {
                self.game_state.graphs_unlocked = true;
            },
            UpgradeId::LetterCompression => {
                self.game_state.auto_queue.letter_compression_unlocked = true;
            },
            UpgradeId::DisablePenalty => {
                self.game_state.disable_penalty = true;
            },
            UpgradeId::AutoLetterCount => {
                self.game_state.auto_queue.auto_typer_selector.max_auto_typers =
                    self.game_state.auto_queue.auto_typer_selector.max_auto_typers + 1;
                self.add_floating_pane(ModuleId::AutoTyperSelector);
            },
        }
    }

    /// Tries to buy upgrade `id`. `unlocked` tells whether its unlock
    /// condition holds and `affordable` whether the money covers the price
    /// of its next level (or the price is nothing); the caller takes the
    /// price and makes the money changes of a purchase.
    pub fn buy_upgrade(&mut self, id: UpgradeId, unlocked: bool, affordable: bool) -> (r: Purchase)
        requires
            purchase_outcome(*old(self), id, unlocked, affordable) == Purchase::Bought
                ==> purchase_fits(*old(self), id),
        ensures
            r == purchase_outcome(*old(self), id, unlocked, affordable),
            r != Purchase::Bought ==> *final(self) == *old(self),
            r == Purchase::Bought ==> {
                &&& final(self).game_state.upgrade_levels.level(id) == if infinite(id) {
                    old(self).game_state.upgrade_levels.level(id) as int
                } else {
                    old(self).game_state.upgrade_levels.level(id) + 1
                }
                &&& forall|other: UpgradeId|
                    other != id ==> #[trigger] final(self).game_state.upgrade_levels.level(other)
                        == old(self).game_state.upgrade_levels.level(other)
                &&& final(self).floating_pane_queue@ == if id == UpgradeId::AutoLetterCount
                    && !old(self).floating_pane_queue@.contains(ModuleId::AutoTyperSelector) {
                    old(self).floating_pane_queue@.push(ModuleId::AutoTyperSelector)
                } else {
                    old(self).floating_pane_queue@
                }
                &&& *final(self) == with_levels_and_queue(
                    purchase_effect(*old(self), id),
                    final(self).game_state.upgrade_levels,
                    final(self).floating_pane_queue,
                )
            },
            levels_in_range(*old(self)) ==> levels_in_range(*final(self)),
            r == Purchase::Bought ==> bought_effect_holds(*old(self), *final(self), id),
    {
        if !unlocked {
            return Purchase::Locked;
        }
        let level = self.game_state.upgrade_levels.get(id);
        if level >= id.max_level() {
            return Purchase::MaxedOut;
        }
        if !affordable {
            return Purchase::NotEnoughMoney;
        }
        let ghost before = *self;
        self.apply_purchase_effect(id);
        if !id.is_infinite() {
            self.game_state.upgrade_levels.set(id, level + 1);
        }
        proof {
            if id == UpgradeId::AutoLetterCount {
                let q = self.floating_pane_queue@;
                if !before.floating_pane_queue@.contains(ModuleId::AutoTyperSelector) {
                    assert(q[q.len() - 1] == ModuleId::AutoTyperSelector);
                }
            }
            lemma_purchase_effects(
                before,
                id,
                self.game_state.upgrade_levels,
                self.floating_pane_queue,
            );
        }
        Purchase::Bought
    }
}

/// The displayed upgrade that an upgrade key buys.
pub fn upgrade_for_key(shown_list: &Vec<UpgradeId>, c: char) -> (r: Option<UpgradeId>)
    ensures
        r == upgrade_for(shown_list@, c),
{
    let mut i: usize = 0;
    while i < 10
        invariant
            i <= 10,
            forall|k: int| 0 <= k < i ==> UPGRADE_KEYS[k] != c,
        decreases 10 - i,
    {
        if UPGRADE_KEYS[i] == c {
            if i < shown_list.len() {
                return Some(shown_list[i]);
            } else {
                return None;
            }
        }
        i = i + 1;
    }
    None
}


/// What a key press hands back for the caller to finish.
#[derive(Clone, Debug)]
pub enum KeyOutcome {
    Nothing,
    /// Enter on the text pane: the typed line, to be scored against line
    /// `line` of the current text.
    LineSubmitted { typed: String, line: usize },
    /// An upgrade key on the upgrade pane, and what came of the attempt.
    UpgradeAttempt { upgrade: UpgradeId, result: Purchase },
}

/// What a key does before it reaches a pane: Esc quits (an open overlay
/// is closed instead, see `Game::navigate`), Ctrl-C and Ctrl-D quit, Tab
/// toggles the upgrades, the arrows move the focus position (down and right
/// go to row and column one).
pub open spec fn moved(g: Game, key: Key, ctrl: bool) -> Game {
    let s = g.game_state;
    match key {
        Key::Esc => Game { should_quit: true, ..g },
        Key::Char(c) => if ctrl && (c == 'c' || c == 'd') {
            Game { should_quit: true, ..g }
        } else {
            g
        },
        Key::Tab => toggled(g),
        Key::Up => with_focus(
            g,
            s.window_x,
            if s.window_y > 0 { (s.window_y - 1) as u16 } else { 0 },
            s.previous_window_x,
            s.previous_window_y,
            s.current_pane,
        ),
        Key::Down => with_focus(g, s.window_x, 1, s.previous_window_x, s.previous_window_y, s.current_pane),
        Key::Left => with_focus(
            g,
            if s.window_x > 0 { (s.window_x - 1) as u16 } else { 0 },
            s.window_y,
            s.previous_window_x,
            s.previous_window_y,
            s.current_pane,
        ),
        Key::Right => with_focus(g, 1, s.window_y, s.previous_window_x, s.previous_window_y, s.current_pane),
        _ => g,
    }
}

/// The pane that gets a key: the focused one, if it is shown.
pub open spec fn receiver(g: Game) -> Option<ModuleId> {
    if g.active(g.game_state.current_pane) {
        Some(g.game_state.current_pane)
    } else {
        None
    }
}

/// The upgrade that `key` tries to buy on the upgrade pane.
pub open spec fn key_upgrade(g: Game, key: Key, unlocked: Seq<bool>) -> Option<UpgradeId> {
    match key {
        Key::Char(c) => upgrade_for(displayed(g, unlocked), c),
        _ => None,
    }
}

/// A key can reach its pane without a counter running over.
pub open spec fn key_fits(g: Game, key: Key, unlocked: Seq<bool>, affordable: Seq<bool>) -> bool {
    match receiver(g) {
        Some(ModuleId::Text) => key == Key::Enter ==> g.game_state.text_pane.current_line < usize::MAX,
        Some(ModuleId::AutoQueue) => key matches Key::Char(c)
            ==> g.game_state.auto_queue.letter_counts.count(ascii_lower(c)) + 1 <= u32::MAX,
        Some(ModuleId::AutoTyperSelector) => g.game_state.auto_queue.auto_typer_selector.can_handle(key),
        Some(ModuleId::Upgrade) => key_upgrade(g, key, unlocked) matches Some(id) ==> (
            purchase_outcome(g, id, unlocked[index_of(id)], affordable[index_of(id)]) == Purchase::Bought
            ==> purchase_fits(g, id)),
        _ => true,
    }
}

/// Enter, a character or Backspace on the text pane.
pub open spec fn text_dispatched(g: Game, f: Game, key: Key, r: KeyOutcome) -> bool {
    let s = g.game_state;
    &&& text_step(s.text_pane, f.game_state.text_pane, key)
    &&& f == Game { game_state: GameState { text_pane: f.game_state.text_pane, ..s }, ..g }
    &&& match key {
        Key::Enter => r matches KeyOutcome::LineSubmitted { typed, line } && typed@
            == s.text_pane.typed@ && line == s.text_pane.current_line,
        _ => r is Nothing,
    }
}

/// A character on the letter machine counts one for its letter.
pub open spec fn auto_queue_dispatched(g: Game, f: Game, key: Key, r: KeyOutcome) -> bool {
    let s = g.game_state;
    let counts = s.auto_queue.letter_counts;
    &&& (key matches Key::Char(c) ==> f.game_state.auto_queue.letter_counts@ == counts@.insert(
        ascii_lower(c),
        if counts.count(ascii_lower(c)) + 1 <= 999 {
            (counts.count(ascii_lower(c)) + 1) as u32
        } else {
            999u32
        },
    ))
    &&& (!(key is Char) ==> f.game_state.auto_queue.letter_counts == counts)
    &&& f == Game {
        game_state: GameState {
            auto_queue: AutoQueue {
                letter_counts: f.game_state.auto_queue.letter_counts,
                ..s.auto_queue
            },
            ..s
        },
        ..g
    }
    &&& r is Nothing
}

/// A key on the auto typer selector; when it closes, the overlay leaves the
/// queue.
pub open spec fn selector_dispatched(g: Game, f: Game, key: Key, r: KeyOutcome) -> bool {
    let s = g.game_state;
    let sel = f.game_state.auto_queue.auto_typer_selector;
    let stepped = Game {
        game_state: GameState {
            auto_queue: AutoQueue { auto_typer_selector: sel, ..s.auto_queue },
            ..s
        },
        ..g
    };
    let step = selector_step(s.auto_queue.auto_typer_selector, key);
    &&& step.0 == sel.counts_map()
    &&& step.1 == sel.max_auto_typers
    &&& if step.2 {
        &&& f.floating_pane_queue@ == without(g.floating_pane_queue@, ModuleId::AutoTyperSelector)
        &&& f == recalculated(with_queue(stepped, f.floating_pane_queue))
    } else {
        f == stepped
    }
    &&& r is Nothing
}

/// An upgrade key on the upgrade pane tries to buy the upgrade it stands for.
pub open spec fn upgrade_dispatched(
    g: Game,
    f: Game,
    key: Key,
    unlocked: Seq<bool>,
    affordable: Seq<bool>,
    r: KeyOutcome,
) -> bool {
    let s = g.game_state;
    match key_upgrade(g, key, unlocked) {
        Some(id) => {
            let outcome = purchase_outcome(
                g,
                id,
                unlocked[index_of(id)],
                affordable[index_of(id)],
            );
            &&& r == (KeyOutcome::UpgradeAttempt { upgrade: id, result: outcome })
            &&& outcome != Purchase::Bought ==> f == g
            &&& outcome == Purchase::Bought ==> {
                &&& f.game_state.upgrade_levels.level(id) == if infinite(id) {
                    s.upgrade_levels.level(id) as int
                } else {
                    s.upgrade_levels.level(id) + 1
                }
                &&& forall|other: UpgradeId|
                    other != id ==> #[trigger] f.game_state.upgrade_levels.level(other)
                        == s.upgrade_levels.level(other)
                &&& f.floating_pane_queue@ == if id == UpgradeId::AutoLetterCount
                    && !g.floating_pane_queue@.contains(ModuleId::AutoTyperSelector) {
                    g.floating_pane_queue@.push(ModuleId::AutoTyperSelector)
                } else {
                    g.floating_pane_queue@
                }
                &&& f == with_levels_and_queue(
                    purchase_effect(g, id),
                    f.game_state.upgrade_levels,
                    f.floating_pane_queue,
                )
            }
        },
        None => f == g && r is Nothing,
    }
}

/// How the pane that gets a key changes the game from `g` to `f`, and what
/// it hands back.
pub open spec fn dispatched(
    g: Game,
    f: Game,
    key: Key,
    unlocked: Seq<bool>,
    affordable: Seq<bool>,
    r: KeyOutcome,
) -> bool {
    match receiver(g) {
        Some(ModuleId::Text) => text_dispatched(g, f, key, r),
        Some(ModuleId::AutoQueue) => auto_queue_dispatched(g, f, key, r),
        Some(ModuleId::AutoTyperSelector) => selector_dispatched(g, f, key, r),
        Some(ModuleId::Upgrade) => upgrade_dispatched(g, f, key, unlocked, affordable, r),
        _ => f == g && r is Nothing,
    }
}

impl Game {
    /// The part of a key press that comes before its pane: quitting, closing
    /// an overlay, Tab and the arrows, then the focus worked out again.
    pub fn navigate(&mut self, key: Key, ctrl: bool)
        ensures
            match (key, old(self).floating()) {
                (Key::Esc, Some(m)) => {
                    &&& final(self).floating_pane_queue@ == without(old(self).floating_pane_queue@, m)
                    &&& *final(self) == recalculated(
                        recalculated(with_queue(*old(self), final(self).floating_pane_queue)),
                    )
                },
                _ => *final(self) == recalculated(moved(*old(self), key, ctrl)),
            },
    {
        match key {
            Key::Esc => {
                if let Some(module) = self.get_floating_pane() {
                    self.remove_floating_pane(module);
                } else {
                    self.should_quit = true;
                }
            },
            Key::Char(c) => {
                if ctrl && (c == 'c' || c == 'd') {
                    self.should_quit = true;
                }
            },
            Key::Tab => self.toggle_upgrade_pane(),
            Key::Up => {
                self.game_state.window_y = self.game_state.window_y.saturating_sub(1);
            },
            Key::Down => {
                self.game_state.window_y = 1;
            },
            Key::Left => {
                self.game_state.window_x = self.game_state.window_x.saturating_sub(1);
            },
            Key::Right => {
                self.game_state.window_x = 1;
            },
            _ => {},
        }
        self.recalculate_current_pane();
    }

    /// Whether the focused pane can take a key without a counter running
    /// over.
    pub fn input_fits(&self, key: Key, unlocked: &Vec<bool>, affordable: &Vec<bool>) -> (r: bool)
        requires
            unlocked@.len() == NUM_UPGRADES,
            affordable@.len() == NUM_UPGRADES,
        ensures
            r == key_fits(*self, key, unlocked@, affordable@),
    {
        let pane = self.game_state.current_pane;
        if !self.is_module_active(pane) {
            return true;
        }
        match pane {
            ModuleId::Text => key != Key::Enter || self.game_state.text_pane.current_line < usize::MAX,
            ModuleId::AutoQueue => match key {
                Key::Char(c) => self.game_state.auto_queue.letter_counts.count_of(to_ascii_lower(c))
                    < u32::MAX,
                _ => true,
            },
            ModuleId::AutoTyperSelector => self.game_state.auto_queue.auto_typer_selector.fits_key(
                key,
            ),
            ModuleId::Upgrade => match key {
                Key::Char(c) => {
                    let shown_list = self.get_displayed_upgrades(unlocked);
                    match upgrade_for_key(&shown_list, c) {
                        Some(id) => {
                            let i = id.index();
                            let bought = unlocked[i] && self.game_state.upgrade_levels.get(id)
                                < id.max_level() && affordable[i];
                            !bought || match id {
                                UpgradeId::ResetMoneyForTrust => self.game_state.trust_level
                                    > i32::MIN,
                                UpgradeId::Seniority => self.game_state.seniority_level < u8::MAX,
                                UpgradeId::AutoLetterCount => self.game_state.auto_queue.auto_typer_selector.max_auto_typers
                                    < u32::MAX,
                                _ => true,
                            }
                        },
                        None => true,
                    }
                },
                _ => true,
            },
            _ => true,
        }
    }

    /// Hands a key to the focused pane, if it is shown.
    pub fn dispatch_pane_input(&mut self, key: Key, unlocked: &Vec<bool>, affordable: &Vec<bool>) -> (r: KeyOutcome)
        requires
            unlocked@.len() == NUM_UPGRADES,
            affordable@.len() == NUM_UPGRADES,
            key_fits(*old(self), key, unlocked@, affordable@),
        ensures
            dispatched(*old(self), *final(self), key, unlocked@, affordable@, r),
    {
        let pane = self.game_state.current_pane;
        if !self.is_module_active(pane) {
            return KeyOutcome::Nothing;
        }
        match pane {
            ModuleId::Text => self.text_input(key),
            ModuleId::Upgrade => self.upgrade_input(key, unlocked, affordable),
            ModuleId::AutoQueue => {
                self.game_state.auto_queue.handle_input(key);
                KeyOutcome::Nothing
            },
            ModuleId::AutoTyperSelector => {
                self.selector_input(key);
                KeyOutcome::Nothing
            },
            _ => KeyOutcome::Nothing,
        }
    }

    fn text_input(&mut self, key: Key) -> (r: KeyOutcome)
        requires
            key == Key::Enter ==> old(self).game_state.text_pane.current_line < usize::MAX,
        ensures
            text_dispatched(*old(self), *final(self), key, r),
    {
        let line = self.game_state.text_pane.current_line;
        match self.game_state.text_pane.handle_key(key) {
            Some(typed) => KeyOutcome::LineSubmitted { typed, line },
            None => KeyOutcome::Nothing,
        }
    }

    fn upgrade_input(&mut self, key: Key, unlocked: &Vec<bool>, affordable: &Vec<bool>) -> (r:
        KeyOutcome)
        requires
            unlocked@.len() == NUM_UPGRADES,
            affordable@.len() == NUM_UPGRADES,
            key_upgrade(*old(self), key, unlocked@) matches Some(id) ==> (purchase_outcome(
                *old(self),
                id,
                unlocked@[index_of(id)],
                affordable@[index_of(id)],
            ) == Purchase::Bought ==> purchase_fits(*old(self), id)),
        ensures
            upgrade_dispatched(*old(self), *final(self), key, unlocked@, affordable@, r),
    {
        if let Key::Char(c) = key {
            let shown_list = self.get_displayed_upgrades(unlocked);
            match upgrade_for_key(&shown_list, c) {
                Some(id) => {
                    let i = id.index();
                    let result = self.buy_upgrade(id, unlocked[i], affordable[i]);
                    KeyOutcome::UpgradeAttempt { upgrade: id, result }
                },
                None => KeyOutcome::Nothing,
            }
        } else {
            KeyOutcome::Nothing
        }
    }

    fn selector_input(&mut self, key: Key)
        requires
            old(self).game_state.auto_queue.auto_typer_selector.can_handle(key),
        ensures
            selector_dispatched(*old(self), *final(self), key, KeyOutcome::Nothing),
    {
        let close = self.game_state.auto_queue.auto_typer_selector.handle_input(key);
        if close {
            self.remove_floating_pane(ModuleId::AutoTyperSelector);
        }
    }

    /// A key press: what it does to the focus, then what the focused pane
    /// does with it. `ctrl` tells whether Control was held;
    /// `unlocked[i]` and `affordable[i]` tell, for the upgrade at position
    /// `i`, whether its unlock condition holds and whether the money covers
    /// its next level.
    pub fn handle_key(&mut self, key: Key, ctrl: bool, unlocked: &Vec<bool>, affordable: &Vec<bool>) -> (r: KeyOutcome)
        requires
            unlocked@.len() == NUM_UPGRADES,
            affordable@.len() == NUM_UPGRADES,
            key != Key::Esc ==> key_fits(recalculated(moved(*old(self), key, ctrl)), key, unlocked@, affordable@),
        ensures
            match (key, old(self).floating()) {
                (Key::Esc, Some(m)) => {
                    &&& final(self).floating_pane_queue@ == without(old(self).floating_pane_queue@, m)
                    &&& *final(self) == recalculated(
                        recalculated(with_queue(*old(self), final(self).floating_pane_queue)),
                    )
                    &&& r is Nothing
                },
                (Key::Esc, None) => *final(self) == recalculated(moved(*old(self), key, ctrl)) && r is Nothing,
                _ => dispatched(recalculated(moved(*old(self), key, ctrl)), *final(self), key, unlocked@, affordable@, r),
            },
    {
        self.navigate(key, ctrl);
        if key == Key::Esc {
            return KeyOutcome::Nothing;
        }
        self.dispatch_pane_input(key, unlocked, affordable)
    }
}


/// How long a profit bucket lasts, in milliseconds.
pub const PROFIT_PERIOD: u64 = 5000;

impl PaneRects {
    /// No pane drawn yet.
    pub open spec fn none_drawn() -> PaneRects {
        PaneRects { text: Rect::empty(), upgrade: Rect::empty(), graph: None, auto_keys: None }
    }
}

/// The game as it starts from a saved state: nothing drawn, no overlay
/// queued, not quitting, its profit clock at `now`.
pub open spec fn started(game_state: GameState, test_mode: Option<TestMode>, now: u64, queue: Vec<ModuleId>) -> Game {
    Game {
        game_state,
        should_quit: false,
        pane_rects: PaneRects::none_drawn(),
        last_profit_time: now,
        test_mode,
        floating_pane_queue: queue,
    }
}

/// What a tick of the clock hands back for the caller to finish.
#[derive(Clone, Debug)]
pub struct TickOutcome {
    /// The profit buckets moved on: the new current bucket starts empty.
    pub bucket_rotated: bool,
    /// The letters that the letter machine typed, when it ran.
    pub typed: Option<String>,
}

/// The trust level after a line: one more (up to the maximum) when the line
/// was typed well enough, otherwise no more than zero.
pub open spec fn trust_after(trust_level: i32, passed: bool) -> int {
    if passed {
        if trust_level + 1 < MAX_TRUST_LEVEL {
            trust_level + 1
        } else {
            MAX_TRUST_LEVEL as int
        }
    } else if trust_level < 0 {
        trust_level as int
    } else {
        0
    }
}

/// The new trust level after a line, given whether it was typed well
/// enough (the share of matching letters, against the bar that seniority
/// lowers).
pub fn next_trust_level(trust_level: i32, passed: bool) -> (r: i32)
    requires
        passed ==> trust_level < i32::MAX,
    ensures
        r == trust_after(trust_level, passed),
        r <= MAX_TRUST_LEVEL,
{
    if passed {
        let up = trust_level + 1;
        if up < MAX_TRUST_LEVEL {
            up
        } else {
            MAX_TRUST_LEVEL
        }
    } else if trust_level < 0 {
        trust_level
    } else {
        0
    }
}

impl Game {
    /// A new game's state, its clocks at `now`.
    pub fn default_state(now: u64) -> (r: GameState)
        ensures
            r.is_new(now),
    {
        GameState::new(now)
    }

    /// A game from a saved state, in test mode or not.
    pub fn from_state_with_test_mode(game_state: GameState, test_mode: Option<TestMode>, now: u64) -> (r: Game)
        ensures
            r.floating_pane_queue@ == Seq::<ModuleId>::empty(),
            r == recalculated(started(game_state, test_mode, now, r.floating_pane_queue)),
    {
        let mut game = Game {
            game_state,
            should_quit: false,
            pane_rects: PaneRects {
                text: Rect::new(0, 0, 0, 0),
                upgrade: Rect::new(0, 0, 0, 0),
                graph: None,
                auto_keys: None,
            },
            last_profit_time: now,
            test_mode,
            floating_pane_queue: Vec::new(),
        };
        game.recalculate_current_pane();
        game
    }

    /// A game from a saved state.
    pub fn from_state(game_state: GameState, now: u64) -> (r: Game)
        ensures
            r.floating_pane_queue@ == Seq::<ModuleId>::empty(),
            r == recalculated(started(game_state, None, now, r.floating_pane_queue)),
    {
        Self::from_state_with_test_mode(game_state, None, now)
    }

    /// A new game, in test mode or not.
    pub fn new_with_test_mode(test_mode: Option<TestMode>, now: u64) -> (r: Game)
        ensures
            r.floating_pane_queue@ == Seq::<ModuleId>::empty(),
            (exists|s: GameState|
                s.is_new(now) && r == recalculated(
                    started(s, test_mode, now, r.floating_pane_queue),
                )),
    {
        let state = Self::default_state(now);
        Self::from_state_with_test_mode(state, test_mode, now)
    }

    /// A new game.
    pub fn new(now: u64) -> (r: Game)
        ensures
            r.floating_pane_queue@ == Seq::<ModuleId>::empty(),
            (exists|s: GameState|
                s.is_new(now) && r == recalculated(
                    started(s, None, now, r.floating_pane_queue),
                )),
    {
        Self::new_with_test_mode(None, now)
    }

    /// Every five seconds the profit buckets move on by one, round the
    /// ring of buckets.
    pub fn handle_tracking(&mut self, now: u64) -> (rotated: bool)
        ensures
            rotated == (elapsed(old(self).last_profit_time, now) >= PROFIT_PERIOD),
            *final(self) == after_tracking(*old(self), now),
            rotated ==> final(self).game_state.second_profit_bucket_head <= NUM_POLLS,
    {
        if now >= self.last_profit_time && now - self.last_profit_time >= PROFIT_PERIOD {
            self.last_profit_time = now;
            let head = self.game_state.second_profit_bucket_head;
            let h = head % (NUM_POLLS + 1);
            proof {
                assert((head + 1) % 31 == if h + 1 == 31 { 0 } else { h + 1 }) by (nonlinear_arith)
                    requires
                        h == head % 31,
                ;
            }
            self.game_state.second_profit_bucket_head = if h + 1 == NUM_POLLS + 1 {
                0
            } else {
                h + 1
            };
            true
        } else {
            false
        }
    }
}


/// The game after the profit clock is read at `now`.
pub open spec fn after_tracking(g: Game, now: u64) -> Game {
    if elapsed(g.last_profit_time, now) >= PROFIT_PERIOD {
        Game {
            last_profit_time: now,
            game_state: GameState {
                second_profit_bucket_head: ((g.game_state.second_profit_bucket_head + 1) % (
                NUM_POLLS + 1)) as usize,
                ..g.game_state
            },
            ..g
        }
    } else {
        g
    }
}

impl Game {
    /// A tick of the clock at `now` (the keys and clicks that came in are
    /// handled first, through `handle_key` and `handle_mouse_click`): the
    /// profit buckets move on when it is time, and the letter machine runs
    /// when it is shown.
    pub fn update(&mut self, now: u64, library: &TextLibrary) -> (r: TickOutcome)
        requires
            old(self).active(ModuleId::AutoQueue) ==> old(self).game_state.auto_queue.can_update(
                now,
                library,
            ),
        ensures
            r.bucket_rotated == (elapsed(old(self).last_profit_time, now) >= PROFIT_PERIOD),
            !old(self).active(ModuleId::AutoQueue) ==> r.typed is None && *final(self) == after_tracking(
                *old(self),
                now,
            ),
            old(self).active(ModuleId::AutoQueue) ==> {
                let t = after_tracking(*old(self), now);
                &&& r.typed matches Some(typed) && machine_step(
                    old(self).game_state.auto_queue,
                    final(self).game_state.auto_queue,
                    now,
                    library,
                    typed@,
                )
                &&& *final(self) == (Game {
                    game_state: GameState {
                        auto_queue: final(self).game_state.auto_queue,
                        ..t.game_state
                    },
                    ..t
                })
            },
    {
        let bucket_rotated = self.handle_tracking(now);
        if self.is_module_active(ModuleId::AutoQueue) {
            let typed = self.game_state.auto_queue.update(now, library);
            TickOutcome { bucket_rotated, typed: Some(typed) }
        } else {
            TickOutcome { bucket_rotated, typed: None }
        }
    }
}

impl LayoutContext {
    /// Which of the four panes the game shows.
    pub fn from_game(game: &Game) -> (r: LayoutContext)
        ensures
            r.text_active == game.active(ModuleId::Text),
            r.upgrade_active == game.active(ModuleId::Upgrade),
            r.auto_active == game.active(ModuleId::AutoQueue),
            r.graph_active == game.active(ModuleId::Graph),
    {
        LayoutContext {
            text_active: game.is_module_active(ModuleId::Text),
            upgrade_active: game.is_module_active(ModuleId::Upgrade),
            auto_active: game.is_module_active(ModuleId::AutoQueue),
            graph_active: game.is_module_active(ModuleId::Graph),
        }
    }
}


/// Working the focus out again changes nothing the second time.
pub proof fn lemma_recalculated_idempotent(g: Game)
    ensures
        recalculated(recalculated(g)) == recalculated(g),
{
}

/// Outside test mode, with only the auto typer selector ever queued as an
/// overlay, the focus always lands on a pane that is shown, so that pane
/// gets the keys.
pub proof fn lemma_focus_on_shown_pane(g: Game)
    requires
        g.test_mode is None,
        forall|i: int|
            0 <= i < g.floating_pane_queue@.len() ==> #[trigger] g.floating_pane_queue@[i]
                == ModuleId::AutoTyperSelector,
    ensures
        receiver(recalculated(g)) == Some(recalculated(g).game_state.current_pane),
{
    if g.floating_pane_queue@.len() > 0 {
        assert(g.floating_pane_queue@[0] == ModuleId::AutoTyperSelector);
    }
}

/// Tab twice, from any pane but the upgrades and with no overlay open,
/// brings the focus back where it was.
pub proof fn lemma_tab_twice_returns(g: Game)
    requires
        g.active(ModuleId::Upgrade),
        g.floating() is None,
        recalculated(g).game_state.current_pane != ModuleId::Upgrade,
    ensures
        toggled(toggled(g)).game_state.window_x == recalculated(g).game_state.window_x,
        toggled(toggled(g)).game_state.window_y == recalculated(g).game_state.window_y,
        toggled(toggled(g)).game_state.current_pane == recalculated(g).game_state.current_pane,
{
}

/// Esc on an open overlay takes it out of the queue altogether.
pub proof fn lemma_esc_closes_overlay(q: Seq<ModuleId>, m: ModuleId)
    ensures
        !without(q, m).contains(m),
        without(q, m).len() <= q.len(),
{
    broadcast use vstd::seq_lib::group_filter_ensures;

    if without(q, m).contains(m) {
        let i = choose|i: int| 0 <= i < without(q, m).len() && without(q, m)[i] == m;
        assert(without(q, m)[i] != m);
    }
}


/// The unlock condition of an upgrade, given whether its money threshold is
/// met: letter compression also needs capital letters unlocked, the auto
/// letter count the letter machine.
pub open spec fn unlock_holds(g: Game, id: UpgradeId, money_ok: bool) -> bool {
    &&& money_ok
    &&& id == UpgradeId::LetterCompression ==> g.game_state.capital_letter_bonus_unlocked
    &&& id == UpgradeId::AutoLetterCount ==> g.game_state.automation_unlocked
}

impl Game {
    /// Whether an upgrade is unlocked, `money_ok` telling whether the money
    /// reached its threshold.
    pub fn upgrade_unlocked(&self, id: UpgradeId, money_ok: bool) -> (r: bool)
        ensures
            r == unlock_holds(*self, id, money_ok),
    {
        money_ok && match id {
            UpgradeId::LetterCompression => self.game_state.capital_letter_bonus_unlocked,
            UpgradeId::AutoLetterCount => self.game_state.automation_unlocked,
            _ => true,
        }
    }
}

} // verus!
