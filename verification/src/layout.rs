//! Where the panes go on the screen: the terminal's rectangles, the
//! constraints that size the columns and rows, and the layout of the panes.
use crate::game::{Game, PaneRects};
use crate::pane_module::{LayoutContext, ModuleId};
use ratatui::layout::Constraint as TuiConstraint;
use ratatui::layout::Direction as TuiDirection;
use ratatui::layout::Layout as TuiLayout;
use ratatui::layout::Rect as TuiRect;
use vstd::prelude::*;

verus! {

/// A rectangle of the terminal.
#[derive(Clone, Copy, Debug, PartialEq, Eq, Default, Structural)]
pub struct Rect {
    pub x: u16,
    pub y: u16,
    pub width: u16,
    pub height: u16,
}

pub open spec fn saturating_add_u16(a: u16, b: u16) -> int {
    if a + b > u16::MAX {
        u16::MAX as int
    } else {
        a + b
    }
}

impl Rect {
    pub fn new(x: u16, y: u16, width: u16, height: u16) -> (r: Rect)
        ensures
            r == (Rect { x, y, width, height }),
    {
        Rect { x, y, width, height }
    }

    /// The empty rectangle at the origin.
    pub open spec fn empty() -> Rect {
        Rect { x: 0, y: 0, width: 0, height: 0 }
    }

    /// Whether the cell at `(column, row)` lies inside (the right and bottom
    /// edges stop at the border of the terminal's coordinates).
    pub open spec fn holds(self, column: u16, row: u16) -> bool {
        &&& column >= self.x
        &&& column < saturating_add_u16(self.x, self.width)
        &&& row >= self.y
        &&& row < saturating_add_u16(self.y, self.height)
    }

    pub fn contains(&self, column: u16, row: u16) -> (r: bool)
        ensures
            r == self.holds(column, row),
    {
        let right = self.x.saturating_add(self.width);
        let bottom = self.y.saturating_add(self.height);
        column >= self.x && column < right && row >= self.y && row < bottom
    }
}

/// How much room a column or a row asks for.
#[derive(Clone, Copy, Debug, PartialEq, Eq, Structural)]
pub enum Constraint {
    /// At least this many cells.
    Min(u16),
    /// Exactly this many cells.
    Length(u16),
    /// This share of the whole, in percent.
    Percentage(u16),
    /// A share of what the others leave, by weight.
    Fill(u16),
}

/// Whether an area is cut into columns or rows.
#[derive(Clone, Copy, Debug, PartialEq, Eq, Structural)]
pub enum Direction {
    Horizontal,
    Vertical,
}

/// The areas that ratatui's `Layout` (with no margin and no spacing) cuts
/// `area` into for `constraints`, in `direction`: one per constraint.
pub uninterp spec fn layout_split(direction: Direction, area: Rect, constraints: Seq<Constraint>) -> Seq<Rect>;

/// `ratatui::layout::Layout::split` on a layout made by
/// `Layout::horizontal` or `Layout::vertical`.
/// Trusted: the result is the named split of `area` for `constraints`, one
/// area per constraint. Where each area lies is not stated: ratatui works it
/// out with a constraint solver.
#[verifier::external_body]
fn split_area(direction: Direction, area: Rect, constraints: &Vec<Constraint>) -> (r: Vec<Rect>)
    ensures
        r@ == layout_split(direction, area, constraints@),
        r@.len() == constraints@.len(),
{
    let cs = constraints.iter().map(|c| match *c {
        Constraint::Min(n) => TuiConstraint::Min(n),
        Constraint::Length(n) => TuiConstraint::Length(n),
        Constraint::Percentage(n) => TuiConstraint::Percentage(n),
        Constraint::Fill(n) => TuiConstraint::Fill(n),
    });
    let d = match direction {
        Direction::Horizontal => TuiDirection::Horizontal,
        Direction::Vertical => TuiDirection::Vertical,
    };
    let a = TuiRect { x: area.x, y: area.y, width: area.width, height: area.height };
    let parts = TuiLayout::default().direction(d).constraints(cs).split(a);
    parts.iter().map(|p| Rect { x: p.x, y: p.y, width: p.width, height: p.height }).collect()
}


/// The width of the letter machine's column: the grid, the borders, the
/// letter, its count and the spaces between them.
pub const KEYS_COLUMN_WIDTH: u16 = 58;

/// The height of the text pane in the main column.
pub const TEXT_ROWS: u16 = 7;

/// The least height of the upgrade pane in the main column.
pub const UPGRADE_MIN_ROWS: u16 = 5;

/// The columns, left to right: the main column (text and upgrades) when
/// either is shown, then the letter machine's column when it is shown,
/// narrow beside other panes and filling the screen otherwise.
pub open spec fn column_constraints(ctx: LayoutContext) -> Seq<Constraint> {
    let main: Seq<Constraint> = if ctx.text_active || ctx.upgrade_active {
        seq![Constraint::Fill(2)]
    } else {
        Seq::empty()
    };
    if ctx.auto_active {
        main.push(
            if ctx.text_active || ctx.upgrade_active || ctx.graph_active {
                Constraint::Length(KEYS_COLUMN_WIDTH)
            } else {
                Constraint::Fill(1)
            },
        )
    } else {
        main
    }
}

/// Where the panes go in `area`. A pane shown alone takes all of it.
/// Otherwise the columns are cut from `area`; in the main column the text
/// (seven rows) sits over the upgrades (at least five) when both are shown,
/// and one of them shown alone takes the whole column. The graph gets no
/// area here.
pub open spec fn pane_layout(area: Rect, ctx: LayoutContext) -> PaneRects {
    let none = PaneRects::none_drawn();
    if ctx.pane_count() == 1 {
        if ctx.auto_active {
            PaneRects { auto_keys: Some(area), ..none }
        } else if ctx.text_active {
            PaneRects { text: area, ..none }
        } else if ctx.upgrade_active {
            PaneRects { upgrade: area, ..none }
        } else {
            PaneRects { graph: Some(area), ..none }
        }
    } else {
        let constraints = column_constraints(ctx);
        if constraints.len() == 0 {
            none
        } else {
            let columns = layout_split(Direction::Horizontal, area, constraints);
            let main = ctx.text_active || ctx.upgrade_active;
            let keys = if ctx.auto_active {
                Some(columns[if main { 1int } else { 0int }])
            } else {
                None
            };
            if !main {
                PaneRects { auto_keys: keys, ..none }
            } else if ctx.text_active && ctx.upgrade_active {
                let rows = layout_split(
                    Direction::Vertical,
                    columns[0],
                    seq![Constraint::Length(TEXT_ROWS), Constraint::Min(UPGRADE_MIN_ROWS)],
                );
                PaneRects { text: rows[0], upgrade: rows[1], graph: None, auto_keys: keys }
            } else if ctx.text_active {
                PaneRects { text: columns[0], auto_keys: keys, ..none }
            } else {
                PaneRects { upgrade: columns[0], auto_keys: keys, ..none }
            }
        }
    }
}

/// The columns to cut for a layout.
fn column_constraint_list(ctx: &LayoutContext) -> (r: Vec<Constraint>)
    ensures
        r@ == column_constraints(*ctx),
{
    let mut r: Vec<Constraint> = Vec::new();
    if ctx.has_main_column() {
        r.push(Constraint::Fill(2));
    }
    if ctx.auto_active {
        r.push(
            if ctx.has_side_neighbors(ModuleId::AutoQueue) {
                Constraint::Length(KEYS_COLUMN_WIDTH)
            } else {
                Constraint::Fill(1)
            },
        );
    }
    proof {
        assert(r@ =~= column_constraints(*ctx));
    }
    r
}

/// Where the panes of `game` go in `area`. The text, the upgrades and the
/// graph are never all shown together here: that layout does not exist.
pub fn compute_pane_layout(area: Rect, game: &Game) -> (r: PaneRects)
    requires
        !(game.active(ModuleId::Text) && game.active(ModuleId::Upgrade) && game.active(
            ModuleId::Graph,
        )),
    ensures
        r == pane_layout(
            area,
            LayoutContext {
                text_active: game.active(ModuleId::Text),
                upgrade_active: game.active(ModuleId::Upgrade),
                auto_active: game.active(ModuleId::AutoQueue),
                graph_active: game.active(ModuleId::Graph),
            },
        ),
{
    let ctx = LayoutContext::from_game(game);
    let empty = Rect::new(0, 0, 0, 0);
    let none = PaneRects { text: empty, upgrade: empty, graph: None, auto_keys: None };
    if ctx.active_pane_count() == 1 {
        if ctx.auto_active {
            return PaneRects { auto_keys: Some(area), ..none };
        }
        if ctx.text_active {
            return PaneRects { text: area, ..none };
        }
        if ctx.upgrade_active {
            return PaneRects { upgrade: area, ..none };
        }
        return PaneRects { graph: Some(area), ..none };
    }
    let constraints = column_constraint_list(&ctx);
    if constraints.len() == 0 {
        return none;
    }
    let columns = split_area(Direction::Horizontal, area, &constraints);
    let main = ctx.has_main_column();
    let keys = if ctx.auto_active {
        Some(columns[if main { 1 } else { 0 }])
    } else {
        None
    };
    if !main {
        PaneRects { auto_keys: keys, ..none }
    } else if ctx.text_active && ctx.upgrade_active {
        let rows_wanted = vec![Constraint::Length(TEXT_ROWS), Constraint::Min(UPGRADE_MIN_ROWS)];
        let rows = split_area(Direction::Vertical, columns[0], &rows_wanted);
        proof {
            assert(rows_wanted@ =~= seq![Constraint::Length(TEXT_ROWS), Constraint::Min(UPGRADE_MIN_ROWS)]);
        }
        PaneRects { text: rows[0], upgrade: rows[1], graph: None, auto_keys: keys }
    } else if ctx.text_active {
        PaneRects { text: columns[0], auto_keys: keys, ..none }
    } else {
        PaneRects { upgrade: columns[0], auto_keys: keys, ..none }
    }
}

/// The three equal-weighted bands of a centred overlay: a fifth, three
/// fifths, a fifth.
pub open spec fn overlay_bands() -> Seq<Constraint> {
    seq![Constraint::Percentage(20), Constraint::Percentage(60), Constraint::Percentage(20)]
}

/// The area of an overlay: the middle of the middle band, first cut in
/// rows and then in columns.
pub open spec fn floating_area(whole: Rect) -> Rect {
    layout_split(
        Direction::Horizontal,
        layout_split(Direction::Vertical, whole, overlay_bands())[1],
        overlay_bands(),
    )[1]
}

fn overlay_band_list() -> (r: Vec<Constraint>)
    ensures
        r@ == overlay_bands(),
{
    let r = vec![Constraint::Percentage(20), Constraint::Percentage(60), Constraint::Percentage(20)];
    proof {
        assert(r@ =~= overlay_bands());
    }
    r
}

/// Where an overlay is drawn on the screen `whole`.
pub fn compute_floating_area(whole: Rect) -> (r: Rect)
    ensures
        r == floating_area(whole),
{
    let bands = overlay_band_list();
    let rows = split_area(Direction::Vertical, whole, &bands);
    let columns = split_area(Direction::Horizontal, rows[1], &bands);
    columns[1]
}

/// The screen with the money bar on top: the bar's three rows, then the
/// rest.
pub open spec fn money_bar_split(screen: Rect) -> Seq<Rect> {
    layout_split(Direction::Vertical, screen, seq![Constraint::Length(3), Constraint::Min(0)])
}

/// Where the money bar goes, when it is shown, and the area left for the
/// panes.
pub fn screen_areas(screen: Rect, money_bar_shown: bool) -> (r: (Option<Rect>, Rect))
    ensures
        money_bar_shown ==> r == (Some(money_bar_split(screen)[0]), money_bar_split(screen)[1]),
        !money_bar_shown ==> r == (None::<Rect>, screen),
{
    if money_bar_shown {
        let wanted = vec![Constraint::Length(3), Constraint::Min(0)];
        proof {
            assert(wanted@ =~= seq![Constraint::Length(3), Constraint::Min(0)]);
        }
        let parts = split_area(Direction::Vertical, screen, &wanted);
        (Some(parts[0]), parts[1])
    } else {
        (None, screen)
    }
}

} // verus!
