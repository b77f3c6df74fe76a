//! The graph pane: the profit of the last periods, oldest first.
use crate::game::NUM_POLLS;
use crate::layout::Constraint;
use crate::pane_module::{LayoutContext, ModuleId};
use vstd::prelude::*;

verus! {

pub struct GraphPane;

/// The width of the graph's column beside other panes: two cells per period
/// and the borders.
pub const GRAPH_COLUMN_WIDTH: u16 = 62;

impl GraphPane {
    pub fn title() -> (r: &'static str)
        ensures
            r@ == "Graphs"@,
    {
        "Graphs"
    }

    /// The graph's column: narrow beside other panes, filling the screen
    /// otherwise.
    pub fn column_constraint(ctx: &LayoutContext) -> (r: Option<Constraint>)
        ensures
            r == Some(
                if ctx.text_active || ctx.upgrade_active || ctx.auto_active {
                    Constraint::Length(GRAPH_COLUMN_WIDTH)
                } else {
                    Constraint::Fill(1)
                },
            ),
    {
        if ctx.has_side_neighbors(ModuleId::Graph) {
            Some(Constraint::Length(GRAPH_COLUMN_WIDTH))
        } else {
            Some(Constraint::Fill(1))
        }
    }

    /// The graph takes no row of the main column.
    pub fn main_column_row_constraint() -> (r: Option<Constraint>)
        ensures
            r is None,
    {
        None
    }

    /// The profit buckets to plot, oldest first: the ones after the current
    /// bucket `head`, round the ring, the current one left out.
    pub fn bucket_order(head: usize) -> (r: Vec<usize>)
        ensures
            r@.len() == NUM_POLLS,
            forall|i: int| 0 <= i < NUM_POLLS ==> #[trigger] r@[i] == (head + 1 + i) % (NUM_POLLS + 1),
            r@.no_duplicates(),
            !r@.contains((head % 31) as usize),
    {
        let h = head % (NUM_POLLS + 1);
        let mut r: Vec<usize> = Vec::new();
        let mut i: usize = 0;
        while i < NUM_POLLS
            invariant
                i <= NUM_POLLS,
                h == head % 31,
                r@.len() == i,
                forall|k: int| 0 <= k < i ==> #[trigger] r@[k] == (head + 1 + k) % (NUM_POLLS + 1),
                forall|k: int| 0 <= k < i ==> #[trigger] r@[k] == (h + 1 + k) % 31,
                h < 31,
            decreases NUM_POLLS - i,
        {
            let v = (h + 1 + i) % (NUM_POLLS + 1);
            proof {
                assert((head + 1 + i) % 31 == (h + 1 + i) % 31) by (nonlinear_arith)
                    requires
                        h == head % 31,
                        0 <= i,
                ;
            }
            r.push(v);
            i = i + 1;
        }
        proof {
            assert forall|a: int, b: int| 0 <= a < r@.len() && 0 <= b < r@.len() && a != b implies r@[a]
                != r@[b] by {
                assert(r@[a] == (h + 1 + a) % 31);
                assert(r@[b] == (h + 1 + b) % 31);
            }
            assert forall|k: int| 0 <= k < r@.len() implies r@[k] != h by {
                assert(r@[k] == (h + 1 + k) % 31);
            }
        }
        r
    }
}

} // verus!
