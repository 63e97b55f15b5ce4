//! Edge-trigger decision logic for the mouse polling loop.
//!
//! Each tick the loop samples the cursor; when the cursor sits within
//! `edge_w` pixels of a screen edge the grid wraps one slot in that
//! direction and the cursor is pushed to the opposite side, so the user
//! perceives wraparound. The wrap direction is encoded as a non-negative
//! delta for the 3-wide modulo arithmetic: `+2` (that is, `-1` modulo 3)
//! for the left or top edge and `+1` for the right or bottom edge.
//! Deciding what a tick does is pure; the sampling and the switch
//! commands stay outside the library.

use vstd::prelude::*;

use crate::grid::grid_move;
use crate::grid::move_within_grid;
use crate::state::State;
use crate::state::ws_name;
use crate::text::str_eq;

verus! {

/// The encoded wrap delta for one axis: `2` at the low edge, `1` at the
/// high edge, `0` away from both.
pub open spec fn edge_delta(c: int, extent: int, edge_w: int) -> int {
    if c <= edge_w {
        2
    } else if c >= extent - 1 - edge_w {
        1
    } else {
        0
    }
}

/// Where the cursor lands on one axis after the tick: pushed in from the
/// far side after a low-edge wrap, to coordinate `2` after a high-edge
/// wrap, unchanged otherwise.
pub open spec fn edge_repositioned(c: int, extent: int, edge_w: int, edge_m: int) -> int {
    if c <= edge_w {
        extent - edge_m
    } else if c >= extent - 1 - edge_w {
        2
    } else {
        c
    }
}

/// One axis' edge scan: the wrap delta and the repositioned coordinate.
pub fn scan_axis(c: i64, extent: i64, edge_w: i64, edge_m: i64) -> (r: (i64, i64))
    requires
        0 < extent <= 1_000_000_000,
        0 <= edge_w <= 1_000_000_000,
        0 <= edge_m <= 1_000_000_000,
    ensures
        r.0 == edge_delta(c as int, extent as int, edge_w as int),
        r.1 == edge_repositioned(c as int, extent as int, edge_w as int, edge_m as int),
{
    if c <= edge_w {
        (2, extent - edge_m)
    } else if c >= extent - 1 - edge_w {
        (1, 2)
    } else {
        (0, c)
    }
}

/// What one tick of the edge-trigger loop does.
pub enum MouseAction {
    /// No edge crossed: nothing to query, nothing to issue.
    Idle,
    /// The active workspace belongs to no grid slot: report, keep polling.
    UnknownWorkspace,
    /// The wrap lands on the workspace already active: skip the switch.
    Stay,
    /// Issue the axis animation, switch to `workspace`, then move the
    /// cursor to `(cursor_x, cursor_y)`.
    Switch { workspace: String, horizontal: bool, cursor_x: i64, cursor_y: i64 },
}

impl State {
    /// Decide one tick of the edge-trigger loop from the sampled cursor
    /// position, the monitor dimensions and the active workspace name.
    ///
    /// The mouse loop always wraps and never clamps; when both axes
    /// trigger in one tick, the horizontal animation takes priority.
    pub fn mouse_tick(
        &self,
        current: &str,
        cursor_x: i64,
        cursor_y: i64,
        mon_w: i64,
        mon_h: i64,
        edge_w: i64,
        edge_m: i64,
    ) -> (r: MouseAction)
        requires
            self.wf(),
            0 < mon_w <= 1_000_000_000,
            0 < mon_h <= 1_000_000_000,
            0 <= edge_w <= 1_000_000_000,
            0 <= edge_m <= 1_000_000_000,
        ensures
            ({
                let dx = edge_delta(cursor_x as int, mon_w as int, edge_w as int);
                let dy = edge_delta(cursor_y as int, mon_h as int, edge_w as int);
                &&& ((r is Idle) <==> (dx == 0 && dy == 0))
                &&& ((r is UnknownWorkspace) <==> (!(dx == 0 && dy == 0) && !(exists|a: int, l: int|
                    self.resolves_to(current@, a, l))))
                &&& forall|a: int, l: int|
                    #[trigger] self.resolves_to(current@, a, l) && !(dx == 0 && dy == 0) ==> {
                        let target = ws_name(self.acts()[a], grid_move(l, dx, dy, true));
                        &&& (target == current@ ==> r is Stay)
                        &&& (target != current@ ==> (r matches MouseAction::Switch {
                            workspace,
                            horizontal,
                            cursor_x: cx,
                            cursor_y: cy,
                        } && workspace@ == target && horizontal == (dx > 0) && cx
                            == edge_repositioned(
                            cursor_x as int,
                            mon_w as int,
                            edge_w as int,
                            edge_m as int,
                        ) && cy == edge_repositioned(
                            cursor_y as int,
                            mon_h as int,
                            edge_w as int,
                            edge_m as int,
                        )))
                    }
            }),
    {
        let (dx, new_x) = scan_axis(cursor_x, mon_w, edge_w, edge_m);
        let (dy, new_y) = scan_axis(cursor_y, mon_h, edge_w, edge_m);
        if dx == 0 && dy == 0 {
            return MouseAction::Idle;
        }
        let (a, l) = match self.get_indices(current) {
            Some((a, Some(l))) => (a, l),
            Some((a, None)) => {
                proof {
                    crate::state::lemma_no_exact_match(self, current@, a as int);
                }
                return MouseAction::UnknownWorkspace;
            },
            None => {
                return MouseAction::UnknownWorkspace;
            },
        };
        proof {
            assert(self.resolves_to(current@, a as int, l as int));
            assert forall|a2: int, l2: int| #[trigger]
                self.resolves_to(current@, a2, l2) implies a2 == a as int && l2 == l as int by {
                crate::state::lemma_resolves_unique(self, current@, a2, l2, a as int, l as int);
            }
        }
        let w = move_within_grid(l, dx, dy, true);
        let target = &self.workspaces[a][w];
        if str_eq(target.as_str(), current) {
            MouseAction::Stay
        } else {
            MouseAction::Switch {
                workspace: target.clone(),
                horizontal: dx > 0,
                cursor_x: new_x,
                cursor_y: new_y,
            }
        }
    }
}

} // verus!
