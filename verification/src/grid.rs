//! Arithmetic on a single activity's 3x3 workspace grid.
//!
//! A workspace index `0..9` decomposes as `row = idx / 3`, `col = idx % 3`
//! (row-major, top-left origin). A move applies `(dx, dy)` to `(col, row)`
//! and either wraps each axis modulo 3 (`cycle == true`) or clamps it to
//! `[0, 2]` (`cycle == false`).

use vstd::prelude::*;

verus! {

/// Clamp a coordinate to the valid column/row range `[0, 2]`.
pub open spec fn clamp3(v: int) -> int {
    if v < 0 {
        0
    } else if v > 2 {
        2
    } else {
        v
    }
}

/// Wrap a coordinate onto `[0, 2]`; `%` on `int` is Euclidean, so the
/// result is non-negative for any `v`.
pub open spec fn wrap3(v: int) -> int {
    v % 3
}

/// The workspace index reached from `idx` by moving `(dx, dy)` on the grid.
pub open spec fn grid_move(idx: int, dx: int, dy: int, cycle: bool) -> int {
    let col = idx % 3;
    let row = idx / 3;
    let new_col = if cycle {
        wrap3(col + dx)
    } else {
        clamp3(col + dx)
    };
    let new_row = if cycle {
        wrap3(row + dy)
    } else {
        clamp3(row + dy)
    };
    new_row * 3 + new_col
}

/// Compute the workspace index reached from `idx` by `(dx, dy)`.
///
/// The deltas admit both signed unit steps and the `+1`/`+2` wraparound
/// encoding the edge-trigger loop uses (`-1` expressed as `+2` modulo 3).
#[verifier::rlimit(30)]
pub fn move_within_grid(idx: usize, dx: i64, dy: i64, cycle: bool) -> (r: usize)
    requires
        idx < 9,
        -3 <= dx <= 3,
        -3 <= dy <= 3,
    ensures
        r < 9,
        r == grid_move(idx as int, dx as int, dy as int, cycle),
{
    let col: i64 = (idx % 3) as i64;
    let row: i64 = (idx / 3) as i64;
    proof {
        assert(col == idx as int % 3);
        assert(row == idx as int / 3);
        assert(0 <= col < 3 && 0 <= row < 3);
    }
    let new_col: i64 = if cycle {
        proof {
            assert(0 <= col + dx + 3 <= 8);
            assert((col + dx + 3) % 3 == wrap3(col as int + dx as int)) by {
                assert(0 <= (col + dx + 3) as int % 3 < 3);
            };
        }
        (col + dx + 3) % 3
    } else {
        let c: i64 = col + dx;
        if c < 0 {
            0
        } else if c > 2 {
            2
        } else {
            c
        }
    };
    let new_row: i64 = if cycle {
        proof {
            assert(0 <= row + dy + 3 <= 8);
            assert((row + dy + 3) % 3 == wrap3(row as int + dy as int)) by {
                assert(0 <= (row + dy + 3) as int % 3 < 3);
            };
        }
        (row + dy + 3) % 3
    } else {
        let rr: i64 = row + dy;
        if rr < 0 {
            0
        } else if rr > 2 {
            2
        } else {
            rr
        }
    };
    (new_row * 3 + new_col) as usize
}

/// With wraparound, a move followed by its opposite returns to the start:
/// `(dx, dy)` then `(-dx, -dy)` is the identity on every grid slot.
pub proof fn lemma_cycle_move_inverse(idx: int, dx: int, dy: int)
    requires
        0 <= idx < 9,
        -1 <= dx <= 1,
        -1 <= dy <= 1,
    ensures
        grid_move(grid_move(idx, dx, dy, true), -dx, -dy, true) == idx,
{
    let m = grid_move(idx, dx, dy, true);
    assert(m % 3 == wrap3(idx % 3 + dx) && m / 3 == wrap3(idx / 3 + dy)) by {
        assert(0 <= wrap3(idx % 3 + dx) < 3);
        assert(0 <= wrap3(idx / 3 + dy) < 3);
    };
}

/// Without wraparound the grid clamps: a move off the left column stays in
/// the left column, and likewise at every boundary.
pub proof fn lemma_clamp_left_edge(idx: int)
    requires
        0 <= idx < 9,
        idx % 3 == 0,
    ensures
        grid_move(idx, -1, 0, false) == idx,
{
}

} // verus!
