use vstd::prelude::*;

use crate::bot::{Cell, Coords, Field, Side, Turn};
use crate::utils::Direction;

verus! {

/// The cell `k` steps along the line that starts at `(x, y)` and
/// advances by `(dx, dy)`.
pub open spec fn line_cell(f: Field, x: int, y: int, dx: int, dy: int, k: int) -> Cell {
    f.cell(x + k * dx, y + k * dy)
}

/// A winning line for `side`: starting at `(x, y)` and stepping by
/// `(dx, dy)`, all `run` cells lie on the field and carry `side`'s mark.
pub open spec fn line_wins(
    f: Field,
    side: Side,
    x: int,
    y: int,
    dx: int,
    dy: int,
    run: int,
) -> bool {
    &&& 0 <= x
    &&& 0 <= y
    &&& x + (run - 1) * dx < f.size.width
    &&& y + (run - 1) * dy < f.size.height
    &&& forall|k: int| 0 <= k < run ==> line_cell(f, x, y, dx, dy, k) == Cell::Value(side)
}

/// Some line of `run` cells in direction `(dx, dy)` is fully marked by `side`.
pub open spec fn dir_wins(f: Field, side: Side, dx: int, dy: int, run: int) -> bool {
    exists|x: int, y: int| line_wins(f, side, x, y, dx, dy, run)
}

/// `side` has a winning line in one of the three scanned directions:
/// horizontal `(1, 0)`, vertical `(0, 1)`, or the diagonal `(1, 1)`.
/// The anti-diagonal `(1, -1)` is deliberately not scanned; a run along
/// it does not count as a win.
pub open spec fn has_winning_line(f: Field, side: Side, run: int) -> bool {
    ||| dir_wins(f, side, 1, 0, run)
    ||| dir_wins(f, side, 0, 1, run)
    ||| dir_wins(f, side, 1, 1, run)
}

/// Whether the `win_run` cells starting at `start` in direction `dir`
/// are all marked by the side of `turn`.
#[verifier::loop_isolation(false)]
pub fn check_win_from(
    field: &Field,
    turn: &Turn,
    start: Coords,
    dir: Direction,
    win_run: usize,
) -> (r: bool)
    requires
        field.wf(),
        1 <= win_run,
        dir.x == 0 || dir.x == 1,
        dir.y == 0 || dir.y == 1,
        start.x + (win_run - 1) * dir.x < field.size.width,
        start.y + (win_run - 1) * dir.y < field.size.height,
    ensures
        r == line_wins(
            *field,
            turn.side,
            start.x as int,
            start.y as int,
            dir.x as int,
            dir.y as int,
            win_run as int,
        ),
{
    let ghost f = *field;
    let ghost sx = start.x as int;
    let ghost sy = start.y as int;
    let ghost dxi = dir.x as int;
    let ghost dyi = dir.y as int;
    let ghost run = win_run as int;
    let dx: usize = dir.x as usize;
    let dy: usize = dir.y as usize;
    let mut k: usize = 0;
    let mut cx: usize = start.x;
    let mut cy: usize = start.y;
    while k < win_run
        invariant
            k <= win_run,
            cx == sx + k * dxi,
            cy == sy + k * dyi,
            forall|j: int|
                0 <= j < k ==> line_cell(f, sx, sy, dxi, dyi, j) == Cell::Value(turn.side),
        decreases win_run - k,
    {
        proof {
            assert(k * dxi <= (run - 1) * dxi) by (nonlinear_arith)
                requires
                    k < run,
                    dxi == 0 || dxi == 1,
            ;
            assert(k * dyi <= (run - 1) * dyi) by (nonlinear_arith)
                requires
                    k < run,
                    dyi == 0 || dyi == 1,
            ;
        }
        match field.geti(cx, cy) {
            Some(Cell::Value(s)) => {
                if s != turn.side {
                    proof {
                        assert(line_cell(f, sx, sy, dxi, dyi, k as int) != Cell::Value(turn.side));
                    }
                    return false;
                }
            },
            _ => {
                proof {
                    assert(line_cell(f, sx, sy, dxi, dyi, k as int) != Cell::Value(turn.side));
                }
                return false;
            },
        }
        k = k + 1;
        cx = cx + dx;
        cy = cy + dy;
    }
    true
}

/// Whether the side of `turn` has completed a line of `win_run` marks
/// anywhere on the field, in one of the three scanned directions.
///
/// Every line of the required length is checked, whatever `turn` was,
/// so the answer does not depend on which move triggered the check.
/// Lines along the `(1, -1)` anti-diagonal are never scanned and never
/// win; callers that care must treat such runs as ongoing play.
#[verifier::loop_isolation(false)]
pub fn check_win(field: &Field, turn: &Turn, win_run: usize) -> (r: bool)
    requires
        field.wf(),
        1 <= win_run,
    ensures
        r == has_winning_line(*field, turn.side, win_run as int),
{
    let ghost f = *field;
    let ghost side = turn.side;
    let ghost run = win_run as int;
    let width = field.size.width;
    let height = field.size.height;

    if win_run <= width {
        let mut i: usize = 0;
        while i < width - win_run + 1
            invariant
                i <= width - win_run + 1,
                forall|x: int, y: int| 0 <= x < i ==> !line_wins(f, side, x, y, 1, 0, run),
            decreases width - win_run + 1 - i,
        {
            let mut j: usize = 0;
            while j < height
                invariant
                    j <= height,
                    forall|y: int| 0 <= y < j ==> !line_wins(f, side, i as int, y, 1, 0, run),
                decreases height - j,
            {
                let start = Coords { x: i, y: j };
                let direction = Direction { x: 1, y: 0 };
                if check_win_from(field, turn, start, direction, win_run) {
                    return true;
                }
                j = j + 1;
            }
            i = i + 1;
        }
    }
    proof {
        assert forall|x: int, y: int| !line_wins(f, side, x, y, 1, 0, run) by {
            if 0 <= x && x + (run - 1) < f.size.width {
                assert(!line_wins(f, side, x, y, 1, 0, run));
            }
        }
        assert(!dir_wins(f, side, 1, 0, run));
    }

    if win_run <= height {
        let mut i: usize = 0;
        while i < width
            invariant
                i <= width,
                forall|x: int, y: int| 0 <= x < i ==> !line_wins(f, side, x, y, 0, 1, run),
            decreases width - i,
        {
            let mut j: usize = 0;
            while j < height - win_run + 1
                invariant
                    j <= height - win_run + 1,
                    forall|y: int| 0 <= y < j ==> !line_wins(f, side, i as int, y, 0, 1, run),
                decreases height - win_run + 1 - j,
            {
                let start = Coords { x: i, y: j };
                let direction = Direction { x: 0, y: 1 };
                if check_win_from(field, turn, start, direction, win_run) {
                    return true;
                }
                j = j + 1;
            }
            i = i + 1;
        }
    }
    proof {
        assert forall|x: int, y: int| !line_wins(f, side, x, y, 0, 1, run) by {
            if 0 <= y && y + (run - 1) < f.size.height {
                assert(!line_wins(f, side, x, y, 0, 1, run));
            }
        }
        assert(!dir_wins(f, side, 0, 1, run));
    }

    if win_run <= width && win_run <= height {
        let mut i: usize = 0;
        while i < width - win_run + 1
            invariant
                i <= width - win_run + 1,
                forall|x: int, y: int| 0 <= x < i ==> !line_wins(f, side, x, y, 1, 1, run),
            decreases width - win_run + 1 - i,
        {
            let mut j: usize = 0;
            while j < height - win_run + 1
                invariant
                    j <= height - win_run + 1,
                    forall|y: int| 0 <= y < j ==> !line_wins(f, side, i as int, y, 1, 1, run),
                decreases height - win_run + 1 - j,
            {
                let start = Coords { x: i, y: j };
                let direction = Direction { x: 1, y: 1 };
                if check_win_from(field, turn, start, direction, win_run) {
                    return true;
                }
                j = j + 1;
            }
            i = i + 1;
        }
    }
    proof {
        assert forall|x: int, y: int| !line_wins(f, side, x, y, 1, 1, run) by {
            if 0 <= x && x + (run - 1) < f.size.width {
                assert(!line_wins(f, side, x, y, 1, 1, run));
            }
        }
        assert(!dir_wins(f, side, 1, 1, run));
    }

    false
}

} // verus!
