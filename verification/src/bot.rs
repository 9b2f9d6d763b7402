use vstd::prelude::*;

use crate::error::{BotError, CoreError};

verus! {

/// A move-selection strategy for the locally controlled side.
///
/// Implementations pick a coordinate for `side` on the given field. They
/// are only consulted while the field still has an empty cell. Nothing is
/// promised about the chosen coordinate itself: a coordinate that is out
/// of range or already occupied surfaces as a `CoreError` when the game
/// process tries to place it, not earlier.
pub trait Bot {
    /// Wraps the chosen coordinate into a turn for `side`.
    fn make_turn(&self, field: &Field, side: Side) -> (r: Result<Turn, BotError>)
        requires
            field.wf(),
            field.has_empty(),
        ensures
            r matches Ok(t) ==> t.side == side,
    {
        match self.calculate_best_turn(field, side) {
            Ok(coords) => Ok(Turn { coords, side }),
            Err(e) => Err(e),
        }
    }

    /// Picks the coordinate that `side` should play next.
    fn calculate_best_turn(&self, field: &Field, side: Side) -> (r: Result<Coords, BotError>)
        requires
            field.wf(),
            field.has_empty(),
    ;
}

/// One of the two competing marks.
#[derive(Debug, PartialEq, Eq, Clone, Copy, Structural)]
pub enum Side {
    X,
    O,
}

/// A cell of the field: empty, or marked by one side. A cell that became
/// occupied never empties again and never changes side.
#[derive(Debug, Clone, Copy)]
pub enum Cell {
    Value(Side),
    Empty,
}

impl Default for Cell {
    fn default() -> (r: Self)
        ensures
            r is Empty,
    {
        Cell::Empty
    }
}

/// Field dimensions.
#[derive(Debug, Clone, Copy)]
pub struct Size {
    pub width: usize,
    pub height: usize,
}

impl Size {
    /// Dimensions of a playable field: both sides positive, and the cell
    /// count representable on this machine.
    pub open spec fn valid(self) -> bool {
        &&& 0 < self.width
        &&& 0 < self.height
        &&& self.width * self.height <= usize::MAX
    }
}

/// A coordinate on the field: `x` indexes columns (`0 <= x < width`),
/// `y` indexes rows (`0 <= y < height`).
#[derive(Debug, PartialEq, Eq, Clone, Copy, Structural)]
pub struct Coords {
    pub x: usize,
    pub y: usize,
}

/// One move: which side marked which coordinate. Immutable once created.
#[derive(PartialEq, Eq, Clone, Copy, Structural)]
pub struct Turn {
    pub coords: Coords,
    pub side: Side,
}

/// The playing field: a flat vector of `width * height` cells, one for
/// every in-range coordinate.
pub struct Field {
    pub cells: Vec<Cell>,
    pub size: Size,
}

impl Field {
    /// The cells as a sequence, indexed by `idx`.
    pub open spec fn cells_view(self) -> Seq<Cell> {
        self.cells@
    }

    /// The field invariant: valid dimensions and exactly one cell for
    /// every in-range coordinate.
    pub open spec fn wf(self) -> bool {
        &&& self.size.valid()
        &&& self.cells_view().len() == self.size.width * self.size.height
    }

    /// Whether `(x, y)` lies on the field.
    pub open spec fn in_bounds(self, x: int, y: int) -> bool {
        &&& 0 <= x < self.size.width
        &&& 0 <= y < self.size.height
    }

    /// Position of coordinate `(x, y)` in the flat cell vector.
    pub open spec fn idx(self, x: int, y: int) -> int {
        x * self.size.height + y
    }

    /// The cell at in-range coordinate `(x, y)`.
    pub open spec fn cell(self, x: int, y: int) -> Cell {
        self.cells_view()[self.idx(x, y)]
    }

    /// What a lookup at `(x, y)` returns.
    pub open spec fn get_spec(self, x: int, y: int) -> Option<Cell> {
        if self.in_bounds(x, y) {
            Some(self.cell(x, y))
        } else {
            None
        }
    }

    /// Whether at least one cell is still empty.
    pub open spec fn has_empty(self) -> bool {
        exists|x: int, y: int| self.in_bounds(x, y) && self.cell(x, y) is Empty
    }

    /// How many cells are occupied.
    pub open spec fn occupied_count(self) -> int {
        occupied_upto(self.cells_view(), self.cells_view().len() as int)
    }

    /// What placing `t` returns: `OutOfBounds` off the field, `CellOccupied`
    /// on a marked cell, and success exactly on an empty in-range cell.
    pub open spec fn place_outcome(self, t: Turn) -> Result<(), CoreError> {
        if !self.in_bounds(t.coords.x as int, t.coords.y as int) {
            Err(CoreError::OutOfBounds { coords: t.coords, size: self.size })
        } else {
            match self.cell(t.coords.x as int, t.coords.y as int) {
                Cell::Value(current) => Err(
                    CoreError::CellOccupied { coords: t.coords, side: current },
                ),
                Cell::Empty => Ok(()),
            }
        }
    }

    /// How a successful placement of `t` changes the field: the one cell
    /// at `t.coords` now holds `t.side`, and no other cell is touched.
    pub open spec fn placed(self, post: Field, t: Turn) -> bool {
        &&& post.size == self.size
        &&& post.cells_view().len() == self.cells_view().len()
        &&& post.cell(t.coords.x as int, t.coords.y as int) == Cell::Value(t.side)
        &&& forall|x: int, y: int|
            self.in_bounds(x, y) && !(x == t.coords.x as int && y == t.coords.y as int)
                ==> post.cell(x, y) == self.cell(x, y)
    }

    /// A fresh field of the given size, with every cell empty.
    pub fn new(size: Size) -> (r: Self)
        requires
            size.valid(),
        ensures
            r.wf(),
            r.size == size,
            forall|x: int, y: int| r.in_bounds(x, y) ==> r.cell(x, y) is Empty,
            forall|i: int| 0 <= i < r.cells_view().len() ==> r.cells_view()[i] is Empty,
    {
        let total: usize = size.width * size.height;
        let mut cells: Vec<Cell> = Vec::new();
        while cells.len() < total
            invariant
                cells.len() <= total,
                forall|i: int| 0 <= i < cells@.len() ==> cells@[i] is Empty,
            decreases total - cells.len(),
        {
            cells.push(Cell::Empty);
        }
        let r = Field { cells, size };
        proof {
            assert forall|x: int, y: int| r.in_bounds(x, y) implies r.cell(x, y) is Empty by {
                lemma_idx_in_range(size.width as int, size.height as int, x, y);
            }
        }
        r
    }

    /// The cell at `coords`, or `None` off the field.
    pub fn get(&self, coords: Coords) -> (r: Option<Cell>)
        requires
            self.wf(),
        ensures
            r == self.get_spec(coords.x as int, coords.y as int),
    {
        self.geti(coords.x, coords.y)
    }

    /// The cell at `(x, y)`, or `None` off the field.
    pub fn geti(&self, x: usize, y: usize) -> (r: Option<Cell>)
        requires
            self.wf(),
        ensures
            r == self.get_spec(x as int, y as int),
    {
        if x < self.size.width && y < self.size.height {
            proof {
                lemma_idx_in_range(self.size.width as int, self.size.height as int, x as int, y as int);
            }
            Some(self.cells[x * self.size.height + y])
        } else {
            None
        }
    }

    /// Places `turn` if its cell is in range and empty; otherwise fails
    /// with the exact `CoreError` and leaves the field untouched. The
    /// placement is atomic: either the one cell flips from empty to
    /// occupied, or nothing changes.
    pub fn add_turn(&mut self, turn: &Turn) -> (r: Result<(), CoreError>)
        requires
            old(self).wf(),
        ensures
            final(self).wf(),
            final(self).size == old(self).size,
            r == old(self).place_outcome(*turn),
            r is Ok ==> old(self).placed(*final(self), *turn),
            r is Ok ==> final(self).cells_view() == old(self).cells_view().update(
                old(self).idx(turn.coords.x as int, turn.coords.y as int),
                Cell::Value(turn.side),
            ),
            r is Err ==> *final(self) == *old(self),
    {
        match self.get(turn.coords) {
            Some(Cell::Empty) => {
                proof {
                    lemma_idx_in_range(
                        self.size.width as int,
                        self.size.height as int,
                        turn.coords.x as int,
                        turn.coords.y as int,
                    );
                }
                let i: usize = turn.coords.x * self.size.height + turn.coords.y;
                self.cells[i] = Cell::Value(turn.side);
                proof {
                    let tx = turn.coords.x as int;
                    let ty = turn.coords.y as int;
                    let w = self.size.width as int;
                    let h = self.size.height as int;
                    assert forall|x: int, y: int|
                        old(self).in_bounds(x, y) && !(x == tx && y == ty)
                            implies self.cell(x, y) == old(self).cell(x, y) by {
                        lemma_idx_in_range(w, h, x, y);
                        lemma_idx_injective(h, x, y, tx, ty);
                    }
                }
                Ok(())
            },
            Some(Cell::Value(current)) => Err(CoreError::of_filled_cell(turn.coords, current)),
            None => Err(CoreError::of_wrong_coords(turn.coords, self.size)),
        }
    }
}

/// A coordinate inside a `w` by `h` field indexes into the flat vector.
proof fn lemma_idx_in_range(w: int, h: int, x: int, y: int)
    requires
        0 <= x < w,
        0 <= y < h,
    ensures
        0 <= x * h + y < w * h,
{
    assert(0 <= x * h + y < w * h) by (nonlinear_arith)
        requires
            0 <= x < w,
            0 <= y < h,
    ;
}

/// Distinct coordinates index distinct positions of the flat vector.
proof fn lemma_idx_injective(h: int, x1: int, y1: int, x2: int, y2: int)
    requires
        0 <= y1 < h,
        0 <= y2 < h,
        0 <= x1,
        0 <= x2,
        !(x1 == x2 && y1 == y2),
    ensures
        x1 * h + y1 != x2 * h + y2,
{
    assert(x1 * h + y1 != x2 * h + y2) by (nonlinear_arith)
        requires
            0 <= y1 < h,
            0 <= y2 < h,
            0 <= x1,
            0 <= x2,
            !(x1 == x2 && y1 == y2),
    ;
}

/// How many of the first `n` cells of `s` are occupied.
pub open spec fn occupied_upto(s: Seq<Cell>, n: int) -> int
    decreases n,
{
    if n <= 0 {
        0
    } else {
        occupied_upto(s, n - 1) + if s[n - 1] is Empty {
            0int
        } else {
            1int
        }
    }
}

/// Marking one empty cell raises the occupied count of a prefix that
/// covers it by exactly one, and leaves other prefixes as they were.
proof fn lemma_occupied_upto_update(s: Seq<Cell>, i: int, v: Cell, n: int)
    requires
        0 <= i < s.len(),
        s[i] is Empty,
        v !is Empty,
        0 <= n <= s.len(),
    ensures
        occupied_upto(s.update(i, v), n) == occupied_upto(s, n) + if i < n {
            1int
        } else {
            0int
        },
    decreases n,
{
    if n > 0 {
        lemma_occupied_upto_update(s, i, v, n - 1);
    }
}

/// A prefix with fewer occupied cells than cells holds an empty cell.
proof fn lemma_occupied_upto_missing(s: Seq<Cell>, n: int)
    requires
        0 <= n <= s.len(),
        occupied_upto(s, n) < n,
    ensures
        exists|i: int| 0 <= i < n && s[i] is Empty,
    decreases n,
{
    if n > 0 {
        if s[n - 1] is Empty {
            assert(0 <= n - 1 < n && s[n - 1] is Empty);
        } else {
            lemma_occupied_upto_missing(s, n - 1);
        }
    }
}

/// No cell of an all-empty prefix counts as occupied.
proof fn lemma_occupied_upto_empty(s: Seq<Cell>, n: int)
    requires
        0 <= n,
        forall|i: int| 0 <= i < n ==> s[i] is Empty,
    ensures
        occupied_upto(s, n) == 0,
    decreases n,
{
    if n > 0 {
        lemma_occupied_upto_empty(s, n - 1);
    }
}

/// A field whose cells are all empty has no occupied cell.
pub proof fn lemma_fresh_count_zero(f: Field)
    requires
        forall|i: int| 0 <= i < f.cells_view().len() ==> f.cells_view()[i] is Empty,
    ensures
        f.occupied_count() == 0,
{
    lemma_occupied_upto_empty(f.cells_view(), f.cells_view().len() as int);
}

/// A successful placement raises the occupied count by exactly one.
pub proof fn lemma_place_raises_count(f0: Field, f1: Field, t: Turn)
    requires
        f0.wf(),
        f0.in_bounds(t.coords.x as int, t.coords.y as int),
        f0.cell(t.coords.x as int, t.coords.y as int) is Empty,
        f1.cells_view() == f0.cells_view().update(
            f0.idx(t.coords.x as int, t.coords.y as int),
            Cell::Value(t.side),
        ),
    ensures
        f1.occupied_count() == f0.occupied_count() + 1,
{
    let i = f0.idx(t.coords.x as int, t.coords.y as int);
    lemma_idx_in_range(
        f0.size.width as int,
        f0.size.height as int,
        t.coords.x as int,
        t.coords.y as int,
    );
    lemma_occupied_upto_update(
        f0.cells_view(),
        i,
        Cell::Value(t.side),
        f0.cells_view().len() as int,
    );
}

/// A field with fewer occupied cells than cells still has an empty cell.
pub proof fn lemma_not_full_has_empty(f: Field)
    requires
        f.wf(),
        f.occupied_count() < f.size.width * f.size.height,
    ensures
        f.has_empty(),
{
    let s = f.cells_view();
    let len = s.len() as int;
    let w = f.size.width as int;
    let h = f.size.height as int;
    lemma_occupied_upto_missing(s, len);
    let i = choose|i: int| 0 <= i < len && s[i] is Empty;
    vstd::arithmetic::div_mod::lemma_fundamental_div_mod(i, h);
    vstd::arithmetic::div_mod::lemma_mod_bound(i, h);
    let x = i / h;
    let y = i % h;
    assert(0 <= x < w) by (nonlinear_arith)
        requires
            i == h * x + y,
            0 <= y < h,
            0 <= i < w * h,
            0 < h,
    ;
    assert(x * h == h * x) by (nonlinear_arith);
    assert(f.cell(x, y) == s[i]);
    assert(f.in_bounds(x, y) && f.cell(x, y) is Empty);
}

/// Law: a placement on an empty in-range cell succeeds; on the
/// resulting field that cell reads back as held by the placing side,
/// and a second placement at the same coordinate fails with
/// `CellOccupied` naming the side that holds the cell, whichever side
/// retries.
pub proof fn lemma_place_on_empty(f0: Field, f1: Field, t: Turn, retry: Turn)
    requires
        f0.wf(),
        f0.in_bounds(t.coords.x as int, t.coords.y as int),
        f0.cell(t.coords.x as int, t.coords.y as int) is Empty,
        f0.placed(f1, t),
        retry.coords == t.coords,
    ensures
        f0.place_outcome(t) is Ok,
        f1.get_spec(t.coords.x as int, t.coords.y as int) == Some(Cell::Value(t.side)),
        f1.place_outcome(retry) == Err::<(), CoreError>(
            CoreError::CellOccupied { coords: retry.coords, side: t.side },
        ),
{
}

/// Law: a placement or lookup outside the field is rejected with
/// `OutOfBounds` naming the coordinate and the field size, and reads
/// back no cell.
pub proof fn lemma_out_of_bounds_rejected(f: Field, t: Turn)
    requires
        f.wf(),
        !f.in_bounds(t.coords.x as int, t.coords.y as int),
    ensures
        f.place_outcome(t) == Err::<(), CoreError>(
            CoreError::OutOfBounds { coords: t.coords, size: f.size },
        ),
        f.get_spec(t.coords.x as int, t.coords.y as int) is None,
{
}

} // verus!
