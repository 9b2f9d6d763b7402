use vstd::prelude::*;

use rand::Rng;

use crate::bot::{Bot, Cell, Coords, Field, Side};
use crate::error::BotError;

verus! {

/// A strategy that plays a uniformly random empty cell.
pub struct RandomBot {}

/// Relies on rand's `Rng::gen_range` on the thread-local generator:
/// for the nonempty range `0..n` it returns a value of that range.
/// Which value comes back depends on the generator's state, so nothing
/// more is stated; `n` must be positive because `gen_range` panics on
/// an empty range.
#[verifier::external_body]
fn random_index(n: usize) -> (r: usize)
    requires
        1 <= n,
    ensures
        r < n,
{
    rand::thread_rng().gen_range(0..n)
}

/// Whether `v` holds the coordinate `(i, j)`.
pub open spec fn contains_coord(v: Seq<Coords>, i: int, j: int) -> bool {
    exists|k: int| #![auto] 0 <= k < v.len() && v[k].x == i && v[k].y == j
}

/// Every coordinate in `v` names an empty in-range cell of `f`.
spec fn all_empty(f: Field, v: Seq<Coords>) -> bool {
    forall|k: int| #![auto]
        0 <= k < v.len() ==> f.get_spec(v[k].x as int, v[k].y as int) == Some(Cell::Empty)
}

/// Every empty cell before `(x, y)` in scan order is in `v`.
spec fn covered(f: Field, v: Seq<Coords>, x: int, y: int) -> bool {
    forall|i: int, j: int| #![trigger f.cell(i, j)]
        0 <= i && 0 <= j < f.size.height && (i < x || (i == x && j < y)) && f.cell(i, j) is Empty
            ==> contains_coord(v, i, j)
}

impl Bot for RandomBot {
    #[verifier::loop_isolation(false)]
    fn calculate_best_turn(&self, field: &Field, _side: Side) -> (r: Result<Coords, BotError>)
        ensures
            r is Ok,
            r matches Ok(c) ==> field.get_spec(c.x as int, c.y as int) == Some(Cell::Empty),
    {
        let mut empty_coords: Vec<Coords> = Vec::new();
        let mut x: usize = 0;
        while x < field.size.width
            invariant
                x <= field.size.width,
                covered(*field, empty_coords@, x as int, 0),
                all_empty(*field, empty_coords@),
            decreases field.size.width - x,
        {
            let mut y: usize = 0;
            while y < field.size.height
                invariant
                    y <= field.size.height,
                    covered(*field, empty_coords@, x as int, y as int),
                    all_empty(*field, empty_coords@),
                decreases field.size.height - y,
            {
                match field.geti(x, y) {
                    Some(Cell::Empty) => {
                        let ghost old_v = empty_coords@;
                        empty_coords.push(Coords { x, y });
                        proof {
                            assert forall|i: int, j: int| #![trigger field.cell(i, j)]
                                0 <= i && 0 <= j < field.size.height && (i < x || (i == x && j < y
                                    + 1)) && field.cell(i, j) is Empty implies contains_coord(
                                empty_coords@,
                                i,
                                j,
                            ) by {
                                if i == x && j == y {
                                    assert(empty_coords@[old_v.len() as int] == (Coords { x, y }));
                                    assert(contains_coord(empty_coords@, i, j));
                                } else {
                                    assert(contains_coord(old_v, i, j));
                                    let k = choose|k: int|
                                        #![auto]
                                        0 <= k < old_v.len() && old_v[k].x == i && old_v[k].y == j;
                                    assert(empty_coords@[k] == old_v[k]);
                                    assert(contains_coord(empty_coords@, i, j));
                                }
                            }
                        }
                    },
                    _ => {},
                }
                y = y + 1;
            }
            x = x + 1;
        }
        proof {
            assert(field.has_empty());
            let (xe, ye) = choose|xe: int, ye: int|
                field.in_bounds(xe, ye) && field.cell(xe, ye) is Empty;
            assert(contains_coord(empty_coords@, xe, ye));
            let k = choose|k: int|
                #![auto]
                0 <= k < empty_coords@.len() && empty_coords@[k].x == xe && empty_coords@[k].y
                    == ye;
            assert(empty_coords@.len() > 0);
        }
        let selected_index = random_index(empty_coords.len());
        Ok(empty_coords[selected_index])
    }
}

} // verus!
