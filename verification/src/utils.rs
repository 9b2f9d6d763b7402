use vstd::prelude::*;

verus! {

/// A scan direction on the field: the coordinate delta of one step.
#[derive(Clone, Copy)]
pub struct Direction {
    pub x: i32,
    pub y: i32,
}

impl Direction {
    /// The opposite direction.
    pub fn invert(&self) -> (r: Direction)
        requires
            self.x > i32::MIN,
            self.y > i32::MIN,
        ensures
            r.x == -self.x,
            r.y == -self.y,
    {
        Direction { x: -self.x, y: -self.y }
    }
}

} // verus!
