//! Grid coordinates and wrap-around stepping along one axis.
use vstd::prelude::*;

verus! {

/// The even column that a raw column maps to: even values stay, odd values
/// step down by one, except 1, which steps up to 2.
pub open spec fn even_column(x: int) -> int {
    if x % 2 == 0 {
        x
    } else if x > 1 {
        x - 1
    } else {
        x + 1
    }
}

/// `value` moved up by `step`, back to 0 when it would reach `bound`.
pub open spec fn advance(value: int, bound: int, step: int) -> int {
    if value + step + 1 > bound {
        0
    } else {
        value + step
    }
}

/// `value` moved down by `step`, over to `bound - step` when it would go negative.
pub open spec fn retreat(value: int, bound: int, step: int) -> int {
    if value - step < 0 {
        bound - step
    } else {
        value - step
    }
}

/// A cell of the board.
#[derive(Clone, Copy, Debug, PartialEq, Eq, Structural)]
pub struct Point {
    pub x: u16,
    pub y: u16,
}

impl Point {
    /// The point whose column is `x` rounded to an even column.
    pub fn new(x: u16, y: u16) -> (r: Point)
        ensures
            r.x == even_column(x as int),
            r.y == y,
    {
        Point { x: Point::round_to_multiple_of_two(x), y }
    }

    /// One row up, wrapping to the last row below `loop_around`.
    pub fn up(&self, loop_around: u16) -> (r: Point)
        requires
            self.y >= 1 || loop_around >= 1,
        ensures
            r.x == self.x,
            r.y == retreat(self.y as int, loop_around as int, 1),
    {
        Point { x: self.x, y: dec_loop_around(self.y, loop_around, false) }
    }

    /// One row down, wrapping to row 0 at `loop_around`.
    pub fn down(&self, loop_around: u16) -> (r: Point)
        ensures
            r.x == self.x,
            r.y == advance(self.y as int, loop_around as int, 1),
    {
        Point { x: self.x, y: inc_loop_around(self.y, loop_around, false) }
    }

    /// One stride of two columns left, wrapping to `loop_around - 2`.
    pub fn left(&self, loop_around: u16) -> (r: Point)
        requires
            self.x >= 2 || loop_around >= 2,
        ensures
            r.x == retreat(self.x as int, loop_around as int, 2),
            r.y == self.y,
    {
        Point { x: dec_loop_around(self.x, loop_around, true), y: self.y }
    }

    /// One stride of two columns right, wrapping to column 0 at `loop_around`.
    pub fn right(&self, loop_around: u16) -> (r: Point)
        ensures
            r.x == advance(self.x as int, loop_around as int, 2),
            r.y == self.y,
    {
        Point { x: inc_loop_around(self.x, loop_around, true), y: self.y }
    }

    /// `x` rounded to an even column.
    pub fn round_to_multiple_of_two(x: u16) -> (r: u16)
        ensures
            r == even_column(x as int),
    {
        if x % 2 == 0 {
            return x;
        }
        if x > 1 {
            return x - 1;
        }
        x + 1
    }
}

/// `val` moved up by one, or by two with `double_step`, wrapping to 0 at `max`.
pub fn inc_loop_around(val: u16, max: u16, double_step: bool) -> (r: u16)
    ensures
        r == advance(val as int, max as int, if double_step { 2 } else { 1 }),
{
    let step: u16 = if double_step { 2 } else { 1 };
    if val as u32 + step as u32 + 1 > max as u32 {
        0
    } else {
        val + step
    }
}

/// `val` moved down by one, or by two with `double_step`, wrapping to
/// `loop_around` less the step when it would go below 0.
pub fn dec_loop_around(val: u16, loop_around: u16, double_step: bool) -> (r: u16)
    requires
        val >= (if double_step { 2u16 } else { 1u16 }) || loop_around >= (if double_step { 2u16 } else { 1u16 }),
    ensures
        r == retreat(val as int, loop_around as int, if double_step { 2 } else { 1 }),
{
    let step: u16 = if double_step { 2 } else { 1 };
    if val < step {
        loop_around - step
    } else {
        val - step
    }
}

} // verus!
