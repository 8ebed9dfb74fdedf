use vstd::prelude::*;

verus! {

/// Saturating sum: the componentwise arithmetic of extents pins at the
/// machine limit instead of failing, so layout code can never panic.
pub open spec fn sat_add(a: usize, b: usize) -> usize {
    if a + b <= usize::MAX {
        (a + b) as usize
    } else {
        usize::MAX
    }
}

/// Saturating difference: clamps at zero instead of wrapping.
pub open spec fn sat_sub(a: usize, b: usize) -> usize {
    if a >= b {
        (a - b) as usize
    } else {
        0
    }
}

/// Executable saturating addition on cell counts.
pub fn usize_sat_add(a: usize, b: usize) -> (r: usize)
    ensures
        r == sat_add(a, b),
{
    if a <= usize::MAX - b {
        a + b
    } else {
        usize::MAX
    }
}

/// Executable saturating subtraction on cell counts.
pub fn usize_sat_sub(a: usize, b: usize) -> (r: usize)
    ensures
        r == sat_sub(a, b),
{
    if a >= b {
        a - b
    } else {
        0
    }
}

/// A two-dimensional extent or position on the character grid, in cells.
/// `x` grows to the right and `y` grows downward.
#[derive(Clone, Copy, PartialEq, Eq, Structural, Debug)]
pub struct Vec2 {
    pub x: usize,
    pub y: usize,
}

impl Vec2 {
    pub fn new(x: usize, y: usize) -> (r: Vec2)
        ensures
            r == (Vec2 { x, y }),
    {
        Vec2 { x, y }
    }

    pub fn zero() -> (r: Vec2)
        ensures
            r == (Vec2 { x: 0usize, y: 0usize }),
    {
        Vec2 { x: 0, y: 0 }
    }

    /// Componentwise saturating sum.
    pub fn saturating_add(self, other: Vec2) -> (r: Vec2)
        ensures
            r.x == sat_add(self.x, other.x),
            r.y == sat_add(self.y, other.y),
    {
        Vec2 { x: usize_sat_add(self.x, other.x), y: usize_sat_add(self.y, other.y) }
    }

    /// Componentwise saturating difference.
    pub fn saturating_sub(self, other: Vec2) -> (r: Vec2)
        ensures
            r.x == sat_sub(self.x, other.x),
            r.y == sat_sub(self.y, other.y),
    {
        Vec2 { x: usize_sat_sub(self.x, other.x), y: usize_sat_sub(self.y, other.y) }
    }

    /// Componentwise difference, `None` if either component would go negative.
    pub fn checked_sub(self, other: Vec2) -> (r: Option<Vec2>)
        ensures
            self.x >= other.x && self.y >= other.y ==> r == Some(
                Vec2 { x: (self.x - other.x) as usize, y: (self.y - other.y) as usize },
            ),
            !(self.x >= other.x && self.y >= other.y) ==> r is None,
    {
        if self.x >= other.x && self.y >= other.y {
            Some(Vec2 { x: self.x - other.x, y: self.y - other.y })
        } else {
            None
        }
    }

    /// True when `other` fits inside `self`, componentwise.
    pub fn fits(self, other: Vec2) -> (r: bool)
        ensures
            r == (self.x >= other.x && self.y >= other.y),
    {
        self.x >= other.x && self.y >= other.y
    }

    /// True when `self` is strictly greater than `other` in both components.
    pub fn strictly_gt(self, other: Vec2) -> (r: bool)
        ensures
            r == (self.x > other.x && self.y > other.y),
    {
        self.x > other.x && self.y > other.y
    }

    /// Horizontal stacking: widths add (saturating), heights take the maximum.
    pub fn stack_horizontal(self, other: Vec2) -> (r: Vec2)
        ensures
            r.x == sat_add(self.x, other.x),
            r.y == if self.y >= other.y {
                self.y
            } else {
                other.y
            },
    {
        Vec2 {
            x: usize_sat_add(self.x, other.x),
            y: if self.y >= other.y {
                self.y
            } else {
                other.y
            },
        }
    }

    /// Vertical stacking: heights add (saturating), widths take the maximum.
    pub fn stack_vertical(self, other: Vec2) -> (r: Vec2)
        ensures
            r.y == sat_add(self.y, other.y),
            r.x == if self.x >= other.x {
                self.x
            } else {
                other.x
            },
    {
        Vec2 {
            x: if self.x >= other.x {
                self.x
            } else {
                other.x
            },
            y: usize_sat_add(self.y, other.y),
        }
    }

    /// Keeps the horizontal component, zeroing the vertical one.
    pub fn keep_x(self) -> (r: Vec2)
        ensures
            r == (Vec2 { x: self.x, y: 0usize }),
    {
        Vec2 { x: self.x, y: 0 }
    }

    /// Keeps the vertical component, zeroing the horizontal one.
    pub fn keep_y(self) -> (r: Vec2)
        ensures
            r == (Vec2 { x: 0usize, y: self.y }),
    {
        Vec2 { x: 0, y: self.y }
    }
}

} // verus!

