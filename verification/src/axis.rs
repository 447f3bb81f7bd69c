//! The three coordinate axes.

use vstd::prelude::*;

verus! {

/// One of the three coordinate axes.
#[derive(Clone, Copy, Debug, PartialEq, Eq, Structural)]
pub enum Axis {
    X,
    Y,
    Z,
}

impl Axis {
    /// Position of the axis in a coordinate triple.
    pub open spec fn index(self) -> int {
        match self {
            Axis::X => 0,
            Axis::Y => 1,
            Axis::Z => 2,
        }
    }

    /// The axis at position `k` of a coordinate triple, for `k` from 0 to 2.
    pub open spec fn at(k: int) -> Axis {
        if k == 0 {
            Axis::X
        } else if k == 1 {
            Axis::Y
        } else {
            Axis::Z
        }
    }

    /// Position of the axis in a coordinate triple.
    pub fn to_index(self) -> (k: usize)
        ensures
            k == self.index(),
            k < 3,
    {
        match self {
            Axis::X => 0,
            Axis::Y => 1,
            Axis::Z => 2,
        }
    }

    /// The coordinate of `point` along this axis.
    pub fn of<T: Copy>(self, point: &[T; 3]) -> (c: T)
        ensures
            c == point[self.index()],
    {
        point[self.to_index()]
    }
}

} // verus!
