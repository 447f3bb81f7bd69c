//! The planes in which a model is drawn.

use crate::axis::Axis;
use vstd::prelude::*;

verus! {

/// A coordinate plane onto which points are projected for plotting.
#[derive(Clone, Copy, Debug, PartialEq, Eq, Structural, PartialOrd, Ord)]
pub enum PlotView {
    XY,
    XZ,
    YZ,
}

impl PlotView {
    /// The axis drawn from left to right.
    pub open spec fn horizontal(self) -> Axis {
        match self {
            PlotView::XY => Axis::X,
            PlotView::XZ => Axis::X,
            PlotView::YZ => Axis::Y,
        }
    }

    /// The axis drawn from bottom to top.
    pub open spec fn vertical(self) -> Axis {
        match self {
            PlotView::XY => Axis::Y,
            PlotView::XZ => Axis::Z,
            PlotView::YZ => Axis::Z,
        }
    }

    /// Whether `flat` is `point` as seen in this view: its horizontal
    /// coordinate first, its vertical coordinate second.
    pub open spec fn shows<T>(self, flat: [T; 2], point: [T; 3]) -> bool {
        &&& flat[0] == point[self.horizontal().index()]
        &&& flat[1] == point[self.vertical().index()]
    }

    /// The horizontal and the vertical axis of the view.
    pub fn axes(&self) -> (pair: (Axis, Axis))
        ensures
            pair.0 == self.horizontal(),
            pair.1 == self.vertical(),
            pair.0.index() < pair.1.index(),
    {
        match self {
            PlotView::XY => (Axis::X, Axis::Y),
            PlotView::XZ => (Axis::X, Axis::Z),
            PlotView::YZ => (Axis::Y, Axis::Z),
        }
    }

    /// Projects a point onto the plane of the view.
    pub fn project<T: Copy>(&self, point: &[T; 3]) -> (flat: [T; 2])
        ensures
            self.shows(flat, *point),
    {
        let (across, up) = self.axes();
        [across.of(point), up.of(point)]
    }
}

} // verus!
