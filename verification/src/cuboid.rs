//! The rectangular prism: the numbering of its corners, their signs in the
//! field sum, its edges and outlines, and the sum itself.

use crate::axis::Axis;
use crate::plot::PlotView;
use vstd::prelude::*;

verus! {

/// Whether corner `i` lies on the high side of the box along `axis`.
///
/// The corners are numbered in the order in which the field sum visits them:
/// 0 to 3 go round the face on the low side of x, 4 to 7 round the face on
/// its high side.
pub open spec fn corner_is_high(i: int, axis: Axis) -> bool {
    match axis {
        Axis::X => i == 4 || i == 5 || i == 6 || i == 7,
        Axis::Y => i == 2 || i == 3 || i == 5 || i == 6,
        Axis::Z => i == 1 || i == 2 || i == 6 || i == 7,
    }
}

/// On how many of the three axes corner `i` lies on the high side.
pub open spec fn high_sides(i: int) -> int {
    (if corner_is_high(i, Axis::X) { 1int } else { 0 })
        + (if corner_is_high(i, Axis::Y) { 1int } else { 0 })
        + (if corner_is_high(i, Axis::Z) { 1int } else { 0 })
}

/// The sign with which corner `i` enters the field sum: plus for a corner
/// on an even number of high sides, minus for one on an odd number.
pub open spec fn corner_sign(i: int) -> int {
    if high_sides(i) % 2 == 0 {
        1
    } else {
        -1
    }
}

/// The two corners joined by edge `k`, for `k` from 0 to 11.
pub open spec fn edge(k: int) -> (int, int) {
    if k == 0 {
        (0, 1)
    } else if k == 1 {
        (1, 2)
    } else if k == 2 {
        (2, 3)
    } else if k == 3 {
        (3, 0)
    } else if k == 4 {
        (4, 5)
    } else if k == 5 {
        (5, 6)
    } else if k == 6 {
        (6, 7)
    } else if k == 7 {
        (7, 4)
    } else if k == 8 {
        (3, 5)
    } else if k == 9 {
        (4, 0)
    } else if k == 10 {
        (6, 2)
    } else {
        (7, 1)
    }
}

/// The corner drawn at place `k`, from 0 to 3, of the outline of an
/// unrotated box in `view`.
pub open spec fn outline_corner(view: PlotView, k: int) -> int {
    match view {
        PlotView::XY => if k == 0 { 0 } else if k == 1 { 3 } else if k == 2 { 5 } else { 4 },
        PlotView::XZ => if k == 0 { 0 } else if k == 1 { 1 } else if k == 2 { 6 } else { 4 },
        PlotView::YZ => if k == 0 { 0 } else if k == 1 { 1 } else if k == 2 { 2 } else { 3 },
    }
}

/// Whether corners `i` and `j` lie on opposite sides along `axis` and on the
/// same side along the two other axes.
pub open spec fn neighbours_along(i: int, j: int, axis: Axis) -> bool {
    forall|other: Axis|
        (corner_is_high(i, other) != corner_is_high(j, other)) <==> #[trigger] other.index()
            == axis.index()
}

/// The axis along which edge `k` runs, for `k` from 0 to 11.
pub open spec fn edge_axis(k: int) -> Axis {
    if 8 <= k {
        Axis::X
    } else if k == 1 || k == 3 || k == 4 || k == 6 {
        Axis::Y
    } else {
        Axis::Z
    }
}

/// The eight corners are the eight octants: every choice of a side along
/// each axis is the place of exactly one corner, which is returned.
pub proof fn corners_fill_the_octants(x: bool, y: bool, z: bool) -> (i: int)
    ensures
        0 <= i < 8,
        corner_is_high(i, Axis::X) == x,
        corner_is_high(i, Axis::Y) == y,
        corner_is_high(i, Axis::Z) == z,
        forall|j: int|
            0 <= j < 8 && corner_is_high(j, Axis::X) == x && corner_is_high(j, Axis::Y) == y
                && corner_is_high(j, Axis::Z) == z ==> j == i,
{
    if x {
        if y {
            if z { 6 } else { 5 }
        } else {
            if z { 7 } else { 4 }
        }
    } else {
        if y {
            if z { 2 } else { 3 }
        } else {
            if z { 1 } else { 0 }
        }
    }
}

/// Every edge joins two corners that differ along one axis only, the axis
/// along which it runs.
pub proof fn edges_run_along_axes(k: int)
    requires
        0 <= k < 12,
    ensures
        0 <= edge(k).0 < 8,
        0 <= edge(k).1 < 8,
        neighbours_along(edge(k).0, edge(k).1, edge_axis(k)),
{
    assert forall|other: Axis|
        (corner_is_high(edge(k).0, other) != corner_is_high(edge(k).1, other))
            <==> #[trigger] other.index() == edge_axis(k).index() by {
        match other {
            Axis::X => {},
            Axis::Y => {},
            Axis::Z => {},
        }
    }
}

/// The twelve edges are all the edges of the box: any two corners that
/// differ along one axis only are the ends of some edge, which is returned.
pub proof fn neighbours_share_an_edge(i: int, j: int, axis: Axis) -> (k: int)
    requires
        0 <= i < 8,
        0 <= j < 8,
        neighbours_along(i, j, axis),
    ensures
        0 <= k < 12,
        edge(k) == (i, j) || edge(k) == (j, i),
        edge_axis(k) == axis,
{
    assert(Axis::X.index() == 0 && Axis::Y.index() == 1 && Axis::Z.index() == 2);
    let lo = if i < j { i } else { j };
    let hi = if i < j { j } else { i };
    if lo == 0 && hi == 1 {
        0
    } else if lo == 1 && hi == 2 {
        1
    } else if lo == 2 && hi == 3 {
        2
    } else if lo == 0 && hi == 3 {
        3
    } else if lo == 4 && hi == 5 {
        4
    } else if lo == 5 && hi == 6 {
        5
    } else if lo == 6 && hi == 7 {
        6
    } else if lo == 4 && hi == 7 {
        7
    } else if lo == 3 && hi == 5 {
        8
    } else if lo == 0 && hi == 4 {
        9
    } else if lo == 2 && hi == 6 {
        10
    } else {
        11
    }
}

/// The signs alternate along every edge: two corners that differ along one
/// axis only enter the field sum with opposite signs.
pub proof fn neighbours_have_opposite_signs(i: int, j: int, axis: Axis)
    requires
        0 <= i < 8,
        0 <= j < 8,
        neighbours_along(i, j, axis),
    ensures
        corner_sign(i) == -corner_sign(j),
{
    assert(Axis::X.index() == 0 && Axis::Y.index() == 1 && Axis::Z.index() == 2);
}

/// The outline of an unrotated box is its rectangle in the view: the four
/// points lie at the low and the high bound along the horizontal and the
/// vertical axis of the view, and go round from low and low by way of low
/// and high, then high and high, to high and low.
pub proof fn outline_of_a_box_is_its_rectangle<T: Copy>(
    cuboid: Cuboid<T>,
    low: [T; 3],
    high: [T; 3],
    view: PlotView,
    outline: Seq<[T; 2]>,
)
    requires
        cuboid.spans(low, high),
        cuboid.has_outline(view, outline),
    ensures
        outline[0][0] == low[view.horizontal().index()],
        outline[0][1] == low[view.vertical().index()],
        outline[1][0] == low[view.horizontal().index()],
        outline[1][1] == high[view.vertical().index()],
        outline[2][0] == high[view.horizontal().index()],
        outline[2][1] == high[view.vertical().index()],
        outline[3][0] == high[view.horizontal().index()],
        outline[3][1] == low[view.vertical().index()],
{
    let across = view.horizontal().index();
    let up = view.vertical().index();
    assert(Axis::at(across) == view.horizontal());
    assert(Axis::at(up) == view.vertical());
    assert forall|k: int| 0 <= k < 4 implies {
        &&& (#[trigger] outline[k])[0] == if k >= 2 {
            high[across]
        } else {
            low[across]
        }
        &&& outline[k][1] == if k == 1 || k == 2 {
            high[up]
        } else {
            low[up]
        }
    } by {
        let corner = outline_corner(view, k);
        assert(view.shows(outline[k], cuboid.vertices[corner]));
        assert(cuboid.vertices[corner][across] == if corner_is_high(corner, Axis::at(across)) {
            high[across]
        } else {
            low[across]
        });
        assert(cuboid.vertices[corner][up] == if corner_is_high(corner, Axis::at(up)) {
            high[up]
        } else {
            low[up]
        });
    }
}

/// The signs of the eight corners in the field sum, in corner order.
pub fn index_order() -> (signs: [i8; 8])
    ensures
        forall|i: int| 0 <= i < 8 ==> #[trigger] signs[i] == corner_sign(i),
{
    [1, -1, 1, -1, -1, 1, -1, 1]
}

/// The twelve edges as pairs of corner numbers, in drawing order. Each joins
/// two corners that differ along one axis only.
pub fn edge_order() -> (edges: [[usize; 2]; 12])
    ensures
        forall|k: int|
            0 <= k < 12 ==> (#[trigger] edges[k])[0] == edge(k).0 && edges[k][1] == edge(k).1,
        forall|k: int| 0 <= k < 12 ==> (#[trigger] edges[k])[0] < 8 && edges[k][1] < 8,
        forall|k: int|
            0 <= k < 12 ==> neighbours_along(
                (#[trigger] edges[k])[0] as int,
                edges[k][1] as int,
                edge_axis(k),
            ),
{
    let edges = [
        [0, 1],
        [1, 2],
        [2, 3],
        [3, 0],
        [4, 5],
        [5, 6],
        [6, 7],
        [7, 4],
        [3, 5],
        [4, 0],
        [6, 2],
        [7, 1],
    ];
    proof {
        assert forall|k: int| 0 <= k < 12 implies neighbours_along(
            (#[trigger] edges[k])[0] as int,
            edges[k][1] as int,
            edge_axis(k),
        ) by {
            edges_run_along_axes(k);
        }
    }
    edges
}

/// The four corners of the outline of an unrotated box in `view`, in drawing
/// order: low and low, low and high, high and high, high and low on the
/// horizontal and the vertical axis of the view.
pub fn outline_order(view: PlotView) -> (corners: [usize; 4])
    ensures
        forall|k: int| 0 <= k < 4 ==> #[trigger] corners[k] == outline_corner(view, k),
        forall|k: int| 0 <= k < 4 ==> #[trigger] corners[k] < 8,
        forall|k: int|
            0 <= k < 4 ==> (corner_is_high(#[trigger] corners[k] as int, view.horizontal()) <==> k
                >= 2),
        forall|k: int|
            0 <= k < 4 ==> (corner_is_high(#[trigger] corners[k] as int, view.vertical()) <==> k
                == 1 || k == 2),
{
    match view {
        PlotView::XY => [0, 3, 5, 4],
        PlotView::XZ => [0, 1, 6, 4],
        PlotView::YZ => [0, 1, 2, 3],
    }
}

/// Whether `terms` are the contributions of the eight corners and `sums` the
/// sums that they lead through: every corner contributes what `term` makes
/// of its sign and its position, and the contributions are added in corner
/// order by `plus`, starting from `zero` and ending at `sum`.
pub open spec fn adds_up<T, U, F: Fn(i8, &[T; 3]) -> U, P: Fn(U, U) -> U>(
    vertices: [[T; 3]; 8],
    zero: U,
    term: F,
    plus: P,
    sum: U,
    terms: Seq<U>,
    sums: Seq<U>,
) -> bool {
    &&& terms.len() == 8
    &&& sums.len() == 9
    &&& sums[0] == zero
    &&& sums[8] == sum
    &&& forall|i: int|
        0 <= i < 8 ==> {
            &&& call_ensures(term, (corner_sign(i) as i8, &vertices[i]), #[trigger] terms[i])
            &&& call_ensures(plus, (sums[i], terms[i]), sums[i + 1])
        }
}

/// Whether `sum` is the signed sum over the eight corners of `vertices`,
/// computed by `term` and `plus` from `zero`.
pub open spec fn is_corner_sum<T, U, F: Fn(i8, &[T; 3]) -> U, P: Fn(U, U) -> U>(
    vertices: [[T; 3]; 8],
    zero: U,
    term: F,
    plus: P,
    sum: U,
) -> bool {
    exists|terms: Seq<U>, sums: Seq<U>| adds_up(vertices, zero, term, plus, sum, terms, sums)
}

/// A rectangular prism given by its eight corners, numbered as the field sum
/// visits them, and by its density contrast.
#[derive(Debug, PartialEq)]
pub struct Cuboid<T> {
    pub vertices: [[T; 3]; 8],
    pub density: T,
}

impl<T: Copy> Cuboid<T> {
    /// Whether the corners are those of the box between `low` and `high`,
    /// each at its place in the numbering: along every axis a corner has the
    /// coordinate of `high` where it lies on the high side, else that of `low`.
    pub open spec fn spans(self, low: [T; 3], high: [T; 3]) -> bool {
        forall|i: int, k: int|
            0 <= i < 8 && 0 <= k < 3 ==> #[trigger] self.vertices[i][k] == if corner_is_high(
                i,
                Axis::at(k),
            ) {
                high[k]
            } else {
                low[k]
            }
    }

    /// A cuboid with the given corners, which the caller has numbered.
    pub fn new_from_vertices(vertices: [[T; 3]; 8], density: T) -> (cuboid: Self)
        ensures
            cuboid.vertices == vertices,
            cuboid.density == density,
    {
        Cuboid { vertices, density }
    }

    /// The axis-aligned cuboid whose coordinates along each axis are those of
    /// `low` on the low side and those of `high` on the high side.
    pub fn new_from_bounds(low: [T; 3], high: [T; 3], density: T) -> (cuboid: Self)
        ensures
            cuboid.spans(low, high),
            cuboid.density == density,
    {
        let vertices = [
            [low[0], low[1], low[2]],
            [low[0], low[1], high[2]],
            [low[0], high[1], high[2]],
            [low[0], high[1], low[2]],
            [high[0], low[1], low[2]],
            [high[0], high[1], low[2]],
            [high[0], high[1], high[2]],
            [high[0], low[1], high[2]],
        ];
        Cuboid { vertices, density }
    }

    /// The signed sum over the eight corners that the closed-form field of a
    /// prism is made of. `term` is given the sign and the position of a
    /// corner and returns what the corner contributes; `plus` adds a
    /// contribution to the sum so far, which starts at `zero`.
    pub fn corner_sum<U, F: Fn(i8, &[T; 3]) -> U, P: Fn(U, U) -> U>(
        &self,
        zero: U,
        term: F,
        plus: P,
    ) -> (sum: U)
        requires
            forall|i: int|
                0 <= i < 8 ==> call_requires(
                    term,
                    (corner_sign(i) as i8, &#[trigger] self.vertices[i]),
                ),
            forall|before: U, value: U| call_requires(plus, (before, value)),
        ensures
            is_corner_sum(self.vertices, zero, term, plus, sum),
    {
        let signs = index_order();
        let ghost mut terms: Seq<U> = Seq::empty();
        let ghost mut sums: Seq<U> = seq![zero];
        let mut sum = zero;
        let mut i: usize = 0;
        while i < 8
            invariant
                i <= 8,
                forall|j: int| 0 <= j < 8 ==> #[trigger] signs[j] == corner_sign(j),
                forall|j: int|
                    0 <= j < 8 ==> call_requires(
                        term,
                        (corner_sign(j) as i8, &#[trigger] self.vertices[j]),
                    ),
                forall|before: U, value: U| call_requires(plus, (before, value)),
                terms.len() == i,
                sums.len() == i + 1,
                sums[0] == zero,
                sums[i as int] == sum,
                forall|j: int|
                    0 <= j < i ==> {
                        &&& call_ensures(
                            term,
                            (corner_sign(j) as i8, &self.vertices[j]),
                            #[trigger] terms[j],
                        )
                        &&& call_ensures(plus, (sums[j], terms[j]), sums[j + 1])
                    },
            decreases 8 - i,
        {
            assert(signs[i as int] == corner_sign(i as int));
            let value = term(signs[i], &self.vertices[i]);
            sum = plus(sum, value);
            proof {
                terms = terms.push(value);
                sums = sums.push(sum);
            }
            i += 1;
        }
        assert(adds_up(self.vertices, zero, term, plus, sum, terms, sums));
        sum
    }

    /// Whether `flat` holds the eight corners as seen in `view`, in corner
    /// order.
    pub open spec fn has_projection(self, view: PlotView, flat: Seq<[T; 2]>) -> bool {
        &&& flat.len() == 8
        &&& forall|i: int| 0 <= i < 8 ==> view.shows(#[trigger] flat[i], self.vertices[i])
    }

    /// The eight corners as seen in `view`, in corner order.
    pub fn projection(&self, view: PlotView) -> (flat: Vec<[T; 2]>)
        ensures
            self.has_projection(view, flat@),
    {
        let mut flat: Vec<[T; 2]> = Vec::new();
        let mut i: usize = 0;
        while i < 8
            invariant
                i <= 8,
                flat@.len() == i,
                forall|j: int| 0 <= j < i ==> view.shows(#[trigger] flat@[j], self.vertices[j]),
            decreases 8 - i,
        {
            flat.push(view.project(&self.vertices[i]));
            i += 1;
        }
        flat
    }

    /// Whether `outline` is the outline of the cuboid in `view`: its four
    /// outline corners, projected, in drawing order.
    pub open spec fn has_outline(self, view: PlotView, outline: Seq<[T; 2]>) -> bool {
        &&& outline.len() == 4
        &&& forall|k: int|
            0 <= k < 4 ==> view.shows(#[trigger] outline[k], self.vertices[outline_corner(view, k)])
    }

    /// Whether `lines` are the twelve edges of the cuboid in `view`: for each
    /// edge the projections of its two corners, in drawing order.
    pub open spec fn has_edge_lines(self, view: PlotView, lines: Seq<[[T; 2]; 2]>) -> bool {
        &&& lines.len() == 12
        &&& forall|k: int|
            0 <= k < 12 ==> {
                &&& view.shows((#[trigger] lines[k])[0], self.vertices[edge(k).0])
                &&& view.shows(lines[k][1], self.vertices[edge(k).1])
            }
    }

    /// The outline of the cuboid in `view` as a closed loop of four points.
    /// It is the silhouette of a cuboid that is not rotated.
    pub fn outline(&self, view: PlotView) -> (outline: Vec<[T; 2]>)
        ensures
            self.has_outline(view, outline@),
    {
        let order = outline_order(view);
        let mut outline: Vec<[T; 2]> = Vec::new();
        let mut k: usize = 0;
        while k < 4
            invariant
                k <= 4,
                outline@.len() == k,
                forall|j: int| 0 <= j < 4 ==> #[trigger] order[j] == outline_corner(view, j),
                forall|j: int| 0 <= j < 4 ==> #[trigger] order[j] < 8,
                forall|j: int|
                    0 <= j < k ==> view.shows(
                        #[trigger] outline@[j],
                        self.vertices[outline_corner(view, j)],
                    ),
            decreases 4 - k,
        {
            let flat = view.project(&self.vertices[order[k]]);
            outline.push(flat);
            k += 1;
        }
        outline
    }

    /// The outline of the cuboid in the x-y plane.
    pub fn vertices_xy(&self) -> (outline: Vec<[T; 2]>)
        ensures
            self.has_outline(PlotView::XY, outline@),
    {
        self.outline(PlotView::XY)
    }

    /// The outline of the cuboid in the x-z plane.
    pub fn vertices_xz(&self) -> (outline: Vec<[T; 2]>)
        ensures
            self.has_outline(PlotView::XZ, outline@),
    {
        self.outline(PlotView::XZ)
    }

    /// The outline of the cuboid in the y-z plane.
    pub fn vertices_yz(&self) -> (outline: Vec<[T; 2]>)
        ensures
            self.has_outline(PlotView::YZ, outline@),
    {
        self.outline(PlotView::YZ)
    }

    /// The twelve edges of the cuboid in `view`, each as the pair of its
    /// projected end points. Rotated corners give the rotated wireframe.
    pub fn edge_lines(&self, view: PlotView) -> (lines: Vec<[[T; 2]; 2]>)
        ensures
            self.has_edge_lines(view, lines@),
    {
        let order = edge_order();
        let mut lines: Vec<[[T; 2]; 2]> = Vec::new();
        let mut k: usize = 0;
        while k < 12
            invariant
                k <= 12,
                lines@.len() == k,
                forall|j: int|
                    0 <= j < 12 ==> (#[trigger] order[j])[0] == edge(j).0 && order[j][1] == edge(
                        j,
                    ).1,
                forall|j: int| 0 <= j < 12 ==> (#[trigger] order[j])[0] < 8 && order[j][1] < 8,
                forall|j: int|
                    0 <= j < k ==> {
                        &&& view.shows((#[trigger] lines@[j])[0], self.vertices[edge(j).0])
                        &&& view.shows(lines@[j][1], self.vertices[edge(j).1])
                    },
            decreases 12 - k,
        {
            let ends = order[k];
            let from = view.project(&self.vertices[ends[0]]);
            let to = view.project(&self.vertices[ends[1]]);
            lines.push([from, to]);
            k += 1;
        }
        lines
    }

    /// The twelve edges of the cuboid in the x-y plane.
    pub fn edge_lines_xy(&self) -> (lines: Vec<[[T; 2]; 2]>)
        ensures
            self.has_edge_lines(PlotView::XY, lines@),
    {
        self.edge_lines(PlotView::XY)
    }

    /// The twelve edges of the cuboid in the x-z plane.
    pub fn edge_lines_xz(&self) -> (lines: Vec<[[T; 2]; 2]>)
        ensures
            self.has_edge_lines(PlotView::XZ, lines@),
    {
        self.edge_lines(PlotView::XZ)
    }

    /// The twelve edges of the cuboid in the y-z plane.
    pub fn edge_lines_yz(&self) -> (lines: Vec<[[T; 2]; 2]>)
        ensures
            self.has_edge_lines(PlotView::YZ, lines@),
    {
        self.edge_lines(PlotView::YZ)
    }
}

} // verus!
