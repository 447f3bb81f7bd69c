//! The quantities of the field: which of them is asked for, where it is read
//! from, how it is scaled, and how the bodies of a model add up to it.

use crate::axis::Axis;
use vstd::prelude::*;

verus! {

/// The factor by which a summed component of the gravity vector is
/// multiplied for display: minus ten to the eighth.
pub const VECTOR_SCALING: i64 = -100_000_000;

/// The factor by which a summed component of the gradient tensor is
/// multiplied for display: ten to the ninth.
pub const GRADIENT_SCALING: i64 = 1_000_000_000;

/// The nine quantities that can be requested: the three components of the
/// gravity vector and the upper triangle of the symmetric gradient tensor.
#[derive(Clone, Copy, Debug, PartialEq, Eq, Structural)]
pub enum DataType {
    Gx,
    Gy,
    Gz,
    Gxx,
    Gxy,
    Gxz,
    Gyy,
    Gyz,
    Gzz,
}

/// Where a requested quantity is read from: an entry of the gravity vector or
/// an entry (row, column) of the gradient tensor.
#[derive(Clone, Copy, Debug, PartialEq, Eq, Structural)]
pub enum Component {
    Vector(Axis),
    Tensor(Axis, Axis),
}

impl DataType {
    /// Whether the quantity is a first derivative of the potential.
    pub open spec fn is_vector(self) -> bool {
        self is Gx || self is Gy || self is Gz
    }

    /// The entry that the quantity names.
    pub open spec fn spec_component(self) -> Component {
        match self {
            DataType::Gx => Component::Vector(Axis::X),
            DataType::Gy => Component::Vector(Axis::Y),
            DataType::Gz => Component::Vector(Axis::Z),
            DataType::Gxx => Component::Tensor(Axis::X, Axis::X),
            DataType::Gxy => Component::Tensor(Axis::X, Axis::Y),
            DataType::Gxz => Component::Tensor(Axis::X, Axis::Z),
            DataType::Gyy => Component::Tensor(Axis::Y, Axis::Y),
            DataType::Gyz => Component::Tensor(Axis::Y, Axis::Z),
            DataType::Gzz => Component::Tensor(Axis::Z, Axis::Z),
        }
    }

    /// The display factor of the quantity: `VECTOR_SCALING` for a component
    /// of the gravity vector, `GRADIENT_SCALING` for one of the gradient
    /// tensor.
    pub open spec fn spec_scaling(self) -> int {
        if self.is_vector() {
            VECTOR_SCALING as int
        } else {
            GRADIENT_SCALING as int
        }
    }

    /// The entry of the gravity vector or gradient tensor that the quantity
    /// names. A tensor entry is always given in the upper triangle.
    pub fn component(&self) -> (c: Component)
        ensures
            c == self.spec_component(),
            self.is_vector() <==> c is Vector,
            c matches Component::Tensor(row, column) ==> row.index() <= column.index(),
    {
        match self {
            DataType::Gx => Component::Vector(Axis::X),
            DataType::Gy => Component::Vector(Axis::Y),
            DataType::Gz => Component::Vector(Axis::Z),
            DataType::Gxx => Component::Tensor(Axis::X, Axis::X),
            DataType::Gxy => Component::Tensor(Axis::X, Axis::Y),
            DataType::Gxz => Component::Tensor(Axis::X, Axis::Z),
            DataType::Gyy => Component::Tensor(Axis::Y, Axis::Y),
            DataType::Gyz => Component::Tensor(Axis::Y, Axis::Z),
            DataType::Gzz => Component::Tensor(Axis::Z, Axis::Z),
        }
    }

    /// Whether `value` is the quantity as read from what `vector` or
    /// `tensor` returns: the entry that the quantity names, of the gravity
    /// vector for a vector component and of the gradient tensor otherwise.
    pub open spec fn picks<U, V: FnOnce() -> [U; 3], W: FnOnce() -> [[U; 3]; 3]>(
        self,
        vector: V,
        tensor: W,
        value: U,
    ) -> bool {
        match self.spec_component() {
            Component::Vector(axis) => exists|g: [U; 3]|
                #[trigger] call_ensures(vector, (), g) && value == g[axis.index()],
            Component::Tensor(row, column) => exists|gg: [[U; 3]; 3]|
                #[trigger] call_ensures(tensor, (), gg) && value == gg[row.index()][column.index()],
        }
    }

    /// The quantity at one point. Of `vector`, which gives the gravity
    /// vector there, and `tensor`, which gives the gradient tensor, only the
    /// one that holds the quantity is called, and the entry that the quantity
    /// names is returned.
    pub fn select<U: Copy, V: FnOnce() -> [U; 3], W: FnOnce() -> [[U; 3]; 3]>(
        &self,
        vector: V,
        tensor: W,
    ) -> (value: U)
        requires
            self.is_vector() ==> call_requires(vector, ()),
            !self.is_vector() ==> call_requires(tensor, ()),
        ensures
            self.picks(vector, tensor, value),
    {
        match self.component() {
            Component::Vector(axis) => {
                let g = vector();
                g[axis.to_index()]
            },
            Component::Tensor(row, column) => {
                let gg = tensor();
                gg[row.to_index()][column.to_index()]
            },
        }
    }

    /// The factor by which a sum over all bodies is multiplied, once, for
    /// display.
    pub fn scaling(&self) -> (factor: i64)
        ensures
            factor == self.spec_scaling(),
    {
        match self {
            DataType::Gx | DataType::Gy | DataType::Gz => VECTOR_SCALING,
            _ => GRADIENT_SCALING,
        }
    }
}

/// Why a body cannot be made.
#[derive(Clone, Copy, Debug, PartialEq, Eq, Structural)]
pub enum GeometryError {
    /// A length or a radius is not strictly positive.
    DegenerateGeometry,
}

/// Accepts the lengths and radii of a body if `is_positive` holds of every
/// one of them, and rejects them as degenerate if it fails of one. They are
/// tried in order, up to the first that fails.
pub fn check_extents<T, F: Fn(&T) -> bool>(
    extents: &[T],
    is_positive: F,
) -> (checked: Result<(), GeometryError>)
    requires
        forall|i: int|
            0 <= i < extents@.len() ==> call_requires(is_positive, (&#[trigger] extents@[i],)),
    ensures
        checked is Ok ==> forall|i: int|
            0 <= i < extents@.len() ==> call_ensures(
                is_positive,
                (&#[trigger] extents@[i],),
                true,
            ),
        checked is Err ==> checked == Err::<(), GeometryError>(GeometryError::DegenerateGeometry)
            && exists|i: int|
            {
                &&& 0 <= i < extents@.len()
                &&& call_ensures(is_positive, (&#[trigger] extents@[i],), false)
                &&& forall|j: int|
                    0 <= j < i ==> call_ensures(is_positive, (&#[trigger] extents@[j],), true)
            },
{
    let mut i: usize = 0;
    while i < extents.len()
        invariant
            i <= extents@.len(),
            forall|j: int|
                0 <= j < extents@.len() ==> call_requires(
                    is_positive,
                    (&#[trigger] extents@[j],),
                ),
            forall|j: int|
                0 <= j < i ==> call_ensures(is_positive, (&#[trigger] extents@[j],), true),
        decreases extents@.len() - i,
    {
        if !is_positive(&extents[i]) {
            return Err(GeometryError::DegenerateGeometry);
        }
        i += 1;
    }
    Ok(())
}

/// The symmetric gradient tensor whose upper triangle holds the six given
/// entries; each entry below the diagonal repeats the one mirrored above it.
pub fn gradient_tensor<T: Copy>(xx: T, xy: T, xz: T, yy: T, yz: T, zz: T) -> (tensor: [[T; 3]; 3])
    ensures
        tensor[0][0] == xx,
        tensor[0][1] == xy,
        tensor[0][2] == xz,
        tensor[1][1] == yy,
        tensor[1][2] == yz,
        tensor[2][2] == zz,
        forall|i: int, j: int|
            0 <= i < 3 && 0 <= j < 3 ==> #[trigger] tensor[i][j] == #[trigger] tensor[j][i],
{
    [[xx, xy, xz], [xy, yy, yz], [xz, yz, zz]]
}

/// The requested quantity of one body at each of `points`, unscaled: what
/// `raw` returns for the body at the point.
pub fn evaluate<B, T, U, R: Fn(&B, DataType, &[T; 3]) -> U>(
    body: &B,
    data_type: DataType,
    points: &[[T; 3]],
    raw: R,
) -> (data: Vec<U>)
    requires
        forall|i: int|
            0 <= i < points@.len() ==> call_requires(
                raw,
                (body, data_type, &#[trigger] points@[i]),
            ),
    ensures
        data@.len() == points@.len(),
        forall|i: int|
            0 <= i < points@.len() ==> call_ensures(
                raw,
                (body, data_type, &points@[i]),
                #[trigger] data@[i],
            ),
{
    let mut data: Vec<U> = Vec::new();
    let mut i: usize = 0;
    while i < points.len()
        invariant
            i <= points@.len(),
            data@.len() == i,
            forall|k: int|
                0 <= k < points@.len() ==> call_requires(
                    raw,
                    (body, data_type, &#[trigger] points@[k]),
                ),
            forall|k: int|
                0 <= k < i ==> call_ensures(
                    raw,
                    (body, data_type, &points@[k]),
                    #[trigger] data@[k],
                ),
        decreases points@.len() - i,
    {
        let value = raw(body, data_type, &points[i]);
        data.push(value);
        i += 1;
    }
    data
}

/// Whether `values` are the unscaled values of the bodies at `point` and
/// `sums` the sums that they lead through: every body contributes what `raw`
/// returns for it, the contributions are added in the order of the bodies by
/// `plus`, starting from `zero`, and `shown` is what `scale` makes of the
/// last sum and the display factor of `data_type`.
pub open spec fn totals_up<
    B,
    T,
    U,
    R: Fn(&B, DataType, &[T; 3]) -> U,
    P: Fn(U, U) -> U,
    S: Fn(U, i64) -> U,
>(
    bodies: Seq<B>,
    data_type: DataType,
    point: [T; 3],
    zero: U,
    raw: R,
    plus: P,
    scale: S,
    shown: U,
    values: Seq<U>,
    sums: Seq<U>,
) -> bool {
    &&& values.len() == bodies.len()
    &&& sums.len() == bodies.len() + 1
    &&& sums[0] == zero
    &&& forall|b: int|
        0 <= b < bodies.len() ==> {
            &&& call_ensures(raw, (&bodies[b], data_type, &point), #[trigger] values[b])
            &&& call_ensures(plus, (sums[b], values[b]), sums[b + 1])
        }
    &&& call_ensures(scale, (sums[bodies.len() as int], data_type.spec_scaling() as i64), shown)
}

/// Whether `shown` is the value of the whole model at `point`: the sum of the
/// unscaled values of all bodies, scaled once.
pub open spec fn is_scaled_total<
    B,
    T,
    U,
    R: Fn(&B, DataType, &[T; 3]) -> U,
    P: Fn(U, U) -> U,
    S: Fn(U, i64) -> U,
>(
    bodies: Seq<B>,
    data_type: DataType,
    point: [T; 3],
    zero: U,
    raw: R,
    plus: P,
    scale: S,
    shown: U,
) -> bool {
    exists|values: Seq<U>, sums: Seq<U>|
        totals_up(bodies, data_type, point, zero, raw, plus, scale, shown, values, sums)
}

/// The requested quantity of a whole model at each of `points`. At every
/// point the unscaled values that `raw` returns for the bodies are added by
/// `plus`, in the order of the bodies and starting from `zero`; the sum is
/// then scaled once, by `scale`, with the display factor of `data_type`.
pub fn evaluate_all<
    B,
    T,
    U: Copy,
    R: Fn(&B, DataType, &[T; 3]) -> U,
    P: Fn(U, U) -> U,
    S: Fn(U, i64) -> U,
>(
    bodies: &[B],
    data_type: DataType,
    points: &[[T; 3]],
    zero: U,
    raw: R,
    plus: P,
    scale: S,
) -> (data: Vec<U>)
    requires
        forall|b: int, i: int|
            0 <= b < bodies@.len() && 0 <= i < points@.len() ==> call_requires(
                raw,
                (&#[trigger] bodies@[b], data_type, &#[trigger] points@[i]),
            ),
        forall|sum: U, value: U| call_requires(plus, (sum, value)),
        forall|sum: U, factor: i64| call_requires(scale, (sum, factor)),
    ensures
        data@.len() == points@.len(),
        forall|i: int|
            0 <= i < points@.len() ==> is_scaled_total(
                bodies@,
                data_type,
                points@[i],
                zero,
                raw,
                plus,
                scale,
                #[trigger] data@[i],
            ),
{
    let factor = data_type.scaling();
    let mut data: Vec<U> = Vec::new();
    let mut i: usize = 0;
    while i < points.len()
        invariant
            i <= points@.len(),
            factor == data_type.spec_scaling(),
            data@.len() == i,
            forall|b: int, k: int|
                0 <= b < bodies@.len() && 0 <= k < points@.len() ==> call_requires(
                    raw,
                    (&#[trigger] bodies@[b], data_type, &#[trigger] points@[k]),
                ),
            forall|sum: U, value: U| call_requires(plus, (sum, value)),
            forall|sum: U, factor: i64| call_requires(scale, (sum, factor)),
            forall|k: int|
                0 <= k < i ==> is_scaled_total(
                    bodies@,
                    data_type,
                    points@[k],
                    zero,
                    raw,
                    plus,
                    scale,
                    #[trigger] data@[k],
                ),
        decreases points@.len() - i,
    {
        let ghost mut values: Seq<U> = Seq::empty();
        let ghost mut sums: Seq<U> = seq![zero];
        let mut sum = zero;
        let mut b: usize = 0;
        while b < bodies.len()
            invariant
                b <= bodies@.len(),
                i < points@.len(),
                forall|c: int, k: int|
                    0 <= c < bodies@.len() && 0 <= k < points@.len() ==> call_requires(
                        raw,
                        (&#[trigger] bodies@[c], data_type, &#[trigger] points@[k]),
                    ),
                forall|sum: U, value: U| call_requires(plus, (sum, value)),
                values.len() == b,
                sums.len() == b + 1,
                sums[0] == zero,
                sums[b as int] == sum,
                forall|c: int|
                    0 <= c < b ==> {
                        &&& call_ensures(
                            raw,
                            (&bodies@[c], data_type, &points@[i as int]),
                            #[trigger] values[c],
                        )
                        &&& call_ensures(plus, (sums[c], values[c]), sums[c + 1])
                    },
            decreases bodies@.len() - b,
        {
            let value = raw(&bodies[b], data_type, &points[i]);
            sum = plus(sum, value);
            proof {
                values = values.push(value);
                sums = sums.push(sum);
            }
            b += 1;
        }
        let shown = scale(sum, factor);
        assert(totals_up(
            bodies@,
            data_type,
            points@[i as int],
            zero,
            raw,
            plus,
            scale,
            shown,
            values,
            sums,
        ));
        data.push(shown);
        i += 1;
    }
    data
}

} // verus!