//! The layout of the rotation matrices about the three axes. The cosine and
//! the sine of the angle are given by the caller, with the negated sine and
//! the constants zero and one; a matrix is applied to a row vector from the
//! right.

use crate::axis::Axis;
use vstd::prelude::*;

verus! {

/// The entry in row `i` and column `j` of the rotation matrix about `axis`.
/// The diagonal holds `one` at the axis and `cos` elsewhere; off the
/// diagonal, the row and the column of the axis hold `zero`, and of the two
/// entries that are left the one whose column follows its row in the cycle
/// x, y, z, x holds `sin` and the other `minus_sin`.
pub open spec fn rotation_entry<T>(
    axis: Axis,
    i: int,
    j: int,
    cos: T,
    sin: T,
    minus_sin: T,
    zero: T,
    one: T,
) -> T {
    if i == j {
        if i == axis.index() {
            one
        } else {
            cos
        }
    } else if i == axis.index() || j == axis.index() {
        zero
    } else if j == (i + 1) % 3 {
        sin
    } else {
        minus_sin
    }
}

/// Whether `matrix` is the rotation matrix about `axis` laid out from the
/// given values.
pub open spec fn is_rotation<T>(
    matrix: [[T; 3]; 3],
    axis: Axis,
    cos: T,
    sin: T,
    minus_sin: T,
    zero: T,
    one: T,
) -> bool {
    forall|i: int, j: int|
        0 <= i < 3 && 0 <= j < 3 ==> #[trigger] matrix[i][j] == rotation_entry(
            axis,
            i,
            j,
            cos,
            sin,
            minus_sin,
            zero,
            one,
        )
}

/// The rotation matrix about the x axis.
pub fn rotation_matrix_x<T: Copy>(
    cos: T,
    sin: T,
    minus_sin: T,
    zero: T,
    one: T,
) -> (matrix: [[T; 3]; 3])
    ensures
        is_rotation(matrix, Axis::X, cos, sin, minus_sin, zero, one),
{
    [[one, zero, zero], [zero, cos, sin], [zero, minus_sin, cos]]
}

/// The rotation matrix about the y axis.
pub fn rotation_matrix_y<T: Copy>(
    cos: T,
    sin: T,
    minus_sin: T,
    zero: T,
    one: T,
) -> (matrix: [[T; 3]; 3])
    ensures
        is_rotation(matrix, Axis::Y, cos, sin, minus_sin, zero, one),
{
    [[cos, zero, minus_sin], [zero, one, zero], [sin, zero, cos]]
}

/// The rotation matrix about the z axis.
pub fn rotation_matrix_z<T: Copy>(
    cos: T,
    sin: T,
    minus_sin: T,
    zero: T,
    one: T,
) -> (matrix: [[T; 3]; 3])
    ensures
        is_rotation(matrix, Axis::Z, cos, sin, minus_sin, zero, one),
{
    [[cos, sin, zero], [minus_sin, cos, zero], [zero, zero, one]]
}

/// Reversing the angle transposes the matrix. Reversing keeps the cosine and
/// exchanges the sine with the negated sine; the matrix laid out from the
/// exchanged values is the transpose of the matrix laid out from the values
/// as they are.
pub proof fn reversed_rotation_is_transposed<T>(
    forth: [[T; 3]; 3],
    back: [[T; 3]; 3],
    axis: Axis,
    cos: T,
    sin: T,
    minus_sin: T,
    zero: T,
    one: T,
)
    requires
        is_rotation(forth, axis, cos, sin, minus_sin, zero, one),
        is_rotation(back, axis, cos, minus_sin, sin, zero, one),
    ensures
        forall|i: int, j: int| 0 <= i < 3 && 0 <= j < 3 ==> #[trigger] back[i][j] == forth[j][i],
{
    assert forall|i: int, j: int| 0 <= i < 3 && 0 <= j < 3 implies #[trigger] back[i][j]
        == forth[j][i] by {
        assert(forth[j][i] == rotation_entry(axis, j, i, cos, sin, minus_sin, zero, one));
    }
}

/// A rotation by no angle changes nothing. With a cosine of `one` and with
/// `zero` for the sine and the negated sine, the matrix about any axis is
/// the identity: `one` on the diagonal and `zero` elsewhere.
pub proof fn rotation_by_nothing_is_identity<T>(
    matrix: [[T; 3]; 3],
    axis: Axis,
    zero: T,
    one: T,
)
    requires
        is_rotation(matrix, axis, one, zero, zero, zero, one),
    ensures
        forall|i: int, j: int|
            0 <= i < 3 && 0 <= j < 3 ==> #[trigger] matrix[i][j] == if i == j {
                one
            } else {
                zero
            },
{
}

} // verus!
