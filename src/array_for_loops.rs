use vstd::prelude::*;
use crate::basics::{is_transpose, Matrix};

verus! {

/// The transpose of a 3 × 3 matrix, taken by value.
pub fn transpose(matrix: Matrix) -> (r: Matrix)
    ensures
        is_transpose(matrix, r),
{
    let mut new: Matrix = [[0; 3]; 3];
    let mut i: usize = 0;
    while i < 3
        invariant
            0 <= i <= 3,
            forall|a: int, b: int| 0 <= a < i && 0 <= b < 3 ==> #[trigger] new[a][b] == matrix[b][a],
        decreases 3 - i,
    {
        let mut row = new[i];
        let mut j: usize = 0;
        while j < 3
            invariant
                0 <= i < 3,
                0 <= j <= 3,
                forall|b: int| 0 <= b < j ==> #[trigger] row[b] == matrix[b][i as int],
            decreases 3 - j,
        {
            row[j] = matrix[j][i];
            j = j + 1;
        }
        new[i] = row;
        i = i + 1;
    }
    new
}

} // verus!
