//! Equality of matrices: two matrices of one shape are equal where their
//! coefficients are equal, place by place.

use vstd::prelude::*;
use vstd::std_specs::cmp::PartialEqSpec;
use vstd::std_specs::cmp::PartialEqSpecImpl;
use crate::matrix::Matrix;

verus! {

impl<C: PartialEq, const ROWS: usize, const COLS: usize> PartialEqSpecImpl for Matrix<C, ROWS, COLS> {
    /// `==` on matrices means what it says where `==` on coefficients does.
    open spec fn obeys_eq_spec() -> bool {
        C::obeys_eq_spec()
    }

    /// Every coefficient of `self` equals the one of `other` at its place.
    open spec fn eq_spec(&self, other: &Self) -> bool {
        forall|i: int, j: int|
            0 <= i < ROWS && 0 <= j < COLS ==> (#[trigger] self@[i][j]).eq_spec(&other@[i][j])
    }
}

impl<C: PartialEq, const ROWS: usize, const COLS: usize> PartialEq for Matrix<C, ROWS, COLS> {
    fn eq(&self, other: &Self) -> (r: bool) {
        let mut row: usize = 0;
        while row < ROWS
            invariant
                row <= ROWS,
                C::obeys_eq_spec() ==> forall|i: int, j: int|
                    0 <= i < row && 0 <= j < COLS ==> (#[trigger] self@[i][j]).eq_spec(
                        &other@[i][j],
                    ),
            decreases ROWS - row,
        {
            let mut col: usize = 0;
            while col < COLS
                invariant
                    row < ROWS,
                    col <= COLS,
                    C::obeys_eq_spec() ==> forall|i: int, j: int|
                        0 <= i < row && 0 <= j < COLS ==> (#[trigger] self@[i][j]).eq_spec(
                            &other@[i][j],
                        ),
                    C::obeys_eq_spec() ==> forall|j: int|
                        0 <= j < col ==> (#[trigger] self@[row as int][j]).eq_spec(
                            &other@[row as int][j],
                        ),
                decreases COLS - col,
            {
                if !(*self.at(row, col) == *other.at(row, col)) {
                    return false;
                }
                col += 1;
            }
            row += 1;
        }
        true
    }
}

impl<C: Eq, const ROWS: usize, const COLS: usize> Eq for Matrix<C, ROWS, COLS> {
}

} // verus!
