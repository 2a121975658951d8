//! Arithmetic on matrices: the product of two matrices, the sum of two
//! matrices and the multiple of a matrix by a coefficient.

use core::ops::AddAssign;
use core::ops::Mul;
use core::ops::MulAssign;
use vstd::prelude::*;
use vstd::std_specs::ops::MulSpecImpl;
use crate::coefficient::Coefficient;
use crate::grid;
use crate::matrix::Matrix;
use crate::rows::add_to_row;
use crate::rows::scale_row;

verus! {

impl<C: Coefficient, const ROWS: usize, const COLS: usize, const Q: usize> MulSpecImpl<
    Matrix<C, Q, COLS>,
> for Matrix<C, ROWS, Q> {
    open spec fn obeys_mul_spec() -> bool {
        true
    }

    /// The product is computed where `C` has room for each of its terms and
    /// for each sum of the first terms of an entry.
    open spec fn mul_req(self, rhs: Matrix<C, Q, COLS>) -> bool {
        grid::product_fits::<C>(self.values(), rhs.values(), COLS as nat)
    }

    /// The matrix that stands for the product of the two grids.
    open spec fn mul_spec(self, rhs: Matrix<C, Q, COLS>) -> Matrix<C, ROWS, COLS> {
        choose|m: Matrix<C, ROWS, COLS>|
            m.values() == grid::product(self.values(), rhs.values(), COLS as nat)
    }
}

/// The entry `(row, col)` of the product of `left` and `right`: the
/// products of the coefficients of the row of `left` and of the column of
/// `right`, added up from the first to the last.
fn product_entry<C: Coefficient, const ROWS: usize, const COLS: usize, const Q: usize>(
    left: &Matrix<C, ROWS, Q>,
    right: &Matrix<C, Q, COLS>,
    row: usize,
    col: usize,
) -> (entry: C)
    requires
        row < ROWS,
        col < COLS,
        grid::product_fits::<C>(left.values(), right.values(), COLS as nat),
    ensures
        entry.value() == grid::dot(
            left.values(),
            right.values(),
            row as int,
            col as int,
            Q as nat,
        ),
{
    let mut entry = C::zero();
    let mut p: usize = 0;
    while p < Q
        invariant
            row < ROWS,
            col < COLS,
            p <= Q,
            grid::product_fits::<C>(left.values(), right.values(), COLS as nat),
            entry.value() == grid::dot(
                left.values(),
                right.values(),
                row as int,
                col as int,
                p as nat,
            ),
        decreases Q - p,
    {
        let a: C = *left.at(row, p);
        let b: C = *right.at(p, col);
        proof {
            let n = (p + 1) as nat;
            assert(left.values()[row as int][n - 1] == a.value());
            assert(right.values()[n - 1][col as int] == b.value());
            assert(C::fits(grid::dot(left.values(), right.values(), row as int, col as int, n)));
        }
        entry = entry.sum(a.product(b));
        p += 1;
    }
    entry
}

/// The matrix product. The inner dimensions agree by type: the left factor
/// has as many columns as the right factor has rows.
impl<C: Coefficient, const ROWS: usize, const COLS: usize, const Q: usize> Mul<
    Matrix<C, Q, COLS>,
> for Matrix<C, ROWS, Q> {
    type Output = Matrix<C, ROWS, COLS>;

    fn mul(self, rhs: Matrix<C, Q, COLS>) -> (product: Matrix<C, ROWS, COLS>)
        ensures
            product.values() == grid::product(self.values(), rhs.values(), COLS as nat),
    {
        let mut product: Matrix<C, ROWS, COLS> = Matrix::filled(C::zero());
        let mut row: usize = 0;
        while row < ROWS
            invariant
                row <= ROWS,
                grid::product_fits::<C>(self.values(), rhs.values(), COLS as nat),
                forall|i: int| 0 <= i < ROWS ==> (#[trigger] product@[i]).len() == COLS,
                forall|i: int, j: int|
                    0 <= i < row && 0 <= j < COLS ==> (#[trigger] product@[i][j]).value()
                        == grid::dot(self.values(), rhs.values(), i, j, Q as nat),
            decreases ROWS - row,
        {
            let mut col: usize = 0;
            while col < COLS
                invariant
                    row < ROWS,
                    col <= COLS,
                    grid::product_fits::<C>(self.values(), rhs.values(), COLS as nat),
                    forall|i: int| 0 <= i < ROWS ==> (#[trigger] product@[i]).len() == COLS,
                    forall|i: int, j: int|
                        0 <= i < row && 0 <= j < COLS ==> (#[trigger] product@[i][j]).value()
                            == grid::dot(self.values(), rhs.values(), i, j, Q as nat),
                    forall|j: int|
                        0 <= j < col ==> (#[trigger] product@[row as int][j]).value()
                            == grid::dot(self.values(), rhs.values(), row as int, j, Q as nat),
                decreases COLS - col,
            {
                product.put(row, col, product_entry(&self, &rhs, row, col));
                col += 1;
            }
            row += 1;
        }
        proof {
            let expected = grid::product(self.values(), rhs.values(), COLS as nat);
            assert(product.values() =~~= expected);
            let chosen = choose|m: Matrix<C, ROWS, COLS>| m.values() == expected;
            Matrix::lemma_values_are_injective(product, chosen);
        }
        product
    }
}

/// The entrywise sum, in place. Both matrices have one shape by type.
impl<C: Coefficient, const ROWS: usize, const COLS: usize> AddAssign<
    Matrix<C, ROWS, COLS>,
> for Matrix<C, ROWS, COLS> {
    fn add_assign(&mut self, other: Matrix<C, ROWS, COLS>)
        requires
            grid::sum_fits::<C>(old(self).values(), other.values()),
        ensures
            final(self).values() == grid::sum(old(self).values(), other.values()),
    {
        let mut row: usize = 0;
        while row < ROWS
            invariant
                row <= ROWS,
                grid::sum_fits::<C>(old(self).values(), other.values()),
                forall|i: int|
                    0 <= i < row ==> #[trigger] self.values()[i] == grid::row_sum(
                        old(self).values()[i],
                        other.values()[i],
                    ),
                forall|i: int| row <= i < ROWS ==> #[trigger] self@[i] == old(self)@[i],
            decreases ROWS - row,
        {
            let ghost before = *self;
            proof {
                let i = row as int;
                assert(before@[i] == old(self)@[i]);
                assert(old(self).values()[i] == grid::row_values(old(self)@[i]));
                assert(other.values()[i] == grid::row_values(other@[i]));
                assert(grid::row_sum_fits::<C>(old(self).values()[i], other.values()[i]));
            }
            add_to_row(self.line_mut(row), other.line_at(row));
            proof {
                assert(self.values()[row as int] == grid::row_values(self@[row as int]));
                assert forall|i: int| 0 <= i < row implies #[trigger] self.values()[i]
                    == before.values()[i] by {
                    assert(self@[i] == before@[i]);
                }
            }
            row += 1;
        }
        assert(self.values() =~= grid::sum(old(self).values(), other.values()));
    }
}

/// The multiple by a coefficient, in place: every coefficient of the matrix
/// is multiplied by `coef`.
impl<'a, C: Coefficient, const ROWS: usize, const COLS: usize> MulAssign<&'a C> for Matrix<
    C,
    ROWS,
    COLS,
> {
    fn mul_assign(&mut self, coef: &'a C)
        requires
            grid::scaled_fits::<C>(old(self).values(), coef.value()),
        ensures
            final(self).values() == grid::scaled(old(self).values(), coef.value()),
    {
        let mut row: usize = 0;
        while row < ROWS
            invariant
                row <= ROWS,
                grid::scaled_fits::<C>(old(self).values(), coef.value()),
                forall|i: int|
                    0 <= i < row ==> #[trigger] self.values()[i] == grid::row_scaled(
                        old(self).values()[i],
                        coef.value(),
                    ),
                forall|i: int| row <= i < ROWS ==> #[trigger] self@[i] == old(self)@[i],
            decreases ROWS - row,
        {
            let ghost before = *self;
            proof {
                let i = row as int;
                assert(before@[i] == old(self)@[i]);
                assert(old(self).values()[i] == grid::row_values(old(self)@[i]));
                assert(grid::row_scaled_fits::<C>(old(self).values()[i], coef.value()));
            }
            scale_row(self.line_mut(row), coef);
            proof {
                assert(self.values()[row as int] == grid::row_values(self@[row as int]));
                assert forall|i: int| 0 <= i < row implies #[trigger] self.values()[i]
                    == before.values()[i] by {
                    assert(self@[i] == before@[i]);
                }
            }
            row += 1;
        }
        assert(self.values() =~= grid::scaled(old(self).values(), coef.value()));
    }
}

} // verus!
