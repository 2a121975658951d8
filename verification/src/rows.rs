//! Arithmetic on one row of coefficients, in place.

use vstd::prelude::*;
use crate::coefficient::Coefficient;
use crate::grid::row_scaled;
use crate::grid::row_scaled_fits;
use crate::grid::row_sum;
use crate::grid::row_sum_fits;
use crate::grid::row_values;

verus! {

/// Multiplies every coefficient of `row` by `factor`.
pub(crate) fn scale_row<C: Coefficient, const COLS: usize>(row: &mut [C; COLS], factor: &C)
    requires
        row_scaled_fits::<C>(row_values(old(row)@), factor.value()),
    ensures
        row_values(final(row)@) == row_scaled(row_values(old(row)@), factor.value()),
{
    let mut col: usize = 0;
    while col < COLS
        invariant
            col <= COLS,
            row_scaled_fits::<C>(row_values(old(row)@), factor.value()),
            forall|j: int|
                0 <= j < col ==> (#[trigger] row@[j]).value() == old(row)@[j].value()
                    * factor.value(),
            forall|j: int| col <= j < COLS ==> #[trigger] row@[j] == old(row)@[j],
        decreases COLS - col,
    {
        let c: C = row[col];
        assert(C::fits(c.value() * factor.value())) by {
            assert(row_values(old(row)@)[col as int] == c.value());
        }
        row[col] = c.product(*factor);
        col += 1;
    }
    assert(row_values(row@) =~= row_scaled(row_values(old(row)@), factor.value()));
}

/// Adds to every coefficient of `row` the coefficient of `addend` at its
/// place.
pub(crate) fn add_to_row<C: Coefficient, const COLS: usize>(row: &mut [C; COLS], addend: &[C; COLS])
    requires
        row_sum_fits::<C>(row_values(old(row)@), row_values(addend@)),
    ensures
        row_values(final(row)@) == row_sum(row_values(old(row)@), row_values(addend@)),
{
    let mut col: usize = 0;
    while col < COLS
        invariant
            col <= COLS,
            row_sum_fits::<C>(row_values(old(row)@), row_values(addend@)),
            forall|j: int|
                0 <= j < col ==> (#[trigger] row@[j]).value() == old(row)@[j].value()
                    + addend@[j].value(),
            forall|j: int| col <= j < COLS ==> #[trigger] row@[j] == old(row)@[j],
        decreases COLS - col,
    {
        let a: C = row[col];
        let b: C = addend[col];
        assert(C::fits(a.value() + b.value())) by {
            assert(row_values(old(row)@)[col as int] == a.value());
            assert(row_values(addend@)[col as int] == b.value());
        }
        row[col] = a.sum(b);
        col += 1;
    }
    assert(row_values(row@) =~= row_sum(row_values(old(row)@), row_values(addend@)));
}

} // verus!
