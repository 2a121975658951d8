//! Rectangular grids of integers: the mathematics that the contracts of
//! the matrix operations are stated in.
//!
//! A grid is a sequence of rows of one length. A grid with no row has no
//! width of its own, so the functions that build one take the width.

use vstd::prelude::*;
use crate::coefficient::Coefficient;

verus! {

/// A grid of integers, row by row.
pub type Grid = Seq<Seq<int>>;

/// The integers that the coefficients of a row stand for.
pub open spec fn row_values<C: Coefficient>(row: Seq<C>) -> Seq<int> {
    Seq::new(row.len(), |j: int| row[j].value())
}

/// Whether `g` has `rows` rows of `cols` entries each.
pub open spec fn is_grid(g: Grid, rows: nat, cols: nat) -> bool {
    &&& g.len() == rows
    &&& forall|i: int| 0 <= i < rows ==> (#[trigger] g[i]).len() == cols
}

/// The row whose entries are the sums of the entries of `a` and `b`.
pub open spec fn row_sum(a: Seq<int>, b: Seq<int>) -> Seq<int> {
    Seq::new(a.len(), |j: int| a[j] + b[j])
}

/// The row whose entries are those of `a`, each times `factor`.
pub open spec fn row_scaled(a: Seq<int>, factor: int) -> Seq<int> {
    Seq::new(a.len(), |j: int| a[j] * factor)
}

/// The entrywise sum of two grids of one shape.
pub open spec fn sum(a: Grid, b: Grid) -> Grid {
    Seq::new(a.len(), |i: int| row_sum(a[i], b[i]))
}

/// The grid `a` with every entry multiplied by `factor`.
pub open spec fn scaled(a: Grid, factor: int) -> Grid {
    Seq::new(a.len(), |i: int| row_scaled(a[i], factor))
}

/// The sum of `a[i][p] * b[p][j]` over the first `n` indices `p`.
pub open spec fn dot(a: Grid, b: Grid, i: int, j: int, n: nat) -> int
    decreases n,
{
    if n == 0 {
        0
    } else {
        dot(a, b, i, j, (n - 1) as nat) + a[i][n - 1] * b[n - 1][j]
    }
}

/// The matrix product of `a` and `b`, where `b` has `cols` columns: entry
/// `(i, j)` is the sum of `a[i][p] * b[p][j]` over every row `p` of `b`.
pub open spec fn product(a: Grid, b: Grid, cols: nat) -> Grid {
    Seq::new(a.len(), |i: int| Seq::new(cols, |j: int| dot(a, b, i, j, b.len())))
}

/// The square grid of the given size that holds 0 everywhere.
pub open spec fn nil(size: nat) -> Grid {
    Seq::new(size, |i: int| Seq::new(size, |j: int| 0int))
}

/// The square grid of the given size that holds 1 on the diagonal and 0
/// elsewhere.
pub open spec fn identity(size: nat) -> Grid {
    Seq::new(size, |i: int| Seq::new(size, |j: int| if i == j { 1int } else { 0int }))
}

/// The grid `a` with every entry of the row `row` multiplied by `factor`.
pub open spec fn dilated(a: Grid, row: int, factor: int) -> Grid {
    a.update(row, row_scaled(a[row], factor))
}

/// The grid `a` with the row `other` added to the row `source`.
pub open spec fn transvected(a: Grid, source: int, other: int) -> Grid {
    a.update(source, row_sum(a[source], a[other]))
}

/// Whether `C` has room for every entry of `a`.
pub open spec fn all_fit<C: Coefficient>(a: Grid) -> bool {
    forall|i: int, j: int| 0 <= i < a.len() && 0 <= j < a[i].len() ==> C::fits(#[trigger] a[i][j])
}

/// Whether `C` has room for every entry of `row_sum(a, b)`.
pub open spec fn row_sum_fits<C: Coefficient>(a: Seq<int>, b: Seq<int>) -> bool {
    forall|j: int| #![trigger a[j]] 0 <= j < a.len() ==> C::fits(a[j] + b[j])
}

/// Whether `C` has room for every entry of `row_scaled(a, factor)`.
pub open spec fn row_scaled_fits<C: Coefficient>(a: Seq<int>, factor: int) -> bool {
    forall|j: int| #![trigger a[j]] 0 <= j < a.len() ==> C::fits(a[j] * factor)
}

/// Whether `C` has room for every entry of `sum(a, b)`.
pub open spec fn sum_fits<C: Coefficient>(a: Grid, b: Grid) -> bool {
    forall|i: int| #![trigger a[i]] 0 <= i < a.len() ==> row_sum_fits::<C>(a[i], b[i])
}

/// Whether `C` has room for every entry of `scaled(a, factor)`.
pub open spec fn scaled_fits<C: Coefficient>(a: Grid, factor: int) -> bool {
    forall|i: int| #![trigger a[i]] 0 <= i < a.len() ==> row_scaled_fits::<C>(a[i], factor)
}

/// Whether `C` has room for all that the product of `a` and `b` is summed
/// up from: each term, and each sum of the first terms of an entry.
pub open spec fn product_fits<C: Coefficient>(a: Grid, b: Grid, cols: nat) -> bool {
    forall|i: int, j: int, n: nat|
        0 <= i < a.len() && 0 <= j < cols && 0 < n <= b.len() ==> C::fits(
            a[i][n - 1] * b[n - 1][j],
        ) && C::fits(#[trigger] dot(a, b, i, j, n))
}

} // verus!
