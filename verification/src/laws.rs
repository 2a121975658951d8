//! The algebra of grids, what holds of sums and products whatever the
//! entries are, and what follows of it for matrices.

use vstd::prelude::*;
use vstd::std_specs::ops::MulSpec;
use crate::coefficient::Coefficient;
use crate::grid::all_fit;
use crate::grid::dot;
use crate::grid::identity;
use crate::grid::is_grid;
use crate::grid::nil;
use crate::grid::product;
use crate::grid::product_fits;
use crate::grid::sum;
use crate::grid::sum_fits;
use crate::grid::Grid;
use crate::matrix::Matrix;

verus! {

/// The nil grid is neutral for the sum: added on either side of a square
/// grid of its size, it gives that grid back.
pub proof fn lemma_nil_is_neutral(a: Grid, size: nat)
    requires
        is_grid(a, size, size),
    ensures
        sum(nil(size), a) == a,
        sum(a, nil(size)) == a,
{
    assert(sum(nil(size), a) =~~= a);
    assert(sum(a, nil(size)) =~~= a);
}

/// The sum with the nil grid can always be computed: a type that has room
/// for the entries of a grid has room for them with 0 added.
pub proof fn lemma_sum_with_nil_fits<C: Coefficient>(a: Grid, size: nat)
    requires
        is_grid(a, size, size),
        all_fit::<C>(a),
    ensures
        sum_fits::<C>(nil(size), a),
        sum_fits::<C>(a, nil(size)),
{
    assert forall|i: int, j: int| 0 <= i < size && 0 <= j < size implies C::fits(
        nil(size)[i][j] + a[i][j],
    ) && C::fits(a[i][j] + nil(size)[i][j]) by {
        assert(C::fits(a[i][j]));
    }
}

/// The first `n` terms of an entry of `identity(size)` times `a`: the
/// diagonal picks the term of index `i`, once it is among them.
proof fn lemma_dot_identity_left(a: Grid, size: nat, i: int, j: int, n: nat)
    requires
        0 <= i < size,
        n <= size,
    ensures
        dot(identity(size), a, i, j, n) == (if i < n {
            a[i][j]
        } else {
            0
        }),
    decreases n,
{
    if n > 0 {
        lemma_dot_identity_left(a, size, i, j, (n - 1) as nat);
        assert(identity(size)[i][n - 1] == (if i == n - 1 {
            1int
        } else {
            0int
        }));
    }
}

/// The first `n` terms of an entry of `a` times `identity(size)`: the
/// diagonal picks the term of index `j`, once it is among them.
proof fn lemma_dot_identity_right(a: Grid, size: nat, i: int, j: int, n: nat)
    requires
        0 <= j < size,
        n <= size,
    ensures
        dot(a, identity(size), i, j, n) == (if j < n {
            a[i][j]
        } else {
            0
        }),
    decreases n,
{
    if n > 0 {
        lemma_dot_identity_right(a, size, i, j, (n - 1) as nat);
        assert(identity(size)[n - 1][j] == (if n - 1 == j {
            1int
        } else {
            0int
        }));
    }
}

/// The identity grid is neutral on the left of a product: times a grid of
/// `size` rows, it gives that grid back.
pub proof fn lemma_identity_is_left_neutral(a: Grid, size: nat, cols: nat)
    requires
        is_grid(a, size, cols),
    ensures
        product(identity(size), a, cols) == a,
{
    let p = product(identity(size), a, cols);
    assert forall|i: int, j: int| 0 <= i < size && 0 <= j < cols implies #[trigger] p[i][j]
        == a[i][j] by {
        lemma_dot_identity_left(a, size, i, j, size);
    }
    assert(p =~~= a);
}

/// The identity grid is neutral on the right of a product: a grid of `size`
/// columns, times it, gives that grid back.
pub proof fn lemma_identity_is_right_neutral(a: Grid, rows: nat, size: nat)
    requires
        is_grid(a, rows, size),
    ensures
        product(a, identity(size), size) == a,
{
    let p = product(a, identity(size), size);
    assert forall|i: int, j: int| 0 <= i < rows && 0 <= j < size implies #[trigger] p[i][j]
        == a[i][j] by {
        lemma_dot_identity_right(a, size, i, j, size);
    }
    assert(p =~~= a);
}

/// The product with the identity grid on the left can always be computed:
/// each term and each sum of first terms is 0 or an entry of `a`.
pub proof fn lemma_product_with_identity_on_the_left_fits<C: Coefficient>(
    a: Grid,
    size: nat,
    cols: nat,
)
    requires
        is_grid(a, size, cols),
        all_fit::<C>(a),
    ensures
        product_fits::<C>(identity(size), a, cols),
{
    C::units_fit();
    assert forall|i: int, j: int, n: nat|
        0 <= i < size && 0 <= j < cols && 0 < n <= a.len() implies C::fits(
        identity(size)[i][n - 1] * a[n - 1][j],
    ) && C::fits(#[trigger] dot(identity(size), a, i, j, n)) by {
        lemma_dot_identity_left(a, size, i, j, n);
        assert(C::fits(a[i][j]));
        assert(C::fits(a[n - 1][j]));
        assert(identity(size)[i][n - 1] == (if i == n - 1 {
            1int
        } else {
            0int
        }));
    }
}

/// The product with the identity grid on the right can always be computed:
/// each term and each sum of first terms is 0 or an entry of `a`.
pub proof fn lemma_product_with_identity_on_the_right_fits<C: Coefficient>(
    a: Grid,
    rows: nat,
    size: nat,
)
    requires
        is_grid(a, rows, size),
        all_fit::<C>(a),
    ensures
        product_fits::<C>(a, identity(size), size),
{
    C::units_fit();
    assert forall|i: int, j: int, n: nat|
        0 <= i < rows && 0 <= j < size && 0 < n <= identity(size).len() implies C::fits(
        a[i][n - 1] * identity(size)[n - 1][j],
    ) && C::fits(#[trigger] dot(a, identity(size), i, j, n)) by {
        lemma_dot_identity_right(a, size, i, j, n);
        assert(C::fits(a[i][j]));
        assert(C::fits(a[i][n - 1]));
        assert(identity(size)[n - 1][j] == (if n - 1 == j {
            1int
        } else {
            0int
        }));
    }
}

/// The first `n` terms of an entry of `a` times `sum(b, c)` are those of
/// `a` times `b` and of `a` times `c`, added.
proof fn lemma_dot_sum_right(a: Grid, b: Grid, c: Grid, cols: nat, i: int, j: int, n: nat)
    requires
        is_grid(b, b.len(), cols),
        0 <= j < cols,
        n <= b.len(),
    ensures
        dot(a, sum(b, c), i, j, n) == dot(a, b, i, j, n) + dot(a, c, i, j, n),
    decreases n,
{
    if n > 0 {
        lemma_dot_sum_right(a, b, c, cols, i, j, (n - 1) as nat);
        let x = a[i][n - 1];
        let y = b[n - 1][j];
        let z = c[n - 1][j];
        assert(sum(b, c)[n - 1][j] == y + z);
        assert(x * (y + z) == x * y + x * z) by (nonlinear_arith);
    }
}

/// The first `n` terms of an entry of `sum(a, b)` times `c` are those of
/// `a` times `c` and of `b` times `c`, added.
proof fn lemma_dot_sum_left(a: Grid, b: Grid, c: Grid, inner: nat, i: int, j: int, n: nat)
    requires
        is_grid(a, a.len(), inner),
        0 <= i < a.len(),
        n <= inner,
    ensures
        dot(sum(a, b), c, i, j, n) == dot(a, c, i, j, n) + dot(b, c, i, j, n),
    decreases n,
{
    if n > 0 {
        lemma_dot_sum_left(a, b, c, inner, i, j, (n - 1) as nat);
        let x = a[i][n - 1];
        let y = b[i][n - 1];
        let z = c[n - 1][j];
        assert(sum(a, b)[i][n - 1] == x + y);
        assert((x + y) * z == x * z + y * z) by (nonlinear_arith);
    }
}

/// The product distributes over the sum on its right: `a` times the sum of
/// `b` and `c` is the sum of `a` times `b` and `a` times `c`.
pub proof fn lemma_product_distributes_on_the_left(
    a: Grid,
    b: Grid,
    c: Grid,
    rows: nat,
    inner: nat,
    cols: nat,
)
    requires
        is_grid(a, rows, inner),
        is_grid(b, inner, cols),
        is_grid(c, inner, cols),
    ensures
        product(a, sum(b, c), cols) == sum(product(a, b, cols), product(a, c, cols)),
{
    let left = product(a, sum(b, c), cols);
    let right = sum(product(a, b, cols), product(a, c, cols));
    assert forall|i: int, j: int| 0 <= i < rows && 0 <= j < cols implies #[trigger] left[i][j]
        == right[i][j] by {
        lemma_dot_sum_right(a, b, c, cols, i, j, inner);
    }
    assert(left =~~= right);
}

/// The product distributes over the sum on its left: the sum of `a` and `b`,
/// times `c`, is the sum of `a` times `c` and `b` times `c`.
pub proof fn lemma_product_distributes_on_the_right(
    a: Grid,
    b: Grid,
    c: Grid,
    rows: nat,
    inner: nat,
    cols: nat,
)
    requires
        is_grid(a, rows, inner),
        is_grid(b, rows, inner),
        is_grid(c, inner, cols),
    ensures
        product(sum(a, b), c, cols) == sum(product(a, c, cols), product(b, c, cols)),
{
    let left = product(sum(a, b), c, cols);
    let right = sum(product(a, c, cols), product(b, c, cols));
    assert forall|i: int, j: int| 0 <= i < rows && 0 <= j < cols implies #[trigger] left[i][j]
        == right[i][j] by {
        lemma_dot_sum_left(a, b, c, inner, i, j, inner);
    }
    assert(left =~~= right);
}

/// The sum, over the first `n` indices `q`, of `a[i][q]` times the first
/// `m` terms of the entry `(q, j)` of `b` times `c`: the triple sum that
/// both ways of bracketing a product of three grids come to.
spec fn nested(a: Grid, b: Grid, c: Grid, i: int, j: int, n: nat, m: nat) -> int
    decreases n,
{
    if n == 0 {
        0
    } else {
        nested(a, b, c, i, j, (n - 1) as nat, m) + a[i][n - 1] * dot(b, c, n - 1, j, m)
    }
}

/// With no term of `b` times `c`, the triple sum is 0.
proof fn lemma_nested_empty(a: Grid, b: Grid, c: Grid, i: int, j: int, n: nat)
    ensures
        nested(a, b, c, i, j, n, 0) == 0,
    decreases n,
{
    if n > 0 {
        lemma_nested_empty(a, b, c, i, j, (n - 1) as nat);
        assert(a[i][n - 1] * 0 == 0) by (nonlinear_arith);
    }
}

/// One more term of `b` times `c` adds to the triple sum the first `n`
/// terms of the entry `(i, m)` of `a` times `b`, times `c[m][j]`.
proof fn lemma_nested_step(a: Grid, b: Grid, c: Grid, i: int, j: int, n: nat, m: nat)
    ensures
        nested(a, b, c, i, j, n, m + 1) == nested(a, b, c, i, j, n, m) + dot(a, b, i, m as int, n)
            * c[m as int][j],
    decreases n,
{
    if n > 0 {
        lemma_nested_step(a, b, c, i, j, (n - 1) as nat, m);
        let x = a[i][n - 1];
        let y = b[n - 1][m as int];
        let z = c[m as int][j];
        let inner = dot(b, c, n - 1, j, m);
        let outer = dot(a, b, i, m as int, (n - 1) as nat);
        assert(dot(b, c, n - 1, j, m + 1) == inner + y * z);
        assert(dot(a, b, i, m as int, n) == outer + x * y);
        assert(x * (inner + y * z) + outer * z == x * inner + (outer + x * y) * z)
            by (nonlinear_arith);
    } else {
        assert(0 * c[m as int][j] == 0) by (nonlinear_arith);
    }
}

/// The first `m` terms of an entry of `product(a, b, mid)` times `c` are the
/// triple sum over all of `a` and `b` and the first `m` rows of `c`.
proof fn lemma_dot_of_product_left(
    a: Grid,
    b: Grid,
    c: Grid,
    mid: nat,
    i: int,
    j: int,
    m: nat,
)
    requires
        0 <= i < a.len(),
        m <= mid,
    ensures
        dot(product(a, b, mid), c, i, j, m) == nested(a, b, c, i, j, b.len(), m),
    decreases m,
{
    if m > 0 {
        lemma_dot_of_product_left(a, b, c, mid, i, j, (m - 1) as nat);
        lemma_nested_step(a, b, c, i, j, b.len(), (m - 1) as nat);
        assert(product(a, b, mid)[i][m - 1] == dot(a, b, i, m - 1, b.len()));
    } else {
        lemma_nested_empty(a, b, c, i, j, b.len());
    }
}

/// The first `n` terms of an entry of `a` times `product(b, c, cols)` are
/// the triple sum over the first `n` rows of `b` and all of `c`.
proof fn lemma_dot_of_product_right(
    a: Grid,
    b: Grid,
    c: Grid,
    cols: nat,
    i: int,
    j: int,
    n: nat,
)
    requires
        0 <= j < cols,
        n <= b.len(),
    ensures
        dot(a, product(b, c, cols), i, j, n) == nested(a, b, c, i, j, n, c.len()),
    decreases n,
{
    if n > 0 {
        lemma_dot_of_product_right(a, b, c, cols, i, j, (n - 1) as nat);
        assert(product(b, c, cols)[n - 1][j] == dot(b, c, n - 1, j, c.len()));
    }
}

/// The product is associative: three grids whose shapes chain give one
/// product, however it is bracketed.
pub proof fn lemma_product_is_associative(
    a: Grid,
    b: Grid,
    c: Grid,
    rows: nat,
    inner: nat,
    mid: nat,
    cols: nat,
)
    requires
        is_grid(a, rows, inner),
        is_grid(b, inner, mid),
        is_grid(c, mid, cols),
    ensures
        product(product(a, b, mid), c, cols) == product(a, product(b, c, cols), cols),
{
    let left = product(product(a, b, mid), c, cols);
    let right = product(a, product(b, c, cols), cols);
    assert forall|i: int, j: int| 0 <= i < rows && 0 <= j < cols implies #[trigger] left[i][j]
        == right[i][j] by {
        lemma_dot_of_product_left(a, b, c, mid, i, j, mid);
        lemma_dot_of_product_right(a, b, c, cols, i, j, inner);
    }
    assert(left =~~= right);
}

/// The identity matrix times a matrix can always be computed, and is that
/// matrix.
pub proof fn lemma_identity_times_matrix<C: Coefficient, const SIZE: usize, const COLS: usize>(
    unit: Matrix<C, SIZE, SIZE>,
    m: Matrix<C, SIZE, COLS>,
)
    requires
        unit.values() == identity(SIZE as nat),
    ensures
        unit.mul_req(m),
        unit.mul_spec(m) == m,
{
    m.lemma_values_are_a_grid();
    lemma_product_with_identity_on_the_left_fits::<C>(m.values(), SIZE as nat, COLS as nat);
    lemma_identity_is_left_neutral(m.values(), SIZE as nat, COLS as nat);
    Matrix::lemma_values_are_injective(unit.mul_spec(m), m);
}

/// A matrix times the identity matrix can always be computed, and is that
/// matrix.
pub proof fn lemma_matrix_times_identity<C: Coefficient, const ROWS: usize, const SIZE: usize>(
    m: Matrix<C, ROWS, SIZE>,
    unit: Matrix<C, SIZE, SIZE>,
)
    requires
        unit.values() == identity(SIZE as nat),
    ensures
        m.mul_req(unit),
        m.mul_spec(unit) == m,
{
    m.lemma_values_are_a_grid();
    lemma_product_with_identity_on_the_right_fits::<C>(m.values(), ROWS as nat, SIZE as nat);
    lemma_identity_is_right_neutral(m.values(), ROWS as nat, SIZE as nat);
    Matrix::lemma_values_are_injective(m.mul_spec(unit), m);
}

/// The nil matrix can always be added to a matrix, on either side, and the
/// sum is that matrix.
pub proof fn lemma_matrix_plus_nil<C: Coefficient, const SIZE: usize>(
    m: Matrix<C, SIZE, SIZE>,
    zero: Matrix<C, SIZE, SIZE>,
    total: Matrix<C, SIZE, SIZE>,
)
    requires
        zero.values() == nil(SIZE as nat),
        total.values() == sum(m.values(), zero.values()) || total.values() == sum(
            zero.values(),
            m.values(),
        ),
    ensures
        sum_fits::<C>(m.values(), zero.values()),
        sum_fits::<C>(zero.values(), m.values()),
        total == m,
{
    m.lemma_values_are_a_grid();
    lemma_sum_with_nil_fits::<C>(m.values(), SIZE as nat);
    lemma_nil_is_neutral(m.values(), SIZE as nat);
    Matrix::lemma_values_are_injective(total, m);
}

/// The product of three matrices does not depend on its bracketing: where
/// both ways have been computed, they gave one matrix.
pub proof fn lemma_matrix_product_is_associative<
    C: Coefficient,
    const ROWS: usize,
    const INNER: usize,
    const MID: usize,
    const COLS: usize,
>(
    a: Matrix<C, ROWS, INNER>,
    b: Matrix<C, INNER, MID>,
    c: Matrix<C, MID, COLS>,
    ab: Matrix<C, ROWS, MID>,
    bc: Matrix<C, INNER, COLS>,
    left: Matrix<C, ROWS, COLS>,
    right: Matrix<C, ROWS, COLS>,
)
    requires
        ab.values() == product(a.values(), b.values(), MID as nat),
        bc.values() == product(b.values(), c.values(), COLS as nat),
        left.values() == product(ab.values(), c.values(), COLS as nat),
        right.values() == product(a.values(), bc.values(), COLS as nat),
    ensures
        left == right,
{
    a.lemma_values_are_a_grid();
    b.lemma_values_are_a_grid();
    c.lemma_values_are_a_grid();
    lemma_product_is_associative(
        a.values(),
        b.values(),
        c.values(),
        ROWS as nat,
        INNER as nat,
        MID as nat,
        COLS as nat,
    );
    Matrix::lemma_values_are_injective(left, right);
}

/// The product of matrices distributes over the sum on its right: where
/// `a` times the sum of `b` and `c`, and the sum of `a` times `b` and `a`
/// times `c`, have both been computed, they gave one matrix.
pub proof fn lemma_matrix_product_distributes_on_the_left<
    C: Coefficient,
    const ROWS: usize,
    const INNER: usize,
    const COLS: usize,
>(
    a: Matrix<C, ROWS, INNER>,
    b: Matrix<C, INNER, COLS>,
    c: Matrix<C, INNER, COLS>,
    product_of_sum: Matrix<C, ROWS, COLS>,
    sum_of_products: Matrix<C, ROWS, COLS>,
)
    requires
        product_of_sum.values() == product(
            a.values(),
            sum(b.values(), c.values()),
            COLS as nat,
        ),
        sum_of_products.values() == sum(
            product(a.values(), b.values(), COLS as nat),
            product(a.values(), c.values(), COLS as nat),
        ),
    ensures
        product_of_sum == sum_of_products,
{
    a.lemma_values_are_a_grid();
    b.lemma_values_are_a_grid();
    c.lemma_values_are_a_grid();
    lemma_product_distributes_on_the_left(
        a.values(),
        b.values(),
        c.values(),
        ROWS as nat,
        INNER as nat,
        COLS as nat,
    );
    Matrix::lemma_values_are_injective(product_of_sum, sum_of_products);
}

/// The product of matrices distributes over the sum on its left: where the
/// sum of `a` and `b`, times `c`, and the sum of `a` times `c` and `b` times
/// `c`, have both been computed, they gave one matrix.
pub proof fn lemma_matrix_product_distributes_on_the_right<
    C: Coefficient,
    const ROWS: usize,
    const INNER: usize,
    const COLS: usize,
>(
    a: Matrix<C, ROWS, INNER>,
    b: Matrix<C, ROWS, INNER>,
    c: Matrix<C, INNER, COLS>,
    product_of_sum: Matrix<C, ROWS, COLS>,
    sum_of_products: Matrix<C, ROWS, COLS>,
)
    requires
        product_of_sum.values() == product(
            sum(a.values(), b.values()),
            c.values(),
            COLS as nat,
        ),
        sum_of_products.values() == sum(
            product(a.values(), c.values(), COLS as nat),
            product(b.values(), c.values(), COLS as nat),
        ),
    ensures
        product_of_sum == sum_of_products,
{
    a.lemma_values_are_a_grid();
    b.lemma_values_are_a_grid();
    c.lemma_values_are_a_grid();
    lemma_product_distributes_on_the_right(
        a.values(),
        b.values(),
        c.values(),
        ROWS as nat,
        INNER as nat,
        COLS as nat,
    );
    Matrix::lemma_values_are_injective(product_of_sum, sum_of_products);
}

} // verus!
