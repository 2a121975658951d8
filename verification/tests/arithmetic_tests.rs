use matrix::Matrix;

#[test]
fn sum_adds_place_by_place() {
    let mut m: Matrix<i32, 2, 2> = Matrix::from([[1, -2], [3, 4]]);
    m += Matrix::from([[10, 20], [-30, 40]]);
    assert_eq!(m, Matrix::from([[11, 18], [-27, 44]]));
}

#[test]
fn sum_of_a_single_row() {
    let mut m: Matrix<u16, 1, 3> = Matrix::from([[1, 2, 3]]);
    m += Matrix::from([[100, 200, 300]]);
    assert_eq!(m, Matrix::from([[101, 202, 303]]));
}

#[test]
fn sum_reaches_the_largest_value() {
    let mut m: Matrix<u8, 1, 2> = Matrix::from([[200, 0]]);
    m += Matrix::from([[55, 255]]);
    assert_eq!(m, Matrix::from([[255, 255]]));
}

#[test]
fn multiple_scales_every_coefficient() {
    let mut m: Matrix<u8, 3, 2> = Matrix::from([[1, 2], [3, 4], [5, 6]]);
    m *= &3;
    assert_eq!(m, Matrix::from([[3, 6], [9, 12], [15, 18]]));
}

#[test]
fn multiple_by_zero_gives_zeros() {
    let mut m: Matrix<i64, 2, 2> = Matrix::from([[1, -2], [3, 4]]);
    m *= &0;
    assert_eq!(m, Matrix::from([[0, 0], [0, 0]]));
}

#[test]
fn multiple_by_a_negative_coefficient() {
    let mut m: Matrix<i8, 1, 3> = Matrix::from([[1, -2, 64]]);
    m *= &-2;
    assert_eq!(m, Matrix::from([[-2, 4, -128]]));
}

#[test]
fn product_of_square_matrices() {
    let left: Matrix<u8, 2, 2> = Matrix::from([[1, 2], [6, 7]]);
    let right: Matrix<u8, 2, 2> = Matrix::from([[3, 4], [5, 8]]);
    assert_eq!(left * right, Matrix::from([[13, 20], [53, 80]]));
}

#[test]
fn product_is_not_commutative() {
    let left: Matrix<u8, 2, 2> = Matrix::from([[1, 2], [6, 7]]);
    let right: Matrix<u8, 2, 2> = Matrix::from([[3, 4], [5, 8]]);
    assert_eq!(right.clone() * left.clone(), Matrix::from([[27, 34], [53, 66]]));
    assert_ne!(right.clone() * left.clone(), left * right);
}

#[test]
fn product_in_the_other_order_has_the_other_shape() {
    let left: Matrix<u8, 3, 2> = Matrix::from([[1, 2], [3, 4], [5, 6]]);
    let right: Matrix<u8, 2, 3> = Matrix::from([[9, 8, 7], [6, 5, 4]]);
    let forward: Matrix<u8, 3, 3> = left.clone() * right.clone();
    let backward: Matrix<u8, 2, 2> = right * left;
    assert_eq!(forward, Matrix::from([[21, 18, 15], [51, 44, 37], [81, 70, 59]]));
    assert_eq!(backward, Matrix::from([[68, 92], [41, 56]]));
}

#[test]
fn product_with_signed_coefficients() {
    let left: Matrix<i32, 1, 3> = Matrix::from([[1, -2, 3]]);
    let right: Matrix<i32, 3, 1> = Matrix::from([[4], [5], [-6]]);
    assert_eq!(left.clone() * right.clone(), Matrix::from([[-24]]));
    assert_eq!(
        right * left,
        Matrix::from([[4, -8, 12], [5, -10, 15], [-6, 12, -18]])
    );
}

#[test]
fn product_over_no_inner_index_is_nil() {
    let left: Matrix<u8, 2, 0> = Matrix::from([[], []]);
    let right: Matrix<u8, 0, 3> = Matrix::from([]);
    assert_eq!(left * right, Matrix::from([[0, 0, 0], [0, 0, 0]]));
}

#[test]
fn product_is_associative() {
    let a: Matrix<i64, 2, 3> = Matrix::from([[1, 2, 3], [-4, 5, 6]]);
    let b: Matrix<i64, 3, 2> = Matrix::from([[7, 8], [9, -10], [11, 12]]);
    let c: Matrix<i64, 2, 4> = Matrix::from([[1, 0, -2, 3], [4, 5, 6, -7]]);
    let left = (a.clone() * b.clone()) * c.clone();
    let right = a * (b * c);
    assert_eq!(left, right);
    assert_eq!(left, Matrix::from([[154, 120, 28, 6], [43, -50, -226, 319]]));
}

#[test]
fn product_distributes_over_the_sum_on_its_right() {
    let a: Matrix<i32, 2, 2> = Matrix::from([[1, 2], [3, 4]]);
    let b: Matrix<i32, 2, 2> = Matrix::from([[5, 6], [7, 8]]);
    let c: Matrix<i32, 2, 2> = Matrix::from([[-1, 0], [2, -3]]);
    let mut sum = b.clone();
    sum += c.clone();
    let mut expected = a.clone() * b;
    expected += a.clone() * c;
    assert_eq!(a * sum, expected);
    assert_eq!(expected, Matrix::from([[22, 16], [48, 38]]));
}

#[test]
fn product_distributes_over_the_sum_on_its_left() {
    let a: Matrix<i32, 2, 2> = Matrix::from([[1, 2], [3, 4]]);
    let b: Matrix<i32, 2, 2> = Matrix::from([[5, 6], [7, 8]]);
    let c: Matrix<i32, 2, 2> = Matrix::from([[-1, 0], [2, -3]]);
    let mut sum = a.clone();
    sum += b.clone();
    let mut expected = a * c.clone();
    expected += b * c.clone();
    assert_eq!(sum * c, expected);
    assert_eq!(expected, Matrix::from([[10, -24], [14, -36]]));
}

#[test]
fn identity_of_size_two_is_neutral_on_both_sides() {
    let m: Matrix<u8, 2, 2> = Matrix::from([[1, 2], [6, 7]]);
    assert_eq!(Matrix::<u8, 2, 2>::identity() * m.clone(), m);
    assert_eq!(m.clone() * Matrix::<u8, 2, 2>::identity(), m);
}

#[test]
fn identity_of_size_three_is_neutral_on_both_sides() {
    let m: Matrix<u8, 3, 3> = Matrix::from([[1, 2, 1], [3, 4, 1], [1, 5, 6]]);
    assert_eq!(Matrix::<u8, 3, 3>::identity() * m.clone(), m);
    assert_eq!(m.clone() * Matrix::<u8, 3, 3>::identity(), m);
}

#[test]
fn identity_is_neutral_for_matrices_that_are_not_square() {
    let m: Matrix<u8, 3, 2> = Matrix::from([[255, 2], [3, 255], [5, 6]]);
    assert_eq!(Matrix::<u8, 3, 3>::identity() * m.clone(), m);
    assert_eq!(m.clone() * Matrix::<u8, 2, 2>::identity(), m);
}

#[test]
fn nil_is_neutral_for_the_sum() {
    let m: Matrix<u8, 3, 3> = Matrix::from([[1, 2, 1], [3, 255, 1], [1, 5, 6]]);
    let mut left = Matrix::<u8, 3, 3>::nil();
    left += m.clone();
    assert_eq!(left, m);
    let mut right = m.clone();
    right += Matrix::<u8, 3, 3>::nil();
    assert_eq!(right, m);
}
