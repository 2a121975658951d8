use matrix::{Error, Matrix};

fn sample() -> Matrix<u8, 3, 3> {
    Matrix::from([[1, 2, 1], [3, 4, 1], [1, 5, 6]])
}

#[test]
fn nil_holds_zero_everywhere() {
    let nil: Matrix<u8, 2, 2> = Matrix::nil();
    assert_eq!(nil, [[0, 0], [0, 0]].into());
}

#[test]
fn identity_holds_one_on_the_diagonal() {
    let identity: Matrix<u8, 2, 2> = Matrix::identity();
    assert_eq!(identity, [[1, 0], [0, 1]].into());
}

#[test]
fn identity_of_size_three() {
    let identity: Matrix<i32, 3, 3> = Matrix::identity();
    assert_eq!(identity, [[1, 0, 0], [0, 1, 0], [0, 0, 1]].into());
}

#[test]
fn identity_of_size_one() {
    let identity: Matrix<i32, 1, 1> = Matrix::identity();
    assert_eq!(identity, [[1]].into());
}

#[test]
fn identity_and_nil_of_size_zero_are_empty() {
    let identity: Matrix<i32, 0, 0> = Matrix::identity();
    let nil: Matrix<i32, 0, 0> = Matrix::nil();
    assert_eq!(identity, nil);
    assert_eq!(identity.get_lines().count(), 0);
}

#[test]
fn permute_of_a_row_with_itself_changes_nothing() {
    let mut m = sample();
    assert_eq!(m.permute(1, 1), Ok(()));
    assert_eq!(m, sample());
}

#[test]
fn permute_of_the_outer_rows() {
    let mut m = sample();
    assert_eq!(m.permute(2, 0), Ok(()));
    assert_eq!(m, [[1, 5, 6], [3, 4, 1], [1, 2, 1]].into());
}

#[test]
fn permute_twice_gives_the_matrix_back() {
    let mut m = sample();
    m.permute(0, 2).unwrap();
    m.permute(0, 2).unwrap();
    assert_eq!(m, sample());
}

#[test]
fn permute_refuses_a_target_out_of_range() {
    let mut m = sample();
    assert_eq!(m.permute(0, 3), Err(Error::OutOfBounds));
    assert_eq!(m, sample());
}

#[test]
fn permute_refuses_a_source_out_of_range() {
    let mut m = sample();
    assert_eq!(m.permute(3, 3), Err(Error::OutOfBounds));
    assert_eq!(m, sample());
}

#[test]
fn permute_works_on_coefficients_that_are_no_numbers() {
    let mut m: Matrix<&str, 2, 2> = Matrix::from([["a", "b"], ["c", "d"]]);
    assert_eq!(m.permute(0, 1), Ok(()));
    assert_eq!(m, Matrix::from([["c", "d"], ["a", "b"]]));
}

#[test]
fn dilate_of_the_last_row() {
    let mut m = sample();
    assert_eq!(m.dilate(2, &10), Ok(()));
    assert_eq!(m, [[1, 2, 1], [3, 4, 1], [10, 50, 60]].into());
}

#[test]
fn dilate_by_zero_clears_the_row() {
    let mut m = sample();
    assert_eq!(m.dilate(0, &0), Ok(()));
    assert_eq!(m, [[0, 0, 0], [3, 4, 1], [1, 5, 6]].into());
}

#[test]
fn dilate_by_one_changes_nothing() {
    let mut m = sample();
    assert_eq!(m.dilate(1, &1), Ok(()));
    assert_eq!(m, sample());
}

#[test]
fn dilate_out_of_range_leaves_the_matrix_unchanged() {
    let mut m = sample();
    assert_eq!(m.dilate(4, &2), Err(Error::OutOfBounds));
    assert_eq!(m.dilate(3, &2), Err(Error::OutOfBounds));
    assert_eq!(m, sample());
}

#[test]
fn transvect_leaves_the_other_row_unchanged() {
    let mut m = sample();
    assert_eq!(m.transvect(0, 1), Ok(()));
    assert_eq!(m.get_line(0), Some(&[4, 6, 2]));
    assert_eq!(m.get_line(1), Some(&[3, 4, 1]));
    assert_eq!(m.get_line(2), Some(&[1, 5, 6]));
}

#[test]
fn transvect_of_a_later_row_with_an_earlier_one() {
    let mut m = sample();
    assert_eq!(m.transvect(2, 0), Ok(()));
    assert_eq!(m, [[1, 2, 1], [3, 4, 1], [2, 7, 7]].into());
}

#[test]
fn transvect_with_signed_coefficients() {
    let mut m: Matrix<i16, 2, 2> = Matrix::from([[1, -2], [-1, 2]]);
    assert_eq!(m.transvect(1, 0), Ok(()));
    assert_eq!(m, [[1, -2], [0, 0]].into());
}

#[test]
fn transvect_out_of_range_leaves_the_matrix_unchanged() {
    let mut m = sample();
    assert_eq!(m.transvect(0, 3), Err(Error::OutOfBounds));
    assert_eq!(m.transvect(3, 0), Err(Error::OutOfBounds));
    assert_eq!(m, sample());
}

#[test]
fn transvect_tests_the_range_before_the_combination() {
    let mut m = sample();
    assert_eq!(m.transvect(5, 5), Err(Error::OutOfBounds));
    assert_eq!(m, sample());
}

#[test]
fn transvect_of_a_row_with_itself_leaves_the_matrix_unchanged() {
    let mut m = sample();
    assert_eq!(m.transvect(2, 2), Err(Error::WrongOperation));
    assert_eq!(m, sample());
}

#[test]
fn message_of_out_of_bounds() {
    assert_eq!(Error::OutOfBounds.message(), "invalid row: out of bounds");
}

#[test]
fn message_of_wrong_operation() {
    assert_eq!(
        Error::WrongOperation.message(),
        "there is an operation better suited for this"
    );
}

#[test]
fn errors_compare_by_kind() {
    assert_eq!(Error::OutOfBounds, Error::OutOfBounds);
    assert_ne!(Error::OutOfBounds, Error::WrongOperation);
}
