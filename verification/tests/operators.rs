use reural_network::Dimension;
use reural_network::Error;
use reural_network::Matrix;
use reural_network::Result;

fn matrix_2x3<T: Copy>(data: &[T]) -> Matrix<T> {
    Matrix::from_slice(Dimension::new(2).unwrap(), Dimension::new(3).unwrap(), data).unwrap()
}

/// Test adding two matrices element-wise.
#[test]
fn element_wise_add() {
    let matrix: Matrix<f64> = matrix_2x3(&[0.25, 1.33, -0.1, 1.0, -2.73, 1.2]);
    let other: Matrix<f64> = matrix_2x3(&[0.25, 1.33, -0.1, 1.0, -2.73, 1.2]);

    let result: Matrix<f64> = matrix.add(&other).unwrap();
    assert_eq!(result.as_slice(), [0.5, 2.66, -0.2, 2.0, -5.46, 2.4]);
}

/// Test subtracting a matrix element-wise.
#[test]
fn element_wise_sub() {
    let matrix: Matrix<f64> = matrix_2x3(&[0.25, 1.0, -0.1, 1.0, -2.73, 1.3]);
    let other: Matrix<f64> = matrix_2x3(&[0.25, 0.4, 0.1, -1.0, -2.0, 3.6]);

    let result: Matrix<f64> = matrix.sub(&other).unwrap();
    assert_eq!(result.as_slice(), [0.0, 0.6, -0.2, 2.0, -0.73, -2.3]);
}

/// Test multiplying two matrices element-wise.
#[test]
fn element_wise_mul() {
    let matrix: Matrix<f64> = matrix_2x3(&[0.25, 1.0, -0.3, -1.0, 2.73, 1.2]);
    let other: Matrix<f64> = matrix_2x3(&[2.0, 0.25, -0.3, 2.0, -2.0, 1.2]);

    let result: Matrix<f64> = matrix.mul(&other).unwrap();
    assert_eq!(result.as_slice(), [0.5, 0.25, 0.09, -2.0, -5.46, 1.44]);
}

/// Test dividing a matrix element-wise.
#[test]
fn element_wise_div() {
    let matrix: Matrix<f64> = matrix_2x3(&[1.0, 1.33, -0.1, 4.0, -2.73, 4.0]);
    let other: Matrix<f64> = matrix_2x3(&[2.0, 1.33, -4.0, -2.0, 2.73, 0.1]);

    let result: Matrix<f64> = matrix.div(&other).unwrap();
    assert_eq!(result.as_slice(), [0.5, 1.0, 0.025, -2.0, -1.0, 40.0]);
}

/// Test taking element-wise remainders.
#[test]
fn element_wise_rem() {
    let matrix: Matrix<i64> = matrix_2x3(&[2, 6, -3, 5, 5, -10]);
    let other: Matrix<i64> = matrix_2x3(&[1, 4, 2, -4, 6, -2]);

    let result: Matrix<i64> = matrix.rem(&other).unwrap();
    assert_eq!(result.as_slice(), [0, 2, -1, 1, 5, 0]);
}

/// Test combining two matrices with a bitwise AND.
#[test]
fn element_wise_bitand() {
    let matrix: Matrix<u8> = matrix_2x3(&[7, 0, 1, 3, 5, 9]);
    let other: Matrix<u8> = matrix_2x3(&[4, 15, 1, 6, 5, 7]);

    let result: Matrix<u8> = matrix.bitand(&other).unwrap();
    assert_eq!(result.as_slice(), [4, 0, 1, 2, 5, 1]);
}

/// Test combining two matrices with a bitwise OR.
#[test]
fn element_wise_bitor() {
    let matrix: Matrix<u8> = matrix_2x3(&[7, 0, 1, 3, 5, 9]);
    let other: Matrix<u8> = matrix_2x3(&[4, 15, 1, 6, 5, 7]);

    let result: Matrix<u8> = matrix.bitor(&other).unwrap();
    assert_eq!(result.as_slice(), [7, 15, 1, 7, 5, 15]);
}

/// Test combining two matrices with a bitwise XOR.
#[test]
fn element_wise_bitxor() {
    let matrix: Matrix<u8> = matrix_2x3(&[7, 0, 1, 3, 5, 9]);
    let other: Matrix<u8> = matrix_2x3(&[4, 15, 1, 6, 5, 7]);

    let result: Matrix<u8> = matrix.bitxor(&other).unwrap();
    assert_eq!(result.as_slice(), [3, 15, 0, 5, 0, 14]);
}

/// Test shifting a matrix left element-wise.
#[test]
fn element_wise_shl() {
    let matrix: Matrix<u8> = matrix_2x3(&[7, 0, 1, 5, 6, 3]);
    let other: Matrix<u8> = matrix_2x3(&[1, 5, 5, 0, 2, 3]);

    let result: Matrix<u8> = matrix.shl(&other).unwrap();
    assert_eq!(result.as_slice(), [14, 0, 32, 5, 24, 24]);
}

/// Test shifting a matrix right element-wise.
#[test]
fn element_wise_shr() {
    let matrix: Matrix<u8> = matrix_2x3(&[7, 0, 1, 5, 6, 15]);
    let other: Matrix<u8> = matrix_2x3(&[1, 5, 5, 2, 2, 3]);

    let result: Matrix<u8> = matrix.shr(&other).unwrap();
    assert_eq!(result.as_slice(), [3, 0, 0, 1, 1, 1]);
}

/// Test that an element-wise operation on matrices of different dimensions
/// fails with a dimension mismatch.
#[test]
fn element_wise_dimension_mismatch() {
    let matrix: Matrix<i64> = matrix_2x3(&[1, 2, 3, 4, 5, 6]);
    let other: Matrix<i64> =
        Matrix::from_slice(Dimension::new(3).unwrap(), Dimension::new(2).unwrap(), &[1, 2, 3, 4, 5, 6])
            .unwrap();

    let result: Result<Matrix<i64>> = matrix.add(&other);
    assert!(
        matches!(result, Err(Error::DimensionMismatch)),
        "Expected error Error::DimensionMismatch not satisfied."
    );
}

/// Test that element-wise adding a matrix and then element-wise subtracting
/// it again restores the original matrix.
#[test]
fn add_then_sub_restores_matrix() {
    let matrix: Matrix<i64> = matrix_2x3(&[25, 133, -1, 1, -273, 12]);
    let other: Matrix<i64> = matrix_2x3(&[13, -7, 1000, -1, 273, 0]);

    let sum: Matrix<i64> = matrix.add(&other).unwrap();
    let difference: Matrix<i64> = sum.sub(&other).unwrap();
    assert_eq!(difference.as_slice(), matrix.as_slice());
}

/// Test the scalar `add` operation.
#[test]
fn scalar_add() {
    let matrix: Matrix<i8> = matrix_2x3(&[7, 5, -6, 0, 3, 1]);

    let result: Matrix<i8> = matrix.add_scalar(42);
    assert_eq!(result.as_slice(), [49, 47, 36, 42, 45, 43]);
}

/// Test the scalar `sub` operation.
#[test]
fn scalar_sub() {
    let matrix: Matrix<i8> = matrix_2x3(&[5, 1, -10, -2, 25, 13]);

    let result: Matrix<i8> = matrix.sub_scalar(3);
    assert_eq!(result.as_slice(), [2, -2, -13, -5, 22, 10]);
}

/// Test the scalar `mul` operation.
#[test]
fn scalar_mul() {
    let matrix: Matrix<i64> = matrix_2x3(&[25, 1, -3, -1, 2, 1]);

    let result: Matrix<i64> = matrix.mul_scalar(2);
    assert_eq!(result.as_slice(), [50, 2, -6, -2, 4, 2]);
}

/// Test the scalar `div` operation.
#[test]
fn scalar_div() {
    let matrix: Matrix<i8> = matrix_2x3(&[4, 2, -6, 4, -10, 80]);

    let result: Matrix<i8> = matrix.div_scalar(2);
    assert_eq!(result.as_slice(), [2, 1, -3, 2, -5, 40]);
}

/// Test the scalar `rem` operation.
#[test]
fn scalar_rem() {
    let matrix: Matrix<i64> = matrix_2x3(&[2, 6, -3, 5, -5, -10]);

    let result: Matrix<i64> = matrix.rem_scalar(4);
    assert_eq!(result.as_slice(), [2, 2, -3, 1, -1, -2]);
}

/// Test the scalar `bitand` operation.
#[test]
fn scalar_bitand() {
    let matrix: Matrix<u8> = matrix_2x3(&[7, 0, 1, 3, 5, 9]);

    let result: Matrix<u8> = matrix.bitand_scalar(4);
    assert_eq!(result.as_slice(), [4, 0, 0, 0, 4, 0]);
}

/// Test the scalar `bitor` operation.
#[test]
fn scalar_bitor() {
    let matrix: Matrix<u8> = matrix_2x3(&[7, 0, 1, 3, 5, 9]);

    let result: Matrix<u8> = matrix.bitor_scalar(4);
    assert_eq!(result.as_slice(), [7, 4, 5, 7, 5, 13]);
}

/// Test the scalar `bitxor` operation.
#[test]
fn scalar_bitxor() {
    let matrix: Matrix<u8> = matrix_2x3(&[7, 0, 1, 3, 5, 9]);

    let result: Matrix<u8> = matrix.bitxor_scalar(4);
    assert_eq!(result.as_slice(), [3, 4, 5, 7, 1, 13]);
}

/// Test the scalar `shl` operation.
#[test]
fn scalar_shl() {
    let matrix: Matrix<u8> = matrix_2x3(&[7, 0, 1, 5, 6, 3]);

    let result: Matrix<u8> = matrix.shl_scalar(2);
    assert_eq!(result.as_slice(), [28, 0, 4, 20, 24, 12]);
}

/// Test the scalar `shr` operation.
#[test]
fn scalar_shr() {
    let matrix: Matrix<u8> = matrix_2x3(&[7, 0, 1, 5, 6, 15]);

    let result: Matrix<u8> = matrix.shr_scalar(1);
    assert_eq!(result.as_slice(), [3, 0, 0, 2, 3, 7]);
}

/// Test the in-place scalar `add` operation.
#[test]
fn scalar_add_assign() {
    let mut matrix: Matrix<i64> = matrix_2x3(&[25, 133, -1, 1, -273, 12]);

    matrix.add_assign_scalar(13);
    assert_eq!(matrix.as_slice(), [38, 146, 12, 14, -260, 25]);
}

/// Test the in-place scalar `sub` operation.
#[test]
fn scalar_sub_assign() {
    let mut matrix: Matrix<i64> = matrix_2x3(&[25, 1, -25, 0, -273, 13]);

    matrix.sub_assign_scalar(25);
    assert_eq!(matrix.as_slice(), [0, -24, -50, -25, -298, -12]);
}

/// Test the in-place scalar `mul` operation.
#[test]
fn scalar_mul_assign() {
    let mut matrix: Matrix<i64> = matrix_2x3(&[25, 10, -3, -1, 0, 12]);

    matrix.mul_assign_scalar(2);
    assert_eq!(matrix.as_slice(), [50, 20, -6, -2, 0, 24]);
}

/// Test the in-place scalar `div` operation.
#[test]
fn scalar_div_assign() {
    let mut matrix: Matrix<i64> = matrix_2x3(&[10, 130, -10, 4, -46, 0]);

    matrix.div_assign_scalar(2);
    assert_eq!(matrix.as_slice(), [5, 65, -5, 2, -23, 0]);
}

/// Test the in-place scalar `rem` operation.
#[test]
fn scalar_rem_assign() {
    let mut matrix: Matrix<i64> = matrix_2x3(&[2, 6, -3, 5, -5, -10]);

    matrix.rem_assign_scalar(4);
    assert_eq!(matrix.as_slice(), [2, 2, -3, 1, -1, -2]);
}

/// Test the in-place scalar `bitand` operation.
#[test]
fn scalar_bitand_assign() {
    let mut matrix: Matrix<u8> = matrix_2x3(&[7, 0, 1, 3, 5, 9]);

    matrix.bitand_assign_scalar(4);
    assert_eq!(matrix.as_slice(), [4, 0, 0, 0, 4, 0]);
}

/// Test the in-place scalar `bitor` operation.
#[test]
fn scalar_bitor_assign() {
    let mut matrix: Matrix<u8> = matrix_2x3(&[7, 0, 1, 3, 5, 9]);

    matrix.bitor_assign_scalar(4);
    assert_eq!(matrix.as_slice(), [7, 4, 5, 7, 5, 13]);
}

/// Test the in-place scalar `bitxor` operation.
#[test]
fn scalar_bitxor_assign() {
    let mut matrix: Matrix<u8> = matrix_2x3(&[7, 0, 1, 3, 5, 9]);

    matrix.bitxor_assign_scalar(4);
    assert_eq!(matrix.as_slice(), [3, 4, 5, 7, 1, 13]);
}

/// Test the in-place scalar `shl` operation.
#[test]
fn scalar_shl_assign() {
    let mut matrix: Matrix<u8> = matrix_2x3(&[7, 0, 1, 5, 6, 3]);

    matrix.shl_assign_scalar(2);
    assert_eq!(matrix.as_slice(), [28, 0, 4, 20, 24, 12]);
}

/// Test the in-place scalar `shr` operation.
#[test]
fn scalar_shr_assign() {
    let mut matrix: Matrix<u8> = matrix_2x3(&[7, 0, 1, 5, 6, 15]);

    matrix.shr_assign_scalar(1);
    assert_eq!(matrix.as_slice(), [3, 0, 0, 2, 3, 7]);
}

/// Test negating a matrix.
#[test]
fn unary_neg() {
    let matrix: Matrix<f64> = matrix_2x3(&[0.25, 1.33, -0.1, 0.0, -2.73, 1.2]);

    let result: Matrix<f64> = matrix.neg();
    assert_eq!(result.as_slice(), [-0.25, -1.33, 0.1, 0.0, 2.73, -1.2]);
}

/// Test logically negating a matrix.
#[test]
fn unary_not() {
    let matrix: Matrix<bool> = matrix_2x3(&[true, true, false, false, true, false]);

    let result: Matrix<bool> = matrix.not();
    assert_eq!(result.as_slice(), [false, false, true, true, false, true]);
}
