use linear_algebra::error::LinAlgError;
use linear_algebra::matrix::matrix_product;
use linear_algebra::matrix::Matrix;

fn two_by_three() -> Matrix {
    Matrix::new(vec![vec![2, 4, -3], vec![21, -6, -1]]).unwrap()
}

#[test]
fn shape_of_two_by_three() {
    let m = two_by_three();
    assert_eq!(m.rows(), 2);
    assert_eq!(m.columns(), Ok(3));
}

#[test]
fn rows_of_empty_matrix_is_zero() {
    let m = Matrix::new(vec![]).unwrap();
    assert_eq!(m.rows(), 0);
}

#[test]
fn columns_of_empty_matrix_is_invalid_shape() {
    let m = Matrix::new(vec![]).unwrap();
    assert_eq!(m.columns(), Err(LinAlgError::InvalidShape));
}

#[test]
fn new_rejects_ragged_rows() {
    assert!(matches!(
        Matrix::new(vec![vec![1, 2], vec![3]]),
        Err(LinAlgError::InvalidShape)
    ));
}

#[test]
fn vector_product_concrete() {
    let m = two_by_three();
    let v: Vec<i64> = vec![2, 4, -3];
    assert_eq!(m.vector_product(&v), Ok(vec![29, 21]));
}

#[test]
fn vector_product_length_is_row_count() {
    let m = two_by_three();
    let v: Vec<i64> = vec![1, 1, 1];
    assert_eq!(m.vector_product(&v).unwrap().len(), m.rows());
}

#[test]
fn vector_product_one_by_one() {
    let m = Matrix::new(vec![vec![7]]).unwrap();
    let v: Vec<i64> = vec![5];
    assert_eq!(m.vector_product(&v), Ok(vec![35]));
}

#[test]
fn vector_product_rejects_mismatch() {
    let m = Matrix::new(vec![vec![1, 2], vec![3, 4]]).unwrap();
    let v: Vec<i64> = vec![1, 2, 3];
    assert_eq!(m.vector_product(&v), Err(LinAlgError::DimensionMismatch));
}

#[test]
fn vector_product_of_empty_matrix_is_invalid_shape() {
    let m = Matrix::new(vec![]).unwrap();
    let v: Vec<i64> = vec![1, 2];
    assert_eq!(m.vector_product(&v), Err(LinAlgError::InvalidShape));
}

#[test]
fn matrix_product_concrete() {
    let m = two_by_three();
    let u: Vec<i64> = vec![21, -6];
    assert_eq!(matrix_product(&u, &m), Ok(vec![-84, 120, -57]));
}

#[test]
fn matrix_product_rejects_mismatch() {
    let m = two_by_three();
    let u: Vec<i64> = vec![1, 2, 3];
    assert_eq!(matrix_product(&u, &m), Err(LinAlgError::DimensionMismatch));
}

#[test]
fn matrix_product_of_empty_matrix_is_invalid_shape() {
    let m = Matrix::new(vec![]).unwrap();
    let u: Vec<i64> = vec![];
    assert_eq!(matrix_product(&u, &m), Err(LinAlgError::InvalidShape));
}
