use linear_algebra::error::LinAlgError;
use linear_algebra::vector::difference;
use linear_algebra::vector::elementwise_product;
use linear_algebra::vector::scale;
use linear_algebra::vector::sum;

#[test]
fn sum_of_equal_length_vectors() {
    let v: Vec<i64> = vec![21, -6, -1];
    let w: Vec<i64> = vec![2, 4, -3];
    assert_eq!(sum(&v, &w), Ok(vec![23, -2, -4]));
}

#[test]
fn sum_is_elementwise() {
    let x: Vec<i64> = vec![1, 2, 3];
    let y: Vec<i64> = vec![10, 20, 30];
    let s = sum(&x, &y).unwrap();
    for i in 0..3 {
        assert_eq!(s[i], x[i] + y[i]);
    }
}

#[test]
fn sum_is_commutative_on_concrete_values() {
    let x: Vec<i64> = vec![5, -7, 0, 12];
    let y: Vec<i64> = vec![-3, 8, 9, -12];
    assert_eq!(sum(&x, &y), sum(&y, &x));
}

#[test]
fn sum_rejects_unequal_lengths() {
    let x: Vec<i64> = vec![1, 2];
    let y: Vec<i64> = vec![1, 2, 3];
    assert_eq!(sum(&x, &y), Err(LinAlgError::DimensionMismatch));
}

#[test]
fn difference_of_equal_length_vectors() {
    let v: Vec<i64> = vec![21, -6, -1];
    let w: Vec<i64> = vec![2, 4, -3];
    assert_eq!(difference(&v, &w), Ok(vec![19, -10, 2]));
}

#[test]
fn difference_is_elementwise() {
    let x: Vec<i64> = vec![1, 2, 3];
    let y: Vec<i64> = vec![30, 20, 10];
    let d = difference(&x, &y).unwrap();
    for i in 0..3 {
        assert_eq!(d[i], x[i] - y[i]);
    }
}

#[test]
fn difference_is_antisymmetric_on_concrete_values() {
    let v: Vec<i64> = vec![21, -6, -1];
    let w: Vec<i64> = vec![2, 4, -3];
    let forward = difference(&v, &w).unwrap();
    let backward = difference(&w, &v).unwrap();
    assert_eq!(forward, scale(&backward, -1));
}

#[test]
fn difference_rejects_unequal_lengths() {
    let x: Vec<i64> = vec![1, 2, 3];
    let y: Vec<i64> = vec![1, 2];
    assert_eq!(difference(&x, &y), Err(LinAlgError::DimensionMismatch));
}

#[test]
fn scale_by_ten() {
    let v: Vec<i64> = vec![21, -6, -1];
    assert_eq!(scale(&v, 10), vec![210, -60, -10]);
}

#[test]
fn scale_by_one_is_identity() {
    let v: Vec<i64> = vec![21, -6, -1, 0, 7];
    assert_eq!(scale(&v, 1), v);
}

#[test]
fn scale_by_zero_is_all_zeros() {
    let v: Vec<i64> = vec![21, -6, -1, 0, 7];
    assert_eq!(scale(&v, 0), vec![0, 0, 0, 0, 0]);
}

#[test]
fn scale_of_empty_vector_is_empty() {
    let v: Vec<i64> = vec![];
    assert_eq!(scale(&v, 10), Vec::<i64>::new());
}

#[test]
fn elementwise_product_of_equal_length_vectors() {
    let v: Vec<i64> = vec![2, 4, -3];
    let w: Vec<i64> = vec![21, -6, -1];
    assert_eq!(elementwise_product(&v, &w), Ok(vec![42, -24, 3]));
}

#[test]
fn elementwise_product_rejects_unequal_lengths() {
    let x: Vec<i64> = vec![1];
    let y: Vec<i64> = vec![1, 2];
    assert_eq!(elementwise_product(&x, &y), Err(LinAlgError::DimensionMismatch));
}
