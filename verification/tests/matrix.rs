use matrix_core::Matrix;
use matrix_core::MatrixError;

fn mat(rows: usize, cols: usize, values: &[f64]) -> Matrix {
    let bits: Vec<u64> = values.iter().map(|v| v.to_bits()).collect();
    Matrix::new(rows, cols, bits).unwrap()
}

fn values_of(m: &Matrix) -> Vec<f64> {
    m.to_array().iter().map(|b| f64::from_bits(*b)).collect()
}

#[test]
fn test_matrix_addition() {
    let matrix1 = mat(2, 2, &[1.0, 2.0, 3.0, 4.0]);
    let matrix2 = mat(2, 2, &[5.0, 6.0, 7.0, 8.0]);

    let result = matrix1.add(&matrix2).unwrap();

    assert_eq!(values_of(&result), vec![6.0, 8.0, 10.0, 12.0]);
}

#[test]
fn test_matrix_subtraction() {
    let matrix1 = mat(2, 2, &[5.0, 6.0, 7.0, 8.0]);
    let matrix2 = mat(2, 2, &[1.0, 2.0, 3.0, 4.0]);

    let result = matrix1.subtract(&matrix2).unwrap();

    assert_eq!(values_of(&result), vec![4.0, 4.0, 4.0, 4.0]);
}

#[test]
fn test_matrix_multiplication() {
    let matrix1 = mat(2, 2, &[1.0, 2.0, 3.0, 4.0]);
    let matrix2 = mat(2, 2, &[5.0, 6.0, 7.0, 8.0]);

    let result = matrix1.multiply(&matrix2).unwrap();

    assert_eq!(values_of(&result), vec![19.0, 22.0, 43.0, 50.0]);
}

#[test]
fn test_matrix_multiplication_2() {
    let matrix1 = mat(3, 2, &[1.0, 2.0, 3.0, 4.0, 5.0, 6.0]);
    let matrix2 = mat(2, 3, &[7.0, 8.0, 9.0, 10.0, 11.0, 12.0]);

    let result = matrix1.multiply(&matrix2).unwrap();

    assert_eq!(
        values_of(&result),
        vec![27.0, 30.0, 33.0, 61.0, 68.0, 75.0, 95.0, 106.0, 117.0]
    );
}

#[test]
fn new_succeeds_iff_length_is_rows_times_cols() {
    assert!(Matrix::new(2, 3, vec![0; 6]).is_ok());
    assert!(Matrix::new(0, 4, vec![]).is_ok());
    assert!(Matrix::new(3, 0, vec![]).is_ok());
    assert!(Matrix::new(0, 0, vec![]).is_ok());
    assert!(matches!(
        Matrix::new(2, 3, vec![0; 5]),
        Err(MatrixError::InvalidShape)
    ));
    assert!(matches!(
        Matrix::new(0, 4, vec![0; 1]),
        Err(MatrixError::InvalidShape)
    ));
    assert!(matches!(
        Matrix::new(usize::MAX, 2, vec![]),
        Err(MatrixError::InvalidShape)
    ));
}

#[test]
fn addition_with_zero_matrix_returns_same_values() {
    let a = mat(2, 3, &[1.5, -2.25, 3.0, 4.5, 0.5, -6.75]);
    let zero = mat(2, 3, &[0.0; 6]);

    let result = a.add(&zero).unwrap();

    assert_eq!(values_of(&result), values_of(&a));
}

#[test]
fn subtraction_undoes_addition_of_same_matrix() {
    let a = mat(2, 2, &[1.0, 2.5, -3.0, 4.25]);
    let b = mat(2, 2, &[5.0, -6.5, 7.0, 8.75]);

    let round_trip = a.add(&b).unwrap().subtract(&b).unwrap();

    assert_eq!(values_of(&round_trip), values_of(&a));
}

#[test]
fn multiplication_is_associative_on_small_integers() {
    let a = mat(2, 3, &[1.0, 2.0, 3.0, 4.0, 5.0, 6.0]);
    let b = mat(3, 2, &[7.0, 8.0, 9.0, 10.0, 11.0, 12.0]);
    let c = mat(2, 2, &[2.0, 0.0, 1.0, 3.0]);

    let left = a.multiply(&b).unwrap().multiply(&c).unwrap();
    let right = a.multiply(&b.multiply(&c).unwrap()).unwrap();

    assert_eq!(left.rows(), 2);
    assert_eq!(left.cols(), 2);
    assert_eq!(right.rows(), 2);
    assert_eq!(right.cols(), 2);
    assert_eq!(values_of(&left), values_of(&right));
}

#[test]
fn add_rejects_mismatched_shapes() {
    let a = mat(2, 2, &[1.0, 2.0, 3.0, 4.0]);
    let b = mat(2, 3, &[1.0, 2.0, 3.0, 4.0, 5.0, 6.0]);
    let c = mat(3, 2, &[1.0, 2.0, 3.0, 4.0, 5.0, 6.0]);

    assert!(matches!(a.add(&b), Err(MatrixError::DimensionMismatch)));
    assert!(matches!(a.add(&c), Err(MatrixError::DimensionMismatch)));
}

#[test]
fn subtract_rejects_mismatched_shapes() {
    let a = mat(2, 2, &[1.0, 2.0, 3.0, 4.0]);
    let b = mat(1, 4, &[1.0, 2.0, 3.0, 4.0]);

    assert!(matches!(
        a.subtract(&b),
        Err(MatrixError::DimensionMismatch)
    ));
}

#[test]
fn multiply_rejects_mismatched_inner_dimension() {
    let a = mat(2, 3, &[1.0, 2.0, 3.0, 4.0, 5.0, 6.0]);
    let b = mat(2, 2, &[1.0, 2.0, 3.0, 4.0]);

    assert!(matches!(
        a.multiply(&b),
        Err(MatrixError::DimensionMismatch)
    ));
}

#[test]
fn multiply_of_empty_shapes_gives_empty_result() {
    let a = mat(0, 2, &[]);
    let b = mat(2, 0, &[]);

    let result = a.multiply(&b).unwrap();

    assert_eq!(result.rows(), 0);
    assert_eq!(result.cols(), 0);
    assert!(result.to_array().is_empty());
}

#[test]
fn multiply_with_zero_inner_dimension_gives_zeros() {
    let a = mat(2, 0, &[]);
    let b = mat(0, 3, &[]);

    let result = a.multiply(&b).unwrap();

    assert_eq!(result.rows(), 2);
    assert_eq!(result.cols(), 3);
    assert_eq!(values_of(&result), vec![0.0; 6]);
}

#[test]
fn get_element_reads_row_major_positions() {
    let a = mat(2, 3, &[1.0, 2.0, 3.0, 4.0, 5.0, 6.0]);

    assert_eq!(a.get_element(0, 0).unwrap(), 1.0f64.to_bits());
    assert_eq!(a.get_element(0, 2).unwrap(), 3.0f64.to_bits());
    assert_eq!(a.get_element(1, 0).unwrap(), 4.0f64.to_bits());
    assert_eq!(a.get_element(1, 2).unwrap(), 6.0f64.to_bits());
}

#[test]
fn get_element_rejects_positions_past_the_end() {
    let a = mat(2, 3, &[1.0, 2.0, 3.0, 4.0, 5.0, 6.0]);

    assert!(matches!(
        a.get_element(2, 0),
        Err(MatrixError::IndexOutOfBounds)
    ));
    assert!(matches!(
        a.get_element(0, 3),
        Err(MatrixError::IndexOutOfBounds)
    ));
}

#[test]
fn is_empty_is_true_exactly_without_elements() {
    assert!(mat(0, 3, &[]).is_empty());
    assert!(mat(3, 0, &[]).is_empty());
    assert!(mat(0, 0, &[]).is_empty());
    assert!(!mat(1, 1, &[2.5]).is_empty());
}

#[test]
fn to_array_returns_an_independent_copy() {
    let a = mat(1, 2, &[1.0, 2.0]);

    let mut copy = a.to_array();
    copy[0] = 9.0f64.to_bits();

    assert_eq!(a.get_element(0, 0).unwrap(), 1.0f64.to_bits());
    assert_eq!(values_of(&a), vec![1.0, 2.0]);
}

#[test]
fn rows_and_cols_report_the_shape() {
    let a = mat(3, 2, &[1.0, 2.0, 3.0, 4.0, 5.0, 6.0]);

    assert_eq!(a.rows(), 3);
    assert_eq!(a.cols(), 2);
}
