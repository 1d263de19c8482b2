use csuperlu::dense::{CDenseMat, CDenseRaw, DenseMatrix};
use csuperlu::error::Error;

/// This test checks that dropping a matrix as it
/// leaves scope does not cause memory leaks
#[test]
fn test_drop_leaks() {
    // Make a simple dense matrix
    let num_rows = 3;
    let num_cols = 3;
    // Note the matrix isn't what it looks like!
    let col_maj_vals = vec![1.0, 2.0, 3.0, 4.0, 5.0, 6.0, 7.0, 8.0, 9.0];

    let raw = CDenseRaw { num_rows, num_cols, col_maj_vals };

    // Create the matrix wrapper
    let _a = CDenseMat::from_raw(raw).expect("Failed to create matrix");
}

#[test]
fn test_dense_matrix() {
    // Make a simple dense matrix
    let num_rows = 3;
    let num_cols = 3;
    // Note the matrix isn't what it looks like!
    let col_maj_vals = vec![1.0, 2.0, 3.0, 4.0, 5.0, 6.0, 7.0, 8.0, 9.0];

    let raw = CDenseRaw { num_rows, num_cols, col_maj_vals };

    // Create the matrix wrapper
    let a = CDenseMat::from_raw(raw).expect("Failed to create matrix");

    // Check the size
    assert_eq!(a.num_cols(), 3);
    assert_eq!(a.num_rows(), 3);

    // Check the values

    // Get the vectors back out
    let CDenseRaw { num_rows, num_cols, col_maj_vals } = a.to_raw();

    // Check the vectors are all correct
    assert_eq!(num_rows, 3);
    assert_eq!(num_cols, 3);
    assert_eq!(col_maj_vals, vec![1.0, 2.0, 3.0, 4.0, 5.0, 6.0, 7.0, 8.0, 9.0]);
}

#[test]
fn dense_from_raw_rejects_wrong_length() {
    let raw = CDenseRaw { num_rows: 3, num_cols: 3, col_maj_vals: vec![1.0, 2.0] };
    assert_eq!(CDenseMat::<f64>::from_raw(raw).unwrap_err(), Error::DimensionMismatch);

    let raw = CDenseRaw { num_rows: 0, num_cols: 1, col_maj_vals: Vec::<f64>::new() };
    assert_eq!(CDenseMat::<f64>::from_raw(raw).unwrap_err(), Error::DimensionMismatch);
}

#[test]
fn dense_matrix_from_vectors_and_values() {
    // Column-major 2 x 3: columns are [1, 2], [3, 4], [5, 6]
    let m = DenseMatrix::from_vectors(2, 3, vec![1.0, 2.0, 3.0, 4.0, 5.0, 6.0]).unwrap();
    assert_eq!(m.num_rows(), 2);
    assert_eq!(m.num_columns(), 3);
    assert_eq!(m.value(0, 0).unwrap(), 1.0);
    assert_eq!(m.value(1, 0).unwrap(), 2.0);
    assert_eq!(m.value(0, 2).unwrap(), 5.0);
    assert_eq!(m.value(1, 2).unwrap(), 6.0);
    assert_eq!(m.value(2, 0).unwrap_err(), Error::IndexOutOfRange);
    assert_eq!(m.value(0, 3).unwrap_err(), Error::IndexOutOfRange);
    assert_eq!(m.column_major_values(), &vec![1.0, 2.0, 3.0, 4.0, 5.0, 6.0]);
}

#[test]
fn dense_matrix_rejects_wrong_length() {
    assert_eq!(
        DenseMatrix::from_vectors(2, 3, vec![1.0, 2.0, 3.0]).unwrap_err(),
        Error::DimensionMismatch
    );
    assert_eq!(
        DenseMatrix::from_vectors(0, 3, Vec::<f64>::new()).unwrap_err(),
        Error::DimensionMismatch
    );
}

#[test]
fn dense_matrix_into_vectors_round_trip() {
    let m = DenseMatrix::from_vectors(2, 2, vec![9.5, 8.5, 7.5, 6.5]).unwrap();
    let (rows, cols, vals) = m.into_vectors();
    assert_eq!(rows, 2);
    assert_eq!(cols, 2);
    assert_eq!(vals, vec![9.5, 8.5, 7.5, 6.5]);
}
