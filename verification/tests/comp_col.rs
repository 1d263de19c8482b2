use csuperlu::comp_col::CompColMatrix;
use csuperlu::error::Error;
use csuperlu::options::{Mtype_t, Stype_t};
use csuperlu::value_type::ValueType;

/// The five-by-five example matrix, over exactly representable values.
fn example_matrix() -> CompColMatrix<i64> {
    // Matrix elements
    let s: i64 = 19;
    let u: i64 = 21;
    let p: i64 = 16;
    let e: i64 = 5;
    let r: i64 = 18;
    let l: i64 = 12;

    // Vector of values of length nnz
    let non_zero_values = vec![s, l, l, u, l, l, u, p, u, e, u, r];

    // Vector of ints of length nnz
    let row_indices = vec![0, 1, 4, 1, 2, 4, 0, 2, 0, 3, 3, 4];

    // Vector of ints of length num_columns + 1
    let column_offsets = vec![0, 3, 6, 8, 10, 12];

    CompColMatrix::from_vectors(5, non_zero_values, row_indices, column_offsets).unwrap()
}

#[test]
fn comp_col_matrix_values() {
    // Matrix dimensions
    let num_rows = 5usize;

    // Matrix elements
    let s: i64 = 19;
    let u: i64 = 21;
    let p: i64 = 16;
    let e: i64 = 5;
    let r: i64 = 18;
    let l: i64 = 12;

    // Vector of values of length nnz
    let non_zero_values = vec![s, l, l, u, l, l, u, p, u, e, u, r];

    // Vector of ints of length nnz
    let row_indices = vec![0, 1, 4, 1, 2, 4, 0, 2, 0, 3, 3, 4];

    // Vector of ints of length num_columns + 1
    let column_offsets = vec![0, 3, 6, 8, 10, 12];

    // Make the left-hand side matrix
    let a = CompColMatrix::from_vectors(num_rows, non_zero_values, row_indices, column_offsets)
        .unwrap();

    // Check non-zero matrix values
    assert_eq!(a.value(0, 0).unwrap(), s);
    assert_eq!(a.value(0, 2).unwrap(), u);
    assert_eq!(a.value(0, 3).unwrap(), u);
    assert_eq!(a.value(1, 0).unwrap(), l);
    assert_eq!(a.value(1, 1).unwrap(), u);
    assert_eq!(a.value(2, 1).unwrap(), l);
    assert_eq!(a.value(2, 2).unwrap(), p);
    assert_eq!(a.value(3, 3).unwrap(), e);
    assert_eq!(a.value(3, 4).unwrap(), u);
    assert_eq!(a.value(4, 0).unwrap(), l);
    assert_eq!(a.value(4, 1).unwrap(), l);
    assert_eq!(a.value(4, 4).unwrap(), r);

    // Check (identically) zero matrix values
    assert_eq!(a.value(0, 1).unwrap(), 0);
    assert_eq!(a.value(0, 4).unwrap(), 0);
    assert_eq!(a.value(1, 2).unwrap(), 0);
    assert_eq!(a.value(1, 3).unwrap(), 0);
    assert_eq!(a.value(1, 4).unwrap(), 0);
    assert_eq!(a.value(2, 0).unwrap(), 0);
    assert_eq!(a.value(2, 3).unwrap(), 0);
    assert_eq!(a.value(2, 4).unwrap(), 0);
    assert_eq!(a.value(3, 0).unwrap(), 0);
    assert_eq!(a.value(3, 1).unwrap(), 0);
    assert_eq!(a.value(3, 2).unwrap(), 0);
    assert_eq!(a.value(4, 2).unwrap(), 0);
    assert_eq!(a.value(4, 3).unwrap(), 0);
}

#[test]
fn comp_col_value_out_of_range() {
    let a = example_matrix();
    assert_eq!(a.value(5, 0).unwrap_err(), Error::IndexOutOfRange);
    assert_eq!(a.value(0, 5).unwrap_err(), Error::IndexOutOfRange);
}

#[test]
fn comp_col_accessors() {
    let a = example_matrix();
    assert_eq!(a.num_rows(), 5);
    assert_eq!(a.num_columns(), 5);
    assert_eq!(a.row_indices(), &vec![0, 1, 4, 1, 2, 4, 0, 2, 0, 3, 3, 4]);
    assert_eq!(a.column_offsets(), &vec![0, 3, 6, 8, 10, 12]);
    assert_eq!(a.non_zero_values().len(), 12);
    let (num_rows, vals, rows, offs) = a.into_vectors();
    assert_eq!(num_rows, 5);
    assert_eq!(vals, vec![19, 12, 12, 21, 12, 12, 21, 16, 21, 5, 21, 18]);
    assert_eq!(rows, vec![0, 1, 4, 1, 2, 4, 0, 2, 0, 3, 3, 4]);
    assert_eq!(offs, vec![0, 3, 6, 8, 10, 12]);
}

#[test]
fn from_vectors_rejects_offsets_not_ending_at_nnz() {
    let r = CompColMatrix::from_vectors(
        5,
        vec![1i64, 2, 3],
        vec![0, 1, 2],
        vec![0, 1, 2, 4],
    );
    assert_eq!(r.unwrap_err(), Error::MalformedSparseLayout);
}

#[test]
fn from_vectors_rejects_decreasing_offsets() {
    let r = CompColMatrix::from_vectors(3, vec![1i64, 2], vec![0, 1], vec![0, 2, 1, 2]);
    assert_eq!(r.unwrap_err(), Error::MalformedSparseLayout);
}

#[test]
fn from_vectors_rejects_row_index_out_of_bounds() {
    let r = CompColMatrix::from_vectors(2, vec![1i64, 2], vec![0, 2], vec![0, 1, 2]);
    assert_eq!(r.unwrap_err(), Error::MalformedSparseLayout);
    let r = CompColMatrix::from_vectors(2, vec![1i64], vec![-1], vec![0, 1, 1]);
    assert_eq!(r.unwrap_err(), Error::MalformedSparseLayout);
}

#[test]
fn from_vectors_rejects_unsorted_rows_within_column() {
    let r = CompColMatrix::from_vectors(3, vec![1i64, 2], vec![2, 0], vec![0, 2, 2, 2]);
    assert_eq!(r.unwrap_err(), Error::MalformedSparseLayout);
    // A repeated row index in one column is rejected too
    let r = CompColMatrix::from_vectors(3, vec![1i64, 2], vec![1, 1], vec![0, 2, 2, 2]);
    assert_eq!(r.unwrap_err(), Error::MalformedSparseLayout);
}

#[test]
fn from_vectors_rejects_length_mismatch() {
    let r = CompColMatrix::from_vectors(2, vec![1i64, 2], vec![0], vec![0, 1, 2]);
    assert_eq!(r.unwrap_err(), Error::MalformedSparseLayout);
    let r = CompColMatrix::from_vectors(0, Vec::<i64>::new(), vec![], vec![0, 0]);
    assert_eq!(r.unwrap_err(), Error::MalformedSparseLayout);
}

#[test]
fn from_vectors_accepts_empty_matrix() {
    let a = CompColMatrix::from_vectors(2, Vec::<i64>::new(), vec![], vec![0, 0, 0]).unwrap();
    assert_eq!(a.value(0, 0).unwrap(), 0);
    assert_eq!(a.value(1, 1).unwrap(), 0);
}

#[test]
fn new_validates_counts_and_tags() {
    let a = CompColMatrix::new(
        2,
        2,
        2,
        vec![4i64, 9],
        vec![0, 1],
        vec![0, 1, 2],
        Stype_t::SLU_NC,
        Mtype_t::SLU_GE,
    )
    .unwrap();
    assert_eq!(a.value(0, 0).unwrap(), 4);
    assert_eq!(a.value(1, 1).unwrap(), 9);
    assert_eq!(a.value(1, 0).unwrap(), 0);

    // nnz disagreeing with the value vector is rejected
    let r = CompColMatrix::new(
        2,
        2,
        1,
        vec![4i64, 9],
        vec![0, 1],
        vec![0, 1, 2],
        Stype_t::SLU_NC,
        Mtype_t::SLU_GE,
    );
    assert_eq!(r.unwrap_err(), Error::MalformedSparseLayout);

    // a dense storage tag is not a compressed-column matrix
    let r = CompColMatrix::new(
        2,
        2,
        2,
        vec![4i64, 9],
        vec![0, 1],
        vec![0, 1, 2],
        Stype_t::SLU_DN,
        Mtype_t::SLU_GE,
    );
    assert_eq!(r.unwrap_err(), Error::MalformedSparseLayout);
}

#[test]
fn multiply_identity_basis_reproduces_columns() {
    let a = example_matrix();
    for j in 0..5 {
        let mut x = vec![0i64; 5];
        x[j] = 1;
        let b = a.multiply(&x).unwrap();
        assert_eq!(b.len(), 5);
        for i in 0..5 {
            assert_eq!(b[i], a.value(i, j).unwrap());
        }
    }
}

#[test]
fn multiply_rejects_wrong_length() {
    let a = example_matrix();
    let x = vec![1i64; 4];
    assert_eq!(a.multiply(&x).unwrap_err(), Error::DimensionMismatch);
}

#[test]
fn multiply_ones_gives_row_sums() {
    let a = example_matrix();
    let x = vec![1i64; 5];
    let b = a.multiply(&x).unwrap();
    // Row sums of the example matrix
    assert_eq!(b, vec![19 + 21 + 21, 12 + 21, 12 + 16, 5 + 21, 12 + 12 + 18]);
}

#[test]
fn value_type_i64_arithmetic() {
    assert_eq!(<i64 as ValueType>::zero(), 0);
    assert_eq!(<i64 as ValueType>::one(), 1);
    assert_eq!(7i64.add(8), 15);
    assert_eq!(7i64.mul(8), 56);
    // Arithmetic is total: it wraps around at the ends of the range
    assert_eq!(i64::MAX.add(1), i64::MIN);
}

#[test]
fn value_opt_reads_doubles() {
    let non_zero_values = vec![19.0f64, 12.0, 12.0, 21.0, 12.0, 12.0, 21.0, 16.0, 21.0, 5.0, 21.0, 18.0];
    let row_indices = vec![0, 1, 4, 1, 2, 4, 0, 2, 0, 3, 3, 4];
    let column_offsets = vec![0, 3, 6, 8, 10, 12];
    let a = CompColMatrix::from_vectors(5, non_zero_values, row_indices, column_offsets).unwrap();

    assert_eq!(a.value_opt(0, 0).unwrap(), Some(19.0));
    assert_eq!(a.value_opt(2, 2).unwrap(), Some(16.0));
    assert_eq!(a.value_opt(4, 4).unwrap(), Some(18.0));
    assert_eq!(a.value_opt(0, 1).unwrap(), None);
    assert_eq!(a.value_opt(3, 0).unwrap(), None);
    assert_eq!(a.value_opt(5, 0).unwrap_err(), Error::IndexOutOfRange);
}
