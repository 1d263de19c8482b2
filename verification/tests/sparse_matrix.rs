use csuperlu::sparse_matrix::SparseMatrix;

#[test]
fn sparse_map_round_trip() {
    let mut a: SparseMatrix<i64> = SparseMatrix::new(5, 5);

    // Matrix elements
    let s: i64 = 19;
    let u: i64 = 21;
    let p: i64 = 16;
    let e: i64 = 5;
    let r: i64 = 18;
    let l: i64 = 12;
    // Set values
    a.set_value(0, 0, s);
    a.set_value(1, 1, u);
    a.set_value(2, 2, p);
    a.set_value(3, 3, e);
    a.set_value(4, 4, r);

    a.set_value(1, 0, l);
    a.set_value(2, 1, l);
    a.set_value(4, 0, l);
    a.set_value(4, 1, l);

    a.set_value(0, 2, u);
    a.set_value(0, 3, u);
    a.set_value(3, 4, u);

    assert_eq!(a.num_non_zeros(), 12);

    let m = a.compressed_column_format();

    // Reading back every position reproduces the map exactly, with zero
    // at every vacant position.
    for row in 0..5 {
        for col in 0..5 {
            assert_eq!(m.value(row, col).unwrap(), a.get_value(row, col));
        }
    }

    // The compacted layout is the canonical five-by-five example
    assert_eq!(m.non_zero_values(), &vec![s, l, l, u, l, l, u, p, u, e, u, r]);
    assert_eq!(m.row_indices(), &vec![0, 1, 4, 1, 2, 4, 0, 2, 0, 3, 3, 4]);
    assert_eq!(m.column_offsets(), &vec![0, 3, 6, 8, 10, 12]);
}

#[test]
fn sparse_map_overwrites_in_place() {
    let mut a: SparseMatrix<i64> = SparseMatrix::new(3, 3);
    a.set_value(1, 2, 10);
    assert_eq!(a.get_value(1, 2), 10);
    a.set_value(1, 2, 20);
    assert_eq!(a.get_value(1, 2), 20);
    assert_eq!(a.num_non_zeros(), 1);
    assert_eq!(a.get_value(2, 1), 0);
}

#[test]
fn sparse_map_empty_columns_get_equal_offsets() {
    let mut a: SparseMatrix<i64> = SparseMatrix::new(4, 4);
    a.set_value(0, 0, 1);
    a.set_value(3, 0, 2);
    a.set_value(2, 3, 3);

    let m = a.compressed_column_format();
    // Columns 1 and 2 are empty: equal consecutive offsets
    assert_eq!(m.column_offsets(), &vec![0, 2, 2, 2, 3]);
    assert_eq!(m.row_indices(), &vec![0, 3, 2]);
    assert_eq!(m.value(0, 0).unwrap(), 1);
    assert_eq!(m.value(3, 0).unwrap(), 2);
    assert_eq!(m.value(2, 3).unwrap(), 3);
    assert_eq!(m.value(1, 1).unwrap(), 0);
    assert_eq!(m.value(2, 2).unwrap(), 0);
}

#[test]
fn sparse_map_empty_builder_compacts_to_empty_matrix() {
    let a: SparseMatrix<i64> = SparseMatrix::new(2, 3);
    let m = a.compressed_column_format();
    assert_eq!(m.num_rows(), 2);
    assert_eq!(m.num_columns(), 3);
    assert_eq!(m.column_offsets(), &vec![0, 0, 0, 0]);
    for row in 0..2 {
        for col in 0..3 {
            assert_eq!(m.value(row, col).unwrap(), 0);
        }
    }
}

#[test]
fn sparse_map_insertion_order_does_not_matter() {
    let mut fwd: SparseMatrix<i64> = SparseMatrix::new(3, 3);
    fwd.set_value(0, 0, 1);
    fwd.set_value(1, 1, 2);
    fwd.set_value(2, 2, 3);

    let mut rev: SparseMatrix<i64> = SparseMatrix::new(3, 3);
    rev.set_value(2, 2, 3);
    rev.set_value(1, 1, 2);
    rev.set_value(0, 0, 1);

    let mf = fwd.compressed_column_format();
    let mr = rev.compressed_column_format();
    assert_eq!(mf.non_zero_values(), mr.non_zero_values());
    assert_eq!(mf.row_indices(), mr.row_indices());
    assert_eq!(mf.column_offsets(), mr.column_offsets());
}

#[test]
fn sparse_map_compacts_doubles() {
    let mut a: SparseMatrix<f64> = SparseMatrix::new(5, 5);
    a.set_value(0, 0, 19.0);
    a.set_value(1, 1, 21.0);
    a.set_value(2, 2, 16.0);
    a.set_value(3, 3, 5.0);
    a.set_value(4, 4, 18.0);
    a.set_value(1, 0, 12.0);
    a.set_value(2, 1, 12.0);
    a.set_value(4, 0, 12.0);
    a.set_value(4, 1, 12.0);
    a.set_value(0, 2, 21.0);
    a.set_value(0, 3, 21.0);
    a.set_value(3, 4, 21.0);

    let m = a.compressed_column_format();
    assert_eq!(
        m.non_zero_values(),
        &vec![19.0, 12.0, 12.0, 21.0, 12.0, 12.0, 21.0, 16.0, 21.0, 5.0, 21.0, 18.0]
    );
    assert_eq!(m.row_indices(), &vec![0, 1, 4, 1, 2, 4, 0, 2, 0, 3, 3, 4]);
    assert_eq!(m.column_offsets(), &vec![0, 3, 6, 8, 10, 12]);
}

#[test]
fn sparse_map_get_entry_reads_doubles() {
    let mut a: SparseMatrix<f64> = SparseMatrix::new(3, 3);
    a.set_value(0, 2, 2.5);
    assert_eq!(a.get_entry(0, 2), Some(2.5));
    assert_eq!(a.get_entry(2, 0), None);
}
