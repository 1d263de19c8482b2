use csuperlu::comp_col::CompColMatrix;
use csuperlu::dense::DenseMatrix;
use csuperlu::error::Error;
use csuperlu::lu_decomp::LUDecomp;
use csuperlu::options::{ColumnPermPolicy, IterRefine_t, SolverOptions, colperm_t, fact_t, trans_t, yes_no_t};
use csuperlu::simple_driver::{SamePattern, SimpleSystem, build_solution, interpret_status};
use csuperlu::super_node::SuperNodeMatrix;

fn example_matrix() -> CompColMatrix<i64> {
    let non_zero_values = vec![19i64, 12, 12, 21, 12, 12, 21, 16, 21, 5, 21, 18];
    let row_indices = vec![0, 1, 4, 1, 2, 4, 0, 2, 0, 3, 3, 4];
    let column_offsets = vec![0, 3, 6, 8, 10, 12];
    CompColMatrix::from_vectors(5, non_zero_values, row_indices, column_offsets).unwrap()
}

fn ones(n: usize) -> DenseMatrix<i64> {
    DenseMatrix::from_vectors(n, 1, vec![1i64; n]).unwrap()
}

fn example_factors() -> LUDecomp<i64> {
    LUDecomp {
        l: SuperNodeMatrix::from_vectors(5, 5, vec![1i64; 5]).unwrap(),
        u: example_matrix(),
    }
}

#[test]
fn default_options_match_kernel_defaults() {
    let o = SolverOptions::default();
    assert_eq!(o.fact, fact_t::DOFACT);
    assert_eq!(o.equil, yes_no_t::YES);
    assert_eq!(o.col_perm, colperm_t::COLAMD);
    assert_eq!(o.trans, trans_t::NOTRANS);
    assert_eq!(o.iter_refine, IterRefine_t::NOREFINE);
    assert_eq!(o.print_stat, yes_no_t::YES);
}

#[test]
fn policy_maps_to_kernel_ordering() {
    assert_eq!(ColumnPermPolicy::Natural.to_colperm(), colperm_t::NATURAL);
    assert_eq!(ColumnPermPolicy::MmdAtA.to_colperm(), colperm_t::MMD_ATA);
    assert_eq!(ColumnPermPolicy::MmdAtPlusA.to_colperm(), colperm_t::MMD_AT_PLUS_A);
    assert_eq!(ColumnPermPolicy::ColAmd.to_colperm(), colperm_t::COLAMD);
}

#[test]
fn solve_request_fixes_fresh_options() {
    let system = SimpleSystem { a: example_matrix(), b: ones(5) };
    let req = system.solve_request(ColumnPermPolicy::Natural).unwrap();
    assert_eq!(req.options.fact, fact_t::DOFACT);
    assert_eq!(req.options.col_perm, colperm_t::NATURAL);
    assert_eq!(req.options.trans, trans_t::NOTRANS);
    assert_eq!(req.perm_c, vec![0; 5]);
    assert_eq!(req.perm_r, vec![0; 5]);
    assert_eq!(req.a.num_rows(), 5);
    assert_eq!(req.b.num_rows(), 5);
}

#[test]
fn solve_request_rejects_mismatched_shapes() {
    // Right-hand side with the wrong number of rows
    let system = SimpleSystem { a: example_matrix(), b: ones(4) };
    assert_eq!(
        system.solve_request(ColumnPermPolicy::ColAmd).unwrap_err(),
        Error::DimensionMismatch
    );

    // A matrix that is not square
    let a = CompColMatrix::from_vectors(3, vec![1i64, 2], vec![0, 1], vec![0, 1, 2]).unwrap();
    let system = SimpleSystem { a, b: ones(3) };
    assert_eq!(
        system.solve_request(ColumnPermPolicy::ColAmd).unwrap_err(),
        Error::DimensionMismatch
    );
}

#[test]
fn solve_request_rejects_structurally_empty_column() {
    // Three-by-three matrix whose middle column holds no entries
    let a = CompColMatrix::from_vectors(3, vec![1i64, 2], vec![0, 2], vec![0, 1, 1, 2]).unwrap();
    let system = SimpleSystem { a, b: ones(3) };
    assert_eq!(
        system.solve_request(ColumnPermPolicy::Natural).unwrap_err(),
        Error::SingularMatrix(1)
    );
}

#[test]
fn solve_request_with_perm_rejects_bad_permutation() {
    let system = SimpleSystem { a: example_matrix(), b: ones(5) };
    // A repeated image is not a permutation
    assert_eq!(
        system.solve_request_with_perm(vec![0, 1, 1, 3, 4]).unwrap_err(),
        Error::InvalidArgument(3)
    );

    let system = SimpleSystem { a: example_matrix(), b: ones(5) };
    // An out-of-range image is not a permutation
    assert_eq!(
        system.solve_request_with_perm(vec![0, 1, 2, 3, 5]).unwrap_err(),
        Error::InvalidArgument(3)
    );

    let system = SimpleSystem { a: example_matrix(), b: ones(5) };
    // The wrong length is not a permutation
    assert_eq!(
        system.solve_request_with_perm(vec![0, 1, 2, 3]).unwrap_err(),
        Error::InvalidArgument(3)
    );
}

#[test]
fn same_pattern_request_matches_forced_request() {
    let perm = vec![4, 2, 0, 1, 3];

    let forced = SimpleSystem { a: example_matrix(), b: ones(5) }
        .solve_request_with_perm(perm.clone())
        .unwrap();
    let reused = SamePattern { a: example_matrix(), b: ones(5), column_perm: perm.clone() }
        .solve_request()
        .unwrap();

    // Identical kernel inputs ...
    assert_eq!(forced.perm_c, perm);
    assert_eq!(reused.perm_c, perm);
    assert_eq!(forced.a.non_zero_values(), reused.a.non_zero_values());
    assert_eq!(forced.a.row_indices(), reused.a.row_indices());
    assert_eq!(forced.a.column_offsets(), reused.a.column_offsets());
    assert_eq!(forced.b.column_major_values(), reused.b.column_major_values());

    // ... and option blocks that differ only in the factorization mode
    assert_eq!(forced.options.fact, fact_t::DOFACT);
    assert_eq!(reused.options.fact, fact_t::SamePattern);
    assert_eq!(forced.options, SolverOptions { fact: fact_t::DOFACT, ..reused.options });
}

#[test]
fn same_pattern_request_rejects_what_fresh_rejects() {
    let reused = SamePattern { a: example_matrix(), b: ones(4), column_perm: vec![0, 1, 2, 3, 4] };
    assert_eq!(reused.solve_request().unwrap_err(), Error::DimensionMismatch);

    let reused =
        SamePattern { a: example_matrix(), b: ones(5), column_perm: vec![0, 0, 2, 3, 4] };
    assert_eq!(reused.solve_request().unwrap_err(), Error::InvalidArgument(3));
}

#[test]
fn interpret_status_maps_every_code() {
    assert!(interpret_status(0, 5).is_ok());
    assert_eq!(interpret_status(-1, 5).unwrap_err(), Error::InvalidArgument(1));
    assert_eq!(interpret_status(-7, 5).unwrap_err(), Error::InvalidArgument(7));
    // A positive code up to the order is a zero pivot, reported 0-based
    assert_eq!(interpret_status(1, 5).unwrap_err(), Error::SingularMatrix(0));
    assert_eq!(interpret_status(5, 5).unwrap_err(), Error::SingularMatrix(4));
    // Beyond the order it is the byte count of the failed allocation
    assert_eq!(interpret_status(6, 5).unwrap_err(), Error::AllocationFailure(1));
    assert_eq!(interpret_status(1029, 5).unwrap_err(), Error::AllocationFailure(1024));
}

#[test]
fn build_solution_assembles_kernel_output() {
    let sol = build_solution(
        example_matrix(),
        ones(5),
        example_factors(),
        vec![0, 1, 2, 3, 4],
        vec![4, 3, 2, 1, 0],
        0,
    )
    .unwrap();
    assert_eq!(sol.column_perm, vec![0, 1, 2, 3, 4]);
    assert_eq!(sol.row_perm, vec![4, 3, 2, 1, 0]);
    assert_eq!(sol.a.num_columns(), 5);
    assert_eq!(sol.x.num_columns(), 1);
    assert_eq!(sol.lu.l.values(), &vec![1i64; 5]);
}

#[test]
fn build_solution_maps_kernel_failures() {
    let r = build_solution(
        example_matrix(),
        ones(5),
        example_factors(),
        vec![0, 1, 2, 3, 4],
        vec![0, 1, 2, 3, 4],
        3,
    );
    assert_eq!(r.unwrap_err(), Error::SingularMatrix(2));

    // A kernel that hands back a non-permutation has misbehaved
    let r = build_solution(
        example_matrix(),
        ones(5),
        example_factors(),
        vec![0, 1, 2, 3, 4],
        vec![0, 0, 2, 3, 4],
        0,
    );
    assert_eq!(r.unwrap_err(), Error::InvalidArgument(4));
}

#[test]
fn terminal_errors_are_flagged() {
    assert!(Error::SingularMatrix(2).is_terminal());
    assert!(Error::AllocationFailure(64).is_terminal());
    assert!(!Error::DimensionMismatch.is_terminal());
    assert!(!Error::InvalidArgument(1).is_terminal());
}
