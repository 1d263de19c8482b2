//! The solve workflow: from a system to a kernel request, and from the
//! kernel's answer to a solution.
//!
//! A solve runs in three steps.  First the workflow checks the system
//! and fixes every decision the kernel needs — factorization mode,
//! column-permutation policy, permutation buffers — producing a
//! [`KernelRequest`]; anything wrong with the system is rejected here,
//! before any native allocation.  Then the caller-facing layer runs the
//! native factorization on the request's matrices.  Finally
//! [`build_solution`] inspects the kernel's status code and output and
//! either assembles a [`SimpleSolution`] or maps the code to its error.
//!
//! A fresh solve picks the column permutation by policy; a same-pattern
//! solve reuses a permutation from an earlier solution over a matrix
//! with the same non-zero structure, skipping the ordering analysis.

use vstd::prelude::*;

use crate::MAX_INDEX;
use crate::comp_col::CompColMatrix;
use crate::dense::DenseMatrix;
use crate::error::Error;
use crate::lu_decomp::LUDecomp;
use crate::options::{ColumnPermPolicy, SolverOptions, colperm_t, fact_t};

verus! {

/// `p` is a permutation of `0 .. n`: right length, in range, no repeats.
pub open spec fn is_permutation(p: Seq<i32>, n: int) -> bool {
    &&& p.len() == n
    &&& forall|i: int| 0 <= i < n ==> 0 <= #[trigger] p[i] < n
    &&& forall|i: int, j: int| #![trigger p[i], p[j]] 0 <= i < j < n ==> p[i] != p[j]
}

/// A permutation of `0 .. n` is onto, so the two permutation vectors of
/// a solve really are bijections: every column and row position below
/// `n` is the image of exactly one index.
pub proof fn lemma_permutation_onto(p: Seq<i32>, n: int, v: int)
    requires
        is_permutation(p, n),
        0 <= v < n,
    ensures
        exists|i: int| 0 <= i < n && p[i] == v,
{
    if !(exists|i: int| 0 <= i < n && p[i] == v) {
        let vals = Seq::new(n as nat, |i: int| p[i] as int);
        assert(vals.no_duplicates()) by {
            assert forall|i: int, j: int|
                0 <= i < vals.len() && 0 <= j < vals.len() && i != j implies vals[i]
                != vals[j] by {
                if i < j {
                    assert(p[i] != p[j]);
                } else {
                    assert(p[j] != p[i]);
                }
            }
        }
        vals.unique_seq_to_set();
        let range = vstd::set_lib::set_int_range(0, n);
        vstd::set_lib::lemma_int_range(0, n);
        let smaller = range.remove(v);
        assert(vals.to_set().subset_of(smaller)) by {
            assert forall|x: int| vals.to_set().contains(x) implies smaller.contains(x) by {
                let i = choose|i: int| 0 <= i < vals.len() && vals[i] == x;
                assert(0 <= p[i] < n);
                assert(p[i] != v);
            }
        }
        assert(range.contains(v));
        assert(smaller.len() == n - 1);
        vstd::set_lib::lemma_len_subset(vals.to_set(), smaller);
        assert(false);
    }
}

/// Column `c` of the matrix holds no entries at all.
pub open spec fn column_empty<T>(m: CompColMatrix<T>, c: int) -> bool {
    m.col_offsets_seq()[c] == m.col_offsets_seq()[c + 1]
}

/// Some column of the matrix holds no entries at all.
pub open spec fn has_empty_column<T>(m: CompColMatrix<T>) -> bool {
    exists|c: int| 0 <= c < m.num_cols_spec() && #[trigger] column_empty(m, c)
}

/// The matrix is square and the right-hand side has as many rows.
pub open spec fn shapes_compatible<T>(a: CompColMatrix<T>, b: DenseMatrix<T>) -> bool {
    a.num_rows_spec() == a.num_cols_spec() && b.num_rows_spec() == a.num_rows_spec()
}

/// The options of a fresh solve under a column-permutation policy.
pub open spec fn simple_options_spec(policy: ColumnPermPolicy) -> SolverOptions {
    SolverOptions { fact: fact_t::DOFACT, col_perm: policy.to_colperm_spec(), ..SolverOptions::defaults() }
}

/// The options of a fresh solve forced to a caller-supplied column
/// permutation.
pub open spec fn forced_options_spec() -> SolverOptions {
    SolverOptions { fact: fact_t::DOFACT, col_perm: colperm_t::MY_PERMC, ..SolverOptions::defaults() }
}

/// The options of a same-pattern solve reusing a caller-supplied column
/// permutation.
pub open spec fn same_pattern_options_spec() -> SolverOptions {
    SolverOptions {
        fact: fact_t::SamePattern,
        col_perm: colperm_t::MY_PERMC,
        ..SolverOptions::defaults()
    }
}

/// A same-pattern solve hands the kernel exactly what a fresh solve
/// forced to the same column permutation would hand it: the request
/// builders pass the matrices and the permutation through unchanged, and
/// the two option blocks agree on every field except the factorization
/// mode, which is what lets the kernel skip the ordering analysis.
pub proof fn lemma_same_pattern_matches_forced()
    ensures
        same_pattern_options_spec() == (SolverOptions {
            fact: fact_t::SamePattern,
            ..forced_options_spec()
        }),
        forced_options_spec() == (SolverOptions { fact: fact_t::DOFACT, ..same_pattern_options_spec() }),
{
}

/// Check that `p` is a permutation of `0 .. n`.
fn check_permutation(p: &Vec<i32>, n: usize) -> (r: bool)
    requires
        n <= MAX_INDEX,
    ensures
        r == is_permutation(p@, n as int),
{
    if p.len() != n {
        return false;
    }
    let mut seen: Vec<bool> = Vec::new();
    let mut v: usize = 0;
    while v < n
        invariant
            seen@.len() == v,
            v <= n,
            forall|w: int| 0 <= w < v ==> !(#[trigger] seen@[w]),
        decreases n - v,
    {
        seen.push(false);
        v += 1;
    }
    let mut i: usize = 0;
    while i < n
        invariant
            p@.len() == n,
            n <= MAX_INDEX,
            seen@.len() == n,
            i <= n,
            forall|j: int| 0 <= j < i ==> 0 <= #[trigger] p@[j] < n,
            forall|w: int|
                0 <= w < n ==> ((#[trigger] seen@[w]) <==> (exists|j: int|
                    0 <= j < i && p@[j] == w)),
            forall|j1: int, j2: int| #![trigger p@[j1], p@[j2]] 0 <= j1 < j2 < i ==> p@[j1] != p@[j2],
        decreases n - i,
    {
        let x = p[i];
        if x < 0 || x >= n as i32 {
            return false;
        }
        if seen[x as usize] {
            proof {
                let j = choose|j: int| 0 <= j < i && p@[j] == x as int;
                assert(p@[j] == p@[i as int]);
            }
            return false;
        }
        seen.set(x as usize, true);
        proof {
            assert forall|w: int|
                0 <= w < n implies ((#[trigger] seen@[w]) <==> (exists|j: int|
                0 <= j < i + 1 && p@[j] == w)) by {
                if w == x as int {
                    assert(p@[i as int] == w);
                } else {
                    if exists|j: int| 0 <= j < i + 1 && p@[j] == w {
                        let j = choose|j: int| 0 <= j < i + 1 && p@[j] == w;
                        assert(j < i + 1 && p@[j] == w);
                        assert(j != i);
                        assert(exists|j2: int| 0 <= j2 < i && p@[j2] == w);
                    }
                }
            }
            assert forall|j1: int, j2: int|
                #![trigger p@[j1], p@[j2]]
                0 <= j1 < j2 < i + 1 implies p@[j1] != p@[j2] by {
                if j2 == i as int && p@[j1] == p@[j2] {
                    assert(exists|j: int| 0 <= j < i && p@[j] == x as int);
                }
            }
        }
        i += 1;
    }
    true
}

/// Find the first column with no entries, if any.
fn find_empty_column<T>(a: &CompColMatrix<T>) -> (r: Option<usize>)
    requires
        a.wf(),
    ensures
        r matches Some(c) ==> c < a.num_cols_spec() && column_empty(*a, c as int)
            && (forall|cc: int| 0 <= cc < c ==> !column_empty(*a, cc)),
        r is None ==> forall|cc: int| 0 <= cc < a.num_cols_spec() ==> !column_empty(*a, cc),
{
    let offs = a.column_offsets();
    let n = offs.len() - 1;
    let mut c: usize = 0;
    while c < n
        invariant
            a.wf(),
            offs@ == a.col_offsets_seq(),
            n == a.num_cols_spec(),
            c <= n,
            forall|cc: int| 0 <= cc < c ==> !column_empty(*a, cc),
        decreases n - c,
    {
        if offs[c] == offs[c + 1] {
            return Some(c);
        }
        c += 1;
    }
    None
}

/// A vector of `n` zeros, as the permutation buffers start out.
fn zero_vec(n: usize) -> (r: Vec<i32>)
    ensures
        r@.len() == n,
        forall|i: int| 0 <= i < n ==> #[trigger] r@[i] == 0i32,
{
    let mut v: Vec<i32> = Vec::new();
    let mut i: usize = 0;
    while i < n
        invariant
            v@.len() == i,
            i <= n,
            forall|j: int| 0 <= j < i ==> #[trigger] v@[j] == 0i32,
        decreases n - i,
    {
        v.push(0);
        i += 1;
    }
    v
}

/// Everything the kernel invocation needs, fixed before any native call:
/// the option block, both matrices, and the two permutation buffers.
#[derive(Debug)]
pub struct KernelRequest<T> {
    /// The option block for the kernel.
    pub options: SolverOptions,
    /// The system matrix.
    pub a: CompColMatrix<T>,
    /// The right-hand sides.
    pub b: DenseMatrix<T>,
    /// The column permutation: an input when the options say so, and a
    /// kernel output otherwise.
    pub perm_c: Vec<i32>,
    /// The row permutation buffer the kernel fills.
    pub perm_r: Vec<i32>,
}

/// A sparse system `A X = B` awaiting a fresh solve.
#[derive(Debug)]
pub struct SimpleSystem<T> {
    /// The system matrix.
    pub a: CompColMatrix<T>,
    /// The right-hand sides.
    pub b: DenseMatrix<T>,
}

/// A sparse system whose matrix repeats the non-zero structure of an
/// earlier solve, reusing that solve's column permutation.
#[derive(Debug)]
pub struct SamePattern<T> {
    /// The system matrix, structurally identical to the earlier one.
    pub a: CompColMatrix<T>,
    /// The right-hand sides.
    pub b: DenseMatrix<T>,
    /// The column permutation returned by the earlier solve.
    pub column_perm: Vec<i32>,
}

/// The outcome of a successful solve.  The solution owns all its parts;
/// nothing is shared with any earlier solve but the permutation values a
/// caller chose to pass along.
#[derive(Debug)]
pub struct SimpleSolution<T> {
    /// The system matrix, as the kernel left it.
    pub a: CompColMatrix<T>,
    /// The solution matrix, one column per right-hand side.
    pub x: DenseMatrix<T>,
    /// The triangular factors.
    pub lu: LUDecomp<T>,
    /// The column permutation the factorization used.
    pub column_perm: Vec<i32>,
    /// The row permutation partial pivoting produced.
    pub row_perm: Vec<i32>,
}

impl<T> SimpleSystem<T> {
    /// Fix every decision for a fresh solve under a column-permutation
    /// policy.
    ///
    /// The system must be square with matching right-hand sides, else
    /// [`Error::DimensionMismatch`]; a matrix with a structurally empty
    /// column cannot be factorized and is rejected as
    /// [`Error::SingularMatrix`] at the first such column, before any
    /// native call.
    pub fn solve_request(self, policy: ColumnPermPolicy) -> (r: Result<KernelRequest<T>, Error>)
        requires
            self.a.wf(),
            self.b.wf(),
        ensures
            r is Ok <==> (shapes_compatible(self.a, self.b) && !has_empty_column(self.a)),
            r matches Ok(req) ==> req.options == simple_options_spec(policy) && req.a == self.a
                && req.b == self.b && req.perm_c@.len() == self.a.num_cols_spec()
                && (forall|i: int| 0 <= i < req.perm_c@.len() ==> #[trigger] req.perm_c@[i] == 0i32)
                && req.perm_r@.len() == self.a.num_rows_spec()
                && (forall|i: int| 0 <= i < req.perm_r@.len() ==> #[trigger] req.perm_r@[i] == 0i32),
            !shapes_compatible(self.a, self.b) ==> r == Err::<KernelRequest<T>, Error>(
                Error::DimensionMismatch,
            ),
            shapes_compatible(self.a, self.b) && has_empty_column(self.a) ==> (r matches Err(e)
                && (e matches Error::SingularMatrix(c) && column_empty(self.a, c as int)
                && (forall|cc: int| 0 <= cc < c ==> !column_empty(self.a, cc)))),
    {
        let SimpleSystem { a, b } = self;
        if a.num_rows() != a.num_columns() || b.num_rows() != a.num_rows() {
            return Err(Error::DimensionMismatch);
        }
        match find_empty_column(&a) {
            Some(c) => {
                return Err(Error::SingularMatrix(c));
            },
            None => {},
        }
        let n = a.num_columns();
        let m = a.num_rows();
        let mut options = SolverOptions::default();
        options.fact = fact_t::DOFACT;
        options.col_perm = policy.to_colperm();
        Ok(KernelRequest { options, a, b, perm_c: zero_vec(n), perm_r: zero_vec(m) })
    }

    /// Fix every decision for a fresh solve forced to a caller-supplied
    /// column permutation.
    ///
    /// Beyond the fresh-solve checks, the permutation must be a
    /// permutation of the columns; one that is not is rejected as
    /// [`Error::InvalidArgument`] at the kernel's column-permutation
    /// argument position.
    pub fn solve_request_with_perm(self, column_perm: Vec<i32>) -> (r: Result<
        KernelRequest<T>,
        Error,
    >)
        requires
            self.a.wf(),
            self.b.wf(),
        ensures
            r is Ok <==> (shapes_compatible(self.a, self.b) && is_permutation(
                column_perm@,
                self.a.num_cols_spec(),
            ) && !has_empty_column(self.a)),
            r matches Ok(req) ==> req.options == forced_options_spec() && req.a == self.a && req.b
                == self.b && req.perm_c@ == column_perm@ && req.perm_r@.len()
                == self.a.num_rows_spec(),
            !shapes_compatible(self.a, self.b) ==> r == Err::<KernelRequest<T>, Error>(
                Error::DimensionMismatch,
            ),
            shapes_compatible(self.a, self.b) && !is_permutation(
                column_perm@,
                self.a.num_cols_spec(),
            ) ==> r == Err::<KernelRequest<T>, Error>(Error::InvalidArgument(3)),
            shapes_compatible(self.a, self.b) && is_permutation(
                column_perm@,
                self.a.num_cols_spec(),
            ) && has_empty_column(self.a) ==> (r matches Err(e) && (e matches Error::SingularMatrix(
                c,
            ) && column_empty(self.a, c as int) && (forall|cc: int|
                0 <= cc < c ==> !column_empty(self.a, cc)))),
    {
        let SimpleSystem { a, b } = self;
        if a.num_rows() != a.num_columns() || b.num_rows() != a.num_rows() {
            return Err(Error::DimensionMismatch);
        }
        let n = a.num_columns();
        if !check_permutation(&column_perm, n) {
            return Err(Error::InvalidArgument(3));
        }
        match find_empty_column(&a) {
            Some(c) => {
                return Err(Error::SingularMatrix(c));
            },
            None => {},
        }
        let m = a.num_rows();
        let mut options = SolverOptions::default();
        options.fact = fact_t::DOFACT;
        options.col_perm = colperm_t::MY_PERMC;
        Ok(KernelRequest { options, a, b, perm_c: column_perm, perm_r: zero_vec(m) })
    }
}

impl<T> SamePattern<T> {
    /// Fix every decision for a same-pattern solve.
    ///
    /// The checks are those of the forced fresh solve; the only
    /// difference in the request is the factorization mode, which lets
    /// the kernel reuse the structural analysis behind `column_perm`.
    pub fn solve_request(self) -> (r: Result<KernelRequest<T>, Error>)
        requires
            self.a.wf(),
            self.b.wf(),
        ensures
            r is Ok <==> (shapes_compatible(self.a, self.b) && is_permutation(
                self.column_perm@,
                self.a.num_cols_spec(),
            ) && !has_empty_column(self.a)),
            r matches Ok(req) ==> req.options == same_pattern_options_spec() && req.a == self.a
                && req.b == self.b && req.perm_c@ == self.column_perm@ && req.perm_r@.len()
                == self.a.num_rows_spec(),
            !shapes_compatible(self.a, self.b) ==> r == Err::<KernelRequest<T>, Error>(
                Error::DimensionMismatch,
            ),
            shapes_compatible(self.a, self.b) && !is_permutation(
                self.column_perm@,
                self.a.num_cols_spec(),
            ) ==> r == Err::<KernelRequest<T>, Error>(Error::InvalidArgument(3)),
            shapes_compatible(self.a, self.b) && is_permutation(
                self.column_perm@,
                self.a.num_cols_spec(),
            ) && has_empty_column(self.a) ==> (r matches Err(e) && (e matches Error::SingularMatrix(
                c,
            ) && column_empty(self.a, c as int) && (forall|cc: int|
                0 <= cc < c ==> !column_empty(self.a, cc)))),
    {
        let SamePattern { a, b, column_perm } = self;
        if a.num_rows() != a.num_columns() || b.num_rows() != a.num_rows() {
            return Err(Error::DimensionMismatch);
        }
        let n = a.num_columns();
        if !check_permutation(&column_perm, n) {
            return Err(Error::InvalidArgument(3));
        }
        match find_empty_column(&a) {
            Some(c) => {
                return Err(Error::SingularMatrix(c));
            },
            None => {},
        }
        let m = a.num_rows();
        let mut options = SolverOptions::default();
        options.fact = fact_t::SamePattern;
        options.col_perm = colperm_t::MY_PERMC;
        Ok(KernelRequest { options, a, b, perm_c: column_perm, perm_r: zero_vec(m) })
    }
}

/// The argument position a negative kernel status points at.
pub open spec fn rejected_position(info: i32) -> i32 {
    if info == i32::MIN {
        i32::MAX
    } else {
        (-(info as int)) as i32
    }
}

/// Map the kernel's status code to the outcome of the solve.
///
/// Zero is success.  A negative code means the kernel rejected the
/// argument at that position.  A positive code up to the matrix order
/// `n` reports an exactly zero pivot at that elimination step, given
/// here 0-based as [`Error::SingularMatrix`]; beyond `n` it reports the
/// number of bytes the kernel had allocated when its workspace ran out.
pub fn interpret_status(info: i32, n: usize) -> (r: Result<(), Error>)
    requires
        n <= MAX_INDEX,
    ensures
        r is Ok <==> info == 0,
        info < 0 ==> r == Err::<(), Error>(Error::InvalidArgument(rejected_position(info))),
        0 < info && info <= n ==> r == Err::<(), Error>(Error::SingularMatrix((info - 1) as usize)),
        0 < info && info > n ==> r == Err::<(), Error>(Error::AllocationFailure((info - n) as usize)),
{
    if info == 0 {
        Ok(())
    } else if info < 0 {
        let pos = if info == i32::MIN {
            i32::MAX
        } else {
            -info
        };
        Err(Error::InvalidArgument(pos))
    } else if info as usize <= n {
        Err(Error::SingularMatrix((info - 1) as usize))
    } else {
        Err(Error::AllocationFailure(info as usize - n))
    }
}

/// Assemble a solution from what the kernel handed back, or map its
/// status code to the error it reports.
///
/// Success demands a zero status and two genuine permutations; a kernel
/// that handed back anything else has misbehaved, and the outputs are
/// rejected at the corresponding argument position rather than wrapped
/// into a solution.
pub fn build_solution<T>(
    a: CompColMatrix<T>,
    x: DenseMatrix<T>,
    lu: LUDecomp<T>,
    column_perm: Vec<i32>,
    row_perm: Vec<i32>,
    info: i32,
) -> (r: Result<SimpleSolution<T>, Error>)
    requires
        a.wf(),
        x.wf(),
        lu.wf(),
    ensures
        r is Ok <==> (info == 0 && is_permutation(column_perm@, a.num_cols_spec())
            && is_permutation(row_perm@, a.num_rows_spec())),
        r matches Ok(sol) ==> sol.a == a && sol.x == x && sol.lu == lu && sol.column_perm@
            == column_perm@ && sol.row_perm@ == row_perm@,
        info < 0 ==> r == Err::<SimpleSolution<T>, Error>(
            Error::InvalidArgument(rejected_position(info)),
        ),
        0 < info && info <= a.num_cols_spec() ==> r == Err::<SimpleSolution<T>, Error>(
            Error::SingularMatrix((info - 1) as usize),
        ),
        0 < info && info > a.num_cols_spec() ==> r == Err::<SimpleSolution<T>, Error>(
            Error::AllocationFailure((info - a.num_cols_spec()) as usize),
        ),
        info == 0 && !is_permutation(column_perm@, a.num_cols_spec()) ==> r == Err::<
            SimpleSolution<T>,
            Error,
        >(Error::InvalidArgument(3)),
        info == 0 && is_permutation(column_perm@, a.num_cols_spec()) && !is_permutation(
            row_perm@,
            a.num_rows_spec(),
        ) ==> r == Err::<SimpleSolution<T>, Error>(Error::InvalidArgument(4)),
{
    let n = a.num_columns();
    let m = a.num_rows();
    match interpret_status(info, n) {
        Ok(()) => {},
        Err(e) => {
            return Err(e);
        },
    }
    if !check_permutation(&column_perm, n) {
        return Err(Error::InvalidArgument(3));
    }
    if !check_permutation(&row_perm, m) {
        return Err(Error::InvalidArgument(4));
    }
    Ok(SimpleSolution { a, x, lu, column_perm, row_perm })
}

} // verus!
