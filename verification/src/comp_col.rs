//! Sparse matrices in compressed-column form.
//!
//! A compressed-column matrix stores only the non-zero elements of each
//! column.  Three arrays carry the whole matrix: the non-zero values in
//! column-major order, the row index of each stored value, and one offset
//! per column saying where that column's run of values starts.  The offset
//! array has one extra final entry equal to the number of stored values, so
//! column `c` owns the half-open range `col_offsets[c] .. col_offsets[c+1]`.
//!
//! Row indices are kept strictly ascending inside every column, which makes
//! each `(row, column)` position appear at most once and lets point lookups
//! run by binary search.

use vstd::prelude::*;

use crate::MAX_INDEX;
use crate::error::Error;
use crate::options::{Mtype_t, Stype_t};
use crate::value_type::ValueType;

verus! {

/// The offsets never step backwards.
pub open spec fn offsets_nondecreasing(offs: Seq<i32>) -> bool {
    forall|c: int| 0 <= c < offs.len() - 1 ==> #[trigger] offs[c] <= offs[c + 1]
}

/// Within every column, consecutive stored row indices strictly ascend.
pub open spec fn column_rows_ascending(rows: Seq<i32>, offs: Seq<i32>) -> bool {
    forall|c: int, k: int|
        #![trigger offs[c], rows[k]]
        0 <= c < offs.len() - 1 && offs[c] as int <= k && k + 1 < offs[c + 1] as int ==> rows[k]
            < rows[k + 1]
}

/// The conditions under which three arrays describe a compressed-column
/// matrix with `num_rows` rows and `nnz` stored values.
pub open spec fn valid_layout(num_rows: int, nnz: int, rows: Seq<i32>, offs: Seq<i32>) -> bool {
    &&& 1 <= num_rows <= MAX_INDEX as int
    &&& 2 <= offs.len() <= MAX_INDEX as int + 1
    &&& nnz == rows.len()
    &&& nnz <= MAX_INDEX as int
    &&& offs[0] == 0
    &&& offs[offs.len() - 1] as int == nnz
    &&& offsets_nondecreasing(offs)
    &&& forall|k: int| 0 <= k < rows.len() ==> 0 <= #[trigger] rows[k] < num_rows
    &&& column_rows_ascending(rows, offs)
}

/// Non-decreasing offsets compare across any distance.
pub proof fn lemma_offsets_mono(offs: Seq<i32>, i: int, j: int)
    requires
        offsets_nondecreasing(offs),
        0 <= i <= j < offs.len(),
    ensures
        offs[i] as int <= offs[j] as int,
    decreases j - i,
{
    if i < j {
        lemma_offsets_mono(offs, i, j - 1);
        assert(offs[j - 1] <= offs[j]);
    }
}

/// Strict ascent between neighbours extends to any two positions of the
/// same column.
pub proof fn lemma_column_sorted(rows: Seq<i32>, offs: Seq<i32>, c: int, k1: int, k2: int)
    requires
        column_rows_ascending(rows, offs),
        0 <= c < offs.len() - 1,
        offs[c] as int <= k1 < k2,
        k2 < offs[c + 1] as int,
    ensures
        rows[k1] < rows[k2],
    decreases k2 - k1,
{
    if k1 + 1 == k2 {
        assert(offs[c] as int <= k1 && k1 + 1 < offs[c + 1] as int + 1);
        assert(rows[k1] < rows[k1 + 1]);
    } else {
        lemma_column_sorted(rows, offs, c, k1, k2 - 1);
        assert(rows[k2 - 1] < rows[k2]);
    }
}

/// Compressed-column sparse matrix.
#[derive(Debug)]
pub struct CompColMatrix<T> {
    num_rows: usize,
    values: Vec<T>,
    row_indices: Vec<i32>,
    col_offsets: Vec<i32>,
    stype: Stype_t,
    mtype: Mtype_t,
}

impl<T> CompColMatrix<T> {
    /// The number of rows.
    pub closed spec fn num_rows_spec(self) -> int {
        self.num_rows as int
    }

    /// The stored non-zero values, in column-major order.
    pub closed spec fn values_seq(self) -> Seq<T> {
        self.values@
    }

    /// The row index of each stored value.
    pub closed spec fn row_indices_seq(self) -> Seq<i32> {
        self.row_indices@
    }

    /// The per-column offsets into the two parallel arrays.
    pub closed spec fn col_offsets_seq(self) -> Seq<i32> {
        self.col_offsets@
    }

    /// The storage-scheme tag the matrix was built with.
    pub closed spec fn stype_spec(self) -> Stype_t {
        self.stype
    }

    /// The mathematical-shape tag the matrix was built with.
    pub closed spec fn mtype_spec(self) -> Mtype_t {
        self.mtype
    }

    /// The number of columns.
    pub open spec fn num_cols_spec(self) -> int {
        self.col_offsets_seq().len() - 1
    }

    /// The number of stored values.
    pub open spec fn nnz_spec(self) -> int {
        self.values_seq().len() as int
    }

    /// The storage invariant: the three arrays describe a matrix.
    pub open spec fn wf(self) -> bool {
        valid_layout(
            self.num_rows_spec(),
            self.nnz_spec(),
            self.row_indices_seq(),
            self.col_offsets_seq(),
        )
    }

    /// Storage slot `k` holds the entry at `(r, c)`.
    pub open spec fn entry_at(self, k: int, r: int, c: int) -> bool {
        &&& 0 <= c < self.num_cols_spec()
        &&& self.col_offsets_seq()[c] as int <= k < self.col_offsets_seq()[c + 1] as int
        &&& 0 <= k < self.row_indices_seq().len()
        &&& self.row_indices_seq()[k] == r
    }

    /// Some storage slot holds the entry at `(r, c)`.
    pub open spec fn has_entry(self, r: int, c: int) -> bool {
        exists|k: int| self.entry_at(k, r, c)
    }

    /// At most one storage slot can hold the entry at `(r, c)`.
    pub proof fn lemma_entry_unique(self, k1: int, k2: int, r: int, c: int)
        requires
            self.wf(),
            self.entry_at(k1, r, c),
            self.entry_at(k2, r, c),
        ensures
            k1 == k2,
    {
        if k1 < k2 {
            lemma_column_sorted(self.row_indices_seq(), self.col_offsets_seq(), c, k1, k2);
        } else if k2 < k1 {
            lemma_column_sorted(self.row_indices_seq(), self.col_offsets_seq(), c, k2, k1);
        }
    }
}

impl<T> CompColMatrix<T> {
    /// The stored value at `(r, c)`, or nothing where the position is
    /// unoccupied.
    pub open spec fn entry_opt(self, r: int, c: int) -> Option<T> {
        if self.has_entry(r, c) {
            Some(self.values_seq()[choose|k: int| self.entry_at(k, r, c)])
        } else {
            None
        }
    }

    /// A position that storage slot `k` holds reads back as exactly the
    /// value stored in that slot.
    pub proof fn lemma_entry_value(self, k: int, r: int, c: int)
        requires
            self.wf(),
            self.entry_at(k, r, c),
        ensures
            self.entry_opt(r, c) == Some(self.values_seq()[k]),
    {
        let kc = choose|kk: int| self.entry_at(kk, r, c);
        self.lemma_entry_unique(kc, k, r, c);
    }
}

impl<T: ValueType> CompColMatrix<T> {
    /// The element at `(r, c)`: the stored value if the position is
    /// occupied, and zero otherwise.
    pub open spec fn entry_or_zero(self, r: int, c: int) -> T {
        match self.entry_opt(r, c) {
            Some(v) => v,
            None => T::zero_spec(),
        }
    }
}

/// Check that the offset array starts at zero, never decreases, and ends
/// exactly at `nnz`.
fn check_offsets(nnz: usize, column_offsets: &Vec<i32>) -> (r: bool)
    requires
        2 <= column_offsets@.len() <= MAX_INDEX as int + 1,
        nnz <= MAX_INDEX,
    ensures
        r == (column_offsets@[0] == 0 && column_offsets@[column_offsets@.len() - 1] as int == nnz
            && offsets_nondecreasing(column_offsets@)),
{
    if column_offsets[0] != 0 {
        return false;
    }
    if column_offsets[column_offsets.len() - 1] != nnz as i32 {
        return false;
    }
    let mut c: usize = 0;
    while c < column_offsets.len() - 1
        invariant
            2 <= column_offsets@.len(),
            c <= column_offsets@.len() - 1,
            forall|cc: int| 0 <= cc < c ==> #[trigger] column_offsets@[cc] <= column_offsets@[cc + 1],
        decreases column_offsets@.len() - c,
    {
        if column_offsets[c] > column_offsets[c + 1] {
            assert(!(column_offsets@[c as int] <= column_offsets@[c as int + 1]));
            return false;
        }
        c += 1;
    }
    true
}

/// Check that every stored row index lies in `[0, num_rows)`.
fn check_row_bounds(num_rows: usize, row_indices: &Vec<i32>) -> (r: bool)
    requires
        1 <= num_rows <= MAX_INDEX,
    ensures
        r == (forall|k: int|
            0 <= k < row_indices@.len() ==> 0 <= #[trigger] row_indices@[k] < num_rows),
{
    let mut k: usize = 0;
    while k < row_indices.len()
        invariant
            k <= row_indices@.len(),
            num_rows <= MAX_INDEX,
            forall|kk: int| 0 <= kk < k ==> 0 <= #[trigger] row_indices@[kk] < num_rows,
        decreases row_indices@.len() - k,
    {
        if row_indices[k] < 0 || row_indices[k] >= num_rows as i32 {
            return false;
        }
        k += 1;
    }
    true
}

/// Check that row indices strictly ascend inside every column.
fn check_columns_ascending(row_indices: &Vec<i32>, column_offsets: &Vec<i32>) -> (r: bool)
    requires
        2 <= column_offsets@.len(),
        column_offsets@[0] == 0,
        column_offsets@[column_offsets@.len() - 1] as int == row_indices@.len(),
        offsets_nondecreasing(column_offsets@),
    ensures
        r == column_rows_ascending(row_indices@, column_offsets@),
{
    let ghost rows = row_indices@;
    let ghost offs = column_offsets@;
    let mut c: usize = 0;
    while c < column_offsets.len() - 1
        invariant
            c <= offs.len() - 1,
            rows == row_indices@,
            offs == column_offsets@,
            2 <= offs.len(),
            offs[0] == 0,
            offs[offs.len() - 1] as int == rows.len(),
            offsets_nondecreasing(offs),
            forall|cc: int, kk: int|
                #![trigger offs[cc], rows[kk]]
                0 <= cc < c && offs[cc] as int <= kk && kk + 1 < offs[cc + 1] as int ==> rows[kk]
                    < rows[kk + 1],
        decreases offs.len() - c,
    {
        proof {
            lemma_offsets_mono(offs, 0, c as int);
            lemma_offsets_mono(offs, c as int, c as int + 1);
            lemma_offsets_mono(offs, c as int + 1, offs.len() - 1);
        }
        let start = column_offsets[c] as usize;
        let end = column_offsets[c + 1] as usize;
        let mut k: usize = start;
        while k + 1 < end
            invariant
                rows == row_indices@,
                offs == column_offsets@,
                c < offs.len() - 1,
                offs[c as int] as int == start,
                offs[c as int + 1] as int == end,
                start <= k,
                k < end || k == start,
                end <= 0x7fff_ffff,
                end as int <= rows.len(),
                forall|kk: int| start <= kk && kk + 1 <= k ==> #[trigger] rows[kk] < rows[kk + 1],
            decreases end - k,
        {
            if row_indices[k] >= row_indices[k + 1] {
                assert(!(rows[k as int] < rows[k as int + 1]));
                return false;
            }
            k += 1;
        }
        proof {
            assert forall|kk: int|
                offs[c as int] as int <= kk && kk + 1 < offs[c as int + 1] as int implies #[trigger] rows[kk]
                < rows[kk + 1] by {
                assert(start <= kk && kk + 1 <= k);
            }
        }
        c += 1;
    }
    true
}

/// The full constructor check: do the arrays describe a matrix?
fn check_layout(num_rows: usize, nnz: usize, row_indices: &Vec<i32>, column_offsets: &Vec<i32>) -> (r:
    bool)
    ensures
        r == valid_layout(num_rows as int, nnz as int, row_indices@, column_offsets@),
{
    if num_rows < 1 || num_rows > MAX_INDEX {
        return false;
    }
    if column_offsets.len() < 2 || column_offsets.len() > MAX_INDEX + 1 {
        return false;
    }
    if row_indices.len() != nnz || nnz > MAX_INDEX {
        return false;
    }
    if !check_offsets(nnz, column_offsets) {
        return false;
    }
    if !check_row_bounds(num_rows, row_indices) {
        return false;
    }
    check_columns_ascending(row_indices, column_offsets)
}

impl<T> CompColMatrix<T> {
    /// Build a compressed-column matrix from its three arrays.
    ///
    /// The arrays are validated against the storage invariant; a triple
    /// that does not describe a matrix is rejected as
    /// [`Error::MalformedSparseLayout`], and nothing is constructed.
    pub fn from_vectors(
        num_rows: usize,
        non_zero_values: Vec<T>,
        row_indices: Vec<i32>,
        column_offsets: Vec<i32>,
    ) -> (r: Result<Self, Error>)
        ensures
            r is Ok <==> valid_layout(
                num_rows as int,
                non_zero_values@.len() as int,
                row_indices@,
                column_offsets@,
            ),
            r matches Ok(m) ==> m.wf() && m.num_rows_spec() == num_rows as int && m.values_seq()
                == non_zero_values@ && m.row_indices_seq() == row_indices@ && m.col_offsets_seq()
                == column_offsets@ && m.stype_spec() == Stype_t::SLU_NC && m.mtype_spec()
                == Mtype_t::SLU_GE,
            r is Err ==> r == Err::<Self, Error>(Error::MalformedSparseLayout),
    {
        if !check_layout(num_rows, non_zero_values.len(), &row_indices, &column_offsets) {
            return Err(Error::MalformedSparseLayout);
        }
        Ok(CompColMatrix {
            num_rows,
            values: non_zero_values,
            row_indices,
            col_offsets: column_offsets,
            stype: Stype_t::SLU_NC,
            mtype: Mtype_t::SLU_GE,
        })
    }

    /// Build a compressed-column matrix from explicitly counted arrays and
    /// storage tags, as the native creation call takes them.
    ///
    /// Beyond the storage invariant this checks that the counts `m`, `n`
    /// and `nnz` agree with the array lengths and that the storage scheme
    /// is the compressed-column one.
    pub fn new(
        m: i32,
        n: i32,
        nnz: i32,
        nzval: Vec<T>,
        rowind: Vec<i32>,
        colptr: Vec<i32>,
        stype: Stype_t,
        mtype: Mtype_t,
    ) -> (r: Result<Self, Error>)
        ensures
            r is Ok <==> (m >= 1 && n >= 1 && nnz >= 0 && nnz as int == nzval@.len() && colptr@.len()
                == n as int + 1 && stype == Stype_t::SLU_NC && valid_layout(
                m as int,
                nzval@.len() as int,
                rowind@,
                colptr@,
            )),
            r matches Ok(mm) ==> mm.wf() && mm.num_rows_spec() == m as int && mm.num_cols_spec()
                == n as int && mm.values_seq() == nzval@ && mm.row_indices_seq() == rowind@
                && mm.col_offsets_seq() == colptr@ && mm.stype_spec() == stype && mm.mtype_spec()
                == mtype,
            r is Err ==> r == Err::<Self, Error>(Error::MalformedSparseLayout),
    {
        if m < 1 || n < 1 || nnz < 0 {
            return Err(Error::MalformedSparseLayout);
        }
        if nnz as usize != nzval.len() || colptr.len() != n as usize + 1 {
            return Err(Error::MalformedSparseLayout);
        }
        if !(stype == Stype_t::SLU_NC) {
            return Err(Error::MalformedSparseLayout);
        }
        if !check_layout(m as usize, nzval.len(), &rowind, &colptr) {
            return Err(Error::MalformedSparseLayout);
        }
        Ok(CompColMatrix {
            num_rows: m as usize,
            values: nzval,
            row_indices: rowind,
            col_offsets: colptr,
            stype,
            mtype,
        })
    }

    /// The number of rows.
    pub fn num_rows(&self) -> (r: usize)
        ensures
            r == self.num_rows_spec(),
    {
        self.num_rows
    }

    /// The number of columns.
    pub fn num_columns(&self) -> (r: usize)
        requires
            self.wf(),
        ensures
            r == self.num_cols_spec(),
    {
        self.col_offsets.len() - 1
    }

    /// Read-only view of the stored non-zero values.
    pub fn non_zero_values(&self) -> (r: &Vec<T>)
        ensures
            r@ == self.values_seq(),
    {
        &self.values
    }

    /// Read-only view of the per-column offsets.
    pub fn column_offsets(&self) -> (r: &Vec<i32>)
        ensures
            r@ == self.col_offsets_seq(),
    {
        &self.col_offsets
    }

    /// Read-only view of the stored row indices.
    pub fn row_indices(&self) -> (r: &Vec<i32>)
        ensures
            r@ == self.row_indices_seq(),
    {
        &self.row_indices
    }

    /// Release the matrix into its three backing arrays, together with the
    /// row count.
    ///
    /// This is the single reclaim path out of the invariant-bearing type:
    /// the matrix value is consumed, so the arrays leave it exactly once.
    pub fn into_vectors(self) -> (r: (usize, Vec<T>, Vec<i32>, Vec<i32>))
        ensures
            r.0 == self.num_rows_spec(),
            r.1@ == self.values_seq(),
            r.2@ == self.row_indices_seq(),
            r.3@ == self.col_offsets_seq(),
    {
        let CompColMatrix { num_rows, values, row_indices, col_offsets, stype: _, mtype: _ } = self;
        (num_rows, values, row_indices, col_offsets)
    }
}

impl<T: Copy> CompColMatrix<T> {
    /// Look one position up, by binary search over the column's row
    /// indices.
    ///
    /// Returns the stored value when `(row, col)` is occupied and
    /// nothing when it is not; a position outside the matrix is rejected
    /// as [`Error::IndexOutOfRange`].
    pub fn value_opt(&self, row: usize, col: usize) -> (r: Result<Option<T>, Error>)
        requires
            self.wf(),
        ensures
            row < self.num_rows_spec() && col < self.num_cols_spec() ==> r == Ok::<
                Option<T>,
                Error,
            >(self.entry_opt(row as int, col as int)),
            !(row < self.num_rows_spec() && col < self.num_cols_spec()) ==> r == Err::<
                Option<T>,
                Error,
            >(Error::IndexOutOfRange),
    {
        if row >= self.num_rows || col >= self.col_offsets.len() - 1 {
            return Err(Error::IndexOutOfRange);
        }
        let ghost rows = self.row_indices@;
        let ghost offs = self.col_offsets@;
        proof {
            lemma_offsets_mono(offs, 0, col as int);
            lemma_offsets_mono(offs, col as int, col as int + 1);
            lemma_offsets_mono(offs, col as int + 1, offs.len() - 1);
        }
        let target = row as i32;
        let start = self.col_offsets[col] as usize;
        let end = self.col_offsets[col + 1] as usize;
        let mut lo = start;
        let mut hi = end;
        while lo < hi
            invariant
                self.wf(),
                rows == self.row_indices@,
                offs == self.col_offsets@,
                row < self.num_rows_spec(),
                col < self.num_cols_spec(),
                target == row as i32,
                start as int == offs[col as int] as int,
                end as int == offs[col as int + 1] as int,
                start <= lo <= hi <= end,
                end as int <= rows.len(),
                end <= MAX_INDEX,
                forall|k: int| start <= k < lo ==> #[trigger] rows[k] < target,
                forall|k: int| hi <= k < end ==> #[trigger] rows[k] > target,
            decreases hi - lo,
        {
            let mid = lo + (hi - lo) / 2;
            let v = self.row_indices[mid];
            if v == target {
                proof {
                    assert(self.entry_at(mid as int, row as int, col as int));
                    self.lemma_entry_value(mid as int, row as int, col as int);
                }
                return Ok(Some(self.values[mid]));
            } else if v < target {
                proof {
                    assert forall|k: int| start <= k < mid + 1 implies #[trigger] rows[k]
                        < target by {
                        if k < mid {
                            lemma_column_sorted(rows, offs, col as int, k, mid as int);
                        }
                    }
                }
                lo = mid + 1;
            } else {
                proof {
                    assert forall|k: int| mid <= k < end implies #[trigger] rows[k] > target by {
                        if mid < k {
                            lemma_column_sorted(rows, offs, col as int, mid as int, k);
                        }
                    }
                }
                hi = mid;
            }
        }
        proof {
            if self.has_entry(row as int, col as int) {
                let k = choose|k: int| self.entry_at(k, row as int, col as int);
                assert(rows[k] == target);
                assert(false);
            }
        }
        Ok(None)
    }
}

impl<T: ValueType> CompColMatrix<T> {
    /// Read one element: the stored value when `(row, col)` is occupied,
    /// and zero when it is not.
    ///
    /// A position outside the matrix is rejected as
    /// [`Error::IndexOutOfRange`].
    pub fn value(&self, row: usize, col: usize) -> (r: Result<T, Error>)
        requires
            self.wf(),
        ensures
            row < self.num_rows_spec() && col < self.num_cols_spec() ==> r == Ok::<T, Error>(
                self.entry_or_zero(row as int, col as int),
            ),
            !(row < self.num_rows_spec() && col < self.num_cols_spec()) ==> r == Err::<T, Error>(
                Error::IndexOutOfRange,
            ),
    {
        match self.value_opt(row, col) {
            Ok(Some(v)) => Ok(v),
            Ok(None) => Ok(T::zero()),
            Err(e) => Err(e),
        }
    }
}


/// The dot product of row `r` with the first `c` entries of a dense
/// vector: the sum over columns below `c` of the matrix element times the
/// vector entry.
pub open spec fn row_sum<T: ValueType>(m: CompColMatrix<T>, x: Seq<T>, r: int, c: int) -> T
    decreases c,
{
    if c <= 0 {
        T::zero_spec()
    } else {
        row_sum(m, x, r, c - 1).add_spec(m.entry_or_zero(r, c - 1).mul_spec(x[c - 1]))
    }
}

/// The dense vector with a one at position `j` and zeros elsewhere.
pub open spec fn basis_seq<T: ValueType>(n: int, j: int) -> Seq<T> {
    Seq::new(n as nat, |i: int| if i == j { T::one_spec() } else { T::zero_spec() })
}

/// Below and at column `j`, the product of a row with the `j`-th basis
/// vector is still zero; above it, it has picked up exactly the matrix
/// element at column `j`.
proof fn lemma_row_sum_basis_prefix<T: ValueType>(m: CompColMatrix<T>, j: int, r: int, c: int)
    requires
        m.wf(),
        0 <= j < m.num_cols_spec(),
        0 <= c <= m.num_cols_spec(),
    ensures
        row_sum(m, basis_seq(m.num_cols_spec(), j), r, c) == if c <= j {
            T::zero_spec()
        } else {
            m.entry_or_zero(r, j)
        },
    decreases c,
{
    let x = basis_seq::<T>(m.num_cols_spec(), j);
    if c > 0 {
        lemma_row_sum_basis_prefix(m, j, r, c - 1);
        let prev = row_sum(m, x, r, c - 1);
        if c - 1 == j {
            T::lemma_mul_one(m.entry_or_zero(r, j));
            T::lemma_add_zero(m.entry_or_zero(r, j));
        } else {
            T::lemma_mul_zero(m.entry_or_zero(r, c - 1));
            T::lemma_add_zero(prev);
        }
    }
}

/// Multiplying the matrix by the `j`-th basis vector reproduces column
/// `j`: in every row the product equals the element stored at that row of
/// column `j`, or zero where the column has none.
pub proof fn lemma_multiply_basis<T: ValueType>(m: CompColMatrix<T>, j: int, r: int)
    requires
        m.wf(),
        0 <= j < m.num_cols_spec(),
        0 <= r < m.num_rows_spec(),
    ensures
        row_sum(m, basis_seq(m.num_cols_spec(), j), r, m.num_cols_spec()) == m.entry_or_zero(r, j),
{
    lemma_row_sum_basis_prefix(m, j, r, m.num_cols_spec());
}

impl<T: ValueType> CompColMatrix<T> {
    /// Multiply the matrix by a dense vector, the naive way: every row is
    /// paired with every column, so absent elements contribute zero.
    ///
    /// A vector whose length differs from the number of columns is
    /// rejected as [`Error::DimensionMismatch`].
    pub fn multiply(&self, x: &Vec<T>) -> (r: Result<Vec<T>, Error>)
        requires
            self.wf(),
        ensures
            x@.len() == self.num_cols_spec() ==> (r matches Ok(b) && b@.len()
                == self.num_rows_spec() && (forall|i: int|
                0 <= i < self.num_rows_spec() ==> #[trigger] b@[i] == row_sum(
                    *self,
                    x@,
                    i,
                    self.num_cols_spec(),
                ))),
            x@.len() != self.num_cols_spec() ==> r == Err::<Vec<T>, Error>(
                Error::DimensionMismatch,
            ),
    {
        if x.len() != self.col_offsets.len() - 1 {
            return Err(Error::DimensionMismatch);
        }
        let n = self.col_offsets.len() - 1;
        let mut b: Vec<T> = Vec::new();
        let mut i: usize = 0;
        while i < self.num_rows
            invariant
                self.wf(),
                x@.len() == n,
                n == self.num_cols_spec(),
                i <= self.num_rows_spec(),
                b@.len() == i,
                forall|ii: int|
                    0 <= ii < i ==> #[trigger] b@[ii] == row_sum(*self, x@, ii, n as int),
            decreases self.num_rows_spec() - i,
        {
            let mut acc = T::zero();
            let mut c: usize = 0;
            while c < n
                invariant
                    self.wf(),
                    x@.len() == n,
                    n == self.num_cols_spec(),
                    i < self.num_rows_spec(),
                    c <= n,
                    acc == row_sum(*self, x@, i as int, c as int),
                decreases n - c,
            {
                let v = match self.value(i, c) {
                    Ok(v) => v,
                    Err(_) => T::zero(),
                };
                acc = acc.add(v.mul(x[c]));
                c += 1;
            }
            b.push(acc);
            i += 1;
        }
        Ok(b)
    }
}

} // verus!
