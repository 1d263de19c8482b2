//! Dense matrices in column-major form.
//!
//! Dense matrices carry the right-hand sides of a solve and the solution
//! that comes back.  The whole matrix is one buffer of `num_rows *
//! num_cols` values, with element `(i, j)` at offset `i + j * num_rows`;
//! the only fallible operation is construction, which checks that the
//! buffer length matches the dimensions exactly.
//!
//! [`CDenseMat`] is the same storage bound for the native kernel: built
//! from a [`CDenseRaw`] bundle of plain vectors, and taken apart again by
//! [`CDenseMat::to_raw`], which is the single path that reclaims the
//! buffer from the handle.

use vstd::prelude::*;

use crate::MAX_INDEX;
use crate::error::Error;

verus! {

/// The conditions under which a column-major buffer of `len` values forms
/// a dense matrix of the given dimensions.
pub open spec fn valid_dense(num_rows: int, num_cols: int, len: int) -> bool {
    &&& 1 <= num_rows <= MAX_INDEX as int
    &&& 1 <= num_cols <= MAX_INDEX as int
    &&& len == num_rows * num_cols
}

/// Column-major dense matrix.
#[derive(Debug)]
pub struct DenseMatrix<T> {
    num_rows: usize,
    num_cols: usize,
    values: Vec<T>,
}

impl<T> DenseMatrix<T> {
    /// The number of rows.
    pub closed spec fn num_rows_spec(self) -> int {
        self.num_rows as int
    }

    /// The number of columns.
    pub closed spec fn num_cols_spec(self) -> int {
        self.num_cols as int
    }

    /// The backing buffer, in column-major order.
    pub closed spec fn values_seq(self) -> Seq<T> {
        self.values@
    }

    /// The storage invariant: positive bounded dimensions and a buffer of
    /// exactly the right length.
    pub open spec fn wf(self) -> bool {
        valid_dense(self.num_rows_spec(), self.num_cols_spec(), self.values_seq().len() as int)
    }

    /// The element at `(r, c)`.
    pub open spec fn entry(self, r: int, c: int) -> T {
        self.values_seq()[r + c * self.num_rows_spec()]
    }

    /// Build a dense matrix from its dimensions and column-major values.
    ///
    /// A buffer whose length is not exactly `num_rows * num_cols` is
    /// rejected as [`Error::DimensionMismatch`], and nothing is
    /// constructed.
    pub fn from_vectors(num_rows: usize, num_cols: usize, column_major_values: Vec<T>) -> (r:
        Result<Self, Error>)
        ensures
            r is Ok <==> valid_dense(
                num_rows as int,
                num_cols as int,
                column_major_values@.len() as int,
            ),
            r matches Ok(m) ==> m.wf() && m.num_rows_spec() == num_rows as int && m.num_cols_spec()
                == num_cols as int && m.values_seq() == column_major_values@,
            r is Err ==> r == Err::<Self, Error>(Error::DimensionMismatch),
    {
        if num_rows < 1 || num_rows > MAX_INDEX || num_cols < 1 || num_cols > MAX_INDEX {
            return Err(Error::DimensionMismatch);
        }
        let len = column_major_values.len();
        match num_rows.checked_mul(num_cols) {
            Some(expected) => {
                if len != expected {
                    return Err(Error::DimensionMismatch);
                }
            },
            None => {
                return Err(Error::DimensionMismatch);
            },
        }
        Ok(DenseMatrix { num_rows, num_cols, values: column_major_values })
    }

    /// The number of rows.
    pub fn num_rows(&self) -> (r: usize)
        ensures
            r == self.num_rows_spec(),
    {
        self.num_rows
    }

    /// The number of columns.
    pub fn num_columns(&self) -> (r: usize)
        ensures
            r == self.num_cols_spec(),
    {
        self.num_cols
    }

    /// Read-only view of the column-major buffer.
    pub fn column_major_values(&self) -> (r: &Vec<T>)
        ensures
            r@ == self.values_seq(),
    {
        &self.values
    }

    /// Release the matrix into its dimensions and column-major buffer.
    ///
    /// The matrix value is consumed, so the buffer leaves it exactly
    /// once.
    pub fn into_vectors(self) -> (r: (usize, usize, Vec<T>))
        ensures
            r.0 == self.num_rows_spec(),
            r.1 == self.num_cols_spec(),
            r.2@ == self.values_seq(),
    {
        let DenseMatrix { num_rows, num_cols, values } = self;
        (num_rows, num_cols, values)
    }
}

impl<T: Copy> DenseMatrix<T> {
    /// Read the element at `(row, col)`.
    ///
    /// A position outside the matrix is rejected as
    /// [`Error::IndexOutOfRange`].
    pub fn value(&self, row: usize, col: usize) -> (r: Result<T, Error>)
        requires
            self.wf(),
        ensures
            row < self.num_rows_spec() && col < self.num_cols_spec() ==> r == Ok::<T, Error>(
                self.entry(row as int, col as int),
            ),
            !(row < self.num_rows_spec() && col < self.num_cols_spec()) ==> r == Err::<T, Error>(
                Error::IndexOutOfRange,
            ),
    {
        if row >= self.num_rows || col >= self.num_cols {
            return Err(Error::IndexOutOfRange);
        }
        proof {
            assert(row + col * self.num_rows_spec() < self.num_rows_spec()
                * self.num_cols_spec()) by (nonlinear_arith)
                requires
                    0 <= (row as int) < self.num_rows_spec(),
                    0 <= (col as int) < self.num_cols_spec(),
            ;
        }
        let n = self.values.len();
        let idx = row + col * self.num_rows;
        proof {
            assert(idx < n);
        }
        Ok(self.values[idx])
    }
}

/// The plain vectors comprising a dense matrix, before they are bound to
/// a native handle.
#[derive(Debug)]
pub struct CDenseRaw<T> {
    pub num_rows: usize,
    pub num_cols: usize,
    pub col_maj_vals: Vec<T>,
}

/// A dense matrix bound for the native kernel.
///
/// The handle owns its buffer from [`CDenseMat::from_raw`] until
/// [`CDenseMat::to_raw`] reclaims it; because `to_raw` consumes the
/// handle, each buffer is reclaimed at most once and never read through
/// the handle afterwards.
#[derive(Debug)]
pub struct CDenseMat<T> {
    num_rows: usize,
    num_cols: usize,
    col_maj_vals: Vec<T>,
}

impl<T> CDenseMat<T> {
    /// The number of rows.
    pub closed spec fn num_rows_spec(self) -> int {
        self.num_rows as int
    }

    /// The number of columns.
    pub closed spec fn num_cols_spec(self) -> int {
        self.num_cols as int
    }

    /// The bound buffer, in column-major order.
    pub closed spec fn vals_seq(self) -> Seq<T> {
        self.col_maj_vals@
    }

    /// The storage invariant, shared with [`DenseMatrix`].
    pub open spec fn wf(self) -> bool {
        valid_dense(self.num_rows_spec(), self.num_cols_spec(), self.vals_seq().len() as int)
    }

    /// Bind raw dense components to a handle.
    ///
    /// Dimensions that do not match the buffer length are rejected as
    /// [`Error::DimensionMismatch`]; it is not possible to build a bound
    /// handle from an inconsistent [`CDenseRaw`].
    pub fn from_raw(raw: CDenseRaw<T>) -> (r: Result<Self, Error>)
        ensures
            r is Ok <==> valid_dense(
                raw.num_rows as int,
                raw.num_cols as int,
                raw.col_maj_vals@.len() as int,
            ),
            r matches Ok(m) ==> m.wf() && m.num_rows_spec() == raw.num_rows as int
                && m.num_cols_spec() == raw.num_cols as int && m.vals_seq() == raw.col_maj_vals@,
            r is Err ==> r == Err::<Self, Error>(Error::DimensionMismatch),
    {
        let CDenseRaw { num_rows, num_cols, col_maj_vals } = raw;
        if num_rows < 1 || num_rows > MAX_INDEX || num_cols < 1 || num_cols > MAX_INDEX {
            return Err(Error::DimensionMismatch);
        }
        let len = col_maj_vals.len();
        match num_rows.checked_mul(num_cols) {
            Some(expected) => {
                if len != expected {
                    return Err(Error::DimensionMismatch);
                }
            },
            None => {
                return Err(Error::DimensionMismatch);
            },
        }
        Ok(CDenseMat { num_rows, num_cols, col_maj_vals })
    }

    /// The number of rows.
    pub fn num_rows(&self) -> (r: usize)
        ensures
            r == self.num_rows_spec(),
    {
        self.num_rows
    }

    /// The number of columns.
    pub fn num_cols(&self) -> (r: usize)
        ensures
            r == self.num_cols_spec(),
    {
        self.num_cols
    }

    /// Reclaim the raw components from the handle.
    ///
    /// The handle is consumed: this is the single reclaim path, so the
    /// buffer comes back exactly once and the handle cannot be used
    /// afterwards.
    pub fn to_raw(self) -> (r: CDenseRaw<T>)
        ensures
            r.num_rows == self.num_rows_spec(),
            r.num_cols == self.num_cols_spec(),
            r.col_maj_vals@ == self.vals_seq(),
    {
        let CDenseMat { num_rows, num_cols, col_maj_vals } = self;
        CDenseRaw { num_rows, num_cols, col_maj_vals }
    }
}

} // verus!
