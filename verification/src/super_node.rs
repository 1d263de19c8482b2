//! Matrices in super-node form.
//!
//! The factorization kernel returns its lower factor in a supernodal
//! layout whose internals belong to the kernel.  This model keeps what
//! the orchestration layer reads of such a matrix: its dimensions and the
//! flat run of stored factor values.

use vstd::prelude::*;

use crate::MAX_INDEX;

verus! {

/// Super-node matrix: the kernel-side factor, as this layer sees it.
#[derive(Debug)]
pub struct SuperNodeMatrix<T> {
    num_rows: usize,
    num_cols: usize,
    values: Vec<T>,
}

impl<T> SuperNodeMatrix<T> {
    /// The number of rows.
    pub closed spec fn num_rows_spec(self) -> int {
        self.num_rows as int
    }

    /// The number of columns.
    pub closed spec fn num_cols_spec(self) -> int {
        self.num_cols as int
    }

    /// The stored factor values.
    pub closed spec fn values_seq(self) -> Seq<T> {
        self.values@
    }

    /// Positive bounded dimensions.
    pub open spec fn wf(self) -> bool {
        &&& 1 <= self.num_rows_spec() <= MAX_INDEX as int
        &&& 1 <= self.num_cols_spec() <= MAX_INDEX as int
    }

    /// Wrap the dimensions and values read back from a kernel factor.
    pub fn from_vectors(num_rows: usize, num_cols: usize, values: Vec<T>) -> (r: Option<Self>)
        ensures
            r is Some <==> (1 <= num_rows <= MAX_INDEX && 1 <= num_cols <= MAX_INDEX),
            r matches Some(m) ==> m.wf() && m.num_rows_spec() == num_rows as int
                && m.num_cols_spec() == num_cols as int && m.values_seq() == values@,
    {
        if num_rows < 1 || num_rows > MAX_INDEX || num_cols < 1 || num_cols > MAX_INDEX {
            return None;
        }
        Some(SuperNodeMatrix { num_rows, num_cols, values })
    }

    /// The number of rows.
    pub fn num_rows(&self) -> (r: usize)
        ensures
            r == self.num_rows_spec(),
    {
        self.num_rows
    }

    /// The number of columns.
    pub fn num_columns(&self) -> (r: usize)
        ensures
            r == self.num_cols_spec(),
    {
        self.num_cols
    }

    /// Read-only view of the stored factor values.
    pub fn values(&self) -> (r: &Vec<T>)
        ensures
            r@ == self.values_seq(),
    {
        &self.values
    }
}

} // verus!
