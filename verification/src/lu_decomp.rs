//! The pair of triangular factors a factorization produces.

use vstd::prelude::*;

use crate::comp_col::CompColMatrix;
use crate::super_node::SuperNodeMatrix;

verus! {

/// The factors of a completed factorization: the lower factor in
/// super-node form and the upper factor in compressed-column form.
///
/// A solution owns its factors outright; nothing here is shared with any
/// earlier solve.
#[derive(Debug)]
pub struct LUDecomp<T> {
    /// The lower triangular factor.
    pub l: SuperNodeMatrix<T>,
    /// The upper triangular factor.
    pub u: CompColMatrix<T>,
}

impl<T> LUDecomp<T> {
    /// Both factors satisfy their storage invariants.
    pub open spec fn wf(self) -> bool {
        self.l.wf() && self.u.wf()
    }
}

} // verus!
