//! A verified orchestration layer for a sparse direct linear solver.
//!
//! The crate models sparse systems of linear equations $AX = B$, where $A$
//! is a sparse matrix held in compressed-column form, and $B$ is a dense
//! matrix of right-hand sides.  The storage-format invariants, the solve
//! workflow decisions, and the buffer-ownership protocol at the native
//! kernel boundary are stated as contracts and proved; the numerical
//! factorization kernel itself stays outside, behind the request/outcome
//! types of [`simple_driver`].

pub mod comp_col;
pub mod dense;
pub mod error;
pub mod handle;
pub mod lu_decomp;
pub mod options;
pub mod simple_driver;
pub mod sparse_matrix;
pub mod stat;
pub mod super_node;
pub mod value_type;

use vstd::prelude::*;

verus! {

/// The largest value an index may take in the compressed-column format,
/// which stores row indices and column offsets as `i32`.
pub const MAX_INDEX: usize = 0x7fff_ffff;

} // verus!
