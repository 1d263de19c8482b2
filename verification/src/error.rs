//! Error conditions reported by matrix construction and the solve workflow.

use vstd::prelude::*;

verus! {

/// An error surfaced by matrix construction or by a solve.
///
/// Construction-time and dimension errors are detected locally, before any
/// native call; the remaining variants map the status code reported by the
/// factorization kernel.
#[derive(Clone, Copy, Debug, PartialEq, Eq, Structural)]
pub enum Error {
    /// The three arrays handed to a compressed-column constructor do not
    /// describe a matrix: offsets not monotonic, the final offset differing
    /// from the number of stored values, or an index out of bounds.
    MalformedSparseLayout,
    /// A solve was attempted with shapes that do not fit together, or a
    /// dense matrix was built from a value buffer of the wrong length.
    DimensionMismatch,
    /// An element access lay outside the matrix.
    IndexOutOfRange,
    /// The kernel rejected the argument at this position (1-based).
    InvalidArgument(i32),
    /// Factorization met an exactly singular pivot at this index (0-based);
    /// the partial factors are unusable.
    SingularMatrix(usize),
    /// The kernel ran out of workspace after allocating this many bytes.
    AllocationFailure(usize),
}

impl Error {
    /// True for the two kernel-reported terminal failures, after which a
    /// workflow instance must not be reused.
    pub fn is_terminal(&self) -> (r: bool)
        ensures
            r == (self is SingularMatrix || self is AllocationFailure),
    {
        match self {
            Error::SingularMatrix(_) => true,
            Error::AllocationFailure(_) => true,
            _ => false,
        }
    }
}

} // verus!
