//! The numeric capability that matrix elements must offer.
//!
//! The orchestration layer is written once over any element type that can
//! produce a zero and a one and combine values by addition and
//! multiplication.  Each operation is pinned to a specification-level
//! counterpart, and the small algebraic identities that the matrix-vector
//! product relies on must be proved by every implementation.
//!
//! The crate itself grounds the trait with an `i64` implementation whose
//! arithmetic wraps around on overflow, so that every operation is total.

use vstd::prelude::*;

verus! {

/// An element type of a sparse or dense matrix.
pub trait ValueType: Sized + Copy {
    /// The additive identity, at the specification level.
    spec fn zero_spec() -> Self;

    /// The multiplicative identity, at the specification level.
    spec fn one_spec() -> Self;

    /// Addition, at the specification level.
    spec fn add_spec(self, other: Self) -> Self;

    /// Multiplication, at the specification level.
    spec fn mul_spec(self, other: Self) -> Self;

    /// The additive identity.
    fn zero() -> (r: Self)
        ensures
            r == Self::zero_spec(),
    ;

    /// The multiplicative identity.
    fn one() -> (r: Self)
        ensures
            r == Self::one_spec(),
    ;

    /// Addition.
    fn add(self, other: Self) -> (r: Self)
        ensures
            r == self.add_spec(other),
    ;

    /// Multiplication.
    fn mul(self, other: Self) -> (r: Self)
        ensures
            r == self.mul_spec(other),
    ;

    /// Zero is an identity for addition, on either side.
    proof fn lemma_add_zero(a: Self)
        ensures
            Self::zero_spec().add_spec(a) == a,
            a.add_spec(Self::zero_spec()) == a,
    ;

    /// Multiplying by zero gives zero.
    proof fn lemma_mul_zero(a: Self)
        ensures
            a.mul_spec(Self::zero_spec()) == Self::zero_spec(),
    ;

    /// One is an identity for multiplication, on the right.
    proof fn lemma_mul_one(a: Self)
        ensures
            a.mul_spec(Self::one_spec()) == a,
    ;
}

impl ValueType for i64 {
    open spec fn zero_spec() -> i64 {
        0i64
    }

    open spec fn one_spec() -> i64 {
        1i64
    }

    open spec fn add_spec(self, other: i64) -> i64 {
        vstd::wrapping::i64_specs::wrapping_add(self, other)
    }

    open spec fn mul_spec(self, other: i64) -> i64 {
        vstd::wrapping::i64_specs::wrapping_mul(self, other)
    }

    fn zero() -> (r: i64) {
        0i64
    }

    fn one() -> (r: i64) {
        1i64
    }

    fn add(self, other: i64) -> (r: i64) {
        self.wrapping_add(other)
    }

    fn mul(self, other: i64) -> (r: i64) {
        self.wrapping_mul(other)
    }

    proof fn lemma_add_zero(a: i64) {
    }

    proof fn lemma_mul_zero(a: i64) {
    }

    proof fn lemma_mul_one(a: i64) {
        assert(vstd::wrapping::i64_specs::wrapping_mul(a, 1i64) == a) by {
            assert(a as int * 1int == a as int);
            if a >= 0 {
                assert((a as int) % 0x1_0000_0000_0000_0000 == a as int);
            } else {
                assert((a as int) % 0x1_0000_0000_0000_0000 == a + 0x1_0000_0000_0000_0000);
            }
        }
    }
}

} // verus!
