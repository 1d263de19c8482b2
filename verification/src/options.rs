//! Option and tag types mirrored from the native factorization kernel.
//!
//! The enums name, without any numeric encoding, the choices the kernel
//! understands: value precision, storage scheme, mathematical shape,
//! factorization mode, permutation policies and refinement switches.
//! [`SolverOptions`] gathers the switches that the solve workflow sets;
//! the kernel's remaining tuning knobs are floating-point thresholds that
//! the caller-facing layer passes through untouched.

use vstd::prelude::*;

verus! {

/// Precision and domain of the stored values.
#[derive(Clone, Copy, Debug, PartialEq, Eq, Structural)]
#[allow(non_camel_case_types)]
pub enum Dtype_t {
    SLU_S,
    SLU_D,
    SLU_C,
    SLU_Z,
}

/// Mathematical properties of the matrix.
#[derive(Clone, Copy, Debug, PartialEq, Eq, Structural)]
#[allow(non_camel_case_types)]
pub enum Mtype_t {
    SLU_GE,
    SLU_TRLU,
    SLU_TRUU,
    SLU_TRL,
    SLU_TRU,
    SLU_SYL,
    SLU_SYU,
    SLU_HEL,
    SLU_HEU,
}

/// Storage scheme of a native matrix.
#[derive(Clone, Copy, Debug, PartialEq, Eq, Structural)]
#[allow(non_camel_case_types)]
pub enum Stype_t {
    SLU_NC,
    SLU_NCP,
    SLU_NR,
    SLU_SC,
    SLU_SCP,
    SLU_SR,
    SLU_DN,
    SLU_NR_loc,
}

/// A plain yes/no switch.
#[derive(Clone, Copy, Debug, PartialEq, Eq, Structural)]
#[allow(non_camel_case_types)]
pub enum yes_no_t {
    NO,
    YES,
}

/// How much of a previous factorization the kernel may reuse.
#[derive(Clone, Copy, Debug, PartialEq, Eq, Structural)]
#[allow(non_camel_case_types)]
pub enum fact_t {
    DOFACT,
    SamePattern,
    SamePattern_SameRowPerm,
    FACTORED,
}

/// How the column permutation is chosen.
#[derive(Clone, Copy, Debug, PartialEq, Eq, Structural)]
#[allow(non_camel_case_types)]
pub enum colperm_t {
    NATURAL,
    MMD_ATA,
    MMD_AT_PLUS_A,
    COLAMD,
    METIS_AT_PLUS_A,
    PARAMETIS,
    ZOLTAN,
    MY_PERMC,
}

/// Whether the system is solved as given, transposed, or conjugated.
#[derive(Clone, Copy, Debug, PartialEq, Eq, Structural)]
#[allow(non_camel_case_types)]
pub enum trans_t {
    NOTRANS,
    TRANS,
    CONJ,
}

/// Iterative refinement mode.
#[derive(Clone, Copy, Debug, PartialEq, Eq, Structural)]
#[allow(non_camel_case_types)]
pub enum IterRefine_t {
    NOREFINE,
    SLU_SINGLE,
    SLU_DOUBLE,
    SLU_EXTRA,
}

/// How the row permutation is chosen.
#[derive(Clone, Copy, Debug, PartialEq, Eq, Structural)]
#[allow(non_camel_case_types)]
pub enum rowperm_t {
    NOROWPERM,
    LargeDiag_MC64,
    LargeDiag_HWPM,
    MY_PERMR,
}

/// Which norm a condition estimate uses.
#[derive(Clone, Copy, Debug, PartialEq, Eq, Structural)]
#[allow(non_camel_case_types)]
pub enum norm_t {
    ONE_NORM,
    TWO_NORM,
    INF_NORM,
}

/// Variant of modified incomplete factorization.
#[derive(Clone, Copy, Debug, PartialEq, Eq, Structural)]
#[allow(non_camel_case_types)]
pub enum milu_t {
    SILU,
    SMILU_1,
    SMILU_2,
    SMILU_3,
}

/// The column-permutation policy a caller picks for a fresh solve.
#[derive(Clone, Copy, Debug, PartialEq, Eq, Structural)]
pub enum ColumnPermPolicy {
    /// Keep the columns in their natural order.
    Natural,
    /// Minimum degree ordering on the structure of A^T A.
    MmdAtA,
    /// Minimum degree ordering on the structure of A^T + A.
    MmdAtPlusA,
    /// Approximate minimum degree column ordering.
    ColAmd,
}

impl ColumnPermPolicy {
    /// The kernel-side ordering tag this policy stands for.
    pub open spec fn to_colperm_spec(self) -> colperm_t {
        match self {
            ColumnPermPolicy::Natural => colperm_t::NATURAL,
            ColumnPermPolicy::MmdAtA => colperm_t::MMD_ATA,
            ColumnPermPolicy::MmdAtPlusA => colperm_t::MMD_AT_PLUS_A,
            ColumnPermPolicy::ColAmd => colperm_t::COLAMD,
        }
    }

    /// Translate the policy into the kernel's ordering tag.
    pub fn to_colperm(self) -> (r: colperm_t)
        ensures
            r == self.to_colperm_spec(),
    {
        match self {
            ColumnPermPolicy::Natural => colperm_t::NATURAL,
            ColumnPermPolicy::MmdAtA => colperm_t::MMD_ATA,
            ColumnPermPolicy::MmdAtPlusA => colperm_t::MMD_AT_PLUS_A,
            ColumnPermPolicy::ColAmd => colperm_t::COLAMD,
        }
    }
}

/// The switches the solve workflow hands to the kernel.
///
/// The kernel's floating-point thresholds (pivot threshold, drop
/// tolerances) are opaque pass-through values chosen outside this layer;
/// everything the workflow decides is here.
#[derive(Clone, Copy, Debug, PartialEq, Eq, Structural)]
pub struct SolverOptions {
    pub fact: fact_t,
    pub equil: yes_no_t,
    pub col_perm: colperm_t,
    pub trans: trans_t,
    pub iter_refine: IterRefine_t,
    pub symmetric_mode: yes_no_t,
    pub pivot_growth: yes_no_t,
    pub condition_number: yes_no_t,
    pub row_perm: rowperm_t,
    pub print_stat: yes_no_t,
}

impl SolverOptions {
    /// The kernel's documented defaults: factorize from scratch with
    /// equilibration, approximate minimum degree column ordering, no
    /// transpose and no iterative refinement.
    pub open spec fn defaults() -> SolverOptions {
        SolverOptions {
            fact: fact_t::DOFACT,
            equil: yes_no_t::YES,
            col_perm: colperm_t::COLAMD,
            trans: trans_t::NOTRANS,
            iter_refine: IterRefine_t::NOREFINE,
            symmetric_mode: yes_no_t::NO,
            pivot_growth: yes_no_t::NO,
            condition_number: yes_no_t::NO,
            row_perm: rowperm_t::LargeDiag_MC64,
            print_stat: yes_no_t::YES,
        }
    }
}

impl Default for SolverOptions {
    /// Build the kernel's documented default option set.
    fn default() -> (r: SolverOptions)
        ensures
            r == SolverOptions::defaults(),
    {
        SolverOptions {
            fact: fact_t::DOFACT,
            equil: yes_no_t::YES,
            col_perm: colperm_t::COLAMD,
            trans: trans_t::NOTRANS,
            iter_refine: IterRefine_t::NOREFINE,
            symmetric_mode: yes_no_t::NO,
            pivot_growth: yes_no_t::NO,
            condition_number: yes_no_t::NO,
            row_perm: rowperm_t::LargeDiag_MC64,
            print_stat: yes_no_t::YES,
        }
    }
}

} // verus!
