//! The performance-statistics sink a solve reports into.
//!
//! The native kernel keeps a statistics object that must be initialized
//! before a solve, may serve several solves in sequence, and must be
//! freed exactly once.  This model makes that lifecycle explicit: a
//! value is ready from construction, accumulates counters while ready,
//! and refuses every operation once freed.

use vstd::prelude::*;

verus! {

/// The statistics sink for a sequence of solves.
///
/// Counters saturate instead of wrapping: a counter that has reached its
/// maximum stays there.
#[derive(Debug)]
pub struct CSuperluStat {
    freed: bool,
    tiny_pivots: u64,
    refine_steps: u64,
    expansions: u64,
}

impl CSuperluStat {
    /// The sink is initialized and not yet freed.
    pub closed spec fn is_ready_spec(self) -> bool {
        !self.freed
    }

    /// Pivots the factorization judged too small.
    pub closed spec fn tiny_pivots_spec(self) -> u64 {
        self.tiny_pivots
    }

    /// Iterative refinement steps taken.
    pub closed spec fn refine_steps_spec(self) -> u64 {
        self.refine_steps
    }

    /// Workspace expansions the kernel performed.
    pub closed spec fn expansions_spec(self) -> u64 {
        self.expansions
    }

    /// All counters are zero.
    pub open spec fn is_zeroed(self) -> bool {
        self.tiny_pivots_spec() == 0 && self.refine_steps_spec() == 0 && self.expansions_spec()
            == 0
    }

    /// Initialize a fresh statistics sink, ready for use with all
    /// counters at zero.
    pub fn new() -> (r: Self)
        ensures
            r.is_ready_spec(),
            r.is_zeroed(),
    {
        CSuperluStat { freed: false, tiny_pivots: 0, refine_steps: 0, expansions: 0 }
    }

    /// Whether the sink is still ready for use.
    pub fn is_ready(&self) -> (r: bool)
        ensures
            r == self.is_ready_spec(),
    {
        !self.freed
    }

    /// Add one solve's counter deltas into the sink, saturating at the
    /// counters' maximum.
    pub fn record(&mut self, tiny_pivots: u64, refine_steps: u64, expansions: u64)
        requires
            old(self).is_ready_spec(),
        ensures
            final(self).is_ready_spec(),
            final(self).tiny_pivots_spec() == if old(self).tiny_pivots_spec() + tiny_pivots
                <= u64::MAX {
                (old(self).tiny_pivots_spec() + tiny_pivots) as u64
            } else {
                u64::MAX
            },
            final(self).refine_steps_spec() == if old(self).refine_steps_spec() + refine_steps
                <= u64::MAX {
                (old(self).refine_steps_spec() + refine_steps) as u64
            } else {
                u64::MAX
            },
            final(self).expansions_spec() == if old(self).expansions_spec() + expansions
                <= u64::MAX {
                (old(self).expansions_spec() + expansions) as u64
            } else {
                u64::MAX
            },
    {
        self.tiny_pivots = self.tiny_pivots.saturating_add(tiny_pivots);
        self.refine_steps = self.refine_steps.saturating_add(refine_steps);
        self.expansions = self.expansions.saturating_add(expansions);
    }

    /// Pivots the factorization judged too small so far.
    pub fn tiny_pivots(&self) -> (r: u64)
        requires
            self.is_ready_spec(),
        ensures
            r == self.tiny_pivots_spec(),
    {
        self.tiny_pivots
    }

    /// Iterative refinement steps taken so far.
    pub fn refine_steps(&self) -> (r: u64)
        requires
            self.is_ready_spec(),
        ensures
            r == self.refine_steps_spec(),
    {
        self.refine_steps
    }

    /// Workspace expansions performed so far.
    pub fn expansions(&self) -> (r: u64)
        requires
            self.is_ready_spec(),
        ensures
            r == self.expansions_spec(),
    {
        self.expansions
    }

    /// Clear the counters between solves.
    pub fn reset(&mut self)
        requires
            old(self).is_ready_spec(),
        ensures
            final(self).is_ready_spec(),
            final(self).is_zeroed(),
    {
        self.tiny_pivots = 0;
        self.refine_steps = 0;
        self.expansions = 0;
    }

    /// Retire the sink.
    ///
    /// Freeing demands a ready sink, so each sink is freed exactly once
    /// and never used afterwards: every other operation demands a ready
    /// sink too.
    pub fn free(&mut self)
        requires
            old(self).is_ready_spec(),
        ensures
            !final(self).is_ready_spec(),
    {
        self.freed = true;
    }
}

} // verus!
