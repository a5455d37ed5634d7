//! The per-level dot counter the edibles collaborator maintains.

use vstd::prelude::*;

verus! {

/// Monotonic non-decreasing count of dots eaten this level, bounded by
/// the level's total; the remaining count is `total - eaten`. Reset to
/// zero at level start.
#[derive(Clone, Copy, Debug, PartialEq, Eq, Structural)]
pub struct EatenDots {
    pub eaten: u32,
    pub total: u32,
}

impl EatenDots {
    /// Well-formedness: never more dots eaten than the level holds.
    pub open spec fn wf(self) -> bool {
        self.eaten <= self.total
    }

    /// A fresh counter for a level with `total` dots.
    pub fn new(total: u32) -> (r: EatenDots)
        ensures
            r.wf(),
            r.eaten == 0,
            r.total == total,
    {
        EatenDots { eaten: 0, total }
    }

    /// Counts one eaten dot; without effect once every dot of the level
    /// has been counted.
    pub fn eat(&mut self)
        ensures
            final(self).total == old(self).total,
            final(self).eaten == if old(self).eaten < old(self).total {
                old(self).eaten + 1
            } else {
                old(self).eaten as int
            },
            old(self).wf() ==> final(self).wf(),
    {
        if self.eaten < self.total {
            self.eaten = self.eaten + 1;
        }
    }

    /// Returns the number of dots eaten so far.
    pub fn get_eaten(&self) -> (r: u32)
        ensures
            r == self.eaten,
    {
        self.eaten
    }

    /// Returns the number of dots remaining on the board.
    pub fn get_remaining(&self) -> (r: u32)
        requires
            self.wf(),
        ensures
            r == self.total - self.eaten,
    {
        self.total - self.eaten
    }

    /// Resets the counter to zero at level start.
    pub fn reset(&mut self)
        ensures
            final(self).total == old(self).total,
            final(self).eaten == 0,
            final(self).wf(),
    {
        self.eaten = 0;
    }
}

} // verus!
