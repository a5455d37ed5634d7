//! The global time-indexed table of the non-frightened mode.
//!
//! A schedule is an ordered list of phases, each with a duration and a
//! mode (`Scatter` or `Chase`). Elapsed running time selects the current
//! phase; phases are consumed strictly in order, and once the last phase
//! is reached its mode holds indefinitely. The elapsed time is reset
//! exactly once per level transition.

use vstd::prelude::*;
use crate::state::State;

verus! {

/// One phase of the schedule: `mode` holds for `duration` milliseconds.
#[derive(Clone, Copy, Debug, PartialEq, Eq, Structural)]
pub struct Phase {
    pub duration_ms: u64,
    pub mode: State,
}

/// A well-formed phase list is non-empty and holds only the two global
/// modes `Scatter` and `Chase`.
pub open spec fn phases_wf(phases: Seq<Phase>) -> bool {
    &&& phases.len() >= 1
    &&& forall|i: int| 0 <= i < phases.len() ==> ((#[trigger] phases[i].mode) is Scatter || phases[i].mode is Chase)
}

/// The mode the phase list prescribes at time `t`: the first phase whose
/// time span contains `t`, or the last phase's mode once all durations
/// have passed.
pub open spec fn mode_at(phases: Seq<Phase>, t: int) -> State
    recommends
        phases.len() >= 1,
    decreases phases.len(),
{
    if phases.len() <= 1 {
        phases[0].mode
    } else if t < phases[0].duration_ms {
        phases[0].mode
    } else {
        mode_at(phases.skip(1), t - phases[0].duration_ms)
    }
}

/// The sum of all phase durations.
pub open spec fn total_duration(phases: Seq<Phase>) -> int
    decreases phases.len(),
{
    if phases.len() == 0 {
        0
    } else {
        phases[0].duration_ms + total_duration(phases.skip(1))
    }
}

/// The time-indexed table of the global non-frightened mode.
#[derive(Debug)]
pub struct Schedule {
    pub phases: Vec<Phase>,
    pub elapsed_ms: u64,
}

impl Schedule {
    /// Well-formedness: the phase list is non-empty and holds only
    /// `Scatter` and `Chase`.
    pub open spec fn wf(self) -> bool {
        phases_wf(self.phases@)
    }

    /// The mode prescribed for the current elapsed time.
    pub open spec fn spec_current(self) -> State {
        mode_at(self.phases@, self.elapsed_ms as int)
    }

    /// Builds a schedule at elapsed time zero over the given phases.
    pub fn new(phases: Vec<Phase>) -> (r: Schedule)
        requires
            phases_wf(phases@),
        ensures
            r.wf(),
            r.phases@ == phases@,
            r.elapsed_ms == 0,
    {
        Schedule { phases, elapsed_ms: 0 }
    }

    /// Advances the elapsed running time by `delta_ms`, saturating at the
    /// numeric maximum.
    pub fn advance(&mut self, delta_ms: u64)
        ensures
            final(self).phases@ == old(self).phases@,
            final(self).elapsed_ms == if old(self).elapsed_ms + delta_ms <= u64::MAX {
                old(self).elapsed_ms + delta_ms
            } else {
                u64::MAX as int
            },
    {
        if self.elapsed_ms <= u64::MAX - delta_ms {
            self.elapsed_ms = self.elapsed_ms + delta_ms;
        } else {
            self.elapsed_ms = u64::MAX;
        }
    }

    /// Resets the elapsed running time to zero; applied exactly once per
    /// level transition.
    pub fn reset(&mut self)
        ensures
            final(self).phases@ == old(self).phases@,
            final(self).elapsed_ms == 0,
    {
        self.elapsed_ms = 0;
    }

    /// Returns the mode of the phase corresponding to the elapsed running
    /// time.
    pub fn current_state(&self) -> (r: State)
        requires
            self.wf(),
        ensures
            r == self.spec_current(),
            r is Scatter || r is Chase,
    {
        let ghost all_phases: Seq<Phase> = self.phases@;
        let mut i: usize = 0;
        let mut t: u64 = self.elapsed_ms;
        proof {
            assert(self.phases@.skip(0) =~= self.phases@);
        }
        while i < self.phases.len() - 1 && t >= self.phases[i].duration_ms
            invariant
                self.wf(),
                0 <= i < self.phases@.len(),
                all_phases == self.phases@,
                mode_at(all_phases, self.elapsed_ms as int) == mode_at(self.phases@.skip(i as int), t as int),
            decreases self.phases@.len() - i,
        {
            proof {
                assert(self.phases@.skip(i as int).skip(1) =~= self.phases@.skip(i + 1));
            }
            t = t - self.phases[i].duration_ms;
            i = i + 1;
        }
        proof {
            let rest = self.phases@.skip(i as int);
            assert(rest[0] == self.phases@[i as int]);
            assert(mode_at(rest, t as int) == self.phases@[i as int].mode);
        }
        self.phases[i].mode
    }
}

/// Once the elapsed time has passed the sum of all phase durations, the
/// last phase's mode holds, whatever the further elapsed time: the last
/// phase is sticky.
pub proof fn lemma_schedule_sticky(phases: Seq<Phase>, t: int)
    requires
        phases.len() >= 1,
        t >= total_duration(phases),
    ensures
        mode_at(phases, t) == phases[phases.len() - 1].mode,
    decreases phases.len(),
{
    if phases.len() <= 1 {
    } else {
        assert(total_duration(phases.skip(1)) >= 0) by {
            lemma_total_duration_nonneg(phases.skip(1));
        }
        lemma_schedule_sticky(phases.skip(1), t - phases[0].duration_ms);
        assert(phases.skip(1)[phases.len() - 2] == phases[phases.len() - 1]);
    }
}

/// The sum of phase durations is non-negative.
pub proof fn lemma_total_duration_nonneg(phases: Seq<Phase>)
    ensures
        total_duration(phases) >= 0,
    decreases phases.len(),
{
    if phases.len() > 0 {
        lemma_total_duration_nonneg(phases.skip(1));
    }
}

} // verus!
