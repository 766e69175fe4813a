//! The animation clock: elapsed wall time becomes an iteration budget, and an
//! offset freezes or restarts the apparent depth without stopping the clock.

use vstd::prelude::*;

verus! {

/// Milliseconds of elapsed time that buy one unit of iteration budget.
pub const STEP_DIVISOR: usize = 100;

/// The raw iteration budget after `elapsed_millis` milliseconds.
pub open spec fn budget_at(elapsed_millis: usize) -> usize {
    elapsed_millis / STEP_DIVISOR
}

/// Computes the raw iteration budget for an elapsed time.
pub fn raw_budget(elapsed_millis: usize) -> (budget: usize)
    ensures
        budget == budget_at(elapsed_millis),
{
    elapsed_millis / STEP_DIVISOR
}

/// The raw budget never decreases as time advances.
pub proof fn lemma_budget_nondecreasing(earlier: usize, later: usize)
    requires
        earlier <= later,
    ensures
        budget_at(earlier) <= budget_at(later),
{
}

/// The clock's state: the raw budget derived from the last tick, the baseline that
/// is subtracted from it, and whether the animation is running.
#[derive(Clone, Copy, Debug, PartialEq, Eq)]
pub struct AnimationState {
    pub raw_budget: usize,
    pub offset: usize,
    pub running: bool,
}

impl AnimationState {
    /// The offset never exceeds the raw budget, so the effective iteration count is
    /// never negative.
    pub open spec fn wf(&self) -> bool {
        self.offset <= self.raw_budget
    }

    /// The iteration cap that a frame rendered in this state uses.
    pub open spec fn effective(&self) -> int {
        self.raw_budget - self.offset
    }

    /// The state after a tick at `elapsed_millis`: the raw budget follows the clock,
    /// and a paused animation moves its offset along with it.
    pub open spec fn advanced(&self, elapsed_millis: usize) -> AnimationState {
        let budget = budget_at(elapsed_millis);
        AnimationState {
            raw_budget: budget,
            offset: if self.running { self.offset } else { budget },
            running: self.running,
        }
    }

    /// The state after a freeze: the offset catches up with the raw budget.
    pub open spec fn frozen(&self) -> AnimationState {
        AnimationState { raw_budget: self.raw_budget, offset: self.raw_budget, running: self.running }
    }

    /// The state after a toggle of `running`.
    pub open spec fn toggled(&self) -> AnimationState {
        AnimationState { raw_budget: self.raw_budget, offset: self.offset, running: !self.running }
    }

    /// A running clock at time zero.
    pub fn new() -> (state: AnimationState)
        ensures
            state == (AnimationState { raw_budget: 0, offset: 0, running: true }),
            state.wf(),
    {
        AnimationState { raw_budget: 0, offset: 0, running: true }
    }

    /// The iteration cap for the next frame: raw budget minus offset.
    pub fn effective_iterations(&self) -> (iterations: usize)
        requires
            self.wf(),
        ensures
            iterations == self.effective(),
    {
        self.raw_budget - self.offset
    }

    /// Sets the offset to the raw budget, so that the effective count restarts at
    /// zero and grows from there.
    pub fn freeze_depth(&mut self)
        ensures
            *final(self) == old(self).frozen(),
            final(self).wf(),
            final(self).effective() == 0,
    {
        self.offset = self.raw_budget;
    }

    /// Flips `running`; budget and offset stay as they are.
    pub fn toggle_running(&mut self)
        ensures
            *final(self) == old(self).toggled(),
            old(self).wf() ==> final(self).wf(),
            final(self).effective() == old(self).effective(),
    {
        self.running = !self.running;
    }

    /// Takes a reading of the clock. The raw budget becomes the budget at
    /// `elapsed_millis`; while paused the offset is moved to the new raw budget.
    /// Returns whether the raw budget changed.
    ///
    /// The clock is monotonic: the reading may not lie before the previous one.
    pub fn advance(&mut self, elapsed_millis: usize) -> (changed: bool)
        requires
            old(self).wf(),
            old(self).raw_budget <= budget_at(elapsed_millis),
        ensures
            *final(self) == old(self).advanced(elapsed_millis),
            changed == (old(self).raw_budget != budget_at(elapsed_millis)),
            final(self).wf(),
            old(self).raw_budget <= final(self).raw_budget,
            old(self).running ==> old(self).effective() <= final(self).effective(),
            !old(self).running ==> final(self).effective() == 0,
    {
        let budget = raw_budget(elapsed_millis);
        let changed = budget != self.raw_budget;
        self.raw_budget = budget;
        if !self.running {
            self.offset = budget;
        }
        changed
    }
}

/// Once a paused clock has taken one reading, further readings leave the effective
/// iteration count where that reading put it.
pub proof fn lemma_paused_depth_is_frozen(state: AnimationState, first: usize, second: usize)
    requires
        !state.running,
    ensures
        state.advanced(first).advanced(second).effective() == state.advanced(first).effective(),
        !state.advanced(first).advanced(second).running,
{
}

} // verus!
