//! The scheduler that walks the active switching pattern and drives the
//! relay.
//!
//! The driving loop itself lives with the caller: once per 200 ms time slice
//! it asks for the output at the current step, drives the physical pin,
//! advances the step, and hands any pending lock/unlock command or changed
//! duty value to the methods here. This module holds the whole decision
//! state: the active pattern, the current step index, and the safety lock.

use crate::pattern::TOTAL_STEPS;
use crate::pattern::all_off;
use crate::pattern::generate_evenly_distributed_steps;
use crate::pattern::lemma_pattern_zero_all_off;
use crate::pattern::pattern_seq;
use vstd::prelude::*;

verus! {

/// Commands controlling the safety lock of the scheduler.
#[derive(Clone, Copy, Debug, PartialEq, Eq, Structural)]
pub enum SsrCommand {
    /// Sets the SSR duty to zero and locks it from being updated.
    Lock,
    /// Unlocks the SSR duty, allowing it to be updated.
    /// Remains set to zero until an update.
    Unlock,
}

/// State of the relay scheduler: the active on/off pattern, the step the
/// cycle currently stands at, and whether the safety lock is engaged.
pub struct SsrScheduler {
    pattern: Vec<bool>,
    step: usize,
    is_locked: bool,
}

impl SsrScheduler {
    /// The active switching pattern.
    pub closed spec fn spec_pattern(&self) -> Seq<bool> {
        self.pattern@
    }

    /// The step of the pattern the cycle currently stands at.
    pub closed spec fn spec_step(&self) -> int {
        self.step as int
    }

    /// Whether the safety lock is engaged.
    pub closed spec fn spec_locked(&self) -> bool {
        self.is_locked
    }

    /// Validity: the pattern always spans a full cycle, the step index stays
    /// inside it, and while the lock is engaged the pattern is all off.
    pub open spec fn wf(&self) -> bool {
        &&& self.spec_pattern().len() == TOTAL_STEPS
        &&& 0 <= self.spec_step() < TOTAL_STEPS
        &&& (self.spec_locked() ==> all_off(self.spec_pattern()))
    }

    /// A fresh scheduler: unlocked, at the first step of the pattern for a
    /// duty of 100 percent.
    pub fn new() -> (scheduler: Self)
        ensures
            scheduler.wf(),
            scheduler.spec_pattern() == pattern_seq(100),
            scheduler.spec_step() == 0,
            !scheduler.spec_locked(),
    {
        SsrScheduler {
            pattern: generate_evenly_distributed_steps(100),
            step: 0,
            is_locked: false,
        }
    }

    /// Whether the safety lock is engaged.
    pub fn is_locked(&self) -> (locked: bool)
        ensures
            locked == self.spec_locked(),
    {
        self.is_locked
    }

    /// The step of the pattern the cycle currently stands at.
    pub fn step(&self) -> (step: usize)
        ensures
            step == self.spec_step(),
    {
        self.step
    }

    /// The active switching pattern.
    pub fn pattern(&self) -> (pattern: &Vec<bool>)
        ensures
            pattern@ == self.spec_pattern(),
    {
        &self.pattern
    }

    /// The relay state to drive during the current step.
    pub fn current_output(&self) -> (on: bool)
        requires
            self.wf(),
        ensures
            on == self.spec_pattern()[self.spec_step()],
    {
        self.pattern[self.step]
    }

    /// Moves to the next step, wrapping around at the end of the cycle.
    /// Nothing else changes.
    pub fn advance_step(&mut self)
        requires
            old(self).wf(),
        ensures
            final(self).wf(),
            final(self).spec_step() == (old(self).spec_step() + 1) % (TOTAL_STEPS as int),
            final(self).spec_pattern() == old(self).spec_pattern(),
            final(self).spec_locked() == old(self).spec_locked(),
    {
        if self.step + 1 < TOTAL_STEPS {
            self.step = self.step + 1;
        } else {
            self.step = 0;
        }
    }

    /// Applies a lock or unlock command.
    ///
    /// Locking replaces the pattern with the all-off pattern and engages the
    /// lock. Unlocking only releases the lock: the pattern stays all off
    /// until the next accepted duty update regenerates it. The step index
    /// never moves.
    pub fn handle_command(&mut self, command: SsrCommand)
        requires
            old(self).wf(),
        ensures
            final(self).wf(),
            final(self).spec_step() == old(self).spec_step(),
            command is Lock ==> final(self).spec_locked() && final(self).spec_pattern()
                == pattern_seq(0) && all_off(final(self).spec_pattern()),
            command is Unlock ==> !final(self).spec_locked() && final(self).spec_pattern() == old(
                self,
            ).spec_pattern(),
    {
        match command {
            SsrCommand::Lock => {
                self.pattern = generate_evenly_distributed_steps(0);
                self.is_locked = true;
                proof {
                    lemma_pattern_zero_all_off();
                }
            },
            SsrCommand::Unlock => {
                self.is_locked = false;
            },
        }
    }

    /// Applies a changed duty value.
    ///
    /// While the lock is engaged the update is ignored entirely and the
    /// pattern stays all off. Otherwise the pattern is regenerated for the
    /// new duty and the cycle continues from the same step index, without a
    /// phase reset: because patterns are evenly distributed, resuming
    /// mid-cycle lands near the correct average power instead of replaying a
    /// whole cycle.
    pub fn update_duty(&mut self, new_duty_cycle: u8)
        requires
            old(self).wf(),
            new_duty_cycle <= 100,
        ensures
            final(self).wf(),
            final(self).spec_step() == old(self).spec_step(),
            final(self).spec_locked() == old(self).spec_locked(),
            old(self).spec_locked() ==> final(self).spec_pattern() == old(self).spec_pattern(),
            !old(self).spec_locked() ==> final(self).spec_pattern() == pattern_seq(
                new_duty_cycle as int,
            ),
    {
        if !self.is_locked {
            self.pattern = generate_evenly_distributed_steps(new_duty_cycle);
        }
    }
}

} // verus!
