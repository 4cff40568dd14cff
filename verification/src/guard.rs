//! A latch that opens once and a count of those who hold it.
//!
//! The first-time setup has to run exactly once, however often the hook
//! fires, and the teardown only when the last holder has let go. The guard
//! itself is a plain value; a caller that enters from several threads keeps
//! it behind a lock.

use vstd::prelude::*;

verus! {

/// What the guard remembers.
pub struct GuardState {
    /// Whether the protected action has been handed out.
    pub fired: bool,
    /// How many entries have not been matched by a release.
    pub holders: nat,
}

impl GuardState {
    /// The state in which nobody has entered yet.
    pub open spec fn fresh() -> GuardState {
        GuardState { fired: false, holders: 0 }
    }

    /// What one entry leaves behind. The count saturates.
    pub open spec fn entered(self) -> GuardState {
        GuardState {
            fired: true,
            holders: if self.holders < u32::MAX {
                self.holders + 1
            } else {
                self.holders
            },
        }
    }

    /// Whether an entry into this state is the one that runs the action.
    pub open spec fn runs_action(self) -> bool {
        !self.fired
    }

    /// What one release leaves behind. A release without a holder changes
    /// nothing.
    pub open spec fn released(self) -> GuardState {
        GuardState {
            fired: self.fired,
            holders: if self.holders > 0 {
                (self.holders - 1) as nat
            } else {
                0
            },
        }
    }

    /// Whether a release from this state is the one that runs the teardown.
    pub open spec fn runs_teardown(self) -> bool {
        self.holders == 1
    }

    /// The state after `count` entries.
    pub open spec fn entered_times(self, count: nat) -> GuardState
        decreases count,
    {
        if count == 0 {
            self
        } else {
            self.entered_times((count - 1) as nat).entered()
        }
    }

    /// The state after `count` releases.
    pub open spec fn released_times(self, count: nat) -> GuardState
        decreases count,
    {
        if count == 0 {
            self
        } else {
            self.released_times((count - 1) as nat).released()
        }
    }
}

/// The one-shot latch with its count of holders.
pub struct InitGuard {
    fired: bool,
    holders: u32,
}

impl View for InitGuard {
    type V = GuardState;

    closed spec fn view(&self) -> GuardState {
        GuardState { fired: self.fired, holders: self.holders as nat }
    }
}

impl InitGuard {
    /// A guard that nobody has entered.
    pub fn new() -> (guard: InitGuard)
        ensures
            guard@ == GuardState::fresh(),
    {
        InitGuard { fired: false, holders: 0 }
    }

    /// One call of the initialization entry point. The caller is counted as
    /// a holder, and is told whether it is the one that has to run the
    /// protected action: the first caller is, and no other.
    pub fn enter(&mut self) -> (run: bool)
        ensures
            run == old(self)@.runs_action(),
            final(self)@ == old(self)@.entered(),
    {
        let run = !self.fired;
        self.fired = true;
        if self.holders < u32::MAX {
            self.holders = self.holders + 1;
        }
        run
    }

    /// One release. The caller is told whether it was the last holder and
    /// so has to run the teardown.
    pub fn release(&mut self) -> (teardown: bool)
        ensures
            teardown == old(self)@.runs_teardown(),
            final(self)@ == old(self)@.released(),
    {
        let teardown = self.holders == 1;
        if self.holders > 0 {
            self.holders = self.holders - 1;
        }
        teardown
    }

    /// Whether the protected action has been handed out.
    pub fn has_fired(&self) -> (fired: bool)
        ensures
            fired == self@.fired,
    {
        self.fired
    }

    /// How many holders have not released.
    pub fn holders(&self) -> (holders: u32)
        ensures
            holders == self@.holders,
    {
        self.holders
    }
}

/// What `count` entries into a fresh guard leave behind.
pub proof fn lemma_entered_times(count: nat)
    ensures
        GuardState::fresh().entered_times(count).fired == (count > 0),
        GuardState::fresh().entered_times(count).holders == if count <= u32::MAX {
            count
        } else {
            u32::MAX as nat
        },
    decreases count,
{
    if count > 0 {
        lemma_entered_times((count - 1) as nat);
    }
}

/// What `count` releases leave of the holders.
pub proof fn lemma_released_times(state: GuardState, count: nat)
    ensures
        state.released_times(count).fired == state.fired,
        state.released_times(count).holders == if count <= state.holders {
            (state.holders - count) as nat
        } else {
            0
        },
    decreases count,
{
    if count > 0 {
        lemma_released_times(state, (count - 1) as nat);
    }
}

/// The protected action runs exactly once: of any number of entries into a
/// fresh guard, the first is told to run it and none after it is.
pub proof fn lemma_action_runs_once(earlier: nat)
    ensures
        GuardState::fresh().entered_times(earlier).runs_action() <==> earlier == 0,
{
    lemma_entered_times(earlier);
}

/// The teardown runs on the last release and on no other: after `entries`
/// entries into a fresh guard, as many as the counter can hold, the release
/// that follows `earlier` releases is told to run the teardown exactly if it
/// is the `entries`-th.
pub proof fn lemma_teardown_on_last_release(entries: nat, earlier: nat)
    requires
        entries <= u32::MAX,
    ensures
        GuardState::fresh().entered_times(entries).released_times(earlier).runs_teardown()
            <==> earlier + 1 == entries,
{
    lemma_entered_times(entries);
    lemma_released_times(GuardState::fresh().entered_times(entries), earlier);
}

} // verus!
