//! The handler that brings the renderer integration into the host once the
//! interpreter is up.

use crate::guard::{GuardState, InitGuard};
use vstd::prelude::*;

verus! {

/// What the setup does once it has looked into the interpreter.
#[derive(Clone, Copy, Debug, PartialEq, Eq)]
pub enum InitPlan {
    /// The interpreter is not the client's; nothing is brought into it.
    SkipNotClient,
    /// The integration is in the interpreter already; it is not brought in
    /// a second time.
    SkipAlreadyLoaded,
    /// The integration is brought in.
    Load,
}

/// Decides when the integration is set up and when it is torn down. The
/// startup hook may fire any number of times, from any thread; the setup
/// runs on the first firing only, and the teardown when the last of those
/// that came in has shut down.
pub struct RTXHandler {
    guard: InitGuard,
}

impl View for RTXHandler {
    type V = GuardState;

    closed spec fn view(&self) -> GuardState {
        self.guard@
    }
}

impl RTXHandler {
    /// A handler whose setup has not run.
    pub fn new() -> (handler: RTXHandler)
        ensures
            handler@ == GuardState::fresh(),
    {
        RTXHandler { guard: InitGuard::new() }
    }

    /// The startup hook has fired. Says whether the setup has to run now:
    /// it has to on the first firing and on no other.
    pub fn startup(&mut self) -> (run_setup: bool)
        ensures
            run_setup == old(self)@.runs_action(),
            final(self)@ == old(self)@.entered(),
    {
        self.guard.enter()
    }

    /// Decides what the setup does in the interpreter it has reached.
    /// `is_client` says whether the interpreter marks itself as the
    /// client's, `rtx_present` whether it holds the integration's namespace
    /// already. That the interpreter is not the client's is looked at
    /// first.
    pub fn init_plan(is_client: bool, rtx_present: bool) -> (plan: InitPlan)
        ensures
            plan == (if !is_client {
                InitPlan::SkipNotClient
            } else if rtx_present {
                InitPlan::SkipAlreadyLoaded
            } else {
                InitPlan::Load
            }),
    {
        if !is_client {
            InitPlan::SkipNotClient
        } else if rtx_present {
            InitPlan::SkipAlreadyLoaded
        } else {
            InitPlan::Load
        }
    }

    /// One of those that came in through `startup` shuts down. Says whether
    /// the teardown has to run now: it has to when this was the last.
    pub fn shutdown(&mut self) -> (run_teardown: bool)
        ensures
            run_teardown == old(self)@.runs_teardown(),
            final(self)@ == old(self)@.released(),
    {
        self.guard.release()
    }
}

} // verus!
