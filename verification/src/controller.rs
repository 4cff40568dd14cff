//! The watcher's loop and what it does about failures.
//!
//! The controller runs for as long as the host may come and go: it looks for
//! the host until one is there, loads the payload into it, stays until the
//! host has closed, and begins again. An attempt that fails is given up as a
//! whole and begun anew from the search, after a pause; no step of it is
//! tried a second time on its own.

use crate::bridge::ScriptFailure;
use crate::hook::HookError;
use crate::injector::{InjectError, InjectedGmod};
use vstd::prelude::*;

verus! {

/// Milliseconds between two searches for the host, and between a failed
/// attempt and the search that follows it.
pub const RETRY_DELAY_MS: u32 = 5000;

/// What kind of trouble a failure is, which decides what is done about it.
#[derive(Clone, Copy, Debug, PartialEq, Eq)]
pub enum FailureClass {
    /// The attempt has failed; it is begun anew from the search.
    Attempt,
    /// Nothing will work here, however often it is tried; the work ends.
    Fatal,
    /// A script went wrong inside the interpreter; the failure is reported
    /// and neither the host nor the hooks are affected.
    Script,
}

/// Something that went wrong, in the controller or in the payload.
#[derive(Clone, Copy, Debug, PartialEq, Eq)]
pub enum Failure {
    /// The payload could not be loaded into the host.
    Inject(InjectError),
    /// The signature does not occur in the module.
    SignatureNotFound,
    /// The hook could not be set up.
    Hook(HookError),
    /// A script failed.
    Script(ScriptFailure),
}

impl Failure {
    /// The class of the failure. Whatever a load fails on, the next attempt
    /// may work, and so it may where a signature is not found or a detour
    /// cannot be recorded. A platform for which no signature is known is a
    /// matter of how the payload was built, and does not get better.
    pub open spec fn class_of(self) -> FailureClass {
        match self {
            Failure::Inject(_) => FailureClass::Attempt,
            Failure::SignatureNotFound => FailureClass::Attempt,
            Failure::Hook(error) => if error is UnsupportedPlatform {
                FailureClass::Fatal
            } else {
                FailureClass::Attempt
            },
            Failure::Script(_) => FailureClass::Script,
        }
    }

    /// The class of the failure.
    pub fn class(self) -> (class: FailureClass)
        ensures
            class == self.class_of(),
    {
        match self {
            Failure::Inject(_) => FailureClass::Attempt,
            Failure::SignatureNotFound => FailureClass::Attempt,
            Failure::Hook(error) => match error {
                HookError::UnsupportedPlatform => FailureClass::Fatal,
                _ => FailureClass::Attempt,
            },
            Failure::Script(_) => FailureClass::Script,
        }
    }

    /// Whether the work is taken up again after the failure: it is, unless
    /// the failure is fatal.
    pub fn is_retried(self) -> (retried: bool)
        ensures
            retried == !(self.class_of() is Fatal),
    {
        match self.class() {
            FailureClass::Fatal => false,
            _ => true,
        }
    }
}

/// Where the watcher stands: what it waits to hear of.
#[derive(Clone, Copy, Debug, PartialEq, Eq)]
pub enum WatchState {
    /// Whether a host was found.
    Searching,
    /// How the load went.
    Injecting,
    /// That the host has closed.
    Watching,
}

/// What the watcher hears.
#[derive(Clone, Copy, Debug, PartialEq, Eq)]
pub enum WatchEvent {
    /// A search has ended, with or without a host.
    Searched(bool),
    /// A load has ended.
    Injected(Result<InjectedGmod, InjectError>),
    /// The host has closed, or can no longer be waited for.
    HostClosed,
}

/// What the watcher does next.
#[derive(Clone, Copy, Debug, PartialEq, Eq)]
pub enum WatchAction {
    /// After `delay_ms` milliseconds, search for the host.
    Search { delay_ms: u32 },
    /// Load the payload into the host that was found.
    Inject,
    /// Wait, without limit, for the host to close.
    AwaitExit,
}

/// How the watcher begins: with a search, at once.
pub open spec fn watch_begin() -> (WatchState, WatchAction) {
    (WatchState::Searching, WatchAction::Search { delay_ms: 0 })
}

/// The state and the action that follow `event`. A search without a host is
/// followed by another after a pause, a host by a load, a load by the wait
/// for the host to close, a failed load by a new search after a pause, and
/// the closing of the host by a new search at once. An event that the state
/// does not wait for changes nothing: the action of the state is taken
/// again, a search after the pause.
pub open spec fn watch_next(state: WatchState, event: WatchEvent) -> (WatchState, WatchAction) {
    match (state, event) {
        (WatchState::Searching, WatchEvent::Searched(found)) => if found {
            (WatchState::Injecting, WatchAction::Inject)
        } else {
            (WatchState::Searching, WatchAction::Search { delay_ms: RETRY_DELAY_MS })
        },
        (WatchState::Injecting, WatchEvent::Injected(loaded)) => if loaded is Ok {
            (WatchState::Watching, WatchAction::AwaitExit)
        } else {
            (WatchState::Searching, WatchAction::Search { delay_ms: RETRY_DELAY_MS })
        },
        (WatchState::Watching, WatchEvent::HostClosed) => (
            WatchState::Searching,
            WatchAction::Search { delay_ms: 0 },
        ),
        (WatchState::Searching, _) => (
            WatchState::Searching,
            WatchAction::Search { delay_ms: RETRY_DELAY_MS },
        ),
        (WatchState::Injecting, _) => (WatchState::Injecting, WatchAction::Inject),
        (WatchState::Watching, _) => (WatchState::Watching, WatchAction::AwaitExit),
    }
}

/// The action that a state waits on.
pub open spec fn awaited(state: WatchState, action: WatchAction) -> bool {
    match state {
        WatchState::Searching => action is Search,
        WatchState::Injecting => action is Inject,
        WatchState::Watching => action is AwaitExit,
    }
}

/// Begins to watch.
pub fn watch_start() -> (begun: (WatchState, WatchAction))
    ensures
        begun == watch_begin(),
{
    (WatchState::Searching, WatchAction::Search { delay_ms: 0 })
}

/// Takes what the watcher hears and says what it does next.
pub fn watch_step(state: WatchState, event: WatchEvent) -> (turn: (WatchState, WatchAction))
    ensures
        turn == watch_next(state, event),
{
    match (state, event) {
        (WatchState::Searching, WatchEvent::Searched(found)) => if found {
            (WatchState::Injecting, WatchAction::Inject)
        } else {
            (WatchState::Searching, WatchAction::Search { delay_ms: RETRY_DELAY_MS })
        },
        (WatchState::Injecting, WatchEvent::Injected(loaded)) => match loaded {
            Ok(_) => (WatchState::Watching, WatchAction::AwaitExit),
            Err(_) => (WatchState::Searching, WatchAction::Search { delay_ms: RETRY_DELAY_MS }),
        },
        (WatchState::Watching, WatchEvent::HostClosed) => (
            WatchState::Searching,
            WatchAction::Search { delay_ms: 0 },
        ),
        (WatchState::Searching, _) => (
            WatchState::Searching,
            WatchAction::Search { delay_ms: RETRY_DELAY_MS },
        ),
        (WatchState::Injecting, _) => (WatchState::Injecting, WatchAction::Inject),
        (WatchState::Watching, _) => (WatchState::Watching, WatchAction::AwaitExit),
    }
}

/// The watcher never loads blindly and never stops: a load is begun only on
/// the news that a host was found, every failed load leads back to the
/// search, and whatever happens there is a next action, the one that the
/// next state waits on.
pub proof fn lemma_watcher_retries_from_the_search(state: WatchState, event: WatchEvent)
    ensures
        awaited(watch_next(state, event).0, watch_next(state, event).1),
        watch_next(state, event).1 is Inject && !(state is Injecting) ==> state is Searching
            && event == WatchEvent::Searched(true),
        forall|error: InjectError|
            state is Injecting && event == WatchEvent::Injected(Err(error)) ==> watch_next(
                state,
                event,
            ) == (WatchState::Searching, WatchAction::Search { delay_ms: RETRY_DELAY_MS }),
{
}

} // verus!
