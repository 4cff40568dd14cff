use gmod_hook::bridge::ScriptFailure;
use gmod_hook::controller::{
    watch_start, watch_step, Failure, FailureClass, WatchAction, WatchEvent, WatchState,
    RETRY_DELAY_MS,
};
use gmod_hook::hook::HookError;
use gmod_hook::injector::{InjectError, InjectedGmod};
use gmod_hook::rtx_handler::{InitPlan, RTXHandler};

const LOADED: WatchEvent = WatchEvent::Injected(Ok(InjectedGmod { module_base: 0x5000 }));

#[test]
fn watcher_begins_with_a_search() {
    assert_eq!(watch_start(), (WatchState::Searching, WatchAction::Search { delay_ms: 0 }));
}

#[test]
fn watcher_searches_every_five_seconds_until_the_host_is_there() {
    assert_eq!(RETRY_DELAY_MS, 5000);
    let (mut state, _) = watch_start();
    for _ in 0..3 {
        let (next, action) = watch_step(state, WatchEvent::Searched(false));
        assert_eq!(next, WatchState::Searching);
        assert_eq!(action, WatchAction::Search { delay_ms: 5000 });
        state = next;
    }
    assert_eq!(
        watch_step(state, WatchEvent::Searched(true)),
        (WatchState::Injecting, WatchAction::Inject)
    );
}

#[test]
fn watcher_stays_with_the_host_and_begins_again_when_it_closes() {
    assert_eq!(
        watch_step(WatchState::Injecting, LOADED),
        (WatchState::Watching, WatchAction::AwaitExit)
    );
    assert_eq!(
        watch_step(WatchState::Watching, WatchEvent::HostClosed),
        (WatchState::Searching, WatchAction::Search { delay_ms: 0 })
    );
}

#[test]
fn failed_attempt_is_begun_anew_from_the_search() {
    for error in [
        InjectError::PayloadMissing,
        InjectError::PayloadEmpty,
        InjectError::PathTooLong,
        InjectError::OpenProcess,
        InjectError::ModuleQuery,
        InjectError::ModuleWait,
        InjectError::ResolveEntry,
        InjectError::Allocate,
        InjectError::Write,
        InjectError::CreateThread,
        InjectError::WaitTimeout,
        InjectError::WaitFailed,
        InjectError::ExitCode,
        InjectError::LoadFailed,
        InjectError::Unexpected,
    ] {
        assert_eq!(
            watch_step(WatchState::Injecting, WatchEvent::Injected(Err(error))),
            (WatchState::Searching, WatchAction::Search { delay_ms: 5000 })
        );
        assert_eq!(Failure::Inject(error).class(), FailureClass::Attempt);
        assert!(Failure::Inject(error).is_retried());
    }
}

#[test]
fn event_that_is_not_waited_for_changes_nothing() {
    assert_eq!(
        watch_step(WatchState::Searching, WatchEvent::HostClosed),
        (WatchState::Searching, WatchAction::Search { delay_ms: 5000 })
    );
    assert_eq!(
        watch_step(WatchState::Searching, LOADED),
        (WatchState::Searching, WatchAction::Search { delay_ms: 5000 })
    );
    assert_eq!(
        watch_step(WatchState::Injecting, WatchEvent::Searched(true)),
        (WatchState::Injecting, WatchAction::Inject)
    );
    assert_eq!(
        watch_step(WatchState::Injecting, WatchEvent::HostClosed),
        (WatchState::Injecting, WatchAction::Inject)
    );
    assert_eq!(
        watch_step(WatchState::Watching, WatchEvent::Searched(false)),
        (WatchState::Watching, WatchAction::AwaitExit)
    );
    assert_eq!(
        watch_step(WatchState::Watching, LOADED),
        (WatchState::Watching, WatchAction::AwaitExit)
    );
}

#[test]
fn unsupported_platform_is_fatal() {
    assert_eq!(Failure::Hook(HookError::UnsupportedPlatform).class(), FailureClass::Fatal);
    assert!(!Failure::Hook(HookError::UnsupportedPlatform).is_retried());
}

#[test]
fn other_hook_failures_end_the_attempt_only() {
    for error in [
        HookError::NullTarget,
        HookError::NullReplacement,
        HookError::AlreadyInstalled,
        HookError::NoTrampoline,
        HookError::NotInstalled,
    ] {
        assert_eq!(Failure::Hook(error).class(), FailureClass::Attempt);
        assert!(Failure::Hook(error).is_retried());
    }
    assert_eq!(Failure::SignatureNotFound.class(), FailureClass::Attempt);
    assert!(Failure::SignatureNotFound.is_retried());
}

#[test]
fn script_failures_are_a_class_of_their_own() {
    for failure in [ScriptFailure::Source, ScriptFailure::Compile, ScriptFailure::Runtime] {
        assert_eq!(Failure::Script(failure).class(), FailureClass::Script);
        assert!(Failure::Script(failure).is_retried());
    }
}

#[test]
fn setup_is_for_a_client_that_has_not_been_set_up() {
    assert_eq!(RTXHandler::init_plan(true, false), InitPlan::Load);
    assert_eq!(RTXHandler::init_plan(true, true), InitPlan::SkipAlreadyLoaded);
    assert_eq!(RTXHandler::init_plan(false, false), InitPlan::SkipNotClient);
    assert_eq!(RTXHandler::init_plan(false, true), InitPlan::SkipNotClient);
}
