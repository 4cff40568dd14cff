//! What the payload does when the host's loader calls its entry point.

use vstd::prelude::*;

verus! {

/// The loader's reason code for a process that unloads the payload.
pub const PROCESS_DETACH: u32 = 0;

/// The loader's reason code for a process that loads the payload.
pub const PROCESS_ATTACH: u32 = 1;

/// What the entry point returns to let the load go on.
pub const ACCEPT: i32 = 1;

/// What the entry point returns to have the payload unloaded again.
pub const REFUSE: i32 = 0;

/// Milliseconds that the payload lets the host start up before it goes
/// looking for the interpreter.
pub const STARTUP_DELAY_MS: u64 = 3000;

/// Milliseconds that the setup waits, once the hook has fired, for the
/// interpreter to be ready.
pub const SETTLE_DELAY_MS: u64 = 1000;

/// What a call of the entry point is about.
#[derive(Clone, Copy, Debug, PartialEq, Eq)]
pub enum EntryEvent {
    /// The payload is being loaded into a process.
    Attach,
    /// The payload is being unloaded.
    Detach,
    /// A thread starts or ends; nothing to do.
    Other,
}

/// Reads the loader's reason code.
pub fn entry_event(reason: u32) -> (event: EntryEvent)
    ensures
        event == (if reason == PROCESS_ATTACH {
            EntryEvent::Attach
        } else if reason == PROCESS_DETACH {
            EntryEvent::Detach
        } else {
            EntryEvent::Other
        }),
{
    if reason == PROCESS_ATTACH {
        EntryEvent::Attach
    } else if reason == PROCESS_DETACH {
        EntryEvent::Detach
    } else {
        EntryEvent::Other
    }
}

/// Whether the payload has to set up its hook on this call: only when it is
/// being loaded, and only inside the host. Loaded into any other process it
/// stays idle.
pub fn hook_wanted(reason: u32, in_host: bool) -> (wanted: bool)
    ensures
        wanted == (reason == PROCESS_ATTACH && in_host),
{
    reason == PROCESS_ATTACH && in_host
}

/// What the entry point returns to the loader. The load is refused only
/// where the hook was wanted and could not be set up.
pub fn entry_status(reason: u32, in_host: bool, hook_set_up: bool) -> (status: i32)
    ensures
        status == (if reason == PROCESS_ATTACH && in_host && !hook_set_up {
            REFUSE
        } else {
            ACCEPT
        }),
{
    if hook_wanted(reason, in_host) && !hook_set_up {
        REFUSE
    } else {
        ACCEPT
    }
}

} // verus!
