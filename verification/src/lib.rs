//! Verified core of a payload loader for a running host application: locating
//! the host process, planning the cross-process library load, finding hook
//! targets by byte signature, tracking detours and the loading context, and
//! driving the host's embedded interpreter without disturbing its stack.
//!
//! Everything here works on plain values. Process handles, remote memory,
//! machine code and the interpreter itself stay with the caller, which
//! performs the actions this crate asks for and reports what happened.

pub mod bridge;
pub mod context;
pub mod controller;
pub mod entry;
pub mod guard;
pub mod hook;
pub mod injector;
pub mod locator;
pub mod platform;
pub mod process_utils;
pub mod rtx_handler;
pub mod signature;

pub use bridge::acquire_lua_state;
pub use context::{
    get_lua_state, init_hooks, is_binary_module, set_binary_module_context, GmodLoadingContext,
    GmodLuaInterfaceRealm,
};
pub use hook::setup_standard_hook;
pub use rtx_handler::RTXHandler;
