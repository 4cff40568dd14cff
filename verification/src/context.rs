//! How the payload came to run inside the host, thread by thread.
//!
//! A payload either was injected into a host that was already running, or
//! the host's own loader brought it in and handed it the interpreter. Which
//! of the two holds is found out once and then stays.

use crate::signature::Address;
use std::collections::HashMap;
use vstd::prelude::*;

verus! {

broadcast use vstd::std_specs::hash::group_hash_axioms;

/// One of the host's execution contexts, each with an interpreter of its own.
#[derive(Clone, Copy, Debug, PartialEq, Eq, Structural)]
pub enum GmodLuaInterfaceRealm {
    /// The game as the player sees it.
    Client,
    /// The game as the server runs it.
    Server,
    /// The main menu.
    Menu,
}

impl GmodLuaInterfaceRealm {
    /// The number by which the host's interfaces know the realm.
    pub open spec fn code_of(self) -> u8 {
        match self {
            GmodLuaInterfaceRealm::Client => 0,
            GmodLuaInterfaceRealm::Server => 1,
            GmodLuaInterfaceRealm::Menu => 2,
        }
    }

    /// The number by which the host's interfaces know the realm.
    pub fn code(self) -> (code: u8)
        ensures
            code == self.code_of(),
    {
        match self {
            GmodLuaInterfaceRealm::Client => 0,
            GmodLuaInterfaceRealm::Server => 1,
            GmodLuaInterfaceRealm::Menu => 2,
        }
    }
}

/// A reference to the state of the host's interpreter. The host owns the
/// state; the reference is never null.
#[derive(Clone, Copy, Debug, PartialEq, Eq)]
pub struct InterpreterHandle {
    address: Address,
}

impl View for InterpreterHandle {
    type V = Address;

    closed spec fn view(&self) -> Address {
        self.address
    }
}

impl InterpreterHandle {
    #[verifier::type_invariant]
    spec fn non_null(&self) -> bool {
        self.address != 0
    }

    /// The handle for the state at `address`; there is none for the null
    /// address.
    pub fn new(address: Address) -> (handle: Option<InterpreterHandle>)
        ensures
            handle is Some <==> address != 0,
            handle matches Some(made) ==> made@ == address,
    {
        if address != 0 {
            Some(InterpreterHandle { address })
        } else {
            None
        }
    }

    /// Where the state lies.
    pub fn address(&self) -> (address: Address)
        ensures
            address == self@,
            address != 0,
    {
        proof {
            use_type_invariant(self);
        }
        self.address
    }
}

/// How a thread reached the interpreter.
#[derive(Clone, Copy, Debug, PartialEq, Eq)]
pub enum GmodLoadingContext {
    /// Not found out yet.
    Uninitialized,
    /// The payload was injected into a running host.
    InjectedDll,
    /// The host loaded the payload itself and handed it this interpreter.
    BinaryModule(InterpreterHandle),
}

impl GmodLoadingContext {
    /// The context after the host has handed over `lua`. A context is set
    /// once: one that was found out before stays, so that a thread classed
    /// as injected is not reclassed by a late hand-over.
    pub open spec fn with_binary_module(self, lua: InterpreterHandle) -> GmodLoadingContext {
        match self {
            GmodLoadingContext::Uninitialized => GmodLoadingContext::BinaryModule(lua),
            _ => self,
        }
    }

    /// The context after the payload has found itself injected. A context
    /// that was found out before stays.
    pub open spec fn with_injection(self) -> GmodLoadingContext {
        match self {
            GmodLoadingContext::Uninitialized => GmodLoadingContext::InjectedDll,
            _ => self,
        }
    }

    /// The interpreter that the host handed over, if it did.
    pub open spec fn lua_state(self) -> Option<InterpreterHandle> {
        match self {
            GmodLoadingContext::BinaryModule(lua) => Some(lua),
            _ => None,
        }
    }
}

/// The loading context of every thread. A thread that was never classed is
/// `Uninitialized`.
pub struct LoadingContexts {
    by_thread: HashMap<u64, GmodLoadingContext>,
}

impl View for LoadingContexts {
    type V = Map<u64, GmodLoadingContext>;

    closed spec fn view(&self) -> Map<u64, GmodLoadingContext> {
        self.by_thread@
    }
}

/// The context that `contexts` holds for `thread`.
pub open spec fn context_of(contexts: Map<u64, GmodLoadingContext>, thread: u64)
    -> GmodLoadingContext {
    if contexts.contains_key(thread) {
        contexts[thread]
    } else {
        GmodLoadingContext::Uninitialized
    }
}

impl LoadingContexts {
    /// No thread is classed yet.
    pub fn new() -> (contexts: LoadingContexts)
        ensures
            contexts@ == Map::<u64, GmodLoadingContext>::empty(),
    {
        LoadingContexts { by_thread: HashMap::new() }
    }

    /// The context of `thread`.
    pub fn get(&self, thread: u64) -> (context: GmodLoadingContext)
        ensures
            context == context_of(self@, thread),
    {
        match self.by_thread.get(&thread) {
            Some(context) => *context,
            None => GmodLoadingContext::Uninitialized,
        }
    }

    /// Classes `thread` as injected, unless it is classed already. No other
    /// thread is touched.
    pub fn mark_injected(&mut self, thread: u64)
        ensures
            final(self)@ == old(self)@.insert(
                thread,
                context_of(old(self)@, thread).with_injection(),
            ),
    {
        let context = match self.get(thread) {
            GmodLoadingContext::Uninitialized => GmodLoadingContext::InjectedDll,
            other => other,
        };
        self.by_thread.insert(thread, context);
    }
}

/// The interpreter that the host handed to `thread`, if it did.
pub fn get_lua_state(contexts: &LoadingContexts, thread: u64) -> (lua: Option<InterpreterHandle>)
    ensures
        lua == context_of(contexts@, thread).lua_state(),
{
    match contexts.get(thread) {
        GmodLoadingContext::BinaryModule(lua) => Some(lua),
        _ => None,
    }
}

/// Records that the host handed `lua` to `thread`, unless the thread is
/// classed already. No other thread is touched.
pub fn set_binary_module_context(
    contexts: &mut LoadingContexts,
    thread: u64,
    lua: InterpreterHandle,
)
    ensures
        final(contexts)@ == old(contexts)@.insert(
            thread,
            context_of(old(contexts)@, thread).with_binary_module(lua),
        ),
{
    let context = match contexts.get(thread) {
        GmodLoadingContext::Uninitialized => GmodLoadingContext::BinaryModule(lua),
        other => other,
    };
    contexts.by_thread.insert(thread, context);
}

/// Whether the host loaded the payload itself. `client` and `server` are the
/// interpreter interfaces that the host's service locator gives for the two
/// realms, null where a realm has none. With both null the payload was
/// injected; with either present the host has come to the point where it
/// hands out its interpreter, and is taken to have loaded the payload.
pub fn is_binary_module(client: Address, server: Address) -> (host_loaded: bool)
    ensures
        host_loaded == (client != 0 || server != 0),
{
    !(client == 0 && server == 0)
}

/// Decides at the payload's entry whether hooks have to be set up, and
/// classes `thread` as injected where they do: hooks are needed exactly if
/// the host did not load the payload itself.
pub fn init_hooks(
    contexts: &mut LoadingContexts,
    thread: u64,
    client: Address,
    server: Address,
) -> (hooks_needed: bool)
    ensures
        hooks_needed == !(client != 0 || server != 0),
        hooks_needed ==> final(contexts)@ == old(contexts)@.insert(
            thread,
            context_of(old(contexts)@, thread).with_injection(),
        ),
        !hooks_needed ==> final(contexts)@ == old(contexts)@,
{
    if is_binary_module(client, server) {
        false
    } else {
        contexts.mark_injected(thread);
        true
    }
}

/// A context that has been found out never changes again, whatever is
/// recorded for its thread later.
pub proof fn lemma_context_is_set_once(context: GmodLoadingContext, lua: InterpreterHandle)
    requires
        !(context is Uninitialized),
    ensures
        context.with_binary_module(lua) == context,
        context.with_injection() == context,
{
}

/// Recording for one thread leaves every other thread's context as it was.
pub proof fn lemma_contexts_are_per_thread(
    contexts: Map<u64, GmodLoadingContext>,
    thread: u64,
    recorded: GmodLoadingContext,
    other: u64,
)
    requires
        other != thread,
    ensures
        context_of(contexts.insert(thread, recorded), other) == context_of(contexts, other),
{
}

} // verus!
