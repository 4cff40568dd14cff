//! Reaching the host's interpreter and running scripts in it.
//!
//! The interpreter belongs to the host, which watches its value stack
//! between calls. The caller makes the calls into the interpreter; this
//! module tells it which, in which order, and keeps a count of what each
//! call leaves on the stack, so that a run ends with the stack as it found
//! it, whether the script worked or not.

use crate::context::InterpreterHandle;
use crate::signature::Address;
use vstd::prelude::*;
use vstd::string::*;
use vstd::utf8::encode_utf8;

verus! {

/// Why the interpreter could not be reached.
#[derive(Clone, Copy, Debug, PartialEq, Eq)]
pub enum BridgeError {
    /// The scripting runtime module is not loaded.
    ModuleNotLoaded,
    /// The module does not export its service locator.
    ExportMissing,
    /// The service locator does not know the shared interface.
    SharedInterfaceMissing,
    /// The realm has no interpreter interface.
    RealmInterfaceMissing,
    /// The realm's interface holds no interpreter state.
    StateMissing,
}

/// One lookup on the way to the interpreter. Each gives an address, null
/// where the lookup failed, and each but the first starts from what the one
/// before it found.
#[derive(Clone, Copy, Debug, PartialEq, Eq)]
pub enum AcquireStep {
    /// Find the scripting runtime module among the loaded ones.
    LocateModule,
    /// Resolve the module's service locator export.
    ResolveExport,
    /// Ask the service locator for the shared interface.
    QueryShared,
    /// Ask the shared interface for the client realm's interface.
    QueryRealm,
    /// Read the interpreter state out of the realm's interface.
    ReadState,
}

/// What follows a lookup.
#[derive(Clone, Copy, Debug, PartialEq, Eq)]
pub enum AcquireTurn {
    /// Make this lookup next.
    Ask(AcquireStep),
    /// The interpreter is reached. `register` says whether the handle still
    /// has to be made known process-wide: it has to exactly once.
    Acquired { handle: InterpreterHandle, register: bool },
    /// The interpreter cannot be reached.
    Failed(BridgeError),
}

impl AcquireStep {
    /// The error that a failed lookup stands for.
    pub open spec fn error(self) -> BridgeError {
        match self {
            AcquireStep::LocateModule => BridgeError::ModuleNotLoaded,
            AcquireStep::ResolveExport => BridgeError::ExportMissing,
            AcquireStep::QueryShared => BridgeError::SharedInterfaceMissing,
            AcquireStep::QueryRealm => BridgeError::RealmInterfaceMissing,
            AcquireStep::ReadState => BridgeError::StateMissing,
        }
    }

    /// The lookup after this one; the last has none.
    pub open spec fn following(self) -> Option<AcquireStep> {
        match self {
            AcquireStep::LocateModule => Some(AcquireStep::ResolveExport),
            AcquireStep::ResolveExport => Some(AcquireStep::QueryShared),
            AcquireStep::QueryShared => Some(AcquireStep::QueryRealm),
            AcquireStep::QueryRealm => Some(AcquireStep::ReadState),
            AcquireStep::ReadState => None,
        }
    }

    /// The lookup with which every acquisition begins.
    pub fn first() -> (step: AcquireStep)
        ensures
            step == AcquireStep::LocateModule,
    {
        AcquireStep::LocateModule
    }
}

/// The way to the interpreter, and whether its handle has been made known
/// process-wide.
pub struct InterpreterBridge {
    registered: bool,
}

impl View for InterpreterBridge {
    type V = bool;

    /// Whether the handle has been made known process-wide.
    closed spec fn view(&self) -> bool {
        self.registered
    }
}

impl InterpreterBridge {
    /// A bridge over which no handle has been acquired yet.
    pub fn new() -> (bridge: InterpreterBridge)
        ensures
            !bridge@,
    {
        InterpreterBridge { registered: false }
    }
}

/// Takes what the lookup `step` found and says how the acquisition goes on.
/// A null address ends it with the error of that lookup; otherwise the next
/// lookup follows, and after the last the address found is the interpreter's
/// handle. The first acquisition that succeeds is told to register the
/// handle; later ones are not.
pub fn acquire_lua_state(
    bridge: &mut InterpreterBridge,
    step: AcquireStep,
    found: Address,
) -> (turn: AcquireTurn)
    ensures
        found == 0 ==> turn == AcquireTurn::Failed(step.error()),
        found != 0 ==> match step.following() {
            Some(next) => turn == AcquireTurn::Ask(next),
            None => turn matches AcquireTurn::Acquired { handle, register } && handle@ == found
                && register == !old(bridge)@,
        },
        final(bridge)@ == (old(bridge)@ || turn is Acquired),
{
    if found == 0 {
        return AcquireTurn::Failed(
            match step {
                AcquireStep::LocateModule => BridgeError::ModuleNotLoaded,
                AcquireStep::ResolveExport => BridgeError::ExportMissing,
                AcquireStep::QueryShared => BridgeError::SharedInterfaceMissing,
                AcquireStep::QueryRealm => BridgeError::RealmInterfaceMissing,
                AcquireStep::ReadState => BridgeError::StateMissing,
            },
        );
    }
    match step {
        AcquireStep::LocateModule => AcquireTurn::Ask(AcquireStep::ResolveExport),
        AcquireStep::ResolveExport => AcquireTurn::Ask(AcquireStep::QueryShared),
        AcquireStep::QueryShared => AcquireTurn::Ask(AcquireStep::QueryRealm),
        AcquireStep::QueryRealm => AcquireTurn::Ask(AcquireStep::ReadState),
        AcquireStep::ReadState => {
            match InterpreterHandle::new(found) {
                Some(handle) => {
                    let register = !bridge.registered;
                    bridge.registered = true;
                    AcquireTurn::Acquired { handle, register }
                },
                None => AcquireTurn::Failed(BridgeError::StateMissing),
            }
        },
    }
}

/// In what way a script failed.
#[derive(Clone, Copy, Debug, PartialEq, Eq)]
pub enum ScriptFailure {
    /// The source holds a zero byte and cannot be handed to the interpreter.
    Source,
    /// The interpreter could not compile the source.
    Compile,
    /// The script raised an error while it ran.
    Runtime,
}

/// A script's failure with the message that the interpreter gave.
#[derive(Debug, PartialEq, Eq)]
pub struct ScriptError {
    pub failure: ScriptFailure,
    pub message: String,
}

/// A call into the interpreter that a run asks for.
#[derive(Clone, Copy, Debug, PartialEq, Eq)]
pub enum RunCall {
    /// Compile the source. The interpreter pushes the compiled chunk, or,
    /// where it cannot compile, its message.
    Load,
    /// Call the chunk on top of the stack in protected mode, without
    /// arguments or results. The interpreter pops the chunk and, where the
    /// script raises an error, pushes its message.
    Call,
    /// Read the message on top of the stack and pop it.
    TakeError,
}

/// The caller's report on the call that was asked for last.
#[derive(Debug, PartialEq, Eq)]
pub enum RunReply {
    /// Whether the source compiled.
    Loaded(bool),
    /// Whether the call returned without an error.
    Called(bool),
    /// The message that was read and popped, if it was a string.
    Message(Option<String>),
}

/// Where a run stands: the call whose report it waits for.
#[derive(Clone, Copy, Debug, PartialEq, Eq)]
pub enum RunStage {
    /// The compilation of the source.
    Loading,
    /// The call of the compiled chunk.
    Calling,
    /// The taking of the message of a failure of this kind.
    TakingError(ScriptFailure),
}

/// One script run in progress.
#[derive(Debug, PartialEq, Eq)]
pub struct ScriptRun {
    pub stage: RunStage,
}

/// How a run goes on.
#[derive(Debug, PartialEq, Eq)]
pub enum RunTurn {
    /// The run asks for a call and waits for the report on it.
    Ask(ScriptRun, RunCall),
    /// The run is over.
    Done(Result<(), ScriptError>),
}

/// The message given where the interpreter's is no string.
pub open spec fn unknown_error() -> Seq<char> {
    "Unknown error"@
}

/// The message given for a source that cannot be handed over.
pub open spec fn source_error() -> Seq<char> {
    "source holds a zero byte"@
}

/// The message of a failure: the interpreter's, where it gave one.
pub open spec fn message_text(message: Option<String>) -> Seq<char> {
    match message {
        Some(text) => text@,
        None => unknown_error(),
    }
}

/// Whether `source` can be handed to the interpreter, which takes its text
/// up to the first zero byte.
pub open spec fn is_passable(source: Seq<u8>) -> bool {
    forall|i: int| 0 <= i < source.len() ==> source[i] != 0
}

/// The call that a run in `stage` waits on.
pub open spec fn call_of(stage: RunStage) -> RunCall {
    match stage {
        RunStage::Loading => RunCall::Load,
        RunStage::Calling => RunCall::Call,
        RunStage::TakingError(_) => RunCall::TakeError,
    }
}

/// The values that a run in `stage` has on the interpreter's stack, above
/// what was there when it began: nothing before the load, the chunk while
/// it is to be called, the message while it is to be taken.
pub open spec fn depth_in(stage: RunStage) -> nat {
    match stage {
        RunStage::Loading => 0,
        RunStage::Calling => 1,
        RunStage::TakingError(_) => 1,
    }
}

/// The values that the call asked for in `stage` leaves on the stack beyond
/// what it found, given the report on it. A report that answers another
/// call stands for no call.
pub open spec fn stack_effect(stage: RunStage, reply: RunReply) -> int {
    match (stage, reply) {
        (RunStage::Loading, RunReply::Loaded(_)) => 1,
        (RunStage::Calling, RunReply::Called(returned)) => if returned {
            -1
        } else {
            0
        },
        (RunStage::TakingError(_), RunReply::Message(_)) => -1,
        _ => 0,
    }
}

/// The stage that follows `reply`, or none where the run is over with it.
/// A report that does not answer the call asked for leaves the run where
/// it is.
pub open spec fn next_stage(stage: RunStage, reply: RunReply) -> Option<RunStage> {
    match (stage, reply) {
        (RunStage::Loading, RunReply::Loaded(compiled)) => if compiled {
            Some(RunStage::Calling)
        } else {
            Some(RunStage::TakingError(ScriptFailure::Compile))
        },
        (RunStage::Calling, RunReply::Called(returned)) => if returned {
            None
        } else {
            Some(RunStage::TakingError(ScriptFailure::Runtime))
        },
        (RunStage::TakingError(_), RunReply::Message(_)) => None,
        _ => Some(stage),
    }
}

/// Whether `turn` is how a run in `stage` goes on after `reply`: with the
/// call of the stage that follows, or, where none follows, with the result.
/// The result is the failure whose message was taken, and success where
/// the call returned.
pub open spec fn follows(stage: RunStage, reply: RunReply, turn: RunTurn) -> bool {
    match next_stage(stage, reply) {
        Some(next) => turn matches RunTurn::Ask(run, call) && run.stage == next && call == call_of(
            next,
        ),
        None => match (stage, reply) {
            (RunStage::TakingError(failure), RunReply::Message(message)) => {
                &&& turn matches RunTurn::Done(Err(error))
                &&& error.failure == failure
                &&& error.message@ == message_text(message)
            },
            _ => turn matches RunTurn::Done(Ok(_)),
        },
    }
}

/// The depth of the stack once a run has been through `replies`, each of
/// which the run was there to take; `None` where the run was over before
/// the last of them.
pub open spec fn depth_after(stage: RunStage, replies: Seq<RunReply>) -> Option<nat>
    decreases replies.len(),
{
    if replies.len() == 0 {
        Some(depth_in(stage))
    } else {
        match next_stage(stage, replies[0]) {
            Some(next) => depth_after(next, replies.skip(1)),
            None => if replies.len() == 1 {
                Some(0)
            } else {
                None
            },
        }
    }
}

/// Whether `replies` take a run from `stage` to its end, and no further.
pub open spec fn runs_to_end(stage: RunStage, replies: Seq<RunReply>) -> bool
    decreases replies.len(),
{
    replies.len() > 0 && match next_stage(stage, replies[0]) {
        Some(next) => runs_to_end(next, replies.skip(1)),
        None => replies.len() == 1,
    }
}

/// What the calls of a run that goes from `stage` through `replies` leave on
/// the stack, all taken together.
pub open spec fn total_effect(stage: RunStage, replies: Seq<RunReply>) -> int
    decreases replies.len(),
{
    if replies.len() == 0 {
        0
    } else {
        stack_effect(stage, replies[0]) + match next_stage(stage, replies[0]) {
            Some(next) => total_effect(next, replies.skip(1)),
            None => 0,
        }
    }
}

impl ScriptRun {
    /// Begins a run of `source`. A source with a zero byte in it fails at
    /// once, and the interpreter is not called.
    pub fn start(source: &str) -> (begun: RunTurn)
        ensures
            is_passable(encode_utf8(source@)) ==> {
                &&& begun matches RunTurn::Ask(run, call)
                &&& run.stage is Loading
                &&& call is Load
            },
            !is_passable(encode_utf8(source@)) ==> {
                &&& begun matches RunTurn::Done(Err(error))
                &&& error.failure is Source
                &&& error.message@ == source_error()
            },
    {
        let bytes = source.as_bytes();
        let mut i: usize = 0;
        while i < bytes.len()
            invariant
                i <= bytes@.len(),
                bytes@ == encode_utf8(source@),
                forall|k: int| 0 <= k < i ==> bytes@[k] != 0,
            decreases bytes@.len() - i,
        {
            if bytes[i] == 0 {
                return RunTurn::Done(
                    Err(
                        ScriptError {
                            failure: ScriptFailure::Source,
                            message: String::from_str("source holds a zero byte"),
                        },
                    ),
                );
            }
            i = i + 1;
        }
        RunTurn::Ask(ScriptRun { stage: RunStage::Loading }, RunCall::Load)
    }

    /// Takes the report on the call asked for last and says how the run
    /// goes on. A report that does not answer that call is passed over: the
    /// same call is asked for again.
    pub fn step(self, reply: RunReply) -> (turn: RunTurn)
        ensures
            follows(self.stage, reply, turn),
    {
        match (self.stage, reply) {
            (RunStage::Loading, RunReply::Loaded(compiled)) => {
                if compiled {
                    RunTurn::Ask(ScriptRun { stage: RunStage::Calling }, RunCall::Call)
                } else {
                    RunTurn::Ask(
                        ScriptRun { stage: RunStage::TakingError(ScriptFailure::Compile) },
                        RunCall::TakeError,
                    )
                }
            },
            (RunStage::Calling, RunReply::Called(returned)) => {
                if returned {
                    RunTurn::Done(Ok(()))
                } else {
                    RunTurn::Ask(
                        ScriptRun { stage: RunStage::TakingError(ScriptFailure::Runtime) },
                        RunCall::TakeError,
                    )
                }
            },
            (RunStage::TakingError(failure), RunReply::Message(message)) => {
                let message = match message {
                    Some(text) => text,
                    None => String::from_str("Unknown error"),
                };
                RunTurn::Done(Err(ScriptError { failure, message }))
            },
            (RunStage::Loading, _) => RunTurn::Ask(self, RunCall::Load),
            (RunStage::Calling, _) => RunTurn::Ask(self, RunCall::Call),
            (RunStage::TakingError(_), _) => RunTurn::Ask(self, RunCall::TakeError),
        }
    }

    /// The values that the run has on the interpreter's stack.
    pub fn depth(&self) -> (depth: u32)
        ensures
            depth == depth_in(self.stage),
    {
        match self.stage {
            RunStage::Loading => 0,
            RunStage::Calling => 1,
            RunStage::TakingError(_) => 1,
        }
    }
}

/// Each call changes the depth of the stack by what it leaves there, and
/// the call that ends a run leaves the stack as the run found it.
pub proof fn lemma_depth_follows_effect(stage: RunStage, reply: RunReply)
    ensures
        match next_stage(stage, reply) {
            Some(next) => depth_in(next) == depth_in(stage) + stack_effect(stage, reply),
            None => 0 == depth_in(stage) + stack_effect(stage, reply),
        },
{
}

/// Over any stretch of a run the effects of the calls add up to the change
/// in depth.
pub proof fn lemma_effect_is_depth_gained(stage: RunStage, replies: Seq<RunReply>)
    requires
        depth_after(stage, replies) is Some,
    ensures
        total_effect(stage, replies) == depth_after(stage, replies).unwrap() - depth_in(stage),
    decreases replies.len(),
{
    if replies.len() > 0 {
        match next_stage(stage, replies[0]) {
            Some(next) => {
                lemma_effect_is_depth_gained(next, replies.skip(1));
            },
            None => {
                assert(total_effect(stage, replies) == stack_effect(stage, replies[0]));
            },
        }
    }
}

/// The stack is left as it was found: whatever the reports, a run that goes
/// from its beginning to its end has made calls whose effects on the stack
/// add up to nothing. That holds of a script that worked and of one that
/// failed to compile or to run.
pub proof fn lemma_run_leaves_stack_balanced(replies: Seq<RunReply>)
    requires
        runs_to_end(RunStage::Loading, replies),
    ensures
        total_effect(RunStage::Loading, replies) == 0,
{
    lemma_ended_run_has_no_depth(RunStage::Loading, replies);
    lemma_effect_is_depth_gained(RunStage::Loading, replies);
}

/// A run that has come to its end has nothing on the stack.
pub proof fn lemma_ended_run_has_no_depth(stage: RunStage, replies: Seq<RunReply>)
    requires
        runs_to_end(stage, replies),
    ensures
        depth_after(stage, replies) == Some(0nat),
    decreases replies.len(),
{
    match next_stage(stage, replies[0]) {
        Some(next) => {
            lemma_ended_run_has_no_depth(next, replies.skip(1));
        },
        None => {},
    }
}

} // verus!
