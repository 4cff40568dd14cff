//! The remote library load, as a plan that the caller carries out.
//!
//! Loading the payload into the host takes a series of operations on the
//! host process, each of which can fail. This module decides: `Injection`
//! says which operation comes next, takes the caller's report of how it
//! went, and in the end gives the result. The caller holds the handles and
//! performs the operations. Whatever happens, the plan asks for the release
//! of everything it had the caller acquire before it finishes.

use crate::platform::HostModule;
use crate::signature::Address;
use vstd::prelude::*;

verus! {

/// Why a load attempt failed.
#[derive(Clone, Copy, Debug, PartialEq, Eq)]
pub enum InjectError {
    /// The payload file cannot be found or read.
    PayloadMissing,
    /// The payload file holds nothing.
    PayloadEmpty,
    /// The payload's path is too long for the region that is to hold it to
    /// be measured.
    PathTooLong,
    /// The host process could not be opened with the rights needed.
    OpenProcess,
    /// The module list of the host could not be read.
    ModuleQuery,
    /// The modules the payload depends on did not appear in time.
    ModuleWait,
    /// The library-loading entry point could not be resolved.
    ResolveEntry,
    /// No memory could be allocated in the host.
    Allocate,
    /// The payload's path could not be written into the host.
    Write,
    /// No thread could be created in the host.
    CreateThread,
    /// The remote thread did not finish within the time allowed.
    WaitTimeout,
    /// Waiting for the remote thread failed.
    WaitFailed,
    /// The remote thread's exit value could not be read.
    ExitCode,
    /// The host ran the load and it gave no module.
    LoadFailed,
    /// A report did not answer the operation that was asked for.
    Unexpected,
}

/// How a bounded wait on a handle ended.
#[derive(Clone, Copy, Debug, PartialEq, Eq)]
pub enum WaitOutcome {
    /// What was waited for has happened.
    Signaled,
    /// The time allowed has passed first.
    TimedOut,
    /// The wait could not be made.
    Failed,
}

/// The payload as loaded into the host.
#[derive(Clone, Copy, Debug, PartialEq, Eq)]
pub struct InjectedGmod {
    /// The remote thread's exit value: where the host mapped the payload.
    pub module_base: u32,
}

/// What went wrong while waiting for the host to exit.
#[derive(Clone, Copy, Debug, PartialEq, Eq)]
pub enum ExitWaitError {
    /// The host could not be opened for waiting.
    Open,
    /// The wait itself failed.
    Wait,
}

impl InjectedGmod {
    /// Judges the wait for the host's exit. `opened` says whether the host
    /// could be opened for waiting, `waited` how the unbounded wait on it
    /// ended; where the host could not be opened there was no wait and
    /// `waited` is not looked at.
    pub fn wait(self, opened: bool, waited: WaitOutcome) -> (ended: Result<(), ExitWaitError>)
        ensures
            ended == (if !opened {
                Err::<(), ExitWaitError>(ExitWaitError::Open)
            } else if waited is Failed {
                Err(ExitWaitError::Wait)
            } else {
                Ok(())
            }),
    {
        if !opened {
            Err(ExitWaitError::Open)
        } else {
            match waited {
                WaitOutcome::Failed => Err(ExitWaitError::Wait),
                _ => Ok(()),
            }
        }
    }
}

/// The payload: a library file that was found to be there and not empty,
/// with its path in the form the host's loader takes it, 16-bit units.
pub struct PayloadArtifact {
    path: Vec<u16>,
    file_size: u64,
}

impl View for PayloadArtifact {
    type V = Seq<u16>;

    closed spec fn view(&self) -> Seq<u16> {
        self.path@
    }
}

/// Bytes that the terminated path of `units` 16-bit units takes.
pub open spec fn terminated_size(units: nat) -> nat {
    (units + 1) * 2
}

/// Why a file at a path of `units` units cannot be a payload, if it cannot.
/// `file_size` is the size of the file, or `None` where the file cannot be
/// found or read.
pub open spec fn payload_refusal(units: nat, file_size: Option<u64>) -> Option<InjectError> {
    match file_size {
        None => Some(InjectError::PayloadMissing),
        Some(size) => if size == 0 {
            Some(InjectError::PayloadEmpty)
        } else if terminated_size(units) > usize::MAX {
            Some(InjectError::PathTooLong)
        } else {
            None
        },
    }
}

impl PayloadArtifact {
    #[verifier::type_invariant]
    spec fn sized(&self) -> bool {
        terminated_size(self.path@.len()) <= usize::MAX && self.file_size > 0
    }

    /// The size that the payload file had when it was looked at.
    pub closed spec fn size_of(&self) -> u64 {
        self.file_size
    }

    /// Takes the file at `path` as the payload. `file_size` is what the file
    /// system says of it: its size, or `None` where the file cannot be
    /// found or read. A file that is missing or empty is no payload.
    pub fn new(
        path: Vec<u16>,
        file_size: Option<u64>,
    ) -> (payload: Result<PayloadArtifact, InjectError>)
        ensures
            match payload_refusal(path@.len(), file_size) {
                Some(error) => payload matches Err(refused) && refused == error,
                None => payload matches Ok(made) && made@ == path@ && Some(made.size_of())
                    == file_size,
            },
    {
        match file_size {
            None => Err(InjectError::PayloadMissing),
            Some(size) => if size == 0 {
                Err(InjectError::PayloadEmpty)
            } else if path.len() > (usize::MAX - 2) / 2 {
                Err(InjectError::PathTooLong)
            } else {
                Ok(PayloadArtifact { path, file_size: size })
            },
        }
    }

    /// The size that the payload file had when it was looked at.
    pub fn file_size(&self) -> (size: u64)
        ensures
            size == self.size_of(),
            size > 0,
    {
        proof {
            use_type_invariant(self);
        }
        self.file_size
    }

    /// The size in bytes of the region that holds the terminated path.
    pub fn remote_size(&self) -> (size: usize)
        ensures
            size == terminated_size(self@.len()),
    {
        proof {
            use_type_invariant(self);
        }
        (self.path.len() + 1) * 2
    }

    /// What is written into the host: the path and a terminating zero.
    pub fn remote_buffer(&self) -> (buffer: Vec<u16>)
        ensures
            buffer@ == self@.push(0),
    {
        let mut buffer: Vec<u16> = Vec::new();
        let mut i: usize = 0;
        while i < self.path.len()
            invariant
                i <= self.path@.len(),
                buffer@ == self.path@.take(i as int),
            decreases self.path@.len() - i,
        {
            buffer.push(self.path[i]);
            assert(buffer@ =~= self.path@.take(i + 1));
            i = i + 1;
        }
        assert(self.path@.take(i as int) =~= self.path@);
        buffer.push(0);
        buffer
    }
}

/// An operation on the host that the plan asks for.
#[derive(Clone, Copy, Debug, PartialEq, Eq)]
pub enum InjectAction {
    /// Open the host process for memory and thread operations.
    OpenProcess,
    /// After `delay_ms` milliseconds, look for `module` among the host's
    /// modules.
    QueryModule { module: HostModule, delay_ms: u32 },
    /// Find the loader's entry point in the system module that every process
    /// maps.
    ResolveEntry,
    /// Allocate `size` bytes of readable and writable memory in the host.
    Allocate { size: usize },
    /// Write the terminated payload path, `size` bytes, to `address`.
    Write { address: Address, size: usize },
    /// Start a thread in the host at `entry` with `argument`.
    CreateThread { entry: Address, argument: Address },
    /// Wait up to `timeout_ms` milliseconds for the remote thread to end.
    Wait { timeout_ms: u32 },
    /// Read the remote thread's exit value.
    ReadExitCode,
    /// Close the remote thread's handle.
    CloseThread,
    /// Free the memory allocated in the host at `address`.
    FreeMemory { address: Address },
    /// Close the host process's handle.
    CloseProcess,
    /// Nothing is left to do; this is the attempt's result.
    Finish(Result<InjectedGmod, InjectError>),
}

/// The caller's report on the operation that was asked for last.
#[derive(Clone, Copy, Debug, PartialEq, Eq)]
pub enum InjectReply {
    /// Whether the process was opened.
    Opened(bool),
    /// Whether the module is loaded; `None` where the list could not be read.
    ModulePresent(Option<bool>),
    /// The entry point's address, zero where it was not found.
    Entry(Address),
    /// The allocated region's address, zero where none was allocated.
    Allocated(Address),
    /// Whether the path was written.
    Written(bool),
    /// Whether the thread was created.
    ThreadCreated(bool),
    /// How the wait ended.
    Waited(WaitOutcome),
    /// The exit value, `None` where it could not be read.
    ExitCode(Option<u32>),
    /// The release that was asked for has been attempted.
    Released,
}

/// Where the plan stands: the operation whose report it waits for.
#[derive(Clone, Copy, Debug, PartialEq, Eq)]
pub enum Stage {
    /// The opening of the host process.
    Opening,
    /// A look for the host's core logic module.
    AwaitingClient,
    /// A look for the host's scripting runtime module.
    AwaitingLuaShared,
    /// The resolving of the loader's entry point.
    Resolving,
    /// The allocation of memory in the host.
    Allocating,
    /// The writing of the payload's path.
    Writing,
    /// The creation of the remote thread.
    Spawning,
    /// The wait for the remote thread.
    Waiting,
    /// The reading of the remote thread's exit value.
    ReadingExit,
    /// The closing of the remote thread's handle.
    ClosingThread,
    /// The freeing of the memory in the host.
    FreeingMemory,
    /// The closing of the host process's handle.
    ClosingProcess,
    /// Nothing: the attempt has given its result.
    Finished,
}

/// The limits of one attempt.
#[derive(Clone, Copy, Debug, PartialEq, Eq)]
pub struct InjectConfig {
    /// Milliseconds between two looks at the host's module list.
    pub poll_delay_ms: u32,
    /// How often a module may be found absent before the attempt is given up.
    pub poll_budget: u32,
    /// Milliseconds the remote thread is given to finish.
    pub wait_timeout_ms: u32,
}

impl InjectConfig {
    /// A look at the module list every tenth of a second, for as long as the
    /// counter allows, and ten seconds for the remote thread.
    pub fn standard() -> (config: InjectConfig)
        ensures
            config == (InjectConfig {
                poll_delay_ms: 100,
                poll_budget: u32::MAX,
                wait_timeout_ms: 10000,
            }),
    {
        InjectConfig { poll_delay_ms: 100, poll_budget: u32::MAX, wait_timeout_ms: 10000 }
    }
}

/// One load attempt in progress.
#[derive(Clone, Copy, Debug, PartialEq, Eq)]
pub struct Injection {
    pub stage: Stage,
    pub config: InjectConfig,
    /// How often a module may still be found absent.
    pub polls_left: u32,
    /// Size in bytes of the terminated payload path.
    pub buffer_size: usize,
    /// Whether the caller holds the host process open.
    pub process_open: bool,
    /// The region allocated in the host; zero while there is none.
    pub memory: Address,
    /// Whether the caller holds the remote thread's handle.
    pub thread_open: bool,
    /// The loader's entry point, once resolved.
    pub entry: Address,
    /// The result that will be given once everything is released.
    pub outcome: Result<InjectedGmod, InjectError>,
}

impl Injection {
    /// Whether the caller holds nothing of the host's.
    pub open spec fn holds_nothing(self) -> bool {
        !self.process_open && self.memory == 0 && !self.thread_open
    }

    /// What each stage implies of what is held: the process from its opening
    /// on, the memory from its allocation on, the thread from its creation
    /// on, and in release each thing until its turn has come.
    pub open spec fn consistent(self) -> bool {
        match self.stage {
            Stage::Opening => self.holds_nothing(),
            Stage::AwaitingClient | Stage::AwaitingLuaShared | Stage::Resolving
            | Stage::Allocating => self.process_open && self.memory == 0 && !self.thread_open,
            Stage::Writing | Stage::Spawning => self.process_open && self.memory != 0
                && !self.thread_open,
            Stage::Waiting | Stage::ReadingExit => self.process_open && self.memory != 0
                && self.thread_open,
            Stage::ClosingThread => self.thread_open,
            Stage::FreeingMemory => self.memory != 0 && !self.thread_open,
            Stage::ClosingProcess => self.process_open && self.memory == 0 && !self.thread_open,
            Stage::Finished => self.holds_nothing(),
        }
    }

    /// An upper bound on the reports the plan will still take.
    pub open spec fn steps_left(self) -> nat {
        match self.stage {
            Stage::Opening => 12 + self.polls_left as nat,
            Stage::AwaitingClient => 11 + self.polls_left as nat,
            Stage::AwaitingLuaShared => 10 + self.polls_left as nat,
            Stage::Resolving => 9,
            Stage::Allocating => 8,
            Stage::Writing => 7,
            Stage::Spawning => 6,
            Stage::Waiting => 5,
            Stage::ReadingExit => 4,
            Stage::ClosingThread => 3,
            Stage::FreeingMemory => 2,
            Stage::ClosingProcess => 1,
            Stage::Finished => 0,
        }
    }

    /// The next release: the thread's handle first, then the memory, then
    /// the process; the result once nothing is held.
    pub open spec fn release(self) -> (Injection, InjectAction) {
        if self.thread_open {
            (Injection { stage: Stage::ClosingThread, ..self }, InjectAction::CloseThread)
        } else if self.memory != 0 {
            (
                Injection { stage: Stage::FreeingMemory, ..self },
                InjectAction::FreeMemory { address: self.memory },
            )
        } else if self.process_open {
            (Injection { stage: Stage::ClosingProcess, ..self }, InjectAction::CloseProcess)
        } else {
            (Injection { stage: Stage::Finished, ..self }, InjectAction::Finish(self.outcome))
        }
    }

    /// Settles the result and turns to releasing what is held.
    pub open spec fn conclude(self, outcome: Result<InjectedGmod, InjectError>) -> (
        Injection,
        InjectAction,
    ) {
        (Injection { outcome, ..self }).release()
    }

    /// The look at the module list that follows one that found `module`
    /// absent, while the budget lasts.
    pub open spec fn poll_again(self, module: HostModule) -> (Injection, InjectAction) {
        if self.polls_left == 0 {
            self.conclude(Err(InjectError::ModuleWait))
        } else {
            (
                Injection { polls_left: (self.polls_left - 1) as u32, ..self },
                InjectAction::QueryModule { module, delay_ms: self.config.poll_delay_ms },
            )
        }
    }

    /// The plan's first state and operation. An attempt whose payload file
    /// is missing or empty ends before anything is asked of the host.
    pub open spec fn begin(buffer_size: usize, file_size: Option<u64>, config: InjectConfig) -> (
        Injection,
        InjectAction,
    ) {
        let fresh = Injection {
            stage: Stage::Opening,
            config,
            polls_left: config.poll_budget,
            buffer_size,
            process_open: false,
            memory: 0,
            thread_open: false,
            entry: 0,
            outcome: Err(InjectError::Unexpected),
        };
        match file_size {
            None => fresh.conclude(Err(InjectError::PayloadMissing)),
            Some(size) => if size == 0 {
                fresh.conclude(Err(InjectError::PayloadEmpty))
            } else {
                (fresh, InjectAction::OpenProcess)
            },
        }
    }

    /// The state and the operation that follow `reply`.
    pub open spec fn next(self, reply: InjectReply) -> (Injection, InjectAction) {
        match (self.stage, reply) {
            (Stage::Opening, InjectReply::Opened(opened)) => if opened {
                (
                    Injection { stage: Stage::AwaitingClient, process_open: true, ..self },
                    InjectAction::QueryModule { module: HostModule::Client, delay_ms: 0 },
                )
            } else {
                self.conclude(Err(InjectError::OpenProcess))
            },
            (Stage::AwaitingClient, InjectReply::ModulePresent(seen)) => match seen {
                None => self.conclude(Err(InjectError::ModuleQuery)),
                Some(present) => if present {
                    (
                        Injection { stage: Stage::AwaitingLuaShared, ..self },
                        InjectAction::QueryModule { module: HostModule::LuaShared, delay_ms: 0 },
                    )
                } else {
                    self.poll_again(HostModule::Client)
                },
            },
            (Stage::AwaitingLuaShared, InjectReply::ModulePresent(seen)) => match seen {
                None => self.conclude(Err(InjectError::ModuleQuery)),
                Some(present) => if present {
                    (Injection { stage: Stage::Resolving, ..self }, InjectAction::ResolveEntry)
                } else {
                    self.poll_again(HostModule::LuaShared)
                },
            },
            (Stage::Resolving, InjectReply::Entry(entry)) => if entry != 0 {
                (
                    Injection { stage: Stage::Allocating, entry, ..self },
                    InjectAction::Allocate { size: self.buffer_size },
                )
            } else {
                self.conclude(Err(InjectError::ResolveEntry))
            },
            (Stage::Allocating, InjectReply::Allocated(address)) => if address != 0 {
                (
                    Injection { stage: Stage::Writing, memory: address, ..self },
                    InjectAction::Write { address, size: self.buffer_size },
                )
            } else {
                self.conclude(Err(InjectError::Allocate))
            },
            (Stage::Writing, InjectReply::Written(written)) => if written {
                (
                    Injection { stage: Stage::Spawning, ..self },
                    InjectAction::CreateThread { entry: self.entry, argument: self.memory },
                )
            } else {
                self.conclude(Err(InjectError::Write))
            },
            (Stage::Spawning, InjectReply::ThreadCreated(created)) => if created {
                (
                    Injection { stage: Stage::Waiting, thread_open: true, ..self },
                    InjectAction::Wait { timeout_ms: self.config.wait_timeout_ms },
                )
            } else {
                self.conclude(Err(InjectError::CreateThread))
            },
            (Stage::Waiting, InjectReply::Waited(waited)) => match waited {
                WaitOutcome::Signaled => (
                    Injection { stage: Stage::ReadingExit, ..self },
                    InjectAction::ReadExitCode,
                ),
                WaitOutcome::TimedOut => self.conclude(Err(InjectError::WaitTimeout)),
                WaitOutcome::Failed => self.conclude(Err(InjectError::WaitFailed)),
            },
            (Stage::ReadingExit, InjectReply::ExitCode(code)) => match code {
                None => self.conclude(Err(InjectError::ExitCode)),
                Some(value) => if value != 0 {
                    self.conclude(Ok(InjectedGmod { module_base: value }))
                } else {
                    self.conclude(Err(InjectError::LoadFailed))
                },
            },
            (Stage::ClosingThread, _) => (Injection { thread_open: false, ..self }).release(),
            (Stage::FreeingMemory, _) => (Injection { memory: 0, ..self }).release(),
            (Stage::ClosingProcess, _) => (Injection { process_open: false, ..self }).release(),
            (Stage::Finished, _) => (self, InjectAction::Finish(self.outcome)),
            _ => self.conclude(Err(InjectError::Unexpected)),
        }
    }

    /// The state that `replies`, taken one after the other, lead to.
    pub open spec fn after(self, replies: Seq<InjectReply>) -> Injection
        decreases replies.len(),
    {
        if replies.len() == 0 {
            self
        } else {
            self.next(replies[0]).0.after(replies.skip(1))
        }
    }

    fn release_held(self) -> (turn: (Injection, InjectAction))
        ensures
            turn == self.release(),
    {
        if self.thread_open {
            (Injection { stage: Stage::ClosingThread, ..self }, InjectAction::CloseThread)
        } else if self.memory != 0 {
            (
                Injection { stage: Stage::FreeingMemory, ..self },
                InjectAction::FreeMemory { address: self.memory },
            )
        } else if self.process_open {
            (Injection { stage: Stage::ClosingProcess, ..self }, InjectAction::CloseProcess)
        } else {
            (Injection { stage: Stage::Finished, ..self }, InjectAction::Finish(self.outcome))
        }
    }

    fn conclude_with(self, outcome: Result<InjectedGmod, InjectError>) -> (turn: (
        Injection,
        InjectAction,
    ))
        ensures
            turn == self.conclude(outcome),
    {
        (Injection { outcome, ..self }).release_held()
    }

    fn poll_once_more(self, module: HostModule) -> (turn: (Injection, InjectAction))
        ensures
            turn == self.poll_again(module),
    {
        if self.polls_left == 0 {
            self.conclude_with(Err(InjectError::ModuleWait))
        } else {
            (
                Injection { polls_left: self.polls_left - 1, ..self },
                InjectAction::QueryModule { module, delay_ms: self.config.poll_delay_ms },
            )
        }
    }

    /// Begins an attempt to load `payload`. `file_size` is what the file
    /// system says of the payload file now, which may be long after the
    /// payload was taken: its size, or `None` where the file cannot be found
    /// or read.
    pub fn start(
        payload: &PayloadArtifact,
        file_size: Option<u64>,
        config: InjectConfig,
    ) -> (begun: (Injection, InjectAction))
        ensures
            begun == Injection::begin(terminated_size(payload@.len()) as usize, file_size, config),
            begun.0.consistent(),
            begun.1 is Finish <==> file_size is None || file_size == Some(0u64),
            file_size is None ==> begun.1 == InjectAction::Finish(Err(InjectError::PayloadMissing)),
            file_size == Some(0u64) ==> begun.1 == InjectAction::Finish(
                Err(InjectError::PayloadEmpty),
            ),
            !(begun.1 is Finish) ==> begun.1 == InjectAction::OpenProcess,
    {
        let fresh = Injection {
            stage: Stage::Opening,
            config,
            polls_left: config.poll_budget,
            buffer_size: payload.remote_size(),
            process_open: false,
            memory: 0,
            thread_open: false,
            entry: 0,
            outcome: Err(InjectError::Unexpected),
        };
        match file_size {
            None => fresh.conclude_with(Err(InjectError::PayloadMissing)),
            Some(size) => if size == 0 {
                fresh.conclude_with(Err(InjectError::PayloadEmpty))
            } else {
                (fresh, InjectAction::OpenProcess)
            },
        }
    }

    /// Takes the report on the operation asked for last and gives the next
    /// one. After `Finish` every further report is answered with the same
    /// `Finish`.
    pub fn step(&mut self, reply: InjectReply) -> (action: InjectAction)
        ensures
            (*final(self), action) == old(self).next(reply),
            old(self).consistent() ==> final(self).consistent(),
            action is Finish <==> final(self).stage is Finished,
    {
        let current = *self;
        let turn = match (current.stage, reply) {
            (Stage::Opening, InjectReply::Opened(opened)) => if opened {
                (
                    Injection { stage: Stage::AwaitingClient, process_open: true, ..current },
                    InjectAction::QueryModule { module: HostModule::Client, delay_ms: 0 },
                )
            } else {
                current.conclude_with(Err(InjectError::OpenProcess))
            },
            (Stage::AwaitingClient, InjectReply::ModulePresent(seen)) => match seen {
                None => current.conclude_with(Err(InjectError::ModuleQuery)),
                Some(present) => if present {
                    (
                        Injection { stage: Stage::AwaitingLuaShared, ..current },
                        InjectAction::QueryModule { module: HostModule::LuaShared, delay_ms: 0 },
                    )
                } else {
                    current.poll_once_more(HostModule::Client)
                },
            },
            (Stage::AwaitingLuaShared, InjectReply::ModulePresent(seen)) => match seen {
                None => current.conclude_with(Err(InjectError::ModuleQuery)),
                Some(present) => if present {
                    (Injection { stage: Stage::Resolving, ..current }, InjectAction::ResolveEntry)
                } else {
                    current.poll_once_more(HostModule::LuaShared)
                },
            },
            (Stage::Resolving, InjectReply::Entry(entry)) => if entry != 0 {
                (
                    Injection { stage: Stage::Allocating, entry, ..current },
                    InjectAction::Allocate { size: current.buffer_size },
                )
            } else {
                current.conclude_with(Err(InjectError::ResolveEntry))
            },
            (Stage::Allocating, InjectReply::Allocated(address)) => if address != 0 {
                (
                    Injection { stage: Stage::Writing, memory: address, ..current },
                    InjectAction::Write { address, size: current.buffer_size },
                )
            } else {
                current.conclude_with(Err(InjectError::Allocate))
            },
            (Stage::Writing, InjectReply::Written(written)) => if written {
                (
                    Injection { stage: Stage::Spawning, ..current },
                    InjectAction::CreateThread { entry: current.entry, argument: current.memory },
                )
            } else {
                current.conclude_with(Err(InjectError::Write))
            },
            (Stage::Spawning, InjectReply::ThreadCreated(created)) => if created {
                (
                    Injection { stage: Stage::Waiting, thread_open: true, ..current },
                    InjectAction::Wait { timeout_ms: current.config.wait_timeout_ms },
                )
            } else {
                current.conclude_with(Err(InjectError::CreateThread))
            },
            (Stage::Waiting, InjectReply::Waited(waited)) => match waited {
                WaitOutcome::Signaled => (
                    Injection { stage: Stage::ReadingExit, ..current },
                    InjectAction::ReadExitCode,
                ),
                WaitOutcome::TimedOut => current.conclude_with(Err(InjectError::WaitTimeout)),
                WaitOutcome::Failed => current.conclude_with(Err(InjectError::WaitFailed)),
            },
            (Stage::ReadingExit, InjectReply::ExitCode(code)) => match code {
                None => current.conclude_with(Err(InjectError::ExitCode)),
                Some(value) => if value != 0 {
                    current.conclude_with(Ok(InjectedGmod { module_base: value }))
                } else {
                    current.conclude_with(Err(InjectError::LoadFailed))
                },
            },
            (Stage::ClosingThread, _) => (Injection {
                thread_open: false,
                ..current
            }).release_held(),
            (Stage::FreeingMemory, _) => (Injection { memory: 0, ..current }).release_held(),
            (Stage::ClosingProcess, _) => (Injection {
                process_open: false,
                ..current
            }).release_held(),
            (Stage::Finished, _) => (current, InjectAction::Finish(current.outcome)),
            _ => current.conclude_with(Err(InjectError::Unexpected)),
        };
        *self = turn.0;
        turn.1
    }

    /// Whether the attempt has given its result.
    pub fn is_finished(&self) -> (finished: bool)
        ensures
            finished == (self.stage is Finished),
    {
        match self.stage {
            Stage::Finished => true,
            _ => false,
        }
    }
}

/// Every exit releases what was acquired: from a consistent state each
/// report leads to a consistent state, and the result is given only once the
/// caller holds neither the process, nor memory in it, nor the thread.
pub proof fn lemma_finish_holds_nothing(state: Injection, reply: InjectReply)
    requires
        state.consistent(),
    ensures
        state.next(reply).0.consistent(),
        state.next(reply).1 is Finish <==> state.next(reply).0.stage is Finished,
        state.next(reply).1 is Finish ==> state.next(reply).0.holds_nothing(),
        state.next(reply).1 matches InjectAction::Finish(outcome) ==> outcome == state.next(
            reply,
        ).0.outcome,
{
}

/// The attempt ends: each report on an unfinished attempt lowers the bound
/// on the reports still to come, so no more than twelve reports and the
/// polling budget are taken in all.
pub proof fn lemma_attempt_ends(state: Injection, reply: InjectReply)
    requires
        state.consistent(),
        !(state.stage is Finished),
    ensures
        state.next(reply).0.steps_left() < state.steps_left(),
        state.steps_left() <= 12 + state.polls_left,
{
}

/// Success means a loaded module: the attempt gives `Ok` only on the report
/// of a non-zero exit value of the remote thread, and gives that value.
pub proof fn lemma_success_is_nonzero_exit(state: Injection, reply: InjectReply)
    requires
        state.consistent(),
        state.outcome is Err,
        state.next(reply).0.outcome is Ok,
    ensures
        state.stage is ReadingExit,
        reply matches InjectReply::ExitCode(Some(value)) && value != 0 && state.next(
            reply,
        ).0.outcome == Ok::<InjectedGmod, InjectError>(InjectedGmod { module_base: value }),
{
}

/// Whether `action` asks for nothing but a release, or gives the result.
pub open spec fn is_release(action: InjectAction) -> bool {
    action is CloseThread || action is FreeMemory || action is CloseProcess || action is Finish
}

/// Whether the attempt is releasing what it holds.
pub open spec fn is_releasing(stage: Stage) -> bool {
    stage is ClosingThread || stage is FreeingMemory || stage is ClosingProcess
}

/// Once an attempt has turned to releasing, it asks for nothing else: what
/// follows a failure, or the reading of the exit value, is the release of
/// what is held and then the result. The memory that is freed is the memory
/// that was allocated.
pub proof fn lemma_only_releases_follow(state: Injection, reply: InjectReply)
    requires
        state.consistent(),
    ensures
        is_releasing(state.stage) ==> is_release(state.next(reply).1),
        state.next(reply).0.outcome != state.outcome ==> is_release(state.next(reply).1),
        state.next(reply).1 matches InjectAction::FreeMemory { address } ==> address
            == state.memory && address != 0,
{
}

/// Whatever is reported, an attempt stays consistent; once it has taken as
/// many reports as its bound allows it is finished, and a finished attempt
/// holds nothing.
pub proof fn lemma_attempt_runs_out(state: Injection, replies: Seq<InjectReply>)
    requires
        state.consistent(),
    ensures
        state.after(replies).consistent(),
        state.after(replies).stage is Finished ==> state.after(replies).holds_nothing(),
        replies.len() >= state.steps_left() ==> state.after(replies).stage is Finished,
    decreases replies.len(),
{
    if replies.len() > 0 {
        lemma_finish_holds_nothing(state, replies[0]);
        if !(state.stage is Finished) {
            lemma_attempt_ends(state, replies[0]);
        }
        lemma_attempt_runs_out(state.next(replies[0]).0, replies.skip(1));
    }
}

/// Every attempt comes to its end and leaves nothing behind: from its
/// beginning, after twelve reports and as many more as the polling budget
/// counts, it is finished, and the caller holds neither the process, nor
/// memory in it, nor the thread.
pub proof fn lemma_every_attempt_ends_clean(
    buffer_size: usize,
    file_size: Option<u64>,
    config: InjectConfig,
    replies: Seq<InjectReply>,
)
    requires
        replies.len() >= 12 + config.poll_budget,
    ensures
        Injection::begin(buffer_size, file_size, config).0.after(replies).stage is Finished,
        Injection::begin(buffer_size, file_size, config).0.after(replies).holds_nothing(),
{
    let begun = Injection::begin(buffer_size, file_size, config).0;
    lemma_attempt_runs_out(begun, replies);
}

} // verus!
