use gmod_hook::bridge::{
    acquire_lua_state, AcquireStep, AcquireTurn, BridgeError, InterpreterBridge, RunCall,
    RunReply, RunStage, RunTurn, ScriptError, ScriptFailure, ScriptRun,
};

/// Walks the lookups with the given addresses, as far as they go.
fn acquire(bridge: &mut InterpreterBridge, found: &[usize]) -> AcquireTurn {
    let mut step = AcquireStep::first();
    let mut turn = AcquireTurn::Ask(step);
    for address in found {
        turn = acquire_lua_state(bridge, step, *address);
        match turn {
            AcquireTurn::Ask(next) => step = next,
            _ => break,
        }
    }
    turn
}

#[test]
fn lookups_follow_one_another() {
    let mut bridge = InterpreterBridge::new();
    assert_eq!(AcquireStep::first(), AcquireStep::LocateModule);
    assert_eq!(
        acquire_lua_state(&mut bridge, AcquireStep::LocateModule, 0x10),
        AcquireTurn::Ask(AcquireStep::ResolveExport)
    );
    assert_eq!(
        acquire_lua_state(&mut bridge, AcquireStep::ResolveExport, 0x20),
        AcquireTurn::Ask(AcquireStep::QueryShared)
    );
    assert_eq!(
        acquire_lua_state(&mut bridge, AcquireStep::QueryShared, 0x30),
        AcquireTurn::Ask(AcquireStep::QueryRealm)
    );
    assert_eq!(
        acquire_lua_state(&mut bridge, AcquireStep::QueryRealm, 0x40),
        AcquireTurn::Ask(AcquireStep::ReadState)
    );
}

#[test]
fn last_lookup_gives_the_handle() {
    let mut bridge = InterpreterBridge::new();
    match acquire(&mut bridge, &[0x10, 0x20, 0x30, 0x40, 0x50]) {
        AcquireTurn::Acquired { handle, register } => {
            assert_eq!(handle.address(), 0x50);
            assert!(register);
        }
        other => panic!("not acquired: {:?}", other),
    }
}

#[test]
fn handle_is_registered_once() {
    let mut bridge = InterpreterBridge::new();
    let mut registered = 0;
    for round in 0..5 {
        match acquire(&mut bridge, &[0x10, 0x20, 0x30, 0x40, 0x50 + round]) {
            AcquireTurn::Acquired { handle, register } => {
                assert_eq!(handle.address(), 0x50 + round);
                assert_eq!(register, round == 0);
                if register {
                    registered += 1;
                }
            }
            other => panic!("not acquired: {:?}", other),
        }
    }
    assert_eq!(registered, 1);
}

#[test]
fn failed_acquisition_does_not_register() {
    let mut bridge = InterpreterBridge::new();
    assert_eq!(
        acquire(&mut bridge, &[0x10, 0x20, 0x30, 0x40, 0]),
        AcquireTurn::Failed(BridgeError::StateMissing)
    );
    match acquire(&mut bridge, &[0x10, 0x20, 0x30, 0x40, 0x50]) {
        AcquireTurn::Acquired { register, .. } => assert!(register),
        other => panic!("not acquired: {:?}", other),
    }
}

#[test]
fn each_failed_lookup_has_its_error() {
    let mut bridge = InterpreterBridge::new();
    assert_eq!(acquire(&mut bridge, &[0]), AcquireTurn::Failed(BridgeError::ModuleNotLoaded));
    assert_eq!(acquire(&mut bridge, &[1, 0]), AcquireTurn::Failed(BridgeError::ExportMissing));
    assert_eq!(
        acquire(&mut bridge, &[1, 1, 0]),
        AcquireTurn::Failed(BridgeError::SharedInterfaceMissing)
    );
    assert_eq!(
        acquire(&mut bridge, &[1, 1, 1, 0]),
        AcquireTurn::Failed(BridgeError::RealmInterfaceMissing)
    );
    assert_eq!(
        acquire(&mut bridge, &[1, 1, 1, 1, 0]),
        AcquireTurn::Failed(BridgeError::StateMissing)
    );
}

/// A stand-in for the interpreter: a stack of values and scripts that are
/// known to it by their text.
struct Interpreter {
    stack: Vec<String>,
}

impl Interpreter {
    fn perform(&mut self, call: RunCall, source: &str) -> RunReply {
        match call {
            RunCall::Load => {
                if source.contains("syntax error") {
                    self.stack.push(String::from("unexpected symbol"));
                    RunReply::Loaded(false)
                } else {
                    self.stack.push(String::from("<chunk>"));
                    RunReply::Loaded(true)
                }
            }
            RunCall::Call => {
                assert_eq!(self.stack.pop().as_deref(), Some("<chunk>"));
                if source.contains("error(") {
                    self.stack.push(String::from("attempt to call a nil value"));
                    RunReply::Called(false)
                } else if source.contains("error{}") {
                    self.stack.push(String::from("<table>"));
                    RunReply::Called(false)
                } else {
                    RunReply::Called(true)
                }
            }
            RunCall::TakeError => {
                let top = self.stack.pop().expect("a message on the stack");
                RunReply::Message(if top == "<table>" { None } else { Some(top) })
            }
        }
    }
}

fn run(interpreter: &mut Interpreter, source: &str) -> Result<(), ScriptError> {
    let found = interpreter.stack.len();
    let mut turn = ScriptRun::start(source);
    loop {
        match turn {
            RunTurn::Done(result) => return result,
            RunTurn::Ask(state, call) => {
                assert_eq!(interpreter.stack.len(), found + state.depth() as usize);
                let reply = interpreter.perform(call, source);
                turn = state.step(reply);
            }
        }
    }
}

#[test]
fn successful_script_leaves_the_stack_as_it_was() {
    let mut interpreter = Interpreter { stack: vec![String::from("host value")] };
    assert_eq!(run(&mut interpreter, "print('hello')"), Ok(()));
    assert_eq!(interpreter.stack, vec![String::from("host value")]);
}

#[test]
fn failing_script_leaves_the_stack_as_it_was() {
    let mut interpreter =
        Interpreter { stack: vec![String::from("host value"), String::from("another")] };
    assert_eq!(
        run(&mut interpreter, "error('boom')"),
        Err(ScriptError {
            failure: ScriptFailure::Runtime,
            message: String::from("attempt to call a nil value")
        })
    );
    assert_eq!(interpreter.stack.len(), 2);
    assert_eq!(
        run(&mut interpreter, "syntax error here"),
        Err(ScriptError {
            failure: ScriptFailure::Compile,
            message: String::from("unexpected symbol")
        })
    );
    assert_eq!(interpreter.stack, vec![String::from("host value"), String::from("another")]);
}

#[test]
fn error_that_is_no_string_gets_a_message() {
    let mut interpreter = Interpreter { stack: Vec::new() };
    assert_eq!(
        run(&mut interpreter, "error{}"),
        Err(ScriptError {
            failure: ScriptFailure::Runtime,
            message: String::from("Unknown error")
        })
    );
    assert!(interpreter.stack.is_empty());
}

#[test]
fn source_with_a_zero_byte_is_not_handed_over() {
    let mut interpreter = Interpreter { stack: vec![String::from("host value")] };
    assert_eq!(
        run(&mut interpreter, "print('a')\0print('b')"),
        Err(ScriptError {
            failure: ScriptFailure::Source,
            message: String::from("source holds a zero byte")
        })
    );
    assert_eq!(interpreter.stack.len(), 1);
    assert!(matches!(ScriptRun::start("\0"), RunTurn::Done(Err(_))));
    assert!(matches!(ScriptRun::start("return 1\0"), RunTurn::Done(Err(_))));
}

#[test]
fn empty_source_is_run() {
    assert_eq!(
        ScriptRun::start(""),
        RunTurn::Ask(ScriptRun { stage: RunStage::Loading }, RunCall::Load)
    );
    let mut interpreter = Interpreter { stack: Vec::new() };
    assert_eq!(run(&mut interpreter, ""), Ok(()));
}

fn asked(turn: RunTurn) -> (ScriptRun, RunCall) {
    match turn {
        RunTurn::Ask(state, call) => (state, call),
        RunTurn::Done(result) => panic!("the run is over: {:?}", result),
    }
}

#[test]
fn depth_follows_the_calls() {
    let (state, call) = asked(ScriptRun::start("return 1"));
    assert_eq!(call, RunCall::Load);
    assert_eq!(state.depth(), 0);
    let (state, call) = asked(state.step(RunReply::Loaded(true)));
    assert_eq!(call, RunCall::Call);
    assert_eq!(state.depth(), 1);
    let (state, call) = asked(state.step(RunReply::Called(false)));
    assert_eq!(call, RunCall::TakeError);
    assert_eq!(state.stage, RunStage::TakingError(ScriptFailure::Runtime));
    assert_eq!(state.depth(), 1);
    assert_eq!(
        state.step(RunReply::Message(Some(String::from("oops")))),
        RunTurn::Done(Err(ScriptError {
            failure: ScriptFailure::Runtime,
            message: String::from("oops")
        }))
    );
}

#[test]
fn failed_compilation_is_reported_with_its_message() {
    let (state, _) = asked(ScriptRun::start("return return"));
    let (state, call) = asked(state.step(RunReply::Loaded(false)));
    assert_eq!(call, RunCall::TakeError);
    assert_eq!(state.stage, RunStage::TakingError(ScriptFailure::Compile));
    assert_eq!(state.depth(), 1);
    assert_eq!(
        state.step(RunReply::Message(Some(String::from("'=' expected near 'return'")))),
        RunTurn::Done(Err(ScriptError {
            failure: ScriptFailure::Compile,
            message: String::from("'=' expected near 'return'")
        }))
    );
}

#[test]
fn report_that_answers_no_call_is_passed_over() {
    let (state, _) = asked(ScriptRun::start("return 1"));
    let (state, call) = asked(state.step(RunReply::Called(true)));
    assert_eq!((state.stage, call), (RunStage::Loading, RunCall::Load));
    let (state, call) = asked(state.step(RunReply::Message(None)));
    assert_eq!((state.stage, call), (RunStage::Loading, RunCall::Load));
    let (state, call) = asked(state.step(RunReply::Loaded(true)));
    assert_eq!((state.stage, call), (RunStage::Calling, RunCall::Call));
    let (state, call) = asked(state.step(RunReply::Loaded(true)));
    assert_eq!((state.stage, call), (RunStage::Calling, RunCall::Call));
    let (state, call) = asked(state.step(RunReply::Message(None)));
    assert_eq!((state.stage, call), (RunStage::Calling, RunCall::Call));
    let (state, call) = asked(state.step(RunReply::Called(false)));
    assert_eq!(call, RunCall::TakeError);
    let (state, call) = asked(state.step(RunReply::Called(true)));
    assert_eq!(call, RunCall::TakeError);
    let (state, call) = asked(state.step(RunReply::Loaded(false)));
    assert_eq!(call, RunCall::TakeError);
    assert_eq!(state.stage, RunStage::TakingError(ScriptFailure::Runtime));
    assert!(matches!(state.step(RunReply::Message(None)), RunTurn::Done(Err(_))));
}
