//! Async functions and async iterators over synchronous ones, answered by hand.
use stack_vm::async_from_sync_iterator::operation::{FromSyncStep, FromSyncTarget, GeneratorResumeKind};
use stack_vm::async_function::operation::{AsyncResume, AsyncStep, SuspendedActivation, VmRunOutcome, VmSuspendKind};
use stack_vm::call::{CallableExecution, NativeArguments, NativeInvocation, NativeInvokeMode};
use stack_vm::error::Error;
use stack_vm::heap::{AsyncFunctionPhase, AsyncFunctionResumeKind, EdgeEvent, HeapObject, InternalCallableData, NativeFunctionData, ObjectKind, ObjectPayload, PropertySlot, Realm};
use stack_vm::promise::{NATIVE_FROM_SYNC_CLOSE, NATIVE_FROM_SYNC_UNWRAP};
use stack_vm::runtime::{Runtime, ATOM_DONE, ATOM_MESSAGE, ATOM_RETURN, ATOM_THROW, ATOM_VALUE};
use stack_vm::value::{CallableRef, Completion, JsValue, ObjectRef, PropertyKey};

fn context(runtime: &mut Runtime) -> usize {
    let object_prototype = runtime.new_object(None);
    let mut plain = || runtime.new_object(Some(object_prototype));
    let realm = Realm {
        object_prototype,
        function_prototype: plain(),
        array_prototype: plain(),
        string_prototype: plain(),
        number_prototype: plain(),
        boolean_prototype: plain(),
        symbol_prototype: plain(),
        bigint_prototype: plain(),
        promise_prototype: plain(),
        type_error_prototype: plain(),
        reference_error_prototype: plain(),
        range_error_prototype: plain(),
        syntax_error_prototype: plain(),
        internal_error_prototype: plain(),
        global_object: plain(),
        global_lexical: plain(),
    };
    runtime.realms.push(realm);
    runtime.realms.len() - 1
}

fn started() -> (Runtime, usize, AsyncResume) {
    let mut runtime = Runtime::new(1);
    let realm = context(&mut runtime);
    let resume = AsyncResume::start(&mut runtime, realm).unwrap();
    (runtime, realm, resume)
}

fn returned(value: JsValue) -> VmRunOutcome {
    VmRunOutcome::Complete(Completion::Return(value))
}

fn suspended(value: JsValue, kind: VmSuspendKind) -> VmRunOutcome {
    VmRunOutcome::Suspend { value, activation: SuspendedActivation { id: 6, kind } }
}

fn internal(runtime: &Runtime, function: ObjectRef) -> InternalCallableData {
    match runtime.object(function).unwrap().payload {
        ObjectPayload::NativeFunction(data) => data.internal,
        other => panic!("expected an internal function, got {other:?}"),
    }
}

fn promise_of(resume: &AsyncResume) -> ObjectRef {
    match resume.output {
        JsValue::Object(promise) => promise,
        other => panic!("expected a promise, got {other:?}"),
    }
}

#[test]
fn a_returning_body_resolves_its_promise() {
    let (mut runtime, _, resume) = started();
    let promise = promise_of(&resume);
    let AsyncStep::Call { callable, value, resume } = resume.body(&mut runtime, returned(JsValue::Int(42))).unwrap()
    else {
        panic!("expected a call")
    };
    assert_eq!(value, JsValue::Int(42));
    assert_eq!(internal(&runtime, callable.object), InternalCallableData::PromiseResolve { promise });
    assert_eq!(runtime.async_function_state(resume.state).unwrap().phase, AsyncFunctionPhase::Completed);
    let step = resume.resume(&mut runtime, Completion::Return(JsValue::Undefined)).unwrap();
    assert!(matches!(step, AsyncStep::Complete(Completion::Return(JsValue::Object(p))) if p == promise));
}

#[test]
fn a_throwing_body_rejects_its_promise() {
    let (mut runtime, _, resume) = started();
    let promise = promise_of(&resume);
    let outcome = VmRunOutcome::Complete(Completion::Throw(JsValue::Null));
    let AsyncStep::Call { callable, value, .. } = resume.body(&mut runtime, outcome).unwrap() else {
        panic!("expected a call")
    };
    assert_eq!(value, JsValue::Null);
    assert_eq!(internal(&runtime, callable.object), InternalCallableData::PromiseReject { promise });
}

#[test]
fn an_awaiting_body_is_stored_until_the_promise_settles() {
    let (mut runtime, realm, resume) = started();
    let output = resume.output;
    let state = resume.state;
    let step = resume.body(&mut runtime, suspended(JsValue::Int(40), VmSuspendKind::Await)).unwrap();
    let AsyncStep::Resolve { value, realm: resolving, resume } = step else { panic!("expected a resolution") };
    assert_eq!((value, resolving), (JsValue::Int(40), realm));
    let awaited = runtime.new_object(None);
    let step = resume.resume(&mut runtime, Completion::Return(JsValue::Object(awaited))).unwrap();
    assert!(matches!(step, AsyncStep::Complete(Completion::Return(value)) if value == output));
    let record = runtime.async_function_state(state).unwrap();
    assert_eq!((record.phase, record.activation), (AsyncFunctionPhase::Suspended, Some(6)));
    assert_eq!(runtime.reactions.len(), 1);
    let reaction = runtime.reactions[0];
    assert_eq!((reaction.promise, reaction.derived), (awaited, None));
    assert_eq!(
        internal(&runtime, reaction.fulfilled.unwrap()),
        InternalCallableData::AsyncFunctionResume { state, kind: AsyncFunctionResumeKind::Fulfill },
    );
    assert_eq!(
        internal(&runtime, reaction.rejected.unwrap()),
        InternalCallableData::AsyncFunctionResume { state, kind: AsyncFunctionResumeKind::Reject },
    );
    // The stored body runs on and ends.
    let step = AsyncResume::resumed(state).body(&mut runtime, returned(JsValue::Int(42))).unwrap();
    assert!(matches!(step, AsyncStep::Call { value: JsValue::Int(42), .. }));
    let record = runtime.async_function_state(state).unwrap();
    assert_eq!((record.phase, record.activation), (AsyncFunctionPhase::Completed, None));
}

#[test]
fn a_failing_resolution_rejects_the_async_function() {
    let (mut runtime, _, resume) = started();
    let promise = promise_of(&resume);
    let step = resume.body(&mut runtime, suspended(JsValue::Null, VmSuspendKind::Await)).unwrap();
    let step = step.answer(&mut runtime, VmRunOutcome::Complete(Completion::Throw(JsValue::Int(7)))).unwrap();
    let AsyncStep::Call { callable, value, .. } = step else { panic!("expected a call") };
    assert_eq!(value, JsValue::Int(7));
    assert_eq!(internal(&runtime, callable.object), InternalCallableData::PromiseReject { promise });
}

#[test]
fn async_functions_settle_only_once() {
    let (mut runtime, _, resume) = started();
    let state = resume.state;
    assert!(resume.body(&mut runtime, returned(JsValue::Null)).is_ok());
    let again = AsyncResume::resumed(state).body(&mut runtime, returned(JsValue::Null));
    assert_eq!(again.err(), Some(Error::broken("async function settled more than once")));
}

#[test]
fn async_functions_refuse_other_suspensions_and_replies() {
    let (mut runtime, _, resume) = started();
    let state = resume.state;
    let refused = resume.body(&mut runtime, suspended(JsValue::Null, VmSuspendKind::Yield));
    assert_eq!(refused.err(), Some(Error::broken("async function stopped at a non-await suspension")));
    assert_eq!(runtime.async_function_state(state).unwrap().phase, AsyncFunctionPhase::Completed);

    let (mut runtime, _, resume) = started();
    let AsyncStep::Resolve { resume, .. } =
        resume.body(&mut runtime, suspended(JsValue::Null, VmSuspendKind::Await)).unwrap()
    else {
        panic!("expected a resolution")
    };
    let wrong = resume.body(&mut runtime, returned(JsValue::Null));
    assert_eq!(wrong.err(), Some(Error::broken("async body replied in the wrong phase")));
    let wrong = resume.resume(&mut runtime, Completion::Return(JsValue::Null));
    assert_eq!(wrong.err(), Some(Error::broken("intrinsic PromiseResolve returned a non-object")));

    let wrong = AsyncResume::resumed(ObjectRef { domain: 1, index: 0 });
    assert_eq!(
        wrong.body(&mut runtime, returned(JsValue::Null)).err(),
        Some(Error::broken("async function state has another payload")),
    );
}

#[test]
fn an_abandoned_async_function_is_completed() {
    let (mut runtime, _, resume) = started();
    let state = resume.state;
    runtime.store_async_function_activation(state, 3).unwrap();
    resume.abandon(&mut runtime);
    let record = runtime.async_function_state(state).unwrap();
    assert_eq!((record.phase, record.activation), (AsyncFunctionPhase::Completed, None));
}

#[test]
fn a_list_of_outcomes_drives_an_async_function() {
    let (mut runtime, _, resume) = started();
    let promise = promise_of(&resume);
    let step = AsyncStep::Run { activation: 0, input: Completion::Return(JsValue::Undefined), resume };
    let step = step
        .finish(&mut runtime, &vec![returned(JsValue::Int(1)), returned(JsValue::Undefined), returned(JsValue::Null)])
        .unwrap();
    assert!(matches!(step, AsyncStep::Complete(Completion::Return(JsValue::Object(p))) if p == promise));
}

fn native(runtime: &mut Runtime, realm: usize) -> ObjectRef {
    let target = stack_vm::frames::active::NativeFunctionId {
        code: 77,
        cproto: stack_vm::frames::active::NativeCProto::Generic,
        uses_calling_realm: false,
        registered: false,
        weight: 1,
        family: None,
        hidden: false,
    };
    runtime.allocate(HeapObject {
        kind: ObjectKind::Function,
        payload: ObjectPayload::NativeFunction(NativeFunctionData {
            target,
            realm: Some(realm),
            min_readable_args: 0,
            internal: InternalCallableData::Nothing,
        }),
        prototype: None,
        is_constructor: false,
        extensible: true,
    })
}

struct Iteration {
    runtime: Runtime,
    realm: usize,
    sync: ObjectRef,
    next: ObjectRef,
    receiver: JsValue,
}

impl Iteration {
    fn new() -> Iteration {
        let mut runtime = Runtime::new(1);
        let realm = context(&mut runtime);
        let sync = runtime.new_object(None);
        let next = native(&mut runtime, realm);
        let wrapper = runtime.allocate(HeapObject {
            kind: ObjectKind::Other,
            payload: ObjectPayload::AsyncFromSyncIterator { iterator: sync, next: JsValue::Object(next) },
            prototype: None,
            is_constructor: false,
            extensible: true,
        });
        Iteration { runtime, realm, sync, next, receiver: JsValue::Object(wrapper) }
    }

    fn start(&mut self, kind: GeneratorResumeKind, arguments: Vec<JsValue>) -> FromSyncStep {
        let arguments = NativeArguments { actual_arg_count: arguments.len(), readable: arguments };
        let invocation = NativeInvocation::Call { this_value: self.receiver };
        FromSyncStep::start(&mut self.runtime, self.realm, FromSyncTarget::Resume(kind), invocation, &arguments).unwrap()
    }

    fn answer(&mut self, step: FromSyncStep, completion: Completion) -> FromSyncStep {
        step.take().unwrap().resume(&mut self.runtime, completion).unwrap()
    }

    fn give(&mut self, step: FromSyncStep, value: JsValue) -> FromSyncStep {
        self.answer(step, Completion::Return(value))
    }

    /// The function, the receiver and the arguments of a call.
    fn called(&self, step: &mut FromSyncStep) -> (CallableRef, JsValue, Vec<JsValue>) {
        let FromSyncStep::Call { resume } = step else { panic!("expected a call, got {step:?}") };
        let callable = resume.take_call_callable();
        let receiver = resume.take_call_receiver();
        let arguments = resume.take_call_arguments();
        (callable, receiver, arguments)
    }

    fn read(&self, step: &mut FromSyncStep) -> (JsValue, PropertyKey) {
        let FromSyncStep::Read { resume } = step else { panic!("expected a read, got {step:?}") };
        (resume.take_read_receiver(), resume.take_read_key())
    }

    fn message(&self, error: JsValue) -> String {
        let JsValue::Object(error) = error else { panic!("expected an error, got {error:?}") };
        let p = self.runtime.find_property(error, PropertyKey::String(ATOM_MESSAGE)).unwrap();
        let PropertySlot::Data { value: JsValue::String(atom), .. } = self.runtime.properties[p].slot else {
            panic!("expected a message")
        };
        String::from_utf16(&self.runtime.text(atom)).unwrap()
    }

    fn data(&self, object: JsValue, key: usize) -> JsValue {
        let JsValue::Object(object) = object else { panic!("expected an object, got {object:?}") };
        let p = self.runtime.find_property(object, PropertyKey::String(key)).unwrap();
        match self.runtime.properties[p].slot {
            PropertySlot::Data { value, .. } => value,
            other => panic!("expected data, got {other:?}"),
        }
    }

    /// Go on to the resolution of an iteration step.
    fn to_resolution(&mut self, kind: GeneratorResumeKind, done: bool, value: JsValue) -> FromSyncStep {
        let mut step = self.start(kind, vec![]);
        if kind != GeneratorResumeKind::Next {
            let method = native(&mut self.runtime, self.realm);
            step = self.give(step, JsValue::Object(method));
        }
        let result = JsValue::Object(self.runtime.new_object(None));
        let step = self.give(step, result);
        let step = self.give(step, JsValue::Bool(done));
        self.give(step, value)
    }
}

fn settles(iteration: &Iteration, callable: CallableRef) -> (bool, ObjectRef) {
    match internal(&iteration.runtime, callable.object) {
        InternalCallableData::PromiseResolve { promise } => (true, promise),
        InternalCallableData::PromiseReject { promise } => (false, promise),
        other => panic!("expected a resolving function, got {other:?}"),
    }
}

#[test]
fn results_are_read_and_resolved_in_order() {
    let mut iteration = Iteration::new();
    let mut step = iteration.start(GeneratorResumeKind::Next, vec![JsValue::Int(5)]);
    let (callable, receiver, arguments) = iteration.called(&mut step);
    assert_eq!(callable.object, iteration.next);
    assert_eq!(receiver, JsValue::Object(iteration.sync));
    assert_eq!(arguments, vec![JsValue::Int(5)]);
    let result = JsValue::Object(iteration.runtime.new_object(None));
    let mut step = iteration.give(step, result);
    assert_eq!(iteration.read(&mut step), (result, PropertyKey::String(ATOM_DONE)));
    let mut step = iteration.give(step, JsValue::Bool(false));
    assert_eq!(iteration.read(&mut step), (result, PropertyKey::String(ATOM_VALUE)));
    let mut step = iteration.give(step, JsValue::Int(42));
    let FromSyncStep::Resolve { resume } = &mut step else { panic!("expected a resolution") };
    assert_eq!(resume.take_resolve_value(), JsValue::Int(42));
    assert_eq!(resume.take_resolve_realm(), iteration.realm);
    let promise = iteration.runtime.new_object(None);
    let mut step = iteration.give(step, JsValue::Object(promise));
    let FromSyncStep::Complete(Completion::Return(JsValue::Object(output))) = step else {
        panic!("expected the promise")
    };
    let reaction = iteration.runtime.reactions[0];
    assert_eq!((reaction.promise, reaction.derived), (promise, Some(output)));
    assert_eq!(
        internal(&iteration.runtime, reaction.fulfilled.unwrap()),
        InternalCallableData::AsyncFromSyncIteratorUnwrap { done: false },
    );
    assert_eq!(
        internal(&iteration.runtime, reaction.rejected.unwrap()),
        InternalCallableData::AsyncFromSyncIteratorClose { sync_iterator: iteration.sync },
    );
}

#[test]
fn the_last_result_closes_nothing() {
    let mut iteration = Iteration::new();
    let mut step = iteration.to_resolution(GeneratorResumeKind::Next, true, JsValue::Null);
    let promise = iteration.runtime.new_object(None);
    let _ = iteration.give(step, JsValue::Object(promise));
    assert_eq!(iteration.runtime.reactions[0].rejected, None);
    let mut step = iteration.to_resolution(GeneratorResumeKind::Return, false, JsValue::Null);
    let _ = iteration.give(step, JsValue::Object(promise));
    assert_eq!(iteration.runtime.reactions[1].rejected, None);
}

#[test]
fn a_failed_resolution_closes_the_iterator_and_rejects() {
    let mut iteration = Iteration::new();
    let mut step = iteration.to_resolution(GeneratorResumeKind::Next, false, JsValue::Null);
    let mut step = iteration.answer(step, Completion::Throw(JsValue::Int(9)));
    let FromSyncStep::Close { resume } = &mut step else { panic!("expected a close") };
    assert_eq!(resume.take_close_iterator(), iteration.sync);
    assert_eq!(resume.take_close_completion(), Completion::Throw(JsValue::Int(9)));
    let mut step = iteration.answer(step, Completion::Throw(JsValue::Int(9)));
    let (callable, _, arguments) = iteration.called(&mut step);
    assert!(!settles(&iteration, callable).0);
    assert_eq!(arguments, vec![JsValue::Int(9)]);
}

#[test]
fn throwing_steps_reject_the_promise() {
    for at in 0..3 {
        let mut iteration = Iteration::new();
        let mut step = iteration.start(GeneratorResumeKind::Next, vec![]);
        for reply in 0..at {
            let value = match reply {
                0 => JsValue::Object(iteration.runtime.new_object(None)),
                _ => JsValue::Bool(false),
            };
            step = iteration.give(step, value);
        }
        let mut step = iteration.answer(step, Completion::Throw(JsValue::Int(3)));
        let (callable, receiver, arguments) = iteration.called(&mut step);
        let (resolved, promise) = settles(&iteration, callable);
        assert!(!resolved);
        assert_eq!((receiver, arguments), (JsValue::Undefined, vec![JsValue::Int(3)]));
        let mut step = iteration.give(step, JsValue::Undefined);
        assert!(matches!(step, FromSyncStep::Complete(Completion::Return(JsValue::Object(p))) if p == promise));
    }
}

#[test]
fn a_missing_return_ends_the_iteration_with_its_argument() {
    let mut iteration = Iteration::new();
    let mut step = iteration.start(GeneratorResumeKind::Return, vec![JsValue::Int(8)]);
    assert_eq!(iteration.read(&mut step), (JsValue::Object(iteration.sync), PropertyKey::String(ATOM_RETURN)));
    let mut step = iteration.give(step, JsValue::Undefined);
    let (callable, _, arguments) = iteration.called(&mut step);
    assert!(settles(&iteration, callable).0);
    assert_eq!(iteration.data(arguments[0], ATOM_VALUE), JsValue::Int(8));
    assert_eq!(iteration.data(arguments[0], ATOM_DONE), JsValue::Bool(true));
}

#[test]
fn a_missing_throw_closes_the_iterator_and_rejects_with_a_type_error() {
    let mut iteration = Iteration::new();
    let mut step = iteration.start(GeneratorResumeKind::Throw, vec![JsValue::Int(8)]);
    assert_eq!(iteration.read(&mut step), (JsValue::Object(iteration.sync), PropertyKey::String(ATOM_THROW)));
    let mut step = iteration.give(step, JsValue::Null);
    let FromSyncStep::Close { resume } = &mut step else { panic!("expected a close") };
    assert_eq!(resume.take_close_iterator(), iteration.sync);
    let mut step = iteration.give(step, JsValue::Undefined);
    let (callable, _, arguments) = iteration.called(&mut step);
    assert!(!settles(&iteration, callable).0);
    assert_eq!(iteration.message(arguments[0]), "throw is not a method");
}

#[test]
fn methods_and_results_of_the_wrong_kind_reject() {
    let mut iteration = Iteration::new();
    let mut step = iteration.start(GeneratorResumeKind::Return, vec![]);
    let mut step = iteration.give(step, JsValue::Int(1));
    let (callable, _, arguments) = iteration.called(&mut step);
    assert!(!settles(&iteration, callable).0);
    assert_eq!(iteration.message(arguments[0]), "not a function");
    let mut step = iteration.start(GeneratorResumeKind::Next, vec![]);
    let mut step = iteration.give(step, JsValue::Int(1));
    let (callable, _, arguments) = iteration.called(&mut step);
    assert!(!settles(&iteration, callable).0);
    assert_eq!(iteration.message(arguments[0]), "iterator must return an object");
    iteration.receiver = JsValue::Null;
    let mut step = iteration.start(GeneratorResumeKind::Next, vec![]);
    let (callable, _, _) = iteration.called(&mut step);
    assert!(!settles(&iteration, callable).0);
}

#[test]
fn internal_functions_read_what_they_captured() {
    let mut iteration = Iteration::new();
    let realm = iteration.realm;
    let sync = iteration.sync;
    let call = NativeInvocation::Call { this_value: JsValue::Undefined };
    let unwrap = iteration
        .runtime
        .new_internal_promise_function(
            realm,
            NATIVE_FROM_SYNC_UNWRAP,
            InternalCallableData::AsyncFromSyncIteratorUnwrap { done: true },
        )
        .unwrap();
    let close = iteration
        .runtime
        .new_internal_promise_function(
            realm,
            NATIVE_FROM_SYNC_CLOSE,
            InternalCallableData::AsyncFromSyncIteratorClose { sync_iterator: sync },
        )
        .unwrap();
    for (callable, target) in [(unwrap, FromSyncTarget::Unwrap), (close, FromSyncTarget::Close)] {
        let CallableExecution::Native { target: native, realm, min_readable_args } =
            iteration.runtime.bytecode_for_callable(callable).unwrap()
        else {
            panic!("expected native")
        };
        let prepared = iteration
            .runtime
            .prepare_native_invocation(
                callable,
                realm,
                native,
                min_readable_args,
                call,
                vec![JsValue::Int(4)],
                NativeInvokeMode::Ordinary,
            )
            .unwrap();
        let arguments = NativeArguments { actual_arg_count: 1, readable: vec![JsValue::Int(4)] };
        let step = FromSyncStep::start(&mut iteration.runtime, realm, target, call, &arguments).unwrap();
        match (target, step) {
            (FromSyncTarget::Unwrap, FromSyncStep::Complete(Completion::Return(result))) => {
                assert_eq!(iteration.data(result, ATOM_VALUE), JsValue::Int(4));
                assert_eq!(iteration.data(result, ATOM_DONE), JsValue::Bool(true));
                let other = FromSyncStep::start(&mut iteration.runtime, realm, FromSyncTarget::Close, call, &arguments);
                assert_eq!(
                    other.err(),
                    Some(Error::broken("Async-from-Sync close had the wrong internal capture")),
                );
            },
            (FromSyncTarget::Close, FromSyncStep::Close { mut resume }) => {
                assert_eq!(resume.take_close_iterator(), sync);
                assert_eq!(resume.take_close_completion(), Completion::Throw(JsValue::Int(4)));
            },
            (target, step) => panic!("{target:?} gave {step:?}"),
        }
        prepared.activation.abandon(&mut iteration.runtime);
    }
    let arguments = NativeArguments { actual_arg_count: 0, readable: vec![] };
    let idle = FromSyncStep::start(&mut iteration.runtime, realm, FromSyncTarget::Unwrap, call, &arguments);
    assert_eq!(idle.err(), Some(Error::broken("active function was requested without an active frame")));
    let construct = NativeInvocation::Construct { new_target: JsValue::Undefined };
    let wrong = FromSyncStep::start(&mut iteration.runtime, realm, FromSyncTarget::Unwrap, construct, &arguments);
    assert_eq!(
        wrong.err(),
        Some(Error::broken("Async-from-Sync unwrap did not receive a call invocation")),
    );
}

#[test]
fn a_list_of_replies_drives_an_iteration_step() {
    let mut iteration = Iteration::new();
    let mut step = iteration.start(GeneratorResumeKind::Next, vec![]);
    let result = JsValue::Object(iteration.runtime.new_object(None));
    let promise = JsValue::Object(iteration.runtime.new_object(None));
    let replies = vec![
        Completion::Return(result),
        Completion::Return(JsValue::Bool(true)),
        Completion::Return(JsValue::Int(2)),
        Completion::Return(promise),
    ];
    let step = step.finish(&mut iteration.runtime, &replies).unwrap();
    assert!(matches!(step, FromSyncStep::Complete(Completion::Return(JsValue::Object(_)))));
    assert_eq!(iteration.runtime.reactions.len(), 1);
}

#[test]
fn requested_calls_hold_any_number_of_arguments() {
    let mut iteration = Iteration::new();
    for count in [0usize, 1, 4] {
        let values: Vec<JsValue> = (0..count).map(|n| JsValue::Int(n as i32)).collect();
        let FromSyncStep::Call { resume } = iteration.start(GeneratorResumeKind::Next, vec![]) else {
            panic!("expected a call")
        };
        let callable = CallableRef { object: iteration.next };
        let step = FromSyncStep::request_call(callable, JsValue::Null, values.clone(), resume);
        let FromSyncStep::Call { mut resume } = step else { panic!("expected a call") };
        assert_eq!(resume.take_call_arguments(), values);
        assert_eq!(resume.take_call_callable(), callable);
        assert_eq!(resume.take_call_receiver(), JsValue::Null);
        assert!(resume.pending_effect.call_arguments.is_none());
    }
    // Giving a request up gives up each of its arguments.
    let FromSyncStep::Call { resume } = iteration.start(GeneratorResumeKind::Next, vec![]) else {
        panic!("expected a call")
    };
    let objects = [iteration.runtime.new_object(None), iteration.runtime.new_object(None)];
    let values = vec![JsValue::Object(objects[0]), JsValue::Int(1), JsValue::Object(objects[1])];
    let step = FromSyncStep::request_call(CallableRef { object: iteration.next }, JsValue::Null, values, resume);
    let FromSyncStep::Call { resume } = step else { panic!("expected a call") };
    let before = iteration.runtime.edges.len();
    resume.abandon(&mut iteration.runtime);
    for object in objects {
        assert!(iteration.runtime.edges[before..].contains(&EdgeEvent::Release(object)));
    }
}
