//! Preparing, publishing and ending native calls.
use stack_vm::call::native::{NativeClassification, PreparedNativeCall};
use stack_vm::call::{CallableExecution, NativeInvocation, NativeInvokeMode, NativeInvokeOutcome};
use stack_vm::error::{Error, ErrorKind, NativeErrorKind};
use stack_vm::frames::active::{ActiveFrameKind, NativeCProto, NativeFunctionId};
use stack_vm::heap::{EdgeEvent, HeapObject, InternalCallableData, NativeFunctionData, ObjectKind, ObjectPayload, PropertyEntry, PropertySlot, Realm};
use stack_vm::runtime::{Runtime, ATOM_NAME, ATOM_STACK};
use stack_vm::value::{CallableRef, Completion, JsValue, ObjectRef, PropertyKey};

const REFLECT_GET: u32 = 0;
const MATH_MIN: u32 = 1;
const MATH_MAX: u32 = 2;
const MAP_SET: u32 = 3;
const ARRAY_PUSH: u32 = 4;
const ITERATOR_NEXT: u32 = 5;

fn context(runtime: &mut Runtime) -> usize {
    let object_prototype = runtime.new_object(None);
    let mut plain = || runtime.new_object(Some(object_prototype));
    let realm = Realm {
        object_prototype,
        function_prototype: plain(),
        array_prototype: plain(),
        string_prototype: plain(),
        number_prototype: plain(),
        boolean_prototype: plain(),
        symbol_prototype: plain(),
        bigint_prototype: plain(),
        promise_prototype: plain(),
        type_error_prototype: plain(),
        reference_error_prototype: plain(),
        range_error_prototype: plain(),
        syntax_error_prototype: plain(),
        internal_error_prototype: plain(),
        global_object: plain(),
        global_lexical: plain(),
    };
    runtime.realms.push(realm);
    runtime.realms.len() - 1
}

fn native(runtime: &mut Runtime, realm: usize, code: u32, minimum: u8) -> CallableRef {
    let target = NativeFunctionId {
        code,
        cproto: if code == ITERATOR_NEXT { NativeCProto::IteratorNext } else { NativeCProto::Generic },
        uses_calling_realm: false,
        registered: true,
        weight: 1,
        family: None,
        hidden: false,
    };
    let object = runtime.allocate(HeapObject {
        kind: ObjectKind::Function,
        payload: ObjectPayload::NativeFunction(NativeFunctionData {
            target,
            realm: Some(realm),
            min_readable_args: minimum,
            internal: InternalCallableData::Nothing,
        }),
        prototype: Some(runtime.realms[realm].function_prototype),
        is_constructor: false,
        extensible: true,
    });
    if code == REFLECT_GET {
        let name = runtime.intern("get".encode_utf16().collect());
        runtime.add_property(PropertyEntry {
            owner: object.index,
            key: PropertyKey::String(ATOM_NAME),
            slot: PropertySlot::Data {
                value: JsValue::String(name),
                writable: false,
                enumerable: false,
                configurable: true,
            },
        });
    }
    CallableRef::from_validated_object(object)
}

fn facts(runtime: &mut Runtime, callable: CallableRef) -> (NativeFunctionId, usize, u8) {
    match runtime.bytecode_for_callable(callable).unwrap() {
        CallableExecution::Native { target, realm, min_readable_args } => (target, realm, min_readable_args),
        other => panic!("expected native, got {other:?}"),
    }
}

const CALL: NativeInvocation = NativeInvocation::Call { this_value: JsValue::Undefined };

fn prepare(runtime: &mut Runtime, realm: usize, arguments: Vec<JsValue>) -> PreparedNativeCall {
    let callable = native(runtime, realm, REFLECT_GET, 2);
    let (target, realm, minimum) = facts(runtime, callable);
    runtime
        .prepare_native_invocation(callable, realm, target, minimum, CALL, arguments, NativeInvokeMode::Ordinary)
        .unwrap()
}

fn held(runtime: &Runtime, object: ObjectRef) -> i32 {
    let mut edges = 0;
    for event in &runtime.edges {
        match event {
            EdgeEvent::Retain(o) if *o == object => edges += 1,
            EdgeEvent::Release(o) if *o == object => edges -= 1,
            _ => {},
        }
    }
    edges
}

/// The text of the activations that an error was made under.
fn stack_of(runtime: &Runtime, error: ObjectRef) -> String {
    let p = runtime.find_property(error, PropertyKey::String(ATOM_STACK)).expect("captured stack");
    match runtime.properties[p].slot {
        PropertySlot::Data { value: JsValue::String(atom), writable: true, enumerable: false, configurable: true } => {
            String::from_utf16(&runtime.text(atom)).unwrap()
        },
        other => panic!("expected captured stack, got {other:?}"),
    }
}

fn returned(value: JsValue) -> Result<NativeInvokeOutcome, Error> {
    Ok(NativeInvokeOutcome::Completion(Completion::Return(value)))
}

fn thrown(value: JsValue) -> Result<NativeInvokeOutcome, Error> {
    Ok(NativeInvokeOutcome::Completion(Completion::Throw(value)))
}

fn error_of(result: Result<PreparedNativeCall, Error>) -> Error {
    match result {
        Ok(_) => panic!("the preparation was accepted"),
        Err(error) => error,
    }
}

#[test]
fn owned_readable_arguments_keep_buffer_identity_arity_and_padding() {
    let mut runtime = Runtime::new(1);
    let realm = context(&mut runtime);
    let callable = native(&mut runtime, realm, REFLECT_GET, 2);
    let (target, realm, minimum) = facts(&mut runtime, callable);
    let marker = JsValue::Object(runtime.new_object(None));
    for actual in [
        vec![],
        vec![marker],
        vec![marker, JsValue::Int(0), JsValue::Undefined, marker],
    ] {
        let borrowed = runtime
            .prepare_native_invocation(callable, realm, target, minimum, CALL, actual.clone(), NativeInvokeMode::Ordinary)
            .unwrap();
        let expected = borrowed.activation.arguments.readable.clone();
        borrowed.activation.abandon(&mut runtime);
        let count = actual.len();
        let mut owned: Vec<JsValue> = Vec::with_capacity(8);
        owned.extend(actual);
        let address = owned.as_ptr();
        let prepared = runtime
            .prepare_native_invocation_jsvalue(callable, realm, target, minimum, CALL, owned, NativeInvokeMode::Ordinary)
            .unwrap();
        assert_eq!(prepared.activation.arguments.actual_arg_count, count);
        assert_eq!(prepared.activation.arguments.readable, expected);
        assert_eq!(prepared.activation.arguments.readable.as_ptr(), address);
        let (result, emptied) = prepared.activation.finish_reusing(&mut runtime, thrown(JsValue::Int(42)));
        assert_eq!(result, thrown(JsValue::Int(42)));
        assert!(emptied.is_empty() && emptied.capacity() >= 8);
        assert!(runtime.active.is_empty());
    }
}

#[test]
fn owning_preparation_keeps_rejection_order_and_argument_domain_errors() {
    let mut runtime = Runtime::new(1);
    let realm = context(&mut runtime);
    let callable = native(&mut runtime, realm, REFLECT_GET, 2);
    let (target, realm, minimum) = facts(&mut runtime, callable);
    let mut foreign = Runtime::new(2);
    let rejected = foreign
        .prepare_native_invocation_owned(callable, realm, target, minimum + 1, CALL, vec![], NativeInvokeMode::Ordinary);
    assert_eq!(error_of(rejected), Error::wrong_runtime("native callable"));
    assert!(foreign.active.is_empty());
    let rejected = runtime
        .prepare_native_invocation_owned(callable, realm, target, minimum + 1, CALL, vec![], NativeInvokeMode::Ordinary);
    assert_eq!(error_of(rejected), Error::broken("native invocation metadata changed after snapshot"));
    assert!(runtime.active.is_empty());
    let arguments = vec![JsValue::Object(foreign.new_object(None)), JsValue::Int(0)];
    let mut errors = Vec::new();
    for owned in [false, true] {
        let rejected = if owned {
            runtime.prepare_native_invocation_owned(
                callable,
                realm,
                target,
                minimum,
                CALL,
                arguments.clone(),
                NativeInvokeMode::Ordinary,
            )
        } else {
            runtime.prepare_native_invocation(
                callable,
                realm,
                target,
                minimum,
                CALL,
                arguments.clone(),
                NativeInvokeMode::Ordinary,
            )
        };
        errors.push(format!("{:?}", error_of(rejected)));
        assert!(runtime.active.is_empty());
    }
    assert_eq!(errors[0], errors[1]);
}

#[test]
fn prepared_native_activation_owns_all_arguments_without_invoking_the_body() {
    let mut runtime = Runtime::new(1);
    let realm = context(&mut runtime);
    let target = JsValue::Object(runtime.new_object(None));
    let extra = runtime.new_object(None);
    let objects = runtime.objects.len();
    let native = prepare(
        &mut runtime,
        realm,
        vec![target, JsValue::Int(0), JsValue::Undefined, JsValue::Object(extra)],
    );
    assert_eq!(native.activation.arguments.actual_arg_count, 4);
    assert_eq!(native.activation.arguments.readable.len(), 4);
    assert_eq!(runtime.active.len(), 1);
    assert_eq!(held(&runtime, extra), 1);
    // Only the fixture's function was allocated.
    assert_eq!(runtime.objects.len(), objects + 1);
    native.activation.abandon(&mut runtime);
    assert_eq!(held(&runtime, extra), 0);
    assert!(runtime.active.is_empty());
}

#[test]
fn abandoned_native_padding_restores_the_frame() {
    let mut runtime = Runtime::new(1);
    let realm = context(&mut runtime);
    let native = prepare(&mut runtime, realm, vec![]);
    assert_eq!(native.activation.arguments.actual_arg_count, 0);
    assert!(!native.activation.arguments.readable.is_empty());
    assert!(native.activation.arguments.readable.iter().all(|value| *value == JsValue::Undefined));
    native.activation.abandon(&mut runtime);
    assert!(runtime.active.is_empty());
}

#[test]
fn native_activation_materializes_errors_before_leaving_its_defining_realm() {
    let mut runtime = Runtime::new(1);
    let caller = context(&mut runtime);
    let defining = context(&mut runtime);
    let expected_prototype = runtime.realms[defining].type_error_prototype;
    let native = prepare(&mut runtime, defining, vec![]);
    let result = native
        .activation
        .finish(&mut runtime, Err(Error::new(ErrorKind::Type, "activation failure")))
        .unwrap();
    let NativeInvokeOutcome::Completion(Completion::Throw(JsValue::Object(error))) = result else {
        panic!("expected TypeError")
    };
    assert_eq!(runtime.get_prototype_of(error).unwrap(), Some(expected_prototype));
    assert!(stack_of(&runtime, error).contains("get (native)"));
    assert!(runtime.active.is_empty());
    let sentinel = JsValue::Object(runtime.new_object(None));
    let native = prepare(&mut runtime, caller, vec![]);
    let result = native.activation.finish(&mut runtime, thrown(sentinel)).unwrap();
    assert_eq!(result, NativeInvokeOutcome::Completion(Completion::Throw(sentinel)));
    assert!(runtime.active.is_empty());
    // An error that programs cannot see is handed on as it is.
    let native = prepare(&mut runtime, caller, vec![]);
    let result = native.activation.finish(&mut runtime, Err(Error::broken("lost")));
    assert_eq!(result, Err(Error::broken("lost")));
    assert!(runtime.active.is_empty());
}

#[test]
fn native_activation_rejects_foreign_and_changed_metadata_before_registration() {
    let mut runtime = Runtime::new(1);
    let realm = context(&mut runtime);
    let callable = native(&mut runtime, realm, REFLECT_GET, 2);
    let (target, realm, minimum) = facts(&mut runtime, callable);
    let mut wrong_runtime = Runtime::new(2);
    let result = wrong_runtime
        .prepare_native_invocation(callable, realm, target, minimum, CALL, vec![], NativeInvokeMode::Ordinary);
    assert_eq!(error_of(result).kind, ErrorKind::WrongRuntime);
    assert!(wrong_runtime.active.is_empty());
    let result = runtime
        .prepare_native_invocation(callable, realm, target, minimum + 1, CALL, vec![], NativeInvokeMode::Ordinary);
    assert_eq!(error_of(result), Error::broken("native invocation metadata changed after snapshot"));
    assert!(runtime.active.is_empty());
}

#[test]
fn native_continuation_publication_preserves_abi_hidden_flags_and_single_registration() {
    let mut runtime = Runtime::new(1);
    let context = context(&mut runtime);
    for (code, minimum, mode) in [
        (MAP_SET, 2, NativeInvokeMode::Ordinary),
        (ITERATOR_NEXT, 0, NativeInvokeMode::IteratorNextRaw),
    ] {
        let callable = native(&mut runtime, context, code, minimum);
        let (target, realm, minimum) = facts(&mut runtime, callable);
        let call = runtime
            .prepare_native_continuation_owned(callable, realm, target, minimum, CALL, vec![JsValue::Int(7)], mode)
            .unwrap();
        let frame = *runtime.active.last().unwrap();
        assert!(frame.native_continuation);
        assert_eq!(frame.backtrace_hidden, matches!(mode, NativeInvokeMode::IteratorNextRaw));
        assert_eq!(frame.realm, realm);
        assert_eq!(call.activation.arguments.actual_arg_count, 1);
        assert_eq!(call.activation.arguments.readable.len(), 1usize.max(usize::from(minimum)));
        assert_eq!(
            call.activation.own_continuation(&mut runtime),
            Err(Error::broken("native continuation was registered twice")),
        );
        call.activation.abandon(&mut runtime);
        assert!(runtime.active.is_empty());
    }
}

#[test]
fn promise_resolving_publication_hides_backtrace_frames() {
    let mut runtime = Runtime::new(1);
    let context = context(&mut runtime);
    let capability = runtime.new_default_promise_capability(context).unwrap();
    for callable in [capability.resolve, capability.reject] {
        let (target, realm, minimum) = facts(&mut runtime, callable);
        let call = runtime
            .prepare_native_continuation_owned(
                callable,
                realm,
                target,
                minimum,
                CALL,
                vec![JsValue::Int(7)],
                NativeInvokeMode::Ordinary,
            )
            .unwrap();
        let frame = *runtime.active.last().unwrap();
        assert!(frame.native_continuation);
        assert!(frame.backtrace_hidden);
        assert_eq!(frame.realm, realm);
        call.activation.abandon(&mut runtime);
        assert!(runtime.active.is_empty());
    }
}

#[test]
fn native_continuation_publication_rejects_stale_metadata_before_publishing() {
    let mut runtime = Runtime::new(1);
    let context = context(&mut runtime);
    let callable = native(&mut runtime, context, MATH_MIN, 2);
    let (target, realm, minimum) = facts(&mut runtime, callable);
    let token = runtime.next_token;
    let result = runtime.prepare_native_continuation_owned(
        callable,
        realm,
        target,
        minimum.saturating_add(1),
        CALL,
        Vec::new(),
        NativeInvokeMode::Ordinary,
    );
    assert_eq!(error_of(result), Error::broken("native invocation metadata changed after snapshot"));
    assert!(runtime.active.is_empty());
    assert_eq!(runtime.next_token, token);
    let legacy = runtime
        .prepare_native_invocation_owned(callable, realm, target, minimum, CALL, Vec::new(), NativeInvokeMode::Ordinary)
        .unwrap();
    assert!(!runtime.active.last().unwrap().native_continuation);
    legacy.activation.own_continuation(&mut runtime).unwrap();
    assert!(runtime.active.last().unwrap().native_continuation);
    legacy.activation.abandon(&mut runtime);
    assert!(runtime.active.is_empty());
}

#[test]
fn publication_witness_matches_checked_registration_and_keeps_count_guard() {
    let mut runtime = Runtime::new(1);
    let context = context(&mut runtime);
    for (code, minimum) in [(MAP_SET, 2), (MATH_MIN, 2), (REFLECT_GET, 2), (ARRAY_PUSH, 1)] {
        let callable = native(&mut runtime, context, code, minimum);
        let (target, realm, minimum) = facts(&mut runtime, callable);
        let count = usize::from(minimum);
        let checked = runtime
            .push_native_active_frame(callable.object, realm, target, minimum, 0, count, false, false)
            .unwrap();
        let original = *runtime.active.last().unwrap();
        runtime.finish_active_frame(checked).unwrap();
        let published = runtime
            .prepare_native_invocation(callable, realm, target, minimum, CALL, vec![], NativeInvokeMode::Ordinary)
            .unwrap();
        let current = *runtime.active.last().unwrap();
        assert_eq!(original.function, current.function);
        assert_eq!(original.realm, current.realm);
        assert_eq!(original.native_continuation, current.native_continuation);
        assert_eq!(
            current.kind,
            ActiveFrameKind::Native { target, actual_arg_count: 0, readable_arg_count: count },
        );
        published.activation.finish(&mut runtime, returned(JsValue::Undefined)).unwrap();
        let token = runtime.next_token;
        assert_eq!(
            runtime
                .push_native_active_frame(callable.object, realm, target, minimum, 0, count + 1, false, false)
                .err(),
            Some(Error::broken("native active frame disagrees with its rooted callable")),
        );
        assert!(runtime.active.is_empty());
        assert_eq!(runtime.next_token, token);
    }
}

#[test]
fn publication_witness_preserves_foreign_realm_metadata_and_token_error_order() {
    let mut runtime = Runtime::new(1);
    let first = context(&mut runtime);
    let other = context(&mut runtime);
    let callable = native(&mut runtime, first, REFLECT_GET, 2);
    let (target, realm, minimum) = facts(&mut runtime, callable);
    let mut foreign = Runtime::new(2);
    let result = foreign
        .prepare_native_invocation(callable, other, target, minimum + 1, CALL, vec![], NativeInvokeMode::Ordinary);
    assert_eq!(error_of(result), Error::wrong_runtime("native callable"));
    let token = runtime.next_token;
    for (selected_realm, minimum) in [(other, minimum), (realm, minimum + 1)] {
        let result = runtime
            .prepare_native_invocation(callable, selected_realm, target, minimum, CALL, vec![], NativeInvokeMode::Ordinary);
        assert_eq!(error_of(result), Error::broken("native invocation metadata changed after snapshot"));
        assert!(runtime.active.is_empty());
        assert_eq!(runtime.next_token, token);
    }
    runtime.next_token = u64::MAX;
    let result = runtime
        .prepare_native_invocation(callable, realm, target, minimum, CALL, vec![], NativeInvokeMode::Ordinary);
    assert_eq!(error_of(result), Error::broken("active-frame token space was exhausted"));
    assert!(runtime.active.is_empty());
    assert_eq!(runtime.next_token, u64::MAX);
}

#[test]
fn selected_native_payload_is_bound_to_its_call_owner() {
    let mut runtime = Runtime::new(1);
    let context = context(&mut runtime);
    let callable = native(&mut runtime, context, MATH_MIN, 2);
    let (target, realm, minimum) = facts(&mut runtime, callable);
    let selection = NativeClassification::select(&runtime, callable).unwrap().unwrap();
    let prepared = runtime
        .prepare_native_continuation_selected(
            callable,
            realm,
            target,
            minimum,
            CALL,
            vec![JsValue::Int(3), JsValue::Int(2)],
            NativeInvokeMode::Ordinary,
            Some(selection),
        )
        .unwrap();
    assert_eq!(prepared.activation.arguments.actual_arg_count, 2);
    prepared.activation.finish(&mut runtime, returned(JsValue::Int(2))).unwrap();
    let selection = NativeClassification::select(&runtime, callable).unwrap().unwrap();
    let other = native(&mut runtime, context, MATH_MAX, 2);
    let result = runtime.prepare_native_continuation_selected(
        other,
        realm,
        target,
        minimum,
        CALL,
        vec![],
        NativeInvokeMode::Ordinary,
        Some(selection),
    );
    assert_eq!(error_of(result), Error::broken("native invocation metadata changed after snapshot"));
    assert!(runtime.active.is_empty());
}

#[test]
fn refused_preparations_give_up_the_edges_they_took() {
    let mut runtime = Runtime::new(1);
    let realm = context(&mut runtime);
    let callable = native(&mut runtime, realm, REFLECT_GET, 2);
    let (target, realm, minimum) = facts(&mut runtime, callable);
    let marker = runtime.new_object(None);
    let receiver = runtime.new_object(None);
    let invocation = NativeInvocation::Call { this_value: JsValue::Object(receiver) };
    let foreign = JsValue::Object(ObjectRef { domain: 9, index: 0 });
    let result = runtime.prepare_native_invocation(
        callable,
        realm,
        target,
        minimum,
        invocation,
        vec![JsValue::Object(marker), foreign],
        NativeInvokeMode::Ordinary,
    );
    assert_eq!(error_of(result), Error::wrong_runtime("value"));
    assert_eq!(held(&runtime, marker), 0);
    // The edge of the receiver was owned before the call.
    assert_eq!(held(&runtime, receiver), -1);
    assert!(runtime.active.is_empty());
}

#[test]
fn activations_that_end_out_of_order_are_cut_off_with_their_successors() {
    let mut runtime = Runtime::new(1);
    let realm = context(&mut runtime);
    let outer = prepare(&mut runtime, realm, vec![]);
    let _inner = prepare(&mut runtime, realm, vec![]);
    assert_eq!(runtime.active.len(), 2);
    let result = outer.activation.finish(&mut runtime, returned(JsValue::Null));
    assert_eq!(result, Err(Error::broken("active frame did not finish in stack order")));
    assert!(runtime.active.is_empty());
}

#[test]
fn errors_list_the_visible_activations_newest_first() {
    let mut runtime = Runtime::new(1);
    let realm = context(&mut runtime);
    let first = prepare(&mut runtime, realm, vec![]);
    let hidden = native(&mut runtime, realm, ITERATOR_NEXT, 0);
    let (target, defining, minimum) = facts(&mut runtime, hidden);
    let second = runtime
        .prepare_native_invocation(hidden, defining, target, minimum, CALL, vec![], NativeInvokeMode::IteratorNextRaw)
        .unwrap();
    assert!(runtime.active.last().unwrap().backtrace_hidden);
    let third = native(&mut runtime, realm, MAP_SET, 2);
    let (target, defining, minimum) = facts(&mut runtime, third);
    let third = runtime
        .prepare_native_invocation(third, defining, target, minimum, CALL, vec![], NativeInvokeMode::Ordinary)
        .unwrap();
    let made = runtime
        .new_native_error_from_error(realm, NativeErrorKind::Type, Error::new(ErrorKind::Type, "shown"))
        .unwrap();
    let JsValue::Object(error) = made else { panic!("expected an error") };
    assert_eq!(stack_of(&runtime, error), "    at <anonymous> (native)\n    at get (native)\n");
    third.activation.abandon(&mut runtime);
    second.activation.abandon(&mut runtime);
    first.activation.abandon(&mut runtime);
    let made = runtime
        .new_native_error_from_error(realm, NativeErrorKind::Type, Error::new(ErrorKind::Type, "shown"))
        .unwrap();
    let JsValue::Object(error) = made else { panic!("expected an error") };
    assert_eq!(stack_of(&runtime, error), "");
}
