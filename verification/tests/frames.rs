//! The frame store, the activation stack and the registry of executions.
use stack_vm::driver::ordinary::Entry;
use stack_vm::error::Error;
use stack_vm::execution::{ExecutionGuard, ExecutionLimits, ExecutionRegistry, RunningExecution};
use stack_vm::frame::{CallInput, Frame, FrameCold, FrameId, FrameStore, PendingProxyGet};
use stack_vm::frames::active::{ActiveFrameKind, ActiveFrameRecord, ActiveFrameToken, ActiveFrames, NativeCProto, NativeFunctionId, FAMILY_COUNT};
use stack_vm::runtime::Runtime;
use stack_vm::slots::{FrameBinding, FrameStorage, FrameWindow, SlotStore};
use stack_vm::value::{JsValue, ObjectRef};

fn frame(runtime: &mut Runtime) -> Frame {
    let function = runtime.new_object(None);
    Frame {
        executable: 0,
        realm: 0,
        window: FrameWindow { base: 0, parameters_at: 0, locals_at: 0, floor: 0 },
        region_base: 0,
        fault_pc: 0,
        resume_pc: 0,
        cold: FrameCold {
            property_wait: None,
            has_binding_wait: None,
            class_wait: None,
            constructor_wait: None,
            constructor_return: None,
            conversion: None,
            normalized_this: None,
            return_to: None,
            entry_guard: None,
            caller_realm: 0,
            active_frame: ActiveFrameToken(0),
            function,
            input: CallInput {
                this_value: JsValue::Undefined,
                new_target: JsValue::Undefined,
                callee_global: function,
            },
        },
    }
}

#[test]
fn limits_and_stale_ids_preserve_the_active_frame_and_release_rejected_owners() {
    let mut runtime = Runtime::new(1);
    let mut frames = FrameStore::new(1, 1);
    let first = frame(&mut runtime);
    let first_id = frames.push(first).unwrap();
    assert!(!frames.can_push());
    let rejected = frame(&mut runtime);
    assert_eq!(frames.push(rejected).unwrap_err(), Error::internal("execution frame limit exceeded"));
    assert!(frames.frames.iter().all(|record| record.frame.cold.function != rejected.cold.function));
    assert!(frames.current_mut(first_id).is_ok());
    assert_eq!(frames.pop(first_id).unwrap().cold.function, first.cold.function);
    let replacement = frame(&mut runtime);
    let replacement_id = frames.push(replacement).unwrap();
    assert_ne!(first_id, replacement_id);
    assert!(frames.current_mut(first_id).is_err());
    assert!(frames.current_mut(FrameId { execution: 2, generation: replacement_id.generation }).is_err());
    assert!(frames.current_mut(replacement_id).is_ok());
    assert_eq!(frames.current_id(), Some(replacement_id));
}

#[test]
fn exhausted_frame_identity_rejects_before_installing_ownership() {
    let mut runtime = Runtime::new(1);
    let mut frames = FrameStore::new(1, 1);
    frames.next_generation = u64::MAX;
    let rejected = frame(&mut runtime);
    assert_eq!(frames.push(rejected).unwrap_err(), Error::internal("execution frame identity exhausted"));
    assert!(frames.frames.is_empty());
    assert_eq!(frames.current_id(), None);
}

#[test]
fn continuations_share_the_depth_limit_with_frames() {
    let mut runtime = Runtime::new(1);
    let mut frames = FrameStore::new(1, 5);
    let mut waiting = frame(&mut runtime);
    waiting.cold.property_wait = Some(PendingProxyGet { continuations: 2 });
    frames.push(waiting).unwrap();
    assert!(frames.can_push());
    assert!(frames.can_push_with_continuations(1));
    assert!(!frames.can_push_with_continuations(2));
    assert!(!frames.can_push_with_continuations(usize::MAX));
}

#[test]
fn a_frame_is_changed_only_under_its_identity() {
    let mut runtime = Runtime::new(1);
    let mut frames = FrameStore::new(7, 2);
    let entered = frame(&mut runtime);
    let id = frames.push(entered).unwrap();
    assert_eq!(id, FrameId { execution: 7, generation: 1 });
    frames.current_mut(id).unwrap().resume_pc = 4;
    assert_eq!(frames.current(id).unwrap().resume_pc, 4);
    let stale = FrameId { execution: 7, generation: 9 };
    assert_eq!(
        frames.current(stale).unwrap_err(),
        Error::internal("frame identity is not the current execution frame"),
    );
    assert!(frames.pop(stale).is_err());
    assert_eq!(frames.pop(id).unwrap().resume_pc, 4);
    assert_eq!(frames.push(entered).unwrap(), FrameId { execution: 7, generation: 2 });
}

fn native(code: u32, weight: usize, family: Option<usize>) -> NativeFunctionId {
    NativeFunctionId {
        code,
        cproto: NativeCProto::Generic,
        uses_calling_realm: false,
        registered: true,
        weight,
        family,
        hidden: false,
    }
}

fn scanned(frames: &ActiveFrames) {
    assert_eq!(frames.published_depth(), frames.len());
    let mut cost = 0;
    let mut families = [0; FAMILY_COUNT];
    for record in frames.iter().iter().filter(|record| !record.native_continuation) {
        if let ActiveFrameKind::Native { target, .. } = record.kind {
            cost += target.weight;
            if let Some(family) = target.family {
                families[family] += 1;
            }
        }
    }
    assert_eq!(frames.native_cost(), cost);
    for (family, depth) in families.iter().enumerate() {
        assert_eq!(frames.native_family_depth(family), *depth);
    }
}

#[test]
fn native_budget_matches_scan_across_mark_pop_and_exception_suffixes() {
    let mut runtime = Runtime::new(1);
    let function = runtime.new_object(None);
    let mut frames = ActiveFrames::with_depth();
    let targets = [
        native(0, 1, None),
        native(1, 4, Some(3)),
        native(2, 4, Some(3)),
        native(3, 2, Some(13)),
        native(4, 8, Some(0)),
        native(5, 1, None),
    ];
    for (i, target) in targets.into_iter().enumerate() {
        frames.push_lazy_native(ActiveFrameRecord {
            token: ActiveFrameToken(i as u64 + 1),
            function,
            realm: 0,
            kind: ActiveFrameKind::Native { target, actual_arg_count: 0, readable_arg_count: 0 },
            native_continuation: false,
            backtrace_hidden: false,
        });
        scanned(&frames);
        assert!(frames.has_lazy_tail());
        assert_eq!(frames.to_vec().len(), i + 1);
    }
    assert_eq!(frames.native_cost(), 20);
    assert_eq!(frames.native_family_depth(3), 2);
    let mut independent = frames.clone();
    independent.pop();
    assert_eq!(frames.published_depth(), frames.len());
    assert_eq!(independent.published_depth(), independent.len());
    assert_eq!(frames.len(), 6);
    frames.mark_native_continuation(2, ActiveFrameToken(3));
    scanned(&frames);
    assert_eq!(frames.native_cost(), 16);
    assert_eq!(frames.native_family_depth(3), 1);
    frames.pop();
    scanned(&frames);
    frames.retire(ActiveFrameToken(3), 2);
    scanned(&frames);
    assert_eq!(frames.len(), 2);
    frames.retire(ActiveFrameToken(1), 0);
    scanned(&frames);
    assert!(frames.is_empty());
}

#[test]
fn a_moved_record_is_retired_where_it_lies() {
    let mut runtime = Runtime::new(1);
    let function = runtime.new_object(None);
    let record = |token: u64| ActiveFrameRecord {
        token: ActiveFrameToken(token),
        function,
        realm: 0,
        kind: ActiveFrameKind::Bytecode { pc: 0, strict: true },
        native_continuation: false,
        backtrace_hidden: false,
    };
    let mut frames = ActiveFrames::with_depth();
    for token in 1..5 {
        frames.push(record(token));
    }
    assert!(!frames.has_lazy_tail());
    frames.retire(ActiveFrameToken(2), 3);
    assert_eq!(frames.to_vec(), vec![record(1)]);
    frames.retire(ActiveFrameToken(9), 1);
    assert_eq!(frames.len(), 1);
    frames.truncate(0);
    assert!(frames.last().is_none());
    assert!(frames.pop().is_none());
}

#[test]
fn nested_executions_leave_the_registry_as_it_was() {
    let runtime = Runtime::new(5);
    let mut registry = ExecutionRegistry::new();
    let outer = RunningExecution::new(&mut registry, &runtime, ExecutionLimits::default()).unwrap();
    let before = registry.active.clone();
    assert_eq!(before.len(), 1);
    let inner = RunningExecution::new(&mut registry, &runtime, ExecutionLimits::default()).unwrap();
    assert_eq!(registry.active.len(), 2);
    inner.guard.leave(&mut registry);
    assert_eq!(registry.active, before);
    outer.guard.leave(&mut registry);
    assert!(registry.active.is_empty());
}

#[test]
fn identity_registration_cannot_keep_a_runtime_alive() {
    let runtime = Runtime::new(5);
    let mut registry = ExecutionRegistry::new();
    let execution = RunningExecution::new(&mut registry, &runtime, ExecutionLimits::default()).unwrap();
    // The execution borrows nothing from the runtime.
    drop(runtime);
    assert_eq!(registry.active, vec![(5, 1)]);
    execution.guard.leave(&mut registry);
    assert!(registry.active.is_empty());
}

#[test]
fn executions_leave_in_any_order() {
    let runtime = Runtime::new(3);
    let mut registry = ExecutionRegistry::new();
    let first = ExecutionGuard::enter(&mut registry, &runtime).unwrap();
    let second = ExecutionGuard::enter(&mut registry, &runtime).unwrap();
    assert_eq!((first.id, second.id), (1, 2));
    first.leave(&mut registry);
    assert_eq!(registry.active, vec![(3, 2)]);
    first.leave(&mut registry);
    assert_eq!(registry.active, vec![(3, 2)]);
    second.leave(&mut registry);
    assert!(registry.active.is_empty());
}

#[test]
fn an_exhausted_registry_refuses_executions() {
    let runtime = Runtime::new(3);
    let mut registry = ExecutionRegistry::new();
    registry.next = u64::MAX;
    let refused = RunningExecution::new(&mut registry, &runtime, ExecutionLimits::default());
    assert_eq!(refused.err(), Some(Error::internal("execution identity exhausted")));
    assert_eq!(registry.next, u64::MAX);
    assert!(registry.active.is_empty());
}

#[test]
fn default_limits_follow_the_slot_size() {
    let limits = ExecutionLimits::default();
    assert_eq!(limits.frames, 65535);
    assert_eq!(limits.slots, isize::MAX as usize / std::mem::size_of::<FrameBinding>());
}

#[test]
fn unified_call_entry_keeps_the_ordinary_result_abi_size() {
    assert_eq!(
        std::mem::size_of::<Result<Entry, Error>>(),
        std::mem::size_of::<Result<bool, Error>>(),
    );
}

fn object(index: usize) -> JsValue {
    JsValue::Object(ObjectRef { domain: 1, index })
}

#[test]
fn windows_lay_arguments_parameters_and_locals_under_the_operands() {
    let mut slots = SlotStore::new(10);
    let window = slots
        .push_frame(&FrameStorage {
            original_arguments: vec![JsValue::Int(1), JsValue::Int(2)],
            parameters: vec![FrameBinding::Direct(JsValue::Int(1))],
            locals: vec![FrameBinding::Uninitialized, FrameBinding::Captured { cell: 4, reusable: false }],
        })
        .unwrap();
    assert_eq!(window, FrameWindow { base: 0, parameters_at: 2, locals_at: 3, floor: 5 });
    slots.push(object(3)).unwrap();
    slots.push(JsValue::Int(9)).unwrap();
    assert_eq!(slots.depth(window), 2);
    assert_eq!(slots.peek(window, 0).unwrap(), JsValue::Int(9));
    assert_eq!(slots.peek(window, 1).unwrap(), object(3));
    assert!(slots.peek(window, 2).is_err());
    assert_eq!(slots.local(window, 1).unwrap(), FrameBinding::Captured { cell: 4, reusable: false });
    assert!(slots.local(window, 2).is_err());
    slots.set_local(window, 0, FrameBinding::Direct(JsValue::Null)).unwrap();
    assert_eq!(slots.local(window, 0).unwrap(), FrameBinding::Direct(JsValue::Null));
    slots.set_parameter(window, 0, FrameBinding::Direct(JsValue::Int(8))).unwrap();
    assert_eq!(slots.parameter(window, 0).unwrap(), FrameBinding::Direct(JsValue::Int(8)));
    assert_eq!(slots.snapshot_actual_arguments(window).unwrap(), vec![JsValue::Int(1), JsValue::Int(2)]);
    slots.discard(window, 1).unwrap();
    assert_eq!(slots.pop(window).unwrap(), object(3));
    assert_eq!(slots.pop(window).unwrap_err(), Error::internal("operand stack underflow"));
    slots.clear_frame(window);
    assert_eq!(slots.values.len(), 0);
}

#[test]
fn full_storage_refuses_operands_and_frames() {
    let mut slots = SlotStore::new(2);
    let window = slots
        .push_frame(&FrameStorage {
            original_arguments: vec![],
            parameters: vec![],
            locals: vec![FrameBinding::Uninitialized],
        })
        .unwrap();
    slots.push(JsValue::Null).unwrap();
    assert_eq!(slots.push(JsValue::Null).unwrap_err(), Error::internal("execution slot limit exceeded"));
    let refused = FrameStorage { original_arguments: vec![JsValue::Null], parameters: vec![], locals: vec![] };
    assert!(slots.push_frame(&refused).is_err());
    assert_eq!(slots.depth(window), 1);
}
