//! Spread calls consume a snapshot of an array through call and construct
//! frames.
use vstd::prelude::*;
use crate::call::request::{BytecodeCallRequest, Callback, NormalizedCallback, Request};
use crate::call::CallableExecution;
use crate::code::{ApplyKind, FunctionKind};
use crate::construct_driver::enter_request;
use crate::driver::{push_frame, CallStep};
use crate::error::{Error, ErrorKind};
use crate::execution::{Machine, RunningExecution};
use crate::frame::{Frame, FrameId, ReturnTarget, ReturnValue};
use crate::heap::Heap;
use crate::runtime::Runtime;
use crate::value::{CallableRef, Completion, JsValue, NativeConversion};

verus! {

impl Machine {
    /// A spread call.  Visible errors are thrown.
    pub open spec fn apply(self, heap: Heap, id: FrameId, kind: ApplyKind, identity: u64) -> (
        Heap,
        Machine,
        Result<CallStep, Error>,
    ) {
        match self.frames.current(id) {
            Err(e) => (heap, self, Err(e)),
            Ok(frame) => Machine::step_caught(
                frame.realm,
                self.prepare_apply(heap, id, frame, kind, identity),
            ),
        }
    }

    /// The callee is checked before the list of arguments is looked at.
    pub open spec fn prepare_apply(
        self,
        heap: Heap,
        id: FrameId,
        frame: Frame,
        kind: ApplyKind,
        identity: u64,
    ) -> (Heap, Machine, Result<CallStep, Error>) {
        match self.slots.peek(frame.window, 2) {
            Err(e) => (heap, self, Err(e)),
            Ok(callee) => match heap.callable_of(callee) {
                Err(e) => (heap, self, Err(e)),
                Ok(callable) => match (
                    self.slots.peek(frame.window, 1),
                    self.slots.peek(frame.window, 0),
                ) {
                    (Err(e), _) => (heap, self, Err(e)),
                    (_, Err(e)) => (heap, self, Err(e)),
                    (Ok(receiver), Ok(JsValue::Object(array))) => match heap.fast_arguments(
                        frame.realm,
                        array,
                    ) {
                        (heap, Err(e)) => (heap, self, Err(e)),
                        (heap, Ok(None)) => (heap, self, Ok(CallStep::Bridge)),
                        (heap, Ok(Some(NativeConversion::Throw(value)))) => (
                            heap,
                            self,
                            Ok(CallStep::Complete(Completion::Throw(value))),
                        ),
                        (heap, Ok(Some(NativeConversion::Value(arguments)))) => match kind {
                            ApplyKind::Call => self.apply_call(
                                heap,
                                id,
                                frame,
                                callable,
                                receiver,
                                arguments,
                            ),
                            ApplyKind::Construct => self.apply_construct(
                                heap,
                                id,
                                frame,
                                callable,
                                receiver,
                                arguments,
                                identity,
                            ),
                        },
                    },
                    (Ok(receiver), Ok(list)) => if list.nullish() {
                        // Without a list this is a call, also where it constructs.
                        self.apply_call(heap, id, frame, callable, receiver, Seq::empty())
                    } else {
                        (heap, self, Err(Error::new(ErrorKind::Type, "not a object")))
                    },
                },
            },
        }
    }

    pub open spec fn apply_construct(
        self,
        heap: Heap,
        id: FrameId,
        frame: Frame,
        callable: CallableRef,
        new_target: JsValue,
        arguments: Seq<JsValue>,
        identity: u64,
    ) -> (Heap, Machine, Result<CallStep, Error>) {
        match heap.constructor_check(frame.realm, callable.object) {
            (heap, Err(e)) => (heap, self, Err(e)),
            (heap, Ok(NativeConversion::Throw(value))) => (
                heap,
                self,
                Ok(CallStep::Complete(Completion::Throw(value))),
            ),
            (heap, Ok(NativeConversion::Value(_))) => self.enter_request(
                heap,
                id,
                callable,
                new_target,
                arguments,
                3,
                identity,
            ),
        }
    }

    pub open spec fn apply_call(
        self,
        heap: Heap,
        id: FrameId,
        frame: Frame,
        callable: CallableRef,
        receiver: JsValue,
        arguments: Seq<JsValue>,
    ) -> (Heap, Machine, Result<CallStep, Error>) {
        match heap.domain_check(receiver, "call this value") {
            Err(e) => (heap, self, Err(e)),
            Ok(_) => if heap.foreign_from(arguments, 0) is Some {
                (heap, self, Err(Error::wrong_runtime("call argument")))
            } else {
                match heap.bound_call(
                    frame.realm,
                    callable,
                    receiver,
                    arguments,
                    heap.objects.len(),
                ) {
                    (heap, Err(e)) => (heap, self, Err(e)),
                    (heap, Ok(NativeConversion::Throw(value))) => (
                        heap,
                        self,
                        Ok(CallStep::Complete(Completion::Throw(value))),
                    ),
                    (heap, Ok(NativeConversion::Value(callback))) => self.apply_callback(
                        heap,
                        id,
                        frame,
                        callback,
                    ),
                }
            },
        }
    }

    /// The entry owns every argument before the operands are dropped.
    pub open spec fn apply_callback(self, heap: Heap, id: FrameId, frame: Frame, callback: Callback) -> (
        Heap,
        Machine,
        Result<CallStep, Error>,
    ) {
        match callback.classification {
            CallableExecution::Bytecode { bytecode, count, .. } => match heap.function_at(bytecode) {
                Err(e) => (heap, self, Err(e)),
                Ok(function) => if !(function.metadata.function_kind is Normal) {
                    (heap, self, Ok(CallStep::Bridge))
                } else if !self.frames.can_push() || heap.would_overflow() {
                    let (heap, r) = heap.overflow_step(frame.realm);
                    (heap, self, r)
                } else {
                    match heap.request_entry(
                        Request {
                            callable: callback.callable,
                            receiver: callback.receiver,
                            new_target: JsValue::Undefined,
                            arguments: callback.arguments,
                            bytecode,
                            closure_count: count,
                            caller_realm: frame.realm,
                            return_to: ReturnTarget {
                                value_use: ReturnValue::Push,
                                frame: id,
                                tail: false,
                                operation: None,
                            },
                        },
                    ) {
                        (heap, Err(e)) => (heap, self, Err(e)),
                        (heap, Ok(entry)) => {
                            let retired = heap.retired(entry.cold.entry_guard);
                            let (slots, r) = self.slots.discard(frame.window, 3);
                            let popped = Machine { slots, ..self };
                            match r {
                                Err(e) => (retired, popped, Err(e)),
                                Ok(_) => match popped.resumed(
                                    frame,
                                    Error::internal("Apply resume PC overflow"),
                                ) {
                                    (machine, Err(e)) => (retired, machine, Err(e)),
                                    (machine, Ok(_)) => match machine.push_entry(heap, entry) {
                                        (heap, machine, Err(e)) => (heap, machine, Err(e)),
                                        (heap, machine, Ok(_)) => (
                                            heap,
                                            machine,
                                            Ok(CallStep::Entered),
                                        ),
                                    },
                                },
                            }
                        },
                    }
                },
            },
            _ => (heap, self, Ok(CallStep::Bridge)),
        }
    }
}

/// Run a spread call.
pub fn step(
    runtime: &mut Runtime,
    execution: &mut RunningExecution,
    id: FrameId,
    kind: ApplyKind,
    identity: u64,
) -> (r: Result<CallStep, Error>)
    requires
        old(runtime).wf(),
    ensures
        final(runtime).wf(),
        (final(runtime)@, final(execution)@, r) == old(execution)@.apply(
            old(runtime)@,
            id,
            kind,
            identity,
        ),
{
    let frame = execution.frames.current(id)?;
    match prepare(runtime, execution, id, frame, kind, identity) {
        Err(e) => runtime.throw_step(frame.realm, e),
        Ok(step) => Ok(step),
    }
}

pub fn prepare(
    runtime: &mut Runtime,
    execution: &mut RunningExecution,
    id: FrameId,
    frame: Frame,
    kind: ApplyKind,
    identity: u64,
) -> (r: Result<CallStep, Error>)
    requires
        old(runtime).wf(),
        old(execution)@.frames.current(id) == Ok::<Frame, Error>(frame),
    ensures
        final(runtime).wf(),
        (final(runtime)@, final(execution)@, r) == old(execution)@.prepare_apply(
            old(runtime)@,
            id,
            frame,
            kind,
            identity,
        ),
{
    let callee = execution.slots.peek(frame.window, 2)?;
    let callable = runtime.callable_from_value(callee)?;
    let receiver = execution.slots.peek(frame.window, 1)?;
    let list = execution.slots.peek(frame.window, 0)?;
    let array = match list {
        JsValue::Object(array) => array,
        _ => {
            if list.nullish() {
                let none: Vec<JsValue> = Vec::new();
                assert(none@ =~= Seq::<JsValue>::empty());
                return enter_call(runtime, execution, id, frame, callable, receiver, none);
            }
            return Err(Error::new(ErrorKind::Type, "not a object"));
        },
    };
    let arguments = match runtime.prepare_fast_array_arguments(frame.realm, array)? {
        None => {
            return Ok(CallStep::Bridge);
        },
        Some(NativeConversion::Throw(value)) => {
            return Ok(CallStep::Complete(Completion::Throw(value)));
        },
        Some(NativeConversion::Value(arguments)) => arguments,
    };
    match kind {
        ApplyKind::Call => enter_call(runtime, execution, id, frame, callable, receiver, arguments),
        ApplyKind::Construct => match runtime.constructor_from_value(
            frame.realm,
            JsValue::Object(callable.object),
        )? {
            NativeConversion::Throw(value) => Ok(CallStep::Complete(Completion::Throw(value))),
            NativeConversion::Value(_) => enter_request(
                runtime,
                execution,
                id,
                callable,
                receiver,
                arguments,
                3,
                identity,
            ),
        },
    }
}

pub fn enter_call(
    runtime: &mut Runtime,
    execution: &mut RunningExecution,
    id: FrameId,
    frame: Frame,
    callable: CallableRef,
    receiver: JsValue,
    arguments: Vec<JsValue>,
) -> (r: Result<CallStep, Error>)
    requires
        old(runtime).wf(),
        old(execution)@.frames.frames.len() > 0,
    ensures
        final(runtime).wf(),
        (final(runtime)@, final(execution)@, r) == old(execution)@.apply_call(
            old(runtime)@,
            id,
            frame,
            callable,
            receiver,
            arguments@,
        ),
{
    runtime.validate_value_domain(receiver, "call this value")?;
    if runtime.first_foreign(&arguments) {
        return Err(Error::wrong_runtime("call argument"));
    }
    let callback = match runtime.unwind_bound(frame.realm, callable, receiver, arguments)? {
        NativeConversion::Value(callback) => callback,
        NativeConversion::Throw(value) => {
            return Ok(CallStep::Complete(Completion::Throw(value)));
        },
    };
    enter_callback(runtime, execution, id, frame, callback)
}

fn enter_callback(
    runtime: &mut Runtime,
    execution: &mut RunningExecution,
    id: FrameId,
    frame: Frame,
    callback: NormalizedCallback,
) -> (r: Result<CallStep, Error>)
    requires
        old(runtime).wf(),
        old(execution)@.frames.frames.len() > 0,
    ensures
        final(runtime).wf(),
        (final(runtime)@, final(execution)@, r) == old(execution)@.apply_callback(
            old(runtime)@,
            id,
            frame,
            callback@,
        ),
{
    let (bytecode, count) = match callback.classification {
        CallableExecution::Bytecode { bytecode, count, .. } => (bytecode, count),
        _ => {
            return Ok(CallStep::Bridge);
        },
    };
    if runtime.function_bytecode(bytecode)?.metadata.function_kind != FunctionKind::Normal {
        return Ok(CallStep::Bridge);
    }
    if !execution.frames.can_push() || runtime.bytecode_call_would_overflow() {
        return runtime.overflow_step(frame.realm);
    }
    let request = BytecodeCallRequest {
        callable: callback.callable,
        receiver: callback.receiver,
        new_target: JsValue::Undefined,
        arguments: callback.arguments,
        bytecode,
        closure_count: count,
        caller_realm: frame.realm,
        return_to: ReturnTarget {
            value_use: ReturnValue::Push,
            frame: id,
            tail: false,
            operation: None,
        },
    };
    let entry = request.prepare(runtime)?;
    let guard = entry.cold.entry_guard;
    match execution.slots.discard(frame.window, 3) {
        Ok(_) => {},
        Err(e) => {
            runtime.retire_guard(guard);
            return Err(e);
        },
    }
    match execution.resume_after(frame, Error::internal("Apply resume PC overflow")) {
        Ok(_) => {},
        Err(e) => {
            runtime.retire_guard(guard);
            return Err(e);
        },
    }
    let _ = push_frame(runtime, execution, entry)?;
    Ok(CallStep::Entered)
}

/// Without a list of arguments a spread construction is a spread call.
pub proof fn nullish_lists_call(
    machine: Machine,
    heap: Heap,
    id: FrameId,
    frame: Frame,
    list: JsValue,
    identity: u64,
)
    requires
        machine.frames.current(id) == Ok::<Frame, Error>(frame),
        machine.slots.peek(frame.window, 0) == Ok::<JsValue, Error>(list),
        list.nullish(),
    ensures
        machine.apply(heap, id, ApplyKind::Construct, identity) == machine.apply(
            heap,
            id,
            ApplyKind::Call,
            identity,
        ),
{
}

/// A spread call takes the function from below the receiver and the list, and
/// runs plain code in a new frame with the elements of the list as its
/// arguments, in their order.
pub proof fn spread_calls_pass_the_elements(
    machine: Machine,
    heap: Heap,
    id: FrameId,
    frame: Frame,
    identity: u64,
    object: crate::value::ObjectRef,
    receiver: JsValue,
    array: crate::value::ObjectRef,
    values: Seq<JsValue>,
    data: crate::heap::BytecodeFunctionData,
)
    requires
        machine.frames.current(id) == Ok::<Frame, Error>(frame),
        machine.slots.peek(frame.window, 2) == Ok::<JsValue, Error>(JsValue::Object(object)),
        machine.slots.peek(frame.window, 1) == Ok::<JsValue, Error>(receiver),
        machine.slots.peek(frame.window, 0) == Ok::<JsValue, Error>(JsValue::Object(array)),
        object.domain == heap.domain,
        object.index < heap.objects.len(),
        heap.objects[object.index as int].payload
            == crate::heap::ObjectPayload::BytecodeFunction(data),
        data.bytecode < heap.code.len(),
        heap.code[data.bytecode as int].metadata.function_kind is Normal,
        heap.dense_values(array) == Some(values),
        heap.array_length(array) matches Some(length) && length
            <= crate::runtime::MAX_ARGUMENTS,
        heap.in_domain(receiver),
        heap.foreign_from(values, 0) is None,
        machine.frames.can_push() && !heap.would_overflow(),
        machine.prepare_apply(heap, id, frame, ApplyKind::Call, identity).2 is Ok,
    ensures
        ({
            let (after, m, r) = machine.prepare_apply(heap, id, frame, ApplyKind::Call, identity);
            let n = machine.frames.frames.len() as int;
            let callee = m.frames.frames[n].frame;
            &&& r == Ok::<CallStep, Error>(CallStep::Entered)
            &&& m.frames.frames.len() == n + 1
            &&& callee.executable == data.bytecode
            &&& callee.cold.function == object
            &&& callee.cold.input.this_value == receiver
            &&& m.slots.actual_arguments(callee.window) == Ok::<Seq<JsValue>, Error>(values)
            &&& m.frames.frames[n - 1].frame == (Frame {
                resume_pc: (frame.fault_pc + 1) as usize,
                ..frame
            })
        }),
{
    let rest = machine.slots.discard(frame.window, 3).0;
    let request = Request {
        callable: CallableRef { object },
        receiver,
        new_target: JsValue::Undefined,
        arguments: values,
        bytecode: data.bytecode,
        closure_count: data.count,
        caller_realm: frame.realm,
        return_to: ReturnTarget {
            value_use: ReturnValue::Push,
            frame: id,
            tail: false,
            operation: None,
        },
    };
    let entry = heap.request_entry(request).1->Ok_0;
    crate::call::request::requests_become_their_frame(heap, request);
    crate::slots::frames_keep_their_arguments(
        rest,
        entry.original_arguments,
        entry.parameters,
        entry.locals,
        0,
    );
}

/// The callee of a spread call is checked before its list: what is no function
/// is a type error whatever the list is, and a list that is neither an object
/// nor nullish is one too.
pub proof fn spread_callees_are_checked_first(
    machine: Machine,
    heap: Heap,
    id: FrameId,
    frame: Frame,
    kind: ApplyKind,
    identity: u64,
    callee: JsValue,
)
    requires
        machine.slots.peek(frame.window, 2) == Ok::<JsValue, Error>(callee),
        !(callee is Object),
    ensures
        ({
            let (after, m, r) = machine.prepare_apply(heap, id, frame, kind, identity);
            after == heap && m == machine && (r matches Err(e) && e.kind is Type)
        }),
{
}

} // verus!
