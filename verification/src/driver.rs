//! Own frames and advance ordinary bytecode calls without native recursion.
pub mod frames;
pub mod ordinary;
pub mod ready;
use vstd::prelude::*;
use crate::call::request::{BytecodeCallRequest, Callback, Entry, NormalizedCallback, Request};
use crate::call::CallableExecution;
use crate::code::FunctionKind;
use crate::error::Error;
use crate::execution::{Machine, PendingCall, PendingRequest, RunningExecution};
use crate::frame::{Frame, FrameEntry, FrameId, ReturnTarget, ReturnValue};
use crate::heap::Heap;
use crate::runtime::{ActiveFrameGuard, Runtime};
use crate::slots::{FrameBinding, FrameWindow, SlotStore, Slots};
use crate::value::{Completion, JsValue, NativeConversion};

verus! {

/// What an instruction that left the loop did.
#[derive(Clone, Copy, Debug, PartialEq, Eq, Structural)]
pub enum CallStep {
    /// The machine is ready to go on.
    Entered,
    /// The instruction completed the frame, or threw.
    Complete(Completion),
    /// The embedder has to complete the instruction.
    Bridge,
}

impl Heap {
    /// Ending an activation whatever its order.
    pub open spec fn retired(self, guard: Option<ActiveFrameGuard>) -> Heap {
        match guard {
            Some(guard) => self.finished(guard).0,
            None => self,
        }
    }
}

impl Runtime {
    /// End an activation whatever its order.
    pub fn retire_guard(&mut self, guard: Option<ActiveFrameGuard>)
        requires
            old(self).wf(),
        ensures
            final(self).wf(),
            final(self)@ == old(self)@.retired(guard),
    {
        match guard {
            Some(guard) => {
                let _ = self.finish_active_frame(guard);
            },
            None => {},
        }
    }
}

impl Machine {
    /// Installing a frame entry on top.  A refused entry ends its activation.
    pub open spec fn push_entry(self, heap: Heap, entry: Entry) -> (
        Heap,
        Machine,
        Result<FrameId, Error>,
    ) {
        match self.slots.push_frame(entry.original_arguments, entry.parameters, entry.locals) {
            (slots, Err(e)) => (heap.retired(entry.cold.entry_guard), Machine { slots, ..self }, Err(e)),
            (slots, Ok(window)) => {
                let (frames, r) = self.frames.push(
                    Frame {
                        executable: entry.executable,
                        realm: entry.realm,
                        window,
                        region_base: self.regions.len() as usize,
                        fault_pc: 0,
                        resume_pc: 0,
                        cold: entry.cold,
                    },
                );
                (
                    if r is Ok {
                        heap
                    } else {
                        heap.retired(entry.cold.entry_guard)
                    },
                    Machine { slots, frames, ..self },
                    r,
                )
            },
        }
    }

    /// Ending an instruction of the current frame.
    pub open spec fn resumed(self, frame: Frame, overflow: Error) -> (Machine, Result<(), Error>) {
        if frame.fault_pc == usize::MAX {
            (self, Err(overflow))
        } else {
            (
                Machine {
                    frames: self.frames.stored(
                        Frame { resume_pc: (frame.fault_pc + 1) as usize, ..frame },
                    ),
                    ..self
                },
                Ok(()),
            )
        }
    }

    /// Replacing `dropped` operands by `kept` and entering a frame for a
    /// request.
    pub open spec fn begin_frame(
        self,
        heap: Heap,
        frame: Frame,
        dropped: nat,
        kept: Seq<JsValue>,
        request: Request,
    ) -> (Heap, Machine, Result<CallStep, Error>) {
        let (slots, r) = Machine::reshuffle(self.slots, frame.window, dropped, kept);
        let popped = Machine { slots, ..self };
        match r {
            Err(e) => (heap, popped, Err(e)),
            Ok(_) => match popped.resumed(frame, Error::internal("call resume PC overflow")) {
                (machine, Err(e)) => (heap, machine, Err(e)),
                (machine, Ok(_)) => match heap.request_entry(request) {
                    (heap, Err(e)) => (heap, machine, Err(e)),
                    (heap, Ok(entry)) => match machine.push_entry(heap, entry) {
                        (heap, machine, Err(e)) => (heap, machine, Err(e)),
                        (heap, machine, Ok(_)) => (heap, machine, Ok(CallStep::Entered)),
                    },
                },
            },
        }
    }

    /// What the embedder is asked for a callback that gets no frame.
    pub open spec fn callback_request(caller: usize, callback: Callback) -> PendingRequest {
        match callback.classification {
            CallableExecution::Native { target, realm, min_readable_args } => PendingRequest::Native {
                callable: callback.callable,
                target,
                realm: if target.uses_calling_realm {
                    caller
                } else {
                    realm
                },
                min_readable_args,
                receiver: callback.receiver,
                count: callback.arguments.len() as usize,
            },
            _ => PendingRequest::Call {
                callable: callback.callable,
                receiver: callback.receiver,
                count: callback.arguments.len() as usize,
            },
        }
    }

    /// Replacing `dropped` operands by `kept` and the arguments, and leaving
    /// the call to the embedder.
    pub open spec fn begin_pending(
        self,
        frame: Frame,
        dropped: nat,
        kept: Seq<JsValue>,
        callback: Callback,
        return_to: ReturnTarget,
    ) -> (Machine, Result<CallStep, Error>) {
        match Machine::reshuffle(self.slots, frame.window, dropped, kept) {
            (slots, Err(e)) => (Machine { slots, ..self }, Err(e)),
            (slots, Ok(_)) => match slots.push_all(callback.arguments) {
                (slots, Err(e)) => (Machine { slots, ..self }, Err(e)),
                (slots, Ok(_)) => match (Machine { slots, ..self }).resumed(
                    frame,
                    Error::internal("call resume PC overflow"),
                ) {
                    (machine, Err(e)) => (machine, Err(e)),
                    (machine, Ok(_)) => (
                        Machine {
                            pending_call: Some(
                                PendingCall {
                                    request: Machine::callback_request(frame.realm, callback),
                                    return_to,
                                },
                            ),
                            ..machine
                        },
                        Ok(CallStep::Entered),
                    ),
                },
            },
        }
    }

    /// Entering an unwound callback: a bytecode body gets a frame, a native
    /// one goes to the embedder.  Any other kind goes there too, or leaves
    /// everything as it is where `bridge` says so.
    pub open spec fn enter_callback(
        self,
        heap: Heap,
        frame: Frame,
        dropped: nat,
        kept: Seq<JsValue>,
        callback: Callback,
        return_to: ReturnTarget,
        bridge: bool,
    ) -> (Heap, Machine, Result<CallStep, Error>) {
        match callback.classification {
            CallableExecution::Bytecode { bytecode, start, count } => match heap.function_at(
                bytecode,
            ) {
                Err(e) => (heap, self, Err(e)),
                Ok(function) => {
                    let overflow = !self.frames.can_push() || heap.would_overflow();
                    if overflow {
                        match heap.overflow(frame.realm) {
                            (heap, Err(e)) => (heap, self, Err(e)),
                            (heap, Ok(completion)) => (
                                heap,
                                self,
                                Ok(CallStep::Complete(completion)),
                            ),
                        }
                    } else if !(function.metadata.function_kind is Normal) {
                        self.enter_foreign(heap, frame, dropped, kept, callback, return_to, bridge)
                    } else {
                        self.begin_frame(
                            heap,
                            frame,
                            dropped,
                            kept,
                            Request {
                                callable: callback.callable,
                                receiver: callback.receiver,
                                new_target: JsValue::Undefined,
                                arguments: callback.arguments,
                                bytecode,
                                closure_count: count,
                                caller_realm: frame.realm,
                                return_to,
                            },
                        )
                    }
                },
            },
            CallableExecution::Native { .. } => {
                let (machine, r) = self.begin_pending(frame, dropped, kept, callback, return_to);
                (heap, machine, r)
            },
            _ => self.enter_foreign(heap, frame, dropped, kept, callback, return_to, bridge),
        }
    }

    /// A callback that only the embedder can call.
    pub open spec fn enter_foreign(
        self,
        heap: Heap,
        frame: Frame,
        dropped: nat,
        kept: Seq<JsValue>,
        callback: Callback,
        return_to: ReturnTarget,
        bridge: bool,
    ) -> (Heap, Machine, Result<CallStep, Error>) {
        if bridge {
            (heap, self, Ok(CallStep::Bridge))
        } else {
            let (machine, r) = self.begin_pending(frame, dropped, kept, callback, return_to);
            (heap, machine, r)
        }
    }

    /// The operands of a call: its arguments and its receiver.
    pub open spec fn call_operands(self, window: FrameWindow, count: nat, method: bool) -> Result<
        (Seq<JsValue>, JsValue),
        Error,
    > {
        match self.slots.top(window, count) {
            Err(e) => Err(e),
            Ok(arguments) => if method {
                match self.slots.peek(window, count as int + 1) {
                    Err(e) => Err(e),
                    Ok(receiver) => Ok((arguments, receiver)),
                }
            } else {
                Ok((arguments, JsValue::Undefined))
            },
        }
    }

    /// Calling the operand below the arguments.
    pub open spec fn enter_call(
        self,
        heap: Heap,
        id: FrameId,
        count: u16,
        method: bool,
        tail: bool,
    ) -> (Heap, Machine, Result<CallStep, Error>) {
        match self.frames.current(id) {
            Err(e) => (heap, self, Err(e)),
            Ok(frame) => match self.slots.peek(
                frame.window,
                if method {
                    count + 1
                } else {
                    count as int
                },
            ) {
                Err(e) => (heap, self, Err(e)),
                Ok(_) => match self.slots.peek(frame.window, count as int) {
                    Err(e) => (heap, self, Err(e)),
                    Ok(JsValue::Object(object)) => if !heap.belongs(object) {
                        (heap, self, Ok(CallStep::Bridge))
                    } else {
                        match heap.callable(object) {
                            Err(e) => (heap, self, Err(e)),
                            Ok(None) => (heap, self, Ok(CallStep::Bridge)),
                            Ok(Some(callable)) => match self.call_operands(
                                frame.window,
                                count as nat,
                                method,
                            ) {
                                Err(e) => (heap, self, Err(e)),
                                Ok((arguments, receiver)) => if !heap.in_domain(receiver)
                                    || heap.foreign_from(arguments, 0) is Some {
                                    (heap, self, Ok(CallStep::Bridge))
                                } else {
                                    match heap.bound_call(
                                        frame.realm,
                                        callable,
                                        receiver,
                                        arguments,
                                        heap.objects.len(),
                                    ) {
                                        (heap, Err(e)) => (heap, self, Err(e)),
                                        (heap, Ok(NativeConversion::Throw(value))) => (
                                            heap,
                                            self,
                                            Ok(CallStep::Complete(Completion::Throw(value))),
                                        ),
                                        (heap, Ok(NativeConversion::Value(callback))) =>
                                            self.enter_callback(
                                            heap,
                                            frame,
                                            count as nat + if method {
                                                2nat
                                            } else {
                                                1nat
                                            },
                                            Seq::empty(),
                                            callback,
                                            ReturnTarget {
                                                value_use: ReturnValue::Push,
                                                frame: id,
                                                tail,
                                                operation: None,
                                            },
                                            true,
                                        ),
                                    }
                                },
                            },
                        }
                    },
                    Ok(_) => (heap, self, Ok(CallStep::Bridge)),
                },
            },
        }
    }
}

/// Install a frame entry on top.  A refused entry ends its activation.
pub fn push_frame(runtime: &mut Runtime, execution: &mut RunningExecution, entry: FrameEntry) -> (r:
    Result<FrameId, Error>)
    requires
        old(runtime).wf(),
    ensures
        final(runtime).wf(),
        (final(runtime)@, final(execution)@, r) == old(execution)@.push_entry(
            old(runtime)@,
            entry@,
        ),
{
    let guard = entry.cold.entry_guard;
    let window = match execution.slots.push_frame(&entry.storage) {
        Ok(window) => window,
        Err(e) => {
            runtime.retire_guard(guard);
            return Err(e);
        },
    };
    let region_base: usize = execution.regions.len();
    match execution.frames.push(
        Frame {
            executable: entry.executable,
            realm: entry.realm,
            window,
            region_base,
            fault_pc: 0,
            resume_pc: 0,
            cold: entry.cold,
        },
    ) {
        Ok(id) => Ok(id),
        Err(e) => {
            runtime.retire_guard(guard);
            Err(e)
        },
    }
}

/// What the embedder is asked for a callback that gets no frame.
pub fn callback_request(caller: usize, callback: &NormalizedCallback) -> (r: PendingRequest)
    ensures
        r == Machine::callback_request(caller, callback@),
{
    match callback.classification {
        CallableExecution::Native { target, realm, min_readable_args } => PendingRequest::Native {
            callable: callback.callable,
            target,
            realm: if target.uses_calling_realm {
                caller
            } else {
                realm
            },
            min_readable_args,
            receiver: callback.receiver,
            count: callback.arguments.len(),
        },
        _ => PendingRequest::Call {
            callable: callback.callable,
            receiver: callback.receiver,
            count: callback.arguments.len(),
        },
    }
}

impl RunningExecution {
    /// End an instruction of the current frame.
    pub fn resume_after(&mut self, frame: Frame, overflow: Error) -> (r: Result<(), Error>)
        requires
            old(self)@.frames.frames.len() > 0,
        ensures
            (final(self)@, r) == old(self)@.resumed(frame, overflow),
    {
        if frame.fault_pc == usize::MAX {
            return Err(overflow);
        }
        let mut frame = frame;
        frame.resume_pc = frame.fault_pc + 1;
        self.frames.store(frame);
        Ok(())
    }

    /// Replace operands and enter a frame for a request.
    pub fn begin_frame(
        &mut self,
        runtime: &mut Runtime,
        frame: Frame,
        dropped: usize,
        kept: &Vec<JsValue>,
        request: BytecodeCallRequest,
    ) -> (r: Result<CallStep, Error>)
        requires
            old(runtime).wf(),
            old(self)@.frames.frames.len() > 0,
        ensures
            final(runtime).wf(),
            (final(runtime)@, final(self)@, r) == old(self)@.begin_frame(
                old(runtime)@,
                frame,
                dropped as nat,
                kept@,
                request@,
            ),
    {
        self.slots.discard(frame.window, dropped)?;
        self.slots.push_all(kept)?;
        self.resume_after(frame, Error::internal("call resume PC overflow"))?;
        let entry = request.prepare(runtime)?;
        let _ = push_frame(runtime, self, entry)?;
        Ok(CallStep::Entered)
    }

    /// Replace operands and leave a call to the embedder.
    pub fn begin_pending(
        &mut self,
        frame: Frame,
        dropped: usize,
        kept: &Vec<JsValue>,
        callback: NormalizedCallback,
        return_to: ReturnTarget,
    ) -> (r: Result<CallStep, Error>)
        requires
            old(self)@.frames.frames.len() > 0,
        ensures
            (final(self)@, r) == old(self)@.begin_pending(
                frame,
                dropped as nat,
                kept@,
                callback@,
                return_to,
            ),
    {
        self.slots.discard(frame.window, dropped)?;
        self.slots.push_all(kept)?;
        self.slots.push_all(&callback.arguments)?;
        self.resume_after(frame, Error::internal("call resume PC overflow"))?;
        let request = callback_request(frame.realm, &callback);
        self.pending_call = Some(PendingCall { request, return_to });
        Ok(CallStep::Entered)
    }

    /// Enter an unwound callback.
    pub fn enter_callback(
        &mut self,
        runtime: &mut Runtime,
        frame: Frame,
        dropped: usize,
        kept: &Vec<JsValue>,
        callback: NormalizedCallback,
        return_to: ReturnTarget,
        bridge: bool,
    ) -> (r: Result<CallStep, Error>)
        requires
            old(runtime).wf(),
            old(self)@.frames.frames.len() > 0,
        ensures
            final(runtime).wf(),
            (final(runtime)@, final(self)@, r) == old(self)@.enter_callback(
                old(runtime)@,
                frame,
                dropped as nat,
                kept@,
                callback@,
                return_to,
                bridge,
            ),
    {
        match callback.classification {
            CallableExecution::Bytecode { bytecode, count, .. } => {
                let kind = runtime.function_bytecode(bytecode)?.metadata.function_kind;
                if !self.frames.can_push() || runtime.bytecode_call_would_overflow() {
                    let completion = runtime.bytecode_stack_overflow_completion(frame.realm)?;
                    return Ok(CallStep::Complete(completion));
                }
                if kind != FunctionKind::Normal {
                    if bridge {
                        return Ok(CallStep::Bridge);
                    }
                    return self.begin_pending(frame, dropped, kept, callback, return_to);
                }
                self.begin_frame(
                    runtime,
                    frame,
                    dropped,
                    kept,
                    BytecodeCallRequest {
                        callable: callback.callable,
                        receiver: callback.receiver,
                        new_target: JsValue::Undefined,
                        arguments: callback.arguments,
                        bytecode,
                        closure_count: count,
                        caller_realm: frame.realm,
                        return_to,
                    },
                )
            },
            CallableExecution::Native { .. } => self.begin_pending(
                frame,
                dropped,
                kept,
                callback,
                return_to,
            ),
            _ => {
                if bridge {
                    Ok(CallStep::Bridge)
                } else {
                    self.begin_pending(frame, dropped, kept, callback, return_to)
                }
            },
        }
    }

    /// The operands of a call.
    pub fn call_operands(&self, window: FrameWindow, count: usize, method: bool) -> (r: Result<
        (Vec<JsValue>, JsValue),
        Error,
    >)
        requires
            count < usize::MAX,
        ensures
            match r {
                Ok((arguments, receiver)) => self@.call_operands(window, count as nat, method)
                    == Ok::<(Seq<JsValue>, JsValue), Error>((arguments@, receiver)),
                Err(e) => self@.call_operands(window, count as nat, method) == Err::<
                    (Seq<JsValue>, JsValue),
                    Error,
                >(e),
            },
    {
        let arguments = self.slots.top(window, count)?;
        let receiver = if method {
            self.slots.peek(window, count + 1)?
        } else {
            JsValue::Undefined
        };
        Ok((arguments, receiver))
    }
}

/// Call the operand below the arguments.  A callable of an unsupported kind
/// leaves every operand and the resume position as they are.
pub fn enter_call(
    runtime: &mut Runtime,
    execution: &mut RunningExecution,
    id: FrameId,
    count: u16,
    method: bool,
    tail: bool,
) -> (r: Result<CallStep, Error>)
    requires
        old(runtime).wf(),
    ensures
        final(runtime).wf(),
        (final(runtime)@, final(execution)@, r) == old(execution)@.enter_call(
            old(runtime)@,
            id,
            count,
            method,
            tail,
        ),
{
    let frame = execution.frames.current(id)?;
    let arguments: usize = count as usize;
    let _ = execution.slots.peek(
        frame.window,
        if method {
            arguments + 1
        } else {
            arguments
        },
    )?;
    let object = match execution.slots.peek(frame.window, arguments)? {
        JsValue::Object(object) => object,
        _ => {
            return Ok(CallStep::Bridge);
        },
    };
    if object.domain != runtime.domain_id() {
        return Ok(CallStep::Bridge);
    }
    let callable = match runtime.as_callable(object)? {
        Some(callable) => callable,
        None => {
            return Ok(CallStep::Bridge);
        },
    };
    let (list, receiver) = execution.call_operands(frame.window, arguments, method)?;
    if runtime.validate_value_domain(receiver, "call this value").is_err()
        || runtime.first_foreign(&list) {
        return Ok(CallStep::Bridge);
    }
    match runtime.unwind_bound(frame.realm, callable, receiver, list)? {
        NativeConversion::Throw(value) => Ok(CallStep::Complete(Completion::Throw(value))),
        NativeConversion::Value(callback) => execution.enter_callback(
            runtime,
            frame,
            arguments + if method {
                2
            } else {
                1
            },
            &Vec::new(),
            callback,
            ReturnTarget { value_use: ReturnValue::Push, frame: id, tail, operation: None },
            true,
        ),
    }
}

impl Slots {
    /// Marking the captured locals from `from` on as left behind for reuse.
    pub open spec fn reuse_captured(self, window: FrameWindow, from: int) -> Slots
        decreases window.floor - from,
    {
        if from < 0 || from >= window.floor || from >= self.values.len() {
            self
        } else {
            (match self.values[from] {
                FrameBinding::Captured { cell, .. } => Slots {
                    values: self.values.update(
                        from,
                        FrameBinding::Captured { cell, reusable: true },
                    ),
                    ..self
                },
                _ => self,
            }).reuse_captured(window, from + 1)
        }
    }
}

/// Mark which captured locals of a restored frame the next entry of their
/// scope may reuse.
pub fn prepare_captured_reuse(runtime: &Runtime, frame: Frame, slots: &mut SlotStore) -> (r: Result<
    (),
    Error,
>)
    ensures
        match runtime@.function_at(frame.executable) {
            Err(e) => r == Err::<(), Error>(e) && final(slots)@ == old(slots)@,
            Ok(function) => if frame.window.locals_at + function.local_definitions@.len()
                == frame.window.floor && frame.window.floor <= old(slots)@.values.len() {
                r is Ok && final(slots)@ == old(slots)@.reuse_captured(
                    frame.window,
                    frame.window.locals_at as int,
                )
            } else {
                r == Err::<(), Error>(
                    Error::internal("reusable captured-local flags disagree with the frame"),
                ) && final(slots)@ == old(slots)@
            },
        },
{
    let count: usize = runtime.function_bytecode(frame.executable)?.local_definitions.len();
    let window = frame.window;
    if window.floor > slots.values.len() || window.locals_at > window.floor || window.floor
        - window.locals_at != count {
        return Err(Error::internal("reusable captured-local flags disagree with the frame"));
    }
    let mut i: usize = window.locals_at;
    while i < window.floor
        invariant
            window.locals_at <= i <= window.floor,
            window.floor <= slots@.values.len(),
            slots@.reuse_captured(window, i as int) == old(slots)@.reuse_captured(
                window,
                window.locals_at as int,
            ),
        decreases window.floor - i,
    {
        match slots.values[i] {
            FrameBinding::Captured { cell, .. } => {
                slots.values.set(i, FrameBinding::Captured { cell, reusable: true });
            },
            _ => {},
        }
        i = i + 1;
    }
    Ok(())
}

/// A callable that the driver cannot enter leaves the whole machine as it is:
/// operands, resume position and pending work.
pub proof fn unsupported_callables_change_nothing(
    machine: Machine,
    heap: Heap,
    id: FrameId,
    count: u16,
    method: bool,
    tail: bool,
)
    ensures
        machine.enter_call(heap, id, count, method, tail).2 == Ok::<CallStep, Error>(
            CallStep::Bridge,
        ) ==> machine.enter_call(heap, id, count, method, tail).1 == machine,
{
}

/// A call takes the function from below its arguments and, as a method, the
/// receiver from below the function.  A call of plain code runs in a new frame
/// on top with exactly these operands; the caller keeps what lay below them and
/// goes on behind the call with its result.
pub proof fn calls_take_their_operands(
    machine: Machine,
    heap: Heap,
    id: FrameId,
    frame: Frame,
    count: u16,
    method: bool,
    tail: bool,
    object: crate::value::ObjectRef,
    receiver: JsValue,
    arguments: Seq<JsValue>,
    data: crate::heap::BytecodeFunctionData,
)
    requires
        machine.frames.current(id) == Ok::<Frame, Error>(frame),
        machine.slots.top(frame.window, count as nat) == Ok::<Seq<JsValue>, Error>(arguments),
        machine.slots.peek(frame.window, count as int) == Ok::<JsValue, Error>(
            JsValue::Object(object),
        ),
        method ==> machine.slots.peek(frame.window, count + 1) == Ok::<JsValue, Error>(receiver),
        object.domain == heap.domain,
        object.index < heap.objects.len(),
        heap.objects[object.index as int].payload
            == crate::heap::ObjectPayload::BytecodeFunction(data),
        data.bytecode < heap.code.len(),
        heap.code[data.bytecode as int].metadata.function_kind is Normal,
        machine.frames.can_push() && !heap.would_overflow(),
        heap.in_domain(receiver),
        heap.foreign_from(arguments, 0) is None,
        machine.enter_call(heap, id, count, method, tail).2 is Ok,
    ensures
        ({
            let (after, m, r) = machine.enter_call(heap, id, count, method, tail);
            let n = machine.frames.frames.len() as int;
            let callee = m.frames.frames[n].frame;
            let caller = m.frames.frames[n - 1].frame;
            &&& r == Ok::<CallStep, Error>(CallStep::Entered)
            &&& m.frames.frames.len() == n + 1
            &&& callee.executable == data.bytecode
            &&& callee.cold.function == object
            &&& callee.cold.input.this_value == if method {
                receiver
            } else {
                JsValue::Undefined
            }
            &&& callee.cold.input.new_target is Undefined
            &&& m.slots.actual_arguments(callee.window) == Ok::<Seq<JsValue>, Error>(arguments)
            &&& callee.resume_pc == 0
            &&& callee.cold.return_to == Some(
                ReturnTarget { value_use: ReturnValue::Push, frame: id, tail, operation: None },
            )
            &&& caller == (Frame { resume_pc: (frame.fault_pc + 1) as usize, ..frame })
            &&& callee.window.base == machine.slots.discard(
                frame.window,
                (count + if method {
                    2int
                } else {
                    1
                }) as nat,
            ).0.values.len()
        }),
{
    let dropped = (count + if method {
        2int
    } else {
        1
    }) as nat;
    let rest = machine.slots.discard(frame.window, dropped).0;
    let machine2 = machine.enter_call(heap, id, count, method, tail).1;
    let this_value = if method {
        receiver
    } else {
        JsValue::Undefined
    };
    let request = Request {
        callable: crate::value::CallableRef { object },
        receiver: this_value,
        new_target: JsValue::Undefined,
        arguments,
        bytecode: data.bytecode,
        closure_count: data.count,
        caller_realm: frame.realm,
        return_to: ReturnTarget {
            value_use: ReturnValue::Push,
            frame: id,
            tail,
            operation: None,
        },
    };
    let entry = heap.request_entry(request).1->Ok_0;
    crate::call::request::requests_become_their_frame(heap, request);
    crate::slots::frames_keep_their_arguments(
        rest,
        entry.original_arguments,
        entry.parameters,
        entry.locals,
        0,
    );
}

/// Leaving a scope marks its captured variables for reuse, with their cells, and
/// leaves every other slot as it was.
pub proof fn left_scopes_keep_their_cells(slots: Slots, window: FrameWindow, from: int)
    requires
        0 <= from,
        window.floor <= slots.values.len(),
    ensures
        ({
            let after = slots.reuse_captured(window, from);
            &&& after.values.len() == slots.values.len()
            &&& after.limit == slots.limit
            &&& forall|i: int|
                0 <= i < slots.values.len() ==> #[trigger] after.values[i] == (
                match slots.values[i] {
                    FrameBinding::Captured { cell, reusable } => FrameBinding::Captured {
                        cell,
                        reusable: reusable || from <= i < window.floor,
                    },
                    other => other,
                })
        }),
    decreases window.floor - from,
{
    if from < window.floor {
        let next = match slots.values[from] {
            FrameBinding::Captured { cell, .. } => Slots {
                values: slots.values.update(from, FrameBinding::Captured { cell, reusable: true }),
                ..slots
            },
            _ => slots,
        };
        left_scopes_keep_their_cells(next, window, from + 1);
        assert(slots.reuse_captured(window, from) == next.reuse_captured(window, from + 1));
    }
}

} // verus!
