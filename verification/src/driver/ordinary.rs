//! The ordinary call and return transactions.
use vstd::prelude::*;
use crate::call::ordinary::DirectSelection;
use crate::call::request::{Callback, NormalizedCallback};
use crate::call::CallableExecution;
use crate::driver::CallStep;
use crate::error::Error;
use crate::execution::{Machine, RunningExecution};
use crate::frame::{Frame, FrameId, ReturnTarget, ReturnValue};
use crate::heap::Heap;
use crate::runtime::Runtime;
use crate::value::{CallableRef, JsValue};

verus! {

/// How a call was entered.
#[derive(Clone, Copy, Debug, PartialEq, Eq, Structural)]
pub enum Entry {
    Ordinary,
    Native(CallStep),
    General,
}

impl Machine {
    /// Entering a call whose callee allows a direct one.
    pub open spec fn enter_direct(
        self,
        heap: Heap,
        id: FrameId,
        count: u16,
        method: bool,
        tail: bool,
    ) -> (Heap, Machine, Result<Entry, Error>) {
        match self.frames.current(id) {
            Err(e) => (heap, self, Err(e)),
            Ok(frame) => match self.slots.peek(
                frame.window,
                if method {
                    count + 1
                } else {
                    count as int
                },
            ) {
                Err(e) => (heap, self, Err(e)),
                Ok(_) => match self.slots.peek(frame.window, count as int) {
                    Err(e) => (heap, self, Err(e)),
                    Ok(callee) => if heap.direct_selection(callee) == Ok::<DirectSelection, Error>(
                        DirectSelection::General,
                    ) {
                        (heap, self, Ok(Entry::General))
                    } else {
                        match self.call_operands(frame.window, count as nat, method) {
                            Err(e) => (heap, self, Err(e)),
                            Ok((arguments, receiver)) => if !heap.in_domain(receiver)
                                || heap.foreign_from(arguments, 0) is Some {
                                (heap, self, Ok(Entry::General))
                            } else {
                                self.enter_selected(
                                    heap,
                                    id,
                                    frame,
                                    callee,
                                    arguments,
                                    receiver,
                                    method,
                                    tail,
                                )
                            },
                        }
                    },
                },
            },
        }
    }

    pub open spec fn enter_selected(
        self,
        heap: Heap,
        id: FrameId,
        frame: Frame,
        callee: JsValue,
        arguments: Seq<JsValue>,
        receiver: JsValue,
        method: bool,
        tail: bool,
    ) -> (Heap, Machine, Result<Entry, Error>) {
        match heap.direct_selection(callee) {
            Err(e) => (heap, self, Err(e)),
            Ok(DirectSelection::General) => (heap, self, Ok(Entry::General)),
            Ok(DirectSelection::Ordinary(selected)) => match selected.authenticated(heap) {
                Err(e) => (heap, self, Err(e)),
                Ok(call) => if !self.frames.can_push() || heap.would_overflow() {
                    (heap, self, Ok(Entry::General))
                } else {
                    match self.install_ordinary(heap, call, id, arguments.len(), method, tail) {
                        (heap, machine, Err(e)) => (heap, machine, Err(e)),
                        (heap, machine, Ok(_)) => (heap, machine, Ok(Entry::Ordinary)),
                    }
                },
            },
            Ok(DirectSelection::Native(native)) => {
                let (function, target, realm, min_readable_args) = native.parts();
                let (machine, r) = self.begin_pending(
                    frame,
                    arguments.len() + if method {
                        2nat
                    } else {
                        1nat
                    },
                    Seq::empty(),
                    Callback {
                        callable: CallableRef { object: function },
                        receiver,
                        arguments,
                        classification: CallableExecution::Native {
                            target,
                            realm,
                            min_readable_args,
                        },
                    },
                    ReturnTarget { value_use: ReturnValue::Push, frame: id, tail, operation: None },
                );
                match r {
                    Err(e) => (heap, machine, Err(e)),
                    Ok(step) => (heap, machine, Ok(Entry::Native(step))),
                }
            },
        }
    }

    /// Where a frame returns to, if that needs no more than a push.
    pub open spec fn ordinary_return(frame: Frame) -> Option<ReturnTarget> {
        match frame.cold.return_to {
            Some(target) => if !target.tail && target.operation is None
                && frame.cold.constructor_return is None {
                Some(target)
            } else {
                None
            },
            None => None,
        }
    }

    /// Returning from a frame to its caller directly.
    pub open spec fn finish_ordinary(self, heap: Heap, id: FrameId) -> (
        Heap,
        Machine,
        Result<bool, Error>,
    ) {
        match self.frames.current(id) {
            Err(e) => (heap, self, Err(e)),
            Ok(frame) => match (Machine::ordinary_return(frame), self.pending) {
                (Some(target), Some(value)) => {
                    let popped = (Machine {
                        frames: self.frames.pop(id).0,
                        pending: None,
                        ..self
                    }).cleared(frame);
                    let (heap, ended) = match frame.cold.entry_guard {
                        Some(guard) => heap.finished(guard),
                        None => (heap, Ok(())),
                    };
                    match ended {
                        Err(e) => (heap, popped, Err(e)),
                        Ok(_) => match popped.frames.current(target.frame) {
                            Err(e) => (heap, popped, Err(e)),
                            Ok(_) => if target.value_use is Push {
                                let (slots, r) = popped.slots.push(value);
                                let machine = Machine { slots, ..popped };
                                match r {
                                    Err(e) => (heap, machine, Err(e)),
                                    Ok(_) => (heap, machine, Ok(true)),
                                }
                            } else {
                                (heap, popped, Ok(true))
                            },
                        },
                    }
                },
                _ => (heap, self, Ok(false)),
            },
        }
    }
}

/// Enter a call whose callee allows a direct one; any other callee and any
/// operand of another runtime is left to the general entry.
pub fn enter(
    runtime: &mut Runtime,
    execution: &mut RunningExecution,
    id: FrameId,
    count: u16,
    method: bool,
    tail: bool,
) -> (r: Result<Entry, Error>)
    requires
        old(runtime).wf(),
    ensures
        final(runtime).wf(),
        (final(runtime)@, final(execution)@, r) == old(execution)@.enter_direct(
            old(runtime)@,
            id,
            count,
            method,
            tail,
        ),
{
    let frame = execution.frames.current(id)?;
    let number: usize = count as usize;
    let _ = execution.slots.peek(
        frame.window,
        if method {
            number + 1
        } else {
            number
        },
    )?;
    let callee = execution.slots.peek(frame.window, number)?;
    let selection = DirectSelection::select(runtime, callee);
    if let Ok(DirectSelection::General) = selection {
        return Ok(Entry::General);
    }
    let (arguments, receiver) = execution.call_operands(frame.window, number, method)?;
    proof {
        crate::slots::top_is_whole(execution@.slots, frame.window, number as nat);
    }
    if runtime.validate_value_domain(receiver, "call this value").is_err()
        || runtime.first_foreign(&arguments) {
        return Ok(Entry::General);
    }
    match selection? {
        DirectSelection::General => Ok(Entry::General),
        DirectSelection::Ordinary(selected) => {
            let call = selected.authenticate(runtime)?;
            if !execution.frames.can_push() || runtime.bytecode_call_would_overflow() {
                return Ok(Entry::General);
            }
            call.install(runtime, execution, id, number, method, tail)?;
            Ok(Entry::Ordinary)
        },
        DirectSelection::Native(native) => {
            let (function, target, realm, min_readable_args) = native.into_parts();
            let step = execution.begin_pending(
                frame,
                number + if method {
                    2
                } else {
                    1
                },
                &Vec::new(),
                NormalizedCallback {
                    callable: CallableRef { object: function },
                    receiver,
                    arguments,
                    classification: CallableExecution::Native { target, realm, min_readable_args },
                },
                ReturnTarget { value_use: ReturnValue::Push, frame: id, tail, operation: None },
            )?;
            Ok(Entry::Native(step))
        },
    }
}

/// Return from a frame to its caller where that needs no more than a push.
pub fn finish(runtime: &mut Runtime, execution: &mut RunningExecution, id: FrameId) -> (r: Result<
    bool,
    Error,
>)
    requires
        old(runtime).wf(),
    ensures
        final(runtime).wf(),
        (final(runtime)@, final(execution)@, r) == old(execution)@.finish_ordinary(
            old(runtime)@,
            id,
        ),
{
    let frame = execution.frames.current(id)?;
    let target = match frame.cold.return_to {
        Some(target) => target,
        None => {
            return Ok(false);
        },
    };
    if target.tail || target.operation.is_some() || frame.cold.constructor_return.is_some() {
        return Ok(false);
    }
    let value = match execution.pending {
        Some(value) => value,
        None => {
            return Ok(false);
        },
    };
    execution.pending = None;
    let _ = execution.frames.pop(id)?;
    execution.clear(frame);
    match frame.cold.entry_guard {
        Some(guard) => {
            runtime.finish_active_frame(guard)?;
        },
        None => {},
    }
    let _ = execution.frames.current(target.frame)?;
    if target.value_use == ReturnValue::Push {
        execution.slots.push(value)?;
    }
    Ok(true)
}

/// A direct call of plain code does what the general one does: the same frame
/// over the same operands.
pub proof fn direct_calls_agree_with_general_ones(
    machine: Machine,
    heap: Heap,
    id: FrameId,
    count: u16,
    method: bool,
    tail: bool,
)
    requires
        machine.enter_direct(heap, id, count, method, tail).2 == Ok::<Entry, Error>(
            Entry::Ordinary,
        ),
    ensures
        ({
            let (after, m, _) = machine.enter_direct(heap, id, count, method, tail);
            machine.enter_call(heap, id, count, method, tail) == (
                after,
                m,
                Ok::<CallStep, Error>(CallStep::Entered),
            )
        }),
{
    let frame = machine.frames.frames.last().frame;
    let callee = machine.slots.peek(frame.window, count as int)->Ok_0;
    crate::call::ordinary::selected_calls_keep_their_callee(heap, callee);
    crate::slots::top_is_whole(machine.slots, frame.window, count as nat);
    match machine.call_operands(frame.window, count as nat, method) {
        Ok((arguments, receiver)) => {
            assert(arguments.len() == count);
            let selected = heap.direct_selection(callee)->Ok_0->Ordinary_0;
            let call = selected.authenticated(heap)->Ok_0;
            assert(crate::call::ordinary::OrdinaryCall::authentic(heap, callee) == Ok::<
                Option<crate::call::ordinary::OrdinaryCall>,
                Error,
            >(Some(call)));
            let callable = CallableRef { object: call.callee() };
            assert(heap.callable(call.callee()) == Ok::<Option<CallableRef>, Error>(
                Some(callable),
            ));
            assert(heap.classification(callable) matches Ok(CallableExecution::Bytecode {
                bytecode,
                ..
            }) && bytecode == call.code());
            assert(heap.function_at(call.code()) is Ok);
        },
        Err(_) => {},
    }
}

/// A direct call of a native function does what the general one does, too: the
/// embedder is asked for the same call.
pub proof fn direct_native_calls_agree_with_general_ones(
    machine: Machine,
    heap: Heap,
    id: FrameId,
    count: u16,
    method: bool,
    tail: bool,
    step: CallStep,
)
    requires
        machine.enter_direct(heap, id, count, method, tail).2 == Ok::<Entry, Error>(
            Entry::Native(step),
        ),
    ensures
        ({
            let (after, m, _) = machine.enter_direct(heap, id, count, method, tail);
            machine.enter_call(heap, id, count, method, tail) == (
                after,
                m,
                Ok::<CallStep, Error>(step),
            )
        }),
{
    let frame = machine.frames.frames.last().frame;
    let callee = machine.slots.peek(frame.window, count as int)->Ok_0;
    crate::call::ordinary::selected_natives_keep_their_facts(heap, callee);
    crate::slots::top_is_whole(machine.slots, frame.window, count as nat);
    match machine.call_operands(frame.window, count as nat, method) {
        Ok((arguments, receiver)) => {
            assert(arguments.len() == count);
            let native = heap.direct_selection(callee)->Ok_0->Native_0;
            let (function, target, realm, min_readable_args) = native.parts();
            let callable = CallableRef { object: function };
            assert(heap.callable(function) == Ok::<Option<CallableRef>, Error>(Some(callable)));
            assert(heap.classification(callable) == Ok::<CallableExecution, Error>(
                CallableExecution::Native { target, realm, min_readable_args },
            ));
        },
        Err(_) => {},
    }
}

/// A direct return ends the frame, gives its caller the value where the caller
/// asked for one, and leaves what lay below; it does what ending the frame and
/// delivering its completion do.
pub proof fn direct_returns_agree_with_general_ones(
    machine: Machine,
    heap: Heap,
    id: FrameId,
    frame: Frame,
    target: ReturnTarget,
    value: JsValue,
)
    requires
        machine.frames.current(id) == Ok::<Frame, Error>(frame),
        frame.cold.return_to == Some(target),
        !target.tail && target.operation is None && frame.cold.constructor_return is None,
        frame.cold.entry_guard matches Some(guard) ==> heap.finished(guard).1 is Ok,
        machine.frames.frames.drop_last().len() > 0,
        machine.frames.frames.drop_last().last().id == target.frame,
        machine.pending == Some(value),
        frame.window.base <= machine.slots.values.len(),
        frame.window.base < machine.slots.limit,
    ensures
        ({
            let (after, m, r) = machine.finish_ordinary(heap, id);
            let (ended, left, exit) = machine.finish_frame(
                heap,
                id,
                crate::run::RunExit::Complete,
                None,
            );
            &&& r == Ok::<bool, Error>(true)
            &&& m.frames.frames == machine.frames.frames.drop_last()
            &&& m.pending is None
            &&& m.slots.values == if target.value_use is Push {
                machine.slots.values.take(frame.window.base as int).push(
                    crate::slots::FrameBinding::Direct(value),
                )
            } else {
                machine.slots.values.take(frame.window.base as int)
            }
            &&& exit == Ok::<crate::frame_exit::FrameExit, Error>(
                crate::frame_exit::FrameExit {
                    completion: crate::value::Completion::Return(value),
                    return_to: Some(target),
                },
            )
            &&& left.deliver(ended, target, crate::value::Completion::Return(value)) == (
                after,
                m,
                Ok::<crate::driver::frames::Delivered, Error>(
                    crate::driver::frames::Delivered { forwarded: None, conversion: None },
                ),
            )
        }),
{
}

/// Constructors, tail calls and frames that answer an operation are not left
/// directly: nothing changes.
pub proof fn other_returns_are_not_direct(machine: Machine, heap: Heap, id: FrameId, frame: Frame)
    requires
        machine.frames.current(id) == Ok::<Frame, Error>(frame),
        frame.cold.constructor_return is Some || frame.cold.return_to is None || (
        frame.cold.return_to matches Some(target) && (target.tail || target.operation is Some)),
    ensures
        machine.finish_ordinary(heap, id) == (heap, machine, Ok::<bool, Error>(false)),
{
}

/// Plain code and registered native bodies are called directly where there is
/// room and the operands belong to this runtime.
pub proof fn plain_calls_are_direct(
    machine: Machine,
    heap: Heap,
    id: FrameId,
    frame: Frame,
    count: u16,
    method: bool,
    tail: bool,
    object: crate::value::ObjectRef,
    receiver: JsValue,
    arguments: Seq<JsValue>,
    data: crate::heap::BytecodeFunctionData,
)
    requires
        machine.frames.current(id) == Ok::<Frame, Error>(frame),
        machine.slots.top(frame.window, count as nat) == Ok::<Seq<JsValue>, Error>(arguments),
        machine.slots.peek(frame.window, count as int) == Ok::<JsValue, Error>(
            JsValue::Object(object),
        ),
        method ==> machine.slots.peek(frame.window, count + 1) == Ok::<JsValue, Error>(receiver),
        heap.belongs(object),
        object.index < heap.objects.len(),
        heap.objects[object.index as int].payload
            == crate::heap::ObjectPayload::BytecodeFunction(data),
        data.bytecode < heap.code.len(),
        heap.code[data.bytecode as int].metadata.function_kind is Normal,
        machine.frames.can_push() && !heap.would_overflow(),
        heap.in_domain(receiver),
        heap.foreign_from(arguments, 0) is None,
    ensures
        machine.enter_direct(heap, id, count, method, tail).2 matches Ok(entry) ==> entry
            is Ordinary,
{
    crate::call::ordinary::other_callees_are_not_called_directly(heap, object);
    crate::call::ordinary::selected_natives_keep_their_facts(heap, JsValue::Object(object));
}

} // verus!
