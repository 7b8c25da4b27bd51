//! Direct evaluations stop at the embedder, which compiles the text, and answer
//! in place of their callee and arguments.
use vstd::prelude::*;
use crate::call::request::Entry;
use crate::driver::{push_frame, CallStep};
use crate::error::Error;
use crate::execution::{Machine, PendingCall, PendingRequest, RunningExecution};
use crate::frame::{FrameCold, FrameEntry, FrameId, OperationTarget, ReturnTarget, ReturnValue};
use crate::heap::Heap;
use crate::runtime::Runtime;
use crate::value::{Completion, JsValue, NativeConversion};

verus! {

impl ReturnTarget {
    /// The target of an evaluation with `count` arguments.
    pub open spec fn evaluation(frame: FrameId, count: u16) -> ReturnTarget {
        ReturnTarget {
            value_use: ReturnValue::Push,
            frame,
            tail: false,
            operation: Some(OperationTarget::Eval(count)),
        }
    }
}

impl Machine {
    /// Asking the embedder for an evaluation.  The callee and the arguments
    /// stay on the operands until it is answered.
    pub open spec fn begin_eval(self, heap: Heap, id: FrameId, count: u16, scope: u32) -> (
        Heap,
        Machine,
        Result<CallStep, Error>,
    ) {
        match self.frames.current(id) {
            Err(e) => (heap, self, Err(e)),
            Ok(frame) => match self.slots.peek(frame.window, count as int) {
                Err(e) => (heap, self, Err(e)),
                Ok(callee) => match self.resumed(
                    frame,
                    Error::internal("evaluation resume PC overflow"),
                ) {
                    (machine, Err(e)) => (heap, machine, Err(e)),
                    (machine, Ok(_)) => (
                        heap,
                        Machine {
                            pending_call: Some(
                                PendingCall {
                                    request: PendingRequest::Eval { callee, count, scope },
                                    return_to: ReturnTarget::evaluation(id, count),
                                },
                            ),
                            ..machine
                        },
                        Ok(CallStep::Entered),
                    ),
                },
            },
        }
    }

    /// An evaluation whose arguments are the elements of the array on top.  A
    /// list that runs code when it is read is left to the embedder.
    pub open spec fn apply_eval(self, heap: Heap, id: FrameId, scope: u32) -> (
        Heap,
        Machine,
        Result<CallStep, Error>,
    ) {
        match self.frames.current(id) {
            Err(e) => (heap, self, Err(e)),
            Ok(frame) => match self.slots.peek(frame.window, 0) {
                Err(e) => (heap, self, Err(e)),
                Ok(JsValue::Object(array)) => match heap.fast_arguments(frame.realm, array) {
                    (heap, Err(e)) => (heap, self, Err(e)),
                    (heap, Ok(None)) => (heap, self, Ok(CallStep::Bridge)),
                    (heap, Ok(Some(NativeConversion::Throw(value)))) => (
                        heap,
                        self,
                        Ok(CallStep::Complete(Completion::Throw(value))),
                    ),
                    (heap, Ok(Some(NativeConversion::Value(values)))) => {
                        let (slots, r) = Machine::reshuffle(self.slots, frame.window, 1, values);
                        let spread = Machine { slots, ..self };
                        match r {
                            Err(e) => (heap, spread, Err(e)),
                            Ok(_) => spread.begin_eval(heap, id, values.len() as u16, scope),
                        }
                    },
                },
                Ok(_) => (heap, self, Ok(CallStep::Bridge)),
            },
        }
    }

    /// Going on with the code of the pending evaluation as a frame of its own.
    pub open spec fn enter_evaluation(self, heap: Heap, entry: Entry) -> (
        Heap,
        Machine,
        Result<FrameId, Error>,
    ) {
        match self.pending_call {
            Some(PendingCall { request: PendingRequest::Eval { .. }, return_to }) => (Machine {
                pending_call: None,
                ..self
            }).push_entry(
                heap,
                Entry { cold: FrameCold { return_to: Some(return_to), ..entry.cold }, ..entry },
            ),
            _ => (
                heap.retired(entry.cold.entry_guard),
                self,
                Err(Error::internal("no evaluation is pending")),
            ),
        }
    }
}

/// Ask the embedder for an evaluation.
pub fn step(execution: &mut RunningExecution, id: FrameId, count: u16, scope: u32) -> (r: Result<
    CallStep,
    Error,
>)
    ensures
        forall|heap: Heap|
            (heap, final(execution)@, r) == #[trigger] old(execution)@.begin_eval(
                heap,
                id,
                count,
                scope,
            ),
{
    let frame = execution.frames.current(id)?;
    let callee = execution.slots.peek(frame.window, count as usize)?;
    execution.resume_after(frame, Error::internal("evaluation resume PC overflow"))?;
    execution.pending_call = Some(
        PendingCall {
            request: PendingRequest::Eval { callee, count, scope },
            return_to: ReturnTarget {
                value_use: ReturnValue::Push,
                frame: id,
                tail: false,
                operation: Some(OperationTarget::Eval(count)),
            },
        },
    );
    Ok(CallStep::Entered)
}

/// Ask the embedder for an evaluation with a list of arguments.
pub fn apply(runtime: &mut Runtime, execution: &mut RunningExecution, id: FrameId, scope: u32) -> (r:
    Result<CallStep, Error>)
    requires
        old(runtime).wf(),
    ensures
        final(runtime).wf(),
        (final(runtime)@, final(execution)@, r) == old(execution)@.apply_eval(
            old(runtime)@,
            id,
            scope,
        ),
{
    let frame = execution.frames.current(id)?;
    match execution.slots.peek(frame.window, 0)? {
        JsValue::Object(array) => match runtime.prepare_fast_array_arguments(frame.realm, array)? {
            None => Ok(CallStep::Bridge),
            Some(NativeConversion::Throw(value)) => Ok(
                CallStep::Complete(Completion::Throw(value)),
            ),
            Some(NativeConversion::Value(values)) => {
                execution.slots.discard(frame.window, 1)?;
                execution.slots.push_all(&values)?;
                let count: u16 = values.len() as u16;
                assert(count == values@.len() as u16);
                let ghost spread = execution@;
                let r = step(execution, id, count, scope);
                assert((runtime@, execution@, r) == spread.begin_eval(runtime@, id, count, scope));
                r
            },
        },
        _ => Ok(CallStep::Bridge),
    }
}

/// Enter the code of the pending evaluation.  A refused entry ends its
/// activation.
pub fn enter(runtime: &mut Runtime, execution: &mut RunningExecution, entry: FrameEntry) -> (r: Result<
    FrameId,
    Error,
>)
    requires
        old(runtime).wf(),
    ensures
        final(runtime).wf(),
        (final(runtime)@, final(execution)@, r) == old(execution)@.enter_evaluation(
            old(runtime)@,
            entry@,
        ),
{
    match execution.pending_call {
        Some(PendingCall { request: PendingRequest::Eval { .. }, return_to }) => {
            execution.pending_call = None;
            let mut entry = entry;
            entry.cold.return_to = Some(return_to);
            push_frame(runtime, execution, entry)
        },
        _ => {
            runtime.retire_guard(entry.cold.entry_guard);
            Err(Error::internal("no evaluation is pending"))
        },
    }
}

/// The answer to an evaluation takes the place of its callee and arguments.
pub proof fn evaluations_replace_their_operands(
    machine: Machine,
    heap: Heap,
    id: FrameId,
    count: u16,
    scope: u32,
    value: JsValue,
    later: Heap,
)
    requires
        machine.begin_eval(heap, id, count, scope).2 is Ok,
    ensures
        ({
            let window = machine.frames.current(id)->Ok_0.window;
            let begun = machine.begin_eval(heap, id, count, scope).1;
            let (slots, r) = machine.slots.discard(window, (count + 1) as nat);
            &&& begun.slots == machine.slots
            &&& r is Ok ==> begun.answer(later, Completion::Return(value)).1.slots == slots.push(
                value,
            ).0
            &&& r is Ok ==> begun.answer(later, Completion::Throw(value)).1.slots == slots
        }),
{
}

/// The embedder is asked to evaluate with the callee from below the arguments
/// and the scope that the instruction names, and the frame goes on behind it;
/// a spread evaluation has the elements of its list as its arguments.
pub proof fn evaluations_ask_with_their_operands(
    machine: Machine,
    heap: Heap,
    id: FrameId,
    frame: crate::frame::Frame,
    count: u16,
    scope: u32,
    callee: JsValue,
)
    requires
        machine.frames.current(id) == Ok::<crate::frame::Frame, Error>(frame),
        frame.fault_pc < usize::MAX,
        machine.slots.peek(frame.window, count as int) == Ok::<JsValue, Error>(callee),
    ensures
        ({
            let (after, m, r) = machine.begin_eval(heap, id, count, scope);
            &&& after == heap
            &&& r == Ok::<CallStep, Error>(CallStep::Entered)
            &&& m.slots == machine.slots
            &&& m.pending_call matches Some(call) && call.request == (PendingRequest::Eval {
                callee,
                count,
                scope,
            }) && call.return_to.frame == id && call.return_to.operation == Some(
                OperationTarget::Eval(count),
            )
            &&& m.frames.current(id) == Ok::<crate::frame::Frame, Error>(
                crate::frame::Frame { resume_pc: (frame.fault_pc + 1) as usize, ..frame },
            )
        }),
{
}

/// A spread evaluation takes its arguments from the list on top: they replace it
/// on the operands, in their order, above the callee.
pub proof fn spread_evaluations_lay_out_their_list(
    machine: Machine,
    heap: Heap,
    id: FrameId,
    frame: crate::frame::Frame,
    scope: u32,
    array: crate::value::ObjectRef,
    values: Seq<JsValue>,
)
    requires
        machine.frames.current(id) == Ok::<crate::frame::Frame, Error>(frame),
        machine.slots.peek(frame.window, 0) == Ok::<JsValue, Error>(JsValue::Object(array)),
        heap.fast_arguments(frame.realm, array) == (
            heap,
            Ok::<Option<NativeConversion<Seq<JsValue>>>, Error>(
                Some(NativeConversion::Value(values)),
            ),
        ),
        machine.apply_eval(heap, id, scope).2 is Ok,
    ensures
        ({
            let (after, m, r) = machine.apply_eval(heap, id, scope);
            let laid = machine.slots.discard(frame.window, 1).0.push_all(values).0;
            &&& after == heap
            &&& r == Ok::<CallStep, Error>(CallStep::Entered)
            &&& m.slots == laid
            &&& m.pending_call matches Some(call) && (call.request matches PendingRequest::Eval {
                callee,
                count,
                scope: inside,
            } && count == values.len() as u16 && inside == scope && laid.peek(
                frame.window,
                count as int,
            ) == Ok::<JsValue, Error>(callee))
        }),
{
}

/// The code of an evaluation runs as a frame that answers the evaluation; no
/// frame is entered where no evaluation is pending.
pub proof fn evaluated_code_answers_the_evaluation(
    machine: Machine,
    heap: Heap,
    entry: Entry,
    callee: JsValue,
    count: u16,
    scope: u32,
    id: FrameId,
)
    ensures
        machine.pending_call == Some(
            PendingCall {
                request: PendingRequest::Eval { callee, count, scope },
                return_to: ReturnTarget::evaluation(id, count),
            },
        ) && machine.enter_evaluation(heap, entry).2 is Ok ==> {
            let (after, m, r) = machine.enter_evaluation(heap, entry);
            let code = m.frames.frames.last().frame;
            &&& m.pending_call is None
            &&& m.frames.frames.len() == machine.frames.frames.len() + 1
            &&& code.executable == entry.executable
            &&& code.cold.return_to matches Some(target) && target.frame == id && !target.tail
                && target.value_use is Push && target.operation == Some(
                OperationTarget::Eval(count),
            )
        },
        !(machine.pending_call matches Some(call) && call.request is Eval)
            ==> machine.enter_evaluation(heap, entry).1 == machine && machine.enter_evaluation(
            heap,
            entry,
        ).2 is Err,
{
}

} // verus!
