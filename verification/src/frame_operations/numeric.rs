//! One numeric operand transfer shared by all drivers.
use vstd::prelude::*;
use crate::code::NumericKind;
use crate::driver::CallStep;
use crate::error::Error;
use crate::execution::{Machine, PendingCall, PendingRequest, RunningExecution};
use crate::frame::{Frame, FrameId, ReturnTarget, ReturnValue};
use crate::heap::Heap;
use crate::numeric::NumericOutcome;
use crate::runtime::Runtime;
use crate::value::JsValue;

verus! {

#[derive(Clone, Copy, Debug, PartialEq, Eq, Structural)]
pub enum NumericProgress {
    /// The result stands on the operands.
    Completed,
    Deferred(CallStep),
}

impl NumericProgress {
    pub fn into_call_step(self) -> (r: CallStep)
        ensures
            r == (match self {
                NumericProgress::Completed => CallStep::Entered,
                NumericProgress::Deferred(step) => step,
            }),
    {
        match self {
            NumericProgress::Completed => CallStep::Entered,
            NumericProgress::Deferred(step) => step,
        }
    }
}

impl Machine {
    /// Leaving an operator on popped operands to the embedder.
    pub open spec fn defer_numeric(
        self,
        frame: Frame,
        id: FrameId,
        kind: Option<NumericKind>,
        left: JsValue,
        right: Option<JsValue>,
        overflow: Error,
    ) -> (Machine, Result<(), Error>) {
        match self.resumed(frame, overflow) {
            (machine, Err(e)) => (machine, Err(e)),
            (machine, Ok(_)) => (
                Machine {
                    pending_call: Some(
                        PendingCall {
                            request: PendingRequest::Numeric { kind, left, right },
                            return_to: ReturnTarget {
                                value_use: ReturnValue::Push,
                                frame: id,
                                tail: false,
                                operation: None,
                            },
                        },
                    ),
                    ..machine
                },
                Ok(()),
            ),
        }
    }

    /// Pushing the result of an operator.
    pub open spec fn push_result(self, frame: Frame, value: JsValue, overflow: Error) -> (
        Machine,
        Result<(), Error>,
    ) {
        let (slots, r) = self.slots.push(value);
        let machine = Machine { slots, ..self };
        match r {
            Err(e) => (machine, Err(e)),
            Ok(_) => machine.resumed(frame, overflow),
        }
    }

    /// The popped operands of an operator, right before left.
    pub open spec fn numeric_operands(self, frame: Frame, kind: NumericKind) -> (
        Machine,
        Result<(JsValue, Option<JsValue>), Error>,
    ) {
        let (slots, first) = self.slots.pop(frame.window);
        let popped = Machine { slots, ..self };
        match first {
            Err(e) => (popped, Err(e)),
            Ok(top) => if kind.is_unary() {
                (popped, Ok((top, None)))
            } else {
                let (slots, second) = slots.pop(frame.window);
                let popped = Machine { slots, ..self };
                match second {
                    Err(e) => (popped, Err(e)),
                    Ok(left) => (popped, Ok((left, Some(top)))),
                }
            },
        }
    }

    /// An arithmetic or relational operator.
    pub open spec fn numeric_complete(self, heap: Heap, id: FrameId, kind: NumericKind) -> (
        Heap,
        Machine,
        Result<NumericProgress, Error>,
    ) {
        match self.frames.current(id) {
            Err(e) => (heap, self, Err(e)),
            Ok(frame) => match self.numeric_operands(frame, kind) {
                (popped, Err(e)) => (heap, popped, Err(e)),
                (popped, Ok((left, right))) => {
                    let overflow = Error::internal("numeric resume PC overflow");
                    match Heap::numeric(
                        kind,
                        left,
                        match right {
                            Some(right) => right,
                            None => JsValue::Null,
                        },
                    ) {
                        Err(e) => match heap.throw_step(frame.realm, e) {
                            (heap, Err(e)) => (heap, popped, Err(e)),
                            (heap, Ok(step)) => (
                                heap,
                                popped,
                                Ok(NumericProgress::Deferred(step)),
                            ),
                        },
                        Ok(NumericOutcome::Value(value)) => match popped.push_result(
                            frame,
                            value,
                            overflow,
                        ) {
                            (machine, Err(e)) => (heap, machine, Err(e)),
                            (machine, Ok(_)) => (heap, machine, Ok(NumericProgress::Completed)),
                        },
                        Ok(NumericOutcome::Embedder) => match popped.defer_numeric(
                            frame,
                            id,
                            Some(kind),
                            left,
                            right,
                            overflow,
                        ) {
                            (machine, Err(e)) => (heap, machine, Err(e)),
                            (machine, Ok(_)) => (
                                heap,
                                machine,
                                Ok(NumericProgress::Deferred(CallStep::Entered)),
                            ),
                        },
                    }
                },
            },
        }
    }
}

impl RunningExecution {
    /// Leave an operator on popped operands to the embedder.
    pub fn defer_numeric(
        &mut self,
        frame: Frame,
        id: FrameId,
        kind: Option<NumericKind>,
        left: JsValue,
        right: Option<JsValue>,
        overflow: Error,
    ) -> (r: Result<(), Error>)
        requires
            old(self)@.frames.frames.len() > 0,
        ensures
            (final(self)@, r) == old(self)@.defer_numeric(frame, id, kind, left, right, overflow),
    {
        self.resume_after(frame, overflow)?;
        self.pending_call = Some(
            PendingCall {
                request: PendingRequest::Numeric { kind, left, right },
                return_to: ReturnTarget {
                    value_use: ReturnValue::Push,
                    frame: id,
                    tail: false,
                    operation: None,
                },
            },
        );
        Ok(())
    }

    /// Push the result of an operator.
    pub fn push_result(&mut self, frame: Frame, value: JsValue, overflow: Error) -> (r: Result<
        (),
        Error,
    >)
        requires
            old(self)@.frames.frames.len() > 0,
        ensures
            (final(self)@, r) == old(self)@.push_result(frame, value, overflow),
    {
        self.slots.push(value)?;
        self.resume_after(frame, overflow)
    }
}

/// Complete an arithmetic or relational operator.
pub fn complete(
    runtime: &mut Runtime,
    execution: &mut RunningExecution,
    id: FrameId,
    kind: NumericKind,
) -> (r: Result<NumericProgress, Error>)
    requires
        old(runtime).wf(),
    ensures
        final(runtime).wf(),
        (final(runtime)@, final(execution)@, r) == old(execution)@.numeric_complete(
            old(runtime)@,
            id,
            kind,
        ),
{
    let frame = execution.frames.current(id)?;
    let top = execution.slots.pop(frame.window)?;
    let (left, right) = if kind.unary() {
        (top, None)
    } else {
        (execution.slots.pop(frame.window)?, Some(top))
    };
    let overflow = Error::internal("numeric resume PC overflow");
    match Runtime::numeric_primitives(
        kind,
        left,
        match right {
            Some(right) => right,
            None => JsValue::Null,
        },
    ) {
        Err(e) => {
            let step = runtime.throw_step(frame.realm, e)?;
            Ok(NumericProgress::Deferred(step))
        },
        Ok(NumericOutcome::Value(value)) => {
            execution.push_result(frame, value, overflow)?;
            Ok(NumericProgress::Completed)
        },
        Ok(NumericOutcome::Embedder) => {
            execution.defer_numeric(frame, id, Some(kind), left, right, overflow)?;
            Ok(NumericProgress::Deferred(CallStep::Entered))
        },
    }
}

/// A binary operator takes its left operand from below the right one, a unary
/// one works on the top alone.  The result takes the place of the operands and
/// the frame goes on behind the instruction; what the embedder has to compute
/// is asked of it with the operands on their sides.
pub proof fn operators_take_their_operands_in_order(
    machine: Machine,
    heap: Heap,
    id: FrameId,
    kind: NumericKind,
    frame: Frame,
    left: JsValue,
    right: JsValue,
)
    requires
        machine.frames.current(id) == Ok::<Frame, Error>(frame),
        frame.fault_pc < usize::MAX,
        machine.slots.peek(frame.window, 0) == Ok::<JsValue, Error>(right),
        machine.slots.peek(frame.window, 1) == Ok::<JsValue, Error>(left),
        machine.slots.values.len() <= machine.slots.limit,
    ensures
        ({
            let unary = kind is Increment || kind is Decrement || kind is ToNumeric || kind is BitNot
                || kind is Negate;
            let outcome = if unary {
                Heap::numeric(kind, right, JsValue::Null)
            } else {
                Heap::numeric(kind, left, right)
            };
            let rest = machine.slots.values.take(
                machine.slots.values.len() - if unary {
                    1int
                } else {
                    2
                },
            );
            let (after_heap, after, r) = machine.numeric_complete(heap, id, kind);
            &&& outcome is Ok ==> {
                &&& after_heap == heap
                &&& after.frames.current(id) == Ok::<Frame, Error>(
                    Frame { resume_pc: (frame.fault_pc + 1) as usize, ..frame },
                )
            }
            &&& outcome matches Ok(NumericOutcome::Value(value)) ==> {
                &&& r == Ok::<NumericProgress, Error>(NumericProgress::Completed)
                &&& after.slots.values == rest.push(crate::slots::FrameBinding::Direct(value))
                &&& after.pending_call == machine.pending_call
            }
            &&& outcome matches Ok(NumericOutcome::Embedder) ==> {
                &&& r == Ok::<NumericProgress, Error>(NumericProgress::Deferred(CallStep::Entered))
                &&& after.slots.values == rest
                &&& after.pending_call matches Some(call) && call.request == (
                PendingRequest::Numeric {
                    kind: Some(kind),
                    left: if unary {
                        right
                    } else {
                        left
                    },
                    right: if unary {
                        None
                    } else {
                        Some(right)
                    },
                }) && call.return_to.frame == id && call.return_to.value_use is Push
            }
        }),
{
    let one = machine.slots.pop(frame.window).0;
    assert(one.peek(frame.window, 0) == machine.slots.peek(frame.window, 1));
    assert(one.values =~= machine.slots.values.take(machine.slots.values.len() - 1));
    assert(one.values.drop_last() =~= machine.slots.values.take(machine.slots.values.len() - 2));
}

} // verus!
