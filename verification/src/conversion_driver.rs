//! Scheduling for a pending addition, unary plus or property key conversion.
use vstd::prelude::*;
use crate::call::request::{normalize_callback, BytecodeCallRequest, Callback, NormalizedCallback, Request};
use crate::call::CallableExecution;
use crate::code::{FunctionBytecode, FunctionKind, Instruction};
use crate::driver::{callback_request, push_frame};
use crate::error::Error;
use crate::execution::{Machine, PendingCall, PendingRequest, RunningExecution};
use crate::frame::{Frame, FrameCold, FrameId, OperationTarget, ReturnTarget, ReturnValue};
use crate::heap::Heap;
use crate::numeric::NumericOutcome;
use crate::object::OrdinaryRead;
use crate::primitive::{PrimitiveResume, PrimitiveStep, ToPrimitiveHint};
use crate::property_driver::ConvertedRead;
use crate::runtime::Runtime;
use crate::slots::{FrameBinding, Slots};
use crate::value::{CallableRef, Completion, JsValue, NativeConversion};

verus! {

/// A membership test whose key is being converted.
#[derive(Clone, Copy, Debug, PartialEq, Eq, Structural)]
pub struct PredicateInput {
    pub key: JsValue,
    pub target: JsValue,
}

/// A super property access whose key is being converted.
#[derive(Clone, Copy, Debug, PartialEq, Eq, Structural)]
pub struct SuperPropertyInput {
    pub key: JsValue,
    pub receiver: JsValue,
    pub home: JsValue,
    pub operands: usize,
}

/// What is done with the primitive.
#[derive(Clone, Copy, Debug, PartialEq, Eq, Structural)]
pub enum Finish {
    Predicate(PredicateInput),
    SuperProperty(SuperPropertyInput),
    Plus,
    PropertyKey,
    PropertyWrite { base: JsValue, value: JsValue },
    PropertyRead { base: JsValue, keep_receiver: bool, keep_key: bool },
    AddLeft(JsValue),
    AddRight(JsValue),
}

#[derive(Clone, Copy, Debug, PartialEq, Eq, Structural)]
pub struct ConversionWait {
    pub finish: Finish,
    pub identity: u64,
    pub resume: PrimitiveResume,
}

/// A conversion that can go on without a reply.
#[derive(Clone, Copy, Debug)]
pub struct ConversionTask {
    pub finish: Finish,
    pub frame: FrameId,
    pub identity: u64,
    pub step: PrimitiveStep,
}

/// A property write whose key has been converted.
#[derive(Clone, Copy, Debug, PartialEq, Eq, Structural)]
pub struct ConvertedWrite {
    pub base: JsValue,
    pub key: JsValue,
    pub value: JsValue,
}

/// Where a conversion stands.
#[derive(Clone, Copy, Debug)]
pub enum Progress {
    Predicate(PredicateInput),
    SuperProperty(SuperPropertyInput),
    Ready(ConversionTask),
    /// A frame or the embedder works on it.
    Entered,
    Complete(Completion),
    PropertyRead(ConvertedRead),
    PropertyWrite(ConvertedWrite),
}

/// A store that is done together with the addition before it.
#[derive(Clone, Copy, Debug, PartialEq, Eq, Structural)]
pub struct FusedStore {
    pub index: u16,
    pub span: usize,
    pub observable: bool,
}

/// How an operator on primitives ended.
#[derive(Clone, Copy, Debug, PartialEq, Eq, Structural)]
pub enum PrimitiveCompletion {
    Completed,
    Throw(JsValue),
    /// An operand is an object.
    Declined,
    InvalidDomain,
    /// The embedder computes it.
    Deferred,
}

impl Heap {
    /// The completion of an operator; nothing if the embedder computes it.
    pub open spec fn numeric_completion(self, realm: usize, r: Result<NumericOutcome, Error>) -> (
        Heap,
        Result<Option<Completion>, Error>,
    ) {
        match r {
            Ok(NumericOutcome::Value(value)) => (self, Ok(Some(Completion::Return(value)))),
            Ok(NumericOutcome::Embedder) => (self, Ok(None)),
            Err(e) => match self.thrown(realm, e) {
                (heap, Ok(completion)) => (heap, Ok(Some(completion))),
                (heap, Err(e)) => (heap, Err(e)),
            },
        }
    }

    pub open spec fn add_completion(self, realm: usize, left: JsValue, right: JsValue) -> (
        Heap,
        Result<Option<Completion>, Error>,
    ) {
        let (heap, r) = self.sum(left, right);
        heap.numeric_completion(realm, r)
    }

    pub open spec fn plus_completion(self, realm: usize, value: JsValue) -> (
        Heap,
        Result<Option<Completion>, Error>,
    ) {
        self.numeric_completion(realm, Heap::plus(value))
    }
}

impl Runtime {
    fn numeric_completion(&mut self, realm: usize, r: Result<NumericOutcome, Error>) -> (c: Result<
        Option<Completion>,
        Error,
    >)
        requires
            old(self).wf(),
        ensures
            final(self).wf(),
            (final(self)@, c) == old(self)@.numeric_completion(realm, r),
    {
        match r {
            Ok(NumericOutcome::Value(value)) => Ok(Some(Completion::Return(value))),
            Ok(NumericOutcome::Embedder) => Ok(None),
            Err(e) => {
                let completion = self.throw_error(realm, e)?;
                Ok(Some(completion))
            },
        }
    }
}

/// The completion of an addition of primitives.
pub fn add_completion(runtime: &mut Runtime, realm: usize, left: JsValue, right: JsValue) -> (r:
    Result<Option<Completion>, Error>)
    requires
        old(runtime).wf(),
    ensures
        final(runtime).wf(),
        (final(runtime)@, r) == old(runtime)@.add_completion(realm, left, right),
{
    let outcome = runtime.add_primitives(left, right);
    runtime.numeric_completion(realm, outcome)
}

impl Machine {
    /// The operands of an addition or a unary plus: the left one, if there is
    /// one, and the right one.
    pub open spec fn conversion_operands(self, frame: Frame, addition: bool) -> Result<
        (Option<JsValue>, JsValue),
        Error,
    > {
        let left = if addition {
            match self.slots.peek(frame.window, 1) {
                Err(e) => Err(e),
                Ok(value) => Ok(Some(value)),
            }
        } else {
            Ok(None)
        };
        match (left, self.slots.peek(frame.window, 0)) {
            (Err(e), _) => Err(e),
            (_, Err(e)) => Err(e),
            (Ok(left), Ok(right)) => Ok((left, right)),
        }
    }

    /// An addition or a unary plus of primitives.  The identity counter is
    /// advanced once the operands are known to belong here.
    pub open spec fn complete_primitives(
        self,
        heap: Heap,
        id: FrameId,
        addition: bool,
        next_operation: u64,
    ) -> (Heap, Machine, u64, Result<PrimitiveCompletion, Error>) {
        match self.frames.current(id) {
            Err(e) => (heap, self, next_operation, Err(e)),
            Ok(frame) => match self.conversion_operands(frame, addition) {
                Err(e) => (heap, self, next_operation, Err(e)),
                Ok((left, right)) => if !heap.in_domain(right) || (left matches Some(left)
                    && !heap.in_domain(left)) {
                    (heap, self, next_operation, Ok(PrimitiveCompletion::InvalidDomain))
                } else if next_operation == u64::MAX {
                    (
                        heap,
                        self,
                        next_operation,
                        Err(Error::internal("conversion identity exhausted")),
                    )
                } else {
                    let next = (next_operation + 1) as u64;
                    match self.fused_store(heap, frame, addition) {
                        Err(e) => (heap, self, next, Err(e)),
                        Ok(store) => if right is Object || (left matches Some(left)
                            && left is Object) {
                            (heap, self, next, Ok(PrimitiveCompletion::Declined))
                        } else {
                            let (heap, machine, r) = self.primitives_computed(
                                heap,
                                id,
                                frame,
                                left,
                                right,
                                store,
                            );
                            (heap, machine, next, r)
                        },
                    }
                },
            },
        }
    }

    /// The store that is done together with the addition of the current frame,
    /// where its local is not shared.
    pub open spec fn fused_store(self, heap: Heap, frame: Frame, addition: bool) -> Result<
        Option<FusedStore>,
        Error,
    > {
        match heap.function_at(frame.executable) {
            Err(e) => Err(e),
            Ok(function) => match function.add_store(frame.fault_pc) {
                Some((index, span)) => if !addition {
                    Ok(None)
                } else {
                    match self.slots.local(frame.window, index) {
                        Err(e) => Err(e),
                        Ok(FrameBinding::Direct(old)) => Ok(
                            Some(
                                FusedStore {
                                    index,
                                    span,
                                    observable: old is Object || old is Symbol,
                                },
                            ),
                        ),
                        Ok(_) => Ok(None),
                    }
                },
                None => Ok(None),
            },
        }
    }

    /// Publishing the position of a store.
    pub open spec fn publish_store(self, heap: Heap, frame: Frame, at: usize) -> (
        Heap,
        Machine,
        Result<(), Error>,
    ) {
        let (heap, r) = heap.pc_updated(frame.cold.active_frame, at);
        (
            heap,
            Machine {
                frames: self.frames.stored(Frame { fault_pc: at, resume_pc: at, ..frame }),
                ..self
            },
            r,
        )
    }

    /// Storing a sum in a local.  Giving up an old object or symbol can be
    /// observed, so the position of the store is published first.
    pub open spec fn store_sum(self, heap: Heap, frame: Frame, value: JsValue, store: FusedStore) -> (
        Heap,
        Machine,
        Result<PrimitiveCompletion, Error>,
    ) {
        let at = (frame.fault_pc + 1) as usize;
        let (heap, machine, r) = if store.observable {
            self.publish_store(heap, frame, at)
        } else {
            (heap, self, Ok(()))
        };
        match r {
            Err(e) => (heap, machine, Err(e)),
            Ok(_) => match machine.slots.set_local(
                frame.window,
                store.index,
                FrameBinding::Direct(value),
            ) {
                (slots, Err(e)) => (heap, Machine { slots, ..machine }, Err(e)),
                (slots, Ok(_)) => (
                    heap,
                    Machine {
                        slots,
                        frames: machine.frames.stored(
                            Frame {
                                fault_pc: (at + store.span - 2) as usize,
                                resume_pc: (at + store.span - 1) as usize,
                                ..frame
                            },
                        ),
                        ..machine
                    },
                    Ok(PrimitiveCompletion::Completed),
                ),
            },
        }
    }

    pub open spec fn primitives_computed(
        self,
        heap: Heap,
        id: FrameId,
        frame: Frame,
        left: Option<JsValue>,
        right: JsValue,
        store: Option<FusedStore>,
    ) -> (Heap, Machine, Result<PrimitiveCompletion, Error>) {
        let (slots, r) = self.slots.discard(
            frame.window,
            if left is Some {
                2
            } else {
                1
            },
        );
        let popped = Machine { slots, ..self };
        let overflow = Error::internal("conversion resume PC overflow");
        match r {
            Err(e) => (heap, popped, Err(e)),
            Ok(_) => match (match left {
                Some(left) => heap.add_completion(frame.realm, left, right),
                None => heap.plus_completion(frame.realm, right),
            }) {
                (heap, Err(e)) => (heap, popped, Err(e)),
                (heap, Ok(Some(Completion::Throw(value)))) => (
                    heap,
                    popped,
                    Ok(PrimitiveCompletion::Throw(value)),
                ),
                (heap, Ok(Some(Completion::Return(value)))) => match store {
                    Some(store) => popped.store_sum(heap, frame, value, store),
                    None => match popped.push_result(frame, value, overflow) {
                        (machine, Err(e)) => (heap, machine, Err(e)),
                        (machine, Ok(_)) => (heap, machine, Ok(PrimitiveCompletion::Completed)),
                    },
                },
                (heap, Ok(None)) => match popped.defer_sum(frame, id, left, right, overflow) {
                    (machine, Err(e)) => (heap, machine, Err(e)),
                    (machine, Ok(_)) => (heap, machine, Ok(PrimitiveCompletion::Deferred)),
                },
            },
        }
    }

    /// Leaving an addition or a unary plus to the embedder.
    pub open spec fn defer_sum(
        self,
        frame: Frame,
        id: FrameId,
        left: Option<JsValue>,
        right: JsValue,
        overflow: Error,
    ) -> (Machine, Result<(), Error>) {
        match left {
            Some(left) => self.defer_numeric(frame, id, None, left, Some(right), overflow),
            None => self.defer_numeric(frame, id, None, right, None, overflow),
        }
    }

    /// Starting the conversion of the operands of an addition, a unary plus or
    /// a property key.
    pub open spec fn start_conversion(
        self,
        heap: Heap,
        id: FrameId,
        identity: u64,
        addition: bool,
        property_key: bool,
    ) -> (Machine, Result<ConversionTask, Error>) {
        match self.frames.current(id) {
            Err(e) => (self, Err(e)),
            Ok(frame) => {
                let (slots, top) = self.slots.pop(frame.window);
                let popped = Machine { slots, ..self };
                match top {
                    Err(e) => (popped, Err(e)),
                    Ok(right) => if addition {
                        let (slots, below) = slots.pop(frame.window);
                        let popped = Machine { slots, ..self };
                        match below {
                            Err(e) => (popped, Err(e)),
                            Ok(left) => (
                                popped,
                                Ok(
                                    ConversionTask::begin(
                                        heap,
                                        Finish::AddLeft(right),
                                        id,
                                        identity,
                                        frame.realm,
                                        left,
                                        ToPrimitiveHint::Default,
                                    ),
                                ),
                            ),
                        }
                    } else {
                        (
                            popped,
                            Ok(
                                ConversionTask::begin(
                                    heap,
                                    if property_key {
                                        Finish::PropertyKey
                                    } else {
                                        Finish::Plus
                                    },
                                    id,
                                    identity,
                                    frame.realm,
                                    right,
                                    if property_key {
                                        ToPrimitiveHint::String
                                    } else {
                                        ToPrimitiveHint::Number
                                    },
                                ),
                            ),
                        )
                    },
                }
            },
        }
    }

    /// Starting the key conversion of a property write.
    pub open spec fn start_property_write(self, heap: Heap, id: FrameId, identity: u64) -> (
        Machine,
        Result<ConversionTask, Error>,
    ) {
        match self.frames.current(id) {
            Err(e) => (self, Err(e)),
            Ok(frame) => match self.slots.top(frame.window, 3) {
                Err(e) => (self, Err(e)),
                Ok(list) => match (
                    heap.domain_check(list[0], "property receiver"),
                    heap.domain_check(list[1], "property key"),
                    heap.domain_check(list[2], "property value"),
                ) {
                    (Err(e), _, _) => (self, Err(e)),
                    (_, Err(e), _) => (self, Err(e)),
                    (_, _, Err(e)) => (self, Err(e)),
                    _ => {
                        let (slots, r) = self.slots.discard(frame.window, 3);
                        let popped = Machine { slots, ..self };
                        match r {
                            Err(e) => (popped, Err(e)),
                            Ok(_) => (
                                popped,
                                Ok(
                                    ConversionTask::begin(
                                        heap,
                                        Finish::PropertyWrite { base: list[0], value: list[2] },
                                        id,
                                        identity,
                                        frame.realm,
                                        list[1],
                                        ToPrimitiveHint::String,
                                    ),
                                ),
                            ),
                        }
                    },
                },
            },
        }
    }

    /// Starting the key conversion of a property read.
    pub open spec fn start_property_read(
        self,
        heap: Heap,
        id: FrameId,
        identity: u64,
        keep_receiver: bool,
        keep_key: bool,
    ) -> (Machine, Result<ConversionTask, Error>) {
        match self.frames.current(id) {
            Err(e) => (self, Err(e)),
            Ok(frame) => match self.slots.top(frame.window, 2) {
                Err(e) => (self, Err(e)),
                Ok(list) => match (
                    heap.domain_check(list[0], "property receiver"),
                    heap.domain_check(list[1], "property key"),
                ) {
                    (Err(e), _) => (self, Err(e)),
                    (_, Err(e)) => (self, Err(e)),
                    _ => {
                        let (slots, r) = self.slots.discard(frame.window, 2);
                        let popped = Machine { slots, ..self };
                        match r {
                            Err(e) => (popped, Err(e)),
                            Ok(_) => (
                                popped,
                                Ok(
                                    ConversionTask::begin(
                                        heap,
                                        Finish::PropertyRead {
                                            base: list[0],
                                            keep_receiver,
                                            keep_key,
                                        },
                                        id,
                                        identity,
                                        frame.realm,
                                        list[1],
                                        ToPrimitiveHint::String,
                                    ),
                                ),
                            ),
                        }
                    },
                },
            },
        }
    }

    /// The frame whose conversion a completion answers, without its wait.
    pub open spec fn conversion_taken(self, frame: Frame) -> Machine {
        Machine {
            frames: self.frames.stored(
                Frame { cold: FrameCold { conversion: None, ..frame.cold }, ..frame },
            ),
            ..self
        }
    }

    /// Answering a waiting conversion.
    pub open spec fn conversion_reply(
        self,
        heap: Heap,
        target: ReturnTarget,
        completion: Completion,
    ) -> (Heap, Machine, Result<ConversionTask, Error>) {
        match self.frames.current(target.frame) {
            Err(e) => (heap, self, Err(e)),
            Ok(frame) => match frame.cold.conversion {
                None => (
                    heap,
                    self,
                    Err(Error::internal("conversion reply has no pending owner")),
                ),
                Some(wait) => if target.operation != Some(
                    OperationTarget::Conversion(wait.identity),
                ) {
                    (
                        heap,
                        self.conversion_taken(frame),
                        Err(Error::internal("conversion reply identity mismatch")),
                    )
                } else {
                    let (heap, r) = ConversionTask::resumed(heap, target.frame, wait, completion);
                    (heap, self.conversion_taken(frame), r)
                },
            },
        }
    }

    /// Waiting for a reply to a conversion.
    pub open spec fn await_conversion(self, frame: Frame, wait: ConversionWait) -> Machine {
        Machine {
            frames: self.frames.stored(
                Frame { cold: FrameCold { conversion: Some(wait), ..frame.cold }, ..frame },
            ),
            ..self
        }
    }

    /// Calling a conversion method.
    pub open spec fn invoke_conversion(
        self,
        heap: Heap,
        task: ConversionTask,
        callable: CallableRef,
        receiver: JsValue,
        arguments: Seq<JsValue>,
        resume: PrimitiveResume,
    ) -> (Heap, Machine, Result<Progress, Error>) {
        match self.frames.current(task.frame) {
            Err(e) => (heap, self, Err(e)),
            Ok(frame) => match heap.normalize(
                frame.realm,
                callable,
                receiver,
                arguments,
                heap.objects.len(),
            ) {
                (heap, Err(e)) => (heap, self, Err(e)),
                (heap, Ok(NativeConversion::Throw(value))) => {
                    let (heap, r) = task.ready(heap, resume, Completion::Throw(value));
                    (heap, self, r)
                },
                (heap, Ok(NativeConversion::Value(callback))) => self.enter_conversion(
                    heap,
                    task,
                    frame,
                    callback,
                    resume,
                ),
            },
        }
    }

    pub open spec fn enter_conversion(
        self,
        heap: Heap,
        task: ConversionTask,
        frame: Frame,
        callback: Callback,
        resume: PrimitiveResume,
    ) -> (Heap, Machine, Result<Progress, Error>) {
        let wait = ConversionWait { finish: task.finish, identity: task.identity, resume };
        let return_to = ReturnTarget {
            value_use: ReturnValue::Push,
            frame: task.frame,
            tail: false,
            operation: Some(OperationTarget::Conversion(task.identity)),
        };
        match callback.classification {
            CallableExecution::Bytecode { bytecode, start, count } => match heap.function_at(
                bytecode,
            ) {
                Err(e) => (heap, self, Err(e)),
                Ok(function) => if !(function.metadata.function_kind is Normal) {
                    self.pend_conversion(heap, frame, callback, wait, return_to)
                } else if !self.frames.can_push() || heap.would_overflow() {
                    match heap.overflow(frame.realm) {
                        (heap, Err(e)) => (heap, self, Err(e)),
                        (heap, Ok(completion)) => {
                            let (heap, r) = task.ready(heap, resume, completion);
                            (heap, self, r)
                        },
                    }
                } else {
                    match heap.request_entry(
                        Request {
                            callable: callback.callable,
                            receiver: callback.receiver,
                            new_target: JsValue::Undefined,
                            arguments: callback.arguments,
                            bytecode,
                            closure_count: count,
                            caller_realm: frame.realm,
                            return_to,
                        },
                    ) {
                        (heap, Err(e)) => (heap, self, Err(e)),
                        (heap, Ok(entry)) => if frame.cold.conversion is Some {
                            (
                                heap.retired(entry.cold.entry_guard),
                                self,
                                Err(Error::internal("conversion overwrote an unanswered request")),
                            )
                        } else {
                            match self.await_conversion(frame, wait).push_entry(heap, entry) {
                                (heap, machine, Err(e)) => (heap, machine, Err(e)),
                                (heap, machine, Ok(_)) => (heap, machine, Ok(Progress::Entered)),
                            }
                        },
                    }
                },
            },
            _ => self.pend_conversion(heap, frame, callback, wait, return_to),
        }
    }

    /// Leaving a conversion method to the embedder.
    pub open spec fn pend_conversion(
        self,
        heap: Heap,
        frame: Frame,
        callback: Callback,
        wait: ConversionWait,
        return_to: ReturnTarget,
    ) -> (Heap, Machine, Result<Progress, Error>) {
        if frame.cold.conversion is Some {
            (heap, self, Err(Error::internal("conversion overwrote an unanswered request")))
        } else {
            let (slots, r) = self.slots.push_all(callback.arguments);
            let machine = Machine { slots, ..self };
            match r {
                Err(e) => (heap, machine, Err(e)),
                Ok(_) => (
                    heap,
                    Machine {
                        pending_call: Some(
                            PendingCall {
                                request: Machine::callback_request(frame.realm, callback),
                                return_to,
                            },
                        ),
                        ..machine.await_conversion(frame, wait)
                    },
                    Ok(Progress::Entered),
                ),
            }
        }
    }

    /// One step of a conversion.
    pub open spec fn advance_conversion(self, heap: Heap, task: ConversionTask) -> (
        Heap,
        Machine,
        Result<Progress, Error>,
    ) {
        match self.frames.current(task.frame) {
            Err(e) => (heap, self, Err(e)),
            Ok(frame) => match task.step {
                PrimitiveStep::Complete(Completion::Throw(value)) => (
                    heap,
                    self,
                    Ok(Progress::Complete(Completion::Throw(value))),
                ),
                PrimitiveStep::Complete(Completion::Return(value)) => if value is Object {
                    (heap, self, Err(Error::internal("conversion returned an object")))
                } else {
                    self.finish_conversion(heap, task, frame, value)
                },
                PrimitiveStep::Get { object, key, resume } => match heap.ordinary_read(
                    object,
                    key,
                    JsValue::Object(object),
                ) {
                    Err(e) => (heap, self, Err(e)),
                    Ok(OrdinaryRead::Call { getter, receiver }) => self.invoke_conversion(
                        heap,
                        task,
                        getter,
                        receiver,
                        Seq::empty(),
                        resume,
                    ),
                    Ok(OrdinaryRead::Complete(value)) => {
                        let (heap, r) = task.ready(
                            heap,
                            resume,
                            Completion::Return(
                                match value {
                                    Some(value) => value,
                                    None => JsValue::Undefined,
                                },
                            ),
                        );
                        (heap, self, r)
                    },
                    Ok(OrdinaryRead::Special { object: holder, receiver }) => if frame.cold.conversion is Some {
                        (
                            heap,
                            self,
                            Err(Error::internal("conversion overwrote an unanswered request")),
                        )
                    } else {
                        (
                            heap,
                            Machine {
                                pending_call: Some(
                                    PendingCall {
                                        request: PendingRequest::Get { object: holder, key, receiver },
                                        return_to: ReturnTarget {
                                            value_use: ReturnValue::Push,
                                            frame: task.frame,
                                            tail: false,
                                            operation: Some(
                                                OperationTarget::Conversion(task.identity),
                                            ),
                                        },
                                    },
                                ),
                                ..self.await_conversion(
                                    frame,
                                    ConversionWait {
                                        finish: task.finish,
                                        identity: task.identity,
                                        resume,
                                    },
                                )
                            },
                            Ok(Progress::Entered),
                        )
                    },
                },
                PrimitiveStep::Call { callable, receiver, argument, resume } =>
                    self.invoke_conversion(
                    heap,
                    task,
                    callable,
                    receiver,
                    match argument {
                        Some(argument) => seq![argument],
                        None => Seq::empty(),
                    },
                    resume,
                ),
            },
        }
    }

    /// What is done with the primitive that a conversion gave.
    pub open spec fn finish_conversion(
        self,
        heap: Heap,
        task: ConversionTask,
        frame: Frame,
        value: JsValue,
    ) -> (Heap, Machine, Result<Progress, Error>) {
        match task.finish {
            Finish::AddLeft(right) => if right is Object {
                (
                    heap,
                    self,
                    Ok(
                        Progress::Ready(
                            ConversionTask::begin(
                                heap,
                                Finish::AddRight(value),
                                task.frame,
                                task.identity,
                                frame.realm,
                                right,
                                ToPrimitiveHint::Default,
                            ),
                        ),
                    ),
                )
            } else {
                self.conversion_computed(
                    heap.add_completion(frame.realm, value, right),
                    task,
                    frame,
                    Some(value),
                    right,
                )
            },
            Finish::AddRight(left) => self.conversion_computed(
                heap.add_completion(frame.realm, left, value),
                task,
                frame,
                Some(left),
                value,
            ),
            Finish::Plus => self.conversion_computed(
                heap.plus_completion(frame.realm, value),
                task,
                frame,
                None,
                value,
            ),
            Finish::Predicate(input) => (
                heap,
                self,
                Ok(Progress::Predicate(PredicateInput { key: value, ..input })),
            ),
            Finish::SuperProperty(input) => (
                heap,
                self,
                Ok(Progress::SuperProperty(SuperPropertyInput { key: value, ..input })),
            ),
            Finish::PropertyWrite { base, value: assigned } => (
                heap,
                self,
                Ok(Progress::PropertyWrite(ConvertedWrite { base, key: value, value: assigned })),
            ),
            Finish::PropertyRead { base, keep_receiver, keep_key } => (
                heap,
                self,
                Ok(
                    Progress::PropertyRead(
                        ConvertedRead { base, key: value, keep_receiver, keep_key },
                    ),
                ),
            ),
            Finish::PropertyKey => match heap.canonical_key(value) {
                (heap, Err(e)) => (heap, self, Err(e)),
                (heap, Ok(key)) => (
                    heap,
                    self,
                    Ok(Progress::Complete(Completion::Return(key.as_value()))),
                ),
            },
        }
    }

    pub open spec fn conversion_computed(
        self,
        outcome: (Heap, Result<Option<Completion>, Error>),
        task: ConversionTask,
        frame: Frame,
        left: Option<JsValue>,
        right: JsValue,
    ) -> (Heap, Machine, Result<Progress, Error>) {
        match outcome.1 {
            Err(e) => (outcome.0, self, Err(e)),
            Ok(Some(completion)) => (outcome.0, self, Ok(Progress::Complete(completion))),
            Ok(None) => match self.defer_sum(
                frame,
                task.frame,
                left,
                right,
                Error::internal("conversion resume PC overflow"),
            ) {
                (machine, Err(e)) => (outcome.0, machine, Err(e)),
                (machine, Ok(_)) => (outcome.0, machine, Ok(Progress::Entered)),
            },
        }
    }
}

impl ConversionTask {
    pub open spec fn begin(
        heap: Heap,
        finish: Finish,
        frame: FrameId,
        identity: u64,
        realm: usize,
        value: JsValue,
        hint: ToPrimitiveHint,
    ) -> ConversionTask {
        ConversionTask {
            finish,
            frame,
            identity,
            step: PrimitiveResume::start_spec(heap, realm, value, hint),
        }
    }

    pub open spec fn resumed(
        heap: Heap,
        frame: FrameId,
        wait: ConversionWait,
        completion: Completion,
    ) -> (Heap, Result<ConversionTask, Error>) {
        match wait.resume.resume_spec(heap, completion) {
            (heap, Err(e)) => (heap, Err(e)),
            (heap, Ok(step)) => (
                heap,
                Ok(ConversionTask { finish: wait.finish, frame, identity: wait.identity, step }),
            ),
        }
    }

    /// Going on with what a step gave.
    pub open spec fn ready(self, heap: Heap, resume: PrimitiveResume, completion: Completion) -> (
        Heap,
        Result<Progress, Error>,
    ) {
        match resume.resume_spec(heap, completion) {
            (heap, Err(e)) => (heap, Err(e)),
            (heap, Ok(step)) => (heap, Ok(Progress::Ready(ConversionTask { step, ..self }))),
        }
    }

    /// How many operands the converted instruction had.
    pub fn operand_count(&self) -> (r: usize)
        ensures
            r == (match self.finish {
                Finish::SuperProperty(input) => input.operands,
                Finish::Plus => 1usize,
                Finish::PropertyKey => 1usize,
                Finish::PropertyWrite { .. } => 3usize,
                _ => 2usize,
            }),
    {
        match self.finish {
            Finish::SuperProperty(input) => input.operands,
            Finish::Plus => 1,
            Finish::PropertyKey => 1,
            Finish::PropertyWrite { .. } => 3,
            _ => 2,
        }
    }

    fn make(
        runtime: &Runtime,
        finish: Finish,
        frame: FrameId,
        identity: u64,
        realm: usize,
        value: JsValue,
        hint: ToPrimitiveHint,
    ) -> (r: ConversionTask)
        ensures
            r == ConversionTask::begin(
                runtime@,
                finish,
                frame,
                identity,
                realm,
                value,
                hint,
            ),
    {
        ConversionTask {
            finish,
            frame,
            identity,
            step: PrimitiveResume::start(runtime, realm, value, hint),
        }
    }

    /// Start converting the operands of an addition, a unary plus or a
    /// property key.
    pub fn start(
        runtime: &Runtime,
        execution: &mut RunningExecution,
        frame: FrameId,
        identity: u64,
        addition: bool,
        property_key: bool,
    ) -> (r: Result<Self, Error>)
        ensures
            (final(execution)@, r) == old(execution)@.start_conversion(
                runtime@,
                frame,
                identity,
                addition,
                property_key,
            ),
    {
        let parent = execution.frames.current(frame)?;
        let right = execution.slots.pop(parent.window)?;
        let (value, finish, hint) = if addition {
            (
                execution.slots.pop(parent.window)?,
                Finish::AddLeft(right),
                ToPrimitiveHint::Default,
            )
        } else if property_key {
            (right, Finish::PropertyKey, ToPrimitiveHint::String)
        } else {
            (right, Finish::Plus, ToPrimitiveHint::Number)
        };
        Ok(ConversionTask::make(runtime, finish, frame, identity, parent.realm, value, hint))
    }

    /// Start converting the key of a membership test.
    pub fn start_predicate(
        runtime: &Runtime,
        execution: &RunningExecution,
        frame: FrameId,
        identity: u64,
        input: PredicateInput,
    ) -> (r: Result<Self, Error>)
        ensures
            r == (match execution@.frames.current(frame) {
                Err(e) => Err(e),
                Ok(parent) => Ok(
                    ConversionTask::begin(
                        runtime@,
                        Finish::Predicate(input),
                        frame,
                        identity,
                        parent.realm,
                        input.key,
                        ToPrimitiveHint::String,
                    ),
                ),
            }),
    {
        let parent = execution.frames.current(frame)?;
        Ok(
            ConversionTask::make(
                runtime,
                Finish::Predicate(input),
                frame,
                identity,
                parent.realm,
                input.key,
                ToPrimitiveHint::String,
            ),
        )
    }

    /// Start converting the key of a super property access.
    pub fn start_super_property(
        runtime: &Runtime,
        execution: &RunningExecution,
        frame: FrameId,
        identity: u64,
        input: SuperPropertyInput,
    ) -> (r: Result<Self, Error>)
        ensures
            r == (match execution@.frames.current(frame) {
                Err(e) => Err(e),
                Ok(parent) => Ok(
                    ConversionTask::begin(
                        runtime@,
                        Finish::SuperProperty(input),
                        frame,
                        identity,
                        parent.realm,
                        input.key,
                        ToPrimitiveHint::String,
                    ),
                ),
            }),
    {
        let parent = execution.frames.current(frame)?;
        Ok(
            ConversionTask::make(
                runtime,
                Finish::SuperProperty(input),
                frame,
                identity,
                parent.realm,
                input.key,
                ToPrimitiveHint::String,
            ),
        )
    }

    /// Start converting the key of a property write.
    pub fn start_property_write(
        runtime: &Runtime,
        execution: &mut RunningExecution,
        frame: FrameId,
        identity: u64,
    ) -> (r: Result<Self, Error>)
        ensures
            (final(execution)@, r) == old(execution)@.start_property_write(
                runtime@,
                frame,
                identity,
            ),
    {
        let parent = execution.frames.current(frame)?;
        let list = execution.slots.top(parent.window, 3)?;
        proof {
            crate::slots::top_is_whole(execution@.slots, parent.window, 3);
        }
        runtime.validate_value_domain(list[0], "property receiver")?;
        runtime.validate_value_domain(list[1], "property key")?;
        runtime.validate_value_domain(list[2], "property value")?;
        execution.slots.discard(parent.window, 3)?;
        Ok(
            ConversionTask::make(
                runtime,
                Finish::PropertyWrite { base: list[0], value: list[2] },
                frame,
                identity,
                parent.realm,
                list[1],
                ToPrimitiveHint::String,
            ),
        )
    }

    /// Start converting the key of a property read.
    pub fn start_property_read(
        runtime: &Runtime,
        execution: &mut RunningExecution,
        frame: FrameId,
        identity: u64,
        keep_receiver: bool,
        keep_key: bool,
    ) -> (r: Result<Self, Error>)
        ensures
            (final(execution)@, r) == old(execution)@.start_property_read(
                runtime@,
                frame,
                identity,
                keep_receiver,
                keep_key,
            ),
    {
        let parent = execution.frames.current(frame)?;
        let list = execution.slots.top(parent.window, 2)?;
        proof {
            crate::slots::top_is_whole(execution@.slots, parent.window, 2);
        }
        runtime.validate_value_domain(list[0], "property receiver")?;
        runtime.validate_value_domain(list[1], "property key")?;
        execution.slots.discard(parent.window, 2)?;
        Ok(
            ConversionTask::make(
                runtime,
                Finish::PropertyRead { base: list[0], keep_receiver, keep_key },
                frame,
                identity,
                parent.realm,
                list[1],
                ToPrimitiveHint::String,
            ),
        )
    }

    /// Answer a waiting conversion.  A reply to another request is refused.
    pub fn reply(
        runtime: &mut Runtime,
        execution: &mut RunningExecution,
        target: ReturnTarget,
        completion: Completion,
    ) -> (r: Result<Self, Error>)
        requires
            old(runtime).wf(),
        ensures
            final(runtime).wf(),
            (final(runtime)@, final(execution)@, r) == old(execution)@.conversion_reply(
                old(runtime)@,
                target,
                completion,
            ),
    {
        let mut parent = execution.frames.current(target.frame)?;
        let wait = match parent.cold.conversion {
            Some(wait) => wait,
            None => {
                return Err(Error::internal("conversion reply has no pending owner"));
            },
        };
        parent.cold.conversion = None;
        execution.frames.store(parent);
        if target.operation != Some(OperationTarget::Conversion(wait.identity)) {
            return Err(Error::internal("conversion reply identity mismatch"));
        }
        ConversionTask::from_wait(runtime, target.frame, wait, completion)
    }

    /// Go on with a conversion that got its reply.
    pub fn from_wait(
        runtime: &mut Runtime,
        frame: FrameId,
        wait: ConversionWait,
        completion: Completion,
    ) -> (r: Result<Self, Error>)
        requires
            old(runtime).wf(),
        ensures
            final(runtime).wf(),
            (final(runtime)@, r) == ConversionTask::resumed(
                old(runtime)@,
                frame,
                wait,
                completion,
            ),
    {
        let step = wait.resume.resume(runtime, completion)?;
        Ok(ConversionTask { finish: wait.finish, frame, identity: wait.identity, step })
    }

    fn go_on(self, runtime: &mut Runtime, resume: PrimitiveResume, completion: Completion) -> (r: Result<
        Progress,
        Error,
    >)
        requires
            old(runtime).wf(),
        ensures
            final(runtime).wf(),
            (final(runtime)@, r) == self.ready(old(runtime)@, resume, completion),
    {
        let step = resume.resume(runtime, completion)?;
        Ok(
            Progress::Ready(
                ConversionTask {
                    finish: self.finish,
                    frame: self.frame,
                    identity: self.identity,
                    step,
                },
            ),
        )
    }

    /// One step of a conversion.
    pub fn advance(self, runtime: &mut Runtime, execution: &mut RunningExecution) -> (r: Result<
        Progress,
        Error,
    >)
        requires
            old(runtime).wf(),
        ensures
            final(runtime).wf(),
            (final(runtime)@, final(execution)@, r) == old(execution)@.advance_conversion(
                old(runtime)@,
                self,
            ),
    {
        let frame = execution.frames.current(self.frame)?;
        match self.step {
            PrimitiveStep::Complete(Completion::Throw(value)) => Ok(
                Progress::Complete(Completion::Throw(value)),
            ),
            PrimitiveStep::Complete(Completion::Return(value)) => {
                if value.is_object() {
                    return Err(Error::internal("conversion returned an object"));
                }
                self.finish_with(runtime, execution, frame, value)
            },
            PrimitiveStep::Get { object, key, resume } => {
                match runtime.prepare_ordinary_read(object, key, JsValue::Object(object))? {
                    OrdinaryRead::Call { getter, receiver } => invoke(
                        runtime,
                        execution,
                        self,
                        getter,
                        receiver,
                        Vec::new(),
                        resume,
                    ),
                    OrdinaryRead::Complete(value) => self.go_on(
                        runtime,
                        resume,
                        Completion::Return(
                            match value {
                                Some(value) => value,
                                None => JsValue::Undefined,
                            },
                        ),
                    ),
                    OrdinaryRead::Special { object: holder, receiver } => {
                        if frame.cold.conversion.is_some() {
                            return Err(
                                Error::internal("conversion overwrote an unanswered request"),
                            );
                        }
                        execution.await_conversion(
                            frame,
                            ConversionWait { finish: self.finish, identity: self.identity, resume },
                        );
                        execution.pending_call = Some(
                            PendingCall {
                                request: PendingRequest::Get { object: holder, key, receiver },
                                return_to: ReturnTarget {
                                    value_use: ReturnValue::Push,
                                    frame: self.frame,
                                    tail: false,
                                    operation: Some(OperationTarget::Conversion(self.identity)),
                                },
                            },
                        );
                        Ok(Progress::Entered)
                    },
                }
            },
            PrimitiveStep::Call { callable, receiver, argument, resume } => {
                let mut arguments: Vec<JsValue> = Vec::new();
                match argument {
                    Some(argument) => {
                        arguments.push(argument);
                    },
                    None => {},
                }
                assert(arguments@ =~= match argument {
                    Some(argument) => seq![argument],
                    None => Seq::empty(),
                });
                invoke(runtime, execution, self, callable, receiver, arguments, resume)
            },
        }
    }

    fn finish_with(
        self,
        runtime: &mut Runtime,
        execution: &mut RunningExecution,
        frame: Frame,
        value: JsValue,
    ) -> (r: Result<Progress, Error>)
        requires
            old(runtime).wf(),
            old(execution)@.frames.frames.len() > 0,
        ensures
            final(runtime).wf(),
            (final(runtime)@, final(execution)@, r) == old(execution)@.finish_conversion(
                old(runtime)@,
                self,
                frame,
                value,
            ),
    {
        match self.finish {
            Finish::AddLeft(right) => {
                if right.is_object() {
                    return Ok(
                        Progress::Ready(
                            ConversionTask::make(
                                runtime,
                                Finish::AddRight(value),
                                self.frame,
                                self.identity,
                                frame.realm,
                                right,
                                ToPrimitiveHint::Default,
                            ),
                        ),
                    );
                }
                let outcome = add_completion(runtime, frame.realm, value, right);
                self.computed(execution, outcome, frame, Some(value), right)
            },
            Finish::AddRight(left) => {
                let outcome = add_completion(runtime, frame.realm, left, value);
                self.computed(execution, outcome, frame, Some(left), value)
            },
            Finish::Plus => {
                let outcome = runtime.numeric_completion(
                    frame.realm,
                    Runtime::unary_plus_primitive(value),
                );
                self.computed(execution, outcome, frame, None, value)
            },
            Finish::Predicate(input) => Ok(
                Progress::Predicate(PredicateInput { key: value, target: input.target }),
            ),
            Finish::SuperProperty(input) => Ok(
                Progress::SuperProperty(
                    SuperPropertyInput {
                        key: value,
                        receiver: input.receiver,
                        home: input.home,
                        operands: input.operands,
                    },
                ),
            ),
            Finish::PropertyWrite { base, value: assigned } => Ok(
                Progress::PropertyWrite(ConvertedWrite { base, key: value, value: assigned }),
            ),
            Finish::PropertyRead { base, keep_receiver, keep_key } => Ok(
                Progress::PropertyRead(ConvertedRead { base, key: value, keep_receiver, keep_key }),
            ),
            Finish::PropertyKey => {
                let key = runtime.native_to_property_key(value)?;
                Ok(Progress::Complete(Completion::Return(key.as_value())))
            },
        }
    }

    fn computed(
        self,
        execution: &mut RunningExecution,
        outcome: Result<Option<Completion>, Error>,
        frame: Frame,
        left: Option<JsValue>,
        right: JsValue,
    ) -> (r: Result<Progress, Error>)
        requires
            old(execution)@.frames.frames.len() > 0,
        ensures
            forall|heap: Heap|
                (heap, final(execution)@, r) == #[trigger] old(execution)@.conversion_computed(
                    (heap, outcome),
                    self,
                    frame,
                    left,
                    right,
                ),
    {
        match outcome? {
            Some(completion) => Ok(Progress::Complete(completion)),
            None => {
                execution.defer_sum(
                    frame,
                    self.frame,
                    left,
                    right,
                    Error::internal("conversion resume PC overflow"),
                )?;
                Ok(Progress::Entered)
            },
        }
    }
}

impl RunningExecution {
    /// Wait for a reply to a conversion.
    pub fn await_conversion(&mut self, frame: Frame, wait: ConversionWait)
        requires
            old(self)@.frames.frames.len() > 0,
        ensures
            final(self)@ == old(self)@.await_conversion(frame, wait),
    {
        let mut frame = frame;
        frame.cold.conversion = Some(wait);
        self.frames.store(frame);
    }

    fn defer_sum(
        &mut self,
        frame: Frame,
        id: FrameId,
        left: Option<JsValue>,
        right: JsValue,
        overflow: Error,
    ) -> (r: Result<(), Error>)
        requires
            old(self)@.frames.frames.len() > 0,
        ensures
            (final(self)@, r) == old(self)@.defer_sum(frame, id, left, right, overflow),
    {
        match left {
            Some(left) => self.defer_numeric(frame, id, None, left, Some(right), overflow),
            None => self.defer_numeric(frame, id, None, right, None, overflow),
        }
    }

    fn pend_conversion(
        &mut self,
        frame: Frame,
        callback: NormalizedCallback,
        wait: ConversionWait,
        return_to: ReturnTarget,
    ) -> (r: Result<Progress, Error>)
        requires
            old(self)@.frames.frames.len() > 0,
        ensures
            forall|heap: Heap|
                (heap, final(self)@, r) == #[trigger] old(self)@.pend_conversion(
                    heap,
                    frame,
                    callback@,
                    wait,
                    return_to,
                ),
    {
        if frame.cold.conversion.is_some() {
            return Err(Error::internal("conversion overwrote an unanswered request"));
        }
        self.slots.push_all(&callback.arguments)?;
        self.await_conversion(frame, wait);
        let request = callback_request(frame.realm, &callback);
        self.pending_call = Some(PendingCall { request, return_to });
        Ok(Progress::Entered)
    }
}

impl RunningExecution {
    fn fused_store(&self, runtime: &Runtime, frame: Frame, addition: bool) -> (r: Result<
        Option<FusedStore>,
        Error,
    >)
        ensures
            r == self@.fused_store(runtime@, frame, addition),
            r matches Ok(Some(store)) ==> frame.fault_pc + store.span <= usize::MAX && store.span
                >= 2,
    {
        match runtime.function_bytecode(frame.executable)?.add_store(frame.fault_pc) {
            Some((index, span)) => {
                if !addition {
                    return Ok(None);
                }
                match self.slots.local(frame.window, index)? {
                    FrameBinding::Direct(old) => Ok(
                        Some(
                            FusedStore {
                                index,
                                span,
                                observable: matches!(old, JsValue::Object(_) | JsValue::Symbol(_)),
                            },
                        ),
                    ),
                    _ => Ok(None),
                }
            },
            None => Ok(None),
        }
    }

    fn store_sum(&mut self, runtime: &mut Runtime, frame: Frame, value: JsValue, store: FusedStore)
        -> (r: Result<PrimitiveCompletion, Error>)
        requires
            old(runtime).wf(),
            old(self)@.frames.frames.len() > 0,
            frame.fault_pc + store.span <= usize::MAX,
            store.span >= 2,
        ensures
            final(runtime).wf(),
            (final(runtime)@, final(self)@, r) == old(self)@.store_sum(
                old(runtime)@,
                frame,
                value,
                store,
            ),
    {
        let at: usize = frame.fault_pc + 1;
        let mut stored = frame;
        if store.observable {
            stored.fault_pc = at;
            stored.resume_pc = at;
            self.frames.store(stored);
            runtime.update_active_bytecode_pc(frame.cold.active_frame, at)?;
        }
        self.slots.set_local(frame.window, store.index, FrameBinding::Direct(value))?;
        stored.fault_pc = at + (store.span - 2);
        stored.resume_pc = at + (store.span - 1);
        self.frames.store(stored);
        Ok(PrimitiveCompletion::Completed)
    }
}


/// Complete an addition or a unary plus of primitives.
pub fn complete_primitives(
    runtime: &mut Runtime,
    execution: &mut RunningExecution,
    id: FrameId,
    addition: bool,
    next_operation: &mut u64,
) -> (r: Result<PrimitiveCompletion, Error>)
    requires
        old(runtime).wf(),
    ensures
        final(runtime).wf(),
        (final(runtime)@, final(execution)@, *final(next_operation), r)
            == old(execution)@.complete_primitives(
            old(runtime)@,
            id,
            addition,
            *old(next_operation),
        ),
{
    let frame = execution.frames.current(id)?;
    let left = if addition {
        Some(execution.slots.peek(frame.window, 1)?)
    } else {
        None
    };
    let right = execution.slots.peek(frame.window, 0)?;
    let (foreign, object) = match left {
        Some(left) => (
            runtime.validate_value_domain(left, "conversion operand").is_err(),
            left.is_object(),
        ),
        None => (false, false),
    };
    if foreign || runtime.validate_value_domain(right, "conversion operand").is_err() {
        return Ok(PrimitiveCompletion::InvalidDomain);
    }
    if *next_operation == u64::MAX {
        return Err(Error::internal("conversion identity exhausted"));
    }
    *next_operation = *next_operation + 1;
    let store = execution.fused_store(runtime, frame, addition)?;
    if object || right.is_object() {
        return Ok(PrimitiveCompletion::Declined);
    }
    execution.slots.discard(
        frame.window,
        if addition {
            2
        } else {
            1
        },
    )?;
    let completion = match left {
        Some(left) => add_completion(runtime, frame.realm, left, right)?,
        None => runtime.numeric_completion(frame.realm, Runtime::unary_plus_primitive(right))?,
    };
    let overflow = Error::internal("conversion resume PC overflow");
    match completion {
        Some(Completion::Throw(value)) => Ok(PrimitiveCompletion::Throw(value)),
        Some(Completion::Return(value)) => match store {
            Some(store) => execution.store_sum(runtime, frame, value, store),
            None => {
                execution.push_result(frame, value, overflow)?;
                Ok(PrimitiveCompletion::Completed)
            },
        },
        None => {
            execution.defer_sum(frame, id, left, right, overflow)?;
            Ok(PrimitiveCompletion::Deferred)
        },
    }
}

/// Call a conversion method as a child frame, or leave it to the embedder.
pub fn invoke(
    runtime: &mut Runtime,
    execution: &mut RunningExecution,
    task: ConversionTask,
    callable: CallableRef,
    receiver: JsValue,
    arguments: Vec<JsValue>,
    resume: PrimitiveResume,
) -> (r: Result<Progress, Error>)
    requires
        old(runtime).wf(),
    ensures
        final(runtime).wf(),
        (final(runtime)@, final(execution)@, r) == old(execution)@.invoke_conversion(
            old(runtime)@,
            task,
            callable,
            receiver,
            arguments@,
            resume,
        ),
{
    let frame = execution.frames.current(task.frame)?;
    let callback = match normalize_callback(runtime, frame.realm, callable, receiver, arguments)? {
        NativeConversion::Value(callback) => callback,
        NativeConversion::Throw(value) => {
            return task.go_on(runtime, resume, Completion::Throw(value));
        },
    };
    let wait = ConversionWait { finish: task.finish, identity: task.identity, resume };
    let return_to = ReturnTarget {
        value_use: ReturnValue::Push,
        frame: task.frame,
        tail: false,
        operation: Some(OperationTarget::Conversion(task.identity)),
    };
    let (bytecode, count) = match callback.classification {
        CallableExecution::Bytecode { bytecode, count, .. } => (bytecode, count),
        _ => {
            return execution.pend_conversion(frame, callback, wait, return_to);
        },
    };
    if runtime.function_bytecode(bytecode)?.metadata.function_kind != FunctionKind::Normal {
        return execution.pend_conversion(frame, callback, wait, return_to);
    }
    if !execution.frames.can_push() || runtime.bytecode_call_would_overflow() {
        let completion = runtime.bytecode_stack_overflow_completion(frame.realm)?;
        return task.go_on(runtime, resume, completion);
    }
    let request = BytecodeCallRequest {
        callable: callback.callable,
        receiver: callback.receiver,
        new_target: JsValue::Undefined,
        arguments: callback.arguments,
        bytecode,
        closure_count: count,
        caller_realm: frame.realm,
        return_to,
    };
    let entry = request.prepare(runtime)?;
    if frame.cold.conversion.is_some() {
        runtime.retire_guard(entry.cold.entry_guard);
        return Err(Error::internal("conversion overwrote an unanswered request"));
    }
    execution.await_conversion(frame, wait);
    let _ = push_frame(runtime, execution, entry)?;
    Ok(Progress::Entered)
}

/// A reply with another identity is refused, and the conversion that it was to
/// answer is given up.  The frames keep their order, identities, windows and
/// resume positions, and the operands are untouched.
pub proof fn mismatched_replies_are_refused(
    machine: Machine,
    heap: Heap,
    target: ReturnTarget,
    completion: Completion,
    frame: Frame,
    wait: ConversionWait,
)
    requires
        machine.frames.current(target.frame) == Ok::<Frame, Error>(frame),
        frame.cold.conversion == Some(wait),
        target.operation != Some(OperationTarget::Conversion(wait.identity)),
    ensures
        machine.conversion_reply(heap, target, completion).2 is Err,
        machine.conversion_reply(heap, target, completion).0 == heap,
        machine.conversion_reply(heap, target, completion).1.slots == machine.slots,
        machine.conversion_reply(heap, target, completion).1.pending_call == machine.pending_call,
        machine.conversion_reply(heap, target, completion).1.frames == machine.frames.stored(
            Frame { cold: FrameCold { conversion: None, ..frame.cold }, ..frame },
        ),
{
}

/// What a conversion method throws is what the converted instruction throws.
pub proof fn conversions_pass_throws_on(
    machine: Machine,
    heap: Heap,
    wait: ConversionWait,
    id: FrameId,
    frame: Frame,
    value: JsValue,
)
    requires
        machine.frames.current(id) == Ok::<Frame, Error>(frame),
    ensures
        ({
            let (after, task) = ConversionTask::resumed(heap, id, wait, Completion::Throw(value));
            &&& after == heap
            &&& task is Ok
            &&& machine.advance_conversion(after, task->Ok_0) == (
                heap,
                machine,
                Ok::<Progress, Error>(Progress::Complete(Completion::Throw(value))),
            )
        }),
{
}

/// A store to a local that is not shared writes it at once.
proof fn direct_stores_are_hot(
    machine: Machine,
    heap: Heap,
    function: FunctionBytecode,
    frame: Frame,
    instruction: Instruction,
    index: u16,
    keep: bool,
)
    requires
        if keep {
            instruction == Instruction::SetLocal(index) || instruction
                == Instruction::SetLocalCheck(index)
        } else {
            instruction == Instruction::PutLocal(index) || instruction
                == Instruction::PutLocalCheck(index)
        },
        machine.slots.local(frame.window, index) matches Ok(FrameBinding::Direct(_)),
    ensures
        machine.instruction(heap, function, frame, instruction) == machine.hot(
            frame,
            Machine::store_top(machine.slots, frame.window, true, index, keep),
            (frame.fault_pc + 1) as usize,
        ),
{
    reveal(Machine::instruction);
}

/// Dropping a primitive is hot.
proof fn dropping_a_primitive_is_hot(
    machine: Machine,
    heap: Heap,
    function: FunctionBytecode,
    frame: Frame,
    value: JsValue,
)
    requires
        machine.slots.peek(frame.window, 0) == Ok::<JsValue, Error>(value),
        !(value is Object),
    ensures
        machine.instruction(heap, function, frame, Instruction::Drop) == machine.hot(
            frame,
            machine.slots.discard(frame.window, 1),
            (frame.fault_pc + 1) as usize,
        ),
{
    reveal(Machine::instruction);
}

/// Doing a store together with the addition before it leaves the same frame
/// and operands as the separate instructions would.
pub proof fn fused_stores_skip_nothing(
    machine: Machine,
    heap: Heap,
    id: FrameId,
    frame: Frame,
    value: JsValue,
    store: FusedStore,
    fuel: nat,
)
    requires
        machine.frames.current(id) == Ok::<Frame, Error>(frame),
        machine.fused_store(heap, frame, true) == Ok::<Option<FusedStore>, Error>(Some(store)),
        machine.slots.push(value).1 is Ok,
        !(value is Object),
        store.observable ==> heap.pc_updated(
            frame.cold.active_frame,
            (frame.fault_pc + 1) as usize,
        ).1 is Ok,
    ensures
        ({
            let (apart, r) = machine.push_result(
                frame,
                value,
                Error::internal("conversion resume PC overflow"),
            );
            let (_, fused, completion) = machine.store_sum(heap, frame, value, store);
            &&& r is Ok
            &&& completion == Ok::<PrimitiveCompletion, Error>(PrimitiveCompletion::Completed)
            &&& apart.run(heap, id, (fuel + store.span - 1) as nat) == fused.run(heap, id, fuel)
        }),
{
    let function = heap.function_at(frame.executable)->Ok_0;
    assert(function.code.len() == function.code@.len());
    let at = (frame.fault_pc + 1) as usize;
    let window = frame.window;
    let direct = FrameBinding::Direct(value);
    let (pushed, _) = machine.slots.push(value);
    let (written, _) = machine.slots.set_local(window, store.index, direct);
    let (kept, _) = pushed.set_local(window, store.index, direct);
    assert(kept.values.drop_last() =~= written.values);
    reveal_with_fuel(Slots::discard, 2);
    assert(kept.discard(window, 1) == (written, Ok::<(), Error>(())));
    let (apart, _) = machine.push_result(
        frame,
        value,
        Error::internal("conversion resume PC overflow"),
    );
    let (_, fused, _) = machine.store_sum(heap, frame, value, store);
    let first = Frame { fault_pc: at, resume_pc: at, ..frame };
    let second = Frame { resume_pc: (at + 1) as usize, ..first };
    let entered = Machine { frames: machine.frames.stored(first), slots: pushed, ..machine };
    assert(entered.frames.frames =~= apart.frames.stored(first).frames);
    let keep = store.span == 3;
    direct_stores_are_hot(
        entered,
        heap,
        function,
        first,
        function.code@[at as int],
        store.index,
        keep,
    );
    let stored = Machine {
        frames: machine.frames.stored(second),
        slots: if keep {
            kept
        } else {
            written
        },
        ..machine
    };
    assert(stored.frames.frames =~= entered.frames.stored(second).frames);
    let next = Frame { resume_pc: at, ..frame };
    crate::run::hot_instructions_run_on(
        apart,
        heap,
        id,
        next,
        function,
        stored,
        (fuel + store.span - 2) as nat,
    );
    if keep {
        let third = Frame { fault_pc: second.resume_pc, ..second };
        let dropping = Machine { frames: machine.frames.stored(third), ..stored };
        assert(dropping.frames.frames =~= stored.frames.stored(third).frames);
        dropping_a_primitive_is_hot(dropping, heap, function, third, value);
        assert(fused.frames.frames =~= dropping.frames.stored(
            Frame { resume_pc: (third.fault_pc + 1) as usize, ..third },
        ).frames);
        crate::run::hot_instructions_run_on(stored, heap, id, second, function, fused, fuel);
    } else {
        assert(fused.frames.frames =~= stored.frames.frames);
    }
}

impl ConversionTask {
    /// A task that begins the conversion of `value` for `finish` with `hint`.
    pub open spec fn begins(
        self,
        heap: Heap,
        frame: FrameId,
        identity: u64,
        realm: usize,
        finish: Finish,
        value: JsValue,
        hint: ToPrimitiveHint,
    ) -> bool {
        &&& self.finish == finish
        &&& self.frame == frame
        &&& self.identity == identity
        &&& match value {
            JsValue::Object(object) => self.step is Get && self.step->Get_object == object
                && self.step->Get_resume.hint == hint && self.step->Get_resume.realm == realm
                && self.step->Get_resume.object == object,
            _ => self.step == PrimitiveStep::Complete(Completion::Return(value)),
        }
    }
}

/// An addition converts its left operand first and without a preference, unary
/// plus converts its operand to a number, a property key to a text.  What was
/// converted is taken off the operands.
pub proof fn operators_convert_for_their_purpose(
    machine: Machine,
    heap: Heap,
    id: FrameId,
    identity: u64,
    frame: Frame,
    left: JsValue,
    right: JsValue,
)
    requires
        machine.frames.current(id) == Ok::<Frame, Error>(frame),
        machine.slots.peek(frame.window, 0) == Ok::<JsValue, Error>(right),
        machine.slots.peek(frame.window, 1) == Ok::<JsValue, Error>(left),
    ensures
        ({
            let (after, task) = machine.start_conversion(heap, id, identity, true, false);
            &&& task is Ok
            &&& task->Ok_0.begins(
                heap,
                id,
                identity,
                frame.realm,
                Finish::AddLeft(right),
                left,
                ToPrimitiveHint::Default,
            )
            &&& after.slots.values == machine.slots.values.take(machine.slots.values.len() - 2)
        }),
        ({
            let (after, task) = machine.start_conversion(heap, id, identity, false, false);
            &&& task is Ok
            &&& task->Ok_0.begins(
                heap,
                id,
                identity,
                frame.realm,
                Finish::Plus,
                right,
                ToPrimitiveHint::Number,
            )
            &&& after.slots.values == machine.slots.values.take(machine.slots.values.len() - 1)
        }),
        ({
            let (after, task) = machine.start_conversion(heap, id, identity, false, true);
            &&& task is Ok
            &&& task->Ok_0.begins(
                heap,
                id,
                identity,
                frame.realm,
                Finish::PropertyKey,
                right,
                ToPrimitiveHint::String,
            )
            &&& after.slots.values == machine.slots.values.take(machine.slots.values.len() - 1)
        }),
{
    assert(machine.slots.values.drop_last().drop_last() =~= machine.slots.values.take(
        machine.slots.values.len() - 2,
    ));
    assert(machine.slots.values.drop_last() =~= machine.slots.values.take(
        machine.slots.values.len() - 1,
    ));
    assert(machine.slots.pop(frame.window).0.peek(frame.window, 0) == machine.slots.peek(
        frame.window,
        1,
    ));
}

/// The key of a computed property access is converted to a text while the base
/// and the assigned value are kept as they were evaluated.
pub proof fn property_keys_convert_to_texts(
    machine: Machine,
    heap: Heap,
    id: FrameId,
    identity: u64,
    frame: Frame,
    below: JsValue,
    middle: JsValue,
    top: JsValue,
    keep_receiver: bool,
    keep_key: bool,
)
    requires
        machine.frames.current(id) == Ok::<Frame, Error>(frame),
        machine.slots.peek(frame.window, 0) == Ok::<JsValue, Error>(top),
        machine.slots.peek(frame.window, 1) == Ok::<JsValue, Error>(middle),
        machine.slots.peek(frame.window, 2) == Ok::<JsValue, Error>(below),
        heap.in_domain(below),
        heap.in_domain(middle),
        heap.in_domain(top),
    ensures
        machine.start_property_write(heap, id, identity).1 matches Ok(task) && task.begins(
            heap,
            id,
            identity,
            frame.realm,
            (Finish::PropertyWrite { base: below, value: top }),
            middle,
            ToPrimitiveHint::String,
        ),
        machine.start_property_read(heap, id, identity, keep_receiver, keep_key).1 matches Ok(task)
            && task.begins(
            heap,
            id,
            identity,
            frame.realm,
            (Finish::PropertyRead { base: middle, keep_receiver, keep_key }),
            top,
            ToPrimitiveHint::String,
        ),
{
    reveal_with_fuel(Slots::top, 4);
    reveal_with_fuel(Slots::discard, 4);
    let one = machine.slots.pop(frame.window).0;
    let two = one.pop(frame.window).0;
    assert(one.peek(frame.window, 0) == machine.slots.peek(frame.window, 1));
    assert(two.peek(frame.window, 0) == machine.slots.peek(frame.window, 2));
    assert(machine.slots.top(frame.window, 3)->Ok_0 =~= seq![below, middle, top]);
    assert(machine.slots.top(frame.window, 2)->Ok_0 =~= seq![middle, top]);
}

/// A converted left operand waits for the right one, and the two are added in
/// the order in which they were written.  A unary plus adds nothing, and a
/// converted key is the key of its primitive.
pub proof fn converted_operands_keep_their_sides(
    machine: Machine,
    heap: Heap,
    task: ConversionTask,
    frame: Frame,
    left: JsValue,
    right: JsValue,
    sum: JsValue,
    object: crate::value::ObjectRef,
)
    requires
        !(left is Object),
        !(right is Object),
        heap.sum(left, right).1 == Ok::<NumericOutcome, Error>(NumericOutcome::Value(sum)),
    ensures
        ({
            let task = ConversionTask { finish: Finish::AddLeft(JsValue::Object(object)), ..task };
            let (after, same, r) = machine.finish_conversion(heap, task, frame, left);
            &&& after == heap
            &&& same == machine
            &&& r matches Ok(Progress::Ready(next)) && next.begins(
                heap,
                task.frame,
                task.identity,
                frame.realm,
                Finish::AddRight(left),
                JsValue::Object(object),
                ToPrimitiveHint::Default,
            )
        }),
        ({
            let task = ConversionTask { finish: Finish::AddRight(left), ..task };
            machine.finish_conversion(heap, task, frame, right) == (
                heap.sum(left, right).0,
                machine,
                Ok::<Progress, Error>(Progress::Complete(Completion::Return(sum))),
            )
        }),
        ({
            let task = ConversionTask { finish: Finish::AddLeft(right), ..task };
            machine.finish_conversion(heap, task, frame, left) == (
                heap.sum(left, right).0,
                machine,
                Ok::<Progress, Error>(Progress::Complete(Completion::Return(sum))),
            )
        }),
        ({
            let task = ConversionTask { finish: Finish::Plus, ..task };
            left is Int || left is Float ==> machine.finish_conversion(heap, task, frame, left) == (
                heap,
                machine,
                Ok::<Progress, Error>(Progress::Complete(Completion::Return(left))),
            )
        }),
        ({
            let task = ConversionTask { finish: Finish::PropertyKey, ..task };
            left is String || (left matches JsValue::Symbol(symbol) && symbol.domain == heap.domain)
                ==> machine.finish_conversion(heap, task, frame, left) == (
                heap,
                machine,
                Ok::<Progress, Error>(Progress::Complete(Completion::Return(left))),
            )
        }),
{
}

/// A sum and a unary plus of primitives take the place of their operands, and
/// the frame goes on behind the instruction.
pub proof fn primitive_sums_replace_their_operands(
    machine: Machine,
    heap: Heap,
    id: FrameId,
    next: u64,
    frame: Frame,
    left: JsValue,
    right: JsValue,
    sum: JsValue,
)
    requires
        machine.frames.current(id) == Ok::<Frame, Error>(frame),
        frame.fault_pc < usize::MAX,
        frame.executable < heap.code.len(),
        heap.code[frame.executable as int].add_store(frame.fault_pc) is None,
        next < u64::MAX,
        machine.slots.peek(frame.window, 0) == Ok::<JsValue, Error>(right),
        machine.slots.peek(frame.window, 1) == Ok::<JsValue, Error>(left),
        machine.slots.values.len() <= machine.slots.limit,
        heap.in_domain(left),
        heap.in_domain(right),
        !(left is Object),
        !(right is Object),
    ensures
        heap.sum(left, right).1 == Ok::<NumericOutcome, Error>(NumericOutcome::Value(sum)) ==> {
            let (after_heap, after, _, r) = machine.complete_primitives(heap, id, true, next);
            &&& r == Ok::<PrimitiveCompletion, Error>(PrimitiveCompletion::Completed)
            &&& after_heap == heap.sum(left, right).0
            &&& after.slots.values == machine.slots.values.take(
                machine.slots.values.len() - 2,
            ).push(FrameBinding::Direct(sum))
            &&& after.frames.current(id) == Ok::<Frame, Error>(
                Frame { resume_pc: (frame.fault_pc + 1) as usize, ..frame },
            )
        },
        Heap::plus(right) == Ok::<NumericOutcome, Error>(NumericOutcome::Value(sum)) ==> {
            let (after_heap, after, _, r) = machine.complete_primitives(heap, id, false, next);
            &&& r == Ok::<PrimitiveCompletion, Error>(PrimitiveCompletion::Completed)
            &&& after_heap == heap
            &&& after.slots.values == machine.slots.values.take(
                machine.slots.values.len() - 1,
            ).push(FrameBinding::Direct(sum))
            &&& after.frames.current(id) == Ok::<Frame, Error>(
                Frame { resume_pc: (frame.fault_pc + 1) as usize, ..frame },
            )
        },
{
    reveal_with_fuel(Slots::discard, 3);
    let one = machine.slots.pop(frame.window).0;
    assert(one.peek(frame.window, 0) == machine.slots.peek(frame.window, 1));
    assert(one.values.drop_last() =~= machine.slots.values.take(machine.slots.values.len() - 2));
    assert(one.values =~= machine.slots.values.take(machine.slots.values.len() - 1));
}

} // verus!
