//! The driver loop over all frames of an execution.
use vstd::prelude::*;
use crate::apply_driver;
use crate::construct_driver;
use crate::conversion_driver::{ConversionTask, Progress};
use crate::driver::ready::{self, converts_key, Boundary};
use crate::driver::{enter_call, push_frame, CallStep};
use crate::environment_driver::{self, Operation};
use crate::error::Error;
use crate::eval_driver;
use crate::execution::{ExecutionLimits, ExecutionRegistry, Machine, PendingCall, PendingRequest, RunningExecution};
use crate::frame::{Frame, FrameEntry, FrameId, FrameRecord, OperationTarget, ReturnTarget, ReturnValue};
use crate::frame_exit;
use crate::frame_operations;
use crate::frame_operations::numeric;
use crate::heap::Heap;
use crate::property_driver::{self, ReadKey};
use crate::property_write_driver;
use crate::run::RunExit;
use crate::runtime::Runtime;
use crate::unwind::unwind;
use crate::value::{Completion, JsValue};
use crate::with_driver;

verus! {

/// What the driver carries from one turn to the next.
#[derive(Clone, Copy, Debug)]
pub struct DriverState {
    /// A completion that the current frame has to take.
    pub forwarded: Option<Completion>,
    pub conversion: Option<ConversionTask>,
    /// The identity of the last waiting operation.
    pub next_operation: u64,
}

/// Why the driver stopped.
#[derive(Clone, Copy, Debug, PartialEq, Eq, Structural)]
pub enum Stop {
    Complete(Completion),
    /// The embedder has to complete the current instruction or, where the
    /// driver keeps a forwarded throw, to close the iterator that it met.
    RootHandoff,
    /// The embedder has to answer the pending call.
    Call,
    /// The budget is used up.
    Interrupted,
}

/// What an exit of the resident loop came to.
#[derive(Clone, Copy, Debug)]
pub enum Dispatch {
    Continue,
    Convert(ConversionTask),
    Complete(Completion),
    Bridge,
    /// The frame returned.
    Return,
    Interrupted,
}

impl Dispatch {
    pub open spec fn of(step: CallStep) -> Dispatch {
        match step {
            CallStep::Entered => Dispatch::Continue,
            CallStep::Complete(completion) => Dispatch::Complete(completion),
            CallStep::Bridge => Dispatch::Bridge,
        }
    }

    fn from_step(step: CallStep) -> (r: Dispatch)
        ensures
            r == Dispatch::of(step),
    {
        match step {
            CallStep::Entered => Dispatch::Continue,
            CallStep::Complete(completion) => Dispatch::Complete(completion),
            CallStep::Bridge => Dispatch::Bridge,
        }
    }
}

/// How a completion was delivered.
#[derive(Clone, Copy, Debug)]
pub struct Delivered {
    pub forwarded: Option<Completion>,
    pub conversion: Option<ConversionTask>,
}

/// What the end of a frame came to.
#[derive(Clone, Copy, Debug)]
pub enum Ended {
    /// The driver goes on with what was delivered.
    Going(Delivered),
    /// The last frame has ended.
    Finished(Completion),
    /// The embedder has to close an iterator before the completion goes on.
    Handoff(Completion),
}

impl Machine {
    pub open spec fn dispatched(step: (Heap, Machine, Result<CallStep, Error>), next: u64) -> (
        Heap,
        Machine,
        u64,
        Result<Dispatch, Error>,
    ) {
        (
            step.0,
            step.1,
            next,
            match step.2 {
                Ok(step) => Ok(Dispatch::of(step)),
                Err(e) => Err(e),
            },
        )
    }

    /// Taking a conversion that was started.
    pub open spec fn converted(heap: Heap, step: (Machine, Result<ConversionTask, Error>), next: u64) -> (
        Heap,
        Machine,
        u64,
        Result<Dispatch, Error>,
    ) {
        (
            heap,
            step.0,
            next,
            match step.1 {
                Ok(task) => Ok(Dispatch::Convert(task)),
                Err(e) => Err(e),
            },
        )
    }

    /// Whether an operand of a conversion belongs to another runtime.
    pub open spec fn foreign_operand(self, heap: Heap, id: FrameId, addition: bool) -> Result<
        bool,
        Error,
    > {
        match self.frames.current(id) {
            Err(e) => Err(e),
            Ok(frame) => match self.conversion_operands(frame, addition) {
                Err(e) => Err(e),
                Ok((left, right)) => Ok(
                    !heap.in_domain(right) || (left matches Some(left) && !heap.in_domain(left)),
                ),
            },
        }
    }

    /// Exits whose work takes an identity.
    pub open spec fn dispatch_identified(self, heap: Heap, id: FrameId, exit: RunExit, next: u64) -> (
        Heap,
        Machine,
        u64,
        Result<Dispatch, Error>,
    ) {
        if next == u64::MAX {
            (heap, self, next, Err(Error::internal("operation identity exhausted")))
        } else {
            let identity = (next + 1) as u64;
            Machine::dispatched(
                match exit {
                    RunExit::Environment(Operation::Has { source, name }) => self.start_has(
                        heap,
                        id,
                        source,
                        name,
                        identity,
                    ),
                    RunExit::DefineClass { name, has_heritage } => self.define_class(
                        heap,
                        id,
                        name,
                        has_heritage,
                        identity,
                    ),
                    RunExit::Apply(kind) => self.apply(heap, id, kind, identity),
                    RunExit::Construct(count) => self.enter_construct(heap, id, count, identity),
                    _ => self.enter_default_derived(heap, id, identity),
                },
                identity,
            )
        }
    }

    /// Exits that start a conversion.
    pub open spec fn dispatch_conversion(self, heap: Heap, id: FrameId, exit: RunExit, next: u64) -> (
        Heap,
        Machine,
        u64,
        Result<Dispatch, Error>,
    ) {
        match self.foreign_operand(heap, id, exit is ConvertAdd) {
            Err(e) => (heap, self, next, Err(e)),
            Ok(true) => (heap, self, next, Ok(Dispatch::Bridge)),
            Ok(false) => if next == u64::MAX {
                (heap, self, next, Err(Error::internal("conversion identity exhausted")))
            } else {
                Machine::converted(
                    heap,
                    self.start_conversion(
                        heap,
                        id,
                        (next + 1) as u64,
                        exit is ConvertAdd,
                        exit is ConvertPropertyKey,
                    ),
                    (next + 1) as u64,
                )
            },
        }
    }

    /// Computed reads and writes.
    pub open spec fn dispatch_access(self, heap: Heap, id: FrameId, exit: RunExit, next: u64) -> (
        Heap,
        Machine,
        u64,
        Result<Dispatch, Error>,
    ) {
        let exhausted = Error::internal("property conversion identity exhausted");
        match exit {
            RunExit::GetElement { keep_receiver, keep_key } => match self.converts_key(id, 1) {
                Err(e) => (heap, self, next, Err(e)),
                Ok(true) => if next == u64::MAX {
                    (heap, self, next, Err(exhausted))
                } else {
                    Machine::converted(
                        heap,
                        self.start_property_read(
                            heap,
                            id,
                            (next + 1) as u64,
                            keep_receiver,
                            keep_key,
                        ),
                        (next + 1) as u64,
                    )
                },
                Ok(false) => Machine::dispatched(
                    self.read(heap, id, ReadKey::Computed { keep_key }, keep_receiver),
                    next,
                ),
            },
            RunExit::SetProperty(None) => match self.write_key(id) {
                Err(e) => (heap, self, next, Err(e)),
                Ok(key) => if key is Object {
                    if next == u64::MAX {
                        (heap, self, next, Err(exhausted))
                    } else {
                        Machine::converted(
                            heap,
                            self.start_property_write(heap, id, (next + 1) as u64),
                            (next + 1) as u64,
                        )
                    }
                } else {
                    Machine::dispatched(self.write(heap, id, None), next)
                },
            },
            _ => (heap, self, next, Ok(Dispatch::Bridge)),
        }
    }

    /// The key operand of a computed write.
    pub open spec fn write_key(self, id: FrameId) -> Result<JsValue, Error> {
        match self.frames.current(id) {
            Err(e) => Err(e),
            Ok(frame) => self.slots.peek(frame.window, 1),
        }
    }

    /// What an exit of the resident loop comes to.
    #[verifier::opaque]
    pub open spec fn dispatch(self, heap: Heap, id: FrameId, exit: RunExit, next: u64) -> (
        Heap,
        Machine,
        u64,
        Result<Dispatch, Error>,
    ) {
        match exit {
            RunExit::Complete => (heap, self, next, Ok(Dispatch::Return)),
            RunExit::Bridge => (heap, self, next, Ok(Dispatch::Bridge)),
            RunExit::Interrupted => (heap, self, next, Ok(Dispatch::Interrupted)),
            RunExit::Environment(Operation::Has { .. }) | RunExit::DefineClass { .. }
            | RunExit::Apply(_) | RunExit::Construct(_) | RunExit::InitDerivedConstructor =>
                self.dispatch_identified(heap, id, exit, next),
            RunExit::Environment(op) => Machine::dispatched(
                self.environment_step(heap, id, op),
                next,
            ),
            RunExit::DefineProperty { key, method } => Machine::dispatched(
                self.define_property(heap, id, key, method),
                next,
            ),
            RunExit::ClassInitializer(mode) => match self.initializer(heap, id, mode) {
                (heap, machine, Ok(CallStep::Bridge)) => (
                    heap,
                    machine,
                    next,
                    Err(Error::internal("class initialization attempted replay")),
                ),
                step => Machine::dispatched(step, next),
            },
            RunExit::ConvertPlus | RunExit::ConvertAdd | RunExit::ConvertPropertyKey =>
                self.dispatch_conversion(heap, id, exit, next),
            RunExit::GetField { index, keep_receiver } => Machine::dispatched(
                self.read(heap, id, ReadKey::Static(index), keep_receiver),
                next,
            ),
            RunExit::GetElement { .. } | RunExit::SetProperty(None) => self.dispatch_access(
                heap,
                id,
                exit,
                next,
            ),
            RunExit::SetProperty(Some(index)) => Machine::dispatched(
                self.write(heap, id, Some(index)),
                next,
            ),
            RunExit::Call { arguments, method, tail } => Machine::dispatched(
                self.enter_call(heap, id, arguments, method, tail),
                next,
            ),
            RunExit::Eval { arguments, scope } => Machine::dispatched(
                self.begin_eval(heap, id, arguments, scope),
                next,
            ),
            RunExit::ApplyEval(scope) => Machine::dispatched(
                self.apply_eval(heap, id, scope),
                next,
            ),
            RunExit::Numeric(kind) => match self.numeric_complete(heap, id, kind) {
                (heap, machine, Err(e)) => (heap, machine, next, Err(e)),
                (heap, machine, Ok(numeric::NumericProgress::Completed)) => (
                    heap,
                    machine,
                    next,
                    Ok(Dispatch::Continue),
                ),
                (heap, machine, Ok(numeric::NumericProgress::Deferred(step))) => (
                    heap,
                    machine,
                    next,
                    Ok(Dispatch::of(step)),
                ),
            },
            _ => match self.frame_step(heap, id, exit) {
                (heap, machine, Err(e)) => (heap, machine, next, Err(e)),
                (heap, machine, Ok(Some(step))) => (heap, machine, next, Ok(Dispatch::of(step))),
                (heap, machine, Ok(None)) => (
                    heap,
                    machine,
                    next,
                    Err(Error::internal("driver did not handle a run exit")),
                ),
            },
        }
    }
}

fn dispatch_identified(
    runtime: &mut Runtime,
    execution: &mut RunningExecution,
    id: FrameId,
    exit: RunExit,
    next_operation: &mut u64,
) -> (r: Result<Dispatch, Error>)
    requires
        old(runtime).wf(),
        exit is DefineClass || exit is Apply || exit is Construct || exit is InitDerivedConstructor
            || (exit matches RunExit::Environment(op) && op is Has),
    ensures
        final(runtime).wf(),
        (final(runtime)@, final(execution)@, *final(next_operation), r)
            == old(execution)@.dispatch_identified(
            old(runtime)@,
            id,
            exit,
            *old(next_operation),
        ),
{
    if *next_operation == u64::MAX {
        return Err(Error::internal("operation identity exhausted"));
    }
    *next_operation = *next_operation + 1;
    let identity: u64 = *next_operation;
    let step = match exit {
        RunExit::Environment(Operation::Has { source, name }) => with_driver::start(
            runtime,
            execution,
            id,
            source,
            name,
            identity,
        )?,
        RunExit::DefineClass { name, has_heritage } => construct_driver::define_class(
            runtime,
            execution,
            id,
            name,
            has_heritage,
            identity,
        )?,
        RunExit::Apply(kind) => apply_driver::step(runtime, execution, id, kind, identity)?,
        RunExit::Construct(count) => construct_driver::enter(
            runtime,
            execution,
            id,
            count,
            identity,
        )?,
        _ => construct_driver::enter_default_derived(runtime, execution, id, identity)?,
    };
    Ok(Dispatch::from_step(step))
}

fn dispatch_conversion(
    runtime: &mut Runtime,
    execution: &mut RunningExecution,
    id: FrameId,
    exit: RunExit,
    next_operation: &mut u64,
) -> (r: Result<Dispatch, Error>)
    requires
        old(runtime).wf(),
    ensures
        final(runtime).wf(),
        (final(runtime)@, final(execution)@, *final(next_operation), r)
            == old(execution)@.dispatch_conversion(
            old(runtime)@,
            id,
            exit,
            *old(next_operation),
        ),
{
    let addition = exit == RunExit::ConvertAdd;
    let frame = execution.frames.current(id)?;
    let foreign_left = if addition {
        let left = execution.slots.peek(frame.window, 1)?;
        runtime.validate_value_domain(left, "conversion operand").is_err()
    } else {
        false
    };
    let right = execution.slots.peek(frame.window, 0)?;
    if foreign_left || runtime.validate_value_domain(right, "conversion operand").is_err() {
        return Ok(Dispatch::Bridge);
    }
    if *next_operation == u64::MAX {
        return Err(Error::internal("conversion identity exhausted"));
    }
    *next_operation = *next_operation + 1;
    let task = ConversionTask::start(
        runtime,
        execution,
        id,
        *next_operation,
        addition,
        exit == RunExit::ConvertPropertyKey,
    )?;
    Ok(Dispatch::Convert(task))
}

fn dispatch_access(
    runtime: &mut Runtime,
    execution: &mut RunningExecution,
    id: FrameId,
    exit: RunExit,
    next_operation: &mut u64,
) -> (r: Result<Dispatch, Error>)
    requires
        old(runtime).wf(),
    ensures
        final(runtime).wf(),
        (final(runtime)@, final(execution)@, *final(next_operation), r)
            == old(execution)@.dispatch_access(old(runtime)@, id, exit, *old(next_operation)),
{
    match exit {
        RunExit::GetElement { keep_receiver, keep_key } => {
            if converts_key(execution, id, 1)? {
                if *next_operation == u64::MAX {
                    return Err(Error::internal("property conversion identity exhausted"));
                }
                *next_operation = *next_operation + 1;
                let task = ConversionTask::start_property_read(
                    runtime,
                    execution,
                    id,
                    *next_operation,
                    keep_receiver,
                    keep_key,
                )?;
                return Ok(Dispatch::Convert(task));
            }
            let step = property_driver::read(
                runtime,
                execution,
                id,
                ReadKey::Computed { keep_key },
                keep_receiver,
            )?;
            Ok(Dispatch::from_step(step))
        },
        RunExit::SetProperty(None) => {
            let frame = execution.frames.current(id)?;
            let key = execution.slots.peek(frame.window, 1)?;
            if key.is_object() {
                if *next_operation == u64::MAX {
                    return Err(Error::internal("property conversion identity exhausted"));
                }
                *next_operation = *next_operation + 1;
                let task = ConversionTask::start_property_write(
                    runtime,
                    execution,
                    id,
                    *next_operation,
                )?;
                return Ok(Dispatch::Convert(task));
            }
            let step = property_write_driver::write(runtime, execution, id, None)?;
            Ok(Dispatch::from_step(step))
        },
        _ => Ok(Dispatch::Bridge),
    }
}

fn dispatch(
    runtime: &mut Runtime,
    execution: &mut RunningExecution,
    id: FrameId,
    exit: RunExit,
    next_operation: &mut u64,
) -> (r: Result<Dispatch, Error>)
    requires
        old(runtime).wf(),
    ensures
        final(runtime).wf(),
        (final(runtime)@, final(execution)@, *final(next_operation), r) == old(
            execution,
        )@.dispatch(old(runtime)@, id, exit, *old(next_operation)),
{
    proof {
        reveal(Machine::dispatch);
    }
    let step = match exit {
        RunExit::Complete => {
            return Ok(Dispatch::Return);
        },
        RunExit::Bridge => {
            return Ok(Dispatch::Bridge);
        },
        RunExit::Interrupted => {
            return Ok(Dispatch::Interrupted);
        },
        RunExit::Environment(Operation::Has { .. }) | RunExit::DefineClass { .. }
        | RunExit::Apply(_) | RunExit::Construct(_) | RunExit::InitDerivedConstructor => {
            return dispatch_identified(runtime, execution, id, exit, next_operation);
        },
        RunExit::Environment(op) => environment_driver::step(runtime, execution, id, op)?,
        RunExit::DefineProperty { key, method } => construct_driver::define_property(
            runtime,
            execution,
            id,
            key,
            method,
        )?,
        RunExit::ClassInitializer(mode) => match construct_driver::initializer(
            runtime,
            execution,
            id,
            mode,
        )? {
            CallStep::Bridge => {
                return Err(Error::internal("class initialization attempted replay"));
            },
            step => step,
        },
        RunExit::ConvertPlus | RunExit::ConvertAdd | RunExit::ConvertPropertyKey => {
            return dispatch_conversion(runtime, execution, id, exit, next_operation);
        },
        RunExit::GetField { index, keep_receiver } => property_driver::read(
            runtime,
            execution,
            id,
            ReadKey::Static(index),
            keep_receiver,
        )?,
        RunExit::GetElement { .. } | RunExit::SetProperty(None) => {
            return dispatch_access(runtime, execution, id, exit, next_operation);
        },
        RunExit::SetProperty(Some(index)) => property_write_driver::write(
            runtime,
            execution,
            id,
            Some(index),
        )?,
        RunExit::Call { arguments, method, tail } => enter_call(
            runtime,
            execution,
            id,
            arguments,
            method,
            tail,
        )?,
        RunExit::Eval { arguments, scope } => eval_driver::step(execution, id, arguments, scope)?,
        RunExit::ApplyEval(scope) => eval_driver::apply(runtime, execution, id, scope)?,
        RunExit::Numeric(kind) => numeric::complete(runtime, execution, id, kind)?.into_call_step(),
        _ => match frame_operations::step(runtime, execution, id, exit)? {
            Some(step) => step,
            None => {
                return Err(Error::internal("driver did not handle a run exit"));
            },
        },
    };
    Ok(Dispatch::from_step(step))
}

impl Machine {
    /// Handing the completion of a frame or of the embedder to its target.
    pub open spec fn deliver(self, heap: Heap, target: ReturnTarget, completion: Completion) -> (
        Heap,
        Machine,
        Result<Delivered, Error>,
    ) {
        match self.frames.current(target.frame) {
            Err(e) => (heap, self, Err(e)),
            Ok(_) => match target.operation {
                Some(OperationTarget::Constructor(_)) => Machine::replied(
                    self.constructor_reply(heap, target, completion),
                    Error::internal("constructor reply attempted instruction replay"),
                ),
                Some(OperationTarget::ClassDefinition(_)) => Machine::replied(
                    self.class_reply(heap, target, completion),
                    Error::internal("class reply attempted replay"),
                ),
                Some(OperationTarget::HasBinding(_)) | Some(OperationTarget::Iterator(_)) =>
                    Machine::replied(
                    self.environment_reply(heap, target, completion),
                    Error::internal("HasBinding reply attempted replay"),
                ),
                Some(OperationTarget::Eval(count)) => self.eval_reply(
                    heap,
                    target.frame,
                    count,
                    completion,
                ),
                Some(_) => match self.conversion_reply(heap, target, completion) {
                    (heap, machine, Err(e)) => (heap, machine, Err(e)),
                    (heap, machine, Ok(task)) => (
                        heap,
                        machine,
                        Ok(Delivered { forwarded: None, conversion: Some(task) }),
                    ),
                },
                None => match completion {
                    Completion::Return(value) => if target.tail {
                        (
                            heap,
                            self,
                            Ok(Delivered { forwarded: Some(completion), conversion: None }),
                        )
                    } else if target.value_use is Push {
                        let (slots, r) = self.slots.push(value);
                        (
                            heap,
                            Machine { slots, ..self },
                            match r {
                                Err(e) => Err(e),
                                Ok(_) => Ok(Delivered { forwarded: None, conversion: None }),
                            },
                        )
                    } else {
                        (heap, self, Ok(Delivered { forwarded: None, conversion: None }))
                    },
                    Completion::Throw(_) => (
                        heap,
                        self,
                        Ok(Delivered { forwarded: Some(completion), conversion: None }),
                    ),
                },
            },
        }
    }

    /// Answering a direct evaluation: its callee and `count` arguments leave
    /// the operands, and a returned value takes their place.
    pub open spec fn eval_reply(
        self,
        heap: Heap,
        id: FrameId,
        count: u16,
        completion: Completion,
    ) -> (Heap, Machine, Result<Delivered, Error>) {
        match self.frames.current(id) {
            Err(e) => (heap, self, Err(e)),
            Ok(frame) => {
                let (slots, r) = self.slots.discard(frame.window, (count + 1) as nat);
                match (r, completion) {
                    (Err(e), _) => (heap, Machine { slots, ..self }, Err(e)),
                    (Ok(_), Completion::Return(value)) => {
                        let (slots, r) = slots.push(value);
                        (
                            heap,
                            Machine { slots, ..self },
                            match r {
                                Err(e) => Err(e),
                                Ok(_) => Ok(Delivered { forwarded: None, conversion: None }),
                            },
                        )
                    },
                    (Ok(_), Completion::Throw(_)) => (
                        heap,
                        Machine { slots, ..self },
                        Ok(Delivered { forwarded: Some(completion), conversion: None }),
                    ),
                }
            },
        }
    }

    pub open spec fn replied(step: (Heap, Machine, Result<CallStep, Error>), replay: Error) -> (
        Heap,
        Machine,
        Result<Delivered, Error>,
    ) {
        (
            step.0,
            step.1,
            match step.2 {
                Err(e) => Err(e),
                Ok(CallStep::Entered) => Ok(Delivered { forwarded: None, conversion: None }),
                Ok(CallStep::Complete(completion)) => Ok(
                    Delivered { forwarded: Some(completion), conversion: None },
                ),
                Ok(CallStep::Bridge) => Err(replay),
            },
        )
    }

    /// Going on with a conversion.
    pub open spec fn convert(self, heap: Heap, id: FrameId, task: ConversionTask) -> (
        Heap,
        Machine,
        Result<Dispatch, Error>,
    ) {
        match self.advance_conversion(heap, task) {
            (heap, machine, Err(e)) => (heap, machine, Err(e)),
            (heap, machine, Ok(progress)) => match progress {
                Progress::Ready(task) => (heap, machine, Ok(Dispatch::Convert(task))),
                Progress::Entered => (heap, machine, Ok(Dispatch::Continue)),
                Progress::Complete(Completion::Throw(value)) => (
                    heap,
                    machine,
                    Ok(Dispatch::Complete(Completion::Throw(value))),
                ),
                Progress::Complete(Completion::Return(value)) => match machine.frames.current(id) {
                    Err(e) => (heap, machine, Err(e)),
                    Ok(frame) => match machine.push_result(
                        frame,
                        value,
                        Error::internal("conversion resume PC overflow"),
                    ) {
                        (machine, Err(e)) => (heap, machine, Err(e)),
                        (machine, Ok(_)) => (heap, machine, Ok(Dispatch::Continue)),
                    },
                },
                Progress::PropertyRead(input) => match machine.read_converted(heap, id, input) {
                    (heap, machine, Err(e)) => (heap, machine, Err(e)),
                    (heap, machine, Ok(CallStep::Bridge)) => (
                        heap,
                        machine,
                        Err(Error::internal("converted property read attempted replay")),
                    ),
                    (heap, machine, Ok(step)) => (heap, machine, Ok(Dispatch::of(step))),
                },
                Progress::PropertyWrite(input) => match machine.write_converted(heap, id, input) {
                    (heap, machine, Err(e)) => (heap, machine, Err(e)),
                    (heap, machine, Ok(step)) => (heap, machine, Ok(Dispatch::of(step))),
                },
                Progress::Predicate(input) => machine.defer_access(
                    heap,
                    id,
                    PendingRequest::Predicate { key: input.key, target: input.target },
                ),
                Progress::SuperProperty(input) => machine.defer_access(
                    heap,
                    id,
                    PendingRequest::SuperProperty {
                        key: input.key,
                        receiver: input.receiver,
                        home: input.home,
                        operands: input.operands,
                    },
                ),
            },
        }
    }

    /// Leaving an access with a converted key to the embedder.  Its result is
    /// pushed.
    pub open spec fn defer_access(self, heap: Heap, id: FrameId, request: PendingRequest) -> (
        Heap,
        Machine,
        Result<Dispatch, Error>,
    ) {
        match self.frames.current(id) {
            Err(e) => (heap, self, Err(e)),
            Ok(frame) => match self.resumed(
                frame,
                Error::internal("conversion resume PC overflow"),
            ) {
                (machine, Err(e)) => (heap, machine, Err(e)),
                (machine, Ok(_)) => (
                    heap,
                    Machine {
                        pending_call: Some(
                            PendingCall {
                                request,
                                return_to: ReturnTarget {
                                    value_use: ReturnValue::Push,
                                    frame: id,
                                    tail: false,
                                    operation: None,
                                },
                            },
                        ),
                        ..machine
                    },
                    Ok(Dispatch::Continue),
                ),
            },
        }
    }

    /// What the current frame does next.
    pub open spec fn advance(self, heap: Heap, id: FrameId, state: DriverState, fuel: nat) -> (
        Heap,
        Machine,
        u64,
        nat,
        Result<Dispatch, Error>,
    ) {
        match (state.conversion, state.forwarded) {
            (Some(task), _) => {
                let (heap, machine, r) = self.convert(heap, id, task);
                (heap, machine, state.next_operation, fuel, r)
            },
            (None, Some(completion)) => (
                heap,
                self,
                state.next_operation,
                fuel,
                Ok(Dispatch::Complete(completion)),
            ),
            (None, None) => match self.ready(heap, id, state.next_operation, fuel) {
                (heap, machine, next, fuel, Err(e)) => (heap, machine, next, fuel, Err(e)),
                (heap, machine, next, fuel, Ok(Boundary::Entered)) => (
                    heap,
                    machine,
                    next,
                    fuel,
                    Ok(Dispatch::Continue),
                ),
                (heap, machine, next, fuel, Ok(Boundary::Complete(completion))) => (
                    heap,
                    machine,
                    next,
                    fuel,
                    Ok(Dispatch::Complete(completion)),
                ),
                (heap, machine, next, fuel, Ok(Boundary::Conversion(exit))) => {
                    let (machine, r) = machine.start_boundary(heap, next, exit);
                    (heap, machine, next, fuel, r)
                },
                (heap, machine, next, fuel, Ok(Boundary::Exit(exit))) => if machine.frames.frames.len()
                    == 0 {
                    (
                        heap,
                        machine,
                        next,
                        fuel,
                        Err(Error::internal("driver lost its current frame")),
                    )
                } else {
                    let (heap, machine, next, r) = machine.dispatch(
                        heap,
                        machine.frames.frames.last().id,
                        exit,
                        next,
                    );
                    (heap, machine, next, fuel, r)
                },
            },
        }
    }

    /// Starting a conversion whose operands were checked.
    pub open spec fn start_boundary(self, heap: Heap, identity: u64, exit: RunExit) -> (
        Machine,
        Result<Dispatch, Error>,
    ) {
        if self.frames.frames.len() == 0 {
            (self, Err(Error::internal("driver lost its current frame")))
        } else {
            match self.start_conversion(
                heap,
                self.frames.frames.last().id,
                identity,
                exit is ConvertAdd,
                false,
            ) {
                (machine, Err(e)) => (machine, Err(e)),
                (machine, Ok(task)) => (machine, Ok(Dispatch::Convert(task))),
            }
        }
    }

    /// Ending the current frame, unless it catches the throw.
    pub open spec fn complete_frame(self, heap: Heap, forwarded: Option<Completion>) -> (
        Heap,
        Machine,
        Result<Ended, Error>,
    ) {
        let nothing = Delivered { forwarded: None, conversion: None };
        if self.frames.frames.len() == 0 {
            (heap, self, Err(Error::internal("driver lost its current frame")))
        } else {
            let id = self.frames.frames.last().id;
            match forwarded {
                Some(Completion::Throw(value)) => match self.unwind(heap, id, value) {
                    (machine, Err(e)) => (heap, machine, Err(e)),
                    (machine, Ok(CallStep::Entered)) => (heap, machine, Ok(Ended::Going(nothing))),
                    (machine, Ok(CallStep::Complete(completion))) => machine.end_frame(
                        heap,
                        id,
                        Some(completion),
                    ),
                    (machine, Ok(CallStep::Bridge)) => (
                        heap,
                        machine,
                        Ok(Ended::Handoff(Completion::Throw(value))),
                    ),
                },
                _ => self.end_frame(heap, id, forwarded),
            }
        }
    }

    /// Ending a frame: its completion goes to its target, or is the result.
    pub open spec fn end_frame(self, heap: Heap, id: FrameId, forwarded: Option<Completion>) -> (
        Heap,
        Machine,
        Result<Ended, Error>,
    ) {
        match self.finish_frame(heap, id, RunExit::Complete, forwarded) {
            (heap, machine, Err(e)) => (heap, machine, Err(e)),
            (heap, machine, Ok(exit)) => match exit.return_to {
                None => (
                    heap,
                    machine,
                    Ok(Ended::Finished(exit.completion)),
                ),
                Some(target) => match machine.deliver(heap, target, exit.completion) {
                    (heap, machine, Err(e)) => (heap, machine, Err(e)),
                    (heap, machine, Ok(delivered)) => (heap, machine, Ok(Ended::Going(delivered))),
                },
            },
        }
    }

    /// One turn of the driver.
    pub open spec fn turn(self, heap: Heap, state: DriverState, fuel: nat) -> (
        Heap,
        Machine,
        DriverState,
        nat,
        Result<Option<Stop>, Error>,
    ) {
        if self.pending_call is Some {
            (
                heap,
                self,
                state,
                fuel,
                if state.forwarded is Some {
                    Err(Error::internal("pending call conflicts with a completion"))
                } else {
                    Ok(Some(Stop::Call))
                },
            )
        } else if self.frames.frames.len() == 0 {
            (heap, self, state, fuel, Err(Error::internal("driver lost its current frame")))
        } else if fuel == 0 {
            (heap, self, state, fuel, Ok(Some(Stop::Interrupted)))
        } else {
            let (heap, machine, next_operation, fuel, r) = self.advance(
                heap,
                self.frames.frames.last().id,
                state,
                (fuel - 1) as nat,
            );
            let bare = DriverState { forwarded: None, conversion: None, next_operation };
            match r {
                Err(e) => (heap, machine, bare, fuel, Err(e)),
                Ok(Dispatch::Continue) => (heap, machine, bare, fuel, Ok(None)),
                Ok(Dispatch::Convert(task)) => (
                    heap,
                    machine,
                    DriverState { conversion: Some(task), ..bare },
                    fuel,
                    Ok(None),
                ),
                Ok(Dispatch::Bridge) => (heap, machine, bare, fuel, Ok(Some(Stop::RootHandoff))),
                Ok(Dispatch::Interrupted) => (
                    heap,
                    machine,
                    bare,
                    fuel,
                    Ok(Some(Stop::Interrupted)),
                ),
                Ok(Dispatch::Return) => machine.turn_ended(heap, bare, fuel, None),
                Ok(Dispatch::Complete(completion)) => machine.turn_ended(
                    heap,
                    bare,
                    fuel,
                    Some(completion),
                ),
            }
        }
    }

    pub open spec fn turn_ended(
        self,
        heap: Heap,
        state: DriverState,
        fuel: nat,
        forwarded: Option<Completion>,
    ) -> (Heap, Machine, DriverState, nat, Result<Option<Stop>, Error>) {
        match self.complete_frame(heap, forwarded) {
            (heap, machine, Err(e)) => (heap, machine, state, fuel, Err(e)),
            (heap, machine, Ok(Ended::Going(delivered))) => (
                heap,
                machine,
                DriverState {
                    forwarded: delivered.forwarded,
                    conversion: delivered.conversion,
                    ..state
                },
                fuel,
                Ok(None),
            ),
            (heap, machine, Ok(Ended::Finished(completion))) => (
                heap,
                machine,
                DriverState { forwarded: None, conversion: None, ..state },
                fuel,
                Ok(Some(Stop::Complete(completion))),
            ),
            (heap, machine, Ok(Ended::Handoff(completion))) => (
                heap,
                machine,
                DriverState { forwarded: Some(completion), conversion: None, ..state },
                fuel,
                Ok(Some(Stop::RootHandoff)),
            ),
        }
    }

    /// Turns until the driver stops.
    #[verifier::opaque]
    pub open spec fn drive(self, heap: Heap, state: DriverState, fuel: nat) -> (
        Heap,
        Machine,
        DriverState,
        nat,
        Result<Stop, Error>,
    )
        decreases fuel,
    {
        match self.turn(heap, state, fuel) {
            (heap, machine, state, left, Err(e)) => (heap, machine, state, left, Err(e)),
            (heap, machine, state, left, Ok(Some(stop))) => (heap, machine, state, left, Ok(stop)),
            (heap, machine, state, left, Ok(None)) => if left < fuel {
                machine.drive(heap, state, left)
            } else {
                (heap, machine, state, left, Ok(Stop::Interrupted))
            },
        }
    }
}

fn replied(step: CallStep, replay: Error) -> (r: Result<Delivered, Error>)
    ensures
        forall|heap: Heap, machine: Machine|
            (heap, machine, r) == #[trigger] Machine::replied((heap, machine, Ok(step)), replay),
{
    match step {
        CallStep::Entered => Ok(Delivered { forwarded: None, conversion: None }),
        CallStep::Complete(completion) => Ok(
            Delivered { forwarded: Some(completion), conversion: None },
        ),
        CallStep::Bridge => Err(replay),
    }
}

/// Answer a direct evaluation of the current frame.
fn eval_reply(
    execution: &mut RunningExecution,
    id: FrameId,
    count: u16,
    completion: Completion,
) -> (r: Result<Delivered, Error>)
    ensures
        forall|heap: Heap|
            (heap, final(execution)@, r) == #[trigger] old(execution)@.eval_reply(
                heap,
                id,
                count,
                completion,
            ),
{
    let frame = execution.frames.current(id)?;
    execution.slots.discard(frame.window, count as usize + 1)?;
    match completion {
        Completion::Return(value) => {
            execution.slots.push(value)?;
            Ok(Delivered { forwarded: None, conversion: None })
        },
        Completion::Throw(_) => Ok(Delivered { forwarded: Some(completion), conversion: None }),
    }
}

/// Hand the completion of a frame or of the embedder to its target.
pub fn deliver(
    runtime: &mut Runtime,
    execution: &mut RunningExecution,
    target: ReturnTarget,
    completion: Completion,
) -> (r: Result<Delivered, Error>)
    requires
        old(runtime).wf(),
    ensures
        final(runtime).wf(),
        (final(runtime)@, final(execution)@, r) == old(execution)@.deliver(
            old(runtime)@,
            target,
            completion,
        ),
{
    let _ = execution.frames.current(target.frame)?;
    match target.operation {
        Some(OperationTarget::Constructor(_)) => {
            let step = construct_driver::reply(runtime, execution, target, completion)?;
            replied(step, Error::internal("constructor reply attempted instruction replay"))
        },
        Some(OperationTarget::ClassDefinition(_)) => {
            let step = construct_driver::reply_class(runtime, execution, target, completion)?;
            replied(step, Error::internal("class reply attempted replay"))
        },
        Some(OperationTarget::HasBinding(_)) | Some(OperationTarget::Iterator(_)) => {
            let step = environment_driver::reply(runtime, execution, target, completion)?;
            replied(step, Error::internal("HasBinding reply attempted replay"))
        },
        Some(OperationTarget::Eval(count)) => {
            eval_reply(execution, target.frame, count, completion)
        },
        Some(_) => {
            let task = ConversionTask::reply(runtime, execution, target, completion)?;
            Ok(Delivered { forwarded: None, conversion: Some(task) })
        },
        None => match completion {
            Completion::Return(value) => {
                if target.tail {
                    return Ok(Delivered { forwarded: Some(completion), conversion: None });
                }
                if target.value_use == ReturnValue::Push {
                    execution.slots.push(value)?;
                }
                Ok(Delivered { forwarded: None, conversion: None })
            },
            Completion::Throw(_) => Ok(
                Delivered { forwarded: Some(completion), conversion: None },
            ),
        },
    }
}

fn convert(
    runtime: &mut Runtime,
    execution: &mut RunningExecution,
    id: FrameId,
    task: ConversionTask,
) -> (r: Result<Dispatch, Error>)
    requires
        old(runtime).wf(),
    ensures
        final(runtime).wf(),
        (final(runtime)@, final(execution)@, r) == old(execution)@.convert(
            old(runtime)@,
            id,
            task,
        ),
{
    match task.advance(runtime, execution)? {
        Progress::Ready(task) => Ok(Dispatch::Convert(task)),
        Progress::Entered => Ok(Dispatch::Continue),
        Progress::Complete(Completion::Throw(value)) => Ok(
            Dispatch::Complete(Completion::Throw(value)),
        ),
        Progress::Complete(Completion::Return(value)) => {
            let frame = execution.frames.current(id)?;
            execution.push_result(
                frame,
                value,
                Error::internal("conversion resume PC overflow"),
            )?;
            Ok(Dispatch::Continue)
        },
        Progress::PropertyRead(input) => match property_driver::read_converted(
            runtime,
            execution,
            id,
            input,
        )? {
            CallStep::Bridge => Err(Error::internal("converted property read attempted replay")),
            step => Ok(Dispatch::from_step(step)),
        },
        Progress::PropertyWrite(input) => {
            let step = property_write_driver::write_converted(runtime, execution, id, input)?;
            Ok(Dispatch::from_step(step))
        },
        Progress::Predicate(input) => defer_access(
            execution,
            id,
            PendingRequest::Predicate { key: input.key, target: input.target },
        ),
        Progress::SuperProperty(input) => defer_access(
            execution,
            id,
            PendingRequest::SuperProperty {
                key: input.key,
                receiver: input.receiver,
                home: input.home,
                operands: input.operands,
            },
        ),
    }
}

/// Leave an access with a converted key to the embedder.
fn defer_access(execution: &mut RunningExecution, id: FrameId, request: PendingRequest) -> (r: Result<
    Dispatch,
    Error,
>)
    ensures
        forall|heap: Heap|
            (heap, final(execution)@, r) == #[trigger] old(execution)@.defer_access(
                heap,
                id,
                request,
            ),
{
    let frame = execution.frames.current(id)?;
    execution.resume_after(frame, Error::internal("conversion resume PC overflow"))?;
    execution.pending_call = Some(
        PendingCall {
            request,
            return_to: ReturnTarget {
                value_use: ReturnValue::Push,
                frame: id,
                tail: false,
                operation: None,
            },
        },
    );
    Ok(Dispatch::Continue)
}

fn advance(
    runtime: &mut Runtime,
    execution: &mut RunningExecution,
    id: FrameId,
    state: DriverState,
    next_operation: &mut u64,
    fuel: &mut u64,
) -> (r: Result<Dispatch, Error>)
    requires
        old(runtime).wf(),
        *old(next_operation) == state.next_operation,
    ensures
        final(runtime).wf(),
        *final(fuel) <= *old(fuel),
        (final(runtime)@, final(execution)@, *final(next_operation), *final(fuel) as nat, r)
            == old(execution)@.advance(old(runtime)@, id, state, *old(fuel) as nat),
{
    match (state.conversion, state.forwarded) {
        (Some(task), _) => convert(runtime, execution, id, task),
        (None, Some(completion)) => Ok(Dispatch::Complete(completion)),
        (None, None) => match ready::run(runtime, execution, id, next_operation, fuel)? {
            Boundary::Entered => Ok(Dispatch::Continue),
            Boundary::Complete(completion) => Ok(Dispatch::Complete(completion)),
            Boundary::Conversion(exit) => {
                let id = match execution.frames.current_id() {
                    Some(id) => id,
                    None => {
                        return Err(Error::internal("driver lost its current frame"));
                    },
                };
                let task = ConversionTask::start(
                    runtime,
                    execution,
                    id,
                    *next_operation,
                    exit == RunExit::ConvertAdd,
                    false,
                )?;
                Ok(Dispatch::Convert(task))
            },
            Boundary::Exit(exit) => {
                let id = match execution.frames.current_id() {
                    Some(id) => id,
                    None => {
                        return Err(Error::internal("driver lost its current frame"));
                    },
                };
                dispatch(runtime, execution, id, exit, next_operation)
            },
        },
    }
}

fn end_frame(
    runtime: &mut Runtime,
    execution: &mut RunningExecution,
    id: FrameId,
    forwarded: Option<Completion>,
) -> (r: Result<Ended, Error>)
    requires
        old(runtime).wf(),
    ensures
        final(runtime).wf(),
        (final(runtime)@, final(execution)@, r) == old(execution)@.end_frame(
            old(runtime)@,
            id,
            forwarded,
        ),
{
    let exit = frame_exit::finish(runtime, execution, id, RunExit::Complete, forwarded)?;
    match exit.return_to {
        None => Ok(Ended::Finished(exit.completion)),
        Some(target) => {
            let delivered = deliver(runtime, execution, target, exit.completion)?;
            Ok(Ended::Going(delivered))
        },
    }
}

fn complete_frame(
    runtime: &mut Runtime,
    execution: &mut RunningExecution,
    forwarded: Option<Completion>,
) -> (r: Result<Ended, Error>)
    requires
        old(runtime).wf(),
    ensures
        final(runtime).wf(),
        (final(runtime)@, final(execution)@, r) == old(execution)@.complete_frame(
            old(runtime)@,
            forwarded,
        ),
{
    let id = match execution.frames.current_id() {
        Some(id) => id,
        None => {
            return Err(Error::internal("driver lost its current frame"));
        },
    };
    match forwarded {
        Some(Completion::Throw(value)) => match unwind(runtime, execution, id, value)? {
            CallStep::Entered => Ok(
                Ended::Going(Delivered { forwarded: None, conversion: None }),
            ),
            CallStep::Complete(completion) => end_frame(runtime, execution, id, Some(completion)),
            CallStep::Bridge => Ok(Ended::Handoff(Completion::Throw(value))),
        },
        _ => end_frame(runtime, execution, id, forwarded),
    }
}

/// One turn of the driver: what the current frame does next, and the end of that
/// frame if it returns or throws.
pub fn turn(
    runtime: &mut Runtime,
    execution: &mut RunningExecution,
    state: &mut DriverState,
    fuel: &mut u64,
) -> (r: Result<Option<Stop>, Error>)
    requires
        old(runtime).wf(),
    ensures
        final(runtime).wf(),
        *final(fuel) <= *old(fuel),
        (final(runtime)@, final(execution)@, *final(state), *final(fuel) as nat, r) == old(
            execution,
        )@.turn(old(runtime)@, *old(state), *old(fuel) as nat),
{
    if execution.pending_call.is_some() {
        if state.forwarded.is_some() {
            return Err(Error::internal("pending call conflicts with a completion"));
        }
        return Ok(Some(Stop::Call));
    }
    let id = match execution.frames.current_id() {
        Some(id) => id,
        None => {
            return Err(Error::internal("driver lost its current frame"));
        },
    };
    if *fuel == 0 {
        return Ok(Some(Stop::Interrupted));
    }
    *fuel = *fuel - 1;
    let mut next_operation: u64 = state.next_operation;
    let dispatched = advance(runtime, execution, id, *state, &mut next_operation, fuel);
    *state = DriverState { forwarded: None, conversion: None, next_operation };
    let forwarded = match dispatched? {
        Dispatch::Continue => {
            return Ok(None);
        },
        Dispatch::Convert(task) => {
            state.conversion = Some(task);
            return Ok(None);
        },
        Dispatch::Bridge => {
            return Ok(Some(Stop::RootHandoff));
        },
        Dispatch::Interrupted => {
            return Ok(Some(Stop::Interrupted));
        },
        Dispatch::Return => None,
        Dispatch::Complete(completion) => Some(completion),
    };
    match complete_frame(runtime, execution, forwarded)? {
        Ended::Going(delivered) => {
            state.forwarded = delivered.forwarded;
            state.conversion = delivered.conversion;
            Ok(None)
        },
        Ended::Finished(completion) => Ok(Some(Stop::Complete(completion))),
        Ended::Handoff(completion) => {
            state.forwarded = Some(completion);
            Ok(Some(Stop::RootHandoff))
        },
    }
}

/// Turn until the driver stops.
#[verifier::loop_isolation(false)]
pub fn drive(
    runtime: &mut Runtime,
    execution: &mut RunningExecution,
    state: &mut DriverState,
    fuel: &mut u64,
) -> (r: Result<Stop, Error>)
    requires
        old(runtime).wf(),
    ensures
        final(runtime).wf(),
        (final(runtime)@, final(execution)@, *final(state), *final(fuel) as nat, r) == old(
            execution,
        )@.drive(old(runtime)@, *old(state), *old(fuel) as nat),
{
    reveal_with_fuel(Machine::drive, 2);
    let ghost expected = execution@.drive(runtime@, *state, *fuel as nat);
    loop
        invariant
            runtime.wf(),
            expected == execution@.drive(runtime@, *state, *fuel as nat),
        decreases *fuel,
    {
        let before: u64 = *fuel;
        match turn(runtime, execution, state, fuel)? {
            Some(stop) => {
                return Ok(stop);
            },
            None => {},
        }
        if *fuel >= before {
            return Ok(Stop::Interrupted);
        }
    }
}

/// An execution that the driver left and can take up again.
pub struct CallContinuation {
    pub execution: RunningExecution,
    pub state: DriverState,
}

/// How far an execution went.
pub enum RunningExit {
    Complete(Completion),
    /// The embedder has to complete the current instruction or, where the
    /// state keeps a forwarded throw, to close the iterator that it met.
    RootHandoff(CallContinuation),
    /// The embedder has to answer the pending call.
    Call(CallContinuation),
    /// The budget is used up.
    Interrupted(CallContinuation),
}

/// How far an execution went, as a mathematical value.
pub enum Exit {
    Complete(Completion),
    RootHandoff(Machine, DriverState),
    Call(Machine, DriverState),
    Interrupted(Machine, DriverState),
}

impl View for RunningExit {
    type V = Exit;

    open spec fn view(&self) -> Exit {
        match self {
            RunningExit::Complete(completion) => Exit::Complete(*completion),
            RunningExit::RootHandoff(left) => Exit::RootHandoff(left.execution@, left.state),
            RunningExit::Call(left) => Exit::Call(left.execution@, left.state),
            RunningExit::Interrupted(left) => Exit::Interrupted(left.execution@, left.state),
        }
    }
}

impl RunningExit {
    /// A run ended as `expected` says.  An execution that is over is no longer
    /// registered.
    pub open spec fn agrees(
        runtime: Heap,
        fuel: u64,
        before: Seq<(u64, u64)>,
        after: Seq<(u64, u64)>,
        guard: crate::execution::ExecutionGuard,
        r: Result<RunningExit, Error>,
        expected: (Heap, nat, Result<Exit, Error>),
    ) -> bool {
        &&& runtime == expected.0
        &&& fuel == expected.1
        &&& match r {
            Ok(exit) => expected.2 == Ok::<Exit, Error>(exit@) && after == if exit is Complete {
                guard.left(before)
            } else {
                before
            },
            Err(e) => expected.2 == Err::<Exit, Error>(e) && after == guard.left(before),
        }
    }
}

impl Heap {
    /// Ending the activations of frames that are dropped, the oldest first.
    pub open spec fn abandoned(self, frames: Seq<FrameRecord>, from: int) -> Heap
        decreases frames.len() - from,
    {
        if from < 0 || from >= frames.len() {
            self
        } else {
            self.retired(frames[from].frame.cold.entry_guard).abandoned(frames, from + 1)
        }
    }
}

impl Machine {
    /// Driving an execution until it is over or has to be left.
    pub open spec fn run_frames(self, heap: Heap, state: DriverState, fuel: nat) -> (
        Heap,
        nat,
        Result<Exit, Error>,
    ) {
        match self.drive(heap, state, fuel) {
            (heap, machine, state, left, Err(e)) => (
                heap.abandoned(machine.frames.frames, 0),
                left,
                Err(e),
            ),
            (heap, machine, state, left, Ok(Stop::Complete(completion))) => (
                heap.abandoned(machine.frames.frames, 0),
                left,
                Ok(Exit::Complete(completion)),
            ),
            (heap, machine, state, left, Ok(Stop::RootHandoff)) => (
                heap,
                left,
                Ok(Exit::RootHandoff(machine, state)),
            ),
            (heap, machine, state, left, Ok(Stop::Call)) => (
                heap,
                left,
                Ok(Exit::Call(machine, state)),
            ),
            (heap, machine, state, left, Ok(Stop::Interrupted)) => (
                heap,
                left,
                Ok(Exit::Interrupted(machine, state)),
            ),
        }
    }

    /// Running an entry as the root frame of a new execution.
    pub open spec fn execute(self, heap: Heap, entry: crate::call::request::Entry, fuel: nat) -> (
        Heap,
        nat,
        Result<Exit, Error>,
    ) {
        match self.push_entry(heap, entry) {
            (heap, _, Err(e)) => (heap, fuel, Err(e)),
            (heap, machine, Ok(_)) => machine.run_frames(
                heap,
                DriverState { forwarded: None, conversion: None, next_operation: 0 },
                fuel,
            ),
        }
    }

    /// How many arguments of a pending call lie on top of the operands.
    pub open spec fn spilled(request: PendingRequest) -> nat {
        match request {
            PendingRequest::Native { count, .. } => count as nat,
            PendingRequest::Call { count, .. } => count as nat,
            _ => 0,
        }
    }

    /// The embedder's answer to the pending call.
    pub open spec fn answer(self, heap: Heap, completion: Completion) -> (
        Heap,
        Machine,
        Result<Delivered, Error>,
    ) {
        match self.pending_call {
            None => (heap, self, Err(Error::internal("call continuation has no request"))),
            Some(call) => {
                let taken = Machine { pending_call: None, ..self };
                match self.frames.current(call.return_to.frame) {
                    Err(e) => (heap, taken, Err(e)),
                    Ok(frame) => match self.slots.discard(
                        frame.window,
                        Machine::spilled(call.request),
                    ) {
                        (slots, Err(e)) => (heap, Machine { slots, ..taken }, Err(e)),
                        (slots, Ok(_)) => (Machine { slots, ..taken }).deliver(
                            heap,
                            call.return_to,
                            completion,
                        ),
                    },
                }
            },
        }
    }
}

/// End the activations of an execution that is dropped.
pub fn abandon(runtime: &mut Runtime, execution: &RunningExecution)
    requires
        old(runtime).wf(),
    ensures
        final(runtime).wf(),
        final(runtime)@ == old(runtime)@.abandoned(execution@.frames.frames, 0),
{
    let mut i: usize = 0;
    while i < execution.frames.frames.len()
        invariant
            runtime.wf(),
            i <= execution@.frames.frames.len(),
            runtime@.abandoned(execution@.frames.frames, i as int) == old(runtime)@.abandoned(
                execution@.frames.frames,
                0,
            ),
        decreases execution@.frames.frames.len() - i,
    {
        runtime.retire_guard(execution.frames.frames[i].frame.cold.entry_guard);
        i = i + 1;
    }
}

/// Drive an execution until it is over or has to be left.
pub fn run_frames_with_state(
    runtime: &mut Runtime,
    registry: &mut ExecutionRegistry,
    execution: RunningExecution,
    state: DriverState,
    fuel: &mut u64,
) -> (r: Result<RunningExit, Error>)
    requires
        old(runtime).wf(),
    ensures
        final(runtime).wf(),
        final(registry).next == old(registry).next,
        RunningExit::agrees(
            final(runtime)@,
            *final(fuel),
            old(registry).active@,
            final(registry).active@,
            execution@.guard,
            r,
            execution@.run_frames(old(runtime)@, state, *old(fuel) as nat),
        ),
{
    let guard = execution.guard;
    let mut execution = execution;
    let mut state = state;
    match drive(runtime, &mut execution, &mut state, fuel) {
        Err(e) => {
            abandon(runtime, &execution);
            guard.leave(registry);
            Err(e)
        },
        Ok(Stop::Complete(completion)) => {
            abandon(runtime, &execution);
            guard.leave(registry);
            Ok(RunningExit::Complete(completion))
        },
        Ok(Stop::RootHandoff) => Ok(
            RunningExit::RootHandoff(CallContinuation { execution, state }),
        ),
        Ok(Stop::Call) => Ok(RunningExit::Call(CallContinuation { execution, state })),
        Ok(Stop::Interrupted) => Ok(
            RunningExit::Interrupted(CallContinuation { execution, state }),
        ),
    }
}

/// Drive an execution from its start.
pub fn run_frames(
    runtime: &mut Runtime,
    registry: &mut ExecutionRegistry,
    execution: RunningExecution,
    fuel: &mut u64,
) -> (r: Result<RunningExit, Error>)
    requires
        old(runtime).wf(),
    ensures
        final(runtime).wf(),
        final(registry).next == old(registry).next,
        RunningExit::agrees(
            final(runtime)@,
            *final(fuel),
            old(registry).active@,
            final(registry).active@,
            execution@.guard,
            r,
            execution@.run_frames(
                old(runtime)@,
                (DriverState { forwarded: None, conversion: None, next_operation: 0 }),
                *old(fuel) as nat,
            ),
        ),
{
    run_frames_with_state(
        runtime,
        registry,
        execution,
        DriverState { forwarded: None, conversion: None, next_operation: 0 },
        fuel,
    )
}

/// Run an entry as the root frame of a new execution.
pub fn execute(
    runtime: &mut Runtime,
    registry: &mut ExecutionRegistry,
    entry: FrameEntry,
    limits: ExecutionLimits,
    fuel: &mut u64,
) -> (r: Result<RunningExit, Error>)
    requires
        old(runtime).wf(),
    ensures
        final(runtime).wf(),
        old(registry).next == u64::MAX ==> {
            &&& r matches Err(e) && e == Error::internal("execution identity exhausted")
            &&& final(runtime)@ == old(runtime)@.retired(entry@.cold.entry_guard)
            &&& *final(registry) == *old(registry)
            &&& *final(fuel) == *old(fuel)
        },
        old(registry).next < u64::MAX ==> {
            let fresh = Machine::fresh(old(runtime)@.domain, old(registry).next, limits);
            &&& final(registry).next == old(registry).next + 1
            &&& RunningExit::agrees(
                final(runtime)@,
                *final(fuel),
                old(registry).active@.push((old(runtime)@.domain, old(registry).next)),
                final(registry).active@,
                fresh.guard,
                r,
                fresh.execute(old(runtime)@, entry@, *old(fuel) as nat),
            )
        },
{
    let entry_guard = entry.cold.entry_guard;
    let mut execution = match RunningExecution::new(registry, runtime, limits) {
        Ok(execution) => execution,
        Err(e) => {
            runtime.retire_guard(entry_guard);
            return Err(e);
        },
    };
    let guard = execution.guard;
    match push_frame(runtime, &mut execution, entry) {
        Ok(_) => {},
        Err(e) => {
            guard.leave(registry);
            return Err(e);
        },
    }
    run_frames(runtime, registry, execution, fuel)
}

impl CallContinuation {
    /// Give the embedder's answer to the pending call.
    pub fn invoke(&mut self, runtime: &mut Runtime, completion: Completion) -> (r: Result<
        (),
        Error,
    >)
        requires
            old(runtime).wf(),
        ensures
            final(runtime).wf(),
            final(runtime)@ == old(self).execution@.answer(old(runtime)@, completion).0,
            final(self).execution@ == old(self).execution@.answer(old(runtime)@, completion).1,
            match old(self).execution@.answer(old(runtime)@, completion).2 {
                Err(e) => r == Err::<(), Error>(e) && final(self).state == old(self).state,
                Ok(delivered) => r is Ok && final(self).state == (DriverState {
                    forwarded: delivered.forwarded,
                    conversion: delivered.conversion,
                    ..old(self).state
                }),
            },
    {
        let call = match self.execution.pending_call {
            Some(call) => call,
            None => {
                return Err(Error::internal("call continuation has no request"));
            },
        };
        self.execution.pending_call = None;
        let frame = self.execution.frames.current(call.return_to.frame)?;
        let count: usize = match call.request {
            PendingRequest::Native { count, .. } => count,
            PendingRequest::Call { count, .. } => count,
            _ => 0,
        };
        self.execution.slots.discard(frame.window, count)?;
        let delivered = deliver(runtime, &mut self.execution, call.return_to, completion)?;
        self.state.forwarded = delivered.forwarded;
        self.state.conversion = delivered.conversion;
        Ok(())
    }

    /// Go on with the execution.
    pub fn resume(
        self,
        runtime: &mut Runtime,
        registry: &mut ExecutionRegistry,
        fuel: &mut u64,
    ) -> (r: Result<RunningExit, Error>)
        requires
            old(runtime).wf(),
        ensures
            final(runtime).wf(),
            final(registry).next == old(registry).next,
            RunningExit::agrees(
                final(runtime)@,
                *final(fuel),
                old(registry).active@,
                final(registry).active@,
                self.execution@.guard,
                r,
                self.execution@.run_frames(old(runtime)@, self.state, *old(fuel) as nat),
            ),
    {
        run_frames_with_state(runtime, registry, self.execution, self.state, fuel)
    }

    /// Drop an execution that is not taken up again.
    pub fn abandon(self, runtime: &mut Runtime, registry: &mut ExecutionRegistry)
        requires
            old(runtime).wf(),
        ensures
            final(runtime).wf(),
            final(runtime)@ == old(runtime)@.abandoned(self.execution@.frames.frames, 0),
            final(registry).next == old(registry).next,
            final(registry).active@ == self.execution@.guard.left(old(registry).active@),
    {
        abandon(runtime, &self.execution);
        self.execution.guard.leave(registry);
    }
}

impl Machine {
    /// Answering the pending call and going on.
    #[verifier::opaque]
    pub open spec fn answer_and_run(
        self,
        heap: Heap,
        state: DriverState,
        active: Seq<(u64, u64)>,
        fuel: nat,
        completion: Completion,
    ) -> (Heap, Seq<(u64, u64)>, nat, Result<Exit, Error>) {
        match self.answer(heap, completion) {
            (heap, machine, Err(e)) => (
                heap.abandoned(machine.frames.frames, 0),
                machine.guard.left(active),
                fuel,
                Err(e),
            ),
            (heap, machine, Ok(delivered)) => match machine.run_frames(
                heap,
                DriverState {
                    forwarded: delivered.forwarded,
                    conversion: delivered.conversion,
                    ..state
                },
                fuel,
            ) {
                (heap, left, Err(e)) => (heap, machine.guard.left(active), left, Err(e)),
                (heap, left, Ok(exit)) => (
                    heap,
                    if exit is Complete {
                        machine.guard.left(active)
                    } else {
                        active
                    },
                    left,
                    Ok(exit),
                ),
            },
        }
    }
}

impl CallContinuation {
    /// Answer the pending call and go on.
    pub fn reply(
        self,
        runtime: &mut Runtime,
        registry: &mut ExecutionRegistry,
        completion: Completion,
        fuel: &mut u64,
    ) -> (r: Result<RunningExit, Error>)
        requires
            old(runtime).wf(),
        ensures
            final(runtime).wf(),
            final(registry).next == old(registry).next,
            ({
                let (heap, active, left, expected) = self.execution@.answer_and_run(
                    old(runtime)@,
                    self.state,
                    old(registry).active@,
                    *old(fuel) as nat,
                    completion,
                );
                &&& final(runtime)@ == heap
                &&& final(registry).active@ == active
                &&& *final(fuel) == left
                &&& match r {
                    Ok(exit) => expected == Ok::<Exit, Error>(exit@),
                    Err(e) => expected == Err::<Exit, Error>(e),
                }
            }),
    {
        proof {
            reveal(Machine::answer_and_run);
        }
        let mut continuation = self;
        match continuation.invoke(runtime, completion) {
            Ok(_) => {},
            Err(e) => {
                continuation.abandon(runtime, registry);
                return Err(e);
            },
        }
        continuation.resume(runtime, registry, fuel)
    }
}

impl Exit {
    /// Answering pending calls in order, as long as there are replies.
    pub open spec fn finished(
        self,
        heap: Heap,
        active: Seq<(u64, u64)>,
        fuel: nat,
        replies: Seq<Completion>,
        from: int,
    ) -> (Heap, Seq<(u64, u64)>, nat, Result<Exit, Error>)
        decreases replies.len() - from,
    {
        match self {
            Exit::Call(machine, state) => if from < 0 || from >= replies.len() {
                (heap, active, fuel, Ok(self))
            } else {
                match machine.answer_and_run(heap, state, active, fuel, replies[from]) {
                    (heap, active, left, Err(e)) => (heap, active, left, Err(e)),
                    (heap, active, left, Ok(exit)) => exit.finished(
                        heap,
                        active,
                        left,
                        replies,
                        from + 1,
                    ),
                }
            },
            _ => (heap, active, fuel, Ok(self)),
        }
    }
}

impl RunningExit {
    /// Answer pending calls in order until the execution is over or handed
    /// off, the budget is used up or there is no further reply.
    pub fn finish(
        self,
        runtime: &mut Runtime,
        registry: &mut ExecutionRegistry,
        replies: &Vec<Completion>,
        fuel: &mut u64,
    ) -> (r: Result<RunningExit, Error>)
        requires
            old(runtime).wf(),
        ensures
            final(runtime).wf(),
            final(registry).next == old(registry).next,
            ({
                let (heap, active, left, expected) = self@.finished(
                    old(runtime)@,
                    old(registry).active@,
                    *old(fuel) as nat,
                    replies@,
                    0,
                );
                &&& final(runtime)@ == heap
                &&& final(registry).active@ == active
                &&& *final(fuel) == left
                &&& match r {
                    Ok(exit) => expected == Ok::<Exit, Error>(exit@),
                    Err(e) => expected == Err::<Exit, Error>(e),
                }
            }),
    {
        let mut exit = self;
        let mut i: usize = 0;
        while i < replies.len()
            invariant
                runtime.wf(),
                registry.next == old(registry).next,
                i <= replies@.len(),
                exit@.finished(runtime@, registry.active@, *fuel as nat, replies@, i as int)
                    == self@.finished(
                    old(runtime)@,
                    old(registry).active@,
                    *old(fuel) as nat,
                    replies@,
                    0,
                ),
            decreases replies@.len() - i,
        {
            match exit {
                RunningExit::Call(continuation) => {
                    exit = continuation.reply(runtime, registry, replies[i], fuel)?;
                },
                other => {
                    return Ok(other);
                },
            }
            i = i + 1;
        }
        Ok(exit)
    }
}

/// What a completion does to the frame that waits for it: a returned value is
/// pushed where it was asked for and dropped where it was not, the result of a
/// call in tail position ends the caller with it, and a throw goes on in the
/// caller.
pub proof fn completions_reach_their_caller(
    machine: Machine,
    heap: Heap,
    target: ReturnTarget,
    frame: Frame,
    value: JsValue,
)
    requires
        machine.frames.current(target.frame) == Ok::<Frame, Error>(frame),
        target.operation is None,
        machine.slots.values.len() < machine.slots.limit,
    ensures
        ({
            let (after, m, r) = machine.deliver(heap, target, Completion::Return(value));
            let nothing = Delivered { forwarded: None, conversion: None };
            &&& after == heap
            &&& m.frames == machine.frames
            &&& target.tail ==> m == machine && r == Ok::<Delivered, Error>(
                Delivered { forwarded: Some(Completion::Return(value)), conversion: None },
            )
            &&& !target.tail ==> r == Ok::<Delivered, Error>(nothing)
            &&& !target.tail && target.value_use is Push ==> m.slots.values
                == machine.slots.values.push(crate::slots::FrameBinding::Direct(value))
            &&& !target.tail && target.value_use is Discard ==> m == machine
        }),
        machine.deliver(heap, target, Completion::Throw(value)) == (
            heap,
            machine,
            Ok::<Delivered, Error>(
                Delivered { forwarded: Some(Completion::Throw(value)), conversion: None },
            ),
        ),
{
}

/// Additions, unary pluses and key conversions start as what they are: both
/// operands for an addition, one for the others, and a key for a key.
pub proof fn conversions_start_as_their_instruction(
    machine: Machine,
    heap: Heap,
    id: FrameId,
    frame: Frame,
    next: u64,
    left: JsValue,
    right: JsValue,
)
    requires
        machine.frames.current(id) == Ok::<Frame, Error>(frame),
        machine.slots.peek(frame.window, 0) == Ok::<JsValue, Error>(right),
        machine.slots.peek(frame.window, 1) == Ok::<JsValue, Error>(left),
        heap.in_domain(left),
        heap.in_domain(right),
        next < u64::MAX,
    ensures
        machine.dispatch(heap, id, RunExit::ConvertAdd, next).3 matches Ok(Dispatch::Convert(task))
            && task.begins(
            heap,
            id,
            (next + 1) as u64,
            frame.realm,
            crate::conversion_driver::Finish::AddLeft(right),
            left,
            crate::primitive::ToPrimitiveHint::Default,
        ),
        machine.dispatch(heap, id, RunExit::ConvertPlus, next).3 matches Ok(Dispatch::Convert(task))
            && task.begins(
            heap,
            id,
            (next + 1) as u64,
            frame.realm,
            crate::conversion_driver::Finish::Plus,
            right,
            crate::primitive::ToPrimitiveHint::Number,
        ),
        machine.dispatch(heap, id, RunExit::ConvertPropertyKey, next).3 matches Ok(
            Dispatch::Convert(task),
        ) && task.begins(
            heap,
            id,
            (next + 1) as u64,
            frame.realm,
            crate::conversion_driver::Finish::PropertyKey,
            right,
            crate::primitive::ToPrimitiveHint::String,
        ),
{
    reveal(Machine::dispatch);
    crate::conversion_driver::operators_convert_for_their_purpose(
        machine,
        heap,
        id,
        (next + 1) as u64,
        frame,
        left,
        right,
    );
}

/// A computed write whose key, the operand below the value, is an object starts
/// by converting that key to a text; any other key is written at once.
pub proof fn computed_writes_convert_object_keys(
    machine: Machine,
    heap: Heap,
    id: FrameId,
    frame: Frame,
    next: u64,
    base: JsValue,
    key: JsValue,
    value: JsValue,
)
    requires
        machine.frames.current(id) == Ok::<Frame, Error>(frame),
        machine.slots.peek(frame.window, 2) == Ok::<JsValue, Error>(base),
        machine.slots.peek(frame.window, 1) == Ok::<JsValue, Error>(key),
        machine.slots.peek(frame.window, 0) == Ok::<JsValue, Error>(value),
        next < u64::MAX,
    ensures
        key is Object ==> machine.dispatch(heap, id, RunExit::SetProperty(None), next)
            == Machine::converted(
            heap,
            machine.start_property_write(heap, id, (next + 1) as u64),
            (next + 1) as u64,
        ),
        !(key is Object) ==> machine.dispatch(heap, id, RunExit::SetProperty(None), next)
            == Machine::dispatched(machine.write(heap, id, None), next),
{
    reveal(Machine::dispatch);
}

/// The driver stops at a pending call before it does anything, and at an empty
/// budget before it runs a frame: the execution is as it was.
pub proof fn the_driver_stops_before_it_runs(
    machine: Machine,
    heap: Heap,
    state: DriverState,
    fuel: nat,
)
    ensures
        machine.pending_call is Some && state.forwarded is None ==> machine.turn(heap, state, fuel)
            == (heap, machine, state, fuel, Ok::<Option<Stop>, Error>(Some(Stop::Call))),
        machine.pending_call is None && machine.frames.frames.len() > 0 ==> machine.turn(
            heap,
            state,
            0,
        ) == (heap, machine, state, 0nat, Ok::<Option<Stop>, Error>(Some(Stop::Interrupted))),
        machine.pending_call is None && machine.frames.frames.len() == 0 ==> machine.turn(
            heap,
            state,
            fuel,
        ).4 is Err,
{
}

/// The last frame ends the run: a completion that no frame waits for is the
/// result, as it is.
pub proof fn the_last_frame_gives_the_result(
    machine: Machine,
    heap: Heap,
    state: DriverState,
    fuel: nat,
    id: FrameId,
    frame: Frame,
    completion: Completion,
    value: JsValue,
)
    requires
        machine.frames.current(id) == Ok::<Frame, Error>(frame),
        frame.cold.return_to is None,
        frame.region_base == machine.regions.len(),
        frame.cold.constructor_return is None,
        frame.cold.entry_guard matches Some(guard) ==> heap.finished(guard).1 is Ok,
    ensures
        machine.turn_ended(heap, state, fuel, Some(completion)).4 == Ok::<Option<Stop>, Error>(
            Some(Stop::Complete(completion)),
        ),
        machine.pending == Some(value) ==> machine.turn_ended(heap, state, fuel, None).4 == Ok::<
            Option<Stop>,
            Error,
        >(Some(Stop::Complete(Completion::Return(value)))),
        machine.turn_ended(heap, state, fuel, Some(completion)).1.frames.frames
            == machine.frames.frames.drop_last(),
{
    crate::frame_exit::frames_end_with_their_completion(
        machine,
        heap,
        id,
        frame,
        value,
        completion,
    );
}

} // verus!
