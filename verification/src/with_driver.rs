//! Presence checks of object environments, which may run getters.
use vstd::prelude::*;
use crate::call::request::{BytecodeCallRequest, Request};
use crate::code::{BindingKind, DynamicEnvironmentSource, FunctionBytecode};
use crate::driver::{push_frame, CallStep};
use crate::environment_bindings::operation::{EnvironmentResume, EnvironmentStep};
use crate::error::Error;
use crate::execution::{Machine, PendingCall, PendingRequest, RunningExecution};
use crate::frame::{Frame, FrameCold, FrameId, OperationTarget, ReturnTarget, ReturnValue};
use crate::heap::Heap;
use crate::object::OrdinaryRead;
use crate::property_driver::static_key;
use crate::runtime::Runtime;
use crate::slots::FrameBinding;
use crate::value::{Completion, JsValue, ObjectRef, PropertyKey};

verus! {

/// A presence check that waits for a getter.
#[derive(Clone, Copy, Debug)]
pub struct PendingHas {
    pub identity: u64,
    pub resume: EnvironmentResume,
}

impl Heap {
    /// The key of a name that is looked up while the program runs.
    pub open spec fn linked_key(function: FunctionBytecode, name: u32) -> Result<PropertyKey, Error> {
        match Heap::static_key(function, name) {
            Ok(key) => Ok(key),
            Err(_) => Err(Error::internal("dynamic name has no linked key")),
        }
    }

    /// The value behind a captured variable.
    pub open spec fn environment_cell(self, cell: usize) -> Result<JsValue, Error> {
        match self.cell_at(cell) {
            Err(e) => Err(e),
            Ok(data) => match data.value {
                Some(value) => Ok(value),
                None => Err(Error::internal("dynamic environment is not an object")),
            },
        }
    }
}

impl Machine {
    /// What kind of environment a source holds.
    pub open spec fn environment_kind(
        function: FunctionBytecode,
        source: DynamicEnvironmentSource,
    ) -> Result<BindingKind, Error> {
        let kind = match source {
            DynamicEnvironmentSource::Local(index) => if index < function.local_definitions@.len() {
                Some(function.local_definitions@[index as int].kind)
            } else {
                None
            },
            DynamicEnvironmentSource::Closure(index) => if index
                < function.closure_variables@.len() {
                Some(function.closure_variables@[index as int].kind)
            } else {
                None
            },
        };
        match kind {
            Some(BindingKind::WithObject) => Ok(BindingKind::WithObject),
            Some(BindingKind::EvalVariableObject) => Ok(BindingKind::EvalVariableObject),
            _ => Err(Error::internal("dynamic environment has another binding kind")),
        }
    }

    /// The value that an environment source holds.
    pub open spec fn environment_value(
        self,
        heap: Heap,
        frame: Frame,
        source: DynamicEnvironmentSource,
    ) -> Result<JsValue, Error> {
        match source {
            DynamicEnvironmentSource::Local(index) => match self.slots.local(frame.window, index) {
                Err(e) => Err(e),
                Ok(FrameBinding::Direct(value)) => Ok(value),
                Ok(FrameBinding::Captured { cell, .. }) => heap.environment_cell(cell),
                Ok(FrameBinding::Uninitialized) => Err(
                    Error::internal("dynamic environment is not an object"),
                ),
            },
            DynamicEnvironmentSource::Closure(index) => match heap.closure_cell(
                frame.cold.function,
                index,
            ) {
                Err(e) => Err(e),
                Ok(cell) => heap.environment_cell(cell),
            },
        }
    }

    /// The object that an environment source holds, and its kind.
    pub open spec fn dynamic_object(
        self,
        heap: Heap,
        frame: Frame,
        source: DynamicEnvironmentSource,
    ) -> Result<(ObjectRef, BindingKind), Error> {
        match heap.function_at(frame.executable) {
            Err(e) => Err(e),
            Ok(function) => match Machine::environment_kind(function, source) {
                Err(e) => Err(e),
                Ok(kind) => match self.environment_value(heap, frame, source) {
                    Err(e) => Err(e),
                    Ok(JsValue::Object(object)) => if heap.belongs(object) {
                        Ok((object, kind))
                    } else {
                        Err(Error::wrong_runtime("dynamic environment"))
                    },
                    Ok(_) => Err(Error::internal("dynamic environment is not an object")),
                },
            },
        }
    }

    /// Starting a presence check.
    pub open spec fn start_has(
        self,
        heap: Heap,
        id: FrameId,
        source: DynamicEnvironmentSource,
        name: u32,
        identity: u64,
    ) -> (Heap, Machine, Result<CallStep, Error>) {
        match self.frames.current(id) {
            Err(e) => (heap, self, Err(e)),
            Ok(frame) => match (
                self.dynamic_object(heap, frame, source),
                heap.function_at(frame.executable),
            ) {
                (Err(e), _) => (heap, self, Err(e)),
                (_, Err(e)) => (heap, self, Err(e)),
                (Ok((object, kind)), Ok(function)) => match Heap::linked_key(function, name) {
                    Err(e) => (heap, self, Err(e)),
                    Ok(key) => self.advance_has(
                        heap,
                        id,
                        frame,
                        EnvironmentStep::has_binding(frame.realm, object, key, kind is WithObject),
                        identity,
                        3,
                    ),
                },
            },
        }
    }

    /// Going on with a presence check that can take `fuel` more replies.
    pub open spec fn advance_has(
        self,
        heap: Heap,
        id: FrameId,
        frame: Frame,
        step: EnvironmentStep,
        identity: u64,
        fuel: nat,
    ) -> (Heap, Machine, Result<CallStep, Error>)
        decreases fuel,
    {
        match step {
            EnvironmentStep::Complete(Completion::Throw(value)) => (
                heap,
                self,
                Ok(CallStep::Complete(Completion::Throw(value))),
            ),
            EnvironmentStep::Complete(Completion::Return(value)) => {
                let (machine, r) = self.push_result(
                    frame,
                    value,
                    Error::internal("environment resume PC overflow"),
                );
                Machine::step_done((heap, machine, r))
            },
            _ => match step.calls(heap) {
                Some((key, read, resume)) => self.await_has(
                    heap,
                    id,
                    frame,
                    key,
                    read,
                    PendingHas { identity, resume },
                ),
                None => if fuel == 0 {
                    (heap, self, Err(Error::internal("presence check did not end")))
                } else {
                    match step.advance_spec(heap) {
                        (heap, Err(e)) => {
                            let (heap, r) = heap.throw_step(frame.realm, e);
                            (heap, self, r)
                        },
                        (heap, Ok(None)) => (heap, self, Ok(CallStep::Bridge)),
                        (heap, Ok(Some(next))) => self.advance_has(
                            heap,
                            id,
                            frame,
                            next,
                            identity,
                            (fuel - 1) as nat,
                        ),
                    }
                },
            },
        }
    }

    pub open spec fn has_waits(self, frame: Frame, has_binding_wait: Option<PendingHas>) -> Machine {
        Machine {
            frames: self.frames.stored(
                Frame { cold: FrameCold { has_binding_wait, ..frame.cold }, ..frame },
            ),
            ..self
        }
    }

    /// A getter of ordinary code runs as a frame; any other read goes to the
    /// embedder.
    pub open spec fn await_has(
        self,
        heap: Heap,
        id: FrameId,
        frame: Frame,
        key: PropertyKey,
        read: OrdinaryRead,
        pending: PendingHas,
    ) -> (Heap, Machine, Result<CallStep, Error>) {
        let return_to = ReturnTarget {
            value_use: ReturnValue::Push,
            frame: id,
            tail: false,
            operation: Some(OperationTarget::HasBinding(pending.identity)),
        };
        let busy = Error::internal("HasBinding overwrote a pending operation");
        match read {
            OrdinaryRead::Call { getter, receiver } => match heap.ordinary_getter(getter) {
                Err(e) => (heap, self, Err(e)),
                Ok(Some((bytecode, count))) => if !self.frames.can_push() || heap.would_overflow() {
                    let (heap, r) = heap.overflow_step(frame.realm);
                    (heap, self, r)
                } else {
                    match heap.request_entry(
                        Request {
                            callable: getter,
                            receiver,
                            new_target: JsValue::Undefined,
                            arguments: Seq::empty(),
                            bytecode,
                            closure_count: count,
                            caller_realm: frame.realm,
                            return_to,
                        },
                    ) {
                        (heap, Err(e)) => (heap, self, Err(e)),
                        (heap, Ok(entry)) => if frame.cold.has_binding_wait is Some {
                            (heap.retired(entry.cold.entry_guard), self, Err(busy))
                        } else {
                            match self.has_waits(frame, Some(pending)).push_entry(heap, entry) {
                                (heap, machine, Err(e)) => (heap, machine, Err(e)),
                                (heap, machine, Ok(_)) => (heap, machine, Ok(CallStep::Entered)),
                            }
                        },
                    }
                },
                Ok(None) => {
                    let (machine, r) = self.pend_has(
                        frame,
                        pending,
                        PendingCall {
                            request: PendingRequest::Call { callable: getter, receiver, count: 0 },
                            return_to,
                        },
                    );
                    (heap, machine, r)
                },
            },
            OrdinaryRead::Special { object, receiver } => {
                let (machine, r) = self.pend_has(
                    frame,
                    pending,
                    PendingCall {
                        request: PendingRequest::Get { object, key, receiver },
                        return_to,
                    },
                );
                (heap, machine, r)
            },
            OrdinaryRead::Complete(_) => (
                heap,
                self,
                Err(Error::internal("presence check waits for a finished read")),
            ),
        }
    }

    pub open spec fn pend_has(self, frame: Frame, pending: PendingHas, call: PendingCall) -> (
        Machine,
        Result<CallStep, Error>,
    ) {
        if frame.cold.has_binding_wait is Some {
            (self, Err(Error::internal("HasBinding overwrote a pending operation")))
        } else {
            (
                Machine { pending_call: Some(call), ..self.has_waits(frame, Some(pending)) },
                Ok(CallStep::Entered),
            )
        }
    }

    /// Answering a presence check.
    pub open spec fn has_reply(self, heap: Heap, target: ReturnTarget, completion: Completion) -> (
        Heap,
        Machine,
        Result<CallStep, Error>,
    ) {
        match self.frames.current(target.frame) {
            Err(e) => (heap, self, Err(e)),
            Ok(frame) => match frame.cold.has_binding_wait {
                None => (heap, self, Err(Error::internal("HasBinding reply has no pending owner"))),
                Some(pending) => {
                    let taken = self.has_waits(frame, None);
                    if target.operation != Some(OperationTarget::HasBinding(pending.identity)) {
                        (heap, taken, Err(Error::internal("HasBinding reply identity mismatch")))
                    } else {
                        match pending.resume.resume_spec(heap, completion) {
                            Err(e) => (heap, taken, Err(e)),
                            Ok(step) => taken.advance_has(
                                heap,
                                target.frame,
                                Frame {
                                    cold: FrameCold { has_binding_wait: None, ..frame.cold },
                                    ..frame
                                },
                                step,
                                pending.identity,
                                3,
                            ),
                        }
                    }
                },
            },
        }
    }
}

impl EnvironmentStep {
    /// The read of this step, where it has to run code.
    pub open spec fn calls(self, heap: Heap) -> Option<
        (PropertyKey, OrdinaryRead, EnvironmentResume),
    > {
        match self {
            EnvironmentStep::Read { object, key, receiver, resume } => match heap.ordinary_read(
                object,
                key,
                receiver,
            ) {
                Ok(OrdinaryRead::Complete(_)) => None,
                Ok(read) => Some((key, read, resume)),
                Err(_) => None,
            },
            _ => None,
        }
    }

    fn pending_read(self, runtime: &Runtime) -> (r: Option<
        (PropertyKey, OrdinaryRead, EnvironmentResume),
    >)
        ensures
            r == self.calls(runtime@),
    {
        match self {
            EnvironmentStep::Read { object, key, receiver, resume } => {
                match runtime.prepare_ordinary_read(object, key, receiver) {
                    Ok(OrdinaryRead::Complete(_)) => None,
                    Ok(read) => Some((key, read, resume)),
                    Err(_) => None,
                }
            },
            _ => None,
        }
    }
}

/// The key of a name that is looked up while the program runs.
pub fn linked_key(function: &FunctionBytecode, name: u32) -> (r: Result<PropertyKey, Error>)
    ensures
        r == Heap::linked_key(*function, name),
{
    match static_key(function, name) {
        Ok(key) => Ok(key),
        Err(_) => Err(Error::internal("dynamic name has no linked key")),
    }
}

fn environment_cell(runtime: &Runtime, cell: usize) -> (r: Result<JsValue, Error>)
    ensures
        r == runtime@.environment_cell(cell),
{
    match runtime.cell(cell)?.value {
        Some(value) => Ok(value),
        None => Err(Error::internal("dynamic environment is not an object")),
    }
}

fn environment_kind(function: &FunctionBytecode, source: DynamicEnvironmentSource) -> (r: Result<
    BindingKind,
    Error,
>)
    ensures
        r == Machine::environment_kind(*function, source),
{
    let kind = match source {
        DynamicEnvironmentSource::Local(index) => {
            if (index as usize) < function.local_definitions.len() {
                Some(function.local_definitions[index as usize].kind)
            } else {
                None
            }
        },
        DynamicEnvironmentSource::Closure(index) => {
            if (index as usize) < function.closure_variables.len() {
                Some(function.closure_variables[index as usize].kind)
            } else {
                None
            }
        },
    };
    match kind {
        Some(BindingKind::WithObject) => Ok(BindingKind::WithObject),
        Some(BindingKind::EvalVariableObject) => Ok(BindingKind::EvalVariableObject),
        _ => Err(Error::internal("dynamic environment has another binding kind")),
    }
}

/// The object that an environment source holds, and its kind.
pub fn dynamic_object(
    runtime: &Runtime,
    execution: &RunningExecution,
    frame: Frame,
    source: DynamicEnvironmentSource,
) -> (r: Result<(ObjectRef, BindingKind), Error>)
    ensures
        r == execution@.dynamic_object(runtime@, frame, source),
{
    let kind = environment_kind(runtime.function_bytecode(frame.executable)?, source)?;
    let value = match source {
        DynamicEnvironmentSource::Local(index) => match execution.slots.local(
            frame.window,
            index,
        )? {
            FrameBinding::Direct(value) => value,
            FrameBinding::Captured { cell, .. } => environment_cell(runtime, cell)?,
            FrameBinding::Uninitialized => {
                return Err(Error::internal("dynamic environment is not an object"));
            },
        },
        DynamicEnvironmentSource::Closure(index) => {
            let cell: usize = runtime.closure_cell(frame.cold.function, index)?;
            environment_cell(runtime, cell)?
        },
    };
    match value {
        JsValue::Object(object) => {
            if object.domain == runtime.domain_id() {
                Ok((object, kind))
            } else {
                Err(Error::wrong_runtime("dynamic environment"))
            }
        },
        _ => Err(Error::internal("dynamic environment is not an object")),
    }
}

impl RunningExecution {
    fn wait_for_has(&mut self, frame: Frame, has_binding_wait: Option<PendingHas>)
        requires
            old(self)@.frames.frames.len() > 0,
        ensures
            final(self)@ == old(self)@.has_waits(frame, has_binding_wait),
    {
        let mut frame = frame;
        frame.cold.has_binding_wait = has_binding_wait;
        self.frames.store(frame);
    }
}

fn await_has(
    runtime: &mut Runtime,
    execution: &mut RunningExecution,
    id: FrameId,
    frame: Frame,
    key: PropertyKey,
    read: OrdinaryRead,
    pending: PendingHas,
) -> (r: Result<CallStep, Error>)
    requires
        old(runtime).wf(),
        old(execution)@.frames.frames.len() > 0,
    ensures
        final(runtime).wf(),
        (final(runtime)@, final(execution)@, r) == old(execution)@.await_has(
            old(runtime)@,
            id,
            frame,
            key,
            read,
            pending,
        ),
{
    let return_to = ReturnTarget {
        value_use: ReturnValue::Push,
        frame: id,
        tail: false,
        operation: Some(OperationTarget::HasBinding(pending.identity)),
    };
    let request = match read {
        OrdinaryRead::Call { getter, receiver } => match runtime.ordinary_getter(getter)? {
            Some((bytecode, count)) => {
                if !execution.frames.can_push() || runtime.bytecode_call_would_overflow() {
                    return runtime.overflow_step(frame.realm);
                }
                let call = BytecodeCallRequest {
                    callable: getter,
                    receiver,
                    new_target: JsValue::Undefined,
                    arguments: Vec::new(),
                    bytecode,
                    closure_count: count,
                    caller_realm: frame.realm,
                    return_to,
                };
                let entry = call.prepare(runtime)?;
                if frame.cold.has_binding_wait.is_some() {
                    runtime.retire_guard(entry.cold.entry_guard);
                    return Err(Error::internal("HasBinding overwrote a pending operation"));
                }
                execution.wait_for_has(frame, Some(pending));
                let _ = push_frame(runtime, execution, entry)?;
                return Ok(CallStep::Entered);
            },
            None => PendingRequest::Call { callable: getter, receiver, count: 0 },
        },
        OrdinaryRead::Special { object, receiver } => PendingRequest::Get { object, key, receiver },
        OrdinaryRead::Complete(_) => {
            return Err(Error::internal("presence check waits for a finished read"));
        },
    };
    if frame.cold.has_binding_wait.is_some() {
        return Err(Error::internal("HasBinding overwrote a pending operation"));
    }
    execution.wait_for_has(frame, Some(pending));
    execution.pending_call = Some(PendingCall { request, return_to });
    Ok(CallStep::Entered)
}

#[verifier::loop_isolation(false)]
fn advance(
    runtime: &mut Runtime,
    execution: &mut RunningExecution,
    id: FrameId,
    frame: Frame,
    step: EnvironmentStep,
    identity: u64,
) -> (r: Result<CallStep, Error>)
    requires
        old(runtime).wf(),
        old(execution)@.frames.frames.len() > 0,
    ensures
        final(runtime).wf(),
        (final(runtime)@, final(execution)@, r) == old(execution)@.advance_has(
            old(runtime)@,
            id,
            frame,
            step,
            identity,
            3,
        ),
{
    let mut step = step;
    let mut fuel: u8 = 3;
    let ghost expected = execution@.advance_has(runtime@, id, frame, step, identity, 3);
    loop
        invariant
            runtime.wf(),
            execution@ == old(execution)@,
            expected == execution@.advance_has(
                runtime@,
                id,
                frame,
                step,
                identity,
                fuel as nat,
            ),
        decreases fuel,
    {
        match step {
            EnvironmentStep::Complete(Completion::Throw(value)) => {
                return Ok(CallStep::Complete(Completion::Throw(value)));
            },
            EnvironmentStep::Complete(Completion::Return(value)) => {
                execution.push_result(
                    frame,
                    value,
                    Error::internal("environment resume PC overflow"),
                )?;
                return Ok(CallStep::Entered);
            },
            _ => {},
        }
        match step.pending_read(runtime) {
            Some((key, read, resume)) => {
                return await_has(
                    runtime,
                    execution,
                    id,
                    frame,
                    key,
                    read,
                    PendingHas { identity, resume },
                );
            },
            None => {},
        }
        if fuel == 0 {
            return Err(Error::internal("presence check did not end"));
        }
        match step.advance(runtime) {
            Err(e) => {
                return runtime.throw_step(frame.realm, e);
            },
            Ok(None) => {
                return Ok(CallStep::Bridge);
            },
            Ok(Some(next)) => {
                step = next;
                fuel = fuel - 1;
            },
        }
    }
}

/// Start a presence check of an object environment.
pub fn start(
    runtime: &mut Runtime,
    execution: &mut RunningExecution,
    id: FrameId,
    source: DynamicEnvironmentSource,
    name: u32,
    identity: u64,
) -> (r: Result<CallStep, Error>)
    requires
        old(runtime).wf(),
    ensures
        final(runtime).wf(),
        (final(runtime)@, final(execution)@, r) == old(execution)@.start_has(
            old(runtime)@,
            id,
            source,
            name,
            identity,
        ),
{
    let frame = execution.frames.current(id)?;
    let (object, kind) = dynamic_object(runtime, execution, frame, source)?;
    let key = linked_key(runtime.function_bytecode(frame.executable)?, name)?;
    let step = EnvironmentStep::has_binding(
        frame.realm,
        object,
        key,
        kind == BindingKind::WithObject,
    );
    advance(runtime, execution, id, frame, step, identity)
}

/// Answer a presence check.  A reply to another request is refused.
pub fn reply(
    runtime: &mut Runtime,
    execution: &mut RunningExecution,
    target: ReturnTarget,
    completion: Completion,
) -> (r: Result<CallStep, Error>)
    requires
        old(runtime).wf(),
    ensures
        final(runtime).wf(),
        (final(runtime)@, final(execution)@, r) == old(execution)@.has_reply(
            old(runtime)@,
            target,
            completion,
        ),
{
    let mut frame = execution.frames.current(target.frame)?;
    let pending = match frame.cold.has_binding_wait {
        Some(pending) => pending,
        None => {
            return Err(Error::internal("HasBinding reply has no pending owner"));
        },
    };
    frame.cold.has_binding_wait = None;
    execution.frames.store(frame);
    if target.operation != Some(OperationTarget::HasBinding(pending.identity)) {
        return Err(Error::internal("HasBinding reply identity mismatch"));
    }
    let step = pending.resume.resume(runtime, completion)?;
    advance(runtime, execution, target.frame, frame, step, pending.identity)
}

/// A presence check ends: it never asks for more replies than it has.
pub proof fn presence_checks_end(
    machine: Machine,
    heap: Heap,
    id: FrameId,
    frame: Frame,
    step: EnvironmentStep,
    identity: u64,
    fuel: nat,
)
    requires
        step.remaining() <= fuel,
    ensures
        machine.advance_has(heap, id, frame, step, identity, fuel) == machine.advance_has(
            heap,
            id,
            frame,
            step,
            identity,
            fuel + 1,
        ),
    decreases fuel,
{
    reveal_with_fuel(Machine::advance_has, 2);
    match step {
        EnvironmentStep::Complete(_) => {},
        _ => match step.calls(heap) {
            Some(_) => {},
            None => match step.advance_spec(heap) {
                (after, Ok(Some(next))) => {
                    advancing_uses_a_reply(step, heap);
                    presence_checks_end(
                        machine,
                        after,
                        id,
                        frame,
                        next,
                        identity,
                        (fuel - 1) as nat,
                    );
                },
                _ => {},
            },
        },
    }
}

proof fn advancing_uses_a_reply(step: EnvironmentStep, heap: Heap)
    ensures
        step.advance_spec(heap).1 matches Ok(Some(next)) ==> next.remaining() < step.remaining(),
{
}

/// What a presence check leaves where no code has to run: whether the variable
/// object has the name; for the object of a `with`, that it has the name and
/// that its list of unscopable names does not exclude it.
pub proof fn presence_checks_say_what_is_bound(
    machine: Machine,
    heap: Heap,
    id: FrameId,
    frame: Frame,
    source: DynamicEnvironmentSource,
    name: u32,
    identity: u64,
    object: ObjectRef,
    kind: BindingKind,
    key: PropertyKey,
    present: bool,
    unscopables: Option<JsValue>,
    excluded: Option<JsValue>,
)
    requires
        machine.frames.current(id) == Ok::<Frame, Error>(frame),
        frame.fault_pc < usize::MAX,
        frame.executable < heap.code.len(),
        machine.slots.values.len() < machine.slots.limit,
        machine.dynamic_object(heap, frame, source) == Ok::<(ObjectRef, BindingKind), Error>(
            (object, kind),
        ),
        Heap::linked_key(heap.code[frame.executable as int], name) == Ok::<PropertyKey, Error>(key),
        heap.presence(object, key) == Ok::<Option<bool>, Error>(Some(present)),
        heap.ordinary_read(
            object,
            PropertyKey::Symbol(
                crate::value::SymbolRef {
                    domain: heap.domain,
                    index: crate::runtime::SYMBOL_UNSCOPABLES,
                },
            ),
            JsValue::Object(object),
        ) == Ok::<OrdinaryRead, Error>(OrdinaryRead::Complete(unscopables)),
        unscopables matches Some(JsValue::Object(list)) ==> heap.ordinary_read(
            list,
            key,
            JsValue::Object(list),
        ) == Ok::<OrdinaryRead, Error>(OrdinaryRead::Complete(excluded)),
    ensures
        ({
            let hidden = kind is WithObject && (unscopables matches Some(JsValue::Object(_)))
                && heap.truthy(
                match excluded {
                    Some(value) => value,
                    None => JsValue::Undefined,
                },
            );
            let (after, m, r) = machine.start_has(heap, id, source, name, identity);
            &&& r == Ok::<CallStep, Error>(CallStep::Entered)
            &&& after == heap
            &&& m.slots.values == machine.slots.values.push(
                FrameBinding::Direct(JsValue::Bool(present && !hidden)),
            )
            &&& m.frames.current(id) == Ok::<Frame, Error>(
                Frame { resume_pc: (frame.fault_pc + 1) as usize, ..frame },
            )
        }),
{
    reveal_with_fuel(Machine::advance_has, 5);
}

/// The environment that an instruction names: the object in the local or the
/// captured variable under its index, which must hold a `with` object or a
/// variable object.
pub proof fn environments_are_the_objects_in_their_variables(
    machine: Machine,
    heap: Heap,
    frame: Frame,
    index: u16,
    object: ObjectRef,
    cell: usize,
)
    requires
        frame.executable < heap.code.len(),
        object.domain == heap.domain,
    ensures
        ({
            let function = heap.code[frame.executable as int];
            let local = DynamicEnvironmentSource::Local(index);
            let closure = DynamicEnvironmentSource::Closure(index);
            &&& index < function.local_definitions@.len() && (
            function.local_definitions@[index as int].kind is WithObject
                || function.local_definitions@[index as int].kind is EvalVariableObject)
                && machine.slots.local(frame.window, index) == Ok::<FrameBinding, Error>(
                FrameBinding::Direct(JsValue::Object(object)),
            ) ==> machine.dynamic_object(heap, frame, local) == Ok::<
                (ObjectRef, BindingKind),
                Error,
            >((object, function.local_definitions@[index as int].kind))
            &&& index < function.closure_variables@.len() && (
            function.closure_variables@[index as int].kind is WithObject
                || function.closure_variables@[index as int].kind is EvalVariableObject)
                && heap.closure_cell(frame.cold.function, index) == Ok::<usize, Error>(cell) && cell
                < heap.cells.len() && heap.cells[cell as int].value == Some(JsValue::Object(object))
                ==> machine.dynamic_object(heap, frame, closure) == Ok::<
                (ObjectRef, BindingKind),
                Error,
            >((object, function.closure_variables@[index as int].kind))
        }),
{
}

/// A getter that a presence check has to run gets a frame of its own: on the
/// receiver of the read, without arguments, and its completion answers the
/// check, which waits in the frame below.  With no room it is an overflow.
pub proof fn getters_of_presence_checks_run_on_their_receiver(
    machine: Machine,
    heap: Heap,
    id: FrameId,
    frame: Frame,
    key: PropertyKey,
    getter: crate::value::CallableRef,
    receiver: JsValue,
    pending: PendingHas,
    bytecode: usize,
    count: usize,
)
    requires
        machine.frames.current(id) == Ok::<Frame, Error>(frame),
        heap.ordinary_getter(getter) == Ok::<Option<(usize, usize)>, Error>(
            Some((bytecode, count)),
        ),
    ensures
        ({
            let (after, m, r) = machine.await_has(
                heap,
                id,
                frame,
                key,
                OrdinaryRead::Call { getter, receiver },
                pending,
            );
            let n = machine.frames.frames.len() as int;
            let code = m.frames.frames[n].frame;
            let waiting = m.frames.frames[n - 1].frame;
            &&& !machine.frames.can_push() || heap.would_overflow() ==> m == machine && r
                == heap.overflow_step(frame.realm).1
            &&& machine.frames.can_push() && !heap.would_overflow() && r is Ok ==> {
                &&& m.frames.frames.len() == n + 1
                &&& code.executable == bytecode
                &&& code.cold.function == getter.object
                &&& code.cold.input.this_value == receiver
                &&& code.cold.input.new_target is Undefined
                &&& m.slots.actual_arguments(code.window) == Ok::<Seq<JsValue>, Error>(Seq::empty())
                &&& code.cold.return_to matches Some(target) && target.frame == id && !target.tail
                    && target.operation == Some(OperationTarget::HasBinding(pending.identity))
                &&& waiting.cold.has_binding_wait == Some(pending)
            }
        }),
{
    let return_to = ReturnTarget {
        value_use: ReturnValue::Push,
        frame: id,
        tail: false,
        operation: Some(OperationTarget::HasBinding(pending.identity)),
    };
    let request = Request {
        callable: getter,
        receiver,
        new_target: JsValue::Undefined,
        arguments: Seq::empty(),
        bytecode,
        closure_count: count,
        caller_realm: frame.realm,
        return_to,
    };
    if machine.frames.can_push() && !heap.would_overflow() && machine.await_has(
        heap,
        id,
        frame,
        key,
        OrdinaryRead::Call { getter, receiver },
        pending,
    ).2 is Ok {
        crate::call::request::requests_become_their_frame(heap, request);
        let entry = heap.request_entry(request).1->Ok_0;
        crate::slots::frames_keep_their_arguments(
            machine.slots,
            entry.original_arguments,
            entry.parameters,
            entry.locals,
            0,
        );
    }
}

/// A presence check takes only its own reply: another identity, and a frame that
/// waits for none, are refused, and a reply that throws is thrown.
pub proof fn presence_checks_take_their_own_reply(
    machine: Machine,
    heap: Heap,
    target: ReturnTarget,
    frame: Frame,
    completion: Completion,
)
    requires
        machine.frames.current(target.frame) == Ok::<Frame, Error>(frame),
        match frame.cold.has_binding_wait {
            None => true,
            Some(pending) => target.operation != Some(
                OperationTarget::HasBinding(pending.identity),
            ),
        },
    ensures
        machine.has_reply(heap, target, completion).2 is Err,
        machine.has_reply(heap, target, completion).0 == heap,
        machine.has_reply(heap, target, completion).1.slots == machine.slots,
{
}

/// A presence check that the embedder has to help with waits in its frame for
/// that reply; a frame that waits already takes no second one.
pub proof fn presence_checks_wait_once(
    machine: Machine,
    frame: Frame,
    pending: PendingHas,
    call: PendingCall,
    id: FrameId,
)
    requires
        machine.frames.current(id) == Ok::<Frame, Error>(frame),
    ensures
        frame.cold.has_binding_wait is Some ==> machine.pend_has(frame, pending, call).1 is Err
            && machine.pend_has(frame, pending, call).0 == machine,
        frame.cold.has_binding_wait is None ==> {
            let (m, r) = machine.pend_has(frame, pending, call);
            &&& r == Ok::<CallStep, Error>(CallStep::Entered)
            &&& m.pending_call == Some(call)
            &&& m.slots == machine.slots
            &&& m.frames.current(id) matches Ok(waiting) && waiting.cold.has_binding_wait == Some(
                pending,
            )
        },
{
}

} // verus!
