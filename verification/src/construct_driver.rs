//! Bytecode constructor bodies run as explicit child frames.
use vstd::prelude::*;
use crate::call::request::{BytecodeCallRequest, Request};
use crate::call::{CallableExecution, CreateStep};
use crate::class::DefineClassOutcome;
use crate::code::{BytecodeConstant, ConstructorKind, FunctionKind, MethodDefinition};
use crate::driver::{push_frame, CallStep};
use crate::error::{Error, ErrorKind, NativeErrorKind};
use crate::execution::{Machine, PendingCall, PendingRequest, RunningExecution};
use crate::frame::{ConstructorReturn, Frame, FrameCold, FrameId, OperationTarget, ReturnTarget, ReturnValue};
use crate::heap::{Heap, ObjectKind, ObjectPayload};
use crate::object::{OrdinaryRead, PropertyDescriptor};
use crate::property_driver::static_key;
use crate::runtime::{Runtime, ATOM_PROTOTYPE, MAX_ARGUMENTS};
use crate::value::{Atom, CallableRef, Completion, JsValue, ObjectRef, PropertyKey};

verus! {

/// A constructor call that waits for its prototype.  Its arguments lie on top
/// of the caller's operands.
#[derive(Clone, Copy, Debug, PartialEq, Eq, Structural)]
pub struct PendingConstructor {
    pub identity: u64,
    pub frame: FrameId,
    pub callable: CallableRef,
    pub new_target: JsValue,
    pub bytecode: usize,
    pub closure_count: usize,
    pub caller_realm: usize,
    pub argument_count: usize,
    pub operand_count: usize,
}

impl PendingConstructor {
    /// The call that goes on once the prototype is known.
    pub open spec fn request(self, arguments: Seq<JsValue>) -> Request {
        Request {
            callable: self.callable,
            receiver: JsValue::Undefined,
            new_target: self.new_target,
            arguments,
            bytecode: self.bytecode,
            closure_count: self.closure_count,
            caller_realm: self.caller_realm,
            return_to: ReturnTarget {
                value_use: ReturnValue::Push,
                frame: self.frame,
                tail: false,
                operation: None,
            },
        }
    }
}

/// What a class initializer instruction does.
#[derive(Clone, Copy, Debug, PartialEq, Eq, Structural)]
pub enum InitializerKind {
    Install,
    Instance,
    Static,
    Block,
}

/// A class definition that waits for its parent's prototype.
#[derive(Clone, Copy, Debug, PartialEq, Eq, Structural)]
pub struct PendingClass {
    pub identity: u64,
    pub frame: FrameId,
    pub realm: usize,
    pub parent: ObjectRef,
    pub constructor: JsValue,
    pub name: Atom,
}

/// What a constructor call selects.
pub enum ConstructSelection {
    /// The embedder constructs.
    Bridge,
    Throw(JsValue),
    Selected(BytecodeCallRequest, ConstructorKind),
}

/// A selection as a mathematical value.
pub enum Selection {
    Bridge,
    Throw(JsValue),
    Selected(Request, ConstructorKind),
}

impl View for ConstructSelection {
    type V = Selection;

    open spec fn view(&self) -> Selection {
        match self {
            ConstructSelection::Bridge => Selection::Bridge,
            ConstructSelection::Throw(value) => Selection::Throw(*value),
            ConstructSelection::Selected(request, kind) => Selection::Selected(request@, *kind),
        }
    }
}

impl ConstructSelection {
    /// A selection ended as `expected` says.
    pub open spec fn agrees(
        after: Heap,
        r: Result<ConstructSelection, Error>,
        expected: (Heap, Result<Selection, Error>),
    ) -> bool {
        after == expected.0 && match r {
            Ok(selection) => expected.1 == Ok::<Selection, Error>(selection@),
            Err(e) => expected.1 == Err::<Selection, Error>(e),
        }
    }
}

impl Heap {
    /// Unwinding the bound wrappers of a constructor.  A wrapper that is its
    /// own new target hands that role on to what it wraps.
    pub open spec fn select_constructor(
        self,
        realm: usize,
        callable: CallableRef,
        new_target: JsValue,
        arguments: Seq<JsValue>,
        return_to: ReturnTarget,
        fuel: nat,
    ) -> (Heap, Result<Selection, Error>)
        decreases fuel,
    {
        match self.constructor_bit(callable.object) {
            Err(e) => (self, Err(e)),
            Ok(false) => (self, Ok(Selection::Bridge)),
            Ok(true) => match self.classification(callable) {
                Err(e) => (self, Err(e)),
                Ok(CallableExecution::Bound { target, start, count, .. }) => {
                    let bound = self.bound_list(start, count);
                    if bound.len() + arguments.len() > MAX_ARGUMENTS {
                        match self.native_error(
                            realm,
                            NativeErrorKind::Range,
                            Error::new(ErrorKind::Range, "too many arguments"),
                        ) {
                            (heap, Ok(value)) => (heap, Ok(Selection::Throw(value))),
                            (heap, Err(e)) => (heap, Err(e)),
                        }
                    } else if fuel == 0 {
                        (self, Err(Error::broken("bound function chain is cyclic")))
                    } else {
                        self.select_constructor(
                            realm,
                            target,
                            if new_target == JsValue::Object(callable.object) {
                                JsValue::Object(target.object)
                            } else {
                                new_target
                            },
                            bound + arguments,
                            return_to,
                            (fuel - 1) as nat,
                        )
                    }
                },
                Ok(CallableExecution::Bytecode { bytecode, count, .. }) => (
                    self,
                    match self.function_at(bytecode) {
                        Err(e) => Err(e),
                        Ok(function) => if !(function.metadata.function_kind is Normal) {
                            Ok(Selection::Bridge)
                        } else if function.metadata.constructor_kind is NotConstructor {
                            Err(
                                Error::internal(
                                    "constructor bit disagrees with bytecode constructor metadata",
                                ),
                            )
                        } else {
                            Ok(
                                Selection::Selected(
                                    Request {
                                        callable,
                                        receiver: JsValue::Undefined,
                                        new_target,
                                        arguments,
                                        bytecode,
                                        closure_count: count,
                                        caller_realm: realm,
                                        return_to,
                                    },
                                    function.metadata.constructor_kind,
                                ),
                            )
                        },
                    },
                ),
                Ok(_) => (self, Ok(Selection::Bridge)),
            },
        }
    }
}

impl Runtime {
    /// Unwind the bound wrappers of a constructor.
    #[verifier::loop_isolation(false)]
    pub fn select_constructor(
        &mut self,
        realm: usize,
        callable: CallableRef,
        new_target: JsValue,
        arguments: Vec<JsValue>,
        return_to: ReturnTarget,
    ) -> (r: Result<ConstructSelection, Error>)
        requires
            old(self).wf(),
        ensures
            final(self).wf(),
            ConstructSelection::agrees(
                final(self)@,
                r,
                old(self)@.select_constructor(
                    realm,
                    callable,
                    new_target,
                    arguments@,
                    return_to,
                    old(self)@.objects.len(),
                ),
            ),
    {
        let mut callable = callable;
        let mut new_target = new_target;
        let mut arguments = arguments;
        let mut fuel: usize = self.objects.len();
        let ghost expected = self@.select_constructor(
            realm,
            callable,
            new_target,
            arguments@,
            return_to,
            self@.objects.len(),
        );
        loop
            invariant
                self.wf(),
                self@ == old(self)@,
                expected == self@.select_constructor(
                    realm,
                    callable,
                    new_target,
                    arguments@,
                    return_to,
                    fuel as nat,
                ),
            decreases fuel,
        {
            if !self.is_constructor(callable.object)? {
                return Ok(ConstructSelection::Bridge);
            }
            match self.classification(callable)? {
                CallableExecution::Bound { target, start, count, .. } => {
                    let mut bound = self.bound_arguments(start, count);
                    if bound.len() > MAX_ARGUMENTS || arguments.len() > MAX_ARGUMENTS - bound.len() {
                        let value = self.new_native_error_from_error(
                            realm,
                            NativeErrorKind::Range,
                            Error::new(ErrorKind::Range, "too many arguments"),
                        )?;
                        return Ok(ConstructSelection::Throw(value));
                    }
                    if fuel == 0 {
                        return Err(Error::broken("bound function chain is cyclic"));
                    }
                    bound.append(&mut arguments);
                    arguments = bound;
                    if new_target == JsValue::Object(callable.object) {
                        new_target = JsValue::Object(target.object);
                    }
                    fuel = fuel - 1;
                    callable = target;
                },
                CallableExecution::Bytecode { bytecode, count, .. } => {
                    let metadata = self.function_bytecode(bytecode)?.metadata;
                    if metadata.function_kind != FunctionKind::Normal {
                        return Ok(ConstructSelection::Bridge);
                    }
                    if metadata.constructor_kind == ConstructorKind::NotConstructor {
                        return Err(
                            Error::internal(
                                "constructor bit disagrees with bytecode constructor metadata",
                            ),
                        );
                    }
                    return Ok(
                        ConstructSelection::Selected(
                            BytecodeCallRequest {
                                callable,
                                receiver: JsValue::Undefined,
                                new_target,
                                arguments,
                                bytecode,
                                closure_count: count,
                                caller_realm: realm,
                                return_to,
                            },
                            metadata.constructor_kind,
                        ),
                    );
                },
                _ => {
                    return Ok(ConstructSelection::Bridge);
                },
            }
        }
    }
}

impl Machine {
    /// Constructing the operand below the new target and the arguments.
    pub open spec fn enter_construct(self, heap: Heap, id: FrameId, count: u16, identity: u64) -> (
        Heap,
        Machine,
        Result<CallStep, Error>,
    ) {
        match self.frames.current(id) {
            Err(e) => (heap, self, Err(e)),
            Ok(frame) => match self.slots.peek(frame.window, count as int + 1) {
                Err(e) => (heap, self, Err(e)),
                Ok(JsValue::Object(object)) => match heap.constructor_of(object) {
                    Err(e) => (heap, self, Err(e)),
                    Ok(None) => (heap, self, Ok(CallStep::Bridge)),
                    Ok(Some(callable)) => match (
                        self.slots.peek(frame.window, count as int),
                        self.slots.top(frame.window, count as nat),
                    ) {
                        (Err(e), _) => (heap, self, Err(e)),
                        (_, Err(e)) => (heap, self, Err(e)),
                        (Ok(new_target), Ok(arguments)) => if !heap.in_domain(new_target)
                            || heap.foreign_from(arguments, 0) is Some {
                            (heap, self, Ok(CallStep::Bridge))
                        } else {
                            self.enter_request(
                                heap,
                                id,
                                callable,
                                new_target,
                                arguments,
                                (count + 2) as nat,
                                identity,
                            )
                        },
                    },
                },
                Ok(_) => (heap, self, Ok(CallStep::Bridge)),
            },
        }
    }

    /// Constructing the parent of the running class with its own arguments.
    pub open spec fn enter_default_derived(self, heap: Heap, id: FrameId, identity: u64) -> (
        Heap,
        Machine,
        Result<CallStep, Error>,
    ) {
        match self.frames.current(id) {
            Err(e) => (heap, self, Err(e)),
            Ok(frame) => {
                let new_target = frame.cold.input.new_target;
                if new_target is Undefined {
                    (heap, self, Ok(CallStep::Bridge))
                } else {
                    match heap.prototype(frame.cold.function) {
                        Err(e) => (heap, self, Err(e)),
                        Ok(None) => (heap, self, Ok(CallStep::Bridge)),
                        Ok(Some(parent)) => match heap.constructor_of(parent) {
                            Err(e) => (heap, self, Err(e)),
                            Ok(None) => (heap, self, Ok(CallStep::Bridge)),
                            Ok(Some(callable)) => match self.slots.actual_arguments(frame.window) {
                                Err(e) => (heap, self, Err(e)),
                                Ok(arguments) => if !heap.in_domain(new_target)
                                    || heap.foreign_from(arguments, 0) is Some {
                                    (heap, self, Ok(CallStep::Bridge))
                                } else {
                                    self.enter_request(
                                        heap,
                                        id,
                                        callable,
                                        new_target,
                                        arguments,
                                        0,
                                        identity,
                                    )
                                },
                            },
                        },
                    }
                }
            },
        }
    }

    /// Constructing with given arguments in place of `operand_count` operands.
    pub open spec fn enter_request(
        self,
        heap: Heap,
        id: FrameId,
        callable: CallableRef,
        new_target: JsValue,
        arguments: Seq<JsValue>,
        operand_count: nat,
        identity: u64,
    ) -> (Heap, Machine, Result<CallStep, Error>) {
        match self.frames.current(id) {
            Err(e) => (heap, self, Err(e)),
            Ok(frame) => match heap.select_constructor(
                frame.realm,
                callable,
                new_target,
                arguments,
                ReturnTarget {
                    value_use: ReturnValue::Push,
                    frame: id,
                    tail: false,
                    operation: None,
                },
                heap.objects.len(),
            ) {
                (heap, Err(e)) => (heap, self, Err(e)),
                (heap, Ok(Selection::Bridge)) => (heap, self, Ok(CallStep::Bridge)),
                (heap, Ok(Selection::Throw(value))) => (
                    heap,
                    self,
                    Ok(CallStep::Complete(Completion::Throw(value))),
                ),
                (heap, Ok(Selection::Selected(request, kind))) => if kind is Derived {
                    self.install_constructor(
                        heap,
                        frame,
                        request,
                        operand_count,
                        ConstructorReturn::Derived,
                    )
                } else {
                    self.construct_base(heap, frame, request, operand_count, identity)
                },
            },
        }
    }

    /// Reading the prototype of the object that a base constructor starts with.
    pub open spec fn construct_base(
        self,
        heap: Heap,
        frame: Frame,
        request: Request,
        operand_count: nat,
        identity: u64,
    ) -> (Heap, Machine, Result<CallStep, Error>) {
        match request.new_target {
            JsValue::Object(object) => match heap.ordinary_read(
                object,
                PropertyKey::String(ATOM_PROTOTYPE),
                request.new_target,
            ) {
                Err(e) => (heap, self, Err(e)),
                Ok(OrdinaryRead::Complete(value)) => self.finish_prototype(
                    heap,
                    frame,
                    request,
                    operand_count,
                    Completion::Return(
                        match value {
                            Some(value) => value,
                            None => JsValue::Undefined,
                        },
                    ),
                ),
                Ok(read) => self.await_prototype(
                    heap,
                    frame,
                    request,
                    operand_count,
                    identity,
                    read,
                ),
            },
            _ => match heap.create(frame.realm, request.new_target) {
                (heap, Err(e)) => (heap, self, Err(e)),
                (heap, Ok(CreateStep::Complete(Completion::Throw(value)))) => (
                    heap,
                    self,
                    Ok(CallStep::Complete(Completion::Throw(value))),
                ),
                (heap, Ok(CreateStep::Complete(Completion::Return(receiver)))) =>
                    self.install_constructor(
                    heap,
                    frame,
                    request,
                    operand_count,
                    ConstructorReturn::Base(receiver),
                ),
                (heap, Ok(CreateStep::Read(read))) => self.await_prototype(
                    heap,
                    frame,
                    request,
                    operand_count,
                    identity,
                    read,
                ),
            },
        }
    }

    /// The frame that waits for the prototype of a constructor call, whose
    /// arguments lie on top.
    pub open spec fn constructor_waits(
        self,
        frame: Frame,
        request: Request,
        operand_count: nat,
        identity: u64,
    ) -> (Machine, Result<(), Error>) {
        if frame.cold.constructor_wait is Some || frame.cold.conversion is Some {
            (self, Err(Error::internal("constructor overwrote a pending operation")))
        } else {
            match self.slots.push_all(request.arguments) {
                (slots, Err(e)) => (Machine { slots, ..self }, Err(e)),
                (slots, Ok(_)) => (
                    Machine {
                        slots,
                        frames: self.frames.stored(
                            Frame {
                                cold: FrameCold {
                                    constructor_wait: Some(
                                        PendingConstructor {
                                            identity,
                                            frame: request.return_to.frame,
                                            callable: request.callable,
                                            new_target: request.new_target,
                                            bytecode: request.bytecode,
                                            closure_count: request.closure_count,
                                            caller_realm: request.caller_realm,
                                            argument_count: request.arguments.len() as usize,
                                            operand_count: operand_count as usize,
                                        },
                                    ),
                                    ..frame.cold
                                },
                                ..frame
                            },
                        ),
                        ..self
                    },
                    Ok(()),
                ),
            }
        }
    }

    /// A getter of ordinary code runs as a frame; any other read goes to the
    /// embedder.
    pub open spec fn await_prototype(
        self,
        heap: Heap,
        frame: Frame,
        request: Request,
        operand_count: nat,
        identity: u64,
        read: OrdinaryRead,
    ) -> (Heap, Machine, Result<CallStep, Error>) {
        let return_to = ReturnTarget {
            operation: Some(OperationTarget::Constructor(identity)),
            ..request.return_to
        };
        match read {
            OrdinaryRead::Call { getter, receiver } => match heap.ordinary_getter(getter) {
                Err(e) => (heap, self, Err(e)),
                Ok(Some((bytecode, count))) => if !self.frames.can_push() || heap.would_overflow() {
                    let (heap, r) = heap.overflow_step(frame.realm);
                    (heap, self, r)
                } else {
                    match heap.request_entry(
                        Request {
                            callable: getter,
                            receiver,
                            new_target: JsValue::Undefined,
                            arguments: Seq::empty(),
                            bytecode,
                            closure_count: count,
                            caller_realm: frame.realm,
                            return_to,
                        },
                    ) {
                        (heap, Err(e)) => (heap, self, Err(e)),
                        (heap, Ok(entry)) => match self.constructor_waits(
                            frame,
                            request,
                            operand_count,
                            identity,
                        ) {
                            (machine, Err(e)) => (
                                heap.retired(entry.cold.entry_guard),
                                machine,
                                Err(e),
                            ),
                            (machine, Ok(_)) => match machine.push_entry(heap, entry) {
                                (heap, machine, Err(e)) => (heap, machine, Err(e)),
                                (heap, machine, Ok(_)) => (heap, machine, Ok(CallStep::Entered)),
                            },
                        },
                    }
                },
                Ok(None) => {
                    let (machine, r) = self.pend_prototype(
                        frame,
                        request,
                        operand_count,
                        identity,
                        PendingRequest::Call { callable: getter, receiver, count: 0 },
                        return_to,
                    );
                    (heap, machine, r)
                },
            },
            OrdinaryRead::Special { object, receiver } => {
                let (machine, r) = self.pend_prototype(
                    frame,
                    request,
                    operand_count,
                    identity,
                    PendingRequest::Get {
                        object,
                        key: PropertyKey::String(ATOM_PROTOTYPE),
                        receiver,
                    },
                    return_to,
                );
                (heap, machine, r)
            },
            OrdinaryRead::Complete(value) => self.finish_prototype(
                heap,
                frame,
                request,
                operand_count,
                Completion::Return(
                    match value {
                        Some(value) => value,
                        None => JsValue::Undefined,
                    },
                ),
            ),
        }
    }

    pub open spec fn pend_prototype(
        self,
        frame: Frame,
        request: Request,
        operand_count: nat,
        identity: u64,
        pending: PendingRequest,
        return_to: ReturnTarget,
    ) -> (Machine, Result<CallStep, Error>) {
        match self.constructor_waits(frame, request, operand_count, identity) {
            (machine, Err(e)) => (machine, Err(e)),
            (machine, Ok(_)) => (
                Machine { pending_call: Some(PendingCall { request: pending, return_to }), ..machine },
                Ok(CallStep::Entered),
            ),
        }
    }

    /// Answering a constructor call that waits for its prototype.
    pub open spec fn constructor_reply(
        self,
        heap: Heap,
        target: ReturnTarget,
        completion: Completion,
    ) -> (Heap, Machine, Result<CallStep, Error>) {
        match self.frames.current(target.frame) {
            Err(e) => (heap, self, Err(e)),
            Ok(frame) => match frame.cold.constructor_wait {
                None => (
                    heap,
                    self,
                    Err(Error::internal("constructor reply has no pending owner")),
                ),
                Some(pending) => {
                    let frame = Frame {
                        cold: FrameCold { constructor_wait: None, ..frame.cold },
                        ..frame
                    };
                    let taken = Machine { frames: self.frames.stored(frame), ..self };
                    if target.operation != Some(OperationTarget::Constructor(pending.identity)) {
                        (
                            heap,
                            taken,
                            Err(Error::internal("constructor reply identity mismatch")),
                        )
                    } else {
                        match taken.slots.top(frame.window, pending.argument_count as nat) {
                            Err(e) => (heap, taken, Err(e)),
                            Ok(arguments) => {
                                let (slots, r) = taken.slots.discard(
                                    frame.window,
                                    pending.argument_count as nat,
                                );
                                let popped = Machine { slots, ..taken };
                                match r {
                                    Err(e) => (heap, popped, Err(e)),
                                    Ok(_) => popped.finish_prototype(
                                        heap,
                                        frame,
                                        pending.request(arguments),
                                        pending.operand_count as nat,
                                        completion,
                                    ),
                                }
                            },
                        }
                    }
                },
            },
        }
    }

    /// Making the object of a base constructor and entering the body.
    pub open spec fn finish_prototype(
        self,
        heap: Heap,
        frame: Frame,
        request: Request,
        dropped: nat,
        completion: Completion,
    ) -> (Heap, Machine, Result<CallStep, Error>) {
        match heap.constructed(request.caller_realm, request.new_target, completion) {
            (heap, Err(e)) => (heap, self, Err(e)),
            (heap, Ok(Completion::Throw(value))) => (
                heap,
                self,
                Ok(CallStep::Complete(Completion::Throw(value))),
            ),
            (heap, Ok(Completion::Return(receiver))) => self.install_constructor(
                heap,
                frame,
                request,
                dropped,
                ConstructorReturn::Base(receiver),
            ),
        }
    }

    /// Entering the body of a constructor in place of `dropped` operands.
    pub open spec fn install_constructor(
        self,
        heap: Heap,
        frame: Frame,
        request: Request,
        dropped: nat,
        result: ConstructorReturn,
    ) -> (Heap, Machine, Result<CallStep, Error>) {
        if !self.frames.can_push() || heap.would_overflow() {
            let (heap, r) = heap.overflow_step(request.caller_realm);
            (heap, self, r)
        } else {
            let (slots, r) = self.slots.discard(frame.window, dropped);
            let popped = Machine { slots, ..self };
            match r {
                Err(e) => (heap, popped, Err(e)),
                Ok(_) => match popped.resumed(
                    frame,
                    Error::internal("construct resume PC overflow"),
                ) {
                    (machine, Err(e)) => (heap, machine, Err(e)),
                    (machine, Ok(_)) => match heap.request_entry(
                        Request {
                            receiver: match result {
                                ConstructorReturn::Base(receiver) => receiver,
                                ConstructorReturn::Derived => request.receiver,
                            },
                            ..request
                        },
                    ) {
                        (heap, Err(e)) => (heap, machine, Err(e)),
                        (heap, Ok(entry)) => match machine.push_entry(
                            heap,
                            crate::call::request::Entry {
                                cold: FrameCold { constructor_return: Some(result), ..entry.cold },
                                ..entry
                            },
                        ) {
                            (heap, machine, Err(e)) => (heap, machine, Err(e)),
                            (heap, machine, Ok(_)) => (heap, machine, Ok(CallStep::Entered)),
                        },
                    },
                },
            }
        }
    }
}

impl Heap {
    /// An object that can be constructed.
    pub open spec fn constructor_of(self, object: ObjectRef) -> Result<Option<CallableRef>, Error> {
        if !self.belongs(object) {
            Ok(None)
        } else {
            match self.constructor_bit(object) {
                Err(e) => Err(e),
                Ok(false) => Ok(None),
                Ok(true) => self.callable(object),
            }
        }
    }

    /// The code of a getter that runs as a frame.
    pub open spec fn ordinary_getter(self, getter: CallableRef) -> Result<
        Option<(usize, usize)>,
        Error,
    > {
        match self.classification(getter) {
            Err(e) => Err(e),
            Ok(CallableExecution::Bytecode { bytecode, count, .. }) => match self.function_at(
                bytecode,
            ) {
                Err(e) => Err(e),
                Ok(function) => if function.metadata.function_kind is Normal {
                    Ok(Some((bytecode, count)))
                } else {
                    Ok(None)
                },
            },
            Ok(_) => Ok(None),
        }
    }

    /// Throwing a stack overflow as the outcome of an instruction.
    pub open spec fn overflow_step(self, realm: usize) -> (Heap, Result<CallStep, Error>) {
        match self.overflow(realm) {
            (heap, Ok(completion)) => (heap, Ok(CallStep::Complete(completion))),
            (heap, Err(e)) => (heap, Err(e)),
        }
    }
}

impl Runtime {
    fn constructor_of(&self, object: ObjectRef) -> (r: Result<Option<CallableRef>, Error>)
        ensures
            r == self@.constructor_of(object),
    {
        if object.domain != self.domain_id() || !self.is_constructor(object)? {
            return Ok(None);
        }
        self.as_callable(object)
    }

    /// The code of a getter that runs as a frame.
    pub fn ordinary_getter(&self, getter: CallableRef) -> (r: Result<Option<(usize, usize)>, Error>)
        ensures
            r == self@.ordinary_getter(getter),
    {
        match self.classification(getter)? {
            CallableExecution::Bytecode { bytecode, count, .. } => {
                if self.function_bytecode(bytecode)?.metadata.function_kind == FunctionKind::Normal {
                    Ok(Some((bytecode, count)))
                } else {
                    Ok(None)
                }
            },
            _ => Ok(None),
        }
    }

    /// Throw a stack overflow as the outcome of an instruction.
    pub fn overflow_step(&mut self, realm: usize) -> (r: Result<CallStep, Error>)
        requires
            old(self).wf(),
        ensures
            final(self).wf(),
            (final(self)@, r) == old(self)@.overflow_step(realm),
    {
        let completion = self.bytecode_stack_overflow_completion(realm)?;
        Ok(CallStep::Complete(completion))
    }
}

/// Construct the operand below the new target and the arguments.
pub fn enter(
    runtime: &mut Runtime,
    execution: &mut RunningExecution,
    id: FrameId,
    count: u16,
    identity: u64,
) -> (r: Result<CallStep, Error>)
    requires
        old(runtime).wf(),
    ensures
        final(runtime).wf(),
        (final(runtime)@, final(execution)@, r) == old(execution)@.enter_construct(
            old(runtime)@,
            id,
            count,
            identity,
        ),
{
    let frame = execution.frames.current(id)?;
    let count: usize = count as usize;
    let object = match execution.slots.peek(frame.window, count + 1)? {
        JsValue::Object(object) => object,
        _ => {
            return Ok(CallStep::Bridge);
        },
    };
    let callable = match runtime.constructor_of(object)? {
        Some(callable) => callable,
        None => {
            return Ok(CallStep::Bridge);
        },
    };
    let new_target = execution.slots.peek(frame.window, count)?;
    let arguments = execution.slots.top(frame.window, count)?;
    if runtime.validate_value_domain(new_target, "raw construct new target").is_err()
        || runtime.first_foreign(&arguments) {
        return Ok(CallStep::Bridge);
    }
    enter_request(runtime, execution, id, callable, new_target, arguments, count + 2, identity)
}

/// Construct the parent of the running class with its own arguments.
pub fn enter_default_derived(
    runtime: &mut Runtime,
    execution: &mut RunningExecution,
    id: FrameId,
    identity: u64,
) -> (r: Result<CallStep, Error>)
    requires
        old(runtime).wf(),
    ensures
        final(runtime).wf(),
        (final(runtime)@, final(execution)@, r) == old(execution)@.enter_default_derived(
            old(runtime)@,
            id,
            identity,
        ),
{
    let frame = execution.frames.current(id)?;
    let new_target = frame.cold.input.new_target;
    if new_target == JsValue::Undefined {
        return Ok(CallStep::Bridge);
    }
    let parent = match runtime.get_prototype_of(frame.cold.function)? {
        Some(parent) => parent,
        None => {
            return Ok(CallStep::Bridge);
        },
    };
    let callable = match runtime.constructor_of(parent)? {
        Some(callable) => callable,
        None => {
            return Ok(CallStep::Bridge);
        },
    };
    let arguments = execution.slots.snapshot_actual_arguments(frame.window)?;
    if runtime.validate_value_domain(new_target, "raw construct new target").is_err()
        || runtime.first_foreign(&arguments) {
        return Ok(CallStep::Bridge);
    }
    enter_request(runtime, execution, id, callable, new_target, arguments, 0, identity)
}

/// Construct with given arguments in place of `operand_count` operands.
pub fn enter_request(
    runtime: &mut Runtime,
    execution: &mut RunningExecution,
    id: FrameId,
    callable: CallableRef,
    new_target: JsValue,
    arguments: Vec<JsValue>,
    operand_count: usize,
    identity: u64,
) -> (r: Result<CallStep, Error>)
    requires
        old(runtime).wf(),
    ensures
        final(runtime).wf(),
        (final(runtime)@, final(execution)@, r) == old(execution)@.enter_request(
            old(runtime)@,
            id,
            callable,
            new_target,
            arguments@,
            operand_count as nat,
            identity,
        ),
{
    let frame = execution.frames.current(id)?;
    let return_to = ReturnTarget {
        value_use: ReturnValue::Push,
        frame: id,
        tail: false,
        operation: None,
    };
    let (request, kind) = match runtime.select_constructor(
        frame.realm,
        callable,
        new_target,
        arguments,
        return_to,
    )? {
        ConstructSelection::Bridge => {
            return Ok(CallStep::Bridge);
        },
        ConstructSelection::Throw(value) => {
            return Ok(CallStep::Complete(Completion::Throw(value)));
        },
        ConstructSelection::Selected(request, kind) => (request, kind),
    };
    if kind == ConstructorKind::Derived {
        return install(
            runtime,
            execution,
            frame,
            request,
            operand_count,
            ConstructorReturn::Derived,
        );
    }
    let read = match request.new_target {
        JsValue::Object(object) => runtime.prepare_ordinary_read(
            object,
            PropertyKey::String(ATOM_PROTOTYPE),
            request.new_target,
        )?,
        _ => match runtime.create_from_constructor_value(frame.realm, request.new_target)? {
            CreateStep::Complete(Completion::Return(receiver)) => {
                return install(
                    runtime,
                    execution,
                    frame,
                    request,
                    operand_count,
                    ConstructorReturn::Base(receiver),
                );
            },
            CreateStep::Complete(Completion::Throw(value)) => {
                return Ok(CallStep::Complete(Completion::Throw(value)));
            },
            CreateStep::Read(read) => read,
        },
    };
    await_prototype(runtime, execution, frame, request, operand_count, identity, read)
}

fn await_prototype(
    runtime: &mut Runtime,
    execution: &mut RunningExecution,
    frame: Frame,
    request: BytecodeCallRequest,
    operand_count: usize,
    identity: u64,
    read: OrdinaryRead,
) -> (r: Result<CallStep, Error>)
    requires
        old(runtime).wf(),
        old(execution)@.frames.frames.len() > 0,
    ensures
        final(runtime).wf(),
        (final(runtime)@, final(execution)@, r) == old(execution)@.await_prototype(
            old(runtime)@,
            frame,
            request@,
            operand_count as nat,
            identity,
            read,
        ),
{
    let return_to = ReturnTarget {
        value_use: request.return_to.value_use,
        frame: request.return_to.frame,
        tail: request.return_to.tail,
        operation: Some(OperationTarget::Constructor(identity)),
    };
    let pending = match read {
        OrdinaryRead::Complete(value) => {
            return finish_prototype(
                runtime,
                execution,
                frame,
                request,
                operand_count,
                Completion::Return(
                    match value {
                        Some(value) => value,
                        None => JsValue::Undefined,
                    },
                ),
            );
        },
        OrdinaryRead::Call { getter, receiver } => match runtime.ordinary_getter(getter)? {
            Some((bytecode, count)) => {
                if !execution.frames.can_push() || runtime.bytecode_call_would_overflow() {
                    return runtime.overflow_step(frame.realm);
                }
                let getter_request = BytecodeCallRequest {
                    callable: getter,
                    receiver,
                    new_target: JsValue::Undefined,
                    arguments: Vec::new(),
                    bytecode,
                    closure_count: count,
                    caller_realm: frame.realm,
                    return_to,
                };
                let entry = getter_request.prepare(runtime)?;
                match execution.wait_for_prototype(frame, &request, operand_count, identity) {
                    Ok(_) => {},
                    Err(e) => {
                        runtime.retire_guard(entry.cold.entry_guard);
                        return Err(e);
                    },
                }
                let _ = push_frame(runtime, execution, entry)?;
                return Ok(CallStep::Entered);
            },
            None => PendingRequest::Call { callable: getter, receiver, count: 0 },
        },
        OrdinaryRead::Special { object, receiver } => PendingRequest::Get {
            object,
            key: PropertyKey::String(ATOM_PROTOTYPE),
            receiver,
        },
    };
    execution.wait_for_prototype(frame, &request, operand_count, identity)?;
    execution.pending_call = Some(PendingCall { request: pending, return_to });
    Ok(CallStep::Entered)
}

impl RunningExecution {
    fn wait_for_prototype(
        &mut self,
        frame: Frame,
        request: &BytecodeCallRequest,
        operand_count: usize,
        identity: u64,
    ) -> (r: Result<(), Error>)
        requires
            old(self)@.frames.frames.len() > 0,
        ensures
            (final(self)@, r) == old(self)@.constructor_waits(
                frame,
                request@,
                operand_count as nat,
                identity,
            ),
    {
        if frame.cold.constructor_wait.is_some() || frame.cold.conversion.is_some() {
            return Err(Error::internal("constructor overwrote a pending operation"));
        }
        self.slots.push_all(&request.arguments)?;
        let mut frame = frame;
        frame.cold.constructor_wait = Some(
            PendingConstructor {
                identity,
                frame: request.return_to.frame,
                callable: request.callable,
                new_target: request.new_target,
                bytecode: request.bytecode,
                closure_count: request.closure_count,
                caller_realm: request.caller_realm,
                argument_count: request.arguments.len(),
                operand_count,
            },
        );
        self.frames.store(frame);
        Ok(())
    }
}

/// Answer a constructor call that waits for its prototype.  A reply to another
/// request is refused.
pub fn reply(
    runtime: &mut Runtime,
    execution: &mut RunningExecution,
    target: ReturnTarget,
    completion: Completion,
) -> (r: Result<CallStep, Error>)
    requires
        old(runtime).wf(),
    ensures
        final(runtime).wf(),
        (final(runtime)@, final(execution)@, r) == old(execution)@.constructor_reply(
            old(runtime)@,
            target,
            completion,
        ),
{
    let mut frame = execution.frames.current(target.frame)?;
    let pending = match frame.cold.constructor_wait {
        Some(pending) => pending,
        None => {
            return Err(Error::internal("constructor reply has no pending owner"));
        },
    };
    frame.cold.constructor_wait = None;
    execution.frames.store(frame);
    if target.operation != Some(OperationTarget::Constructor(pending.identity)) {
        return Err(Error::internal("constructor reply identity mismatch"));
    }
    let arguments = execution.slots.top(frame.window, pending.argument_count)?;
    execution.slots.discard(frame.window, pending.argument_count)?;
    let request = BytecodeCallRequest {
        callable: pending.callable,
        receiver: JsValue::Undefined,
        new_target: pending.new_target,
        arguments,
        bytecode: pending.bytecode,
        closure_count: pending.closure_count,
        caller_realm: pending.caller_realm,
        return_to: ReturnTarget {
            value_use: ReturnValue::Push,
            frame: pending.frame,
            tail: false,
            operation: None,
        },
    };
    finish_prototype(runtime, execution, frame, request, pending.operand_count, completion)
}

pub fn finish_prototype(
    runtime: &mut Runtime,
    execution: &mut RunningExecution,
    frame: Frame,
    request: BytecodeCallRequest,
    dropped: usize,
    completion: Completion,
) -> (r: Result<CallStep, Error>)
    requires
        old(runtime).wf(),
        old(execution)@.frames.frames.len() > 0,
    ensures
        final(runtime).wf(),
        (final(runtime)@, final(execution)@, r) == old(execution)@.finish_prototype(
            old(runtime)@,
            frame,
            request@,
            dropped as nat,
            completion,
        ),
{
    match runtime.create_from_constructor_prototype_reply(
        request.caller_realm,
        request.new_target,
        completion,
    )? {
        Completion::Throw(value) => Ok(CallStep::Complete(Completion::Throw(value))),
        Completion::Return(receiver) => install(
            runtime,
            execution,
            frame,
            request,
            dropped,
            ConstructorReturn::Base(receiver),
        ),
    }
}

/// Enter the body of a constructor in place of `dropped` operands.
pub fn install(
    runtime: &mut Runtime,
    execution: &mut RunningExecution,
    frame: Frame,
    request: BytecodeCallRequest,
    dropped: usize,
    result: ConstructorReturn,
) -> (r: Result<CallStep, Error>)
    requires
        old(runtime).wf(),
        old(execution)@.frames.frames.len() > 0,
    ensures
        final(runtime).wf(),
        (final(runtime)@, final(execution)@, r) == old(execution)@.install_constructor(
            old(runtime)@,
            frame,
            request@,
            dropped as nat,
            result,
        ),
{
    if !execution.frames.can_push() || runtime.bytecode_call_would_overflow() {
        return runtime.overflow_step(request.caller_realm);
    }
    let mut request = request;
    match result {
        ConstructorReturn::Base(receiver) => {
            request.receiver = receiver;
        },
        ConstructorReturn::Derived => {},
    }
    execution.slots.discard(frame.window, dropped)?;
    execution.resume_after(frame, Error::internal("construct resume PC overflow"))?;
    let mut entry = request.prepare(runtime)?;
    entry.cold.constructor_return = Some(result);
    let _ = push_frame(runtime, execution, entry)?;
    Ok(CallStep::Entered)
}

impl Machine {
    /// What a class initializer instruction runs, and on which receiver.
    pub open spec fn begin_initializer(self, heap: Heap, frame: Frame, mode: InitializerKind) -> (
        Heap,
        Result<(Option<CallableRef>, JsValue), Error>,
    ) {
        match (mode, self.slots.peek(frame.window, 0)) {
            (_, Err(e)) => (heap, Err(e)),
            (InitializerKind::Install, Ok(initializer)) => match (
                self.slots.peek(frame.window, 2),
                self.slots.peek(frame.window, 1),
            ) {
                (Err(e), _) => (heap, Err(e)),
                (_, Err(e)) => (heap, Err(e)),
                (Ok(constructor), Ok(prototype)) => match heap.install_initializer(
                    constructor,
                    prototype,
                    initializer,
                ) {
                    (heap, Err(e)) => (heap, Err(e)),
                    (heap, Ok(_)) => (heap, Ok((None, JsValue::Undefined))),
                },
            },
            (InitializerKind::Instance, Ok(constructor)) => match self.slots.peek(
                frame.window,
                1,
            ) {
                Err(e) => (heap, Err(e)),
                Ok(receiver) => match heap.instance_initializer(constructor) {
                    Err(e) => (heap, Err(e)),
                    Ok(initializer) => (heap, Ok((initializer, receiver))),
                },
            },
            (InitializerKind::Static, Ok(initializer)) => match self.slots.peek(frame.window, 1) {
                Err(e) => (heap, Err(e)),
                Ok(constructor) => match heap.begin_static(constructor, initializer) {
                    (heap, Err(e)) => (heap, Err(e)),
                    (heap, Ok((callable, receiver))) => (heap, Ok((Some(callable), receiver))),
                },
            },
            (InitializerKind::Block, Ok(block)) => {
                let receiver = frame.cold.input.this_value;
                match heap.begin_block(frame.cold.function, receiver, block) {
                    (heap, Err(e)) => (heap, Err(e)),
                    (heap, Ok(callable)) => (heap, Ok((Some(callable), receiver))),
                }
            },
        }
    }

    /// A class initializer instruction.
    pub open spec fn initializer(self, heap: Heap, id: FrameId, mode: InitializerKind) -> (
        Heap,
        Machine,
        Result<CallStep, Error>,
    ) {
        match self.frames.current(id) {
            Err(e) => (heap, self, Err(e)),
            Ok(frame) => Machine::step_caught(
                frame.realm,
                self.initializer_step(heap, id, frame, mode),
            ),
        }
    }

    pub open spec fn initializer_step(
        self,
        heap: Heap,
        id: FrameId,
        frame: Frame,
        mode: InitializerKind,
    ) -> (Heap, Machine, Result<CallStep, Error>) {
        match self.begin_initializer(heap, frame, mode) {
            (heap, Err(e)) => (heap, self, Err(e)),
            (heap, Ok((initializer, receiver))) => match heap.initializer_request(
                initializer,
                receiver,
                frame.realm,
                id,
            ) {
                Err(e) => (heap, self, Err(e)),
                Ok(request) => if request is Some && (!self.frames.can_push()
                    || heap.would_overflow()) {
                    let (heap, r) = heap.overflow_step(frame.realm);
                    (heap, self, r)
                } else {
                    let (slots, r) = self.slots.pop(frame.window);
                    let popped = Machine { slots, ..self };
                    match r {
                        Err(e) => (heap, popped, Err(e)),
                        Ok(_) => match popped.resumed(
                            frame,
                            Error::internal("initializer resume PC overflow"),
                        ) {
                            (machine, Err(e)) => (heap, machine, Err(e)),
                            (machine, Ok(_)) => match request {
                                None => (heap, machine, Ok(CallStep::Entered)),
                                Some(request) => match heap.request_entry(request) {
                                    (heap, Err(e)) => (heap, machine, Err(e)),
                                    (heap, Ok(entry)) => match machine.push_entry(heap, entry) {
                                        (heap, machine, Err(e)) => (heap, machine, Err(e)),
                                        (heap, machine, Ok(_)) => (
                                            heap,
                                            machine,
                                            Ok(CallStep::Entered),
                                        ),
                                    },
                                },
                            },
                        },
                    }
                },
            },
        }
    }

    /// Defining a class from the constructor on top and the parent below it.
    pub open spec fn define_class(
        self,
        heap: Heap,
        id: FrameId,
        name: u32,
        has_heritage: bool,
        identity: u64,
    ) -> (Heap, Machine, Result<CallStep, Error>) {
        match self.frames.current(id) {
            Err(e) => (heap, self, Err(e)),
            Ok(frame) => match (
                self.slots.peek(frame.window, 1),
                heap.class_name(frame.executable, name),
                self.slots.peek(frame.window, 0),
            ) {
                (Err(e), _, _) => (heap, self, Err(e)),
                (_, Err(e), _) => (heap, self, Err(e)),
                (_, _, Err(e)) => (heap, self, Err(e)),
                (Ok(parent), Ok(name), Ok(constructor)) => if has_heritage && parent is Object {
                    self.enter_class_parent(
                        heap,
                        frame,
                        PendingClass {
                            identity,
                            frame: id,
                            realm: frame.realm,
                            parent: parent->Object_0,
                            constructor,
                            name,
                        },
                    )
                } else {
                    self.finish_class_result(
                        id,
                        heap.define_class_pair(
                            frame.realm,
                            parent,
                            constructor,
                            name,
                            has_heritage,
                        ),
                    )
                },
            },
        }
    }

    /// Replacing the operands of a class definition by the published pair.
    pub open spec fn finish_class_result(
        self,
        id: FrameId,
        outcome: (Heap, Result<DefineClassOutcome, Error>),
    ) -> (Heap, Machine, Result<CallStep, Error>) {
        let heap = outcome.0;
        match self.frames.current(id) {
            Err(e) => (heap, self, Err(e)),
            Ok(frame) => {
                let (slots, r) = self.slots.discard(frame.window, 2);
                let popped = Machine { slots, ..self };
                match r {
                    Err(e) => (heap, popped, Err(e)),
                    Ok(_) => match popped.resumed(
                        frame,
                        Error::internal("class definition resume PC overflow"),
                    ) {
                        (machine, Err(e)) => (heap, machine, Err(e)),
                        (machine, Ok(_)) => match outcome.1 {
                            Ok(DefineClassOutcome::Defined { constructor, prototype }) => {
                                let (slots, r) = machine.slots.push_all(
                                    seq![JsValue::Object(constructor), JsValue::Object(prototype)],
                                );
                                Machine::step_done((heap, Machine { slots, ..machine }, r))
                            },
                            Ok(DefineClassOutcome::Throw(value)) => (
                                heap,
                                machine,
                                Ok(CallStep::Complete(Completion::Throw(value))),
                            ),
                            Err(e) => {
                                let (heap, r) = heap.throw_step(frame.realm, e);
                                (heap, machine, r)
                            },
                        },
                    },
                }
            },
        }
    }

    /// Reading the prototype of the parent of a class.
    pub open spec fn enter_class_parent(self, heap: Heap, frame: Frame, pending: PendingClass) -> (
        Heap,
        Machine,
        Result<CallStep, Error>,
    ) {
        match heap.class_parent(pending.parent) {
            Err(e) => self.finish_class_result(
                pending.frame,
                (heap, Err::<DefineClassOutcome, Error>(e)),
            ),
            Ok(_) => match heap.class_read(
                pending.parent,
                JsValue::Object(pending.parent),
                heap.objects.len(),
            ) {
                Err(e) => (heap, self, Err(e)),
                Ok(OrdinaryRead::Complete(value)) => self.finish_class_reply(
                    heap,
                    pending,
                    Completion::Return(
                        match value {
                            Some(value) => value,
                            None => JsValue::Undefined,
                        },
                    ),
                ),
                Ok(OrdinaryRead::Special { .. }) => (heap, self, Ok(CallStep::Bridge)),
                Ok(OrdinaryRead::Call { getter, receiver }) => match heap.ordinary_getter(getter) {
                    Err(e) => (heap, self, Err(e)),
                    Ok(None) => (heap, self, Ok(CallStep::Bridge)),
                    Ok(Some((bytecode, count))) => if !self.frames.can_push()
                        || heap.would_overflow() {
                        let (heap, r) = heap.overflow_step(pending.realm);
                        (heap, self, r)
                    } else {
                        match heap.request_entry(
                            Request {
                                callable: getter,
                                receiver,
                                new_target: JsValue::Undefined,
                                arguments: Seq::empty(),
                                bytecode,
                                closure_count: count,
                                caller_realm: pending.realm,
                                return_to: ReturnTarget {
                                    value_use: ReturnValue::Push,
                                    frame: pending.frame,
                                    tail: false,
                                    operation: Some(
                                        OperationTarget::ClassDefinition(pending.identity),
                                    ),
                                },
                            },
                        ) {
                            (heap, Err(e)) => (heap, self, Err(e)),
                            (heap, Ok(entry)) => if frame.cold.class_wait is Some
                                || frame.cold.constructor_wait is Some
                                || frame.cold.conversion is Some {
                                (
                                    heap.retired(entry.cold.entry_guard),
                                    self,
                                    Err(
                                        Error::internal(
                                            "class definition overwrote pending operation",
                                        ),
                                    ),
                                )
                            } else {
                                match self.class_waits(frame, Some(pending)).push_entry(
                                    heap,
                                    entry,
                                ) {
                                    (heap, machine, Err(e)) => (heap, machine, Err(e)),
                                    (heap, machine, Ok(_)) => (
                                        heap,
                                        machine,
                                        Ok(CallStep::Entered),
                                    ),
                                }
                            },
                        }
                    },
                },
            },
        }
    }

    pub open spec fn class_waits(self, frame: Frame, class_wait: Option<PendingClass>) -> Machine {
        Machine {
            frames: self.frames.stored(
                Frame { cold: FrameCold { class_wait, ..frame.cold }, ..frame },
            ),
            ..self
        }
    }

    /// Answering a class definition that waits for its parent's prototype.
    pub open spec fn class_reply(self, heap: Heap, target: ReturnTarget, completion: Completion) -> (
        Heap,
        Machine,
        Result<CallStep, Error>,
    ) {
        match self.frames.current(target.frame) {
            Err(e) => (heap, self, Err(e)),
            Ok(frame) => match frame.cold.class_wait {
                None => (heap, self, Err(Error::internal("class reply has no pending owner"))),
                Some(pending) => {
                    let taken = self.class_waits(frame, None);
                    if target.operation != Some(
                        OperationTarget::ClassDefinition(pending.identity),
                    ) {
                        (heap, taken, Err(Error::internal("class reply identity mismatch")))
                    } else {
                        taken.finish_class_reply(heap, pending, completion)
                    }
                },
            },
        }
    }

    pub open spec fn finish_class_reply(
        self,
        heap: Heap,
        pending: PendingClass,
        completion: Completion,
    ) -> (Heap, Machine, Result<CallStep, Error>) {
        self.finish_class_result(
            pending.frame,
            match completion {
                Completion::Throw(value) => (
                    heap,
                    Ok::<DefineClassOutcome, Error>(DefineClassOutcome::Throw(value)),
                ),
                Completion::Return(prototype) => heap.derived_class_pair(
                    pending.constructor,
                    pending.name,
                    pending.parent,
                    prototype,
                ),
            },
        )
    }

    /// Defining a field or a method on the object below the value.
    pub open spec fn define_property(
        self,
        heap: Heap,
        id: FrameId,
        key: Option<u32>,
        method: Option<MethodDefinition>,
    ) -> (Heap, Machine, Result<CallStep, Error>) {
        match self.frames.current(id) {
            Err(e) => (heap, self, Err(e)),
            Ok(frame) => match (
                self.slots.peek(
                    frame.window,
                    if key is None {
                        2
                    } else {
                        1
                    },
                ),
                self.slots.peek(frame.window, 0),
            ) {
                (Err(e), _) => (heap, self, Err(e)),
                (Ok(JsValue::Object(object)), Err(e)) => (heap, self, Err(e)),
                (Ok(JsValue::Object(object)), Ok(value)) => match heap.defines_here(
                    object,
                    value,
                    method is Some,
                ) {
                    Err(e) => (heap, self, Err(e)),
                    Ok(false) => (heap, self, Ok(CallStep::Bridge)),
                    Ok(true) => match self.definition_key(heap, frame, key) {
                        (heap, Err(e)) => (heap, self, Err(e)),
                        (heap, Ok(name)) => self.finish_definition(
                            match method {
                                Some(method) => heap.define_method(object, name, value, method),
                                None => heap.define(object, name, Heap::data_slot(value)),
                            },
                            frame,
                            key is None,
                        ),
                    },
                },
                _ => (heap, self, Ok(CallStep::Bridge)),
            },
        }
    }

    /// The key of a definition: a linked name or the operand below the value.
    pub open spec fn definition_key(self, heap: Heap, frame: Frame, key: Option<u32>) -> (
        Heap,
        Result<PropertyKey, Error>,
    ) {
        match key {
            Some(index) => (
                heap,
                match heap.function_at(frame.executable) {
                    Err(e) => Err(e),
                    Ok(function) => match Heap::static_key(function, index) {
                        Ok(key) => Ok(key),
                        Err(_) => Err(Error::internal("definition has no linked property key")),
                    },
                },
            ),
            None => match self.slots.peek(frame.window, 1) {
                Err(e) => (heap, Err(e)),
                Ok(value) => heap.canonical_key(value),
            },
        }
    }

    pub open spec fn finish_definition(
        self,
        outcome: (Heap, Result<bool, Error>),
        frame: Frame,
        computed: bool,
    ) -> (Heap, Machine, Result<CallStep, Error>) {
        let heap = outcome.0;
        let (slots, r) = self.slots.discard(
            frame.window,
            if computed {
                2
            } else {
                1
            },
        );
        let popped = Machine { slots, ..self };
        match r {
            Err(e) => (heap, popped, Err(e)),
            Ok(_) => match popped.resumed(
                frame,
                Error::internal("property definition resume PC overflow"),
            ) {
                (machine, Err(e)) => (heap, machine, Err(e)),
                (machine, Ok(_)) => match outcome.1 {
                    Ok(true) => (heap, machine, Ok(CallStep::Entered)),
                    Ok(false) => {
                        let (heap, r) = heap.throw_step(
                            frame.realm,
                            Error::new(ErrorKind::Type, "property is not configurable"),
                        );
                        (heap, machine, r)
                    },
                    Err(e) => {
                        let (heap, r) = heap.throw_step(frame.realm, e);
                        (heap, machine, r)
                    },
                },
            },
        }
    }
}

impl Heap {
    /// The call of a class initializer.
    pub open spec fn initializer_request(
        self,
        initializer: Option<CallableRef>,
        receiver: JsValue,
        realm: usize,
        id: FrameId,
    ) -> Result<Option<Request>, Error> {
        match initializer {
            None => Ok(None),
            Some(callable) => match self.classification(callable) {
                Err(e) => Err(e),
                Ok(CallableExecution::Bytecode { bytecode, count, .. }) => match self.function_at(
                    bytecode,
                ) {
                    Err(e) => Err(e),
                    Ok(function) => if function.metadata.function_kind is Normal {
                        Ok(
                            Some(
                                Request {
                                    callable,
                                    receiver,
                                    new_target: JsValue::Undefined,
                                    arguments: Seq::empty(),
                                    bytecode,
                                    closure_count: count,
                                    caller_realm: realm,
                                    return_to: ReturnTarget {
                                        value_use: ReturnValue::Discard,
                                        frame: id,
                                        tail: false,
                                        operation: None,
                                    },
                                },
                            ),
                        )
                    } else {
                        Err(
                            Error::internal(
                                "authenticated class initializer is not ordinary bytecode",
                            ),
                        )
                    },
                },
                Ok(_) => Err(Error::internal("authenticated class initializer is not bytecode")),
            },
        }
    }

    /// The published name of a class.
    pub open spec fn class_name(self, executable: usize, index: u32) -> Result<Atom, Error> {
        match self.function_at(executable) {
            Err(e) => Err(e),
            Ok(function) => if index < function.constants@.len() {
                match function.constants@[index as int] {
                    BytecodeConstant::Value(JsValue::String(name)) => Ok(name),
                    _ => Err(Error::internal("class name is not a published string")),
                }
            } else {
                Err(Error::internal("class name is not a published string"))
            },
        }
    }

    /// Reading the prototype of a class parent.  Functions show properties that
    /// were not materialized yet.
    pub open spec fn class_read(self, current: ObjectRef, receiver: JsValue, fuel: nat) -> Result<
        OrdinaryRead,
        Error,
    >
        decreases fuel,
    {
        let key = PropertyKey::String(ATOM_PROTOTYPE);
        match self.ordinary_read(current, key, receiver) {
            Err(e) => Err(e),
            Ok(OrdinaryRead::Special { object, receiver: shown }) => match self.object_at(object) {
                Err(e) => Err(e),
                Ok(data) => if !Heap::function_payload(data.payload) {
                    Ok(OrdinaryRead::Special { object, receiver: shown })
                } else {
                    match self.own_property(object, key) {
                        Err(e) => Err(e),
                        Ok(Some(PropertyDescriptor::Data { value, .. })) => Ok(
                            OrdinaryRead::Complete(Some(value)),
                        ),
                        Ok(Some(PropertyDescriptor::Accessor { get, .. })) => match get {
                            Some(getter) => Ok(
                                OrdinaryRead::Call {
                                    getter: CallableRef { object: getter },
                                    receiver,
                                },
                            ),
                            None => Ok(OrdinaryRead::Complete(Some(JsValue::Undefined))),
                        },
                        Ok(None) => match data.prototype {
                            None => Ok(OrdinaryRead::Complete(None)),
                            Some(next) => if fuel == 0 {
                                Err(Error::broken("prototype chain is cyclic"))
                            } else {
                                self.class_read(next, receiver, (fuel - 1) as nat)
                            },
                        },
                    }
                },
            },
            Ok(read) => Ok(read),
        }
    }

    pub open spec fn function_payload(payload: ObjectPayload) -> bool {
        match payload {
            ObjectPayload::BytecodeFunction(_) => true,
            ObjectPayload::BoundFunction { .. } => true,
            ObjectPayload::NativeFunction(_) => true,
            _ => false,
        }
    }

    /// Whether a definition on `object` runs no code and needs no protocol.
    pub open spec fn defines_here(self, object: ObjectRef, value: JsValue, method: bool) -> Result<
        bool,
        Error,
    > {
        if !self.belongs(object) {
            Ok(false)
        } else {
            match self.object_at(object) {
                Err(e) => Err(e),
                Ok(target) => if !(target.payload is BytecodeFunction || (
                target.kind is Ordinary && target.payload is Ordinary)) {
                    Ok(false)
                } else if !method {
                    Ok(true)
                } else {
                    match value {
                        JsValue::Object(function) => if !self.belongs(function) {
                            Ok(false)
                        } else {
                            match self.object_at(function) {
                                Err(e) => Err(e),
                                Ok(data) => Ok(data.payload is BytecodeFunction),
                            }
                        },
                        _ => Ok(false),
                    }
                },
            }
        }
    }
}

impl Runtime {
    fn initializer_request(
        &self,
        initializer: Option<CallableRef>,
        receiver: JsValue,
        realm: usize,
        id: FrameId,
    ) -> (r: Result<Option<BytecodeCallRequest>, Error>)
        ensures
            match r {
                Err(e) => self@.initializer_request(initializer, receiver, realm, id) == Err::<
                    Option<Request>,
                    Error,
                >(e),
                Ok(None) => self@.initializer_request(initializer, receiver, realm, id) == Ok::<
                    Option<Request>,
                    Error,
                >(None),
                Ok(Some(request)) => self@.initializer_request(initializer, receiver, realm, id)
                    == Ok::<Option<Request>, Error>(Some(request@)),
            },
    {
        let callable = match initializer {
            Some(callable) => callable,
            None => {
                return Ok(None);
            },
        };
        match self.classification(callable)? {
            CallableExecution::Bytecode { bytecode, count, .. } => {
                if self.function_bytecode(bytecode)?.metadata.function_kind != FunctionKind::Normal {
                    return Err(
                        Error::internal("authenticated class initializer is not ordinary bytecode"),
                    );
                }
                let request = BytecodeCallRequest {
                    callable,
                    receiver,
                    new_target: JsValue::Undefined,
                    arguments: Vec::new(),
                    bytecode,
                    closure_count: count,
                    caller_realm: realm,
                    return_to: ReturnTarget {
                        value_use: ReturnValue::Discard,
                        frame: id,
                        tail: false,
                        operation: None,
                    },
                };
                assert(request@.arguments =~= Seq::<JsValue>::empty());
                Ok(Some(request))
            },
            _ => Err(Error::internal("authenticated class initializer is not bytecode")),
        }
    }

    fn class_name(&self, executable: usize, index: u32) -> (r: Result<Atom, Error>)
        ensures
            r == self@.class_name(executable, index),
    {
        let function = self.function_bytecode(executable)?;
        if (index as usize) < function.constants.len() {
            match function.constants[index as usize] {
                BytecodeConstant::Value(JsValue::String(name)) => {
                    return Ok(name);
                },
                _ => {},
            }
        }
        Err(Error::internal("class name is not a published string"))
    }

    /// Read the prototype of a class parent without running any code.
    #[verifier::loop_isolation(false)]
    pub fn class_prototype_read(&self, parent: ObjectRef) -> (r: Result<OrdinaryRead, Error>)
        ensures
            r == self@.class_read(parent, JsValue::Object(parent), self@.objects.len()),
    {
        let key = PropertyKey::String(ATOM_PROTOTYPE);
        let receiver = JsValue::Object(parent);
        let mut current = parent;
        let mut fuel: usize = self.objects.len();
        let ghost expected = self@.class_read(parent, receiver, self@.objects.len());
        loop
            invariant
                expected == self@.class_read(current, receiver, fuel as nat),
            decreases fuel,
        {
            let read = self.prepare_ordinary_read(current, key, receiver)?;
            let object = match read {
                OrdinaryRead::Special { object, .. } => object,
                _ => {
                    return Ok(read);
                },
            };
            let data = self.object(object)?;
            match data.payload {
                ObjectPayload::BytecodeFunction(_) => {},
                ObjectPayload::BoundFunction { .. } => {},
                ObjectPayload::NativeFunction(_) => {},
                _ => {
                    return Ok(read);
                },
            }
            match self.get_own_property(object, key)? {
                Some(PropertyDescriptor::Data { value, .. }) => {
                    return Ok(OrdinaryRead::Complete(Some(value)));
                },
                Some(PropertyDescriptor::Accessor { get, .. }) => {
                    return match get {
                        Some(getter) => Ok(
                            OrdinaryRead::Call {
                                getter: CallableRef::from_validated_object(getter),
                                receiver,
                            },
                        ),
                        None => Ok(OrdinaryRead::Complete(Some(JsValue::Undefined))),
                    };
                },
                None => {},
            }
            match data.prototype {
                None => {
                    return Ok(OrdinaryRead::Complete(None));
                },
                Some(next) => {
                    if fuel == 0 {
                        return Err(Error::broken("prototype chain is cyclic"));
                    }
                    fuel = fuel - 1;
                    current = next;
                },
            }
        }
    }

    fn defines_here(&self, object: ObjectRef, value: JsValue, method: bool) -> (r: Result<bool, Error>)
        ensures
            r == self@.defines_here(object, value, method),
    {
        if object.domain != self.domain_id() {
            return Ok(false);
        }
        let target = self.object(object)?;
        let plain = match target.payload {
            ObjectPayload::BytecodeFunction(_) => true,
            ObjectPayload::Ordinary => target.kind == ObjectKind::Ordinary,
            _ => false,
        };
        if !plain {
            return Ok(false);
        }
        if !method {
            return Ok(true);
        }
        match value {
            JsValue::Object(function) => {
                if function.domain != self.domain_id() {
                    return Ok(false);
                }
                let data = self.object(function)?;
                Ok(matches!(data.payload, ObjectPayload::BytecodeFunction(_)))
            },
            _ => Ok(false),
        }
    }
}

impl RunningExecution {
    fn begin_initializer(&self, runtime: &mut Runtime, frame: Frame, mode: InitializerKind) -> (r: Result<
        (Option<CallableRef>, JsValue),
        Error,
    >)
        requires
            old(runtime).wf(),
        ensures
            final(runtime).wf(),
            (final(runtime)@, r) == self@.begin_initializer(old(runtime)@, frame, mode),
    {
        let top = self.slots.peek(frame.window, 0)?;
        match mode {
            InitializerKind::Install => {
                let constructor = self.slots.peek(frame.window, 2)?;
                let prototype = self.slots.peek(frame.window, 1)?;
                runtime.install_class_instance_initializer(constructor, prototype, top)?;
                Ok((None, JsValue::Undefined))
            },
            InitializerKind::Instance => {
                let receiver = self.slots.peek(frame.window, 1)?;
                let initializer = runtime.begin_class_instance_initializer(top)?;
                Ok((initializer, receiver))
            },
            InitializerKind::Static => {
                let constructor = self.slots.peek(frame.window, 1)?;
                let (callable, receiver) = runtime.begin_class_static_initializer(
                    constructor,
                    top,
                )?;
                Ok((Some(callable), receiver))
            },
            InitializerKind::Block => {
                let receiver = frame.cold.input.this_value;
                let callable = runtime.begin_class_static_block(
                    frame.cold.function,
                    receiver,
                    top,
                )?;
                Ok((Some(callable), receiver))
            },
        }
    }

    fn initializer_step(
        &mut self,
        runtime: &mut Runtime,
        id: FrameId,
        frame: Frame,
        mode: InitializerKind,
    ) -> (r: Result<CallStep, Error>)
        requires
            old(runtime).wf(),
            old(self)@.frames.frames.len() > 0,
        ensures
            final(runtime).wf(),
            (final(runtime)@, final(self)@, r) == old(self)@.initializer_step(
                old(runtime)@,
                id,
                frame,
                mode,
            ),
    {
        let (initializer, receiver) = self.begin_initializer(runtime, frame, mode)?;
        let request = runtime.initializer_request(initializer, receiver, frame.realm, id)?;
        if request.is_some() && (!self.frames.can_push() || runtime.bytecode_call_would_overflow()) {
            return runtime.overflow_step(frame.realm);
        }
        let _ = self.slots.pop(frame.window)?;
        self.resume_after(frame, Error::internal("initializer resume PC overflow"))?;
        match request {
            Some(request) => {
                let entry = request.prepare(runtime)?;
                let _ = push_frame(runtime, self, entry)?;
            },
            None => {},
        }
        Ok(CallStep::Entered)
    }

    fn wait_for_class(&mut self, frame: Frame, class_wait: Option<PendingClass>)
        requires
            old(self)@.frames.frames.len() > 0,
        ensures
            final(self)@ == old(self)@.class_waits(frame, class_wait),
    {
        let mut frame = frame;
        frame.cold.class_wait = class_wait;
        self.frames.store(frame);
    }
}

/// Run a class initializer instruction.  Once an initializer has begun, the
/// instruction is never replayed.
pub fn initializer(
    runtime: &mut Runtime,
    execution: &mut RunningExecution,
    id: FrameId,
    mode: InitializerKind,
) -> (r: Result<CallStep, Error>)
    requires
        old(runtime).wf(),
    ensures
        final(runtime).wf(),
        (final(runtime)@, final(execution)@, r) == old(execution)@.initializer(
            old(runtime)@,
            id,
            mode,
        ),
{
    let frame = execution.frames.current(id)?;
    match execution.initializer_step(runtime, id, frame, mode) {
        Err(e) => runtime.throw_step(frame.realm, e),
        Ok(step) => Ok(step),
    }
}

/// Define a class.  A parent's prototype getter of ordinary code runs as a
/// frame; nothing is published before its reply.
pub fn define_class(
    runtime: &mut Runtime,
    execution: &mut RunningExecution,
    id: FrameId,
    name: u32,
    has_heritage: bool,
    identity: u64,
) -> (r: Result<CallStep, Error>)
    requires
        old(runtime).wf(),
    ensures
        final(runtime).wf(),
        (final(runtime)@, final(execution)@, r) == old(execution)@.define_class(
            old(runtime)@,
            id,
            name,
            has_heritage,
            identity,
        ),
{
    let frame = execution.frames.current(id)?;
    let parent = execution.slots.peek(frame.window, 1)?;
    let name: Atom = runtime.class_name(frame.executable, name)?;
    let constructor = execution.slots.peek(frame.window, 0)?;
    match parent {
        JsValue::Object(parent) => {
            if has_heritage {
                return enter_class_parent(
                    runtime,
                    execution,
                    frame,
                    PendingClass {
                        identity,
                        frame: id,
                        realm: frame.realm,
                        parent,
                        constructor,
                        name,
                    },
                );
            }
        },
        _ => {},
    }
    let result = runtime.define_class_pair(frame.realm, parent, constructor, name, has_heritage);
    finish_class_result(runtime, execution, id, result)
}

pub fn finish_class_result(
    runtime: &mut Runtime,
    execution: &mut RunningExecution,
    id: FrameId,
    result: Result<DefineClassOutcome, Error>,
) -> (r: Result<CallStep, Error>)
    requires
        old(runtime).wf(),
    ensures
        final(runtime).wf(),
        (final(runtime)@, final(execution)@, r) == old(execution)@.finish_class_result(
            id,
            (old(runtime)@, result),
        ),
{
    let frame = execution.frames.current(id)?;
    execution.slots.discard(frame.window, 2)?;
    execution.resume_after(frame, Error::internal("class definition resume PC overflow"))?;
    match result {
        Ok(DefineClassOutcome::Defined { constructor, prototype }) => {
            let pair: Vec<JsValue> = vec![JsValue::Object(constructor), JsValue::Object(prototype)];
            assert(pair@ =~= seq![JsValue::Object(constructor), JsValue::Object(prototype)]);
            execution.slots.push_all(&pair)?;
            Ok(CallStep::Entered)
        },
        Ok(DefineClassOutcome::Throw(value)) => Ok(CallStep::Complete(Completion::Throw(value))),
        Err(e) => runtime.throw_step(frame.realm, e),
    }
}

pub fn enter_class_parent(
    runtime: &mut Runtime,
    execution: &mut RunningExecution,
    frame: Frame,
    pending: PendingClass,
) -> (r: Result<CallStep, Error>)
    requires
        old(runtime).wf(),
        old(execution)@.frames.frames.len() > 0,
    ensures
        final(runtime).wf(),
        (final(runtime)@, final(execution)@, r) == old(execution)@.enter_class_parent(
            old(runtime)@,
            frame,
            pending,
        ),
{
    match runtime.validate_class_parent(pending.parent) {
        Ok(_) => {},
        Err(e) => {
            return finish_class_result(runtime, execution, pending.frame, Err(e));
        },
    }
    let (getter, receiver) = match runtime.class_prototype_read(pending.parent)? {
        OrdinaryRead::Complete(value) => {
            return finish_class_reply(
                runtime,
                execution,
                pending,
                Completion::Return(
                    match value {
                        Some(value) => value,
                        None => JsValue::Undefined,
                    },
                ),
            );
        },
        OrdinaryRead::Special { .. } => {
            return Ok(CallStep::Bridge);
        },
        OrdinaryRead::Call { getter, receiver } => (getter, receiver),
    };
    let (bytecode, count) = match runtime.ordinary_getter(getter)? {
        Some(code) => code,
        None => {
            return Ok(CallStep::Bridge);
        },
    };
    if !execution.frames.can_push() || runtime.bytecode_call_would_overflow() {
        return runtime.overflow_step(pending.realm);
    }
    let request = BytecodeCallRequest {
        callable: getter,
        receiver,
        new_target: JsValue::Undefined,
        arguments: Vec::new(),
        bytecode,
        closure_count: count,
        caller_realm: pending.realm,
        return_to: ReturnTarget {
            value_use: ReturnValue::Push,
            frame: pending.frame,
            tail: false,
            operation: Some(OperationTarget::ClassDefinition(pending.identity)),
        },
    };
    let entry = request.prepare(runtime)?;
    if frame.cold.class_wait.is_some() || frame.cold.constructor_wait.is_some()
        || frame.cold.conversion.is_some() {
        runtime.retire_guard(entry.cold.entry_guard);
        return Err(Error::internal("class definition overwrote pending operation"));
    }
    execution.wait_for_class(frame, Some(pending));
    let _ = push_frame(runtime, execution, entry)?;
    Ok(CallStep::Entered)
}

/// Answer a class definition that waits for its parent's prototype.  A reply
/// to another request is refused.
pub fn reply_class(
    runtime: &mut Runtime,
    execution: &mut RunningExecution,
    target: ReturnTarget,
    completion: Completion,
) -> (r: Result<CallStep, Error>)
    requires
        old(runtime).wf(),
    ensures
        final(runtime).wf(),
        (final(runtime)@, final(execution)@, r) == old(execution)@.class_reply(
            old(runtime)@,
            target,
            completion,
        ),
{
    let frame = execution.frames.current(target.frame)?;
    let pending = match frame.cold.class_wait {
        Some(pending) => pending,
        None => {
            return Err(Error::internal("class reply has no pending owner"));
        },
    };
    execution.wait_for_class(frame, None);
    if target.operation != Some(OperationTarget::ClassDefinition(pending.identity)) {
        return Err(Error::internal("class reply identity mismatch"));
    }
    finish_class_reply(runtime, execution, pending, completion)
}

pub fn finish_class_reply(
    runtime: &mut Runtime,
    execution: &mut RunningExecution,
    pending: PendingClass,
    completion: Completion,
) -> (r: Result<CallStep, Error>)
    requires
        old(runtime).wf(),
    ensures
        final(runtime).wf(),
        (final(runtime)@, final(execution)@, r) == old(execution)@.finish_class_reply(
            old(runtime)@,
            pending,
            completion,
        ),
{
    let result = match completion {
        Completion::Throw(value) => Ok(DefineClassOutcome::Throw(value)),
        Completion::Return(prototype) => runtime.finish_derived_class_pair(
            pending.constructor,
            pending.name,
            pending.parent,
            prototype,
        ),
    };
    finish_class_result(runtime, execution, pending.frame, result)
}

/// Define a field or a method on an ordinary object or a function made from
/// code.  The kind of the object is settled before anything changes.
pub fn define_property(
    runtime: &mut Runtime,
    execution: &mut RunningExecution,
    id: FrameId,
    key: Option<u32>,
    method: Option<MethodDefinition>,
) -> (r: Result<CallStep, Error>)
    requires
        old(runtime).wf(),
    ensures
        final(runtime).wf(),
        (final(runtime)@, final(execution)@, r) == old(execution)@.define_property(
            old(runtime)@,
            id,
            key,
            method,
        ),
{
    let frame = execution.frames.current(id)?;
    let object = match execution.slots.peek(
        frame.window,
        if key.is_none() {
            2
        } else {
            1
        },
    )? {
        JsValue::Object(object) => object,
        _ => {
            return Ok(CallStep::Bridge);
        },
    };
    let value = execution.slots.peek(frame.window, 0)?;
    if !runtime.defines_here(object, value, method.is_some())? {
        return Ok(CallStep::Bridge);
    }
    let name = match key {
        Some(index) => match static_key(runtime.function_bytecode(frame.executable)?, index) {
            Ok(key) => key,
            Err(_) => {
                return Err(Error::internal("definition has no linked property key"));
            },
        },
        None => {
            let value = execution.slots.peek(frame.window, 1)?;
            runtime.native_to_property_key(value)?
        },
    };
    let result = match method {
        Some(method) => runtime.define_object_literal_method(object, name, value, method),
        None => runtime.define_public_class_field(object, name, value),
    };
    execution.slots.discard(
        frame.window,
        if key.is_none() {
            2
        } else {
            1
        },
    )?;
    execution.resume_after(frame, Error::internal("property definition resume PC overflow"))?;
    match result {
        Ok(true) => Ok(CallStep::Entered),
        Ok(false) => runtime.throw_step(
            frame.realm,
            Error::new(ErrorKind::Type, "property is not configurable"),
        ),
        Err(e) => runtime.throw_step(frame.realm, e),
    }
}

/// An instruction left to the embedder has changed nothing: it can be run from
/// its start.
pub proof fn bridged_constructions_change_nothing(
    machine: Machine,
    heap: Heap,
    id: FrameId,
    count: u16,
    identity: u64,
)
    ensures
        machine.enter_construct(heap, id, count, identity).2 == Ok::<CallStep, Error>(
            CallStep::Bridge,
        ) ==> machine.enter_construct(heap, id, count, identity).0 == heap
            && machine.enter_construct(heap, id, count, identity).1 == machine,
        machine.enter_default_derived(heap, id, identity).2 == Ok::<CallStep, Error>(
            CallStep::Bridge,
        ) ==> machine.enter_default_derived(heap, id, identity).0 == heap
            && machine.enter_default_derived(heap, id, identity).1 == machine,
{
    match machine.frames.current(id) {
        Ok(frame) => {
            match (
                machine.slots.peek(frame.window, count as int + 1),
                machine.slots.peek(frame.window, count as int),
                machine.slots.top(frame.window, count as nat),
            ) {
                (Ok(JsValue::Object(object)), Ok(new_target), Ok(arguments)) =>
                    match heap.constructor_of(object) {
                    Ok(Some(callable)) => {
                        bridged_requests_change_nothing(
                            machine,
                            heap,
                            id,
                            callable,
                            new_target,
                            arguments,
                            (count + 2) as nat,
                            identity,
                        );
                    },
                    _ => {},
                },
                _ => {},
            }
            match (heap.prototype(frame.cold.function), machine.slots.actual_arguments(frame.window)) {
                (Ok(Some(parent)), Ok(arguments)) => match heap.constructor_of(parent) {
                    Ok(Some(callable)) => {
                        bridged_requests_change_nothing(
                            machine,
                            heap,
                            id,
                            callable,
                            frame.cold.input.new_target,
                            arguments,
                            0,
                            identity,
                        );
                    },
                    _ => {},
                },
                _ => {},
            }
        },
        Err(_) => {},
    }
}

/// A constructor call left to the embedder has changed nothing.
pub proof fn bridged_requests_change_nothing(
    machine: Machine,
    heap: Heap,
    id: FrameId,
    callable: CallableRef,
    new_target: JsValue,
    arguments: Seq<JsValue>,
    operand_count: nat,
    identity: u64,
)
    ensures
        ({
            let after = machine.enter_request(
                heap,
                id,
                callable,
                new_target,
                arguments,
                operand_count,
                identity,
            );
            after.2 == Ok::<CallStep, Error>(CallStep::Bridge) ==> after.0 == heap && after.1
                == machine
        }),
{
    match machine.frames.current(id) {
        Ok(frame) => {
            let return_to = ReturnTarget {
                value_use: ReturnValue::Push,
                frame: id,
                tail: false,
                operation: None,
            };
            bridged_selections_change_nothing(
                heap,
                frame.realm,
                callable,
                new_target,
                arguments,
                return_to,
                heap.objects.len(),
            );
            match heap.select_constructor(
                frame.realm,
                callable,
                new_target,
                arguments,
                return_to,
                heap.objects.len(),
            ) {
                (heap, Ok(Selection::Selected(request, kind))) => {
                    installs_never_bridge(
                        machine,
                        heap,
                        frame,
                        request,
                        operand_count,
                        ConstructorReturn::Derived,
                    );
                    bases_never_bridge(machine, heap, frame, request, operand_count, identity);
                },
                _ => {},
            }
        },
        Err(_) => {},
    }
}

proof fn installs_never_bridge(
    machine: Machine,
    heap: Heap,
    frame: Frame,
    request: Request,
    dropped: nat,
    result: ConstructorReturn,
)
    ensures
        machine.install_constructor(heap, frame, request, dropped, result).2 != Ok::<
            CallStep,
            Error,
        >(CallStep::Bridge),
{
}

proof fn prototypes_never_bridge(
    machine: Machine,
    heap: Heap,
    frame: Frame,
    request: Request,
    dropped: nat,
    completion: Completion,
)
    ensures
        machine.finish_prototype(heap, frame, request, dropped, completion).2 != Ok::<
            CallStep,
            Error,
        >(CallStep::Bridge),
{
    match heap.constructed(request.caller_realm, request.new_target, completion) {
        (heap, Ok(Completion::Return(receiver))) => {
            installs_never_bridge(
                machine,
                heap,
                frame,
                request,
                dropped,
                ConstructorReturn::Base(receiver),
            );
        },
        _ => {},
    }
}

proof fn waits_never_bridge(
    machine: Machine,
    heap: Heap,
    frame: Frame,
    request: Request,
    operand_count: nat,
    identity: u64,
    read: OrdinaryRead,
)
    ensures
        machine.await_prototype(heap, frame, request, operand_count, identity, read).2 != Ok::<
            CallStep,
            Error,
        >(CallStep::Bridge),
{
    match read {
        OrdinaryRead::Complete(value) => {
            prototypes_never_bridge(
                machine,
                heap,
                frame,
                request,
                operand_count,
                Completion::Return(
                    match value {
                        Some(value) => value,
                        None => JsValue::Undefined,
                    },
                ),
            );
        },
        _ => {},
    }
}

proof fn bases_never_bridge(
    machine: Machine,
    heap: Heap,
    frame: Frame,
    request: Request,
    operand_count: nat,
    identity: u64,
)
    ensures
        machine.construct_base(heap, frame, request, operand_count, identity).2 != Ok::<
            CallStep,
            Error,
        >(CallStep::Bridge),
{
    match request.new_target {
        JsValue::Object(object) => match heap.ordinary_read(
            object,
            PropertyKey::String(ATOM_PROTOTYPE),
            request.new_target,
        ) {
            Ok(read) => {
                waits_never_bridge(machine, heap, frame, request, operand_count, identity, read);
            },
            Err(_) => {},
        },
        _ => match heap.create(frame.realm, request.new_target) {
            (heap, Ok(CreateStep::Complete(Completion::Return(receiver)))) => {
                installs_never_bridge(
                    machine,
                    heap,
                    frame,
                    request,
                    operand_count,
                    ConstructorReturn::Base(receiver),
                );
            },
            (heap, Ok(CreateStep::Read(read))) => {
                waits_never_bridge(machine, heap, frame, request, operand_count, identity, read);
            },
            _ => {},
        },
    }
}

proof fn bridged_selections_change_nothing(
    heap: Heap,
    realm: usize,
    callable: CallableRef,
    new_target: JsValue,
    arguments: Seq<JsValue>,
    return_to: ReturnTarget,
    fuel: nat,
)
    ensures
        heap.select_constructor(realm, callable, new_target, arguments, return_to, fuel).1 == Ok::<
            Selection,
            Error,
        >(Selection::Bridge) ==> heap.select_constructor(
            realm,
            callable,
            new_target,
            arguments,
            return_to,
            fuel,
        ).0 == heap,
    decreases fuel,
{
    match heap.classification(callable) {
        Ok(CallableExecution::Bound { target, start, count, .. }) => if fuel > 0 {
            bridged_selections_change_nothing(
                heap,
                realm,
                target,
                if new_target == JsValue::Object(callable.object) {
                    JsValue::Object(target.object)
                } else {
                    new_target
                },
                heap.bound_list(start, count) + arguments,
                return_to,
                (fuel - 1) as nat,
            );
        },
        _ => {},
    }
}

/// Definitions left to the embedder have changed nothing.
pub proof fn bridged_definitions_change_nothing(
    machine: Machine,
    heap: Heap,
    id: FrameId,
    key: Option<u32>,
    method: Option<MethodDefinition>,
)
    ensures
        machine.define_property(heap, id, key, method).2 == Ok::<CallStep, Error>(
            CallStep::Bridge,
        ) ==> machine.define_property(heap, id, key, method).0 == heap && machine.define_property(
            heap,
            id,
            key,
            method,
        ).1 == machine,
{
    assert forall|realm: usize, e: Error|
        (#[trigger] heap.throw_step(realm, e)).1 != Ok::<CallStep, Error>(CallStep::Bridge) by {}
}

/// A prototype getter of a class parent that throws publishes nothing.
pub proof fn throwing_parents_publish_nothing(
    machine: Machine,
    heap: Heap,
    target: ReturnTarget,
    value: JsValue,
)
    ensures
        machine.class_reply(heap, target, Completion::Throw(value)).0 == heap,
{
}

/// A reply with another identity is refused by constructors and classes, and
/// operands and pending work stay as they are.
pub proof fn mismatched_constructor_replies_are_refused(
    machine: Machine,
    heap: Heap,
    target: ReturnTarget,
    completion: Completion,
    frame: Frame,
)
    requires
        machine.frames.current(target.frame) == Ok::<Frame, Error>(frame),
    ensures
        frame.cold.constructor_wait matches Some(pending) ==> target.operation != Some(
            OperationTarget::Constructor(pending.identity),
        ) ==> {
            let after = machine.constructor_reply(heap, target, completion);
            after.2 is Err && after.0 == heap && after.1.slots == machine.slots
                && after.1.pending_call == machine.pending_call
        },
        frame.cold.class_wait matches Some(pending) ==> target.operation != Some(
            OperationTarget::ClassDefinition(pending.identity),
        ) ==> {
            let after = machine.class_reply(heap, target, completion);
            after.2 is Err && after.0 == heap && after.1.slots == machine.slots
                && after.1.pending_call == machine.pending_call
        },
{
}

/// The static elements of a class that have begun are not entered again: no
/// frame is pushed and no operand is taken.
pub proof fn begun_static_elements_are_not_entered(
    machine: Machine,
    heap: Heap,
    id: FrameId,
    frame: Frame,
    constructor: ObjectRef,
)
    requires
        machine.frames.current(id) == Ok::<Frame, Error>(frame),
        machine.slots.peek(frame.window, 1) == Ok::<JsValue, Error>(JsValue::Object(constructor)),
        constructor.index < heap.objects.len(),
        Heap::has_begun(heap.objects[constructor.index as int]),
    ensures
        machine.initializer(heap, id, InitializerKind::Static).1 == machine,
        machine.initializer(heap, id, InitializerKind::Static).2 != Ok::<CallStep, Error>(
            CallStep::Entered,
        ),
{
}

/// A construction takes the constructor from below the new-target and the
/// arguments.  The body of a derived class starts without a receiver; that of a
/// base class starts with a fresh object that inherits from the `prototype` of
/// the new-target.  Both run in a new frame with exactly these arguments, and
/// the result takes the place of the operands.
pub proof fn constructions_take_their_operands(
    machine: Machine,
    heap: Heap,
    id: FrameId,
    frame: Frame,
    count: u16,
    identity: u64,
    object: ObjectRef,
    new_target: ObjectRef,
    prototype: ObjectRef,
    arguments: Seq<JsValue>,
    data: crate::heap::BytecodeFunctionData,
)
    requires
        machine.frames.current(id) == Ok::<Frame, Error>(frame),
        machine.slots.top(frame.window, count as nat) == Ok::<Seq<JsValue>, Error>(arguments),
        machine.slots.peek(frame.window, count as int) == Ok::<JsValue, Error>(
            JsValue::Object(new_target),
        ),
        machine.slots.peek(frame.window, count + 1) == Ok::<JsValue, Error>(
            JsValue::Object(object),
        ),
        object.domain == heap.domain,
        new_target.domain == heap.domain,
        object.index < heap.objects.len(),
        heap.objects[object.index as int].payload == ObjectPayload::BytecodeFunction(data),
        heap.objects[object.index as int].is_constructor,
        data.bytecode < heap.code.len(),
        heap.code[data.bytecode as int].metadata.function_kind is Normal,
        !(heap.code[data.bytecode as int].metadata.constructor_kind is NotConstructor),
        machine.frames.can_push() && !heap.would_overflow(),
        heap.foreign_from(arguments, 0) is None,
        heap.ordinary_read(
            new_target,
            PropertyKey::String(ATOM_PROTOTYPE),
            JsValue::Object(new_target),
        ) == Ok::<OrdinaryRead, Error>(OrdinaryRead::Complete(Some(JsValue::Object(prototype)))),
        machine.enter_construct(heap, id, count, identity).2 is Ok,
    ensures
        ({
            let (after, m, r) = machine.enter_construct(heap, id, count, identity);
            let n = machine.frames.frames.len() as int;
            let callee = m.frames.frames[n].frame;
            let derived = heap.code[data.bytecode as int].metadata.constructor_kind is Derived;
            let made = JsValue::Object(heap.next_ref());
            &&& r == Ok::<CallStep, Error>(CallStep::Entered)
            &&& m.frames.frames.len() == n + 1
            &&& callee.executable == data.bytecode
            &&& callee.cold.function == object
            &&& callee.cold.input.new_target == JsValue::Object(new_target)
            &&& m.slots.actual_arguments(callee.window) == Ok::<Seq<JsValue>, Error>(arguments)
            &&& callee.cold.return_to == Some(
                ReturnTarget {
                    value_use: ReturnValue::Push,
                    frame: id,
                    tail: false,
                    operation: None,
                },
            )
            &&& m.frames.frames[n - 1].frame == (Frame {
                resume_pc: (frame.fault_pc + 1) as usize,
                ..frame
            })
            &&& derived ==> callee.cold.input.this_value is Undefined
                && callee.cold.constructor_return == Some(ConstructorReturn::Derived)
            &&& !derived ==> {
                &&& callee.cold.input.this_value == made
                &&& callee.cold.constructor_return == Some(ConstructorReturn::Base(made))
                &&& after.objects.len() == heap.objects.len() + 1
                &&& after.objects.last().prototype == Some(prototype)
            }
        }),
{
    let kind = heap.code[data.bytecode as int].metadata.constructor_kind;
    let rest = machine.slots.discard(frame.window, (count + 2) as nat).0;
    let request = Request {
        callable: CallableRef { object },
        receiver: JsValue::Undefined,
        new_target: JsValue::Object(new_target),
        arguments,
        bytecode: data.bytecode,
        closure_count: data.count,
        caller_realm: frame.realm,
        return_to: ReturnTarget {
            value_use: ReturnValue::Push,
            frame: id,
            tail: false,
            operation: None,
        },
    };
    let made = JsValue::Object(heap.next_ref());
    let base = heap.allocated(Heap::plain_object(Some(prototype)));
    let (before, started) = if kind is Derived {
        (heap, request)
    } else {
        (base, Request { receiver: made, ..request })
    };
    crate::call::request::requests_become_their_frame(before, started);
    let entry = before.request_entry(started).1->Ok_0;
    crate::slots::frames_keep_their_arguments(
        rest,
        entry.original_arguments,
        entry.parameters,
        entry.locals,
        0,
    );
}

/// A derived class without a constructor of its own constructs its parent, the
/// prototype of the running function, with the arguments and the new-target of
/// the running call.
pub proof fn default_constructors_construct_the_parent(
    machine: Machine,
    heap: Heap,
    id: FrameId,
    frame: Frame,
    identity: u64,
    parent: ObjectRef,
    arguments: Seq<JsValue>,
)
    requires
        machine.frames.current(id) == Ok::<Frame, Error>(frame),
        frame.cold.function.index < heap.objects.len(),
        heap.objects[frame.cold.function.index as int].prototype == Some(parent),
        parent.domain == heap.domain,
        parent.index < heap.objects.len(),
        heap.objects[parent.index as int].is_constructor,
        heap.objects[parent.index as int].payload is BytecodeFunction,
        !(frame.cold.input.new_target is Undefined),
        heap.in_domain(frame.cold.input.new_target),
        machine.slots.actual_arguments(frame.window) == Ok::<Seq<JsValue>, Error>(arguments),
        heap.foreign_from(arguments, 0) is None,
    ensures
        machine.enter_default_derived(heap, id, identity) == machine.enter_request(
            heap,
            id,
            CallableRef { object: parent },
            frame.cold.input.new_target,
            arguments,
            0,
            identity,
        ),
{
}

/// Constructing through a bound function: the bound arguments come before those
/// of the call, and a new-target that is the bound function becomes what it
/// wraps.
pub proof fn bound_constructors_are_unwrapped(
    heap: Heap,
    realm: usize,
    callable: CallableRef,
    new_target: JsValue,
    arguments: Seq<JsValue>,
    return_to: ReturnTarget,
    fuel: nat,
    target: ObjectRef,
    this_value: JsValue,
    start: usize,
    count: usize,
    list: Seq<JsValue>,
)
    requires
        callable.object.domain == heap.domain,
        callable.object.index < heap.objects.len(),
        heap.objects[callable.object.index as int].payload == (ObjectPayload::BoundFunction {
            target,
            this_value,
            start,
            count,
        }),
        heap.objects[callable.object.index as int].is_constructor,
        start + count <= heap.bound_values.len(),
        count + arguments.len() <= MAX_ARGUMENTS,
        list.len() == count + arguments.len(),
        forall|i: int| 0 <= i < count ==> #[trigger] list[i] == heap.bound_values[start + i],
        forall|i: int| 0 <= i < arguments.len() ==> list[count + i] == #[trigger] arguments[i],
    ensures
        heap.select_constructor(
            realm,
            callable,
            JsValue::Object(callable.object),
            arguments,
            return_to,
            fuel + 1,
        ) == heap.select_constructor(
            realm,
            CallableRef { object: target },
            JsValue::Object(target),
            list,
            return_to,
            fuel,
        ),
        new_target != JsValue::Object(callable.object) ==> heap.select_constructor(
            realm,
            callable,
            new_target,
            arguments,
            return_to,
            fuel + 1,
        ) == heap.select_constructor(
            realm,
            CallableRef { object: target },
            new_target,
            list,
            return_to,
            fuel,
        ),
{
    assert(heap.bound_list(start, count) + arguments =~= list) by {
        assert forall|i: int| 0 <= i < list.len() implies #[trigger] list[i] == (heap.bound_list(
            start,
            count,
        ) + arguments)[i] by {
            if i >= count {
                assert(list[count + (i - count)] == arguments[i - count]);
            }
        }
    }
}

/// A class definition leaves the constructor and, on top, the prototype in the
/// place of its parent and constructor operands; what a getter of the parent
/// threw is thrown.
pub proof fn class_definitions_leave_their_pair(
    machine: Machine,
    heap: Heap,
    id: FrameId,
    frame: Frame,
    constructor: ObjectRef,
    prototype: ObjectRef,
    value: JsValue,
)
    requires
        machine.frames.current(id) == Ok::<Frame, Error>(frame),
        frame.fault_pc < usize::MAX,
        machine.slots.peek(frame.window, 0) is Ok,
        machine.slots.peek(frame.window, 1) is Ok,
        machine.slots.values.len() <= machine.slots.limit,
    ensures
        ({
            let (after, m, r) = machine.finish_class_result(
                id,
                (
                    heap,
                    Ok::<DefineClassOutcome, Error>(
                        DefineClassOutcome::Defined { constructor, prototype },
                    ),
                ),
            );
            &&& after == heap
            &&& r == Ok::<CallStep, Error>(CallStep::Entered)
            &&& m.slots.values == machine.slots.values.take(
                machine.slots.values.len() - 2,
            ).push(crate::slots::FrameBinding::Direct(JsValue::Object(constructor))).push(
                crate::slots::FrameBinding::Direct(JsValue::Object(prototype)),
            )
        }),
        ({
            let (after, m, r) = machine.finish_class_result(
                id,
                (heap, Ok::<DefineClassOutcome, Error>(DefineClassOutcome::Throw(value))),
            );
            &&& after == heap
            &&& r == Ok::<CallStep, Error>(CallStep::Complete(Completion::Throw(value)))
            &&& m.slots.values == machine.slots.values.take(machine.slots.values.len() - 2)
        }),
{
    reveal_with_fuel(crate::slots::Slots::discard, 3);
    reveal_with_fuel(crate::slots::Slots::push_all, 4);
    let one = machine.slots.pop(frame.window).0;
    assert(one.peek(frame.window, 0) == machine.slots.peek(frame.window, 1));
    assert(one.values.drop_last() =~= machine.slots.values.take(machine.slots.values.len() - 2));
    let pair = seq![JsValue::Object(constructor), JsValue::Object(prototype)];
    assert(pair.drop_first() =~= seq![JsValue::Object(prototype)]);
}

/// A definition in a literal or a class takes the object from below the value,
/// or from below the key and the value, and keeps the object: an accepted one
/// is an own property with that value, whatever setters are inherited.
pub proof fn definitions_keep_their_object(
    machine: Machine,
    heap: Heap,
    id: FrameId,
    frame: Frame,
    object: ObjectRef,
    operand: JsValue,
    value: JsValue,
    key: PropertyKey,
)
    requires
        machine.frames.current(id) == Ok::<Frame, Error>(frame),
        frame.fault_pc < usize::MAX,
        machine.slots.peek(frame.window, 2) == Ok::<JsValue, Error>(JsValue::Object(object)),
        machine.slots.peek(frame.window, 1) == Ok::<JsValue, Error>(operand),
        machine.slots.peek(frame.window, 0) == Ok::<JsValue, Error>(value),
        heap.canonical_key(operand) == (heap, Ok::<PropertyKey, Error>(key)),
        heap.defines_here(object, value, false) == Ok::<bool, Error>(true),
        heap.define(object, key, Heap::data_slot(value)).1 == Ok::<bool, Error>(true),
    ensures
        ({
            let (after, m, r) = machine.define_property(heap, id, None, None);
            &&& r == Ok::<CallStep, Error>(CallStep::Entered)
            &&& after.own_property(object, key) == Ok::<Option<PropertyDescriptor>, Error>(
                Some(
                    PropertyDescriptor::Data {
                        value,
                        writable: true,
                        enumerable: true,
                        configurable: true,
                    },
                ),
            )
            &&& m.slots.values == machine.slots.values.take(machine.slots.values.len() - 2)
            &&& m.frames.current(id) == Ok::<Frame, Error>(
                Frame { resume_pc: (frame.fault_pc + 1) as usize, ..frame },
            )
        }),
{
    reveal_with_fuel(crate::slots::Slots::discard, 3);
    let one = machine.slots.pop(frame.window).0;
    assert(one.peek(frame.window, 0) == machine.slots.peek(frame.window, 1));
    assert(one.values.drop_last() =~= machine.slots.values.take(machine.slots.values.len() - 2));
    crate::object::defined_properties_are_found(heap, object, key, Heap::data_slot(value));
}

/// The field initializer of a class runs on the constructed object, which lies
/// below the constructor, and its result is dropped.
pub proof fn field_initializers_run_on_the_object(
    machine: Machine,
    heap: Heap,
    frame: Frame,
    id: FrameId,
    constructor: JsValue,
    receiver: JsValue,
    fields: CallableRef,
)
    requires
        machine.slots.peek(frame.window, 0) == Ok::<JsValue, Error>(constructor),
        machine.slots.peek(frame.window, 1) == Ok::<JsValue, Error>(receiver),
        heap.instance_initializer(constructor) == Ok::<Option<CallableRef>, Error>(Some(fields)),
    ensures
        machine.begin_initializer(heap, frame, InitializerKind::Instance) == (
            heap,
            Ok::<(Option<CallableRef>, JsValue), Error>((Some(fields), receiver)),
        ),
        heap.initializer_request(Some(fields), receiver, frame.realm, id) matches Ok(Some(request))
            ==> request.callable == fields && request.receiver == receiver
            && request.arguments.len() == 0 && request.new_target is Undefined
            && request.return_to.value_use is Discard && request.return_to.frame == id,
{
}

/// Definitions are made here on plain objects and on functions of plain code of
/// this runtime; a method has to be such a function too.
pub proof fn plain_objects_are_defined_here(
    heap: Heap,
    object: ObjectRef,
    value: JsValue,
    method: bool,
)
    requires
        object.index < heap.objects.len(),
        value matches JsValue::Object(function) ==> function.index < heap.objects.len(),
    ensures
        ({
            let target = heap.objects[object.index as int];
            let plain = heap.belongs(object) && (target.payload is BytecodeFunction
                || target.payload is Ordinary && target.kind is Ordinary);
            &&& !plain ==> heap.defines_here(object, value, method) == Ok::<bool, Error>(false)
            &&& plain && !method ==> heap.defines_here(object, value, method) == Ok::<bool, Error>(
                true,
            )
            &&& plain && method ==> heap.defines_here(object, value, method) == Ok::<bool, Error>(
                value is Object && heap.belongs(value->Object_0)
                    && heap.objects[value->Object_0.index as int].payload is BytecodeFunction,
            )
        }),
{
}

/// The initializer operands of a class: the fields are installed from above the
/// prototype, which lies above the constructor, and run later on each object;
/// the static elements lie above the constructor and run on it.
pub proof fn initializers_take_their_operands(
    machine: Machine,
    heap: Heap,
    frame: Frame,
    constructor: JsValue,
    prototype: JsValue,
    initializer: JsValue,
)
    requires
        machine.slots.peek(frame.window, 0) == Ok::<JsValue, Error>(initializer),
    ensures
        machine.slots.peek(frame.window, 1) == Ok::<JsValue, Error>(prototype)
            && machine.slots.peek(frame.window, 2) == Ok::<JsValue, Error>(constructor) ==> {
            let (after, r) = machine.begin_initializer(heap, frame, InitializerKind::Install);
            let (installed, s) = heap.install_initializer(constructor, prototype, initializer);
            &&& after == installed
            &&& s is Ok ==> (r matches Ok((callable, _)) && callable is None)
            &&& s is Err ==> r is Err
        },
        machine.slots.peek(frame.window, 1) == Ok::<JsValue, Error>(constructor) ==> {
            let (after, r) = machine.begin_initializer(heap, frame, InitializerKind::Static);
            r matches Ok((callable, receiver)) ==> {
                &&& receiver == constructor
                &&& callable matches Some(elements) && JsValue::Object(elements.object)
                    == initializer
            }
        },
{
}

} // verus!
