//! Environment ownership and ordinary dynamic getter calls.
use vstd::prelude::*;
use crate::array_driver;
use crate::call::request::{BytecodeCallRequest, Request};
use crate::code::{BindingKind, ClosureVariable, DynamicEnvironmentSource, FunctionBytecode};
use crate::driver::{push_frame, CallStep};
use crate::error::{Error, ErrorKind};
use crate::execution::{Machine, RunningExecution};
use crate::frame::{Frame, FrameId, OperationTarget, ReturnTarget, ReturnValue};
use crate::heap::{Heap, HeapObject, ObjectKind, ObjectPayload};
use crate::object::{OrdinaryRead, PropertyDescriptor, PropertySetAction};
use crate::runtime::Runtime;
use crate::slots::FrameBinding;
use crate::value::{Atom, CallableRef, Completion, JsValue, NativeConversion, ObjectRef, PropertyKey};
use crate::with_driver::{self, dynamic_object, linked_key};

verus! {

/// Where a name is written.
#[derive(Clone, Copy, Debug, PartialEq, Eq, Structural)]
pub enum WriteTarget {
    Dynamic(DynamicEnvironmentSource),
    Reference,
    Global { index: u16, initialize: bool },
}

#[derive(Clone, Copy, Debug, PartialEq, Eq, Structural)]
pub enum Operation {
    GlobalReference(u16),
    GlobalDelete(u16),
    GlobalGet { index: u16, strict: bool },
    CreateVariable,
    CreateObject,
    CreateArray(u16),
    DefineArrayElement,
    Append,
    ToObject,
    InitializeWith(u16),
    Object(DynamicEnvironmentSource),
    Put { source: WriteTarget, name: u32, strict: bool, check_presence: bool },
    Define { source: DynamicEnvironmentSource, name: u32 },
    Delete { source: DynamicEnvironmentSource, name: u32 },
    ReadReference { name: u32, strict: bool },
    Has { source: DynamicEnvironmentSource, name: u32 },
    Get { source: DynamicEnvironmentSource, name: u32, strict: bool },
}

/// A getter or a setter that runs as a frame.
#[derive(Clone, Copy, Debug, PartialEq, Eq, Structural)]
pub struct AccessorCall {
    pub callable: CallableRef,
    pub receiver: JsValue,
    pub argument: Option<JsValue>,
    pub bytecode: usize,
    pub closure_count: usize,
    pub value_use: ReturnValue,
}

/// What an environment operation left to do.
#[derive(Clone, Copy, Debug, PartialEq, Eq, Structural)]
pub enum Effect {
    Done,
    Call(AccessorCall),
    Step(CallStep),
}

/// A selected binding; its getter has not run.
#[derive(Clone, Copy, Debug, PartialEq, Eq, Structural)]
pub enum BindingRead {
    Value(JsValue),
    Getter { getter: CallableRef, receiver: JsValue },
    Bridge,
}

/// Where a global name is written.
#[derive(Clone, Copy, Debug, PartialEq, Eq, Structural)]
pub enum GlobalWrite {
    Cell(usize),
    Property(PropertyKey),
}

impl Heap {
    /// Whether an object is plain storage.
    pub open spec fn is_ordinary(data: HeapObject) -> bool {
        data.kind is Ordinary && data.payload is Ordinary
    }

    pub open spec fn is_global(data: HeapObject) -> bool {
        data.kind is GlobalObject && data.payload is GlobalObject
    }

    /// Selecting what a name gives on an environment object.  The own
    /// properties of a global object are read through its descriptors.
    pub open spec fn environment_read(self, object: ObjectRef, key: PropertyKey) -> Result<
        OrdinaryRead,
        Error,
    > {
        let receiver = JsValue::Object(object);
        match self.object_at(object) {
            Err(e) => Err(e),
            Ok(data) => match self.own_auto_init(object, key) {
                Err(e) => Err(e),
                Ok(auto_init) => if !Heap::is_global(data) || auto_init {
                    self.ordinary_read(object, key, receiver)
                } else {
                    match self.own_property(object, key) {
                        Err(e) => Err(e),
                        Ok(Some(PropertyDescriptor::Data { value, .. })) => Ok(
                            OrdinaryRead::Complete(Some(value)),
                        ),
                        Ok(Some(PropertyDescriptor::Accessor { get, .. })) => match get {
                            Some(getter) => Ok(
                                OrdinaryRead::Call {
                                    getter: CallableRef { object: getter },
                                    receiver,
                                },
                            ),
                            None => Ok(OrdinaryRead::Complete(Some(JsValue::Undefined))),
                        },
                        Ok(None) => match data.prototype {
                            Some(prototype) => self.ordinary_read(prototype, key, receiver),
                            None => Ok(OrdinaryRead::Complete(None)),
                        },
                    }
                },
            },
        }
    }

    /// Whether an object has a property; nothing if telling could run code.
    pub open spec fn present_on(self, object: ObjectRef, key: PropertyKey) -> Result<
        Option<bool>,
        Error,
    > {
        match self.has_own(object, key) {
            Err(e) => Err(e),
            Ok(true) => Ok(Some(true)),
            Ok(false) => match self.prototype(object) {
                Err(e) => Err(e),
                Ok(None) => Ok(Some(false)),
                Ok(Some(prototype)) => match self.ordinary_read(
                    prototype,
                    key,
                    JsValue::Object(object),
                ) {
                    Err(e) => Err(e),
                    Ok(OrdinaryRead::Complete(value)) => Ok(Some(value is Some)),
                    Ok(OrdinaryRead::Call { .. }) => Ok(Some(true)),
                    Ok(OrdinaryRead::Special { .. }) => Ok(None),
                },
            },
        }
    }

    /// The descriptor and the name of a global variable.
    pub open spec fn global_name(function: FunctionBytecode, index: u16) -> Result<
        (ClosureVariable, Atom),
        Error,
    > {
        if index < function.closure_variables@.len() {
            let descriptor = function.closure_variables@[index as int];
            if descriptor.kind is Private {
                Err(Error::internal("global read referenced a private-name binding"))
            } else {
                match descriptor.name {
                    Some(name) => Ok((descriptor, name)),
                    None => Err(
                        Error::internal("published global closure descriptor has no name atom"),
                    ),
                }
            }
        } else {
            Err(Error::internal("global closure index is out of bounds"))
        }
    }

    /// Where a write of a global name goes.
    pub open spec fn global_write(
        self,
        frame: Frame,
        function: FunctionBytecode,
        index: u16,
        initialize: bool,
    ) -> Result<GlobalWrite, Error> {
        match Heap::global_name(function, index) {
            Err(e) => Err(e),
            Ok((_, name)) => match self.closure_cell(frame.cold.function, index) {
                Err(e) => Err(e),
                Ok(cell) => match self.cell_at(cell) {
                    Err(e) => Err(e),
                    Ok(data) => if initialize {
                        Ok(GlobalWrite::Cell(cell))
                    } else if data.value is None {
                        if data.is_lexical {
                            Err(Error::uninitialized(Some(name)))
                        } else {
                            Ok(GlobalWrite::Property(PropertyKey::String(name)))
                        }
                    } else if data.is_const {
                        Err(Error::read_only(Some(name)))
                    } else {
                        Ok(GlobalWrite::Cell(cell))
                    },
                },
            },
        }
    }

    /// What a selected read means for a name that may be missing.
    pub open spec fn binding_of(read: OrdinaryRead, key: PropertyKey, strict: bool) -> Result<
        BindingRead,
        Error,
    > {
        match read {
            OrdinaryRead::Complete(Some(value)) => Ok(BindingRead::Value(value)),
            OrdinaryRead::Complete(None) => if strict {
                Err(Error::not_defined(key.atom()))
            } else {
                Ok(BindingRead::Value(JsValue::Undefined))
            },
            OrdinaryRead::Call { getter, receiver } => Ok(BindingRead::Getter { getter, receiver }),
            OrdinaryRead::Special { .. } => Ok(BindingRead::Bridge),
        }
    }

    /// Reading a global name: its cell, or a property of the global object.
    pub open spec fn global_read(
        self,
        frame: Frame,
        function: FunctionBytecode,
        index: u16,
        strict: bool,
    ) -> Result<BindingRead, Error> {
        match Heap::global_name(function, index) {
            Err(e) => Err(e),
            Ok((descriptor, name)) => match self.closure_cell(frame.cold.function, index) {
                Err(e) => Err(e),
                Ok(cell) => match self.cell_at(cell) {
                    Err(e) => Err(e),
                    Ok(data) => match data.value {
                        Some(value) => Ok(BindingRead::Value(value)),
                        None => if descriptor.is_lexical {
                            Err(
                                Error::named(
                                    ErrorKind::Reference,
                                    "",
                                    Some(name),
                                    " is not initialized",
                                ),
                            )
                        } else {
                            match self.realm_at(frame.realm) {
                                Err(e) => Err(e),
                                Ok(realm) => match self.environment_read(
                                    realm.global_object,
                                    PropertyKey::String(name),
                                ) {
                                    Err(e) => Err(e),
                                    Ok(read) => Heap::binding_of(
                                        read,
                                        PropertyKey::String(name),
                                        strict,
                                    ),
                                },
                            }
                        },
                    },
                },
            },
        }
    }

    /// Reading a name of an environment object.  A reference to a lexical
    /// variable reads its cell.
    pub open spec fn binding_read(
        self,
        object: ObjectRef,
        key: PropertyKey,
        strict: bool,
        reference: bool,
    ) -> Result<BindingRead, Error> {
        match self.object_at(object) {
            Err(e) => Err(e),
            Ok(data) => match self.own_cell(object, key) {
                Err(e) => Err(e),
                Ok(cell) => if reference && Heap::is_ordinary(data) && cell is Some {
                    match self.own_property(object, key) {
                        Err(e) => Err(e),
                        Ok(Some(PropertyDescriptor::Data { value, .. })) => Ok(
                            BindingRead::Value(value),
                        ),
                        Ok(_) => Err(
                            Error::internal("lexical reference lost its data descriptor"),
                        ),
                    }
                } else {
                    match self.environment_read(object, key) {
                        Err(e) => Err(e),
                        Ok(read) => Heap::binding_of(read, key, strict),
                    }
                },
            },
        }
    }

    /// A getter or setter that the driver can enter.
    pub open spec fn accessor_effect(
        self,
        callable: CallableRef,
        receiver: JsValue,
        argument: Option<JsValue>,
        value_use: ReturnValue,
    ) -> Result<Effect, Error> {
        match self.ordinary_getter(callable) {
            Err(e) => Err(e),
            Ok(None) => Ok(Effect::Step(CallStep::Bridge)),
            Ok(Some((bytecode, closure_count))) => Ok(
                Effect::Call(
                    AccessorCall {
                        callable,
                        receiver,
                        argument,
                        bytecode,
                        closure_count,
                        value_use,
                    },
                ),
            ),
        }
    }
}

impl AccessorCall {
    /// The call of an accessor.
    pub open spec fn request(self, realm: usize, id: FrameId) -> Request {
        Request {
            callable: self.callable,
            receiver: self.receiver,
            new_target: JsValue::Undefined,
            arguments: match self.argument {
                Some(argument) => seq![argument],
                None => Seq::empty(),
            },
            bytecode: self.bytecode,
            closure_count: self.closure_count,
            caller_realm: realm,
            return_to: ReturnTarget {
                value_use: self.value_use,
                frame: id,
                tail: false,
                operation: None,
            },
        }
    }

    fn call(self, realm: usize, id: FrameId) -> (r: BytecodeCallRequest)
        ensures
            r@ == self.request(realm, id),
    {
        let mut arguments: Vec<JsValue> = Vec::new();
        match self.argument {
            Some(argument) => {
                arguments.push(argument);
            },
            None => {},
        }
        assert(arguments@ =~= match self.argument {
            Some(argument) => seq![argument],
            None => Seq::empty(),
        });
        BytecodeCallRequest {
            callable: self.callable,
            receiver: self.receiver,
            new_target: JsValue::Undefined,
            arguments,
            bytecode: self.bytecode,
            closure_count: self.closure_count,
            caller_realm: realm,
            return_to: ReturnTarget {
                value_use: self.value_use,
                frame: id,
                tail: false,
                operation: None,
            },
        }
    }
}

impl Machine {
    /// Pushing the result of an operation.
    pub open spec fn environment_pushed(self, heap: Heap, value: JsValue) -> (
        Heap,
        Machine,
        Result<Effect, Error>,
    ) {
        let (slots, r) = self.slots.push(value);
        (
            heap,
            Machine { slots, ..self },
            match r {
                Err(e) => Err(e),
                Ok(_) => Ok(Effect::Done),
            },
        )
    }

    /// Dropping the operands of an operation.
    pub open spec fn environment_dropped(
        self,
        heap: Heap,
        frame: Frame,
        count: nat,
        effect: Effect,
    ) -> (Heap, Machine, Result<Effect, Error>) {
        let (slots, r) = self.slots.discard(frame.window, count);
        (
            heap,
            Machine { slots, ..self },
            match r {
                Err(e) => Err(e),
                Ok(_) => Ok(effect),
            },
        )
    }

    pub open spec fn global_delete(self, heap: Heap, frame: Frame, function: FunctionBytecode, index: u16) -> (
        Heap,
        Machine,
        Result<Effect, Error>,
    ) {
        match (Heap::global_name(function, index), heap.realm_at(frame.realm)) {
            (Err(e), _) => (heap, self, Err(e)),
            (_, Err(e)) => (heap, self, Err(e)),
            (Ok((_, name)), Ok(realm)) => {
                let key = PropertyKey::String(name);
                match heap.own_cell(realm.global_lexical, key) {
                    Err(e) => (heap, self, Err(e)),
                    Ok(Some(_)) => self.environment_pushed(heap, JsValue::Bool(false)),
                    Ok(None) => match heap.present_on(realm.global_object, key) {
                        Err(e) => (heap, self, Err(e)),
                        Ok(None) => (heap, self, Ok(Effect::Step(CallStep::Bridge))),
                        Ok(Some(false)) => self.environment_pushed(heap, JsValue::Bool(true)),
                        Ok(Some(true)) => match heap.delete(realm.global_object, key) {
                            (heap, Err(e)) => (heap, self, Err(e)),
                            (heap, Ok(deleted)) => self.environment_pushed(
                                heap,
                                JsValue::Bool(deleted),
                            ),
                        },
                    },
                }
            },
        }
    }

    /// The object that a global name is written through.  A lexical variable
    /// is checked before the value to be written is computed.
    pub open spec fn global_reference(
        self,
        heap: Heap,
        frame: Frame,
        function: FunctionBytecode,
        index: u16,
    ) -> (Heap, Machine, Result<Effect, Error>) {
        match (Heap::global_name(function, index), heap.realm_at(frame.realm)) {
            (Err(e), _) => (heap, self, Err(e)),
            (_, Err(e)) => (heap, self, Err(e)),
            (Ok((_, name)), Ok(realm)) => {
                let key = PropertyKey::String(name);
                match heap.own_cell(realm.global_lexical, key) {
                    Err(e) => (heap, self, Err(e)),
                    Ok(Some(cell)) => match heap.cell_at(cell) {
                        Err(e) => (heap, self, Err(e)),
                        Ok(data) => if data.value is None {
                            (heap, self, Err(Error::uninitialized(Some(name))))
                        } else if data.is_const {
                            (heap, self, Err(Error::read_only(Some(name))))
                        } else {
                            self.environment_pushed(heap, JsValue::Object(realm.global_lexical))
                        },
                    },
                    Ok(None) => match heap.present_on(realm.global_object, key) {
                        Err(e) => (heap, self, Err(e)),
                        Ok(None) => (heap, self, Ok(Effect::Step(CallStep::Bridge))),
                        Ok(Some(present)) => self.environment_pushed(
                            heap,
                            if present {
                                JsValue::Object(realm.global_object)
                            } else {
                                JsValue::Undefined
                            },
                        ),
                    },
                }
            },
        }
    }

    /// The object that a write goes to.
    pub open spec fn write_object(
        self,
        heap: Heap,
        frame: Frame,
        source: WriteTarget,
        key: PropertyKey,
        strict: bool,
    ) -> Result<ObjectRef, Error> {
        match source {
            WriteTarget::Global { .. } => match heap.realm_at(frame.realm) {
                Err(e) => Err(e),
                Ok(realm) => Ok(realm.global_object),
            },
            WriteTarget::Dynamic(source) => match self.dynamic_object(heap, frame, source) {
                Err(e) => Err(e),
                Ok((object, _)) => Ok(object),
            },
            WriteTarget::Reference => match self.slots.peek(frame.window, 1) {
                Err(e) => Err(e),
                Ok(JsValue::Object(object)) => if heap.belongs(object) {
                    Ok(object)
                } else {
                    Err(Error::internal("invalid dynamic reference base"))
                },
                Ok(JsValue::Undefined) => if strict {
                    Err(Error::not_defined(key.atom()))
                } else {
                    match heap.realm_at(frame.realm) {
                        Err(e) => Err(e),
                        Ok(realm) => Ok(realm.global_object),
                    }
                },
                Ok(_) => Err(Error::internal("invalid dynamic reference base")),
            },
        }
    }

    /// Writing a name.
    pub open spec fn environment_put(
        self,
        heap: Heap,
        frame: Frame,
        function: FunctionBytecode,
        source: WriteTarget,
        name: u32,
        strict: bool,
        check_presence: bool,
    ) -> (Heap, Machine, Result<Effect, Error>) {
        let target = match source {
            WriteTarget::Global { index, initialize } => heap.global_write(
                frame,
                function,
                index,
                initialize,
            ),
            _ => match Heap::linked_key(function, name) {
                Ok(key) => Ok(GlobalWrite::Property(key)),
                Err(e) => Err(e),
            },
        };
        match target {
            Err(e) => (heap, self, Err(e)),
            Ok(GlobalWrite::Cell(cell)) => match self.slots.pop(frame.window) {
                (slots, Err(e)) => (heap, Machine { slots, ..self }, Err(e)),
                (slots, Ok(value)) => match heap.write_cell(cell, value) {
                    (heap, Err(e)) => (heap, Machine { slots, ..self }, Err(e)),
                    (heap, Ok(_)) => (heap, Machine { slots, ..self }, Ok(Effect::Done)),
                },
            },
            Ok(GlobalWrite::Property(key)) => match self.write_object(
                heap,
                frame,
                source,
                key,
                strict,
            ) {
                Err(e) => (heap, self, Err(e)),
                Ok(object) => match (heap.object_at(object), heap.own_cell(object, key)) {
                    (Err(e), _) => (heap, self, Err(e)),
                    (_, Err(e)) => (heap, self, Err(e)),
                    (Ok(data), Ok(cell)) => if !Heap::is_ordinary(data) && !Heap::is_global(data) {
                        (heap, self, Ok(Effect::Step(CallStep::Bridge)))
                    } else if source is Reference && cell is Some {
                        self.put_variable(heap, frame, cell->Some_0, key, strict)
                    } else {
                        self.put_property(
                            heap,
                            frame,
                            object,
                            key,
                            self.slots.peek(frame.window, 0),
                            if source is Reference {
                                2
                            } else {
                                1
                            },
                            strict,
                            check_presence,
                        )
                    },
                },
            },
        }
    }

    /// A write through a reference to a live variable.
    pub open spec fn put_variable(
        self,
        heap: Heap,
        frame: Frame,
        cell: usize,
        key: PropertyKey,
        strict: bool,
    ) -> (Heap, Machine, Result<Effect, Error>) {
        match heap.cell_at(cell) {
            Err(e) => (heap, self, Err(e)),
            Ok(data) => if data.value is None {
                (heap, self, Err(Error::uninitialized(key.atom())))
            } else if data.is_const && strict {
                (heap, self, Err(Error::read_only(key.atom())))
            } else {
                match self.slots.peek(frame.window, 0) {
                    Err(e) => (heap, self, Err(e)),
                    Ok(value) => {
                        let (heap, machine, r) = self.environment_dropped(
                            heap,
                            frame,
                            2,
                            Effect::Done,
                        );
                        if r is Err || data.is_const {
                            (heap, machine, r)
                        } else {
                            match heap.write_cell(cell, value) {
                                (heap, Err(e)) => (heap, machine, Err(e)),
                                (heap, Ok(_)) => (heap, machine, Ok(Effect::Done)),
                            }
                        }
                    },
                }
            },
        }
    }

    /// A write of a property in place of `dropped` operands.  The probe before
    /// it runs no getter; a value that is missing is found out after it.
    pub open spec fn put_property(
        self,
        heap: Heap,
        frame: Frame,
        object: ObjectRef,
        key: PropertyKey,
        value: Result<JsValue, Error>,
        dropped: nat,
        strict: bool,
        check_presence: bool,
    ) -> (Heap, Machine, Result<Effect, Error>) {
        match heap.environment_read(object, key) {
            Err(e) => (heap, self, Err(e)),
            Ok(OrdinaryRead::Special { .. }) => (heap, self, Ok(Effect::Step(CallStep::Bridge))),
            Ok(read) => if check_presence && strict && read == OrdinaryRead::Complete(None) {
                (heap, self, Err(Error::not_defined(key.atom())))
            } else {
                match value {
                    Err(e) => (heap, self, Err(e)),
                    Ok(value) => self.put_value(heap, frame, object, key, value, dropped, strict),
                }
            },
        }
    }

    /// The write after its probe.
    pub open spec fn put_value(
        self,
        heap: Heap,
        frame: Frame,
        object: ObjectRef,
        key: PropertyKey,
        value: JsValue,
        dropped: nat,
        strict: bool,
    ) -> (Heap, Machine, Result<Effect, Error>) {
        match heap.set(object, key, value) {
            (heap, Err(e)) => (heap, self, Err(e)),
            (heap, Ok(PropertySetAction::Complete)) => self.environment_dropped(
                heap,
                frame,
                dropped,
                Effect::Done,
            ),
            (heap, Ok(PropertySetAction::Rejected(reason))) => if strict {
                (heap, self, Err(Heap::rejection_error(reason, key)))
            } else {
                self.environment_dropped(heap, frame, dropped, Effect::Done)
            },
            (heap, Ok(PropertySetAction::RejectedProxyTrap)) => (
                heap,
                self,
                Err(Error::internal("ordinary environment Set entered a Proxy")),
            ),
            (heap, Ok(PropertySetAction::Call { setter, receiver, argument })) =>
                match heap.accessor_effect(
                setter,
                receiver,
                Some(argument),
                ReturnValue::Discard,
            ) {
                Err(e) => (heap, self, Err(e)),
                Ok(Effect::Call(call)) => self.environment_dropped(
                    heap,
                    frame,
                    dropped,
                    Effect::Call(call),
                ),
                Ok(effect) => (heap, self, Ok(effect)),
            },
        }
    }

    /// Declaring a variable of evaluated code.
    pub open spec fn environment_define(
        self,
        heap: Heap,
        frame: Frame,
        function: FunctionBytecode,
        source: DynamicEnvironmentSource,
        name: u32,
    ) -> (Heap, Machine, Result<Effect, Error>) {
        match self.dynamic_object(heap, frame, source) {
            Err(e) => (heap, self, Err(e)),
            Ok((object, kind)) => match heap.object_at(object) {
                Err(e) => (heap, self, Err(e)),
                Ok(data) => if !(kind is EvalVariableObject) {
                    (
                        heap,
                        self,
                        Err(Error::internal("variable declaration has no variable object")),
                    )
                } else if !(data.kind is Ordinary) {
                    (heap, self, Ok(Effect::Step(CallStep::Bridge)))
                } else {
                    match Heap::linked_key(function, name) {
                        Err(e) => (heap, self, Err(e)),
                        Ok(key) => match self.slots.pop(frame.window) {
                            (slots, Err(e)) => (heap, Machine { slots, ..self }, Err(e)),
                            (slots, Ok(value)) => match heap.define(
                                object,
                                key,
                                Heap::data_slot(value),
                            ) {
                                (heap, Err(e)) => (heap, Machine { slots, ..self }, Err(e)),
                                (heap, Ok(true)) => (
                                    heap,
                                    Machine { slots, ..self },
                                    Ok(Effect::Done),
                                ),
                                (heap, Ok(false)) => (
                                    heap,
                                    Machine { slots, ..self },
                                    Err(
                                        Error::new(
                                            ErrorKind::Type,
                                            "property is not configurable",
                                        ),
                                    ),
                                ),
                            },
                        },
                    }
                },
            },
        }
    }

    pub open spec fn environment_delete(
        self,
        heap: Heap,
        frame: Frame,
        function: FunctionBytecode,
        source: DynamicEnvironmentSource,
        name: u32,
    ) -> (Heap, Machine, Result<Effect, Error>) {
        match self.dynamic_object(heap, frame, source) {
            Err(e) => (heap, self, Err(e)),
            Ok((object, _)) => match heap.object_at(object) {
                Err(e) => (heap, self, Err(e)),
                Ok(data) => if !Heap::is_ordinary(data) {
                    (heap, self, Ok(Effect::Step(CallStep::Bridge)))
                } else {
                    match Heap::linked_key(function, name) {
                        Err(e) => (heap, self, Err(e)),
                        Ok(key) => match heap.delete(object, key) {
                            (heap, Err(e)) => (heap, self, Err(e)),
                            (heap, Ok(deleted)) => self.environment_pushed(
                                heap,
                                JsValue::Bool(deleted),
                            ),
                        },
                    }
                },
            },
        }
    }

    /// The binding that a reading operation selects.
    pub open spec fn selected_binding(
        self,
        heap: Heap,
        frame: Frame,
        function: FunctionBytecode,
        op: Operation,
    ) -> Result<BindingRead, Error> {
        match op {
            Operation::GlobalGet { index, strict } => heap.global_read(
                frame,
                function,
                index,
                strict,
            ),
            Operation::Object(source) => match self.dynamic_object(heap, frame, source) {
                Err(e) => Err(e),
                Ok((object, _)) => Ok(BindingRead::Value(JsValue::Object(object))),
            },
            Operation::Get { source, name, strict } => match self.dynamic_object(
                heap,
                frame,
                source,
            ) {
                Err(e) => Err(e),
                Ok((object, _)) => match Heap::linked_key(function, name) {
                    Err(e) => Err(e),
                    Ok(key) => heap.binding_read(object, key, strict, false),
                },
            },
            Operation::ReadReference { name, strict } => match self.slots.peek(frame.window, 0) {
                Err(e) => Err(e),
                Ok(JsValue::Object(object)) => if !heap.belongs(object) {
                    Ok(BindingRead::Bridge)
                } else {
                    match Heap::linked_key(function, name) {
                        Err(e) => Err(e),
                        Ok(key) => heap.binding_read(object, key, strict, true),
                    }
                },
                Ok(JsValue::Undefined) => match Heap::linked_key(function, name) {
                    Err(e) => Err(e),
                    Ok(key) => Err(Error::not_defined(key.atom())),
                },
                Ok(_) => Err(Error::internal("invalid dynamic reference base")),
            },
            _ => Err(Error::internal("dynamic read received unrelated operation")),
        }
    }

    pub open spec fn environment_get(
        self,
        heap: Heap,
        frame: Frame,
        function: FunctionBytecode,
        op: Operation,
    ) -> (Heap, Machine, Result<Effect, Error>) {
        match self.selected_binding(heap, frame, function, op) {
            Err(e) => (heap, self, Err(e)),
            Ok(BindingRead::Value(value)) => self.environment_pushed(heap, value),
            Ok(BindingRead::Bridge) => (heap, self, Ok(Effect::Step(CallStep::Bridge))),
            Ok(BindingRead::Getter { getter, receiver }) => (
                heap,
                self,
                heap.accessor_effect(getter, receiver, None, ReturnValue::Push),
            ),
        }
    }

    /// Making an array of the top operands.
    pub open spec fn create_array(self, heap: Heap, frame: Frame, count: u16) -> (
        Heap,
        Machine,
        Result<Effect, Error>,
    ) {
        match self.slots.top(frame.window, count as nat) {
            Err(e) => (heap, self, Err(e)),
            Ok(values) => match self.slots.discard(frame.window, count as nat) {
                (slots, Err(e)) => (heap, Machine { slots, ..self }, Err(e)),
                (slots, Ok(_)) => match heap.new_array(frame.realm, values) {
                    (heap, Err(e)) => (heap, Machine { slots, ..self }, Err(e)),
                    (heap, Ok(array)) => (Machine { slots, ..self }).environment_pushed(
                        heap,
                        JsValue::Object(array),
                    ),
                },
            },
        }
    }

    pub open spec fn environment_to_object(self, heap: Heap, frame: Frame) -> (
        Heap,
        Machine,
        Result<Effect, Error>,
    ) {
        match self.slots.pop(frame.window) {
            (slots, Err(e)) => (heap, Machine { slots, ..self }, Err(e)),
            (slots, Ok(value)) => match heap.to_object(frame.realm, value) {
                (heap, Err(e)) => (heap, Machine { slots, ..self }, Err(e)),
                (heap, Ok(NativeConversion::Value(object))) => (Machine {
                    slots,
                    ..self
                }).environment_pushed(heap, JsValue::Object(object)),
                (heap, Ok(NativeConversion::Throw(value))) => (
                    heap,
                    Machine { slots, ..self },
                    Ok(Effect::Step(CallStep::Complete(Completion::Throw(value)))),
                ),
            },
        }
    }

    /// Entering a `with` scope.
    pub open spec fn initialize_with(
        self,
        heap: Heap,
        frame: Frame,
        function: FunctionBytecode,
        index: u16,
    ) -> (Heap, Machine, Result<Effect, Error>) {
        if !(index < function.local_definitions@.len()
            && function.local_definitions@[index as int].kind is WithObject) {
            (
                heap,
                self,
                Err(Error::internal("with initialization received another binding kind")),
            )
        } else {
            match self.slots.pop(frame.window) {
                (slots, Err(e)) => (heap, Machine { slots, ..self }, Err(e)),
                (slots, Ok(value)) => match slots.local(frame.window, index) {
                    Err(e) => (heap, Machine { slots, ..self }, Err(e)),
                    Ok(FrameBinding::Captured { cell, .. }) => match heap.write_cell(cell, value) {
                        (heap, Err(e)) => (heap, Machine { slots, ..self }, Err(e)),
                        (heap, Ok(_)) => (heap, Machine { slots, ..self }, Ok(Effect::Done)),
                    },
                    Ok(_) => match slots.set_local(
                        frame.window,
                        index,
                        FrameBinding::Direct(value),
                    ) {
                        (slots, Err(e)) => (heap, Machine { slots, ..self }, Err(e)),
                        (slots, Ok(_)) => (heap, Machine { slots, ..self }, Ok(Effect::Done)),
                    },
                },
            }
        }
    }

    /// What an environment operation does to the heap and the operands.
    #[verifier::opaque]
    pub open spec fn environment_effect(
        self,
        heap: Heap,
        frame: Frame,
        function: FunctionBytecode,
        op: Operation,
    ) -> (Heap, Machine, Result<Effect, Error>) {
        match op {
            Operation::GlobalDelete(index) => self.global_delete(heap, frame, function, index),
            Operation::GlobalReference(index) => self.global_reference(
                heap,
                frame,
                function,
                index,
            ),
            Operation::Put { source, name, strict, check_presence } => self.environment_put(
                heap,
                frame,
                function,
                source,
                name,
                strict,
                check_presence,
            ),
            Operation::Define { source, name } => self.environment_define(
                heap,
                frame,
                function,
                source,
                name,
            ),
            Operation::Delete { source, name } => self.environment_delete(
                heap,
                frame,
                function,
                source,
                name,
            ),
            Operation::CreateArray(count) => self.create_array(heap, frame, count),
            Operation::CreateObject => match heap.realm_at(frame.realm) {
                Err(e) => (heap, self, Err(e)),
                Ok(realm) => self.environment_pushed(
                    heap.allocated(Heap::plain_object(Some(realm.object_prototype))),
                    JsValue::Object(heap.next_ref()),
                ),
            },
            Operation::CreateVariable => if function.metadata.eval_variable_object_local is None
                && function.arg_eval_variable_object_local is None {
                (
                    heap,
                    self,
                    Err(
                        Error::internal("variable-environment creation has no authenticated local"),
                    ),
                )
            } else {
                self.environment_pushed(
                    heap.allocated(Heap::plain_object(None)),
                    JsValue::Object(heap.next_ref()),
                )
            },
            Operation::ToObject => self.environment_to_object(heap, frame),
            Operation::InitializeWith(index) => self.initialize_with(heap, frame, function, index),
            Operation::Has { .. } => (
                heap,
                self,
                Err(Error::internal("HasBinding bypassed continuation driver")),
            ),
            _ => self.environment_get(heap, frame, function, op),
        }
    }

    /// An environment instruction of the current frame.
    pub open spec fn environment_step(self, heap: Heap, id: FrameId, op: Operation) -> (
        Heap,
        Machine,
        Result<CallStep, Error>,
    ) {
        match op {
            Operation::Append => self.append_dense(heap, id),
            Operation::DefineArrayElement => self.define_array_element(heap, id),
            _ => match self.frames.current(id) {
                Err(e) => (heap, self, Err(e)),
                Ok(frame) => match heap.function_at(frame.executable) {
                    Err(e) => (heap, self, Err(e)),
                    Ok(function) => match self.environment_effect(heap, frame, function, op) {
                        (heap, machine, Err(e)) => {
                            let (heap, r) = heap.throw_step(frame.realm, e);
                            (heap, machine, r)
                        },
                        (heap, machine, Ok(effect)) => machine.finish_environment(
                            heap,
                            id,
                            frame,
                            effect,
                        ),
                    },
                },
            },
        }
    }

    /// Ending an environment instruction.
    pub open spec fn finish_environment(self, heap: Heap, id: FrameId, frame: Frame, effect: Effect) -> (
        Heap,
        Machine,
        Result<CallStep, Error>,
    ) {
        let overflow = Error::internal("environment resume PC overflow");
        match effect {
            Effect::Step(step) => (heap, self, Ok(step)),
            Effect::Done => {
                let (machine, r) = self.resumed(frame, overflow);
                Machine::step_done((heap, machine, r))
            },
            Effect::Call(call) => if !self.frames.can_push() || heap.would_overflow() {
                let (heap, r) = heap.overflow_step(frame.realm);
                (heap, self, r)
            } else {
                match self.resumed(frame, overflow) {
                    (machine, Err(e)) => (heap, machine, Err(e)),
                    (machine, Ok(_)) => match heap.request_entry(call.request(frame.realm, id)) {
                        (heap, Err(e)) => (heap, machine, Err(e)),
                        (heap, Ok(entry)) => match machine.push_entry(heap, entry) {
                            (heap, machine, Err(e)) => (heap, machine, Err(e)),
                            (heap, machine, Ok(_)) => (heap, machine, Ok(CallStep::Entered)),
                        },
                    },
                }
            },
        }
    }

    /// Answering an operation of an environment.
    pub open spec fn environment_reply(
        self,
        heap: Heap,
        target: ReturnTarget,
        completion: Completion,
    ) -> (Heap, Machine, Result<CallStep, Error>) {
        match target.operation {
            Some(OperationTarget::HasBinding(_)) => self.has_reply(heap, target, completion),
            _ => (heap, self, Err(Error::internal("environment reply has no operation"))),
        }
    }
}

fn is_ordinary(data: HeapObject) -> (r: bool)
    ensures
        r == Heap::is_ordinary(data),
{
    data.kind == ObjectKind::Ordinary && matches!(data.payload, ObjectPayload::Ordinary)
}

fn is_global(data: HeapObject) -> (r: bool)
    ensures
        r == Heap::is_global(data),
{
    data.kind == ObjectKind::GlobalObject && matches!(data.payload, ObjectPayload::GlobalObject)
}

/// Select what a name gives on an environment object, without running any
/// code.
pub fn prepare_environment_read(runtime: &Runtime, object: ObjectRef, key: PropertyKey) -> (r: Result<
    OrdinaryRead,
    Error,
>)
    ensures
        r == runtime@.environment_read(object, key),
{
    let receiver = JsValue::Object(object);
    let data = runtime.object(object)?;
    if runtime.is_auto_init_own_property(object, key)? || !is_global(data) {
        return runtime.prepare_ordinary_read(object, key, receiver);
    }
    match runtime.get_own_property(object, key)? {
        Some(PropertyDescriptor::Data { value, .. }) => Ok(OrdinaryRead::Complete(Some(value))),
        Some(PropertyDescriptor::Accessor { get, .. }) => match get {
            Some(getter) => Ok(
                OrdinaryRead::Call { getter: CallableRef::from_validated_object(getter), receiver },
            ),
            None => Ok(OrdinaryRead::Complete(Some(JsValue::Undefined))),
        },
        None => match data.prototype {
            Some(prototype) => runtime.prepare_ordinary_read(prototype, key, receiver),
            None => Ok(OrdinaryRead::Complete(None)),
        },
    }
}

fn present_on(runtime: &Runtime, object: ObjectRef, key: PropertyKey) -> (r: Result<
    Option<bool>,
    Error,
>)
    ensures
        r == runtime@.present_on(object, key),
{
    if runtime.has_own_property(object, key)? {
        return Ok(Some(true));
    }
    match runtime.get_prototype_of(object)? {
        None => Ok(Some(false)),
        Some(prototype) => match runtime.prepare_ordinary_read(
            prototype,
            key,
            JsValue::Object(object),
        )? {
            OrdinaryRead::Complete(value) => Ok(Some(value.is_some())),
            OrdinaryRead::Call { .. } => Ok(Some(true)),
            OrdinaryRead::Special { .. } => Ok(None),
        },
    }
}

fn global_name(function: &FunctionBytecode, index: u16) -> (r: Result<(ClosureVariable, Atom), Error>)
    ensures
        r == Heap::global_name(*function, index),
{
    if (index as usize) >= function.closure_variables.len() {
        return Err(Error::internal("global closure index is out of bounds"));
    }
    let descriptor = function.closure_variables[index as usize];
    if descriptor.kind == BindingKind::Private {
        return Err(Error::internal("global read referenced a private-name binding"));
    }
    match descriptor.name {
        Some(name) => Ok((descriptor, name)),
        None => Err(Error::internal("published global closure descriptor has no name atom")),
    }
}

fn prepare_global_write(runtime: &Runtime, frame: Frame, index: u16, initialize: bool) -> (r: Result<
    GlobalWrite,
    Error,
>)
    requires
        frame.executable < runtime@.code.len(),
    ensures
        r == runtime@.global_write(
            frame,
            runtime@.code[frame.executable as int],
            index,
            initialize,
        ),
{
    let (_, name) = global_name(&runtime.code[frame.executable], index)?;
    let cell: usize = runtime.closure_cell(frame.cold.function, index)?;
    let data = runtime.cell(cell)?;
    if initialize {
        return Ok(GlobalWrite::Cell(cell));
    }
    if data.value.is_none() {
        return if data.is_lexical {
            Err(Error::uninitialized(Some(name)))
        } else {
            Ok(GlobalWrite::Property(PropertyKey::String(name)))
        };
    }
    if data.is_const {
        Err(Error::read_only(Some(name)))
    } else {
        Ok(GlobalWrite::Cell(cell))
    }
}

fn binding_of(read: OrdinaryRead, key: PropertyKey, strict: bool) -> (r: Result<BindingRead, Error>)
    ensures
        r == Heap::binding_of(read, key, strict),
{
    match read {
        OrdinaryRead::Complete(Some(value)) => Ok(BindingRead::Value(value)),
        OrdinaryRead::Complete(None) => {
            if strict {
                Err(Error::not_defined(key.atom()))
            } else {
                Ok(BindingRead::Value(JsValue::Undefined))
            }
        },
        OrdinaryRead::Call { getter, receiver } => Ok(BindingRead::Getter { getter, receiver }),
        OrdinaryRead::Special { .. } => Ok(BindingRead::Bridge),
    }
}

/// Read a global name: its cell, or a property of the global object.
pub fn read_global_binding(runtime: &Runtime, frame: Frame, index: u16, strict: bool) -> (r: Result<
    BindingRead,
    Error,
>)
    requires
        frame.executable < runtime@.code.len(),
    ensures
        r == runtime@.global_read(frame, runtime@.code[frame.executable as int], index, strict),
{
    let (descriptor, name) = global_name(&runtime.code[frame.executable], index)?;
    let cell: usize = runtime.closure_cell(frame.cold.function, index)?;
    match runtime.cell(cell)?.value {
        Some(value) => {
            return Ok(BindingRead::Value(value));
        },
        None => {},
    }
    if descriptor.is_lexical {
        return Err(Error::named(ErrorKind::Reference, "", Some(name), " is not initialized"));
    }
    let realm = runtime.realm(frame.realm)?;
    let key = PropertyKey::String(name);
    let read = prepare_environment_read(runtime, realm.global_object, key)?;
    binding_of(read, key, strict)
}

/// Select a binding of an environment object; a getter is not invoked.
pub fn read_binding(
    runtime: &Runtime,
    object: ObjectRef,
    key: PropertyKey,
    strict: bool,
    reference: bool,
) -> (r: Result<BindingRead, Error>)
    ensures
        r == runtime@.binding_read(object, key, strict, reference),
{
    let data = runtime.object(object)?;
    let cell = runtime.own_var_ref_root(object, key)?;
    if reference && is_ordinary(data) && cell.is_some() {
        return match runtime.get_own_property(object, key)? {
            Some(PropertyDescriptor::Data { value, .. }) => Ok(BindingRead::Value(value)),
            _ => Err(Error::internal("lexical reference lost its data descriptor")),
        };
    }
    let read = prepare_environment_read(runtime, object, key)?;
    binding_of(read, key, strict)
}

fn accessor_effect(
    runtime: &Runtime,
    callable: CallableRef,
    receiver: JsValue,
    argument: Option<JsValue>,
    value_use: ReturnValue,
) -> (r: Result<Effect, Error>)
    ensures
        r == runtime@.accessor_effect(callable, receiver, argument, value_use),
{
    match runtime.ordinary_getter(callable)? {
        None => Ok(Effect::Step(CallStep::Bridge)),
        Some((bytecode, closure_count)) => Ok(
            Effect::Call(
                AccessorCall { callable, receiver, argument, bytecode, closure_count, value_use },
            ),
        ),
    }
}

impl RunningExecution {
    fn environment_pushed(&mut self, value: JsValue) -> (r: Result<Effect, Error>)
        ensures
            forall|heap: Heap|
                (heap, final(self)@, r) == #[trigger] old(self)@.environment_pushed(heap, value),
    {
        self.slots.push(value)?;
        Ok(Effect::Done)
    }

    fn environment_dropped(&mut self, frame: Frame, count: usize, effect: Effect) -> (r: Result<
        Effect,
        Error,
    >)
        ensures
            forall|heap: Heap|
                (heap, final(self)@, r) == #[trigger] old(self)@.environment_dropped(
                    heap,
                    frame,
                    count as nat,
                    effect,
                ),
    {
        self.slots.discard(frame.window, count)?;
        Ok(effect)
    }

    fn global_delete(&mut self, runtime: &mut Runtime, frame: Frame, index: u16) -> (r: Result<
        Effect,
        Error,
    >)
        requires
            old(runtime).wf(),
            frame.executable < old(runtime)@.code.len(),
        ensures
            final(runtime).wf(),
            (final(runtime)@, final(self)@, r) == old(self)@.global_delete(
                old(runtime)@,
                frame,
                old(runtime)@.code[frame.executable as int],
                index,
            ),
    {
        let (_, name) = global_name(&runtime.code[frame.executable], index)?;
        let realm = runtime.realm(frame.realm)?;
        let key = PropertyKey::String(name);
        if runtime.own_var_ref_root(realm.global_lexical, key)?.is_some() {
            return self.environment_pushed(JsValue::Bool(false));
        }
        match present_on(runtime, realm.global_object, key)? {
            None => Ok(Effect::Step(CallStep::Bridge)),
            Some(false) => self.environment_pushed(JsValue::Bool(true)),
            Some(true) => {
                let deleted = runtime.delete_property(realm.global_object, key)?;
                self.environment_pushed(JsValue::Bool(deleted))
            },
        }
    }

    fn global_reference(&mut self, runtime: &Runtime, frame: Frame, index: u16) -> (r: Result<
        Effect,
        Error,
    >)
        requires
            frame.executable < runtime@.code.len(),
        ensures
            (runtime@, final(self)@, r) == old(self)@.global_reference(
                runtime@,
                frame,
                runtime@.code[frame.executable as int],
                index,
            ),
    {
        let (_, name) = global_name(&runtime.code[frame.executable], index)?;
        let realm = runtime.realm(frame.realm)?;
        let key = PropertyKey::String(name);
        match runtime.own_var_ref_root(realm.global_lexical, key)? {
            Some(cell) => {
                let data = runtime.cell(cell)?;
                if data.value.is_none() {
                    return Err(Error::uninitialized(Some(name)));
                }
                if data.is_const {
                    return Err(Error::read_only(Some(name)));
                }
                return self.environment_pushed(JsValue::Object(realm.global_lexical));
            },
            None => {},
        }
        match present_on(runtime, realm.global_object, key)? {
            None => Ok(Effect::Step(CallStep::Bridge)),
            Some(present) => self.environment_pushed(
                if present {
                    JsValue::Object(realm.global_object)
                } else {
                    JsValue::Undefined
                },
            ),
        }
    }

    fn write_object(
        &self,
        runtime: &Runtime,
        frame: Frame,
        source: WriteTarget,
        key: PropertyKey,
        strict: bool,
    ) -> (r: Result<ObjectRef, Error>)
        ensures
            r == self@.write_object(runtime@, frame, source, key, strict),
    {
        match source {
            WriteTarget::Global { .. } => Ok(runtime.realm(frame.realm)?.global_object),
            WriteTarget::Dynamic(source) => {
                let (object, _) = dynamic_object(runtime, self, frame, source)?;
                Ok(object)
            },
            WriteTarget::Reference => match self.slots.peek(frame.window, 1)? {
                JsValue::Object(object) => {
                    if object.domain == runtime.domain_id() {
                        Ok(object)
                    } else {
                        Err(Error::internal("invalid dynamic reference base"))
                    }
                },
                JsValue::Undefined => {
                    if strict {
                        Err(Error::not_defined(key.atom()))
                    } else {
                        Ok(runtime.realm(frame.realm)?.global_object)
                    }
                },
                _ => Err(Error::internal("invalid dynamic reference base")),
            },
        }
    }

    fn put_variable(
        &mut self,
        runtime: &mut Runtime,
        frame: Frame,
        cell: usize,
        key: PropertyKey,
        strict: bool,
    ) -> (r: Result<Effect, Error>)
        requires
            old(runtime).wf(),
        ensures
            final(runtime).wf(),
            (final(runtime)@, final(self)@, r) == old(self)@.put_variable(
                old(runtime)@,
                frame,
                cell,
                key,
                strict,
            ),
    {
        let data = runtime.cell(cell)?;
        if data.value.is_none() {
            return Err(Error::uninitialized(key.atom()));
        }
        if data.is_const && strict {
            return Err(Error::read_only(key.atom()));
        }
        let value = self.slots.peek(frame.window, 0)?;
        let effect = self.environment_dropped(frame, 2, Effect::Done)?;
        if !data.is_const {
            runtime.write_var_ref(cell, value)?;
        }
        Ok(effect)
    }

    /// Write a property in place of `dropped` operands.
    pub fn put_property(
        &mut self,
        runtime: &mut Runtime,
        frame: Frame,
        object: ObjectRef,
        key: PropertyKey,
        value: Result<JsValue, Error>,
        dropped: usize,
        strict: bool,
        check_presence: bool,
    ) -> (r: Result<Effect, Error>)
        requires
            old(runtime).wf(),
        ensures
            final(runtime).wf(),
            (final(runtime)@, final(self)@, r) == old(self)@.put_property(
                old(runtime)@,
                frame,
                object,
                key,
                value,
                dropped as nat,
                strict,
                check_presence,
            ),
    {
        let present = match prepare_environment_read(runtime, object, key)? {
            OrdinaryRead::Complete(value) => value.is_some(),
            OrdinaryRead::Call { .. } => true,
            OrdinaryRead::Special { .. } => {
                return Ok(Effect::Step(CallStep::Bridge));
            },
        };
        if check_presence && strict && !present {
            return Err(Error::not_defined(key.atom()));
        }
        let value = value?;
        match runtime.prepare_set_property(object, key, value)? {
            PropertySetAction::Complete => self.environment_dropped(frame, dropped, Effect::Done),
            PropertySetAction::Rejected(reason) => {
                if strict {
                    Err(Runtime::set_rejection_error(reason, key))
                } else {
                    self.environment_dropped(frame, dropped, Effect::Done)
                }
            },
            PropertySetAction::RejectedProxyTrap => Err(
                Error::internal("ordinary environment Set entered a Proxy"),
            ),
            PropertySetAction::Call { setter, receiver, argument } => {
                match accessor_effect(
                    runtime,
                    setter,
                    receiver,
                    Some(argument),
                    ReturnValue::Discard,
                )? {
                    Effect::Call(call) => self.environment_dropped(
                        frame,
                        dropped,
                        Effect::Call(call),
                    ),
                    effect => Ok(effect),
                }
            },
        }
    }

    fn environment_put(
        &mut self,
        runtime: &mut Runtime,
        frame: Frame,
        source: WriteTarget,
        name: u32,
        strict: bool,
        check_presence: bool,
    ) -> (r: Result<Effect, Error>)
        requires
            old(runtime).wf(),
            frame.executable < old(runtime)@.code.len(),
        ensures
            final(runtime).wf(),
            (final(runtime)@, final(self)@, r) == old(self)@.environment_put(
                old(runtime)@,
                frame,
                old(runtime)@.code[frame.executable as int],
                source,
                name,
                strict,
                check_presence,
            ),
    {
        let target = match source {
            WriteTarget::Global { index, initialize } => prepare_global_write(
                runtime,
                frame,
                index,
                initialize,
            )?,
            _ => GlobalWrite::Property(linked_key(&runtime.code[frame.executable], name)?),
        };
        let key = match target {
            GlobalWrite::Cell(cell) => {
                let value = self.slots.pop(frame.window)?;
                runtime.write_var_ref(cell, value)?;
                return Ok(Effect::Done);
            },
            GlobalWrite::Property(key) => key,
        };
        let object = self.write_object(runtime, frame, source, key, strict)?;
        let data = runtime.object(object)?;
        let cell = runtime.own_var_ref_root(object, key)?;
        if !is_ordinary(data) && !is_global(data) {
            return Ok(Effect::Step(CallStep::Bridge));
        }
        match (source, cell) {
            (WriteTarget::Reference, Some(cell)) => self.put_variable(
                runtime,
                frame,
                cell,
                key,
                strict,
            ),
            _ => {
                let value = self.slots.peek(frame.window, 0);
                self.put_property(
                    runtime,
                    frame,
                    object,
                    key,
                    value,
                    if matches!(source, WriteTarget::Reference) {
                        2
                    } else {
                        1
                    },
                    strict,
                    check_presence,
                )
            },
        }
    }

    fn environment_define(
        &mut self,
        runtime: &mut Runtime,
        frame: Frame,
        source: DynamicEnvironmentSource,
        name: u32,
    ) -> (r: Result<Effect, Error>)
        requires
            old(runtime).wf(),
            frame.executable < old(runtime)@.code.len(),
        ensures
            final(runtime).wf(),
            (final(runtime)@, final(self)@, r) == old(self)@.environment_define(
                old(runtime)@,
                frame,
                old(runtime)@.code[frame.executable as int],
                source,
                name,
            ),
    {
        let (object, kind) = dynamic_object(runtime, self, frame, source)?;
        let data = runtime.object(object)?;
        if kind != BindingKind::EvalVariableObject {
            return Err(Error::internal("variable declaration has no variable object"));
        }
        if data.kind != ObjectKind::Ordinary {
            return Ok(Effect::Step(CallStep::Bridge));
        }
        let key = linked_key(&runtime.code[frame.executable], name)?;
        let value = self.slots.pop(frame.window)?;
        if runtime.define_public_class_field(object, key, value)? {
            Ok(Effect::Done)
        } else {
            Err(Error::new(ErrorKind::Type, "property is not configurable"))
        }
    }

    fn environment_delete(
        &mut self,
        runtime: &mut Runtime,
        frame: Frame,
        source: DynamicEnvironmentSource,
        name: u32,
    ) -> (r: Result<Effect, Error>)
        requires
            old(runtime).wf(),
            frame.executable < old(runtime)@.code.len(),
        ensures
            final(runtime).wf(),
            (final(runtime)@, final(self)@, r) == old(self)@.environment_delete(
                old(runtime)@,
                frame,
                old(runtime)@.code[frame.executable as int],
                source,
                name,
            ),
    {
        let (object, _) = dynamic_object(runtime, self, frame, source)?;
        let data = runtime.object(object)?;
        if !is_ordinary(data) {
            return Ok(Effect::Step(CallStep::Bridge));
        }
        let key = linked_key(&runtime.code[frame.executable], name)?;
        let deleted = runtime.delete_property(object, key)?;
        self.environment_pushed(JsValue::Bool(deleted))
    }

    fn selected_binding(&self, runtime: &Runtime, frame: Frame, op: Operation) -> (r: Result<
        BindingRead,
        Error,
    >)
        requires
            frame.executable < runtime@.code.len(),
        ensures
            r == self@.selected_binding(
                runtime@,
                frame,
                runtime@.code[frame.executable as int],
                op,
            ),
    {
        match op {
            Operation::GlobalGet { index, strict } => read_global_binding(
                runtime,
                frame,
                index,
                strict,
            ),
            Operation::Object(source) => {
                let (object, _) = dynamic_object(runtime, self, frame, source)?;
                Ok(BindingRead::Value(JsValue::Object(object)))
            },
            Operation::Get { source, name, strict } => {
                let (object, _) = dynamic_object(runtime, self, frame, source)?;
                let key = linked_key(&runtime.code[frame.executable], name)?;
                read_binding(runtime, object, key, strict, false)
            },
            Operation::ReadReference { name, strict } => match self.slots.peek(frame.window, 0)? {
                JsValue::Object(object) => {
                    if object.domain != runtime.domain_id() {
                        return Ok(BindingRead::Bridge);
                    }
                    let key = linked_key(&runtime.code[frame.executable], name)?;
                    read_binding(runtime, object, key, strict, true)
                },
                JsValue::Undefined => {
                    let key = linked_key(&runtime.code[frame.executable], name)?;
                    Err(Error::not_defined(key.atom()))
                },
                _ => Err(Error::internal("invalid dynamic reference base")),
            },
            _ => Err(Error::internal("dynamic read received unrelated operation")),
        }
    }

    fn environment_get(&mut self, runtime: &Runtime, frame: Frame, op: Operation) -> (r: Result<
        Effect,
        Error,
    >)
        requires
            frame.executable < runtime@.code.len(),
        ensures
            (runtime@, final(self)@, r) == old(self)@.environment_get(
                runtime@,
                frame,
                runtime@.code[frame.executable as int],
                op,
            ),
    {
        match self.selected_binding(runtime, frame, op)? {
            BindingRead::Value(value) => self.environment_pushed(value),
            BindingRead::Bridge => Ok(Effect::Step(CallStep::Bridge)),
            BindingRead::Getter { getter, receiver } => accessor_effect(
                runtime,
                getter,
                receiver,
                None,
                ReturnValue::Push,
            ),
        }
    }

    fn create_array(&mut self, runtime: &mut Runtime, frame: Frame, count: u16) -> (r: Result<
        Effect,
        Error,
    >)
        requires
            old(runtime).wf(),
        ensures
            final(runtime).wf(),
            (final(runtime)@, final(self)@, r) == old(self)@.create_array(
                old(runtime)@,
                frame,
                count,
            ),
    {
        let values = self.slots.top(frame.window, count as usize)?;
        self.slots.discard(frame.window, count as usize)?;
        assert(self@ =~= Machine { slots: self@.slots, ..old(self)@ });
        let array = runtime.new_array_from_values(frame.realm, &values)?;
        self.environment_pushed(JsValue::Object(array))
    }

    fn environment_to_object(&mut self, runtime: &mut Runtime, frame: Frame) -> (r: Result<
        Effect,
        Error,
    >)
        requires
            old(runtime).wf(),
        ensures
            final(runtime).wf(),
            (final(runtime)@, final(self)@, r) == old(self)@.environment_to_object(
                old(runtime)@,
                frame,
            ),
    {
        let value = self.slots.pop(frame.window)?;
        assert(self@ =~= Machine { slots: self@.slots, ..old(self)@ });
        match runtime.native_to_object(frame.realm, value)? {
            NativeConversion::Value(object) => self.environment_pushed(JsValue::Object(object)),
            NativeConversion::Throw(value) => Ok(
                Effect::Step(CallStep::Complete(Completion::Throw(value))),
            ),
        }
    }

    fn initialize_with(&mut self, runtime: &mut Runtime, frame: Frame, index: u16) -> (r: Result<
        Effect,
        Error,
    >)
        requires
            old(runtime).wf(),
            frame.executable < old(runtime)@.code.len(),
        ensures
            final(runtime).wf(),
            (final(runtime)@, final(self)@, r) == old(self)@.initialize_with(
                old(runtime)@,
                frame,
                old(runtime)@.code[frame.executable as int],
                index,
            ),
    {
        let definitions = &runtime.code[frame.executable].local_definitions;
        if (index as usize) >= definitions.len() || definitions[index as usize].kind
            != BindingKind::WithObject {
            return Err(Error::internal("with initialization received another binding kind"));
        }
        let value = self.slots.pop(frame.window)?;
        match self.slots.local(frame.window, index)? {
            FrameBinding::Captured { cell, .. } => {
                runtime.write_var_ref(cell, value)?;
            },
            _ => {
                self.slots.set_local(frame.window, index, FrameBinding::Direct(value))?;
            },
        }
        Ok(Effect::Done)
    }

    fn environment_effect(&mut self, runtime: &mut Runtime, frame: Frame, op: Operation) -> (r: Result<
        Effect,
        Error,
    >)
        requires
            old(runtime).wf(),
            frame.executable < old(runtime)@.code.len(),
        ensures
            final(runtime).wf(),
            (final(runtime)@, final(self)@, r) == old(self)@.environment_effect(
                old(runtime)@,
                frame,
                old(runtime)@.code[frame.executable as int],
                op,
            ),
            final(self)@.frames == old(self)@.frames,
    {
        proof {
            reveal(Machine::environment_effect);
            environments_keep_frames(
                self@,
                runtime@,
                frame,
                runtime@.code[frame.executable as int],
                op,
            );
        }
        match op {
            Operation::GlobalDelete(index) => self.global_delete(runtime, frame, index),
            Operation::GlobalReference(index) => self.global_reference(runtime, frame, index),
            Operation::Put { source, name, strict, check_presence } => self.environment_put(
                runtime,
                frame,
                source,
                name,
                strict,
                check_presence,
            ),
            Operation::Define { source, name } => self.environment_define(
                runtime,
                frame,
                source,
                name,
            ),
            Operation::Delete { source, name } => self.environment_delete(
                runtime,
                frame,
                source,
                name,
            ),
            Operation::CreateArray(count) => self.create_array(runtime, frame, count),
            Operation::CreateObject => {
                let prototype = runtime.realm(frame.realm)?.object_prototype;
                let object = runtime.new_object(Some(prototype));
                self.environment_pushed(JsValue::Object(object))
            },
            Operation::CreateVariable => {
                if runtime.code[frame.executable].metadata.eval_variable_object_local.is_none()
                    && runtime.code[frame.executable].arg_eval_variable_object_local.is_none() {
                    return Err(
                        Error::internal("variable-environment creation has no authenticated local"),
                    );
                }
                let object = runtime.new_object(None);
                self.environment_pushed(JsValue::Object(object))
            },
            Operation::ToObject => self.environment_to_object(runtime, frame),
            Operation::InitializeWith(index) => self.initialize_with(runtime, frame, index),
            Operation::Has { .. } => Err(
                Error::internal("HasBinding bypassed continuation driver"),
            ),
            _ => self.environment_get(runtime, frame, op),
        }
    }

    /// End an environment instruction.
    pub fn finish_environment(
        &mut self,
        runtime: &mut Runtime,
        id: FrameId,
        frame: Frame,
        effect: Effect,
    ) -> (r: Result<CallStep, Error>)
        requires
            old(runtime).wf(),
            old(self)@.frames.frames.len() > 0,
        ensures
            final(runtime).wf(),
            (final(runtime)@, final(self)@, r) == old(self)@.finish_environment(
                old(runtime)@,
                id,
                frame,
                effect,
            ),
    {
        let overflow = Error::internal("environment resume PC overflow");
        match effect {
            Effect::Step(step) => Ok(step),
            Effect::Done => {
                self.resume_after(frame, overflow)?;
                Ok(CallStep::Entered)
            },
            Effect::Call(call) => {
                if !self.frames.can_push() || runtime.bytecode_call_would_overflow() {
                    return runtime.overflow_step(frame.realm);
                }
                self.resume_after(frame, overflow)?;
                let entry = call.call(frame.realm, id).prepare(runtime)?;
                let _ = push_frame(runtime, self, entry)?;
                Ok(CallStep::Entered)
            },
        }
    }
}

/// Run an environment instruction.
pub fn step(runtime: &mut Runtime, execution: &mut RunningExecution, id: FrameId, op: Operation) -> (r:
    Result<CallStep, Error>)
    requires
        old(runtime).wf(),
    ensures
        final(runtime).wf(),
        (final(runtime)@, final(execution)@, r) == old(execution)@.environment_step(
            old(runtime)@,
            id,
            op,
        ),
{
    match op {
        Operation::Append => {
            return array_driver::append(runtime, execution, id);
        },
        Operation::DefineArrayElement => {
            return array_driver::define_element(runtime, execution, id);
        },
        _ => {},
    }
    let frame = execution.frames.current(id)?;
    let _ = runtime.function_bytecode(frame.executable)?;
    match execution.environment_effect(runtime, frame, op) {
        Err(e) => runtime.throw_step(frame.realm, e),
        Ok(effect) => execution.finish_environment(runtime, id, frame, effect),
    }
}

/// Answer an operation of an environment.
pub fn reply(
    runtime: &mut Runtime,
    execution: &mut RunningExecution,
    target: ReturnTarget,
    completion: Completion,
) -> (r: Result<CallStep, Error>)
    requires
        old(runtime).wf(),
    ensures
        final(runtime).wf(),
        (final(runtime)@, final(execution)@, r) == old(execution)@.environment_reply(
            old(runtime)@,
            target,
            completion,
        ),
{
    match target.operation {
        Some(OperationTarget::HasBinding(_)) => with_driver::reply(
            runtime,
            execution,
            target,
            completion,
        ),
        _ => Err(Error::internal("environment reply has no operation")),
    }
}

/// An environment operation touches operands and the heap, not the frames.
pub proof fn environments_keep_frames(
    machine: Machine,
    heap: Heap,
    frame: Frame,
    function: FunctionBytecode,
    op: Operation,
)
    ensures
        machine.environment_effect(heap, frame, function, op).1.frames == machine.frames,
        machine.environment_effect(heap, frame, function, op).1.regions == machine.regions,
{
    reveal(Machine::environment_effect);
    match op {
        Operation::GlobalDelete(index) => {
            assert(machine.global_delete(heap, frame, function, index).1.frames == machine.frames);
        },
        Operation::GlobalReference(index) => {
            assert(machine.global_reference(heap, frame, function, index).1.frames
                == machine.frames);
        },
        Operation::Put { source, name, strict, check_presence } => {
            puts_keep_frames(machine, heap, frame, function, source, name, strict, check_presence);
        },
        Operation::Define { source, name } => {
            assert(machine.environment_define(heap, frame, function, source, name).1.frames
                == machine.frames);
        },
        Operation::Delete { source, name } => {
            assert(machine.environment_delete(heap, frame, function, source, name).1.frames
                == machine.frames);
        },
        Operation::CreateArray(count) => {
            assert(machine.create_array(heap, frame, count).1.frames == machine.frames);
        },
        Operation::ToObject => {
            assert(machine.environment_to_object(heap, frame).1.frames == machine.frames);
        },
        Operation::InitializeWith(index) => {
            assert(machine.initialize_with(heap, frame, function, index).1.frames
                == machine.frames);
        },
        _ => {
            assert(machine.environment_get(heap, frame, function, op).1.frames == machine.frames);
        },
    }
}

proof fn puts_keep_frames(
    machine: Machine,
    heap: Heap,
    frame: Frame,
    function: FunctionBytecode,
    source: WriteTarget,
    name: u32,
    strict: bool,
    check_presence: bool,
)
    ensures
        machine.environment_put(
            heap,
            frame,
            function,
            source,
            name,
            strict,
            check_presence,
        ).1.frames == machine.frames,
        machine.environment_put(
            heap,
            frame,
            function,
            source,
            name,
            strict,
            check_presence,
        ).1.regions == machine.regions,
{
}

/// A written global variable gives the value back.
pub proof fn written_globals_are_read(
    heap: Heap,
    frame: Frame,
    function: FunctionBytecode,
    index: u16,
    initialize: bool,
    strict: bool,
    cell: usize,
    value: JsValue,
)
    requires
        heap.global_write(frame, function, index, initialize) == Ok::<GlobalWrite, Error>(
            GlobalWrite::Cell(cell),
        ),
    ensures
        heap.write_cell(cell, value).1 is Ok,
        heap.write_cell(cell, value).0.global_read(frame, function, index, strict) == Ok::<
            BindingRead,
            Error,
        >(BindingRead::Value(value)),
{
}

/// An environment instruction left to the embedder has changed nothing: it can
/// be run from its start.
pub proof fn bridged_environments_change_nothing(
    machine: Machine,
    heap: Heap,
    frame: Frame,
    function: FunctionBytecode,
    op: Operation,
)
    ensures
        ({
            let after = machine.environment_effect(heap, frame, function, op);
            after.2 == Ok::<Effect, Error>(Effect::Step(CallStep::Bridge)) ==> after.0 == heap
                && after.1 == machine
        }),
{
    reveal(Machine::environment_effect);
    assert forall|before: Heap, value: JsValue|
        (#[trigger] machine.environment_pushed(before, value)).2 != Ok::<Effect, Error>(
            Effect::Step(CallStep::Bridge),
        ) by {}
}

/// Reading a global name: its variable where that is initialized, a reference
/// error where it is lexical and not, and otherwise the property of the global
/// object; a name that is nowhere is a reference error where the read asks for
/// it and undefined elsewhere.
pub proof fn globals_are_variables_before_properties(
    heap: Heap,
    frame: Frame,
    function: FunctionBytecode,
    index: u16,
    strict: bool,
    cell: usize,
    name: Atom,
    value: JsValue,
)
    requires
        index < function.closure_variables@.len(),
        !(function.closure_variables@[index as int].kind is Private),
        function.closure_variables@[index as int].name == Some(name),
        heap.closure_cell(frame.cold.function, index) == Ok::<usize, Error>(cell),
        cell < heap.cells.len(),
        frame.realm < heap.realms.len(),
    ensures
        ({
            let var = heap.cells[cell as int];
            let lexical = function.closure_variables@[index as int].is_lexical;
            let r = heap.global_read(frame, function, index, strict);
            let property = heap.environment_read(
                heap.realms[frame.realm as int].global_object,
                PropertyKey::String(name),
            );
            &&& var.value == Some(value) ==> r == Ok::<BindingRead, Error>(
                BindingRead::Value(value),
            )
            &&& var.value is None && lexical ==> (r matches Err(e) && e.kind is Reference && e.atom
                == Some(name))
            &&& var.value is None && !lexical && property == Ok::<OrdinaryRead, Error>(
                OrdinaryRead::Complete(Some(value)),
            ) ==> r == Ok::<BindingRead, Error>(BindingRead::Value(value))
            &&& var.value is None && !lexical && property == Ok::<OrdinaryRead, Error>(
                OrdinaryRead::Complete(None),
            ) ==> if strict {
                r matches Err(e) && e.kind is Reference && e.atom == Some(name)
            } else {
                r == Ok::<BindingRead, Error>(BindingRead::Value(JsValue::Undefined))
            }
        }),
        ({
            let var = heap.cells[cell as int];
            let first = heap.global_write(frame, function, index, true);
            let later = heap.global_write(frame, function, index, false);
            &&& first == Ok::<GlobalWrite, Error>(GlobalWrite::Cell(cell))
            &&& var.value is Some && var.is_const ==> (later matches Err(e) && e.kind is Type
                && e.atom == Some(name))
            &&& var.value is Some && !var.is_const ==> later == Ok::<GlobalWrite, Error>(
                GlobalWrite::Cell(cell),
            )
            &&& var.value is None && var.is_lexical ==> (later matches Err(e)
                && e.kind is Reference && e.atom == Some(name))
            &&& var.value is None && !var.is_lexical ==> later == Ok::<GlobalWrite, Error>(
                GlobalWrite::Property(PropertyKey::String(name)),
            )
        }),
{
}

/// What a name means on an environment object is what a read of that property
/// on behalf of the object would give, for a global object too.
pub proof fn environment_reads_are_reads_of_the_object(
    heap: Heap,
    object: ObjectRef,
    key: PropertyKey,
    data: HeapObject,
    p: int,
)
    requires
        heap.object_at(object) == Ok::<HeapObject, Error>(data),
        !heap.decides(data, key),
    ensures
        heap.find(object, key) == Some(p) ==> heap.environment_read(object, key)
            == heap.ordinary_read(object, key, JsValue::Object(object)),
        heap.find(object, key) is None && data.prototype is None ==> heap.environment_read(
            object,
            key,
        ) == Ok::<OrdinaryRead, Error>(OrdinaryRead::Complete(None)),
        !Heap::is_global(data) ==> heap.environment_read(object, key) == heap.ordinary_read(
            object,
            key,
            JsValue::Object(object),
        ),
        heap.find(object, key) is None && Heap::is_global(data) ==> (data.prototype matches Some(
            prototype,
        ) ==> heap.environment_read(object, key) == heap.ordinary_read(
            prototype,
            key,
            JsValue::Object(object),
        )),
{
    crate::object::first_entry(heap.properties, object.index, key, 0);
    reveal_with_fuel(Heap::read_chain, 2);
}

/// Writing a property of an environment: a completed write takes its operands
/// off, a refused one is a type error in strict code and passes in other code,
/// and in strict code a name that has to be there and is not is a reference
/// error before anything is written.
pub proof fn environment_writes_are_strict_in_strict_code(
    machine: Machine,
    heap: Heap,
    frame: Frame,
    object: ObjectRef,
    key: PropertyKey,
    value: JsValue,
    dropped: nat,
    strict: bool,
    check_presence: bool,
    read: OrdinaryRead,
)
    requires
        heap.environment_read(object, key) == Ok::<OrdinaryRead, Error>(read),
        !(read is Special),
        machine.slots.discard(frame.window, dropped).1 is Ok,
    ensures
        ({
            let (after, m, r) = machine.put_property(
                heap,
                frame,
                object,
                key,
                Ok(value),
                dropped,
                strict,
                check_presence,
            );
            let missing = check_presence && strict && read == OrdinaryRead::Complete(None);
            let (written, action) = heap.set(object, key, value);
            let rest = machine.slots.discard(frame.window, dropped).0;
            &&& missing ==> after == heap && m == machine && (r matches Err(e)
                && e.kind is Reference && e.atom == key.atom())
            &&& !missing && action == Ok::<PropertySetAction, Error>(PropertySetAction::Complete)
                ==> after == written && m.slots == rest && r == Ok::<Effect, Error>(Effect::Done)
            &&& !missing && (action matches Ok(PropertySetAction::Rejected(_))) && strict ==> m
                == machine && (r matches Err(e) && e.kind is Type)
            &&& !missing && (action matches Ok(PropertySetAction::Rejected(_))) && !strict
                ==> m.slots == rest && r == Ok::<Effect, Error>(Effect::Done)
        }),
{
}

/// An array literal holds the operands that it was made of, the deepest first;
/// an object literal starts without properties and inherits from the object
/// prototype of the realm; a variable environment inherits from nothing.
pub proof fn literals_are_made_of_their_operands(
    machine: Machine,
    heap: Heap,
    frame: Frame,
    function: FunctionBytecode,
    count: u16,
    values: Seq<JsValue>,
)
    requires
        frame.realm < heap.realms.len(),
        machine.slots.values.len() < machine.slots.limit,
        machine.slots.top(frame.window, count as nat) == Ok::<Seq<JsValue>, Error>(values),
        machine.slots.discard(frame.window, count as nat).1 is Ok,
        machine.slots.discard(frame.window, count as nat).0.values.len()
            <= machine.slots.values.len(),
        machine.slots.discard(frame.window, count as nat).0.limit == machine.slots.limit,
        Heap::pinned(heap.texts),
        forall|p: int|
            0 <= p < heap.properties.len() ==> (#[trigger] heap.properties[p]).owner
                < heap.objects.len(),
        heap.objects.len() < usize::MAX,
        heap.texts.len() + count <= usize::MAX,
    ensures
        ({
            let (after, m, r) = machine.environment_effect(
                heap,
                frame,
                function,
                Operation::CreateArray(count),
            );
            &&& r == Ok::<Effect, Error>(Effect::Done)
            &&& m.slots.values == machine.slots.discard(
                frame.window,
                count as nat,
            ).0.values.push(FrameBinding::Direct(JsValue::Object(heap.next_ref())))
            &&& after.dense_values(heap.next_ref()) == Some(values)
            &&& after.objects[heap.next_ref().index as int].prototype == Some(
                heap.realms[frame.realm as int].array_prototype,
            )
        }),
        ({
            let (after, m, r) = machine.environment_effect(
                heap,
                frame,
                function,
                Operation::CreateObject,
            );
            &&& r == Ok::<Effect, Error>(Effect::Done)
            &&& m.slots.values == machine.slots.values.push(
                FrameBinding::Direct(JsValue::Object(heap.next_ref())),
            )
            &&& after.properties == heap.properties
            &&& after.objects.len() == heap.objects.len() + 1
            &&& after.objects.last().prototype == Some(
                heap.realms[frame.realm as int].object_prototype,
            )
            &&& after.objects.last().extensible
            &&& after.objects.last().payload is Ordinary
        }),
        function.metadata.eval_variable_object_local is Some ==> {
            let (after, m, r) = machine.environment_effect(
                heap,
                frame,
                function,
                Operation::CreateVariable,
            );
            &&& r == Ok::<Effect, Error>(Effect::Done)
            &&& after.objects.last().prototype is None
            &&& after.properties == heap.properties
        },
{
    reveal(Machine::environment_effect);
    crate::slots::top_is_whole(machine.slots, frame.window, count as nat);
    crate::array::arrays_give_back_their_values(
        heap,
        heap.realms[frame.realm as int],
        values,
    );
    elements_keep_objects(
        heap.allocated(Heap::array_object(heap.realms[frame.realm as int])),
        heap.next_ref().index,
        values,
        0,
    );
}

proof fn elements_keep_objects(heap: Heap, owner: usize, values: Seq<JsValue>, from: int)
    ensures
        heap.with_elements(owner, values, from).objects == heap.objects,
    decreases values.len() - from,
{
    if 0 <= from < values.len() {
        elements_keep_objects(
            heap.with_element(owner, from as nat, Heap::data_slot(values[from])),
            owner,
            values,
            from + 1,
        );
    }
}

/// A variable that evaluated code declares becomes an ordinary property of the
/// variable object with the top operand as its value.  A deletion says whether
/// the name is gone.
pub proof fn evaluated_declarations_are_properties(
    machine: Machine,
    heap: Heap,
    frame: Frame,
    function: FunctionBytecode,
    source: DynamicEnvironmentSource,
    name: u32,
    object: ObjectRef,
    key: PropertyKey,
    value: JsValue,
    data: HeapObject,
)
    requires
        machine.slots.values.len() < machine.slots.limit,
        machine.dynamic_object(heap, frame, source) == Ok::<
            (ObjectRef, crate::code::BindingKind),
            Error,
        >((object, crate::code::BindingKind::EvalVariableObject)),
        heap.object_at(object) == Ok::<HeapObject, Error>(data),
        Heap::is_ordinary(data),
        Heap::linked_key(function, name) == Ok::<PropertyKey, Error>(key),
        machine.slots.peek(frame.window, 0) == Ok::<JsValue, Error>(value),
    ensures
        heap.define(object, key, Heap::data_slot(value)).1 == Ok::<bool, Error>(true) ==> {
            let (after, m, r) = machine.environment_effect(
                heap,
                frame,
                function,
                Operation::Define { source, name },
            );
            &&& r == Ok::<Effect, Error>(Effect::Done)
            &&& m.slots.values == machine.slots.values.drop_last()
            &&& after.own_property(object, key) == Ok::<Option<PropertyDescriptor>, Error>(
                Some(
                    PropertyDescriptor::Data {
                        value,
                        writable: true,
                        enumerable: true,
                        configurable: true,
                    },
                ),
            )
        },
        ({
            let (after, m, r) = machine.environment_effect(
                heap,
                frame,
                function,
                Operation::Delete { source, name },
            );
            let (gone, deleted) = heap.delete(object, key);
            &&& deleted is Ok
            &&& r == Ok::<Effect, Error>(Effect::Done)
            &&& after == gone
            &&& m.slots.values == machine.slots.values.push(
                FrameBinding::Direct(JsValue::Bool(deleted->Ok_0)),
            )
        }),
{
    reveal(Machine::environment_effect);
    if heap.define(object, key, Heap::data_slot(value)).1 == Ok::<bool, Error>(true) {
        crate::object::defined_properties_are_found(heap, object, key, Heap::data_slot(value));
    }
}

/// A global name is deleted through the global object alone: a lexical variable
/// stays, a name that is nowhere counts as deleted.  A global reference is the
/// object that a later write goes through, or undefined where there is none.
pub proof fn global_names_are_deleted_and_referred_to_through_their_object(
    machine: Machine,
    heap: Heap,
    frame: Frame,
    function: FunctionBytecode,
    index: u16,
    name: Atom,
    cell: usize,
    present: bool,
)
    requires
        index < function.closure_variables@.len(),
        !(function.closure_variables@[index as int].kind is Private),
        function.closure_variables@[index as int].name == Some(name),
        frame.realm < heap.realms.len(),
        machine.slots.values.len() < machine.slots.limit,
    ensures
        ({
            let realm = heap.realms[frame.realm as int];
            let key = PropertyKey::String(name);
            let lexical = heap.own_cell(realm.global_lexical, key);
            let there = heap.present_on(realm.global_object, key) == Ok::<Option<bool>, Error>(
                Some(present),
            );
            let grown = |v: JsValue| machine.slots.values.push(FrameBinding::Direct(v));
            let (deleted, m, r) = machine.environment_effect(
                heap,
                frame,
                function,
                Operation::GlobalDelete(index),
            );
            let (same, m2, r2) = machine.environment_effect(
                heap,
                frame,
                function,
                Operation::GlobalReference(index),
            );
            let done = Ok::<Effect, Error>(Effect::Done);
            &&& lexical == Ok::<Option<usize>, Error>(Some(cell)) ==> deleted == heap && r == done
                && m.slots.values == grown(JsValue::Bool(false))
            &&& lexical == Ok::<Option<usize>, Error>(None) && there && !present ==> {
                &&& deleted == heap && r == done && m.slots.values == grown(JsValue::Bool(true))
                &&& same == heap && r2 == done && m2.slots.values == grown(JsValue::Undefined)
            }
            &&& lexical == Ok::<Option<usize>, Error>(None) && there && present ==> {
                &&& heap.delete(realm.global_object, key).1 matches Ok(gone) ==> deleted
                    == heap.delete(realm.global_object, key).0 && r == done && m.slots.values
                    == grown(JsValue::Bool(gone))
                &&& same == heap && r2 == done && m2.slots.values == grown(
                    JsValue::Object(realm.global_object),
                )
            }
            &&& lexical == Ok::<Option<usize>, Error>(Some(cell)) && cell < heap.cells.len() ==> {
                let var = heap.cells[cell as int];
                &&& same == heap
                &&& var.value is None ==> m2 == machine && (r2 matches Err(e)
                    && e.kind is Reference)
                &&& var.value is Some && var.is_const ==> m2 == machine && (r2 matches Err(e)
                    && e.kind is Type)
                &&& var.value is Some && !var.is_const ==> r2 == done && m2.slots.values == grown(
                    JsValue::Object(realm.global_lexical),
                )
            }
        }),
{
    reveal(Machine::environment_effect);
}

/// Entering a `with` puts the object in its local, and the operand of a
/// conversion to an object is replaced by that object.
pub proof fn with_scopes_hold_their_object(
    machine: Machine,
    heap: Heap,
    frame: Frame,
    function: FunctionBytecode,
    index: u16,
    value: JsValue,
    old: JsValue,
)
    requires
        machine.slots.peek(frame.window, 0) == Ok::<JsValue, Error>(value),
        machine.slots.values.len() <= machine.slots.limit,
    ensures
        index < function.local_definitions@.len()
            && function.local_definitions@[index as int].kind is WithObject && machine.slots.local(
            frame.window,
            index,
        ) == Ok::<FrameBinding, Error>(FrameBinding::Direct(old)) ==> {
            let (after, m, r) = machine.environment_effect(
                heap,
                frame,
                function,
                Operation::InitializeWith(index),
            );
            &&& r == Ok::<Effect, Error>(Effect::Done)
            &&& after == heap
            &&& m.slots.local(frame.window, index) == Ok::<FrameBinding, Error>(
                FrameBinding::Direct(value),
            )
            &&& m.slots.values.len() == machine.slots.values.len() - 1
        },
        value is Object ==> {
            let (after, m, r) = machine.environment_effect(
                heap,
                frame,
                function,
                Operation::ToObject,
            );
            &&& r == Ok::<Effect, Error>(Effect::Done)
            &&& after == heap
            &&& m.slots == machine.slots
        },
        value is Undefined || value is Null ==> frame.realm < heap.realms.len() ==> {
            let (after, m, r) = machine.environment_effect(
                heap,
                frame,
                function,
                Operation::ToObject,
            );
            &&& r == Ok::<Effect, Error>(
                Effect::Step(
                    CallStep::Complete(Completion::Throw(JsValue::Object(heap.next_ref()))),
                ),
            )
            &&& after.objects.last().prototype == Some(
                heap.realms[frame.realm as int].type_error_prototype,
            )
        },
{
    reveal(Machine::environment_effect);
    assert(machine.slots.values.drop_last().push(machine.slots.values.last())
        =~= machine.slots.values);
}

/// The instructions that read a name push what they select; reading through a
/// reference keeps the reference below, and a reference to nothing is a
/// reference error.
pub proof fn selected_names_are_pushed(
    machine: Machine,
    heap: Heap,
    frame: Frame,
    function: FunctionBytecode,
    op: Operation,
    value: JsValue,
    name: u32,
    strict: bool,
    key: PropertyKey,
)
    requires
        machine.slots.values.len() < machine.slots.limit,
    ensures
        (op is GlobalGet || op is Object || op is Get || op is ReadReference)
            && machine.selected_binding(heap, frame, function, op) == Ok::<BindingRead, Error>(
            BindingRead::Value(value),
        ) ==> {
            let (after, m, r) = machine.environment_effect(heap, frame, function, op);
            &&& r == Ok::<Effect, Error>(Effect::Done)
            &&& after == heap
            &&& m.slots.values == machine.slots.values.push(FrameBinding::Direct(value))
        },
        machine.slots.peek(frame.window, 0) == Ok::<JsValue, Error>(JsValue::Undefined)
            && Heap::linked_key(function, name) == Ok::<PropertyKey, Error>(key) ==> (
        machine.selected_binding(
            heap,
            frame,
            function,
            Operation::ReadReference { name, strict },
        ) matches Err(e) && e.kind is Reference && e.atom == key.atom()),
{
    reveal(Machine::environment_effect);
}

/// Declaring a name that the variable object refuses is a type error; an
/// accepted one is an own property with the value, which leaves the operands.
pub proof fn refused_declarations_are_type_errors(
    machine: Machine,
    heap: Heap,
    frame: Frame,
    function: FunctionBytecode,
    source: DynamicEnvironmentSource,
    name: u32,
    object: ObjectRef,
    key: PropertyKey,
    value: JsValue,
)
    requires
        machine.dynamic_object(heap, frame, source) == Ok::<(ObjectRef, BindingKind), Error>(
            (object, BindingKind::EvalVariableObject),
        ),
        object.index < heap.objects.len(),
        heap.objects[object.index as int].kind is Ordinary,
        Heap::linked_key(function, name) == Ok::<PropertyKey, Error>(key),
        machine.slots.peek(frame.window, 0) == Ok::<JsValue, Error>(value),
    ensures
        ({
            let (after, m, r) = machine.environment_define(heap, frame, function, source, name);
            let accepted = heap.define(object, key, Heap::data_slot(value)).1;
            &&& accepted == Ok::<bool, Error>(false) ==> after == heap && (r matches Err(e) && e.kind
                is Type)
            &&& accepted == Ok::<bool, Error>(true) ==> r == Ok::<Effect, Error>(Effect::Done)
                && after.own_property(object, key) == Ok::<Option<PropertyDescriptor>, Error>(
                Some(
                    PropertyDescriptor::Data {
                        value,
                        writable: true,
                        enumerable: true,
                        configurable: true,
                    },
                ),
            )
            &&& m.slots.values == machine.slots.values.drop_last()
        }),
{
    if heap.define(object, key, Heap::data_slot(value)).1 == Ok::<bool, Error>(true) {
        crate::object::defined_properties_are_found(heap, object, key, Heap::data_slot(value));
    }
}

/// Reading a name of an environment object: a reference to a lexical variable
/// reads its cell; otherwise the object is read, and a missing name is an error
/// in strict code only.
pub proof fn environment_names_are_read_as_bindings(
    heap: Heap,
    object: ObjectRef,
    key: PropertyKey,
    strict: bool,
    reference: bool,
    value: JsValue,
)
    requires
        object.index < heap.objects.len(),
        heap.own_cell(object, key) is Ok,
    ensures
        !reference || heap.own_cell(object, key)->Ok_0 is None ==> {
            &&& heap.environment_read(object, key) == Ok::<OrdinaryRead, Error>(
                OrdinaryRead::Complete(Some(value)),
            ) ==> heap.binding_read(object, key, strict, reference) == Ok::<BindingRead, Error>(
                BindingRead::Value(value),
            )
            &&& heap.environment_read(object, key) == Ok::<OrdinaryRead, Error>(
                OrdinaryRead::Complete(None),
            ) ==> (heap.binding_read(object, key, strict, reference) is Err <==> strict)
        },
        heap.environment_read(object, key) == Ok::<OrdinaryRead, Error>(
            OrdinaryRead::Complete(None),
        ) && !reference && !strict ==> heap.binding_read(object, key, strict, reference) == Ok::<
            BindingRead,
            Error,
        >(BindingRead::Value(JsValue::Undefined)),
{
}

} // verus!
