//! Variables that live in cells: checked access, capture and derived `this`.
use vstd::prelude::*;
use crate::code::{BindingKind, BytecodeConstant, ClosureSource, ClosureVariable, ConstructorKind, FunctionBytecode, LocalDefinition};
use crate::driver::CallStep;
use crate::error::{Error, ErrorKind};
use crate::execution::{Machine, RunningExecution};
use crate::frame::{Frame, FrameId};
use crate::heap::{BytecodeFunctionData, Heap, HeapObject, ObjectKind, ObjectPayload, PropertyEntry, PropertySlot, Realm, VarRef};
use crate::run::BindingSource;
use crate::runtime::{Runtime, ATOM_CONSTRUCTOR, ATOM_NAME, ATOM_PROTOTYPE};
use crate::slots::{FrameBinding, FrameWindow, SlotStore, Slots};
use crate::value::{Atom, Completion, JsValue, NativeConversion, ObjectRef, PropertyKey};

verus! {

impl Heap {
    /// The cell under `index` in the closure of a function object.
    pub open spec fn closure_cell(self, function: ObjectRef, index: u16) -> Result<usize, Error> {
        match self.object_at(function) {
            Err(e) => Err(e),
            Ok(object) => match object.payload {
                ObjectPayload::BytecodeFunction(data) => if index < data.count && data.start + index
                    < self.closure_cells.len() {
                    Ok(self.closure_cells[data.start + index])
                } else {
                    Err(Error::internal("closure variable index is out of bounds"))
                },
                _ => Err(Error::internal("frame function has no closure")),
            },
        }
    }

    /// Reading a variable that may be in its dead zone.
    pub open spec fn checked_read(self, cell: usize, name: Option<Atom>) -> Result<JsValue, Error> {
        match self.cell_at(cell) {
            Err(e) => Err(e),
            Ok(data) => match data.value {
                Some(value) => Ok(value),
                None => Err(Error::uninitialized(name)),
            },
        }
    }

    /// Writing a variable that may be in its dead zone or constant.
    pub open spec fn checked_write(
        self,
        cell: usize,
        is_const: bool,
        name: Option<Atom>,
        value: JsValue,
    ) -> (Heap, Result<(), Error>) {
        match self.cell_at(cell) {
            Err(e) => (self, Err(e)),
            Ok(data) => if data.value is None {
                (self, Err(Error::uninitialized(name)))
            } else if is_const {
                (self, Err(Error::read_only(name)))
            } else {
                (self.cell_written(cell, value), Ok(()))
            },
        }
    }

    /// Entering a scope again whose captured variable was left behind.
    pub open spec fn reset_cell(self, cell: usize, reusable: bool) -> (Heap, Result<(), Error>) {
        if !reusable {
            (self, Err(Error::internal("captured lexical reset is not reusable")))
        } else {
            match self.cell_at(cell) {
                Err(e) => (self, Err(e)),
                Ok(data) => (
                    Heap {
                        cells: self.cells.update(cell as int, VarRef { value: None, ..data }),
                        ..self
                    },
                    Ok(()),
                ),
            }
        }
    }

    pub open spec fn with_cell(self, var: VarRef) -> Heap {
        Heap { cells: self.cells.push(var), ..self }
    }

    pub open spec fn wrapper(realm: Realm, value: JsValue) -> HeapObject {
        HeapObject {
            kind: ObjectKind::Primitive,
            payload: ObjectPayload::Primitive(value),
            prototype: Some(Heap::primitive_prototype(realm, value)),
            is_constructor: false,
            extensible: true,
        }
    }

    /// The object that a value stands for.
    pub open spec fn to_object(self, realm: usize, value: JsValue) -> (
        Heap,
        Result<NativeConversion<ObjectRef>, Error>,
    ) {
        match value {
            JsValue::Object(object) => (self, Ok(NativeConversion::Value(object))),
            _ => if value.nullish() {
                match self.thrown(
                    realm,
                    Error::new(ErrorKind::Type, "cannot convert to object"),
                ) {
                    (heap, Ok(completion)) => (heap, Ok(NativeConversion::Throw(completion.owned()))),
                    (heap, Err(e)) => (heap, Err(e)),
                }
            } else {
                match self.realm_at(realm) {
                    Err(e) => (self, Err(e)),
                    Ok(data) => (
                        self.allocated(Heap::wrapper(data, value)),
                        Ok(NativeConversion::Value(self.next_ref())),
                    ),
                }
            },
        }
    }

    /// Throwing an error in a realm as the outcome of an instruction.
    pub open spec fn throw_step(self, realm: usize, error: Error) -> (Heap, Result<CallStep, Error>) {
        match self.thrown(realm, error) {
            (heap, Ok(completion)) => (heap, Ok(CallStep::Complete(completion))),
            (heap, Err(e)) => (heap, Err(e)),
        }
    }

    pub open spec fn hidden_slot(value: JsValue, writable: bool, configurable: bool) -> PropertySlot {
        PropertySlot::Data { value, writable, enumerable: false, configurable }
    }

    pub open spec fn function_object(
        self,
        realm: Realm,
        bytecode: usize,
        function: FunctionBytecode,
        count: nat,
    ) -> HeapObject {
        HeapObject {
            kind: ObjectKind::Function,
            payload: ObjectPayload::BytecodeFunction(
                BytecodeFunctionData {
                    bytecode,
                    start: self.closure_cells.len() as usize,
                    count: count as usize,
                    home: None,
                    instance_initializer: None,
                    static_initialized: false,
                },
            ),
            prototype: Some(realm.function_prototype),
            is_constructor: !(function.metadata.constructor_kind is NotConstructor),
            extensible: true,
        }
    }

    /// A new function object, which is the next reference, with its name and
    /// its prototype object.
    pub open spec fn with_function(
        self,
        realm: Realm,
        bytecode: usize,
        function: FunctionBytecode,
        cells: Seq<usize>,
    ) -> Heap {
        let made = self.next_ref();
        let bare = Heap { closure_cells: self.closure_cells + cells, ..self }.allocated(
            self.function_object(realm, bytecode, function, cells.len()),
        );
        let named = match function.metadata.name {
            None => bare,
            Some(name) => bare.with_entry(
                PropertyEntry {
                    owner: made.index,
                    key: PropertyKey::String(ATOM_NAME),
                    slot: Heap::hidden_slot(JsValue::String(name), false, true),
                },
            ),
        };
        if function.metadata.has_prototype {
            let prototype = named.next_ref();
            named.allocated(Heap::plain_object(Some(realm.object_prototype))).with_entry(
                PropertyEntry {
                    owner: prototype.index,
                    key: PropertyKey::String(ATOM_CONSTRUCTOR),
                    slot: Heap::hidden_slot(JsValue::Object(made), true, true),
                },
            ).with_entry(
                PropertyEntry {
                    owner: made.index,
                    key: PropertyKey::String(ATOM_PROTOTYPE),
                    slot: Heap::hidden_slot(JsValue::Object(prototype), true, false),
                },
            )
        } else {
            named
        }
    }

    /// The cell that a global name is linked to: a lexical one, a variable one,
    /// or a placeholder for a name that nothing declares yet.
    pub open spec fn global_cell(self, realm: Realm, name: Atom) -> (Heap, Result<usize, Error>) {
        match self.own_cell(realm.global_lexical, PropertyKey::String(name)) {
            Err(e) => (self, Err(e)),
            Ok(Some(cell)) => (self, Ok(cell)),
            Ok(None) => match self.own_cell(realm.global_object, PropertyKey::String(name)) {
                Err(e) => (self, Err(e)),
                Ok(Some(cell)) => (self, Ok(cell)),
                Ok(None) => (
                    self.with_cell(
                        VarRef {
                            value: None,
                            is_const: false,
                            is_lexical: false,
                            kind: BindingKind::Normal,
                        },
                    ),
                    Ok(self.cells.len() as usize),
                ),
            },
        }
    }

    pub open spec fn cell_for(definition: LocalDefinition, value: Option<JsValue>) -> VarRef {
        VarRef {
            value,
            is_const: definition.is_const,
            is_lexical: definition.is_lexical,
            kind: definition.kind,
        }
    }

    /// Moving a slot into a cell: the cell and the new binding.
    pub open spec fn capture(self, binding: FrameBinding, definition: LocalDefinition) -> (
        Heap,
        usize,
        FrameBinding,
    ) {
        match binding {
            FrameBinding::Captured { cell, .. } => (self, cell, binding),
            FrameBinding::Direct(value) => (
                self.with_cell(Heap::cell_for(definition, Some(value))),
                self.cells.len() as usize,
                FrameBinding::Captured { cell: self.cells.len() as usize, reusable: false },
            ),
            FrameBinding::Uninitialized => (
                self.with_cell(Heap::cell_for(definition, None)),
                self.cells.len() as usize,
                FrameBinding::Captured { cell: self.cells.len() as usize, reusable: false },
            ),
        }
    }
}

impl Machine {
    /// Capturing a local of the current frame.
    pub open spec fn capture_local(
        heap: Heap,
        slots: Slots,
        window: FrameWindow,
        function: FunctionBytecode,
        index: u16,
    ) -> (Heap, Slots, Result<usize, Error>) {
        if index >= function.local_definitions@.len() {
            (heap, slots, Err(Error::internal("local definition index is out of bounds")))
        } else {
            match slots.local(window, index) {
                Err(e) => (heap, slots, Err(e)),
                Ok(binding) => {
                    let (heap, cell, captured) = heap.capture(
                        binding,
                        function.local_definitions@[index as int],
                    );
                    let (slots, r) = slots.set_local(window, index, captured);
                    match r {
                        Err(e) => (heap, slots, Err(e)),
                        Ok(_) => (heap, slots, Ok(cell)),
                    }
                },
            }
        }
    }

    /// Capturing a parameter of the current frame.
    pub open spec fn capture_parameter(
        heap: Heap,
        slots: Slots,
        window: FrameWindow,
        function: FunctionBytecode,
        index: u16,
    ) -> (Heap, Slots, Result<usize, Error>) {
        if index >= function.argument_definitions@.len() {
            (heap, slots, Err(Error::internal("argument definition index is out of bounds")))
        } else {
            match slots.parameter(window, index) {
                Err(e) => (heap, slots, Err(e)),
                Ok(binding) => {
                    let (heap, cell, captured) = heap.capture(
                        binding,
                        function.argument_definitions@[index as int],
                    );
                    let (slots, r) = slots.set_parameter(window, index, captured);
                    match r {
                        Err(e) => (heap, slots, Err(e)),
                        Ok(_) => (heap, slots, Ok(cell)),
                    }
                },
            }
        }
    }

    /// The cell of one closure variable of a function made in this frame.
    pub open spec fn capture_variable(
        heap: Heap,
        slots: Slots,
        frame: Frame,
        function: FunctionBytecode,
        realm: Realm,
        variable: ClosureVariable,
    ) -> (Heap, Slots, Result<usize, Error>) {
        match variable.source {
            ClosureSource::ParentLocal(index) => Machine::capture_local(
                heap,
                slots,
                frame.window,
                function,
                index,
            ),
            ClosureSource::ParentArgument(index) => Machine::capture_parameter(
                heap,
                slots,
                frame.window,
                function,
                index,
            ),
            ClosureSource::ParentClosure(index) => (
                heap,
                slots,
                heap.closure_cell(frame.cold.function, index),
            ),
            ClosureSource::Global => match variable.name {
                None => (
                    heap,
                    slots,
                    Err(Error::internal("published global closure descriptor has no name atom")),
                ),
                Some(name) => {
                    let (heap, r) = heap.global_cell(realm, name);
                    (heap, slots, r)
                },
            },
        }
    }

    /// The cells of the closure variables from `from` on, after `seen`.
    pub open spec fn capture_list(
        heap: Heap,
        slots: Slots,
        frame: Frame,
        function: FunctionBytecode,
        realm: Realm,
        variables: Seq<ClosureVariable>,
        from: int,
        seen: Seq<usize>,
    ) -> (Heap, Slots, Result<Seq<usize>, Error>)
        decreases variables.len() - from,
    {
        if from < 0 || from >= variables.len() {
            (heap, slots, Ok(seen))
        } else {
            match Machine::capture_variable(heap, slots, frame, function, realm, variables[from]) {
                (heap, slots, Err(e)) => (heap, slots, Err(e)),
                (heap, slots, Ok(cell)) => Machine::capture_list(
                    heap,
                    slots,
                    frame,
                    function,
                    realm,
                    variables,
                    from + 1,
                    seen.push(cell),
                ),
            }
        }
    }

    /// Making a function from a nested constant and pushing it.
    pub open spec fn instantiate(self, heap: Heap, id: FrameId, index: u32) -> (
        Heap,
        Machine,
        Result<(), Error>,
    ) {
        match self.frames.current(id) {
            Err(e) => (heap, self, Err(e)),
            Ok(frame) => match heap.function_at(frame.executable) {
                Err(e) => (heap, self, Err(e)),
                Ok(function) => if index >= function.constants@.len() {
                    (heap, self, Err(Error::internal("constant index is out of bounds")))
                } else {
                    match function.constants@[index as int] {
                        BytecodeConstant::Value(_) => (
                            heap,
                            self,
                            Err(Error::internal("constant is not a function")),
                        ),
                        BytecodeConstant::Function(bytecode) => match heap.function_at(bytecode) {
                            Err(e) => (heap, self, Err(e)),
                            Ok(child) => match heap.realm_at(frame.realm) {
                                Err(e) => (heap, self, Err(e)),
                                Ok(realm) => match Machine::capture_list(
                                    heap,
                                    self.slots,
                                    frame,
                                    function,
                                    realm,
                                    child.closure_variables@,
                                    0,
                                    Seq::empty(),
                                ) {
                                    (heap, slots, Err(e)) => (
                                        heap,
                                        Machine { slots, ..self },
                                        Err(e),
                                    ),
                                    (heap, slots, Ok(cells)) => {
                                        let made = heap.next_ref();
                                        let heap = heap.with_function(
                                            realm,
                                            bytecode,
                                            child,
                                            cells,
                                        );
                                        let (slots, r) = slots.push(JsValue::Object(made));
                                        let machine = Machine { slots, ..self };
                                        match r {
                                            Err(e) => (heap, machine, Err(e)),
                                            Ok(_) => {
                                                let (machine, r) = machine.resumed(
                                                    frame,
                                                    Error::internal("closure resume PC overflow"),
                                                );
                                                (heap, machine, r)
                                            },
                                        }
                                    },
                                },
                            },
                        },
                    }
                },
            },
        }
    }

    /// The cell behind a binding instruction, its name and whether it is
    /// constant.
    pub open spec fn bound_cell(
        heap: Heap,
        slots: Slots,
        frame: Frame,
        function: FunctionBytecode,
        source: BindingSource,
        index: u16,
    ) -> Result<(usize, Option<Atom>, bool), Error> {
        match source {
            BindingSource::Closure => match heap.closure_cell(frame.cold.function, index) {
                Err(e) => Err(e),
                Ok(cell) => if index < function.closure_variables@.len() {
                    let variable = function.closure_variables@[index as int];
                    Ok((cell, variable.name, variable.is_const))
                } else {
                    Err(Error::internal("closure variable index is out of bounds"))
                },
            },
            BindingSource::Local => match slots.local(frame.window, index) {
                Err(e) => Err(e),
                Ok(FrameBinding::Captured { cell, .. }) => if index
                    < function.local_definitions@.len() {
                    let definition = function.local_definitions@[index as int];
                    Ok((cell, definition.name, definition.is_const))
                } else {
                    Err(Error::internal("local definition index is out of bounds"))
                },
                Ok(_) => Err(Error::internal("captured access lost its cell")),
            },
            BindingSource::Argument => match slots.parameter(frame.window, index) {
                Err(e) => Err(e),
                Ok(FrameBinding::Captured { cell, .. }) => if index
                    < function.argument_definitions@.len() {
                    let definition = function.argument_definitions@[index as int];
                    Ok((cell, definition.name, definition.is_const))
                } else {
                    Err(Error::internal("argument definition index is out of bounds"))
                },
                Ok(_) => Err(Error::internal("captured access lost its cell")),
            },
        }
    }

    /// What a binding instruction does to the heap and the operands.
    pub open spec fn binding_access(
        heap: Heap,
        slots: Slots,
        frame: Frame,
        function: FunctionBytecode,
        source: BindingSource,
        index: u16,
        write: bool,
        checked: bool,
        keep: bool,
    ) -> (Heap, Slots, Result<(), Error>) {
        match Machine::bound_cell(heap, slots, frame, function, source, index) {
            Err(e) => (heap, slots, Err(e)),
            Ok((cell, own_name, is_const)) => {
                let name = if function.metadata.strip_variable_debug {
                    None
                } else {
                    own_name
                };
                if write {
                    let (slots, input) = if keep {
                        (slots, slots.peek(frame.window, 0))
                    } else {
                        slots.pop(frame.window)
                    };
                    match input {
                        Err(e) => (heap, slots, Err(e)),
                        Ok(value) => {
                            let (heap, r) = if checked {
                                heap.checked_write(cell, is_const, name, value)
                            } else {
                                heap.write_cell(cell, value)
                            };
                            (heap, slots, r)
                        },
                    }
                } else {
                    match (if checked {
                        heap.checked_read(cell, name)
                    } else {
                        heap.read_cell(cell)
                    }) {
                        Err(e) => (heap, slots, Err(e)),
                        Ok(value) => {
                            let (slots, r) = slots.push(value);
                            (heap, slots, r)
                        },
                    }
                }
            },
        }
    }

    /// Binding `this` after a super call: once.
    pub open spec fn derived_bound(
        heap: Heap,
        definition: LocalDefinition,
        binding: FrameBinding,
        value: JsValue,
    ) -> (Heap, Result<Option<FrameBinding>, Error>) {
        if !(definition.kind is DerivedThis) {
            (heap, Err(Error::internal("derived initialization received another binding kind")))
        } else {
            match binding {
                FrameBinding::Uninitialized => (heap, Ok(Some(FrameBinding::Direct(value)))),
                FrameBinding::Direct(_) => (
                    heap,
                    Err(Error::new(ErrorKind::Reference, "'this' can be initialized only once")),
                ),
                FrameBinding::Captured { cell, .. } => match heap.cell_at(cell) {
                    Err(e) => (heap, Err(e)),
                    Ok(data) => if data.value is Some {
                        (
                            heap,
                            Err(
                                Error::new(
                                    ErrorKind::Reference,
                                    "'this' can be initialized only once",
                                ),
                            ),
                        )
                    } else {
                        (heap.cell_written(cell, value), Ok(None))
                    },
                },
            }
        }
    }

    /// What a derived constructor returns: an object of its own, or `this`.
    pub open spec fn derived_return(
        heap: Heap,
        realm: usize,
        definition: LocalDefinition,
        binding: FrameBinding,
        value: JsValue,
    ) -> (Heap, Result<Completion, Error>) {
        if !(definition.kind is DerivedThis) {
            (heap, Err(Error::internal("derived return received another binding kind")))
        } else if value is Object {
            (heap, Ok(Completion::Return(value)))
        } else if !(value is Undefined) {
            heap.thrown(
                realm,
                Error::new(
                    ErrorKind::Type,
                    "derived class constructor must return an object or undefined",
                ),
            )
        } else {
            let bound = match binding {
                FrameBinding::Uninitialized => Ok(None),
                FrameBinding::Direct(this_value) => Ok(Some(this_value)),
                FrameBinding::Captured { cell, .. } => match heap.cell_at(cell) {
                    Err(e) => Err(e),
                    Ok(data) => Ok(data.value),
                },
            };
            match bound {
                Err(e) => (heap, Err(e)),
                Ok(Some(this_value)) => (heap, Ok(Completion::Return(this_value))),
                Ok(None) => heap.thrown(
                    realm,
                    Error::new(ErrorKind::Reference, "this is not initialized"),
                ),
            }
        }
    }
}

impl Runtime {
    /// The cell under `index` in the closure of a function object.
    pub fn closure_cell(&self, function: ObjectRef, index: u16) -> (r: Result<usize, Error>)
        ensures
            r == self@.closure_cell(function, index),
    {
        let object = self.object(function)?;
        match object.payload {
            ObjectPayload::BytecodeFunction(data) => {
                let offset: usize = index as usize;
                if offset < data.count && data.start < self.closure_cells.len() && offset
                    < self.closure_cells.len() - data.start {
                    Ok(self.closure_cells[data.start + offset])
                } else {
                    Err(Error::internal("closure variable index is out of bounds"))
                }
            },
            _ => Err(Error::internal("frame function has no closure")),
        }
    }

    /// Read a variable that may be in its dead zone.
    pub fn read_checked_closure(&self, cell: usize, name: Option<Atom>) -> (r: Result<
        JsValue,
        Error,
    >)
        ensures
            r == self@.checked_read(cell, name),
    {
        let data = self.cell(cell)?;
        match data.value {
            Some(value) => Ok(value),
            None => Err(Error::uninitialized(name)),
        }
    }

    /// Write a variable that may be in its dead zone or constant.
    pub fn write_checked_closure(
        &mut self,
        cell: usize,
        is_const: bool,
        name: Option<Atom>,
        value: JsValue,
    ) -> (r: Result<(), Error>)
        requires
            old(self).wf(),
        ensures
            final(self).wf(),
            (final(self)@, r) == old(self)@.checked_write(cell, is_const, name, value),
    {
        let data = self.cell(cell)?;
        if data.value.is_none() {
            return Err(Error::uninitialized(name));
        }
        if is_const {
            return Err(Error::read_only(name));
        }
        self.write_var_ref(cell, value)
    }

    /// Enter a scope again whose captured variable was left behind.
    pub fn reset_captured_binding(&mut self, cell: usize, reusable: bool) -> (r: Result<(), Error>)
        requires
            old(self).wf(),
        ensures
            final(self).wf(),
            (final(self)@, r) == old(self)@.reset_cell(cell, reusable),
    {
        if !reusable {
            return Err(Error::internal("captured lexical reset is not reusable"));
        }
        let mut data = self.cell(cell)?;
        data.value = None;
        self.cells.set(cell, data);
        Ok(())
    }

    /// The object that a value stands for.
    pub fn native_to_object(&mut self, realm: usize, value: JsValue) -> (r: Result<
        NativeConversion<ObjectRef>,
        Error,
    >)
        requires
            old(self).wf(),
        ensures
            final(self).wf(),
            (final(self)@, r) == old(self)@.to_object(realm, value),
    {
        if let JsValue::Object(object) = value {
            return Ok(NativeConversion::Value(object));
        }
        if value.nullish() {
            let completion = self.throw_error(
                realm,
                Error::new(ErrorKind::Type, "cannot convert to object"),
            )?;
            return Ok(NativeConversion::Throw(completion.value()));
        }
        let data = self.realm(realm)?;
        let prototype = match value {
            JsValue::String(_) => data.string_prototype,
            JsValue::Bool(_) => data.boolean_prototype,
            JsValue::Symbol(_) => data.symbol_prototype,
            JsValue::BigInt(_) => data.bigint_prototype,
            _ => data.number_prototype,
        };
        Ok(
            NativeConversion::Value(
                self.allocate(
                    HeapObject {
                        kind: ObjectKind::Primitive,
                        payload: ObjectPayload::Primitive(value),
                        prototype: Some(prototype),
                        is_constructor: false,
                        extensible: true,
                    },
                ),
            ),
        )
    }

    /// Throw an error in a realm as the outcome of an instruction.
    pub fn throw_step(&mut self, realm: usize, error: Error) -> (r: Result<CallStep, Error>)
        requires
            old(self).wf(),
        ensures
            final(self).wf(),
            (final(self)@, r) == old(self)@.throw_step(realm, error),
    {
        let completion = self.throw_error(realm, error)?;
        Ok(CallStep::Complete(completion))
    }

    /// Make a function object.
    pub fn new_function(&mut self, realm: Realm, bytecode: usize, cells: Vec<usize>) -> (r: Result<
        ObjectRef,
        Error,
    >)
        requires
            old(self).wf(),
        ensures
            final(self).wf(),
            match old(self)@.function_at(bytecode) {
                Err(e) => r == Err::<ObjectRef, Error>(e) && final(self)@ == old(self)@,
                Ok(function) => r == Ok::<ObjectRef, Error>(old(self)@.next_ref()) && final(self)@
                    == old(self)@.with_function(realm, bytecode, function, cells@),
            },
    {
        let metadata = self.function_bytecode(bytecode)?.metadata;
        let start: usize = self.closure_cells.len();
        let count: usize = cells.len();
        let mut cells = cells;
        self.closure_cells.append(&mut cells);
        let is_constructor = match metadata.constructor_kind {
            ConstructorKind::NotConstructor => false,
            _ => true,
        };
        let made = self.allocate(
            HeapObject {
                kind: ObjectKind::Function,
                payload: ObjectPayload::BytecodeFunction(
                    BytecodeFunctionData {
                        bytecode,
                        start,
                        count,
                        home: None,
                        instance_initializer: None,
                        static_initialized: false,
                    },
                ),
                prototype: Some(realm.function_prototype),
                is_constructor,
                extensible: true,
            },
        );
        match metadata.name {
            Some(name) => {
                self.add_property(
                    PropertyEntry {
                        owner: made.index,
                        key: PropertyKey::String(ATOM_NAME),
                        slot: PropertySlot::Data {
                            value: JsValue::String(name),
                            writable: false,
                            enumerable: false,
                            configurable: true,
                        },
                    },
                );
            },
            None => {},
        }
        if metadata.has_prototype {
            let prototype = self.new_object(Some(realm.object_prototype));
            self.add_property(
                PropertyEntry {
                    owner: prototype.index,
                    key: PropertyKey::String(ATOM_CONSTRUCTOR),
                    slot: PropertySlot::Data {
                        value: JsValue::Object(made),
                        writable: true,
                        enumerable: false,
                        configurable: true,
                    },
                },
            );
            self.add_property(
                PropertyEntry {
                    owner: made.index,
                    key: PropertyKey::String(ATOM_PROTOTYPE),
                    slot: PropertySlot::Data {
                        value: JsValue::Object(prototype),
                        writable: true,
                        enumerable: false,
                        configurable: false,
                    },
                },
            );
        }
        Ok(made)
    }

    /// The cell that a global name is linked to.
    pub fn link_global(&mut self, realm: Realm, name: Atom) -> (r: Result<usize, Error>)
        requires
            old(self).wf(),
        ensures
            final(self).wf(),
            (final(self)@, r) == old(self)@.global_cell(realm, name),
    {
        match self.own_var_ref_root(realm.global_lexical, PropertyKey::String(name))? {
            Some(cell) => {
                return Ok(cell);
            },
            None => {},
        }
        match self.own_var_ref_root(realm.global_object, PropertyKey::String(name))? {
            Some(cell) => Ok(cell),
            None => Ok(
                self.new_var_ref(
                    VarRef {
                        value: None,
                        is_const: false,
                        is_lexical: false,
                        kind: BindingKind::Normal,
                    },
                ),
            ),
        }
    }

    fn capture(&mut self, binding: FrameBinding, definition: LocalDefinition) -> (r: (
        usize,
        FrameBinding,
    ))
        requires
            old(self).wf(),
        ensures
            final(self).wf(),
            (final(self)@, r.0, r.1) == old(self)@.capture(binding, definition),
    {
        let value = match binding {
            FrameBinding::Captured { cell, .. } => {
                return (cell, binding);
            },
            FrameBinding::Direct(value) => Some(value),
            FrameBinding::Uninitialized => None,
        };
        let cell: usize = self.new_var_ref(
            VarRef {
                value,
                is_const: definition.is_const,
                is_lexical: definition.is_lexical,
                kind: definition.kind,
            },
        );
        (cell, FrameBinding::Captured { cell, reusable: false })
    }
}

/// Capture a local of the current frame.
pub fn capture_local(
    runtime: &mut Runtime,
    slots: &mut SlotStore,
    window: FrameWindow,
    bytecode: usize,
    index: u16,
) -> (r: Result<usize, Error>)
    requires
        old(runtime).wf(),
        bytecode < old(runtime)@.code.len(),
    ensures
        final(runtime).wf(),
        (final(runtime)@, final(slots)@, r) == Machine::capture_local(
            old(runtime)@,
            old(slots)@,
            window,
            old(runtime)@.code[bytecode as int],
            index,
        ),
{
    let definitions = &runtime.code[bytecode].local_definitions;
    if index as usize >= definitions.len() {
        return Err(Error::internal("local definition index is out of bounds"));
    }
    let definition = definitions[index as usize];
    let binding = slots.local(window, index)?;
    let (cell, captured) = runtime.capture(binding, definition);
    slots.set_local(window, index, captured)?;
    Ok(cell)
}

/// Capture a parameter of the current frame.
pub fn capture_parameter(
    runtime: &mut Runtime,
    slots: &mut SlotStore,
    window: FrameWindow,
    bytecode: usize,
    index: u16,
) -> (r: Result<usize, Error>)
    requires
        old(runtime).wf(),
        bytecode < old(runtime)@.code.len(),
    ensures
        final(runtime).wf(),
        (final(runtime)@, final(slots)@, r) == Machine::capture_parameter(
            old(runtime)@,
            old(slots)@,
            window,
            old(runtime)@.code[bytecode as int],
            index,
        ),
{
    let definitions = &runtime.code[bytecode].argument_definitions;
    if index as usize >= definitions.len() {
        return Err(Error::internal("argument definition index is out of bounds"));
    }
    let definition = definitions[index as usize];
    let binding = slots.parameter(window, index)?;
    let (cell, captured) = runtime.capture(binding, definition);
    slots.set_parameter(window, index, captured)?;
    Ok(cell)
}

fn capture_variable(
    runtime: &mut Runtime,
    slots: &mut SlotStore,
    frame: Frame,
    realm: Realm,
    variable: ClosureVariable,
) -> (r: Result<usize, Error>)
    requires
        old(runtime).wf(),
        frame.executable < old(runtime)@.code.len(),
    ensures
        final(runtime).wf(),
        (final(runtime)@, final(slots)@, r) == Machine::capture_variable(
            old(runtime)@,
            old(slots)@,
            frame,
            old(runtime)@.code[frame.executable as int],
            realm,
            variable,
        ),
{
    match variable.source {
        ClosureSource::ParentLocal(index) => capture_local(
            runtime,
            slots,
            frame.window,
            frame.executable,
            index,
        ),
        ClosureSource::ParentArgument(index) => capture_parameter(
            runtime,
            slots,
            frame.window,
            frame.executable,
            index,
        ),
        ClosureSource::ParentClosure(index) => runtime.closure_cell(frame.cold.function, index),
        ClosureSource::Global => match variable.name {
            None => Err(Error::internal("published global closure descriptor has no name atom")),
            Some(name) => runtime.link_global(realm, name),
        },
    }
}

proof fn capturing_keeps_code(
    heap: Heap,
    slots: Slots,
    frame: Frame,
    function: FunctionBytecode,
    realm: Realm,
    variable: ClosureVariable,
)
    ensures
        Machine::capture_variable(heap, slots, frame, function, realm, variable).0.code
            == heap.code,
{
}

/// Make a function from a nested constant and push it.
pub fn instantiate(runtime: &mut Runtime, execution: &mut RunningExecution, id: FrameId, index: u32)
    -> (r: Result<(), Error>)
    requires
        old(runtime).wf(),
    ensures
        final(runtime).wf(),
        (final(runtime)@, final(execution)@, r) == old(execution)@.instantiate(
            old(runtime)@,
            id,
            index,
        ),
{
    let frame = execution.frames.current(id)?;
    let function = runtime.function_bytecode(frame.executable)?;
    if index as usize >= function.constants.len() {
        return Err(Error::internal("constant index is out of bounds"));
    }
    let bytecode: usize = match function.constants[index as usize] {
        BytecodeConstant::Value(_) => {
            return Err(Error::internal("constant is not a function"));
        },
        BytecodeConstant::Function(bytecode) => bytecode,
    };
    let child = runtime.function_bytecode(bytecode)?;
    let mut variables: Vec<ClosureVariable> = Vec::new();
    let mut i: usize = 0;
    while i < child.closure_variables.len()
        invariant
            i <= child.closure_variables@.len(),
            variables@ == child.closure_variables@.take(i as int),
        decreases child.closure_variables@.len() - i,
    {
        variables.push(child.closure_variables[i]);
        assert(variables@ =~= child.closure_variables@.take(i as int + 1));
        i = i + 1;
    }
    assert(variables@ =~= child.closure_variables@);
    let realm = runtime.realm(frame.realm)?;
    let mut cells: Vec<usize> = Vec::new();
    let ghost parent = runtime@.code[frame.executable as int];
    let ghost before = runtime@;
    let ghost machine = execution@;
    let mut k: usize = 0;
    while k < variables.len()
        invariant
            runtime.wf(),
            k <= variables@.len(),
            frame.executable < runtime@.code.len(),
            runtime@.code == before.code,
            parent == runtime@.code[frame.executable as int],
            execution@ == (Machine { slots: execution@.slots, ..machine }),
            Machine::capture_list(
                runtime@,
                execution@.slots,
                frame,
                parent,
                realm,
                variables@,
                k as int,
                cells@,
            ) == Machine::capture_list(
                before,
                machine.slots,
                frame,
                parent,
                realm,
                variables@,
                0,
                Seq::empty(),
            ),
            before == old(runtime)@,
            machine == old(execution)@,
            old(execution)@.frames.current(id) == Ok::<Frame, Error>(frame),
            before.function_at(frame.executable) == Ok::<FunctionBytecode, Error>(parent),
            index < parent.constants@.len(),
            parent.constants@[index as int] == BytecodeConstant::Function(bytecode),
            bytecode < before.code.len(),
            before.code[bytecode as int].closure_variables@ == variables@,
            before.realm_at(frame.realm) == Ok::<Realm, Error>(realm),
        decreases variables@.len() - k,
    {
        proof {
            capturing_keeps_code(
                runtime@,
                execution@.slots,
                frame,
                parent,
                realm,
                variables@[k as int],
            );
        }
        let cell: usize = capture_variable(
            runtime,
            &mut execution.slots,
            frame,
            realm,
            variables[k],
        )?;
        cells.push(cell);
        k = k + 1;
    }
    let made = runtime.new_function(realm, bytecode, cells)?;
    execution.slots.push(JsValue::Object(made))?;
    execution.resume_after(frame, Error::internal("closure resume PC overflow"))
}

fn bound_cell(
    runtime: &Runtime,
    slots: &SlotStore,
    frame: Frame,
    function: &FunctionBytecode,
    source: BindingSource,
    index: u16,
) -> (r: Result<(usize, Option<Atom>, bool), Error>)
    ensures
        r == Machine::bound_cell(runtime@, slots@, frame, *function, source, index),
{
    let position: usize = index as usize;
    match source {
        BindingSource::Closure => {
            let cell: usize = runtime.closure_cell(frame.cold.function, index)?;
            if position < function.closure_variables.len() {
                let variable = function.closure_variables[position];
                Ok((cell, variable.name, variable.is_const))
            } else {
                Err(Error::internal("closure variable index is out of bounds"))
            }
        },
        BindingSource::Local => match slots.local(frame.window, index)? {
            FrameBinding::Captured { cell, .. } => {
                if position < function.local_definitions.len() {
                    let definition = function.local_definitions[position];
                    Ok((cell, definition.name, definition.is_const))
                } else {
                    Err(Error::internal("local definition index is out of bounds"))
                }
            },
            _ => Err(Error::internal("captured access lost its cell")),
        },
        BindingSource::Argument => match slots.parameter(frame.window, index)? {
            FrameBinding::Captured { cell, .. } => {
                if position < function.argument_definitions.len() {
                    let definition = function.argument_definitions[position];
                    Ok((cell, definition.name, definition.is_const))
                } else {
                    Err(Error::internal("argument definition index is out of bounds"))
                }
            },
            _ => Err(Error::internal("captured access lost its cell")),
        },
    }
}

/// Read or write a variable that lives in a cell.
pub fn binding_access(
    runtime: &mut Runtime,
    slots: &mut SlotStore,
    frame: Frame,
    source: BindingSource,
    index: u16,
    write: bool,
    checked: bool,
    keep: bool,
) -> (r: Result<(), Error>)
    requires
        old(runtime).wf(),
        frame.executable < old(runtime)@.code.len(),
    ensures
        final(runtime).wf(),
        (final(runtime)@, final(slots)@, r) == Machine::binding_access(
            old(runtime)@,
            old(slots)@,
            frame,
            old(runtime)@.code[frame.executable as int],
            source,
            index,
            write,
            checked,
            keep,
        ),
{
    let function = &runtime.code[frame.executable];
    let strip = function.metadata.strip_variable_debug;
    let (cell, own_name, is_const) = bound_cell(runtime, slots, frame, function, source, index)?;
    let name: Option<Atom> = if strip {
        None
    } else {
        own_name
    };
    if write {
        let value = if keep {
            slots.peek(frame.window, 0)?
        } else {
            slots.pop(frame.window)?
        };
        if checked {
            runtime.write_checked_closure(cell, is_const, name, value)
        } else {
            runtime.write_var_ref(cell, value)
        }
    } else {
        let value = if checked {
            runtime.read_checked_closure(cell, name)?
        } else {
            runtime.read_var_ref(cell)?
        };
        slots.push(value)
    }
}

/// Bind `this` after a super call.
pub fn initialize_derived_binding(
    runtime: &mut Runtime,
    definition: LocalDefinition,
    binding: FrameBinding,
    value: JsValue,
) -> (r: Result<Option<FrameBinding>, Error>)
    requires
        old(runtime).wf(),
    ensures
        final(runtime).wf(),
        (final(runtime)@, r) == Machine::derived_bound(
            old(runtime)@,
            definition,
            binding,
            value,
        ),
{
    if definition.kind != BindingKind::DerivedThis {
        return Err(Error::internal("derived initialization received another binding kind"));
    }
    match binding {
        FrameBinding::Uninitialized => Ok(Some(FrameBinding::Direct(value))),
        FrameBinding::Direct(_) => Err(
            Error::new(ErrorKind::Reference, "'this' can be initialized only once"),
        ),
        FrameBinding::Captured { cell, .. } => {
            let data = runtime.cell(cell)?;
            if data.value.is_some() {
                return Err(
                    Error::new(ErrorKind::Reference, "'this' can be initialized only once"),
                );
            }
            runtime.write_var_ref(cell, value)?;
            Ok(None)
        },
    }
}

/// What a derived constructor returns.
pub fn finish_derived_return(
    runtime: &mut Runtime,
    realm: usize,
    definition: LocalDefinition,
    binding: FrameBinding,
    value: JsValue,
) -> (r: Result<Completion, Error>)
    requires
        old(runtime).wf(),
    ensures
        final(runtime).wf(),
        (final(runtime)@, r) == Machine::derived_return(
            old(runtime)@,
            realm,
            definition,
            binding,
            value,
        ),
{
    if definition.kind != BindingKind::DerivedThis {
        return Err(Error::internal("derived return received another binding kind"));
    }
    if value.is_object() {
        return Ok(Completion::Return(value));
    }
    if value != JsValue::Undefined {
        return runtime.throw_error(
            realm,
            Error::new(
                ErrorKind::Type,
                "derived class constructor must return an object or undefined",
            ),
        );
    }
    let bound = match binding {
        FrameBinding::Uninitialized => None,
        FrameBinding::Direct(this_value) => Some(this_value),
        FrameBinding::Captured { cell, .. } => runtime.cell(cell)?.value,
    };
    match bound {
        Some(this_value) => Ok(Completion::Return(this_value)),
        None => runtime.throw_error(
            realm,
            Error::new(ErrorKind::Reference, "this is not initialized"),
        ),
    }
}

/// `this` is bound at most once: a second super call leaves the first value.
pub proof fn derived_this_is_bound_once(
    heap: Heap,
    definition: LocalDefinition,
    cell: usize,
    first: JsValue,
    second: JsValue,
)
    requires
        definition.kind is DerivedThis,
        cell < heap.cells.len(),
        heap.cells[cell as int].value is None,
    ensures
        ({
            let captured = FrameBinding::Captured { cell, reusable: false };
            let (after, r) = Machine::derived_bound(heap, definition, captured, first);
            let (again, refused) = Machine::derived_bound(after, definition, captured, second);
            &&& r is Ok
            &&& refused is Err
            &&& again == after
            &&& again.read_cell(cell) == Ok::<JsValue, Error>(first)
        }),
{
}

/// Closures that capture one slot share one cell: a second capture finds the
/// cell of the first and changes nothing.
pub proof fn captures_are_shared(heap: Heap, binding: FrameBinding, definition: LocalDefinition)
    ensures
        ({
            let (after, cell, captured) = heap.capture(binding, definition);
            after.capture(captured, definition) == (after, cell, captured)
        }),
{
}

/// A write through a cell is what the next read through it gives.
pub proof fn cells_give_back_writes(
    heap: Heap,
    cell: usize,
    is_const: bool,
    name: Option<Atom>,
    value: JsValue,
)
    ensures
        heap.checked_write(cell, is_const, name, value).1 is Ok ==> heap.checked_write(
            cell,
            is_const,
            name,
            value,
        ).0.checked_read(cell, name) == Ok::<JsValue, Error>(value),
        heap.checked_write(cell, is_const, name, value).1 is Err ==> heap.checked_write(
            cell,
            is_const,
            name,
            value,
        ).0 == heap,
{
}

/// Checked accesses to a variable: one that is not initialized refuses reads
/// and writes with a reference error, a constant refuses writes with a type
/// error, and no refused access changes anything.
pub proof fn dead_and_constant_variables_refuse(
    heap: Heap,
    cell: usize,
    is_const: bool,
    name: Option<Atom>,
    value: JsValue,
)
    requires
        cell < heap.cells.len(),
    ensures
        heap.cells[cell as int].value is None ==> {
            &&& heap.checked_read(cell, name) matches Err(e) && e.kind is Reference
            &&& heap.checked_write(cell, is_const, name, value).1 matches Err(e)
                && e.kind is Reference
        },
        heap.cells[cell as int].value matches Some(old) ==> {
            &&& heap.checked_read(cell, name) == Ok::<JsValue, Error>(old)
            &&& heap.read_cell(cell) == Ok::<JsValue, Error>(old)
            &&& is_const ==> (heap.checked_write(cell, is_const, name, value).1 matches Err(e)
                && e.kind is Type)
            &&& !is_const ==> heap.checked_write(cell, is_const, name, value).1 is Ok
        },
        heap.checked_write(cell, is_const, name, value).1 is Err ==> heap.checked_write(
            cell,
            is_const,
            name,
            value,
        ).0 == heap,
        forall|other: int|
            0 <= other < heap.cells.len() && other != cell
                ==> #[trigger] heap.checked_write(cell, is_const, name, value).0.cells[other]
                == heap.cells[other],
{
}

/// A binding instruction on a captured variable reads its cell onto the
/// operands, or writes the top operand to its cell and keeps the operand only
/// where it is asked to.
pub proof fn captured_variables_live_in_their_cells(
    heap: Heap,
    slots: Slots,
    frame: Frame,
    function: FunctionBytecode,
    source: BindingSource,
    index: u16,
    checked: bool,
    keep: bool,
    cell: usize,
    name: Option<Atom>,
    old: JsValue,
    value: JsValue,
)
    requires
        Machine::bound_cell(heap, slots, frame, function, source, index) == Ok::<
            (usize, Option<Atom>, bool),
            Error,
        >((cell, name, false)),
        cell < heap.cells.len(),
        heap.cells[cell as int].value == Some(old),
        slots.peek(frame.window, 0) == Ok::<JsValue, Error>(value),
        slots.values.len() < slots.limit,
    ensures
        Machine::binding_access(
            heap,
            slots,
            frame,
            function,
            source,
            index,
            false,
            checked,
            keep,
        ) == (
            heap,
            Slots { values: slots.values.push(FrameBinding::Direct(old)), ..slots },
            Ok::<(), Error>(()),
        ),
        ({
            let (after, left, r) = Machine::binding_access(
                heap,
                slots,
                frame,
                function,
                source,
                index,
                true,
                checked,
                keep,
            );
            &&& r is Ok
            &&& after.read_cell(cell) == Ok::<JsValue, Error>(value)
            &&& after.cells.len() == heap.cells.len()
            &&& forall|other: int|
                0 <= other < heap.cells.len() && other != cell ==> #[trigger] after.cells[other]
                    == heap.cells[other]
            &&& keep ==> left == slots
            &&& !keep ==> left.values == slots.values.drop_last()
        }),
{
}

/// Which cell a binding instruction means: the one under its index in the
/// closure of the running function, or the one that its local or parameter was
/// moved to.
pub proof fn binding_instructions_find_their_cell(
    heap: Heap,
    slots: Slots,
    frame: Frame,
    function: FunctionBytecode,
    index: u16,
    cell: usize,
    reusable: bool,
)
    ensures
        slots.local(frame.window, index) == Ok::<FrameBinding, Error>(
            FrameBinding::Captured { cell, reusable },
        ) && index < function.local_definitions@.len() ==> (Machine::bound_cell(
            heap,
            slots,
            frame,
            function,
            BindingSource::Local,
            index,
        ) matches Ok((found, _, is_const)) && found == cell && is_const
            == function.local_definitions@[index as int].is_const),
        slots.parameter(frame.window, index) == Ok::<FrameBinding, Error>(
            FrameBinding::Captured { cell, reusable },
        ) && index < function.argument_definitions@.len() ==> (Machine::bound_cell(
            heap,
            slots,
            frame,
            function,
            BindingSource::Argument,
            index,
        ) matches Ok((found, _, is_const)) && found == cell && is_const
            == function.argument_definitions@[index as int].is_const),
        heap.closure_cell(frame.cold.function, index) == Ok::<usize, Error>(cell) && index
            < function.closure_variables@.len() ==> (Machine::bound_cell(
            heap,
            slots,
            frame,
            function,
            BindingSource::Closure,
            index,
        ) matches Ok((found, _, is_const)) && found == cell && is_const
            == function.closure_variables@[index as int].is_const),
{
}

/// A captured slot keeps what it held: its value moves to a fresh cell, a slot
/// in its dead zone stays in it, and the cell is as constant as its variable.
pub proof fn captures_keep_the_value(heap: Heap, binding: FrameBinding, definition: LocalDefinition)
    requires
        heap.cells.len() < usize::MAX,
    ensures
        ({
            let (after, cell, captured) = heap.capture(binding, definition);
            &&& captured matches FrameBinding::Captured { cell: shared, .. } && shared == cell
            &&& binding matches FrameBinding::Direct(value) ==> {
                &&& cell == heap.cells.len()
                &&& after.cells.len() == heap.cells.len() + 1
                &&& after.read_cell(cell) == Ok::<JsValue, Error>(value)
                &&& after.cells[cell as int].is_const == definition.is_const
            }
            &&& binding is Uninitialized ==> {
                &&& cell == heap.cells.len()
                &&& after.cells.len() == heap.cells.len() + 1
                &&& after.checked_read(cell, definition.name) is Err
            }
            &&& binding matches FrameBinding::Captured { cell: old, .. } ==> after == heap && cell
                == old
            &&& forall|other: int|
                0 <= other < heap.cells.len() ==> #[trigger] after.cells[other]
                    == heap.cells[other]
        }),
{
}

proof fn capturing_keeps_captures(
    heap: Heap,
    slots: Slots,
    frame: Frame,
    function: FunctionBytecode,
    realm: Realm,
    variable: ClosureVariable,
    index: u16,
    kept: usize,
)
    ensures
        ({
            let (after, left, r) = Machine::capture_variable(
                heap,
                slots,
                frame,
                function,
                realm,
                variable,
            );
            &&& after.objects == heap.objects
            &&& after.closure_cells == heap.closure_cells
            &&& variable.source matches ClosureSource::ParentLocal(at) ==> r is Ok ==> (left.local(
                frame.window,
                at,
            ) matches Ok(FrameBinding::Captured { cell, .. }) && r == Ok::<usize, Error>(cell))
            &&& variable.source matches ClosureSource::ParentArgument(at) ==> r is Ok ==> (
            left.parameter(frame.window, at) matches Ok(FrameBinding::Captured { cell, .. }) && r
                == Ok::<usize, Error>(cell))
            &&& variable.source matches ClosureSource::ParentClosure(at) ==> r
                == heap.closure_cell(frame.cold.function, at)
            &&& (slots.local(frame.window, index) matches Ok(FrameBinding::Captured { cell, .. })
                && cell == kept) ==> (left.local(frame.window, index) matches Ok(
                FrameBinding::Captured { cell, .. },
            ) && cell == kept)
            &&& (slots.parameter(frame.window, index) matches Ok(
                FrameBinding::Captured { cell, .. },
            ) && cell == kept) ==> (left.parameter(frame.window, index) matches Ok(
                FrameBinding::Captured { cell, .. },
            ) && cell == kept)
        }),
{
}

/// A new function has one cell for each of its variables, in their order: for a
/// local or a parameter the cell that the slot now lives in, for a variable of
/// the enclosing closure the cell of that closure.
pub proof fn closures_take_their_variables_in_order(
    heap: Heap,
    slots: Slots,
    frame: Frame,
    function: FunctionBytecode,
    realm: Realm,
    variables: Seq<ClosureVariable>,
    from: int,
    seen: Seq<usize>,
    k: int,
)
    requires
        0 <= from <= k < variables.len(),
        seen.len() == from,
        Machine::capture_list(heap, slots, frame, function, realm, variables, from, seen).2 is Ok,
    ensures
        ({
            let (after, left, r) = Machine::capture_list(
                heap,
                slots,
                frame,
                function,
                realm,
                variables,
                from,
                seen,
            );
            let cells = r->Ok_0;
            &&& cells.len() == variables.len()
            &&& cells.take(from) == seen
            &&& variables[k].source matches ClosureSource::ParentLocal(index) ==> (left.local(
                frame.window,
                index,
            ) matches Ok(FrameBinding::Captured { cell, .. }) && cell == cells[k])
            &&& variables[k].source matches ClosureSource::ParentArgument(index) ==> (
            left.parameter(frame.window, index) matches Ok(FrameBinding::Captured { cell, .. })
                && cell == cells[k])
            &&& variables[k].source matches ClosureSource::ParentClosure(index)
                ==> heap.closure_cell(frame.cold.function, index) == Ok::<usize, Error>(cells[k])
        }),
    decreases variables.len() - from,
{
    let (heap1, slots1, cell) = Machine::capture_variable(
        heap,
        slots,
        frame,
        function,
        realm,
        variables[from],
    );
    let more = seen.push(cell->Ok_0);
    capturing_keeps_captures(heap, slots, frame, function, realm, variables[from], 0, 0);
    captured_lists_are_whole(
        heap1,
        slots1,
        frame,
        function,
        realm,
        variables,
        from + 1,
        more,
        match variables[from].source {
            ClosureSource::ParentLocal(index) => index,
            ClosureSource::ParentArgument(index) => index,
            _ => 0,
        },
        cell->Ok_0,
    );
    let cells = Machine::capture_list(
        heap,
        slots,
        frame,
        function,
        realm,
        variables,
        from,
        seen,
    ).2->Ok_0;
    assert(cells.take(from) =~= seen) by {
        assert(cells.take(from + 1).take(from) =~= cells.take(from));
        assert(more.take(from) =~= seen);
    }
    if k > from {
        closures_take_their_variables_in_order(
            heap1,
            slots1,
            frame,
            function,
            realm,
            variables,
            from + 1,
            more,
            k,
        );
    } else {
        assert(cells[from] == cells.take(from + 1)[from]);
    }
}

proof fn captured_lists_are_whole(
    heap: Heap,
    slots: Slots,
    frame: Frame,
    function: FunctionBytecode,
    realm: Realm,
    variables: Seq<ClosureVariable>,
    from: int,
    seen: Seq<usize>,
    index: u16,
    kept: usize,
)
    requires
        0 <= from <= variables.len(),
        seen.len() == from,
        Machine::capture_list(heap, slots, frame, function, realm, variables, from, seen).2 is Ok,
    ensures
        ({
            let (after, left, r) = Machine::capture_list(
                heap,
                slots,
                frame,
                function,
                realm,
                variables,
                from,
                seen,
            );
            let cells = r->Ok_0;
            &&& cells.len() == variables.len()
            &&& cells.take(from) == seen
            &&& (slots.local(frame.window, index) matches Ok(FrameBinding::Captured { cell, .. })
                && cell == kept) ==> (left.local(frame.window, index) matches Ok(
                FrameBinding::Captured { cell, .. },
            ) && cell == kept)
            &&& (slots.parameter(frame.window, index) matches Ok(
                FrameBinding::Captured { cell, .. },
            ) && cell == kept) ==> (left.parameter(frame.window, index) matches Ok(
                FrameBinding::Captured { cell, .. },
            ) && cell == kept)
        }),
    decreases variables.len() - from,
{
    let cells = Machine::capture_list(
        heap,
        slots,
        frame,
        function,
        realm,
        variables,
        from,
        seen,
    ).2->Ok_0;
    if from < variables.len() {
        let (heap1, slots1, cell) = Machine::capture_variable(
            heap,
            slots,
            frame,
            function,
            realm,
            variables[from],
        );
        capturing_keeps_captures(
            heap,
            slots,
            frame,
            function,
            realm,
            variables[from],
            index,
            kept,
        );
        let more = seen.push(cell->Ok_0);
        captured_lists_are_whole(
            heap1,
            slots1,
            frame,
            function,
            realm,
            variables,
            from + 1,
            more,
            index,
            kept,
        );
        assert(cells.take(from + 1).take(from) =~= cells.take(from));
        assert(more.take(from) =~= seen);
    } else {
        assert(cells.take(from) =~= seen);
    }
}

/// A global name means its lexical variable before its variable of the global
/// object, and a name that nothing declares gets a variable of its own that is
/// not initialized.
pub proof fn lexical_globals_come_first(heap: Heap, realm: Realm, name: Atom, cell: usize, other: Option<usize>)
    ensures
        heap.own_cell(realm.global_lexical, PropertyKey::String(name)) == Ok::<
            Option<usize>,
            Error,
        >(Some(cell)) ==> heap.global_cell(realm, name) == (heap, Ok::<usize, Error>(cell)),
        heap.own_cell(realm.global_lexical, PropertyKey::String(name)) == Ok::<
            Option<usize>,
            Error,
        >(None) && heap.own_cell(realm.global_object, PropertyKey::String(name)) == Ok::<
            Option<usize>,
            Error,
        >(Some(cell)) ==> heap.global_cell(realm, name) == (heap, Ok::<usize, Error>(cell)),
        heap.own_cell(realm.global_lexical, PropertyKey::String(name)) == Ok::<
            Option<usize>,
            Error,
        >(None) && heap.own_cell(realm.global_object, PropertyKey::String(name)) == Ok::<
            Option<usize>,
            Error,
        >(None) && heap.cells.len() < usize::MAX ==> {
            let (after, made) = heap.global_cell(realm, name);
            &&& made == Ok::<usize, Error>(heap.cells.len() as usize)
            &&& after.cells.len() == heap.cells.len() + 1
            &&& after.cells.last().value is None
            &&& !after.cells.last().is_const
            &&& !after.cells.last().is_lexical
            &&& after.cells.last().kind is Normal
            &&& after.cells.drop_last() == heap.cells
        },
{
    assert(heap.cells.push(
        VarRef { value: None, is_const: false, is_lexical: false, kind: BindingKind::Normal },
    ).drop_last() =~= heap.cells);
}

/// An object stands for itself, undefined and null for none, and any other
/// value for a fresh wrapper around it with the prototype of its type.
pub proof fn values_are_boxed_by_their_type(heap: Heap, realm: usize, value: JsValue)
    requires
        realm < heap.realms.len(),
    ensures
        value matches JsValue::Object(object) ==> heap.to_object(realm, value) == (
            heap,
            Ok::<NativeConversion<ObjectRef>, Error>(NativeConversion::Value(object)),
        ),
        value is Undefined || value is Null ==> {
            let (after, r) = heap.to_object(realm, value);
            &&& r == Ok::<NativeConversion<ObjectRef>, Error>(
                NativeConversion::Throw(JsValue::Object(heap.next_ref())),
            )
            &&& after.objects.last().prototype == Some(
                heap.realms[realm as int].type_error_prototype,
            )
        },
        !(value is Object) && !(value is Undefined) && !(value is Null) ==> {
            let (after, r) = heap.to_object(realm, value);
            let data = heap.realms[realm as int];
            &&& r == Ok::<NativeConversion<ObjectRef>, Error>(
                NativeConversion::Value(heap.next_ref()),
            )
            &&& after.objects.drop_last() == heap.objects
            &&& after.properties == heap.properties
            &&& after.objects.last().payload == ObjectPayload::Primitive(value)
            &&& after.objects.last().extensible
            &&& !after.objects.last().is_constructor
            &&& after.objects.last().prototype == Some(
                if value is String {
                    data.string_prototype
                } else if value is Bool {
                    data.boolean_prototype
                } else if value is Symbol {
                    data.symbol_prototype
                } else if value is BigInt {
                    data.bigint_prototype
                } else {
                    data.number_prototype
                },
            )
        },
{
    if realm < heap.realms.len() {
        assert(heap.objects.push(Heap::wrapper(heap.realms[realm as int], value)).drop_last()
            =~= heap.objects);
    }
}

/// What a derived constructor gives: an object that it returns itself, a type
/// error for any other value but undefined, else `this`, which must have been
/// bound by then.
pub proof fn derived_constructors_give_objects_or_this(
    heap: Heap,
    realm: usize,
    definition: LocalDefinition,
    binding: FrameBinding,
    value: JsValue,
    this_value: JsValue,
)
    requires
        definition.kind is DerivedThis,
        realm < heap.realms.len(),
    ensures
        value is Object ==> Machine::derived_return(heap, realm, definition, binding, value) == (
            heap,
            Ok::<Completion, Error>(Completion::Return(value)),
        ),
        !(value is Object) && !(value is Undefined) ==> {
            let (after, r) = Machine::derived_return(heap, realm, definition, binding, value);
            &&& r == Ok::<Completion, Error>(
                Completion::Throw(JsValue::Object(heap.next_ref())),
            )
            &&& after.objects.last().prototype == Some(
                heap.realms[realm as int].type_error_prototype,
            )
        },
        value is Undefined && binding == FrameBinding::Direct(this_value)
            ==> Machine::derived_return(heap, realm, definition, binding, value) == (
            heap,
            Ok::<Completion, Error>(Completion::Return(this_value)),
        ),
        value is Undefined && binding is Uninitialized ==> {
            let (after, r) = Machine::derived_return(heap, realm, definition, binding, value);
            &&& r == Ok::<Completion, Error>(
                Completion::Throw(JsValue::Object(heap.next_ref())),
            )
            &&& after.objects.last().prototype == Some(
                heap.realms[realm as int].reference_error_prototype,
            )
        },
        value is Undefined ==> (binding matches FrameBinding::Captured { cell, .. } ==> cell
            < heap.cells.len() ==> (heap.cells[cell as int].value matches Some(bound)
            ==> Machine::derived_return(heap, realm, definition, binding, value) == (
            heap,
            Ok::<Completion, Error>(Completion::Return(bound)),
        ))),
{
}

/// A program sees an engine error as a fresh error object: of the constructor
/// that the error names, in the realm that it is thrown in, with its text as
/// the message.  Broken protocols are not thrown.
pub proof fn visible_errors_become_objects(heap: Heap, realm: usize, error: Error)
    requires
        realm < heap.realms.len(),
        heap.texts.len() + 1 < usize::MAX,
        heap.objects.len() <= usize::MAX,
        forall|p: int|
            0 <= p < heap.properties.len() ==> (#[trigger] heap.properties[p]).owner
                < heap.objects.len(),
    ensures
        error.kind is Internal || error.kind is Invariant || error.kind is WrongRuntime
            || error.kind is Heap ==> heap.thrown(realm, error) == (
            heap,
            Err::<Completion, Error>(error),
        ),
        error.kind is Type || error.kind is Reference || error.kind is Range || error.kind is Syntax
            || error.kind is Overflow ==> {
            let (after, r) = heap.thrown(realm, error);
            let data = heap.realms[realm as int];
            let made = heap.next_ref();
            &&& r == Ok::<Completion, Error>(Completion::Throw(JsValue::Object(made)))
            &&& after.objects.drop_last() == heap.objects
            &&& after.objects.last().prototype == Some(
                match error.kind {
                    ErrorKind::Type => data.type_error_prototype,
                    ErrorKind::Reference => data.reference_error_prototype,
                    ErrorKind::Range => data.range_error_prototype,
                    ErrorKind::Syntax => data.syntax_error_prototype,
                    _ => data.internal_error_prototype,
                },
            )
            &&& after.own_data(made, PropertyKey::String(crate::runtime::ATOM_MESSAGE)) matches Some(
                JsValue::String(text),
            ) && after.text_at(text) == heap.error_text(error)
        },
{
    let text = heap.error_text(error);
    let stack = heap.stack_text(heap.active.len());
    let named = heap.with_text(text);
    crate::text::interning_names_the_text(heap.texts, text);
    crate::text::interning_names_the_text(named.texts, stack);
    let (after, r) = heap.thrown(realm, error);
    if r is Ok {
        assert(after.objects.drop_last() =~= heap.objects);
        crate::object::position_is(
            after.properties,
            heap.next_ref().index,
            PropertyKey::String(crate::runtime::ATOM_MESSAGE),
            0,
            heap.properties.len() as int,
        );
    }
}

/// A new function has its name and, where it can construct, a fresh prototype
/// object that names it as the constructor.  None of these properties is
/// enumerable, the name is read-only, and the prototype cannot be taken away.
pub proof fn functions_are_linked_to_their_prototype(
    heap: Heap,
    realm: Realm,
    bytecode: usize,
    function: FunctionBytecode,
    cells: Seq<usize>,
    name: Atom,
)
    requires
        heap.objects.len() + 1 < usize::MAX,
        forall|p: int|
            0 <= p < heap.properties.len() ==> (#[trigger] heap.properties[p]).owner
                < heap.objects.len(),
        function.metadata.name == Some(name),
        function.metadata.has_prototype,
    ensures
        ({
            let after = heap.with_function(realm, bytecode, function, cells);
            let made = heap.next_ref();
            let prototype = ObjectRef { domain: heap.domain, index: (made.index + 1) as usize };
            &&& after.objects.len() == heap.objects.len() + 2
            &&& after.objects[made.index as int].prototype == Some(realm.function_prototype)
            &&& after.objects[made.index as int].is_constructor == !(
            function.metadata.constructor_kind is NotConstructor)
            &&& after.objects[prototype.index as int].prototype == Some(realm.object_prototype)
            &&& after.own_property(made, PropertyKey::String(ATOM_NAME)) == Ok::<
                Option<crate::object::PropertyDescriptor>,
                Error,
            >(
                Some(
                    crate::object::PropertyDescriptor::Data {
                        value: JsValue::String(name),
                        writable: false,
                        enumerable: false,
                        configurable: true,
                    },
                ),
            )
            &&& after.own_property(made, PropertyKey::String(ATOM_PROTOTYPE)) == Ok::<
                Option<crate::object::PropertyDescriptor>,
                Error,
            >(
                Some(
                    crate::object::PropertyDescriptor::Data {
                        value: JsValue::Object(prototype),
                        writable: true,
                        enumerable: false,
                        configurable: false,
                    },
                ),
            )
            &&& after.own_property(prototype, PropertyKey::String(ATOM_CONSTRUCTOR)) == Ok::<
                Option<crate::object::PropertyDescriptor>,
                Error,
            >(
                Some(
                    crate::object::PropertyDescriptor::Data {
                        value: JsValue::Object(made),
                        writable: true,
                        enumerable: false,
                        configurable: true,
                    },
                ),
            )
            &&& forall|i: u16|
                i < cells.len() && cells.len() + heap.closure_cells.len() <= usize::MAX
                    ==> #[trigger] after.closure_cell(made, i) == Ok::<usize, Error>(cells[i as int])
        }),
{
    let after = heap.with_function(realm, bytecode, function, cells);
    let made = heap.next_ref();
    let n = heap.properties.len() as int;
    crate::object::position_is(
        after.properties,
        made.index,
        PropertyKey::String(ATOM_NAME),
        0,
        n,
    );
    crate::object::position_is(
        after.properties,
        (made.index + 1) as usize,
        PropertyKey::String(ATOM_CONSTRUCTOR),
        0,
        n + 1,
    );
    crate::object::position_is(
        after.properties,
        made.index,
        PropertyKey::String(ATOM_PROTOTYPE),
        0,
        n + 2,
    );
}

/// A variable that is captured now belongs to a scope that is still open: its
/// cell is not reused.
pub proof fn open_scopes_do_not_share_their_cells(
    heap: Heap,
    binding: FrameBinding,
    definition: LocalDefinition,
    cell: usize,
)
    ensures
        !(binding is Captured) ==> (heap.capture(binding, definition).2 matches FrameBinding::Captured {
            reusable,
            ..
        } && !reusable),
        heap.reset_cell(cell, false).1 is Err,
        heap.reset_cell(cell, false).0 == heap,
{
}

} // verus!
