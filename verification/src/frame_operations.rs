//! Frame and binding operations that leave the resident loop.
pub mod direct;
pub mod numeric;
use vstd::prelude::*;
use crate::activation::VmUnwindRegion;
use crate::array::{push_arguments, push_rest};
use crate::bindings::{binding_access, finish_derived_return, initialize_derived_binding, instantiate};
use crate::code::{FunctionBytecode, LocalDefinition};
use crate::driver::{prepare_captured_reuse, CallStep};
use crate::error::{Error, ErrorKind};
use crate::execution::{Machine, RunningExecution};
use crate::frame::{Frame, FrameCold, FrameId};
use crate::heap::{Heap, ObjectPayload, PropertySlot};
use crate::run::{strict_comparison, BindingSource, RunExit};
use crate::runtime::{Runtime, ATOM_EMPTY, ATOM_NAME};
use crate::slots::{FrameBinding, Slots};
use crate::text::{append_text, Texts};
use crate::value::{Atom, Completion, JsValue, NativeConversion, ObjectRef, PropertyKey};

verus! {

impl Heap {
    /// The object that methods of a function were defined on.
    pub open spec fn home_object(self, function: ObjectRef) -> Result<ObjectRef, Error> {
        match self.object_at(function) {
            Err(e) => Err(e),
            Ok(object) => match object.payload {
                ObjectPayload::BytecodeFunction(data) => match data.home {
                    Some(home) => Ok(home),
                    None => Err(Error::internal("bytecode requested an uninstalled HomeObject")),
                },
                _ => Err(Error::internal("bytecode requested an uninstalled HomeObject")),
            },
        }
    }

    /// The text that names a function after a computed key.
    pub open spec fn key_name(self, key: JsValue) -> (Heap, Result<Atom, Error>) {
        match key {
            JsValue::Symbol(symbol) => if symbol.index < self.symbols.len() {
                match self.symbols[symbol.index as int] {
                    None => (self, Ok(ATOM_EMPTY)),
                    Some(description) => {
                        let text = seq![91u16] + self.text_at(description) + seq![93u16];
                        (self.with_text(text), Ok(Texts::atom_of(self.texts, text)))
                    },
                }
            } else {
                (self, Err(Error::stale()))
            },
            _ => match self.primitive_string(key) {
                (heap, Ok(JsValue::String(atom))) => (heap, Ok(atom)),
                (heap, Ok(_)) => (heap, Err(Error::internal("object is not a primitive"))),
                (heap, Err(e)) => (heap, Err(e)),
            },
        }
    }

    /// Naming a function that has no own name.
    pub open spec fn name_function(self, value: JsValue, name: Atom) -> (Heap, Result<(), Error>) {
        match value {
            JsValue::Object(object) => match self.has_own(
                object,
                PropertyKey::String(ATOM_NAME),
            ) {
                Err(e) => (self, Err(e)),
                Ok(true) => (self, Ok(())),
                Ok(false) => match self.define(
                    object,
                    PropertyKey::String(ATOM_NAME),
                    Heap::hidden_slot(JsValue::String(name), false, true),
                ) {
                    (heap, Err(e)) => (heap, Err(e)),
                    (heap, Ok(true)) => (heap, Ok(())),
                    (heap, Ok(false)) => (
                        heap,
                        Err(Error::new(ErrorKind::Type, "property is not configurable")),
                    ),
                },
            },
            _ => (self, Err(Error::new(ErrorKind::Type, "not an object"))),
        }
    }

    /// The name of a binding error.
    pub open spec fn binding_error(function: FunctionBytecode, index: u16, redeclaration: bool) -> Result<
        Error,
        Error,
    > {
        if index < function.property_key_atoms@.len() {
            let name = function.property_key_atoms@[index as int];
            Ok(
                if redeclaration {
                    Error::named(ErrorKind::Syntax, "redeclaration of '", name, "'")
                } else {
                    Error::read_only(name)
                },
            )
        } else {
            Err(Error::internal("binding error name is out of bounds"))
        }
    }

    /// A visible error becomes a throw in `realm`.
    pub open spec fn caught(self, realm: usize, r: Result<CallStep, Error>) -> (
        Heap,
        Result<CallStep, Error>,
    ) {
        match r {
            Err(e) => self.throw_step(realm, e),
            Ok(step) => (self, Ok(step)),
        }
    }
}

impl Machine {
    pub open spec fn step_done(step: (Heap, Machine, Result<(), Error>)) -> (
        Heap,
        Machine,
        Result<CallStep, Error>,
    ) {
        match step.2 {
            Ok(_) => (step.0, step.1, Ok(CallStep::Entered)),
            Err(e) => (step.0, step.1, Err(e)),
        }
    }

    /// A visible error of an instruction becomes a throw in `realm`.
    pub open spec fn step_caught(realm: usize, step: (Heap, Machine, Result<CallStep, Error>)) -> (
        Heap,
        Machine,
        Result<CallStep, Error>,
    ) {
        let (heap, r) = step.0.caught(realm, step.2);
        (heap, step.1, r)
    }

    pub open spec fn push_home(self, heap: Heap, frame: Frame) -> (
        Heap,
        Machine,
        Result<CallStep, Error>,
    ) {
        match heap.home_object(frame.cold.function) {
            Err(e) => (heap, self, Err(e)),
            Ok(home) => {
                let (machine, r) = self.push_result(
                    frame,
                    JsValue::Object(home),
                    Error::internal("HomeObject resume PC overflow"),
                );
                Machine::step_done((heap, machine, r))
            },
        }
    }

    /// Replacing an object by its prototype.
    pub open spec fn super_of(self, heap: Heap, frame: Frame) -> (
        Heap,
        Machine,
        Result<CallStep, Error>,
    ) {
        match self.slots.peek(frame.window, 0) {
            Err(e) => (heap, self, Err(e)),
            Ok(JsValue::Object(object)) => if heap.belongs(object) {
                match heap.prototype(object) {
                    Err(e) => (heap, self, Err(e)),
                    Ok(prototype) => {
                        let (slots, r) = Machine::retop(
                            self.slots,
                            frame.window,
                            match prototype {
                                Some(prototype) => JsValue::Object(prototype),
                                None => JsValue::Null,
                            },
                        );
                        let machine = Machine { slots, ..self };
                        match r {
                            Err(e) => (heap, machine, Err(e)),
                            Ok(_) => {
                                let (machine, r) = machine.resumed(
                                    frame,
                                    Error::internal("super resume PC overflow"),
                                );
                                Machine::step_done((heap, machine, r))
                            },
                        }
                    },
                }
            } else {
                (heap, self, Ok(CallStep::Bridge))
            },
            Ok(_) => (heap, self, Ok(CallStep::Bridge)),
        }
    }

    /// Naming the function on top after a linked name.
    pub open spec fn set_name(
        self,
        heap: Heap,
        frame: Frame,
        function: FunctionBytecode,
        index: u32,
    ) -> (Heap, Machine, Result<CallStep, Error>) {
        match self.slots.peek(frame.window, 0) {
            Err(e) => (heap, self, Err(e)),
            Ok(value) => if index < function.property_key_atoms@.len() {
                match function.property_key_atoms@[index as int] {
                    None => (heap, self, Err(Error::internal("function name has no linked key"))),
                    Some(name) => self.named(heap.name_function(value, name), frame),
                }
            } else {
                (heap, self, Err(Error::internal("function name has no linked key")))
            },
        }
    }

    /// Ending an instruction that named a function.
    pub open spec fn named(self, outcome: (Heap, Result<(), Error>), frame: Frame) -> (
        Heap,
        Machine,
        Result<CallStep, Error>,
    ) {
        match outcome.1 {
            Err(e) => {
                let (heap, r) = outcome.0.throw_step(frame.realm, e);
                (heap, self, r)
            },
            Ok(_) => {
                let (machine, r) = self.resumed(frame, Error::internal("name resume PC overflow"));
                Machine::step_done((outcome.0, machine, r))
            },
        }
    }

    /// Naming the function on top after the key below it.
    pub open spec fn set_computed_name(self, heap: Heap, frame: Frame) -> (
        Heap,
        Machine,
        Result<CallStep, Error>,
    ) {
        match (self.slots.peek(frame.window, 1), self.slots.peek(frame.window, 0)) {
            (Err(e), _) => (heap, self, Err(e)),
            (_, Err(e)) => (heap, self, Err(e)),
            (Ok(key), Ok(value)) => match heap.key_name(key) {
                (heap, Err(e)) => {
                    let (heap, r) = heap.throw_step(frame.realm, e);
                    (heap, self, r)
                },
                (heap, Ok(name)) => self.named(heap.name_function(value, name), frame),
            },
        }
    }

    /// Entering a scope again whose variable is captured.
    pub open spec fn reset_captured(self, heap: Heap, frame: Frame, index: u16) -> (
        Heap,
        Machine,
        Result<CallStep, Error>,
    ) {
        match self.slots.local(frame.window, index) {
            Err(e) => (heap, self, Err(e)),
            Ok(FrameBinding::Captured { cell, reusable }) => match heap.reset_cell(cell, reusable) {
                (heap, Err(e)) => (heap, self, Err(e)),
                (heap, Ok(_)) => {
                    let (slots, r) = self.slots.set_local(
                        frame.window,
                        index,
                        FrameBinding::Captured { cell, reusable: false },
                    );
                    let machine = Machine { slots, ..self };
                    match r {
                        Err(e) => (heap, machine, Err(e)),
                        Ok(_) => {
                            let (machine, r) = machine.resumed(
                                frame,
                                Error::internal("reset resume PC overflow"),
                            );
                            Machine::step_done((heap, machine, r))
                        },
                    }
                },
            },
            Ok(_) => (heap, self, Err(Error::internal("captured reset lost its cell"))),
        }
    }

    /// Leaving a scope detaches its slot from the cell.
    pub open spec fn close_captured(
        self,
        heap: Heap,
        frame: Frame,
        function: FunctionBytecode,
        index: u16,
    ) -> (Heap, Machine, Result<CallStep, Error>) {
        if index >= function.local_definitions@.len() {
            (heap, self, Err(Error::internal("local definition index is out of bounds")))
        } else {
            let (slots, r) = self.slots.set_local(
                frame.window,
                index,
                if function.local_definitions@[index as int].is_lexical {
                    FrameBinding::Uninitialized
                } else {
                    FrameBinding::Direct(JsValue::Undefined)
                },
            );
            let machine = Machine { slots, ..self };
            match r {
                Err(e) => (heap, machine, Err(e)),
                Ok(_) => {
                    let (machine, r) = machine.resumed(
                        frame,
                        Error::internal("close resume PC overflow"),
                    );
                    Machine::step_done((heap, machine, r))
                },
            }
        }
    }

    /// Opening a catch region.
    pub open spec fn open_catch(
        self,
        heap: Heap,
        frame: Frame,
        function: FunctionBytecode,
        target: u32,
    ) -> (Heap, Machine, Result<CallStep, Error>) {
        if target >= function.code@.len() {
            (heap, self, Err(Error::internal("catch target is out of bounds")))
        } else {
            let (machine, r) = Machine {
                regions: self.regions.push(
                    VmUnwindRegion::Catch {
                        target: target as usize,
                        stack_depth: self.slots.depth(frame.window) as usize,
                    },
                ),
                ..self
            }.resumed(frame, Error::internal("catch resume PC overflow"));
            Machine::step_done((heap, machine, r))
        }
    }

    /// The innermost region of a frame.
    pub open spec fn innermost(self, frame: Frame) -> Option<VmUnwindRegion> {
        if self.regions.len() > frame.region_base {
            Some(self.regions.last())
        } else {
            None
        }
    }

    /// Closing the innermost catch region, keeping the top operand or nothing.
    pub open spec fn close_catch(self, heap: Heap, frame: Frame, function: FunctionBytecode, nip: bool) -> (
        Heap,
        Machine,
        Result<CallStep, Error>,
    ) {
        match self.innermost(frame) {
            Some(VmUnwindRegion::Catch { stack_depth, .. }) => {
                let depth = self.slots.depth(frame.window);
                if !nip {
                    if depth != stack_depth {
                        (
                            heap,
                            self,
                            Err(Error::internal("DropCatch did not reach its catch entry depth")),
                        )
                    } else {
                        self.region_closed(heap, frame, (self.slots, Ok(())))
                    }
                } else if depth <= stack_depth {
                    (
                        heap,
                        self,
                        Err(Error::internal("NipCatch has no value above its catch marker")),
                    )
                } else if !(frame.window.locals_at + function.local_definitions@.len()
                    == frame.window.floor && frame.window.floor <= self.slots.values.len()) {
                    (
                        heap,
                        self,
                        Err(
                            Error::internal(
                                "reusable captured-local flags disagree with the frame",
                            ),
                        ),
                    )
                } else {
                    self.region_closed(
                        heap,
                        frame,
                        self.slots.reuse_captured(
                            frame.window,
                            frame.window.locals_at as int,
                        ).nip_to(frame, stack_depth as nat),
                    )
                }
            },
            _ => (
                heap,
                self,
                Err(Error::internal("catch cleanup has no innermost catch region")),
            ),
        }
    }

    pub open spec fn region_closed(
        self,
        heap: Heap,
        frame: Frame,
        slots: (Slots, Result<(), Error>),
    ) -> (Heap, Machine, Result<CallStep, Error>) {
        let machine = Machine { slots: slots.0, ..self };
        match slots.1 {
            Err(e) => (heap, machine, Err(e)),
            Ok(_) => {
                let (machine, r) = Machine {
                    regions: self.regions.drop_last(),
                    ..machine
                }.resumed(frame, Error::internal("catch resume PC overflow"));
                Machine::step_done((heap, machine, r))
            },
        }
    }

    pub open spec fn throw_top(self, heap: Heap, frame: Frame) -> (
        Heap,
        Machine,
        Result<CallStep, Error>,
    ) {
        let (slots, r) = self.slots.pop(frame.window);
        let machine = Machine { slots, ..self };
        match r {
            Err(e) => (heap, machine, Err(e)),
            Ok(value) => (heap, machine, Ok(CallStep::Complete(Completion::Throw(value)))),
        }
    }

    /// A binding instruction on a cell.
    pub open spec fn cell_binding(
        self,
        heap: Heap,
        frame: Frame,
        function: FunctionBytecode,
        source: BindingSource,
        index: u16,
        write: bool,
        checked: bool,
        keep: bool,
    ) -> (Heap, Machine, Result<CallStep, Error>) {
        match Machine::binding_access(
            heap,
            self.slots,
            frame,
            function,
            source,
            index,
            write,
            checked,
            keep,
        ) {
            (heap, slots, Err(e)) => {
                let (heap, r) = heap.throw_step(frame.realm, e);
                (heap, Machine { slots, ..self }, r)
            },
            (heap, slots, Ok(_)) => {
                let (machine, r) = Machine { slots, ..self }.resumed(
                    frame,
                    Error::internal("closure access resume PC overflow"),
                );
                Machine::step_done((heap, machine, r))
            },
        }
    }

    /// A read or write of a local in its dead zone.
    pub open spec fn dead_zone(
        self,
        heap: Heap,
        frame: Frame,
        function: FunctionBytecode,
        index: u16,
    ) -> (Heap, Machine, Result<CallStep, Error>) {
        if index >= function.local_definitions@.len() {
            (heap, self, Err(Error::internal("local definition index is out of bounds")))
        } else {
            let (heap, r) = heap.throw_step(
                frame.realm,
                Error::uninitialized(
                    if function.metadata.strip_variable_debug {
                        None
                    } else {
                        function.local_definitions@[index as int].name
                    },
                ),
            );
            (heap, self, r)
        }
    }

    /// Binding `this` of a derived constructor to the top operand.
    pub open spec fn bind_derived(
        self,
        heap: Heap,
        frame: Frame,
        function: FunctionBytecode,
        index: u16,
    ) -> (Heap, Machine, Result<CallStep, Error>) {
        if index >= function.local_definitions@.len() {
            (heap, self, Err(Error::internal("local definition index is out of bounds")))
        } else {
            let (slots, input) = self.slots.pop(frame.window);
            let popped = Machine { slots, ..self };
            match input {
                Err(e) => (heap, popped, Err(e)),
                Ok(value) => match slots.local(frame.window, index) {
                    Err(e) => (heap, popped, Err(e)),
                    Ok(binding) => match Machine::derived_bound(
                        heap,
                        function.local_definitions@[index as int],
                        binding,
                        value,
                    ) {
                        (heap, Err(e)) => {
                            let (heap, r) = heap.throw_step(frame.realm, e);
                            (heap, popped, r)
                        },
                        (heap, Ok(replacement)) => {
                            let (slots, r) = match replacement {
                                None => (slots, Ok(())),
                                Some(binding) => slots.set_local(frame.window, index, binding),
                            };
                            let machine = Machine { slots, ..self };
                            match r {
                                Err(e) => (heap, machine, Err(e)),
                                Ok(_) => {
                                    let (machine, r) = machine.resumed(
                                        frame,
                                        Error::internal("initialization resume PC overflow"),
                                    );
                                    Machine::step_done((heap, machine, r))
                                },
                            }
                        },
                    },
                },
            }
        }
    }

    /// Returning from a derived constructor.
    pub open spec fn return_derived(
        self,
        heap: Heap,
        frame: Frame,
        function: FunctionBytecode,
        index: u16,
    ) -> (Heap, Machine, Result<CallStep, Error>) {
        if index >= function.local_definitions@.len() {
            (heap, self, Err(Error::internal("local definition index is out of bounds")))
        } else {
            let (slots, input) = self.slots.pop(frame.window);
            let popped = Machine { slots, ..self };
            match input {
                Err(e) => (heap, popped, Err(e)),
                Ok(value) => match slots.local(frame.window, index) {
                    Err(e) => (heap, popped, Err(e)),
                    Ok(binding) => match Machine::derived_return(
                        heap,
                        frame.cold.caller_realm,
                        function.local_definitions@[index as int],
                        binding,
                        value,
                    ) {
                        (heap, Err(e)) => (heap, popped, Err(e)),
                        (heap, Ok(completion)) => (
                            heap,
                            popped,
                            Ok(CallStep::Complete(completion)),
                        ),
                    },
                },
            }
        }
    }

    /// Boxing a primitive receiver, once per frame.
    pub open spec fn normalize_this(self, heap: Heap, frame: Frame) -> (
        Heap,
        Machine,
        Result<CallStep, Error>,
    ) {
        match heap.to_object(frame.realm, frame.cold.input.this_value) {
            (heap, Err(e)) => (heap, self, Err(e)),
            (heap, Ok(NativeConversion::Throw(_))) => (
                heap,
                self,
                Err(Error::internal("non-null primitive this boxing threw")),
            ),
            (heap, Ok(NativeConversion::Value(object))) => (
                heap,
                Machine {
                    frames: self.frames.stored(
                        Frame {
                            cold: FrameCold {
                                normalized_this: Some(JsValue::Object(object)),
                                ..frame.cold
                            },
                            ..frame
                        },
                    ),
                    ..self
                },
                Ok(CallStep::Entered),
            ),
        }
    }

    /// A frame operation, if the exit is one.
    pub open spec fn frame_step(self, heap: Heap, id: FrameId, exit: RunExit) -> (
        Heap,
        Machine,
        Result<Option<CallStep>, Error>,
    ) {
        match self.frames.current(id) {
            Err(e) => (heap, self, Err(e)),
            Ok(frame) => match heap.function_at(frame.executable) {
                Err(e) => (heap, self, Err(e)),
                Ok(function) => match self.frame_operation(heap, id, frame, function, exit) {
                    None => (heap, self, Ok(None)),
                    Some((heap, machine, Ok(step))) => (heap, machine, Ok(Some(step))),
                    Some((heap, machine, Err(e))) => (heap, machine, Err(e)),
                },
            },
        }
    }

    pub open spec fn frame_operation(
        self,
        heap: Heap,
        id: FrameId,
        frame: Frame,
        function: FunctionBytecode,
        exit: RunExit,
    ) -> Option<(Heap, Machine, Result<CallStep, Error>)> {
        match exit {
            RunExit::ReleaseOperand { keep_top } => Some(
                match self.release_operand(heap, id, keep_top) {
                    (heap, machine, Ok(_)) => (heap, machine, Ok(CallStep::Entered)),
                    (heap, machine, Err(e)) => (heap, machine, Err(e)),
                },
            ),
            RunExit::HomeObject => Some(self.push_home(heap, frame)),
            RunExit::GetSuper => Some(self.super_of(heap, frame)),
            RunExit::BindingError { index, redeclaration } => Some(
                match Heap::binding_error(function, index, redeclaration) {
                    Err(e) => (heap, self, Err(e)),
                    Ok(error) => {
                        let (heap, r) = heap.throw_step(frame.realm, error);
                        (heap, self, r)
                    },
                },
            ),
            RunExit::StrictEquality(negate) => {
                let (machine, r) = self.compared(heap, id, negate);
                Some(Machine::step_done((heap, machine, r)))
            },
            RunExit::Arguments(mapped) => Some(
                Machine::step_done(self.push_arguments(heap, id, mapped)),
            ),
            RunExit::Rest(from) => Some(Machine::step_done(self.push_rest(heap, id, from))),
            RunExit::SetName(index) => Some(self.set_name(heap, frame, function, index)),
            RunExit::SetComputedName => Some(self.set_computed_name(heap, frame)),
            RunExit::InstantiateClosure(index) => Some(
                Machine::step_done(self.instantiate(heap, id, index)),
            ),
            RunExit::ResetCaptured(index) => Some(self.reset_captured(heap, frame, index)),
            RunExit::CloseCaptured(index) => Some(
                self.close_captured(heap, frame, function, index),
            ),
            RunExit::Catch(target) => Some(self.open_catch(heap, frame, function, target)),
            RunExit::DropCatch => Some(self.close_catch(heap, frame, function, false)),
            RunExit::NipCatch => Some(self.close_catch(heap, frame, function, true)),
            RunExit::Throw => Some(self.throw_top(heap, frame)),
            RunExit::Binding { source, index, write, checked, keep } => Some(
                self.cell_binding(heap, frame, function, source, index, write, checked, keep),
            ),
            RunExit::LexicalUninitialized(index) => Some(
                self.dead_zone(heap, frame, function, index),
            ),
            RunExit::InitializeDerived(index) => Some(
                self.bind_derived(heap, frame, function, index),
            ),
            RunExit::ReturnDerived(index) => Some(
                self.return_derived(heap, frame, function, index),
            ),
            RunExit::NormalizeThis => Some(self.normalize_this(heap, frame)),
            _ => None,
        }
    }
}

impl Slots {
    /// Dropping operands down to `depth` and keeping the top one.
    pub open spec fn nip_to(self, frame: Frame, depth: nat) -> (Slots, Result<(), Error>) {
        let (popped, top) = self.pop(frame.window);
        match top {
            Err(e) => (popped, Err(e)),
            Ok(value) => {
                let (cut, r) = popped.discard_to(frame.window, depth);
                match r {
                    Err(e) => (cut, Err(e)),
                    Ok(_) => cut.push(value),
                }
            },
        }
    }
}

impl Runtime {
    fn home_object(&self, function: ObjectRef) -> (r: Result<ObjectRef, Error>)
        ensures
            r == self@.home_object(function),
    {
        let object = self.object(function)?;
        match object.payload {
            ObjectPayload::BytecodeFunction(data) => match data.home {
                Some(home) => Ok(home),
                None => Err(Error::internal("bytecode requested an uninstalled HomeObject")),
            },
            _ => Err(Error::internal("bytecode requested an uninstalled HomeObject")),
        }
    }

    pub fn key_name(&mut self, key: JsValue) -> (r: Result<Atom, Error>)
        requires
            old(self).wf(),
        ensures
            final(self).wf(),
            (final(self)@, r) == old(self)@.key_name(key),
    {
        match key {
            JsValue::Symbol(symbol) => {
                if symbol.index >= self.symbols.len() {
                    return Err(Error::stale());
                }
                match self.symbols[symbol.index] {
                    None => Ok(ATOM_EMPTY),
                    Some(description) => {
                        let mut text: Vec<u16> = vec![91];
                        let inner = self.text(description);
                        append_text(&mut text, &inner);
                        text.push(93);
                        assert(text@ =~= seq![91u16] + self@.text_at(description) + seq![93u16]);
                        Ok(self.intern(text))
                    },
                }
            },
            _ => match self.to_js_string(key)? {
                JsValue::String(atom) => Ok(atom),
                _ => Err(Error::internal("object is not a primitive")),
            },
        }
    }

    pub fn name_function(&mut self, value: JsValue, name: Atom) -> (r: Result<(), Error>)
        requires
            old(self).wf(),
        ensures
            final(self).wf(),
            (final(self)@, r) == old(self)@.name_function(value, name),
    {
        match value {
            JsValue::Object(object) => {
                if self.has_own_property(object, PropertyKey::String(ATOM_NAME))? {
                    return Ok(());
                }
                let accepted = self.define_own_property(
                    object,
                    PropertyKey::String(ATOM_NAME),
                    PropertySlot::Data {
                        value: JsValue::String(name),
                        writable: false,
                        enumerable: false,
                        configurable: true,
                    },
                )?;
                if accepted {
                    Ok(())
                } else {
                    Err(Error::new(ErrorKind::Type, "property is not configurable"))
                }
            },
            _ => Err(Error::new(ErrorKind::Type, "not an object")),
        }
    }
}

fn binding_error(function: &FunctionBytecode, index: u16, redeclaration: bool) -> (r: Result<
    Error,
    Error,
>)
    ensures
        r == Heap::binding_error(*function, index, redeclaration),
{
    if (index as usize) < function.property_key_atoms.len() {
        let name = function.property_key_atoms[index as usize];
        Ok(
            if redeclaration {
                Error::named(ErrorKind::Syntax, "redeclaration of '", name, "'")
            } else {
                Error::read_only(name)
            },
        )
    } else {
        Err(Error::internal("binding error name is out of bounds"))
    }
}

impl RunningExecution {
    fn push_home(&mut self, runtime: &Runtime, frame: Frame) -> (r: Result<CallStep, Error>)
        requires
            old(self)@.frames.frames.len() > 0,
        ensures
            (runtime@, final(self)@, r) == old(self)@.push_home(runtime@, frame),
    {
        let home = runtime.home_object(frame.cold.function)?;
        self.push_result(
            frame,
            JsValue::Object(home),
            Error::internal("HomeObject resume PC overflow"),
        )?;
        Ok(CallStep::Entered)
    }

    fn super_of(&mut self, runtime: &Runtime, frame: Frame) -> (r: Result<CallStep, Error>)
        requires
            old(self)@.frames.frames.len() > 0,
        ensures
            (runtime@, final(self)@, r) == old(self)@.super_of(runtime@, frame),
    {
        match self.slots.peek(frame.window, 0)? {
            JsValue::Object(object) => {
                if object.domain != runtime.domain_id() {
                    return Ok(CallStep::Bridge);
                }
                let value = match runtime.get_prototype_of(object)? {
                    Some(prototype) => JsValue::Object(prototype),
                    None => JsValue::Null,
                };
                let _ = self.slots.pop(frame.window)?;
                self.slots.push(value)?;
                self.resume_after(frame, Error::internal("super resume PC overflow"))?;
                Ok(CallStep::Entered)
            },
            _ => Ok(CallStep::Bridge),
        }
    }

    fn named(&mut self, runtime: &mut Runtime, outcome: Result<(), Error>, frame: Frame) -> (r: Result<
        CallStep,
        Error,
    >)
        requires
            old(runtime).wf(),
            old(self)@.frames.frames.len() > 0,
        ensures
            final(runtime).wf(),
            (final(runtime)@, final(self)@, r) == old(self)@.named(
                (old(runtime)@, outcome),
                frame,
            ),
    {
        match outcome {
            Err(e) => runtime.throw_step(frame.realm, e),
            Ok(_) => {
                self.resume_after(frame, Error::internal("name resume PC overflow"))?;
                Ok(CallStep::Entered)
            },
        }
    }

    fn set_name(&mut self, runtime: &mut Runtime, frame: Frame, index: u32) -> (r: Result<
        CallStep,
        Error,
    >)
        requires
            old(runtime).wf(),
            frame.executable < old(runtime)@.code.len(),
            old(self)@.frames.frames.len() > 0,
        ensures
            final(runtime).wf(),
            (final(runtime)@, final(self)@, r) == old(self)@.set_name(
                old(runtime)@,
                frame,
                old(runtime)@.code[frame.executable as int],
                index,
            ),
    {
        let value = self.slots.peek(frame.window, 0)?;
        let atoms = &runtime.code[frame.executable].property_key_atoms;
        if index as usize >= atoms.len() {
            return Err(Error::internal("function name has no linked key"));
        }
        let name: usize = match atoms[index as usize] {
            Some(name) => name,
            None => {
                return Err(Error::internal("function name has no linked key"));
            },
        };
        let outcome = runtime.name_function(value, name);
        self.named(runtime, outcome, frame)
    }

    fn set_computed_name(&mut self, runtime: &mut Runtime, frame: Frame) -> (r: Result<
        CallStep,
        Error,
    >)
        requires
            old(runtime).wf(),
            old(self)@.frames.frames.len() > 0,
        ensures
            final(runtime).wf(),
            (final(runtime)@, final(self)@, r) == old(self)@.set_computed_name(
                old(runtime)@,
                frame,
            ),
    {
        let key = self.slots.peek(frame.window, 1)?;
        let value = self.slots.peek(frame.window, 0)?;
        match runtime.key_name(key) {
            Err(e) => runtime.throw_step(frame.realm, e),
            Ok(name) => {
                let outcome = runtime.name_function(value, name);
                self.named(runtime, outcome, frame)
            },
        }
    }

    fn reset_captured(&mut self, runtime: &mut Runtime, frame: Frame, index: u16) -> (r: Result<
        CallStep,
        Error,
    >)
        requires
            old(runtime).wf(),
            old(self)@.frames.frames.len() > 0,
        ensures
            final(runtime).wf(),
            (final(runtime)@, final(self)@, r) == old(self)@.reset_captured(
                old(runtime)@,
                frame,
                index,
            ),
    {
        match self.slots.local(frame.window, index)? {
            FrameBinding::Captured { cell, reusable } => {
                runtime.reset_captured_binding(cell, reusable)?;
                self.slots.set_local(
                    frame.window,
                    index,
                    FrameBinding::Captured { cell, reusable: false },
                )?;
                self.resume_after(frame, Error::internal("reset resume PC overflow"))?;
                Ok(CallStep::Entered)
            },
            _ => Err(Error::internal("captured reset lost its cell")),
        }
    }

    fn close_captured(&mut self, runtime: &Runtime, frame: Frame, index: u16) -> (r: Result<
        CallStep,
        Error,
    >)
        requires
            frame.executable < runtime@.code.len(),
            old(self)@.frames.frames.len() > 0,
        ensures
            (runtime@, final(self)@, r) == old(self)@.close_captured(
                runtime@,
                frame,
                runtime@.code[frame.executable as int],
                index,
            ),
    {
        let definition = definition_at(&runtime.code[frame.executable], index)?;
        let binding = if definition.is_lexical {
            FrameBinding::Uninitialized
        } else {
            FrameBinding::Direct(JsValue::Undefined)
        };
        self.slots.set_local(frame.window, index, binding)?;
        self.resume_after(frame, Error::internal("close resume PC overflow"))?;
        Ok(CallStep::Entered)
    }

    fn open_catch(&mut self, runtime: &Runtime, frame: Frame, target: u32) -> (r: Result<
        CallStep,
        Error,
    >)
        requires
            frame.executable < runtime@.code.len(),
            old(self)@.frames.frames.len() > 0,
        ensures
            (runtime@, final(self)@, r) == old(self)@.open_catch(
                runtime@,
                frame,
                runtime@.code[frame.executable as int],
                target,
            ),
    {
        if target as usize >= runtime.code[frame.executable].code.len() {
            return Err(Error::internal("catch target is out of bounds"));
        }
        let stack_depth: usize = self.slots.depth(frame.window);
        self.regions.push(VmUnwindRegion::Catch { target: target as usize, stack_depth });
        self.resume_after(frame, Error::internal("catch resume PC overflow"))?;
        Ok(CallStep::Entered)
    }

    fn close_catch(&mut self, runtime: &Runtime, frame: Frame, nip: bool) -> (r: Result<
        CallStep,
        Error,
    >)
        requires
            frame.executable < runtime@.code.len(),
            old(self)@.frames.frames.len() > 0,
        ensures
            (runtime@, final(self)@, r) == old(self)@.close_catch(
                runtime@,
                frame,
                runtime@.code[frame.executable as int],
                nip,
            ),
    {
        let stack_depth: usize = match self.innermost(frame) {
            Some(VmUnwindRegion::Catch { stack_depth, .. }) => stack_depth,
            _ => {
                return Err(Error::internal("catch cleanup has no innermost catch region"));
            },
        };
        let depth: usize = self.slots.depth(frame.window);
        if !nip {
            if depth != stack_depth {
                return Err(Error::internal("DropCatch did not reach its catch entry depth"));
            }
        } else {
            if depth <= stack_depth {
                return Err(Error::internal("NipCatch has no value above its catch marker"));
            }
            prepare_captured_reuse(runtime, frame, &mut self.slots)?;
            let value = self.slots.pop(frame.window)?;
            self.slots.discard_to(frame.window, stack_depth)?;
            self.slots.push(value)?;
        }
        let _ = self.regions.pop();
        self.resume_after(frame, Error::internal("catch resume PC overflow"))?;
        Ok(CallStep::Entered)
    }

    /// The innermost region of a frame.
    pub fn innermost(&self, frame: Frame) -> (r: Option<VmUnwindRegion>)
        ensures
            r == self@.innermost(frame),
    {
        if self.regions.len() > frame.region_base {
            Some(self.regions[self.regions.len() - 1])
        } else {
            None
        }
    }

    fn cell_binding(
        &mut self,
        runtime: &mut Runtime,
        frame: Frame,
        source: BindingSource,
        index: u16,
        write: bool,
        checked: bool,
        keep: bool,
    ) -> (r: Result<CallStep, Error>)
        requires
            old(runtime).wf(),
            frame.executable < old(runtime)@.code.len(),
            old(self)@.frames.frames.len() > 0,
        ensures
            final(runtime).wf(),
            (final(runtime)@, final(self)@, r) == old(self)@.cell_binding(
                old(runtime)@,
                frame,
                old(runtime)@.code[frame.executable as int],
                source,
                index,
                write,
                checked,
                keep,
            ),
    {
        match binding_access(
            runtime,
            &mut self.slots,
            frame,
            source,
            index,
            write,
            checked,
            keep,
        ) {
            Err(e) => runtime.throw_step(frame.realm, e),
            Ok(_) => {
                self.resume_after(frame, Error::internal("closure access resume PC overflow"))?;
                Ok(CallStep::Entered)
            },
        }
    }

    fn bind_derived(&mut self, runtime: &mut Runtime, frame: Frame, index: u16) -> (r: Result<
        CallStep,
        Error,
    >)
        requires
            old(runtime).wf(),
            frame.executable < old(runtime)@.code.len(),
            old(self)@.frames.frames.len() > 0,
        ensures
            final(runtime).wf(),
            (final(runtime)@, final(self)@, r) == old(self)@.bind_derived(
                old(runtime)@,
                frame,
                old(runtime)@.code[frame.executable as int],
                index,
            ),
    {
        let definition = definition_at(&runtime.code[frame.executable], index)?;
        let value = self.slots.pop(frame.window)?;
        let binding = self.slots.local(frame.window, index)?;
        match initialize_derived_binding(runtime, definition, binding, value) {
            Err(e) => runtime.throw_step(frame.realm, e),
            Ok(replacement) => {
                match replacement {
                    Some(binding) => {
                        self.slots.set_local(frame.window, index, binding)?;
                    },
                    None => {},
                }
                self.resume_after(frame, Error::internal("initialization resume PC overflow"))?;
                Ok(CallStep::Entered)
            },
        }
    }

    fn return_derived(&mut self, runtime: &mut Runtime, frame: Frame, index: u16) -> (r: Result<
        CallStep,
        Error,
    >)
        requires
            old(runtime).wf(),
            frame.executable < old(runtime)@.code.len(),
        ensures
            final(runtime).wf(),
            (final(runtime)@, final(self)@, r) == old(self)@.return_derived(
                old(runtime)@,
                frame,
                old(runtime)@.code[frame.executable as int],
                index,
            ),
    {
        let definition = definition_at(&runtime.code[frame.executable], index)?;
        let value = self.slots.pop(frame.window)?;
        let binding = self.slots.local(frame.window, index)?;
        let completion = finish_derived_return(
            runtime,
            frame.cold.caller_realm,
            definition,
            binding,
            value,
        )?;
        Ok(CallStep::Complete(completion))
    }

    fn normalize_this(&mut self, runtime: &mut Runtime, frame: Frame) -> (r: Result<CallStep, Error>)
        requires
            old(runtime).wf(),
            old(self)@.frames.frames.len() > 0,
        ensures
            final(runtime).wf(),
            (final(runtime)@, final(self)@, r) == old(self)@.normalize_this(old(runtime)@, frame),
    {
        match runtime.native_to_object(frame.realm, frame.cold.input.this_value)? {
            NativeConversion::Throw(_) => Err(
                Error::internal("non-null primitive this boxing threw"),
            ),
            NativeConversion::Value(object) => {
                let mut frame = frame;
                frame.cold.normalized_this = Some(JsValue::Object(object));
                self.frames.store(frame);
                Ok(CallStep::Entered)
            },
        }
    }
}

fn definition_at(function: &FunctionBytecode, index: u16) -> (r: Result<LocalDefinition, Error>)
    ensures
        r == (if index < function.local_definitions@.len() {
            Ok(function.local_definitions@[index as int])
        } else {
            Err(Error::internal("local definition index is out of bounds"))
        }),
{
    if (index as usize) < function.local_definitions.len() {
        Ok(function.local_definitions[index as usize])
    } else {
        Err(Error::internal("local definition index is out of bounds"))
    }
}

fn entered(r: Result<(), Error>) -> (step: Result<CallStep, Error>)
    ensures
        step == (match r {
            Ok(_) => Ok(CallStep::Entered),
            Err(e) => Err(e),
        }),
{
    match r {
        Ok(_) => Ok(CallStep::Entered),
        Err(e) => Err(e),
    }
}

/// Perform a frame operation; nothing if the exit is none.
pub fn step(
    runtime: &mut Runtime,
    execution: &mut RunningExecution,
    id: FrameId,
    exit: RunExit,
) -> (r: Result<Option<CallStep>, Error>)
    requires
        old(runtime).wf(),
    ensures
        final(runtime).wf(),
        (final(runtime)@, final(execution)@, r) == old(execution)@.frame_step(
            old(runtime)@,
            id,
            exit,
        ),
{
    let frame = execution.frames.current(id)?;
    let _ = runtime.function_bytecode(frame.executable)?;
    let step = match exit {
        RunExit::ReleaseOperand { .. } => {
            let _ = direct::complete(runtime, execution, id, exit)?;
            CallStep::Entered
        },
        RunExit::HomeObject => execution.push_home(runtime, frame)?,
        RunExit::GetSuper => execution.super_of(runtime, frame)?,
        RunExit::BindingError { index, redeclaration } => {
            let error = binding_error(&runtime.code[frame.executable], index, redeclaration)?;
            runtime.throw_step(frame.realm, error)?
        },
        RunExit::StrictEquality(negate) => entered(
            strict_comparison(runtime, execution, id, negate),
        )?,
        RunExit::Arguments(mapped) => entered(push_arguments(runtime, execution, id, mapped))?,
        RunExit::Rest(from) => entered(push_rest(runtime, execution, id, from))?,
        RunExit::SetName(index) => execution.set_name(runtime, frame, index)?,
        RunExit::SetComputedName => execution.set_computed_name(runtime, frame)?,
        RunExit::InstantiateClosure(index) => entered(instantiate(runtime, execution, id, index))?,
        RunExit::ResetCaptured(index) => execution.reset_captured(runtime, frame, index)?,
        RunExit::CloseCaptured(index) => execution.close_captured(runtime, frame, index)?,
        RunExit::Catch(target) => execution.open_catch(runtime, frame, target)?,
        RunExit::DropCatch => execution.close_catch(runtime, frame, false)?,
        RunExit::NipCatch => execution.close_catch(runtime, frame, true)?,
        RunExit::Throw => CallStep::Complete(
            Completion::Throw(execution.slots.pop(frame.window)?),
        ),
        RunExit::Binding { source, index, write, checked, keep } => execution.cell_binding(
            runtime,
            frame,
            source,
            index,
            write,
            checked,
            keep,
        )?,
        RunExit::LexicalUninitialized(index) => {
            let function = &runtime.code[frame.executable];
            let definition = definition_at(function, index)?;
            let error = Error::uninitialized(
                if function.metadata.strip_variable_debug {
                    None
                } else {
                    definition.name
                },
            );
            runtime.throw_step(frame.realm, error)?
        },
        RunExit::InitializeDerived(index) => execution.bind_derived(runtime, frame, index)?,
        RunExit::ReturnDerived(index) => execution.return_derived(runtime, frame, index)?,
        RunExit::NormalizeThis => execution.normalize_this(runtime, frame)?,
        _ => {
            return Ok(None);
        },
    };
    Ok(Some(step))
}

/// A catch region that was opened and is dropped later, when it is the innermost
/// one again, leaves the regions as they were before it and touches no operand
/// at either end.  It is not dropped at any other depth than its own.
pub proof fn catch_regions_nest(
    machine: Machine,
    heap: Heap,
    id: FrameId,
    target: u32,
    later: Machine,
    later_heap: Heap,
)
    requires
        machine.frame_step(heap, id, RunExit::Catch(target)).2 == Ok::<Option<CallStep>, Error>(
            Some(CallStep::Entered),
        ),
        later.regions == machine.frame_step(heap, id, RunExit::Catch(target)).1.regions,
        machine.frames.current(id) matches Ok(opener) && later.frames.current(id) matches Ok(frame)
            && {
            &&& frame.window == opener.window
            &&& frame.region_base <= machine.regions.len()
            &&& frame.fault_pc < usize::MAX
            &&& later_heap.function_at(frame.executable) is Ok
            &&& machine.slots.depth(opener.window) <= usize::MAX
        },
    ensures
        ({
            let window = machine.frames.current(id)->Ok_0.window;
            let depth = machine.slots.depth(window);
            let (_, opened, _) = machine.frame_step(heap, id, RunExit::Catch(target));
            let (closed_heap, closed, r) = later.frame_step(later_heap, id, RunExit::DropCatch);
            &&& opened.slots == machine.slots
            &&& opened.regions == machine.regions.push(
                VmUnwindRegion::Catch { target: target as usize, stack_depth: depth as usize },
            )
            &&& closed.slots == later.slots
            &&& closed_heap == later_heap
            &&& if later.slots.depth(window) == depth {
                &&& r == Ok::<Option<CallStep>, Error>(Some(CallStep::Entered))
                &&& closed.regions == machine.regions
            } else {
                &&& r is Err
                &&& closed == later
            }
        }),
{
    assert(later.regions.drop_last() =~= machine.regions);
}

/// A throw instruction throws the top operand and takes it off.
pub proof fn throws_take_the_top(machine: Machine, heap: Heap, frame: Frame, value: JsValue)
    requires
        machine.slots.peek(frame.window, 0) == Ok::<JsValue, Error>(value),
    ensures
        ({
            let (after, m, r) = machine.throw_top(heap, frame);
            &&& after == heap
            &&& r == Ok::<CallStep, Error>(CallStep::Complete(Completion::Throw(value)))
            &&& m.slots.values == machine.slots.values.drop_last()
        }),
{
}

/// The object behind `super` is the prototype of the object on top, or null
/// where it has none; the home of a function is the object that its methods
/// were defined on.
pub proof fn super_is_the_prototype_of_the_home(
    machine: Machine,
    heap: Heap,
    id: FrameId,
    frame: Frame,
    object: ObjectRef,
    home: ObjectRef,
    data: crate::heap::BytecodeFunctionData,
)
    requires
        machine.frames.current(id) == Ok::<Frame, Error>(frame),
        frame.fault_pc < usize::MAX,
        machine.slots.values.len() < machine.slots.limit,
        machine.slots.peek(frame.window, 0) == Ok::<JsValue, Error>(JsValue::Object(object)),
        object.domain == heap.domain,
        object.index < heap.objects.len(),
    ensures
        ({
            let (after, m, r) = machine.super_of(heap, frame);
            &&& after == heap
            &&& r == Ok::<CallStep, Error>(CallStep::Entered)
            &&& m.slots.values == machine.slots.values.drop_last().push(
                FrameBinding::Direct(
                    match heap.objects[object.index as int].prototype {
                        Some(prototype) => JsValue::Object(prototype),
                        None => JsValue::Null,
                    },
                ),
            )
            &&& m.frames.current(id) == Ok::<Frame, Error>(
                Frame { resume_pc: (frame.fault_pc + 1) as usize, ..frame },
            )
        }),
        frame.cold.function.index < heap.objects.len()
            && heap.objects[frame.cold.function.index as int].payload
            == ObjectPayload::BytecodeFunction(data) && data.home == Some(home) ==> {
            let (after, m, r) = machine.push_home(heap, frame);
            &&& after == heap
            &&& r == Ok::<CallStep, Error>(CallStep::Entered)
            &&& m.slots.values == machine.slots.values.push(
                FrameBinding::Direct(JsValue::Object(home)),
            )
        },
{
}

/// A function without a name of its own is named after its key: a text names it
/// as it is, a symbol by its description in square brackets, and a symbol
/// without one by the empty text.
pub proof fn keys_name_functions(heap: Heap, atom: Atom, symbol: crate::value::SymbolRef, description: Atom)
    requires
        Heap::pinned(heap.texts),
        heap.texts.len() < usize::MAX,
        symbol.index < heap.symbols.len(),
    ensures
        heap.key_name(JsValue::String(atom)) == (heap, Ok::<Atom, Error>(atom)),
        heap.symbols[symbol.index as int] == Some(description) ==> {
            let (after, r) = heap.key_name(JsValue::Symbol(symbol));
            r matches Ok(name) && {
                let text = after.text_at(name);
                &&& text.len() == heap.text_at(description).len() + 2
                &&& text[0] == '[' as u16
                &&& text.last() == ']' as u16
                &&& text.subrange(1, text.len() - 1) == heap.text_at(description)
            }
        },
        heap.symbols[symbol.index as int] is None ==> {
            let (after, r) = heap.key_name(JsValue::Symbol(symbol));
            r matches Ok(name) && after == heap && heap.text_at(name) == Seq::<u16>::empty()
        },
{
    let text = seq![91u16] + heap.text_at(description) + seq![93u16];
    crate::text::interning_names_the_text(heap.texts, text);
    assert(text.subrange(1, text.len() - 1) =~= heap.text_at(description));
    reveal_strlit("");
    assert(Texts::units("") =~= Seq::<u16>::empty());
}

/// Naming a function gives it a read-only name that is not enumerable, and
/// leaves a name that it has.
pub proof fn functions_are_named_once(heap: Heap, object: ObjectRef, name: Atom, other: Atom)
    requires
        object.index < heap.objects.len(),
        heap.name_function(JsValue::Object(object), name).1 is Ok,
    ensures
        ({
            let (after, _) = heap.name_function(JsValue::Object(object), name);
            &&& after.name_function(JsValue::Object(object), other) == (after, Ok::<(), Error>(()))
            &&& heap.find(object, PropertyKey::String(ATOM_NAME)) is Some ==> after == heap
            &&& heap.find(object, PropertyKey::String(ATOM_NAME)) is None ==> after.own_property(
                object,
                PropertyKey::String(ATOM_NAME),
            ) == Ok::<Option<crate::object::PropertyDescriptor>, Error>(
                Some(
                    crate::object::PropertyDescriptor::Data {
                        value: JsValue::String(name),
                        writable: false,
                        enumerable: false,
                        configurable: true,
                    },
                ),
            )
        }),
{
    let key = PropertyKey::String(ATOM_NAME);
    if heap.find(object, key) is None {
        crate::object::defined_properties_are_found(
            heap,
            object,
            key,
            Heap::hidden_slot(JsValue::String(name), false, true),
        );
    }
}

/// A receiver that is boxed is boxed once per frame: the frame keeps the object
/// and its instruction is done again with it.
pub proof fn receivers_are_boxed_once(
    machine: Machine,
    heap: Heap,
    id: FrameId,
    frame: Frame,
)
    requires
        machine.frames.current(id) == Ok::<Frame, Error>(frame),
        frame.realm < heap.realms.len(),
        !(frame.cold.input.this_value is Object) && !(frame.cold.input.this_value is Undefined)
            && !(frame.cold.input.this_value is Null),
    ensures
        ({
            let (after, m, r) = machine.normalize_this(heap, frame);
            &&& r == Ok::<CallStep, Error>(CallStep::Entered)
            &&& m.slots == machine.slots
            &&& m.frames.current(id) matches Ok(kept) && kept.resume_pc == frame.resume_pc
                && kept.cold.normalized_this == Some(JsValue::Object(heap.next_ref()))
                && kept.cold.input == frame.cold.input
            &&& after.objects.last().payload == ObjectPayload::Primitive(frame.cold.input.this_value)
        }),
{
}

/// Leaving a scope detaches its captured variable from the slot, so that
/// closures keep it: a lexical slot returns to its dead zone, any other to
/// undefined.  The cell itself is not touched.
pub proof fn closed_scopes_leave_their_cells(
    machine: Machine,
    heap: Heap,
    id: FrameId,
    frame: Frame,
    function: FunctionBytecode,
    index: u16,
)
    requires
        machine.frames.current(id) == Ok::<Frame, Error>(frame),
        frame.fault_pc < usize::MAX,
        index < function.local_definitions@.len(),
        machine.slots.local(frame.window, index) is Ok,
    ensures
        ({
            let (after, m, r) = machine.close_captured(heap, frame, function, index);
            &&& after == heap
            &&& r == Ok::<CallStep, Error>(CallStep::Entered)
            &&& m.slots.local(frame.window, index) == Ok::<FrameBinding, Error>(
                if function.local_definitions@[index as int].is_lexical {
                    FrameBinding::Uninitialized
                } else {
                    FrameBinding::Direct(JsValue::Undefined)
                },
            )
        }),
{
}

/// Entering a scope again whose captured variable was left behind puts it back
/// into its dead zone; a variable that closures may still use is not reused.
pub proof fn reentered_scopes_start_in_their_dead_zone(
    machine: Machine,
    heap: Heap,
    id: FrameId,
    frame: Frame,
    index: u16,
    cell: usize,
)
    requires
        machine.frames.current(id) == Ok::<Frame, Error>(frame),
        frame.fault_pc < usize::MAX,
        cell < heap.cells.len(),
    ensures
        machine.slots.local(frame.window, index) == Ok::<FrameBinding, Error>(
            FrameBinding::Captured { cell, reusable: true },
        ) ==> {
            let (after, m, r) = machine.reset_captured(heap, frame, index);
            &&& r == Ok::<CallStep, Error>(CallStep::Entered)
            &&& after.cells[cell as int].value is None
            &&& after.cells[cell as int].is_const == heap.cells[cell as int].is_const
            &&& forall|other: int|
                0 <= other < heap.cells.len() && other != cell ==> #[trigger] after.cells[other]
                    == heap.cells[other]
            &&& m.slots.local(frame.window, index) == Ok::<FrameBinding, Error>(
                FrameBinding::Captured { cell, reusable: false },
            )
        },
        machine.slots.local(frame.window, index) == Ok::<FrameBinding, Error>(
            FrameBinding::Captured { cell, reusable: false },
        ) ==> {
            let (after, m, r) = machine.reset_captured(heap, frame, index);
            after == heap && m == machine && r is Err
        },
{
}

/// The error of a refused declaration or write: writing a constant is a type
/// error, declaring a name again a syntax error, and both say the name.
pub proof fn refused_bindings_say_their_name(heap: Heap, function: FunctionBytecode, index: u16, name: Atom)
    requires
        index < function.property_key_atoms@.len(),
        function.property_key_atoms@[index as int] == Some(name),
    ensures
        Heap::binding_error(function, index, false) matches Ok(e) && e.kind is Type
            && heap.error_text(e) == Texts::units("'") + heap.text_at(name) + Texts::units(
            "' is read-only",
        ),
        Heap::binding_error(function, index, true) matches Ok(e) && e.kind is Syntax
            && heap.error_text(e) == Texts::units("redeclaration of '") + heap.text_at(name)
            + Texts::units("'"),
{
}

/// Dropping or nipping an object releases it, and leaves the operands that the
/// instruction names.
pub proof fn nipped_operands_leave_the_top(
    slots: Slots,
    frame: Frame,
    depth: nat,
    value: JsValue,
)
    requires
        slots.peek(frame.window, 0) == Ok::<JsValue, Error>(value),
        depth < slots.depth(frame.window),
        slots.values.len() <= slots.limit,
        slots.nip_to(frame, depth).1 is Ok,
    ensures
        slots.nip_to(frame, depth).0.peek(frame.window, 0) == Ok::<JsValue, Error>(value),
        slots.nip_to(frame, depth).0.depth(frame.window) == depth + 1,
        forall|i: int|
            0 <= i < frame.window.floor + depth ==> #[trigger] slots.nip_to(
                frame,
                depth,
            ).0.values[i] == slots.values[i],
{
    let popped = slots.pop(frame.window).0;
    if popped.depth(frame.window) > depth {
        crate::unwind::discarding_takes_the_top(
            popped,
            frame.window,
            (popped.depth(frame.window) - depth) as nat,
        );
    }
}

} // verus!
