//! Array literal elements and spread lists.
use vstd::prelude::*;
use crate::array::MAX_LENGTH;
use crate::driver::CallStep;
use crate::error::{Error, ErrorKind};
use crate::execution::{Machine, PendingCall, PendingRequest, RunningExecution};
use crate::frame::{Frame, FrameId, ReturnTarget, ReturnValue};
use crate::heap::{Heap, HeapObject, ObjectPayload, PropertySlot};
use crate::object::{OrdinaryRead, PropertyDescriptor};
use crate::property_driver::index_below;
use crate::runtime::{Runtime, ATOM_LENGTH, SYMBOL_ITERATOR};
use crate::text::{index_text, Texts};
use crate::value::{Atom, JsValue, ObjectRef, PropertyKey, SymbolRef};

verus! {

impl Heap {
    /// An array's length after an element below `length` was defined.
    pub open spec fn grown(self, object: ObjectRef, length: nat) -> Heap {
        match self.find(object, PropertyKey::String(ATOM_LENGTH)) {
            Some(p) => match self.properties[p].slot {
                PropertySlot::Data { value, writable, enumerable, configurable } =>
                    match Heap::length_of(value) {
                    Some(n) => if n < length {
                        self.slot_replaced(
                            p,
                            PropertySlot::Data {
                                value: Heap::length_value(length),
                                writable,
                                enumerable,
                                configurable,
                            },
                        )
                    } else {
                        self
                    },
                    None => self,
                },
                _ => self,
            },
            None => self,
        }
    }

    /// Whether definitions go by a protocol of the object's own.
    pub open spec fn own_definitions(data: HeapObject) -> bool {
        data.payload is Proxy || data.payload is Primitive || data.payload is Other
    }

    /// Whether an array keeps its length, so that it takes no element at `index`.
    pub open spec fn length_refuses(self, object: ObjectRef, index: nat) -> bool {
        match self.find(object, PropertyKey::String(ATOM_LENGTH)) {
            Some(p) => match self.properties[p].slot {
                PropertySlot::Data { value, writable, .. } => !writable && (Heap::length_of(
                    value,
                ) matches Some(n) && index >= n),
                _ => false,
            },
            None => false,
        }
    }

    /// The array index that a key names.
    pub open spec fn element_index(self, key: PropertyKey) -> Option<nat> {
        match key {
            PropertyKey::String(atom) => match Texts::index(self.text_at(atom)) {
                Some(n) => if n < MAX_LENGTH {
                    Some(n)
                } else {
                    None
                },
                None => None,
            },
            PropertyKey::Symbol(_) => None,
        }
    }

    /// Defining an own element without running setters.
    pub open spec fn define_element(self, object: ObjectRef, key: PropertyKey, value: JsValue) -> (
        Heap,
        Result<bool, Error>,
    ) {
        match self.object_at(object) {
            Err(e) => (self, Err(e)),
            Ok(data) => match (data.payload, self.element_index(key)) {
                (ObjectPayload::Array, Some(n)) => if self.length_refuses(object, n) {
                    (self, Ok(false))
                } else {
                    match self.define(object, key, Heap::data_slot(value)) {
                        (heap, Ok(true)) => (heap.grown(object, n + 1), Ok(true)),
                        (heap, r) => (heap, r),
                    }
                },
                _ => self.define(object, key, Heap::data_slot(value)),
            },
        }
    }

    /// Defining the values from `from` on at `start` and above.
    pub open spec fn append_from(
        self,
        object: ObjectRef,
        start: nat,
        values: Seq<JsValue>,
        from: int,
    ) -> (Heap, Result<bool, Error>)
        decreases values.len() - from,
    {
        if from < 0 || from >= values.len() {
            (self, Ok(true))
        } else {
            match self.with_text(Texts::digits((start + from) as nat)).define_element(
                object,
                self.index_key((start + from) as nat),
                values[from],
            ) {
                (heap, Ok(true)) => heap.append_from(object, start, values, from + 1),
                (heap, r) => (heap, r),
            }
        }
    }

    pub open spec fn iterator_key(self) -> PropertyKey {
        PropertyKey::Symbol(SymbolRef { domain: self.domain, index: SYMBOL_ITERATOR })
    }

    /// The elements of a dense array that no iterator method hides.
    pub open spec fn plain_elements(self, value: JsValue) -> Option<Seq<JsValue>> {
        match value {
            JsValue::Object(object) => if self.belongs(object) && self.ordinary_read(
                object,
                self.iterator_key(),
                value,
            ) == Ok::<OrdinaryRead, Error>(OrdinaryRead::Complete(None)) {
                self.dense_values(object)
            } else {
                None
            },
            _ => None,
        }
    }
}

impl Machine {
    /// Defining the element `object[key] = value` of a literal.  The object
    /// and the key stay on the operands.
    pub open spec fn define_array_element(self, heap: Heap, id: FrameId) -> (
        Heap,
        Machine,
        Result<CallStep, Error>,
    ) {
        match self.frames.current(id) {
            Err(e) => (heap, self, Err(e)),
            Ok(frame) => match (
                self.slots.peek(frame.window, 2),
                self.slots.peek(frame.window, 1),
                self.slots.peek(frame.window, 0),
            ) {
                (Err(e), _, _) => (heap, self, Err(e)),
                (_, Err(e), _) => (heap, self, Err(e)),
                (_, _, Err(e)) => (heap, self, Err(e)),
                (Ok(JsValue::Object(object)), Ok(key), Ok(value)) => self.define_literal(
                    heap,
                    id,
                    frame,
                    object,
                    key,
                    value,
                ),
                (Ok(_), _, _) => {
                    let (heap, r) = heap.throw_step(
                        frame.realm,
                        Error::new(ErrorKind::Type, "not an object"),
                    );
                    (heap, self, r)
                },
            },
        }
    }

    /// Popping the value and leaving the definition to the embedder.
    pub open spec fn defer_definition(
        self,
        frame: Frame,
        id: FrameId,
        object: ObjectRef,
        key: JsValue,
        value: JsValue,
    ) -> (Machine, Result<CallStep, Error>) {
        let (slots, r) = self.slots.discard(frame.window, 1);
        let popped = Machine { slots, ..self };
        match r {
            Err(e) => (popped, Err(e)),
            Ok(_) => match popped.resumed(frame, Error::internal("element resume PC overflow")) {
                (machine, Err(e)) => (machine, Err(e)),
                (machine, Ok(_)) => (
                    Machine {
                        pending_call: Some(
                            PendingCall {
                                request: PendingRequest::Define { object, key, value },
                                return_to: ReturnTarget {
                                    value_use: ReturnValue::Discard,
                                    frame: id,
                                    tail: false,
                                    operation: None,
                                },
                            },
                        ),
                        ..machine
                    },
                    Ok(CallStep::Entered),
                ),
            },
        }
    }

    pub open spec fn define_literal(
        self,
        heap: Heap,
        id: FrameId,
        frame: Frame,
        object: ObjectRef,
        key: JsValue,
        value: JsValue,
    ) -> (Heap, Machine, Result<CallStep, Error>) {
        match heap.object_at(object) {
            Err(e) => (heap, self, Err(e)),
            Ok(data) => if key is Object || Heap::own_definitions(data) {
                let (machine, r) = self.defer_definition(frame, id, object, key, value);
                (heap, machine, r)
            } else {
                let (slots, r) = self.slots.discard(frame.window, 1);
                let popped = Machine { slots, ..self };
                match r {
                    Err(e) => (heap, popped, Err(e)),
                    Ok(_) => match heap.canonical_key(key) {
                        (heap, Err(e)) => {
                            let (heap, r) = heap.throw_step(frame.realm, e);
                            (heap, popped, r)
                        },
                        (heap, Ok(key)) => match heap.define_element(object, key, value) {
                            (heap, Err(e)) => (heap, popped, Err(e)),
                            (heap, Ok(false)) => {
                                let (heap, r) = heap.throw_step(
                                    frame.realm,
                                    Error::new(ErrorKind::Type, "property is not configurable"),
                                );
                                (heap, popped, r)
                            },
                            (heap, Ok(true)) => {
                                let (machine, r) = popped.resumed(
                                    frame,
                                    Error::internal("element resume PC overflow"),
                                );
                                match r {
                                    Err(e) => (heap, machine, Err(e)),
                                    Ok(_) => (heap, machine, Ok(CallStep::Entered)),
                                }
                            },
                        },
                    },
                }
            },
        }
    }

    /// Spreading a dense array into `array[index..]`; the array and the next
    /// index stay on the operands.
    pub open spec fn append_dense(self, heap: Heap, id: FrameId) -> (
        Heap,
        Machine,
        Result<CallStep, Error>,
    ) {
        match self.frames.current(id) {
            Err(e) => (heap, self, Err(e)),
            Ok(frame) => match (
                self.slots.peek(frame.window, 2),
                self.slots.peek(frame.window, 1),
                self.slots.peek(frame.window, 0),
            ) {
                (Err(e), _, _) => (heap, self, Err(e)),
                (_, Err(e), _) => (heap, self, Err(e)),
                (_, _, Err(e)) => (heap, self, Err(e)),
                (Ok(JsValue::Object(array)), Ok(JsValue::Int(index)), Ok(source)) =>
                    match heap.plain_elements(source) {
                    None => (heap, self, Ok(CallStep::Bridge)),
                    Some(values) => if index < 0 || index + values.len() > i32::MAX {
                        (heap, self, Ok(CallStep::Bridge))
                    } else {
                        match heap.append_from(array, index as nat, values, 0) {
                            (heap, Err(e)) => (heap, self, Err(e)),
                            (heap, Ok(false)) => {
                                let (heap, r) = heap.throw_step(
                                    frame.realm,
                                    Error::new(ErrorKind::Type, "property is not configurable"),
                                );
                                (heap, self, r)
                            },
                            (heap, Ok(true)) => {
                                let (slots, r) = Machine::retop2(
                                    self.slots,
                                    frame.window,
                                    JsValue::Int((index + values.len()) as i32),
                                );
                                let machine = Machine { slots, ..self };
                                match r {
                                    Err(e) => (heap, machine, Err(e)),
                                    Ok(_) => {
                                        let (machine, r) = machine.resumed(
                                            frame,
                                            Error::internal("append resume PC overflow"),
                                        );
                                        match r {
                                            Err(e) => (heap, machine, Err(e)),
                                            Ok(_) => (heap, machine, Ok(CallStep::Entered)),
                                        }
                                    },
                                }
                            },
                        }
                    },
                },
                _ => (heap, self, Ok(CallStep::Bridge)),
            },
        }
    }
}

impl Runtime {
    fn grow_length(&mut self, object: ObjectRef, length: usize)
        requires
            old(self).wf(),
        ensures
            final(self).wf(),
            final(self)@ == old(self)@.grown(object, length as nat),
    {
        match self.find_property(object, PropertyKey::String(ATOM_LENGTH)) {
            Some(p) => match self.properties[p].slot {
                PropertySlot::Data { value, writable, enumerable, configurable } => {
                    match Runtime::length_of(value) {
                        Some(n) => {
                            if n < length {
                                self.replace_slot(
                                    p,
                                    PropertySlot::Data {
                                        value: Runtime::length_value(length),
                                        writable,
                                        enumerable,
                                        configurable,
                                    },
                                );
                            }
                        },
                        None => {},
                    }
                },
                _ => {},
            },
            None => {},
        }
    }

    fn length_refuses(&self, object: ObjectRef, index: usize) -> (r: bool)
        ensures
            r == self@.length_refuses(object, index as nat),
    {
        match self.find_property(object, PropertyKey::String(ATOM_LENGTH)) {
            Some(p) => match self.properties[p].slot {
                PropertySlot::Data { value, writable, .. } => match Runtime::length_of(value) {
                    Some(n) => !writable && index >= n,
                    None => false,
                },
                _ => false,
            },
            None => false,
        }
    }

    pub(crate) fn element_index(&self, key: PropertyKey) -> (r: Option<usize>)
        ensures
            match r {
                Some(n) => self@.element_index(key) == Some(n as nat) && n < MAX_LENGTH,
                None => self@.element_index(key) is None,
            },
    {
        match key {
            PropertyKey::String(atom) => {
                let text = self.text(atom);
                index_below(&text, MAX_LENGTH)
            },
            PropertyKey::Symbol(_) => None,
        }
    }

    /// Define an own element without running setters.
    pub fn define_element(&mut self, object: ObjectRef, key: PropertyKey, value: JsValue) -> (r: Result<
        bool,
        Error,
    >)
        requires
            old(self).wf(),
        ensures
            final(self).wf(),
            (final(self)@, r) == old(self)@.define_element(object, key, value),
    {
        let data = self.object(object)?;
        let slot = PropertySlot::Data {
            value,
            writable: true,
            enumerable: true,
            configurable: true,
        };
        if data.payload != ObjectPayload::Array {
            return self.define_own_property(object, key, slot);
        }
        match self.element_index(key) {
            Some(n) => {
                if self.length_refuses(object, n) {
                    return Ok(false);
                }
                let accepted = self.define_own_property(object, key, slot)?;
                if accepted {
                    self.grow_length(object, n + 1);
                }
                Ok(accepted)
            },
            None => self.define_own_property(object, key, slot),
        }
    }

    fn append_values(&mut self, object: ObjectRef, start: usize, values: &Vec<JsValue>) -> (r: Result<
        bool,
        Error,
    >)
        requires
            old(self).wf(),
            start + values@.len() <= i32::MAX,
        ensures
            final(self).wf(),
            (final(self)@, r) == old(self)@.append_from(object, start as nat, values@, 0),
    {
        let mut i: usize = 0;
        while i < values.len()
            invariant
                self.wf(),
                i <= values@.len(),
                start + values@.len() <= i32::MAX,
                self@.append_from(object, start as nat, values@, i as int)
                    == old(self)@.append_from(object, start as nat, values@, 0),
            decreases values@.len() - i,
        {
            let text = index_text(start + i);
            let atom: usize = self.intern(text);
            if !self.define_element(object, PropertyKey::String(atom), values[i])? {
                return Ok(false);
            }
            i = i + 1;
        }
        Ok(true)
    }

    fn plain_elements(&self, value: JsValue) -> (r: Option<Vec<JsValue>>)
        ensures
            match r {
                Some(values) => self@.plain_elements(value) == Some(values@),
                None => self@.plain_elements(value) is None,
            },
    {
        match value {
            JsValue::Object(object) => {
                if object.domain != self.domain_id() {
                    return None;
                }
                let key = PropertyKey::Symbol(
                    SymbolRef { domain: self.domain_id(), index: SYMBOL_ITERATOR },
                );
                match self.prepare_ordinary_read(object, key, value) {
                    Ok(OrdinaryRead::Complete(None)) => self.dense_values(object),
                    _ => None,
                }
            },
            _ => None,
        }
    }
}

fn own_definitions(data: HeapObject) -> (r: bool)
    ensures
        r == Heap::own_definitions(data),
{
    match data.payload {
        ObjectPayload::Proxy { .. } | ObjectPayload::Primitive(_) | ObjectPayload::Other(_) => true,
        _ => false,
    }
}

impl RunningExecution {
    /// Pop the value of a definition and leave it to the embedder.
    fn defer_definition(
        &mut self,
        frame: Frame,
        id: FrameId,
        object: ObjectRef,
        key: JsValue,
        value: JsValue,
    ) -> (r: Result<CallStep, Error>)
        requires
            old(self)@.frames.frames.len() > 0,
        ensures
            (final(self)@, r) == old(self)@.defer_definition(frame, id, object, key, value),
    {
        self.slots.discard(frame.window, 1)?;
        self.resume_after(frame, Error::internal("element resume PC overflow"))?;
        self.pending_call = Some(
            PendingCall {
                request: PendingRequest::Define { object, key, value },
                return_to: ReturnTarget {
                    value_use: ReturnValue::Discard,
                    frame: id,
                    tail: false,
                    operation: None,
                },
            },
        );
        Ok(CallStep::Entered)
    }
}

/// Define one element of a literal.
pub fn define_element(runtime: &mut Runtime, execution: &mut RunningExecution, id: FrameId) -> (r:
    Result<CallStep, Error>)
    requires
        old(runtime).wf(),
    ensures
        final(runtime).wf(),
        (final(runtime)@, final(execution)@, r) == old(execution)@.define_array_element(
            old(runtime)@,
            id,
        ),
{
    let frame = execution.frames.current(id)?;
    let base = execution.slots.peek(frame.window, 2)?;
    let key = execution.slots.peek(frame.window, 1)?;
    let value = execution.slots.peek(frame.window, 0)?;
    let object = match base {
        JsValue::Object(object) => object,
        _ => {
            return runtime.throw_step(
                frame.realm,
                Error::new(ErrorKind::Type, "not an object"),
            );
        },
    };
    let data = runtime.object(object)?;
    if key.is_object() || own_definitions(data) {
        return execution.defer_definition(frame, id, object, key, value);
    }
    execution.slots.discard(frame.window, 1)?;
    let key = match runtime.native_to_property_key(key) {
        Ok(key) => key,
        Err(e) => {
            return runtime.throw_step(frame.realm, e);
        },
    };
    if !runtime.define_element(object, key, value)? {
        return runtime.throw_step(
            frame.realm,
            Error::new(ErrorKind::Type, "property is not configurable"),
        );
    }
    execution.resume_after(frame, Error::internal("element resume PC overflow"))?;
    Ok(CallStep::Entered)
}

/// Spread a dense array into an array under construction.  Any other source
/// is left to the embedder.
pub fn append(runtime: &mut Runtime, execution: &mut RunningExecution, id: FrameId) -> (r: Result<
    CallStep,
    Error,
>)
    requires
        old(runtime).wf(),
    ensures
        final(runtime).wf(),
        (final(runtime)@, final(execution)@, r) == old(execution)@.append_dense(
            old(runtime)@,
            id,
        ),
{
    let frame = execution.frames.current(id)?;
    let base = execution.slots.peek(frame.window, 2)?;
    let index = execution.slots.peek(frame.window, 1)?;
    let source = execution.slots.peek(frame.window, 0)?;
    let (array, start) = match (base, index) {
        (JsValue::Object(array), JsValue::Int(start)) => (array, start),
        _ => {
            return Ok(CallStep::Bridge);
        },
    };
    let values = match runtime.plain_elements(source) {
        Some(values) => values,
        None => {
            return Ok(CallStep::Bridge);
        },
    };
    if start < 0 || values.len() > 0x7fff_ffff || start as i64 + values.len() as i64 > 0x7fff_ffff {
        return Ok(CallStep::Bridge);
    }
    if !runtime.append_values(array, start as usize, &values)? {
        return runtime.throw_step(
            frame.realm,
            Error::new(ErrorKind::Type, "property is not configurable"),
        );
    }
    execution.slots.discard(frame.window, 2)?;
    execution.slots.push(JsValue::Int((start as i64 + values.len() as i64) as i32))?;
    execution.resume_after(frame, Error::internal("append resume PC overflow"))?;
    Ok(CallStep::Entered)
}

/// An array takes an element: the element is an own property with that value,
/// and the length becomes one more than the index where it was not above it.
/// An array whose length cannot be written takes no element at or above it.
pub proof fn elements_lengthen_their_array(
    heap: Heap,
    object: ObjectRef,
    atom: Atom,
    n: nat,
    p: int,
    length: nat,
    current: JsValue,
    writable: bool,
    enumerable: bool,
    configurable: bool,
    value: JsValue,
)
    requires
        Heap::pinned(heap.texts),
        object.index < heap.objects.len(),
        heap.objects[object.index as int].payload is Array,
        atom < heap.texts.len(),
        heap.texts[atom as int] == Texts::digits(n),
        n < MAX_LENGTH,
        heap.find(object, PropertyKey::String(ATOM_LENGTH)) == Some(p),
        heap.properties[p].slot == (PropertySlot::Data {
            value: current,
            writable,
            enumerable,
            configurable,
        }),
        Heap::length_of(current) == Some(length),
    ensures
        ({
            let key = PropertyKey::String(atom);
            let (after, r) = heap.define_element(object, key, value);
            &&& !writable && n >= length ==> after == heap && r == Ok::<bool, Error>(false)
            &&& r == Ok::<bool, Error>(true) ==> {
                &&& after.own_property(object, key) == Ok::<Option<PropertyDescriptor>, Error>(
                    Some(
                        PropertyDescriptor::Data {
                            value,
                            writable: true,
                            enumerable: true,
                            configurable: true,
                        },
                    ),
                )
                &&& after.own_property(object, PropertyKey::String(ATOM_LENGTH)) == Ok::<
                    Option<PropertyDescriptor>,
                    Error,
                >(
                    Some(
                        PropertyDescriptor::Data {
                            value: if n < length {
                                current
                            } else {
                                Heap::length_value(n + 1)
                            },
                            writable,
                            enumerable,
                            configurable,
                        },
                    ),
                )
            }
            &&& heap.find(object, key) is None && heap.objects[object.index as int].extensible && (
            writable || n < length) ==> r == Ok::<bool, Error>(true)
        }),
{
    let key = PropertyKey::String(atom);
    let slot = Heap::data_slot(value);
    let size = PropertyKey::String(ATOM_LENGTH);
    crate::property_driver::indices_are_decimal_texts(heap.text_at(atom), n);
    crate::text::indices_are_not_length(n);
    if !heap.length_refuses(object, n) && heap.define(object, key, slot).1 == Ok::<bool, Error>(
        true,
    ) {
        let mid = heap.define(object, key, slot).0;
        crate::object::first_entry(heap.properties, object.index, key, 0);
        crate::object::first_entry(heap.properties, object.index, size, 0);
        crate::object::other_entries_keep_their_place(
            heap.properties,
            mid.properties,
            object.index,
            size,
            0,
        );
        crate::object::defined_properties_are_found(heap, object, key, slot);
        crate::object::first_entry(mid.properties, object.index, key, 0);
        let after = mid.grown(object, n + 1);
        crate::object::other_entries_keep_their_place(
            mid.properties,
            after.properties,
            object.index,
            key,
            0,
        );
        crate::object::other_entries_keep_their_place(
            mid.properties,
            after.properties,
            object.index,
            size,
            0,
        );
    }
}

proof fn elements_touch_no_other(
    heap: Heap,
    object: ObjectRef,
    key: PropertyKey,
    value: JsValue,
    name: PropertyKey,
)
    requires
        name != key,
        name != PropertyKey::String(ATOM_LENGTH),
    ensures
        heap.define_element(object, key, value).0.own_property(object, name) == heap.own_property(
            object,
            name,
        ),
        heap.define_element(object, key, value).0.objects == heap.objects,
        heap.define_element(object, key, value).0.texts == heap.texts,
        heap.define_element(object, key, value).0.cells == heap.cells,
{
    let slot = Heap::data_slot(value);
    crate::object::definitions_touch_one_property(heap, object, key, slot, object, name);
    let mid = heap.define(object, key, slot).0;
    if let Some(n) = heap.element_index(key) {
        let after = mid.grown(object, n + 1);
        crate::object::first_entry(mid.properties, object.index, name, 0);
        crate::object::first_entry(
            mid.properties,
            object.index,
            PropertyKey::String(ATOM_LENGTH),
            0,
        );
        crate::object::other_entries_keep_their_place(
            mid.properties,
            after.properties,
            object.index,
            name,
            0,
        );
    }
}

proof fn elements_are_found(
    heap: Heap,
    object: ObjectRef,
    key: PropertyKey,
    value: JsValue,
)
    requires
        key != PropertyKey::String(ATOM_LENGTH),
        heap.define_element(object, key, value).1 == Ok::<bool, Error>(true),
    ensures
        heap.define_element(object, key, value).0.own_property(object, key) == Ok::<
            Option<PropertyDescriptor>,
            Error,
        >(
            Some(
                PropertyDescriptor::Data {
                    value,
                    writable: true,
                    enumerable: true,
                    configurable: true,
                },
            ),
        ),
        heap.define_element(object, key, value).0.texts == heap.texts,
{
    let slot = Heap::data_slot(value);
    crate::object::defined_properties_are_found(heap, object, key, slot);
    let mid = heap.define(object, key, slot).0;
    crate::object::first_entry(mid.properties, object.index, key, 0);
    if let Some(n) = heap.element_index(key) {
        let after = mid.grown(object, n + 1);
        crate::object::first_entry(
            mid.properties,
            object.index,
            PropertyKey::String(ATOM_LENGTH),
            0,
        );
        crate::object::other_entries_keep_their_place(
            mid.properties,
            after.properties,
            object.index,
            key,
            0,
        );
    }
}

proof fn later_values_keep_the_earlier(
    heap: Heap,
    object: ObjectRef,
    start: nat,
    values: Seq<JsValue>,
    from: int,
    n: nat,
)
    requires
        Heap::pinned(heap.texts),
        0 <= from <= values.len(),
        heap.texts.len() + (values.len() - from) <= usize::MAX,
        n < start + from,
        Texts::position(heap.texts, Texts::digits(n), 0) is Some,
    ensures
        ({
            let after = heap.append_from(object, start, values, from).0;
            &&& after.index_key(n) == heap.index_key(n)
            &&& after.own_property(object, heap.index_key(n)) == heap.own_property(
                object,
                heap.index_key(n),
            )
            &&& Texts::position(after.texts, Texts::digits(n), 0) is Some
            &&& after.texts.len() <= heap.texts.len() + (values.len() - from)
        }),
    decreases values.len() - from,
{
    if from < values.len() {
        let at = (start + from) as nat;
        let text = Texts::digits(at);
        let named = heap.with_text(text);
        let key = heap.index_key(at);
        crate::text::interning_gives_the_name(heap.texts, text);
        crate::text::names_stay(heap.texts, Texts::digits(n), text, 0);
        crate::text::names_are_apart(named.texts, Texts::digits(n), text);
        if Texts::digits(n) == text {
            crate::text::digits_tell_numbers_apart(n, at);
        }
        crate::text::names_are_texts(named.texts, Texts::digits(n));
        crate::text::indices_are_not_length(n);
        elements_touch_no_other(named, object, key, values[from], heap.index_key(n));
        let next = named.define_element(object, key, values[from]).0;
        if named.define_element(object, key, values[from]).1 == Ok::<bool, Error>(true) {
            later_values_keep_the_earlier(next, object, start, values, from + 1, n);
        }
    }
}

/// A spread list puts its values into the array from the index on, in their
/// order: where it was accepted whole, the element at the index plus `i` is
/// the value at `i`.
pub proof fn spread_values_are_elements_in_order(
    heap: Heap,
    object: ObjectRef,
    start: nat,
    values: Seq<JsValue>,
    from: int,
    i: int,
)
    requires
        Heap::pinned(heap.texts),
        0 <= from <= i < values.len(),
        heap.texts.len() + (values.len() - from) <= usize::MAX,
        heap.append_from(object, start, values, from).1 == Ok::<bool, Error>(true),
    ensures
        ({
            let after = heap.append_from(object, start, values, from).0;
            let key = after.index_key((start + i) as nat);
            &&& key matches PropertyKey::String(atom) && after.text_at(atom) == Texts::digits(
                (start + i) as nat,
            )
            &&& after.own_property(object, key) == Ok::<Option<PropertyDescriptor>, Error>(
                Some(
                    PropertyDescriptor::Data {
                        value: values[i],
                        writable: true,
                        enumerable: true,
                        configurable: true,
                    },
                ),
            )
        }),
    decreases values.len() - from,
{
    let at = (start + from) as nat;
    let text = Texts::digits(at);
    let named = heap.with_text(text);
    let key = heap.index_key(at);
    let next = named.define_element(object, key, values[from]).0;
    crate::text::interning_gives_the_name(heap.texts, text);
    crate::text::names_are_texts(named.texts, text);
    crate::text::indices_are_not_length(at);
    elements_are_found(named, object, key, values[from]);
    if i == from {
        later_values_keep_the_earlier(next, object, start, values, from + 1, at);
        let after = next.append_from(object, start, values, from + 1).0;
        crate::text::names_are_texts(after.texts, text);
    } else {
        spread_values_are_elements_in_order(next, object, start, values, from + 1, i);
    }
}

/// A spread takes the array from below the next index and the source, drops the
/// source and moves the index on by the number of its elements.
pub proof fn spreads_move_their_index(
    machine: Machine,
    heap: Heap,
    id: FrameId,
    frame: Frame,
    array: ObjectRef,
    index: i32,
    source: JsValue,
    values: Seq<JsValue>,
)
    requires
        machine.frames.current(id) == Ok::<Frame, Error>(frame),
        frame.fault_pc < usize::MAX,
        machine.slots.values.len() <= machine.slots.limit,
        machine.slots.peek(frame.window, 2) == Ok::<JsValue, Error>(JsValue::Object(array)),
        machine.slots.peek(frame.window, 1) == Ok::<JsValue, Error>(JsValue::Int(index)),
        machine.slots.peek(frame.window, 0) == Ok::<JsValue, Error>(source),
        heap.plain_elements(source) == Some(values),
        0 <= index,
        index + values.len() <= i32::MAX,
        heap.append_from(array, index as nat, values, 0).1 == Ok::<bool, Error>(true),
    ensures
        ({
            let (after, m, r) = machine.append_dense(heap, id);
            let n = machine.slots.values.len() as int;
            &&& r == Ok::<CallStep, Error>(CallStep::Entered)
            &&& after == heap.append_from(array, index as nat, values, 0).0
            &&& m.slots.values.len() == n - 1
            &&& forall|i: int| 0 <= i < n - 2 ==> m.slots.values[i] == machine.slots.values[i]
            &&& m.slots.peek(frame.window, 0) == Ok::<JsValue, Error>(
                JsValue::Int((index + values.len()) as i32),
            )
            &&& m.slots.peek(frame.window, 1) == Ok::<JsValue, Error>(JsValue::Object(array))
        }),
{
    reveal_with_fuel(crate::slots::Slots::discard, 3);
    let one = machine.slots.pop(frame.window).0;
    assert(one.peek(frame.window, 0) == machine.slots.peek(frame.window, 1));
}

} // verus!
