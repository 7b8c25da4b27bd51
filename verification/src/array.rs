//! Dense lists of values as objects: arrays, rest lists and arguments objects.
use vstd::prelude::*;
use crate::bindings::capture_parameter;
use crate::code::FunctionBytecode;
use crate::error::{Error, ErrorKind, NativeErrorKind};
use crate::execution::{Machine, RunningExecution};
use crate::frame::{Frame, FrameId};
use crate::heap::{Heap, HeapObject, ObjectKind, ObjectPayload, PropertyEntry, PropertySlot, Realm};
use crate::runtime::{Runtime, ATOM_LENGTH, MAX_ARGUMENTS};
use crate::slots::{FrameWindow, SlotStore, Slots};
use crate::text::{index_text, same_text, Texts};
use crate::value::{Atom, JsValue, NativeConversion, ObjectRef, PropertyKey};

verus! {

/// The largest length of an array.
pub const MAX_LENGTH: usize = 0xffff_ffff;

impl Heap {
    /// A length as a number; the largest one stands for anything above it.  A
    /// length of more than 31 bits is a floating-point pattern: its leading bit
    /// is implied by the exponent and the others lead the fraction.
    pub open spec fn length_value(length: nat) -> JsValue {
        if length <= i32::MAX {
            JsValue::Int(length as i32)
        } else if length <= MAX_LENGTH {
            JsValue::Float((0x41e0_0000_0000_0000 + (length - 0x8000_0000) * 0x20_0000) as u64)
        } else {
            JsValue::Float(0x41ef_ffff_ffe0_0000)
        }
    }

    /// The length that a number stands for.
    pub open spec fn length_of(value: JsValue) -> Option<nat> {
        match value {
            JsValue::Int(n) => if n >= 0 {
                Some(n as nat)
            } else {
                None
            },
            JsValue::Float(bits) => if 0x41e0_0000_0000_0000 <= bits < 0x41f0_0000_0000_0000
                && bits % 0x20_0000 == 0 {
                Some((0x8000_0000 + (bits - 0x41e0_0000_0000_0000) / 0x20_0000) as nat)
            } else {
                None
            },
            _ => None,
        }
    }

    /// The key of an array index.
    pub open spec fn index_key(self, index: nat) -> PropertyKey {
        PropertyKey::String(Texts::atom_of(self.texts, Texts::digits(index)))
    }

    /// Adding one own element under its index.
    pub open spec fn with_element(self, owner: usize, index: nat, slot: PropertySlot) -> Heap {
        self.with_text(Texts::digits(index)).with_entry(
            PropertyEntry { owner, key: self.index_key(index), slot },
        )
    }

    /// Adding the elements from `from` on under their indices.
    pub open spec fn with_elements(self, owner: usize, values: Seq<JsValue>, from: int) -> Heap
        decreases values.len() - from,
    {
        if from < 0 || from >= values.len() {
            self
        } else {
            self.with_element(owner, from as nat, Heap::data_slot(values[from])).with_elements(
                owner,
                values,
                from + 1,
            )
        }
    }

    pub open spec fn length_entry(owner: usize, length: nat, configurable: bool) -> PropertyEntry {
        PropertyEntry {
            owner,
            key: PropertyKey::String(ATOM_LENGTH),
            slot: Heap::hidden_slot(Heap::length_value(length), true, configurable),
        }
    }

    pub open spec fn array_object(realm: Realm) -> HeapObject {
        HeapObject {
            kind: ObjectKind::Array,
            payload: ObjectPayload::Array,
            prototype: Some(realm.array_prototype),
            is_constructor: false,
            extensible: true,
        }
    }

    /// A new array, which is the next reference.
    pub open spec fn with_array(self, realm: Realm, values: Seq<JsValue>) -> Heap {
        self.allocated(Heap::array_object(realm)).with_elements(
            self.next_ref().index,
            values,
            0,
        ).with_entry(Heap::length_entry(self.next_ref().index, values.len(), false))
    }

    pub open spec fn new_array(self, realm: usize, values: Seq<JsValue>) -> (
        Heap,
        Result<ObjectRef, Error>,
    ) {
        match self.realm_at(realm) {
            Err(e) => (self, Err(e)),
            Ok(data) => (self.with_array(data, values), Ok(self.next_ref())),
        }
    }

    /// The value of an own data property.
    pub open spec fn own_data(self, object: ObjectRef, key: PropertyKey) -> Option<JsValue> {
        match self.find(object, key) {
            Some(p) => match self.properties[p].slot {
                PropertySlot::Data { value, .. } => Some(value),
                _ => None,
            },
            None => None,
        }
    }

    /// The elements from `from` to `length`, if each is an own data property.
    pub open spec fn dense_from(self, object: ObjectRef, from: nat, length: nat) -> Option<
        Seq<JsValue>,
    >
        decreases length - from,
    {
        if from >= length {
            Some(Seq::empty())
        } else {
            match self.own_data(object, self.index_key(from)) {
                None => None,
                Some(value) => match self.dense_from(object, from + 1, length) {
                    None => None,
                    Some(rest) => Some(seq![value] + rest),
                },
            }
        }
    }

    /// The length of an array.
    pub open spec fn array_length(self, object: ObjectRef) -> Option<usize> {
        match self.object_at(object) {
            Err(_) => None,
            Ok(data) => if data.payload is Array {
                match self.own_data(object, PropertyKey::String(ATOM_LENGTH)) {
                    Some(value) => match Heap::length_of(value) {
                        Some(length) => Some(length as usize),
                        None => None,
                    },
                    None => None,
                }
            } else {
                None
            },
        }
    }

    /// The elements of a dense array.
    pub open spec fn dense_values(self, object: ObjectRef) -> Option<Seq<JsValue>> {
        match self.array_length(object) {
            None => None,
            Some(length) => self.dense_from(object, 0, length as nat),
        }
    }

    /// The elements of a dense array as the arguments of a call.
    pub open spec fn fast_arguments(self, realm: usize, object: ObjectRef) -> (
        Heap,
        Result<Option<NativeConversion<Seq<JsValue>>>, Error>,
    ) {
        match self.array_length(object) {
            None => (self, Ok(None)),
            Some(length) => if length > MAX_ARGUMENTS {
                match self.native_error(
                    realm,
                    NativeErrorKind::Range,
                    Error::new(ErrorKind::Range, "too many arguments"),
                ) {
                    (heap, Ok(value)) => (heap, Ok(Some(NativeConversion::Throw(value)))),
                    (heap, Err(e)) => (heap, Err(e)),
                }
            } else {
                match self.dense_values(object) {
                    None => (self, Ok(None)),
                    Some(values) => (self, Ok(Some(NativeConversion::Value(values)))),
                }
            },
        }
    }
}

impl Runtime {
    pub fn length_value(length: usize) -> (r: JsValue)
        ensures
            r == Heap::length_value(length as nat),
    {
        if length <= 0x7fff_ffff {
            JsValue::Int(length as i32)
        } else if length <= MAX_LENGTH {
            JsValue::Float(0x41e0_0000_0000_0000 + (length as u64 - 0x8000_0000) * 0x20_0000)
        } else {
            JsValue::Float(0x41ef_ffff_ffe0_0000)
        }
    }

    pub fn length_of(value: JsValue) -> (r: Option<usize>)
        ensures
            match r {
                Some(n) => Heap::length_of(value) == Some(n as nat) && n <= MAX_LENGTH,
                None => Heap::length_of(value) is None,
            },
    {
        match value {
            JsValue::Int(n) => {
                if n >= 0 {
                    Some(n as usize)
                } else {
                    None
                }
            },
            JsValue::Float(bits) => {
                if 0x41e0_0000_0000_0000 <= bits && bits < 0x41f0_0000_0000_0000 && bits % 0x20_0000
                    == 0 {
                    Some((0x8000_0000 + (bits - 0x41e0_0000_0000_0000) / 0x20_0000) as usize)
                } else {
                    None
                }
            },
            _ => None,
        }
    }

    /// The name that a text has, or would get next.
    pub fn atom_of(&self, text: &Vec<u16>) -> (r: Atom)
        ensures
            r == Texts::atom_of(self@.texts, text@),
    {
        let ghost texts = self@.texts;
        let mut i: usize = 0;
        while i < self.strings.len()
            invariant
                texts == Texts::table(self.strings@),
                i <= self.strings@.len(),
                Texts::position(texts, text@, 0) == Texts::position(texts, text@, i as int),
            decreases self.strings@.len() - i,
        {
            if same_text(&self.strings[i], text) {
                return i;
            }
            i = i + 1;
        }
        self.strings.len()
    }

    /// Add one own element under its index.
    pub fn add_element(&mut self, owner: usize, index: usize, slot: PropertySlot)
        requires
            old(self).wf(),
        ensures
            final(self).wf(),
            final(self)@ == old(self)@.with_element(owner, index as nat, slot),
    {
        let text = index_text(index);
        let atom: usize = self.intern(text);
        self.add_property(PropertyEntry { owner, key: PropertyKey::String(atom), slot });
    }

    fn add_elements(&mut self, owner: usize, values: &Vec<JsValue>)
        requires
            old(self).wf(),
        ensures
            final(self).wf(),
            final(self)@ == old(self)@.with_elements(owner, values@, 0),
    {
        let mut i: usize = 0;
        while i < values.len()
            invariant
                self.wf(),
                i <= values@.len(),
                self@.with_elements(owner, values@, i as int) == old(self)@.with_elements(
                    owner,
                    values@,
                    0,
                ),
            decreases values@.len() - i,
        {
            self.add_element(
                owner,
                i,
                PropertySlot::Data {
                    value: values[i],
                    writable: true,
                    enumerable: true,
                    configurable: true,
                },
            );
            i = i + 1;
        }
    }

    fn add_length(&mut self, owner: usize, length: usize, configurable: bool)
        requires
            old(self).wf(),
        ensures
            final(self).wf(),
            final(self)@ == old(self)@.with_entry(
                Heap::length_entry(owner, length as nat, configurable),
            ),
    {
        self.add_property(
            PropertyEntry {
                owner,
                key: PropertyKey::String(ATOM_LENGTH),
                slot: PropertySlot::Data {
                    value: Runtime::length_value(length),
                    writable: true,
                    enumerable: false,
                    configurable,
                },
            },
        );
    }

    pub fn new_array_from_values(&mut self, realm: usize, values: &Vec<JsValue>) -> (r: Result<
        ObjectRef,
        Error,
    >)
        requires
            old(self).wf(),
        ensures
            final(self).wf(),
            (final(self)@, r) == old(self)@.new_array(realm, values@),
    {
        let data = self.realm(realm)?;
        let array = self.allocate(
            HeapObject {
                kind: ObjectKind::Array,
                payload: ObjectPayload::Array,
                prototype: Some(data.array_prototype),
                is_constructor: false,
                extensible: true,
            },
        );
        self.add_elements(array.index, values);
        self.add_length(array.index, values.len(), false);
        Ok(array)
    }

    pub(crate) fn own_data(&self, object: ObjectRef, key: PropertyKey) -> (r: Option<JsValue>)
        ensures
            r == self@.own_data(object, key),
    {
        match self.find_property(object, key) {
            Some(p) => match self.properties[p].slot {
                PropertySlot::Data { value, .. } => Some(value),
                _ => None,
            },
            None => None,
        }
    }

    /// The length of an array.
    pub fn array_length(&self, object: ObjectRef) -> (r: Option<usize>)
        ensures
            r == self@.array_length(object),
    {
        match self.object(object) {
            Ok(data) => {
                if data.payload != ObjectPayload::Array {
                    return None;
                }
            },
            Err(_) => {
                return None;
            },
        }
        match self.own_data(object, PropertyKey::String(ATOM_LENGTH)) {
            Some(value) => Runtime::length_of(value),
            None => None,
        }
    }

    /// The elements of a dense array.
    pub fn dense_values(&self, object: ObjectRef) -> (r: Option<Vec<JsValue>>)
        ensures
            match r {
                Some(values) => self@.dense_values(object) == Some(values@),
                None => self@.dense_values(object) is None,
            },
    {
        let length: usize = match self.array_length(object) {
            Some(length) => length,
            None => {
                return None;
            },
        };
        let mut values: Vec<JsValue> = Vec::new();
        let mut i: usize = 0;
        let ghost whole = self@.dense_from(object, 0, length as nat);
        while i < length
            invariant
                i <= length,
                whole == self@.dense_from(object, 0, length as nat),
                self@.dense_values(object) == whole,
                match self@.dense_from(object, i as nat, length as nat) {
                    Some(rest) => whole == Some(values@ + rest),
                    None => whole is None,
                },
            decreases length - i,
        {
            let text = index_text(i);
            let key = PropertyKey::String(self.atom_of(&text));
            match self.own_data(object, key) {
                Some(value) => {
                    proof {
                        match self@.dense_from(object, i as nat + 1, length as nat) {
                            Some(rest) => {
                                assert(values@ + (seq![value] + rest) =~= values@.push(value)
                                    + rest);
                            },
                            None => {},
                        }
                    }
                    values.push(value);
                },
                None => {
                    return None;
                },
            }
            i = i + 1;
        }
        assert(values@ + Seq::<JsValue>::empty() =~= values@);
        Some(values)
    }

    /// The elements of a dense array as the arguments of a call; nothing if
    /// reading them could run code.
    pub fn prepare_fast_array_arguments(&mut self, realm: usize, object: ObjectRef) -> (r: Result<
        Option<NativeConversion<Vec<JsValue>>>,
        Error,
    >)
        requires
            old(self).wf(),
        ensures
            final(self).wf(),
            final(self)@ == old(self)@.fast_arguments(realm, object).0,
            match r {
                Ok(Some(NativeConversion::Value(values))) => old(self)@.fast_arguments(
                    realm,
                    object,
                ).1 == Ok::<Option<NativeConversion<Seq<JsValue>>>, Error>(
                    Some(NativeConversion::Value(values@)),
                ),
                Ok(Some(NativeConversion::Throw(value))) => old(self)@.fast_arguments(
                    realm,
                    object,
                ).1 == Ok::<Option<NativeConversion<Seq<JsValue>>>, Error>(
                    Some(NativeConversion::Throw(value)),
                ),
                Ok(None) => old(self)@.fast_arguments(realm, object).1 == Ok::<
                    Option<NativeConversion<Seq<JsValue>>>,
                    Error,
                >(None),
                Err(e) => old(self)@.fast_arguments(realm, object).1 == Err::<
                    Option<NativeConversion<Seq<JsValue>>>,
                    Error,
                >(e),
            },
    {
        match self.array_length(object) {
            None => Ok(None),
            Some(length) => {
                if length > MAX_ARGUMENTS {
                    let value = self.new_native_error_from_error(
                        realm,
                        NativeErrorKind::Range,
                        Error::new(ErrorKind::Range, "too many arguments"),
                    )?;
                    return Ok(Some(NativeConversion::Throw(value)));
                }
                match self.dense_values(object) {
                    None => Ok(None),
                    Some(values) => Ok(Some(NativeConversion::Value(values))),
                }
            },
        }
    }
}

impl Machine {
    /// Sharing the parameters below `mapped` with the elements of an arguments
    /// object; the arguments above are elements of their own.
    pub open spec fn map_arguments(
        heap: Heap,
        slots: Slots,
        window: FrameWindow,
        function: FunctionBytecode,
        owner: usize,
        values: Seq<JsValue>,
        mapped: nat,
        from: int,
    ) -> (Heap, Slots, Result<(), Error>)
        decreases values.len() - from,
    {
        if from < 0 || from >= values.len() {
            (heap, slots, Ok(()))
        } else if from < mapped {
            match Machine::capture_parameter(heap, slots, window, function, from as u16) {
                (heap, slots, Err(e)) => (heap, slots, Err(e)),
                (heap, slots, Ok(cell)) => Machine::map_arguments(
                    heap.with_element(
                        owner,
                        from as nat,
                        PropertySlot::VarRef { cell, enumerable: true, configurable: true },
                    ),
                    slots,
                    window,
                    function,
                    owner,
                    values,
                    mapped,
                    from + 1,
                ),
            }
        } else {
            Machine::map_arguments(
                heap.with_element(owner, from as nat, Heap::data_slot(values[from])),
                slots,
                window,
                function,
                owner,
                values,
                mapped,
                from + 1,
            )
        }
    }

    pub open spec fn arguments_object(realm: Realm) -> HeapObject {
        HeapObject {
            kind: ObjectKind::Other,
            payload: ObjectPayload::Arguments,
            prototype: Some(realm.object_prototype),
            is_constructor: false,
            extensible: true,
        }
    }

    /// How many parameters an arguments object shares.
    pub open spec fn mapped_count(function: FunctionBytecode, values: Seq<JsValue>, mapped: bool) -> nat {
        let parameters = function.argument_definitions@.len();
        if !mapped {
            0
        } else if parameters < values.len() {
            if parameters < 0x1_0000 {
                parameters
            } else {
                0x1_0000
            }
        } else if values.len() < 0x1_0000 {
            values.len()
        } else {
            0x1_0000
        }
    }

    /// Making the arguments object of the current call and pushing it.
    pub open spec fn push_arguments(self, heap: Heap, id: FrameId, mapped: bool) -> (
        Heap,
        Machine,
        Result<(), Error>,
    ) {
        match self.frames.current(id) {
            Err(e) => (heap, self, Err(e)),
            Ok(frame) => match heap.function_at(frame.executable) {
                Err(e) => (heap, self, Err(e)),
                Ok(function) => match heap.realm_at(frame.realm) {
                    Err(e) => (heap, self, Err(e)),
                    Ok(realm) => match self.slots.actual_arguments(frame.window) {
                        Err(e) => (heap, self, Err(e)),
                        Ok(values) => {
                            let made = heap.next_ref();
                            match Machine::map_arguments(
                                heap.allocated(Machine::arguments_object(realm)),
                                self.slots,
                                frame.window,
                                function,
                                made.index,
                                values,
                                Machine::mapped_count(function, values, mapped),
                                0,
                            ) {
                                (heap, slots, Err(e)) => (heap, Machine { slots, ..self }, Err(e)),
                                (heap, slots, Ok(_)) => Machine { slots, ..self }.push_made(
                                    heap.with_entry(
                                        Heap::length_entry(made.index, values.len(), true),
                                    ),
                                    frame,
                                    made,
                                ),
                            }
                        },
                    },
                },
            },
        }
    }

    /// Pushing a new object and ending the instruction.
    pub open spec fn push_made(self, heap: Heap, frame: Frame, made: ObjectRef) -> (
        Heap,
        Machine,
        Result<(), Error>,
    ) {
        let (slots, r) = self.slots.push(JsValue::Object(made));
        let machine = Machine { slots, ..self };
        match r {
            Err(e) => (heap, machine, Err(e)),
            Ok(_) => {
                let (machine, r) = machine.resumed(
                    frame,
                    Error::internal("arguments resume PC overflow"),
                );
                (heap, machine, r)
            },
        }
    }

    /// Making the array of the arguments from `from` on and pushing it.
    pub open spec fn push_rest(self, heap: Heap, id: FrameId, from: u16) -> (
        Heap,
        Machine,
        Result<(), Error>,
    ) {
        match self.frames.current(id) {
            Err(e) => (heap, self, Err(e)),
            Ok(frame) => match self.slots.actual_arguments(frame.window) {
                Err(e) => (heap, self, Err(e)),
                Ok(values) => match heap.new_array(
                    frame.realm,
                    if from <= values.len() {
                        values.skip(from as int)
                    } else {
                        Seq::empty()
                    },
                ) {
                    (heap, Err(e)) => (heap, self, Err(e)),
                    (heap, Ok(made)) => self.push_made(heap, frame, made),
                },
            },
        }
    }
}

fn map_arguments(
    runtime: &mut Runtime,
    slots: &mut SlotStore,
    frame: Frame,
    owner: usize,
    values: &Vec<JsValue>,
    mapped: usize,
) -> (r: Result<(), Error>)
    requires
        old(runtime).wf(),
        frame.executable < old(runtime)@.code.len(),
        mapped <= 0x1_0000,
    ensures
        final(runtime).wf(),
        (final(runtime)@, final(slots)@, r) == Machine::map_arguments(
            old(runtime)@,
            old(slots)@,
            frame.window,
            old(runtime)@.code[frame.executable as int],
            owner,
            values@,
            mapped as nat,
            0,
        ),
{
    let ghost function = runtime@.code[frame.executable as int];
    let mut i: usize = 0;
    while i < values.len()
        invariant
            runtime.wf(),
            i <= values@.len(),
            mapped <= 0x1_0000,
            frame.executable < runtime@.code.len(),
            function == runtime@.code[frame.executable as int],
            function == old(runtime)@.code[frame.executable as int],
            Machine::map_arguments(
                runtime@,
                slots@,
                frame.window,
                function,
                owner,
                values@,
                mapped as nat,
                i as int,
            ) == Machine::map_arguments(
                old(runtime)@,
                old(slots)@,
                frame.window,
                function,
                owner,
                values@,
                mapped as nat,
                0,
            ),
        decreases values@.len() - i,
    {
        if i < mapped {
            let cell: usize = capture_parameter(
                runtime,
                slots,
                frame.window,
                frame.executable,
                i as u16,
            )?;
            runtime.add_element(
                owner,
                i,
                PropertySlot::VarRef { cell, enumerable: true, configurable: true },
            );
        } else {
            runtime.add_element(
                owner,
                i,
                PropertySlot::Data {
                    value: values[i],
                    writable: true,
                    enumerable: true,
                    configurable: true,
                },
            );
        }
        i = i + 1;
    }
    Ok(())
}

/// Push the arguments object of the current call.
pub fn push_arguments(
    runtime: &mut Runtime,
    execution: &mut RunningExecution,
    id: FrameId,
    mapped: bool,
) -> (r: Result<(), Error>)
    requires
        old(runtime).wf(),
    ensures
        final(runtime).wf(),
        (final(runtime)@, final(execution)@, r) == old(execution)@.push_arguments(
            old(runtime)@,
            id,
            mapped,
        ),
{
    let frame = execution.frames.current(id)?;
    let parameters: usize = runtime.function_bytecode(
        frame.executable,
    )?.argument_definitions.len();
    let realm = runtime.realm(frame.realm)?;
    let values = execution.slots.snapshot_actual_arguments(frame.window)?;
    let shared: usize = if parameters < values.len() {
        parameters
    } else {
        values.len()
    };
    let count: usize = if !mapped {
        0
    } else if shared < 0x1_0000 {
        shared
    } else {
        0x1_0000
    };
    let made = runtime.allocate(
        HeapObject {
            kind: ObjectKind::Other,
            payload: ObjectPayload::Arguments,
            prototype: Some(realm.object_prototype),
            is_constructor: false,
            extensible: true,
        },
    );
    map_arguments(runtime, &mut execution.slots, frame, made.index, &values, count)?;
    runtime.add_length(made.index, values.len(), true);
    execution.slots.push(JsValue::Object(made))?;
    execution.resume_after(frame, Error::internal("arguments resume PC overflow"))
}

/// Push the array of the arguments from `from` on.
pub fn push_rest(
    runtime: &mut Runtime,
    execution: &mut RunningExecution,
    id: FrameId,
    from: u16,
) -> (r: Result<(), Error>)
    requires
        old(runtime).wf(),
    ensures
        final(runtime).wf(),
        (final(runtime)@, final(execution)@, r) == old(execution)@.push_rest(
            old(runtime)@,
            id,
            from,
        ),
{
    let frame = execution.frames.current(id)?;
    let values = execution.slots.snapshot_actual_arguments(frame.window)?;
    let mut rest: Vec<JsValue> = Vec::new();
    let mut i: usize = from as usize;
    while i < values.len()
        invariant
            from <= i,
            i <= values@.len() || i == from,
            rest@ == (if from <= values@.len() {
                values@.subrange(from as int, i as int)
            } else {
                Seq::empty()
            }),
        decreases values@.len() - i,
    {
        rest.push(values[i]);
        assert(rest@ =~= values@.subrange(from as int, i as int + 1));
        i = i + 1;
    }
    assert(from <= values@.len() ==> rest@ =~= values@.skip(from as int));
    let made = runtime.new_array_from_values(frame.realm, &rest)?;
    execution.slots.push(JsValue::Object(made))?;
    execution.resume_after(frame, Error::internal("arguments resume PC overflow"))
}

impl Heap {
    /// Whether `owner` has exactly the first `count` values, one entry for each
    /// from `start` on.
    pub open spec fn holds(
        self,
        owner: usize,
        values: Seq<JsValue>,
        start: nat,
        count: int,
    ) -> bool {
        &&& Heap::pinned(self.texts)
        &&& self.texts.len() <= usize::MAX
        &&& self.properties.len() == start + count
        &&& forall|p: int|
            0 <= p < start ==> (#[trigger] self.properties[p]).owner != owner
        &&& forall|i: int|
            0 <= i < count ==> {
                &&& #[trigger] self.properties[start + i] == (PropertyEntry {
                    owner,
                    key: self.index_key(i as nat),
                    slot: Heap::data_slot(values[i]),
                })
                &&& Texts::position(self.texts, Texts::digits(i as nat), 0) is Some
            }
    }
}

proof fn elements_are_held(
    heap: Heap,
    owner: usize,
    values: Seq<JsValue>,
    start: nat,
    count: int,
)
    requires
        0 <= count <= values.len(),
        heap.holds(owner, values, start, count),
        heap.texts.len() + (values.len() - count) <= usize::MAX,
    ensures
        heap.with_elements(owner, values, count).holds(owner, values, start, values.len() as int),
        heap.with_elements(owner, values, count).objects == heap.objects,
    decreases values.len() - count,
{
    if count < values.len() {
        let text = Texts::digits(count as nat);
        let next = heap.with_element(owner, count as nat, Heap::data_slot(values[count]));
        crate::text::interning_gives_the_name(heap.texts, text);
        assert forall|i: int| 0 <= i < count + 1 implies {
            &&& #[trigger] next.properties[start + i] == (PropertyEntry {
                owner,
                key: next.index_key(i as nat),
                slot: Heap::data_slot(values[i]),
            })
            &&& Texts::position(next.texts, Texts::digits(i as nat), 0) is Some
        } by {
            if i < count {
                assert(heap.properties[start + i].owner == owner);
                crate::text::names_stay(heap.texts, Texts::digits(i as nat), text, 0);
            }
        }
        elements_are_held(next, owner, values, start, count + 1);
    }
}

proof fn held_elements_are_dense(
    heap: Heap,
    object: ObjectRef,
    values: Seq<JsValue>,
    start: nat,
    from: nat,
)
    requires
        from <= values.len(),
        heap.holds(object.index, values, start, values.len() as int),
    ensures
        ({
            let whole = heap.with_entry(Heap::length_entry(object.index, values.len(), false));
            whole.dense_from(object, from, values.len()) == Some(values.skip(from as int))
        }),
    decreases values.len() - from,
{
    let whole = heap.with_entry(Heap::length_entry(object.index, values.len(), false));
    if from < values.len() {
        let at: int = start + from as int;
        assert(heap.properties[at].owner == object.index);
        assert forall|p: int| 0 <= p < at implies (#[trigger] whole.properties[p]).owner
            != object.index || whole.properties[p].key != whole.index_key(from) by {
            if p >= start {
                let i = p - start;
                assert(heap.properties[start + i].owner == object.index);
                crate::text::names_are_apart(
                    heap.texts,
                    Texts::digits(i as nat),
                    Texts::digits(from),
                );
                if Texts::digits(i as nat) == Texts::digits(from) {
                    crate::text::digits_tell_numbers_apart(i as nat, from);
                }
            } else {
                assert(heap.properties[p].owner != object.index);
            }
        }
        assert(whole.properties[at] == heap.properties[at]);
        crate::object::position_is(
            whole.properties,
            object.index,
            whole.index_key(from),
            0,
            at,
        );
        held_elements_are_dense(heap, object, values, start, from + 1);
        assert(values.skip(from as int) =~= seq![values[from as int]] + values.skip(from + 1int));
    } else {
        assert(values.skip(from as int) =~= Seq::empty());
    }
}

/// Lengths keep their value as numbers.
pub proof fn lengths_are_numbers(length: nat)
    requires
        length <= MAX_LENGTH,
    ensures
        Heap::length_of(Heap::length_value(length)) == Some(length),
{
}

/// A new array gives back the values that it was made of, in their order, also
/// as the arguments of a call.
pub proof fn arrays_give_back_their_values(heap: Heap, realm: Realm, values: Seq<JsValue>)
    requires
        Heap::pinned(heap.texts),
        forall|p: int|
            0 <= p < heap.properties.len() ==> (#[trigger] heap.properties[p]).owner
                < heap.objects.len(),
        heap.objects.len() < usize::MAX,
        heap.texts.len() + values.len() <= usize::MAX,
        values.len() <= MAX_LENGTH,
    ensures
        heap.with_array(realm, values).dense_values(heap.next_ref()) == Some(values),
        values.len() <= MAX_ARGUMENTS ==> forall|caller: usize|
            (#[trigger] heap.with_array(realm, values).fast_arguments(caller, heap.next_ref())).1
                == Ok::<Option<NativeConversion<Seq<JsValue>>>, Error>(
                Some(NativeConversion::Value(values)),
            ),
{
    lengths_are_numbers(values.len());
    let object = heap.next_ref();
    let start = heap.properties.len();
    let bare = heap.allocated(Heap::array_object(realm));
    elements_are_held(bare, object.index, values, start, 0);
    let filled = bare.with_elements(object.index, values, 0);
    held_elements_are_dense(filled, object, values, start, 0);
    let whole = heap.with_array(realm, values);
    let length = PropertyKey::String(ATOM_LENGTH);
    assert forall|p: int| 0 <= p < start + values.len() implies (
    #[trigger] whole.properties[p]).owner != object.index || whole.properties[p].key != length by {
        if p >= start {
            let i = p - start;
            assert(filled.properties[start + i].owner == object.index);
            crate::text::indices_are_not_length(i as nat);
            crate::text::names_are_texts(filled.texts, Texts::digits(i as nat));
        } else {
            assert(filled.properties[p].owner != object.index);
        }
    }
    crate::object::position_is(
        whole.properties,
        object.index,
        length,
        0,
        (start + values.len()) as int,
    );
    assert(values.skip(0) =~= values);
}

/// A rest list is the array of the arguments behind the named ones, in their
/// order, and is empty where there are none.
pub proof fn rest_lists_hold_the_other_arguments(
    machine: Machine,
    heap: Heap,
    id: FrameId,
    frame: Frame,
    from: u16,
    arguments: Seq<JsValue>,
)
    requires
        machine.frames.current(id) == Ok::<Frame, Error>(frame),
        frame.fault_pc < usize::MAX,
        frame.realm < heap.realms.len(),
        machine.slots.actual_arguments(frame.window) == Ok::<Seq<JsValue>, Error>(arguments),
        machine.slots.values.len() < machine.slots.limit,
        Heap::pinned(heap.texts),
        forall|p: int|
            0 <= p < heap.properties.len() ==> (#[trigger] heap.properties[p]).owner
                < heap.objects.len(),
        heap.objects.len() < usize::MAX,
        heap.texts.len() + arguments.len() <= usize::MAX,
        arguments.len() <= MAX_LENGTH,
    ensures
        ({
            let (after, machine2, r) = machine.push_rest(heap, id, from);
            let made = heap.next_ref();
            &&& r is Ok
            &&& machine2.slots.values == machine.slots.values.push(
                crate::slots::FrameBinding::Direct(JsValue::Object(made)),
            )
            &&& after.dense_values(made) matches Some(list) && {
                &&& list.len() == if arguments.len() > from {
                    arguments.len() - from
                } else {
                    0
                }
                &&& forall|i: int| 0 <= i < list.len() ==> #[trigger] list[i] == arguments[from + i]
            }
        }),
{
    let values = if from <= arguments.len() {
        arguments.skip(from as int)
    } else {
        Seq::empty()
    };
    arrays_give_back_their_values(heap, heap.realms[frame.realm as int], values);
}

proof fn unmapped_arguments_are_elements(
    heap: Heap,
    slots: Slots,
    window: FrameWindow,
    function: FunctionBytecode,
    owner: usize,
    values: Seq<JsValue>,
    from: int,
)
    requires
        0 <= from,
    ensures
        Machine::map_arguments(heap, slots, window, function, owner, values, 0, from) == (
            heap.with_elements(owner, values, from),
            slots,
            Ok::<(), Error>(()),
        ),
    decreases values.len() - from,
{
    if from < values.len() {
        unmapped_arguments_are_elements(
            heap.with_element(owner, from as nat, Heap::data_slot(values[from])),
            slots,
            window,
            function,
            owner,
            values,
            from + 1,
        );
    }
}

/// An arguments object that shares nothing has one element for each argument,
/// in their order, and their number as its length.
pub proof fn arguments_objects_hold_the_arguments(
    machine: Machine,
    heap: Heap,
    id: FrameId,
    frame: Frame,
    arguments: Seq<JsValue>,
)
    requires
        machine.frames.current(id) == Ok::<Frame, Error>(frame),
        frame.fault_pc < usize::MAX,
        frame.realm < heap.realms.len(),
        frame.executable < heap.code.len(),
        machine.slots.actual_arguments(frame.window) == Ok::<Seq<JsValue>, Error>(arguments),
        machine.slots.values.len() < machine.slots.limit,
        Heap::pinned(heap.texts),
        forall|p: int|
            0 <= p < heap.properties.len() ==> (#[trigger] heap.properties[p]).owner
                < heap.objects.len(),
        heap.objects.len() < usize::MAX,
        heap.texts.len() + arguments.len() <= usize::MAX,
        arguments.len() <= MAX_LENGTH,
    ensures
        ({
            let (after, machine2, r) = machine.push_arguments(heap, id, false);
            let made = heap.next_ref();
            &&& r is Ok
            &&& machine2.slots.values == machine.slots.values.push(
                crate::slots::FrameBinding::Direct(JsValue::Object(made)),
            )
            &&& after.dense_from(made, 0, arguments.len()) == Some(arguments)
            &&& after.own_data(made, PropertyKey::String(ATOM_LENGTH)) == Some(
                Heap::length_value(arguments.len()),
            )
            &&& after.objects[made.index as int].prototype == Some(
                heap.realms[frame.realm as int].object_prototype,
            )
        }),
{
    let made = heap.next_ref();
    let start = heap.properties.len();
    let realm = heap.realms[frame.realm as int];
    let bare = heap.allocated(Machine::arguments_object(realm));
    unmapped_arguments_are_elements(
        bare,
        machine.slots,
        frame.window,
        heap.code[frame.executable as int],
        made.index,
        arguments,
        0,
    );
    elements_are_held(bare, made.index, arguments, start, 0);
    let filled = bare.with_elements(made.index, arguments, 0);
    let whole = filled.with_entry(Heap::length_entry(made.index, arguments.len(), true));
    lists_do_not_mind_their_length(filled, made, arguments, start, 0);
    let length = PropertyKey::String(ATOM_LENGTH);
    assert forall|p: int| 0 <= p < start + arguments.len() implies (
    #[trigger] whole.properties[p]).owner != made.index || whole.properties[p].key != length by {
        if p >= start {
            let i = p - start;
            assert(filled.properties[start + i].owner == made.index);
            crate::text::indices_are_not_length(i as nat);
            crate::text::names_are_texts(filled.texts, Texts::digits(i as nat));
        } else {
            assert(filled.properties[p].owner != made.index);
        }
    }
    crate::object::position_is(
        whole.properties,
        made.index,
        length,
        0,
        (start + arguments.len()) as int,
    );
    assert(arguments.skip(0) =~= arguments);
}

proof fn lists_do_not_mind_their_length(
    heap: Heap,
    object: ObjectRef,
    values: Seq<JsValue>,
    start: nat,
    from: nat,
)
    requires
        from <= values.len(),
        heap.holds(object.index, values, start, values.len() as int),
    ensures
        heap.with_entry(Heap::length_entry(object.index, values.len(), true)).dense_from(
            object,
            from,
            values.len(),
        ) == Some(values.skip(from as int)),
    decreases values.len() - from,
{
    let whole = heap.with_entry(Heap::length_entry(object.index, values.len(), true));
    if from < values.len() {
        let at: int = start + from as int;
        assert(heap.properties[at].owner == object.index);
        assert forall|p: int| 0 <= p < at implies (#[trigger] whole.properties[p]).owner
            != object.index || whole.properties[p].key != whole.index_key(from) by {
            if p >= start {
                let i = p - start;
                assert(heap.properties[start + i].owner == object.index);
                crate::text::names_are_apart(
                    heap.texts,
                    Texts::digits(i as nat),
                    Texts::digits(from),
                );
                if Texts::digits(i as nat) == Texts::digits(from) {
                    crate::text::digits_tell_numbers_apart(i as nat, from);
                }
            } else {
                assert(heap.properties[p].owner != object.index);
            }
        }
        assert(whole.properties[at] == heap.properties[at]);
        crate::object::position_is(
            whole.properties,
            object.index,
            whole.index_key(from),
            0,
            at,
        );
        lists_do_not_mind_their_length(heap, object, values, start, from + 1);
        assert(values.skip(from as int) =~= seq![values[from as int]] + values.skip(from + 1int));
    } else {
        assert(values.skip(from as int) =~= Seq::empty());
    }
}

/// An arguments object of code that is not strict shares its elements with the
/// parameters, one for each argument that has a parameter, and no others.
pub proof fn mapped_arguments_share_their_parameters(
    function: FunctionBytecode,
    values: Seq<JsValue>,
)
    requires
        values.len() <= MAX_ARGUMENTS,
    ensures
        Machine::mapped_count(function, values, true) <= values.len(),
        Machine::mapped_count(function, values, true) <= function.argument_definitions@.len(),
        Machine::mapped_count(function, values, true) == values.len() || Machine::mapped_count(
            function,
            values,
            true,
        ) == function.argument_definitions@.len(),
        Machine::mapped_count(function, values, false) == 0,
{
}

/// The element that shares a parameter is the variable that the parameter lives
/// in.
pub proof fn shared_elements_are_the_parameter(
    heap: Heap,
    slots: Slots,
    window: FrameWindow,
    function: FunctionBytecode,
    owner: usize,
    values: Seq<JsValue>,
    mapped: nat,
    from: int,
)
    requires
        0 <= from < mapped <= values.len(),
        mapped <= 0x1_0000,
        Machine::capture_parameter(heap, slots, window, function, from as u16).2 is Ok,
    ensures
        ({
            let (after, left, cell) = Machine::capture_parameter(
                heap,
                slots,
                window,
                function,
                from as u16,
            );
            &&& left.parameter(window, from as u16) matches Ok(
                crate::slots::FrameBinding::Captured { cell: shared, .. },
            ) && cell == Ok::<usize, Error>(shared)
            &&& exists|next: Heap|
                {
                    &&& next.properties == after.properties.push(
                        PropertyEntry {
                            owner,
                            key: after.index_key(from as nat),
                            slot: PropertySlot::VarRef {
                                cell: cell->Ok_0,
                                enumerable: true,
                                configurable: true,
                            },
                        },
                    )
                    &&& Machine::map_arguments(
                        heap,
                        slots,
                        window,
                        function,
                        owner,
                        values,
                        mapped,
                        from,
                    ) == #[trigger] Machine::map_arguments(
                        next,
                        left,
                        window,
                        function,
                        owner,
                        values,
                        mapped,
                        from + 1,
                    )
                }
        }),
{
    let (after, left, cell) = Machine::capture_parameter(
        heap,
        slots,
        window,
        function,
        from as u16,
    );
    let next = after.with_element(
        owner,
        from as nat,
        PropertySlot::VarRef { cell: cell->Ok_0, enumerable: true, configurable: true },
    );
    assert(Machine::map_arguments(heap, slots, window, function, owner, values, mapped, from)
        == Machine::map_arguments(next, left, window, function, owner, values, mapped, from + 1));
}

/// The stored length of an array is the number that it is, on the bit level:
/// a small integer, or a pattern that is that integer.
pub proof fn stored_lengths_are_their_numbers(length: nat)
    requires
        length <= MAX_LENGTH,
    ensures
        match Heap::length_value(length) {
            JsValue::Int(n) => n == length,
            JsValue::Float(bits) => {
                &&& length > i32::MAX
                &&& Heap::pattern_is_integer(bits, length as int)
            },
            _ => false,
        },
{
    if length > i32::MAX {
        let bits = (0x41e0_0000_0000_0000 + (length - 0x8000_0000) * 0x20_0000) as u64;
        assert(bits / 0x10_0000_0000_0000 % 0x800 == 1054);
        assert(bits % 0x10_0000_0000_0000 == (length - 0x8000_0000) * 0x20_0000);
        assert(bits / 0x8000_0000_0000_0000 == 0);
        let scale = vstd::arithmetic::power2::pow2(21) as int;
        assert(scale == 0x20_0000) by {
            vstd::arithmetic::power2::lemma2_to64();
        }
        assert((1075 - bits / 0x10_0000_0000_0000 % 0x800) as nat == 21);
        assert(length * scale == length * 0x20_0000);
    }
}

/// Only the nonnegative whole numbers below the limit are lengths: a number that
/// counts as one is, on the bit level, the integer that it counts as.
pub proof fn lengths_are_whole_numbers(value: JsValue)
    ensures
        Heap::length_of(value) matches Some(n) ==> match value {
            JsValue::Int(i) => i == n,
            JsValue::Float(bits) => i32::MAX < n <= MAX_LENGTH && Heap::pattern_is_integer(
                bits,
                n as int,
            ),
            _ => false,
        },
        forall|i: i32| i >= 0 ==> #[trigger] Heap::length_of(JsValue::Int(i)) == Some(i as nat),
        forall|i: i32| i < 0 ==> (#[trigger] Heap::length_of(JsValue::Int(i))) is None,
{
    if let JsValue::Float(bits) = value {
        if let Some(n) = Heap::length_of(value) {
            let k: int = (bits - 0x41e0_0000_0000_0000) / 0x20_0000;
            assert(0x41e0_0000_0000_0000u64 as int % 0x20_0000 == 0);
            assert(bits == 0x41e0_0000_0000_0000 + k * 0x20_0000);
            assert(n == 0x8000_0000 + k);
            stored_lengths_are_their_numbers(n);
            assert(Heap::length_value(n) == value);
        }
    }
}

} // verus!
