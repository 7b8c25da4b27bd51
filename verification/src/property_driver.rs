//! Property reads on arbitrary bases.
use vstd::prelude::*;
use crate::call::request::normalize_callback;
use crate::code::FunctionBytecode;
use crate::driver::CallStep;
use crate::error::{Error, ErrorKind};
use crate::execution::{Machine, PendingCall, PendingRequest, RunningExecution};
use crate::frame::{Frame, FrameId, ReturnTarget, ReturnValue};
use crate::heap::{Heap, Realm};
use crate::object::OrdinaryRead;
use crate::runtime::{Runtime, ATOM_LENGTH};
use crate::slots::{FrameBinding, Slots};
use crate::text::Texts;
use crate::value::{Completion, JsValue, NativeConversion, ObjectRef, PropertyKey};

verus! {

impl Texts {
    /// The number whose decimal digits follow from `from`, after `seen`.
    pub open spec fn number_from(text: Seq<u16>, from: int, seen: nat) -> Option<nat>
        decreases text.len() - from,
    {
        if from < 0 || from >= text.len() {
            Some(seen)
        } else if 48 <= text[from] <= 57 {
            Texts::number_from(text, from + 1, (seen * 10 + (text[from] - 48)) as nat)
        } else {
            None
        }
    }

    /// The array index that a text names: decimal digits without a leading zero.
    pub open spec fn index(text: Seq<u16>) -> Option<nat> {
        if text.len() == 0 || (text.len() > 1 && text[0] == 48) {
            None
        } else {
            Texts::number_from(text, 0, 0)
        }
    }
}

proof fn numbers_grow(text: Seq<u16>, from: int, seen: nat)
    ensures
        Texts::number_from(text, from, seen) matches Some(n) ==> n >= seen,
    decreases text.len() - from,
{
    if 0 <= from < text.len() && 48 <= text[from] <= 57 {
        numbers_grow(text, from + 1, (seen * 10 + (text[from] - 48)) as nat);
    }
}

/// The index that a text names, if it lies below `bound`.
pub fn index_below(text: &Vec<u16>, bound: usize) -> (r: Option<usize>)
    ensures
        r == (match Texts::index(text@) {
            Some(n) => if n < bound {
                Some(n as usize)
            } else {
                None
            },
            None => None,
        }),
{
    if text.len() == 0 || (text.len() > 1 && text[0] == 48) {
        return None;
    }
    let mut seen: usize = 0;
    let mut i: usize = 0;
    while i < text.len()
        invariant
            i <= text@.len(),
            Texts::number_from(text@, 0, 0) == Texts::number_from(text@, i as int, seen as nat),
            Texts::index(text@) == Texts::number_from(text@, 0, 0),
        decreases text@.len() - i,
    {
        let unit: u16 = text[i];
        if unit < 48 || unit > 57 {
            return None;
        }
        let digit: usize = (unit - 48) as usize;
        proof {
            numbers_grow(text@, i as int + 1, (seen * 10 + digit) as nat);
        }
        let next: Option<usize> = match seen.checked_mul(10) {
            Some(tens) => tens.checked_add(digit),
            None => None,
        };
        match next {
            Some(next) => {
                seen = next;
            },
            None => {
                return None;
            },
        }
        i = i + 1;
    }
    if seen < bound {
        Some(seen)
    } else {
        None
    }
}

impl Heap {
    /// The object whose properties a primitive shows.
    pub open spec fn primitive_prototype(realm: Realm, value: JsValue) -> ObjectRef {
        match value {
            JsValue::String(_) => realm.string_prototype,
            JsValue::Bool(_) => realm.boolean_prototype,
            JsValue::Symbol(_) => realm.symbol_prototype,
            JsValue::BigInt(_) => realm.bigint_prototype,
            _ => realm.number_prototype,
        }
    }

    /// An own property of a string: its length or one of its units.
    pub open spec fn string_own(self, value: JsValue, key: PropertyKey) -> Option<(Heap, JsValue)> {
        match (value, key) {
            (JsValue::String(atom), PropertyKey::String(name)) => {
                let text = self.text_at(atom);
                if name == ATOM_LENGTH {
                    Some((self, JsValue::Int(text.len() as i32)))
                } else {
                    match Texts::index(self.text_at(name)) {
                        Some(n) => if n < text.len() {
                            let unit = seq![text[n as int]];
                            Some(
                                (
                                    self.with_text(unit),
                                    JsValue::String(Texts::atom_of(self.texts, unit)),
                                ),
                            )
                        } else {
                            None
                        },
                        None => None,
                    }
                }
            },
            _ => None,
        }
    }

    /// Reading a property of any value.
    pub open spec fn value_read(self, realm: usize, value: JsValue, key: PropertyKey) -> (
        Heap,
        Result<OrdinaryRead, Error>,
    ) {
        match value {
            JsValue::Undefined => (
                self,
                Err(Error::new(ErrorKind::Type, "cannot read property of undefined")),
            ),
            JsValue::Null => (
                self,
                Err(Error::new(ErrorKind::Type, "cannot read property of null")),
            ),
            JsValue::Object(object) => (self, if self.belongs(object) {
                self.ordinary_read(object, key, value)
            } else {
                Err(Error::wrong_runtime("property base"))
            }),
            _ => match self.string_own(value, key) {
                Some((heap, own)) => (heap, Ok(OrdinaryRead::Complete(Some(own)))),
                None => (self, match self.realm_at(realm) {
                    Err(e) => Err(e),
                    Ok(data) => self.ordinary_read(
                        Heap::primitive_prototype(data, value),
                        key,
                        value,
                    ),
                }),
            },
        }
    }
}

impl Runtime {
    fn string_own(&mut self, value: JsValue, key: PropertyKey) -> (r: Option<JsValue>)
        requires
            old(self).wf(),
        ensures
            final(self).wf(),
            match r {
                Some(own) => old(self)@.string_own(value, key) == Some((final(self)@, own)),
                None => old(self)@.string_own(value, key) is None && final(self)@ == old(self)@,
            },
    {
        match (value, key) {
            (JsValue::String(atom), PropertyKey::String(name)) => {
                let text = self.text(atom);
                if name == ATOM_LENGTH {
                    return Some(
                        JsValue::Int(
                            #[verifier::truncate]
                            (text.len() as i32),
                        ),
                    );
                }
                let name = self.text(name);
                match index_below(&name, text.len()) {
                    Some(n) => {
                        let unit: Vec<u16> = vec![text[n]];
                        assert(unit@ =~= seq![text@[n as int]]);
                        Some(JsValue::String(self.intern(unit)))
                    },
                    None => None,
                }
            },
            _ => None,
        }
    }

    /// Select what a read of `key` on any value would give, without running
    /// any code.
    pub fn prepare_value_read(&mut self, realm: usize, value: JsValue, key: PropertyKey) -> (r: Result<
        OrdinaryRead,
        Error,
    >)
        requires
            old(self).wf(),
        ensures
            final(self).wf(),
            (final(self)@, r) == old(self)@.value_read(realm, value, key),
    {
        match value {
            JsValue::Undefined => Err(
                Error::new(ErrorKind::Type, "cannot read property of undefined"),
            ),
            JsValue::Null => Err(Error::new(ErrorKind::Type, "cannot read property of null")),
            JsValue::Object(object) => {
                if object.domain == self.domain_id() {
                    self.prepare_ordinary_read(object, key, value)
                } else {
                    Err(Error::wrong_runtime("property base"))
                }
            },
            _ => {
                match self.string_own(value, key) {
                    Some(own) => {
                        return Ok(OrdinaryRead::Complete(Some(own)));
                    },
                    None => {},
                }
                let data = self.realm(realm)?;
                let prototype = match value {
                    JsValue::String(_) => data.string_prototype,
                    JsValue::Bool(_) => data.boolean_prototype,
                    JsValue::Symbol(_) => data.symbol_prototype,
                    JsValue::BigInt(_) => data.bigint_prototype,
                    _ => data.number_prototype,
                };
                self.prepare_ordinary_read(prototype, key, value)
            },
        }
    }
}

/// What names the property of a read.
#[derive(Clone, Copy, Debug, PartialEq, Eq, Structural)]
pub enum ReadKey {
    Static(u32),
    Computed { keep_key: bool },
}

/// A read whose key has been converted and whose operands are consumed.
#[derive(Clone, Copy, Debug, PartialEq, Eq, Structural)]
pub struct ConvertedRead {
    pub base: JsValue,
    pub key: JsValue,
    pub keep_receiver: bool,
    pub keep_key: bool,
}

#[derive(Clone, Copy, Debug, PartialEq, Eq, Structural)]
pub enum PropertyProgress {
    /// The value stands on the operands.
    Completed,
    Deferred(CallStep),
}

impl PropertyKey {
    pub open spec fn as_value_spec(&self) -> JsValue {
        match self {
            PropertyKey::String(atom) => JsValue::String(*atom),
            PropertyKey::Symbol(symbol) => JsValue::Symbol(*symbol),
        }
    }

    /// The key as a value.
    #[verifier::when_used_as_spec(as_value_spec)]
    pub fn as_value(&self) -> (r: JsValue)
        ensures
            r == self.as_value_spec(),
    {
        match self {
            PropertyKey::String(atom) => JsValue::String(*atom),
            PropertyKey::Symbol(symbol) => JsValue::Symbol(*symbol),
        }
    }
}

impl Heap {
    pub open spec fn static_key(function: FunctionBytecode, index: u32) -> Result<PropertyKey, Error> {
        if index < function.property_key_atoms@.len() {
            match function.property_key_atoms@[index as int] {
                Some(atom) => Ok(PropertyKey::String(atom)),
                None => Err(Error::internal("property name has no linked key")),
            }
        } else {
            Err(Error::internal("property name has no linked key"))
        }
    }

    /// Why a computed read of a nullish base fails.
    pub open spec fn nullish_read(base: JsValue, keep_key: bool) -> Error {
        Error::new(
            ErrorKind::Type,
            if keep_key {
                "value has no property"
            } else if base is Null {
                "cannot read property of null"
            } else {
                "cannot read property of undefined"
            },
        )
    }
}

impl Machine {
    /// Leaving a read of an object with its own protocol to the embedder.
    pub open spec fn begin_get(
        self,
        frame: Frame,
        dropped: nat,
        kept: Seq<JsValue>,
        request: PendingRequest,
        return_to: ReturnTarget,
    ) -> (Machine, Result<CallStep, Error>) {
        match Machine::reshuffle(self.slots, frame.window, dropped, kept) {
            (slots, Err(e)) => (Machine { slots, ..self }, Err(e)),
            (slots, Ok(_)) => match (Machine { slots, ..self }).resumed(
                frame,
                Error::internal("property resume PC overflow"),
            ) {
                (machine, Err(e)) => (machine, Err(e)),
                (machine, Ok(_)) => (
                    Machine { pending_call: Some(PendingCall { request, return_to }), ..machine },
                    Ok(CallStep::Entered),
                ),
            },
        }
    }

    /// Reading `key` of `base`: the value, preceded by `kept`, replaces
    /// `dropped` operands.
    pub open spec fn read_property(
        self,
        heap: Heap,
        id: FrameId,
        frame: Frame,
        base: JsValue,
        key: PropertyKey,
        dropped: nat,
        kept: Seq<JsValue>,
    ) -> (Heap, Machine, Result<PropertyProgress, Error>) {
        let return_to = ReturnTarget {
            value_use: ReturnValue::Push,
            frame: id,
            tail: false,
            operation: None,
        };
        match heap.value_read(frame.realm, base, key) {
            (heap, Err(e)) => {
                let (heap, r) = heap.throw_step(frame.realm, e);
                Machine::deferred(heap, self, r)
            },
            (heap, Ok(OrdinaryRead::Complete(value))) => {
                let (slots, r) = Machine::reshuffle(
                    self.slots,
                    frame.window,
                    dropped,
                    kept.push(
                        match value {
                            Some(value) => value,
                            None => JsValue::Undefined,
                        },
                    ),
                );
                let machine = Machine { slots, ..self };
                match r {
                    Err(e) => (heap, machine, Err(e)),
                    Ok(_) => match machine.resumed(
                        frame,
                        Error::internal("property resume PC overflow"),
                    ) {
                        (machine, Err(e)) => (heap, machine, Err(e)),
                        (machine, Ok(_)) => (heap, machine, Ok(PropertyProgress::Completed)),
                    },
                }
            },
            (heap, Ok(OrdinaryRead::Call { getter, receiver })) => match heap.normalize(
                frame.realm,
                getter,
                receiver,
                Seq::empty(),
                heap.objects.len(),
            ) {
                (heap, Err(e)) => (heap, self, Err(e)),
                (heap, Ok(NativeConversion::Throw(value))) => (
                    heap,
                    self,
                    Ok(PropertyProgress::Deferred(CallStep::Complete(Completion::Throw(value)))),
                ),
                (heap, Ok(NativeConversion::Value(callback))) => {
                    let (heap, machine, r) = self.enter_callback(
                        heap,
                        frame,
                        dropped,
                        kept,
                        callback,
                        return_to,
                        false,
                    );
                    Machine::deferred(heap, machine, r)
                },
            },
            (heap, Ok(OrdinaryRead::Special { object, receiver })) => {
                let (machine, r) = self.begin_get(
                    frame,
                    dropped,
                    kept,
                    PendingRequest::Get { object, key, receiver },
                    return_to,
                );
                Machine::deferred(heap, machine, r)
            },
        }
    }

    pub open spec fn deferred(heap: Heap, machine: Machine, r: Result<CallStep, Error>) -> (
        Heap,
        Machine,
        Result<PropertyProgress, Error>,
    ) {
        match r {
            Err(e) => (heap, machine, Err(e)),
            Ok(step) => (heap, machine, Ok(PropertyProgress::Deferred(step))),
        }
    }

    /// A property read of the current frame.
    pub open spec fn read_progress(
        self,
        heap: Heap,
        id: FrameId,
        key: ReadKey,
        keep_receiver: bool,
    ) -> (Heap, Machine, Result<PropertyProgress, Error>) {
        match self.frames.current(id) {
            Err(e) => (heap, self, Err(e)),
            Ok(frame) => match key {
                ReadKey::Static(index) => match heap.function_at(frame.executable) {
                    Err(e) => (heap, self, Err(e)),
                    Ok(function) => match Heap::static_key(function, index) {
                        Err(e) => (heap, self, Err(e)),
                        Ok(key) => match self.slots.peek(frame.window, 0) {
                            Err(e) => (heap, self, Err(e)),
                            Ok(base) => self.read_property(
                                heap,
                                id,
                                frame,
                                base,
                                key,
                                if keep_receiver {
                                    0
                                } else {
                                    1
                                },
                                Seq::empty(),
                            ),
                        },
                    },
                },
                ReadKey::Computed { keep_key } => match (
                    self.slots.peek(frame.window, 1),
                    self.slots.peek(frame.window, 0),
                ) {
                    (Err(e), _) => (heap, self, Err(e)),
                    (_, Err(e)) => (heap, self, Err(e)),
                    (Ok(base), Ok(name)) => if base.nullish() {
                        let (heap, r) = heap.throw_step(
                            frame.realm,
                            Heap::nullish_read(base, keep_key),
                        );
                        Machine::deferred(heap, self, r)
                    } else {
                        match heap.canonical_key(name) {
                            (heap, Err(e)) => {
                                let (heap, r) = heap.throw_step(frame.realm, e);
                                Machine::deferred(heap, self, r)
                            },
                            (heap, Ok(key)) => self.read_property(
                                heap,
                                id,
                                frame,
                                base,
                                key,
                                if keep_receiver {
                                    1
                                } else {
                                    2
                                },
                                if keep_key {
                                    seq![key.as_value()]
                                } else {
                                    Seq::empty()
                                },
                            ),
                        }
                    },
                },
            },
        }
    }

    /// A property read as the outcome of an instruction.
    pub open spec fn read(self, heap: Heap, id: FrameId, key: ReadKey, keep_receiver: bool) -> (
        Heap,
        Machine,
        Result<CallStep, Error>,
    ) {
        Machine::progressed(self.read_progress(heap, id, key, keep_receiver))
    }

    pub open spec fn progressed(step: (Heap, Machine, Result<PropertyProgress, Error>)) -> (
        Heap,
        Machine,
        Result<CallStep, Error>,
    ) {
        match step.2 {
            Err(e) => (step.0, step.1, Err(e)),
            Ok(PropertyProgress::Completed) => (step.0, step.1, Ok(CallStep::Entered)),
            Ok(PropertyProgress::Deferred(r)) => (step.0, step.1, Ok(r)),
        }
    }

    /// A read whose key has been converted.
    pub open spec fn read_converted(self, heap: Heap, id: FrameId, input: ConvertedRead) -> (
        Heap,
        Machine,
        Result<CallStep, Error>,
    ) {
        match self.frames.current(id) {
            Err(e) => (heap, self, Err(e)),
            Ok(frame) => match heap.canonical_key(input.key) {
                (heap, Err(e)) => {
                    let (heap, r) = heap.throw_step(frame.realm, e);
                    (heap, self, r)
                },
                (heap, Ok(key)) => Machine::progressed(
                    self.read_property(
                        heap,
                        id,
                        frame,
                        input.base,
                        key,
                        0,
                        (if input.keep_receiver {
                            seq![input.base]
                        } else {
                            Seq::empty()
                        }) + (if input.keep_key {
                            seq![key.as_value()]
                        } else {
                            Seq::empty()
                        }),
                    ),
                ),
            },
        }
    }
}

/// The key of a linked name.
pub fn static_key(function: &FunctionBytecode, index: u32) -> (r: Result<PropertyKey, Error>)
    ensures
        r == Heap::static_key(*function, index),
{
    if (index as usize) < function.property_key_atoms.len() {
        match function.property_key_atoms[index as usize] {
            Some(atom) => Ok(PropertyKey::String(atom)),
            None => Err(Error::internal("property name has no linked key")),
        }
    } else {
        Err(Error::internal("property name has no linked key"))
    }
}

impl RunningExecution {
    /// Leave a read of an object with its own protocol to the embedder.
    pub fn begin_get(
        &mut self,
        frame: Frame,
        dropped: usize,
        kept: &Vec<JsValue>,
        request: PendingRequest,
        return_to: ReturnTarget,
    ) -> (r: Result<CallStep, Error>)
        requires
            old(self)@.frames.frames.len() > 0,
        ensures
            (final(self)@, r) == old(self)@.begin_get(
                frame,
                dropped as nat,
                kept@,
                request,
                return_to,
            ),
    {
        self.slots.discard(frame.window, dropped)?;
        self.slots.push_all(kept)?;
        self.resume_after(frame, Error::internal("property resume PC overflow"))?;
        self.pending_call = Some(PendingCall { request, return_to });
        Ok(CallStep::Entered)
    }

    /// Read `key` of `base` in place of `dropped` operands.
    pub fn read_property(
        &mut self,
        runtime: &mut Runtime,
        id: FrameId,
        frame: Frame,
        base: JsValue,
        key: PropertyKey,
        dropped: usize,
        kept: Vec<JsValue>,
    ) -> (r: Result<PropertyProgress, Error>)
        requires
            old(runtime).wf(),
            old(self)@.frames.frames.len() > 0,
        ensures
            final(runtime).wf(),
            (final(runtime)@, final(self)@, r) == old(self)@.read_property(
                old(runtime)@,
                id,
                frame,
                base,
                key,
                dropped as nat,
                kept@,
            ),
    {
        let return_to = ReturnTarget {
            value_use: ReturnValue::Push,
            frame: id,
            tail: false,
            operation: None,
        };
        match runtime.prepare_value_read(frame.realm, base, key) {
            Err(e) => {
                let step = runtime.throw_step(frame.realm, e)?;
                Ok(PropertyProgress::Deferred(step))
            },
            Ok(OrdinaryRead::Complete(value)) => {
                let mut list = kept;
                list.push(
                    match value {
                        Some(value) => value,
                        None => JsValue::Undefined,
                    },
                );
                self.slots.discard(frame.window, dropped)?;
                self.slots.push_all(&list)?;
                self.resume_after(frame, Error::internal("property resume PC overflow"))?;
                Ok(PropertyProgress::Completed)
            },
            Ok(OrdinaryRead::Call { getter, receiver }) => {
                match normalize_callback(runtime, frame.realm, getter, receiver, Vec::new())? {
                    NativeConversion::Throw(value) => Ok(
                        PropertyProgress::Deferred(CallStep::Complete(Completion::Throw(value))),
                    ),
                    NativeConversion::Value(callback) => {
                        let step = self.enter_callback(
                            runtime,
                            frame,
                            dropped,
                            &kept,
                            callback,
                            return_to,
                            false,
                        )?;
                        Ok(PropertyProgress::Deferred(step))
                    },
                }
            },
            Ok(OrdinaryRead::Special { object, receiver }) => {
                let step = self.begin_get(
                    frame,
                    dropped,
                    &kept,
                    PendingRequest::Get { object, key, receiver },
                    return_to,
                )?;
                Ok(PropertyProgress::Deferred(step))
            },
        }
    }
}

/// Read a property of the current frame.
pub fn read_progress(
    runtime: &mut Runtime,
    execution: &mut RunningExecution,
    id: FrameId,
    key: ReadKey,
    keep_receiver: bool,
) -> (r: Result<PropertyProgress, Error>)
    requires
        old(runtime).wf(),
    ensures
        final(runtime).wf(),
        (final(runtime)@, final(execution)@, r) == old(execution)@.read_progress(
            old(runtime)@,
            id,
            key,
            keep_receiver,
        ),
{
    let frame = execution.frames.current(id)?;
    match key {
        ReadKey::Static(index) => {
            let key = static_key(runtime.function_bytecode(frame.executable)?, index)?;
            let base = execution.slots.peek(frame.window, 0)?;
            execution.read_property(
                runtime,
                id,
                frame,
                base,
                key,
                if keep_receiver {
                    0
                } else {
                    1
                },
                Vec::new(),
            )
        },
        ReadKey::Computed { keep_key } => {
            let base = execution.slots.peek(frame.window, 1)?;
            let name = execution.slots.peek(frame.window, 0)?;
            if base.nullish() {
                let text = if keep_key {
                    "value has no property"
                } else if base == JsValue::Null {
                    "cannot read property of null"
                } else {
                    "cannot read property of undefined"
                };
                let step = runtime.throw_step(frame.realm, Error::new(ErrorKind::Type, text))?;
                return Ok(PropertyProgress::Deferred(step));
            }
            let key = match runtime.native_to_property_key(name) {
                Ok(key) => key,
                Err(e) => {
                    let step = runtime.throw_step(frame.realm, e)?;
                    return Ok(PropertyProgress::Deferred(step));
                },
            };
            let mut kept: Vec<JsValue> = Vec::new();
            if keep_key {
                kept.push(key.as_value());
            }
            assert(kept@ =~= if keep_key {
                seq![key.as_value()]
            } else {
                Seq::empty()
            });
            execution.read_property(
                runtime,
                id,
                frame,
                base,
                key,
                if keep_receiver {
                    1
                } else {
                    2
                },
                kept,
            )
        },
    }
}

/// Read a property of the current frame as an instruction.
pub fn read(
    runtime: &mut Runtime,
    execution: &mut RunningExecution,
    id: FrameId,
    key: ReadKey,
    keep_receiver: bool,
) -> (r: Result<CallStep, Error>)
    requires
        old(runtime).wf(),
    ensures
        final(runtime).wf(),
        (final(runtime)@, final(execution)@, r) == old(execution)@.read(
            old(runtime)@,
            id,
            key,
            keep_receiver,
        ),
{
    match read_progress(runtime, execution, id, key, keep_receiver)? {
        PropertyProgress::Completed => Ok(CallStep::Entered),
        PropertyProgress::Deferred(step) => Ok(step),
    }
}

/// Read a property whose key has been converted.
pub fn read_converted(
    runtime: &mut Runtime,
    execution: &mut RunningExecution,
    id: FrameId,
    input: ConvertedRead,
) -> (r: Result<CallStep, Error>)
    requires
        old(runtime).wf(),
    ensures
        final(runtime).wf(),
        (final(runtime)@, final(execution)@, r) == old(execution)@.read_converted(
            old(runtime)@,
            id,
            input,
        ),
{
    let frame = execution.frames.current(id)?;
    let key = match runtime.native_to_property_key(input.key) {
        Ok(key) => key,
        Err(e) => {
            return runtime.throw_step(frame.realm, e);
        },
    };
    let mut kept: Vec<JsValue> = Vec::new();
    if input.keep_receiver {
        kept.push(input.base);
    }
    if input.keep_key {
        kept.push(key.as_value());
    }
    assert(kept@ =~= (if input.keep_receiver {
        seq![input.base]
    } else {
        Seq::empty()
    }) + (if input.keep_key {
        seq![key.as_value()]
    } else {
        Seq::empty()
    }));
    match execution.read_property(runtime, id, frame, input.base, key, 0, kept)? {
        PropertyProgress::Completed => Ok(CallStep::Entered),
        PropertyProgress::Deferred(step) => Ok(step),
    }
}

/// A nullish base is refused before its key is looked at: whatever the key is,
/// the same error is thrown and no conversion starts.
pub proof fn nullish_bases_are_refused_first(
    machine: Machine,
    heap: Heap,
    id: FrameId,
    frame: Frame,
    keep_receiver: bool,
    keep_key: bool,
)
    requires
        machine.frames.current(id) == Ok::<Frame, Error>(frame),
        machine.slots.peek(frame.window, 1) matches Ok(base) && base.nullish(),
        machine.slots.peek(frame.window, 0) is Ok,
    ensures
        ({
            let base = machine.slots.peek(frame.window, 1)->Ok_0;
            let (thrown, r) = heap.throw_step(frame.realm, Heap::nullish_read(base, keep_key));
            machine.read(heap, id, ReadKey::Computed { keep_key }, keep_receiver) == (
                thrown,
                machine,
                r,
            )
        }),
{
}

/// A converted read never has to be repeated by the embedder.
pub proof fn converted_reads_are_never_replayed(
    machine: Machine,
    heap: Heap,
    id: FrameId,
    input: ConvertedRead,
)
    ensures
        machine.read_converted(heap, id, input).2 != Ok::<CallStep, Error>(CallStep::Bridge),
{
}

proof fn numbers_read_their_digits(text: Seq<u16>, from: int)
    requires
        0 <= from <= text.len(),
    ensures
        (forall|i: int| 0 <= i < text.len() ==> 48 <= #[trigger] text[i] <= 57) ==> {
            &&& Texts::read_digits(text.take(from)) >= 0
            &&& Texts::number_from(text, from, Texts::read_digits(text.take(from)) as nat) == Some(
                Texts::read_digits(text) as nat,
            )
        },
    decreases text.len() - from,
{
    if forall|i: int| 0 <= i < text.len() ==> 48 <= #[trigger] text[i] <= 57 {
        digits_are_natural(text.take(from));
        if from < text.len() {
            assert(text.take(from + 1).drop_last() =~= text.take(from));
            assert(text.take(from + 1).last() == text[from]);
            numbers_read_their_digits(text, from + 1);
        } else {
            assert(text.take(from) =~= text);
        }
    }
}

proof fn digits_are_natural(text: Seq<u16>)
    requires
        forall|i: int| 0 <= i < text.len() ==> 48 <= #[trigger] text[i] <= 57,
    ensures
        Texts::read_digits(text) >= 0,
        text.len() > 0 && text[0] != 48 ==> Texts::read_digits(text) > 0,
    decreases text.len(),
{
    if text.len() > 0 {
        assert forall|i: int| 0 <= i < text.drop_last().len() implies 48
            <= #[trigger] text.drop_last()[i] <= 57 by {
            assert(text.drop_last()[i] == text[i]);
        }
        digits_are_natural(text.drop_last());
        if text.len() == 1 {
            assert(text.drop_last() =~= Seq::<u16>::empty());
        }
    }
}

proof fn only_digits_are_numbers(text: Seq<u16>, from: int, seen: nat)
    requires
        0 <= from <= text.len(),
        Texts::number_from(text, from, seen) is Some,
    ensures
        forall|i: int| from <= i < text.len() ==> 48 <= #[trigger] text[i] <= 57,
    decreases text.len() - from,
{
    if from < text.len() {
        only_digits_are_numbers(
            text,
            from + 1,
            (seen * 10 + (text[from] - 48)) as nat,
        );
    }
}

proof fn canonical_digits_are_digits(text: Seq<u16>)
    requires
        text.len() > 0,
        forall|i: int| 0 <= i < text.len() ==> 48 <= #[trigger] text[i] <= 57,
        text[0] == 48 ==> text.len() == 1,
    ensures
        Texts::read_digits(text) >= 0,
        Texts::digits(Texts::read_digits(text) as nat) == text,
    decreases text.len(),
{
    digits_are_natural(text);
    let n = Texts::read_digits(text) as nat;
    if text.len() == 1 {
        assert(text.drop_last() =~= Seq::<u16>::empty());
        assert(Texts::read_digits(Seq::<u16>::empty()) == 0);
        assert(Texts::digits(n) =~= text);
    } else {
        let init = text.drop_last();
        assert forall|i: int| 0 <= i < init.len() implies 48 <= #[trigger] init[i] <= 57 by {
            assert(init[i] == text[i]);
        }
        assert(init[0] == text[0]);
        canonical_digits_are_digits(init);
        digits_are_natural(init);
        assert(n == 10 * Texts::read_digits(init) + (text.last() - 48));
        assert(n >= 10);
        assert(n / 10 == Texts::read_digits(init));
        assert(n % 10 == text.last() - 48);
        assert(Texts::digits(n) =~= text);
    }
}

/// The texts that are indices are exactly the decimal texts of the natural
/// numbers: each number has one, and a text with a leading zero, a sign or any
/// other unit has none.
pub proof fn indices_are_decimal_texts(text: Seq<u16>, n: nat)
    ensures
        Texts::index(text) == Some(n) <==> text == Texts::digits(n),
{
    if text == Texts::digits(n) {
        crate::text::digits_read_back(n);
        numbers_read_their_digits(text, 0);
        assert(Texts::read_digits(text.take(0)) == 0);
    }
    if Texts::index(text) == Some(n) {
        only_digits_are_numbers(text, 0, 0);
        canonical_digits_are_digits(text);
        numbers_read_their_digits(text, 0);
        assert(Texts::read_digits(text.take(0)) == 0);
    }
}

/// Reading a property of a value: undefined and null have none, an object is
/// read on behalf of itself, and any other value through the prototype of its
/// type, on behalf of the value and not of a wrapper.
pub proof fn reads_go_by_the_type_of_the_base(
    heap: Heap,
    realm: usize,
    value: JsValue,
    key: PropertyKey,
)
    requires
        realm < heap.realms.len(),
    ensures
        value is Undefined ==> heap.value_read(realm, value, key).0 == heap && (heap.value_read(
            realm,
            value,
            key,
        ).1 matches Err(e) && e.kind is Type && heap.error_text(e) == Texts::units(
            "cannot read property of undefined",
        )),
        value is Null ==> heap.value_read(realm, value, key).0 == heap && (heap.value_read(
            realm,
            value,
            key,
        ).1 matches Err(e) && e.kind is Type && heap.error_text(e) == Texts::units(
            "cannot read property of null",
        )),
        value matches JsValue::Object(object) ==> object.domain == heap.domain ==> heap.value_read(
            realm,
            value,
            key,
        ) == (heap, heap.ordinary_read(object, key, value)),
        !(value is Undefined || value is Null || value is Object || value is String)
            ==> heap.value_read(realm, value, key) == (
            heap,
            heap.ordinary_read(
                if value is Bool {
                    heap.realms[realm as int].boolean_prototype
                } else if value is Symbol {
                    heap.realms[realm as int].symbol_prototype
                } else if value is BigInt {
                    heap.realms[realm as int].bigint_prototype
                } else {
                    heap.realms[realm as int].number_prototype
                },
                key,
                value,
            ),
        ),
{
    reveal_strlit("");
    reveal_strlit("cannot read property of undefined");
    reveal_strlit("cannot read property of null");
    let a = Error::new(ErrorKind::Type, "cannot read property of undefined");
    let b = Error::new(ErrorKind::Type, "cannot read property of null");
    assert(heap.error_text(a) =~= Texts::units("cannot read property of undefined"));
    assert(heap.error_text(b) =~= Texts::units("cannot read property of null"));
}

/// A string has its length and its units as properties of its own: the unit
/// under an index is the text of that one unit, and an index that is not below
/// the length is looked up elsewhere.
pub proof fn strings_own_their_length_and_units(
    heap: Heap,
    realm: usize,
    atom: usize,
    name: usize,
    n: nat,
)
    requires
        Heap::pinned(heap.texts),
        realm < heap.realms.len(),
        name < heap.texts.len() < usize::MAX,
        heap.text_at(atom).len() <= i32::MAX,
    ensures
        heap.value_read(realm, JsValue::String(atom), PropertyKey::String(ATOM_LENGTH)).1 matches Ok(
            OrdinaryRead::Complete(Some(JsValue::Int(length))),
        ) && length == heap.text_at(atom).len(),
        heap.texts[name as int] == Texts::digits(n) && n < heap.text_at(atom).len() ==> {
            let (after, r) = heap.value_read(realm, JsValue::String(atom), PropertyKey::String(name));
            r matches Ok(OrdinaryRead::Complete(Some(JsValue::String(unit)))) && after.text_at(unit)
                == seq![heap.text_at(atom)[n as int]]
        },
        heap.texts[name as int] == Texts::digits(n) && n >= heap.text_at(atom).len() ==> heap.value_read(
            realm,
            JsValue::String(atom),
            PropertyKey::String(name),
        ) == (
            heap,
            heap.ordinary_read(
                heap.realms[realm as int].string_prototype,
                PropertyKey::String(name),
                JsValue::String(atom),
            ),
        ),
{
    if heap.texts[name as int] == Texts::digits(n) {
        indices_are_decimal_texts(heap.texts[name as int], n);
        crate::text::indices_are_not_length(n);
        if n < heap.text_at(atom).len() {
            crate::text::interning_names_the_text(heap.texts, seq![heap.text_at(atom)[n as int]]);
        }
    }
}

/// A read that needs no code puts the value in the place of its operands: of
/// the base, or above it where the receiver is kept; of the base and the key,
/// or above the key in its canonical form where that is kept.  An absent
/// property reads as undefined.
pub proof fn read_values_replace_their_operands(
    machine: Machine,
    heap: Heap,
    id: FrameId,
    frame: Frame,
    below: JsValue,
    top: JsValue,
    key: PropertyKey,
    index: u32,
    found: Option<JsValue>,
    after: Heap,
)
    requires
        machine.frames.current(id) == Ok::<Frame, Error>(frame),
        frame.fault_pc < usize::MAX,
        frame.executable < heap.code.len(),
        machine.slots.peek(frame.window, 1) == Ok::<JsValue, Error>(below),
        machine.slots.peek(frame.window, 0) == Ok::<JsValue, Error>(top),
        machine.slots.values.len() < machine.slots.limit,
        Heap::static_key(heap.code[frame.executable as int], index) == Ok::<PropertyKey, Error>(key),
    ensures
        ({
            let value = match found {
                Some(value) => value,
                None => JsValue::Undefined,
            };
            let one = machine.slots.values.take(machine.slots.values.len() - 1);
            let two = machine.slots.values.take(machine.slots.values.len() - 2);
            let next = Ok::<Frame, Error>(
                Frame { resume_pc: (frame.fault_pc + 1) as usize, ..frame },
            );
            &&& heap.value_read(frame.realm, top, key) == (
                after,
                Ok::<OrdinaryRead, Error>(OrdinaryRead::Complete(found)),
            ) ==> {
                let (h, m, r) = machine.read_progress(heap, id, ReadKey::Static(index), false);
                let (h2, m2, r2) = machine.read_progress(heap, id, ReadKey::Static(index), true);
                &&& r == Ok::<PropertyProgress, Error>(PropertyProgress::Completed) && r2 == r
                &&& h == after && h2 == after
                &&& m.frames.current(id) == next && m2.frames.current(id) == next
                &&& m.slots.values == one.push(FrameBinding::Direct(value))
                &&& m2.slots.values == machine.slots.values.push(FrameBinding::Direct(value))
            }
            &&& !below.nullish() && heap.canonical_key(top) == (
                heap,
                Ok::<PropertyKey, Error>(key),
            ) && heap.value_read(frame.realm, below, key) == (
                after,
                Ok::<OrdinaryRead, Error>(OrdinaryRead::Complete(found)),
            ) ==> {
                let plain = ReadKey::Computed { keep_key: false };
                let kept = ReadKey::Computed { keep_key: true };
                let (_, m, r) = machine.read_progress(heap, id, plain, false);
                let (_, m2, r2) = machine.read_progress(heap, id, plain, true);
                let (_, m3, r3) = machine.read_progress(heap, id, kept, true);
                &&& r == Ok::<PropertyProgress, Error>(PropertyProgress::Completed) && r2 == r
                    && r3 == r
                &&& m.frames.current(id) == next && m2.frames.current(id) == next
                &&& m.slots.values == two.push(FrameBinding::Direct(value))
                &&& m2.slots.values == one.push(FrameBinding::Direct(value))
                &&& m3.slots.values == one.push(
                    FrameBinding::Direct(
                        match key {
                            PropertyKey::String(atom) => JsValue::String(atom),
                            PropertyKey::Symbol(symbol) => JsValue::Symbol(symbol),
                        },
                    ),
                ).push(FrameBinding::Direct(value))
            }
        }),
{
    reveal_with_fuel(Slots::discard, 3);
    reveal_with_fuel(Slots::push_all, 4);
    let slots = machine.slots;
    let first = slots.pop(frame.window).0;
    assert(first.peek(frame.window, 0) == slots.peek(frame.window, 1));
    assert(first.values =~= slots.values.take(slots.values.len() - 1));
    assert(first.values.drop_last() =~= slots.values.take(slots.values.len() - 2));
    let value = match found {
        Some(value) => value,
        None => JsValue::Undefined,
    };
    assert(Seq::<JsValue>::empty().push(value).drop_first() =~= Seq::<JsValue>::empty());
    assert(seq![key.as_value()].push(value).drop_first() =~= Seq::<JsValue>::empty().push(value));
}

/// A getter is called on the receiver of the read without arguments, whatever
/// object it was found on.
pub proof fn getters_are_called_on_the_receiver(
    heap: Heap,
    realm: usize,
    value: JsValue,
    key: PropertyKey,
)
    ensures
        match heap.value_read(realm, value, key).1 {
            Ok(OrdinaryRead::Call { receiver, .. }) => receiver == value,
            Ok(OrdinaryRead::Special { receiver, .. }) => receiver == value,
            _ => true,
        },
{
    if let JsValue::Object(object) = value {
        crate::object::reads_keep_their_receiver(
            heap,
            object,
            key,
            value,
            heap.objects.len() + 1,
        );
    }
    if realm < heap.realms.len() {
        crate::object::reads_keep_their_receiver(
            heap,
            Heap::primitive_prototype(heap.realms[realm as int], value),
            key,
            value,
            heap.objects.len() + 1,
        );
    }
}

/// A computed read that keeps its key for a later write says only that the value
/// has no property; any other one names null or undefined.
pub proof fn nullish_reads_say_what_failed(heap: Heap)
    ensures
        heap.error_text(Heap::nullish_read(JsValue::Undefined, false)) == Texts::units(
            "cannot read property of undefined",
        ),
        heap.error_text(Heap::nullish_read(JsValue::Null, false)) == Texts::units(
            "cannot read property of null",
        ),
        forall|base: JsValue|
            heap.error_text(#[trigger] Heap::nullish_read(base, true)) == Texts::units(
                "value has no property",
            ),
        forall|base: JsValue, keep: bool|
            (#[trigger] Heap::nullish_read(base, keep)).kind is Type,
{
    reveal_strlit("");
    assert(Texts::units("") =~= Seq::<u16>::empty());
    assert(heap.error_text(Heap::nullish_read(JsValue::Undefined, false)) =~= Texts::units(
        "cannot read property of undefined",
    ));
    assert(heap.error_text(Heap::nullish_read(JsValue::Null, false)) =~= Texts::units(
        "cannot read property of null",
    ));
    assert forall|base: JsValue|
        heap.error_text(#[trigger] Heap::nullish_read(base, true)) == Texts::units(
            "value has no property",
        ) by {
        assert(heap.error_text(Heap::nullish_read(base, true)) =~= Texts::units(
            "value has no property",
        ));
    }
}

} // verus!
