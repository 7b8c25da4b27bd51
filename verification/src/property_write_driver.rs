//! Property writes on arbitrary bases.
use vstd::prelude::*;
use crate::conversion_driver::ConvertedWrite;
use crate::driver::CallStep;
use crate::environment_driver::Effect;
use crate::error::{Error, ErrorKind};
use crate::execution::{Machine, RunningExecution};
use crate::frame::{Frame, FrameId};
use crate::heap::{Heap, ObjectPayload};
use crate::object::{OrdinaryRead, PropertySetAction};
use crate::property_driver::static_key;
use crate::runtime::Runtime;
use crate::value::{JsValue, ObjectRef, PropertyKey};

verus! {

impl Heap {
    /// Why a write to a nullish base fails.
    pub open spec fn nullish_write(base: JsValue) -> Error {
        Error::new(
            ErrorKind::Type,
            if base is Null {
                "cannot set property of null"
            } else {
                "cannot set property of undefined"
            },
        )
    }

    /// Whether writes to an object follow the ordinary protocol.
    pub open spec fn writes_here(self, object: ObjectRef) -> Result<bool, Error> {
        if !self.belongs(object) {
            Ok(false)
        } else {
            match self.object_at(object) {
                Err(e) => Err(e),
                Ok(data) => Ok(
                    match data.payload {
                        ObjectPayload::Ordinary => true,
                        ObjectPayload::Error => true,
                        ObjectPayload::GlobalObject => true,
                        ObjectPayload::NativeFunction(_) => true,
                        ObjectPayload::BoundFunction { .. } => true,
                        ObjectPayload::BytecodeFunction(_) => true,
                        _ => false,
                    },
                ),
            }
        }
    }
}

impl Machine {
    /// Writing a property in place of `dropped` operands.
    pub open spec fn write_value(
        self,
        heap: Heap,
        id: FrameId,
        frame: Frame,
        base: JsValue,
        key: PropertyKey,
        value: JsValue,
        dropped: nat,
        strict: bool,
    ) -> (Heap, Machine, Result<CallStep, Error>) {
        match base {
            JsValue::Object(object) => match heap.writes_here(object) {
                Err(e) => (heap, self, Err(e)),
                Ok(false) => (heap, self, Ok(CallStep::Bridge)),
                Ok(true) => match self.put_property(
                    heap,
                    frame,
                    object,
                    key,
                    Ok(value),
                    dropped,
                    strict,
                    false,
                ) {
                    (heap, machine, Err(e)) => {
                        let (heap, r) = heap.throw_step(frame.realm, e);
                        (heap, machine, r)
                    },
                    (heap, machine, Ok(effect)) => machine.finish_environment(
                        heap,
                        id,
                        frame,
                        effect,
                    ),
                },
            },
            _ => if base.nullish() {
                let (heap, r) = heap.throw_step(frame.realm, Heap::nullish_write(base));
                (heap, self, r)
            } else {
                (heap, self, Ok(CallStep::Bridge))
            },
        }
    }

    /// A property write of the current frame; without a linked name the key is
    /// an operand.
    pub open spec fn write(self, heap: Heap, id: FrameId, key: Option<u32>) -> (
        Heap,
        Machine,
        Result<CallStep, Error>,
    ) {
        let dropped: nat = if key is Some {
            2
        } else {
            3
        };
        match self.frames.current(id) {
            Err(e) => (heap, self, Err(e)),
            Ok(frame) => match heap.function_at(frame.executable) {
                Err(e) => (heap, self, Err(e)),
                Ok(function) => match (
                    self.slots.peek(frame.window, dropped - 1),
                    self.slots.peek(frame.window, 0),
                ) {
                    (Err(e), _) => (heap, self, Err(e)),
                    (_, Err(e)) => (heap, self, Err(e)),
                    (Ok(base), Ok(value)) => {
                        let (heap, named) = match key {
                            Some(index) => (heap, Heap::static_key(function, index)),
                            None => match self.slots.peek(frame.window, 1) {
                                Err(e) => (heap, Err(e)),
                                Ok(operand) => heap.canonical_key(operand),
                            },
                        };
                        match named {
                            Err(e) => {
                                let (heap, r) = heap.throw_step(frame.realm, e);
                                (heap, self, r)
                            },
                            Ok(key) => self.write_value(
                                heap,
                                id,
                                frame,
                                base,
                                key,
                                value,
                                dropped,
                                function.metadata.strict,
                            ),
                        }
                    },
                },
            },
        }
    }

    /// A write whose key has been converted.  A write that is left to the
    /// embedder gets its operands back with the key already converted.
    pub open spec fn write_converted(self, heap: Heap, id: FrameId, input: ConvertedWrite) -> (
        Heap,
        Machine,
        Result<CallStep, Error>,
    ) {
        match self.frames.current(id) {
            Err(e) => (heap, self, Err(e)),
            Ok(frame) => match heap.function_at(frame.executable) {
                Err(e) => (heap, self, Err(e)),
                Ok(function) => match heap.canonical_key(input.key) {
                    (heap, Err(e)) => {
                        let (heap, r) = heap.throw_step(frame.realm, e);
                        (heap, self, r)
                    },
                    (heap, Ok(key)) => match self.write_value(
                        heap,
                        id,
                        frame,
                        input.base,
                        key,
                        input.value,
                        0,
                        function.metadata.strict,
                    ) {
                        (heap, machine, Ok(CallStep::Bridge)) => {
                            let (slots, r) = machine.slots.push_all(
                                seq![input.base, key.as_value(), input.value],
                            );
                            (
                                heap,
                                Machine { slots, ..machine },
                                match r {
                                    Err(e) => Err(e),
                                    Ok(_) => Ok(CallStep::Bridge),
                                },
                            )
                        },
                        done => done,
                    },
                },
            },
        }
    }
}

fn nullish_write(base: JsValue) -> (r: Error)
    requires
        base.nullish(),
    ensures
        r == Heap::nullish_write(base),
{
    Error::new(
        ErrorKind::Type,
        if base == JsValue::Null {
            "cannot set property of null"
        } else {
            "cannot set property of undefined"
        },
    )
}

fn writes_here(runtime: &Runtime, object: ObjectRef) -> (r: Result<bool, Error>)
    ensures
        r == runtime@.writes_here(object),
{
    if object.domain != runtime.domain_id() {
        return Ok(false);
    }
    Ok(
        match runtime.object(object)?.payload {
            ObjectPayload::Ordinary => true,
            ObjectPayload::Error => true,
            ObjectPayload::GlobalObject => true,
            ObjectPayload::NativeFunction(_) => true,
            ObjectPayload::BoundFunction { .. } => true,
            ObjectPayload::BytecodeFunction(_) => true,
            _ => false,
        },
    )
}

impl RunningExecution {
    fn write_value(
        &mut self,
        runtime: &mut Runtime,
        id: FrameId,
        frame: Frame,
        base: JsValue,
        key: PropertyKey,
        value: JsValue,
        dropped: usize,
        strict: bool,
    ) -> (r: Result<CallStep, Error>)
        requires
            old(runtime).wf(),
            old(self)@.frames.frames.len() > 0,
        ensures
            final(runtime).wf(),
            (final(runtime)@, final(self)@, r) == old(self)@.write_value(
                old(runtime)@,
                id,
                frame,
                base,
                key,
                value,
                dropped as nat,
                strict,
            ),
    {
        let object = match base {
            JsValue::Object(object) => object,
            _ => {
                if base.nullish() {
                    return runtime.throw_step(frame.realm, nullish_write(base));
                }
                return Ok(CallStep::Bridge);
            },
        };
        if !writes_here(runtime, object)? {
            return Ok(CallStep::Bridge);
        }
        let effect: Result<Effect, Error> = self.put_property(
            runtime,
            frame,
            object,
            key,
            Ok(value),
            dropped,
            strict,
            false,
        );
        match effect {
            Err(e) => runtime.throw_step(frame.realm, e),
            Ok(effect) => self.finish_environment(runtime, id, frame, effect),
        }
    }
}

/// Write a property.  Ordinary setters run as frames; other protocols are left
/// to the embedder with nothing changed.
pub fn write(
    runtime: &mut Runtime,
    execution: &mut RunningExecution,
    id: FrameId,
    key: Option<u32>,
) -> (r: Result<CallStep, Error>)
    requires
        old(runtime).wf(),
    ensures
        final(runtime).wf(),
        (final(runtime)@, final(execution)@, r) == old(execution)@.write(old(runtime)@, id, key),
{
    let dropped: usize = if key.is_some() {
        2
    } else {
        3
    };
    let frame = execution.frames.current(id)?;
    let strict = runtime.function_bytecode(frame.executable)?.metadata.strict;
    let base = execution.slots.peek(frame.window, dropped - 1)?;
    let value = execution.slots.peek(frame.window, 0)?;
    let named = match key {
        Some(index) => static_key(runtime.function_bytecode(frame.executable)?, index),
        None => match execution.slots.peek(frame.window, 1) {
            Err(e) => Err(e),
            Ok(operand) => runtime.native_to_property_key(operand),
        },
    };
    match named {
        Err(e) => runtime.throw_step(frame.realm, e),
        Ok(key) => execution.write_value(runtime, id, frame, base, key, value, dropped, strict),
    }
}

/// Write a property whose key has been converted.
pub fn write_converted(
    runtime: &mut Runtime,
    execution: &mut RunningExecution,
    id: FrameId,
    input: ConvertedWrite,
) -> (r: Result<CallStep, Error>)
    requires
        old(runtime).wf(),
    ensures
        final(runtime).wf(),
        (final(runtime)@, final(execution)@, r) == old(execution)@.write_converted(
            old(runtime)@,
            id,
            input,
        ),
{
    let frame = execution.frames.current(id)?;
    let strict = runtime.function_bytecode(frame.executable)?.metadata.strict;
    let key = match runtime.native_to_property_key(input.key) {
        Err(e) => {
            return runtime.throw_step(frame.realm, e);
        },
        Ok(key) => key,
    };
    match execution.write_value(runtime, id, frame, input.base, key, input.value, 0, strict)? {
        CallStep::Bridge => {
            let list: Vec<JsValue> = vec![input.base, key.as_value(), input.value];
            assert(list@ =~= seq![input.base, key.as_value(), input.value]);
            execution.slots.push_all(&list)?;
            Ok(CallStep::Bridge)
        },
        step => Ok(step),
    }
}

/// A write that needs no code takes the base from below the key and the value,
/// or from below the value where the name is linked, writes that property of
/// that base, and takes the operands off.  A refused write is a type error in
/// strict code and passes in other code.
pub proof fn written_values_take_their_operands(
    machine: Machine,
    heap: Heap,
    id: FrameId,
    frame: Frame,
    object: ObjectRef,
    named: ObjectRef,
    operand: JsValue,
    value: JsValue,
    key: PropertyKey,
    index: u32,
    read: OrdinaryRead,
)
    requires
        machine.frames.current(id) == Ok::<Frame, Error>(frame),
        frame.fault_pc < usize::MAX,
        frame.executable < heap.code.len(),
        machine.slots.peek(frame.window, 2) == Ok::<JsValue, Error>(JsValue::Object(object)),
        machine.slots.peek(frame.window, 1) == Ok::<JsValue, Error>(operand),
        machine.slots.peek(frame.window, 0) == Ok::<JsValue, Error>(value),
        Heap::static_key(heap.code[frame.executable as int], index) == Ok::<PropertyKey, Error>(key),
    ensures
        ({
            let strict = heap.code[frame.executable as int].metadata.strict;
            let next = Ok::<Frame, Error>(
                Frame { resume_pc: (frame.fault_pc + 1) as usize, ..frame },
            );
            let done = Ok::<CallStep, Error>(CallStep::Entered);
            &&& heap.canonical_key(operand) == (heap, Ok::<PropertyKey, Error>(key))
                && heap.writes_here(object) == Ok::<bool, Error>(true) && heap.environment_read(
                object,
                key,
            ) == Ok::<OrdinaryRead, Error>(read) && !(read is Special) ==> {
                let (after, m, r) = machine.write(heap, id, None);
                let (written, action) = heap.set(object, key, value);
                &&& action == Ok::<PropertySetAction, Error>(PropertySetAction::Complete) ==> {
                    &&& r == done && after == written && m.frames.current(id) == next
                    &&& m.slots.values == machine.slots.values.take(
                        machine.slots.values.len() - 3,
                    )
                }
                &&& (action matches Ok(PropertySetAction::Rejected(_))) && !strict ==> {
                    &&& r == done && m.frames.current(id) == next
                    &&& m.slots.values == machine.slots.values.take(
                        machine.slots.values.len() - 3,
                    )
                }
                &&& (action matches Ok(PropertySetAction::Rejected(_))) && strict && frame.realm
                    < heap.realms.len() && written == heap ==> {
                    &&& r == Ok::<CallStep, Error>(
                        CallStep::Complete(
                            crate::value::Completion::Throw(JsValue::Object(heap.next_ref())),
                        ),
                    )
                    &&& after.objects.last().prototype == Some(
                        heap.realms[frame.realm as int].type_error_prototype,
                    )
                }
            }
            &&& operand == JsValue::Object(named) && heap.writes_here(named) == Ok::<bool, Error>(
                true,
            ) && heap.environment_read(named, key) == Ok::<OrdinaryRead, Error>(read) && !(
            read is Special) && heap.set(named, key, value).1 == Ok::<PropertySetAction, Error>(
                PropertySetAction::Complete,
            ) ==> {
                let (after, m, r) = machine.write(heap, id, Some(index));
                &&& r == done && after == heap.set(named, key, value).0 && m.frames.current(id)
                    == next
                &&& m.slots.values == machine.slots.values.take(machine.slots.values.len() - 2)
            }
        }),
{
    reveal_with_fuel(crate::slots::Slots::discard, 4);
    let slots = machine.slots;
    let one = slots.pop(frame.window).0;
    let two = one.pop(frame.window).0;
    assert(one.peek(frame.window, 0) == slots.peek(frame.window, 1));
    assert(two.peek(frame.window, 0) == slots.peek(frame.window, 2));
    assert(one.values =~= slots.values.take(slots.values.len() - 1));
    assert(two.values =~= slots.values.take(slots.values.len() - 2));
    assert(two.values.drop_last() =~= slots.values.take(slots.values.len() - 3));
}

/// Undefined and null take no properties: a write to one is a type error that
/// names it, and nothing is taken off the operands.
pub proof fn nullish_bases_take_no_properties(
    machine: Machine,
    heap: Heap,
    id: FrameId,
    frame: Frame,
    base: JsValue,
    value: JsValue,
    key: PropertyKey,
    dropped: nat,
    strict: bool,
)
    requires
        frame.realm < heap.realms.len(),
        base is Undefined || base is Null,
    ensures
        ({
            let (after, m, r) = machine.write_value(
                heap,
                id,
                frame,
                base,
                key,
                value,
                dropped,
                strict,
            );
            &&& m == machine
            &&& r == Ok::<CallStep, Error>(
                CallStep::Complete(
                    crate::value::Completion::Throw(JsValue::Object(heap.next_ref())),
                ),
            )
            &&& after.objects.last().prototype == Some(
                heap.realms[frame.realm as int].type_error_prototype,
            )
            &&& heap.error_text(Heap::nullish_write(base)) == if base is Null {
                crate::text::Texts::units("cannot set property of null")
            } else {
                crate::text::Texts::units("cannot set property of undefined")
            }
        }),
{
    reveal_strlit("");
    reveal_strlit("cannot set property of undefined");
    reveal_strlit("cannot set property of null");
    assert(heap.error_text(Heap::nullish_write(base)) =~= if base is Null {
        crate::text::Texts::units("cannot set property of null")
    } else {
        crate::text::Texts::units("cannot set property of undefined")
    });
}

/// Writes follow the ordinary protocol on plain objects, errors, the global
/// object and functions of this runtime; arrays, proxies, wrappers, arguments
/// objects and foreign objects have a protocol of their own.
pub proof fn plain_objects_and_functions_are_written_here(heap: Heap, object: ObjectRef)
    requires
        object.index < heap.objects.len(),
    ensures
        ({
            let payload = heap.objects[object.index as int].payload;
            &&& heap.writes_here(object) == Ok::<bool, Error>(
                heap.belongs(object) && (Heap::callable_payload(payload) && !(payload is Proxy)
                    || payload is Ordinary || payload is Error || payload is GlobalObject),
            )
        }),
{
}

} // verus!
