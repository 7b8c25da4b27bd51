//! Object-environment lookup owns presence checks across unscopables and
//! right-hand-side callbacks.
//!
//! An operation asks for one property operation at a time and is resumed with
//! its reply; the reply alone decides how it goes on.
use vstd::prelude::*;
use crate::error::{Error, ErrorKind};
use crate::heap::Heap;
use crate::object::{OrdinaryRead, PropertySetAction, PropertySetRejection};
use crate::runtime::{Runtime, SYMBOL_UNSCOPABLES};
use crate::text::{same_text, text_units, Texts};
use crate::value::{Completion, JsValue, NativeConversion, ObjectRef, PropertyKey, SymbolRef};

verus! {

/// The next property operation, or the result.
#[derive(Clone, Copy, Debug)]
pub enum EnvironmentStep {
    Complete(Completion),
    Has { object: ObjectRef, key: PropertyKey, resume: EnvironmentResume },
    Read { object: ObjectRef, key: PropertyKey, receiver: JsValue, resume: EnvironmentResume },
    Write { object: ObjectRef, key: PropertyKey, value: JsValue, resume: EnvironmentResume },
    Delete { object: ObjectRef, key: PropertyKey, resume: EnvironmentResume },
}

/// What an operation waits for.
#[derive(Clone, Copy, Debug)]
pub struct EnvironmentResume {
    pub realm: usize,
    pub phase: Phase,
}

#[derive(Clone, Copy, Debug)]
pub enum Phase {
    Binding { object: ObjectRef, key: PropertyKey, with: bool },
    Unscopables { key: PropertyKey },
    Excluded,
    Get { object: ObjectRef, key: PropertyKey, strict: bool },
    Put { object: ObjectRef, key: PropertyKey, value: JsValue, strict: bool, reference: bool },
    Reference { object: ObjectRef },
    DeleteGlobal { object: ObjectRef, key: PropertyKey },
    Write { key: PropertyKey, strict: bool },
    Value,
    Boolean,
}

/// How a property write ended.
#[derive(Clone, Copy, Debug)]
pub enum InternalSetResult {
    Accepted,
    Rejected(PropertySetRejection),
}

/// How far an operation went without program code.
#[derive(Clone, Copy, Debug)]
pub enum EnvironmentProgress {
    Complete(Completion),
    /// A getter, a setter or an exotic object must run first.
    NeedsCall(EnvironmentStep),
}

impl Heap {
    pub open spec fn truthy(self, value: JsValue) -> bool {
        match value {
            JsValue::Undefined | JsValue::Null => false,
            JsValue::Bool(b) => b,
            JsValue::Int(n) => n != 0,
            JsValue::Float(bits) => {
                let magnitude = bits % 0x8000_0000_0000_0000u64;
                magnitude != 0 && magnitude <= 0x7ff0_0000_0000_0000u64
            },
            JsValue::String(atom) => self.text_at(atom).len() > 0,
            JsValue::BigInt(id) => !(id < self.bigint_texts.len() && self.text_at(
                self.bigint_texts[id as int],
            ) == Texts::units("0")),
            JsValue::Symbol(_) | JsValue::Object(_) => true,
        }
    }

    pub open spec fn rejection_error(reason: PropertySetRejection, key: PropertyKey) -> Error {
        match reason {
            PropertySetRejection::ReadOnly => Error::named(
                ErrorKind::Type,
                "'",
                key.atom(),
                "' is read-only",
            ),
            PropertySetRejection::NoSetter => Error::new(ErrorKind::Type, "no setter for property"),
            PropertySetRejection::NotExtensible => Error::new(
                ErrorKind::Type,
                "object is not extensible",
            ),
        }
    }

    pub open spec fn unscopables_key(self) -> PropertyKey {
        PropertyKey::Symbol(SymbolRef { domain: self.domain, index: SYMBOL_UNSCOPABLES })
    }

    /// The result of a finished property write: rejections matter in strict code only.
    pub open spec fn set_finished(
        reply: NativeConversion<InternalSetResult>,
        key: PropertyKey,
        strict: bool,
    ) -> Result<Completion, Error> {
        match reply {
            NativeConversion::Throw(value) => Ok(Completion::Throw(value)),
            NativeConversion::Value(InternalSetResult::Accepted) => Ok(
                Completion::Return(JsValue::Undefined),
            ),
            NativeConversion::Value(InternalSetResult::Rejected(reason)) => if strict {
                Err(Heap::rejection_error(reason, key))
            } else {
                Ok(Completion::Return(JsValue::Undefined))
            },
        }
    }
}

impl Runtime {
    pub fn value_to_boolean(&self, value: JsValue) -> (r: bool)
        ensures
            r == self@.truthy(value),
    {
        match value {
            JsValue::Undefined | JsValue::Null => false,
            JsValue::Bool(b) => b,
            JsValue::Int(n) => n != 0,
            JsValue::Float(bits) => {
                let magnitude: u64 = bits % 0x8000_0000_0000_0000;
                magnitude != 0 && magnitude <= 0x7ff0_0000_0000_0000
            },
            JsValue::String(atom) => self.text(atom).len() > 0,
            JsValue::BigInt(id) => {
                if id < self.bigint_texts.len() {
                    let text = self.text(self.bigint_texts[id]);
                    let zero = text_units("0");
                    !same_text(&text, &zero)
                } else {
                    true
                }
            },
            JsValue::Symbol(_) | JsValue::Object(_) => true,
        }
    }

    /// The error of a rejected write in strict code.
    pub fn set_rejection_error(reason: PropertySetRejection, key: PropertyKey) -> (r: Error)
        ensures
            r == Heap::rejection_error(reason, key),
    {
        match reason {
            PropertySetRejection::ReadOnly => Error::named(
                ErrorKind::Type,
                "'",
                key.atom(),
                "' is read-only",
            ),
            PropertySetRejection::NoSetter => Error::new(ErrorKind::Type, "no setter for property"),
            PropertySetRejection::NotExtensible => Error::new(
                ErrorKind::Type,
                "object is not extensible",
            ),
        }
    }

    pub fn finish_property_set(
        reply: NativeConversion<InternalSetResult>,
        key: PropertyKey,
        strict: bool,
    ) -> (r: Result<Completion, Error>)
        ensures
            r == Heap::set_finished(reply, key, strict),
    {
        match reply {
            NativeConversion::Throw(value) => Ok(Completion::Throw(value)),
            NativeConversion::Value(InternalSetResult::Accepted) => Ok(
                Completion::Return(JsValue::Undefined),
            ),
            NativeConversion::Value(InternalSetResult::Rejected(reason)) => {
                if strict {
                    Err(Runtime::set_rejection_error(reason, key))
                } else {
                    Ok(Completion::Return(JsValue::Undefined))
                }
            },
        }
    }
}

impl EnvironmentStep {
    pub open spec fn read_spec(
        realm: usize,
        object: ObjectRef,
        key: PropertyKey,
        receiver: JsValue,
    ) -> Self {
        EnvironmentStep::Read {
            object,
            key,
            receiver,
            resume: EnvironmentResume { realm, phase: Phase::Value },
        }
    }

    /// Read a property of an environment that is known to have it.
    #[verifier::when_used_as_spec(read_spec)]
    pub fn read(realm: usize, object: ObjectRef, key: PropertyKey, receiver: JsValue) -> (r: Self)
        ensures
            r == EnvironmentStep::read_spec(realm, object, key, receiver),
    {
        EnvironmentStep::Read {
            object,
            key,
            receiver,
            resume: EnvironmentResume { realm, phase: Phase::Value },
        }
    }

    pub open spec fn has_binding_spec(
        realm: usize,
        object: ObjectRef,
        key: PropertyKey,
        with: bool,
    ) -> Self {
        EnvironmentStep::Has {
            object,
            key,
            resume: EnvironmentResume { realm, phase: Phase::Binding { object, key, with } },
        }
    }

    /// Whether an environment binds a name; a `with` object may exclude it.
    #[verifier::when_used_as_spec(has_binding_spec)]
    pub fn has_binding(realm: usize, object: ObjectRef, key: PropertyKey, with: bool) -> (r: Self)
        ensures
            r == EnvironmentStep::has_binding_spec(realm, object, key, with),
    {
        EnvironmentStep::Has {
            object,
            key,
            resume: EnvironmentResume { realm, phase: Phase::Binding { object, key, with } },
        }
    }

    pub open spec fn get_spec(
        realm: usize,
        object: ObjectRef,
        key: PropertyKey,
        strict: bool,
    ) -> Self {
        EnvironmentStep::Has {
            object,
            key,
            resume: EnvironmentResume { realm, phase: Phase::Get { object, key, strict } },
        }
    }

    /// Read a name that may be missing.
    #[verifier::when_used_as_spec(get_spec)]
    pub fn get(realm: usize, object: ObjectRef, key: PropertyKey, strict: bool) -> (r: Self)
        ensures
            r == EnvironmentStep::get_spec(realm, object, key, strict),
    {
        EnvironmentStep::Has {
            object,
            key,
            resume: EnvironmentResume { realm, phase: Phase::Get { object, key, strict } },
        }
    }

    pub open spec fn put_spec(
        realm: usize,
        object: ObjectRef,
        key: PropertyKey,
        value: JsValue,
        strict: bool,
        reference: bool,
    ) -> Self {
        EnvironmentStep::Has {
            object,
            key,
            resume: EnvironmentResume {
                realm,
                phase: Phase::Put { object, key, value, strict, reference },
            },
        }
    }

    /// Write a name that may be missing.
    #[verifier::when_used_as_spec(put_spec)]
    pub fn put(
        realm: usize,
        object: ObjectRef,
        key: PropertyKey,
        value: JsValue,
        strict: bool,
        reference: bool,
    ) -> (r: Self)
        ensures
            r == EnvironmentStep::put_spec(realm, object, key, value, strict, reference),
    {
        EnvironmentStep::Has {
            object,
            key,
            resume: EnvironmentResume {
                realm,
                phase: Phase::Put { object, key, value, strict, reference },
            },
        }
    }

    pub open spec fn set_spec(
        realm: usize,
        object: ObjectRef,
        key: PropertyKey,
        value: JsValue,
        strict: bool,
    ) -> Self {
        EnvironmentStep::Write {
            object,
            key,
            value,
            resume: EnvironmentResume { realm, phase: Phase::Write { key, strict } },
        }
    }

    /// Write without a presence check.
    #[verifier::when_used_as_spec(set_spec)]
    pub fn set(
        realm: usize,
        object: ObjectRef,
        key: PropertyKey,
        value: JsValue,
        strict: bool,
    ) -> (r: Self)
        ensures
            r == EnvironmentStep::set_spec(realm, object, key, value, strict),
    {
        EnvironmentStep::Write {
            object,
            key,
            value,
            resume: EnvironmentResume { realm, phase: Phase::Write { key, strict } },
        }
    }

    pub open spec fn reference_spec(realm: usize, object: ObjectRef, key: PropertyKey) -> Self {
        EnvironmentStep::Has {
            object,
            key,
            resume: EnvironmentResume { realm, phase: Phase::Reference { object } },
        }
    }

    /// The base that a later write of the name would use.
    #[verifier::when_used_as_spec(reference_spec)]
    pub fn reference(realm: usize, object: ObjectRef, key: PropertyKey) -> (r: Self)
        ensures
            r == EnvironmentStep::reference_spec(realm, object, key),
    {
        EnvironmentStep::Has {
            object,
            key,
            resume: EnvironmentResume { realm, phase: Phase::Reference { object } },
        }
    }

    pub open spec fn delete_global_spec(realm: usize, object: ObjectRef, key: PropertyKey) -> Self {
        EnvironmentStep::Has {
            object,
            key,
            resume: EnvironmentResume { realm, phase: Phase::DeleteGlobal { object, key } },
        }
    }

    /// Delete a name if the global object has it.
    #[verifier::when_used_as_spec(delete_global_spec)]
    pub fn delete_global(realm: usize, object: ObjectRef, key: PropertyKey) -> (r: Self)
        ensures
            r == EnvironmentStep::delete_global_spec(realm, object, key),
    {
        EnvironmentStep::Has {
            object,
            key,
            resume: EnvironmentResume { realm, phase: Phase::DeleteGlobal { object, key } },
        }
    }

    pub open spec fn delete_spec(realm: usize, object: ObjectRef, key: PropertyKey) -> Self {
        EnvironmentStep::Delete {
            object,
            key,
            resume: EnvironmentResume { realm, phase: Phase::Boolean },
        }
    }

    #[verifier::when_used_as_spec(delete_spec)]
    pub fn delete(realm: usize, object: ObjectRef, key: PropertyKey) -> (r: Self)
        ensures
            r == EnvironmentStep::delete_spec(realm, object, key),
    {
        EnvironmentStep::Delete {
            object,
            key,
            resume: EnvironmentResume { realm, phase: Phase::Boolean },
        }
    }

    /// How many replies an operation can still take.
    pub open spec fn remaining(self) -> nat {
        match self {
            EnvironmentStep::Complete(_) => 0,
            EnvironmentStep::Has { resume, .. } => resume.phase.replies(),
            EnvironmentStep::Read { resume, .. } => resume.phase.replies(),
            EnvironmentStep::Write { resume, .. } => resume.phase.replies(),
            EnvironmentStep::Delete { resume, .. } => resume.phase.replies(),
        }
    }
}

impl Phase {
    pub open spec fn replies(self) -> nat {
        match self {
            Phase::Binding { .. } => 3,
            Phase::Unscopables { .. } => 2,
            Phase::Excluded => 1,
            Phase::Get { .. } => 2,
            Phase::Put { .. } => 2,
            Phase::Reference { .. } => 1,
            Phase::DeleteGlobal { .. } => 2,
            Phase::Write { .. } => 1,
            Phase::Value => 1,
            Phase::Boolean => 1,
        }
    }
}

/// What a Boolean reply leads to.
impl EnvironmentResume {
    /// A write through a reference goes to the live variable behind the own
    /// property, which must be initialized and, in strict code, writable.
    pub open spec fn variable_put(
        heap: Heap,
        cell: usize,
        key: PropertyKey,
        value: JsValue,
        strict: bool,
    ) -> (Heap, Result<EnvironmentStep, Error>) {
        match heap.cell_at(cell) {
            Err(e) => (heap, Err(e)),
            Ok(data) => if data.value is None {
                (heap, Err(Error::uninitialized(key.atom())))
            } else if data.is_const && strict {
                (heap, Err(Error::read_only(key.atom())))
            } else {
                (
                    if data.is_const {
                        heap
                    } else {
                        heap.cell_written(cell, value)
                    },
                    Ok(EnvironmentStep::Complete(Completion::Return(JsValue::Undefined))),
                )
            },
        }
    }

    pub open spec fn boolean_spec(
        self,
        heap: Heap,
        reply: NativeConversion<bool>,
    ) -> (Heap, Result<EnvironmentStep, Error>) {
        match reply {
            NativeConversion::Throw(value) => (
                heap,
                Ok(EnvironmentStep::Complete(Completion::Throw(value))),
            ),
            NativeConversion::Value(present) => match self.phase {
                Phase::Binding { object, key, with } => if !present || !with {
                    (
                        heap,
                        Ok(EnvironmentStep::Complete(Completion::Return(JsValue::Bool(present)))),
                    )
                } else {
                    (
                        heap,
                        Ok(
                            EnvironmentStep::Read {
                                object,
                                key: heap.unscopables_key(),
                                receiver: JsValue::Object(object),
                                resume: EnvironmentResume {
                                    realm: self.realm,
                                    phase: Phase::Unscopables { key },
                                },
                            },
                        ),
                    )
                },
                Phase::Get { object, key, strict } => if present {
                    (
                        heap,
                        Ok(EnvironmentStep::read(self.realm, object, key, JsValue::Object(object))),
                    )
                } else if strict {
                    (heap, Err(Error::not_defined(key.atom())))
                } else {
                    (heap, Ok(EnvironmentStep::Complete(Completion::Return(JsValue::Undefined))))
                },
                Phase::Put { object, key, value, strict, reference } => if !present && strict {
                    (heap, Err(Error::not_defined(key.atom())))
                } else if reference {
                    match heap.own_cell(object, key) {
                        Err(e) => (heap, Err(e)),
                        Ok(Some(cell)) => EnvironmentResume::variable_put(
                            heap,
                            cell,
                            key,
                            value,
                            strict,
                        ),
                        Ok(None) => (
                            heap,
                            Ok(EnvironmentStep::set(self.realm, object, key, value, strict)),
                        ),
                    }
                } else {
                    (heap, Ok(EnvironmentStep::set(self.realm, object, key, value, strict)))
                },
                Phase::Reference { object } => (
                    heap,
                    Ok(
                        EnvironmentStep::Complete(
                            Completion::Return(
                                if present {
                                    JsValue::Object(object)
                                } else {
                                    JsValue::Undefined
                                },
                            ),
                        ),
                    ),
                ),
                Phase::DeleteGlobal { object, key } => (
                    heap,
                    Ok(
                        if present {
                            EnvironmentStep::delete(self.realm, object, key)
                        } else {
                            EnvironmentStep::Complete(Completion::Return(JsValue::Bool(true)))
                        },
                    ),
                ),
                Phase::Boolean => (
                    heap,
                    Ok(EnvironmentStep::Complete(Completion::Return(JsValue::Bool(present)))),
                ),
                _ => (heap, Err(Error::broken("environment Boolean reply has wrong phase"))),
            },
        }
    }

    /// Go on after a presence check or a deletion.
    pub fn boolean(self, runtime: &mut Runtime, reply: NativeConversion<bool>) -> (r: Result<
        EnvironmentStep,
        Error,
    >)
        requires
            old(runtime).wf(),
        ensures
            final(runtime).wf(),
            (final(runtime)@, r) == self.boolean_spec(old(runtime)@, reply),
            r matches Ok(step) ==> step.remaining() < self.phase.replies(),
    {
        let present = match reply {
            NativeConversion::Value(value) => value,
            NativeConversion::Throw(value) => {
                return Ok(EnvironmentStep::Complete(Completion::Throw(value)));
            },
        };
        let realm: usize = self.realm;
        match self.phase {
            Phase::Binding { object, key, with } => {
                if !present || !with {
                    return Ok(EnvironmentStep::Complete(Completion::Return(JsValue::Bool(present))));
                }
                Ok(
                    EnvironmentStep::Read {
                        object,
                        key: PropertyKey::Symbol(
                            SymbolRef { domain: runtime.domain, index: SYMBOL_UNSCOPABLES },
                        ),
                        receiver: JsValue::Object(object),
                        resume: EnvironmentResume { realm, phase: Phase::Unscopables { key } },
                    },
                )
            },
            Phase::Get { object, key, strict } => {
                if !present {
                    if strict {
                        return Err(Error::not_defined(key.atom()));
                    }
                    return Ok(EnvironmentStep::Complete(Completion::Return(JsValue::Undefined)));
                }
                Ok(EnvironmentStep::read(realm, object, key, JsValue::Object(object)))
            },
            Phase::Put { object, key, value, strict, reference } => {
                if !present && strict {
                    return Err(Error::not_defined(key.atom()));
                }
                if reference {
                    match runtime.own_var_ref_root(object, key)? {
                        Some(cell) => {
                            let data = runtime.cell(cell)?;
                            if data.value.is_none() {
                                return Err(Error::uninitialized(key.atom()));
                            }
                            if data.is_const && strict {
                                return Err(Error::read_only(key.atom()));
                            }
                            if !data.is_const {
                                runtime.write_var_ref(cell, value)?;
                            }
                            return Ok(
                                EnvironmentStep::Complete(Completion::Return(JsValue::Undefined)),
                            );
                        },
                        None => {},
                    }
                }
                Ok(EnvironmentStep::set(realm, object, key, value, strict))
            },
            Phase::Reference { object } => Ok(
                EnvironmentStep::Complete(
                    Completion::Return(
                        if present {
                            JsValue::Object(object)
                        } else {
                            JsValue::Undefined
                        },
                    ),
                ),
            ),
            Phase::DeleteGlobal { object, key } => Ok(
                if present {
                    EnvironmentStep::delete(realm, object, key)
                } else {
                    EnvironmentStep::Complete(Completion::Return(JsValue::Bool(true)))
                },
            ),
            Phase::Boolean => Ok(
                EnvironmentStep::Complete(Completion::Return(JsValue::Bool(present))),
            ),
            _ => Err(Error::broken("environment Boolean reply has wrong phase")),
        }
    }

    pub open spec fn resume_spec(self, heap: Heap, reply: Completion) -> Result<
        EnvironmentStep,
        Error,
    > {
        match reply {
            Completion::Throw(value) => Ok(EnvironmentStep::Complete(Completion::Throw(value))),
            Completion::Return(value) => match self.phase {
                Phase::Unscopables { key } => match value {
                    JsValue::Object(object) => Ok(
                        EnvironmentStep::Read {
                            object,
                            key,
                            receiver: JsValue::Object(object),
                            resume: EnvironmentResume { realm: self.realm, phase: Phase::Excluded },
                        },
                    ),
                    _ => Ok(EnvironmentStep::Complete(Completion::Return(JsValue::Bool(true)))),
                },
                Phase::Excluded => Ok(
                    EnvironmentStep::Complete(
                        Completion::Return(JsValue::Bool(!heap.truthy(value))),
                    ),
                ),
                Phase::Value => Ok(EnvironmentStep::Complete(Completion::Return(value))),
                _ => Err(Error::broken("environment value reply has wrong phase")),
            },
        }
    }

    /// Go on after a read.
    pub fn resume(self, runtime: &Runtime, reply: Completion) -> (r: Result<EnvironmentStep, Error>)
        ensures
            r == self.resume_spec(runtime@, reply),
            r matches Ok(step) ==> step.remaining() < self.phase.replies(),
    {
        let value = match reply {
            Completion::Return(value) => value,
            Completion::Throw(value) => {
                return Ok(EnvironmentStep::Complete(Completion::Throw(value)));
            },
        };
        match self.phase {
            Phase::Unscopables { key } => Ok(
                match value {
                    JsValue::Object(object) => EnvironmentStep::Read {
                        object,
                        key,
                        receiver: JsValue::Object(object),
                        resume: EnvironmentResume { realm: self.realm, phase: Phase::Excluded },
                    },
                    _ => EnvironmentStep::Complete(Completion::Return(JsValue::Bool(true))),
                },
            ),
            Phase::Excluded => Ok(
                EnvironmentStep::Complete(
                    Completion::Return(JsValue::Bool(!runtime.value_to_boolean(value))),
                ),
            ),
            Phase::Value => Ok(EnvironmentStep::Complete(Completion::Return(value))),
            _ => Err(Error::broken("environment value reply has wrong phase")),
        }
    }

    pub open spec fn set_reply_spec(self, reply: NativeConversion<InternalSetResult>) -> Result<
        EnvironmentStep,
        Error,
    > {
        match self.phase {
            Phase::Write { key, strict } => match Heap::set_finished(reply, key, strict) {
                Ok(completion) => Ok(EnvironmentStep::Complete(completion)),
                Err(e) => Err(e),
            },
            _ => Err(Error::broken("environment Set reply has wrong phase")),
        }
    }

    /// Go on after a write.
    pub fn set(self, reply: NativeConversion<InternalSetResult>) -> (r: Result<
        EnvironmentStep,
        Error,
    >)
        ensures
            r == self.set_reply_spec(reply),
            r matches Ok(step) ==> step.remaining() < self.phase.replies(),
    {
        match self.phase {
            Phase::Write { key, strict } => {
                let completion = Runtime::finish_property_set(reply, key, strict)?;
                Ok(EnvironmentStep::Complete(completion))
            },
            _ => Err(Error::broken("environment Set reply has wrong phase")),
        }
    }
}

impl EnvironmentStep {
    /// One property operation of an ordinary object, and the reply to it.
    /// `None` where program code or an exotic object would have to run.
    pub open spec fn advance_spec(self, heap: Heap) -> (
        Heap,
        Result<Option<EnvironmentStep>, Error>,
    ) {
        match self {
            EnvironmentStep::Complete(_) => (heap, Ok(None)),
            EnvironmentStep::Has { object, key, resume } => match heap.presence(object, key) {
                Err(e) => (heap, Err(e)),
                Ok(None) => (heap, Ok(None)),
                Ok(Some(present)) => EnvironmentStep::some(
                    resume.boolean_spec(heap, NativeConversion::Value(present)),
                ),
            },
            EnvironmentStep::Read { object, key, receiver, resume } => match heap.ordinary_read(
                object,
                key,
                receiver,
            ) {
                Err(e) => (heap, Err(e)),
                Ok(OrdinaryRead::Complete(value)) => EnvironmentStep::some(
                    (
                        heap,
                        resume.resume_spec(
                            heap,
                            Completion::Return(
                                match value {
                                    Some(v) => v,
                                    None => JsValue::Undefined,
                                },
                            ),
                        ),
                    ),
                ),
                Ok(_) => (heap, Ok(None)),
            },
            EnvironmentStep::Write { object, key, value, resume } => {
                let (after, action) = heap.set(object, key, value);
                match action {
                    Err(e) => (after, Err(e)),
                    Ok(PropertySetAction::Complete) => EnvironmentStep::some(
                        (
                            after,
                            resume.set_reply_spec(
                                NativeConversion::Value(InternalSetResult::Accepted),
                            ),
                        ),
                    ),
                    Ok(PropertySetAction::Rejected(reason)) => EnvironmentStep::some(
                        (
                            after,
                            resume.set_reply_spec(
                                NativeConversion::Value(InternalSetResult::Rejected(reason)),
                            ),
                        ),
                    ),
                    Ok(_) => (after, Ok(None)),
                }
            },
            EnvironmentStep::Delete { object, key, resume } => if heap.object_at(
                object,
            ) matches Ok(data) && heap.decides(data, key) {
                (heap, Ok(None))
            } else {
                let (after, deleted) = heap.delete(object, key);
                match deleted {
                    Err(e) => (after, Err(e)),
                    Ok(flag) => EnvironmentStep::some(
                        resume.boolean_spec(after, NativeConversion::Value(flag)),
                    ),
                }
            },
        }
    }

    pub open spec fn some(step: (Heap, Result<EnvironmentStep, Error>)) -> (
        Heap,
        Result<Option<EnvironmentStep>, Error>,
    ) {
        (
            step.0,
            match step.1 {
                Ok(s) => Ok(Some(s)),
                Err(e) => Err(e),
            },
        )
    }

    /// Advance until the operation completes or needs program code.
    pub open spec fn finish_spec(self, heap: Heap, fuel: nat) -> (
        Heap,
        Result<EnvironmentProgress, Error>,
    )
        decreases fuel,
    {
        match self {
            EnvironmentStep::Complete(completion) => (
                heap,
                Ok(EnvironmentProgress::Complete(completion)),
            ),
            _ => if fuel == 0 {
                (heap, Ok(EnvironmentProgress::NeedsCall(self)))
            } else {
                let (after, next) = self.advance_spec(heap);
                match next {
                    Err(e) => (after, Err(e)),
                    Ok(None) => (after, Ok(EnvironmentProgress::NeedsCall(self))),
                    Ok(Some(step)) => step.finish_spec(after, (fuel - 1) as nat),
                }
            },
        }
    }

    /// Perform one property operation of an ordinary object.
    pub fn advance(self, runtime: &mut Runtime) -> (r: Result<Option<EnvironmentStep>, Error>)
        requires
            old(runtime).wf(),
        ensures
            final(runtime).wf(),
            (final(runtime)@, r) == self.advance_spec(old(runtime)@),
            r matches Ok(Some(step)) ==> step.remaining() < self.remaining(),
    {
        match self {
            EnvironmentStep::Complete(_) => Ok(None),
            EnvironmentStep::Has { object, key, resume } => {
                match runtime.has_property(object, key)? {
                    None => Ok(None),
                    Some(present) => Ok(
                        Some(resume.boolean(runtime, NativeConversion::Value(present))?),
                    ),
                }
            },
            EnvironmentStep::Read { object, key, receiver, resume } => {
                match runtime.prepare_ordinary_read(object, key, receiver)? {
                    OrdinaryRead::Complete(value) => {
                        let value = match value {
                            Some(v) => v,
                            None => JsValue::Undefined,
                        };
                        Ok(Some(resume.resume(runtime, Completion::Return(value))?))
                    },
                    _ => Ok(None),
                }
            },
            EnvironmentStep::Write { object, key, value, resume } => {
                match runtime.prepare_set_property(object, key, value)? {
                    PropertySetAction::Complete => Ok(
                        Some(
                            resume.set(NativeConversion::Value(InternalSetResult::Accepted))?,
                        ),
                    ),
                    PropertySetAction::Rejected(reason) => Ok(
                        Some(
                            resume.set(
                                NativeConversion::Value(InternalSetResult::Rejected(reason)),
                            )?,
                        ),
                    ),
                    _ => Ok(None),
                }
            },
            EnvironmentStep::Delete { object, key, resume } => {
                let data = runtime.object(object)?;
                if runtime.decides(data, key) {
                    return Ok(None);
                }
                let flag = runtime.delete_property(object, key)?;
                Ok(Some(resume.boolean(runtime, NativeConversion::Value(flag))?))
            },
        }
    }
}

/// Run an operation over ordinary objects until it completes or needs program code.
pub fn finish(runtime: &mut Runtime, step: EnvironmentStep) -> (r: Result<
    EnvironmentProgress,
    Error,
>)
    requires
        old(runtime).wf(),
    ensures
        final(runtime).wf(),
        (final(runtime)@, r) == step.finish_spec(old(runtime)@, step.remaining()),
{
    let mut current = step;
    let ghost mut fuel: nat = step.remaining();
    loop
        invariant
            runtime.wf(),
            current.remaining() <= fuel,
            current.finish_spec(runtime@, fuel) == step.finish_spec(
                old(runtime)@,
                step.remaining(),
            ),
        decreases current.remaining(),
    {
        match current {
            EnvironmentStep::Complete(completion) => {
                return Ok(EnvironmentProgress::Complete(completion));
            },
            _ => {},
        }
        match current.advance(runtime)? {
            None => {
                return Ok(EnvironmentProgress::NeedsCall(current));
            },
            Some(next) => {
                proof {
                    fuel = (fuel - 1) as nat;
                }
                current = next;
            },
        }
    }
}

/// A name that a `with` object excludes through its unscopables reads as
/// unbound, whatever the property itself holds.
pub proof fn excluded_names_are_unbound(resume: EnvironmentResume, heap: Heap, value: JsValue)
    requires
        resume.phase is Excluded,
    ensures
        resume.resume_spec(heap, Completion::Return(value)) == Ok::<EnvironmentStep, Error>(
            EnvironmentStep::Complete(Completion::Return(JsValue::Bool(!heap.truthy(value)))),
        ),
{
}

/// A reply that throws ends every operation with that throw.
pub proof fn throwing_replies_end_the_operation(
    resume: EnvironmentResume,
    heap: Heap,
    value: JsValue,
)
    ensures
        resume.boolean_spec(heap, NativeConversion::Throw(value)) == (
            heap,
            Ok::<EnvironmentStep, Error>(EnvironmentStep::Complete(Completion::Throw(value))),
        ),
        resume.resume_spec(heap, Completion::Throw(value)) == Ok::<EnvironmentStep, Error>(
            EnvironmentStep::Complete(Completion::Throw(value)),
        ),
{
}

/// Every accepted reply brings an operation closer to its end: none replays.
pub proof fn replies_make_progress(
    resume: EnvironmentResume,
    heap: Heap,
    present: NativeConversion<bool>,
    value: Completion,
    written: NativeConversion<InternalSetResult>,
)
    ensures
        resume.boolean_spec(heap, present).1 matches Ok(step) ==> step.remaining()
            < resume.phase.replies(),
        resume.resume_spec(heap, value) matches Ok(step) ==> step.remaining()
            < resume.phase.replies(),
        resume.set_reply_spec(written) matches Ok(step) ==> step.remaining()
            < resume.phase.replies(),
{
}

/// A presence check reads no value: where a property lies on the object or on a
/// prototype of it, the check says so, whatever the property holds.
pub proof fn presence_needs_no_value(heap: Heap, object: ObjectRef, key: PropertyKey)
    requires
        heap.find(object, key) is Some,
        heap.object_at(object) matches Ok(data) && !heap.decides(data, key),
    ensures
        heap.presence(object, key) == Ok::<Option<bool>, Error>(Some(true)),
        forall|below: ObjectRef|
            heap.object_at(below) matches Ok(data) && !heap.decides(data, key)
                && data.prototype == Some(object) ==> #[trigger] heap.presence(below, key) == Ok::<
                Option<bool>,
                Error,
            >(Some(true)),
{
    reveal_with_fuel(Heap::presence_chain, 3);
}

/// What counts as false: undefined, null, false, the two zeros, the patterns
/// that are no numbers, the empty text and the zero of the big integers.  All
/// else counts as true.
pub proof fn few_values_are_false(heap: Heap, value: JsValue, bits: u64, text: Seq<u16>)
    ensures
        !heap.truthy(JsValue::Undefined),
        !heap.truthy(JsValue::Null),
        value matches JsValue::Bool(b) ==> heap.truthy(value) == b,
        value matches JsValue::Int(n) ==> (heap.truthy(value) <==> n < 0 || n > 0),
        value is Object || value is Symbol ==> heap.truthy(value),
        // A number is false where it is not equal to itself or equals zero.
        heap.truthy(JsValue::Float(bits)) <==> heap.strictly_equal(
            JsValue::Float(bits),
            JsValue::Float(bits),
        ) && !heap.strictly_equal(JsValue::Float(bits), JsValue::Int(0)),
        value matches JsValue::String(atom) ==> (heap.truthy(value) <==> heap.text_at(atom)
            != Seq::<u16>::empty()),
        value matches JsValue::BigInt(id) ==> id < heap.bigint_texts.len() ==> (heap.truthy(value)
            <==> heap.text_at(heap.bigint_texts[id as int]) != seq!['0' as u16]),
{
    reveal_strlit("0");
    assert(Texts::units("0") =~= seq!['0' as u16]);
    if let JsValue::String(atom) = value {
        if heap.text_at(atom).len() == 0 {
            assert(heap.text_at(atom) =~= Seq::<u16>::empty());
        }
    }
}

/// Reading a name of an object environment: the property of that object on
/// behalf of it where it is present, a reference error in strict code and
/// undefined in other code where it is not.
pub proof fn names_are_read_from_their_environment(
    heap: Heap,
    realm: usize,
    object: ObjectRef,
    key: PropertyKey,
    strict: bool,
    value: JsValue,
)
    ensures
        ({
            let asked = EnvironmentStep::get(realm, object, key, strict);
            let found = asked->Has_resume.boolean_spec(heap, NativeConversion::Value(true));
            let missing = asked->Has_resume.boolean_spec(heap, NativeConversion::Value(false));
            let read = found.1->Ok_0;
            &&& asked is Has && asked->Has_object == object && asked->Has_key == key
            &&& found.0 == heap && found.1 is Ok && read is Read
            &&& read->Read_object == object && read->Read_key == key && read->receiver
                == JsValue::Object(object)
            &&& read->Read_resume.resume_spec(heap, Completion::Return(value)) == Ok::<
                EnvironmentStep,
                Error,
            >(EnvironmentStep::Complete(Completion::Return(value)))
            &&& missing.0 == heap
            &&& strict ==> (missing.1 matches Err(e) && e.kind is Reference && e.atom == key.atom())
            &&& !strict ==> missing.1 == Ok::<EnvironmentStep, Error>(
                EnvironmentStep::Complete(Completion::Return(JsValue::Undefined)),
            )
        }),
{
}

/// Writing a name of an object environment: strict code may not write a name
/// that has gone, a reference to a live variable writes that variable, and all
/// else writes the property.  A refused write is an error in strict code only.
pub proof fn names_are_written_to_their_environment(
    heap: Heap,
    realm: usize,
    object: ObjectRef,
    key: PropertyKey,
    value: JsValue,
    strict: bool,
    reference: bool,
    present: bool,
    reason: PropertySetRejection,
    data: crate::heap::HeapObject,
)
    requires
        heap.object_at(object) == Ok::<crate::heap::HeapObject, Error>(data),
    ensures
        ({
            let asked = EnvironmentStep::put(realm, object, key, value, strict, reference);
            let (after, next) = asked->Has_resume.boolean_spec(
                heap,
                NativeConversion::Value(present),
            );
            let cell = heap.own_cell(object, key);
            let step = next->Ok_0;
            &&& asked is Has && asked->Has_object == object && asked->Has_key == key
            &&& !present && strict ==> after == heap && (next matches Err(e) && e.kind is Reference
                && e.atom == key.atom())
            &&& (present || !strict) && (!reference || cell == Ok::<Option<usize>, Error>(None))
                ==> {
                &&& after == heap
                &&& next is Ok && step is Write
                &&& step->Write_object == object && step->Write_key == key && step->Write_value
                    == value
                &&& step->Write_resume.set_reply_spec(
                    NativeConversion::Value(InternalSetResult::Accepted),
                ) == Ok::<EnvironmentStep, Error>(
                    EnvironmentStep::Complete(Completion::Return(JsValue::Undefined)),
                )
                &&& strict ==> (step->Write_resume.set_reply_spec(
                    NativeConversion::Value(InternalSetResult::Rejected(reason)),
                ) matches Err(e) && e.kind is Type)
                &&& !strict ==> step->Write_resume.set_reply_spec(
                    NativeConversion::Value(InternalSetResult::Rejected(reason)),
                ) == Ok::<EnvironmentStep, Error>(
                    EnvironmentStep::Complete(Completion::Return(JsValue::Undefined)),
                )
            }
            &&& (present || !strict) && reference ==> (cell matches Ok(Some(cell)) ==> cell
                < heap.cells.len() ==> {
                let var = heap.cells[cell as int];
                &&& var.value is None ==> after == heap && (next matches Err(e)
                    && e.kind is Reference)
                &&& var.value is Some && var.is_const ==> after == heap
                &&& var.value is Some && var.is_const && strict ==> (next matches Err(e)
                    && e.kind is Type)
                &&& var.value is Some && !var.is_const ==> after.cells[cell as int].value == Some(
                    value,
                ) && after.cells.len() == heap.cells.len()
                &&& var.value is Some && (!var.is_const || !strict) ==> next == Ok::<
                    EnvironmentStep,
                    Error,
                >(EnvironmentStep::Complete(Completion::Return(JsValue::Undefined)))
            })
        }),
{
}

/// A name is bound by an object environment where the object has it, and by the
/// object of a `with` only where the object of its unscopable names does not
/// have a true value under the name.
pub proof fn with_objects_may_exclude_names(
    heap: Heap,
    realm: usize,
    object: ObjectRef,
    key: PropertyKey,
    list: ObjectRef,
    other: JsValue,
    value: JsValue,
)
    requires
        !(other is Object),
    ensures
        ({
            let plain = EnvironmentStep::has_binding(realm, object, key, false);
            let with = EnvironmentStep::has_binding(realm, object, key, true);
            let yes = EnvironmentStep::Complete(Completion::Return(JsValue::Bool(true)));
            let no = EnvironmentStep::Complete(Completion::Return(JsValue::Bool(false)));
            let asked = with->Has_resume.boolean_spec(heap, NativeConversion::Value(true));
            let listed = asked.1->Ok_0;
            let named = listed->Read_resume.resume_spec(
                heap,
                Completion::Return(JsValue::Object(list)),
            );
            let read = named->Ok_0;
            &&& plain is Has && plain->Has_object == object && plain->Has_key == key
            &&& with is Has && with->Has_object == object && with->Has_key == key
            &&& plain->Has_resume.boolean_spec(heap, NativeConversion::Value(true)) == (
                heap,
                Ok::<EnvironmentStep, Error>(yes),
            )
            &&& plain->Has_resume.boolean_spec(heap, NativeConversion::Value(false)) == (
                heap,
                Ok::<EnvironmentStep, Error>(no),
            )
            &&& with->Has_resume.boolean_spec(heap, NativeConversion::Value(false)) == (
                heap,
                Ok::<EnvironmentStep, Error>(no),
            )
            &&& asked.0 == heap && asked.1 is Ok && listed is Read && listed->Read_object == object
            &&& listed->Read_key == PropertyKey::Symbol(
                SymbolRef { domain: heap.domain, index: SYMBOL_UNSCOPABLES },
            )
            &&& listed->receiver == JsValue::Object(object)
            &&& listed->Read_resume.resume_spec(heap, Completion::Return(other)) == Ok::<
                EnvironmentStep,
                Error,
            >(yes)
            &&& named is Ok && read is Read && read->Read_object == list && read->Read_key == key
            &&& read->receiver == JsValue::Object(list)
            &&& read->Read_resume.resume_spec(heap, Completion::Return(value)) == Ok::<
                EnvironmentStep,
                Error,
            >(
                if heap.truthy(value) {
                    no
                } else {
                    yes
                },
            )
        }),
{
}

/// A reference to a name is the object that has it, or undefined; a name that
/// the object does not have needs no deletion.
pub proof fn references_are_their_environment(
    heap: Heap,
    realm: usize,
    object: ObjectRef,
    key: PropertyKey,
    deleted: bool,
)
    ensures
        ({
            let reference = EnvironmentStep::reference(realm, object, key);
            let delete = EnvironmentStep::delete_global(realm, object, key);
            let found = delete->Has_resume.boolean_spec(heap, NativeConversion::Value(true));
            &&& reference is Has && reference->Has_object == object && reference->Has_key == key
            &&& reference->Has_resume.boolean_spec(heap, NativeConversion::Value(true)) == (
                heap,
                Ok::<EnvironmentStep, Error>(
                    EnvironmentStep::Complete(Completion::Return(JsValue::Object(object))),
                ),
            )
            &&& reference->Has_resume.boolean_spec(heap, NativeConversion::Value(false)) == (
                heap,
                Ok::<EnvironmentStep, Error>(
                    EnvironmentStep::Complete(Completion::Return(JsValue::Undefined)),
                ),
            )
            &&& delete is Has && delete->Has_object == object && delete->Has_key == key
            &&& delete->Has_resume.boolean_spec(heap, NativeConversion::Value(false)) == (
                heap,
                Ok::<EnvironmentStep, Error>(
                    EnvironmentStep::Complete(Completion::Return(JsValue::Bool(true))),
                ),
            )
            &&& found.0 == heap && found.1 is Ok && found.1->Ok_0 is Delete
            &&& found.1->Ok_0->Delete_object == object && found.1->Ok_0->Delete_key == key
            &&& found.1->Ok_0->Delete_resume.boolean_spec(heap, NativeConversion::Value(deleted))
                == (
                heap,
                Ok::<EnvironmentStep, Error>(
                    EnvironmentStep::Complete(Completion::Return(JsValue::Bool(deleted))),
                ),
            )
        }),
{
}

/// A read of an environment object that runs no code gives the value of the
/// property, and undefined where there is none.
pub proof fn absent_names_read_as_undefined(
    heap: Heap,
    object: ObjectRef,
    key: PropertyKey,
    receiver: JsValue,
    resume: EnvironmentResume,
    value: JsValue,
)
    ensures
        heap.ordinary_read(object, key, receiver) == Ok::<OrdinaryRead, Error>(
            OrdinaryRead::Complete(None),
        ) ==> (EnvironmentStep::Read { object, key, receiver, resume }).advance_spec(heap)
            == EnvironmentStep::some(
            (heap, resume.resume_spec(heap, Completion::Return(JsValue::Undefined))),
        ),
        heap.ordinary_read(object, key, receiver) == Ok::<OrdinaryRead, Error>(
            OrdinaryRead::Complete(Some(value)),
        ) ==> (EnvironmentStep::Read { object, key, receiver, resume }).advance_spec(heap)
            == EnvironmentStep::some((heap, resume.resume_spec(heap, Completion::Return(value)))),
        heap.presence(object, key) == Ok::<Option<bool>, Error>(Some(true)) ==> (
        EnvironmentStep::Has { object, key, resume }).advance_spec(heap) == EnvironmentStep::some(
            resume.boolean_spec(heap, NativeConversion::Value(true)),
        ),
        heap.presence(object, key) == Ok::<Option<bool>, Error>(Some(false)) ==> (
        EnvironmentStep::Has { object, key, resume }).advance_spec(heap) == EnvironmentStep::some(
            resume.boolean_spec(heap, NativeConversion::Value(false)),
        ),
{
}

} // verus!
