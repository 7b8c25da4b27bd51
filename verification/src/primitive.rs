//! Conversion of an object to a primitive, one property read or call at a time.
use vstd::prelude::*;
use crate::error::{Error, ErrorKind};
use crate::heap::Heap;
use crate::runtime::{Runtime, ATOM_DEFAULT, ATOM_NUMBER, ATOM_STRING, ATOM_TO_STRING, ATOM_VALUE_OF, SYMBOL_TO_PRIMITIVE};
use crate::text::Texts;
use crate::value::{Atom, CallableRef, Completion, JsValue, ObjectRef, PropertyKey, SymbolRef};

verus! {

#[derive(Clone, Copy, Debug, PartialEq, Eq, Structural)]
pub enum ToPrimitiveHint {
    Default,
    Number,
    String,
}

#[derive(Clone, Copy, Debug, PartialEq, Eq, Structural)]
pub enum PrimitivePhase {
    /// Waiting for the object's own conversion method.
    Exotic,
    /// Waiting for the result of that method.
    ExoticResult,
    /// Waiting for the first or the second ordinary method.
    Method { second: bool },
    /// Waiting for the result of that method.
    MethodResult { second: bool },
}

#[derive(Clone, Copy, Debug, PartialEq, Eq, Structural)]
pub struct PrimitiveResume {
    pub realm: usize,
    pub object: ObjectRef,
    pub hint: ToPrimitiveHint,
    pub phase: PrimitivePhase,
}

#[derive(Clone, Copy, Debug)]
pub enum PrimitiveStep {
    Complete(Completion),
    Get { object: ObjectRef, key: PropertyKey, resume: PrimitiveResume },
    Call {
        callable: CallableRef,
        receiver: JsValue,
        argument: Option<JsValue>,
        resume: PrimitiveResume,
    },
}

impl PrimitiveResume {
    pub open spec fn hint_atom(hint: ToPrimitiveHint) -> Atom {
        match hint {
            ToPrimitiveHint::Default => ATOM_DEFAULT,
            ToPrimitiveHint::Number => ATOM_NUMBER,
            ToPrimitiveHint::String => ATOM_STRING,
        }
    }

    /// The ordinary methods in the order that the hint asks for.
    pub open spec fn method_atom(hint: ToPrimitiveHint, second: bool) -> Atom {
        if (hint is String) != second {
            ATOM_TO_STRING
        } else {
            ATOM_VALUE_OF
        }
    }

    pub open spec fn at(self, phase: PrimitivePhase) -> PrimitiveResume {
        PrimitiveResume { phase, ..self }
    }

    pub open spec fn method_read(self, second: bool) -> PrimitiveStep {
        PrimitiveStep::Get {
            object: self.object,
            key: PropertyKey::String(PrimitiveResume::method_atom(self.hint, second)),
            resume: self.at(PrimitivePhase::Method { second }),
        }
    }

    pub open spec fn start_spec(
        heap: Heap,
        realm: usize,
        value: JsValue,
        hint: ToPrimitiveHint,
    ) -> PrimitiveStep {
        match value {
            JsValue::Object(object) => PrimitiveStep::Get {
                object,
                key: PropertyKey::Symbol(
                    SymbolRef { domain: heap.domain, index: SYMBOL_TO_PRIMITIVE },
                ),
                resume: PrimitiveResume { realm, object, hint, phase: PrimitivePhase::Exotic },
            },
            _ => PrimitiveStep::Complete(Completion::Return(value)),
        }
    }

    /// A primitive is its own conversion; an object first looks for its own method.
    pub fn start(runtime: &Runtime, realm: usize, value: JsValue, hint: ToPrimitiveHint) -> (r:
        PrimitiveStep)
        ensures
            r == PrimitiveResume::start_spec(runtime@, realm, value, hint),
    {
        match value {
            JsValue::Object(object) => PrimitiveStep::Get {
                object,
                key: PropertyKey::Symbol(
                    SymbolRef { domain: runtime.domain, index: SYMBOL_TO_PRIMITIVE },
                ),
                resume: PrimitiveResume { realm, object, hint, phase: PrimitivePhase::Exotic },
            },
            _ => PrimitiveStep::Complete(Completion::Return(value)),
        }
    }

    /// The callable that a method value names.
    pub open spec fn method_of(heap: Heap, value: JsValue) -> Result<Option<CallableRef>, Error> {
        match value {
            JsValue::Object(object) => if object.domain == heap.domain {
                heap.callable(object)
            } else {
                Ok(None)
            },
            _ => Ok(None),
        }
    }

    fn method(runtime: &Runtime, value: JsValue) -> (r: Result<Option<CallableRef>, Error>)
        ensures
            r == PrimitiveResume::method_of(runtime@, value),
    {
        match value {
            JsValue::Object(object) => {
                if object.domain == runtime.domain {
                    runtime.as_callable(object)
                } else {
                    Ok(None)
                }
            },
            _ => Ok(None),
        }
    }

    pub open spec fn failed(self, heap: Heap, text: &'static str) -> (
        Heap,
        Result<PrimitiveStep, Error>,
    ) {
        let (after, thrown) = heap.thrown(self.realm, Error::new(ErrorKind::Type, text));
        match thrown {
            Err(e) => (after, Err(e)),
            Ok(completion) => (after, Ok(PrimitiveStep::Complete(completion))),
        }
    }

    fn fail(self, runtime: &mut Runtime, text: &'static str) -> (r: Result<PrimitiveStep, Error>)
        requires
            old(runtime).wf(),
        ensures
            final(runtime).wf(),
            (final(runtime)@, r) == self.failed(old(runtime)@, text),
    {
        let completion = runtime.throw_error(self.realm, Error::new(ErrorKind::Type, text))?;
        Ok(PrimitiveStep::Complete(completion))
    }

    pub open spec fn resume_spec(self, heap: Heap, completion: Completion) -> (
        Heap,
        Result<PrimitiveStep, Error>,
    ) {
        match completion {
            Completion::Throw(_) => (heap, Ok(PrimitiveStep::Complete(completion))),
            Completion::Return(value) => match self.phase {
                PrimitivePhase::Exotic => if value.nullish() {
                    (heap, Ok(self.method_read(false)))
                } else {
                    match PrimitiveResume::method_of(heap, value) {
                        Err(e) => (heap, Err(e)),
                        Ok(None) => self.failed(heap, "not a function"),
                        Ok(Some(callable)) => (
                            heap,
                            Ok(
                                PrimitiveStep::Call {
                                    callable,
                                    receiver: JsValue::Object(self.object),
                                    argument: Some(
                                        JsValue::String(PrimitiveResume::hint_atom(self.hint)),
                                    ),
                                    resume: self.at(PrimitivePhase::ExoticResult),
                                },
                            ),
                        ),
                    }
                },
                PrimitivePhase::ExoticResult => if value is Object {
                    self.failed(heap, "toPrimitive")
                } else {
                    (heap, Ok(PrimitiveStep::Complete(completion)))
                },
                PrimitivePhase::Method { second } => match PrimitiveResume::method_of(heap, value) {
                    Err(e) => (heap, Err(e)),
                    Ok(Some(callable)) => (
                        heap,
                        Ok(
                            PrimitiveStep::Call {
                                callable,
                                receiver: JsValue::Object(self.object),
                                argument: None,
                                resume: self.at(PrimitivePhase::MethodResult { second }),
                            },
                        ),
                    ),
                    Ok(None) => if second {
                        self.failed(heap, "toPrimitive")
                    } else {
                        (heap, Ok(self.method_read(true)))
                    },
                },
                PrimitivePhase::MethodResult { second } => if !(value is Object) {
                    (heap, Ok(PrimitiveStep::Complete(completion)))
                } else if second {
                    self.failed(heap, "toPrimitive")
                } else {
                    (heap, Ok(self.method_read(true)))
                },
            },
        }
    }

    /// Go on with the reply of a read or a call.
    pub fn resume(self, runtime: &mut Runtime, completion: Completion) -> (r: Result<
        PrimitiveStep,
        Error,
    >)
        requires
            old(runtime).wf(),
        ensures
            final(runtime).wf(),
            (final(runtime)@, r) == self.resume_spec(old(runtime)@, completion),
    {
        let value = match completion {
            Completion::Throw(_) => {
                return Ok(PrimitiveStep::Complete(completion));
            },
            Completion::Return(value) => value,
        };
        match self.phase {
            PrimitivePhase::Exotic => {
                if value.nullish() {
                    return Ok(self.read_method(false));
                }
                match PrimitiveResume::method(runtime, value)? {
                    None => self.fail(runtime, "not a function"),
                    Some(callable) => {
                        let hint = match self.hint {
                            ToPrimitiveHint::Default => ATOM_DEFAULT,
                            ToPrimitiveHint::Number => ATOM_NUMBER,
                            ToPrimitiveHint::String => ATOM_STRING,
                        };
                        Ok(
                            PrimitiveStep::Call {
                                callable,
                                receiver: JsValue::Object(self.object),
                                argument: Some(JsValue::String(hint)),
                                resume: PrimitiveResume {
                                    realm: self.realm,
                                    object: self.object,
                                    hint: self.hint,
                                    phase: PrimitivePhase::ExoticResult,
                                },
                            },
                        )
                    },
                }
            },
            PrimitivePhase::ExoticResult => {
                if value.is_object() {
                    self.fail(runtime, "toPrimitive")
                } else {
                    Ok(PrimitiveStep::Complete(completion))
                }
            },
            PrimitivePhase::Method { second } => match PrimitiveResume::method(runtime, value)? {
                Some(callable) => Ok(
                    PrimitiveStep::Call {
                        callable,
                        receiver: JsValue::Object(self.object),
                        argument: None,
                        resume: PrimitiveResume {
                            realm: self.realm,
                            object: self.object,
                            hint: self.hint,
                            phase: PrimitivePhase::MethodResult { second },
                        },
                    },
                ),
                None => {
                    if second {
                        self.fail(runtime, "toPrimitive")
                    } else {
                        Ok(self.read_method(true))
                    }
                },
            },
            PrimitivePhase::MethodResult { second } => {
                if !value.is_object() {
                    Ok(PrimitiveStep::Complete(completion))
                } else if second {
                    self.fail(runtime, "toPrimitive")
                } else {
                    Ok(self.read_method(true))
                }
            },
        }
    }

    fn read_method(self, second: bool) -> (r: PrimitiveStep)
        ensures
            r == self.method_read(second),
    {
        let text_first = matches!(self.hint, ToPrimitiveHint::String);
        PrimitiveStep::Get {
            object: self.object,
            key: PropertyKey::String(
                if text_first != second {
                    ATOM_TO_STRING
                } else {
                    ATOM_VALUE_OF
                },
            ),
            resume: PrimitiveResume {
                realm: self.realm,
                object: self.object,
                hint: self.hint,
                phase: PrimitivePhase::Method { second },
            },
        }
    }
}

/// A finished conversion never hands an object back.
pub proof fn conversions_end_in_primitives(
    resume: PrimitiveResume,
    heap: Heap,
    completion: Completion,
    value: JsValue,
)
    requires
        resume.resume_spec(heap, completion).1 == Ok::<PrimitiveStep, Error>(
            PrimitiveStep::Complete(Completion::Return(value)),
        ),
    ensures
        !(value is Object),
{
}

/// Without a conversion method of its own an object is asked for `valueOf` and
/// then for `toString`; where a text is wanted, for `toString` first.  The
/// first method that gives a primitive decides, each is called on the object
/// without arguments, and a conversion without such a method is a type error.
pub proof fn ordinary_methods_are_tried_in_the_order_of_the_hint(
    heap: Heap,
    realm: usize,
    object: ObjectRef,
    hint: ToPrimitiveHint,
    absent: JsValue,
    method: JsValue,
    callable: CallableRef,
    plain: JsValue,
    primitive: JsValue,
    again: ObjectRef,
)
    requires
        Heap::pinned(heap.texts),
        realm < heap.realms.len(),
        absent is Undefined || absent is Null,
        PrimitiveResume::method_of(heap, method) == Ok::<Option<CallableRef>, Error>(Some(callable)),
        PrimitiveResume::method_of(heap, plain) == Ok::<Option<CallableRef>, Error>(None),
        !(primitive is Object),
    ensures
        ({
            let number_first = hint is Number || hint is Default;
            let started = PrimitiveResume::start_spec(heap, realm, JsValue::Object(object), hint);
            let first = started->Get_resume.resume_spec(heap, Completion::Return(absent));
            let first_step = first.1->Ok_0;
            let called = first_step->Get_resume.resume_spec(heap, Completion::Return(method));
            let called_step = called.1->Ok_0;
            let skipped = first_step->Get_resume.resume_spec(heap, Completion::Return(plain));
            let skipped_step = skipped.1->Ok_0;
            let answered = called_step->Call_resume.resume_spec(
                heap,
                Completion::Return(primitive),
            );
            let refused = called_step->Call_resume.resume_spec(
                heap,
                Completion::Return(JsValue::Object(again)),
            );
            let second = skipped_step->Get_resume.resume_spec(heap, Completion::Return(method));
            let second_step = second.1->Ok_0;
            &&& started is Get && started->Get_object == object
            &&& first.0 == heap && first.1 is Ok && first_step is Get
            &&& first_step->Get_object == object
            &&& first_step->Get_key matches PropertyKey::String(name) && heap.text_at(name)
                == if number_first {
                Texts::units("valueOf")
            } else {
                Texts::units("toString")
            }
            &&& called.0 == heap && called.1 is Ok && called_step is Call
            &&& called_step->callable == callable
            &&& called_step->receiver == JsValue::Object(object)
            &&& called_step->argument is None
            &&& answered == (
                heap,
                Ok::<PrimitiveStep, Error>(PrimitiveStep::Complete(Completion::Return(primitive))),
            )
            &&& skipped.0 == heap && skipped.1 is Ok && skipped_step is Get
            &&& refused == skipped
            &&& skipped_step->Get_object == object
            &&& skipped_step->Get_key matches PropertyKey::String(name) && heap.text_at(name)
                == if number_first {
                Texts::units("toString")
            } else {
                Texts::units("valueOf")
            }
            &&& second.0 == heap && second.1 is Ok && second_step is Call
            &&& second_step->callable == callable
            &&& second_step->receiver == JsValue::Object(object)
            &&& second_step->argument is None
            &&& second_step->Call_resume.resume_spec(heap, Completion::Return(primitive)) == (
                heap,
                Ok::<PrimitiveStep, Error>(PrimitiveStep::Complete(Completion::Return(primitive))),
            )
            &&& PrimitiveResume::is_type_error(
                heap,
                realm,
                skipped_step->Get_resume.resume_spec(heap, Completion::Return(plain)),
            )
            &&& PrimitiveResume::is_type_error(
                heap,
                realm,
                second_step->Call_resume.resume_spec(
                    heap,
                    Completion::Return(JsValue::Object(again)),
                ),
            )
        }),
{
}

impl PrimitiveResume {
    /// A conversion that ended by throwing a fresh type error of `realm`.
    pub open spec fn is_type_error(
        heap: Heap,
        realm: usize,
        outcome: (Heap, Result<PrimitiveStep, Error>),
    ) -> bool {
        &&& outcome.1 == Ok::<PrimitiveStep, Error>(
            PrimitiveStep::Complete(Completion::Throw(JsValue::Object(heap.next_ref()))),
        )
        &&& outcome.0.objects.len() == heap.objects.len() + 1
        &&& outcome.0.objects.last().payload is Error
        &&& outcome.0.objects.last().prototype == Some(
            heap.realms[realm as int].type_error_prototype,
        )
    }
}

/// The conversion method of an object itself goes before every other: it is
/// called on the object with the name of the hint, must give a primitive, and
/// must be a function where it is there.
pub proof fn own_conversion_methods_are_told_the_hint(
    heap: Heap,
    realm: usize,
    object: ObjectRef,
    hint: ToPrimitiveHint,
    method: JsValue,
    callable: CallableRef,
    plain: JsValue,
    primitive: JsValue,
    again: ObjectRef,
)
    requires
        Heap::pinned(heap.texts),
        realm < heap.realms.len(),
        PrimitiveResume::method_of(heap, method) == Ok::<Option<CallableRef>, Error>(Some(callable)),
        PrimitiveResume::method_of(heap, plain) == Ok::<Option<CallableRef>, Error>(None),
        !(plain is Undefined) && !(plain is Null),
        !(primitive is Object),
    ensures
        ({
            let started = PrimitiveResume::start_spec(heap, realm, JsValue::Object(object), hint);
            let called = started->Get_resume.resume_spec(heap, Completion::Return(method));
            let step = called.1->Ok_0;
            &&& started is Get && started->Get_object == object
            &&& started->Get_key == PropertyKey::Symbol(
                SymbolRef { domain: heap.domain, index: SYMBOL_TO_PRIMITIVE },
            )
            &&& called.0 == heap && called.1 is Ok && step is Call
            &&& step->callable == callable
            &&& step->receiver == JsValue::Object(object)
            &&& step->argument matches Some(JsValue::String(name)) && heap.text_at(name) == (
            match hint {
                ToPrimitiveHint::Default => Texts::units("default"),
                ToPrimitiveHint::Number => Texts::units("number"),
                ToPrimitiveHint::String => Texts::units("string"),
            })
            &&& step->Call_resume.resume_spec(heap, Completion::Return(primitive)) == (
                heap,
                Ok::<PrimitiveStep, Error>(PrimitiveStep::Complete(Completion::Return(primitive))),
            )
            &&& PrimitiveResume::is_type_error(
                heap,
                realm,
                step->Call_resume.resume_spec(heap, Completion::Return(JsValue::Object(again))),
            )
            &&& PrimitiveResume::is_type_error(
                heap,
                realm,
                started->Get_resume.resume_spec(heap, Completion::Return(plain)),
            )
        }),
        // A primitive is its own conversion.
        PrimitiveResume::start_spec(heap, realm, primitive, hint) == PrimitiveStep::Complete(
            Completion::Return(primitive),
        ),
{
}

/// A throw of a read or a method ends the conversion at once.
pub proof fn throws_end_conversions(resume: PrimitiveResume, heap: Heap, value: JsValue)
    ensures
        resume.resume_spec(heap, Completion::Throw(value)) == (
            heap,
            Ok::<PrimitiveStep, Error>(PrimitiveStep::Complete(Completion::Throw(value))),
        ),
{
}

/// A method value is called where it is a function, and only there.
pub proof fn methods_are_functions(heap: Heap, value: JsValue, object: ObjectRef)
    requires
        object.domain == heap.domain,
        object.index < heap.objects.len(),
    ensures
        !(value is Object) ==> PrimitiveResume::method_of(heap, value) == Ok::<
            Option<CallableRef>,
            Error,
        >(None),
        PrimitiveResume::method_of(heap, JsValue::Object(object)) == Ok::<
            Option<CallableRef>,
            Error,
        >(
            match heap.objects[object.index as int].payload {
                crate::heap::ObjectPayload::NativeFunction(_) => Some(CallableRef { object }),
                crate::heap::ObjectPayload::BoundFunction { .. } => Some(CallableRef { object }),
                crate::heap::ObjectPayload::BytecodeFunction(_) => Some(CallableRef { object }),
                crate::heap::ObjectPayload::Proxy { is_callable: true, .. } => Some(
                    CallableRef { object },
                ),
                _ => None,
            },
        ),
{
}

} // verus!
