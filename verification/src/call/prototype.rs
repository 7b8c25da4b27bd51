//! Constructor prototype acquisition: a read of `prototype` with the realm of
//! the new-target as fallback.
use vstd::prelude::*;
use crate::call::ConstructorPrototypeSource;
use crate::error::Error;
use crate::heap::Heap;
use crate::object::OrdinaryRead;
use crate::runtime::{Runtime, ATOM_PROTOTYPE};
use crate::value::{Completion, JsValue, NativeConversion, PropertyKey};

verus! {

#[derive(Clone, Copy, Debug)]
pub enum ProtoSourceStep {
    Complete(NativeConversion<ConstructorPrototypeSource>),
    /// The read of `key` on the receiver has to run code.
    ReadValue { key: PropertyKey, resume: ProtoSourceResume },
}

/// What goes on once the prototype has been read.  It owns one edge of the
/// new-target and one of the read's receiver.
#[derive(Clone, Copy, Debug, PartialEq, Eq, Structural)]
pub struct ProtoSourceResume {
    pub realm: usize,
    pub new_target: JsValue,
    pub read_receiver: Option<JsValue>,
}

impl Heap {
    pub open spec fn realm_source(self, realm: usize, new_target: JsValue) -> (
        Heap,
        Result<NativeConversion<ConstructorPrototypeSource>, Error>,
    ) {
        match self.home_realm(realm, new_target) {
            (heap, Err(e)) => (heap, Err(e)),
            (heap, Ok(NativeConversion::Value(home))) => (
                heap,
                Ok(NativeConversion::Value(ConstructorPrototypeSource::Realm(home))),
            ),
            (heap, Ok(NativeConversion::Throw(value))) => (
                heap,
                Ok(NativeConversion::Throw(value)),
            ),
        }
    }

    /// The prototype source, if the read runs no code.
    pub open spec fn prototype_source_now(self, realm: usize, new_target: JsValue) -> (
        Heap,
        Result<Option<NativeConversion<ConstructorPrototypeSource>>, Error>,
    ) {
        if new_target is Undefined {
            (
                self,
                Ok(Some(NativeConversion::Value(ConstructorPrototypeSource::Realm(realm)))),
            )
        } else {
            match self.value_read(realm, new_target, PropertyKey::String(ATOM_PROTOTYPE)) {
                (heap, Err(e)) => (heap, Err(e)),
                (heap, Ok(OrdinaryRead::Complete(Some(JsValue::Object(prototype))))) => (
                    heap,
                    Ok(
                        Some(
                            NativeConversion::Value(
                                ConstructorPrototypeSource::Explicit(prototype),
                            ),
                        ),
                    ),
                ),
                (heap, Ok(OrdinaryRead::Complete(_))) => match heap.realm_source(
                    realm,
                    new_target,
                ) {
                    (heap, Err(e)) => (heap, Err(e)),
                    (heap, Ok(source)) => (heap, Ok(Some(source))),
                },
                (heap, Ok(_)) => (heap, Ok(None)),
            }
        }
    }

    /// Giving up what a waiting read owns.
    pub open spec fn drop_proto(self, resume: ProtoSourceResume) -> Heap {
        (match resume.read_receiver {
            Some(value) => self.release(value).0,
            None => self,
        }).release(resume.new_target).0
    }

    pub open spec fn proto_start(self, realm: usize, new_target: JsValue) -> (
        Heap,
        Result<ProtoSourceStep, Error>,
    ) {
        match self.prototype_source_now(realm, new_target) {
            (heap, Ok(Some(source))) => match heap.release(new_target) {
                (heap, Ok(_)) => (heap, Ok(ProtoSourceStep::Complete(source))),
                (heap, Err(e)) => (heap, Err(e)),
            },
            (heap, Err(e)) => (heap.release(new_target).0, Err(e)),
            (heap, Ok(None)) => match heap.retain(new_target) {
                (heap, Err(e)) => (heap.release(new_target).0, Err(e)),
                (heap, Ok(receiver)) => (
                    heap,
                    Ok(
                        ProtoSourceStep::ReadValue {
                            key: PropertyKey::String(ATOM_PROTOTYPE),
                            resume: ProtoSourceResume {
                                realm,
                                new_target,
                                read_receiver: Some(receiver),
                            },
                        },
                    ),
                ),
            },
        }
    }

    pub open spec fn proto_resume(self, resume: ProtoSourceResume, reply: Completion) -> (
        Heap,
        Result<ProtoSourceStep, Error>,
    ) {
        match reply {
            Completion::Throw(value) => (
                self.drop_proto(resume),
                Ok(ProtoSourceStep::Complete(NativeConversion::Throw(value))),
            ),
            Completion::Return(JsValue::Object(prototype)) => (
                self.drop_proto(resume),
                Ok(
                    ProtoSourceStep::Complete(
                        NativeConversion::Value(ConstructorPrototypeSource::Explicit(prototype)),
                    ),
                ),
            ),
            Completion::Return(_) => match self.realm_source(resume.realm, resume.new_target) {
                (heap, Err(e)) => (heap.drop_proto(resume), Err(e)),
                (heap, Ok(source)) => (
                    heap.drop_proto(resume),
                    Ok(ProtoSourceStep::Complete(source)),
                ),
            },
        }
    }
}

impl Runtime {
    fn realm_source(&mut self, realm: usize, new_target: JsValue) -> (r: Result<
        NativeConversion<ConstructorPrototypeSource>,
        Error,
    >)
        requires
            old(self).wf(),
        ensures
            final(self).wf(),
            (final(self)@, r) == old(self)@.realm_source(realm, new_target),
    {
        match self.function_realm_from_value(realm, new_target)? {
            NativeConversion::Value(home) => Ok(
                NativeConversion::Value(ConstructorPrototypeSource::Realm(home)),
            ),
            NativeConversion::Throw(value) => Ok(NativeConversion::Throw(value)),
        }
    }

    /// Resolve the prototype source where the read runs no code.
    pub fn constructor_prototype_source_now(&mut self, realm: usize, new_target: JsValue) -> (r:
        Result<Option<NativeConversion<ConstructorPrototypeSource>>, Error>)
        requires
            old(self).wf(),
        ensures
            final(self).wf(),
            (final(self)@, r) == old(self)@.prototype_source_now(realm, new_target),
    {
        if new_target == JsValue::Undefined {
            return Ok(Some(NativeConversion::Value(ConstructorPrototypeSource::Realm(realm))));
        }
        match self.prepare_value_read(realm, new_target, PropertyKey::String(ATOM_PROTOTYPE))? {
            OrdinaryRead::Complete(Some(JsValue::Object(prototype))) => Ok(
                Some(NativeConversion::Value(ConstructorPrototypeSource::Explicit(prototype))),
            ),
            OrdinaryRead::Complete(_) => {
                let source = self.realm_source(realm, new_target)?;
                Ok(Some(source))
            },
            _ => Ok(None),
        }
    }

    /// Start acquiring the prototype source of a new-target that the caller
    /// keeps.
    pub fn constructor_prototype_source(&mut self, realm: usize, new_target: JsValue) -> (r: Result<
        ProtoSourceStep,
        Error,
    >)
        requires
            old(self).wf(),
        ensures
            final(self).wf(),
            (final(self)@, r) == (match old(self)@.retain(new_target) {
                (heap, Err(e)) => (heap, Err(e)),
                (heap, Ok(_)) => heap.proto_start(realm, new_target),
            }),
    {
        let _ = self.dup_jsvalue(new_target)?;
        ProtoSourceStep::start(self, realm, new_target)
    }
}

impl ProtoSourceStep {
    /// Start with an owned new-target.
    pub fn start(runtime: &mut Runtime, realm: usize, new_target: JsValue) -> (r: Result<Self, Error>)
        requires
            old(runtime).wf(),
        ensures
            final(runtime).wf(),
            (final(runtime)@, r) == old(runtime)@.proto_start(realm, new_target),
    {
        match runtime.constructor_prototype_source_now(realm, new_target) {
            Ok(Some(source)) => {
                runtime.release_jsvalue(new_target)?;
                return Ok(ProtoSourceStep::Complete(source));
            },
            Ok(None) => {},
            Err(e) => {
                let _ = runtime.release_jsvalue(new_target);
                return Err(e);
            },
        }
        match runtime.dup_jsvalue(new_target) {
            Ok(receiver) => Ok(
                ProtoSourceStep::ReadValue {
                    key: PropertyKey::String(ATOM_PROTOTYPE),
                    resume: ProtoSourceResume { realm, new_target, read_receiver: Some(receiver) },
                },
            ),
            Err(e) => {
                let _ = runtime.release_jsvalue(new_target);
                Err(e)
            },
        }
    }
}

impl ProtoSourceResume {
    /// Hand out the receiver of the read.
    pub fn take_read_receiver(&mut self) -> (r: JsValue)
        requires
            old(self).read_receiver is Some,
        ensures
            Some(r) == old(self).read_receiver,
            *final(self) == (ProtoSourceResume { read_receiver: None, ..*old(self) }),
    {
        let receiver = self.read_receiver.unwrap();
        self.read_receiver = None;
        receiver
    }

    /// Go on with what the read gave.
    pub fn resume(self, runtime: &mut Runtime, reply: Completion) -> (r: Result<
        ProtoSourceStep,
        Error,
    >)
        requires
            old(runtime).wf(),
        ensures
            final(runtime).wf(),
            (final(runtime)@, r) == old(runtime)@.proto_resume(self, reply),
    {
        let result = match reply {
            Completion::Throw(value) => Ok(ProtoSourceStep::Complete(NativeConversion::Throw(value))),
            Completion::Return(JsValue::Object(prototype)) => Ok(
                ProtoSourceStep::Complete(
                    NativeConversion::Value(ConstructorPrototypeSource::Explicit(prototype)),
                ),
            ),
            Completion::Return(_) => match runtime.realm_source(self.realm, self.new_target) {
                Ok(source) => Ok(ProtoSourceStep::Complete(source)),
                Err(e) => Err(e),
            },
        };
        match self.read_receiver {
            Some(value) => {
                let _ = runtime.release_jsvalue(value);
            },
            None => {},
        }
        let _ = runtime.release_jsvalue(self.new_target);
        result
    }
}

/// Finish an acquisition with what its read gave, where it needs one.
pub fn finish(runtime: &mut Runtime, step: ProtoSourceStep, reply: Completion) -> (r: Result<
    NativeConversion<ConstructorPrototypeSource>,
    Error,
>)
    requires
        old(runtime).wf(),
    ensures
        final(runtime).wf(),
        (final(runtime)@, r) == (match step {
            ProtoSourceStep::Complete(source) => (old(runtime)@, Ok(source)),
            ProtoSourceStep::ReadValue { resume, .. } => match old(runtime)@.proto_resume(
                resume,
                reply,
            ) {
                (heap, Err(e)) => (heap, Err(e)),
                (heap, Ok(ProtoSourceStep::Complete(source))) => (heap, Ok(source)),
                (heap, Ok(_)) => (heap, Err(Error::internal("prototype read was repeated"))),
            },
        }),
{
    match step {
        ProtoSourceStep::Complete(source) => Ok(source),
        ProtoSourceStep::ReadValue { resume, .. } => match resume.resume(runtime, reply)? {
            ProtoSourceStep::Complete(source) => Ok(source),
            _ => Err(Error::internal("prototype read was repeated")),
        },
    }
}

/// One read answers an acquisition: the reply always completes it.
pub proof fn one_read_gives_the_prototype(heap: Heap, resume: ProtoSourceResume, reply: Completion)
    ensures
        heap.proto_resume(resume, reply).1 matches Ok(step) ==> step is Complete,
        reply matches Completion::Throw(value) ==> heap.proto_resume(resume, reply).1 == Ok::<
            ProtoSourceStep,
            Error,
        >(ProtoSourceStep::Complete(NativeConversion::Throw(value))),
{
}

/// Where the prototype of a constructed object comes from: from the `prototype`
/// of the new-target where that is an object, and otherwise from the realm of
/// the new-target; without a new-target from the realm of the caller.
pub proof fn prototypes_come_from_the_new_target(
    heap: Heap,
    realm: usize,
    new_target: JsValue,
    prototype: crate::value::ObjectRef,
    other: Option<JsValue>,
    home: usize,
)
    requires
        !(other matches Some(JsValue::Object(_))),
        heap.home_realm(realm, new_target) == (
            heap,
            Ok::<NativeConversion<usize>, Error>(NativeConversion::Value(home)),
        ),
    ensures
        heap.prototype_source_now(realm, JsValue::Undefined) == (
            heap,
            Ok::<Option<NativeConversion<ConstructorPrototypeSource>>, Error>(
                Some(NativeConversion::Value(ConstructorPrototypeSource::Realm(realm))),
            ),
        ),
        !(new_target is Undefined) && heap.value_read(
            realm,
            new_target,
            PropertyKey::String(ATOM_PROTOTYPE),
        ) == (
            heap,
            Ok::<OrdinaryRead, Error>(OrdinaryRead::Complete(Some(JsValue::Object(prototype)))),
        ) ==> heap.prototype_source_now(realm, new_target) == (
            heap,
            Ok::<Option<NativeConversion<ConstructorPrototypeSource>>, Error>(
                Some(NativeConversion::Value(ConstructorPrototypeSource::Explicit(prototype))),
            ),
        ),
        !(new_target is Undefined) && heap.value_read(
            realm,
            new_target,
            PropertyKey::String(ATOM_PROTOTYPE),
        ) == (heap, Ok::<OrdinaryRead, Error>(OrdinaryRead::Complete(other)))
            ==> heap.prototype_source_now(realm, new_target) == (
            heap,
            Ok::<Option<NativeConversion<ConstructorPrototypeSource>>, Error>(
                Some(NativeConversion::Value(ConstructorPrototypeSource::Realm(home))),
            ),
        ),
{
}

} // verus!
