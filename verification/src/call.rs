//! Calls: classification, constructors and native invocations.
pub mod native;
pub mod ordinary;
pub mod prepare;
pub mod prototype;
pub mod request;
use vstd::prelude::*;
use crate::call::native::{NativeArgumentInput, Prepared, PreparedNativeCall};
use crate::code::ConstructorKind;
use crate::error::{Error, ErrorKind, NativeErrorKind};
use crate::frame::ConstructorReturn;
use crate::frames::active::{NativeCProto, NativeFunctionId};
use crate::heap::{Heap, ObjectPayload, PropertySlot};
use crate::object::OrdinaryRead;
use crate::runtime::{Runtime, ATOM_NAME, ATOM_PROTOTYPE, MAX_ARGUMENTS};
use crate::value::{CallableRef, Completion, JsValue, NativeConversion, ObjectRef, PropertyKey};

verus! {

/// What a native body is entered with.
#[derive(Clone, Copy, Debug, PartialEq, Eq, Structural)]
pub enum NativeInvocation {
    Call { this_value: JsValue },
    Construct { new_target: JsValue },
    Getter { this_value: JsValue },
    Setter { this_value: JsValue },
}

impl NativeInvocation {
    /// The value whose edge the invocation owns.
    pub open spec fn owned(self) -> JsValue {
        match self {
            NativeInvocation::Call { this_value } => this_value,
            NativeInvocation::Construct { new_target } => new_target,
            NativeInvocation::Getter { this_value } => this_value,
            NativeInvocation::Setter { this_value } => this_value,
        }
    }

    pub fn value(&self) -> (r: JsValue)
        ensures
            r == self.owned(),
    {
        match self {
            NativeInvocation::Call { this_value } => *this_value,
            NativeInvocation::Construct { new_target } => *new_target,
            NativeInvocation::Getter { this_value } => *this_value,
            NativeInvocation::Setter { this_value } => *this_value,
        }
    }

    /// Give up the owned edge.
    pub fn release(self, runtime: &mut Runtime) -> (r: Result<(), Error>)
        requires
            old(runtime).wf(),
        ensures
            final(runtime).wf(),
            (final(runtime)@, r) == old(runtime)@.release(self.owned()),
    {
        runtime.release_jsvalue(self.value())
    }

    /// A second invocation with an edge of its own.
    pub fn dup(&self, runtime: &mut Runtime) -> (r: Result<Self, Error>)
        requires
            old(runtime).wf(),
        ensures
            final(runtime).wf(),
            (final(runtime)@, r) == (match old(runtime)@.retain(self.owned()) {
                (heap, Ok(_)) => (heap, Ok::<NativeInvocation, Error>(*self)),
                (heap, Err(e)) => (heap, Err(e)),
            }),
    {
        let _ = runtime.dup_jsvalue(self.value())?;
        Ok(*self)
    }
}

/// What a native body produced, before it takes the shape of a call result.
#[derive(Clone, Copy, Debug, PartialEq, Eq, Structural)]
pub enum NativeInvokeOutcome {
    Completion(Completion),
    IteratorNextRaw { value: JsValue, done: bool },
}

impl Completion {
    /// The value whose edge the completion owns.
    pub open spec fn owned(self) -> JsValue {
        match self {
            Completion::Return(value) => value,
            Completion::Throw(value) => value,
        }
    }

    pub fn value(&self) -> (r: JsValue)
        ensures
            r == self.owned(),
    {
        match self {
            Completion::Return(value) => *value,
            Completion::Throw(value) => *value,
        }
    }
}

impl NativeInvokeOutcome {
    /// The value whose edge the outcome owns.
    pub open spec fn owned(self) -> JsValue {
        match self {
            NativeInvokeOutcome::Completion(completion) => completion.owned(),
            NativeInvokeOutcome::IteratorNextRaw { value, .. } => value,
        }
    }

    pub fn value(&self) -> (r: JsValue)
        ensures
            r == self.owned(),
    {
        match self {
            NativeInvokeOutcome::Completion(completion) => completion.value(),
            NativeInvokeOutcome::IteratorNextRaw { value, .. } => *value,
        }
    }
}

#[derive(Clone, Copy, Debug, PartialEq, Eq, Structural)]
pub enum NativeInvokeMode {
    Ordinary,
    /// The value and its end marker are handed on unwrapped.
    IteratorNextRaw,
}

/// The arguments that a native body may read, of which the first
/// `actual_arg_count` were passed.
pub struct NativeArguments {
    pub actual_arg_count: usize,
    pub readable: Vec<JsValue>,
}

/// How a callable runs.
#[derive(Clone, Copy, Debug, PartialEq, Eq, Structural)]
pub enum CallableExecution {
    /// Its cells are `count` entries of the closure table from `start`.
    Bytecode { bytecode: usize, start: usize, count: usize },
    Native { target: NativeFunctionId, realm: usize, min_readable_args: u8 },
    /// The edges of the receiver and of the leading arguments, `count` entries
    /// of the bound table from `start`, have been taken.
    Bound { target: CallableRef, this_value: JsValue, start: usize, count: usize },
    Proxy,
}

/// An object whose construct capability has been seen.  It is independent of
/// the call capability.
#[derive(Clone, Copy, Debug, PartialEq, Eq, Structural)]
pub struct ConstructorRef {
    pub object: ObjectRef,
}

impl ConstructorRef {
    pub fn from_validated_object(object: ObjectRef) -> (r: Self)
        ensures
            r.object == object,
    {
        ConstructorRef { object }
    }

    pub fn from_validated_callable(callable: CallableRef) -> (r: Self)
        ensures
            r.object == callable.object,
    {
        ConstructorRef { object: callable.object }
    }

    pub fn as_object(&self) -> (r: ObjectRef)
        ensures
            r == self.object,
    {
        self.object
    }

    pub fn into_object(self) -> (r: ObjectRef)
        ensures
            r == self.object,
    {
        self.object
    }
}

/// Whether a new-target has been validated.
#[derive(Clone, Copy, Debug, PartialEq, Eq, Structural)]
pub enum ConstructNewTarget {
    Validated(ConstructorRef),
    Raw(JsValue),
}

impl ConstructNewTarget {
    pub open spec fn value_spec(&self) -> JsValue {
        match self {
            ConstructNewTarget::Validated(constructor) => JsValue::Object(constructor.object),
            ConstructNewTarget::Raw(value) => *value,
        }
    }

    /// The new-target as a value.
    #[verifier::when_used_as_spec(value_spec)]
    pub fn value(&self) -> (r: JsValue)
        ensures
            r == self.value_spec(),
    {
        match self {
            ConstructNewTarget::Validated(constructor) => JsValue::Object(constructor.object),
            ConstructNewTarget::Raw(value) => *value,
        }
    }

    /// The new-target as a value that the caller owns.
    pub fn into_value(self) -> (r: JsValue)
        ensures
            r == self.value_spec(),
    {
        self.value()
    }

    pub open spec fn released(self, heap: Heap) -> (Heap, Result<(), Error>) {
        match self {
            ConstructNewTarget::Validated(_) => (heap, Ok(())),
            ConstructNewTarget::Raw(value) => heap.release(value),
        }
    }

    /// Give up the raw form's edge.
    pub fn release(self, runtime: &mut Runtime) -> (r: Result<(), Error>)
        requires
            old(runtime).wf(),
        ensures
            final(runtime).wf(),
            (final(runtime)@, r) == self.released(old(runtime)@),
    {
        match self {
            ConstructNewTarget::Validated(_) => Ok(()),
            ConstructNewTarget::Raw(value) => runtime.release_jsvalue(value),
        }
    }

    /// Constructing through a bound function names its target as the
    /// new-target wherever the bound function itself was named.
    pub open spec fn retargeted(self, heap: Heap, bound: ConstructorRef, target: CallableRef) -> (
        Heap,
        ConstructNewTarget,
        Result<(), Error>,
    ) {
        if self.value() != JsValue::Object(bound.object) {
            (heap, self, Ok(()))
        } else {
            match self {
                ConstructNewTarget::Validated(_) => (
                    heap,
                    ConstructNewTarget::Validated(ConstructorRef { object: target.object }),
                    Ok(()),
                ),
                ConstructNewTarget::Raw(previous) => match heap.retain(
                    JsValue::Object(target.object),
                ) {
                    (heap, Err(e)) => (heap, self, Err(e)),
                    (heap, Ok(value)) => {
                        let (heap, r) = heap.release(previous);
                        (heap, ConstructNewTarget::Raw(value), r)
                    },
                },
            }
        }
    }

    pub fn retarget_bound_identity(
        &mut self,
        runtime: &mut Runtime,
        bound: ConstructorRef,
        target: CallableRef,
    ) -> (r: Result<(), Error>)
        requires
            old(runtime).wf(),
        ensures
            final(runtime).wf(),
            (final(runtime)@, *final(self), r) == old(self).retargeted(
                old(runtime)@,
                bound,
                target,
            ),
    {
        match *self {
            ConstructNewTarget::Validated(constructor) => {
                if constructor.object == bound.object {
                    *self = ConstructNewTarget::Validated(ConstructorRef { object: target.object });
                }
                Ok(())
            },
            ConstructNewTarget::Raw(previous) => {
                if previous != JsValue::Object(bound.object) {
                    return Ok(());
                }
                let value = runtime.dup_jsvalue(JsValue::Object(target.object))?;
                *self = ConstructNewTarget::Raw(value);
                runtime.release_jsvalue(previous)
            },
        }
    }
}

/// Where the prototype of a constructed object comes from.
#[derive(Clone, Copy, Debug, PartialEq, Eq, Structural)]
pub enum ConstructorPrototypeSource {
    Explicit(ObjectRef),
    Realm(usize),
}

#[derive(Clone, Copy, Debug, PartialEq, Eq, Structural)]
pub enum ConstructorTarget {
    Proxy(ConstructorRef),
    Ordinary { callable: CallableRef, classification: CallableExecution },
}

/// A construct request whose bound wrappers have been unwound.
pub struct NormalizedConstructor {
    pub target: ConstructorTarget,
    pub new_target: ConstructNewTarget,
    pub arguments: Vec<JsValue>,
}

/// A normalized construct request as a mathematical value.
#[verifier::ext_equal]
pub struct Normalized {
    pub target: ConstructorTarget,
    pub new_target: ConstructNewTarget,
    pub arguments: Seq<JsValue>,
}

impl View for NormalizedConstructor {
    type V = Normalized;

    open spec fn view(&self) -> Normalized {
        Normalized {
            target: self.target,
            new_target: self.new_target,
            arguments: self.arguments@,
        }
    }
}

impl NormalizedConstructor {
    /// A normalization ended as `expected` says.
    pub open spec fn agrees(
        after: Heap,
        r: Result<NativeConversion<NormalizedConstructor>, Error>,
        expected: (Heap, Result<NativeConversion<Normalized>, Error>),
    ) -> bool {
        after == expected.0 && match r {
            Ok(NativeConversion::Value(normal)) => expected.1 == Ok::<
                NativeConversion<Normalized>,
                Error,
            >(NativeConversion::Value(normal@)),
            Ok(NativeConversion::Throw(value)) => expected.1 == Ok::<
                NativeConversion<Normalized>,
                Error,
            >(NativeConversion::Throw(value)),
            Err(e) => expected.1 == Err::<NativeConversion<Normalized>, Error>(e),
        }
    }
}

/// The object of a base constructor, or the read that its prototype needs.
#[derive(Clone, Copy, Debug)]
pub enum CreateStep {
    Complete(Completion),
    Read(OrdinaryRead),
}

/// A bytecode constructor body that has not been entered.
pub struct ConstructBody {
    pub callable: CallableRef,
    pub bytecode: usize,
    pub closure_count: usize,
    pub caller_realm: usize,
    pub new_target: ConstructNewTarget,
    pub arguments: Vec<JsValue>,
}

/// A constructor body as a mathematical value.
#[verifier::ext_equal]
pub struct Body {
    pub callable: CallableRef,
    pub bytecode: usize,
    pub closure_count: usize,
    pub caller_realm: usize,
    pub new_target: ConstructNewTarget,
    pub arguments: Seq<JsValue>,
}

impl View for ConstructBody {
    type V = Body;

    open spec fn view(&self) -> Body {
        Body {
            callable: self.callable,
            bytecode: self.bytecode,
            closure_count: self.closure_count,
            caller_realm: self.caller_realm,
            new_target: self.new_target,
            arguments: self.arguments@,
        }
    }
}

/// What a construct call needs next.
pub enum ConstructStep {
    Complete(Completion),
    Proxy { constructor: ConstructorRef, new_target: ConstructNewTarget, arguments: Vec<JsValue> },
    Native(PreparedNativeCall),
    Prototype { read: OrdinaryRead, body: ConstructBody },
    Body { this_value: JsValue, kind: ConstructorReturn, body: ConstructBody },
}

/// A construct step as a mathematical value.
#[verifier::ext_equal]
pub enum ConstructState {
    Complete(Completion),
    Proxy { constructor: ConstructorRef, new_target: ConstructNewTarget, arguments: Seq<JsValue> },
    Native(Prepared),
    Prototype { read: OrdinaryRead, body: Body },
    Body { this_value: JsValue, kind: ConstructorReturn, body: Body },
}

impl View for ConstructStep {
    type V = ConstructState;

    open spec fn view(&self) -> ConstructState {
        match self {
            ConstructStep::Complete(completion) => ConstructState::Complete(*completion),
            ConstructStep::Proxy { constructor, new_target, arguments } => ConstructState::Proxy {
                constructor: *constructor,
                new_target: *new_target,
                arguments: arguments@,
            },
            ConstructStep::Native(prepared) => ConstructState::Native(prepared@),
            ConstructStep::Prototype { read, body } => ConstructState::Prototype {
                read: *read,
                body: body@,
            },
            ConstructStep::Body { this_value, kind, body } => ConstructState::Body {
                this_value: *this_value,
                kind: *kind,
                body: body@,
            },
        }
    }
}

impl ConstructStep {
    /// A construct call went as `expected` says.
    pub open spec fn agrees(
        after: Heap,
        r: Result<ConstructStep, Error>,
        expected: (Heap, Result<ConstructState, Error>),
    ) -> bool {
        after == expected.0 && match r {
            Ok(step) => expected.1 == Ok::<ConstructState, Error>(step@),
            Err(e) => expected.1 == Err::<ConstructState, Error>(e),
        }
    }
}

impl Heap {
    /// The facts of a callable that is itself a native function.
    pub open spec fn direct_native(self, callable: CallableRef) -> Result<
        Option<(NativeFunctionId, usize, u8)>,
        Error,
    > {
        if !self.belongs(callable.object) {
            Err(Error::wrong_runtime("native callable"))
        } else {
            match self.object_at(callable.object) {
                Err(e) => Err(e),
                Ok(object) => match object.payload {
                    ObjectPayload::NativeFunction(data) => match data.realm {
                        None => Err(
                            Error::broken(
                                "native function was called before its defining realm was attached",
                            ),
                        ),
                        Some(realm) => match self.realm_at(realm) {
                            Err(e) => Err(e),
                            Ok(_) => Ok(Some((data.target, realm, data.min_readable_args))),
                        },
                    },
                    ObjectPayload::BoundFunction { .. } => Ok(None),
                    ObjectPayload::BytecodeFunction(_) => Ok(None),
                    ObjectPayload::Proxy { .. } => Ok(None),
                    _ => Err(
                        Error::broken("validated callable no longer has a callable payload"),
                    ),
                },
            }
        }
    }

    pub open spec fn callable_of(self, value: JsValue) -> Result<CallableRef, Error> {
        match value {
            JsValue::Object(object) => if !self.belongs(object) {
                Err(Error::wrong_runtime("callable"))
            } else {
                match self.callable(object) {
                    Err(e) => Err(e),
                    Ok(Some(callable)) => Ok(callable),
                    Ok(None) => Err(Error::new(ErrorKind::Type, "not a function")),
                }
            },
            _ => Err(Error::new(ErrorKind::Type, "not a function")),
        }
    }

    /// Checking a constructor, then its new-target.
    pub open spec fn constructor_pair(
        self,
        realm: usize,
        constructor: CallableRef,
        new_target: CallableRef,
    ) -> (Heap, Result<NativeConversion<(ConstructorRef, ConstructorRef)>, Error>) {
        match self.constructor_check(realm, constructor.object) {
            (heap, Err(e)) => (heap, Err(e)),
            (heap, Ok(NativeConversion::Throw(value))) => (
                heap,
                Ok(NativeConversion::Throw(value)),
            ),
            (heap, Ok(NativeConversion::Value(first))) => match heap.constructor_check(
                realm,
                new_target.object,
            ) {
                (heap, Err(e)) => (heap, Err(e)),
                (heap, Ok(NativeConversion::Throw(value))) => (
                    heap,
                    Ok(NativeConversion::Throw(value)),
                ),
                (heap, Ok(NativeConversion::Value(second))) => (
                    heap,
                    Ok(NativeConversion::Value((first, second))),
                ),
            },
        }
    }

    /// The last check before a native body runs.
    pub open spec fn native_checked(self, prepared: Prepared) -> (Heap, Result<Prepared, Error>) {
        if prepared.activation.mode is IteratorNextRaw && !(
        prepared.activation.target.cproto is IteratorNext) {
            match self.release(prepared.invocation.owned()) {
                (heap, Err(e)) => (heap, Err(e)),
                (heap, Ok(_)) => match heap.finish_failed(
                    prepared.activation,
                    Error::broken("raw iterator-next dispatch targeted another native cproto"),
                ) {
                    (heap, Err(e)) => (heap, Err(e)),
                    (heap, Ok(_)) => (
                        heap,
                        Err(
                            Error::broken(
                                "raw iterator-next dispatch targeted another native cproto",
                            ),
                        ),
                    ),
                },
            }
        } else {
            (self, Ok(prepared))
        }
    }

    /// Making a native call ready for its body.
    pub open spec fn native_entry(
        self,
        callable: CallableRef,
        realm: usize,
        target: NativeFunctionId,
        min_readable_args: u8,
        invocation: NativeInvocation,
        arguments: Seq<JsValue>,
        input: NativeArgumentInput,
        mode: NativeInvokeMode,
    ) -> (Heap, Result<Prepared, Error>) {
        match self.prepare_native(
            callable,
            realm,
            target,
            min_readable_args,
            invocation,
            arguments,
            input,
            mode,
            false,
            None,
        ) {
            (heap, Err(e)) => (heap, Err(e)),
            (heap, Ok(prepared)) => heap.native_checked(prepared),
        }
    }

    /// An iterator step of a native iterator method.
    pub open spec fn iterator_step(self, realm: usize, callable: CallableRef, iterator: JsValue) -> (
        Heap,
        Result<Option<Prepared>, Error>,
    ) {
        match self.domain_check(iterator, "iterator-next receiver") {
            Err(e) => (self, Err(e)),
            Ok(_) => match self.direct_native(callable) {
                Err(e) => (self, Err(e)),
                Ok(None) => (self, Ok(None)),
                Ok(Some((target, _, min_readable_args))) => if !(target.cproto is IteratorNext) {
                    (self, Ok(None))
                } else {
                    match self.retain(iterator) {
                        (heap, Err(e)) => (heap, Err(e)),
                        (heap, Ok(this_value)) => match heap.native_entry(
                            callable,
                            realm,
                            target,
                            min_readable_args,
                            NativeInvocation::Call { this_value },
                            Seq::empty(),
                            NativeArgumentInput::Borrowed,
                            NativeInvokeMode::IteratorNextRaw,
                        ) {
                            (heap, Err(e)) => (heap, Err(e)),
                            (heap, Ok(prepared)) => (heap, Ok(Some(prepared))),
                        },
                    }
                },
            },
        }
    }

    /// Reading the prototype of a constructed object and making it.
    pub open spec fn create(self, realm: usize, new_target: JsValue) -> (
        Heap,
        Result<CreateStep, Error>,
    ) {
        if new_target is Undefined {
            self.created_with(realm, new_target, Completion::Return(JsValue::Undefined))
        } else {
            match self.value_read(realm, new_target, PropertyKey::String(ATOM_PROTOTYPE)) {
                (heap, Ok(OrdinaryRead::Complete(value))) => heap.created_with(
                    realm,
                    new_target,
                    Completion::Return(
                        match value {
                            Some(value) => value,
                            None => JsValue::Undefined,
                        },
                    ),
                ),
                (heap, Ok(read)) => (heap, Ok(CreateStep::Read(read))),
                (heap, Err(e)) => match heap.thrown(realm, e) {
                    (heap, Err(e)) => (heap, Err(e)),
                    (heap, Ok(reply)) => heap.created_with(realm, new_target, reply),
                },
            }
        }
    }

    pub open spec fn created_with(self, realm: usize, new_target: JsValue, reply: Completion) -> (
        Heap,
        Result<CreateStep, Error>,
    ) {
        match self.constructed(realm, new_target, reply) {
            (heap, Ok(completion)) => (heap, Ok(CreateStep::Complete(completion))),
            (heap, Err(e)) => (heap, Err(e)),
        }
    }

    /// Entering the body of a base constructor.
    pub open spec fn base_body(self, body: Body, completion: Completion) -> (
        Heap,
        Result<ConstructState, Error>,
    ) {
        match completion {
            Completion::Throw(_) => (
                self.abandon_construct(body.new_target, body.arguments),
                Ok(ConstructState::Complete(completion)),
            ),
            Completion::Return(this_value) => match self.retain(this_value) {
                (heap, Ok(_)) => (
                    heap,
                    Ok(
                        ConstructState::Body {
                            this_value,
                            kind: ConstructorReturn::Base(this_value),
                            body,
                        },
                    ),
                ),
                (heap, Err(e)) => (
                    heap.release(this_value).0.abandon_construct(body.new_target, body.arguments),
                    Err(e),
                ),
            },
        }
    }

    /// Entering a bytecode constructor.
    pub open spec fn construct_body(self, body: Body) -> (Heap, Result<ConstructState, Error>) {
        match self.function_at(body.bytecode) {
            Err(e) => (self.abandon_construct(body.new_target, body.arguments), Err(e)),
            Ok(function) => match function.metadata.constructor_kind {
                ConstructorKind::NotConstructor => (
                    self.abandon_construct(body.new_target, body.arguments),
                    Err(
                        Error::broken(
                            "constructor bit disagrees with bytecode constructor metadata",
                        ),
                    ),
                ),
                ConstructorKind::Derived => (
                    self,
                    Ok(
                        ConstructState::Body {
                            this_value: JsValue::Undefined,
                            kind: ConstructorReturn::Derived,
                            body,
                        },
                    ),
                ),
                ConstructorKind::Base => match self.create(
                    body.caller_realm,
                    body.new_target.value(),
                ) {
                    (heap, Ok(CreateStep::Complete(completion))) => heap.base_body(
                        body,
                        completion,
                    ),
                    (heap, Ok(CreateStep::Read(read))) => (
                        heap,
                        Ok(ConstructState::Prototype { read, body }),
                    ),
                    (heap, Err(e)) => (
                        heap.abandon_construct(body.new_target, body.arguments),
                        Err(e),
                    ),
                },
            },
        }
    }

    /// A construct call, up to the point where something has to run.
    pub open spec fn construct(
        self,
        realm: usize,
        constructor: ConstructorRef,
        new_target: ConstructNewTarget,
        arguments: Seq<JsValue>,
    ) -> (Heap, Result<ConstructState, Error>) {
        match self.normalized_constructor(realm, constructor, new_target, arguments) {
            (heap, Err(e)) => (heap, Err(e)),
            (heap, Ok(NativeConversion::Throw(value))) => (
                heap,
                Ok(ConstructState::Complete(Completion::Throw(value))),
            ),
            (heap, Ok(NativeConversion::Value(normal))) => match normal.target {
                ConstructorTarget::Proxy(constructor) => (
                    heap,
                    Ok(
                        ConstructState::Proxy {
                            constructor,
                            new_target: normal.new_target,
                            arguments: normal.arguments,
                        },
                    ),
                ),
                ConstructorTarget::Ordinary { callable, classification } => match classification {
                    CallableExecution::Native { target, realm: defining, min_readable_args } =>
                        match heap.native_entry(
                        callable,
                        if target.uses_calling_realm {
                            realm
                        } else {
                            defining
                        },
                        target,
                        min_readable_args,
                        NativeInvocation::Construct { new_target: normal.new_target.value() },
                        normal.arguments,
                        NativeArgumentInput::Internal,
                        NativeInvokeMode::Ordinary,
                    ) {
                        (heap, Err(e)) => (heap, Err(e)),
                        (heap, Ok(prepared)) => (heap, Ok(ConstructState::Native(prepared))),
                    },
                    CallableExecution::Bytecode { bytecode, start, count } => heap.construct_body(
                        Body {
                            callable,
                            bytecode,
                            closure_count: count,
                            caller_realm: realm,
                            new_target: normal.new_target,
                            arguments: normal.arguments,
                        },
                    ),
                    _ => (
                        heap.abandon_construct(normal.new_target, normal.arguments),
                        Err(Error::broken("constructor dispatch was not normalized")),
                    ),
                },
            },
        }
    }

    /// A construct call whose caller keeps its arguments.
    pub open spec fn construct_values(
        self,
        realm: usize,
        constructor: ConstructorRef,
        new_target: ConstructNewTarget,
        arguments: Seq<JsValue>,
    ) -> (Heap, Result<ConstructState, Error>) {
        match self.retain_from(arguments, 0) {
            (heap, taken, Err(e)) => (
                heap.abandon_construct(new_target, arguments.take(taken)),
                Err(e),
            ),
            (heap, _, Ok(_)) => heap.construct(realm, constructor, new_target, arguments),
        }
    }

    pub open spec fn construct_raw(
        self,
        realm: usize,
        constructor: ConstructorRef,
        new_target: JsValue,
        arguments: Seq<JsValue>,
    ) -> (Heap, Result<ConstructState, Error>) {
        match self.retain(new_target) {
            (heap, Err(e)) => (heap, Err(e)),
            (heap, Ok(value)) => heap.construct_values(
                realm,
                constructor,
                ConstructNewTarget::Raw(value),
                arguments,
            ),
        }
    }

    /// Ending a construct call whose body ran.
    pub open spec fn construct_finished(
        self,
        kind: ConstructorReturn,
        result: Result<Completion, Error>,
    ) -> (Heap, Result<Completion, Error>) {
        match result {
            Ok(completion) => self.constructor_result(
                kind,
                completion,
                Error::broken("derived constructor bytecode returned an unvalidated primitive"),
            ),
            Err(e) => match kind {
                ConstructorReturn::Base(receiver) => match self.release(receiver) {
                    (heap, Err(stale)) => (heap, Err(stale)),
                    (heap, Ok(_)) => (heap, Err(e)),
                },
                ConstructorReturn::Derived => (self, Err(e)),
            },
        }
    }
}

impl Heap {
    /// Leading arguments of a bound function.
    pub open spec fn bound_list(self, start: usize, count: usize) -> Seq<JsValue> {
        if start + count <= self.bound_values.len() {
            self.bound_values.subrange(start as int, start + count)
        } else {
            Seq::empty()
        }
    }

    /// Taking the edges of a bound function's receiver and arguments.
    pub open spec fn bound_taken(
        self,
        target: ObjectRef,
        this_value: JsValue,
        start: usize,
        count: usize,
    ) -> (Heap, Result<CallableExecution, Error>) {
        match self.retain(this_value) {
            (heap, Err(e)) => (heap, Err(e)),
            (heap, Ok(_)) => match heap.retain_from(heap.bound_list(start, count), 0) {
                (heap, taken, Err(e)) => (
                    heap.release(this_value).0.release_each(
                        heap.bound_list(start, count).take(taken),
                    ),
                    Err(e),
                ),
                (heap, _, Ok(_)) => (
                    heap,
                    Ok(
                        CallableExecution::Bound {
                            target: CallableRef { object: target },
                            this_value,
                            start,
                            count,
                        },
                    ),
                ),
            },
        }
    }

    /// How a callable runs.
    pub open spec fn classify(self, callable: CallableRef) -> (
        Heap,
        Result<CallableExecution, Error>,
    ) {
        if !self.belongs(callable.object) {
            (self, Err(Error::wrong_runtime("callable")))
        } else {
            match self.object_at(callable.object) {
                Err(e) => (self, Err(e)),
                Ok(object) => match object.payload {
                    ObjectPayload::NativeFunction(data) => (self, match data.realm {
                        None => Err(
                            Error::broken(
                                "native function was called before its defining realm was attached",
                            ),
                        ),
                        Some(realm) => match self.realm_at(realm) {
                            Err(e) => Err(e),
                            Ok(_) => Ok(
                                CallableExecution::Native {
                                    target: data.target,
                                    realm,
                                    min_readable_args: data.min_readable_args,
                                },
                            ),
                        },
                    }),
                    ObjectPayload::BoundFunction { target, this_value, start, count } =>
                        self.bound_taken(target, this_value, start, count),
                    ObjectPayload::BytecodeFunction(data) => (
                        self,
                        Ok(
                            CallableExecution::Bytecode {
                                bytecode: data.bytecode,
                                start: data.start,
                                count: data.count,
                            },
                        ),
                    ),
                    ObjectPayload::Proxy { is_callable, .. } => (self, if is_callable {
                        Ok(CallableExecution::Proxy)
                    } else {
                        Err(Error::new(ErrorKind::Type, "not a function"))
                    }),
                    _ => (self, Err(Error::new(ErrorKind::Type, "not a function"))),
                },
            }
        }
    }

    /// Bound arguments before call arguments, unless there are too many.
    pub open spec fn concatenated(
        self,
        realm: usize,
        bound: Seq<JsValue>,
        arguments: Seq<JsValue>,
    ) -> (Heap, Result<NativeConversion<Seq<JsValue>>, Error>) {
        if bound.len() + arguments.len() <= MAX_ARGUMENTS {
            (self, Ok(NativeConversion::Value(bound + arguments)))
        } else {
            match self.release_each(bound).release_each(arguments).native_error(
                realm,
                NativeErrorKind::Range,
                Error::new(ErrorKind::Range, "too many arguments"),
            ) {
                (heap, Ok(value)) => (heap, Ok(NativeConversion::Throw(value))),
                (heap, Err(e)) => (heap, Err(e)),
            }
        }
    }

    /// The name that a function object shows.
    pub open spec fn function_name(self, value: JsValue) -> Option<usize> {
        match value {
            JsValue::Object(object) => match self.callable(object) {
                Ok(Some(_)) => match self.find(object, PropertyKey::String(ATOM_NAME)) {
                    Some(p) => match self.properties[p].slot {
                        PropertySlot::Data { value: JsValue::String(name), .. } => Some(name),
                        _ => None,
                    },
                    None => None,
                },
                _ => None,
            },
            _ => None,
        }
    }

    pub open spec fn not_constructor(self, value: JsValue) -> Error {
        match self.function_name(value) {
            Some(name) => Error::named(ErrorKind::Type, "", Some(name), " is not a constructor"),
            None => Error::new(ErrorKind::Type, "not a constructor"),
        }
    }

    /// A fresh error that says that `value` constructs nothing.
    pub open spec fn not_constructor_error(self, realm: usize, value: JsValue) -> (
        Heap,
        Result<JsValue, Error>,
    ) {
        self.native_error(realm, NativeErrorKind::Type, self.not_constructor(value))
    }

    pub open spec fn constructor_check(self, realm: usize, object: ObjectRef) -> (
        Heap,
        Result<NativeConversion<ConstructorRef>, Error>,
    ) {
        if !self.belongs(object) {
            (self, Err(Error::wrong_runtime("constructor")))
        } else {
            match self.constructor_bit(object) {
                Err(e) => (self, Err(e)),
                Ok(true) => (self, Ok(NativeConversion::Value(ConstructorRef { object }))),
                Ok(false) => match self.not_constructor_error(realm, JsValue::Object(object)) {
                    (heap, Ok(value)) => (heap, Ok(NativeConversion::Throw(value))),
                    (heap, Err(e)) => (heap, Err(e)),
                },
            }
        }
    }

    /// Giving up a construct request.
    pub open spec fn abandon_construct(
        self,
        new_target: ConstructNewTarget,
        arguments: Seq<JsValue>,
    ) -> Heap {
        new_target.released(self).0.release_each(arguments)
    }

    /// Unwinding the bound wrappers of a constructor, at most `fuel` of them.
    pub open spec fn normalize_construct(
        self,
        realm: usize,
        constructor: ConstructorRef,
        new_target: ConstructNewTarget,
        arguments: Seq<JsValue>,
        fuel: nat,
    ) -> (Heap, Result<NativeConversion<Normalized>, Error>)
        decreases fuel,
    {
        match self.object_at(constructor.object) {
            Err(e) => (self.abandon_construct(new_target, arguments), Err(e)),
            Ok(object) => if !object.is_constructor {
                let (heap, r) = new_target.released(self.release_each(arguments));
                match r {
                    Err(e) => (heap, Err(e)),
                    Ok(_) => match heap.not_constructor_error(
                        realm,
                        JsValue::Object(constructor.object),
                    ) {
                        (heap, Ok(value)) => (heap, Ok(NativeConversion::Throw(value))),
                        (heap, Err(e)) => (heap, Err(e)),
                    },
                }
            } else if object.payload is Proxy {
                (
                    self,
                    Ok(
                        NativeConversion::Value(
                            Normalized {
                                target: ConstructorTarget::Proxy(constructor),
                                new_target,
                                arguments,
                            },
                        ),
                    ),
                )
            } else {
                let callable = CallableRef { object: constructor.object };
                match self.classify(callable) {
                    (heap, Err(e)) => (heap.abandon_construct(new_target, arguments), Err(e)),
                    (heap, Ok(CallableExecution::Bound { target, this_value, start, count })) => {
                        match heap.release(this_value) {
                            (heap, Err(e)) => (
                                heap.abandon_construct(new_target, arguments),
                                Err(e),
                            ),
                            (heap, Ok(_)) => match heap.concatenated(
                                realm,
                                heap.bound_list(start, count),
                                arguments,
                            ) {
                                (heap, Err(e)) => (new_target.released(heap).0, Err(e)),
                                (heap, Ok(NativeConversion::Throw(value))) => (
                                    new_target.released(heap).0,
                                    Ok(NativeConversion::Throw(value)),
                                ),
                                (heap, Ok(NativeConversion::Value(merged))) => {
                                    let (heap, renamed, r) = new_target.retargeted(
                                        heap,
                                        constructor,
                                        target,
                                    );
                                    match r {
                                        Err(e) => (
                                            heap.abandon_construct(renamed, merged),
                                            Err(e),
                                        ),
                                        Ok(_) => if fuel == 0 {
                                            (
                                                heap.abandon_construct(renamed, merged),
                                                Err(
                                                    Error::broken("bound function chain is cyclic"),
                                                ),
                                            )
                                        } else {
                                            heap.normalize_construct(
                                                realm,
                                                ConstructorRef { object: target.object },
                                                renamed,
                                                merged,
                                                (fuel - 1) as nat,
                                            )
                                        },
                                    }
                                },
                            },
                        }
                    },
                    (heap, Ok(classification)) => (
                        heap,
                        Ok(
                            NativeConversion::Value(
                                Normalized {
                                    target: ConstructorTarget::Ordinary {
                                        callable,
                                        classification,
                                    },
                                    new_target,
                                    arguments,
                                },
                            ),
                        ),
                    ),
                }
            },
        }
    }

    /// Checking a construct request and unwinding its bound wrappers.
    pub open spec fn normalized_constructor(
        self,
        realm: usize,
        constructor: ConstructorRef,
        new_target: ConstructNewTarget,
        arguments: Seq<JsValue>,
    ) -> (Heap, Result<NativeConversion<Normalized>, Error>) {
        match self.realm_at(realm) {
            Err(e) => (self.abandon_construct(new_target, arguments), Err(e)),
            Ok(_) => if !self.belongs(constructor.object) || (
            new_target matches ConstructNewTarget::Validated(target) && !self.belongs(
                target.object,
            )) {
                (
                    self.abandon_construct(new_target, arguments),
                    Err(Error::wrong_runtime("constructor")),
                )
            } else {
                self.normalize_construct(
                    realm,
                    constructor,
                    new_target,
                    arguments,
                    self.objects.len(),
                )
            },
        }
    }

    /// The realm that a function was defined in; any other value names the
    /// caller's.  A revoked proxy names none.
    pub open spec fn function_realm(self, realm: usize, value: JsValue, fuel: nat) -> Result<
        Option<usize>,
        Error,
    >
        decreases fuel,
    {
        match value {
            JsValue::Object(object) => match self.object_at(object) {
                Err(e) => Err(e),
                Ok(data) => match data.payload {
                    ObjectPayload::NativeFunction(native) => match native.realm {
                        Some(defining) => Ok(Some(defining)),
                        None => Ok(Some(realm)),
                    },
                    ObjectPayload::BytecodeFunction(function) => match self.function_at(
                        function.bytecode,
                    ) {
                        Err(e) => Err(e),
                        Ok(code) => Ok(Some(code.realm)),
                    },
                    ObjectPayload::BoundFunction { target, .. } => if fuel == 0 {
                        Err(Error::broken("function chain is cyclic"))
                    } else {
                        self.function_realm(realm, JsValue::Object(target), (fuel - 1) as nat)
                    },
                    ObjectPayload::Proxy { target, .. } => match target {
                        None => Ok(None),
                        Some(target) => if fuel == 0 {
                            Err(Error::broken("function chain is cyclic"))
                        } else {
                            self.function_realm(realm, JsValue::Object(target), (fuel - 1) as nat)
                        },
                    },
                    _ => Ok(Some(realm)),
                },
            },
            _ => Ok(Some(realm)),
        }
    }

    /// The realm of a function, or a type error of the caller's realm for a
    /// revoked proxy.
    pub open spec fn home_realm(self, realm: usize, value: JsValue) -> (
        Heap,
        Result<NativeConversion<usize>, Error>,
    ) {
        match self.function_realm(realm, value, self.objects.len()) {
            Err(e) => (self, Err(e)),
            Ok(Some(home)) => (self, Ok(NativeConversion::Value(home))),
            Ok(None) => match self.native_error(
                realm,
                NativeErrorKind::Type,
                Error::new(ErrorKind::Type, "revoked proxy"),
            ) {
                (heap, Err(e)) => (heap, Err(e)),
                (heap, Ok(value)) => (heap, Ok(NativeConversion::Throw(value))),
            },
        }
    }

    /// The object that a base constructor starts with.
    pub open spec fn constructed(self, realm: usize, new_target: JsValue, reply: Completion) -> (
        Heap,
        Result<Completion, Error>,
    ) {
        match reply {
            Completion::Throw(_) => (self, Ok(reply)),
            Completion::Return(JsValue::Object(prototype)) => (
                self.allocated(Heap::plain_object(Some(prototype))),
                Ok(Completion::Return(JsValue::Object(self.next_ref()))),
            ),
            Completion::Return(value) => match self.release(value) {
                (heap, Err(e)) => (heap, Err(e)),
                (heap, Ok(_)) => match heap.home_realm(realm, new_target) {
                    (heap, Err(e)) => (heap, Err(e)),
                    (heap, Ok(NativeConversion::Throw(value))) => (
                        heap,
                        Ok(Completion::Throw(value)),
                    ),
                    (heap, Ok(NativeConversion::Value(home))) => match heap.realm_at(home) {
                        Err(e) => (heap, Err(e)),
                        Ok(data) => (
                            heap.allocated(Heap::plain_object(Some(data.object_prototype))),
                            Ok(Completion::Return(JsValue::Object(heap.next_ref()))),
                        ),
                    },
                },
            },
        }
    }

    /// What a finished constructor body gives: its own object, or the receiver
    /// of a base constructor.
    pub open spec fn constructor_result(
        self,
        kind: ConstructorReturn,
        completion: Completion,
        unvalidated: Error,
    ) -> (Heap, Result<Completion, Error>) {
        match (completion, kind) {
            (Completion::Return(value), ConstructorReturn::Base(receiver)) => if value is Object {
                match self.release(receiver) {
                    (heap, Err(e)) => (heap, Err(e)),
                    (heap, Ok(_)) => (heap, Ok(completion)),
                }
            } else {
                match self.release(value) {
                    (heap, Err(e)) => (heap, Err(e)),
                    (heap, Ok(_)) => (heap, Ok(Completion::Return(receiver))),
                }
            },
            (Completion::Return(value), ConstructorReturn::Derived) => if value is Object {
                (self, Ok(completion))
            } else {
                match self.release(value) {
                    (heap, Err(e)) => (heap, Err(e)),
                    (heap, Ok(_)) => (heap, Err(unvalidated)),
                }
            },
            (Completion::Throw(_), ConstructorReturn::Base(receiver)) => match self.release(
                receiver,
            ) {
                (heap, Err(e)) => (heap, Err(e)),
                (heap, Ok(_)) => (heap, Ok(completion)),
            },
            (Completion::Throw(_), ConstructorReturn::Derived) => (self, Ok(completion)),
        }
    }
}

impl Runtime {
    /// The leading arguments of a bound function.
    pub fn bound_arguments(&self, start: usize, count: usize) -> (r: Vec<JsValue>)
        ensures
            r@ == self@.bound_list(start, count),
    {
        let mut out: Vec<JsValue> = Vec::new();
        if count <= self.bound_values.len() && start <= self.bound_values.len() - count {
            let mut i: usize = 0;
            assert(self.bound_values.len() == self.bound_values@.len());
            while i < count
                invariant
                    i <= count,
                    start + count <= self.bound_values@.len() <= usize::MAX,
                    out@ == self.bound_values@.subrange(start as int, start + i),
                decreases count - i,
            {
                out.push(self.bound_values[start + i]);
                assert(out@ =~= self.bound_values@.subrange(start as int, start + i + 1));
                i = i + 1;
            }
        }
        out
    }

    fn take_bound(
        &mut self,
        target: ObjectRef,
        this_value: JsValue,
        start: usize,
        count: usize,
    ) -> (r: Result<CallableExecution, Error>)
        requires
            old(self).wf(),
        ensures
            final(self).wf(),
            (final(self)@, r) == old(self)@.bound_taken(target, this_value, start, count),
    {
        let _ = self.dup_jsvalue(this_value)?;
        let arguments = self.bound_arguments(start, count);
        let mut taken: Vec<JsValue> = Vec::new();
        let mut i: usize = 0;
        let ghost before = self@;
        let ghost list = arguments@;
        while i < arguments.len()
            invariant
                self.wf(),
                i <= arguments@.len(),
                list == arguments@,
                taken@ == list.take(i as int),
                self@ == (Heap { edges: self@.edges, ..before }),
                self@.retain_from(list, i as int) == before.retain_from(list, 0),
                before.bound_list(start, count) == list,
                (old(self)@.retain(this_value)).0 == before,
                (old(self)@.retain(this_value)).1 is Ok,
            decreases arguments@.len() - i,
        {
            let failed = match self.validate_value_domain(arguments[i], "value") {
                Err(e) => Some(e),
                Ok(_) => match self.dup_jsvalue(arguments[i]) {
                    Err(e) => Some(e),
                    Ok(_) => None,
                },
            };
            match failed {
                Some(e) => {
                    assert(self@.bound_list(start, count) == list);
                    let _ = self.release_jsvalue(this_value);
                    self.release_list(&taken);
                    return Err(e);
                },
                None => {},
            }
            taken.push(arguments[i]);
            assert(list.take(i as int).push(list[i as int]) =~= list.take(i as int + 1));
            i = i + 1;
        }
        Ok(
            CallableExecution::Bound {
                target: CallableRef { object: target },
                this_value,
                start,
                count,
            },
        )
    }

    /// How a callable runs.  A bound function hands out edges of its own.
    pub fn bytecode_for_callable(&mut self, callable: CallableRef) -> (r: Result<
        CallableExecution,
        Error,
    >)
        requires
            old(self).wf(),
        ensures
            final(self).wf(),
            (final(self)@, r) == old(self)@.classify(callable),
    {
        if callable.object.domain != self.domain_id() {
            return Err(Error::wrong_runtime("callable"));
        }
        let object = self.object(callable.object)?;
        match object.payload {
            ObjectPayload::NativeFunction(data) => match data.realm {
                None => Err(
                    Error::broken(
                        "native function was called before its defining realm was attached",
                    ),
                ),
                Some(realm) => {
                    let _ = self.realm(realm)?;
                    Ok(
                        CallableExecution::Native {
                            target: data.target,
                            realm,
                            min_readable_args: data.min_readable_args,
                        },
                    )
                },
            },
            ObjectPayload::BoundFunction { target, this_value, start, count } => self.take_bound(
                target,
                this_value,
                start,
                count,
            ),
            ObjectPayload::BytecodeFunction(data) => Ok(
                CallableExecution::Bytecode {
                    bytecode: data.bytecode,
                    start: data.start,
                    count: data.count,
                },
            ),
            ObjectPayload::Proxy { is_callable, .. } => {
                if is_callable {
                    Ok(CallableExecution::Proxy)
                } else {
                    Err(Error::new(ErrorKind::Type, "not a function"))
                }
            },
            _ => Err(Error::new(ErrorKind::Type, "not a function")),
        }
    }

    /// Put bound arguments before call arguments.  Both lists are taken over.
    pub fn concatenate_bound_arguments_jsvalue(
        &mut self,
        realm: usize,
        bound: Vec<JsValue>,
        arguments: Vec<JsValue>,
    ) -> (r: Result<NativeConversion<Vec<JsValue>>, Error>)
        requires
            old(self).wf(),
        ensures
            final(self).wf(),
            final(self)@ == old(self)@.concatenated(realm, bound@, arguments@).0,
            match r {
                Ok(NativeConversion::Value(merged)) => old(self)@.concatenated(
                    realm,
                    bound@,
                    arguments@,
                ).1 == Ok::<NativeConversion<Seq<JsValue>>, Error>(
                    NativeConversion::Value(merged@),
                ),
                Ok(NativeConversion::Throw(value)) => old(self)@.concatenated(
                    realm,
                    bound@,
                    arguments@,
                ).1 == Ok::<NativeConversion<Seq<JsValue>>, Error>(NativeConversion::Throw(value)),
                Err(e) => old(self)@.concatenated(realm, bound@, arguments@).1 == Err::<
                    NativeConversion<Seq<JsValue>>,
                    Error,
                >(e),
            },
    {
        if bound.len() <= MAX_ARGUMENTS && arguments.len() <= MAX_ARGUMENTS - bound.len() {
            let mut merged = bound;
            let mut arguments = arguments;
            merged.append(&mut arguments);
            Ok(NativeConversion::Value(merged))
        } else {
            self.release_list(&bound);
            self.release_list(&arguments);
            let value = self.new_native_error_from_error(
                realm,
                NativeErrorKind::Range,
                Error::new(ErrorKind::Range, "too many arguments"),
            )?;
            Ok(NativeConversion::Throw(value))
        }
    }

    /// The facts of a callable that is itself a native function.  Wrappers are
    /// not looked through.
    pub fn direct_native_callable_metadata(&self, callable: CallableRef) -> (r: Result<
        Option<(NativeFunctionId, usize, u8)>,
        Error,
    >)
        ensures
            r == self@.direct_native(callable),
    {
        if callable.object.domain != self.domain_id() {
            return Err(Error::wrong_runtime("native callable"));
        }
        let object = self.object(callable.object)?;
        match object.payload {
            ObjectPayload::NativeFunction(data) => match data.realm {
                None => Err(
                    Error::broken(
                        "native function was called before its defining realm was attached",
                    ),
                ),
                Some(realm) => {
                    let _ = self.realm(realm)?;
                    Ok(Some((data.target, realm, data.min_readable_args)))
                },
            },
            ObjectPayload::BoundFunction { .. } => Ok(None),
            ObjectPayload::BytecodeFunction(_) => Ok(None),
            ObjectPayload::Proxy { .. } => Ok(None),
            _ => Err(Error::broken("validated callable no longer has a callable payload")),
        }
    }

    /// Prepare an iterator step of a native iterator method in the realm of
    /// the running operation.  Any other method is called the general way.
    pub fn try_call_native_iterator_next_raw(
        &mut self,
        realm: usize,
        callable: CallableRef,
        iterator: JsValue,
    ) -> (r: Result<Option<PreparedNativeCall>, Error>)
        requires
            old(self).wf(),
        ensures
            final(self).wf(),
            final(self)@ == old(self)@.iterator_step(realm, callable, iterator).0,
            match r {
                Ok(Some(prepared)) => old(self)@.iterator_step(realm, callable, iterator).1 == Ok::<
                    Option<Prepared>,
                    Error,
                >(Some(prepared@)),
                Ok(None) => old(self)@.iterator_step(realm, callable, iterator).1 == Ok::<
                    Option<Prepared>,
                    Error,
                >(None),
                Err(e) => old(self)@.iterator_step(realm, callable, iterator).1 == Err::<
                    Option<Prepared>,
                    Error,
                >(e),
            },
    {
        self.validate_value_domain(iterator, "iterator-next receiver")?;
        let (target, _, min_readable_args) = match self.direct_native_callable_metadata(callable)? {
            Some(data) => data,
            None => {
                return Ok(None);
            },
        };
        if target.cproto != NativeCProto::IteratorNext {
            return Ok(None);
        }
        let this_value = self.dup_jsvalue(iterator)?;
        let prepared = self.invoke_native_function(
            callable,
            realm,
            target,
            min_readable_args,
            NativeInvocation::Call { this_value },
            Vec::new(),
            NativeInvokeMode::IteratorNextRaw,
        )?;
        Ok(Some(prepared))
    }

    pub fn callable_from_value(&self, value: JsValue) -> (r: Result<CallableRef, Error>)
        ensures
            r == self@.callable_of(value),
    {
        match value {
            JsValue::Object(object) => {
                if object.domain != self.domain_id() {
                    return Err(Error::wrong_runtime("callable"));
                }
                match self.as_callable(object)? {
                    Some(callable) => Ok(callable),
                    None => Err(Error::new(ErrorKind::Type, "not a function")),
                }
            },
            _ => Err(Error::new(ErrorKind::Type, "not a function")),
        }
    }

    fn function_name_of(&self, value: JsValue) -> (r: Option<usize>)
        ensures
            r == self@.function_name(value),
    {
        match value {
            JsValue::Object(object) => match self.as_callable(object) {
                Ok(Some(_)) => match self.find_property(object, PropertyKey::String(ATOM_NAME)) {
                    Some(p) => match self.properties[p].slot {
                        PropertySlot::Data { value: JsValue::String(name), .. } => Some(name),
                        _ => None,
                    },
                    None => None,
                },
                _ => None,
            },
            _ => None,
        }
    }

    /// A fresh error that says that `value` constructs nothing.
    pub fn new_not_constructor_error(&mut self, realm: usize, value: JsValue) -> (r: Result<
        JsValue,
        Error,
    >)
        requires
            old(self).wf(),
        ensures
            final(self).wf(),
            (final(self)@, r) == old(self)@.not_constructor_error(realm, value),
    {
        let error = match self.function_name_of(value) {
            Some(name) => Error::named(ErrorKind::Type, "", Some(name), " is not a constructor"),
            None => Error::new(ErrorKind::Type, "not a constructor"),
        };
        self.new_native_error_from_error(realm, NativeErrorKind::Type, error)
    }

    fn check_constructor(&mut self, realm: usize, object: ObjectRef) -> (r: Result<
        NativeConversion<ConstructorRef>,
        Error,
    >)
        requires
            old(self).wf(),
        ensures
            final(self).wf(),
            (final(self)@, r) == old(self)@.constructor_check(realm, object),
    {
        if object.domain != self.domain_id() {
            return Err(Error::wrong_runtime("constructor"));
        }
        if !self.is_constructor(object)? {
            let value = self.new_not_constructor_error(realm, JsValue::Object(object))?;
            return Ok(NativeConversion::Throw(value));
        }
        Ok(NativeConversion::Value(ConstructorRef { object }))
    }

    pub fn constructor_from_value(&mut self, realm: usize, value: JsValue) -> (r: Result<
        NativeConversion<ConstructorRef>,
        Error,
    >)
        requires
            old(self).wf(),
        ensures
            final(self).wf(),
            (final(self)@, r) == (match value {
                JsValue::Object(object) => old(self)@.constructor_check(realm, object),
                _ => (old(self)@, Err(Error::new(ErrorKind::Type, "not a function"))),
            }),
    {
        match value {
            JsValue::Object(object) => self.check_constructor(realm, object),
            _ => Err(Error::new(ErrorKind::Type, "not a function")),
        }
    }

    /// Check a constructor, then its new-target.
    pub fn prepare_constructor_pair(
        &mut self,
        realm: usize,
        constructor: CallableRef,
        new_target: CallableRef,
    ) -> (r: Result<NativeConversion<(ConstructorRef, ConstructorRef)>, Error>)
        requires
            old(self).wf(),
        ensures
            final(self).wf(),
            (final(self)@, r) == old(self)@.constructor_pair(realm, constructor, new_target),
    {
        let first = match self.check_constructor(realm, constructor.object)? {
            NativeConversion::Value(first) => first,
            NativeConversion::Throw(value) => {
                return Ok(NativeConversion::Throw(value));
            },
        };
        match self.check_constructor(realm, new_target.object)? {
            NativeConversion::Value(second) => Ok(NativeConversion::Value((first, second))),
            NativeConversion::Throw(value) => Ok(NativeConversion::Throw(value)),
        }
    }

    /// Check a construct request and unwind its bound wrappers.
    #[verifier::loop_isolation(false)]
    pub fn normalize_constructor(
        &mut self,
        realm: usize,
        constructor: ConstructorRef,
        new_target: ConstructNewTarget,
        arguments: Vec<JsValue>,
    ) -> (r: Result<NativeConversion<NormalizedConstructor>, Error>)
        requires
            old(self).wf(),
        ensures
            final(self).wf(),
            NormalizedConstructor::agrees(
                final(self)@,
                r,
                old(self)@.normalized_constructor(realm, constructor, new_target, arguments@),
            ),
    {
        let mut constructor = constructor;
        let mut new_target = new_target;
        let mut arguments = arguments;
        match self.realm(realm) {
            Ok(_) => {},
            Err(e) => {
                let _ = new_target.release(self);
                self.release_list(&arguments);
                return Err(e);
            },
        }
        let foreign = match new_target {
            ConstructNewTarget::Validated(target) => target.object.domain != self.domain_id(),
            ConstructNewTarget::Raw(_) => false,
        };
        if constructor.object.domain != self.domain_id() || foreign {
            let _ = new_target.release(self);
            self.release_list(&arguments);
            return Err(Error::wrong_runtime("constructor"));
        }
        let mut fuel: usize = self.objects.len();
        let ghost expected = self@.normalize_construct(
            realm,
            constructor,
            new_target,
            arguments@,
            self@.objects.len(),
        );
        loop
            invariant
                self.wf(),
                expected == self@.normalize_construct(
                    realm,
                    constructor,
                    new_target,
                    arguments@,
                    fuel as nat,
                ),
            decreases fuel,
        {
            let object = match self.object(constructor.object) {
                Ok(object) => object,
                Err(e) => {
                    let _ = new_target.release(self);
                    self.release_list(&arguments);
                    return Err(e);
                },
            };
            if !object.is_constructor {
                self.release_list(&arguments);
                new_target.release(self)?;
                let value = self.new_not_constructor_error(
                    realm,
                    JsValue::Object(constructor.object),
                )?;
                return Ok(NativeConversion::Throw(value));
            }
            if let ObjectPayload::Proxy { .. } = object.payload {
                return Ok(
                    NativeConversion::Value(
                        NormalizedConstructor {
                            target: ConstructorTarget::Proxy(constructor),
                            new_target,
                            arguments,
                        },
                    ),
                );
            }
            let callable = CallableRef { object: constructor.object };
            let classification = match self.bytecode_for_callable(callable) {
                Ok(classification) => classification,
                Err(e) => {
                    let _ = new_target.release(self);
                    self.release_list(&arguments);
                    return Err(e);
                },
            };
            match classification {
                CallableExecution::Bound { target, this_value, start, count } => {
                    match self.release_jsvalue(this_value) {
                        Ok(_) => {},
                        Err(e) => {
                            let _ = new_target.release(self);
                            self.release_list(&arguments);
                            return Err(e);
                        },
                    }
                    let bound = self.bound_arguments(start, count);
                    match self.concatenate_bound_arguments_jsvalue(realm, bound, arguments) {
                        Ok(NativeConversion::Value(merged)) => {
                            arguments = merged;
                        },
                        Ok(NativeConversion::Throw(value)) => {
                            let _ = new_target.release(self);
                            return Ok(NativeConversion::Throw(value));
                        },
                        Err(e) => {
                            let _ = new_target.release(self);
                            return Err(e);
                        },
                    }
                    match new_target.retarget_bound_identity(self, constructor, target) {
                        Ok(_) => {},
                        Err(e) => {
                            let _ = new_target.release(self);
                            self.release_list(&arguments);
                            return Err(e);
                        },
                    }
                    if fuel == 0 {
                        let _ = new_target.release(self);
                        self.release_list(&arguments);
                        return Err(Error::broken("bound function chain is cyclic"));
                    }
                    fuel = fuel - 1;
                    constructor = ConstructorRef { object: target.object };
                },
                _ => {
                    return Ok(
                        NativeConversion::Value(
                            NormalizedConstructor {
                                target: ConstructorTarget::Ordinary { callable, classification },
                                new_target,
                                arguments,
                            },
                        ),
                    );
                },
            }
        }
    }

    /// The realm that a function was defined in, if it is not a revoked proxy.
    #[verifier::loop_isolation(false)]
    fn defining_realm(&self, realm: usize, value: JsValue) -> (r: Result<Option<usize>, Error>)
        ensures
            r == self@.function_realm(realm, value, self@.objects.len()),
    {
        let ghost expected = self@.function_realm(realm, value, self@.objects.len());
        let mut value = value;
        let mut fuel: usize = self.objects.len();
        loop
            invariant
                self@.function_realm(realm, value, fuel as nat) == expected,
            decreases fuel,
        {
            match value {
                JsValue::Object(object) => {
                    let data = self.object(object)?;
                    let target = match data.payload {
                        ObjectPayload::NativeFunction(native) => {
                            return match native.realm {
                                Some(defining) => Ok(Some(defining)),
                                None => Ok(Some(realm)),
                            };
                        },
                        ObjectPayload::BytecodeFunction(function) => {
                            let code = self.function_bytecode(function.bytecode)?;
                            return Ok(Some(code.realm));
                        },
                        ObjectPayload::BoundFunction { target, .. } => target,
                        ObjectPayload::Proxy { target, .. } => match target {
                            Some(target) => target,
                            None => {
                                return Ok(None);
                            },
                        },
                        _ => {
                            return Ok(Some(realm));
                        },
                    };
                    if fuel == 0 {
                        return Err(Error::broken("function chain is cyclic"));
                    }
                    fuel = fuel - 1;
                    value = JsValue::Object(target);
                },
                _ => {
                    return Ok(Some(realm));
                },
            }
        }
    }

    /// The realm that a function was defined in; for a revoked proxy, a type
    /// error of the caller's realm.
    pub fn function_realm_from_value(&mut self, realm: usize, value: JsValue) -> (r: Result<
        NativeConversion<usize>,
        Error,
    >)
        requires
            old(self).wf(),
        ensures
            final(self).wf(),
            (final(self)@, r) == old(self)@.home_realm(realm, value),
    {
        match self.defining_realm(realm, value)? {
            Some(home) => Ok(NativeConversion::Value(home)),
            None => {
                let error = self.new_native_error_from_error(
                    realm,
                    NativeErrorKind::Type,
                    Error::new(ErrorKind::Type, "revoked proxy"),
                )?;
                Ok(NativeConversion::Throw(error))
            },
        }
    }

    /// Start the object of a base constructor by reading its prototype.
    pub fn create_from_constructor_value(&mut self, realm: usize, new_target: JsValue) -> (r: Result<
        CreateStep,
        Error,
    >)
        requires
            old(self).wf(),
        ensures
            final(self).wf(),
            (final(self)@, r) == old(self)@.create(realm, new_target),
    {
        if new_target == JsValue::Undefined {
            let completion = self.create_from_constructor_prototype_reply(
                realm,
                new_target,
                Completion::Return(JsValue::Undefined),
            )?;
            return Ok(CreateStep::Complete(completion));
        }
        let reply = match self.prepare_value_read(
            realm,
            new_target,
            PropertyKey::String(ATOM_PROTOTYPE),
        ) {
            Ok(OrdinaryRead::Complete(value)) => Completion::Return(
                match value {
                    Some(value) => value,
                    None => JsValue::Undefined,
                },
            ),
            Ok(read) => {
                return Ok(CreateStep::Read(read));
            },
            Err(e) => self.throw_error(realm, e)?,
        };
        let completion = self.create_from_constructor_prototype_reply(realm, new_target, reply)?;
        Ok(CreateStep::Complete(completion))
    }

    /// Make the object of a base constructor from the prototype that was read.
    pub fn create_from_constructor_prototype_reply(
        &mut self,
        realm: usize,
        new_target: JsValue,
        reply: Completion,
    ) -> (r: Result<Completion, Error>)
        requires
            old(self).wf(),
        ensures
            final(self).wf(),
            (final(self)@, r) == old(self)@.constructed(realm, new_target, reply),
    {
        let prototype = match reply {
            Completion::Throw(_) => {
                return Ok(reply);
            },
            Completion::Return(JsValue::Object(prototype)) => prototype,
            Completion::Return(value) => {
                self.release_jsvalue(value)?;
                match self.function_realm_from_value(realm, new_target)? {
                    NativeConversion::Value(home) => self.realm(home)?.object_prototype,
                    NativeConversion::Throw(value) => {
                        return Ok(Completion::Throw(value));
                    },
                }
            },
        };
        Ok(Completion::Return(JsValue::Object(self.new_object(Some(prototype)))))
    }

    /// The completion of an ordinary native call.
    pub fn ordinary_native_completion(outcome: NativeInvokeOutcome) -> (r: Result<
        Completion,
        Error,
    >)
        ensures
            r == (match outcome {
                NativeInvokeOutcome::Completion(completion) => Ok(completion),
                NativeInvokeOutcome::IteratorNextRaw { .. } => Err(
                    Error::broken("ordinary native call leaked an unwrapped iterator-next outcome"),
                ),
            }),
    {
        match outcome {
            NativeInvokeOutcome::Completion(completion) => Ok(completion),
            NativeInvokeOutcome::IteratorNextRaw { .. } => Err(
                Error::broken("ordinary native call leaked an unwrapped iterator-next outcome"),
            ),
        }
    }

    /// Make a native call ready for its body.  The caller keeps its arguments.
    pub fn invoke_native_function(
        &mut self,
        callable: CallableRef,
        realm: usize,
        target: NativeFunctionId,
        min_readable_args: u8,
        invocation: NativeInvocation,
        arguments: Vec<JsValue>,
        mode: NativeInvokeMode,
    ) -> (r: Result<PreparedNativeCall, Error>)
        requires
            old(self).wf(),
        ensures
            final(self).wf(),
            PreparedNativeCall::agrees(
                final(self)@,
                r,
                old(self)@.native_entry(
                    callable,
                    realm,
                    target,
                    min_readable_args,
                    invocation,
                    arguments@,
                    NativeArgumentInput::Borrowed,
                    mode,
                ),
            ),
    {
        let prepared = self.prepare_native_invocation(
            callable,
            realm,
            target,
            min_readable_args,
            invocation,
            arguments,
            mode,
        )?;
        self.invoke_prepared_native(prepared)
    }

    /// Make a native call ready for its body, taking over its arguments.
    pub fn invoke_native_function_jsvalue(
        &mut self,
        callable: CallableRef,
        realm: usize,
        target: NativeFunctionId,
        min_readable_args: u8,
        invocation: NativeInvocation,
        arguments: Vec<JsValue>,
        mode: NativeInvokeMode,
    ) -> (r: Result<PreparedNativeCall, Error>)
        requires
            old(self).wf(),
        ensures
            final(self).wf(),
            PreparedNativeCall::agrees(
                final(self)@,
                r,
                old(self)@.native_entry(
                    callable,
                    realm,
                    target,
                    min_readable_args,
                    invocation,
                    arguments@,
                    NativeArgumentInput::Internal,
                    mode,
                ),
            ),
    {
        let prepared = self.prepare_native_invocation_jsvalue(
            callable,
            realm,
            target,
            min_readable_args,
            invocation,
            arguments,
            mode,
        )?;
        self.invoke_prepared_native(prepared)
    }

    /// The last check before a native body runs: an unwrapped step needs an
    /// iterator body.
    pub fn invoke_prepared_native(&mut self, prepared: PreparedNativeCall) -> (r: Result<
        PreparedNativeCall,
        Error,
    >)
        requires
            old(self).wf(),
        ensures
            final(self).wf(),
            PreparedNativeCall::agrees(final(self)@, r, old(self)@.native_checked(prepared@)),
    {
        if prepared.activation.mode == NativeInvokeMode::IteratorNextRaw
            && prepared.activation.target.cproto != NativeCProto::IteratorNext {
            let mut prepared = prepared;
            prepared.release_invocation(self)?;
            let (failed, _) = prepared.activation.finish_error(
                self,
                Error::broken("raw iterator-next dispatch targeted another native cproto"),
            );
            return match failed {
                Ok(_) => Err(
                    Error::broken("raw iterator-next dispatch targeted another native cproto"),
                ),
                Err(e) => Err(e),
            };
        }
        Ok(prepared)
    }

    /// The function of the newest activation.
    pub fn active_function(&self) -> (r: Result<ObjectRef, Error>)
        requires
            self.wf(),
        ensures
            r == (if self@.active.len() > 0 {
                Ok(self@.active.last().function)
            } else {
                Err(Error::broken("active function was requested without an active frame"))
            }),
    {
        match self.active.last() {
            Some(record) => Ok(record.function),
            None => Err(Error::broken("active function was requested without an active frame")),
        }
    }

    /// Construct through a checked constructor and new-target.
    pub fn construct_internal(
        &mut self,
        realm: usize,
        constructor: CallableRef,
        new_target: CallableRef,
        arguments: Vec<JsValue>,
    ) -> (r: Result<ConstructStep, Error>)
        requires
            old(self).wf(),
        ensures
            final(self).wf(),
            ConstructStep::agrees(
                final(self)@,
                r,
                match old(self)@.constructor_pair(realm, constructor, new_target) {
                    (heap, Err(e)) => (heap, Err(e)),
                    (heap, Ok(NativeConversion::Throw(value))) => (
                        heap,
                        Ok(ConstructState::Complete(Completion::Throw(value))),
                    ),
                    (heap, Ok(NativeConversion::Value((constructor, new_target)))) =>
                        heap.construct_values(
                        realm,
                        constructor,
                        ConstructNewTarget::Validated(new_target),
                        arguments@,
                    ),
                },
            ),
    {
        match self.prepare_constructor_pair(realm, constructor, new_target)? {
            NativeConversion::Value((constructor, new_target)) =>
                self.construct_constructor_internal(realm, constructor, new_target, arguments),
            NativeConversion::Throw(value) => Ok(ConstructStep::Complete(Completion::Throw(value))),
        }
    }

    /// Construct with a new-target that was not checked.
    pub fn construct_value_with_raw_new_target_internal(
        &mut self,
        realm: usize,
        function: JsValue,
        new_target: JsValue,
        arguments: Vec<JsValue>,
    ) -> (r: Result<ConstructStep, Error>)
        requires
            old(self).wf(),
        ensures
            final(self).wf(),
            ConstructStep::agrees(
                final(self)@,
                r,
                match (match function {
                    JsValue::Object(object) => old(self)@.constructor_check(realm, object),
                    _ => (old(self)@, Err(Error::new(ErrorKind::Type, "not a function"))),
                }) {
                    (heap, Err(e)) => (heap, Err(e)),
                    (heap, Ok(NativeConversion::Throw(value))) => (
                        heap,
                        Ok(ConstructState::Complete(Completion::Throw(value))),
                    ),
                    (heap, Ok(NativeConversion::Value(constructor))) => heap.construct_raw(
                        realm,
                        constructor,
                        new_target,
                        arguments@,
                    ),
                },
            ),
    {
        match self.constructor_from_value(realm, function)? {
            NativeConversion::Value(constructor) =>
                self.construct_constructor_with_raw_new_target_internal(
                realm,
                constructor,
                new_target,
                arguments,
            ),
            NativeConversion::Throw(value) => Ok(ConstructStep::Complete(Completion::Throw(value))),
        }
    }

    pub fn construct_constructor_with_raw_new_target_internal(
        &mut self,
        realm: usize,
        constructor: ConstructorRef,
        new_target: JsValue,
        arguments: Vec<JsValue>,
    ) -> (r: Result<ConstructStep, Error>)
        requires
            old(self).wf(),
        ensures
            final(self).wf(),
            ConstructStep::agrees(
                final(self)@,
                r,
                old(self)@.construct_raw(realm, constructor, new_target, arguments@),
            ),
    {
        let new_target = self.dup_jsvalue(new_target)?;
        self.construct_internal_with_new_target(
            realm,
            constructor,
            ConstructNewTarget::Raw(new_target),
            arguments,
        )
    }

    pub fn construct_constructor_internal(
        &mut self,
        realm: usize,
        constructor: ConstructorRef,
        new_target: ConstructorRef,
        arguments: Vec<JsValue>,
    ) -> (r: Result<ConstructStep, Error>)
        requires
            old(self).wf(),
        ensures
            final(self).wf(),
            ConstructStep::agrees(
                final(self)@,
                r,
                old(self)@.construct_values(
                    realm,
                    constructor,
                    ConstructNewTarget::Validated(new_target),
                    arguments@,
                ),
            ),
    {
        self.construct_internal_with_new_target(
            realm,
            constructor,
            ConstructNewTarget::Validated(new_target),
            arguments,
        )
    }

    /// Construct with arguments that the caller keeps.
    pub fn construct_internal_with_new_target(
        &mut self,
        realm: usize,
        constructor: ConstructorRef,
        new_target: ConstructNewTarget,
        arguments: Vec<JsValue>,
    ) -> (r: Result<ConstructStep, Error>)
        requires
            old(self).wf(),
        ensures
            final(self).wf(),
            ConstructStep::agrees(
                final(self)@,
                r,
                old(self)@.construct_values(realm, constructor, new_target, arguments@),
            ),
    {
        let mut taken: Vec<JsValue> = Vec::new();
        let mut i: usize = 0;
        while i < arguments.len()
            invariant
                self.wf(),
                i <= arguments@.len(),
                taken@ == arguments@.take(i as int),
                self@.retain_from(arguments@, i as int) == old(self)@.retain_from(arguments@, 0),
            decreases arguments@.len() - i,
        {
            let failed = match self.validate_value_domain(arguments[i], "value") {
                Err(e) => Some(e),
                Ok(_) => match self.dup_jsvalue(arguments[i]) {
                    Err(e) => Some(e),
                    Ok(_) => None,
                },
            };
            match failed {
                Some(e) => {
                    let _ = new_target.release(self);
                    self.release_list(&taken);
                    return Err(e);
                },
                None => {},
            }
            taken.push(arguments[i]);
            assert(arguments@.take(i as int).push(arguments@[i as int]) =~= arguments@.take(
                i as int + 1,
            ));
            i = i + 1;
        }
        self.construct_internal_jsvalue(realm, constructor, new_target, arguments)
    }

    /// Construct, up to the point where a body, a trap or a getter has to run.
    pub fn construct_internal_jsvalue(
        &mut self,
        realm: usize,
        constructor: ConstructorRef,
        new_target: ConstructNewTarget,
        arguments: Vec<JsValue>,
    ) -> (r: Result<ConstructStep, Error>)
        requires
            old(self).wf(),
        ensures
            final(self).wf(),
            ConstructStep::agrees(
                final(self)@,
                r,
                old(self)@.construct(realm, constructor, new_target, arguments@),
            ),
    {
        let normal = match self.normalize_constructor(realm, constructor, new_target, arguments)? {
            NativeConversion::Value(normal) => normal,
            NativeConversion::Throw(value) => {
                return Ok(ConstructStep::Complete(Completion::Throw(value)));
            },
        };
        let NormalizedConstructor { target, new_target, arguments } = normal;
        let (callable, classification) = match target {
            ConstructorTarget::Proxy(constructor) => {
                return Ok(ConstructStep::Proxy { constructor, new_target, arguments });
            },
            ConstructorTarget::Ordinary { callable, classification } => (callable, classification),
        };
        match classification {
            CallableExecution::Native { target, realm: defining, min_readable_args } => {
                let execution_realm: usize = if target.uses_calling_realm {
                    realm
                } else {
                    defining
                };
                let prepared = self.invoke_native_function_jsvalue(
                    callable,
                    execution_realm,
                    target,
                    min_readable_args,
                    NativeInvocation::Construct { new_target: new_target.value() },
                    arguments,
                    NativeInvokeMode::Ordinary,
                )?;
                Ok(ConstructStep::Native(prepared))
            },
            CallableExecution::Bytecode { bytecode, count, .. } => {
                let body = ConstructBody {
                    callable,
                    bytecode,
                    closure_count: count,
                    caller_realm: realm,
                    new_target,
                    arguments,
                };
                let kind = match self.function_bytecode(bytecode) {
                    Ok(function) => function.metadata.constructor_kind,
                    Err(e) => {
                        let _ = body.new_target.release(self);
                        self.release_list(&body.arguments);
                        return Err(e);
                    },
                };
                match kind {
                    ConstructorKind::NotConstructor => {
                        let _ = body.new_target.release(self);
                        self.release_list(&body.arguments);
                        Err(
                            Error::broken(
                                "constructor bit disagrees with bytecode constructor metadata",
                            ),
                        )
                    },
                    ConstructorKind::Derived => Ok(
                        ConstructStep::Body {
                            this_value: JsValue::Undefined,
                            kind: ConstructorReturn::Derived,
                            body,
                        },
                    ),
                    ConstructorKind::Base => {
                        match self.create_from_constructor_value(realm, body.new_target.value()) {
                            Ok(CreateStep::Complete(completion)) => self.begin_body(body, completion),
                            Ok(CreateStep::Read(read)) => Ok(
                                ConstructStep::Prototype { read, body },
                            ),
                            Err(e) => {
                                let _ = body.new_target.release(self);
                                self.release_list(&body.arguments);
                                Err(e)
                            },
                        }
                    },
                }
            },
            _ => {
                let _ = new_target.release(self);
                self.release_list(&arguments);
                Err(Error::broken("constructor dispatch was not normalized"))
            },
        }
    }

    /// Enter the body of a base constructor whose object was made.
    fn begin_body(&mut self, body: ConstructBody, completion: Completion) -> (r: Result<
        ConstructStep,
        Error,
    >)
        requires
            old(self).wf(),
        ensures
            final(self).wf(),
            ConstructStep::agrees(final(self)@, r, old(self)@.base_body(body@, completion)),
    {
        match completion {
            Completion::Throw(_) => {
                let _ = body.new_target.release(self);
                self.release_list(&body.arguments);
                Ok(ConstructStep::Complete(completion))
            },
            Completion::Return(this_value) => match self.dup_jsvalue(this_value) {
                Ok(_) => Ok(
                    ConstructStep::Body {
                        this_value,
                        kind: ConstructorReturn::Base(this_value),
                        body,
                    },
                ),
                Err(e) => {
                    let _ = self.release_jsvalue(this_value);
                    let _ = body.new_target.release(self);
                    self.release_list(&body.arguments);
                    Err(e)
                },
            },
        }
    }

    /// Go on with a constructor whose prototype has been read.
    pub fn resume_construct(&mut self, body: ConstructBody, reply: Completion) -> (r: Result<
        ConstructStep,
        Error,
    >)
        requires
            old(self).wf(),
        ensures
            final(self).wf(),
            ConstructStep::agrees(
                final(self)@,
                r,
                match old(self)@.constructed(body.caller_realm, body.new_target.value(), reply) {
                    (heap, Ok(completion)) => heap.base_body(body@, completion),
                    (heap, Err(e)) => (
                        heap.abandon_construct(body.new_target, body.arguments@),
                        Err(e),
                    ),
                },
            ),
    {
        match self.create_from_constructor_prototype_reply(
            body.caller_realm,
            body.new_target.value(),
            reply,
        ) {
            Ok(completion) => self.begin_body(body, completion),
            Err(e) => {
                let _ = body.new_target.release(self);
                self.release_list(&body.arguments);
                Err(e)
            },
        }
    }

    /// Apply the constructor return rule to a finished body.
    pub fn constructor_completion(
        &mut self,
        kind: ConstructorReturn,
        completion: Completion,
        unvalidated: Error,
    ) -> (r: Result<Completion, Error>)
        requires
            old(self).wf(),
        ensures
            final(self).wf(),
            (final(self)@, r) == old(self)@.constructor_result(kind, completion, unvalidated),
    {
        match (completion, kind) {
            (Completion::Return(value), ConstructorReturn::Base(receiver)) => {
                if value.is_object() {
                    self.release_jsvalue(receiver)?;
                    Ok(completion)
                } else {
                    self.release_jsvalue(value)?;
                    Ok(Completion::Return(receiver))
                }
            },
            (Completion::Return(value), ConstructorReturn::Derived) => {
                if value.is_object() {
                    Ok(completion)
                } else {
                    self.release_jsvalue(value)?;
                    Err(unvalidated)
                }
            },
            (Completion::Throw(_), ConstructorReturn::Base(receiver)) => {
                self.release_jsvalue(receiver)?;
                Ok(completion)
            },
            (Completion::Throw(_), ConstructorReturn::Derived) => Ok(completion),
        }
    }

    /// End a construct call whose body ran.
    pub fn finish_construct(
        &mut self,
        kind: ConstructorReturn,
        result: Result<Completion, Error>,
    ) -> (r: Result<Completion, Error>)
        requires
            old(self).wf(),
        ensures
            final(self).wf(),
            (final(self)@, r) == old(self)@.construct_finished(kind, result),
    {
        match result {
            Ok(completion) => self.constructor_completion(
                kind,
                completion,
                Error::broken("derived constructor bytecode returned an unvalidated primitive"),
            ),
            Err(e) => {
                match kind {
                    ConstructorReturn::Base(receiver) => {
                        self.release_jsvalue(receiver)?;
                    },
                    ConstructorReturn::Derived => {},
                }
                Err(e)
            },
        }
    }
}

impl Heap {
    /// Where a bound chain of at most `fuel` wrappers ends, the arguments that
    /// it puts first, and the receiver that it fixes.
    pub open spec fn unwound(self, callable: CallableRef, fuel: nat) -> (
        CallableRef,
        Seq<JsValue>,
        Option<JsValue>,
    )
        decreases fuel,
    {
        if fuel == 0 || callable.object.index >= self.objects.len() {
            (callable, Seq::empty(), None)
        } else {
            match self.objects[callable.object.index as int].payload {
                ObjectPayload::BoundFunction { target, this_value, start, count } => {
                    let (end, first, receiver) = self.unwound(
                        CallableRef { object: target },
                        (fuel - 1) as nat,
                    );
                    (
                        end,
                        first + self.bound_list(start, count),
                        match receiver {
                            Some(receiver) => Some(receiver),
                            None => Some(this_value),
                        },
                    )
                },
                _ => (callable, Seq::empty(), None),
            }
        }
    }

    /// Whether `value` is one of the wrappers of a bound chain.
    pub open spec fn wraps(self, callable: CallableRef, value: JsValue, fuel: nat) -> bool
        decreases fuel,
    {
        fuel > 0 && callable.object.index < self.objects.len() && match self.objects[callable.object.index as int].payload {
            ObjectPayload::BoundFunction { target, .. } => value == JsValue::Object(
                callable.object,
            ) || self.wraps(CallableRef { object: target }, value, (fuel - 1) as nat),
            _ => false,
        }
    }

    /// The two heaps hold the same functions.
    pub open spec fn same_functions(self, other: Heap) -> bool {
        &&& self.objects == other.objects
        &&& self.bound_values == other.bound_values
    }
}

proof fn same_functions_same_chain(left: Heap, right: Heap, callable: CallableRef, value: JsValue, fuel: nat)
    requires
        left.same_functions(right),
    ensures
        left.unwound(callable, fuel) == right.unwound(callable, fuel),
        left.wraps(callable, value, fuel) == right.wraps(callable, value, fuel),
    decreases fuel,
{
    if fuel > 0 && callable.object.index < left.objects.len() {
        match left.objects[callable.object.index as int].payload {
            ObjectPayload::BoundFunction { target, .. } => {
                same_functions_same_chain(
                    left,
                    right,
                    CallableRef { object: target },
                    value,
                    (fuel - 1) as nat,
                );
            },
            _ => {},
        }
    }
}

/// Classifying a callable changes the edge journal and nothing else.
pub proof fn classifying_touches_edges_only(heap: Heap, callable: CallableRef)
    ensures
        heap.classify(callable).0 == (Heap { edges: heap.classify(callable).0.edges, ..heap }),
{
    if heap.belongs(callable.object) && callable.object.index < heap.objects.len() {
        match heap.objects[callable.object.index as int].payload {
            ObjectPayload::BoundFunction { target, this_value, start, count } => {
                let (held, r) = heap.retain(this_value);
                let list = held.bound_list(start, count);
                crate::call::native::retaining_touches_edges_only(held, list, 0);
                let (taken_heap, taken, _) = held.retain_from(list, 0);
                crate::call::native::releasing_touches_edges_only(
                    taken_heap.release(this_value).0,
                    list.take(taken),
                );
            },
            _ => {},
        }
    }
}

/// Unwinding a callback keeps the call's arguments last, puts the arguments of
/// inner wrappers before those of outer ones, and takes the receiver of the
/// innermost wrapper.
pub proof fn callbacks_unwind_in_order(
    heap: Heap,
    realm: usize,
    callable: CallableRef,
    receiver: JsValue,
    arguments: Seq<JsValue>,
    fuel: nat,
)
    ensures
        heap.normalize(realm, callable, receiver, arguments, fuel).1 matches Ok(
            NativeConversion::Value(callback),
        ) ==> {
            let (end, first, fixed) = heap.unwound(callable, fuel);
            &&& callback.callable == end
            &&& callback.arguments == first + arguments
            &&& callback.receiver == (match fixed {
                Some(fixed) => fixed,
                None => receiver,
            })
        },
    decreases fuel,
{
    classifying_touches_edges_only(heap, callable);
    let (classified, r) = heap.classify(callable);
    match r {
        Ok(CallableExecution::Bound { target, this_value, start, count }) => {
            let (released, _) = classified.release(receiver);
            let bound = released.bound_list(start, count);
            let (merged_heap, merged) = released.concatenated(realm, bound, arguments);
            match merged {
                Ok(NativeConversion::Value(list)) => {
                    if fuel > 0 {
                        callbacks_unwind_in_order(
                            merged_heap,
                            realm,
                            target,
                            this_value,
                            list,
                            (fuel - 1) as nat,
                        );
                        same_functions_same_chain(
                            merged_heap,
                            heap,
                            target,
                            receiver,
                            (fuel - 1) as nat,
                        );
                        let (_, first, _) = heap.unwound(target, (fuel - 1) as nat);
                        assert(first + (bound + arguments) =~= (first + bound) + arguments);
                        assert(bound == heap.bound_list(start, count));
                    }
                },
                _ => {},
            }
        },
        _ => {
            assert(Seq::<JsValue>::empty() + arguments =~= arguments);
        },
    }
}

/// Constructing through bound wrappers unwinds their arguments in the same
/// order.  A new-target that names one of the wrappers ends as what they wrap;
/// any other new-target is kept.
pub proof fn constructors_unwind_in_order(
    heap: Heap,
    realm: usize,
    constructor: ConstructorRef,
    new_target: ConstructNewTarget,
    arguments: Seq<JsValue>,
    fuel: nat,
)
    ensures
        heap.normalize_construct(realm, constructor, new_target, arguments, fuel).1 matches Ok(
            NativeConversion::Value(normal),
        ) ==> {
            let start = CallableRef { object: constructor.object };
            let (end, first, _) = heap.unwound(start, fuel);
            &&& normal.arguments == first + arguments
            &&& match normal.target {
                ConstructorTarget::Proxy(proxy) => proxy.object == end.object,
                ConstructorTarget::Ordinary { callable, .. } => callable == end,
            }
            &&& normal.new_target.value() == if heap.wraps(start, new_target.value(), fuel) {
                JsValue::Object(end.object)
            } else {
                new_target.value()
            }
        },
    decreases fuel,
{
    let callable = CallableRef { object: constructor.object };
    classifying_touches_edges_only(heap, callable);
    assert(Seq::<JsValue>::empty() + arguments =~= arguments);
    if constructor.object.index < heap.objects.len()
        && heap.objects[constructor.object.index as int].is_constructor && !(
    heap.objects[constructor.object.index as int].payload is Proxy) {
        let (classified, r) = heap.classify(callable);
        match r {
            Ok(CallableExecution::Bound { target, this_value, start, count }) => {
                let (released, _) = classified.release(this_value);
                let bound = released.bound_list(start, count);
                let (merged_heap, merged) = released.concatenated(realm, bound, arguments);
                match merged {
                    Ok(NativeConversion::Value(list)) => {
                        let (renamed_heap, renamed, ok) = new_target.retargeted(
                            merged_heap,
                            constructor,
                            target,
                        );
                        if fuel > 0 && ok is Ok {
                            constructors_unwind_in_order(
                                renamed_heap,
                                realm,
                                ConstructorRef { object: target.object },
                                renamed,
                                list,
                                (fuel - 1) as nat,
                            );
                            same_functions_same_chain(
                                renamed_heap,
                                heap,
                                target,
                                new_target.value(),
                                (fuel - 1) as nat,
                            );
                            same_functions_same_chain(
                                renamed_heap,
                                heap,
                                target,
                                renamed.value(),
                                (fuel - 1) as nat,
                            );
                            wrapper_wraps_itself(heap, target, (fuel - 1) as nat);
                            let (_, first, _) = heap.unwound(target, (fuel - 1) as nat);
                            assert(first + (bound + arguments) =~= (first + bound) + arguments);
                            assert(bound == heap.bound_list(start, count));
                        }
                    },
                    _ => {},
                }
            },
            _ => {},
        }
    }
}

proof fn wrapper_wraps_itself(heap: Heap, callable: CallableRef, fuel: nat)
    ensures
        !heap.wraps(callable, JsValue::Object(callable.object), fuel) ==> heap.unwound(
            callable,
            fuel,
        ).0 == callable,
{
}

/// A construct call that ends normally gives an object, if a base constructor
/// started with one; and what a body throws, the call throws.
pub proof fn construct_calls_give_objects(
    heap: Heap,
    kind: ConstructorReturn,
    completion: Completion,
    unvalidated: Error,
)
    requires
        kind matches ConstructorReturn::Base(receiver) ==> receiver is Object,
    ensures
        heap.constructor_result(kind, completion, unvalidated).1 matches Ok(Completion::Return(value))
            ==> value is Object,
        heap.constructor_result(kind, completion, unvalidated).1 matches Ok(result) ==> (
        completion is Throw <==> result is Throw),
        completion is Throw && heap.constructor_result(kind, completion, unvalidated).1 is Ok
            ==> heap.constructor_result(kind, completion, unvalidated).1 == Ok::<Completion, Error>(
            completion,
        ),
        completion matches Completion::Return(JsValue::Object(_)) && heap.constructor_result(
            kind,
            completion,
            unvalidated,
        ).1 is Ok ==> heap.constructor_result(kind, completion, unvalidated).1 == Ok::<
            Completion,
            Error,
        >(completion),
{
}

/// The realm of a function: the one that a native function or the code of a
/// function belongs to, and for a bound function or a proxy the one of what it
/// wraps.  A revoked proxy has none; any other value has the caller's.
pub proof fn functions_have_the_realm_they_were_defined_in(
    heap: Heap,
    realm: usize,
    object: ObjectRef,
    fuel: nat,
)
    requires
        object.index < heap.objects.len(),
    ensures
        match heap.objects[object.index as int].payload {
            ObjectPayload::NativeFunction(native) => native.realm matches Some(home)
                ==> heap.function_realm(realm, JsValue::Object(object), fuel) == Ok::<
                Option<usize>,
                Error,
            >(Some(home)),
            ObjectPayload::BytecodeFunction(function) => function.bytecode < heap.code.len()
                ==> heap.function_realm(realm, JsValue::Object(object), fuel) == Ok::<
                Option<usize>,
                Error,
            >(Some(heap.code[function.bytecode as int].realm)),
            ObjectPayload::BoundFunction { target, .. } => heap.function_realm(
                realm,
                JsValue::Object(object),
                fuel + 1,
            ) == heap.function_realm(realm, JsValue::Object(target), fuel),
            ObjectPayload::Proxy { target: Some(target), .. } => heap.function_realm(
                realm,
                JsValue::Object(object),
                fuel + 1,
            ) == heap.function_realm(realm, JsValue::Object(target), fuel),
            ObjectPayload::Proxy { target: None, .. } => heap.function_realm(
                realm,
                JsValue::Object(object),
                fuel,
            ) == Ok::<Option<usize>, Error>(None),
            _ => heap.function_realm(realm, JsValue::Object(object), fuel) == Ok::<
                Option<usize>,
                Error,
            >(Some(realm)),
        },
        heap.function_realm(realm, JsValue::Undefined, fuel) == Ok::<Option<usize>, Error>(
            Some(realm),
        ),
{
}

/// The object that a base constructor starts with inherits from what the read
/// of the prototype gave where that is an object, and from the object prototype
/// of the new-target's realm where it is not; a throw of the read is passed on.
pub proof fn constructed_objects_inherit_from_the_new_target(
    heap: Heap,
    realm: usize,
    new_target: JsValue,
    prototype: ObjectRef,
    value: JsValue,
    home: usize,
)
    requires
        !(value is Object),
        home < heap.realms.len(),
        heap.home_realm(realm, new_target) == (
            heap,
            Ok::<NativeConversion<usize>, Error>(NativeConversion::Value(home)),
        ),
    ensures
        ({
            let (after, r) = heap.constructed(
                realm,
                new_target,
                Completion::Return(JsValue::Object(prototype)),
            );
            &&& r == Ok::<Completion, Error>(Completion::Return(JsValue::Object(heap.next_ref())))
            &&& after.objects.len() == heap.objects.len() + 1
            &&& after.objects.last().prototype == Some(prototype)
            &&& after.objects.last().extensible && !after.objects.last().is_constructor
            &&& after.properties == heap.properties
        }),
        ({
            let (after, r) = heap.constructed(realm, new_target, Completion::Return(value));
            &&& r == Ok::<Completion, Error>(Completion::Return(JsValue::Object(heap.next_ref())))
            &&& after.objects.last().prototype == Some(heap.realms[home as int].object_prototype)
        }),
        heap.constructed(realm, new_target, Completion::Throw(value)) == (
            heap,
            Ok::<Completion, Error>(Completion::Throw(value)),
        ),
{
}

/// What a construct call gives: an object that the body returned, and else the
/// object that a base constructor started with.
pub proof fn base_constructors_give_their_object(
    heap: Heap,
    receiver: ObjectRef,
    value: JsValue,
    unvalidated: Error,
)
    requires
        heap.live(receiver),
        value matches JsValue::Object(object) ==> heap.live(object),
    ensures
        heap.constructor_result(
            ConstructorReturn::Base(JsValue::Object(receiver)),
            Completion::Return(value),
            unvalidated,
        ).1 == Ok::<Completion, Error>(
            Completion::Return(
                if value is Object {
                    value
                } else {
                    JsValue::Object(receiver)
                },
            ),
        ),
        heap.constructor_result(
            ConstructorReturn::Base(JsValue::Object(receiver)),
            Completion::Throw(value),
            unvalidated,
        ).1 == Ok::<Completion, Error>(Completion::Throw(value)),
        value is Object ==> heap.constructor_result(
            ConstructorReturn::Derived,
            Completion::Return(value),
            unvalidated,
        ).1 == Ok::<Completion, Error>(Completion::Return(value)),
        !(value is Object) ==> heap.constructor_result(
            ConstructorReturn::Derived,
            Completion::Return(value),
            unvalidated,
        ).1 == Err::<Completion, Error>(unvalidated),
{
}

/// Constructing through a bound function constructs what it wraps, with the
/// bound arguments first; the new-target becomes the wrapped function where it
/// was the wrapper, and else stays.
pub proof fn bound_constructors_construct_what_they_wrap(
    heap: Heap,
    bound: ConstructorRef,
    target: CallableRef,
    new_target: ConstructorRef,
    realm: usize,
    first: Seq<JsValue>,
    arguments: Seq<JsValue>,
)
    requires
        first.len() + arguments.len() <= MAX_ARGUMENTS,
    ensures
        ConstructNewTarget::Validated(new_target).retargeted(heap, bound, target) == (
            heap,
            ConstructNewTarget::Validated(
                if new_target.object == bound.object {
                    ConstructorRef { object: target.object }
                } else {
                    new_target
                },
            ),
            Ok::<(), Error>(()),
        ),
        heap.concatenated(realm, first, arguments).0 == heap,
        heap.concatenated(realm, first, arguments).1 matches Ok(NativeConversion::Value(list)) && {
            &&& list.len() == first.len() + arguments.len()
            &&& forall|i: int| 0 <= i < first.len() ==> #[trigger] list[i] == first[i]
            &&& forall|i: int|
                first.len() <= i < list.len() ==> #[trigger] list[i] == arguments[i - first.len()]
        },
{
}

/// A call with too many arguments is a range error of the caller's realm.
pub proof fn overlong_argument_lists_are_range_errors(
    heap: Heap,
    realm: usize,
    first: Seq<JsValue>,
    arguments: Seq<JsValue>,
)
    requires
        realm < heap.realms.len(),
        first.len() + arguments.len() > MAX_ARGUMENTS,
    ensures
        heap.concatenated(realm, first, arguments).1 matches Ok(
            NativeConversion::Throw(JsValue::Object(error)),
        ) && heap.concatenated(realm, first, arguments).0.objects.last().prototype == Some(
            heap.realms[realm as int].range_error_prototype,
        ) && error.index == heap.objects.len() as usize,
        MAX_ARGUMENTS == 65534,
{
    let released = heap.release_each(first).release_each(arguments);
    crate::call::native::releasing_touches_edges_only(heap, first);
    crate::call::native::releasing_touches_edges_only(heap.release_each(first), arguments);
}

/// Only functions can be called and only constructors constructed; anything
/// else is a type error.
pub proof fn only_functions_are_called(heap: Heap, realm: usize, value: JsValue, object: ObjectRef)
    requires
        realm < heap.realms.len(),
        object.domain == heap.domain,
        object.index < heap.objects.len(),
    ensures
        !(value is Object) ==> (heap.callable_of(value) matches Err(e) && e.kind is Type),
        heap.callable_of(JsValue::Object(object)) == (match heap.objects[object.index as int].payload {
            ObjectPayload::NativeFunction(_) => Ok::<CallableRef, Error>(CallableRef { object }),
            ObjectPayload::BoundFunction { .. } => Ok(CallableRef { object }),
            ObjectPayload::BytecodeFunction(_) => Ok(CallableRef { object }),
            ObjectPayload::Proxy { is_callable: true, .. } => Ok(CallableRef { object }),
            _ => Err(Error::new(ErrorKind::Type, "not a function")),
        }),
        heap.objects[object.index as int].is_constructor ==> heap.constructor_check(realm, object)
            == (
            heap,
            Ok::<NativeConversion<ConstructorRef>, Error>(
                NativeConversion::Value(ConstructorRef { object }),
            ),
        ),
        !heap.objects[object.index as int].is_constructor ==> {
            let (after, r) = heap.constructor_check(realm, object);
            &&& r == Ok::<NativeConversion<ConstructorRef>, Error>(
                NativeConversion::Throw(JsValue::Object(heap.next_ref())),
            )
            &&& after.objects.last().prototype == Some(
                heap.realms[realm as int].type_error_prototype,
            )
        },
{
}

/// A function behind a revoked proxy has no realm: asking for it throws a type
/// error of the caller's realm, and any other function names its own.
pub proof fn revoked_proxies_have_no_realm(heap: Heap, realm: usize, object: ObjectRef, home: usize)
    requires
        realm < heap.realms.len(),
    ensures
        heap.function_realm(realm, JsValue::Object(object), heap.objects.len()) == Ok::<
            Option<usize>,
            Error,
        >(None) ==> {
            let (after, r) = heap.home_realm(realm, JsValue::Object(object));
            &&& r == Ok::<NativeConversion<usize>, Error>(
                NativeConversion::Throw(JsValue::Object(heap.next_ref())),
            )
            &&& after.objects.last().payload is Error
            &&& after.objects.last().prototype == Some(
                heap.realms[realm as int].type_error_prototype,
            )
        },
        heap.function_realm(realm, JsValue::Object(object), heap.objects.len()) == Ok::<
            Option<usize>,
            Error,
        >(Some(home)) ==> heap.home_realm(realm, JsValue::Object(object)) == (
            heap,
            Ok::<NativeConversion<usize>, Error>(NativeConversion::Value(home)),
        ),
{
}

} // verus!
