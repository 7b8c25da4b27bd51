//! An async iterator over a synchronous one reads both fields of a result
//! before it resolves the value.
use vstd::prelude::*;
use crate::call::{NativeArguments, NativeInvocation};
use crate::error::{Error, ErrorKind, NativeErrorKind};
use crate::heap::{Heap, InternalCallableData, ObjectPayload, PromiseReaction};
use crate::promise::{PromiseCapability, NATIVE_FROM_SYNC_CLOSE, NATIVE_FROM_SYNC_UNWRAP};
use crate::runtime::{Runtime, ATOM_DONE, ATOM_RETURN, ATOM_THROW, ATOM_VALUE};
use crate::value::{CallableRef, Completion, JsValue, NativeConversion, ObjectRef, PropertyKey};

verus! {

#[derive(Clone, Copy, Debug, PartialEq, Eq, Structural)]
pub enum GeneratorResumeKind {
    Next,
    Return,
    Throw,
}

/// Which internal function runs.
#[derive(Clone, Copy, Debug, PartialEq, Eq, Structural)]
pub enum FromSyncTarget {
    Unwrap,
    Close,
    Resume(GeneratorResumeKind),
}

/// The next request, or the result.
#[derive(Debug)]
pub enum FromSyncStep {
    Complete(Completion),
    Read { resume: FromSyncResume },
    Call { resume: FromSyncResume },
    Resolve { resume: FromSyncResume },
    Close { resume: FromSyncResume },
}

/// The arguments of a requested call.
#[derive(Debug)]
pub enum ArgumentList {
    End,
    Then { first: JsValue, rest: Box<ArgumentList> },
}

impl ArgumentList {
    pub open spec fn of(values: Seq<JsValue>) -> ArgumentList
        decreases values.len(),
    {
        if values.len() == 0 {
            ArgumentList::End
        } else {
            ArgumentList::Then {
                first: values[0],
                rest: Box::new(ArgumentList::of(values.drop_first())),
            }
        }
    }

    pub open spec fn values(self) -> Seq<JsValue>
        decreases self,
    {
        match self {
            ArgumentList::End => Seq::empty(),
            ArgumentList::Then { first, rest } => seq![first] + rest.values(),
        }
    }

    pub fn from_values(values: &Vec<JsValue>) -> (r: ArgumentList)
        ensures
            r == ArgumentList::of(values@),
    {
        let mut list = ArgumentList::End;
        let mut left: usize = values.len();
        assert(values@.skip(left as int) =~= Seq::empty());
        while left > 0
            invariant
                left <= values@.len(),
                list == ArgumentList::of(values@.skip(left as int)),
            decreases left,
        {
            left = left - 1;
            list = ArgumentList::Then { first: values[left], rest: Box::new(list) };
            assert(values@.skip(left as int).drop_first() =~= values@.skip(left + 1));
        }
        assert(values@.skip(0) =~= values@);
        list
    }

    pub fn into_values(self) -> (r: Vec<JsValue>)
        ensures
            r@ == self.values(),
    {
        let mut out: Vec<JsValue> = Vec::new();
        let mut list = self;
        loop
            invariant
                out@ + list.values() == self.values(),
            ensures
                out@ == self.values(),
            decreases list,
        {
            match list {
                ArgumentList::End => {
                    assert(out@ + Seq::<JsValue>::empty() =~= out@);
                    break ;
                },
                ArgumentList::Then { first, rest } => {
                    assert(out@ + (seq![first] + rest.values()) =~= out@.push(first)
                        + rest.values());
                    out.push(first);
                    list = *rest;
                },
            }
        }
        out
    }
}

/// What a request asks for.
#[derive(Debug)]
pub struct FromSyncPending {
    pub read_receiver: Option<JsValue>,
    pub read_key: Option<PropertyKey>,
    pub call_callable: Option<CallableRef>,
    pub call_receiver: Option<JsValue>,
    pub call_arguments: Option<ArgumentList>,
    pub resolve_value: Option<JsValue>,
    pub resolve_realm: Option<usize>,
    pub close_iterator: Option<ObjectRef>,
    pub close_completion: Option<Completion>,
}

#[derive(Debug)]
pub struct FromSyncResume {
    pub pending_effect: FromSyncPending,
    pub realm: usize,
    pub phase: Phase,
}

#[derive(Clone, Copy, Debug)]
pub enum Phase {
    Method(State),
    Result(State),
    Done { state: State, result: ObjectRef },
    Value { state: State, done: bool },
    Promise { state: State, done: bool },
    MissingThrow(PromiseCapability),
    Reject(PromiseCapability),
    Settled(ObjectRef),
    Identity,
}

#[derive(Clone, Copy, Debug)]
pub struct State {
    pub capability: PromiseCapability,
    pub iterator: ObjectRef,
    pub kind: GeneratorResumeKind,
    pub argument: Option<JsValue>,
}

impl State {
    /// The arguments of the method: the value of the request, if there is one.
    pub open spec fn list(argument: Option<JsValue>) -> Seq<JsValue> {
        match argument {
            Some(value) => seq![value],
            None => Seq::empty(),
        }
    }
}

fn argument_list(argument: Option<JsValue>) -> (r: Vec<JsValue>)
    ensures
        r@ == State::list(argument),
{
    let mut list: Vec<JsValue> = Vec::new();
    match argument {
        Some(value) => {
            list.push(value);
        },
        None => {},
    }
    list
}

impl FromSyncPending {
    /// No request.
    pub open spec fn nothing() -> FromSyncPending {
        FromSyncPending {
            read_receiver: None,
            read_key: None,
            call_callable: None,
            call_receiver: None,
            call_arguments: None,
            resolve_value: None,
            resolve_realm: None,
            close_iterator: None,
            close_completion: None,
        }
    }
}

impl Phase {
    /// The value that a phase still owns.
    pub open spec fn owned(self) -> Option<JsValue> {
        match self {
            Phase::Method(state) => state.argument,
            Phase::Result(state) => state.argument,
            Phase::Done { state, .. } => state.argument,
            Phase::Value { state, .. } => state.argument,
            Phase::Promise { state, .. } => state.argument,
            _ => None,
        }
    }
}

impl Heap {
    pub open spec fn release_some(self, value: Option<JsValue>) -> (Heap, Result<(), Error>) {
        match value {
            Some(value) => self.release(value),
            None => (self, Ok(())),
        }
    }

    /// A type error of a realm as a rejection.
    pub open spec fn type_error(self, realm: usize, text: &'static str) -> (
        Heap,
        Result<JsValue, Error>,
    ) {
        self.native_error(realm, NativeErrorKind::Type, Error::new(ErrorKind::Type, text))
    }

    /// What an internal native function captured.
    pub open spec fn captured(self, function: ObjectRef) -> Result<InternalCallableData, Error> {
        match self.object_at(function) {
            Err(e) => Err(e),
            Ok(data) => match data.payload {
                ObjectPayload::NativeFunction(native) => Ok(native.internal),
                _ => Ok(InternalCallableData::Nothing),
            },
        }
    }

    /// The capture of the running internal function.
    pub open spec fn active_capture(self) -> Result<InternalCallableData, Error> {
        if self.active.len() > 0 {
            self.captured(self.active.last().function)
        } else {
            Err(Error::broken("active function was requested without an active frame"))
        }
    }

    /// The wrapped iterator and its cached method.
    pub open spec fn wrapped_iterator(self, receiver: JsValue) -> Result<
        Option<(ObjectRef, JsValue)>,
        Error,
    > {
        match receiver {
            JsValue::Object(object) => match self.object_at(object) {
                Err(e) => Err(e),
                Ok(data) => match data.payload {
                    ObjectPayload::AsyncFromSyncIterator { iterator, next } => Ok(
                        Some((iterator, next)),
                    ),
                    _ => Ok(None),
                },
            },
            _ => Ok(None),
        }
    }

    /// The callable that a method value names, or what it throws.
    pub open spec fn from_sync_callable(self, realm: usize, value: JsValue) -> (
        Heap,
        Result<NativeConversion<CallableRef>, Error>,
    ) {
        let named = match value {
            JsValue::Object(object) => self.callable(object),
            _ => Ok(None),
        };
        match named {
            Err(e) => (self, Err(e)),
            Ok(Some(callable)) => (self, Ok(NativeConversion::Value(callable))),
            Ok(None) => match self.type_error(realm, "not a function") {
                (heap, Err(e)) => (heap, Err(e)),
                (heap, Ok(reason)) => (heap, Ok(NativeConversion::Throw(reason))),
            },
        }
    }
}

impl FromSyncStep {
    pub open spec fn read_request(
        receiver: JsValue,
        key: PropertyKey,
        resume: FromSyncResume,
    ) -> FromSyncStep {
        FromSyncStep::Read {
            resume: FromSyncResume {
                pending_effect: FromSyncPending {
                    read_receiver: Some(receiver),
                    read_key: Some(key),
                    ..resume.pending_effect
                },
                ..resume
            },
        }
    }

    pub open spec fn call_request(
        callable: CallableRef,
        receiver: JsValue,
        arguments: Seq<JsValue>,
        resume: FromSyncResume,
    ) -> FromSyncStep {
        FromSyncStep::Call {
            resume: FromSyncResume {
                pending_effect: FromSyncPending {
                    call_callable: Some(callable),
                    call_receiver: Some(receiver),
                    call_arguments: Some(ArgumentList::of(arguments)),
                    ..resume.pending_effect
                },
                ..resume
            },
        }
    }

    pub open spec fn resolve_request(
        value: JsValue,
        realm: usize,
        resume: FromSyncResume,
    ) -> FromSyncStep {
        FromSyncStep::Resolve {
            resume: FromSyncResume {
                pending_effect: FromSyncPending {
                    resolve_value: Some(value),
                    resolve_realm: Some(realm),
                    ..resume.pending_effect
                },
                ..resume
            },
        }
    }

    pub open spec fn close_request(
        iterator: ObjectRef,
        completion: Completion,
        resume: FromSyncResume,
    ) -> FromSyncStep {
        FromSyncStep::Close {
            resume: FromSyncResume {
                pending_effect: FromSyncPending {
                    close_iterator: Some(iterator),
                    close_completion: Some(completion),
                    ..resume.pending_effect
                },
                ..resume
            },
        }
    }

    /// Ask for a property.
    pub fn request_read(receiver: JsValue, key: PropertyKey, resume: FromSyncResume) -> (r: Self)
        ensures
            r == FromSyncStep::read_request(receiver, key, resume),
    {
        let mut resume = resume;
        resume.pending_effect.read_receiver = Some(receiver);
        resume.pending_effect.read_key = Some(key);
        FromSyncStep::Read { resume }
    }

    /// Ask for a call.
    pub fn request_call(
        callable: CallableRef,
        receiver: JsValue,
        arguments: Vec<JsValue>,
        resume: FromSyncResume,
    ) -> (r: Self)
        ensures
            r == FromSyncStep::call_request(callable, receiver, arguments@, resume),
    {
        let mut resume = resume;
        resume.pending_effect.call_callable = Some(callable);
        resume.pending_effect.call_receiver = Some(receiver);
        resume.pending_effect.call_arguments = Some(ArgumentList::from_values(&arguments));
        FromSyncStep::Call { resume }
    }

    /// Ask for the promise of a value.
    pub fn request_resolve(value: JsValue, realm: usize, resume: FromSyncResume) -> (r: Self)
        ensures
            r == FromSyncStep::resolve_request(value, realm, resume),
    {
        let mut resume = resume;
        resume.pending_effect.resolve_value = Some(value);
        resume.pending_effect.resolve_realm = Some(realm);
        FromSyncStep::Resolve { resume }
    }

    /// Ask for the closing of an iterator.
    pub fn request_close(iterator: ObjectRef, completion: Completion, resume: FromSyncResume) -> (r:
        Self)
        ensures
            r == FromSyncStep::close_request(iterator, completion, resume),
    {
        let mut resume = resume;
        resume.pending_effect.close_iterator = Some(iterator);
        resume.pending_effect.close_completion = Some(completion);
        FromSyncStep::Close { resume }
    }
}

impl FromSyncResume {
    pub open spec fn fresh(realm: usize, phase: Phase) -> FromSyncResume {
        FromSyncResume { pending_effect: FromSyncPending::nothing(), realm, phase }
    }

    pub open spec fn with_phase(self, phase: Phase) -> FromSyncResume {
        FromSyncResume { phase, ..self }
    }

    /// The same continuation in another phase.
    pub fn continue_with(self, phase: Phase) -> (r: Self)
        ensures
            r == self.with_phase(phase),
    {
        let mut resume = self;
        resume.phase = phase;
        resume
    }

    pub open spec fn settled(self, capability: PromiseCapability, completion: Completion) -> FromSyncStep {
        let (callable, value) = match completion {
            Completion::Return(value) => (capability.resolve, value),
            Completion::Throw(value) => (capability.reject, value),
        };
        FromSyncStep::call_request(
            callable,
            JsValue::Undefined,
            seq![value],
            self.with_phase(Phase::Settled(capability.promise)),
        )
    }

    /// Settle the promise of the request.
    pub fn settle(self, capability: PromiseCapability, completion: Completion) -> (r: FromSyncStep)
        ensures
            r == self.settled(capability, completion),
    {
        let (callable, value) = match completion {
            Completion::Return(value) => (capability.resolve, value),
            Completion::Throw(value) => (capability.reject, value),
        };
        FromSyncStep::request_call(
            callable,
            JsValue::Undefined,
            argument_list(Some(value)),
            self.continue_with(Phase::Settled(capability.promise)),
        )
    }

    /// The receiver of the requested read.
    pub fn take_read_receiver(&mut self) -> (r: JsValue)
        requires
            old(self).pending_effect.read_receiver is Some,
        ensures
            Some(r) == old(self).pending_effect.read_receiver,
            *final(self) == (FromSyncResume {
                pending_effect: FromSyncPending {
                    read_receiver: None,
                    ..old(self).pending_effect
                },
                ..*old(self)
            }),
    {
        let value = self.pending_effect.read_receiver.unwrap();
        self.pending_effect.read_receiver = None;
        value
    }

    pub fn take_read_key(&mut self) -> (r: PropertyKey)
        requires
            old(self).pending_effect.read_key is Some,
        ensures
            Some(r) == old(self).pending_effect.read_key,
            *final(self) == (FromSyncResume {
                pending_effect: FromSyncPending { read_key: None, ..old(self).pending_effect },
                ..*old(self)
            }),
    {
        let key = self.pending_effect.read_key.unwrap();
        self.pending_effect.read_key = None;
        key
    }

    pub fn take_call_callable(&mut self) -> (r: CallableRef)
        requires
            old(self).pending_effect.call_callable is Some,
        ensures
            Some(r) == old(self).pending_effect.call_callable,
            *final(self) == (FromSyncResume {
                pending_effect: FromSyncPending {
                    call_callable: None,
                    ..old(self).pending_effect
                },
                ..*old(self)
            }),
    {
        let callable = self.pending_effect.call_callable.unwrap();
        self.pending_effect.call_callable = None;
        callable
    }

    pub fn take_call_receiver(&mut self) -> (r: JsValue)
        requires
            old(self).pending_effect.call_receiver is Some,
        ensures
            Some(r) == old(self).pending_effect.call_receiver,
            *final(self) == (FromSyncResume {
                pending_effect: FromSyncPending {
                    call_receiver: None,
                    ..old(self).pending_effect
                },
                ..*old(self)
            }),
    {
        let value = self.pending_effect.call_receiver.unwrap();
        self.pending_effect.call_receiver = None;
        value
    }

    pub fn take_call_arguments(&mut self) -> (r: Vec<JsValue>)
        requires
            old(self).pending_effect.call_arguments is Some,
        ensures
            r@ == old(self).pending_effect.call_arguments->Some_0.values(),
            *final(self) == (FromSyncResume {
                pending_effect: FromSyncPending {
                    call_arguments: None,
                    ..old(self).pending_effect
                },
                ..*old(self)
            }),
    {
        match self.pending_effect.call_arguments.take() {
            Some(list) => list.into_values(),
            None => Vec::new(),
        }
    }

    pub fn take_resolve_value(&mut self) -> (r: JsValue)
        requires
            old(self).pending_effect.resolve_value is Some,
        ensures
            Some(r) == old(self).pending_effect.resolve_value,
            *final(self) == (FromSyncResume {
                pending_effect: FromSyncPending {
                    resolve_value: None,
                    ..old(self).pending_effect
                },
                ..*old(self)
            }),
    {
        let value = self.pending_effect.resolve_value.unwrap();
        self.pending_effect.resolve_value = None;
        value
    }

    pub fn take_resolve_realm(&mut self) -> (r: usize)
        requires
            old(self).pending_effect.resolve_realm is Some,
        ensures
            Some(r) == old(self).pending_effect.resolve_realm,
            *final(self) == (FromSyncResume {
                pending_effect: FromSyncPending {
                    resolve_realm: None,
                    ..old(self).pending_effect
                },
                ..*old(self)
            }),
    {
        let realm: usize = self.pending_effect.resolve_realm.unwrap();
        self.pending_effect.resolve_realm = None;
        realm
    }

    pub fn take_close_iterator(&mut self) -> (r: ObjectRef)
        requires
            old(self).pending_effect.close_iterator is Some,
        ensures
            Some(r) == old(self).pending_effect.close_iterator,
            *final(self) == (FromSyncResume {
                pending_effect: FromSyncPending {
                    close_iterator: None,
                    ..old(self).pending_effect
                },
                ..*old(self)
            }),
    {
        let iterator = self.pending_effect.close_iterator.unwrap();
        self.pending_effect.close_iterator = None;
        iterator
    }

    pub fn take_close_completion(&mut self) -> (r: Completion)
        requires
            old(self).pending_effect.close_completion is Some,
        ensures
            Some(r) == old(self).pending_effect.close_completion,
            *final(self) == (FromSyncResume {
                pending_effect: FromSyncPending {
                    close_completion: None,
                    ..old(self).pending_effect
                },
                ..*old(self)
            }),
    {
        let completion = self.pending_effect.close_completion.unwrap();
        self.pending_effect.close_completion = None;
        completion
    }

    /// Dropping a request gives up everything that it owns.
    pub open spec fn dropped(self, heap: Heap) -> Heap {
        let pending = self.pending_effect;
        heap.release_some(pending.read_receiver).0.release_some(
            pending.call_receiver,
        ).0.release_some(pending.resolve_value).0.release_each(
            match pending.call_arguments {
                Some(list) => list.values(),
                None => Seq::empty(),
            },
        ).release_some(
            match pending.close_completion {
                Some(completion) => Some(completion.owned()),
                None => None,
            },
        ).0.release_some(self.phase.owned()).0
    }

    /// Drop a request.
    pub fn abandon(self, runtime: &mut Runtime)
        requires
            old(runtime).wf(),
        ensures
            final(runtime).wf(),
            final(runtime)@ == self.dropped(old(runtime)@),
    {
        let pending = self.pending_effect;
        let _ = release_some(runtime, pending.read_receiver);
        let _ = release_some(runtime, pending.call_receiver);
        let _ = release_some(runtime, pending.resolve_value);
        let arguments = match pending.call_arguments {
            Some(list) => list.into_values(),
            None => Vec::new(),
        };
        runtime.release_list(&arguments);
        let _ = release_some(
            runtime,
            match pending.close_completion {
                Some(completion) => Some(completion.value()),
                None => None,
            },
        );
        let owned = match self.phase {
            Phase::Method(state) => state.argument,
            Phase::Result(state) => state.argument,
            Phase::Done { state, .. } => state.argument,
            Phase::Value { state, .. } => state.argument,
            Phase::Promise { state, .. } => state.argument,
            _ => None,
        };
        let _ = release_some(runtime, owned);
    }
}

/// A continuation without a request.
pub fn continuation(realm: usize, phase: Phase) -> (r: FromSyncResume)
    ensures
        r == FromSyncResume::fresh(realm, phase),
{
    FromSyncResume {
        pending_effect: FromSyncPending {
            read_receiver: None,
            read_key: None,
            call_callable: None,
            call_receiver: None,
            call_arguments: None,
            resolve_value: None,
            resolve_realm: None,
            close_iterator: None,
            close_completion: None,
        },
        realm,
        phase,
    }
}

/// Settle the promise of a request that has not started.
pub fn settle(realm: usize, capability: PromiseCapability, completion: Completion) -> (r: FromSyncStep)
    ensures
        r == FromSyncResume::fresh(realm, Phase::Identity).settled(capability, completion),
{
    continuation(realm, Phase::Identity).settle(capability, completion)
}

/// A cached value as one that the request owns.
pub fn decode_raw_jsvalue(runtime: &mut Runtime, raw: JsValue) -> (r: Result<JsValue, Error>)
    requires
        old(runtime).wf(),
    ensures
        final(runtime).wf(),
        (final(runtime)@, r) == old(runtime)@.retain(raw),
{
    runtime.dup_jsvalue(raw)
}

fn release_some(runtime: &mut Runtime, value: Option<JsValue>) -> (r: Result<(), Error>)
    requires
        old(runtime).wf(),
    ensures
        final(runtime).wf(),
        (final(runtime)@, r) == old(runtime)@.release_some(value),
{
    match value {
        Some(value) => runtime.release_jsvalue(value),
        None => Ok(()),
    }
}

impl FromSyncResume {
    /// A method that is missing.
    pub open spec fn without_method(self, heap: Heap, state: State) -> (
        Heap,
        Result<FromSyncStep, Error>,
    ) {
        match state.kind {
            GeneratorResumeKind::Return => match heap.iterator_result(
                self.realm,
                match state.argument {
                    Some(value) => value,
                    None => JsValue::Undefined,
                },
                true,
            ) {
                (heap, Err(e)) => (heap, Err(e)),
                (heap, Ok(result)) => (
                    heap,
                    Ok(
                        self.settled(
                            state.capability,
                            Completion::Return(JsValue::Object(result)),
                        ),
                    ),
                ),
            },
            GeneratorResumeKind::Throw => match heap.release_some(state.argument) {
                (heap, Err(e)) => (heap, Err(e)),
                (heap, Ok(_)) => (
                    heap,
                    Ok(
                        FromSyncStep::close_request(
                            state.iterator,
                            Completion::Return(JsValue::Undefined),
                            self.with_phase(Phase::MissingThrow(state.capability)),
                        ),
                    ),
                ),
            },
            GeneratorResumeKind::Next => match heap.type_error(self.realm, "not a function") {
                (heap, Err(e)) => (heap, Err(e)),
                (heap, Ok(reason)) => (
                    heap,
                    Ok(self.settled(state.capability, Completion::Throw(reason))),
                ),
            },
        }
    }

    /// A method value.
    pub open spec fn with_method(self, heap: Heap, state: State, value: JsValue) -> (
        Heap,
        Result<FromSyncStep, Error>,
    ) {
        let (heap, named) = heap.from_sync_callable(self.realm, value);
        match heap.release(value) {
            (heap, Err(e)) => (heap, Err(e)),
            (heap, Ok(_)) => match named {
                Err(e) => match heap.release_some(state.argument) {
                    (heap, Err(stale)) => (heap, Err(stale)),
                    (heap, Ok(_)) => (heap, Err(e)),
                },
                Ok(NativeConversion::Throw(reason)) => match heap.release_some(state.argument) {
                    (heap, Err(e)) => (heap, Err(e)),
                    (heap, Ok(_)) => (
                        heap,
                        Ok(self.settled(state.capability, Completion::Throw(reason))),
                    ),
                },
                Ok(NativeConversion::Value(callable)) => match heap.retain(
                    JsValue::Object(state.iterator),
                ) {
                    (heap, Err(e)) => (heap, Err(e)),
                    (heap, Ok(receiver)) => (
                        heap,
                        Ok(
                            FromSyncStep::call_request(
                                callable,
                                receiver,
                                State::list(state.argument),
                                self.with_phase(
                                    Phase::Result(State { argument: None, ..state }),
                                ),
                            ),
                        ),
                    ),
                },
            },
        }
    }

    /// The result of the method.
    pub open spec fn with_result(self, heap: Heap, state: State, value: JsValue) -> (
        Heap,
        Result<FromSyncStep, Error>,
    ) {
        match heap.release(value) {
            (heap, Err(e)) => (heap, Err(e)),
            (heap, Ok(_)) => match value {
                JsValue::Object(result) => match heap.retain(value) {
                    (heap, Err(e)) => (heap, Err(e)),
                    (heap, Ok(receiver)) => (
                        heap,
                        Ok(
                            FromSyncStep::read_request(
                                receiver,
                                PropertyKey::String(ATOM_DONE),
                                self.with_phase(Phase::Done { state, result }),
                            ),
                        ),
                    ),
                },
                _ => match heap.type_error(self.realm, "iterator must return an object") {
                    (heap, Err(e)) => (heap, Err(e)),
                    (heap, Ok(reason)) => (
                        heap,
                        Ok(self.settled(state.capability, Completion::Throw(reason))),
                    ),
                },
            },
        }
    }

    /// The promise of the value: its reactions finish the request.
    pub open spec fn with_promise(self, heap: Heap, state: State, done: bool, value: JsValue) -> (
        Heap,
        Result<FromSyncStep, Error>,
    ) {
        match heap.release(value) {
            (heap, Err(e)) => (heap, Err(e)),
            (heap, Ok(_)) => match value {
                JsValue::Object(promise) => match heap.internal_function(
                    self.realm,
                    NATIVE_FROM_SYNC_UNWRAP,
                    InternalCallableData::AsyncFromSyncIteratorUnwrap { done },
                ) {
                    (heap, Err(e)) => (heap, Err(e)),
                    (heap, Ok(unwrap)) => {
                        let closes = !(state.kind is Return) && !done;
                        let (heap, close) = if closes {
                            match heap.internal_function(
                                self.realm,
                                NATIVE_FROM_SYNC_CLOSE,
                                InternalCallableData::AsyncFromSyncIteratorClose {
                                    sync_iterator: state.iterator,
                                },
                            ) {
                                (heap, Err(e)) => (heap, Err(e)),
                                (heap, Ok(callable)) => (heap, Ok(Some(callable.object))),
                            }
                        } else {
                            (heap, Ok(None))
                        };
                        match close {
                            Err(e) => (heap, Err(e)),
                            Ok(close) => match heap.with_reaction(
                                PromiseReaction {
                                    realm: self.realm,
                                    promise,
                                    fulfilled: Some(unwrap.object),
                                    rejected: close,
                                    derived: Some(state.capability.promise),
                                },
                            ).retain(JsValue::Object(state.capability.promise)) {
                                (heap, Err(e)) => (heap, Err(e)),
                                (heap, Ok(output)) => (
                                    heap,
                                    Ok(FromSyncStep::Complete(Completion::Return(output))),
                                ),
                            },
                        }
                    },
                },
                _ => (
                    heap,
                    Err(Error::broken("intrinsic PromiseResolve returned a non-object")),
                ),
            },
        }
    }

    /// A reply that throws.
    pub open spec fn threw(self, heap: Heap, reason: JsValue) -> (
        Heap,
        Result<FromSyncStep, Error>,
    ) {
        let rejected = Completion::Throw(reason);
        match self.phase {
            Phase::Identity => (heap, Ok(FromSyncStep::Complete(rejected))),
            Phase::Settled(_) => match heap.release(reason) {
                (heap, Err(e)) => (heap, Err(e)),
                (heap, Ok(_)) => (
                    heap,
                    Err(Error::broken("intrinsic Promise resolving function threw")),
                ),
            },
            Phase::MissingThrow(capability) => (heap, Ok(self.settled(capability, rejected))),
            Phase::Reject(capability) => (heap, Ok(self.settled(capability, rejected))),
            Phase::Promise { state, done } => if !(state.kind is Return) && !done {
                (
                    heap,
                    Ok(
                        FromSyncStep::close_request(
                            state.iterator,
                            rejected,
                            self.with_phase(Phase::Reject(state.capability)),
                        ),
                    ),
                )
            } else {
                self.gave_up(heap, state, rejected)
            },
            Phase::Method(state) => self.gave_up(heap, state, rejected),
            Phase::Result(state) => self.gave_up(heap, state, rejected),
            Phase::Done { state, .. } => self.gave_up(heap, state, rejected),
            Phase::Value { state, .. } => self.gave_up(heap, state, rejected),
        }
    }

    pub open spec fn gave_up(self, heap: Heap, state: State, rejected: Completion) -> (
        Heap,
        Result<FromSyncStep, Error>,
    ) {
        match heap.release_some(state.argument) {
            (heap, Err(e)) => (heap, Err(e)),
            (heap, Ok(_)) => (heap, Ok(self.settled(state.capability, rejected))),
        }
    }

    pub open spec fn resume_spec(self, heap: Heap, completion: Completion) -> (
        Heap,
        Result<FromSyncStep, Error>,
    ) {
        match completion {
            Completion::Throw(reason) => self.threw(heap, reason),
            Completion::Return(value) => match self.phase {
                Phase::Identity => (heap, Ok(FromSyncStep::Complete(completion))),
                Phase::Settled(promise) => match heap.release(value) {
                    (heap, Err(e)) => (heap, Err(e)),
                    (heap, Ok(_)) => match heap.retain(JsValue::Object(promise)) {
                        (heap, Err(e)) => (heap, Err(e)),
                        (heap, Ok(output)) => (
                            heap,
                            Ok(FromSyncStep::Complete(Completion::Return(output))),
                        ),
                    },
                },
                Phase::Method(state) => if value.nullish() {
                    self.without_method(heap, state)
                } else {
                    self.with_method(heap, state, value)
                },
                Phase::Result(state) => self.with_result(heap, state, value),
                Phase::Done { state, result } => {
                    let done = heap.truthy(value);
                    match heap.release(value) {
                        (heap, Err(e)) => (heap, Err(e)),
                        (heap, Ok(_)) => match heap.retain(JsValue::Object(result)) {
                            (heap, Err(e)) => (heap, Err(e)),
                            (heap, Ok(receiver)) => (
                                heap,
                                Ok(
                                    FromSyncStep::read_request(
                                        receiver,
                                        PropertyKey::String(ATOM_VALUE),
                                        self.with_phase(Phase::Value { state, done }),
                                    ),
                                ),
                            ),
                        },
                    }
                },
                Phase::Value { state, done } => (
                    heap,
                    Ok(
                        FromSyncStep::resolve_request(
                            value,
                            self.realm,
                            self.with_phase(Phase::Promise { state, done }),
                        ),
                    ),
                ),
                Phase::Promise { state, done } => self.with_promise(heap, state, done, value),
                Phase::MissingThrow(capability) => match heap.type_error(
                    self.realm,
                    "throw is not a method",
                ) {
                    (heap, Err(e)) => (heap, Err(e)),
                    (heap, Ok(reason)) => (
                        heap,
                        Ok(self.settled(capability, Completion::Throw(reason))),
                    ),
                },
                Phase::Reject(_) => (
                    heap,
                    Err(Error::broken("Async-from-Sync unexpected reply")),
                ),
            },
        }
    }

    fn miss_method(self, runtime: &mut Runtime, state: State) -> (r: Result<FromSyncStep, Error>)
        requires
            old(runtime).wf(),
        ensures
            final(runtime).wf(),
            (final(runtime)@, r) == self.without_method(old(runtime)@, state),
    {
        match state.kind {
            GeneratorResumeKind::Return => {
                let value = match state.argument {
                    Some(value) => value,
                    None => JsValue::Undefined,
                };
                let result = runtime.new_iterator_result(self.realm, value, true)?;
                Ok(self.settle(state.capability, Completion::Return(JsValue::Object(result))))
            },
            GeneratorResumeKind::Throw => {
                release_some(runtime, state.argument)?;
                Ok(
                    FromSyncStep::request_close(
                        state.iterator,
                        Completion::Return(JsValue::Undefined),
                        self.continue_with(Phase::MissingThrow(state.capability)),
                    ),
                )
            },
            GeneratorResumeKind::Next => {
                let reason = type_error(runtime, self.realm, "not a function")?;
                Ok(self.settle(state.capability, Completion::Throw(reason)))
            },
        }
    }

    fn call_method(self, runtime: &mut Runtime, state: State, value: JsValue) -> (r: Result<
        FromSyncStep,
        Error,
    >)
        requires
            old(runtime).wf(),
        ensures
            final(runtime).wf(),
            (final(runtime)@, r) == self.with_method(old(runtime)@, state, value),
    {
        let named = runtime.async_from_sync_callable(self.realm, value);
        runtime.release_jsvalue(value)?;
        let callable = match named {
            Err(e) => {
                release_some(runtime, state.argument)?;
                return Err(e);
            },
            Ok(NativeConversion::Throw(reason)) => {
                release_some(runtime, state.argument)?;
                return Ok(self.settle(state.capability, Completion::Throw(reason)));
            },
            Ok(NativeConversion::Value(callable)) => callable,
        };
        let receiver = runtime.dup_jsvalue(JsValue::Object(state.iterator))?;
        let arguments = argument_list(state.argument);
        let mut state = state;
        state.argument = None;
        Ok(
            FromSyncStep::request_call(
                callable,
                receiver,
                arguments,
                self.continue_with(Phase::Result(state)),
            ),
        )
    }

    fn read_done(self, runtime: &mut Runtime, state: State, value: JsValue) -> (r: Result<
        FromSyncStep,
        Error,
    >)
        requires
            old(runtime).wf(),
        ensures
            final(runtime).wf(),
            (final(runtime)@, r) == self.with_result(old(runtime)@, state, value),
    {
        runtime.release_jsvalue(value)?;
        match value {
            JsValue::Object(result) => {
                let receiver = runtime.dup_jsvalue(value)?;
                Ok(
                    FromSyncStep::request_read(
                        receiver,
                        PropertyKey::String(ATOM_DONE),
                        self.continue_with(Phase::Done { state, result }),
                    ),
                )
            },
            _ => {
                let reason = type_error(runtime, self.realm, "iterator must return an object")?;
                Ok(self.settle(state.capability, Completion::Throw(reason)))
            },
        }
    }

    fn react(self, runtime: &mut Runtime, state: State, done: bool, value: JsValue) -> (r: Result<
        FromSyncStep,
        Error,
    >)
        requires
            old(runtime).wf(),
        ensures
            final(runtime).wf(),
            (final(runtime)@, r) == self.with_promise(old(runtime)@, state, done, value),
    {
        runtime.release_jsvalue(value)?;
        let promise = match value {
            JsValue::Object(promise) => promise,
            _ => {
                return Err(Error::broken("intrinsic PromiseResolve returned a non-object"));
            },
        };
        let unwrap = runtime.new_internal_promise_function(
            self.realm,
            NATIVE_FROM_SYNC_UNWRAP,
            InternalCallableData::AsyncFromSyncIteratorUnwrap { done },
        )?;
        let close = if state.kind != GeneratorResumeKind::Return && !done {
            let callable = runtime.new_internal_promise_function(
                self.realm,
                NATIVE_FROM_SYNC_CLOSE,
                InternalCallableData::AsyncFromSyncIteratorClose { sync_iterator: state.iterator },
            )?;
            Some(callable.object)
        } else {
            None
        };
        runtime.perform_promise_then(
            PromiseReaction {
                realm: self.realm,
                promise,
                fulfilled: Some(unwrap.object),
                rejected: close,
                derived: Some(state.capability.promise),
            },
        );
        let output = runtime.dup_jsvalue(JsValue::Object(state.capability.promise))?;
        Ok(FromSyncStep::Complete(Completion::Return(output)))
    }

    fn give_up(self, runtime: &mut Runtime, state: State, rejected: Completion) -> (r: Result<
        FromSyncStep,
        Error,
    >)
        requires
            old(runtime).wf(),
        ensures
            final(runtime).wf(),
            (final(runtime)@, r) == self.gave_up(old(runtime)@, state, rejected),
    {
        release_some(runtime, state.argument)?;
        Ok(self.settle(state.capability, rejected))
    }

    fn throw(self, runtime: &mut Runtime, reason: JsValue) -> (r: Result<FromSyncStep, Error>)
        requires
            old(runtime).wf(),
        ensures
            final(runtime).wf(),
            (final(runtime)@, r) == self.threw(old(runtime)@, reason),
    {
        let rejected = Completion::Throw(reason);
        match self.phase {
            Phase::Identity => Ok(FromSyncStep::Complete(rejected)),
            Phase::Settled(_) => {
                runtime.release_jsvalue(reason)?;
                Err(Error::broken("intrinsic Promise resolving function threw"))
            },
            Phase::MissingThrow(capability) => Ok(self.settle(capability, rejected)),
            Phase::Reject(capability) => Ok(self.settle(capability, rejected)),
            Phase::Promise { state, done } => {
                if state.kind != GeneratorResumeKind::Return && !done {
                    return Ok(
                        FromSyncStep::request_close(
                            state.iterator,
                            rejected,
                            self.continue_with(Phase::Reject(state.capability)),
                        ),
                    );
                }
                self.give_up(runtime, state, rejected)
            },
            Phase::Method(state) => self.give_up(runtime, state, rejected),
            Phase::Result(state) => self.give_up(runtime, state, rejected),
            Phase::Done { state, .. } => self.give_up(runtime, state, rejected),
            Phase::Value { state, .. } => self.give_up(runtime, state, rejected),
        }
    }

    /// Go on after the reply to a request.
    pub fn resume(self, runtime: &mut Runtime, completion: Completion) -> (r: Result<
        FromSyncStep,
        Error,
    >)
        requires
            old(runtime).wf(),
        ensures
            final(runtime).wf(),
            (final(runtime)@, r) == self.resume_spec(old(runtime)@, completion),
    {
        let value = match completion {
            Completion::Throw(reason) => {
                return self.throw(runtime, reason);
            },
            Completion::Return(value) => value,
        };
        match self.phase {
            Phase::Identity => Ok(FromSyncStep::Complete(completion)),
            Phase::Settled(promise) => {
                runtime.release_jsvalue(value)?;
                let output = runtime.dup_jsvalue(JsValue::Object(promise))?;
                Ok(FromSyncStep::Complete(Completion::Return(output)))
            },
            Phase::Method(state) => {
                if value.nullish() {
                    self.miss_method(runtime, state)
                } else {
                    self.call_method(runtime, state, value)
                }
            },
            Phase::Result(state) => self.read_done(runtime, state, value),
            Phase::Done { state, result } => {
                let done = runtime.value_to_boolean(value);
                runtime.release_jsvalue(value)?;
                let receiver = runtime.dup_jsvalue(JsValue::Object(result))?;
                Ok(
                    FromSyncStep::request_read(
                        receiver,
                        PropertyKey::String(ATOM_VALUE),
                        self.continue_with(Phase::Value { state, done }),
                    ),
                )
            },
            Phase::Value { state, done } => Ok(
                FromSyncStep::request_resolve(
                    value,
                    self.realm,
                    self.continue_with(Phase::Promise { state, done }),
                ),
            ),
            Phase::Promise { state, done } => self.react(runtime, state, done, value),
            Phase::MissingThrow(capability) => {
                let reason = type_error(runtime, self.realm, "throw is not a method")?;
                Ok(self.settle(capability, Completion::Throw(reason)))
            },
            Phase::Reject(_) => Err(Error::broken("Async-from-Sync unexpected reply")),
        }
    }
}

fn type_error(runtime: &mut Runtime, realm: usize, text: &'static str) -> (r: Result<JsValue, Error>)
    requires
        old(runtime).wf(),
    ensures
        final(runtime).wf(),
        (final(runtime)@, r) == old(runtime)@.type_error(realm, text),
{
    runtime.new_native_error_from_error(
        realm,
        NativeErrorKind::Type,
        Error::new(ErrorKind::Type, text),
    )
}

impl Runtime {
    /// The callable that a method value names, or what it throws.
    pub fn async_from_sync_callable(&mut self, realm: usize, value: JsValue) -> (r: Result<
        NativeConversion<CallableRef>,
        Error,
    >)
        requires
            old(self).wf(),
        ensures
            final(self).wf(),
            (final(self)@, r) == old(self)@.from_sync_callable(realm, value),
    {
        let named = match value {
            JsValue::Object(object) => self.as_callable(object)?,
            _ => None,
        };
        match named {
            Some(callable) => Ok(NativeConversion::Value(callable)),
            None => {
                let reason = type_error(self, realm, "not a function")?;
                Ok(NativeConversion::Throw(reason))
            },
        }
    }

    /// The capture of the running internal function.
    pub fn active_capture(&self) -> (r: Result<InternalCallableData, Error>)
        requires
            self.wf(),
        ensures
            r == self@.active_capture(),
    {
        let function = self.active_function()?;
        match self.object(function)?.payload {
            ObjectPayload::NativeFunction(native) => Ok(native.internal),
            _ => Ok(InternalCallableData::Nothing),
        }
    }
}

impl FromSyncStep {
    /// The first readable argument, owned by the request.
    pub open spec fn first_argument(heap: Heap, arguments: Seq<JsValue>, missing: &'static str) -> (
        Heap,
        Result<JsValue, Error>,
    ) {
        if arguments.len() > 0 {
            heap.retain(arguments[0])
        } else {
            (heap, Err(Error::broken(missing)))
        }
    }

    pub open spec fn start_spec(
        heap: Heap,
        realm: usize,
        target: FromSyncTarget,
        invocation: NativeInvocation,
        actual: usize,
        arguments: Seq<JsValue>,
    ) -> (Heap, Result<FromSyncStep, Error>) {
        match target {
            FromSyncTarget::Unwrap => FromSyncStep::unwrapped(heap, realm, invocation, arguments),
            FromSyncTarget::Close => FromSyncStep::closing(heap, realm, invocation, arguments),
            FromSyncTarget::Resume(kind) => match heap.new_capability(realm) {
                (heap, Err(e)) => (heap, Err(e)),
                (heap, Ok(capability)) => FromSyncStep::resuming(
                    heap,
                    realm,
                    kind,
                    capability,
                    invocation,
                    actual,
                    arguments,
                ),
            },
        }
    }

    /// Wrapping a resolved value into a result object.
    pub open spec fn unwrapped(
        heap: Heap,
        realm: usize,
        invocation: NativeInvocation,
        arguments: Seq<JsValue>,
    ) -> (Heap, Result<FromSyncStep, Error>) {
        if !(invocation is Call) {
            (
                heap,
                Err(Error::broken("Async-from-Sync unwrap did not receive a call invocation")),
            )
        } else {
            match heap.active_capture() {
                Err(e) => (heap, Err(e)),
                Ok(InternalCallableData::AsyncFromSyncIteratorUnwrap { done }) =>
                    match FromSyncStep::first_argument(
                    heap,
                    arguments,
                    "Async-from-Sync unwrap argv was not padded",
                ) {
                    (heap, Err(e)) => (heap, Err(e)),
                    (heap, Ok(value)) => match heap.iterator_result(realm, value, done) {
                        (heap, Err(e)) => (heap, Err(e)),
                        (heap, Ok(result)) => (
                            heap,
                            Ok(
                                FromSyncStep::Complete(
                                    Completion::Return(JsValue::Object(result)),
                                ),
                            ),
                        ),
                    },
                },
                Ok(InternalCallableData::Nothing) => (
                    heap,
                    Err(Error::broken("Async-from-Sync unwrap had no internal capture")),
                ),
                Ok(_) => (
                    heap,
                    Err(Error::broken("Async-from-Sync unwrap had the wrong internal capture")),
                ),
            }
        }
    }

    /// Closing the synchronous iterator after a rejection.
    pub open spec fn closing(
        heap: Heap,
        realm: usize,
        invocation: NativeInvocation,
        arguments: Seq<JsValue>,
    ) -> (Heap, Result<FromSyncStep, Error>) {
        if !(invocation is Call) {
            (
                heap,
                Err(Error::broken("Async-from-Sync close did not receive a call invocation")),
            )
        } else {
            match heap.active_capture() {
                Err(e) => (heap, Err(e)),
                Ok(InternalCallableData::AsyncFromSyncIteratorClose { sync_iterator }) =>
                    match FromSyncStep::first_argument(
                    heap,
                    arguments,
                    "Async-from-Sync close argv was not padded",
                ) {
                    (heap, Err(e)) => (heap, Err(e)),
                    (heap, Ok(reason)) => match heap.object_at(sync_iterator) {
                        Err(e) => (heap, Err(e)),
                        Ok(_) => (
                            heap,
                            Ok(
                                FromSyncStep::close_request(
                                    sync_iterator,
                                    Completion::Throw(reason),
                                    FromSyncResume::fresh(realm, Phase::Identity),
                                ),
                            ),
                        ),
                    },
                },
                Ok(InternalCallableData::Nothing) => (
                    heap,
                    Err(Error::broken("Async-from-Sync close had no internal capture")),
                ),
                Ok(_) => (
                    heap,
                    Err(Error::broken("Async-from-Sync close had the wrong internal capture")),
                ),
            }
        }
    }

    /// The argument of a resumption, if one was passed.
    pub open spec fn resume_argument(heap: Heap, actual: usize, arguments: Seq<JsValue>) -> (
        Heap,
        Result<Option<JsValue>, Error>,
    ) {
        if actual == 0 {
            (heap, Ok(None))
        } else {
            match FromSyncStep::first_argument(
                heap,
                arguments,
                "Async-from-Sync resume argv was not padded",
            ) {
                (heap, Err(e)) => (heap, Err(e)),
                (heap, Ok(value)) => (heap, Ok(Some(value))),
            }
        }
    }

    /// Resuming the synchronous iterator.
    pub open spec fn resuming(
        heap: Heap,
        realm: usize,
        kind: GeneratorResumeKind,
        capability: PromiseCapability,
        invocation: NativeInvocation,
        actual: usize,
        arguments: Seq<JsValue>,
    ) -> (Heap, Result<FromSyncStep, Error>) {
        match invocation {
            NativeInvocation::Call { this_value } => match FromSyncStep::resume_argument(
                heap,
                actual,
                arguments,
            ) {
                (heap, Err(e)) => (heap, Err(e)),
                (heap, Ok(argument)) => match heap.wrapped_iterator(this_value) {
                    Err(e) => (heap, Err(e)),
                    Ok(None) => match heap.type_error(realm, "not an Async-from-Sync Iterator") {
                        (heap, Err(e)) => (heap, Err(e)),
                        (heap, Ok(reason)) => (
                            heap,
                            Ok(
                                FromSyncResume::fresh(realm, Phase::Identity).settled(
                                    capability,
                                    Completion::Throw(reason),
                                ),
                            ),
                        ),
                    },
                    Ok(Some((iterator, next))) => FromSyncStep::selecting(
                        heap,
                        realm,
                        next,
                        State { capability, iterator, kind, argument },
                    ),
                },
            },
            _ => (
                heap,
                Err(Error::broken("Async-from-Sync resume did not receive a call invocation")),
            ),
        }
    }

    /// Finding the method: `next` is cached, the others are read.
    pub open spec fn selecting(heap: Heap, realm: usize, next: JsValue, state: State) -> (
        Heap,
        Result<FromSyncStep, Error>,
    ) {
        let resume = FromSyncResume::fresh(realm, Phase::Method(state));
        match heap.object_at(state.iterator) {
            Err(e) => (heap, Err(e)),
            Ok(_) => match state.kind {
                GeneratorResumeKind::Next => match heap.retain(next) {
                    (heap, Err(e)) => (heap, Err(e)),
                    (heap, Ok(method)) => resume.resume_spec(heap, Completion::Return(method)),
                },
                _ => match heap.retain(JsValue::Object(state.iterator)) {
                    (heap, Err(e)) => (heap, Err(e)),
                    (heap, Ok(receiver)) => (
                        heap,
                        Ok(
                            FromSyncStep::read_request(
                                receiver,
                                PropertyKey::String(
                                    if state.kind is Return {
                                        ATOM_RETURN
                                    } else {
                                        ATOM_THROW
                                    },
                                ),
                                resume,
                            ),
                        ),
                    ),
                },
            },
        }
    }

    fn own_first(runtime: &mut Runtime, arguments: &Vec<JsValue>, missing: &'static str) -> (r: Result<
        JsValue,
        Error,
    >)
        requires
            old(runtime).wf(),
        ensures
            final(runtime).wf(),
            (final(runtime)@, r) == FromSyncStep::first_argument(
                old(runtime)@,
                arguments@,
                missing,
            ),
    {
        if arguments.len() > 0 {
            runtime.dup_jsvalue(arguments[0])
        } else {
            Err(Error::broken(missing))
        }
    }

    fn select(runtime: &mut Runtime, realm: usize, next: JsValue, state: State) -> (r: Result<
        FromSyncStep,
        Error,
    >)
        requires
            old(runtime).wf(),
        ensures
            final(runtime).wf(),
            (final(runtime)@, r) == FromSyncStep::selecting(old(runtime)@, realm, next, state),
    {
        let _ = runtime.object(state.iterator)?;
        let resume = continuation(realm, Phase::Method(state));
        let key = match state.kind {
            GeneratorResumeKind::Next => {
                let method = decode_raw_jsvalue(runtime, next)?;
                return resume.resume(runtime, Completion::Return(method));
            },
            GeneratorResumeKind::Return => PropertyKey::String(ATOM_RETURN),
            GeneratorResumeKind::Throw => PropertyKey::String(ATOM_THROW),
        };
        let receiver = runtime.dup_jsvalue(JsValue::Object(state.iterator))?;
        Ok(FromSyncStep::request_read(receiver, key, resume))
    }

    /// Start an internal function of the async iterator.  A resumption makes
    /// its promise first, also for a receiver of another kind.
    pub fn start(
        runtime: &mut Runtime,
        realm: usize,
        target: FromSyncTarget,
        invocation: NativeInvocation,
        arguments: &NativeArguments,
    ) -> (r: Result<Self, Error>)
        requires
            old(runtime).wf(),
        ensures
            final(runtime).wf(),
            (final(runtime)@, r) == FromSyncStep::start_spec(
                old(runtime)@,
                realm,
                target,
                invocation,
                arguments.actual_arg_count,
                arguments.readable@,
            ),
    {
        let kind = match target {
            FromSyncTarget::Unwrap => {
                if !matches!(invocation, NativeInvocation::Call { .. }) {
                    return Err(
                        Error::broken("Async-from-Sync unwrap did not receive a call invocation"),
                    );
                }
                let done = match runtime.active_capture()? {
                    InternalCallableData::AsyncFromSyncIteratorUnwrap { done } => done,
                    InternalCallableData::Nothing => {
                        return Err(
                            Error::broken("Async-from-Sync unwrap had no internal capture"),
                        );
                    },
                    _ => {
                        return Err(
                            Error::broken("Async-from-Sync unwrap had the wrong internal capture"),
                        );
                    },
                };
                let value = FromSyncStep::own_first(
                    runtime,
                    &arguments.readable,
                    "Async-from-Sync unwrap argv was not padded",
                )?;
                let result = runtime.new_iterator_result(realm, value, done)?;
                return Ok(FromSyncStep::Complete(Completion::Return(JsValue::Object(result))));
            },
            FromSyncTarget::Close => {
                if !matches!(invocation, NativeInvocation::Call { .. }) {
                    return Err(
                        Error::broken("Async-from-Sync close did not receive a call invocation"),
                    );
                }
                let sync_iterator = match runtime.active_capture()? {
                    InternalCallableData::AsyncFromSyncIteratorClose {
                        sync_iterator,
                    } => sync_iterator,
                    InternalCallableData::Nothing => {
                        return Err(Error::broken("Async-from-Sync close had no internal capture"));
                    },
                    _ => {
                        return Err(
                            Error::broken("Async-from-Sync close had the wrong internal capture"),
                        );
                    },
                };
                let reason = FromSyncStep::own_first(
                    runtime,
                    &arguments.readable,
                    "Async-from-Sync close argv was not padded",
                )?;
                let _ = runtime.object(sync_iterator)?;
                return Ok(
                    FromSyncStep::request_close(
                        sync_iterator,
                        Completion::Throw(reason),
                        continuation(realm, Phase::Identity),
                    ),
                );
            },
            FromSyncTarget::Resume(kind) => kind,
        };
        let capability = runtime.new_default_promise_capability(realm)?;
        let this_value = match invocation {
            NativeInvocation::Call { this_value } => this_value,
            _ => {
                return Err(
                    Error::broken("Async-from-Sync resume did not receive a call invocation"),
                );
            },
        };
        let argument = if arguments.actual_arg_count == 0 {
            None
        } else {
            Some(
                FromSyncStep::own_first(
                    runtime,
                    &arguments.readable,
                    "Async-from-Sync resume argv was not padded",
                )?,
            )
        };
        let wrapped = match this_value {
            JsValue::Object(object) => match runtime.object(object)?.payload {
                ObjectPayload::AsyncFromSyncIterator { iterator, next } => Some((iterator, next)),
                _ => None,
            },
            _ => None,
        };
        match wrapped {
            None => {
                let reason = type_error(runtime, realm, "not an Async-from-Sync Iterator")?;
                Ok(settle(realm, capability, Completion::Throw(reason)))
            },
            Some((iterator, next)) => FromSyncStep::select(
                runtime,
                realm,
                next,
                State { capability, iterator, kind, argument },
            ),
        }
    }

    /// Taking the request of a step.
    pub open spec fn taken(self) -> Option<FromSyncResume> {
        match self {
            FromSyncStep::Complete(_) => None,
            FromSyncStep::Read { resume } => Some(
                FromSyncResume {
                    pending_effect: FromSyncPending {
                        read_receiver: None,
                        read_key: None,
                        ..resume.pending_effect
                    },
                    ..resume
                },
            ),
            FromSyncStep::Call { resume } => Some(
                FromSyncResume {
                    pending_effect: FromSyncPending {
                        call_callable: None,
                        call_receiver: None,
                        call_arguments: None,
                        ..resume.pending_effect
                    },
                    ..resume
                },
            ),
            FromSyncStep::Resolve { resume } => Some(
                FromSyncResume {
                    pending_effect: FromSyncPending {
                        resolve_value: None,
                        resolve_realm: None,
                        ..resume.pending_effect
                    },
                    ..resume
                },
            ),
            FromSyncStep::Close { resume } => Some(
                FromSyncResume {
                    pending_effect: FromSyncPending {
                        close_iterator: None,
                        close_completion: None,
                        ..resume.pending_effect
                    },
                    ..resume
                },
            ),
        }
    }

    /// Answering requests in order, as long as there are replies.
    pub open spec fn finished(self, heap: Heap, replies: Seq<Completion>, from: int) -> (
        Heap,
        Result<FromSyncStep, Error>,
    )
        decreases replies.len() - from,
    {
        match self.taken() {
            None => (heap, Ok(self)),
            Some(resume) => if from < 0 || from >= replies.len() {
                (heap, Ok(self))
            } else {
                match resume.resume_spec(heap, replies[from]) {
                    (heap, Err(e)) => (heap, Err(e)),
                    (heap, Ok(step)) => step.finished(heap, replies, from + 1),
                }
            },
        }
    }

    fn is_complete(&self) -> (r: bool)
        ensures
            r == (self is Complete),
    {
        match self {
            FromSyncStep::Complete(_) => true,
            _ => false,
        }
    }

    /// Take the request of a step.
    pub fn take(self) -> (r: Option<FromSyncResume>)
        ensures
            r == self.taken(),
    {
        match self {
            FromSyncStep::Complete(_) => None,
            FromSyncStep::Read { resume } => {
                let mut resume = resume;
                resume.pending_effect.read_receiver = None;
                resume.pending_effect.read_key = None;
                Some(resume)
            },
            FromSyncStep::Call { resume } => {
                let mut resume = resume;
                resume.pending_effect.call_callable = None;
                resume.pending_effect.call_receiver = None;
                resume.pending_effect.call_arguments = None;
                Some(resume)
            },
            FromSyncStep::Resolve { resume } => {
                let mut resume = resume;
                resume.pending_effect.resolve_value = None;
                resume.pending_effect.resolve_realm = None;
                Some(resume)
            },
            FromSyncStep::Close { resume } => {
                let mut resume = resume;
                resume.pending_effect.close_iterator = None;
                resume.pending_effect.close_completion = None;
                Some(resume)
            },
        }
    }

    /// Answer requests in order until the operation completes or the replies
    /// are used up.
    pub fn finish(self, runtime: &mut Runtime, replies: &Vec<Completion>) -> (r: Result<
        FromSyncStep,
        Error,
    >)
        requires
            old(runtime).wf(),
        ensures
            final(runtime).wf(),
            (final(runtime)@, r) == self.finished(old(runtime)@, replies@, 0),
    {
        let mut step = self;
        let mut i: usize = 0;
        while i < replies.len()
            invariant
                runtime.wf(),
                i <= replies@.len(),
                step.finished(runtime@, replies@, i as int) == self.finished(
                    old(runtime)@,
                    replies@,
                    0,
                ),
            decreases replies@.len() - i,
        {
            if step.is_complete() {
                return Ok(step);
            }
            match step.take() {
                None => {
                    return Err(Error::internal("request has no continuation"));
                },
                Some(resume) => {
                    step = resume.resume(runtime, replies[i])?;
                },
            }
            i = i + 1;
        }
        Ok(step)
    }
}

/// A result object is answered by a read of its end marker, the reply to that
/// by a read of its value, whatever the marker is, and the reply to that by the
/// resolution of the value.  Nothing else reads a field or resolves a value.
pub proof fn result_fields_are_read_in_order(
    resume: FromSyncResume,
    heap: Heap,
    result: ObjectRef,
    done_heap: Heap,
    done: JsValue,
    value_heap: Heap,
    value: JsValue,
)
    requires
        resume.phase is Result,
        heap.live(result),
        done_heap.live(result),
        done matches JsValue::Object(object) ==> done_heap.live(object),
    ensures
        ({
            let state = resume.phase->Result_0;
            let reading = FromSyncStep::read_request(
                JsValue::Object(result),
                PropertyKey::String(ATOM_DONE),
                resume.with_phase(Phase::Done { state, result }),
            );
            let marked = reading.taken()->Some_0;
            let taking = FromSyncStep::read_request(
                JsValue::Object(result),
                PropertyKey::String(ATOM_VALUE),
                marked.with_phase(Phase::Value { state, done: done_heap.truthy(done) }),
            );
            let valued = taking.taken()->Some_0;
            &&& resume.resume_spec(heap, Completion::Return(JsValue::Object(result))).1 == Ok::<
                FromSyncStep,
                Error,
            >(reading)
            &&& marked.resume_spec(done_heap, Completion::Return(done)).1 == Ok::<
                FromSyncStep,
                Error,
            >(taking)
            &&& valued.resume_spec(value_heap, Completion::Return(value)).1 == Ok::<
                FromSyncStep,
                Error,
            >(
                FromSyncStep::resolve_request(
                    value,
                    resume.realm,
                    valued.with_phase(Phase::Promise { state, done: done_heap.truthy(done) }),
                ),
            )
        }),
{
}

/// Only a value that was read is resolved, and only the fields of a result are
/// read.
pub proof fn values_are_resolved_last(
    resume: FromSyncResume,
    heap: Heap,
    completion: Completion,
    next: FromSyncResume,
)
    ensures
        resume.resume_spec(heap, completion).1 == Ok::<FromSyncStep, Error>(
            FromSyncStep::Resolve { resume: next },
        ) ==> resume.phase is Value && next.phase is Promise,
        resume.resume_spec(heap, completion).1 == Ok::<FromSyncStep, Error>(
            FromSyncStep::Read { resume: next },
        ) ==> (resume.phase is Result && next.phase is Done) || (resume.phase is Done
            && next.phase is Value),
{
}

/// A result that is no object rejects the promise of the request with a type
/// error.
pub proof fn other_results_are_rejected(resume: FromSyncResume, heap: Heap, value: JsValue)
    requires
        resume.phase is Result,
        !(value is Object),
        resume.realm < heap.realms.len(),
    ensures
        ({
            let (after, r) = resume.resume_spec(heap, Completion::Return(value));
            &&& after == heap.with_error(
                heap.realms[resume.realm as int].error_prototype_of(NativeErrorKind::Type),
                Error::new(ErrorKind::Type, "iterator must return an object"),
            )
            &&& r == Ok::<FromSyncStep, Error>(
                resume.settled(
                    resume.phase->Result_0.capability,
                    Completion::Throw(JsValue::Object(heap.next_ref())),
                ),
            )
        }),
{
}

/// The synchronous iterator is closed only while it is not done and was not
/// asked to return, or where it has no `throw` method.
pub proof fn finished_iterators_are_not_closed(
    resume: FromSyncResume,
    heap: Heap,
    completion: Completion,
    next: FromSyncResume,
)
    requires
        resume.resume_spec(heap, completion).1 == Ok::<FromSyncStep, Error>(
            FromSyncStep::Close { resume: next },
        ),
    ensures
        match resume.phase {
            Phase::Promise { state, done } => !(state.kind is Return) && !done && completion
                is Throw,
            Phase::Method(state) => state.kind is Throw && (match completion {
                Completion::Return(value) => value.nullish(),
                Completion::Throw(_) => false,
            }),
            _ => false,
        },
{
}

/// After the promise of a request was settled the request only hands the
/// promise out.
pub proof fn requests_settle_once(
    resume: FromSyncResume,
    heap: Heap,
    completion: Completion,
    promise: ObjectRef,
)
    requires
        resume.phase == Phase::Settled(promise),
    ensures
        resume.resume_spec(heap, completion).1 matches Ok(step) ==> step
            == FromSyncStep::Complete(Completion::Return(JsValue::Object(promise))),
{
}

proof fn lists_keep_values(values: Seq<JsValue>)
    ensures
        ArgumentList::of(values).values() == values,
    decreases values.len(),
{
    if values.len() > 0 {
        lists_keep_values(values.drop_first());
        assert(seq![values[0]] + values.drop_first() =~= values);
    } else {
        assert(values =~= Seq::empty());
    }
}

/// A requested call gives back its callable, its receiver and its arguments in
/// their order, whichever is taken first.
pub proof fn requested_calls_keep_their_parts(
    callable: CallableRef,
    receiver: JsValue,
    arguments: Seq<JsValue>,
    resume: FromSyncResume,
)
    ensures
        FromSyncStep::call_request(callable, receiver, arguments, resume) matches FromSyncStep::Call {
            resume: requested,
        } && {
            let pending = requested.pending_effect;
            &&& pending.call_callable == Some(callable)
            &&& pending.call_receiver == Some(receiver)
            &&& pending.call_arguments matches Some(list) && list.values() == arguments
        },
{
    lists_keep_values(arguments);
}

/// Settling a request: a returned value goes to the resolving function and a
/// thrown one to the rejecting function, alone and without a receiver.
pub proof fn settlements_call_their_side(
    resume: FromSyncResume,
    capability: PromiseCapability,
    value: JsValue,
)
    ensures
        resume.settled(capability, Completion::Return(value)) matches FromSyncStep::Call { resume: next }
            && next.pending_effect.call_callable == Some(capability.resolve)
            && next.pending_effect.call_receiver == Some(JsValue::Undefined) && (
        next.pending_effect.call_arguments matches Some(list) && list.values() == seq![value])
            && next.phase == Phase::Settled(capability.promise),
        resume.settled(capability, Completion::Throw(value)) matches FromSyncStep::Call { resume: next }
            && next.pending_effect.call_callable == Some(capability.reject)
            && next.pending_effect.call_receiver == Some(JsValue::Undefined) && (
        next.pending_effect.call_arguments matches Some(list) && list.values() == seq![value])
            && next.phase == Phase::Settled(capability.promise),
{
    lists_keep_values(seq![value]);
}

/// A resumption finds its method on the wrapped iterator: the cached one for
/// `next`, and otherwise the property `return` or `throw`.
pub proof fn resumptions_find_their_method(
    heap: Heap,
    realm: usize,
    next: JsValue,
    state: State,
)
    requires
        Heap::pinned(heap.texts),
        heap.live(state.iterator),
        next matches JsValue::Object(object) ==> heap.live(object),
    ensures
        state.kind is Return ==> (FromSyncStep::selecting(heap, realm, next, state).1 matches Ok(
            FromSyncStep::Read { resume },
        ) && resume.pending_effect.read_receiver == Some(JsValue::Object(state.iterator)) && (
        resume.pending_effect.read_key matches Some(PropertyKey::String(atom)) && heap.text_at(atom)
            == crate::text::Texts::units("return")) && resume.phase == Phase::Method(state)),
        state.kind is Throw ==> (FromSyncStep::selecting(heap, realm, next, state).1 matches Ok(
            FromSyncStep::Read { resume },
        ) && resume.pending_effect.read_receiver == Some(JsValue::Object(state.iterator)) && (
        resume.pending_effect.read_key matches Some(PropertyKey::String(atom)) && heap.text_at(atom)
            == crate::text::Texts::units("throw")) && resume.phase == Phase::Method(state)),
        state.kind is Next ==> FromSyncStep::selecting(heap, realm, next, state)
            == FromSyncResume::fresh(realm, Phase::Method(state)).resume_spec(
            heap.retain(next).0,
            Completion::Return(next),
        ),
{
}

/// A found method is called on the wrapped iterator with the argument of the
/// request, if there was one.
pub proof fn methods_are_called_on_the_iterator(
    heap: Heap,
    resume: FromSyncResume,
    state: State,
    method: ObjectRef,
)
    requires
        resume.phase == Phase::Method(state),
        heap.live(method),
        heap.live(state.iterator),
        heap.callable(method) == Ok::<Option<CallableRef>, Error>(
            Some(CallableRef { object: method }),
        ),
    ensures
        ({
            let r = resume.resume_spec(heap, Completion::Return(JsValue::Object(method))).1;
            r matches Ok(FromSyncStep::Call { resume: next }) && {
                &&& next.pending_effect.call_callable == Some(CallableRef { object: method })
                &&& next.pending_effect.call_receiver == Some(JsValue::Object(state.iterator))
                &&& next.pending_effect.call_arguments matches Some(list) && (match state.argument {
                    Some(value) => list.values() == seq![value],
                    None => list.values().len() == 0,
                })
                &&& next.phase matches Phase::Result(left) && left.kind == state.kind
                    && left.iterator == state.iterator && left.capability == state.capability
            }
        }),
{
    lists_keep_values(State::list(state.argument));
}

/// A missing method: `return` resolves the promise with a finished result of
/// its argument, `throw` closes the iterator and then rejects with a type
/// error, and `next` rejects with a type error.
pub proof fn missing_methods_go_by_the_request(
    heap: Heap,
    resume: FromSyncResume,
    state: State,
    closed: Heap,
    reply: JsValue,
)
    requires
        resume.phase == Phase::Method(state),
        resume.realm < heap.realms.len(),
        resume.realm < closed.realms.len(),
        state.argument matches Some(JsValue::Object(object)) ==> heap.live(object),
    ensures
        ({
            let (after, r) = resume.resume_spec(heap, Completion::Return(JsValue::Undefined));
            let argument = match state.argument {
                Some(value) => value,
                None => JsValue::Undefined,
            };
            &&& resume.resume_spec(heap, Completion::Return(JsValue::Null)) == (after, r)
            &&& state.kind is Return ==> after == heap.iterator_result(
                resume.realm,
                argument,
                true,
            ).0 && r == Ok::<FromSyncStep, Error>(
                resume.settled(
                    state.capability,
                    Completion::Return(JsValue::Object(heap.next_ref())),
                ),
            )
            &&& state.kind is Throw ==> (r matches Ok(FromSyncStep::Close { resume: next })
                && next.pending_effect.close_iterator == Some(state.iterator)
                && next.pending_effect.close_completion == Some(
                Completion::Return(JsValue::Undefined),
            ) && (next.resume_spec(closed, Completion::Return(reply)) == (
                closed.type_error(resume.realm, "throw is not a method").0,
                Ok::<FromSyncStep, Error>(
                    next.settled(
                        state.capability,
                        Completion::Throw(JsValue::Object(closed.next_ref())),
                    ),
                ),
            )))
            &&& state.kind is Next ==> after == heap.type_error(
                resume.realm,
                "not a function",
            ).0 && r == Ok::<FromSyncStep, Error>(
                resume.settled(
                    state.capability,
                    Completion::Throw(JsValue::Object(heap.next_ref())),
                ),
            )
        }),
{
}

/// The promise of the value gets one reaction, which settles the promise of the
/// request: it wraps what was fulfilled with the end marker that was read, and
/// closes the iterator on a rejection as long as it was not done and not asked
/// to return.
pub proof fn promises_of_values_get_one_reaction(
    heap: Heap,
    resume: FromSyncResume,
    state: State,
    done: bool,
    promise: ObjectRef,
)
    requires
        resume.phase == (Phase::Promise { state, done }),
        resume.realm < heap.realms.len(),
        heap.live(promise),
        heap.live(state.capability.promise),
        heap.objects.len() + 2 <= usize::MAX,
    ensures
        ({
            let (after, r) = resume.resume_spec(heap, Completion::Return(JsValue::Object(promise)));
            let reaction = after.reactions.last();
            &&& r == Ok::<FromSyncStep, Error>(
                FromSyncStep::Complete(
                    Completion::Return(JsValue::Object(state.capability.promise)),
                ),
            )
            &&& after.reactions.drop_last() == heap.reactions
            &&& reaction.promise == promise
            &&& reaction.realm == resume.realm
            &&& reaction.derived == Some(state.capability.promise)
            &&& reaction.fulfilled matches Some(function) && after.captured(function) == Ok::<
                InternalCallableData,
                Error,
            >(InternalCallableData::AsyncFromSyncIteratorUnwrap { done })
            &&& state.kind is Return || done ==> reaction.rejected is None
            &&& !(state.kind is Return) && !done ==> (reaction.rejected matches Some(function)
                && after.captured(function) == Ok::<InternalCallableData, Error>(
                InternalCallableData::AsyncFromSyncIteratorClose { sync_iterator: state.iterator },
            ))
        }),
{
    let after = resume.resume_spec(heap, Completion::Return(JsValue::Object(promise))).0;
    assert(after.reactions.drop_last() =~= heap.reactions);
}

/// A reply that throws rejects the promise of the request with that value; only
/// a rejected value of an unfinished iterator closes the iterator first, with
/// the same value.
pub proof fn thrown_replies_reject(
    heap: Heap,
    resume: FromSyncResume,
    state: State,
    done: bool,
    result: ObjectRef,
    reason: JsValue,
)
    requires
        state.argument is None,
    ensures
        ({
            let threw = |phase: Phase| resume.with_phase(phase).resume_spec(
                heap,
                Completion::Throw(reason),
            );
            let rejected = |phase: Phase| (
                heap,
                Ok::<FromSyncStep, Error>(
                    resume.with_phase(phase).settled(state.capability, Completion::Throw(reason)),
                ),
            );
            &&& threw(Phase::Method(state)) == rejected(Phase::Method(state))
            &&& threw(Phase::Result(state)) == rejected(Phase::Result(state))
            &&& threw(Phase::Done { state, result }) == rejected(Phase::Done { state, result })
            &&& threw(Phase::Value { state, done }) == rejected(Phase::Value { state, done })
            &&& threw(Phase::Reject(state.capability)) == rejected(Phase::Reject(state.capability))
            &&& threw(Phase::MissingThrow(state.capability)) == rejected(
                Phase::MissingThrow(state.capability),
            )
            &&& state.kind is Return || done ==> threw(Phase::Promise { state, done }) == rejected(
                Phase::Promise { state, done },
            )
            &&& !(state.kind is Return) && !done ==> (threw(Phase::Promise { state, done }).1 matches Ok(
                FromSyncStep::Close { resume: next },
            ) && next.pending_effect.close_iterator == Some(state.iterator)
                && next.pending_effect.close_completion == Some(Completion::Throw(reason))
                && next.phase == Phase::Reject(state.capability))
        }),
{
}

/// The internal functions of a reaction: unwrapping gives a result object of
/// the argument with the captured end marker, and closing closes the captured
/// iterator with the argument thrown.
pub proof fn reactions_finish_their_request(
    heap: Heap,
    realm: usize,
    this_value: JsValue,
    actual: usize,
    arguments: Seq<JsValue>,
    done: bool,
    sync_iterator: ObjectRef,
)
    requires
        realm < heap.realms.len(),
        arguments.len() > 0,
        arguments[0] matches JsValue::Object(object) ==> heap.live(object),
        heap.active.len() > 0,
        heap.live(sync_iterator),
    ensures
        heap.captured(heap.active.last().function) == Ok::<InternalCallableData, Error>(
            InternalCallableData::AsyncFromSyncIteratorUnwrap { done },
        ) ==> FromSyncStep::start_spec(
            heap,
            realm,
            FromSyncTarget::Unwrap,
            NativeInvocation::Call { this_value },
            actual,
            arguments,
        ) == (
            heap.retain(arguments[0]).0.iterator_result(realm, arguments[0], done).0,
            Ok::<FromSyncStep, Error>(
                FromSyncStep::Complete(Completion::Return(JsValue::Object(heap.next_ref()))),
            ),
        ),
        heap.captured(heap.active.last().function) == Ok::<InternalCallableData, Error>(
            InternalCallableData::AsyncFromSyncIteratorClose { sync_iterator },
        ) ==> (FromSyncStep::start_spec(
            heap,
            realm,
            FromSyncTarget::Close,
            NativeInvocation::Call { this_value },
            actual,
            arguments,
        ).1 matches Ok(FromSyncStep::Close { resume }) && resume.pending_effect.close_iterator
            == Some(sync_iterator) && resume.pending_effect.close_completion == Some(
            Completion::Throw(arguments[0]),
        ) && resume.phase is Identity && resume.realm == realm),
{
}

} // verus!
