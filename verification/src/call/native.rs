//! Native invocation ownership.
//!
//! Preparing an activation runs no native body.  Its arguments and its
//! activation record last until completion, rejection or abandonment.
use vstd::prelude::*;
use crate::call::{NativeArguments, NativeInvocation, NativeInvokeMode, NativeInvokeOutcome};
use crate::error::{Error, NativeErrorKind};
use crate::frames::active::NativeFunctionId;
use crate::heap::{EdgeEvent, Heap, NativeFunctionData, ObjectPayload};
use crate::runtime::{ActiveFrameGuard, Runtime, ATOM_STACK};
use crate::value::{CallableRef, Completion, JsValue, ObjectRef, PropertyKey};

verus! {

/// A native call whose activation record stands but whose body has not run.
pub struct PreparedNativeCall {
    pub activation: NativeActivation,
    pub invocation: NativeInvocation,
}

pub struct NativeActivation {
    pub active_frame: ActiveFrameGuard,
    pub callable: CallableRef,
    pub realm: usize,
    pub target: NativeFunctionId,
    pub mode: NativeInvokeMode,
    pub arguments: NativeArguments,
}

/// A native activation as a mathematical value.
#[verifier::ext_equal]
pub struct Activation {
    pub active_frame: ActiveFrameGuard,
    pub callable: CallableRef,
    pub realm: usize,
    pub target: NativeFunctionId,
    pub mode: NativeInvokeMode,
    pub actual_arg_count: usize,
    pub readable: Seq<JsValue>,
}

/// A prepared native call as a mathematical value.
#[verifier::ext_equal]
pub struct Prepared {
    pub activation: Activation,
    pub invocation: NativeInvocation,
}

impl View for NativeActivation {
    type V = Activation;

    open spec fn view(&self) -> Activation {
        Activation {
            active_frame: self.active_frame,
            callable: self.callable,
            realm: self.realm,
            target: self.target,
            mode: self.mode,
            actual_arg_count: self.arguments.actual_arg_count,
            readable: self.arguments.readable@,
        }
    }
}

impl View for PreparedNativeCall {
    type V = Prepared;

    open spec fn view(&self) -> Prepared {
        Prepared { activation: self.activation@, invocation: self.invocation }
    }
}

/// How the arguments of a native call are handed over.
#[derive(Clone, Copy, Debug, PartialEq, Eq, Structural)]
pub enum NativeArgumentInput {
    /// The caller keeps its edges; each value gets one more.
    Borrowed,
    /// The edges move, after a check of where each value belongs.
    Owned,
    /// The edges move as they are.
    Internal,
}

/// The facts of one native callable, taken from its payload.
#[derive(Clone, Copy, Debug, PartialEq, Eq, Structural)]
pub struct NativeClassification {
    pub function: ObjectRef,
    pub data: NativeFunctionData,
}

impl Heap {
    /// The native facts of a callable.
    pub open spec fn native_data(self, callable: CallableRef) -> Result<
        Option<NativeFunctionData>,
        Error,
    > {
        if !self.belongs(callable.object) {
            Err(Error::wrong_runtime("native callable"))
        } else {
            match self.object_at(callable.object) {
                Err(e) => Err(e),
                Ok(object) => match object.payload {
                    ObjectPayload::NativeFunction(data) => Ok(Some(data)),
                    _ => Ok(None),
                },
            }
        }
    }

    /// Whether a call with these facts is still the one that was selected.
    pub open spec fn native_facts_hold(
        self,
        data: NativeFunctionData,
        realm: usize,
        target: NativeFunctionId,
        min_readable_args: u8,
        mode: NativeInvokeMode,
    ) -> Result<(), Error> {
        match data.realm {
            None => Err(
                Error::broken("native function was called before its defining realm was attached"),
            ),
            Some(defining) => if data.target == target && data.min_readable_args
                == min_readable_args && (mode is IteratorNextRaw || target.uses_calling_realm
                || defining == realm) {
                match self.realm_at(realm) {
                    Err(e) => Err(e),
                    Ok(_) => Ok(()),
                }
            } else {
                Err(Error::broken("native invocation metadata changed after snapshot"))
            },
        }
    }

    pub open spec fn native_ready(
        self,
        callable: CallableRef,
        realm: usize,
        target: NativeFunctionId,
        min_readable_args: u8,
        mode: NativeInvokeMode,
        selected: Option<NativeClassification>,
    ) -> Result<(), Error> {
        match self.native_data(callable) {
            Err(e) => Err(e),
            Ok(None) => Err(Error::broken("native invocation metadata changed after snapshot")),
            Ok(Some(data)) => match selected {
                Some(selection) => if selection.function == callable.object && selection.data
                    == data {
                    self.native_facts_hold(data, realm, target, min_readable_args, mode)
                } else {
                    Err(Error::broken("native invocation metadata changed after snapshot"))
                },
                None => self.native_facts_hold(data, realm, target, min_readable_args, mode),
            },
        }
    }

    /// First argument from `from` that another runtime owns.
    pub open spec fn foreign_from(self, values: Seq<JsValue>, from: int) -> Option<int>
        decreases values.len() - from,
    {
        if from < 0 || from >= values.len() {
            None
        } else if !self.in_domain(values[from]) {
            Some(from)
        } else {
            self.foreign_from(values, from + 1)
        }
    }

    /// Taking one more edge of each value, up to the first that cannot be
    /// taken: the heap, how many were taken, and what stopped it.
    pub open spec fn retain_from(self, values: Seq<JsValue>, from: int) -> (
        Heap,
        int,
        Result<(), Error>,
    )
        decreases values.len() - from,
    {
        if from < 0 || from >= values.len() {
            (self, from, Ok(()))
        } else if !self.in_domain(values[from]) {
            (self, from, Err(Error::wrong_runtime("value")))
        } else {
            match self.retain(values[from]) {
                (heap, Err(e)) => (heap, from, Err(e)),
                (heap, Ok(_)) => heap.retain_from(values, from + 1),
            }
        }
    }

    /// One event's share in the edges held of `object`.
    pub open spec fn event_weight(event: EdgeEvent, object: ObjectRef) -> int {
        match event {
            EdgeEvent::Retain(o) => if o == object {
                1
            } else {
                0
            },
            EdgeEvent::Release(o) => if o == object {
                -1
            } else {
                0
            },
        }
    }

    /// Edges of `object` taken and not given up again in a journal.
    pub open spec fn held(events: Seq<EdgeEvent>, object: ObjectRef) -> int
        decreases events.len(),
    {
        if events.len() == 0 {
            0
        } else {
            Heap::held(events.drop_last(), object) + Heap::event_weight(events.last(), object)
        }
    }

    /// How often the live `object` occurs among values.
    pub open spec fn occurrences(self, values: Seq<JsValue>, object: ObjectRef) -> int
        decreases values.len(),
    {
        if values.len() == 0 {
            0
        } else {
            (if values[0] == JsValue::Object(object) && self.live(object) {
                1int
            } else {
                0int
            }) + self.occurrences(values.drop_first(), object)
        }
    }

    /// Arguments filled up to the number that the native body may read.
    pub open spec fn padded(values: Seq<JsValue>, minimum: nat) -> Seq<JsValue> {
        if values.len() < minimum {
            values + Seq::new((minimum - values.len()) as nat, |i: int| JsValue::Undefined)
        } else {
            values
        }
    }

    /// Giving up what a preparation owned before it was registered.
    pub open spec fn abandon_owners(self, invocation: NativeInvocation, values: Seq<JsValue>) -> Heap {
        self.release(invocation.owned()).0.release_each(values)
    }

    /// Taking over the arguments: the heap, and an error if that failed after
    /// everything owned so far was given up.
    pub open spec fn take_arguments(
        self,
        invocation: NativeInvocation,
        values: Seq<JsValue>,
        input: NativeArgumentInput,
    ) -> (Heap, Result<(), Error>) {
        match input {
            NativeArgumentInput::Internal => (self, Ok(())),
            NativeArgumentInput::Owned => match self.foreign_from(values, 0) {
                Some(_) => (
                    self.abandon_owners(invocation, values),
                    Err(Error::wrong_runtime("value")),
                ),
                None => (self, Ok(())),
            },
            NativeArgumentInput::Borrowed => match self.retain_from(values, 0) {
                (heap, _, Ok(_)) => (heap, Ok(())),
                (heap, taken, Err(e)) => (
                    heap.abandon_owners(invocation, values.take(taken)),
                    Err(e),
                ),
            },
        }
    }

    /// Preparing a native call.
    pub open spec fn prepare_native(
        self,
        callable: CallableRef,
        realm: usize,
        target: NativeFunctionId,
        min_readable_args: u8,
        invocation: NativeInvocation,
        values: Seq<JsValue>,
        input: NativeArgumentInput,
        mode: NativeInvokeMode,
        continuation: bool,
        selected: Option<NativeClassification>,
    ) -> (Heap, Result<Prepared, Error>) {
        match self.native_ready(callable, realm, target, min_readable_args, mode, selected) {
            Err(e) => (
                self.abandon_owners(
                    invocation,
                    if input is Borrowed {
                        Seq::empty()
                    } else {
                        values
                    },
                ),
                Err(e),
            ),
            Ok(_) => match self.take_arguments(invocation, values, input) {
                (heap, Err(e)) => (heap, Err(e)),
                (heap, Ok(_)) => {
                    let readable = Heap::padded(values, min_readable_args as nat);
                    match heap.published(
                        callable.object,
                        realm,
                        target,
                        min_readable_args,
                        values.len(),
                        readable.len(),
                        continuation,
                        mode is IteratorNextRaw || target.hidden,
                    ) {
                        (heap, Err(e)) => (heap.abandon_owners(invocation, readable), Err(e)),
                        (heap, Ok(active_frame)) => (
                            heap,
                            Ok(
                                Prepared {
                                    activation: Activation {
                                        active_frame,
                                        callable,
                                        realm,
                                        target,
                                        mode,
                                        actual_arg_count: values.len() as usize,
                                        readable,
                                    },
                                    invocation,
                                },
                            ),
                        ),
                    }
                },
            },
        }
    }

    /// Ending an activation whose body produced a value.
    pub open spec fn finish_value(self, activation: Activation, value: JsValue) -> (
        Heap,
        Result<(), Error>,
    ) {
        match self.finished(activation.active_frame) {
            (heap, Err(e)) => (heap.release(value).0.release_each(activation.readable), Err(e)),
            (heap, Ok(_)) => (heap.release_each(activation.readable), Ok(())),
        }
    }

    /// Ending an activation whose body failed.  A program-visible error becomes
    /// an object of the activation's realm while its record still stands.
    pub open spec fn finish_error(self, activation: Activation, error: Error) -> (
        Heap,
        Result<JsValue, Error>,
    ) {
        match NativeErrorKind::visible(error.kind) {
            Some(kind) => match self.native_error(activation.realm, kind, error) {
                (heap, Ok(value)) => match heap.finish_value(activation, value) {
                    (heap, Ok(_)) => (heap, Ok(value)),
                    (heap, Err(e)) => (heap, Err(e)),
                },
                (heap, Err(e)) => heap.finish_failed(activation, e),
            },
            None => self.finish_failed(activation, error),
        }
    }

    pub open spec fn finish_failed(self, activation: Activation, error: Error) -> (
        Heap,
        Result<JsValue, Error>,
    ) {
        match self.finished(activation.active_frame) {
            (heap, Ok(_)) => (heap.release_each(activation.readable), Err(error)),
            (heap, Err(e)) => (heap.release_each(activation.readable), Err(e)),
        }
    }

    pub open spec fn finish_outcome(
        self,
        activation: Activation,
        result: Result<NativeInvokeOutcome, Error>,
    ) -> (Heap, Result<NativeInvokeOutcome, Error>) {
        match result {
            Ok(outcome) => match self.finish_value(activation, outcome.owned()) {
                (heap, Ok(_)) => (heap, Ok(outcome)),
                (heap, Err(e)) => (heap, Err(e)),
            },
            Err(error) => match self.finish_error(activation, error) {
                (heap, Ok(value)) => (
                    heap,
                    Ok(NativeInvokeOutcome::Completion(Completion::Throw(value))),
                ),
                (heap, Err(e)) => (heap, Err(e)),
            },
        }
    }

    pub open spec fn finish_completion(
        self,
        activation: Activation,
        result: Result<Completion, Error>,
    ) -> (Heap, Result<Completion, Error>) {
        match result {
            Ok(completion) => match self.finish_value(activation, completion.owned()) {
                (heap, Ok(_)) => (heap, Ok(completion)),
                (heap, Err(e)) => (heap, Err(e)),
            },
            Err(error) => match self.finish_error(activation, error) {
                (heap, Ok(value)) => (heap, Ok(Completion::Throw(value))),
                (heap, Err(e)) => (heap, Err(e)),
            },
        }
    }
}

impl NativeClassification {
    /// The native facts of a callable, if it is a native function itself.
    pub fn select(runtime: &Runtime, callable: CallableRef) -> (r: Result<Option<Self>, Error>)
        ensures
            r == (match runtime@.native_data(callable) {
                Err(e) => Err(e),
                Ok(None) => Ok(None),
                Ok(Some(data)) => Ok(
                    Some(NativeClassification { function: callable.object, data }),
                ),
            }),
    {
        if callable.object.domain != runtime.domain_id() {
            return Err(Error::wrong_runtime("native callable"));
        }
        let object = runtime.object(callable.object)?;
        match object.payload {
            ObjectPayload::NativeFunction(data) => Ok(
                Some(NativeClassification { function: callable.object, data }),
            ),
            _ => Ok(None),
        }
    }
}

impl Runtime {
    fn validate_native(
        &self,
        callable: CallableRef,
        realm: usize,
        target: NativeFunctionId,
        min_readable_args: u8,
        mode: NativeInvokeMode,
        selected: Option<NativeClassification>,
    ) -> (r: Result<(), Error>)
        ensures
            r == self@.native_ready(callable, realm, target, min_readable_args, mode, selected),
    {
        let current = match NativeClassification::select(self, callable)? {
            Some(current) => current,
            None => {
                return Err(Error::broken("native invocation metadata changed after snapshot"));
            },
        };
        let data = current.data;
        match selected {
            Some(selection) => {
                if selection.function != callable.object || selection.data != data {
                    return Err(Error::broken("native invocation metadata changed after snapshot"));
                }
            },
            None => {},
        }
        let defining: usize = match data.realm {
            Some(defining) => defining,
            None => {
                return Err(
                    Error::broken(
                        "native function was called before its defining realm was attached",
                    ),
                );
            },
        };
        if data.target == target && data.min_readable_args == min_readable_args && (mode
            == NativeInvokeMode::IteratorNextRaw || target.uses_calling_realm || defining == realm) {
            let _ = self.realm(realm)?;
            Ok(())
        } else {
            Err(Error::broken("native invocation metadata changed after snapshot"))
        }
    }

    /// Whether another runtime owns one of the values.
    pub fn first_foreign(&self, values: &Vec<JsValue>) -> (r: bool)
        ensures
            r == (self@.foreign_from(values@, 0) is Some),
    {
        let mut i: usize = 0;
        while i < values.len()
            invariant
                i <= values@.len(),
                self@.foreign_from(values@, 0) == self@.foreign_from(values@, i as int),
            decreases values@.len() - i,
        {
            if self.validate_value_domain(values[i], "value").is_err() {
                return true;
            }
            i = i + 1;
        }
        false
    }

    /// Take one more edge of each value; on failure give them up again.
    fn retain_arguments(&mut self, invocation: NativeInvocation, values: &Vec<JsValue>) -> (r: Result<
        (),
        Error,
    >)
        requires
            old(self).wf(),
        ensures
            final(self).wf(),
            (final(self)@, r) == old(self)@.take_arguments(
                invocation,
                values@,
                NativeArgumentInput::Borrowed,
            ),
    {
        let mut taken: Vec<JsValue> = Vec::new();
        let mut i: usize = 0;
        while i < values.len()
            invariant
                self.wf(),
                i <= values@.len(),
                taken@ == values@.take(i as int),
                self@.retain_from(values@, i as int) == old(self)@.retain_from(values@, 0),
            decreases values@.len() - i,
        {
            let failed = match self.validate_value_domain(values[i], "value") {
                Err(e) => Some(e),
                Ok(_) => match self.dup_jsvalue(values[i]) {
                    Err(e) => Some(e),
                    Ok(_) => None,
                },
            };
            match failed {
                Some(e) => {
                    let _ = self.release_jsvalue(invocation.value());
                    self.release_list(&taken);
                    return Err(e);
                },
                None => {},
            }
            taken.push(values[i]);
            assert(values@.take(i as int).push(values@[i as int]) =~= values@.take(i as int + 1));
            i = i + 1;
        }
        Ok(())
    }

    /// Prepare a native call.  On failure everything owned is given up.
    pub fn prepare_native_arguments(
        &mut self,
        callable: CallableRef,
        realm: usize,
        target: NativeFunctionId,
        min_readable_args: u8,
        invocation: NativeInvocation,
        arguments: Vec<JsValue>,
        input: NativeArgumentInput,
        mode: NativeInvokeMode,
        continuation: bool,
        selected: Option<NativeClassification>,
    ) -> (r: Result<PreparedNativeCall, Error>)
        requires
            old(self).wf(),
        ensures
            final(self).wf(),
            PreparedNativeCall::agrees(
                final(self)@,
                r,
                old(self)@.prepare_native(
                    callable,
                    realm,
                    target,
                    min_readable_args,
                    invocation,
                    arguments@,
                    input,
                    mode,
                    continuation,
                    selected,
                ),
            ),
    {
        match self.validate_native(callable, realm, target, min_readable_args, mode, selected) {
            Ok(_) => {},
            Err(e) => {
                let _ = self.release_jsvalue(invocation.value());
                match input {
                    NativeArgumentInput::Borrowed => {},
                    _ => {
                        self.release_list(&arguments);
                    },
                }
                return Err(e);
            },
        }
        match input {
            NativeArgumentInput::Internal => {},
            NativeArgumentInput::Owned => {
                if self.first_foreign(&arguments) {
                    let _ = self.release_jsvalue(invocation.value());
                    self.release_list(&arguments);
                    return Err(Error::wrong_runtime("value"));
                }
            },
            NativeArgumentInput::Borrowed => {
                self.retain_arguments(invocation, &arguments)?;
            },
        }
        let actual_arg_count: usize = arguments.len();
        let mut readable = arguments;
        let ghost given = readable@;
        let minimum: usize = min_readable_args as usize;
        while readable.len() < minimum
            invariant
                minimum == min_readable_args,
                actual_arg_count == given.len(),
                given.len() <= readable@.len(),
                readable@.len() <= minimum || readable@ == given,
                readable@ == given + Seq::new(
                    (readable@.len() - given.len()) as nat,
                    |i: int| JsValue::Undefined,
                ),
            decreases minimum - readable@.len(),
        {
            readable.push(JsValue::Undefined);
            assert(readable@ =~= given + Seq::new(
                (readable@.len() - given.len()) as nat,
                |i: int| JsValue::Undefined,
            ));
        }
        assert(readable@ =~= Heap::padded(given, min_readable_args as nat));
        let available: usize = readable.len();
        let hidden = mode == NativeInvokeMode::IteratorNextRaw || target.hidden;
        let active_frame = match self.push_native_active_frame(
            callable.object,
            realm,
            target,
            min_readable_args,
            actual_arg_count,
            available,
            continuation,
            hidden,
        ) {
            Ok(active_frame) => active_frame,
            Err(e) => {
                let _ = self.release_jsvalue(invocation.value());
                self.release_list(&readable);
                return Err(e);
            },
        };
        Ok(
            PreparedNativeCall {
                activation: NativeActivation {
                    active_frame,
                    callable,
                    realm,
                    target,
                    mode,
                    arguments: NativeArguments { actual_arg_count, readable },
                },
                invocation,
            },
        )
    }

    /// Prepare a call whose arguments the caller keeps.
    pub fn prepare_native_invocation(
        &mut self,
        callable: CallableRef,
        realm: usize,
        target: NativeFunctionId,
        min_readable_args: u8,
        invocation: NativeInvocation,
        arguments: Vec<JsValue>,
        mode: NativeInvokeMode,
    ) -> (r: Result<PreparedNativeCall, Error>)
        requires
            old(self).wf(),
        ensures
            final(self).wf(),
            PreparedNativeCall::agrees(
                final(self)@,
                r,
                old(self)@.prepare_native(
                    callable,
                    realm,
                    target,
                    min_readable_args,
                    invocation,
                    arguments@,
                    NativeArgumentInput::Borrowed,
                    mode,
                    false,
                    None,
                ),
            ),
    {
        self.prepare_native_arguments(
            callable,
            realm,
            target,
            min_readable_args,
            invocation,
            arguments,
            NativeArgumentInput::Borrowed,
            mode,
            false,
            None,
        )
    }

    /// Prepare a call that takes over checked arguments.
    pub fn prepare_native_invocation_owned(
        &mut self,
        callable: CallableRef,
        realm: usize,
        target: NativeFunctionId,
        min_readable_args: u8,
        invocation: NativeInvocation,
        arguments: Vec<JsValue>,
        mode: NativeInvokeMode,
    ) -> (r: Result<PreparedNativeCall, Error>)
        requires
            old(self).wf(),
        ensures
            final(self).wf(),
            PreparedNativeCall::agrees(
                final(self)@,
                r,
                old(self)@.prepare_native(
                    callable,
                    realm,
                    target,
                    min_readable_args,
                    invocation,
                    arguments@,
                    NativeArgumentInput::Owned,
                    mode,
                    false,
                    None,
                ),
            ),
    {
        self.prepare_native_arguments(
            callable,
            realm,
            target,
            min_readable_args,
            invocation,
            arguments,
            NativeArgumentInput::Owned,
            mode,
            false,
            None,
        )
    }

    /// Prepare a call that takes over internal arguments.
    pub fn prepare_native_invocation_jsvalue(
        &mut self,
        callable: CallableRef,
        realm: usize,
        target: NativeFunctionId,
        min_readable_args: u8,
        invocation: NativeInvocation,
        arguments: Vec<JsValue>,
        mode: NativeInvokeMode,
    ) -> (r: Result<PreparedNativeCall, Error>)
        requires
            old(self).wf(),
        ensures
            final(self).wf(),
            PreparedNativeCall::agrees(
                final(self)@,
                r,
                old(self)@.prepare_native(
                    callable,
                    realm,
                    target,
                    min_readable_args,
                    invocation,
                    arguments@,
                    NativeArgumentInput::Internal,
                    mode,
                    false,
                    None,
                ),
            ),
    {
        self.prepare_native_arguments(
            callable,
            realm,
            target,
            min_readable_args,
            invocation,
            arguments,
            NativeArgumentInput::Internal,
            mode,
            false,
            None,
        )
    }

    /// Prepare a continuation that takes over checked arguments.
    pub fn prepare_native_continuation_owned(
        &mut self,
        callable: CallableRef,
        realm: usize,
        target: NativeFunctionId,
        min_readable_args: u8,
        invocation: NativeInvocation,
        arguments: Vec<JsValue>,
        mode: NativeInvokeMode,
    ) -> (r: Result<PreparedNativeCall, Error>)
        requires
            old(self).wf(),
        ensures
            final(self).wf(),
            PreparedNativeCall::agrees(
                final(self)@,
                r,
                old(self)@.prepare_native(
                    callable,
                    realm,
                    target,
                    min_readable_args,
                    invocation,
                    arguments@,
                    NativeArgumentInput::Owned,
                    mode,
                    true,
                    None,
                ),
            ),
    {
        self.prepare_native_arguments(
            callable,
            realm,
            target,
            min_readable_args,
            invocation,
            arguments,
            NativeArgumentInput::Owned,
            mode,
            true,
            None,
        )
    }

    /// Prepare a continuation of a selected callable.
    pub fn prepare_native_continuation_selected(
        &mut self,
        callable: CallableRef,
        realm: usize,
        target: NativeFunctionId,
        min_readable_args: u8,
        invocation: NativeInvocation,
        arguments: Vec<JsValue>,
        mode: NativeInvokeMode,
        selected: Option<NativeClassification>,
    ) -> (r: Result<PreparedNativeCall, Error>)
        requires
            old(self).wf(),
        ensures
            final(self).wf(),
            PreparedNativeCall::agrees(
                final(self)@,
                r,
                old(self)@.prepare_native(
                    callable,
                    realm,
                    target,
                    min_readable_args,
                    invocation,
                    arguments@,
                    NativeArgumentInput::Internal,
                    mode,
                    true,
                    selected,
                ),
            ),
    {
        self.prepare_native_arguments(
            callable,
            realm,
            target,
            min_readable_args,
            invocation,
            arguments,
            NativeArgumentInput::Internal,
            mode,
            true,
            selected,
        )
    }

    /// Prepare an iterator step, which has no arguments.
    pub fn prepare_array_next_owned(
        &mut self,
        callable: CallableRef,
        realm: usize,
        target: NativeFunctionId,
        min_readable_args: u8,
        receiver: JsValue,
    ) -> (r: Result<PreparedNativeCall, Error>)
        requires
            old(self).wf(),
        ensures
            final(self).wf(),
            PreparedNativeCall::agrees(
                final(self)@,
                r,
                old(self)@.prepare_native(
                    callable,
                    realm,
                    target,
                    min_readable_args,
                    NativeInvocation::Call { this_value: receiver },
                    Seq::empty(),
                    NativeArgumentInput::Internal,
                    NativeInvokeMode::IteratorNextRaw,
                    true,
                    None,
                ),
            ),
    {
        self.prepare_native_continuation_selected(
            callable,
            realm,
            target,
            min_readable_args,
            NativeInvocation::Call { this_value: receiver },
            Vec::new(),
            NativeInvokeMode::IteratorNextRaw,
            None,
        )
    }
}

impl PreparedNativeCall {
    /// A preparation ended as `expected` says.
    pub open spec fn agrees(
        after: Heap,
        r: Result<PreparedNativeCall, Error>,
        expected: (Heap, Result<Prepared, Error>),
    ) -> bool {
        after == expected.0 && match r {
            Ok(prepared) => expected.1 == Ok::<Prepared, Error>(prepared@),
            Err(e) => expected.1 == Err::<Prepared, Error>(e),
        }
    }

    /// Give up the invocation's edge when the call is abandoned.
    pub fn release_invocation(&mut self, runtime: &mut Runtime) -> (r: Result<(), Error>)
        requires
            old(runtime).wf(),
        ensures
            final(runtime).wf(),
            (final(runtime)@, r) == old(runtime)@.release(old(self).invocation.owned()),
            final(self)@ == (Prepared {
                invocation: NativeInvocation::Getter { this_value: JsValue::Undefined },
                ..old(self)@
            }),
    {
        let value = self.invocation.value();
        self.invocation = NativeInvocation::Getter { this_value: JsValue::Undefined };
        runtime.release_jsvalue(value)
    }
}

impl NativeActivation {
    pub fn callable(&self) -> (r: CallableRef)
        ensures
            r == self.callable,
    {
        self.callable
    }

    /// Take this activation off the native stack budget.
    pub fn own_continuation(&self, runtime: &mut Runtime) -> (r: Result<(), Error>)
        requires
            old(runtime).wf(),
        ensures
            final(runtime).wf(),
            (final(runtime)@, r) == old(runtime)@.continued(self.active_frame),
    {
        runtime.mark_native_continuation(self.active_frame)
    }

    /// End the activation with what its body produced.
    pub fn finish(self, runtime: &mut Runtime, result: Result<NativeInvokeOutcome, Error>) -> (r: Result<
        NativeInvokeOutcome,
        Error,
    >)
        requires
            old(runtime).wf(),
        ensures
            final(runtime).wf(),
            (final(runtime)@, r) == old(runtime)@.finish_outcome(self@, result),
    {
        let (result, _) = self.finish_reusing(runtime, result);
        result
    }

    /// Like `finish`, handing back the emptied argument buffer.
    pub fn finish_reusing(self, runtime: &mut Runtime, result: Result<NativeInvokeOutcome, Error>)
        -> (r: (Result<NativeInvokeOutcome, Error>, Vec<JsValue>))
        requires
            old(runtime).wf(),
        ensures
            final(runtime).wf(),
            (final(runtime)@, r.0) == old(runtime)@.finish_outcome(self@, result),
            r.1@.len() == 0,
    {
        match result {
            Ok(outcome) => {
                let (ended, buffer) = self.finish_value(runtime, outcome.value());
                match ended {
                    Ok(_) => (Ok(outcome), buffer),
                    Err(e) => (Err(e), buffer),
                }
            },
            Err(error) => {
                let (ended, buffer) = self.finish_error(runtime, error);
                match ended {
                    Ok(value) => (
                        Ok(NativeInvokeOutcome::Completion(Completion::Throw(value))),
                        buffer,
                    ),
                    Err(e) => (Err(e), buffer),
                }
            },
        }
    }

    /// Like `finish_reusing`, for a body that produced a completion.
    pub fn finish_completion_reusing(
        self,
        runtime: &mut Runtime,
        result: Result<Completion, Error>,
    ) -> (r: (Result<Completion, Error>, Vec<JsValue>))
        requires
            old(runtime).wf(),
        ensures
            final(runtime).wf(),
            (final(runtime)@, r.0) == old(runtime)@.finish_completion(self@, result),
            r.1@.len() == 0,
    {
        match result {
            Ok(completion) => {
                let (ended, buffer) = self.finish_value(runtime, completion.value());
                match ended {
                    Ok(_) => (Ok(completion), buffer),
                    Err(e) => (Err(e), buffer),
                }
            },
            Err(error) => {
                let (ended, buffer) = self.finish_error(runtime, error);
                match ended {
                    Ok(value) => (Ok(Completion::Throw(value)), buffer),
                    Err(e) => (Err(e), buffer),
                }
            },
        }
    }

    /// End the activation; if that fails, give up the produced value too.
    pub fn finish_value(self, runtime: &mut Runtime, value: JsValue) -> (r: (
        Result<(), Error>,
        Vec<JsValue>,
    ))
        requires
            old(runtime).wf(),
        ensures
            final(runtime).wf(),
            (final(runtime)@, r.0) == old(runtime)@.finish_value(self@, value),
            r.1@.len() == 0,
    {
        let ended = runtime.finish_active_frame(self.active_frame);
        match ended {
            Ok(_) => {},
            Err(_) => {
                let _ = runtime.release_jsvalue(value);
            },
        }
        (ended, self.release_arguments_reusing(runtime))
    }

    /// End the activation of a failed body.
    pub fn finish_error(self, runtime: &mut Runtime, error: Error) -> (r: (
        Result<JsValue, Error>,
        Vec<JsValue>,
    ))
        requires
            old(runtime).wf(),
        ensures
            final(runtime).wf(),
            (final(runtime)@, r.0) == old(runtime)@.finish_error(self@, error),
            r.1@.len() == 0,
    {
        let error = match NativeErrorKind::from_javascript_error(error.kind) {
            Some(kind) => match runtime.new_native_error_from_error(self.realm, kind, error) {
                Ok(value) => {
                    let (ended, buffer) = self.finish_value(runtime, value);
                    return match ended {
                        Ok(_) => (Ok(value), buffer),
                        Err(e) => (Err(e), buffer),
                    };
                },
                Err(e) => e,
            },
            None => error,
        };
        let error = match runtime.finish_active_frame(self.active_frame) {
            Ok(_) => error,
            Err(e) => e,
        };
        (Err(error), self.release_arguments_reusing(runtime))
    }

    /// Give up the readable arguments and hand back their buffer.
    pub fn release_arguments_reusing(self, runtime: &mut Runtime) -> (r: Vec<JsValue>)
        requires
            old(runtime).wf(),
        ensures
            final(runtime).wf(),
            final(runtime)@ == old(runtime)@.release_each(self@.readable),
            r@.len() == 0,
    {
        let mut readable = self.arguments.readable;
        runtime.release_list(&readable);
        readable.clear();
        readable
    }

    /// Leave the activation without a result.
    pub fn abandon(self, runtime: &mut Runtime)
        requires
            old(runtime).wf(),
        ensures
            final(runtime).wf(),
            final(runtime)@ == old(runtime)@.release_each(self@.readable).finished(
                self.active_frame,
            ).0,
    {
        runtime.release_list(&self.arguments.readable);
        let _ = runtime.finish_active_frame(self.active_frame);
    }
}

/// Padding keeps every argument in place, adds only `undefined`, and makes
/// exactly the readable number of arguments.
pub proof fn padding_keeps_arguments(values: Seq<JsValue>, minimum: nat)
    ensures
        Heap::padded(values, minimum).len() == if values.len() < minimum {
            minimum
        } else {
            values.len()
        },
        Heap::padded(values, minimum).take(values.len() as int) == values,
        forall|i: int|
            values.len() <= i < Heap::padded(values, minimum).len()
                ==> #[trigger] Heap::padded(values, minimum)[i] is Undefined,
{
    assert(Heap::padded(values, minimum).take(values.len() as int) =~= values);
}

/// A refused preparation registers no activation and issues no token.
pub proof fn refused_preparations_register_nothing(
    heap: Heap,
    callable: CallableRef,
    realm: usize,
    target: NativeFunctionId,
    min_readable_args: u8,
    invocation: NativeInvocation,
    values: Seq<JsValue>,
    input: NativeArgumentInput,
    mode: NativeInvokeMode,
    continuation: bool,
    selected: Option<NativeClassification>,
)
    ensures
        ({
            let (after, r) = heap.prepare_native(
                callable,
                realm,
                target,
                min_readable_args,
                invocation,
                values,
                input,
                mode,
                continuation,
                selected,
            );
            r is Err ==> after.active == heap.active && after.next_token == heap.next_token
        }),
{
    releasing_touches_edges_only(heap.release(invocation.owned()).0, values);
    releasing_touches_edges_only(heap.release(invocation.owned()).0, Seq::empty());
    retaining_touches_edges_only(heap, values, 0);
    let (taken_heap, taken, _) = heap.retain_from(values, 0);
    releasing_touches_edges_only(
        taken_heap.release(invocation.owned()).0,
        values.take(taken),
    );
    let (ready, _) = heap.take_arguments(invocation, values, input);
    releasing_touches_edges_only(
        ready.release(invocation.owned()).0,
        Heap::padded(values, min_readable_args as nat),
    );
}

/// Giving up edges changes the edge journal and nothing else.
pub proof fn releasing_touches_edges_only(heap: Heap, values: Seq<JsValue>)
    ensures
        heap.release_each(values) == (Heap { edges: heap.release_each(values).edges, ..heap }),
    decreases values.len(),
{
    if values.len() > 0 {
        releasing_touches_edges_only(heap.release(values[0]).0, values.drop_first());
    }
}

/// Taking edges changes the edge journal and nothing else.
pub proof fn retaining_touches_edges_only(heap: Heap, values: Seq<JsValue>, from: int)
    ensures
        ({
            let (after, taken, r) = heap.retain_from(values, from);
            after == (Heap { edges: after.edges, ..heap })
        }),
    decreases values.len() - from,
{
    if 0 <= from < values.len() && heap.in_domain(values[from]) {
        let (after, r) = heap.retain(values[from]);
        if r is Ok {
            retaining_touches_edges_only(after, values, from + 1);
        }
    }
}

proof fn events_add(events: Seq<EdgeEvent>, event: EdgeEvent, object: ObjectRef)
    ensures
        Heap::held(events.push(event), object) == Heap::held(events, object) + Heap::event_weight(
            event,
            object,
        ),
{
    assert(events.push(event).drop_last() =~= events);
}

/// Giving up a list of values gives up one edge for each live occurrence.
pub proof fn releasing_gives_up_each_edge(heap: Heap, values: Seq<JsValue>, object: ObjectRef)
    ensures
        Heap::held(heap.release_each(values).edges, object) == Heap::held(heap.edges, object)
            - heap.occurrences(values, object),
    decreases values.len(),
{
    if values.len() > 0 {
        let (after, _) = heap.release(values[0]);
        releasing_gives_up_each_edge(after, values.drop_first(), object);
        match values[0] {
            JsValue::Object(o) => {
                events_add(heap.edges, EdgeEvent::Release(o), object);
            },
            _ => {},
        }
        same_store_same_occurrences(heap, after, values.drop_first(), object);
    }
}

proof fn same_store_same_occurrences(
    left: Heap,
    right: Heap,
    values: Seq<JsValue>,
    object: ObjectRef,
)
    requires
        left.domain == right.domain,
        left.objects == right.objects,
    ensures
        left.occurrences(values, object) == right.occurrences(values, object),
    decreases values.len(),
{
    if values.len() > 0 {
        same_store_same_occurrences(left, right, values.drop_first(), object);
    }
}

proof fn retaining_takes_each_edge(heap: Heap, values: Seq<JsValue>, from: int, object: ObjectRef)
    requires
        0 <= from <= values.len(),
    ensures
        ({
            let (after, taken, _) = heap.retain_from(values, from);
            &&& from <= taken <= values.len()
            &&& Heap::held(after.edges, object) == Heap::held(heap.edges, object)
                + heap.occurrences(values.subrange(from, taken), object)
        }),
    decreases values.len() - from,
{
    let (after, taken, _) = heap.retain_from(values, from);
    if from < values.len() && heap.in_domain(values[from]) {
        let (next, r) = heap.retain(values[from]);
        if r is Ok {
            retaining_takes_each_edge(next, values, from + 1, object);
            let (end, stop, _) = next.retain_from(values, from + 1);
            let whole = values.subrange(from, stop);
            assert(whole[0] == values[from]);
            assert(whole.drop_first() =~= values.subrange(from + 1, stop));
            match values[from] {
                JsValue::Object(o) => {
                    events_add(heap.edges, EdgeEvent::Retain(o), object);
                },
                _ => {},
            }
            same_store_same_occurrences(heap, next, whole.drop_first(), object);
        }
    }
}

proof fn padding_adds_no_edges(heap: Heap, values: Seq<JsValue>, minimum: nat, object: ObjectRef)
    ensures
        heap.occurrences(Heap::padded(values, minimum), object) == heap.occurrences(
            values,
            object,
        ),
    decreases values.len() + minimum,
{
    let padded = Heap::padded(values, minimum);
    if values.len() < minimum {
        if values.len() > 0 {
            padding_adds_no_edges(heap, values.drop_first(), (minimum - 1) as nat, object);
            assert(padded.drop_first() =~= Heap::padded(
                values.drop_first(),
                (minimum - 1) as nat,
            ));
            assert(padded[0] == values[0]);
        } else {
            assert(padded[0] is Undefined);
            padding_adds_no_edges(heap, values, (minimum - 1) as nat, object);
            assert(padded.drop_first() =~= Heap::padded(values, (minimum - 1) as nat));
        }
    }
}

/// A refused preparation gives up exactly the edges that were handed to it:
/// the invocation's, and the arguments' unless the caller keeps them.  Edges
/// that it took itself are given up again.
pub proof fn refused_preparations_give_up_what_they_own(
    heap: Heap,
    callable: CallableRef,
    realm: usize,
    target: NativeFunctionId,
    min_readable_args: u8,
    invocation: NativeInvocation,
    values: Seq<JsValue>,
    input: NativeArgumentInput,
    mode: NativeInvokeMode,
    continuation: bool,
    selected: Option<NativeClassification>,
    object: ObjectRef,
)
    ensures
        ({
            let (after, r) = heap.prepare_native(
                callable,
                realm,
                target,
                min_readable_args,
                invocation,
                values,
                input,
                mode,
                continuation,
                selected,
            );
            r is Err ==> Heap::held(after.edges, object) == Heap::held(heap.edges, object)
                - heap.occurrences(seq![invocation.owned()], object) - (if input is Borrowed {
                0
            } else {
                heap.occurrences(values, object)
            })
        }),
{
    let owned = invocation.owned();
    let single = seq![owned];
    assert(single.drop_first() =~= Seq::empty());
    let (taken_heap, taken, _) = heap.retain_from(values, 0);
    retaining_touches_edges_only(heap, values, 0);
    retaining_takes_each_edge(heap, values, 0, object);
    assert(values.subrange(0, taken) =~= values.take(taken));
    let padded = Heap::padded(values, min_readable_args as nat);
    padding_adds_no_edges(heap, values, min_readable_args as nat, object);
    give_up(heap, owned, values, object);
    give_up(heap, owned, Seq::empty(), object);
    give_up(heap, owned, padded, object);
    give_up(taken_heap, owned, values.take(taken), object);
    give_up(taken_heap, owned, padded, object);
    same_store_same_occurrences(heap, taken_heap, single, object);
    same_store_same_occurrences(heap, taken_heap, values, object);
    same_store_same_occurrences(heap, taken_heap, padded, object);
    same_store_same_occurrences(heap, taken_heap, values.take(taken), object);
    if taken == values.len() {
        assert(values.take(taken) =~= values);
    }
    retained_whole(heap, values, 0);
}

proof fn retained_whole(heap: Heap, values: Seq<JsValue>, from: int)
    requires
        0 <= from <= values.len(),
    ensures
        heap.retain_from(values, from).2 is Ok ==> heap.retain_from(values, from).1 == values.len(),
    decreases values.len() - from,
{
    if from < values.len() {
        retained_whole(heap.retain(values[from]).0, values, from + 1);
    }
}

proof fn give_up(heap: Heap, owned: JsValue, values: Seq<JsValue>, object: ObjectRef)
    ensures
        Heap::held(heap.release(owned).0.release_each(values).edges, object) == Heap::held(
            heap.edges,
            object,
        ) - heap.occurrences(seq![owned], object) - heap.occurrences(values, object),
{
    let single = seq![owned];
    assert(single.drop_first() =~= Seq::<JsValue>::empty());
    let after = heap.release(owned).0;
    releasing_gives_up_each_edge(after, values, object);
    same_store_same_occurrences(heap, after, values, object);
    match owned {
        JsValue::Object(o) => {
            events_add(heap.edges, EdgeEvent::Release(o), object);
        },
        _ => {},
    }
    assert(heap.occurrences(single.drop_first(), object) == 0);
}

/// A program-visible error of a native body is made while the activation of
/// that body still stands: its text starts with the activation's own line, and
/// the activation is gone afterwards.
pub proof fn failing_bodies_are_in_their_backtrace(heap: Heap, activation: Activation, error: Error)
    requires
        NativeErrorKind::visible(error.kind) is Some,
        activation.realm < heap.realms.len(),
        heap.active.len() > 0,
        heap.active.last().token == activation.active_frame.token,
        activation.active_frame.depth == heap.active.len() - 1,
        heap.texts.len() + 2 <= usize::MAX,
        forall|p: int|
            0 <= p < heap.properties.len() ==> (#[trigger] heap.properties[p]).owner
                != heap.next_ref().index,
    ensures
        ({
            let (after, r) = heap.finish_error(activation, error);
            let older = Heap { active: heap.active.drop_last(), ..heap };
            let key = PropertyKey::String(ATOM_STACK);
            &&& r == Ok::<JsValue, Error>(JsValue::Object(heap.next_ref()))
            &&& after.active == heap.active.drop_last()
            &&& after.own_data(heap.next_ref(), key) matches Some(JsValue::String(atom))
                && after.text_at(atom) == heap.stack_line(heap.active.last()) + older.stack_text(
                older.active.len(),
            )
        }),
{
    let kind = NativeErrorKind::visible(error.kind)->Some_0;
    let prototype = heap.realms[activation.realm as int].error_prototype_of(kind);
    crate::backtrace::errors_keep_their_activations(heap, prototype, error);
    crate::backtrace::newest_activations_come_first(heap);
    let made = heap.with_error(prototype, error);
    releasing_touches_edges_only(made.finished(activation.active_frame).0, activation.readable);
}

/// A prepared native call reads its arguments in their order and undefined for
/// the missing ones; its activation record names the callable, the realm and how
/// many arguments there were, and stands on top.
pub proof fn prepared_calls_read_their_arguments(
    heap: Heap,
    callable: CallableRef,
    realm: usize,
    target: NativeFunctionId,
    min_readable_args: u8,
    invocation: NativeInvocation,
    values: Seq<JsValue>,
    input: NativeArgumentInput,
    mode: NativeInvokeMode,
    continuation: bool,
    selected: Option<NativeClassification>,
    prepared: Prepared,
)
    requires
        values.len() <= usize::MAX - 256,
        heap.prepare_native(
            callable,
            realm,
            target,
            min_readable_args,
            invocation,
            values,
            input,
            mode,
            continuation,
            selected,
        ).1 == Ok::<Prepared, Error>(prepared),
    ensures
        ({
            let after = heap.prepare_native(
                callable,
                realm,
                target,
                min_readable_args,
                invocation,
                values,
                input,
                mode,
                continuation,
                selected,
            ).0;
            let readable = prepared.activation.readable;
            let record = after.active.last();
            &&& readable.len() >= min_readable_args
            &&& readable.len() == values.len() || readable.len() == min_readable_args
            &&& forall|i: int| 0 <= i < values.len() ==> readable[i] == values[i]
            &&& forall|i: int| values.len() <= i < readable.len() ==> readable[i] is Undefined
            &&& prepared.activation.actual_arg_count == values.len()
            &&& prepared.activation.callable == callable
            &&& prepared.activation.realm == realm
            &&& prepared.invocation == invocation
            &&& after.active.len() == heap.active.len() + 1
            &&& after.active.drop_last() == heap.active
            &&& record.token == prepared.activation.active_frame.token
            &&& record.function == callable.object
            &&& record.realm == realm
            &&& record.native_continuation == continuation
            &&& record.kind == (crate::frames::active::ActiveFrameKind::Native {
                target,
                actual_arg_count: values.len() as usize,
                readable_arg_count: readable.len() as usize,
            })
            &&& target.hidden ==> record.backtrace_hidden
            &&& record.backtrace_hidden ==> target.hidden || mode is IteratorNextRaw
        }),
{
    retaining_touches_edges_only(heap, values, 0);
    padding_keeps_arguments(values, min_readable_args as nat);
    let after = heap.prepare_native(
        callable,
        realm,
        target,
        min_readable_args,
        invocation,
        values,
        input,
        mode,
        continuation,
        selected,
    ).0;
    assert(after.active.drop_last() =~= heap.active);
}

/// A native body runs in its defining realm unless it asks for that of its
/// caller; one that has no realm yet, another body, another number of readable
/// arguments, and facts that changed since they were read are refused.
pub proof fn native_calls_run_as_they_were_selected(
    heap: Heap,
    callable: CallableRef,
    data: NativeFunctionData,
    realm: usize,
    target: NativeFunctionId,
    min_readable_args: u8,
    mode: NativeInvokeMode,
    selected: Option<NativeClassification>,
)
    requires
        heap.native_data(callable) == Ok::<Option<NativeFunctionData>, Error>(Some(data)),
        realm < heap.realms.len(),
    ensures
        ({
            let ready = heap.native_ready(
                callable,
                realm,
                target,
                min_readable_args,
                mode,
                selected,
            ) is Ok;
            &&& data.realm is None ==> !ready
            &&& data.target != target ==> !ready
            &&& data.min_readable_args != min_readable_args ==> !ready
            &&& data.realm != Some(realm) && !target.uses_calling_realm && !(mode
                is IteratorNextRaw) ==> !ready
            &&& (selected matches Some(selection) && (selection.function != callable.object
                || selection.data != data)) ==> !ready
            &&& selected is None && data.realm == Some(realm) && data.target == target
                && data.min_readable_args == min_readable_args ==> ready
        }),
{
}

/// An ended activation is gone, its arguments are given up, and what its body
/// produced is handed on: values as they are, program-visible errors as thrown
/// objects, and faults as faults.
pub proof fn ended_activations_hand_on_their_result(
    heap: Heap,
    activation: Activation,
    completion: Completion,
    fault: Error,
)
    requires
        heap.active.len() > 0,
        heap.active.last().token == activation.active_frame.token,
        activation.active_frame.depth == heap.active.len() - 1,
        NativeErrorKind::visible(fault.kind) is None,
    ensures
        heap.finish_completion(activation, Ok(completion)) == (
            (Heap { active: heap.active.drop_last(), ..heap }).release_each(activation.readable),
            Ok::<Completion, Error>(completion),
        ),
        heap.finish_outcome(
            activation,
            Ok(NativeInvokeOutcome::Completion(completion)),
        ) == (
            (Heap { active: heap.active.drop_last(), ..heap }).release_each(activation.readable),
            Ok::<NativeInvokeOutcome, Error>(NativeInvokeOutcome::Completion(completion)),
        ),
        heap.finish_completion(activation, Err(fault)) == (
            (Heap { active: heap.active.drop_last(), ..heap }).release_each(activation.readable),
            Err::<Completion, Error>(fault),
        ),
{
}

proof fn first_foreign_values(heap: Heap, values: Seq<JsValue>, from: int)
    requires
        0 <= from,
    ensures
        heap.foreign_from(values, from) is None <==> forall|i: int|
            from <= i < values.len() ==> heap.in_domain(#[trigger] values[i]),
    decreases values.len() - from,
{
    if from < values.len() && heap.in_domain(values[from]) {
        first_foreign_values(heap, values, from + 1);
    }
}

/// A list is foreign if and only if one of its values belongs to another
/// runtime; values that are no objects, symbols or other handles belong to all.
pub proof fn lists_are_as_foreign_as_their_values(heap: Heap, values: Seq<JsValue>)
    ensures
        heap.foreign_from(values, 0) is Some <==> exists|i: int|
            0 <= i < values.len() && !heap.in_domain(#[trigger] values[i]),
{
    first_foreign_values(heap, values, 0);
}

} // verus!
