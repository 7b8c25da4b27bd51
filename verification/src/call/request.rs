//! Owned, classified bytecode invocation at the driver boundary.  Preparing a
//! frame runs no program code and borrows no caller storage.
use vstd::prelude::*;
use crate::call::CallableExecution;
use crate::error::{Error, ErrorKind, NativeErrorKind};
use crate::frame::{FrameCold, FrameEntry, ReturnTarget};
use crate::heap::{Heap, ObjectPayload};
use crate::runtime::{Runtime, MAX_ARGUMENTS};
use crate::slots::{FrameBinding, FrameStorage};
use crate::value::{CallableRef, JsValue, NativeConversion};

verus! {

/// A call whose callable has been classified.
pub struct BytecodeCallRequest {
    pub callable: CallableRef,
    pub receiver: JsValue,
    pub new_target: JsValue,
    pub arguments: Vec<JsValue>,
    pub bytecode: usize,
    /// Number of cells that the function object holds.
    pub closure_count: usize,
    pub caller_realm: usize,
    pub return_to: ReturnTarget,
}

/// A request as a mathematical value.
#[verifier::ext_equal]
pub struct Request {
    pub callable: CallableRef,
    pub receiver: JsValue,
    pub new_target: JsValue,
    pub arguments: Seq<JsValue>,
    pub bytecode: usize,
    pub closure_count: usize,
    pub caller_realm: usize,
    pub return_to: ReturnTarget,
}

impl View for BytecodeCallRequest {
    type V = Request;

    open spec fn view(&self) -> Request {
        Request {
            callable: self.callable,
            receiver: self.receiver,
            new_target: self.new_target,
            arguments: self.arguments@,
            bytecode: self.bytecode,
            closure_count: self.closure_count,
            caller_realm: self.caller_realm,
            return_to: self.return_to,
        }
    }
}

/// A frame entry as a mathematical value.
#[verifier::ext_equal]
pub struct Entry {
    pub executable: usize,
    pub realm: usize,
    pub cold: FrameCold,
    pub original_arguments: Seq<JsValue>,
    pub parameters: Seq<FrameBinding>,
    pub locals: Seq<FrameBinding>,
}

impl View for FrameEntry {
    type V = Entry;

    open spec fn view(&self) -> Entry {
        Entry {
            executable: self.executable,
            realm: self.realm,
            cold: self.cold,
            original_arguments: self.storage.original_arguments@,
            parameters: self.storage.parameters@,
            locals: self.storage.locals@,
        }
    }
}

impl FrameEntry {
    /// A preparation ended as `expected` says.
    pub open spec fn agrees(
        after: Heap,
        r: Result<FrameEntry, Error>,
        expected: (Heap, Result<Entry, Error>),
    ) -> bool {
        after == expected.0 && match r {
            Ok(entry) => expected.1 == Ok::<Entry, Error>(entry@),
            Err(e) => expected.1 == Err::<Entry, Error>(e),
        }
    }
}

impl FrameCold {
    /// The cold part of a frame that nothing waits for yet.
    pub open spec fn fresh_spec(
        prepared: crate::call::prepare::PreparedFrame,
        function: CallableRef,
        caller_realm: usize,
        return_to: Option<ReturnTarget>,
    ) -> FrameCold {
        FrameCold {
            property_wait: None,
            has_binding_wait: None,
            class_wait: None,
            constructor_wait: None,
            constructor_return: None,
            conversion: None,
            normalized_this: None,
            return_to,
            entry_guard: Some(prepared.active_frame),
            caller_realm,
            active_frame: prepared.active_frame.token,
            function: function.object,
            input: prepared.input,
        }
    }

    pub fn fresh(
        prepared: &crate::call::prepare::PreparedBytecodeFrame,
        function: CallableRef,
        caller_realm: usize,
        return_to: Option<ReturnTarget>,
    ) -> (r: FrameCold)
        ensures
            r == FrameCold::fresh_spec(prepared@, function, caller_realm, return_to),
    {
        FrameCold {
            property_wait: None,
            has_binding_wait: None,
            class_wait: None,
            constructor_wait: None,
            constructor_return: None,
            conversion: None,
            normalized_this: None,
            return_to,
            entry_guard: Some(prepared.active_frame),
            caller_realm,
            active_frame: prepared.active_frame.token,
            function: function.object,
            input: prepared.input,
        }
    }
}

impl Heap {
    /// Giving up everything that a request owns.
    pub open spec fn abandon_request(self, request: Request) -> Heap {
        self.release_each(request.arguments).release(request.new_target).0.release(
            request.receiver,
        ).0
    }

    /// Turning a request into a frame entry.
    pub open spec fn request_entry(self, request: Request) -> (Heap, Result<Entry, Error>) {
        match self.prepare_frame(
            request.callable,
            request.receiver,
            request.new_target,
            request.arguments,
            request.bytecode,
        ) {
            (heap, Err(e)) => (heap.abandon_request(request), Err(e)),
            (heap, Ok(prepared)) => match heap.function_at(request.bytecode) {
                Err(e) => (heap, Err(e)),
                Ok(function) => if request.closure_count == function.metadata.closure_count {
                    (
                        heap,
                        Ok(
                            Entry {
                                executable: prepared.executable,
                                realm: prepared.realm,
                                cold: FrameCold::fresh_spec(
                                    prepared,
                                    request.callable,
                                    request.caller_realm,
                                    Some(request.return_to),
                                ),
                                original_arguments: request.arguments,
                                parameters: prepared.arguments,
                                locals: prepared.locals,
                            },
                        ),
                    )
                } else {
                    (
                        heap.finished(prepared.active_frame).0.abandon_request(request),
                        Err(
                            Error::internal(
                                "function object closure slot count does not match bytecode metadata",
                            ),
                        ),
                    )
                },
            },
        }
    }
}

impl BytecodeCallRequest {
    /// Give up the edges of a request that is abandoned before `prepare`.  The
    /// first stale handle is reported after all others were given up.
    pub fn release_owned_values(&mut self, runtime: &mut Runtime) -> (r: Result<(), Error>)
        requires
            old(runtime).wf(),
        ensures
            final(runtime).wf(),
            final(runtime)@ == old(runtime)@.abandon_request(old(self)@),
            final(self)@ == (Request {
                receiver: JsValue::Undefined,
                new_target: JsValue::Undefined,
                arguments: Seq::empty(),
                ..old(self)@
            }),
            r is Err <==> exists|i: int|
                0 <= i < old(self)@.owned().len() && old(runtime)@.stale_value(
                    #[trigger] old(self)@.owned()[i],
                ),
            r matches Err(e) ==> e == Error::stale(),
    {
        let new_target = self.new_target;
        let receiver = self.receiver;
        let mut owned: Vec<JsValue> = Vec::new();
        owned.append(&mut self.arguments);
        self.new_target = JsValue::Undefined;
        self.receiver = JsValue::Undefined;
        let ghost before = runtime@;
        let ghost arguments = owned@;
        runtime.release_list(&owned);
        let _ = runtime.release_jsvalue(new_target);
        let _ = runtime.release_jsvalue(receiver);
        owned.push(new_target);
        owned.push(receiver);
        assert(owned@ =~= old(self)@.owned());
        let mut i: usize = 0;
        let mut stale = false;
        proof {
            crate::call::native::releasing_touches_edges_only(before, arguments);
        }
        while i < owned.len()
            invariant
                i <= owned@.len(),
                runtime@.domain == before.domain,
                runtime@.objects == before.objects,
                stale <==> exists|j: int|
                    0 <= j < i && before.stale_value(#[trigger] owned@[j]),
            decreases owned@.len() - i,
        {
            if runtime.holds_stale(owned[i]) {
                stale = true;
                assert(before.stale_value(owned@[i as int]));
            }
            i = i + 1;
        }
        if stale {
            Err(Error::stale())
        } else {
            Ok(())
        }
    }

    /// Turn the request into a frame entry.  On failure everything it owns is
    /// given up and no activation stays registered.
    pub fn prepare(self, runtime: &mut Runtime) -> (r: Result<FrameEntry, Error>)
        requires
            old(runtime).wf(),
        ensures
            final(runtime).wf(),
            FrameEntry::agrees(final(runtime)@, r, old(runtime)@.request_entry(self@)),
    {
        let prepared = match runtime.prepare_bytecode_frame(
            self.callable,
            self.receiver,
            self.new_target,
            &self.arguments,
            self.bytecode,
        ) {
            Ok(prepared) => prepared,
            Err(e) => {
                runtime.release_list(&self.arguments);
                let _ = runtime.release_jsvalue(self.new_target);
                let _ = runtime.release_jsvalue(self.receiver);
                return Err(e);
            },
        };
        let expected: usize = runtime.function_bytecode(self.bytecode)?.metadata.closure_count
            as usize;
        if self.closure_count != expected {
            let _ = runtime.finish_active_frame(prepared.active_frame);
            runtime.release_list(&self.arguments);
            let _ = runtime.release_jsvalue(self.new_target);
            let _ = runtime.release_jsvalue(self.receiver);
            return Err(
                Error::internal(
                    "function object closure slot count does not match bytecode metadata",
                ),
            );
        }
        let cold = FrameCold::fresh(
            &prepared,
            self.callable,
            self.caller_realm,
            Some(self.return_to),
        );
        Ok(
            FrameEntry {
                executable: prepared.executable,
                realm: prepared.realm,
                cold,
                storage: FrameStorage {
                    original_arguments: self.arguments,
                    parameters: prepared.arguments,
                    locals: prepared.locals,
                },
            },
        )
    }
}

impl Request {
    /// What the request owns, in the order in which it is given up.
    pub open spec fn owned(self) -> Seq<JsValue> {
        self.arguments.push(self.new_target).push(self.receiver)
    }
}

impl Heap {
    pub open spec fn stale_value(self, value: JsValue) -> bool {
        value matches JsValue::Object(object) && !self.live(object)
    }
}

impl Runtime {
    fn holds_stale(&self, value: JsValue) -> (r: bool)
        ensures
            r == self@.stale_value(value),
    {
        match value {
            JsValue::Object(object) => !(object.domain == self.domain && object.index
                < self.objects.len()),
            _ => false,
        }
    }
}

/// A callback whose bound wrappers have been unwound.
pub struct NormalizedCallback {
    pub callable: CallableRef,
    pub receiver: JsValue,
    pub arguments: Vec<JsValue>,
    pub classification: CallableExecution,
}

/// A normalized callback as a mathematical value.
#[verifier::ext_equal]
pub struct Callback {
    pub callable: CallableRef,
    pub receiver: JsValue,
    pub arguments: Seq<JsValue>,
    pub classification: CallableExecution,
}

impl View for NormalizedCallback {
    type V = Callback;

    open spec fn view(&self) -> Callback {
        Callback {
            callable: self.callable,
            receiver: self.receiver,
            arguments: self.arguments@,
            classification: self.classification,
        }
    }
}

impl NormalizedCallback {
    /// A normalization ended as `expected` says.
    pub open spec fn agrees(
        after: Heap,
        r: Result<NativeConversion<NormalizedCallback>, Error>,
        expected: (Heap, Result<NativeConversion<Callback>, Error>),
    ) -> bool {
        after == expected.0 && match r {
            Ok(NativeConversion::Value(callback)) => expected.1 == Ok::<
                NativeConversion<Callback>,
                Error,
            >(NativeConversion::Value(callback@)),
            Ok(NativeConversion::Throw(value)) => expected.1 == Ok::<
                NativeConversion<Callback>,
                Error,
            >(NativeConversion::Throw(value)),
            Err(e) => expected.1 == Err::<NativeConversion<Callback>, Error>(e),
        }
    }
}

impl Heap {
    /// Unwinding a bound chain of at most `fuel` wrappers.  The innermost
    /// wrapper gives the receiver and its arguments come first.
    pub open spec fn normalize(
        self,
        realm: usize,
        callable: CallableRef,
        receiver: JsValue,
        arguments: Seq<JsValue>,
        fuel: nat,
    ) -> (Heap, Result<NativeConversion<Callback>, Error>)
        decreases fuel,
    {
        match self.classify(callable) {
            (heap, Err(e)) => (heap.release(receiver).0.release_each(arguments), Err(e)),
            (heap, Ok(CallableExecution::Bound { target, this_value, start, count })) => {
                match heap.release(receiver) {
                    (heap, Err(e)) => (
                        heap.release(this_value).0.release_each(arguments),
                        Err(e),
                    ),
                    (heap, Ok(_)) => match heap.concatenated(
                        realm,
                        heap.bound_list(start, count),
                        arguments,
                    ) {
                        (heap, Err(e)) => (heap.release(this_value).0, Err(e)),
                        (heap, Ok(NativeConversion::Throw(value))) => (
                            heap.release(this_value).0,
                            Ok(NativeConversion::Throw(value)),
                        ),
                        (heap, Ok(NativeConversion::Value(merged))) => if fuel == 0 {
                            (
                                heap.release(this_value).0.release_each(merged),
                                Err(Error::broken("bound function chain is cyclic")),
                            )
                        } else {
                            heap.normalize(realm, target, this_value, merged, (fuel - 1) as nat)
                        },
                    },
                }
            },
            (heap, Ok(classification)) => (
                heap,
                Ok(
                    NativeConversion::Value(
                        Callback { callable, receiver, arguments, classification },
                    ),
                ),
            ),
        }
    }
}

/// Unwind the bound wrappers of a callback without running any code.
#[verifier::loop_isolation(false)]
pub fn normalize_callback(
    runtime: &mut Runtime,
    realm: usize,
    callable: CallableRef,
    receiver: JsValue,
    arguments: Vec<JsValue>,
) -> (r: Result<NativeConversion<NormalizedCallback>, Error>)
    requires
        old(runtime).wf(),
    ensures
        final(runtime).wf(),
        NormalizedCallback::agrees(
            final(runtime)@,
            r,
            old(runtime)@.normalize(
                realm,
                callable,
                receiver,
                arguments@,
                old(runtime)@.objects.len(),
            ),
        ),
{
    let mut callable = callable;
    let mut receiver = receiver;
    let mut arguments = arguments;
    let mut fuel: usize = runtime.objects.len();
    let ghost expected = runtime@.normalize(
        realm,
        callable,
        receiver,
        arguments@,
        runtime@.objects.len(),
    );
    loop
        invariant
            runtime.wf(),
            expected == runtime@.normalize(realm, callable, receiver, arguments@, fuel as nat),
        decreases fuel,
    {
        let classification = match runtime.bytecode_for_callable(callable) {
            Ok(classification) => classification,
            Err(e) => {
                let _ = runtime.release_jsvalue(receiver);
                runtime.release_list(&arguments);
                return Err(e);
            },
        };
        match classification {
            CallableExecution::Bound { target, this_value, start, count } => {
                match runtime.release_jsvalue(receiver) {
                    Ok(_) => {},
                    Err(e) => {
                        let _ = runtime.release_jsvalue(this_value);
                        runtime.release_list(&arguments);
                        return Err(e);
                    },
                }
                let bound = runtime.bound_arguments(start, count);
                match runtime.concatenate_bound_arguments_jsvalue(realm, bound, arguments) {
                    Ok(NativeConversion::Value(merged)) => {
                        arguments = merged;
                    },
                    Ok(NativeConversion::Throw(value)) => {
                        let _ = runtime.release_jsvalue(this_value);
                        return Ok(NativeConversion::Throw(value));
                    },
                    Err(e) => {
                        let _ = runtime.release_jsvalue(this_value);
                        return Err(e);
                    },
                }
                if fuel == 0 {
                    let _ = runtime.release_jsvalue(this_value);
                    runtime.release_list(&arguments);
                    return Err(Error::broken("bound function chain is cyclic"));
                }
                fuel = fuel - 1;
                receiver = this_value;
                callable = target;
            },
            _ => {
                return Ok(
                    NativeConversion::Value(
                        NormalizedCallback { callable, receiver, arguments, classification },
                    ),
                );
            },
        }
    }
}

impl Heap {
    /// How a callable runs, without taking any edge.
    pub open spec fn classification(self, callable: CallableRef) -> Result<CallableExecution, Error> {
        if !self.belongs(callable.object) {
            Err(Error::wrong_runtime("callable"))
        } else {
            match self.object_at(callable.object) {
                Err(e) => Err(e),
                Ok(object) => match object.payload {
                    ObjectPayload::BoundFunction { target, this_value, start, count } => Ok(
                        CallableExecution::Bound {
                            target: CallableRef { object: target },
                            this_value,
                            start,
                            count,
                        },
                    ),
                    _ => self.classify(callable).1,
                },
            }
        }
    }

    /// Unwinding a bound chain whose operands stay where they are.
    pub open spec fn bound_call(
        self,
        realm: usize,
        callable: CallableRef,
        receiver: JsValue,
        arguments: Seq<JsValue>,
        fuel: nat,
    ) -> (Heap, Result<NativeConversion<Callback>, Error>)
        decreases fuel,
    {
        match self.classification(callable) {
            Err(e) => (self, Err(e)),
            Ok(CallableExecution::Bound { target, this_value, start, count }) => {
                let bound = self.bound_list(start, count);
                if bound.len() + arguments.len() > MAX_ARGUMENTS {
                    match self.native_error(
                        realm,
                        NativeErrorKind::Range,
                        Error::new(ErrorKind::Range, "too many arguments"),
                    ) {
                        (heap, Ok(value)) => (heap, Ok(NativeConversion::Throw(value))),
                        (heap, Err(e)) => (heap, Err(e)),
                    }
                } else if fuel == 0 {
                    (self, Err(Error::broken("bound function chain is cyclic")))
                } else {
                    self.bound_call(
                        realm,
                        target,
                        this_value,
                        bound + arguments,
                        (fuel - 1) as nat,
                    )
                }
            },
            Ok(classification) => (
                self,
                Ok(
                    NativeConversion::Value(
                        Callback { callable, receiver, arguments, classification },
                    ),
                ),
            ),
        }
    }
}

impl Runtime {
    /// How a callable runs, without taking any edge.
    pub fn classification(&self, callable: CallableRef) -> (r: Result<CallableExecution, Error>)
        ensures
            r == self@.classification(callable),
    {
        if callable.object.domain != self.domain_id() {
            return Err(Error::wrong_runtime("callable"));
        }
        let object = self.object(callable.object)?;
        match object.payload {
            ObjectPayload::NativeFunction(data) => match data.realm {
                None => Err(
                    Error::broken(
                        "native function was called before its defining realm was attached",
                    ),
                ),
                Some(realm) => {
                    let _ = self.realm(realm)?;
                    Ok(
                        CallableExecution::Native {
                            target: data.target,
                            realm,
                            min_readable_args: data.min_readable_args,
                        },
                    )
                },
            },
            ObjectPayload::BoundFunction { target, this_value, start, count } => Ok(
                CallableExecution::Bound {
                    target: CallableRef { object: target },
                    this_value,
                    start,
                    count,
                },
            ),
            ObjectPayload::BytecodeFunction(data) => Ok(
                CallableExecution::Bytecode {
                    bytecode: data.bytecode,
                    start: data.start,
                    count: data.count,
                },
            ),
            ObjectPayload::Proxy { is_callable, .. } => {
                if is_callable {
                    Ok(CallableExecution::Proxy)
                } else {
                    Err(Error::new(ErrorKind::Type, "not a function"))
                }
            },
            _ => Err(Error::new(ErrorKind::Type, "not a function")),
        }
    }

    /// Unwind the bound wrappers of a call whose operands stay in place.
    #[verifier::loop_isolation(false)]
    pub fn unwind_bound(
        &mut self,
        realm: usize,
        callable: CallableRef,
        receiver: JsValue,
        arguments: Vec<JsValue>,
    ) -> (r: Result<NativeConversion<NormalizedCallback>, Error>)
        requires
            old(self).wf(),
        ensures
            final(self).wf(),
            NormalizedCallback::agrees(
                final(self)@,
                r,
                old(self)@.bound_call(
                    realm,
                    callable,
                    receiver,
                    arguments@,
                    old(self)@.objects.len(),
                ),
            ),
    {
        let mut callable = callable;
        let mut receiver = receiver;
        let mut arguments = arguments;
        let mut fuel: usize = self.objects.len();
        let ghost expected = self@.bound_call(
            realm,
            callable,
            receiver,
            arguments@,
            self@.objects.len(),
        );
        loop
            invariant
                self.wf(),
                self@ == old(self)@,
                expected == self@.bound_call(realm, callable, receiver, arguments@, fuel as nat),
            decreases fuel,
        {
            let classification = self.classification(callable)?;
            match classification {
                CallableExecution::Bound { target, this_value, start, count } => {
                    let mut bound = self.bound_arguments(start, count);
                    if bound.len() > MAX_ARGUMENTS || arguments.len() > MAX_ARGUMENTS - bound.len() {
                        let value = self.new_native_error_from_error(
                            realm,
                            NativeErrorKind::Range,
                            Error::new(ErrorKind::Range, "too many arguments"),
                        )?;
                        return Ok(NativeConversion::Throw(value));
                    }
                    if fuel == 0 {
                        return Err(Error::broken("bound function chain is cyclic"));
                    }
                    bound.append(&mut arguments);
                    arguments = bound;
                    fuel = fuel - 1;
                    receiver = this_value;
                    callable = target;
                },
                _ => {
                    return Ok(
                        NativeConversion::Value(
                            NormalizedCallback { callable, receiver, arguments, classification },
                        ),
                    );
                },
            }
        }
    }
}

/// A bound function is called by calling what it wraps: with the receiver that
/// was bound, whatever the call named, and with the bound arguments before
/// those of the call.
pub proof fn bound_functions_call_what_they_wrap(
    heap: Heap,
    realm: usize,
    callable: CallableRef,
    receiver: JsValue,
    arguments: Seq<JsValue>,
    fuel: nat,
    target: crate::value::ObjectRef,
    this_value: JsValue,
    start: usize,
    count: usize,
    list: Seq<JsValue>,
)
    requires
        callable.object.domain == heap.domain,
        callable.object.index < heap.objects.len(),
        heap.objects[callable.object.index as int].payload == (ObjectPayload::BoundFunction {
            target,
            this_value,
            start,
            count,
        }),
        start + count <= heap.bound_values.len(),
        count + arguments.len() <= MAX_ARGUMENTS,
        list.len() == count + arguments.len(),
        forall|i: int| 0 <= i < count ==> #[trigger] list[i] == heap.bound_values[start + i],
        forall|i: int| 0 <= i < arguments.len() ==> list[count + i] == #[trigger] arguments[i],
    ensures
        heap.bound_call(realm, callable, receiver, arguments, fuel + 1) == heap.bound_call(
            realm,
            CallableRef { object: target },
            this_value,
            list,
            fuel,
        ),
        heap.normalize(realm, callable, receiver, arguments, fuel + 1).1 matches Ok(_) ==> exists|
            after: Heap,
        |
            {
                &&& after.objects == heap.objects
                &&& after.bound_values == heap.bound_values
                &&& after.properties == heap.properties
                &&& heap.normalize(realm, callable, receiver, arguments, fuel + 1)
                    == #[trigger] after.normalize(
                    realm,
                    CallableRef { object: target },
                    this_value,
                    list,
                    fuel,
                )
            },
{
    assert(heap.bound_list(start, count) + arguments =~= list) by {
        assert forall|i: int| 0 <= i < list.len() implies #[trigger] list[i] == (heap.bound_list(
            start,
            count,
        ) + arguments)[i] by {
            if i >= count {
                assert(list[count + (i - count)] == arguments[i - count]);
            }
        }
    }
    crate::call::classifying_touches_edges_only(heap, callable);
    let (classified, r) = heap.classify(callable);
    let (released, ok) = classified.release(receiver);
    if heap.normalize(realm, callable, receiver, arguments, fuel + 1).1 is Ok {
        assert(released.bound_list(start, count) == heap.bound_list(start, count));
        assert(heap.normalize(realm, callable, receiver, arguments, fuel + 1) == released.normalize(
            realm,
            CallableRef { object: target },
            this_value,
            list,
            fuel,
        ));
    }
}

/// A function that is not bound is called as the call says.
pub proof fn other_functions_are_called_as_named(
    heap: Heap,
    realm: usize,
    callable: CallableRef,
    receiver: JsValue,
    arguments: Seq<JsValue>,
    fuel: nat,
)
    requires
        callable.object.domain == heap.domain,
        callable.object.index < heap.objects.len(),
        heap.objects[callable.object.index as int].payload is BytecodeFunction || (
        heap.objects[callable.object.index as int].payload matches ObjectPayload::NativeFunction(
            data,
        ) && (data.realm matches Some(home) && home < heap.realms.len())) || (
        heap.objects[callable.object.index as int].payload matches ObjectPayload::Proxy {
            is_callable,
            ..
        } && is_callable),
    ensures
        heap.bound_call(realm, callable, receiver, arguments, fuel).1 matches Ok(
            NativeConversion::Value(callback),
        ) && callback.callable == callable && callback.receiver == receiver && callback.arguments
            == arguments,
        heap.normalize(realm, callable, receiver, arguments, fuel).1 matches Ok(
            NativeConversion::Value(callback),
        ) && callback.callable == callable && callback.receiver == receiver && callback.arguments
            == arguments,
        heap.bound_call(realm, callable, receiver, arguments, fuel).0 == heap,
        heap.normalize(realm, callable, receiver, arguments, fuel).0 == heap,
{
}

/// A prepared call runs the code that it names in the realm of that code, knows
/// its function, receiver and new-target, and answers the one who asked.
pub proof fn requests_become_their_frame(heap: Heap, request: Request)
    ensures
        heap.request_entry(request).1 matches Ok(entry) ==> {
            &&& request.bytecode < heap.code.len()
            &&& entry.executable == request.bytecode
            &&& entry.realm == heap.code[request.bytecode as int].realm
            &&& entry.cold.function == request.callable.object
            &&& entry.cold.input.this_value == request.receiver
            &&& entry.cold.input.new_target == request.new_target
            &&& entry.cold.input.callee_global == heap.realms[entry.realm as int].global_object
            &&& entry.cold.caller_realm == request.caller_realm
            &&& entry.cold.return_to == Some(request.return_to)
            &&& entry.original_arguments == request.arguments
            &&& entry.cold.normalized_this is None
            &&& entry.cold.constructor_return is None
        },
{
}

} // verus!
