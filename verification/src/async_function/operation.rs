//! The body of an async function, the resolution of what it awaits and its
//! settlement are separate requests.
use vstd::prelude::*;
use crate::error::Error;
use crate::heap::{AsyncFunctionPhase, AsyncFunctionResumeKind, AsyncFunctionState, Heap, HeapObject, InternalCallableData, ObjectKind, ObjectPayload, PromiseReaction};
use crate::promise::NATIVE_ASYNC_FUNCTION_RESUME;
use crate::runtime::Runtime;
use crate::value::{CallableRef, Completion, JsValue, ObjectRef};

verus! {

#[derive(Clone, Copy, Debug, PartialEq, Eq, Structural)]
pub enum VmSuspendKind {
    Await,
    Yield,
    YieldStar,
}

/// A suspended body that the embedder stores under a number.
#[derive(Clone, Copy, Debug, PartialEq, Eq, Structural)]
pub struct SuspendedActivation {
    pub id: usize,
    pub kind: VmSuspendKind,
}

/// How a run of the body ended.
#[derive(Clone, Copy, Debug, PartialEq, Eq, Structural)]
pub enum VmRunOutcome {
    Complete(Completion),
    Suspend { value: JsValue, activation: SuspendedActivation },
}

/// The next request, or the result.
#[derive(Clone, Copy, Debug)]
pub enum AsyncStep {
    Complete(Completion),
    /// Run the stored body on.
    Run { activation: usize, input: Completion, resume: AsyncResume },
    /// Turn a value into a promise.
    Resolve { value: JsValue, realm: usize, resume: AsyncResume },
    Call { callable: CallableRef, value: JsValue, resume: AsyncResume },
}

#[derive(Clone, Copy, Debug)]
pub struct AsyncResume {
    pub state: ObjectRef,
    pub output: JsValue,
    pub phase: Phase,
    /// Whether dropping the request has to complete the function.
    pub active: bool,
}

#[derive(Clone, Copy, Debug)]
pub enum Phase {
    Body,
    Await(SuspendedActivation),
    Settled,
}

impl Heap {
    /// The record behind an async function.
    pub open spec fn async_state(self, state: ObjectRef) -> Result<AsyncFunctionState, Error> {
        match self.object_at(state) {
            Err(e) => Err(e),
            Ok(data) => match data.payload {
                ObjectPayload::AsyncFunctionState(record) => Ok(record),
                _ => Err(Error::broken("async function state has another payload")),
            },
        }
    }

    pub open spec fn with_async_state(self, state: ObjectRef, record: AsyncFunctionState) -> Heap {
        self.with_object(
            state,
            HeapObject {
                payload: ObjectPayload::AsyncFunctionState(record),
                ..self.objects[state.index as int]
            },
        )
    }

    /// Completing an async function, which gives up its stored body.
    pub open spec fn async_completed(self, state: ObjectRef) -> (Heap, Result<(), Error>) {
        match self.async_state(state) {
            Err(e) => (self, Err(e)),
            Ok(record) => (
                self.with_async_state(
                    state,
                    AsyncFunctionState {
                        phase: AsyncFunctionPhase::Completed,
                        activation: None,
                        ..record
                    },
                ),
                Ok(()),
            ),
        }
    }

    /// Storing the suspended body of an async function.
    pub open spec fn async_suspended(self, state: ObjectRef, activation: usize) -> (
        Heap,
        Result<(), Error>,
    ) {
        match self.async_state(state) {
            Err(e) => (self, Err(e)),
            Ok(record) => (
                self.with_async_state(
                    state,
                    AsyncFunctionState {
                        phase: AsyncFunctionPhase::Suspended,
                        activation: Some(activation),
                        ..record
                    },
                ),
                Ok(()),
            ),
        }
    }

    /// A new async function whose body is about to run.
    pub open spec fn async_started(self, realm: usize) -> (Heap, Result<AsyncResume, Error>) {
        match self.new_capability(realm) {
            (heap, Err(e)) => (heap, Err(e)),
            (heap, Ok(capability)) => (
                heap.allocated(
                    HeapObject {
                        kind: ObjectKind::Other,
                        payload: ObjectPayload::AsyncFunctionState(
                            AsyncFunctionState {
                                phase: AsyncFunctionPhase::Running,
                                driver_realm: realm,
                                outer_resolve: capability.resolve.object,
                                outer_reject: capability.reject.object,
                                activation: None,
                            },
                        ),
                        prototype: None,
                        is_constructor: false,
                        extensible: false,
                    },
                ),
                Ok(
                    AsyncResume {
                        state: heap.next_ref(),
                        output: JsValue::Object(capability.promise),
                        phase: Phase::Body,
                        active: true,
                    },
                ),
            ),
        }
    }
}

impl AsyncResume {
    /// Dropping a request: an unfinished function is completed.
    pub open spec fn dropped(self, heap: Heap) -> Heap {
        if self.active {
            heap.async_completed(self.state).0
        } else {
            heap
        }
    }

    pub open spec fn failed(self, heap: Heap, error: Error) -> (Heap, Result<AsyncStep, Error>) {
        (self.dropped(heap), Err(error))
    }

    pub open spec fn settle_spec(self, heap: Heap, completion: Completion) -> (
        Heap,
        Result<AsyncStep, Error>,
    ) {
        match heap.async_state(self.state) {
            Err(e) => self.failed(heap, e),
            Ok(record) => {
                let (target, value) = match completion {
                    Completion::Return(value) => (record.outer_resolve, value),
                    Completion::Throw(value) => (record.outer_reject, value),
                };
                if record.phase is Completed {
                    self.failed(heap, Error::broken("async function settled more than once"))
                } else {
                    match heap.callable(target) {
                        Err(e) => self.failed(heap, e),
                        Ok(None) => self.failed(
                            heap,
                            Error::broken(
                                "async function outer resolving function is not callable",
                            ),
                        ),
                        Ok(Some(callable)) => (
                            heap.async_completed(self.state).0,
                            Ok(
                                AsyncStep::Call {
                                    callable,
                                    value,
                                    resume: AsyncResume {
                                        active: false,
                                        phase: Phase::Settled,
                                        ..self
                                    },
                                },
                            ),
                        ),
                    }
                }
            },
        }
    }

    pub open spec fn body_spec(self, heap: Heap, outcome: VmRunOutcome) -> (
        Heap,
        Result<AsyncStep, Error>,
    ) {
        if !(self.phase is Body) {
            self.failed(heap, Error::broken("async body replied in the wrong phase"))
        } else {
            match outcome {
                VmRunOutcome::Complete(completion) => self.settle_spec(heap, completion),
                VmRunOutcome::Suspend { value, activation } => if !(activation.kind is Await) {
                    self.failed(
                        heap,
                        Error::broken("async function stopped at a non-await suspension"),
                    )
                } else {
                    match heap.async_state(self.state) {
                        Err(e) => self.failed(heap, e),
                        Ok(record) => (
                            heap,
                            Ok(
                                AsyncStep::Resolve {
                                    value,
                                    realm: record.driver_realm,
                                    resume: AsyncResume { phase: Phase::Await(activation), ..self },
                                },
                            ),
                        ),
                    }
                },
            }
        }
    }

    /// Suspending a function until a promise settles.
    pub open spec fn awaited(self, heap: Heap, activation: SuspendedActivation, promise: ObjectRef) -> (
        Heap,
        Result<AsyncStep, Error>,
    ) {
        let replying = AsyncResume { phase: Phase::Body, ..self };
        match heap.async_state(self.state) {
            Err(e) => replying.failed(heap, e),
            Ok(record) => {
                let realm = record.driver_realm;
                match heap.internal_function(
                    realm,
                    NATIVE_ASYNC_FUNCTION_RESUME,
                    InternalCallableData::AsyncFunctionResume {
                        state: self.state,
                        kind: AsyncFunctionResumeKind::Fulfill,
                    },
                ) {
                    (heap, Err(e)) => replying.failed(heap, e),
                    (heap, Ok(fulfill)) => match heap.internal_function(
                        realm,
                        NATIVE_ASYNC_FUNCTION_RESUME,
                        InternalCallableData::AsyncFunctionResume {
                            state: self.state,
                            kind: AsyncFunctionResumeKind::Reject,
                        },
                    ) {
                        (heap, Err(e)) => replying.failed(heap, e),
                        (heap, Ok(reject)) => match heap.async_suspended(
                            self.state,
                            activation.id,
                        ) {
                            (heap, Err(e)) => replying.failed(heap, e),
                            (heap, Ok(_)) => (
                                heap.with_reaction(
                                    PromiseReaction {
                                        realm,
                                        promise,
                                        fulfilled: Some(fulfill.object),
                                        rejected: Some(reject.object),
                                        derived: None,
                                    },
                                ),
                                Ok(AsyncStep::Complete(Completion::Return(self.output))),
                            ),
                        },
                    },
                }
            },
        }
    }

    pub open spec fn resume_spec(self, heap: Heap, completion: Completion) -> (
        Heap,
        Result<AsyncStep, Error>,
    ) {
        let replying = AsyncResume { phase: Phase::Body, ..self };
        match self.phase {
            Phase::Body => self.body_spec(heap, VmRunOutcome::Complete(completion)),
            Phase::Settled => (
                replying.dropped(heap),
                Ok(AsyncStep::Complete(Completion::Return(self.output))),
            ),
            Phase::Await(activation) => match completion {
                Completion::Throw(_) => replying.settle_spec(heap, completion),
                Completion::Return(JsValue::Object(promise)) => self.awaited(
                    heap,
                    activation,
                    promise,
                ),
                Completion::Return(_) => replying.failed(
                    heap,
                    Error::broken("intrinsic PromiseResolve returned a non-object"),
                ),
            },
        }
    }

    /// Start an async function: its promise is the output of the first run.
    pub fn start(runtime: &mut Runtime, realm: usize) -> (r: Result<Self, Error>)
        requires
            old(runtime).wf(),
        ensures
            final(runtime).wf(),
            (final(runtime)@, r) == old(runtime)@.async_started(realm),
    {
        let capability = runtime.new_default_promise_capability(realm)?;
        let state = runtime.allocate(
            HeapObject {
                kind: ObjectKind::Other,
                payload: ObjectPayload::AsyncFunctionState(
                    AsyncFunctionState {
                        phase: AsyncFunctionPhase::Running,
                        driver_realm: realm,
                        outer_resolve: capability.resolve.object,
                        outer_reject: capability.reject.object,
                        activation: None,
                    },
                ),
                prototype: None,
                is_constructor: false,
                extensible: false,
            },
        );
        Ok(
            AsyncResume {
                state,
                output: JsValue::Object(capability.promise),
                phase: Phase::Body,
                active: true,
            },
        )
    }

    /// Take up a suspended function; nobody waits for its output.
    pub fn resumed(state: ObjectRef) -> (r: Self)
        ensures
            r == (AsyncResume {
                state,
                output: JsValue::Undefined,
                phase: Phase::Body,
                active: true,
            }),
    {
        AsyncResume { state, output: JsValue::Undefined, phase: Phase::Body, active: true }
    }

    /// Drop a request.
    pub fn abandon(self, runtime: &mut Runtime)
        requires
            old(runtime).wf(),
        ensures
            final(runtime).wf(),
            final(runtime)@ == self.dropped(old(runtime)@),
    {
        if self.active {
            let _ = runtime.complete_async_function_state(self.state);
        }
    }

    fn fail(self, runtime: &mut Runtime, error: Error) -> (r: Result<AsyncStep, Error>)
        requires
            old(runtime).wf(),
        ensures
            final(runtime).wf(),
            (final(runtime)@, r) == self.failed(old(runtime)@, error),
    {
        self.abandon(runtime);
        Err(error)
    }

    /// Settle the promise of the function, once.
    pub fn settle(self, runtime: &mut Runtime, completion: Completion) -> (r: Result<
        AsyncStep,
        Error,
    >)
        requires
            old(runtime).wf(),
        ensures
            final(runtime).wf(),
            (final(runtime)@, r) == self.settle_spec(old(runtime)@, completion),
    {
        let record = match runtime.async_function_state(self.state) {
            Ok(record) => record,
            Err(e) => {
                return self.fail(runtime, e);
            },
        };
        let (target, value) = match completion {
            Completion::Return(value) => (record.outer_resolve, value),
            Completion::Throw(value) => (record.outer_reject, value),
        };
        if record.phase == AsyncFunctionPhase::Completed {
            return self.fail(runtime, Error::broken("async function settled more than once"));
        }
        let callable = match runtime.as_callable(target) {
            Ok(Some(callable)) => callable,
            Ok(None) => {
                return self.fail(
                    runtime,
                    Error::broken("async function outer resolving function is not callable"),
                );
            },
            Err(e) => {
                return self.fail(runtime, e);
            },
        };
        let _ = runtime.complete_async_function_state(self.state);
        let mut resume = self;
        resume.active = false;
        resume.phase = Phase::Settled;
        Ok(AsyncStep::Call { callable, value, resume })
    }

    /// Go on after a run of the body.
    pub fn body(self, runtime: &mut Runtime, outcome: VmRunOutcome) -> (r: Result<AsyncStep, Error>)
        requires
            old(runtime).wf(),
        ensures
            final(runtime).wf(),
            (final(runtime)@, r) == self.body_spec(old(runtime)@, outcome),
    {
        if !matches!(self.phase, Phase::Body) {
            return self.fail(runtime, Error::broken("async body replied in the wrong phase"));
        }
        match outcome {
            VmRunOutcome::Complete(completion) => self.settle(runtime, completion),
            VmRunOutcome::Suspend { value, activation } => {
                if activation.kind != VmSuspendKind::Await {
                    return self.fail(
                        runtime,
                        Error::broken("async function stopped at a non-await suspension"),
                    );
                }
                let realm: usize = match runtime.async_function_state(self.state) {
                    Ok(record) => record.driver_realm,
                    Err(e) => {
                        return self.fail(runtime, e);
                    },
                };
                let mut resume = self;
                resume.phase = Phase::Await(activation);
                Ok(AsyncStep::Resolve { value, realm, resume })
            },
        }
    }

    fn suspend(self, runtime: &mut Runtime, activation: SuspendedActivation, promise: ObjectRef) -> (r:
        Result<AsyncStep, Error>)
        requires
            old(runtime).wf(),
        ensures
            final(runtime).wf(),
            (final(runtime)@, r) == self.awaited(old(runtime)@, activation, promise),
    {
        let mut replying = self;
        replying.phase = Phase::Body;
        let realm: usize = match runtime.async_function_state(self.state) {
            Ok(record) => record.driver_realm,
            Err(e) => {
                return replying.fail(runtime, e);
            },
        };
        let fulfill = match runtime.new_internal_promise_function(
            realm,
            NATIVE_ASYNC_FUNCTION_RESUME,
            InternalCallableData::AsyncFunctionResume {
                state: self.state,
                kind: AsyncFunctionResumeKind::Fulfill,
            },
        ) {
            Ok(callable) => callable,
            Err(e) => {
                return replying.fail(runtime, e);
            },
        };
        let reject = match runtime.new_internal_promise_function(
            realm,
            NATIVE_ASYNC_FUNCTION_RESUME,
            InternalCallableData::AsyncFunctionResume {
                state: self.state,
                kind: AsyncFunctionResumeKind::Reject,
            },
        ) {
            Ok(callable) => callable,
            Err(e) => {
                return replying.fail(runtime, e);
            },
        };
        match runtime.store_async_function_activation(self.state, activation.id) {
            Ok(_) => {},
            Err(e) => {
                return replying.fail(runtime, e);
            },
        }
        runtime.perform_promise_then(
            PromiseReaction {
                realm,
                promise,
                fulfilled: Some(fulfill.object),
                rejected: Some(reject.object),
                derived: None,
            },
        );
        self.finish()
    }

    /// Go on after the reply to a request.
    pub fn resume(self, runtime: &mut Runtime, completion: Completion) -> (r: Result<
        AsyncStep,
        Error,
    >)
        requires
            old(runtime).wf(),
        ensures
            final(runtime).wf(),
            (final(runtime)@, r) == self.resume_spec(old(runtime)@, completion),
    {
        let mut replying = self;
        replying.phase = Phase::Body;
        match self.phase {
            Phase::Body => self.body(runtime, VmRunOutcome::Complete(completion)),
            Phase::Settled => {
                replying.abandon(runtime);
                self.finish()
            },
            Phase::Await(activation) => match completion {
                Completion::Throw(_) => replying.settle(runtime, completion),
                Completion::Return(JsValue::Object(promise)) => self.suspend(
                    runtime,
                    activation,
                    promise,
                ),
                Completion::Return(_) => replying.fail(
                    runtime,
                    Error::broken("intrinsic PromiseResolve returned a non-object"),
                ),
            },
        }
    }

    /// The output of a run that ended.
    pub fn finish(self) -> (r: Result<AsyncStep, Error>)
        ensures
            r == Ok::<AsyncStep, Error>(AsyncStep::Complete(Completion::Return(self.output))),
    {
        Ok(AsyncStep::Complete(Completion::Return(self.output)))
    }
}

impl AsyncStep {
    /// Answering a request.
    pub open spec fn answered(self, heap: Heap, outcome: VmRunOutcome) -> (
        Heap,
        Result<AsyncStep, Error>,
    ) {
        match (self, outcome) {
            (AsyncStep::Complete(_), _) => (heap, Ok(self)),
            (AsyncStep::Run { resume, .. }, _) => resume.body_spec(heap, outcome),
            (AsyncStep::Resolve { resume, .. }, VmRunOutcome::Complete(completion)) =>
                resume.resume_spec(heap, completion),
            (AsyncStep::Call { resume, .. }, VmRunOutcome::Complete(completion)) =>
                resume.resume_spec(heap, completion),
            (AsyncStep::Resolve { resume, .. }, _) => resume.failed(
                heap,
                Error::broken("async request got a suspension"),
            ),
            (AsyncStep::Call { resume, .. }, _) => resume.failed(
                heap,
                Error::broken("async request got a suspension"),
            ),
        }
    }

    /// Answering requests in order, as long as there are answers.
    pub open spec fn finished(self, heap: Heap, outcomes: Seq<VmRunOutcome>, from: int) -> (
        Heap,
        Result<AsyncStep, Error>,
    )
        decreases outcomes.len() - from,
    {
        if self is Complete || from < 0 || from >= outcomes.len() {
            (heap, Ok(self))
        } else {
            match self.answered(heap, outcomes[from]) {
                (heap, Err(e)) => (heap, Err(e)),
                (heap, Ok(step)) => step.finished(heap, outcomes, from + 1),
            }
        }
    }

    /// Answer a request.
    pub fn answer(self, runtime: &mut Runtime, outcome: VmRunOutcome) -> (r: Result<AsyncStep, Error>)
        requires
            old(runtime).wf(),
        ensures
            final(runtime).wf(),
            (final(runtime)@, r) == self.answered(old(runtime)@, outcome),
    {
        match (self, outcome) {
            (AsyncStep::Complete(_), _) => Ok(self),
            (AsyncStep::Run { resume, .. }, _) => resume.body(runtime, outcome),
            (AsyncStep::Resolve { resume, .. }, VmRunOutcome::Complete(completion)) => resume.resume(
                runtime,
                completion,
            ),
            (AsyncStep::Call { resume, .. }, VmRunOutcome::Complete(completion)) => resume.resume(
                runtime,
                completion,
            ),
            (AsyncStep::Resolve { resume, .. }, _) => resume.fail(
                runtime,
                Error::broken("async request got a suspension"),
            ),
            (AsyncStep::Call { resume, .. }, _) => resume.fail(
                runtime,
                Error::broken("async request got a suspension"),
            ),
        }
    }

    /// Answer requests in order until the function completes or the answers
    /// are used up.
    pub fn finish(self, runtime: &mut Runtime, outcomes: &Vec<VmRunOutcome>) -> (r: Result<
        AsyncStep,
        Error,
    >)
        requires
            old(runtime).wf(),
        ensures
            final(runtime).wf(),
            (final(runtime)@, r) == self.finished(old(runtime)@, outcomes@, 0),
    {
        let mut step = self;
        let mut i: usize = 0;
        while i < outcomes.len()
            invariant
                runtime.wf(),
                i <= outcomes@.len(),
                step.finished(runtime@, outcomes@, i as int) == self.finished(
                    old(runtime)@,
                    outcomes@,
                    0,
                ),
            decreases outcomes@.len() - i,
        {
            if let AsyncStep::Complete(_) = step {
                return Ok(step);
            }
            step = step.answer(runtime, outcomes[i])?;
            i = i + 1;
        }
        Ok(step)
    }
}

impl Runtime {
    /// The record behind an async function.
    pub fn async_function_state(&self, state: ObjectRef) -> (r: Result<AsyncFunctionState, Error>)
        ensures
            r == self@.async_state(state),
    {
        match self.object(state)?.payload {
            ObjectPayload::AsyncFunctionState(record) => Ok(record),
            _ => Err(Error::broken("async function state has another payload")),
        }
    }

    fn set_async_function_state(&mut self, state: ObjectRef, record: AsyncFunctionState)
        requires
            old(self).wf(),
            state.index < old(self)@.objects.len(),
        ensures
            final(self).wf(),
            final(self)@ == old(self)@.with_async_state(state, record),
    {
        let mut object = self.objects[state.index];
        object.payload = ObjectPayload::AsyncFunctionState(record);
        self.objects.set(state.index, object);
    }

    /// Complete an async function, which gives up its stored body.
    pub fn complete_async_function_state(&mut self, state: ObjectRef) -> (r: Result<(), Error>)
        requires
            old(self).wf(),
        ensures
            final(self).wf(),
            (final(self)@, r) == old(self)@.async_completed(state),
    {
        let mut record = self.async_function_state(state)?;
        record.phase = AsyncFunctionPhase::Completed;
        record.activation = None;
        self.set_async_function_state(state, record);
        Ok(())
    }

    /// Store the suspended body of an async function.
    pub fn store_async_function_activation(&mut self, state: ObjectRef, activation: usize) -> (r:
        Result<(), Error>)
        requires
            old(self).wf(),
        ensures
            final(self).wf(),
            (final(self)@, r) == old(self)@.async_suspended(state, activation),
    {
        let mut record = self.async_function_state(state)?;
        record.phase = AsyncFunctionPhase::Suspended;
        record.activation = Some(activation);
        self.set_async_function_state(state, record);
        Ok(())
    }
}

/// An async function settles its promise at most once, and a settled one never
/// runs on: its stored body is gone.
pub proof fn async_functions_settle_once(
    heap: Heap,
    first: AsyncResume,
    second: AsyncResume,
    completion: Completion,
    again: Completion,
)
    requires
        first.settle_spec(heap, completion).1 is Ok,
        second.state == first.state,
    ensures
        ({
            let after = first.settle_spec(heap, completion).0;
            &&& after.async_state(first.state) matches Ok(record) && record.activation is None
            &&& second.settle_spec(after, again).1 == Err::<AsyncStep, Error>(
                Error::broken("async function settled more than once"),
            )
        }),
{
}

/// Dropping an unfinished request completes the function.
pub proof fn dropped_functions_are_completed(heap: Heap, resume: AsyncResume)
    requires
        resume.active,
        heap.async_state(resume.state) is Ok,
    ensures
        resume.dropped(heap).async_state(resume.state) matches Ok(record) && record.phase
            is Completed,
{
}

/// An await stores the body, registers one reaction and hands the output to
/// whoever ran the body.
pub proof fn awaits_suspend_the_body(
    heap: Heap,
    resume: AsyncResume,
    activation: SuspendedActivation,
    promise: ObjectRef,
)
    requires
        resume.phase == Phase::Await(activation),
        resume.resume_spec(heap, Completion::Return(JsValue::Object(promise))).1 is Ok,
    ensures
        ({
            let (after, r) = resume.resume_spec(
                heap,
                Completion::Return(JsValue::Object(promise)),
            );
            &&& r == Ok::<AsyncStep, Error>(
                AsyncStep::Complete(Completion::Return(resume.output)),
            )
            &&& after.async_state(resume.state) matches Ok(record) && record.phase is Suspended
                && record.activation == Some(activation.id)
            &&& after.reactions.len() == heap.reactions.len() + 1
            &&& after.reactions.last().promise == promise
        }),
{
}

/// A started function runs in its realm and hands out a fresh promise, which
/// its record can resolve and reject.
pub proof fn started_functions_hold_their_promise(heap: Heap, realm: usize)
    requires
        realm < heap.realms.len(),
        heap.objects.len() + 4 <= usize::MAX,
    ensures
        ({
            let (after, r) = heap.async_started(realm);
            &&& r matches Ok(resume) && resume.active && resume.phase is Body && {
                &&& resume.output matches JsValue::Object(promise) && promise.index
                    >= heap.objects.len() && after.objects[promise.index as int].payload is Promise
                    && (after.async_state(resume.state) matches Ok(record) && {
                    &&& record.phase is Running
                    &&& record.driver_realm == realm
                    &&& record.activation is None
                    &&& after.captured(record.outer_resolve) == Ok::<InternalCallableData, Error>(
                        InternalCallableData::PromiseResolve { promise },
                    )
                    &&& after.captured(record.outer_reject) == Ok::<InternalCallableData, Error>(
                        InternalCallableData::PromiseReject { promise },
                    )
                })
            }
        }),
{
    crate::promise::capabilities_settle_their_promise(heap, realm);
}

/// What the body returns resolves the promise and what it throws rejects it,
/// with that very value; so does a value that could not be turned into a
/// promise.  The output comes after the reply, whatever the reply is.
pub proof fn returns_resolve_and_throws_reject(
    heap: Heap,
    resume: AsyncResume,
    record: AsyncFunctionState,
    value: JsValue,
    reply: Completion,
)
    requires
        heap.async_state(resume.state) == Ok::<AsyncFunctionState, Error>(record),
        !(record.phase is Completed),
        heap.callable(record.outer_resolve) == Ok::<Option<CallableRef>, Error>(
            Some(CallableRef { object: record.outer_resolve }),
        ),
        heap.callable(record.outer_reject) == Ok::<Option<CallableRef>, Error>(
            Some(CallableRef { object: record.outer_reject }),
        ),
    ensures
        resume.phase is Body ==> (resume.body_spec(
            heap,
            VmRunOutcome::Complete(Completion::Return(value)),
        ).1 matches Ok(AsyncStep::Call { callable, value: passed, .. }) && callable.object
            == record.outer_resolve && passed == value),
        resume.phase is Body ==> (resume.body_spec(
            heap,
            VmRunOutcome::Complete(Completion::Throw(value)),
        ).1 matches Ok(AsyncStep::Call { callable, value: passed, .. }) && callable.object
            == record.outer_reject && passed == value),
        resume.phase is Await ==> (resume.resume_spec(heap, Completion::Throw(value)).1 matches Ok(
            AsyncStep::Call { callable, value: passed, .. },
        ) && callable.object == record.outer_reject && passed == value),
        resume.phase is Body ==> (resume.body_spec(
            heap,
            VmRunOutcome::Complete(Completion::Return(value)),
        ) matches (after, Ok(AsyncStep::Call { resume: next, .. })) && next.resume_spec(
            after,
            reply,
        ) == (
            after,
            Ok::<AsyncStep, Error>(AsyncStep::Complete(Completion::Return(resume.output))),
        )),
{
}

/// A body that stops at an await asks for the promise of the awaited value in
/// the realm of the function; any other stop is a fault that completes the
/// function.
pub proof fn bodies_stop_only_at_awaits(
    heap: Heap,
    resume: AsyncResume,
    record: AsyncFunctionState,
    value: JsValue,
    activation: SuspendedActivation,
)
    requires
        resume.phase is Body,
        resume.active,
        heap.async_state(resume.state) == Ok::<AsyncFunctionState, Error>(record),
    ensures
        ({
            let (after, r) = resume.body_spec(heap, VmRunOutcome::Suspend { value, activation });
            &&& activation.kind is Await ==> after == heap && (r matches Ok(
                AsyncStep::Resolve { value: awaited, realm, resume: next },
            ) && awaited == value && realm == record.driver_realm && next.phase == Phase::Await(
                activation,
            ) && next.state == resume.state && next.output == resume.output && next.active)
            &&& !(activation.kind is Await) ==> r is Err && (after.async_state(
                resume.state,
            ) matches Ok(left) && left.phase is Completed && left.activation is None)
        }),
{
}

/// The reaction of an await: a fulfilled promise resumes the function with
/// what was fulfilled, and a rejected one with what was rejected.
pub proof fn awaits_react_both_ways(
    heap: Heap,
    resume: AsyncResume,
    record: AsyncFunctionState,
    activation: SuspendedActivation,
    promise: ObjectRef,
)
    requires
        resume.phase == Phase::Await(activation),
        heap.async_state(resume.state) == Ok::<AsyncFunctionState, Error>(record),
        record.driver_realm < heap.realms.len(),
        heap.objects.len() + 2 <= usize::MAX,
    ensures
        ({
            let after = resume.resume_spec(heap, Completion::Return(JsValue::Object(promise))).0;
            let reaction = after.reactions.last();
            &&& after.reactions.drop_last() == heap.reactions
            &&& reaction.realm == record.driver_realm
            &&& reaction.derived is None
            &&& reaction.fulfilled matches Some(function) && function.index >= heap.objects.len()
                && after.captured(function) == Ok::<InternalCallableData, Error>(
                InternalCallableData::AsyncFunctionResume {
                    state: resume.state,
                    kind: AsyncFunctionResumeKind::Fulfill,
                },
            )
            &&& reaction.rejected matches Some(function) && function.index >= heap.objects.len()
                && after.captured(function) == Ok::<InternalCallableData, Error>(
                InternalCallableData::AsyncFunctionResume {
                    state: resume.state,
                    kind: AsyncFunctionResumeKind::Reject,
                },
            )
        }),
{
    let after = resume.resume_spec(heap, Completion::Return(JsValue::Object(promise))).0;
    assert(after.reactions.drop_last() =~= heap.reactions);
}

} // verus!
