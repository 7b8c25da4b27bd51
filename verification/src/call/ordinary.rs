//! Authenticated direct ordinary calls.
use vstd::prelude::*;
use crate::call::request::Entry;
use crate::code::FunctionKind;
use crate::driver::push_frame;
use crate::error::Error;
use crate::execution::{Machine, RunningExecution};
use crate::frame::{FrameCold, FrameEntry, FrameId, ReturnTarget, ReturnValue};
use crate::frames::active::NativeFunctionId;
use crate::heap::{Heap, ObjectPayload};
use crate::runtime::{ActiveFrameGuard, Runtime};
use crate::slots::FrameStorage;
use crate::value::{CallableRef, JsValue, ObjectRef};

verus! {

/// A function whose payload and code have been seen to agree.
#[derive(Clone, Copy, Debug, PartialEq, Eq, Structural)]
pub struct OrdinaryCall {
    function: ObjectRef,
    executable: usize,
}

/// A function selected for a direct call.  Selection reads metadata only.
#[derive(Clone, Copy, Debug, PartialEq, Eq, Structural)]
pub struct OrdinarySelection {
    function: ObjectRef,
    bytecode: usize,
}

/// A native function selected for a direct call.
#[derive(Clone, Copy, Debug, PartialEq, Eq, Structural)]
pub struct NativeSelection {
    function: ObjectRef,
    target: NativeFunctionId,
    defining_realm: usize,
    min_readable_args: u8,
}

#[derive(Clone, Copy, Debug, PartialEq, Eq, Structural)]
pub enum DirectSelection {
    Ordinary(OrdinarySelection),
    Native(NativeSelection),
    General,
}

impl OrdinarySelection {
    pub closed spec fn of(function: ObjectRef, bytecode: usize) -> OrdinarySelection {
        OrdinarySelection { function, bytecode }
    }
}

impl NativeSelection {
    pub closed spec fn of(
        function: ObjectRef,
        target: NativeFunctionId,
        defining_realm: usize,
        min_readable_args: u8,
    ) -> NativeSelection {
        NativeSelection { function, target, defining_realm, min_readable_args }
    }

    pub closed spec fn parts(self) -> (ObjectRef, NativeFunctionId, usize, u8) {
        (self.function, self.target, self.defining_realm, self.min_readable_args)
    }

    pub fn into_parts(self) -> (r: (ObjectRef, NativeFunctionId, usize, u8))
        ensures
            r == self.parts(),
    {
        (self.function, self.target, self.defining_realm, self.min_readable_args)
    }
}

impl Heap {
    /// Which direct call a callee allows.
    pub open spec fn direct_selection(self, value: JsValue) -> Result<DirectSelection, Error> {
        match value {
            JsValue::Object(function) => if !self.belongs(function) {
                Ok(DirectSelection::General)
            } else {
                match self.object_at(function) {
                    Err(e) => Err(e),
                    Ok(object) => match object.payload {
                        ObjectPayload::NativeFunction(data) => if !data.target.registered {
                            Ok(DirectSelection::General)
                        } else {
                            match data.realm {
                                None => Err(
                                    Error::broken(
                                        "native function was called before its defining realm was attached",
                                    ),
                                ),
                                Some(realm) => match self.realm_at(realm) {
                                    Err(e) => Err(e),
                                    Ok(_) => Ok(
                                        DirectSelection::Native(
                                            NativeSelection::of(
                                                function,
                                                data.target,
                                                realm,
                                                data.min_readable_args,
                                            ),
                                        ),
                                    ),
                                },
                            }
                        },
                        ObjectPayload::BytecodeFunction(data) => match self.function_at(
                            data.bytecode,
                        ) {
                            Err(e) => Err(e),
                            Ok(code) => if !(code.metadata.function_kind is Normal) {
                                Ok(DirectSelection::General)
                            } else if data.count != code.metadata.closure_count {
                                Err(
                                    Error::broken(
                                        "function object closure slot count does not match bytecode metadata",
                                    ),
                                )
                            } else {
                                Ok(
                                    DirectSelection::Ordinary(
                                        OrdinarySelection::of(function, data.bytecode),
                                    ),
                                )
                            },
                        },
                        _ => Ok(DirectSelection::General),
                    },
                }
            },
            _ => Ok(DirectSelection::General),
        }
    }
}

impl DirectSelection {
    /// One payload inspection for ordinary, native and general callees.
    pub fn select(runtime: &Runtime, value: JsValue) -> (r: Result<Self, Error>)
        ensures
            r == runtime@.direct_selection(value),
    {
        let function = match value {
            JsValue::Object(function) => function,
            _ => {
                return Ok(DirectSelection::General);
            },
        };
        if function.domain != runtime.domain_id() {
            return Ok(DirectSelection::General);
        }
        let object = runtime.object(function)?;
        match object.payload {
            ObjectPayload::NativeFunction(data) => {
                if !data.target.registered {
                    return Ok(DirectSelection::General);
                }
                match data.realm {
                    None => Err(
                        Error::broken(
                            "native function was called before its defining realm was attached",
                        ),
                    ),
                    Some(defining_realm) => {
                        let _ = runtime.realm(defining_realm)?;
                        Ok(
                            DirectSelection::Native(
                                NativeSelection {
                                    function,
                                    target: data.target,
                                    defining_realm,
                                    min_readable_args: data.min_readable_args,
                                },
                            ),
                        )
                    },
                }
            },
            ObjectPayload::BytecodeFunction(data) => {
                let metadata = runtime.function_bytecode(data.bytecode)?.metadata;
                if metadata.function_kind != FunctionKind::Normal {
                    return Ok(DirectSelection::General);
                }
                if data.count != metadata.closure_count as usize {
                    return Err(
                        Error::broken(
                            "function object closure slot count does not match bytecode metadata",
                        ),
                    );
                }
                Ok(
                    DirectSelection::Ordinary(
                        OrdinarySelection { function, bytecode: data.bytecode },
                    ),
                )
            },
            _ => Ok(DirectSelection::General),
        }
    }
}

impl OrdinarySelection {
    pub closed spec fn authenticated(self, heap: Heap) -> Result<OrdinaryCall, Error> {
        match heap.function_at(self.bytecode) {
            Err(e) => Err(e),
            Ok(_) => Ok(OrdinaryCall { function: self.function, executable: self.bytecode }),
        }
    }

    /// Turn a selection into a call.
    pub fn authenticate(self, runtime: &Runtime) -> (r: Result<OrdinaryCall, Error>)
        ensures
            r == self.authenticated(runtime@),
    {
        let _ = runtime.function_bytecode(self.bytecode)?;
        Ok(OrdinaryCall { function: self.function, executable: self.bytecode })
    }
}

impl Machine {
    /// Installing an authenticated call over its operands.
    pub open spec fn install_ordinary(
        self,
        heap: Heap,
        call: OrdinaryCall,
        parent: FrameId,
        count: nat,
        method: bool,
        tail: bool,
    ) -> (Heap, Machine, Result<(), Error>) {
        match self.frames.current(parent) {
            Err(e) => (heap, self, Err(e)),
            Ok(frame) => if frame.fault_pc == usize::MAX {
                (heap, self, Err(Error::internal("call resume PC overflow")))
            } else {
                match self.call_operands(frame.window, count, method) {
                    Err(e) => (heap, self, Err(e)),
                    Ok((arguments, receiver)) => match heap.prepare_frame(
                        CallableRef { object: call.callee() },
                        receiver,
                        JsValue::Undefined,
                        arguments,
                        call.code(),
                    ) {
                        (heap, Err(e)) => (heap, self, Err(e)),
                        (heap, Ok(prepared)) => {
                            let (slots, r) = self.slots.discard(
                                frame.window,
                                count + if method {
                                    2nat
                                } else {
                                    1nat
                                },
                            );
                            let popped = Machine { slots, ..self };
                            match r {
                                Err(e) => (
                                    heap.retired(Some(prepared.active_frame)),
                                    popped,
                                    Err(e),
                                ),
                                Ok(_) => {
                                    let (resumed, _) = popped.resumed(
                                        frame,
                                        Error::internal("call resume PC overflow"),
                                    );
                                    match resumed.push_entry(
                                        heap,
                                        Entry {
                                            executable: prepared.executable,
                                            realm: prepared.realm,
                                            cold: FrameCold::fresh_spec(
                                                prepared,
                                                CallableRef { object: call.callee() },
                                                frame.realm,
                                                Some(
                                                    ReturnTarget {
                                                        value_use: ReturnValue::Push,
                                                        frame: parent,
                                                        tail,
                                                        operation: None,
                                                    },
                                                ),
                                            ),
                                            original_arguments: arguments,
                                            parameters: prepared.arguments,
                                            locals: prepared.locals,
                                        },
                                    ) {
                                        (heap, machine, Err(e)) => (heap, machine, Err(e)),
                                        (heap, machine, Ok(_)) => (heap, machine, Ok(())),
                                    }
                                },
                            }
                        },
                    },
                }
            },
        }
    }
}

impl OrdinaryCall {
    pub closed spec fn callee(self) -> ObjectRef {
        self.function
    }

    pub closed spec fn code(self) -> usize {
        self.executable
    }

    pub open spec fn authentic(heap: Heap, value: JsValue) -> Result<Option<OrdinaryCall>, Error> {
        match heap.direct_selection(value) {
            Err(e) => Err(e),
            Ok(DirectSelection::Ordinary(selected)) => match selected.authenticated(heap) {
                Err(e) => Err(e),
                Ok(call) => Ok(Some(call)),
            },
            Ok(_) => Ok(None),
        }
    }

    /// The authenticated call of a callee, if it allows a direct one.
    pub fn authenticate(runtime: &Runtime, value: JsValue) -> (r: Result<Option<Self>, Error>)
        ensures
            r == OrdinaryCall::authentic(runtime@, value),
    {
        match DirectSelection::select(runtime, value)? {
            DirectSelection::Ordinary(selected) => {
                let call = selected.authenticate(runtime)?;
                Ok(Some(call))
            },
            _ => Ok(None),
        }
    }

    pub fn function(&self) -> (r: ObjectRef)
        ensures
            r == self.callee(),
    {
        self.function
    }

    pub fn executable(&self) -> (r: usize)
        ensures
            r == self.code(),
    {
        self.executable
    }

    /// Register the activation of this call.
    pub fn register(&self, runtime: &mut Runtime) -> (r: Result<ActiveFrameGuard, Error>)
        requires
            old(runtime).wf(),
        ensures
            final(runtime).wf(),
            (final(runtime)@, r) == (match old(runtime)@.function_at(self.code()) {
                Err(e) => (old(runtime)@, Err(e)),
                Ok(function) => old(runtime)@.entered(
                    self.callee(),
                    function.realm,
                    function.metadata.strict,
                ),
            }),
    {
        let function = runtime.function_bytecode(self.executable)?;
        let realm: usize = function.realm;
        let strict = function.metadata.strict;
        runtime.push_bytecode_active_frame(self.function, realm, strict)
    }

    /// Install this call over its operands.
    pub fn install(
        self,
        runtime: &mut Runtime,
        execution: &mut RunningExecution,
        parent: FrameId,
        count: usize,
        method: bool,
        tail: bool,
    ) -> (r: Result<(), Error>)
        requires
            old(runtime).wf(),
            count < usize::MAX - 1,
        ensures
            final(runtime).wf(),
            (final(runtime)@, final(execution)@, r) == old(execution)@.install_ordinary(
                old(runtime)@,
                self,
                parent,
                count as nat,
                method,
                tail,
            ),
    {
        let frame = execution.frames.current(parent)?;
        if frame.fault_pc == usize::MAX {
            return Err(Error::internal("call resume PC overflow"));
        }
        let (arguments, receiver) = execution.call_operands(frame.window, count, method)?;
        let callable = CallableRef { object: self.function };
        let prepared = runtime.prepare_bytecode_frame(
            callable,
            receiver,
            JsValue::Undefined,
            &arguments,
            self.executable,
        )?;
        match execution.slots.discard(
            frame.window,
            count + if method {
                2
            } else {
                1
            },
        ) {
            Ok(_) => {},
            Err(e) => {
                runtime.retire_guard(Some(prepared.active_frame));
                return Err(e);
            },
        }
        execution.resume_after(frame, Error::internal("call resume PC overflow"))?;
        let cold = FrameCold::fresh(
            &prepared,
            callable,
            frame.realm,
            Some(
                ReturnTarget {
                    value_use: ReturnValue::Push,
                    frame: parent,
                    tail,
                    operation: None,
                },
            ),
        );
        let entry = FrameEntry {
            executable: prepared.executable,
            realm: prepared.realm,
            cold,
            storage: FrameStorage {
                original_arguments: arguments,
                parameters: prepared.arguments,
                locals: prepared.locals,
            },
        };
        let _ = push_frame(runtime, execution, entry)?;
        Ok(())
    }
}

/// A selected call speaks of the selected object: the callee that was
/// inspected and the code that its payload names.
pub proof fn selected_calls_keep_their_callee(heap: Heap, value: JsValue)
    ensures
        OrdinaryCall::authentic(heap, value) matches Ok(Some(call)) ==> {
            &&& value == JsValue::Object(call.callee())
            &&& heap.object_at(call.callee()) matches Ok(object)
            &&& object.payload matches ObjectPayload::BytecodeFunction(data)
            &&& data.bytecode == call.code()
        },
        heap.direct_selection(value) matches Ok(DirectSelection::Native(native)) ==> value
            == JsValue::Object(native.parts().0),
{
}

/// A selected native call speaks of what the payload of the callee says: its
/// body, its realm and how many arguments it reads.
pub proof fn selected_natives_keep_their_facts(heap: Heap, value: JsValue)
    ensures
        heap.direct_selection(value) matches Ok(DirectSelection::Native(native)) ==> {
            let (function, target, realm, min_readable_args) = native.parts();
            &&& value == JsValue::Object(function)
            &&& heap.belongs(function)
            &&& heap.object_at(function) matches Ok(object)
            &&& object.payload matches ObjectPayload::NativeFunction(data)
            &&& data.target == target
            &&& data.realm == Some(realm)
            &&& data.min_readable_args == min_readable_args
            &&& target.registered
        },
{
}

/// Only a registered native body and plain code of this runtime are called
/// directly: generators, async functions, bound functions and proxies are not.
pub proof fn other_callees_are_not_called_directly(heap: Heap, object: ObjectRef)
    requires
        object.index < heap.objects.len(),
    ensures
        ({
            let payload = heap.objects[object.index as int].payload;
            let general = heap.direct_selection(JsValue::Object(object)) == Ok::<
                DirectSelection,
                Error,
            >(DirectSelection::General);
            &&& !heap.belongs(object) ==> general
            &&& !(payload is NativeFunction) && !(payload is BytecodeFunction) ==> general
            &&& heap.belongs(object) && (payload matches ObjectPayload::BytecodeFunction(data)
                && data.bytecode < heap.code.len()
                && heap.code[data.bytecode as int].metadata.function_kind is Normal) ==> !general
            &&& (payload matches ObjectPayload::BytecodeFunction(data) && data.bytecode
                < heap.code.len() && !(heap.code[data.bytecode as int].metadata.function_kind
                is Normal)) ==> general
            &&& (payload matches ObjectPayload::NativeFunction(data) && !data.target.registered)
                ==> general
        }),
{
}

} // verus!
