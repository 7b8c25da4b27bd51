//! Bytecode frame preparation: parameter padding, lexical initialization and
//! the named-function binding.
use vstd::prelude::*;
use crate::code::{FunctionBytecode, LocalDefinition};
use crate::error::Error;
use crate::frame::CallInput;
use crate::heap::Heap;
use crate::runtime::{ActiveFrameGuard, Runtime};
use crate::slots::{FrameBinding, Slots};
use crate::value::{CallableRef, JsValue};

verus! {

pub struct PreparedBytecodeFrame {
    pub executable: usize,
    pub realm: usize,
    pub active_frame: ActiveFrameGuard,
    pub input: CallInput,
    pub arguments: Vec<FrameBinding>,
    pub locals: Vec<FrameBinding>,
}

/// A prepared frame as a mathematical value.
#[verifier::ext_equal]
pub struct PreparedFrame {
    pub executable: usize,
    pub realm: usize,
    pub active_frame: ActiveFrameGuard,
    pub input: CallInput,
    pub arguments: Seq<FrameBinding>,
    pub locals: Seq<FrameBinding>,
}

impl View for PreparedBytecodeFrame {
    type V = PreparedFrame;

    open spec fn view(&self) -> PreparedFrame {
        PreparedFrame {
            executable: self.executable,
            realm: self.realm,
            active_frame: self.active_frame,
            input: self.input,
            arguments: self.arguments@,
            locals: self.locals@,
        }
    }
}

impl PreparedBytecodeFrame {
    /// A preparation ended as `expected` says.
    pub open spec fn agrees(
        after: Heap,
        r: Result<PreparedBytecodeFrame, Error>,
        expected: (Heap, Result<PreparedFrame, Error>),
    ) -> bool {
        after == expected.0 && match r {
            Ok(frame) => expected.1 == Ok::<PreparedFrame, Error>(frame@),
            Err(e) => expected.1 == Err::<PreparedFrame, Error>(e),
        }
    }
}

impl Heap {
    /// Parameters start as the arguments, filled up with `undefined`.
    pub open spec fn frame_parameters(arguments: Seq<JsValue>, parameters: nat) -> Seq<FrameBinding> {
        Slots::direct(arguments) + Seq::new(
            if arguments.len() < parameters {
                (parameters - arguments.len()) as nat
            } else {
                0
            },
            |i: int| FrameBinding::Direct(JsValue::Undefined),
        )
    }

    /// Lexical locals start in their dead zone, the others as `undefined`.
    pub open spec fn frame_locals(definitions: Seq<LocalDefinition>) -> Seq<FrameBinding> {
        definitions.map_values(
            |definition: LocalDefinition|
                if definition.is_lexical {
                    FrameBinding::Uninitialized
                } else {
                    FrameBinding::Direct(JsValue::Undefined)
                },
        )
    }

    /// The locals of one call, with the function's own name bound.
    pub open spec fn call_locals(function: FunctionBytecode, callable: CallableRef) -> Result<
        Seq<FrameBinding>,
        Error,
    > {
        let locals = Heap::frame_locals(function.local_definitions@);
        match function.metadata.function_name_local {
            None => Ok(locals),
            Some(index) => if index < locals.len() {
                Ok(
                    locals.update(
                        index as int,
                        FrameBinding::Direct(JsValue::Object(callable.object)),
                    ),
                )
            } else {
                Err(Error::broken("function-name local is outside the frame"))
            },
        }
    }

    /// Preparing a frame registers its activation and lays out its bindings.
    pub open spec fn prepare_frame(
        self,
        callable: CallableRef,
        this_value: JsValue,
        new_target: JsValue,
        arguments: Seq<JsValue>,
        bytecode: usize,
    ) -> (Heap, Result<PreparedFrame, Error>) {
        match self.function_at(bytecode) {
            Err(e) => (self, Err(e)),
            Ok(function) => match self.realm_at(function.realm) {
                Err(e) => (self, Err(e)),
                Ok(realm) => match self.entered(
                    callable.object,
                    function.realm,
                    function.metadata.strict,
                ) {
                    (heap, Err(e)) => (heap, Err(e)),
                    (heap, Ok(active_frame)) => match Heap::call_locals(function, callable) {
                        Err(e) => (heap.finished(active_frame).0, Err(e)),
                        Ok(locals) => (
                            heap,
                            Ok(
                                PreparedFrame {
                                    executable: bytecode,
                                    realm: function.realm,
                                    active_frame,
                                    input: CallInput {
                                        this_value,
                                        new_target,
                                        callee_global: realm.global_object,
                                    },
                                    arguments: Heap::frame_parameters(
                                        arguments,
                                        function.argument_definitions@.len(),
                                    ),
                                    locals,
                                },
                            ),
                        ),
                    },
                },
            },
        }
    }
}

fn parameter_bindings(arguments: &Vec<JsValue>, parameters: usize) -> (r: Vec<FrameBinding>)
    ensures
        r@ == Heap::frame_parameters(arguments@, parameters as nat),
{
    let mut out: Vec<FrameBinding> = Vec::new();
    let mut i: usize = 0;
    while i < arguments.len()
        invariant
            i <= arguments@.len(),
            out@ == Slots::direct(arguments@.take(i as int)),
        decreases arguments@.len() - i,
    {
        out.push(FrameBinding::Direct(arguments[i]));
        assert(out@ =~= Slots::direct(arguments@.take(i as int + 1)));
        i = i + 1;
    }
    assert(arguments@.take(i as int) =~= arguments@);
    while out.len() < parameters
        invariant
            arguments@.len() <= out@.len(),
            out@.len() <= parameters || out@.len() == arguments@.len(),
            out@ == Slots::direct(arguments@) + Seq::new(
                (out@.len() - arguments@.len()) as nat,
                |i: int| FrameBinding::Direct(JsValue::Undefined),
            ),
        decreases parameters - out@.len(),
    {
        out.push(FrameBinding::Direct(JsValue::Undefined));
        assert(out@ =~= Slots::direct(arguments@) + Seq::new(
            (out@.len() - arguments@.len()) as nat,
            |i: int| FrameBinding::Direct(JsValue::Undefined),
        ));
    }
    assert(out@ =~= Heap::frame_parameters(arguments@, parameters as nat));
    out
}

fn local_bindings(definitions: &Vec<LocalDefinition>) -> (r: Vec<FrameBinding>)
    ensures
        r@ == Heap::frame_locals(definitions@),
{
    let mut out: Vec<FrameBinding> = Vec::new();
    let mut i: usize = 0;
    while i < definitions.len()
        invariant
            i <= definitions@.len(),
            out@ == Heap::frame_locals(definitions@.take(i as int)),
        decreases definitions@.len() - i,
    {
        out.push(
            if definitions[i].is_lexical {
                FrameBinding::Uninitialized
            } else {
                FrameBinding::Direct(JsValue::Undefined)
            },
        );
        assert(out@ =~= Heap::frame_locals(definitions@.take(i as int + 1)));
        i = i + 1;
    }
    assert(definitions@.take(i as int) =~= definitions@);
    out
}

fn call_locals(function: &FunctionBytecode, callable: CallableRef) -> (r: Result<
    Vec<FrameBinding>,
    Error,
>)
    ensures
        match r {
            Ok(locals) => Heap::call_locals(*function, callable) == Ok::<Seq<FrameBinding>, Error>(
                locals@,
            ),
            Err(e) => Heap::call_locals(*function, callable) == Err::<Seq<FrameBinding>, Error>(e),
        },
{
    let mut locals = local_bindings(&function.local_definitions);
    match function.metadata.function_name_local {
        None => Ok(locals),
        Some(index) => {
            let index: usize = index as usize;
            if index < locals.len() {
                locals.set(index, FrameBinding::Direct(JsValue::Object(callable.object)));
                Ok(locals)
            } else {
                Err(Error::broken("function-name local is outside the frame"))
            }
        },
    }
}

impl Runtime {
    /// Prepare one call of published code.
    pub fn prepare_bytecode_frame(
        &mut self,
        callable: CallableRef,
        this_value: JsValue,
        new_target: JsValue,
        arguments: &Vec<JsValue>,
        bytecode: usize,
    ) -> (r: Result<PreparedBytecodeFrame, Error>)
        requires
            old(self).wf(),
        ensures
            final(self).wf(),
            PreparedBytecodeFrame::agrees(
                final(self)@,
                r,
                old(self)@.prepare_frame(callable, this_value, new_target, arguments@, bytecode),
            ),
    {
        let function = self.function_bytecode(bytecode)?;
        let code_realm: usize = function.realm;
        let strict = function.metadata.strict;
        let parameters: usize = function.argument_definitions.len();
        let laid_out = call_locals(function, callable);
        let realm = self.realm(code_realm)?;
        let active_frame = self.push_bytecode_active_frame(callable.object, code_realm, strict)?;
        let locals = match laid_out {
            Ok(locals) => locals,
            Err(e) => {
                let _ = self.finish_active_frame(active_frame);
                return Err(e);
            },
        };
        Ok(
            PreparedBytecodeFrame {
                executable: bytecode,
                realm: code_realm,
                active_frame,
                input: CallInput { this_value, new_target, callee_global: realm.global_object },
                arguments: parameter_bindings(arguments, parameters),
                locals,
            },
        )
    }
}

/// A frame sees each argument under its parameter, in order.
pub proof fn parameters_keep_arguments(arguments: Seq<JsValue>, parameters: nat, i: int)
    requires
        0 <= i < arguments.len(),
    ensures
        Heap::frame_parameters(arguments, parameters)[i] == FrameBinding::Direct(arguments[i]),
        Heap::frame_parameters(arguments, parameters).len() == if arguments.len() < parameters {
            parameters
        } else {
            arguments.len()
        },
{
}

/// How the variables of a call start: a parameter without an argument and every
/// ordinary local as undefined, a lexical local in its dead zone, and the name
/// of a function expression as the function itself.
pub proof fn calls_start_with_their_variables(
    heap: Heap,
    callable: CallableRef,
    this_value: JsValue,
    new_target: JsValue,
    arguments: Seq<JsValue>,
    bytecode: usize,
)
    ensures
        heap.prepare_frame(callable, this_value, new_target, arguments, bytecode).1 matches Ok(
            prepared,
        ) ==> {
            let function = heap.code[bytecode as int];
            &&& prepared.arguments.len() >= function.argument_definitions@.len()
            &&& forall|i: int|
                arguments.len() <= i < prepared.arguments.len()
                    ==> #[trigger] prepared.arguments[i] == FrameBinding::Direct(JsValue::Undefined)
            &&& forall|i: int|
                0 <= i < arguments.len() ==> #[trigger] prepared.arguments[i]
                    == FrameBinding::Direct(arguments[i])
            &&& prepared.locals.len() == function.local_definitions@.len()
            &&& forall|i: int|
                0 <= i < prepared.locals.len() ==> #[trigger] prepared.locals[i] == (if Some(
                    i as u16,
                ) == function.metadata.function_name_local && i <= u16::MAX {
                    FrameBinding::Direct(JsValue::Object(callable.object))
                } else if function.local_definitions@[i].is_lexical {
                    FrameBinding::Uninitialized
                } else {
                    FrameBinding::Direct(JsValue::Undefined)
                })
            &&& prepared.input.this_value == this_value
            &&& prepared.input.new_target == new_target
        },
{
}

} // verus!
