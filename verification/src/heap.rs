//! What a runtime stores: objects, properties, cells and realms.
use vstd::prelude::*;
use crate::code::{BindingKind, FunctionBytecode};
use crate::error::NativeErrorKind;
use crate::frames::active::{ActiveFrameRecord, NativeFunctionId};
use crate::value::{Atom, JsValue, ObjectRef, PropertyKey};

verus! {

#[derive(Clone, Copy, Debug, PartialEq, Eq, Structural)]
pub enum ObjectKind {
    Ordinary,
    Function,
    Array,
    Error,
    GlobalObject,
    Primitive,
    Other,
}

/// Where an activation of an async function stands.
#[derive(Clone, Copy, Debug, PartialEq, Eq, Structural)]
pub enum AsyncFunctionPhase {
    Running,
    Suspended,
    Completed,
}

#[derive(Clone, Copy, Debug, PartialEq, Eq, Structural)]
pub enum AsyncFunctionResumeKind {
    Fulfill,
    Reject,
}

/// The record behind one async function activation.
#[derive(Clone, Copy, Debug, PartialEq, Eq, Structural)]
pub struct AsyncFunctionState {
    pub phase: AsyncFunctionPhase,
    pub driver_realm: usize,
    pub outer_resolve: ObjectRef,
    pub outer_reject: ObjectRef,
    /// The stored suspended activation.
    pub activation: Option<usize>,
}

/// What an internal native function captured when it was made.
#[derive(Clone, Copy, Debug, PartialEq, Eq, Structural)]
pub enum InternalCallableData {
    Nothing,
    PromiseResolve { promise: ObjectRef },
    PromiseReject { promise: ObjectRef },
    AsyncFromSyncIteratorUnwrap { done: bool },
    AsyncFromSyncIteratorClose { sync_iterator: ObjectRef },
    AsyncFunctionResume { state: ObjectRef, kind: AsyncFunctionResumeKind },
}

#[derive(Clone, Copy, Debug, PartialEq, Eq, Structural)]
pub struct NativeFunctionData {
    pub target: NativeFunctionId,
    pub realm: Option<usize>,
    pub min_readable_args: u8,
    pub internal: InternalCallableData,
}

/// A function made from published code.  Its cells are `count` entries of the
/// closure table from `start`.
#[derive(Clone, Copy, Debug, PartialEq, Eq, Structural)]
pub struct BytecodeFunctionData {
    pub bytecode: usize,
    pub start: usize,
    pub count: usize,
    pub home: Option<ObjectRef>,
    pub instance_initializer: Option<ObjectRef>,
    pub static_initialized: bool,
}

#[derive(Clone, Copy, Debug, PartialEq, Eq, Structural)]
pub enum ObjectPayload {
    Ordinary,
    Array,
    Error,
    GlobalObject,
    Arguments,
    Primitive(JsValue),
    NativeFunction(NativeFunctionData),
    /// Its leading arguments are `count` entries of the bound table from `start`.
    BoundFunction { target: ObjectRef, this_value: JsValue, start: usize, count: usize },
    BytecodeFunction(BytecodeFunctionData),
    /// A revoked proxy has no target.
    Proxy { is_callable: bool, target: Option<ObjectRef> },
    Promise,
    AsyncFunctionState(AsyncFunctionState),
    AsyncFromSyncIterator { iterator: ObjectRef, next: JsValue },
    /// Storage that no driver looks into.
    Other(u32),
}

#[derive(Clone, Copy, Debug, PartialEq, Eq, Structural)]
pub struct HeapObject {
    pub kind: ObjectKind,
    pub payload: ObjectPayload,
    pub prototype: Option<ObjectRef>,
    pub is_constructor: bool,
    pub extensible: bool,
}

#[derive(Clone, Copy, Debug, PartialEq, Eq, Structural)]
pub enum PropertySlot {
    Data { value: JsValue, writable: bool, enumerable: bool, configurable: bool },
    Accessor {
        get: Option<ObjectRef>,
        set: Option<ObjectRef>,
        enumerable: bool,
        configurable: bool,
    },
    /// The property is a live variable.
    VarRef { cell: usize, enumerable: bool, configurable: bool },
    /// The value is materialized by its first checked access.
    AutoInit { value: JsValue },
}

#[derive(Clone, Copy, Debug, PartialEq, Eq, Structural)]
pub struct PropertyEntry {
    pub owner: usize,
    pub key: PropertyKey,
    pub slot: PropertySlot,
}

/// A variable shared by closures; `None` marks the temporal dead zone.
#[derive(Clone, Copy, Debug, PartialEq, Eq, Structural)]
pub struct VarRef {
    pub value: Option<JsValue>,
    pub is_const: bool,
    pub is_lexical: bool,
    pub kind: BindingKind,
}

/// The intrinsic objects of one context.
#[derive(Clone, Copy, Debug, PartialEq, Eq, Structural)]
pub struct Realm {
    pub object_prototype: ObjectRef,
    pub function_prototype: ObjectRef,
    pub array_prototype: ObjectRef,
    pub string_prototype: ObjectRef,
    pub number_prototype: ObjectRef,
    pub boolean_prototype: ObjectRef,
    pub symbol_prototype: ObjectRef,
    pub bigint_prototype: ObjectRef,
    pub promise_prototype: ObjectRef,
    pub type_error_prototype: ObjectRef,
    pub reference_error_prototype: ObjectRef,
    pub range_error_prototype: ObjectRef,
    pub syntax_error_prototype: ObjectRef,
    pub internal_error_prototype: ObjectRef,
    pub global_object: ObjectRef,
    pub global_lexical: ObjectRef,
}

impl Realm {
    pub open spec fn error_prototype_of(self, kind: NativeErrorKind) -> ObjectRef {
        match kind {
            NativeErrorKind::Type => self.type_error_prototype,
            NativeErrorKind::Reference => self.reference_error_prototype,
            NativeErrorKind::Range => self.range_error_prototype,
            NativeErrorKind::Syntax => self.syntax_error_prototype,
            NativeErrorKind::Internal => self.internal_error_prototype,
        }
    }

    pub fn error_prototype(&self, kind: NativeErrorKind) -> (r: ObjectRef)
        ensures
            r == self.error_prototype_of(kind),
    {
        match kind {
            NativeErrorKind::Type => self.type_error_prototype,
            NativeErrorKind::Reference => self.reference_error_prototype,
            NativeErrorKind::Range => self.range_error_prototype,
            NativeErrorKind::Syntax => self.syntax_error_prototype,
            NativeErrorKind::Internal => self.internal_error_prototype,
        }
    }
}

/// The text of a number that is not a small integer, given by the embedder.
#[derive(Clone, Copy, Debug, PartialEq, Eq, Structural)]
pub struct NumberText {
    pub bits: u64,
    pub text: Atom,
}

/// One ownership event of an internal value edge, in the order it happened.
/// The collector outside applies them to its counts.
#[derive(Clone, Copy, Debug, PartialEq, Eq, Structural)]
pub enum EdgeEvent {
    Retain(ObjectRef),
    Release(ObjectRef),
}

/// A reaction registered on a promise.
#[derive(Clone, Copy, Debug, PartialEq, Eq, Structural)]
pub struct PromiseReaction {
    pub realm: usize,
    pub promise: ObjectRef,
    pub fulfilled: Option<ObjectRef>,
    pub rejected: Option<ObjectRef>,
    /// The promise settled by the reaction, where there is one.
    pub derived: Option<ObjectRef>,
}

/// Everything a runtime holds, as mathematical values.
#[verifier::ext_equal]
pub struct Heap {
    pub domain: u64,
    pub objects: Seq<HeapObject>,
    pub properties: Seq<PropertyEntry>,
    pub cells: Seq<VarRef>,
    pub closure_cells: Seq<usize>,
    pub bound_values: Seq<JsValue>,
    pub code: Seq<FunctionBytecode>,
    pub realms: Seq<Realm>,
    pub texts: Seq<Seq<u16>>,
    pub symbols: Seq<Option<Atom>>,
    pub number_texts: Seq<NumberText>,
    pub bigint_texts: Seq<Atom>,
    pub reactions: Seq<PromiseReaction>,
    pub edges: Seq<EdgeEvent>,
    pub active: Seq<ActiveFrameRecord>,
    pub next_token: u64,
    pub active_limit: usize,
}

} // verus!
