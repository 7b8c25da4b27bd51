//! Plain values that cross every driver boundary.
use vstd::prelude::*;

verus! {

/// A heap object together with the runtime it belongs to.
#[derive(Clone, Copy, Debug, PartialEq, Eq, Structural)]
pub struct ObjectRef {
    pub domain: u64,
    pub index: usize,
}

/// An interned string.
pub type Atom = usize;

/// A symbol together with the runtime it belongs to.
#[derive(Clone, Copy, Debug, PartialEq, Eq, Structural)]
pub struct SymbolRef {
    pub domain: u64,
    pub index: usize,
}

/// An object whose payload has been seen to be callable.
#[derive(Clone, Copy, Debug, PartialEq, Eq, Structural)]
pub struct CallableRef {
    pub object: ObjectRef,
}

impl CallableRef {
    pub fn from_validated_object(object: ObjectRef) -> (r: Self)
        ensures
            r.object == object,
    {
        CallableRef { object }
    }

    pub fn as_object(&self) -> (r: ObjectRef)
        ensures
            r == self.object,
    {
        self.object
    }
}

/// A language value.  Strings are interned, so equal identifiers are equal
/// texts; `Float` carries the bit pattern of a number and `BigInt` the
/// identifier of an integer that the embedder holds.
#[derive(Clone, Copy, Debug, PartialEq, Eq, Structural)]
pub enum JsValue {
    Undefined,
    Null,
    Bool(bool),
    Int(i32),
    Float(u64),
    String(Atom),
    BigInt(usize),
    Symbol(SymbolRef),
    Object(ObjectRef),
}

impl JsValue {
    /// `undefined` or `null`.
    pub open spec fn is_nullish(&self) -> bool {
        self is Undefined || self is Null
    }

    #[verifier::when_used_as_spec(is_nullish)]
    pub fn nullish(&self) -> (r: bool)
        ensures
            r == self.is_nullish(),
    {
        matches!(self, JsValue::Undefined | JsValue::Null)
    }

    pub fn is_object(&self) -> (r: bool)
        ensures
            r == (self is Object),
    {
        matches!(self, JsValue::Object(_))
    }
}

/// A property name: an interned string or a symbol.
#[derive(Clone, Copy, Debug, PartialEq, Eq, Structural)]
pub enum PropertyKey {
    String(Atom),
    Symbol(SymbolRef),
}

/// How an operation ended.
#[derive(Clone, Copy, Debug, PartialEq, Eq, Structural)]
pub enum Completion {
    Return(JsValue),
    Throw(JsValue),
}

/// The outcome of a conversion that may throw a language value.
#[derive(Clone, Copy, Debug)]
pub enum NativeConversion<T> {
    Value(T),
    Throw(JsValue),
}

} // verus!
