//! Operators on primitive values.
//!
//! Small integers and texts are computed here.  What needs floating point or
//! arbitrary precision is left to the embedder, which holds such numbers.
use vstd::prelude::*;
use crate::code::NumericKind;
use crate::error::{Error, ErrorKind};
use crate::heap::{Heap, NumberText};
use crate::runtime::{Runtime, ATOM_FALSE, ATOM_NULL, ATOM_TRUE, ATOM_UNDEFINED};
use crate::text::{append_text, decimal_text, Texts};
use crate::value::{Atom, JsValue, PropertyKey};

verus! {

/// The bit pattern of the quiet not-a-number.
pub const NAN_BITS: u64 = 0x7ff8_0000_0000_0000;

/// A primitive result, or the request to let the embedder compute it.
#[derive(Clone, Copy, Debug, PartialEq, Eq, Structural)]
pub enum NumericOutcome {
    Value(JsValue),
    Embedder,
}

impl Heap {
    pub open spec fn number_text(
        table: Seq<NumberText>,
        bits: u64,
        from: int,
    ) -> Option<Atom>
        decreases table.len() - from,
    {
        if from < 0 || from >= table.len() {
            None
        } else if table[from].bits == bits {
            Some(table[from].text)
        } else {
            Heap::number_text(table, bits, from + 1)
        }
    }

    /// The text that a primitive converts to.
    pub open spec fn primitive_text(self, value: JsValue) -> Result<Seq<u16>, Error> {
        match value {
            JsValue::Undefined => Ok(self.text_at(ATOM_UNDEFINED)),
            JsValue::Null => Ok(self.text_at(ATOM_NULL)),
            JsValue::Bool(b) => Ok(
                self.text_at(
                    if b {
                        ATOM_TRUE
                    } else {
                        ATOM_FALSE
                    },
                ),
            ),
            JsValue::Int(n) => Ok(Texts::decimal(n as int)),
            JsValue::Float(bits) => match Heap::number_text(self.number_texts, bits, 0) {
                Some(atom) => Ok(self.text_at(atom)),
                None => Err(Error::internal("number text is not registered")),
            },
            JsValue::String(atom) => Ok(self.text_at(atom)),
            JsValue::BigInt(id) => if id < self.bigint_texts.len() {
                Ok(self.text_at(self.bigint_texts[id as int]))
            } else {
                Err(Error::stale())
            },
            JsValue::Symbol(_) => Err(
                Error::new(ErrorKind::Type, "cannot convert symbol to string"),
            ),
            JsValue::Object(_) => Err(Error::internal("object is not a primitive")),
        }
    }

    /// The string value of a primitive.
    pub open spec fn primitive_string(self, value: JsValue) -> (Heap, Result<JsValue, Error>) {
        match value {
            JsValue::String(_) => (self, Ok(value)),
            _ => match self.primitive_text(value) {
                Err(e) => (self, Err(e)),
                Ok(text) => (
                    self.with_text(text),
                    Ok(JsValue::String(Texts::atom_of(self.texts, text))),
                ),
            },
        }
    }

    /// The property key of a primitive.
    pub open spec fn canonical_key(self, value: JsValue) -> (Heap, Result<PropertyKey, Error>) {
        match value {
            JsValue::Symbol(symbol) => if symbol.domain == self.domain {
                (self, Ok(PropertyKey::Symbol(symbol)))
            } else {
                (
                    self,
                    Err(Error::internal("computed property symbol belongs to another runtime")),
                )
            },
            _ => {
                let (heap, text) = self.primitive_string(value);
                match text {
                    Err(e) => (heap, Err(e)),
                    Ok(JsValue::String(atom)) => (heap, Ok(PropertyKey::String(atom))),
                    Ok(_) => (heap, Err(Error::internal("object is not a primitive"))),
                }
            },
        }
    }

    /// The integer that a primitive stands for without rounding.
    pub open spec fn small_int(value: JsValue) -> Option<int> {
        match value {
            JsValue::Int(n) => Some(n as int),
            JsValue::Bool(b) => Some(
                if b {
                    1
                } else {
                    0
                },
            ),
            JsValue::Null => Some(0),
            _ => None,
        }
    }

    pub open spec fn fitted(n: int) -> NumericOutcome {
        if i32::MIN <= n <= i32::MAX {
            NumericOutcome::Value(JsValue::Int(n as i32))
        } else {
            NumericOutcome::Embedder
        }
    }

    /// A number whose text only the embedder knows.
    pub open spec fn unnamed_number(self, value: JsValue) -> bool {
        value matches JsValue::Float(bits) && Heap::number_text(self.number_texts, bits, 0) is None
    }

    /// Addition of two primitives: texts are joined, small integers are summed.
    pub open spec fn sum(self, left: JsValue, right: JsValue) -> (
        Heap,
        Result<NumericOutcome, Error>,
    ) {
        if (left is String || right is String) && (self.unnamed_number(left) || self.unnamed_number(
            right,
        )) {
            (self, Ok(NumericOutcome::Embedder))
        } else if left is String || right is String {
            match (self.primitive_text(left), self.primitive_text(right)) {
                (Err(e), _) => (self, Err(e)),
                (_, Err(e)) => (self, Err(e)),
                (Ok(a), Ok(b)) => (
                    self.with_text(a + b),
                    Ok(
                        NumericOutcome::Value(
                            JsValue::String(Texts::atom_of(self.texts, a + b)),
                        ),
                    ),
                ),
            }
        } else if left is Symbol || right is Symbol {
            (self, Err(Error::new(ErrorKind::Type, "cannot convert symbol to number")))
        } else if left is Object || right is Object {
            (self, Err(Error::internal("object is not a primitive")))
        } else if (left is BigInt) != (right is BigInt) {
            (self, Err(Error::new(ErrorKind::Type, "cannot mix bigint and other types")))
        } else {
            match (Heap::small_int(left), Heap::small_int(right)) {
                (Some(a), Some(b)) => (self, Ok(Heap::fitted(a + b))),
                _ => (self, Ok(NumericOutcome::Embedder)),
            }
        }
    }

    /// Unary plus of a primitive.
    pub open spec fn plus(value: JsValue) -> Result<NumericOutcome, Error> {
        match value {
            JsValue::Int(_) | JsValue::Float(_) => Ok(NumericOutcome::Value(value)),
            JsValue::Bool(b) => Ok(
                NumericOutcome::Value(
                    JsValue::Int(
                        if b {
                            1
                        } else {
                            0
                        },
                    ),
                ),
            ),
            JsValue::Null => Ok(NumericOutcome::Value(JsValue::Int(0))),
            JsValue::Undefined => Ok(NumericOutcome::Value(JsValue::Float(NAN_BITS))),
            JsValue::String(_) => Ok(NumericOutcome::Embedder),
            JsValue::BigInt(_) => Err(
                Error::new(ErrorKind::Type, "bigint argument with unary +"),
            ),
            JsValue::Symbol(_) => Err(
                Error::new(ErrorKind::Type, "cannot convert symbol to number"),
            ),
            JsValue::Object(_) => Err(Error::internal("object is not a primitive")),
        }
    }

    /// Arithmetic on small integers; everything else goes to the embedder.
    pub open spec fn numeric(kind: NumericKind, left: JsValue, right: JsValue) -> Result<
        NumericOutcome,
        Error,
    > {
        if left is Symbol || (right is Symbol && !(left is Object)) {
            Err(Error::new(ErrorKind::Type, "cannot convert symbol to number"))
        } else {
            match (Heap::small_int(left), Heap::small_int(right)) {
                (Some(a), Some(b)) => match kind {
                    NumericKind::Subtract => Ok(Heap::fitted(a - b)),
                    NumericKind::Multiply => if a * b == 0 && (a < 0 || b < 0) {
                        Ok(NumericOutcome::Embedder)
                    } else {
                        Ok(Heap::fitted(a * b))
                    },
                    NumericKind::Divide | NumericKind::Remainder | NumericKind::Power => Ok(
                        NumericOutcome::Embedder,
                    ),
                    NumericKind::ShiftLeft | NumericKind::ShiftRight
                    | NumericKind::ShiftRightUnsigned => Ok(NumericOutcome::Embedder),
                    NumericKind::BitAnd => Ok(Heap::fitted((a as i32 & b as i32) as int)),
                    NumericKind::BitOr => Ok(Heap::fitted((a as i32 | b as i32) as int)),
                    NumericKind::BitXor => Ok(Heap::fitted((a as i32 ^ b as i32) as int)),
                    NumericKind::BitNot => Ok(Heap::fitted(-a - 1)),
                    NumericKind::Negate => if a == 0 {
                        Ok(NumericOutcome::Embedder)
                    } else {
                        Ok(Heap::fitted(-a))
                    },
                    NumericKind::Less => Ok(NumericOutcome::Value(JsValue::Bool(a < b))),
                    NumericKind::Greater => Ok(NumericOutcome::Value(JsValue::Bool(a > b))),
                    NumericKind::Increment => Ok(Heap::fitted(a + 1)),
                    NumericKind::Decrement => Ok(Heap::fitted(a - 1)),
                    NumericKind::ToNumeric => Ok(Heap::fitted(a)),
                },
                _ => Ok(NumericOutcome::Embedder),
            }
        }
    }
}

impl Runtime {
    fn find_number_text(&self, bits: u64) -> (r: Option<Atom>)
        ensures
            r == Heap::number_text(self@.number_texts, bits, 0),
    {
        let mut i: usize = 0;
        while i < self.number_texts.len()
            invariant
                i <= self.number_texts@.len(),
                Heap::number_text(self.number_texts@, bits, 0) == Heap::number_text(
                    self.number_texts@,
                    bits,
                    i as int,
                ),
            decreases self.number_texts@.len() - i,
        {
            if self.number_texts[i].bits == bits {
                return Some(self.number_texts[i].text);
            }
            i = i + 1;
        }
        None
    }

    /// The text of a primitive.
    pub fn primitive_units(&self, value: JsValue) -> (r: Result<Vec<u16>, Error>)
        ensures
            match r {
                Ok(text) => self@.primitive_text(value) == Ok::<Seq<u16>, Error>(text@),
                Err(e) => self@.primitive_text(value) == Err::<Seq<u16>, Error>(e),
            },
    {
        match value {
            JsValue::Undefined => Ok(self.text(ATOM_UNDEFINED)),
            JsValue::Null => Ok(self.text(ATOM_NULL)),
            JsValue::Bool(b) => Ok(
                self.text(
                    if b {
                        ATOM_TRUE
                    } else {
                        ATOM_FALSE
                    },
                ),
            ),
            JsValue::Int(n) => Ok(decimal_text(n as i64)),
            JsValue::Float(bits) => match self.find_number_text(bits) {
                Some(atom) => Ok(self.text(atom)),
                None => Err(Error::internal("number text is not registered")),
            },
            JsValue::String(atom) => Ok(self.text(atom)),
            JsValue::BigInt(id) => {
                if id < self.bigint_texts.len() {
                    Ok(self.text(self.bigint_texts[id]))
                } else {
                    Err(Error::stale())
                }
            },
            JsValue::Symbol(_) => Err(
                Error::new(ErrorKind::Type, "cannot convert symbol to string"),
            ),
            JsValue::Object(_) => Err(Error::internal("object is not a primitive")),
        }
    }

    /// The string value of a primitive.
    pub fn to_js_string(&mut self, value: JsValue) -> (r: Result<JsValue, Error>)
        requires
            old(self).wf(),
        ensures
            final(self).wf(),
            (final(self)@, r) == old(self)@.primitive_string(value),
    {
        match value {
            JsValue::String(_) => Ok(value),
            _ => {
                let text = self.primitive_units(value)?;
                Ok(JsValue::String(self.intern(text)))
            },
        }
    }

    /// The property key of a primitive.
    pub fn native_to_property_key(&mut self, value: JsValue) -> (r: Result<PropertyKey, Error>)
        requires
            old(self).wf(),
        ensures
            final(self).wf(),
            (final(self)@, r) == old(self)@.canonical_key(value),
    {
        match value {
            JsValue::Symbol(symbol) => {
                if symbol.domain == self.domain {
                    Ok(PropertyKey::Symbol(symbol))
                } else {
                    Err(Error::internal("computed property symbol belongs to another runtime"))
                }
            },
            _ => match self.to_js_string(value)? {
                JsValue::String(atom) => Ok(PropertyKey::String(atom)),
                _ => Err(Error::internal("object is not a primitive")),
            },
        }
    }

    fn as_small_int(value: JsValue) -> (r: Option<i64>)
        ensures
            match r {
                Some(n) => Heap::small_int(value) == Some(n as int) && i32::MIN <= n <= i32::MAX,
                None => Heap::small_int(value) is None,
            },
    {
        match value {
            JsValue::Int(n) => Some(n as i64),
            JsValue::Bool(b) => Some(
                if b {
                    1
                } else {
                    0
                },
            ),
            JsValue::Null => Some(0),
            _ => None,
        }
    }

    fn fit(n: i64) -> (r: NumericOutcome)
        ensures
            r == Heap::fitted(n as int),
    {
        if -0x8000_0000 <= n && n <= 0x7fff_ffff {
            NumericOutcome::Value(JsValue::Int(n as i32))
        } else {
            NumericOutcome::Embedder
        }
    }

    fn unnamed_number(&self, value: JsValue) -> (r: bool)
        ensures
            r == self@.unnamed_number(value),
    {
        match value {
            JsValue::Float(bits) => self.find_number_text(bits).is_none(),
            _ => false,
        }
    }

    /// Addition of two primitives.
    pub fn add_primitives(&mut self, left: JsValue, right: JsValue) -> (r: Result<
        NumericOutcome,
        Error,
    >)
        requires
            old(self).wf(),
        ensures
            final(self).wf(),
            (final(self)@, r) == old(self)@.sum(left, right),
    {
        let textual = matches!(left, JsValue::String(_)) || matches!(right, JsValue::String(_));
        if textual && (self.unnamed_number(left) || self.unnamed_number(right)) {
            return Ok(NumericOutcome::Embedder);
        }
        if textual {
            let mut text = self.primitive_units(left)?;
            let more = self.primitive_units(right)?;
            append_text(&mut text, &more);
            return Ok(NumericOutcome::Value(JsValue::String(self.intern(text))));
        }
        if matches!(left, JsValue::Symbol(_)) || matches!(right, JsValue::Symbol(_)) {
            return Err(Error::new(ErrorKind::Type, "cannot convert symbol to number"));
        }
        if matches!(left, JsValue::Object(_)) || matches!(right, JsValue::Object(_)) {
            return Err(Error::internal("object is not a primitive"));
        }
        if matches!(left, JsValue::BigInt(_)) != matches!(right, JsValue::BigInt(_)) {
            return Err(Error::new(ErrorKind::Type, "cannot mix bigint and other types"));
        }
        match (Runtime::as_small_int(left), Runtime::as_small_int(right)) {
            (Some(a), Some(b)) => Ok(Runtime::fit(a + b)),
            _ => Ok(NumericOutcome::Embedder),
        }
    }

    /// Unary plus of a primitive.
    pub fn unary_plus_primitive(value: JsValue) -> (r: Result<NumericOutcome, Error>)
        ensures
            r == Heap::plus(value),
    {
        match value {
            JsValue::Int(_) | JsValue::Float(_) => Ok(NumericOutcome::Value(value)),
            JsValue::Bool(b) => Ok(
                NumericOutcome::Value(
                    JsValue::Int(
                        if b {
                            1
                        } else {
                            0
                        },
                    ),
                ),
            ),
            JsValue::Null => Ok(NumericOutcome::Value(JsValue::Int(0))),
            JsValue::Undefined => Ok(NumericOutcome::Value(JsValue::Float(NAN_BITS))),
            JsValue::String(_) => Ok(NumericOutcome::Embedder),
            JsValue::BigInt(_) => Err(
                Error::new(ErrorKind::Type, "bigint argument with unary +"),
            ),
            JsValue::Symbol(_) => Err(
                Error::new(ErrorKind::Type, "cannot convert symbol to number"),
            ),
            JsValue::Object(_) => Err(Error::internal("object is not a primitive")),
        }
    }

    /// Arithmetic on small integers.
    pub fn numeric_primitives(kind: NumericKind, left: JsValue, right: JsValue) -> (r: Result<
        NumericOutcome,
        Error,
    >)
        ensures
            r == Heap::numeric(kind, left, right),
    {
        if matches!(left, JsValue::Symbol(_)) || (matches!(right, JsValue::Symbol(_))
            && !left.is_object()) {
            return Err(Error::new(ErrorKind::Type, "cannot convert symbol to number"));
        }
        match (Runtime::as_small_int(left), Runtime::as_small_int(right)) {
            (Some(a), Some(b)) => {
                assert(-0x4000_0000_0000_0000 <= a * b <= 0x4000_0000_0000_0000)
                    by (nonlinear_arith)
                    requires
                        -0x8000_0000 <= a <= 0x7fff_ffff,
                        -0x8000_0000 <= b <= 0x7fff_ffff,
                ;
                match kind {
                    NumericKind::Subtract => Ok(Runtime::fit(a - b)),
                    NumericKind::Multiply => {
                        let product: i64 = a * b;
                        if product == 0 && (a < 0 || b < 0) {
                            Ok(NumericOutcome::Embedder)
                        } else {
                            Ok(Runtime::fit(product))
                        }
                    },
                    NumericKind::Divide | NumericKind::Remainder | NumericKind::Power => Ok(
                        NumericOutcome::Embedder,
                    ),
                    NumericKind::ShiftLeft | NumericKind::ShiftRight
                    | NumericKind::ShiftRightUnsigned => Ok(NumericOutcome::Embedder),
                    NumericKind::BitAnd => Ok(Runtime::fit((a as i32 & b as i32) as i64)),
                    NumericKind::BitOr => Ok(Runtime::fit((a as i32 | b as i32) as i64)),
                    NumericKind::BitXor => Ok(Runtime::fit((a as i32 ^ b as i32) as i64)),
                    NumericKind::BitNot => Ok(Runtime::fit(-a - 1)),
                    NumericKind::Negate => if a == 0 {
                        Ok(NumericOutcome::Embedder)
                    } else {
                        Ok(Runtime::fit(-a))
                    },
                    NumericKind::Less => Ok(NumericOutcome::Value(JsValue::Bool(a < b))),
                    NumericKind::Greater => Ok(NumericOutcome::Value(JsValue::Bool(a > b))),
                    NumericKind::Increment => Ok(Runtime::fit(a + 1)),
                    NumericKind::Decrement => Ok(Runtime::fit(a - 1)),
                    NumericKind::ToNumeric => Ok(Runtime::fit(a)),
                }
            },
            _ => Ok(NumericOutcome::Embedder),
        }
    }
}

/// Booleans and null stand for the integers that they count as, on either side
/// of every operator.
pub proof fn booleans_and_null_count_as_integers(
    heap: Heap,
    kind: NumericKind,
    other: JsValue,
)
    ensures
        Heap::numeric(kind, JsValue::Bool(true), other) == Heap::numeric(
            kind,
            JsValue::Int(1),
            other,
        ),
        Heap::numeric(kind, JsValue::Bool(false), other) == Heap::numeric(
            kind,
            JsValue::Int(0),
            other,
        ),
        Heap::numeric(kind, JsValue::Null, other) == Heap::numeric(kind, JsValue::Int(0), other),
        Heap::numeric(kind, other, JsValue::Bool(true)) == Heap::numeric(
            kind,
            other,
            JsValue::Int(1),
        ),
        Heap::numeric(kind, other, JsValue::Bool(false)) == Heap::numeric(
            kind,
            other,
            JsValue::Int(0),
        ),
        Heap::numeric(kind, other, JsValue::Null) == Heap::numeric(kind, other, JsValue::Int(0)),
        Heap::plus(JsValue::Bool(true)) == Heap::plus(JsValue::Int(1)),
        Heap::plus(JsValue::Bool(false)) == Heap::plus(JsValue::Int(0)),
        Heap::plus(JsValue::Null) == Heap::plus(JsValue::Int(0)),
        !(other is String) ==> {
            &&& heap.sum(JsValue::Bool(true), other) == heap.sum(JsValue::Int(1), other)
            &&& heap.sum(JsValue::Bool(false), other) == heap.sum(JsValue::Int(0), other)
            &&& heap.sum(JsValue::Null, other) == heap.sum(JsValue::Int(0), other)
            &&& heap.sum(other, JsValue::Bool(true)) == heap.sum(other, JsValue::Int(1))
            &&& heap.sum(other, JsValue::Bool(false)) == heap.sum(other, JsValue::Int(0))
            &&& heap.sum(other, JsValue::Null) == heap.sum(other, JsValue::Int(0))
        },
{
}

/// An operator on values that are no small integers is never answered here,
/// and an addition only where it joins texts.
pub proof fn other_numbers_are_left_to_the_embedder(
    heap: Heap,
    kind: NumericKind,
    number: JsValue,
    other: JsValue,
)
    requires
        number is Undefined || number is Float || number is String || number is BigInt,
        !(other is Symbol),
    ensures
        Heap::numeric(kind, number, other) == Ok::<NumericOutcome, Error>(NumericOutcome::Embedder),
        Heap::numeric(kind, other, number) == Ok::<NumericOutcome, Error>(NumericOutcome::Embedder),
        !(number is String) && !(other is String) ==> {
            &&& !(heap.sum(number, other).1 matches Ok(NumericOutcome::Value(_)))
            &&& !(heap.sum(other, number).1 matches Ok(NumericOutcome::Value(_)))
            &&& heap.sum(number, other).0 == heap
        },
        (number is BigInt) && !(other is BigInt) && !(other is String) && !(other is Object) ==> {
            &&& heap.sum(number, other).1 matches Err(e) && e.kind is Type
            &&& heap.sum(other, number).1 matches Err(e) && e.kind is Type
        },
        (number is BigInt) && (other is BigInt) ==> heap.sum(number, other).1 == Ok::<
            NumericOutcome,
            Error,
        >(NumericOutcome::Embedder),
{
}

/// Quotients, remainders, powers and shifts can leave the small integers, so
/// none of them is answered here.
pub proof fn quotients_powers_and_shifts_are_left_to_the_embedder(
    kind: NumericKind,
    left: JsValue,
    right: JsValue,
)
    requires
        kind is Divide || kind is Remainder || kind is Power || kind is ShiftLeft
            || kind is ShiftRight || kind is ShiftRightUnsigned,
        !(left is Symbol),
        !(right is Symbol),
    ensures
        Heap::numeric(kind, left, right) == Ok::<NumericOutcome, Error>(NumericOutcome::Embedder),
{
}

/// A symbol is no number: every operator on one is a type error.
pub proof fn symbols_are_no_numbers(
    heap: Heap,
    kind: NumericKind,
    symbol: JsValue,
    other: JsValue,
)
    requires
        symbol is Symbol,
        !(other is Object),
        heap.primitive_text(other) is Ok || !(other is String || other is Float || other is BigInt),
    ensures
        Heap::numeric(kind, symbol, other) matches Err(e) && e.kind is Type,
        Heap::numeric(kind, other, symbol) matches Err(e) && e.kind is Type,
        Heap::plus(symbol) matches Err(e) && e.kind is Type,
        heap.sum(symbol, other).1 matches Err(e) && e.kind is Type,
        heap.sum(other, symbol).1 matches Err(e) && e.kind is Type,
        heap.sum(symbol, other).0 == heap,
        heap.sum(other, symbol).0 == heap,
{
}

/// A difference is what has to be added to the right operand to give the left
/// one, and it is answered wherever it is a small integer.
pub proof fn differences_undo_sums(heap: Heap, a: i32, b: i32, d: i32)
    ensures
        Heap::numeric(NumericKind::Subtract, JsValue::Int(a), JsValue::Int(b)) == Ok::<
            NumericOutcome,
            Error,
        >(NumericOutcome::Value(JsValue::Int(d))) <==> heap.sum(JsValue::Int(d), JsValue::Int(b)) == (
            heap,
            Ok::<NumericOutcome, Error>(NumericOutcome::Value(JsValue::Int(a))),
        ),
        heap.sum(JsValue::Int(d), JsValue::Int(b)).1 == Ok::<NumericOutcome, Error>(
            NumericOutcome::Value(JsValue::Int(a)),
        ) <==> d - a == -b,
        heap.sum(JsValue::Int(a), JsValue::Int(b)) == heap.sum(JsValue::Int(b), JsValue::Int(a)),
        heap.sum(JsValue::Int(a), JsValue::Int(b)).1 is Ok,
        heap.sum(JsValue::Int(a), JsValue::Int(b)).1->Ok_0 is Embedder <==> !(i32::MIN <= a + b
            <= i32::MAX),
        Heap::numeric(NumericKind::Subtract, JsValue::Int(a), JsValue::Int(b)) is Ok,
        Heap::numeric(NumericKind::Subtract, JsValue::Int(a), JsValue::Int(b))->Ok_0 is Embedder <==> !(
        i32::MIN <= a - b <= i32::MAX),
{
}

/// Counting up and counting down undo each other and change the number by one.
pub proof fn counting_up_undoes_counting_down(heap: Heap, a: i32, b: i32, other: JsValue)
    requires
        !(other is Symbol),
    ensures
        Heap::numeric(NumericKind::Increment, JsValue::Int(a), other) == Ok::<NumericOutcome, Error>(
            NumericOutcome::Value(JsValue::Int(b)),
        ) && Heap::small_int(other) is Some <==> Heap::numeric(
            NumericKind::Decrement,
            JsValue::Int(b),
            other,
        ) == Ok::<NumericOutcome, Error>(NumericOutcome::Value(JsValue::Int(a)))
            && Heap::small_int(other) is Some,
        Heap::numeric(NumericKind::Increment, JsValue::Int(a), JsValue::Null) == Ok::<
            NumericOutcome,
            Error,
        >(NumericOutcome::Value(JsValue::Int(b))) <==> b - a == 1,
        Heap::numeric(NumericKind::Increment, JsValue::Int(a), JsValue::Null) == heap.sum(
            JsValue::Int(a),
            JsValue::Int(1),
        ).1,
        Heap::numeric(NumericKind::Decrement, JsValue::Int(a), JsValue::Null) == Heap::numeric(
            NumericKind::Subtract,
            JsValue::Int(a),
            JsValue::Int(1),
        ),
        Heap::numeric(NumericKind::Increment, JsValue::Int(i32::MAX), JsValue::Null) == Ok::<
            NumericOutcome,
            Error,
        >(NumericOutcome::Embedder),
        Heap::numeric(NumericKind::Decrement, JsValue::Int(i32::MIN), JsValue::Null) == Ok::<
            NumericOutcome,
            Error,
        >(NumericOutcome::Embedder),
{
}

/// A number and its negation cancel, negating twice gives the number back, and
/// the negation of zero, which is no small integer, is left to the embedder.
pub proof fn negations_cancel(heap: Heap, a: i32, n: i32)
    ensures
        Heap::numeric(NumericKind::Negate, JsValue::Int(a), JsValue::Null) == Ok::<
            NumericOutcome,
            Error,
        >(NumericOutcome::Value(JsValue::Int(n))) <==> n + a == 0 && n != 0,
        Heap::numeric(NumericKind::Negate, JsValue::Int(a), JsValue::Null) == Ok::<
            NumericOutcome,
            Error,
        >(NumericOutcome::Value(JsValue::Int(n))) ==> Heap::numeric(
            NumericKind::Negate,
            JsValue::Int(n),
            JsValue::Null,
        ) == Ok::<NumericOutcome, Error>(NumericOutcome::Value(JsValue::Int(a))),
        a == 0 || a == i32::MIN <==> Heap::numeric(
            NumericKind::Negate,
            JsValue::Int(a),
            JsValue::Null,
        ) == Ok::<NumericOutcome, Error>(NumericOutcome::Embedder),
{
}

/// Multiplication is repeated addition.  A zero that has to be negative and a
/// product that is no small integer are left to the embedder.
pub proof fn products_are_repeated_sums(a: i32, b: i32, p: i32, q: i32)
    ensures
        Heap::numeric(NumericKind::Multiply, JsValue::Int(a), JsValue::Int(b)) == Heap::numeric(
            NumericKind::Multiply,
            JsValue::Int(b),
            JsValue::Int(a),
        ),
        Heap::numeric(NumericKind::Multiply, JsValue::Int(a), JsValue::Int(1)) == (if a == 0 {
            Ok::<NumericOutcome, Error>(NumericOutcome::Value(JsValue::Int(0)))
        } else {
            Ok::<NumericOutcome, Error>(NumericOutcome::Value(JsValue::Int(a)))
        }),
        b < i32::MAX && Heap::numeric(NumericKind::Multiply, JsValue::Int(a), JsValue::Int(b))
            == Ok::<NumericOutcome, Error>(NumericOutcome::Value(JsValue::Int(p)))
            && Heap::numeric(NumericKind::Multiply, JsValue::Int(a), JsValue::Int((b + 1) as i32))
            == Ok::<NumericOutcome, Error>(NumericOutcome::Value(JsValue::Int(q))) ==> q - p == a,
        Heap::numeric(NumericKind::Multiply, JsValue::Int(a), JsValue::Int(b)) == Ok::<
            NumericOutcome,
            Error,
        >(NumericOutcome::Value(JsValue::Int(p))) <==> p == a * b && (p == 0 ==> a >= 0 && b >= 0),
        Heap::numeric(NumericKind::Multiply, JsValue::Int(a), JsValue::Int(b)) is Ok,
{
    assert(a * b == b * a) by (nonlinear_arith);
    assert(a * (b + 1) == a * b + a) by (nonlinear_arith);
}

/// The order of small integers is strict, total and transitive, the two
/// relations are each other's mirror, and counting up goes up.
pub proof fn relations_order_the_integers(a: i32, b: i32, c: i32)
    ensures
        Heap::numeric(NumericKind::Less, JsValue::Int(a), JsValue::Int(b)) == Heap::numeric(
            NumericKind::Greater,
            JsValue::Int(b),
            JsValue::Int(a),
        ),
        Heap::numeric(NumericKind::Less, JsValue::Int(a), JsValue::Int(b)) matches Ok(
            NumericOutcome::Value(JsValue::Bool(less)),
        ) && (less <==> b - a > 0),
        Heap::numeric(NumericKind::Less, JsValue::Int(a), JsValue::Int(a)) == Ok::<
            NumericOutcome,
            Error,
        >(NumericOutcome::Value(JsValue::Bool(false))),
        a != b ==> Heap::numeric(NumericKind::Less, JsValue::Int(a), JsValue::Int(b)) != Heap::numeric(
            NumericKind::Less,
            JsValue::Int(b),
            JsValue::Int(a),
        ),
        Heap::numeric(NumericKind::Less, JsValue::Int(a), JsValue::Int(b)) == Ok::<
            NumericOutcome,
            Error,
        >(NumericOutcome::Value(JsValue::Bool(true))) && Heap::numeric(
            NumericKind::Less,
            JsValue::Int(b),
            JsValue::Int(c),
        ) == Ok::<NumericOutcome, Error>(NumericOutcome::Value(JsValue::Bool(true)))
            ==> Heap::numeric(NumericKind::Less, JsValue::Int(a), JsValue::Int(c)) == Ok::<
            NumericOutcome,
            Error,
        >(NumericOutcome::Value(JsValue::Bool(true))),
        Heap::numeric(NumericKind::Increment, JsValue::Int(a), JsValue::Null) == Ok::<
            NumericOutcome,
            Error,
        >(NumericOutcome::Value(JsValue::Int(b))) ==> Heap::numeric(
            NumericKind::Less,
            JsValue::Int(a),
            JsValue::Int(b),
        ) == Ok::<NumericOutcome, Error>(NumericOutcome::Value(JsValue::Bool(true))),
{
}

/// A number and its complement add up to minus one, and the complement of the
/// complement is the number.
pub proof fn complements_cancel(heap: Heap, a: i32)
    ensures
        Heap::numeric(NumericKind::BitNot, JsValue::Int(a), JsValue::Null) matches Ok(
            NumericOutcome::Value(JsValue::Int(n)),
        ) && heap.sum(JsValue::Int(n), JsValue::Int(a)).1 == Ok::<NumericOutcome, Error>(
            NumericOutcome::Value(JsValue::Int(-1i32)),
        ) && n + a == -1 && Heap::numeric(NumericKind::BitNot, JsValue::Int(n), JsValue::Null)
            == Ok::<NumericOutcome, Error>(NumericOutcome::Value(JsValue::Int(a))),
{
}

/// Whether bit `i` of a small integer is set.
pub open spec fn bit_is_set(n: i32, i: u32) -> bool {
    (n >> i) & 1 == 1
}

/// The bitwise operators work on every bit alone: a conjunction has the bits
/// that both operands have, a disjunction those that either has, an exclusive
/// disjunction those that exactly one has.
pub proof fn bitwise_operators_work_bit_by_bit(a: i32, b: i32, i: u32)
    requires
        0 <= i < 32,
    ensures
        Heap::numeric(NumericKind::BitAnd, JsValue::Int(a), JsValue::Int(b)) matches Ok(
            NumericOutcome::Value(JsValue::Int(r)),
        ) && (bit_is_set(r, i) <==> bit_is_set(a, i) && bit_is_set(b, i)),
        Heap::numeric(NumericKind::BitOr, JsValue::Int(a), JsValue::Int(b)) matches Ok(
            NumericOutcome::Value(JsValue::Int(r)),
        ) && (bit_is_set(r, i) <==> bit_is_set(a, i) || bit_is_set(b, i)),
        Heap::numeric(NumericKind::BitXor, JsValue::Int(a), JsValue::Int(b)) matches Ok(
            NumericOutcome::Value(JsValue::Int(r)),
        ) && (bit_is_set(r, i) <==> bit_is_set(a, i) != bit_is_set(b, i)),
        Heap::numeric(NumericKind::BitNot, JsValue::Int(a), JsValue::Null) matches Ok(
            NumericOutcome::Value(JsValue::Int(r)),
        ) && (bit_is_set(r, i) <==> !bit_is_set(a, i)),
{
    assert((((a & b) >> i) & 1 == 1) == ((a >> i) & 1 == 1 && (b >> i) & 1 == 1)) by (bit_vector)
        requires
            0 <= i < 32,
    ;
    assert((((a | b) >> i) & 1 == 1) == ((a >> i) & 1 == 1 || (b >> i) & 1 == 1)) by (bit_vector)
        requires
            0 <= i < 32,
    ;
    assert((((a ^ b) >> i) & 1 == 1) == (((a >> i) & 1 == 1) != ((b >> i) & 1 == 1)))
        by (bit_vector)
        requires
            0 <= i < 32,
    ;
    let n = (-a - 1) as i32;
    assert(((n >> i) & 1 == 1) == !((a >> i) & 1 == 1)) by (bit_vector)
        requires
            0 <= i < 32,
            n == -a - 1,
    ;
}

/// How the bitwise operators relate to each other and to arithmetic: neutral
/// and absorbing operands, complements, and the carries of a sum.
pub proof fn bitwise_operators_relate(a: i32, b: i32)
    ensures
        ({
            let and = Heap::numeric(NumericKind::BitAnd, JsValue::Int(a), JsValue::Int(b));
            let or = Heap::numeric(NumericKind::BitOr, JsValue::Int(a), JsValue::Int(b));
            let xor = Heap::numeric(NumericKind::BitXor, JsValue::Int(a), JsValue::Int(b));
            let dual = Heap::numeric(
                NumericKind::BitAnd,
                JsValue::Int((-1 - a) as i32),
                JsValue::Int((-1 - b) as i32),
            );
            and matches Ok(NumericOutcome::Value(JsValue::Int(both))) && or matches Ok(
                NumericOutcome::Value(JsValue::Int(either)),
            ) && xor matches Ok(NumericOutcome::Value(JsValue::Int(one))) && dual matches Ok(
                NumericOutcome::Value(JsValue::Int(neither)),
            ) && both + either == a + b && either - both == one && either == -1 - neither
        }),
        Heap::numeric(NumericKind::BitOr, JsValue::Int(a), JsValue::Int(0)) == Ok::<
            NumericOutcome,
            Error,
        >(NumericOutcome::Value(JsValue::Int(a))),
        Heap::numeric(NumericKind::BitOr, JsValue::Int(a), JsValue::Int(-1i32)) == Ok::<
            NumericOutcome,
            Error,
        >(NumericOutcome::Value(JsValue::Int(-1i32))),
        Heap::numeric(NumericKind::BitAnd, JsValue::Int(a), JsValue::Int(-1i32)) == Ok::<
            NumericOutcome,
            Error,
        >(NumericOutcome::Value(JsValue::Int(a))),
        Heap::numeric(NumericKind::BitAnd, JsValue::Int(a), JsValue::Int(0)) == Ok::<
            NumericOutcome,
            Error,
        >(NumericOutcome::Value(JsValue::Int(0))),
        Heap::numeric(NumericKind::BitXor, JsValue::Int(a), JsValue::Int(a)) == Ok::<
            NumericOutcome,
            Error,
        >(NumericOutcome::Value(JsValue::Int(0))),
        Heap::numeric(NumericKind::BitXor, JsValue::Int(a), JsValue::Int(-1i32)) == Heap::numeric(
            NumericKind::BitNot,
            JsValue::Int(a),
            JsValue::Null,
        ),
{
    assert((a & b) + (a | b) == a + b) by (bit_vector);
    assert((a | b) - (a & b) == (a ^ b)) by (bit_vector);
    let x = (-1 - a) as i32;
    let y = (-1 - b) as i32;
    assert((a | b) == -1 - (x & y)) by (bit_vector)
        requires
            x == -1 - a,
            y == -1 - b,
    ;
    assert((a | 0) == a && (a | -1i32) == -1 && (a & -1i32) == a && (a & 0) == 0 && (a ^ a) == 0 && (a
        ^ -1i32) == -1 - a) by (bit_vector);
}

/// Taking the numeric value changes no number: it is what unary plus gives, and
/// what adding zero and taking away zero leave.
pub proof fn numeric_values_are_kept(heap: Heap, value: JsValue, a: i32)
    ensures
        Heap::numeric(NumericKind::ToNumeric, JsValue::Int(a), JsValue::Null) == Ok::<
            NumericOutcome,
            Error,
        >(NumericOutcome::Value(JsValue::Int(a))),
        Heap::plus(JsValue::Int(a)) == Ok::<NumericOutcome, Error>(
            NumericOutcome::Value(JsValue::Int(a)),
        ),
        value is Bool || value is Null || value is Int ==> {
            &&& Heap::plus(value) == Heap::numeric(NumericKind::ToNumeric, value, JsValue::Null)
            &&& Heap::plus(value) == heap.sum(value, JsValue::Int(0)).1
            &&& Heap::plus(value) == Heap::numeric(NumericKind::Subtract, value, JsValue::Int(0))
        },
        value is Float ==> Heap::plus(value) == Ok::<NumericOutcome, Error>(
            NumericOutcome::Value(value),
        ),
        value is String ==> Heap::plus(value) == Ok::<NumericOutcome, Error>(
            NumericOutcome::Embedder,
        ),
        value is BigInt ==> (Heap::plus(value) matches Err(e) && e.kind is Type),
        // A number that is not equal to itself has all exponent bits and some
        // bit of the fraction set.
        value is Undefined ==> (Heap::plus(value) matches Ok(
            NumericOutcome::Value(JsValue::Float(bits)),
        ) && bits / 0x10_0000_0000_0000 % 0x800 == 0x7ff && bits % 0x10_0000_0000_0000 != 0),
{
}

/// The text of an addition with a string is the text of the left operand
/// followed by that of the right one, and the texts that were there stay.
pub proof fn sums_with_strings_join_texts(heap: Heap, left: JsValue, right: JsValue, a: Seq<u16>, b: Seq<u16>)
    requires
        heap.texts.len() < usize::MAX,
        left is String || right is String,
        heap.primitive_text(left) == Ok::<Seq<u16>, Error>(a),
        heap.primitive_text(right) == Ok::<Seq<u16>, Error>(b),
    ensures
        heap.sum(left, right).1 matches Ok(NumericOutcome::Value(JsValue::String(atom))) && {
            let text = heap.sum(left, right).0.text_at(atom);
            &&& text.len() == a.len() + b.len()
            &&& forall|i: int| 0 <= i < a.len() ==> #[trigger] text[i] == a[i]
            &&& forall|i: int| a.len() <= i < text.len() ==> #[trigger] text[i] == b[i - a.len()]
        },
        forall|atom: Atom| atom < heap.texts.len() ==> #[trigger] heap.sum(left, right).0.text_at(
            atom,
        ) == heap.text_at(atom),
{
    crate::text::interning_names_the_text(heap.texts, a + b);
}

/// The text of a primitive is its own for a string, the name of a constant, and
/// the decimal digits of a small integer.
pub proof fn primitives_have_their_texts(heap: Heap, atom: Atom, n: i32)
    requires
        Heap::pinned(heap.texts),
    ensures
        heap.primitive_text(JsValue::String(atom)) == Ok::<Seq<u16>, Error>(heap.text_at(atom)),
        heap.primitive_text(JsValue::Undefined) == Ok::<Seq<u16>, Error>(Texts::units("undefined")),
        heap.primitive_text(JsValue::Null) == Ok::<Seq<u16>, Error>(Texts::units("null")),
        heap.primitive_text(JsValue::Bool(true)) == Ok::<Seq<u16>, Error>(Texts::units("true")),
        heap.primitive_text(JsValue::Bool(false)) == Ok::<Seq<u16>, Error>(Texts::units("false")),
        heap.primitive_text(JsValue::Int(n)) matches Ok(text) && Texts::read_integer(text) == n,
        heap.primitive_text(JsValue::Object(crate::value::ObjectRef { domain: 0, index: 0 })) is Err,
{
    crate::text::decimal_texts_read_back(n as int);
}

/// A value and the string that it converts to are the same property key, a
/// string is the key of its own text, and a symbol is its own key.
pub proof fn keys_are_the_texts_of_their_values(heap: Heap, value: JsValue, text: Seq<u16>)
    requires
        heap.texts.len() < usize::MAX,
        heap.primitive_text(value) == Ok::<Seq<u16>, Error>(text),
        value matches JsValue::String(atom) ==> atom < heap.texts.len(),
    ensures
        heap.canonical_key(value).1 matches Ok(PropertyKey::String(atom)) && {
            &&& heap.canonical_key(value).0.text_at(atom) == text
            &&& value matches JsValue::String(own) ==> own == atom
            &&& heap.primitive_string(value).1 == Ok::<JsValue, Error>(JsValue::String(atom))
            &&& heap.primitive_string(value).0 == heap.canonical_key(value).0
        },
        forall|symbol: crate::value::SymbolRef|
            symbol.domain == heap.domain ==> #[trigger] heap.canonical_key(JsValue::Symbol(symbol)) == (
                heap,
                Ok::<PropertyKey, Error>(PropertyKey::Symbol(symbol)),
            ),
{
    crate::text::interning_names_the_text(heap.texts, text);
}

} // verus!
