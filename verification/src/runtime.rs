//! The runtime: object store, intern table, activation records and edge journal.
use vstd::prelude::*;
use crate::code::FunctionBytecode;
use crate::error::{Error, ErrorKind, NativeErrorKind};
use crate::frames::active::{ActiveFrameKind, ActiveFrameRecord, ActiveFrameToken, ActiveFrames, NativeFunctionId, FAMILY_COUNT};
use crate::heap::{EdgeEvent, Heap, HeapObject, NumberText, ObjectKind, ObjectPayload, PromiseReaction, PropertyEntry, PropertySlot, Realm, VarRef};
use crate::text::{append_text, copy_text, same_text, text_units, Texts};
use crate::value::{Atom, CallableRef, Completion, JsValue, ObjectRef, PropertyKey};

verus! {

pub const ATOM_EMPTY: usize = 0;
pub const ATOM_PROTOTYPE: usize = 1;
pub const ATOM_MESSAGE: usize = 2;
pub const ATOM_CONSTRUCTOR: usize = 3;
pub const ATOM_LENGTH: usize = 4;
pub const ATOM_VALUE_OF: usize = 5;
pub const ATOM_TO_STRING: usize = 6;
pub const ATOM_NAME: usize = 7;
pub const ATOM_DONE: usize = 8;
pub const ATOM_VALUE: usize = 9;
pub const ATOM_RETURN: usize = 10;
pub const ATOM_THROW: usize = 11;
pub const ATOM_DEFAULT: usize = 12;
pub const ATOM_NUMBER: usize = 13;
pub const ATOM_STRING: usize = 14;
pub const ATOM_UNDEFINED: usize = 15;
pub const ATOM_NULL: usize = 16;
pub const ATOM_TRUE: usize = 17;
pub const ATOM_FALSE: usize = 18;
pub const ATOM_STACK: usize = 19;
/// Number of texts that every runtime starts with.
pub const PINNED_COUNT: usize = 20;

pub const SYMBOL_TO_PRIMITIVE: usize = 0;
pub const SYMBOL_UNSCOPABLES: usize = 1;
pub const SYMBOL_ITERATOR: usize = 2;

/// Longest argument list that a call accepts.
pub const MAX_ARGUMENTS: usize = 65534;

pub struct Runtime {
    pub domain: u64,
    pub objects: Vec<HeapObject>,
    pub properties: Vec<PropertyEntry>,
    pub cells: Vec<VarRef>,
    pub closure_cells: Vec<usize>,
    pub bound_values: Vec<JsValue>,
    pub code: Vec<FunctionBytecode>,
    pub realms: Vec<Realm>,
    pub strings: Vec<Vec<u16>>,
    pub symbols: Vec<Option<Atom>>,
    pub number_texts: Vec<NumberText>,
    pub bigint_texts: Vec<Atom>,
    pub reactions: Vec<PromiseReaction>,
    pub edges: Vec<EdgeEvent>,
    pub active: ActiveFrames,
    pub next_token: u64,
    pub active_limit: usize,
}

impl View for Runtime {
    type V = Heap;

    open spec fn view(&self) -> Heap {
        Heap {
            domain: self.domain,
            objects: self.objects@,
            properties: self.properties@,
            cells: self.cells@,
            closure_cells: self.closure_cells@,
            bound_values: self.bound_values@,
            code: self.code@,
            realms: self.realms@,
            texts: Texts::table(self.strings@),
            symbols: self.symbols@,
            number_texts: self.number_texts@,
            bigint_texts: self.bigint_texts@,
            reactions: self.reactions@,
            edges: self.edges@,
            active: self.active@,
            next_token: self.next_token,
            active_limit: self.active_limit,
        }
    }
}

/// The capability to end one activation record.
#[derive(Clone, Copy, Debug, PartialEq, Eq, Structural)]
pub struct ActiveFrameGuard {
    pub token: ActiveFrameToken,
    pub depth: usize,
}

impl Heap {
    /// The pinned texts stand at their places.
    pub open spec fn pinned(texts: Seq<Seq<u16>>) -> bool {
        &&& texts.len() >= PINNED_COUNT
        &&& texts[ATOM_EMPTY as int] == Texts::units("")
        &&& texts[ATOM_PROTOTYPE as int] == Texts::units("prototype")
        &&& texts[ATOM_MESSAGE as int] == Texts::units("message")
        &&& texts[ATOM_CONSTRUCTOR as int] == Texts::units("constructor")
        &&& texts[ATOM_LENGTH as int] == Texts::units("length")
        &&& texts[ATOM_VALUE_OF as int] == Texts::units("valueOf")
        &&& texts[ATOM_TO_STRING as int] == Texts::units("toString")
        &&& texts[ATOM_NAME as int] == Texts::units("name")
        &&& texts[ATOM_DONE as int] == Texts::units("done")
        &&& texts[ATOM_VALUE as int] == Texts::units("value")
        &&& texts[ATOM_RETURN as int] == Texts::units("return")
        &&& texts[ATOM_THROW as int] == Texts::units("throw")
        &&& texts[ATOM_DEFAULT as int] == Texts::units("default")
        &&& texts[ATOM_NUMBER as int] == Texts::units("number")
        &&& texts[ATOM_STRING as int] == Texts::units("string")
        &&& texts[ATOM_UNDEFINED as int] == Texts::units("undefined")
        &&& texts[ATOM_NULL as int] == Texts::units("null")
        &&& texts[ATOM_TRUE as int] == Texts::units("true")
        &&& texts[ATOM_FALSE as int] == Texts::units("false")
        &&& texts[ATOM_STACK as int] == Texts::units("stack")
    }

    /// First entry that `owner` has under `key`, looking from `from`.
    pub open spec fn property_position(
        properties: Seq<PropertyEntry>,
        owner: usize,
        key: PropertyKey,
        from: int,
    ) -> Option<int>
        decreases properties.len() - from,
    {
        if from < 0 || from >= properties.len() {
            None
        } else if properties[from].owner == owner && properties[from].key == key {
            Some(from)
        } else {
            Heap::property_position(properties, owner, key, from + 1)
        }
    }

    pub open spec fn callable_payload(payload: ObjectPayload) -> bool {
        match payload {
            ObjectPayload::NativeFunction(_) => true,
            ObjectPayload::BoundFunction { .. } => true,
            ObjectPayload::BytecodeFunction(_) => true,
            ObjectPayload::Proxy { is_callable, .. } => is_callable,
            _ => false,
        }
    }

    pub open spec fn plain_object(prototype: Option<ObjectRef>) -> HeapObject {
        HeapObject {
            kind: ObjectKind::Ordinary,
            payload: ObjectPayload::Ordinary,
            prototype,
            is_constructor: false,
            extensible: true,
        }
    }

    /// A text of an error object under `name`.
    pub open spec fn error_entry(owner: usize, name: Atom, text: Atom) -> PropertyEntry {
        PropertyEntry {
            owner,
            key: PropertyKey::String(name),
            slot: PropertySlot::Data {
                value: JsValue::String(text),
                writable: true,
                enumerable: false,
                configurable: true,
            },
        }
    }

    pub open spec fn belongs(self, object: ObjectRef) -> bool {
        object.domain == self.domain
    }

    pub open spec fn live(self, object: ObjectRef) -> bool {
        object.domain == self.domain && object.index < self.objects.len()
    }

    pub open spec fn object_at(self, object: ObjectRef) -> Result<HeapObject, Error> {
        if object.index < self.objects.len() {
            Ok(self.objects[object.index as int])
        } else {
            Err(Error::stale())
        }
    }

    pub open spec fn realm_at(self, realm: usize) -> Result<Realm, Error> {
        if realm < self.realms.len() {
            Ok(self.realms[realm as int])
        } else {
            Err(Error::stale())
        }
    }

    pub open spec fn in_domain(self, value: JsValue) -> bool {
        match value {
            JsValue::Object(object) => object.domain == self.domain,
            JsValue::Symbol(symbol) => symbol.domain == self.domain,
            _ => true,
        }
    }

    pub open spec fn domain_check(self, value: JsValue, label: &'static str) -> Result<(), Error> {
        if self.in_domain(value) {
            Ok(())
        } else {
            Err(Error::wrong_runtime(label))
        }
    }

    pub open spec fn callable(self, object: ObjectRef) -> Result<Option<CallableRef>, Error> {
        match self.object_at(object) {
            Err(e) => Err(e),
            Ok(data) => if Heap::callable_payload(data.payload) {
                Ok(Some(CallableRef { object }))
            } else {
                Ok(None)
            },
        }
    }

    pub open spec fn constructor_bit(self, object: ObjectRef) -> Result<bool, Error> {
        match self.object_at(object) {
            Err(e) => Err(e),
            Ok(data) => Ok(data.is_constructor),
        }
    }

    pub open spec fn prototype(self, object: ObjectRef) -> Result<Option<ObjectRef>, Error> {
        match self.object_at(object) {
            Err(e) => Err(e),
            Ok(data) => Ok(data.prototype),
        }
    }

    pub open spec fn next_ref(self) -> ObjectRef {
        ObjectRef { domain: self.domain, index: self.objects.len() as usize }
    }

    pub open spec fn allocated(self, object: HeapObject) -> Heap {
        Heap { objects: self.objects.push(object), ..self }
    }

    pub open spec fn with_entry(self, entry: PropertyEntry) -> Heap {
        Heap { properties: self.properties.push(entry), ..self }
    }

    pub open spec fn with_text(self, text: Seq<u16>) -> Heap {
        Heap { texts: Texts::interned(self.texts, text), ..self }
    }

    pub open spec fn text_at(self, atom: Atom) -> Seq<u16> {
        if atom < self.texts.len() {
            self.texts[atom as int]
        } else {
            Seq::empty()
        }
    }

    /// `head`, the text of the atom, `tail`.
    pub open spec fn error_text(self, error: Error) -> Seq<u16> {
        Texts::units(error.head) + (match error.atom {
            Some(atom) => self.text_at(atom),
            None => Seq::empty(),
        }) + Texts::units(error.tail)
    }

    /// The heap with a fresh error object, which is the next reference.  It
    /// keeps its message and the activations that are visible now.
    pub open spec fn with_error(self, prototype: ObjectRef, error: Error) -> Heap {
        let owner = self.next_ref().index;
        let text = self.error_text(error);
        let stack = self.stack_text(self.active.len());
        let named = self.with_text(text);
        named.with_text(stack).allocated(
            HeapObject {
                kind: ObjectKind::Error,
                payload: ObjectPayload::Error,
                prototype: Some(prototype),
                is_constructor: false,
                extensible: true,
            },
        ).with_entry(
            Heap::error_entry(owner, ATOM_MESSAGE, Texts::atom_of(self.texts, text)),
        ).with_entry(Heap::error_entry(owner, ATOM_STACK, Texts::atom_of(named.texts, stack)))
    }

    /// A fresh error object of `kind` in `realm`.
    pub open spec fn native_error(
        self,
        realm: usize,
        kind: NativeErrorKind,
        error: Error,
    ) -> (Heap, Result<JsValue, Error>) {
        match self.realm_at(realm) {
            Err(e) => (self, Err(e)),
            Ok(data) => (
                self.with_error(data.error_prototype_of(kind), error),
                Ok(JsValue::Object(self.next_ref())),
            ),
        }
    }

    /// A program-visible error becomes a thrown error object of `realm`;
    /// any other error stays one.
    pub open spec fn thrown(self, realm: usize, error: Error) -> (Heap, Result<Completion, Error>) {
        match NativeErrorKind::visible(error.kind) {
            None => (self, Err(error)),
            Some(kind) => {
                let (heap, made) = self.native_error(realm, kind, error);
                match made {
                    Err(e) => (heap, Err(e)),
                    Ok(value) => (heap, Ok(Completion::Throw(value))),
                }
            },
        }
    }

    pub open spec fn overflow(self, realm: usize) -> (Heap, Result<Completion, Error>) {
        self.thrown(realm, Error::new(ErrorKind::Overflow, "stack overflow"))
    }

    pub open spec fn would_overflow(self) -> bool {
        self.active.len() >= self.active_limit
    }

    pub open spec fn journal(self, event: EdgeEvent) -> Heap {
        Heap { edges: self.edges.push(event), ..self }
    }

    /// Giving up one edge of `value`.
    pub open spec fn release(self, value: JsValue) -> (Heap, Result<(), Error>) {
        match value {
            JsValue::Object(object) => if self.live(object) {
                (self.journal(EdgeEvent::Release(object)), Ok(()))
            } else {
                (self, Err(Error::stale()))
            },
            _ => (self, Ok(())),
        }
    }

    /// Taking one more edge of `value`.
    pub open spec fn retain(self, value: JsValue) -> (Heap, Result<JsValue, Error>) {
        match value {
            JsValue::Object(object) => if self.live(object) {
                (self.journal(EdgeEvent::Retain(object)), Ok(value))
            } else {
                (self, Err(Error::stale()))
            },
            _ => (self, Ok(value)),
        }
    }

    /// Giving up the edges of all `values`, in order, skipping stale ones.
    pub open spec fn release_each(self, values: Seq<JsValue>) -> Heap
        decreases values.len(),
    {
        if values.len() == 0 {
            self
        } else {
            self.release(values[0]).0.release_each(values.drop_first())
        }
    }

    pub open spec fn find(self, object: ObjectRef, key: PropertyKey) -> Option<int> {
        Heap::property_position(self.properties, object.index, key, 0)
    }

    /// Ending the record of `guard` in stack order.
    pub open spec fn finished(self, guard: ActiveFrameGuard) -> (Heap, Result<(), Error>) {
        if self.active.len() > 0 && guard.depth == self.active.len() - 1
            && self.active.last().token == guard.token {
            (Heap { active: self.active.drop_last(), ..self }, Ok(()))
        } else {
            (
                Heap {
                    active: ActiveFrames::cut(
                        self.active,
                        ActiveFrames::retire_position(
                            self.active,
                            guard.token,
                            guard.depth as int,
                        ),
                    ),
                    ..self
                },
                Err(Error::broken("active frame did not finish in stack order")),
            )
        }
    }

    pub open spec fn record_for(
        self,
        function: ObjectRef,
        realm: usize,
        kind: ActiveFrameKind,
        native_continuation: bool,
        backtrace_hidden: bool,
    ) -> ActiveFrameRecord {
        ActiveFrameRecord {
            token: ActiveFrameToken(self.next_token),
            function,
            realm,
            kind,
            native_continuation,
            backtrace_hidden,
        }
    }

    /// Registering a bytecode activation.
    pub open spec fn entered(self, function: ObjectRef, realm: usize, strict: bool) -> (
        Heap,
        Result<ActiveFrameGuard, Error>,
    ) {
        if self.next_token == u64::MAX {
            (self, Err(Error::broken("active-frame token space was exhausted")))
        } else if self.active.len() >= usize::MAX {
            (self, Err(Error::broken("active-frame stack was exhausted")))
        } else {
            (
                Heap {
                    active: self.active.push(
                        self.record_for(
                            function,
                            realm,
                            ActiveFrameKind::Bytecode { pc: 0, strict },
                            false,
                            false,
                        ),
                    ),
                    next_token: (self.next_token + 1) as u64,
                    ..self
                },
                Ok(
                    ActiveFrameGuard {
                        token: ActiveFrameToken(self.next_token),
                        depth: self.active.len() as usize,
                    },
                ),
            )
        }
    }

    /// Whether a native activation with these counts can be registered.
    pub open spec fn publishable(
        self,
        target: NativeFunctionId,
        min_readable_args: u8,
        actual: nat,
        readable: nat,
        continuation: bool,
    ) -> Result<(), Error> {
        if readable != (if actual > min_readable_args {
            actual
        } else {
            min_readable_args as nat
        }) || (target.family matches Some(family) && family >= FAMILY_COUNT) {
            Err(Error::broken("native active frame disagrees with its rooted callable"))
        } else if self.next_token == u64::MAX {
            Err(Error::broken("active-frame token space was exhausted"))
        } else if self.active.len() >= usize::MAX || (!continuation && ActiveFrames::scan_cost(
            self.active,
        ) + target.weight > usize::MAX) {
            Err(Error::broken("active-frame stack was exhausted"))
        } else {
            Ok(())
        }
    }

    /// Registering a native activation.
    pub open spec fn published(
        self,
        function: ObjectRef,
        realm: usize,
        target: NativeFunctionId,
        min_readable_args: u8,
        actual: nat,
        readable: nat,
        continuation: bool,
        hidden: bool,
    ) -> (Heap, Result<ActiveFrameGuard, Error>) {
        match self.publishable(target, min_readable_args, actual, readable, continuation) {
            Err(e) => (self, Err(e)),
            Ok(_) => (
                Heap {
                    active: self.active.push(
                        self.record_for(
                            function,
                            realm,
                            ActiveFrameKind::Native {
                                target,
                                actual_arg_count: actual as usize,
                                readable_arg_count: readable as usize,
                            },
                            continuation,
                            hidden,
                        ),
                    ),
                    next_token: (self.next_token + 1) as u64,
                    ..self
                },
                Ok(
                    ActiveFrameGuard {
                        token: ActiveFrameToken(self.next_token),
                        depth: self.active.len() as usize,
                    },
                ),
            ),
        }
    }

    /// Taking one native activation off the native stack budget.
    pub open spec fn continued(self, guard: ActiveFrameGuard) -> (Heap, Result<(), Error>) {
        if guard.depth < self.active.len() && self.active[guard.depth as int].token == guard.token {
            let record = self.active[guard.depth as int];
            if record.native_continuation {
                (self, Err(Error::broken("native continuation was registered twice")))
            } else {
                (
                    Heap {
                        active: self.active.update(
                            guard.depth as int,
                            ActiveFrameRecord { native_continuation: true, ..record },
                        ),
                        ..self
                    },
                    Ok(()),
                )
            }
        } else {
            (self, Err(Error::broken("native continuation lost its active frame")))
        }
    }

    /// Publishing the program counter of the running frame.
    pub open spec fn pc_updated(self, token: ActiveFrameToken, pc: usize) -> (
        Heap,
        Result<(), Error>,
    ) {
        let (active, r) = ActiveFrames::pc_published(self.active, token, pc);
        (Heap { active, ..self }, r)
    }

    pub open spec fn function_at(self, bytecode: usize) -> Result<FunctionBytecode, Error> {
        if bytecode < self.code.len() {
            Ok(self.code[bytecode as int])
        } else {
            Err(Error::stale())
        }
    }
}

impl Runtime {
    /// The activation counters agree with their records and the pinned texts
    /// stand at their places.
    pub open spec fn wf(&self) -> bool {
        &&& self.active.wf()
        &&& Heap::pinned(self@.texts)
    }

    /// A runtime without objects or realms.
    pub fn new(domain: u64) -> (r: Runtime)
        ensures
            r.wf(),
            r@.domain == domain,
            r@.objects.len() == 0,
            r@.properties.len() == 0,
            r@.cells.len() == 0,
            r@.closure_cells.len() == 0,
            r@.bound_values.len() == 0,
            r@.code.len() == 0,
            r@.realms.len() == 0,
            r@.texts.len() == PINNED_COUNT,
            r@.symbols == seq![None::<Atom>, None::<Atom>, None::<Atom>],
            r@.number_texts.len() == 0,
            r@.bigint_texts.len() == 0,
            r@.reactions.len() == 0,
            r@.edges.len() == 0,
            r@.active.len() == 0,
            r@.next_token == 1,
            r@.active_limit == usize::MAX,
    {
        let mut strings: Vec<Vec<u16>> = Vec::new();
        strings.push(text_units(""));
        strings.push(text_units("prototype"));
        strings.push(text_units("message"));
        strings.push(text_units("constructor"));
        strings.push(text_units("length"));
        strings.push(text_units("valueOf"));
        strings.push(text_units("toString"));
        strings.push(text_units("name"));
        strings.push(text_units("done"));
        strings.push(text_units("value"));
        strings.push(text_units("return"));
        strings.push(text_units("throw"));
        strings.push(text_units("default"));
        strings.push(text_units("number"));
        strings.push(text_units("string"));
        strings.push(text_units("undefined"));
        strings.push(text_units("null"));
        strings.push(text_units("true"));
        strings.push(text_units("false"));
        strings.push(text_units("stack"));
        let mut symbols: Vec<Option<Atom>> = Vec::new();
        symbols.push(None);
        symbols.push(None);
        symbols.push(None);
        Runtime {
            domain,
            objects: Vec::new(),
            properties: Vec::new(),
            cells: Vec::new(),
            closure_cells: Vec::new(),
            bound_values: Vec::new(),
            code: Vec::new(),
            realms: Vec::new(),
            strings,
            symbols,
            number_texts: Vec::new(),
            bigint_texts: Vec::new(),
            reactions: Vec::new(),
            edges: Vec::new(),
            active: ActiveFrames::with_depth(),
            next_token: 1,
            active_limit: usize::MAX,
        }
    }

    pub fn domain_id(&self) -> (r: u64)
        ensures
            r == self@.domain,
    {
        self.domain
    }

    pub fn object(&self, object: ObjectRef) -> (r: Result<HeapObject, Error>)
        ensures
            r == self@.object_at(object),
    {
        if object.index < self.objects.len() {
            Ok(self.objects[object.index])
        } else {
            Err(Error::stale())
        }
    }

    pub fn realm(&self, realm: usize) -> (r: Result<Realm, Error>)
        ensures
            r == self@.realm_at(realm),
    {
        if realm < self.realms.len() {
            Ok(self.realms[realm])
        } else {
            Err(Error::stale())
        }
    }

    pub fn validate_value_domain(&self, value: JsValue, label: &'static str) -> (r: Result<
        (),
        Error,
    >)
        ensures
            r == self@.domain_check(value, label),
    {
        let ok = match value {
            JsValue::Object(object) => object.domain == self.domain,
            JsValue::Symbol(symbol) => symbol.domain == self.domain,
            _ => true,
        };
        if ok {
            Ok(())
        } else {
            Err(Error::wrong_runtime(label))
        }
    }

    pub fn as_callable(&self, object: ObjectRef) -> (r: Result<Option<CallableRef>, Error>)
        ensures
            r == self@.callable(object),
    {
        let data = self.object(object)?;
        let is_callable = match data.payload {
            ObjectPayload::NativeFunction(_) => true,
            ObjectPayload::BoundFunction { .. } => true,
            ObjectPayload::BytecodeFunction(_) => true,
            ObjectPayload::Proxy { is_callable, .. } => is_callable,
            _ => false,
        };
        if is_callable {
            Ok(Some(CallableRef { object }))
        } else {
            Ok(None)
        }
    }

    pub fn is_constructor(&self, object: ObjectRef) -> (r: Result<bool, Error>)
        ensures
            r == self@.constructor_bit(object),
    {
        let data = self.object(object)?;
        Ok(data.is_constructor)
    }

    pub fn get_prototype_of(&self, object: ObjectRef) -> (r: Result<Option<ObjectRef>, Error>)
        ensures
            r == self@.prototype(object),
    {
        let data = self.object(object)?;
        Ok(data.prototype)
    }

    pub fn function_bytecode(&self, bytecode: usize) -> (r: Result<&FunctionBytecode, Error>)
        ensures
            match r {
                Ok(function) => self@.function_at(bytecode) == Ok::<FunctionBytecode, Error>(
                    *function,
                ),
                Err(e) => self@.function_at(bytecode) == Err::<FunctionBytecode, Error>(e),
            },
    {
        if bytecode < self.code.len() {
            Ok(&self.code[bytecode])
        } else {
            Err(Error::stale())
        }
    }

    pub fn allocate(&mut self, object: HeapObject) -> (r: ObjectRef)
        requires
            old(self).wf(),
        ensures
            final(self).wf(),
            final(self)@ == old(self)@.allocated(object),
            r == old(self)@.next_ref(),
    {
        let index: usize = self.objects.len();
        self.objects.push(object);
        ObjectRef { domain: self.domain, index }
    }

    pub fn new_object(&mut self, prototype: Option<ObjectRef>) -> (r: ObjectRef)
        requires
            old(self).wf(),
        ensures
            final(self).wf(),
            final(self)@ == old(self)@.allocated(Heap::plain_object(prototype)),
            r == old(self)@.next_ref(),
    {
        self.allocate(
            HeapObject {
                kind: ObjectKind::Ordinary,
                payload: ObjectPayload::Ordinary,
                prototype,
                is_constructor: false,
                extensible: true,
            },
        )
    }

    pub fn add_property(&mut self, entry: PropertyEntry)
        requires
            old(self).wf(),
        ensures
            final(self).wf(),
            final(self)@ == old(self)@.with_entry(entry),
    {
        self.properties.push(entry);
    }

    /// The name of `text` in the intern table.
    pub fn intern(&mut self, text: Vec<u16>) -> (r: Atom)
        requires
            old(self).wf(),
        ensures
            final(self).wf(),
            final(self)@ == old(self)@.with_text(text@),
            r == Texts::atom_of(old(self)@.texts, text@),
    {
        let ghost texts = self@.texts;
        let mut i: usize = 0;
        while i < self.strings.len()
            invariant
                self.wf(),
                self@ == old(self)@,
                texts == Texts::table(self.strings@),
                i <= self.strings@.len(),
                Texts::position(texts, text@, 0) == Texts::position(texts, text@, i as int),
            decreases self.strings@.len() - i,
        {
            if same_text(&self.strings[i], &text) {
                return i;
            }
            i = i + 1;
        }
        let atom: usize = self.strings.len();
        let ghost added = text@;
        self.strings.push(text);
        assert(Texts::table(self.strings@) =~= texts.push(added));
        atom
    }

    /// The property key of a literal.
    pub fn intern_property_key(&mut self, text: &str) -> (r: PropertyKey)
        requires
            old(self).wf(),
        ensures
            final(self).wf(),
            final(self)@ == old(self)@.with_text(Texts::units(text)),
            r == PropertyKey::String(Texts::atom_of(old(self)@.texts, Texts::units(text))),
    {
        let text = text_units(text);
        PropertyKey::String(self.intern(text))
    }

    /// The units that an atom names.
    pub fn text(&self, atom: Atom) -> (r: Vec<u16>)
        ensures
            r@ == self@.text_at(atom),
    {
        if atom < self.strings.len() {
            copy_text(&self.strings[atom])
        } else {
            Vec::new()
        }
    }

    /// The text of an error.
    pub fn error_units(&self, error: Error) -> (r: Vec<u16>)
        ensures
            r@ == self@.error_text(error),
    {
        let mut out = text_units(error.head);
        match error.atom {
            Some(atom) => {
                let name = self.text(atom);
                append_text(&mut out, &name);
            },
            None => {},
        }
        let tail = text_units(error.tail);
        append_text(&mut out, &tail);
        assert(out@ =~= self@.error_text(error));
        out
    }

    fn add_error_text(&mut self, object: ObjectRef, name: Atom, text: Atom)
        requires
            old(self).wf(),
        ensures
            final(self).wf(),
            final(self)@ == old(self)@.with_entry(Heap::error_entry(object.index, name, text)),
    {
        self.add_property(
            PropertyEntry {
                owner: object.index,
                key: PropertyKey::String(name),
                slot: PropertySlot::Data {
                    value: JsValue::String(text),
                    writable: true,
                    enumerable: false,
                    configurable: true,
                },
            },
        );
    }

    /// A fresh error object with the text of `error` and of the activations.
    pub fn new_native_error_from_error(
        &mut self,
        realm: usize,
        kind: NativeErrorKind,
        error: Error,
    ) -> (r: Result<JsValue, Error>)
        requires
            old(self).wf(),
        ensures
            final(self).wf(),
            (final(self)@, r) == old(self)@.native_error(realm, kind, error),
    {
        let data = self.realm(realm)?;
        let prototype = data.error_prototype(kind);
        let text = self.error_units(error);
        let stack = self.stack_units();
        let message: usize = self.intern(text);
        let trace: usize = self.intern(stack);
        let object = self.allocate(
            HeapObject {
                kind: ObjectKind::Error,
                payload: ObjectPayload::Error,
                prototype: Some(prototype),
                is_constructor: false,
                extensible: true,
            },
        );
        self.add_error_text(object, ATOM_MESSAGE, message);
        self.add_error_text(object, ATOM_STACK, trace);
        Ok(JsValue::Object(object))
    }

    /// Throw a program-visible error in `realm`; hand any other error back.
    pub fn throw_error(&mut self, realm: usize, error: Error) -> (r: Result<Completion, Error>)
        requires
            old(self).wf(),
        ensures
            final(self).wf(),
            (final(self)@, r) == old(self)@.thrown(realm, error),
    {
        match NativeErrorKind::from_javascript_error(error.kind) {
            None => Err(error),
            Some(kind) => {
                let value = self.new_native_error_from_error(realm, kind, error)?;
                Ok(Completion::Throw(value))
            },
        }
    }

    pub fn bytecode_call_would_overflow(&self) -> (r: bool)
        requires
            self.wf(),
        ensures
            r == self@.would_overflow(),
    {
        self.active.len() >= self.active_limit
    }

    pub fn bytecode_stack_overflow_completion(&mut self, realm: usize) -> (r: Result<
        Completion,
        Error,
    >)
        requires
            old(self).wf(),
        ensures
            final(self).wf(),
            (final(self)@, r) == old(self)@.overflow(realm),
    {
        self.throw_error(realm, Error::new(ErrorKind::Overflow, "stack overflow"))
    }

    /// Give up one edge.
    pub fn release_jsvalue(&mut self, value: JsValue) -> (r: Result<(), Error>)
        requires
            old(self).wf(),
        ensures
            final(self).wf(),
            (final(self)@, r) == old(self)@.release(value),
    {
        match value {
            JsValue::Object(object) => {
                if object.domain == self.domain && object.index < self.objects.len() {
                    self.edges.push(EdgeEvent::Release(object));
                    Ok(())
                } else {
                    Err(Error::stale())
                }
            },
            _ => Ok(()),
        }
    }

    /// Take one more edge.
    pub fn dup_jsvalue(&mut self, value: JsValue) -> (r: Result<JsValue, Error>)
        requires
            old(self).wf(),
        ensures
            final(self).wf(),
            (final(self)@, r) == old(self)@.retain(value),
    {
        match value {
            JsValue::Object(object) => {
                if object.domain == self.domain && object.index < self.objects.len() {
                    self.edges.push(EdgeEvent::Retain(object));
                    Ok(value)
                } else {
                    Err(Error::stale())
                }
            },
            _ => Ok(value),
        }
    }

    /// Give up the edges of a list, in order, passing over stale handles.
    pub fn release_list(&mut self, values: &Vec<JsValue>)
        requires
            old(self).wf(),
        ensures
            final(self).wf(),
            final(self)@ == old(self)@.release_each(values@),
    {
        let mut i: usize = 0;
        assert(values@.skip(0) =~= values@);
        while i < values.len()
            invariant
                self.wf(),
                i <= values@.len(),
                self@.release_each(values@.skip(i as int)) == old(self)@.release_each(values@),
            decreases values@.len() - i,
        {
            let ghost rest = values@.skip(i as int);
            assert(rest[0] == values@[i as int]);
            assert(rest.drop_first() =~= values@.skip(i as int + 1));
            let _ = self.release_jsvalue(values[i]);
            i = i + 1;
        }
    }

    /// Position of the first entry that `object` has under `key`.
    pub fn find_property(&self, object: ObjectRef, key: PropertyKey) -> (r: Option<usize>)
        ensures
            match r {
                Some(p) => self@.find(object, key) == Some(p as int) && p < self@.properties.len(),
                None => self@.find(object, key) is None,
            },
    {
        let mut i: usize = 0;
        while i < self.properties.len()
            invariant
                i <= self.properties@.len(),
                Heap::property_position(self.properties@, object.index, key, 0) == Heap::property_position(
                    self.properties@,
                    object.index,
                    key,
                    i as int,
                ),
            decreases self.properties@.len() - i,
        {
            if self.properties[i].owner == object.index && self.properties[i].key == key {
                return Some(i);
            }
            i = i + 1;
        }
        None
    }

    /// Register a bytecode activation.
    pub fn push_bytecode_active_frame(&mut self, function: ObjectRef, realm: usize, strict: bool)
        -> (r: Result<ActiveFrameGuard, Error>)
        requires
            old(self).wf(),
        ensures
            final(self).wf(),
            (final(self)@, r) == old(self)@.entered(function, realm, strict),
    {
        if self.next_token == u64::MAX {
            return Err(Error::broken("active-frame token space was exhausted"));
        }
        let depth: usize = self.active.len();
        if depth == usize::MAX {
            return Err(Error::broken("active-frame stack was exhausted"));
        }
        let token = ActiveFrameToken(self.next_token);
        let record = ActiveFrameRecord {
            token,
            function,
            realm,
            kind: ActiveFrameKind::Bytecode { pc: 0, strict },
            native_continuation: false,
            backtrace_hidden: false,
        };
        proof {
            self.active.cost_fits();
        }
        self.active.push(record);
        self.next_token = self.next_token + 1;
        Ok(ActiveFrameGuard { token, depth })
    }

    /// Register a native activation.
    pub fn push_native_active_frame(
        &mut self,
        function: ObjectRef,
        realm: usize,
        target: NativeFunctionId,
        min_readable_args: u8,
        actual: usize,
        readable: usize,
        continuation: bool,
        hidden: bool,
    ) -> (r: Result<ActiveFrameGuard, Error>)
        requires
            old(self).wf(),
        ensures
            final(self).wf(),
            (final(self)@, r) == old(self)@.published(
                function,
                realm,
                target,
                min_readable_args,
                actual as nat,
                readable as nat,
                continuation,
                hidden,
            ),
    {
        let minimum: usize = min_readable_args as usize;
        let expected: usize = if actual > minimum {
            actual
        } else {
            minimum
        };
        let counted = match target.family {
            Some(family) => family < FAMILY_COUNT,
            None => true,
        };
        if readable != expected || !counted {
            return Err(Error::broken("native active frame disagrees with its rooted callable"));
        }
        if self.next_token == u64::MAX {
            return Err(Error::broken("active-frame token space was exhausted"));
        }
        let depth: usize = self.active.len();
        let cost: usize = self.active.native_cost();
        if depth == usize::MAX || (!continuation && cost.checked_add(target.weight).is_none()) {
            return Err(Error::broken("active-frame stack was exhausted"));
        }
        let token = ActiveFrameToken(self.next_token);
        let record = ActiveFrameRecord {
            token,
            function,
            realm,
            kind: ActiveFrameKind::Native {
                target,
                actual_arg_count: actual,
                readable_arg_count: readable,
            },
            native_continuation: continuation,
            backtrace_hidden: hidden,
        };
        self.active.push_lazy_native(record);
        self.next_token = self.next_token + 1;
        Ok(ActiveFrameGuard { token, depth })
    }

    /// Take one native activation off the native stack budget.
    pub fn mark_native_continuation(&mut self, guard: ActiveFrameGuard) -> (r: Result<(), Error>)
        requires
            old(self).wf(),
        ensures
            final(self).wf(),
            (final(self)@, r) == old(self)@.continued(guard),
    {
        let record = match self.active.get(guard.depth) {
            Some(record) => *record,
            None => {
                return Err(Error::broken("native continuation lost its active frame"));
            },
        };
        if record.token != guard.token {
            return Err(Error::broken("native continuation lost its active frame"));
        }
        if record.native_continuation {
            return Err(Error::broken("native continuation was registered twice"));
        }
        self.active.mark_native_continuation(guard.depth, guard.token);
        Ok(())
    }

    /// Publish the program counter of the running frame.
    pub fn update_active_bytecode_pc(&mut self, token: ActiveFrameToken, pc: usize) -> (r: Result<
        (),
        Error,
    >)
        requires
            old(self).wf(),
        ensures
            final(self).wf(),
            (final(self)@, r) == old(self)@.pc_updated(token, pc),
    {
        self.active.set_current_pc(token, pc)
    }

    /// End one activation record.
    pub fn finish_active_frame(&mut self, guard: ActiveFrameGuard) -> (r: Result<(), Error>)
        requires
            old(self).wf(),
        ensures
            final(self).wf(),
            (final(self)@, r) == old(self)@.finished(guard),
    {
        let length: usize = self.active.len();
        let in_order = match self.active.last() {
            Some(record) => record.token == guard.token && guard.depth == length - 1,
            None => false,
        };
        if in_order {
            self.active.pop();
            Ok(())
        } else {
            self.active.retire(guard.token, guard.depth);
            Err(Error::broken("active frame did not finish in stack order"))
        }
    }
}

/// Taking an edge of a live object and giving it up again leaves as many as
/// before; a value that is no object has none, and a stale object is refused
/// without a change.
pub proof fn edges_are_taken_and_given_up(heap: Heap, value: JsValue, object: ObjectRef)
    ensures
        value == JsValue::Object(object) && heap.live(object) ==> {
            let (taken, r) = heap.retain(value);
            let (given, s) = heap.release(value);
            &&& r == Ok::<JsValue, Error>(value)
            &&& s is Ok
            &&& Heap::held(taken.edges, object) == Heap::held(heap.edges, object) + 1
            &&& Heap::held(given.edges, object) == Heap::held(heap.edges, object) - 1
            &&& Heap::held(taken.release(value).0.edges, object) == Heap::held(heap.edges, object)
            &&& taken == (Heap { edges: taken.edges, ..heap })
            &&& given == (Heap { edges: given.edges, ..heap })
        },
        value == JsValue::Object(object) && !heap.live(object) ==> heap.retain(value).0 == heap
            && heap.release(value).0 == heap && heap.retain(value).1 is Err && heap.release(
            value,
        ).1 is Err,
        !(value is Object) ==> heap.retain(value) == (heap, Ok::<JsValue, Error>(value))
            && heap.release(value) == (heap, Ok::<(), Error>(())),
{
    let taken = heap.retain(value).0;
    let given = heap.release(value).0;
    let both = taken.release(value).0;
    if value == JsValue::Object(object) && heap.live(object) {
        assert(taken.edges.drop_last() =~= heap.edges);
        assert(given.edges.drop_last() =~= heap.edges);
        assert(both.edges.drop_last() =~= taken.edges);
        reveal_with_fuel(Heap::held, 2);
        assert(Heap::held(taken.edges, object) == Heap::held(heap.edges, object) + 1);
        assert(Heap::held(given.edges, object) == Heap::held(heap.edges, object) - 1);
        assert(Heap::held(both.edges, object) == Heap::held(taken.edges, object) - 1);
    }
}

/// Code that is entered is the newest activation, with a token that was never
/// issued, at its first instruction and visible; ending it restores the
/// activations, and its token is not issued again.
pub proof fn entered_code_is_the_newest_activation(
    heap: Heap,
    function: ObjectRef,
    realm: usize,
    strict: bool,
    guard: ActiveFrameGuard,
)
    requires
        heap.entered(function, realm, strict).1 == Ok::<ActiveFrameGuard, Error>(guard),
        heap.active.len() < usize::MAX,
    ensures
        ({
            let after = heap.entered(function, realm, strict).0;
            let record = after.active.last();
            &&& after.active.len() == heap.active.len() + 1
            &&& after.active.drop_last() == heap.active
            &&& record.function == function
            &&& record.realm == realm
            &&& record.kind == (ActiveFrameKind::Bytecode { pc: 0, strict })
            &&& !record.backtrace_hidden && !record.native_continuation
            &&& record.token == guard.token
            &&& guard.token.0 == heap.next_token
            &&& after.next_token == heap.next_token + 1
            &&& after.finished(guard).1 is Ok
            &&& after.finished(guard).0.active == heap.active
            &&& after.finished(guard).0.next_token == after.next_token
        }),
{
    let after = heap.entered(function, realm, strict).0;
    assert(after.active.drop_last() =~= heap.active);
}

/// An activation that is ended out of order is refused, and is gone all the same
/// with everything above it.
pub proof fn activations_end_in_stack_order(heap: Heap, guard: ActiveFrameGuard, at: int)
    requires
        0 <= at < heap.active.len() - 1,
        heap.active[at].token == guard.token,
        forall|i: int, j: int|
            0 <= i < j < heap.active.len() ==> (#[trigger] heap.active[i]).token != (
            #[trigger] heap.active[j]).token,
    ensures
        heap.finished(guard).1 is Err,
        heap.finished(guard).0 == (Heap { active: heap.active.take(at), ..heap }),
{
    crate::frames::active::retirement_removes_the_record(
        heap.active,
        guard.token,
        guard.depth as int,
        at,
    );
    assert(heap.active[at].token != heap.active[heap.active.len() - 1].token);
}

/// A native activation becomes a continuation once: it keeps its place and all
/// that is shown of it, and no longer takes any budget.
pub proof fn continuations_leave_the_budget(heap: Heap, guard: ActiveFrameGuard)
    requires
        guard.depth < heap.active.len(),
        heap.active[guard.depth as int].token == guard.token,
        !heap.active[guard.depth as int].native_continuation,
    ensures
        ({
            let (after, r) = heap.continued(guard);
            let old_record = heap.active[guard.depth as int];
            let record = after.active[guard.depth as int];
            &&& r is Ok
            &&& after.active.len() == heap.active.len()
            &&& forall|i: int|
                0 <= i < heap.active.len() && i != guard.depth ==> after.active[i] == heap.active[i]
            &&& record.token == old_record.token
            &&& record.function == old_record.function
            &&& record.kind == old_record.kind
            &&& record.backtrace_hidden == old_record.backtrace_hidden
            &&& ActiveFrames::record_cost(record) == 0
            &&& after.continued(guard).1 is Err
            &&& after.continued(guard).0 == after
        }),
{
}

/// The activation limit: one below it code can still be entered, and then
/// nothing more; the overflow is thrown as an object.
pub proof fn the_activation_limit_is_exact(
    heap: Heap,
    function: ObjectRef,
    realm: usize,
    strict: bool,
)
    requires
        heap.entered(function, realm, strict).1 is Ok,
        heap.active.len() + 1 == heap.active_limit,
    ensures
        !heap.would_overflow(),
        heap.entered(function, realm, strict).0.would_overflow(),
{
}

/// What belongs to a runtime: its own objects and symbols, and every value that
/// is neither.
pub proof fn only_handles_belong_to_a_runtime(heap: Heap, other: Heap, value: JsValue, label: &'static str)
    requires
        heap.domain != other.domain,
    ensures
        value is Object || value is Symbol ==> !(heap.in_domain(value) && other.in_domain(value)),
        !(value is Object) && !(value is Symbol) ==> heap.in_domain(value) && other.in_domain(value),
        heap.in_domain(JsValue::Object(heap.next_ref())),
        heap.domain_check(value, label) is Ok <==> heap.in_domain(value),
{
}

/// A native activation needs as many readable arguments as were passed, and at
/// least as many as its body reads.
pub proof fn readable_arguments_are_counted(
    heap: Heap,
    target: NativeFunctionId,
    min_readable_args: u8,
    actual: nat,
    readable: nat,
    continuation: bool,
)
    requires
        heap.publishable(target, min_readable_args, actual, readable, continuation) is Ok,
    ensures
        readable >= actual,
        readable >= min_readable_args,
        readable == actual || readable == min_readable_args,
        target.family matches Some(family) ==> family < FAMILY_COUNT,
        !continuation ==> ActiveFrames::scan_cost(heap.active) + target.weight <= usize::MAX,
{
}

} // verus!
