//! Ordinary property protocol: reads, writes, definitions and deletions.
//!
//! A read or a write that would have to run program code hands the selected
//! function back instead of calling it.
use vstd::prelude::*;
use crate::error::{Error, ErrorKind};
use crate::heap::{Heap, HeapObject, ObjectPayload, PropertyEntry, PropertySlot, VarRef};
use crate::property_driver::index_below;
use crate::runtime::{Runtime, ATOM_LENGTH};
use crate::value::{Atom, CallableRef, JsValue, ObjectRef, PropertyKey};

verus! {

/// What a property read found.
#[derive(Clone, Copy, Debug)]
pub enum OrdinaryRead {
    Complete(Option<JsValue>),
    Call { getter: CallableRef, receiver: JsValue },
    /// The object has its own protocol.
    Special { object: ObjectRef, receiver: JsValue },
}

/// A complete own property descriptor.
#[derive(Clone, Copy, Debug)]
pub enum PropertyDescriptor {
    Data { value: JsValue, writable: bool, enumerable: bool, configurable: bool },
    Accessor {
        get: Option<ObjectRef>,
        set: Option<ObjectRef>,
        enumerable: bool,
        configurable: bool,
    },
}

#[derive(Clone, Copy, Debug, PartialEq, Eq, Structural)]
pub enum PropertySetRejection {
    ReadOnly,
    NoSetter,
    NotExtensible,
}

/// What a property write did or still needs.
#[derive(Clone, Copy, Debug)]
pub enum PropertySetAction {
    Complete,
    Rejected(PropertySetRejection),
    /// An object with its own protocol decides.
    RejectedProxyTrap,
    Call { setter: CallableRef, receiver: JsValue, argument: JsValue },
}

impl PropertyKey {
    /// The name of a key, where it is a string.
    pub open spec fn atom_spec(&self) -> Option<Atom> {
        match self {
            PropertyKey::String(atom) => Some(*atom),
            PropertyKey::Symbol(_) => None,
        }
    }

    #[verifier::when_used_as_spec(atom_spec)]
    pub fn atom(&self) -> (r: Option<Atom>)
        ensures
            r == self.atom_spec(),
    {
        match self {
            PropertyKey::String(atom) => Some(*atom),
            PropertyKey::Symbol(_) => None,
        }
    }
}

impl Error {
    /// Reading or writing a variable before its initialization.
    pub open spec fn uninitialized_spec(name: Option<Atom>) -> Error {
        match name {
            Some(atom) => Error::named_spec(
                ErrorKind::Reference,
                "",
                Some(atom),
                " is not initialized",
            ),
            None => Error::new_spec(
                ErrorKind::Reference,
                "lexical variable is not initialized",
            ),
        }
    }

    #[verifier::when_used_as_spec(uninitialized_spec)]
    pub fn uninitialized(name: Option<Atom>) -> (r: Error)
        ensures
            r == Error::uninitialized_spec(name),
    {
        match name {
            Some(atom) => Error::named(ErrorKind::Reference, "", Some(atom), " is not initialized"),
            None => Error::new(ErrorKind::Reference, "lexical variable is not initialized"),
        }
    }

    pub open spec fn read_only_spec(name: Option<Atom>) -> Error {
        match name {
            Some(atom) => Error::named_spec(ErrorKind::Type, "'", Some(atom), "' is read-only"),
            None => Error::new_spec(ErrorKind::Type, "lexical variable is read-only"),
        }
    }

    #[verifier::when_used_as_spec(read_only_spec)]
    pub fn read_only(name: Option<Atom>) -> (r: Error)
        ensures
            r == Error::read_only_spec(name),
    {
        match name {
            Some(atom) => Error::named(ErrorKind::Type, "'", Some(atom), "' is read-only"),
            None => Error::new(ErrorKind::Type, "lexical variable is read-only"),
        }
    }

    pub open spec fn not_defined_spec(name: Option<Atom>) -> Error {
        Error::named_spec(ErrorKind::Reference, "'", name, "' is not defined")
    }

    #[verifier::when_used_as_spec(not_defined_spec)]
    pub fn not_defined(name: Option<Atom>) -> (r: Error)
        ensures
            r == Error::not_defined_spec(name),
    {
        Error::named(ErrorKind::Reference, "'", name, "' is not defined")
    }
}

impl Heap {
    pub open spec fn cell_at(self, cell: usize) -> Result<VarRef, Error> {
        if cell < self.cells.len() {
            Ok(self.cells[cell as int])
        } else {
            Err(Error::stale())
        }
    }

    pub open spec fn cell_written(self, cell: usize, value: JsValue) -> Heap {
        Heap {
            cells: self.cells.update(
                cell as int,
                VarRef { value: Some(value), ..self.cells[cell as int] },
            ),
            ..self
        }
    }

    /// Writing a variable whatever it holds.
    pub open spec fn write_cell(self, cell: usize, value: JsValue) -> (Heap, Result<(), Error>) {
        if cell < self.cells.len() {
            (self.cell_written(cell, value), Ok(()))
        } else {
            (self, Err(Error::stale()))
        }
    }

    /// Reading a variable that must be initialized.
    pub open spec fn read_cell(self, cell: usize) -> Result<JsValue, Error> {
        match self.cell_at(cell) {
            Err(e) => Err(e),
            Ok(data) => match data.value {
                Some(value) => Ok(value),
                None => Err(Error::broken("variable is not initialized")),
            },
        }
    }

    /// What one own entry gives to a read.
    pub open spec fn slot_read(
        self,
        object: ObjectRef,
        entry: PropertyEntry,
        receiver: JsValue,
    ) -> Result<OrdinaryRead, Error> {
        match entry.slot {
            PropertySlot::Data { value, .. } => Ok(OrdinaryRead::Complete(Some(value))),
            PropertySlot::Accessor { get, .. } => match get {
                Some(getter) => Ok(
                    OrdinaryRead::Call { getter: CallableRef { object: getter }, receiver },
                ),
                None => Ok(OrdinaryRead::Complete(Some(JsValue::Undefined))),
            },
            PropertySlot::VarRef { cell, .. } => match self.cell_at(cell) {
                Err(e) => Err(e),
                Ok(data) => match data.value {
                    Some(value) => Ok(OrdinaryRead::Complete(Some(value))),
                    None => Err(Error::uninitialized(entry.key.atom())),
                },
            },
            PropertySlot::AutoInit { .. } => Ok(OrdinaryRead::Special { object, receiver }),
        }
    }

    /// A read that walks at most `fuel` objects of the prototype chain.
    pub open spec fn read_chain(
        self,
        object: ObjectRef,
        key: PropertyKey,
        receiver: JsValue,
        fuel: nat,
    ) -> Result<OrdinaryRead, Error>
        decreases fuel,
    {
        if fuel == 0 {
            Err(Error::broken("prototype chain is cyclic"))
        } else {
            match self.object_at(object) {
                Err(e) => Err(e),
                Ok(data) => if self.decides(data, key) {
                    Ok(OrdinaryRead::Special { object, receiver })
                } else {
                    match self.find(object, key) {
                        Some(p) => self.slot_read(object, self.properties[p], receiver),
                        None => match data.prototype {
                            None => Ok(OrdinaryRead::Complete(None)),
                            Some(next) => self.read_chain(next, key, receiver, (fuel - 1) as nat),
                        },
                    }
                },
            }
        }
    }

    pub open spec fn ordinary_read(
        self,
        object: ObjectRef,
        key: PropertyKey,
        receiver: JsValue,
    ) -> Result<OrdinaryRead, Error> {
        self.read_chain(object, key, receiver, self.objects.len() + 1)
    }

    /// Whether an object answers for a key by a protocol of its own: a proxy
    /// for every key, a boxed string for its length and units, and storage that
    /// no driver looks into for indices.
    pub open spec fn decides(self, data: HeapObject, key: PropertyKey) -> bool {
        match data.payload {
            ObjectPayload::Proxy { .. } => true,
            ObjectPayload::Primitive(value) => self.string_own(value, key) is Some,
            ObjectPayload::Other(_) => self.element_index(key) is Some,
            _ => false,
        }
    }

    /// Whether a write to an array changes more than one property.
    pub open spec fn resizes(self, object: ObjectRef, key: PropertyKey) -> bool {
        match self.object_at(object) {
            Err(_) => false,
            Ok(data) => data.payload is Array && (key == PropertyKey::String(ATOM_LENGTH)
                || self.element_index(key) is Some),
        }
    }

    /// Whether `object` or a prototype of it has a property.  No value is read
    /// and no code runs; nothing where an object with its own protocol decides.
    pub open spec fn presence_chain(self, object: ObjectRef, key: PropertyKey, fuel: nat) -> Result<
        Option<bool>,
        Error,
    >
        decreases fuel,
    {
        if fuel == 0 {
            Err(Error::broken("prototype chain is cyclic"))
        } else {
            match self.object_at(object) {
                Err(e) => Err(e),
                Ok(data) => if self.decides(data, key) {
                    Ok(None)
                } else if self.find(object, key) is Some {
                    Ok(Some(true))
                } else {
                    match data.prototype {
                        None => Ok(Some(false)),
                        Some(next) => self.presence_chain(next, key, (fuel - 1) as nat),
                    }
                },
            }
        }
    }

    pub open spec fn presence(self, object: ObjectRef, key: PropertyKey) -> Result<
        Option<bool>,
        Error,
    > {
        self.presence_chain(object, key, self.objects.len() + 1)
    }

    pub open spec fn own_property(self, object: ObjectRef, key: PropertyKey) -> Result<
        Option<PropertyDescriptor>,
        Error,
    > {
        match self.object_at(object) {
            Err(e) => Err(e),
            Ok(_) => match self.find(object, key) {
                None => Ok(None),
                Some(p) => match self.properties[p].slot {
                    PropertySlot::Data { value, writable, enumerable, configurable } => Ok(
                        Some(PropertyDescriptor::Data { value, writable, enumerable, configurable }),
                    ),
                    PropertySlot::Accessor { get, set, enumerable, configurable } => Ok(
                        Some(PropertyDescriptor::Accessor { get, set, enumerable, configurable }),
                    ),
                    PropertySlot::VarRef { cell, enumerable, configurable } => match self.cell_at(
                        cell,
                    ) {
                        Err(e) => Err(e),
                        Ok(data) => match data.value {
                            Some(value) => Ok(
                                Some(
                                    PropertyDescriptor::Data {
                                        value,
                                        writable: !data.is_const,
                                        enumerable,
                                        configurable,
                                    },
                                ),
                            ),
                            None => Err(Error::uninitialized(key.atom())),
                        },
                    },
                    PropertySlot::AutoInit { value } => Ok(
                        Some(
                            PropertyDescriptor::Data {
                                value,
                                writable: true,
                                enumerable: false,
                                configurable: true,
                            },
                        ),
                    ),
                },
            },
        }
    }

    pub open spec fn has_own(self, object: ObjectRef, key: PropertyKey) -> Result<bool, Error> {
        match self.object_at(object) {
            Err(e) => Err(e),
            Ok(_) => Ok(self.find(object, key) is Some),
        }
    }

    /// The cell behind an own property that is a live variable.
    pub open spec fn own_cell(self, object: ObjectRef, key: PropertyKey) -> Result<
        Option<usize>,
        Error,
    > {
        match self.object_at(object) {
            Err(e) => Err(e),
            Ok(_) => match self.find(object, key) {
                None => Ok(None),
                Some(p) => match self.properties[p].slot {
                    PropertySlot::VarRef { cell, .. } => Ok(Some(cell)),
                    _ => Ok(None),
                },
            },
        }
    }

    pub open spec fn own_auto_init(self, object: ObjectRef, key: PropertyKey) -> Result<
        bool,
        Error,
    > {
        match self.object_at(object) {
            Err(e) => Err(e),
            Ok(_) => match self.find(object, key) {
                None => Ok(false),
                Some(p) => Ok(self.properties[p].slot is AutoInit),
            },
        }
    }

    pub open spec fn configurable_slot(slot: PropertySlot) -> bool {
        match slot {
            PropertySlot::Data { configurable, .. } => configurable,
            PropertySlot::Accessor { configurable, .. } => configurable,
            PropertySlot::VarRef { configurable, .. } => configurable,
            PropertySlot::AutoInit { .. } => true,
        }
    }

    pub open spec fn data_slot(value: JsValue) -> PropertySlot {
        PropertySlot::Data { value, writable: true, enumerable: true, configurable: true }
    }

    pub open spec fn slot_replaced(self, p: int, slot: PropertySlot) -> Heap {
        Heap {
            properties: self.properties.update(p, PropertyEntry { slot, ..self.properties[p] }),
            ..self
        }
    }

    /// Defining an own property with a complete, configurable descriptor.
    /// The flag says whether the definition was accepted.
    pub open spec fn define(
        self,
        object: ObjectRef,
        key: PropertyKey,
        slot: PropertySlot,
    ) -> (Heap, Result<bool, Error>) {
        match self.object_at(object) {
            Err(e) => (self, Err(e)),
            Ok(data) => match self.find(object, key) {
                Some(p) => if Heap::configurable_slot(self.properties[p].slot) {
                    (self.slot_replaced(p, slot), Ok(true))
                } else {
                    (self, Ok(false))
                },
                None => if data.extensible {
                    (self.with_entry(PropertyEntry { owner: object.index, key, slot }), Ok(true))
                } else {
                    (self, Ok(false))
                },
            },
        }
    }

    pub open spec fn delete(self, object: ObjectRef, key: PropertyKey) -> (
        Heap,
        Result<bool, Error>,
    ) {
        match self.object_at(object) {
            Err(e) => (self, Err(e)),
            Ok(_) => match self.find(object, key) {
                None => (self, Ok(true)),
                Some(p) => if Heap::configurable_slot(self.properties[p].slot) {
                    (Heap { properties: self.properties.remove(p), ..self }, Ok(true))
                } else {
                    (self, Ok(false))
                },
            },
        }
    }

    /// Where a write finds its property: the holder and the entry, nothing, or
    /// a holder with its own protocol.
    pub open spec fn set_target(self, object: ObjectRef, key: PropertyKey, fuel: nat) -> Result<
        Option<(ObjectRef, Option<int>)>,
        Error,
    >
        decreases fuel,
    {
        if fuel == 0 {
            Err(Error::broken("prototype chain is cyclic"))
        } else {
            match self.object_at(object) {
                Err(e) => Err(e),
                Ok(data) => if self.decides(data, key) {
                    Ok(Some((object, None)))
                } else {
                    match self.find(object, key) {
                        Some(p) => Ok(Some((object, Some(p)))),
                        None => match data.prototype {
                            None => Ok(None),
                            Some(next) => self.set_target(next, key, (fuel - 1) as nat),
                        },
                    }
                },
            }
        }
    }

    /// Making or overwriting a data property of the receiver itself.
    pub open spec fn set_own(self, object: ObjectRef, key: PropertyKey, value: JsValue) -> (
        Heap,
        Result<PropertySetAction, Error>,
    ) {
        match self.object_at(object) {
            Err(e) => (self, Err(e)),
            Ok(data) => if data.extensible {
                (
                    self.with_entry(
                        PropertyEntry { owner: object.index, key, slot: Heap::data_slot(value) },
                    ),
                    Ok(PropertySetAction::Complete),
                )
            } else {
                (self, Ok(PropertySetAction::Rejected(PropertySetRejection::NotExtensible)))
            },
        }
    }

    /// Writing `value` to `key` of `object`, which is its own receiver.
    pub open spec fn set(self, object: ObjectRef, key: PropertyKey, value: JsValue) -> (
        Heap,
        Result<PropertySetAction, Error>,
    ) {
        match self.set_target(object, key, self.objects.len() + 1) {
            Err(e) => (self, Err(e)),
            Ok(_) if self.resizes(object, key) => (self, Ok(PropertySetAction::RejectedProxyTrap)),
            Ok(None) => self.set_own(object, key, value),
            Ok(Some((_, None))) => (self, Ok(PropertySetAction::RejectedProxyTrap)),
            Ok(Some((holder, Some(p)))) => match self.properties[p].slot {
                PropertySlot::Data { writable, enumerable, configurable, .. } => if !writable {
                    (self, Ok(PropertySetAction::Rejected(PropertySetRejection::ReadOnly)))
                } else if holder == object {
                    (
                        self.slot_replaced(
                            p,
                            PropertySlot::Data { value, writable, enumerable, configurable },
                        ),
                        Ok(PropertySetAction::Complete),
                    )
                } else {
                    self.set_own(object, key, value)
                },
                PropertySlot::AutoInit { .. } => if holder == object {
                    (
                        self.slot_replaced(
                            p,
                            PropertySlot::Data {
                                value,
                                writable: true,
                                enumerable: false,
                                configurable: true,
                            },
                        ),
                        Ok(PropertySetAction::Complete),
                    )
                } else {
                    self.set_own(object, key, value)
                },
                PropertySlot::Accessor { set, .. } => match set {
                    None => (
                        self,
                        Ok(PropertySetAction::Rejected(PropertySetRejection::NoSetter)),
                    ),
                    Some(setter) => (
                        self,
                        Ok(
                            PropertySetAction::Call {
                                setter: CallableRef { object: setter },
                                receiver: JsValue::Object(object),
                                argument: value,
                            },
                        ),
                    ),
                },
                PropertySlot::VarRef { cell, .. } => match self.cell_at(cell) {
                    Err(e) => (self, Err(e)),
                    Ok(data) => if data.value is None {
                        (self, Err(Error::uninitialized(key.atom())))
                    } else if data.is_const {
                        (self, Ok(PropertySetAction::Rejected(PropertySetRejection::ReadOnly)))
                    } else if holder == object {
                        (self.cell_written(cell, value), Ok(PropertySetAction::Complete))
                    } else {
                        self.set_own(object, key, value)
                    },
                },
            },
        }
    }
}

impl Runtime {
    pub fn cell(&self, cell: usize) -> (r: Result<VarRef, Error>)
        ensures
            r == self@.cell_at(cell),
    {
        if cell < self.cells.len() {
            Ok(self.cells[cell])
        } else {
            Err(Error::stale())
        }
    }

    /// A fresh variable.
    pub fn new_var_ref(&mut self, var: VarRef) -> (r: usize)
        requires
            old(self).wf(),
        ensures
            final(self).wf(),
            final(self)@ == (Heap { cells: old(self)@.cells.push(var), ..old(self)@ }),
            r == old(self)@.cells.len(),
    {
        let cell: usize = self.cells.len();
        self.cells.push(var);
        cell
    }

    pub fn write_var_ref(&mut self, cell: usize, value: JsValue) -> (r: Result<(), Error>)
        requires
            old(self).wf(),
        ensures
            final(self).wf(),
            (final(self)@, r) == old(self)@.write_cell(cell, value),
    {
        if cell < self.cells.len() {
            let mut data = self.cells[cell];
            data.value = Some(value);
            self.cells.set(cell, data);
            Ok(())
        } else {
            Err(Error::stale())
        }
    }

    pub fn read_var_ref(&self, cell: usize) -> (r: Result<JsValue, Error>)
        ensures
            r == self@.read_cell(cell),
    {
        let data = self.cell(cell)?;
        match data.value {
            Some(value) => Ok(value),
            None => Err(Error::broken("variable is not initialized")),
        }
    }

    fn read_slot(&self, object: ObjectRef, entry: PropertyEntry, receiver: JsValue) -> (r: Result<
        OrdinaryRead,
        Error,
    >)
        ensures
            r == self@.slot_read(object, entry, receiver),
    {
        match entry.slot {
            PropertySlot::Data { value, .. } => Ok(OrdinaryRead::Complete(Some(value))),
            PropertySlot::Accessor { get, .. } => match get {
                Some(getter) => Ok(
                    OrdinaryRead::Call { getter: CallableRef { object: getter }, receiver },
                ),
                None => Ok(OrdinaryRead::Complete(Some(JsValue::Undefined))),
            },
            PropertySlot::VarRef { cell, .. } => {
                let data = self.cell(cell)?;
                match data.value {
                    Some(value) => Ok(OrdinaryRead::Complete(Some(value))),
                    None => Err(Error::uninitialized(entry.key.atom())),
                }
            },
            PropertySlot::AutoInit { .. } => Ok(OrdinaryRead::Special { object, receiver }),
        }
    }

    /// Whether an object answers for a key by a protocol of its own.
    pub(crate) fn decides(&self, data: HeapObject, key: PropertyKey) -> (r: bool)
        ensures
            r == self@.decides(data, key),
    {
        match data.payload {
            ObjectPayload::Proxy { .. } => true,
            ObjectPayload::Primitive(JsValue::String(atom)) => match key {
                PropertyKey::String(name) => {
                    let length: usize = self.text(atom).len();
                    let name_text = self.text(name);
                    name == ATOM_LENGTH || index_below(&name_text, length).is_some()
                },
                PropertyKey::Symbol(_) => false,
            },
            ObjectPayload::Other(_) => self.element_index(key).is_some(),
            _ => false,
        }
    }

    fn resizes(&self, object: ObjectRef, key: PropertyKey) -> (r: bool)
        ensures
            r == self@.resizes(object, key),
    {
        match self.object(object) {
            Err(_) => false,
            Ok(data) => data.payload == ObjectPayload::Array && (key == PropertyKey::String(
                ATOM_LENGTH,
            ) || self.element_index(key).is_some()),
        }
    }

    /// Select what a read of `key` would give, without running any code.
    pub fn prepare_ordinary_read(
        &self,
        object: ObjectRef,
        key: PropertyKey,
        receiver: JsValue,
    ) -> (r: Result<OrdinaryRead, Error>)
        ensures
            r == self@.ordinary_read(object, key, receiver),
    {
        let mut current = object;
        let mut steps: usize = 0;
        while steps < self.objects.len()
            invariant
                steps <= self.objects@.len(),
                self@.read_chain(
                    current,
                    key,
                    receiver,
                    (self.objects@.len() - steps + 1) as nat,
                ) == self@.ordinary_read(object, key, receiver),
            decreases self.objects@.len() - steps,
        {
            let data = self.object(current)?;
            if self.decides(data, key) {
                return Ok(OrdinaryRead::Special { object: current, receiver });
            }
            match self.find_property(current, key) {
                Some(p) => {
                    return self.read_slot(current, self.properties[p], receiver);
                },
                None => {},
            }
            match data.prototype {
                None => {
                    return Ok(OrdinaryRead::Complete(None));
                },
                Some(next) => {
                    current = next;
                },
            }
            steps = steps + 1;
        }
        proof {
            reveal_with_fuel(Heap::read_chain, 2);
        }
        let data = self.object(current)?;
        if self.decides(data, key) {
            return Ok(OrdinaryRead::Special { object: current, receiver });
        }
        match self.find_property(current, key) {
            Some(p) => self.read_slot(current, self.properties[p], receiver),
            None => match data.prototype {
                None => Ok(OrdinaryRead::Complete(None)),
                Some(_) => Err(Error::broken("prototype chain is cyclic")),
            },
        }
    }

    /// Whether an object has a property, itself or through its prototypes;
    /// nothing where an object with its own protocol decides.
    pub fn has_property(&self, object: ObjectRef, key: PropertyKey) -> (r: Result<
        Option<bool>,
        Error,
    >)
        ensures
            r == self@.presence(object, key),
    {
        let mut current = object;
        let mut steps: usize = 0;
        while steps < self.objects.len()
            invariant
                steps <= self.objects@.len(),
                self@.presence_chain(current, key, (self.objects@.len() - steps + 1) as nat)
                    == self@.presence(object, key),
            decreases self.objects@.len() - steps,
        {
            let data = self.object(current)?;
            if self.decides(data, key) {
                return Ok(None);
            }
            if self.find_property(current, key).is_some() {
                return Ok(Some(true));
            }
            match data.prototype {
                None => {
                    return Ok(Some(false));
                },
                Some(next) => {
                    current = next;
                },
            }
            steps = steps + 1;
        }
        proof {
            reveal_with_fuel(Heap::presence_chain, 2);
        }
        let data = self.object(current)?;
        if self.decides(data, key) {
            return Ok(None);
        }
        if self.find_property(current, key).is_some() {
            return Ok(Some(true));
        }
        match data.prototype {
            None => Ok(Some(false)),
            Some(_) => Err(Error::broken("prototype chain is cyclic")),
        }
    }

    pub fn get_own_property(&self, object: ObjectRef, key: PropertyKey) -> (r: Result<
        Option<PropertyDescriptor>,
        Error,
    >)
        ensures
            r == self@.own_property(object, key),
    {
        let _ = self.object(object)?;
        match self.find_property(object, key) {
            None => Ok(None),
            Some(p) => match self.properties[p].slot {
                PropertySlot::Data { value, writable, enumerable, configurable } => Ok(
                    Some(PropertyDescriptor::Data { value, writable, enumerable, configurable }),
                ),
                PropertySlot::Accessor { get, set, enumerable, configurable } => Ok(
                    Some(PropertyDescriptor::Accessor { get, set, enumerable, configurable }),
                ),
                PropertySlot::VarRef { cell, enumerable, configurable } => {
                    let data = self.cell(cell)?;
                    match data.value {
                        Some(value) => Ok(
                            Some(
                                PropertyDescriptor::Data {
                                    value,
                                    writable: !data.is_const,
                                    enumerable,
                                    configurable,
                                },
                            ),
                        ),
                        None => Err(Error::uninitialized(key.atom())),
                    }
                },
                PropertySlot::AutoInit { value } => Ok(
                    Some(
                        PropertyDescriptor::Data {
                            value,
                            writable: true,
                            enumerable: false,
                            configurable: true,
                        },
                    ),
                ),
            },
        }
    }

    pub fn has_own_property(&self, object: ObjectRef, key: PropertyKey) -> (r: Result<bool, Error>)
        ensures
            r == self@.has_own(object, key),
    {
        let _ = self.object(object)?;
        Ok(self.find_property(object, key).is_some())
    }

    pub fn own_var_ref_root(&self, object: ObjectRef, key: PropertyKey) -> (r: Result<
        Option<usize>,
        Error,
    >)
        ensures
            r == self@.own_cell(object, key),
    {
        let _ = self.object(object)?;
        match self.find_property(object, key) {
            None => Ok(None),
            Some(p) => match self.properties[p].slot {
                PropertySlot::VarRef { cell, .. } => Ok(Some(cell)),
                _ => Ok(None),
            },
        }
    }

    pub fn is_auto_init_own_property(&self, object: ObjectRef, key: PropertyKey) -> (r: Result<
        bool,
        Error,
    >)
        ensures
            r == self@.own_auto_init(object, key),
    {
        let _ = self.object(object)?;
        match self.find_property(object, key) {
            None => Ok(false),
            Some(p) => match self.properties[p].slot {
                PropertySlot::AutoInit { .. } => Ok(true),
                _ => Ok(false),
            },
        }
    }

    fn slot_configurable(slot: PropertySlot) -> (r: bool)
        ensures
            r == Heap::configurable_slot(slot),
    {
        match slot {
            PropertySlot::Data { configurable, .. } => configurable,
            PropertySlot::Accessor { configurable, .. } => configurable,
            PropertySlot::VarRef { configurable, .. } => configurable,
            PropertySlot::AutoInit { .. } => true,
        }
    }

    /// Replace the slot of one entry.
    pub fn replace_slot(&mut self, p: usize, slot: PropertySlot)
        requires
            old(self).wf(),
            p < old(self)@.properties.len(),
        ensures
            final(self).wf(),
            final(self)@ == old(self)@.slot_replaced(p as int, slot),
    {
        let mut entry = self.properties[p];
        entry.slot = slot;
        self.properties.set(p, entry);
    }

    /// Define an own property with a complete, configurable descriptor.
    pub fn define_own_property(
        &mut self,
        object: ObjectRef,
        key: PropertyKey,
        slot: PropertySlot,
    ) -> (r: Result<bool, Error>)
        requires
            old(self).wf(),
        ensures
            final(self).wf(),
            (final(self)@, r) == old(self)@.define(object, key, slot),
    {
        let data = self.object(object)?;
        match self.find_property(object, key) {
            Some(p) => {
                if Runtime::slot_configurable(self.properties[p].slot) {
                    self.replace_slot(p, slot);
                    Ok(true)
                } else {
                    Ok(false)
                }
            },
            None => {
                if data.extensible {
                    self.add_property(PropertyEntry { owner: object.index, key, slot });
                    Ok(true)
                } else {
                    Ok(false)
                }
            },
        }
    }

    pub fn delete_property(&mut self, object: ObjectRef, key: PropertyKey) -> (r: Result<
        bool,
        Error,
    >)
        requires
            old(self).wf(),
        ensures
            final(self).wf(),
            (final(self)@, r) == old(self)@.delete(object, key),
    {
        let _ = self.object(object)?;
        match self.find_property(object, key) {
            None => Ok(true),
            Some(p) => {
                if Runtime::slot_configurable(self.properties[p].slot) {
                    self.properties.remove(p);
                    Ok(true)
                } else {
                    Ok(false)
                }
            },
        }
    }

    fn find_set_target(&self, object: ObjectRef, key: PropertyKey) -> (r: Result<
        Option<(ObjectRef, Option<usize>)>,
        Error,
    >)
        ensures
            match (r, self@.set_target(object, key, self@.objects.len() + 1)) {
                (Err(e), Err(f)) => e == f,
                (Ok(None), Ok(None)) => true,
                (Ok(Some((a, None))), Ok(Some((b, None)))) => a == b,
                (Ok(Some((a, Some(p)))), Ok(Some((b, Some(q))))) => a == b && p == q && p
                    < self@.properties.len(),
                _ => false,
            },
    {
        let mut current = object;
        let mut steps: usize = 0;
        while steps < self.objects.len()
            invariant
                steps <= self.objects@.len(),
                self@.set_target(current, key, (self.objects@.len() - steps + 1) as nat)
                    == self@.set_target(object, key, self.objects@.len() + 1),
            decreases self.objects@.len() - steps,
        {
            let data = self.object(current)?;
            if self.decides(data, key) {
                return Ok(Some((current, None)));
            }
            match self.find_property(current, key) {
                Some(p) => {
                    return Ok(Some((current, Some(p))));
                },
                None => {},
            }
            match data.prototype {
                None => {
                    return Ok(None);
                },
                Some(next) => {
                    current = next;
                },
            }
            steps = steps + 1;
        }
        proof {
            reveal_with_fuel(Heap::set_target, 2);
        }
        let data = self.object(current)?;
        if self.decides(data, key) {
            return Ok(Some((current, None)));
        }
        match self.find_property(current, key) {
            Some(p) => Ok(Some((current, Some(p)))),
            None => match data.prototype {
                None => Ok(None),
                Some(_) => Err(Error::broken("prototype chain is cyclic")),
            },
        }
    }

    fn set_own_data(&mut self, object: ObjectRef, key: PropertyKey, value: JsValue) -> (r: Result<
        PropertySetAction,
        Error,
    >)
        requires
            old(self).wf(),
        ensures
            final(self).wf(),
            (final(self)@, r) == old(self)@.set_own(object, key, value),
    {
        let data = self.object(object)?;
        if data.extensible {
            self.add_property(
                PropertyEntry {
                    owner: object.index,
                    key,
                    slot: PropertySlot::Data {
                        value,
                        writable: true,
                        enumerable: true,
                        configurable: true,
                    },
                },
            );
            Ok(PropertySetAction::Complete)
        } else {
            Ok(PropertySetAction::Rejected(PropertySetRejection::NotExtensible))
        }
    }

    /// Write `value` to `key` of `object`, or select the setter to call.
    pub fn prepare_set_property(&mut self, object: ObjectRef, key: PropertyKey, value: JsValue)
        -> (r: Result<PropertySetAction, Error>)
        requires
            old(self).wf(),
        ensures
            final(self).wf(),
            (final(self)@, r) == old(self)@.set(object, key, value),
    {
        let target = self.find_set_target(object, key)?;
        if self.resizes(object, key) {
            return Ok(PropertySetAction::RejectedProxyTrap);
        }
        match target {
            None => self.set_own_data(object, key, value),
            Some((_, None)) => Ok(PropertySetAction::RejectedProxyTrap),
            Some((holder, Some(p))) => match self.properties[p].slot {
                PropertySlot::Data { writable, enumerable, configurable, .. } => {
                    if !writable {
                        Ok(PropertySetAction::Rejected(PropertySetRejection::ReadOnly))
                    } else if holder == object {
                        self.replace_slot(
                            p,
                            PropertySlot::Data { value, writable, enumerable, configurable },
                        );
                        Ok(PropertySetAction::Complete)
                    } else {
                        self.set_own_data(object, key, value)
                    }
                },
                PropertySlot::AutoInit { .. } => {
                    if holder == object {
                        self.replace_slot(
                            p,
                            PropertySlot::Data {
                                value,
                                writable: true,
                                enumerable: false,
                                configurable: true,
                            },
                        );
                        Ok(PropertySetAction::Complete)
                    } else {
                        self.set_own_data(object, key, value)
                    }
                },
                PropertySlot::Accessor { set, .. } => match set {
                    None => Ok(PropertySetAction::Rejected(PropertySetRejection::NoSetter)),
                    Some(setter) => Ok(
                        PropertySetAction::Call {
                            setter: CallableRef { object: setter },
                            receiver: JsValue::Object(object),
                            argument: value,
                        },
                    ),
                },
                PropertySlot::VarRef { cell, .. } => {
                    let data = self.cell(cell)?;
                    if data.value.is_none() {
                        Err(Error::uninitialized(key.atom()))
                    } else if data.is_const {
                        Ok(PropertySetAction::Rejected(PropertySetRejection::ReadOnly))
                    } else if holder == object {
                        let _ = self.write_var_ref(cell, value);
                        Ok(PropertySetAction::Complete)
                    } else {
                        self.set_own_data(object, key, value)
                    }
                },
            },
        }
    }
}

pub(crate) proof fn first_entry(properties: Seq<PropertyEntry>, owner: usize, key: PropertyKey, from: int)
    requires
        0 <= from,
    ensures
        match Heap::property_position(properties, owner, key, from) {
            Some(p) => from <= p < properties.len() && properties[p].owner == owner
                && properties[p].key == key && forall|i: int|
                from <= i < p ==> (#[trigger] properties[i]).owner != owner || properties[i].key
                    != key,
            None => forall|i: int|
                from <= i < properties.len() ==> (#[trigger] properties[i]).owner != owner
                    || properties[i].key != key,
        },
    decreases properties.len() - from,
{
    if from < properties.len() && !(properties[from].owner == owner && properties[from].key == key) {
        first_entry(properties, owner, key, from + 1);
    }
}

pub(crate) proof fn position_is(
    properties: Seq<PropertyEntry>,
    owner: usize,
    key: PropertyKey,
    from: int,
    p: int,
)
    requires
        0 <= from <= p < properties.len(),
        properties[p].owner == owner,
        properties[p].key == key,
        forall|i: int|
            from <= i < p ==> (#[trigger] properties[i]).owner != owner || properties[i].key != key,
    ensures
        Heap::property_position(properties, owner, key, from) == Some(p),
    decreases p - from,
{
    if from < p {
        position_is(properties, owner, key, from + 1, p);
    }
}

proof fn added_entries_are_found(heap: Heap, object: ObjectRef, key: PropertyKey, slot: PropertySlot)
    requires
        heap.find(object, key) is None,
    ensures
        heap.with_entry(PropertyEntry { owner: object.index, key, slot }).find(object, key) == Some(
            heap.properties.len() as int,
        ),
{
    first_entry(heap.properties, object.index, key, 0);
    position_is(
        heap.with_entry(PropertyEntry { owner: object.index, key, slot }).properties,
        object.index,
        key,
        0,
        heap.properties.len() as int,
    );
}

proof fn replaced_entries_are_found(
    heap: Heap,
    object: ObjectRef,
    key: PropertyKey,
    p: int,
    slot: PropertySlot,
)
    requires
        heap.find(object, key) == Some(p),
    ensures
        heap.slot_replaced(p, slot).find(object, key) == Some(p),
        0 <= p < heap.properties.len(),
        heap.slot_replaced(p, slot).properties[p].slot == slot,
{
    first_entry(heap.properties, object.index, key, 0);
    position_is(heap.slot_replaced(p, slot).properties, object.index, key, 0, p);
}

/// An accepted definition is the property that is found afterwards.
pub proof fn defined_properties_are_found(
    heap: Heap,
    object: ObjectRef,
    key: PropertyKey,
    slot: PropertySlot,
)
    requires
        heap.define(object, key, slot).1 == Ok::<bool, Error>(true),
    ensures
        heap.define(object, key, slot).0.find(object, key) matches Some(p) && heap.define(
            object,
            key,
            slot,
        ).0.properties[p].slot == slot,
{
    match heap.find(object, key) {
        Some(p) => {
            replaced_entries_are_found(heap, object, key, p, slot);
        },
        None => {
            added_entries_are_found(heap, object, key, slot);
        },
    }
}

/// A completed write is what the next read of the property gives back, without
/// running any code.
pub proof fn written_properties_are_read(
    heap: Heap,
    object: ObjectRef,
    key: PropertyKey,
    value: JsValue,
)
    requires
        heap.set(object, key, value).1 == Ok::<PropertySetAction, Error>(
            PropertySetAction::Complete,
        ),
    ensures
        heap.set(object, key, value).0.ordinary_read(object, key, JsValue::Object(object)) == Ok::<
            OrdinaryRead,
            Error,
        >(OrdinaryRead::Complete(Some(value))),
{
    let after = heap.set(object, key, value).0;
    reveal_with_fuel(Heap::read_chain, 2);
    reveal_with_fuel(Heap::set_target, 2);
    match heap.find(object, key) {
        Some(p) => match heap.properties[p].slot {
            PropertySlot::Data { writable, enumerable, configurable, .. } => {
                replaced_entries_are_found(
                    heap,
                    object,
                    key,
                    p,
                    PropertySlot::Data { value, writable, enumerable, configurable },
                );
            },
            PropertySlot::AutoInit { .. } => {
                replaced_entries_are_found(
                    heap,
                    object,
                    key,
                    p,
                    PropertySlot::Data {
                        value,
                        writable: true,
                        enumerable: false,
                        configurable: true,
                    },
                );
            },
            _ => {
                first_entry(heap.properties, object.index, key, 0);
            },
        },
        None => {
            holders_have_the_property(heap, object, key, heap.objects.len() + 1);
            added_entries_are_found(heap, object, key, Heap::data_slot(value));
        },
    }
}

proof fn holders_have_the_property(heap: Heap, object: ObjectRef, key: PropertyKey, fuel: nat)
    ensures
        heap.set_target(object, key, fuel) matches Ok(Some((holder, Some(p)))) ==> heap.find(
            holder,
            key,
        ) == Some(p),
    decreases fuel,
{
    if fuel > 0 {
        match heap.object_at(object) {
            Ok(data) => match data.prototype {
                Some(next) => {
                    holders_have_the_property(heap, next, key, (fuel - 1) as nat);
                },
                None => {},
            },
            Err(_) => {},
        }
    }
}

/// A property that an object has itself is the one that is read, whatever its
/// prototypes have: the value of data, the value of a live variable, the getter
/// of an accessor, undefined where there is no getter.
pub proof fn own_properties_shadow_inherited_ones(
    heap: Heap,
    object: ObjectRef,
    key: PropertyKey,
    receiver: JsValue,
    data: HeapObject,
    p: int,
)
    requires
        heap.object_at(object) == Ok::<HeapObject, Error>(data),
        !heap.decides(data, key),
        heap.find(object, key) == Some(p),
    ensures
        match heap.properties[p].slot {
            PropertySlot::Data { value, .. } => heap.ordinary_read(object, key, receiver) == Ok::<
                OrdinaryRead,
                Error,
            >(OrdinaryRead::Complete(Some(value))),
            PropertySlot::Accessor { get: Some(getter), .. } => heap.ordinary_read(
                object,
                key,
                receiver,
            ) == Ok::<OrdinaryRead, Error>(
                OrdinaryRead::Call { getter: CallableRef { object: getter }, receiver },
            ),
            PropertySlot::Accessor { get: None, .. } => heap.ordinary_read(object, key, receiver)
                == Ok::<OrdinaryRead, Error>(OrdinaryRead::Complete(Some(JsValue::Undefined))),
            PropertySlot::VarRef { cell, .. } => cell < heap.cells.len() ==> match heap.cells[cell as int].value {
                Some(value) => heap.ordinary_read(object, key, receiver) == Ok::<
                    OrdinaryRead,
                    Error,
                >(OrdinaryRead::Complete(Some(value))),
                None => heap.ordinary_read(object, key, receiver) matches Err(e)
                    && e.kind is Reference,
            },
            PropertySlot::AutoInit { .. } => heap.ordinary_read(object, key, receiver) == Ok::<
                OrdinaryRead,
                Error,
            >(OrdinaryRead::Special { object, receiver }),
        },
        heap.presence(object, key) == Ok::<Option<bool>, Error>(Some(true)),
        heap.has_own(object, key) == Ok::<bool, Error>(true),
{
    reveal_with_fuel(Heap::read_chain, 2);
    reveal_with_fuel(Heap::presence_chain, 2);
    first_entry(heap.properties, object.index, key, 0);
}

/// A property that an object does not have itself is the one of its prototype,
/// and there is none without a prototype.
pub proof fn other_properties_are_inherited(
    heap: Heap,
    object: ObjectRef,
    key: PropertyKey,
    receiver: JsValue,
    data: HeapObject,
    fuel: nat,
)
    requires
        heap.object_at(object) == Ok::<HeapObject, Error>(data),
        !heap.decides(data, key),
        heap.find(object, key) is None,
    ensures
        match data.prototype {
            Some(prototype) => {
                &&& heap.read_chain(object, key, receiver, fuel + 1) == heap.read_chain(
                    prototype,
                    key,
                    receiver,
                    fuel,
                )
                &&& heap.presence_chain(object, key, fuel + 1) == heap.presence_chain(
                    prototype,
                    key,
                    fuel,
                )
                &&& heap.set_target(object, key, fuel + 1) == heap.set_target(prototype, key, fuel)
            },
            None => {
                &&& heap.ordinary_read(object, key, receiver) == Ok::<OrdinaryRead, Error>(
                    OrdinaryRead::Complete(None),
                )
                &&& heap.presence(object, key) == Ok::<Option<bool>, Error>(Some(false))
            },
        },
        heap.has_own(object, key) == Ok::<bool, Error>(false),
{
    reveal_with_fuel(Heap::read_chain, 2);
    reveal_with_fuel(Heap::presence_chain, 2);
    reveal_with_fuel(Heap::set_target, 2);
}

/// However far up a getter or an object with its own protocol is found, it is
/// asked on behalf of the receiver of the read.
pub proof fn reads_keep_their_receiver(
    heap: Heap,
    object: ObjectRef,
    key: PropertyKey,
    receiver: JsValue,
    fuel: nat,
)
    ensures
        match heap.read_chain(object, key, receiver, fuel) {
            Ok(OrdinaryRead::Call { receiver: asked, .. }) => asked == receiver,
            Ok(OrdinaryRead::Special { receiver: asked, .. }) => asked == receiver,
            _ => true,
        },
    decreases fuel,
{
    if fuel > 0 {
        if let Ok(data) = heap.object_at(object) {
            if let Some(next) = data.prototype {
                reads_keep_their_receiver(heap, next, key, receiver, (fuel - 1) as nat);
            }
        }
    }
}

/// A read finds a value or a getter exactly where the property is present.
pub proof fn present_properties_are_read(
    heap: Heap,
    object: ObjectRef,
    key: PropertyKey,
    receiver: JsValue,
    fuel: nat,
)
    ensures
        heap.presence_chain(object, key, fuel) == Ok::<Option<bool>, Error>(Some(false)) <==> heap.read_chain(
            object,
            key,
            receiver,
            fuel,
        ) == Ok::<OrdinaryRead, Error>(OrdinaryRead::Complete(None)),
        heap.presence_chain(object, key, fuel) == Ok::<Option<bool>, Error>(None) ==> (
        heap.read_chain(object, key, receiver, fuel) matches Ok(OrdinaryRead::Special { .. })),
        heap.read_chain(object, key, receiver, fuel) matches Ok(OrdinaryRead::Complete(Some(_)))
            ==> heap.presence_chain(object, key, fuel) == Ok::<Option<bool>, Error>(Some(true)),
        heap.read_chain(object, key, receiver, fuel) matches Ok(OrdinaryRead::Call { .. })
            ==> heap.presence_chain(object, key, fuel) == Ok::<Option<bool>, Error>(Some(true)),
    decreases fuel,
{
    if fuel > 0 {
        if let Ok(data) = heap.object_at(object) {
            if let Some(next) = data.prototype {
                present_properties_are_read(heap, next, key, receiver, (fuel - 1) as nat);
            }
        }
    }
}

/// A definition is refused where the property is there and not configurable, or
/// is not there and the object takes no more properties; a refused definition
/// changes nothing.
pub proof fn definitions_respect_the_object(
    heap: Heap,
    object: ObjectRef,
    key: PropertyKey,
    slot: PropertySlot,
    data: HeapObject,
)
    requires
        heap.object_at(object) == Ok::<HeapObject, Error>(data),
    ensures
        heap.define(object, key, slot).1 is Ok,
        heap.define(object, key, slot).1 == Ok::<bool, Error>(false) <==> match heap.find(
            object,
            key,
        ) {
            None => !data.extensible,
            Some(p) => match heap.properties[p].slot {
                PropertySlot::Data { configurable, .. } => !configurable,
                PropertySlot::Accessor { configurable, .. } => !configurable,
                PropertySlot::VarRef { configurable, .. } => !configurable,
                PropertySlot::AutoInit { .. } => false,
            },
        },
        heap.define(object, key, slot).1 == Ok::<bool, Error>(false) ==> heap.define(
            object,
            key,
            slot,
        ).0 == heap,
{
}

pub(crate) proof fn other_entries_keep_their_place(
    before: Seq<PropertyEntry>,
    after: Seq<PropertyEntry>,
    owner: usize,
    key: PropertyKey,
    from: int,
)
    requires
        0 <= from,
        before.len() <= after.len() <= before.len() + 1,
        forall|i: int|
            0 <= i < before.len() ==> (#[trigger] after[i]).owner == before[i].owner && after[i].key
                == before[i].key,
        before.len() < after.len() ==> after.last().owner != owner || after.last().key != key,
    ensures
        Heap::property_position(after, owner, key, from) == Heap::property_position(
            before,
            owner,
            key,
            from,
        ),
    decreases after.len() - from,
{
    if from < after.len() {
        other_entries_keep_their_place(before, after, owner, key, from + 1);
    }
}

/// Defining a property leaves every other property of every object as it was.
pub proof fn definitions_touch_one_property(
    heap: Heap,
    object: ObjectRef,
    key: PropertyKey,
    slot: PropertySlot,
    other: ObjectRef,
    name: PropertyKey,
)
    requires
        other.index != object.index || name != key,
    ensures
        heap.define(object, key, slot).0.own_property(other, name) == heap.own_property(other, name),
        heap.define(object, key, slot).0.objects == heap.objects,
        heap.define(object, key, slot).0.cells == heap.cells,
{
    let after = heap.define(object, key, slot).0;
    first_entry(heap.properties, object.index, key, 0);
    first_entry(heap.properties, other.index, name, 0);
    other_entries_keep_their_place(heap.properties, after.properties, other.index, name, 0);
}

proof fn removed_entries_close_up(
    entries: Seq<PropertyEntry>,
    p: int,
    owner: usize,
    key: PropertyKey,
    from: int,
)
    requires
        0 <= from <= p < entries.len(),
        entries[p].owner != owner || entries[p].key != key,
    ensures
        Heap::property_position(entries.remove(p), owner, key, from) == (
        match Heap::property_position(entries, owner, key, from) {
            None => None,
            Some(at) => Some(
                if at < p {
                    at
                } else {
                    at - 1
                },
            ),
        }),
    decreases p - from,
{
    let rest = entries.remove(p);
    if from < p {
        assert(rest[from] == entries[from]);
        removed_entries_close_up(entries, p, owner, key, from + 1);
    } else {
        shifted_entries(entries, rest, owner, key, p + 1);
        first_entry(entries, owner, key, p + 1);
    }
}

proof fn shifted_entries(
    entries: Seq<PropertyEntry>,
    rest: Seq<PropertyEntry>,
    owner: usize,
    key: PropertyKey,
    from: int,
)
    requires
        0 < from <= entries.len(),
        rest.len() == entries.len() - 1,
        forall|i: int| from <= i < entries.len() ==> rest[i - 1] == #[trigger] entries[i],
    ensures
        Heap::property_position(rest, owner, key, from - 1) == (match Heap::property_position(
            entries,
            owner,
            key,
            from,
        ) {
            None => None,
            Some(at) => Some(at - 1),
        }),
    decreases entries.len() - from,
{
    if from < entries.len() {
        assert(rest[from - 1] == entries[from]);
        shifted_entries(entries, rest, owner, key, from + 1);
    }
}

/// A deletion takes a configurable property away, keeps any other one in place
/// and says so, and leaves all other properties as they were.  What is not
/// there counts as deleted.
pub proof fn deleted_properties_are_gone(
    heap: Heap,
    object: ObjectRef,
    key: PropertyKey,
    data: HeapObject,
    other: ObjectRef,
    name: PropertyKey,
)
    requires
        heap.object_at(object) == Ok::<HeapObject, Error>(data),
        forall|i: int, j: int|
            0 <= i < j < heap.properties.len() ==> (#[trigger] heap.properties[i]).owner
                != (#[trigger] heap.properties[j]).owner || heap.properties[i].key
                != heap.properties[j].key,
        other.index != object.index || name != key,
    ensures
        heap.delete(object, key).1 matches Ok(gone) && {
            &&& gone <==> heap.delete(object, key).0.find(object, key) is None
            &&& !gone ==> heap.delete(object, key).0 == heap
            &&& gone <==> match heap.find(object, key) {
                None => true,
                Some(p) => match heap.properties[p].slot {
                    PropertySlot::Data { configurable, .. } => configurable,
                    PropertySlot::Accessor { configurable, .. } => configurable,
                    PropertySlot::VarRef { configurable, .. } => configurable,
                    PropertySlot::AutoInit { .. } => true,
                },
            }
        },
        heap.delete(object, key).0.own_property(other, name) == heap.own_property(other, name),
{
    first_entry(heap.properties, object.index, key, 0);
    first_entry(heap.properties, other.index, name, 0);
    let after = heap.delete(object, key).0;
    if let Some(p) = heap.find(object, key) {
        if Heap::configurable_slot(heap.properties[p].slot) {
            first_entry(after.properties, object.index, key, 0);
            if let Some(q) = after.find(object, key) {
                if q < p {
                    assert(after.properties[q] == heap.properties[q]);
                } else {
                    assert(after.properties[q] == heap.properties[q + 1]);
                }
                assert(false);
            }
            removed_entries_close_up(heap.properties, p, other.index, name, 0);
            if let Some(q) = heap.find(other, name) {
                if q < p {
                    assert(after.properties[q] == heap.properties[q]);
                } else {
                    assert(q > p);
                    assert(after.properties[q - 1] == heap.properties[q]);
                }
            }
        }
    }
}

/// A write to a property that the object has itself: a setter is called on the
/// object with the value, a property without one and read-only data refuse, and
/// other data keeps its attributes.
pub proof fn writes_respect_own_properties(
    heap: Heap,
    object: ObjectRef,
    key: PropertyKey,
    value: JsValue,
    data: HeapObject,
    p: int,
)
    requires
        heap.object_at(object) == Ok::<HeapObject, Error>(data),
        !heap.decides(data, key),
        !heap.resizes(object, key),
        heap.find(object, key) == Some(p),
    ensures
        ({
            let (after, r) = heap.set(object, key, value);
            match heap.properties[p].slot {
                PropertySlot::Accessor { set: Some(setter), .. } => after == heap && r == Ok::<
                    PropertySetAction,
                    Error,
                >(
                    PropertySetAction::Call {
                        setter: CallableRef { object: setter },
                        receiver: JsValue::Object(object),
                        argument: value,
                    },
                ),
                PropertySlot::Accessor { set: None, .. } => after == heap && r == Ok::<
                    PropertySetAction,
                    Error,
                >(PropertySetAction::Rejected(PropertySetRejection::NoSetter)),
                PropertySlot::Data { writable: false, .. } => after == heap && r == Ok::<
                    PropertySetAction,
                    Error,
                >(PropertySetAction::Rejected(PropertySetRejection::ReadOnly)),
                PropertySlot::Data { writable: true, enumerable, configurable, .. } => {
                    &&& r == Ok::<PropertySetAction, Error>(PropertySetAction::Complete)
                    &&& after.own_property(object, key) == Ok::<Option<PropertyDescriptor>, Error>(
                        Some(
                            PropertyDescriptor::Data {
                                value,
                                writable: true,
                                enumerable,
                                configurable,
                            },
                        ),
                    )
                },
                PropertySlot::VarRef { cell, .. } => cell < heap.cells.len() ==> {
                    let var = heap.cells[cell as int];
                    &&& var.value is None ==> after == heap && (r matches Err(e)
                        && e.kind is Reference)
                    &&& var.value is Some && var.is_const ==> after == heap && r == Ok::<
                        PropertySetAction,
                        Error,
                    >(PropertySetAction::Rejected(PropertySetRejection::ReadOnly))
                    &&& var.value is Some && !var.is_const ==> r == Ok::<PropertySetAction, Error>(
                        PropertySetAction::Complete,
                    ) && after.cells[cell as int].value == Some(value) && after.properties
                        == heap.properties
                },
                PropertySlot::AutoInit { .. } => {
                    &&& r == Ok::<PropertySetAction, Error>(PropertySetAction::Complete)
                    &&& after.own_property(object, key) == Ok::<Option<PropertyDescriptor>, Error>(
                        Some(
                            PropertyDescriptor::Data {
                                value,
                                writable: true,
                                enumerable: false,
                                configurable: true,
                            },
                        ),
                    )
                },
            }
        }),
{
    reveal_with_fuel(Heap::set_target, 2);
    first_entry(heap.properties, object.index, key, 0);
    match heap.properties[p].slot {
        PropertySlot::Data { enumerable, configurable, writable, .. } => {
            replaced_entries_are_found(
                heap,
                object,
                key,
                p,
                PropertySlot::Data { value, writable, enumerable, configurable },
            );
        },
        PropertySlot::AutoInit { .. } => {
            replaced_entries_are_found(
                heap,
                object,
                key,
                p,
                PropertySlot::Data { value, writable: true, enumerable: false, configurable: true },
            );
        },
        _ => {},
    }
}

/// A write to a property that an object only inherits never changes the object
/// that has it: a setter is called on the receiver, read-only data refuses, and
/// otherwise the receiver gets an ordinary property of its own if it takes one.
pub proof fn writes_do_not_change_prototypes(
    heap: Heap,
    object: ObjectRef,
    key: PropertyKey,
    value: JsValue,
    data: HeapObject,
    holder: ObjectRef,
    p: int,
)
    requires
        heap.object_at(object) == Ok::<HeapObject, Error>(data),
        !heap.decides(data, key),
        !heap.resizes(object, key),
        heap.find(object, key) is None,
        heap.set_target(object, key, heap.objects.len() + 1) == Ok::<
            Option<(ObjectRef, Option<int>)>,
            Error,
        >(Some((holder, Some(p)))),
    ensures
        ({
            let (after, r) = heap.set(object, key, value);
            let made = if data.extensible {
                &&& r == Ok::<PropertySetAction, Error>(PropertySetAction::Complete)
                &&& after.own_property(object, key) == Ok::<Option<PropertyDescriptor>, Error>(
                    Some(
                        PropertyDescriptor::Data {
                            value,
                            writable: true,
                            enumerable: true,
                            configurable: true,
                        },
                    ),
                )
                &&& after.properties.take(heap.properties.len() as int) == heap.properties
                &&& after.cells == heap.cells
            } else {
                &&& after == heap
                &&& r == Ok::<PropertySetAction, Error>(
                    PropertySetAction::Rejected(PropertySetRejection::NotExtensible),
                )
            };
            match heap.properties[p].slot {
                PropertySlot::Accessor { set: Some(setter), .. } => after == heap && r == Ok::<
                    PropertySetAction,
                    Error,
                >(
                    PropertySetAction::Call {
                        setter: CallableRef { object: setter },
                        receiver: JsValue::Object(object),
                        argument: value,
                    },
                ),
                PropertySlot::Accessor { set: None, .. } => after == heap && r == Ok::<
                    PropertySetAction,
                    Error,
                >(PropertySetAction::Rejected(PropertySetRejection::NoSetter)),
                PropertySlot::Data { writable: false, .. } => after == heap && r == Ok::<
                    PropertySetAction,
                    Error,
                >(PropertySetAction::Rejected(PropertySetRejection::ReadOnly)),
                PropertySlot::Data { writable: true, .. } => made,
                PropertySlot::AutoInit { .. } => made,
                PropertySlot::VarRef { cell, .. } => cell < heap.cells.len() ==> {
                    let var = heap.cells[cell as int];
                    &&& var.value is Some && var.is_const ==> after == heap && r == Ok::<
                        PropertySetAction,
                        Error,
                    >(PropertySetAction::Rejected(PropertySetRejection::ReadOnly))
                    &&& var.value is Some && !var.is_const ==> made
                },
            }
        }),
{
    reveal_with_fuel(Heap::set_target, 2);
    holders_have_the_property(heap, object, key, heap.objects.len() + 1);
    let after = heap.set(object, key, value).0;
    first_entry(heap.properties, object.index, key, 0);
    added_entries_are_found(heap, object, key, Heap::data_slot(value));
    assert(heap.properties.push(
        PropertyEntry { owner: object.index, key, slot: Heap::data_slot(value) },
    ).take(heap.properties.len() as int) =~= heap.properties);
}

/// A write to a property that is nowhere makes an ordinary property of the
/// object, unless the object takes no more.
pub proof fn writes_to_absent_properties_make_them(
    heap: Heap,
    object: ObjectRef,
    key: PropertyKey,
    value: JsValue,
    data: HeapObject,
)
    requires
        heap.object_at(object) == Ok::<HeapObject, Error>(data),
        !heap.resizes(object, key),
        heap.set_target(object, key, heap.objects.len() + 1) == Ok::<
            Option<(ObjectRef, Option<int>)>,
            Error,
        >(None),
    ensures
        ({
            let (after, r) = heap.set(object, key, value);
            if data.extensible {
                &&& r == Ok::<PropertySetAction, Error>(PropertySetAction::Complete)
                &&& after.own_property(object, key) == Ok::<Option<PropertyDescriptor>, Error>(
                    Some(
                        PropertyDescriptor::Data {
                            value,
                            writable: true,
                            enumerable: true,
                            configurable: true,
                        },
                    ),
                )
            } else {
                &&& after == heap
                &&& r == Ok::<PropertySetAction, Error>(
                    PropertySetAction::Rejected(PropertySetRejection::NotExtensible),
                )
            }
        }),
{
    reveal_with_fuel(Heap::set_target, 2);
    added_entries_are_found(heap, object, key, Heap::data_slot(value));
}

/// The descriptor of an own property says what reading and writing it do.
pub proof fn descriptors_describe_the_property(
    heap: Heap,
    object: ObjectRef,
    key: PropertyKey,
    data: HeapObject,
    value: JsValue,
    writable: bool,
    enumerable: bool,
    configurable: bool,
)
    requires
        heap.object_at(object) == Ok::<HeapObject, Error>(data),
        !heap.decides(data, key),
        !heap.resizes(object, key),
        heap.find(object, key) matches Some(p) && !(heap.properties[p].slot is AutoInit),
        heap.own_property(object, key) == Ok::<Option<PropertyDescriptor>, Error>(
            Some(PropertyDescriptor::Data { value, writable, enumerable, configurable }),
        ),
    ensures
        heap.ordinary_read(object, key, JsValue::Object(object)) == Ok::<OrdinaryRead, Error>(
            OrdinaryRead::Complete(Some(value)),
        ),
        writable <==> heap.set(object, key, value).1 == Ok::<PropertySetAction, Error>(
            PropertySetAction::Complete,
        ),
        configurable <==> heap.delete(object, key).1 == Ok::<bool, Error>(true),
{
    reveal_with_fuel(Heap::set_target, 2);
    reveal_with_fuel(Heap::read_chain, 2);
    first_entry(heap.properties, object.index, key, 0);
}

/// The errors of variables are the ones that programs see: using a variable
/// before its initialization and a name that is nowhere are reference errors,
/// writing a constant is a type error, and each names its variable.
pub proof fn variable_errors_name_their_variable(heap: Heap, name: Atom)
    ensures
        Error::uninitialized(Some(name)).kind is Reference,
        Error::not_defined(Some(name)).kind is Reference,
        Error::read_only(Some(name)).kind is Type,
        Error::uninitialized(None).kind is Reference,
        Error::read_only(None).kind is Type,
        heap.error_text(Error::uninitialized(Some(name))) == heap.text_at(name) + crate::text::Texts::units(
            " is not initialized",
        ),
        heap.error_text(Error::not_defined(Some(name))) == crate::text::Texts::units("'")
            + heap.text_at(name) + crate::text::Texts::units("' is not defined"),
        heap.error_text(Error::read_only(Some(name))) == crate::text::Texts::units("'")
            + heap.text_at(name) + crate::text::Texts::units("' is read-only"),
{
    reveal_strlit("");
    assert(crate::text::Texts::units("") =~= Seq::<u16>::empty());
    assert(heap.error_text(Error::uninitialized(Some(name))) =~= heap.text_at(name)
        + crate::text::Texts::units(" is not initialized"));
}

/// Writes to an array change more than one property for its length and for every
/// index, and for nothing else; other objects have no such property.
pub proof fn arrays_resize_by_their_length_and_indices(
    heap: Heap,
    object: ObjectRef,
    atom: crate::value::Atom,
    n: nat,
)
    requires
        Heap::pinned(heap.texts),
        object.index < heap.objects.len(),
    ensures
        heap.objects[object.index as int].payload is Array ==> heap.resizes(
            object,
            PropertyKey::String(crate::runtime::ATOM_LENGTH),
        ),
        heap.objects[object.index as int].payload is Array && heap.text_at(atom)
            == crate::text::Texts::digits(n) && n < crate::array::MAX_LENGTH ==> heap.resizes(
            object,
            PropertyKey::String(atom),
        ),
        forall|symbol: crate::value::SymbolRef|
            !(#[trigger] heap.resizes(object, PropertyKey::Symbol(symbol))),
        !(heap.objects[object.index as int].payload is Array) ==> !heap.resizes(
            object,
            PropertyKey::String(atom),
        ),
        heap.resizes(object, PropertyKey::String(atom)) ==> atom == crate::runtime::ATOM_LENGTH
            || exists|m: nat| heap.text_at(atom) == #[trigger] crate::text::Texts::digits(m),
{
    crate::property_driver::indices_are_decimal_texts(heap.text_at(atom), n);
    if let Some(m) = crate::text::Texts::index(heap.text_at(atom)) {
        crate::property_driver::indices_are_decimal_texts(heap.text_at(atom), m);
    }
}

} // verus!
