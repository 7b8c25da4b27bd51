//! Publication of classes, their initializers and their methods.
use vstd::prelude::*;
use crate::code::{ClassInitializerKind, DefineMethodKind, MethodDefinition};
use crate::error::{Error, ErrorKind};
use crate::heap::{BytecodeFunctionData, Heap, HeapObject, ObjectPayload, PropertySlot};
use crate::runtime::{Runtime, ATOM_CONSTRUCTOR, ATOM_NAME, ATOM_PROTOTYPE};
use crate::text::{append_text, Texts};
use crate::value::{Atom, CallableRef, JsValue, ObjectRef, PropertyKey};

verus! {

/// A class pair that was published, or what its definition threw.
#[derive(Clone, Copy, Debug, PartialEq, Eq, Structural)]
pub enum DefineClassOutcome {
    Defined { constructor: ObjectRef, prototype: ObjectRef },
    Throw(JsValue),
}

impl Heap {
    /// Replacing an object.
    pub open spec fn with_object(self, object: ObjectRef, data: HeapObject) -> Heap {
        Heap { objects: self.objects.update(object.index as int, data), ..self }
    }

    /// A function made from published code; `text` says what was expected.
    pub open spec fn bytecode_function(self, value: JsValue, text: &'static str) -> Result<
        (ObjectRef, BytecodeFunctionData),
        Error,
    > {
        match value {
            JsValue::Object(object) => if !self.belongs(object) {
                Err(Error::wrong_runtime(text))
            } else {
                match self.object_at(object) {
                    Err(e) => Err(e),
                    Ok(data) => match data.payload {
                        ObjectPayload::BytecodeFunction(function) => Ok((object, function)),
                        _ => Err(Error::internal(text)),
                    },
                }
            },
            _ => Err(Error::internal(text)),
        }
    }

    /// A class initializer of the given kind.
    pub open spec fn class_initializer(self, value: JsValue, kind: ClassInitializerKind) -> Result<
        (ObjectRef, BytecodeFunctionData),
        Error,
    > {
        match self.bytecode_function(value, "class initializer is not bytecode") {
            Err(e) => Err(e),
            Ok((object, function)) => match self.function_at(function.bytecode) {
                Err(e) => Err(e),
                Ok(code) => if code.metadata.class_initializer_kind == Some(kind) {
                    Ok((object, function))
                } else {
                    Err(Error::internal("class initializer has another kind"))
                },
            },
        }
    }

    /// Changing what a function object holds besides its code.
    pub open spec fn with_function_data(self, object: ObjectRef, data: BytecodeFunctionData) -> Heap {
        self.with_object(
            object,
            HeapObject {
                payload: ObjectPayload::BytecodeFunction(data),
                ..self.objects[object.index as int]
            },
        )
    }

    /// Setting the object that a function's methods were defined on.
    pub open spec fn with_home(
        self,
        object: ObjectRef,
        function: BytecodeFunctionData,
        home: ObjectRef,
    ) -> Heap {
        self.with_function_data(object, BytecodeFunctionData { home: Some(home), ..function })
    }

    /// Installing the field initializer of a class.
    pub open spec fn install_initializer(
        self,
        constructor: JsValue,
        prototype: JsValue,
        initializer: JsValue,
    ) -> (Heap, Result<(), Error>) {
        match (
            self.bytecode_function(constructor, "class constructor is not bytecode"),
            prototype,
            self.class_initializer(initializer, ClassInitializerKind::InstanceFields),
        ) {
            (Err(e), _, _) => (self, Err(e)),
            (Ok((object, function)), JsValue::Object(home), Ok((fields, data))) => if object
                == fields {
                (self, Err(Error::internal("class constructor initializes itself")))
            } else {
                (
                    self.with_function_data(
                        object,
                        BytecodeFunctionData { instance_initializer: Some(fields), ..function },
                    ).with_home(fields, data, home),
                    Ok(()),
                )
            },
            (_, JsValue::Object(_), Err(e)) => (self, Err(e)),
            _ => (self, Err(Error::internal("class prototype is not an object"))),
        }
    }

    /// The field initializer that a constructed object still has to run.
    pub open spec fn instance_initializer(self, constructor: JsValue) -> Result<
        Option<CallableRef>,
        Error,
    > {
        match self.bytecode_function(constructor, "class constructor is not bytecode") {
            Err(e) => Err(e),
            Ok((_, function)) => match function.instance_initializer {
                None => Ok(None),
                Some(object) => Ok(Some(CallableRef { object })),
            },
        }
    }

    /// Beginning the static elements of a class, which happens once.
    pub open spec fn begin_static(self, constructor: JsValue, initializer: JsValue) -> (
        Heap,
        Result<(CallableRef, JsValue), Error>,
    ) {
        match (
            self.bytecode_function(constructor, "class constructor is not bytecode"),
            self.class_initializer(initializer, ClassInitializerKind::StaticElements),
        ) {
            (Err(e), _) => (self, Err(e)),
            (_, Err(e)) => (self, Err(e)),
            (Ok((object, function)), Ok((elements, data))) => if object == elements {
                (self, Err(Error::internal("class constructor initializes itself")))
            } else if function.static_initialized {
                (self, Err(Error::internal("class static elements were already initialized")))
            } else {
                (
                    self.with_function_data(
                        object,
                        BytecodeFunctionData { static_initialized: true, ..function },
                    ).with_home(elements, data, object),
                    Ok((CallableRef { object: elements }, JsValue::Object(object))),
                )
            },
        }
    }

    /// Beginning a static block of a class from its static elements.
    pub open spec fn begin_block(self, elements: ObjectRef, receiver: JsValue, block: JsValue) -> (
        Heap,
        Result<CallableRef, Error>,
    ) {
        match (
            self.class_initializer(JsValue::Object(elements), ClassInitializerKind::StaticElements),
            self.bytecode_function(receiver, "class constructor is not bytecode"),
            self.class_initializer(block, ClassInitializerKind::StaticBlock),
        ) {
            (Err(e), _, _) => (self, Err(e)),
            (_, Err(e), _) => (self, Err(e)),
            (_, _, Err(e)) => (self, Err(e)),
            (Ok(_), Ok((home, _)), Ok((object, data))) => (
                self.with_home(object, data, home),
                Ok(CallableRef { object }),
            ),
        }
    }

    /// Defining one property of a class that must be accepted.
    pub open spec fn define_checked(
        self,
        object: ObjectRef,
        key: PropertyKey,
        slot: PropertySlot,
    ) -> (Heap, Result<(), Error>) {
        match self.define(object, key, slot) {
            (heap, Err(e)) => (heap, Err(e)),
            (heap, Ok(true)) => (heap, Ok(())),
            (heap, Ok(false)) => (
                heap,
                Err(Error::new(ErrorKind::Type, "property is not configurable")),
            ),
        }
    }

    /// Publishing a constructor and a fresh prototype object.
    pub open spec fn class_pair(
        self,
        constructor: JsValue,
        name: Atom,
        parent: ObjectRef,
        prototype_parent: Option<ObjectRef>,
    ) -> (Heap, Result<DefineClassOutcome, Error>) {
        match self.bytecode_function(constructor, "class constructor is not bytecode") {
            Err(e) => (self, Err(e)),
            Ok((object, function)) => {
                let prototype = self.next_ref();
                let linked = self.with_object(
                    object,
                    HeapObject {
                        prototype: Some(parent),
                        payload: ObjectPayload::BytecodeFunction(
                            BytecodeFunctionData { home: Some(prototype), ..function },
                        ),
                        ..self.objects[object.index as int]
                    },
                ).allocated(Heap::plain_object(prototype_parent));
                match linked.define_checked(
                    object,
                    PropertyKey::String(ATOM_PROTOTYPE),
                    Heap::hidden_slot(JsValue::Object(prototype), false, false),
                ) {
                    (heap, Err(e)) => (heap, Err(e)),
                    (heap, Ok(_)) => match heap.define_checked(
                        object,
                        PropertyKey::String(ATOM_NAME),
                        Heap::hidden_slot(JsValue::String(name), false, true),
                    ) {
                        (heap, Err(e)) => (heap, Err(e)),
                        (heap, Ok(_)) => match heap.define_checked(
                            prototype,
                            PropertyKey::String(ATOM_CONSTRUCTOR),
                            Heap::hidden_slot(JsValue::Object(object), true, true),
                        ) {
                            (heap, Err(e)) => (heap, Err(e)),
                            (heap, Ok(_)) => (
                                heap,
                                Ok(DefineClassOutcome::Defined { constructor: object, prototype }),
                            ),
                        },
                    },
                }
            },
        }
    }

    /// A class without heritage, or one that extends a value that is no object.
    pub open spec fn define_class_pair(
        self,
        realm: usize,
        parent: JsValue,
        constructor: JsValue,
        name: Atom,
        has_heritage: bool,
    ) -> (Heap, Result<DefineClassOutcome, Error>) {
        match self.realm_at(realm) {
            Err(e) => (self, Err(e)),
            Ok(data) => if !has_heritage {
                self.class_pair(
                    constructor,
                    name,
                    data.function_prototype,
                    Some(data.object_prototype),
                )
            } else if parent is Null {
                self.class_pair(constructor, name, data.function_prototype, None)
            } else {
                (self, Err(Error::new(ErrorKind::Type, "parent class must be constructor")))
            },
        }
    }

    pub open spec fn class_parent(self, parent: ObjectRef) -> Result<(), Error> {
        match self.constructor_bit(parent) {
            Err(e) => Err(e),
            Ok(true) => Ok(()),
            Ok(false) => Err(Error::new(ErrorKind::Type, "parent class must be constructor")),
        }
    }

    /// A class that extends a constructor with the given prototype.
    pub open spec fn derived_class_pair(
        self,
        constructor: JsValue,
        name: Atom,
        parent: ObjectRef,
        prototype: JsValue,
    ) -> (Heap, Result<DefineClassOutcome, Error>) {
        match prototype {
            JsValue::Object(object) => self.class_pair(constructor, name, parent, Some(object)),
            JsValue::Null => self.class_pair(constructor, name, parent, None),
            _ => (
                self,
                Err(
                    Error::new(
                        ErrorKind::Type,
                        "parent prototype must be an object or null",
                    ),
                ),
            ),
        }
    }

    /// The accessor halves that a definition keeps.
    pub open spec fn own_accessors(self, object: ObjectRef, key: PropertyKey) -> (
        Option<ObjectRef>,
        Option<ObjectRef>,
    ) {
        match self.find(object, key) {
            Some(p) => match self.properties[p].slot {
                PropertySlot::Accessor { get, set, .. } => (get, set),
                _ => (None, None),
            },
            None => (None, None),
        }
    }

    /// The property that a method definition makes.
    pub open spec fn method_slot(
        self,
        object: ObjectRef,
        key: PropertyKey,
        function: ObjectRef,
        method: MethodDefinition,
    ) -> PropertySlot {
        let (get, set) = self.own_accessors(object, key);
        match method.kind {
            DefineMethodKind::Method => PropertySlot::Data {
                value: JsValue::Object(function),
                writable: true,
                enumerable: method.enumerable,
                configurable: true,
            },
            DefineMethodKind::Getter => PropertySlot::Accessor {
                get: Some(function),
                set,
                enumerable: method.enumerable,
                configurable: true,
            },
            DefineMethodKind::Setter => PropertySlot::Accessor {
                get,
                set: Some(function),
                enumerable: method.enumerable,
                configurable: true,
            },
        }
    }

    /// The name that a method shows.
    pub open spec fn method_name(self, key: PropertyKey, kind: DefineMethodKind) -> (
        Heap,
        Result<Atom, Error>,
    ) {
        match self.key_name(key.as_value()) {
            (heap, Err(e)) => (heap, Err(e)),
            (heap, Ok(name)) => match kind {
                DefineMethodKind::Method => (heap, Ok(name)),
                _ => {
                    let text = (if kind is Getter {
                        seq![103u16, 101u16, 116u16, 32u16]
                    } else {
                        seq![115u16, 101u16, 116u16, 32u16]
                    }) + heap.text_at(name);
                    (heap.with_text(text), Ok(Texts::atom_of(heap.texts, text)))
                },
            },
        }
    }

    /// Defining a method: its home, its name and its property.
    pub open spec fn define_method(
        self,
        object: ObjectRef,
        key: PropertyKey,
        value: JsValue,
        method: MethodDefinition,
    ) -> (Heap, Result<bool, Error>) {
        match self.bytecode_function(value, "method is not bytecode") {
            Err(e) => (self, Err(e)),
            Ok((function, data)) => match self.with_home(function, data, object).method_name(
                key,
                method.kind,
            ) {
                (heap, Err(e)) => (heap, Err(e)),
                (heap, Ok(name)) => match heap.name_function(value, name) {
                    (heap, Err(e)) => (heap, Err(e)),
                    (heap, Ok(_)) => heap.define(
                        object,
                        key,
                        heap.method_slot(object, key, function, method),
                    ),
                },
            },
        }
    }
}

impl Runtime {
    fn replace_object(&mut self, object: ObjectRef, data: HeapObject)
        requires
            old(self).wf(),
            object.index < old(self)@.objects.len(),
        ensures
            final(self).wf(),
            final(self)@ == old(self)@.with_object(object, data),
    {
        self.objects.set(object.index, data);
    }

    fn replace_function_data(&mut self, object: ObjectRef, data: BytecodeFunctionData)
        requires
            old(self).wf(),
            object.index < old(self)@.objects.len(),
        ensures
            final(self).wf(),
            final(self)@ == old(self)@.with_function_data(object, data),
    {
        let mut current = self.objects[object.index];
        current.payload = ObjectPayload::BytecodeFunction(data);
        self.replace_object(object, current);
    }

    fn set_home(&mut self, object: ObjectRef, function: BytecodeFunctionData, home: ObjectRef)
        requires
            old(self).wf(),
            object.index < old(self)@.objects.len(),
        ensures
            final(self).wf(),
            final(self)@ == old(self)@.with_home(object, function, home),
    {
        let mut data = function;
        data.home = Some(home);
        self.replace_function_data(object, data);
    }

    fn bytecode_function(&self, value: JsValue, text: &'static str) -> (r: Result<
        (ObjectRef, BytecodeFunctionData),
        Error,
    >)
        ensures
            r == self@.bytecode_function(value, text),
            r matches Ok((object, _)) ==> object.index < self@.objects.len(),
    {
        match value {
            JsValue::Object(object) => {
                if object.domain != self.domain_id() {
                    return Err(Error::wrong_runtime(text));
                }
                match self.object(object)?.payload {
                    ObjectPayload::BytecodeFunction(function) => Ok((object, function)),
                    _ => Err(Error::internal(text)),
                }
            },
            _ => Err(Error::internal(text)),
        }
    }

    fn class_initializer(&self, value: JsValue, kind: ClassInitializerKind) -> (r: Result<
        (ObjectRef, BytecodeFunctionData),
        Error,
    >)
        ensures
            r == self@.class_initializer(value, kind),
            r matches Ok((object, _)) ==> object.index < self@.objects.len(),
    {
        let (object, function) = self.bytecode_function(value, "class initializer is not bytecode")?;
        if self.function_bytecode(function.bytecode)?.metadata.class_initializer_kind == Some(kind) {
            Ok((object, function))
        } else {
            Err(Error::internal("class initializer has another kind"))
        }
    }

    /// Install the field initializer of a class.
    pub fn install_class_instance_initializer(
        &mut self,
        constructor: JsValue,
        prototype: JsValue,
        initializer: JsValue,
    ) -> (r: Result<(), Error>)
        requires
            old(self).wf(),
        ensures
            final(self).wf(),
            (final(self)@, r) == old(self)@.install_initializer(constructor, prototype, initializer),
    {
        let (object, function) = self.bytecode_function(
            constructor,
            "class constructor is not bytecode",
        )?;
        let home = match prototype {
            JsValue::Object(home) => home,
            _ => {
                return Err(Error::internal("class prototype is not an object"));
            },
        };
        let (fields, data) = self.class_initializer(
            initializer,
            ClassInitializerKind::InstanceFields,
        )?;
        if object == fields {
            return Err(Error::internal("class constructor initializes itself"));
        }
        let mut function = function;
        function.instance_initializer = Some(fields);
        self.replace_function_data(object, function);
        self.set_home(fields, data, home);
        Ok(())
    }

    /// The field initializer that an object of a class still has to run.
    pub fn begin_class_instance_initializer(&self, constructor: JsValue) -> (r: Result<
        Option<CallableRef>,
        Error,
    >)
        ensures
            r == self@.instance_initializer(constructor),
    {
        let (_, function) = self.bytecode_function(
            constructor,
            "class constructor is not bytecode",
        )?;
        match function.instance_initializer {
            None => Ok(None),
            Some(object) => Ok(Some(CallableRef::from_validated_object(object))),
        }
    }

    /// Begin the static elements of a class.  They begin once, whether or not
    /// their body completes.
    pub fn begin_class_static_initializer(&mut self, constructor: JsValue, initializer: JsValue) -> (r:
        Result<(CallableRef, JsValue), Error>)
        requires
            old(self).wf(),
        ensures
            final(self).wf(),
            (final(self)@, r) == old(self)@.begin_static(constructor, initializer),
    {
        let (object, function) = self.bytecode_function(
            constructor,
            "class constructor is not bytecode",
        )?;
        let (elements, data) = self.class_initializer(
            initializer,
            ClassInitializerKind::StaticElements,
        )?;
        if object == elements {
            return Err(Error::internal("class constructor initializes itself"));
        }
        if function.static_initialized {
            return Err(Error::internal("class static elements were already initialized"));
        }
        let mut function = function;
        function.static_initialized = true;
        self.replace_function_data(object, function);
        self.set_home(elements, data, object);
        Ok((CallableRef::from_validated_object(elements), JsValue::Object(object)))
    }

    /// Begin a static block of a class.
    pub fn begin_class_static_block(
        &mut self,
        elements: ObjectRef,
        receiver: JsValue,
        block: JsValue,
    ) -> (r: Result<CallableRef, Error>)
        requires
            old(self).wf(),
        ensures
            final(self).wf(),
            (final(self)@, r) == old(self)@.begin_block(elements, receiver, block),
    {
        let _ = self.class_initializer(
            JsValue::Object(elements),
            ClassInitializerKind::StaticElements,
        )?;
        let (home, _) = self.bytecode_function(receiver, "class constructor is not bytecode")?;
        let (object, data) = self.class_initializer(block, ClassInitializerKind::StaticBlock)?;
        self.set_home(object, data, home);
        Ok(CallableRef::from_validated_object(object))
    }

    fn define_checked(&mut self, object: ObjectRef, key: PropertyKey, slot: PropertySlot) -> (r: Result<
        (),
        Error,
    >)
        requires
            old(self).wf(),
        ensures
            final(self).wf(),
            (final(self)@, r) == old(self)@.define_checked(object, key, slot),
    {
        if self.define_own_property(object, key, slot)? {
            Ok(())
        } else {
            Err(Error::new(ErrorKind::Type, "property is not configurable"))
        }
    }

    fn hidden(value: JsValue, writable: bool, configurable: bool) -> (r: PropertySlot)
        ensures
            r == Heap::hidden_slot(value, writable, configurable),
    {
        PropertySlot::Data { value, writable, enumerable: false, configurable }
    }

    fn publish_class_pair(
        &mut self,
        constructor: JsValue,
        name: Atom,
        parent: ObjectRef,
        prototype_parent: Option<ObjectRef>,
    ) -> (r: Result<DefineClassOutcome, Error>)
        requires
            old(self).wf(),
        ensures
            final(self).wf(),
            (final(self)@, r) == old(self)@.class_pair(constructor, name, parent, prototype_parent),
    {
        let (object, function) = self.bytecode_function(
            constructor,
            "class constructor is not bytecode",
        )?;
        let prototype = ObjectRef { domain: self.domain_id(), index: self.objects.len() };
        let mut data = self.objects[object.index];
        let mut function = function;
        function.home = Some(prototype);
        data.prototype = Some(parent);
        data.payload = ObjectPayload::BytecodeFunction(function);
        self.replace_object(object, data);
        let _ = self.new_object(prototype_parent);
        self.define_checked(
            object,
            PropertyKey::String(ATOM_PROTOTYPE),
            Runtime::hidden(JsValue::Object(prototype), false, false),
        )?;
        self.define_checked(
            object,
            PropertyKey::String(ATOM_NAME),
            Runtime::hidden(JsValue::String(name), false, true),
        )?;
        self.define_checked(
            prototype,
            PropertyKey::String(ATOM_CONSTRUCTOR),
            Runtime::hidden(JsValue::Object(object), true, true),
        )?;
        Ok(DefineClassOutcome::Defined { constructor: object, prototype })
    }

    /// Define a class without heritage, or one that extends a value that is no
    /// object.
    pub fn define_class_pair(
        &mut self,
        realm: usize,
        parent: JsValue,
        constructor: JsValue,
        name: Atom,
        has_heritage: bool,
    ) -> (r: Result<DefineClassOutcome, Error>)
        requires
            old(self).wf(),
        ensures
            final(self).wf(),
            (final(self)@, r) == old(self)@.define_class_pair(
                realm,
                parent,
                constructor,
                name,
                has_heritage,
            ),
    {
        let data = self.realm(realm)?;
        if !has_heritage {
            self.publish_class_pair(
                constructor,
                name,
                data.function_prototype,
                Some(data.object_prototype),
            )
        } else if parent == JsValue::Null {
            self.publish_class_pair(constructor, name, data.function_prototype, None)
        } else {
            Err(Error::new(ErrorKind::Type, "parent class must be constructor"))
        }
    }

    /// Only a constructor can be extended.
    pub fn validate_class_parent(&self, parent: ObjectRef) -> (r: Result<(), Error>)
        ensures
            r == self@.class_parent(parent),
    {
        if self.is_constructor(parent)? {
            Ok(())
        } else {
            Err(Error::new(ErrorKind::Type, "parent class must be constructor"))
        }
    }

    /// Define a class that extends a constructor with the given prototype.
    pub fn finish_derived_class_pair(
        &mut self,
        constructor: JsValue,
        name: Atom,
        parent: ObjectRef,
        prototype: JsValue,
    ) -> (r: Result<DefineClassOutcome, Error>)
        requires
            old(self).wf(),
        ensures
            final(self).wf(),
            (final(self)@, r) == old(self)@.derived_class_pair(
                constructor,
                name,
                parent,
                prototype,
            ),
    {
        match prototype {
            JsValue::Object(object) => self.publish_class_pair(
                constructor,
                name,
                parent,
                Some(object),
            ),
            JsValue::Null => self.publish_class_pair(constructor, name, parent, None),
            _ => Err(
                Error::new(ErrorKind::Type, "parent prototype must be an object or null"),
            ),
        }
    }

    fn method_name(&mut self, key: PropertyKey, kind: DefineMethodKind) -> (r: Result<Atom, Error>)
        requires
            old(self).wf(),
        ensures
            final(self).wf(),
            (final(self)@, r) == old(self)@.method_name(key, kind),
    {
        let name: Atom = self.key_name(key.as_value())?;
        let mut text: Vec<u16> = match kind {
            DefineMethodKind::Method => {
                return Ok(name);
            },
            DefineMethodKind::Getter => vec![103, 101, 116, 32],
            DefineMethodKind::Setter => vec![115, 101, 116, 32],
        };
        assert(text@ =~= if kind is Getter {
            seq![103u16, 101u16, 116u16, 32u16]
        } else {
            seq![115u16, 101u16, 116u16, 32u16]
        });
        let inner = self.text(name);
        append_text(&mut text, &inner);
        Ok(self.intern(text))
    }

    /// Define a method, a getter or a setter.
    pub fn define_object_literal_method(
        &mut self,
        object: ObjectRef,
        key: PropertyKey,
        value: JsValue,
        method: MethodDefinition,
    ) -> (r: Result<bool, Error>)
        requires
            old(self).wf(),
        ensures
            final(self).wf(),
            (final(self)@, r) == old(self)@.define_method(object, key, value, method),
    {
        let (function, data) = self.bytecode_function(value, "method is not bytecode")?;
        self.set_home(function, data, object);
        let name: Atom = self.method_name(key, method.kind)?;
        self.name_function(value, name)?;
        let (get, set) = match self.find_property(object, key) {
            Some(p) => match self.properties[p].slot {
                PropertySlot::Accessor { get, set, .. } => (get, set),
                _ => (None, None),
            },
            None => (None, None),
        };
        let slot = match method.kind {
            DefineMethodKind::Method => PropertySlot::Data {
                value: JsValue::Object(function),
                writable: true,
                enumerable: method.enumerable,
                configurable: true,
            },
            DefineMethodKind::Getter => PropertySlot::Accessor {
                get: Some(function),
                set,
                enumerable: method.enumerable,
                configurable: true,
            },
            DefineMethodKind::Setter => PropertySlot::Accessor {
                get,
                set: Some(function),
                enumerable: method.enumerable,
                configurable: true,
            },
        };
        self.define_own_property(object, key, slot)
    }

    /// Define an own field; an inherited setter is not called.
    pub fn define_public_class_field(
        &mut self,
        object: ObjectRef,
        key: PropertyKey,
        value: JsValue,
    ) -> (r: Result<bool, Error>)
        requires
            old(self).wf(),
        ensures
            final(self).wf(),
            (final(self)@, r) == old(self)@.define(object, key, Heap::data_slot(value)),
    {
        self.define_own_property(
            object,
            key,
            PropertySlot::Data { value, writable: true, enumerable: true, configurable: true },
        )
    }
}

/// The static elements of a class begin at most once, also where their body
/// threw.
pub proof fn static_elements_begin_once(heap: Heap, constructor: JsValue, initializer: JsValue)
    requires
        heap.begin_static(constructor, initializer).1 is Ok,
    ensures
        ({
            let (after, _) = heap.begin_static(constructor, initializer);
            after.begin_static(constructor, initializer) == (
                after,
                Err::<(CallableRef, JsValue), Error>(
                    Error::internal("class static elements were already initialized"),
                ),
            )
        }),
{
}

/// A refused class definition publishes nothing.
pub proof fn refused_parents_publish_nothing(
    heap: Heap,
    constructor: JsValue,
    name: Atom,
    parent: ObjectRef,
    prototype: JsValue,
)
    requires
        !(prototype is Object),
        !(prototype is Null),
    ensures
        heap.derived_class_pair(constructor, name, parent, prototype).0 == heap,
        heap.derived_class_pair(constructor, name, parent, prototype).1 is Err,
{
}

/// A field is an own data property, whatever setter the object inherits: it
/// gives the value back.
pub proof fn fields_are_own_data(heap: Heap, object: ObjectRef, key: PropertyKey, value: JsValue)
    requires
        heap.define(object, key, Heap::data_slot(value)).1 == Ok::<bool, Error>(true),
    ensures
        heap.define(object, key, Heap::data_slot(value)).0.find(object, key) matches Some(p)
            && heap.define(object, key, Heap::data_slot(value)).0.properties[p].slot
            == Heap::data_slot(value),
{
    let after = heap.define(object, key, Heap::data_slot(value)).0;
    crate::object::defined_properties_are_found(heap, object, key, Heap::data_slot(value));
}

/// A published class: its constructor inherits from the parent and its fresh
/// prototype object from the parent's prototype; the two name each other, the
/// prototype of the constructor for good, and none of the three properties is
/// enumerable.  Methods of the constructor have the prototype as their home.
pub proof fn classes_link_constructor_and_prototype(
    heap: Heap,
    object: ObjectRef,
    function: BytecodeFunctionData,
    name: Atom,
    parent: ObjectRef,
    prototype_parent: Option<ObjectRef>,
)
    requires
        object.domain == heap.domain,
        object.index < heap.objects.len() < usize::MAX,
        heap.objects[object.index as int].payload == ObjectPayload::BytecodeFunction(function),
        heap.class_pair(JsValue::Object(object), name, parent, prototype_parent).1 is Ok,
    ensures
        ({
            let (after, r) = heap.class_pair(
                JsValue::Object(object),
                name,
                parent,
                prototype_parent,
            );
            let prototype = heap.next_ref();
            let at = |owner: ObjectRef, key: Atom| after.own_property(owner, PropertyKey::String(key));
            let hidden = |value: JsValue, writable: bool, configurable: bool|
                Ok::<Option<crate::object::PropertyDescriptor>, Error>(
                    Some(
                        crate::object::PropertyDescriptor::Data {
                            value,
                            writable,
                            enumerable: false,
                            configurable,
                        },
                    ),
                );
            &&& r == Ok::<DefineClassOutcome, Error>(
                DefineClassOutcome::Defined { constructor: object, prototype },
            )
            &&& after.objects.len() == heap.objects.len() + 1
            &&& after.objects[object.index as int].prototype == Some(parent)
            &&& after.objects[object.index as int].payload matches ObjectPayload::BytecodeFunction(
                data,
            ) && data.home == Some(prototype) && data.bytecode == function.bytecode
            &&& after.objects[prototype.index as int].prototype == prototype_parent
            &&& at(object, ATOM_PROTOTYPE) == hidden(JsValue::Object(prototype), false, false)
            &&& at(object, ATOM_NAME) == hidden(JsValue::String(name), false, true)
            &&& at(prototype, ATOM_CONSTRUCTOR) == hidden(JsValue::Object(object), true, true)
        }),
{
    let prototype = heap.next_ref();
    let linked = heap.with_object(
        object,
        HeapObject {
            prototype: Some(parent),
            payload: ObjectPayload::BytecodeFunction(
                BytecodeFunctionData { home: Some(prototype), ..function },
            ),
            ..heap.objects[object.index as int]
        },
    ).allocated(Heap::plain_object(prototype_parent));
    let key1 = PropertyKey::String(ATOM_PROTOTYPE);
    let key2 = PropertyKey::String(ATOM_NAME);
    let key3 = PropertyKey::String(ATOM_CONSTRUCTOR);
    let slot1 = Heap::hidden_slot(JsValue::Object(prototype), false, false);
    let slot2 = Heap::hidden_slot(JsValue::String(name), false, true);
    let slot3 = Heap::hidden_slot(JsValue::Object(object), true, true);
    let one = linked.define(object, key1, slot1).0;
    let two = one.define(object, key2, slot2).0;
    crate::object::defined_properties_are_found(linked, object, key1, slot1);
    crate::object::defined_properties_are_found(one, object, key2, slot2);
    crate::object::defined_properties_are_found(two, prototype, key3, slot3);
    crate::object::definitions_touch_one_property(one, object, key2, slot2, object, key1);
    crate::object::definitions_touch_one_property(two, prototype, key3, slot3, object, key1);
    crate::object::definitions_touch_one_property(two, prototype, key3, slot3, object, key2);
    crate::object::definitions_touch_one_property(linked, object, key1, slot1, prototype, key3);
}

/// What a class extends: without heritage the object prototype of the realm,
/// with null nothing, with a constructor what its prototype is.  A parent that
/// is no constructor and a prototype that is neither object nor null are type
/// errors.
pub proof fn heritage_decides_what_a_class_extends(
    heap: Heap,
    realm: usize,
    parent: JsValue,
    constructor: JsValue,
    name: Atom,
    base: ObjectRef,
    prototype: JsValue,
)
    requires
        realm < heap.realms.len(),
        !(parent is Object),
    ensures
        heap.define_class_pair(realm, parent, constructor, name, false) == heap.class_pair(
            constructor,
            name,
            heap.realms[realm as int].function_prototype,
            Some(heap.realms[realm as int].object_prototype),
        ),
        heap.define_class_pair(realm, JsValue::Null, constructor, name, true) == heap.class_pair(
            constructor,
            name,
            heap.realms[realm as int].function_prototype,
            None,
        ),
        !(parent is Null) ==> heap.define_class_pair(realm, parent, constructor, name, true).0
            == heap && (heap.define_class_pair(realm, parent, constructor, name, true).1 matches Err(
            e,
        ) && e.kind is Type),
        prototype matches JsValue::Object(object) ==> heap.derived_class_pair(
            constructor,
            name,
            base,
            prototype,
        ) == heap.class_pair(constructor, name, base, Some(object)),
        heap.derived_class_pair(constructor, name, base, JsValue::Null) == heap.class_pair(
            constructor,
            name,
            base,
            None,
        ),
        !(prototype is Object) && !(prototype is Null) ==> (heap.derived_class_pair(
            constructor,
            name,
            base,
            prototype,
        ).1 matches Err(e) && e.kind is Type),
        base.index < heap.objects.len() ==> (heap.class_parent(base) is Ok
            <==> heap.objects[base.index as int].is_constructor),
        base.index < heap.objects.len() && !heap.objects[base.index as int].is_constructor ==> (
        heap.class_parent(base) matches Err(e) && e.kind is Type),
{
}

/// A getter and a setter of one name are one property: defining one keeps the
/// other, in either order, and a method replaces both.  Each is as enumerable
/// as its definition says, and all are configurable.
pub proof fn accessors_share_their_property(
    heap: Heap,
    object: ObjectRef,
    key: PropertyKey,
    first: ObjectRef,
    second: ObjectRef,
    enumerable: bool,
)
    requires
        object.index < heap.objects.len(),
        heap.find(object, key) is None,
        heap.objects[object.index as int].extensible,
    ensures
        ({
            let getter = MethodDefinition { kind: DefineMethodKind::Getter, enumerable };
            let setter = MethodDefinition { kind: DefineMethodKind::Setter, enumerable };
            let method = MethodDefinition { kind: DefineMethodKind::Method, enumerable };
            let read = heap.define(object, key, heap.method_slot(object, key, first, getter)).0;
            let written = heap.define(object, key, heap.method_slot(object, key, first, setter)).0;
            let both = Ok::<Option<crate::object::PropertyDescriptor>, Error>(
                Some(
                    crate::object::PropertyDescriptor::Accessor {
                        get: Some(first),
                        set: Some(second),
                        enumerable,
                        configurable: true,
                    },
                ),
            );
            &&& read.own_property(object, key) == Ok::<
                Option<crate::object::PropertyDescriptor>,
                Error,
            >(
                Some(
                    crate::object::PropertyDescriptor::Accessor {
                        get: Some(first),
                        set: None,
                        enumerable,
                        configurable: true,
                    },
                ),
            )
            &&& read.define(
                object,
                key,
                read.method_slot(object, key, second, setter),
            ).0.own_property(object, key) == both
            &&& written.define(
                object,
                key,
                written.method_slot(object, key, second, getter),
            ).0.own_property(object, key) == Ok::<
                Option<crate::object::PropertyDescriptor>,
                Error,
            >(
                Some(
                    crate::object::PropertyDescriptor::Accessor {
                        get: Some(second),
                        set: Some(first),
                        enumerable,
                        configurable: true,
                    },
                ),
            )
            &&& read.define(
                object,
                key,
                read.method_slot(object, key, second, method),
            ).0.own_property(object, key) == Ok::<
                Option<crate::object::PropertyDescriptor>,
                Error,
            >(
                Some(
                    crate::object::PropertyDescriptor::Data {
                        value: JsValue::Object(second),
                        writable: true,
                        enumerable,
                        configurable: true,
                    },
                ),
            )
        }),
{
    let getter = MethodDefinition { kind: DefineMethodKind::Getter, enumerable };
    let setter = MethodDefinition { kind: DefineMethodKind::Setter, enumerable };
    let method = MethodDefinition { kind: DefineMethodKind::Method, enumerable };
    let slot1 = heap.method_slot(object, key, first, getter);
    let slot2 = heap.method_slot(object, key, first, setter);
    let read = heap.define(object, key, slot1).0;
    let written = heap.define(object, key, slot2).0;
    crate::object::defined_properties_are_found(heap, object, key, slot1);
    crate::object::defined_properties_are_found(heap, object, key, slot2);
    crate::object::defined_properties_are_found(
        read,
        object,
        key,
        read.method_slot(object, key, second, setter),
    );
    crate::object::defined_properties_are_found(
        written,
        object,
        key,
        written.method_slot(object, key, second, getter),
    );
    crate::object::defined_properties_are_found(
        read,
        object,
        key,
        read.method_slot(object, key, second, method),
    );
}

/// A method is named after its key, a getter with `get` and a setter with `set`
/// before it.
pub proof fn accessors_say_so_in_their_name(heap: Heap, atom: Atom)
    requires
        heap.texts.len() < usize::MAX,
        atom < heap.texts.len(),
    ensures
        heap.method_name(PropertyKey::String(atom), DefineMethodKind::Method) == (
            heap,
            Ok::<Atom, Error>(atom),
        ),
        heap.method_name(PropertyKey::String(atom), DefineMethodKind::Getter).1 matches Ok(name)
            && heap.method_name(PropertyKey::String(atom), DefineMethodKind::Getter).0.text_at(name)
            == Texts::units("get ") + heap.text_at(atom),
        heap.method_name(PropertyKey::String(atom), DefineMethodKind::Setter).1 matches Ok(name)
            && heap.method_name(PropertyKey::String(atom), DefineMethodKind::Setter).0.text_at(name)
            == Texts::units("set ") + heap.text_at(atom),
{
    reveal_strlit("get ");
    reveal_strlit("set ");
    assert(Texts::units("get ") =~= seq![103u16, 101u16, 116u16, 32u16]);
    assert(Texts::units("set ") =~= seq![115u16, 101u16, 116u16, 32u16]);
    crate::text::interning_names_the_text(
        heap.texts,
        seq![103u16, 101u16, 116u16, 32u16] + heap.text_at(atom),
    );
    crate::text::interning_names_the_text(
        heap.texts,
        seq![115u16, 101u16, 116u16, 32u16] + heap.text_at(atom),
    );
}

/// The initializers of a class: the fields run on each constructed object with
/// the prototype as their home, the static elements on the constructor.
pub proof fn initializers_belong_to_their_class(
    heap: Heap,
    constructor: ObjectRef,
    prototype: ObjectRef,
    initializer: JsValue,
    elements: JsValue,
)
    ensures
        heap.install_initializer(
            JsValue::Object(constructor),
            JsValue::Object(prototype),
            initializer,
        ).1 is Ok ==> {
            let after = heap.install_initializer(
                JsValue::Object(constructor),
                JsValue::Object(prototype),
                initializer,
            ).0;
            &&& initializer matches JsValue::Object(fields) && after.instance_initializer(
                JsValue::Object(constructor),
            ) == Ok::<Option<CallableRef>, Error>(Some(CallableRef { object: fields }))
                && after.home_object(fields) == Ok::<ObjectRef, Error>(prototype)
        },
        heap.begin_static(JsValue::Object(constructor), elements).1 matches Ok(
            (callable, receiver),
        ) ==> {
            let after = heap.begin_static(JsValue::Object(constructor), elements).0;
            &&& JsValue::Object(callable.object) == elements
            &&& receiver == JsValue::Object(constructor)
            &&& after.home_object(callable.object) == Ok::<ObjectRef, Error>(constructor)
        },
{
}

} // verus!
