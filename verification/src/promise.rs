//! Promise capabilities, internal functions and reactions.
use vstd::prelude::*;
use crate::error::Error;
use crate::frames::active::{NativeCProto, NativeFunctionId};
use crate::heap::{Heap, HeapObject, InternalCallableData, NativeFunctionData, ObjectKind, ObjectPayload, PromiseReaction, PropertyEntry, Realm};
use crate::runtime::{Runtime, ATOM_DONE, ATOM_VALUE};
use crate::value::{CallableRef, JsValue, ObjectRef, PropertyKey};

verus! {

pub const NATIVE_PROMISE_RESOLVE: u32 = 1;

pub const NATIVE_PROMISE_REJECT: u32 = 2;

pub const NATIVE_FROM_SYNC_UNWRAP: u32 = 3;

pub const NATIVE_FROM_SYNC_CLOSE: u32 = 4;

pub const NATIVE_ASYNC_FUNCTION_RESUME: u32 = 5;

/// A promise and the functions that settle it.
#[derive(Clone, Copy, Debug, PartialEq, Eq, Structural)]
pub struct PromiseCapability {
    pub promise: ObjectRef,
    pub resolve: CallableRef,
    pub reject: CallableRef,
}

impl Heap {
    /// A native function that only the engine makes.
    pub open spec fn internal_target(code: u32) -> NativeFunctionId {
        NativeFunctionId {
            code,
            cproto: NativeCProto::Generic,
            uses_calling_realm: false,
            registered: false,
            weight: 0,
            family: None,
            hidden: code == NATIVE_PROMISE_RESOLVE || code == NATIVE_PROMISE_REJECT,
        }
    }

    pub open spec fn internal_object(
        data: Realm,
        realm: usize,
        code: u32,
        internal: InternalCallableData,
    ) -> HeapObject {
        HeapObject {
            kind: ObjectKind::Function,
            payload: ObjectPayload::NativeFunction(
                NativeFunctionData {
                    target: Heap::internal_target(code),
                    realm: Some(realm),
                    min_readable_args: 1,
                    internal,
                },
            ),
            prototype: Some(data.function_prototype),
            is_constructor: false,
            extensible: true,
        }
    }

    /// Making an internal function.
    pub open spec fn internal_function(
        self,
        realm: usize,
        code: u32,
        internal: InternalCallableData,
    ) -> (Heap, Result<CallableRef, Error>) {
        match self.realm_at(realm) {
            Err(e) => (self, Err(e)),
            Ok(data) => (
                self.allocated(Heap::internal_object(data, realm, code, internal)),
                Ok(CallableRef { object: self.next_ref() }),
            ),
        }
    }

    pub open spec fn promise_object(data: Realm) -> HeapObject {
        HeapObject {
            kind: ObjectKind::Other,
            payload: ObjectPayload::Promise,
            prototype: Some(data.promise_prototype),
            is_constructor: false,
            extensible: true,
        }
    }

    /// A pending promise with its resolving functions.
    pub open spec fn new_capability(self, realm: usize) -> (Heap, Result<PromiseCapability, Error>) {
        match self.realm_at(realm) {
            Err(e) => (self, Err(e)),
            Ok(data) => {
                let promise = self.next_ref();
                let made = self.allocated(Heap::promise_object(data));
                let resolve = made.next_ref();
                let resolving = made.allocated(
                    Heap::internal_object(
                        data,
                        realm,
                        NATIVE_PROMISE_RESOLVE,
                        InternalCallableData::PromiseResolve { promise },
                    ),
                );
                let reject = resolving.next_ref();
                (
                    resolving.allocated(
                        Heap::internal_object(
                            data,
                            realm,
                            NATIVE_PROMISE_REJECT,
                            InternalCallableData::PromiseReject { promise },
                        ),
                    ),
                    Ok(
                        PromiseCapability {
                            promise,
                            resolve: CallableRef { object: resolve },
                            reject: CallableRef { object: reject },
                        },
                    ),
                )
            },
        }
    }

    pub open spec fn with_reaction(self, reaction: PromiseReaction) -> Heap {
        Heap { reactions: self.reactions.push(reaction), ..self }
    }

    /// The result object of an iteration step.
    pub open spec fn iterator_result(self, realm: usize, value: JsValue, done: bool) -> (
        Heap,
        Result<ObjectRef, Error>,
    ) {
        match self.realm_at(realm) {
            Err(e) => (self, Err(e)),
            Ok(data) => {
                let made = self.next_ref();
                (
                    self.allocated(Heap::plain_object(Some(data.object_prototype))).with_entry(
                        PropertyEntry {
                            owner: made.index,
                            key: PropertyKey::String(ATOM_VALUE),
                            slot: Heap::data_slot(value),
                        },
                    ).with_entry(
                        PropertyEntry {
                            owner: made.index,
                            key: PropertyKey::String(ATOM_DONE),
                            slot: Heap::data_slot(JsValue::Bool(done)),
                        },
                    ),
                    Ok(made),
                )
            },
        }
    }
}

impl Runtime {
    fn internal_object(data: Realm, realm: usize, code: u32, internal: InternalCallableData) -> (r:
        HeapObject)
        ensures
            r == Heap::internal_object(data, realm, code, internal),
    {
        HeapObject {
            kind: ObjectKind::Function,
            payload: ObjectPayload::NativeFunction(
                NativeFunctionData {
                    target: NativeFunctionId {
                        code,
                        cproto: NativeCProto::Generic,
                        uses_calling_realm: false,
                        registered: false,
                        weight: 0,
                        family: None,
                        hidden: code == NATIVE_PROMISE_RESOLVE || code == NATIVE_PROMISE_REJECT,
                    },
                    realm: Some(realm),
                    min_readable_args: 1,
                    internal,
                },
            ),
            prototype: Some(data.function_prototype),
            is_constructor: false,
            extensible: true,
        }
    }

    /// Make an internal function.
    pub fn new_internal_promise_function(
        &mut self,
        realm: usize,
        code: u32,
        internal: InternalCallableData,
    ) -> (r: Result<CallableRef, Error>)
        requires
            old(self).wf(),
        ensures
            final(self).wf(),
            (final(self)@, r) == old(self)@.internal_function(realm, code, internal),
    {
        let data = self.realm(realm)?;
        let object = self.allocate(Runtime::internal_object(data, realm, code, internal));
        Ok(CallableRef::from_validated_object(object))
    }

    /// Make a pending promise with its resolving functions.
    pub fn new_default_promise_capability(&mut self, realm: usize) -> (r: Result<
        PromiseCapability,
        Error,
    >)
        requires
            old(self).wf(),
        ensures
            final(self).wf(),
            (final(self)@, r) == old(self)@.new_capability(realm),
    {
        let data = self.realm(realm)?;
        let promise = self.allocate(
            HeapObject {
                kind: ObjectKind::Other,
                payload: ObjectPayload::Promise,
                prototype: Some(data.promise_prototype),
                is_constructor: false,
                extensible: true,
            },
        );
        let resolve = self.allocate(
            Runtime::internal_object(
                data,
                realm,
                NATIVE_PROMISE_RESOLVE,
                InternalCallableData::PromiseResolve { promise },
            ),
        );
        let reject = self.allocate(
            Runtime::internal_object(
                data,
                realm,
                NATIVE_PROMISE_REJECT,
                InternalCallableData::PromiseReject { promise },
            ),
        );
        Ok(
            PromiseCapability {
                promise,
                resolve: CallableRef::from_validated_object(resolve),
                reject: CallableRef::from_validated_object(reject),
            },
        )
    }

    /// Register a reaction.
    pub fn perform_promise_then(&mut self, reaction: PromiseReaction)
        requires
            old(self).wf(),
        ensures
            final(self).wf(),
            final(self)@ == old(self)@.with_reaction(reaction),
    {
        self.reactions.push(reaction);
    }

    /// Make the result object of an iteration step.
    pub fn new_iterator_result(&mut self, realm: usize, value: JsValue, done: bool) -> (r: Result<
        ObjectRef,
        Error,
    >)
        requires
            old(self).wf(),
        ensures
            final(self).wf(),
            (final(self)@, r) == old(self)@.iterator_result(realm, value, done),
    {
        let data = self.realm(realm)?;
        let made = self.new_object(Some(data.object_prototype));
        self.add_property(
            PropertyEntry {
                owner: made.index,
                key: PropertyKey::String(ATOM_VALUE),
                slot: crate::heap::PropertySlot::Data {
                    value,
                    writable: true,
                    enumerable: true,
                    configurable: true,
                },
            },
        );
        self.add_property(
            PropertyEntry {
                owner: made.index,
                key: PropertyKey::String(ATOM_DONE),
                slot: crate::heap::PropertySlot::Data {
                    value: JsValue::Bool(done),
                    writable: true,
                    enumerable: true,
                    configurable: true,
                },
            },
        );
        Ok(made)
    }
}

/// A new capability holds a fresh promise and two functions of the realm, which
/// no construction accepts: one resolves that promise and the other rejects it.
pub proof fn capabilities_settle_their_promise(heap: Heap, realm: usize)
    requires
        realm < heap.realms.len(),
        heap.objects.len() + 3 <= usize::MAX,
    ensures
        ({
            let (after, r) = heap.new_capability(realm);
            let data = heap.realms[realm as int];
            &&& r matches Ok(capability) && {
                let promise = capability.promise;
                let resolve = after.objects[capability.resolve.object.index as int];
                let reject = after.objects[capability.reject.object.index as int];
                &&& promise.index >= heap.objects.len()
                &&& after.live(promise) && after.live(capability.resolve.object) && after.live(
                    capability.reject.object,
                )
                &&& after.objects[promise.index as int].payload is Promise
                &&& after.objects[promise.index as int].prototype == Some(data.promise_prototype)
                &&& after.captured(capability.resolve.object) == Ok::<InternalCallableData, Error>(
                    InternalCallableData::PromiseResolve { promise },
                )
                &&& after.captured(capability.reject.object) == Ok::<InternalCallableData, Error>(
                    InternalCallableData::PromiseReject { promise },
                )
                &&& resolve.prototype == Some(data.function_prototype)
                &&& reject.prototype == Some(data.function_prototype)
                &&& !resolve.is_constructor && !reject.is_constructor
            }
            &&& forall|i: int| 0 <= i < heap.objects.len() ==> after.objects[i] == heap.objects[i]
        }),
{
}

/// The result of an iteration step is a fresh object of the realm whose own
/// properties `value` and `done` are the ones that were given, both writable,
/// enumerable and configurable.
pub proof fn iterator_results_hold_value_and_end(heap: Heap, realm: usize, value: JsValue, done: bool)
    requires
        realm < heap.realms.len(),
        heap.objects.len() < usize::MAX,
        Heap::pinned(heap.texts),
        forall|p: int|
            0 <= p < heap.properties.len() ==> (#[trigger] heap.properties[p]).owner
                < heap.objects.len(),
    ensures
        ({
            let (after, r) = heap.iterator_result(realm, value, done);
            &&& r == Ok::<ObjectRef, Error>(heap.next_ref())
            &&& after.objects.last().prototype == Some(heap.realms[realm as int].object_prototype)
            &&& after.text_at(ATOM_VALUE) == crate::text::Texts::units("value")
            &&& after.own_property(heap.next_ref(), PropertyKey::String(ATOM_VALUE)) == Ok::<
                Option<crate::object::PropertyDescriptor>,
                Error,
            >(
                Some(
                    crate::object::PropertyDescriptor::Data {
                        value,
                        writable: true,
                        enumerable: true,
                        configurable: true,
                    },
                ),
            )
            &&& after.text_at(ATOM_DONE) == crate::text::Texts::units("done")
            &&& after.own_property(heap.next_ref(), PropertyKey::String(ATOM_DONE)) == Ok::<
                Option<crate::object::PropertyDescriptor>,
                Error,
            >(
                Some(
                    crate::object::PropertyDescriptor::Data {
                        value: JsValue::Bool(done),
                        writable: true,
                        enumerable: true,
                        configurable: true,
                    },
                ),
            )
        }),
{
    let after = heap.iterator_result(realm, value, done).0;
    let owner = heap.next_ref().index;
    let n = heap.properties.len() as int;
    assert forall|p: int| 0 <= p < n implies (#[trigger] after.properties[p]).owner != owner by {
        assert(heap.properties[p].owner < heap.objects.len());
    }
    assert(after.properties[n].key == PropertyKey::String(ATOM_VALUE));
    assert(after.properties[n + 1].key == PropertyKey::String(ATOM_DONE));
    crate::object::position_is(after.properties, owner, PropertyKey::String(ATOM_VALUE), 0, n);
    crate::object::position_is(after.properties, owner, PropertyKey::String(ATOM_DONE), 0, n + 1);
}

/// The functions that settle a promise stay out of backtraces; the other
/// internal ones are shown.
pub proof fn settling_functions_are_hidden(heap: Heap, realm: usize, code: u32)
    requires
        realm < heap.realms.len(),
        heap.objects.len() + 3 <= usize::MAX,
    ensures
        ({
            let (after, r) = heap.new_capability(realm);
            &&& r matches Ok(capability)
            &&& after.objects[capability.resolve.object.index as int].payload matches ObjectPayload::NativeFunction(
                resolve,
            )
            &&& after.objects[capability.reject.object.index as int].payload matches ObjectPayload::NativeFunction(
                reject,
            )
            &&& resolve.target.hidden && reject.target.hidden
            &&& resolve.target.code != reject.target.code
            &&& code != resolve.target.code && code != reject.target.code ==> !Heap::internal_target(
                code,
            ).hidden
        }),
{
}

} // verus!
