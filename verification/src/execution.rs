//! Scoped execution ownership.  The registry contains identities, never values
//! or frames.
use vstd::prelude::*;
use crate::activation::VmUnwindRegion;
use crate::code::NumericKind;
use crate::error::Error;
use crate::frame::{FrameStore, Frames, ReturnTarget};
use crate::frames::active::NativeFunctionId;
use crate::runtime::Runtime;
use crate::slots::{FrameBinding, SlotStore, Slots};
use crate::value::{CallableRef, JsValue, ObjectRef, PropertyKey};

verus! {

/// The running executions of one thread.
pub struct ExecutionRegistry {
    pub next: u64,
    pub active: Vec<(u64, u64)>,
}

pub struct ExecutionLimits {
    pub frames: usize,
    pub slots: usize,
}

impl Default for ExecutionLimits {
    fn default() -> (r: Self)
        ensures
            r.frames == u16::MAX,
            vstd::layout::size_of::<FrameBinding>() == 0 ==> r.slots == isize::MAX,
            vstd::layout::size_of::<FrameBinding>() > 0 ==> r.slots == isize::MAX as nat
                / vstd::layout::size_of::<FrameBinding>(),
    {
        let size: usize = core::mem::size_of::<FrameBinding>();
        let slots: usize = if size == 0 {
            isize::MAX as usize
        } else {
            isize::MAX as usize / size
        };
        ExecutionLimits { frames: 0xffff, slots }
    }
}

/// Last position of an entry, looking down from `upto`.
pub open spec fn last_position(active: Seq<(u64, u64)>, entry: (u64, u64), upto: int) -> Option<int>
    decreases upto,
{
    if upto <= 0 || upto > active.len() {
        None
    } else if active[upto - 1] == entry {
        Some(upto - 1)
    } else {
        last_position(active, entry, upto - 1)
    }
}

impl ExecutionRegistry {
    pub fn new() -> (r: Self)
        ensures
            r.next == 1,
            r.active@.len() == 0,
    {
        ExecutionRegistry { next: 1, active: Vec::new() }
    }
}

#[derive(Clone, Copy, Debug, PartialEq, Eq, Structural)]
pub struct ExecutionGuard {
    pub domain: u64,
    pub id: u64,
}

impl ExecutionGuard {
    /// The registrations without the newest one of this execution.
    pub open spec fn left(self, active: Seq<(u64, u64)>) -> Seq<(u64, u64)> {
        match last_position(active, (self.domain, self.id), active.len() as int) {
            Some(p) => active.remove(p),
            None => active,
        }
    }

    /// Register a new execution under an identity of its own.
    pub fn enter(registry: &mut ExecutionRegistry, runtime: &Runtime) -> (r: Result<Self, Error>)
        ensures
            match r {
                Ok(guard) => {
                    &&& old(registry).next < u64::MAX
                    &&& guard.domain == runtime@.domain
                    &&& guard.id == old(registry).next
                    &&& final(registry).next == old(registry).next + 1
                    &&& final(registry).active@ == old(registry).active@.push(
                        (guard.domain, guard.id),
                    )
                },
                Err(e) => {
                    &&& old(registry).next == u64::MAX
                    &&& e == Error::internal("execution identity exhausted")
                    &&& *final(registry) == *old(registry)
                },
            },
    {
        let id: u64 = registry.next;
        let after: u64 = match id.checked_add(1) {
            Some(after) => after,
            None => {
                return Err(Error::internal("execution identity exhausted"));
            },
        };
        registry.next = after;
        let domain: u64 = runtime.domain_id();
        registry.active.push((domain, id));
        Ok(ExecutionGuard { domain, id })
    }

    /// Remove the newest registration of this execution.
    pub fn leave(self, registry: &mut ExecutionRegistry)
        ensures
            final(registry).next == old(registry).next,
            final(registry).active@ == self.left(old(registry).active@),
    {
        let mut i: usize = registry.active.len();
        while i > 0
            invariant
                i <= registry.active@.len(),
                *registry == *old(registry),
                last_position(
                    registry.active@,
                    (self.domain, self.id),
                    registry.active@.len() as int,
                ) == last_position(registry.active@, (self.domain, self.id), i as int),
            decreases i,
        {
            let (domain, id) = registry.active[i - 1];
            if domain == self.domain && id == self.id {
                registry.active.remove(i - 1);
                return;
            }
            i = i - 1;
        }
    }
}

/// Leaving an execution right after entering it restores the registrations.
pub proof fn leaving_undoes_entering(active: Seq<(u64, u64)>, entry: (u64, u64))
    ensures
        last_position(active.push(entry), entry, active.len() as int + 1) == Some(active.len() as int),
        active.push(entry).remove(active.len() as int) == active,
{
    assert(active.push(entry).remove(active.len() as int) =~= active);
}

/// As long as identities come from below the next one, a new execution has one
/// that no registered execution has, and they still do afterwards.
pub proof fn execution_identities_are_fresh(active: Seq<(u64, u64)>, next: u64, domain: u64)
    requires
        next < u64::MAX,
        forall|i: int| 0 <= i < active.len() ==> (#[trigger] active[i]).1 < next,
    ensures
        !active.contains((domain, next)),
        forall|i: int|
            0 <= i <= active.len() ==> (#[trigger] active.push((domain, next))[i]).1 < next + 1,
{
}

/// Work that only the embedder can do.
#[derive(Clone, Copy, Debug, PartialEq, Eq, Structural)]
pub enum PendingRequest {
    /// Run a native body.  Its `count` arguments lie on top of the operands.
    Native {
        callable: CallableRef,
        target: NativeFunctionId,
        realm: usize,
        min_readable_args: u8,
        receiver: JsValue,
        count: usize,
    },
    /// Call something that is not entered as a frame.  Its `count` arguments
    /// lie on top of the operands.
    Call { callable: CallableRef, receiver: JsValue, count: usize },
    /// Read a property of an object with its own protocol.
    Get { object: ObjectRef, key: PropertyKey, receiver: JsValue },
    /// Compute an operator on numbers that the embedder holds; without a kind,
    /// addition or unary plus.
    Numeric { kind: Option<NumericKind>, left: JsValue, right: Option<JsValue> },
    /// Define an element of a literal whose key has to be converted or whose
    /// object has its own protocol.  The returned value is not used.
    Define { object: ObjectRef, key: JsValue, value: JsValue },
    /// Test whether an object has a property under a converted key.
    Predicate { key: JsValue, target: JsValue },
    /// Access a property above `home` under a converted key.
    SuperProperty { key: JsValue, receiver: JsValue, home: JsValue, operands: usize },
    /// Evaluate the first of the `count` arguments that lie on top of the
    /// operands, or call `callee` if it is not the evaluating function.
    Eval { callee: JsValue, count: u16, scope: u32 },
}

/// A request and where its completion goes.
#[derive(Clone, Copy, Debug, PartialEq, Eq, Structural)]
pub struct PendingCall {
    pub request: PendingRequest,
    pub return_to: ReturnTarget,
}

pub struct RunningExecution {
    pub frames: FrameStore,
    pub slots: SlotStore,
    pub regions: Vec<VmUnwindRegion>,
    /// A completion owns its payload before the window is cleared.
    pub pending: Option<JsValue>,
    pub pending_call: Option<PendingCall>,
    pub guard: ExecutionGuard,
}

/// An execution as a mathematical value.
#[verifier::ext_equal]
pub struct Machine {
    pub frames: Frames,
    pub slots: Slots,
    pub regions: Seq<VmUnwindRegion>,
    pub pending: Option<JsValue>,
    pub pending_call: Option<PendingCall>,
    pub guard: ExecutionGuard,
}

impl View for RunningExecution {
    type V = Machine;

    open spec fn view(&self) -> Machine {
        Machine {
            frames: self.frames@,
            slots: self.slots@,
            regions: self.regions@,
            pending: self.pending,
            pending_call: self.pending_call,
            guard: self.guard,
        }
    }
}

impl Machine {
    /// An execution without frames.
    pub open spec fn fresh(domain: u64, id: u64, limits: ExecutionLimits) -> Machine {
        Machine {
            frames: Frames {
                frames: Seq::empty(),
                execution: id,
                next_generation: 1,
                limit: limits.frames,
            },
            slots: Slots { values: Seq::empty(), limit: limits.slots },
            regions: Seq::empty(),
            pending: None,
            pending_call: None,
            guard: ExecutionGuard { domain, id },
        }
    }
}

impl RunningExecution {
    /// A fresh execution without frames.
    pub fn new(registry: &mut ExecutionRegistry, runtime: &Runtime, limits: ExecutionLimits) -> (r:
        Result<Self, Error>)
        ensures
            match r {
                Ok(execution) => {
                    &&& old(registry).next < u64::MAX
                    &&& final(registry).next == old(registry).next + 1
                    &&& final(registry).active@ == old(registry).active@.push(
                        (runtime@.domain, old(registry).next),
                    )
                    &&& execution@ == Machine::fresh(runtime@.domain, old(registry).next, limits)
                },
                Err(e) => {
                    &&& old(registry).next == u64::MAX
                    &&& e == Error::internal("execution identity exhausted")
                    &&& *final(registry) == *old(registry)
                },
            },
    {
        let guard = ExecutionGuard::enter(registry, runtime)?;
        Ok(
            RunningExecution {
                frames: FrameStore::new(guard.id, limits.frames),
                slots: SlotStore::new(limits.slots),
                regions: Vec::new(),
                pending: None,
                pending_call: None,
                guard,
            },
        )
    }
}

proof fn last_entries(active: Seq<(u64, u64)>, entry: (u64, u64), upto: int)
    requires
        0 <= upto <= active.len(),
    ensures
        match last_position(active, entry, upto) {
            Some(p) => 0 <= p < upto && active[p] == entry && forall|i: int|
                p < i < upto ==> active[i] != entry,
            None => forall|i: int| 0 <= i < upto ==> active[i] != entry,
        },
    decreases upto,
{
    if upto > 0 && active[upto - 1] != entry {
        last_entries(active, entry, upto - 1);
    }
}

/// Leaving removes the newest registration of the execution and no other; an
/// execution that is not registered removes nothing.
pub proof fn leaving_removes_the_newest_registration(
    guard: ExecutionGuard,
    active: Seq<(u64, u64)>,
    p: int,
)
    ensures
        0 <= p < active.len() && active[p] == (guard.domain, guard.id) && (forall|i: int|
            p < i < active.len() ==> active[i] != (guard.domain, guard.id)) ==> guard.left(active)
            == active.take(p) + active.skip(p + 1),
        (forall|i: int| 0 <= i < active.len() ==> active[i] != (guard.domain, guard.id))
            ==> guard.left(active) == active,
{
    last_entries(active, (guard.domain, guard.id), active.len() as int);
    if 0 <= p < active.len() && active[p] == (guard.domain, guard.id) && (forall|i: int|
        p < i < active.len() ==> active[i] != (guard.domain, guard.id)) {
        assert(active.remove(p) =~= active.take(p) + active.skip(p + 1));
    }
}

} // verus!
