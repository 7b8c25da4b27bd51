//! Every run leaves the activations as it found them, and every frame has its
//! storage to itself.
//!
//! A frame is registered as an activation when it is entered and taken off
//! when it ends.  The functions below follow this through every driver: what a
//! driver does to the frames and to the activations is either nothing, one
//! fresh child with its own activation, or the end of the newest frame.  Each
//! of these touches no slot below the window of the frame that is current.
use vstd::prelude::*;
use crate::call::ordinary::{DirectSelection, OrdinaryCall};
use crate::call::request::{Callback, Entry, Request};
use crate::call::{CallableExecution, CreateStep};
use crate::class::DefineClassOutcome;
use crate::code::{ApplyKind, BytecodeConstant, ClosureVariable, DynamicEnvironmentSource, FunctionBytecode, Instruction, MethodDefinition, NumericKind};
use crate::construct_driver::{InitializerKind, PendingClass, Selection};
use crate::conversion_driver::{ConversionTask, ConversionWait, Finish, ConvertedWrite, Progress};
use crate::driver::CallStep;
use crate::driver::frames::{Dispatch, DriverState};
use crate::driver::ready::{Boundary, Ready};
use crate::environment_bindings::operation::EnvironmentStep;
use crate::environment_driver::{Effect, GlobalWrite, Operation, WriteTarget};
use crate::error::Error;
use crate::execution::{ExecutionLimits, Machine, PendingRequest};
use crate::frame::{ConstructorReturn, Frame, FrameCold, FrameId, FrameRecord, Frames, OperationTarget, ReturnTarget, ReturnValue};
use crate::frames::active::{ActiveFrameRecord, ActiveFrameToken, ActiveFrames};
use crate::heap::{Heap, HeapObject, ObjectPayload, PropertySlot, Realm};
use crate::object::OrdinaryRead;
use crate::primitive::{PrimitiveResume, PrimitiveStep};
use crate::property_driver::{ConvertedRead, ReadKey};
use crate::run::{BindingSource, RunExit};
use crate::runtime::{ActiveFrameGuard, ATOM_PROTOTYPE};
use crate::slots::{FrameWindow, Slots};
use crate::text::Texts;
use crate::value::{CallableRef, Completion, JsValue, NativeConversion, ObjectRef, PropertyKey};
use crate::with_driver::PendingHas;

verus! {

impl Heap {
    /// Whether the static elements of a class have begun.
    pub open spec fn has_begun(object: HeapObject) -> bool {
        object.payload matches ObjectPayload::BytecodeFunction(function)
            && function.static_initialized
    }

    /// Whether classes whose static elements had begun are marked as before.
    pub open spec fn keeps_marks(self, after: Heap) -> bool {
        &&& self.objects.len() <= after.objects.len()
        &&& forall|i: int|
            0 <= i < self.objects.len() && Heap::has_begun(self.objects[i]) ==> Heap::has_begun(
                #[trigger] after.objects[i],
            )
    }

    /// Whether activations and their identities were left alone.
    pub open spec fn still(self, after: Heap) -> bool {
        &&& after.active == self.active
        &&& after.next_token == self.next_token
        &&& self.keeps_marks(after)
    }

    /// Whether the same activations are registered, and those other than `own`
    /// were left alone.
    pub open spec fn same_but(self, after: Heap, own: ActiveFrameToken) -> bool {
        &&& after.active.len() == self.active.len()
        &&& self.begins_with(after, own)
    }

    /// Whether the activations that were registered still are, and those other
    /// than `own` were left alone.
    pub open spec fn begins_with(self, after: Heap, own: ActiveFrameToken) -> bool {
        &&& after.active.len() >= self.active.len()
        &&& forall|i: int|
            0 <= i < self.active.len() ==> {
                &&& (#[trigger] after.active[i]).token == self.active[i].token
                &&& self.active[i].token != own ==> after.active[i] == self.active[i]
            }
    }
}

impl Frames {
    /// Whether the frames that were there have the identities, guards and
    /// windows that they had.
    pub open spec fn keeps_frames(self, after: Frames) -> bool {
        &&& after.frames.len() >= self.frames.len()
        &&& after.execution == self.execution
        &&& forall|i: int|
            0 <= i < self.frames.len() ==> {
                &&& (#[trigger] after.frames[i]).frame.cold.entry_guard
                    == self.frames[i].frame.cold.entry_guard
                &&& after.frames[i].frame.cold.active_frame
                    == self.frames[i].frame.cold.active_frame
                &&& after.frames[i].id == self.frames[i].id
                &&& after.frames[i].frame.window == self.frames[i].frame.window
            }
    }
}

broadcast use {
    crate::storage::discarding_stays_within,
    crate::storage::pushing_keeps_all,
    crate::storage::reuse_stays_within,
};

impl Machine {
    /// Nothing was entered or ended, and the current frame alone was worked on.
    pub open spec fn calm(self, heap: Heap, after_heap: Heap, after: Machine) -> bool {
        &&& heap.same_but(after_heap, self.own())
        &&& self.frames.frames.len() == 0 ==> after_heap.active == heap.active
        &&& heap.keeps_marks(after_heap)
        &&& after_heap.next_token >= heap.next_token
        &&& after.frames.frames.len() == self.frames.frames.len()
        &&& self.frames.keeps_frames(after.frames)
        &&& after.frames.next_generation >= self.frames.next_generation
        &&& self.frames.frames.len() > 0 ==> self.slots.within(after.slots, self.window())
    }

    /// The activation of the current frame.
    pub open spec fn own(self) -> ActiveFrameToken {
        self.frames.frames.last().frame.cold.active_frame
    }

    /// The window of the current frame.
    pub open spec fn window(self) -> FrameWindow {
        self.frames.frames.last().frame.window
    }

    /// Whether the storage of the current frame is laid out in order.
    pub open spec fn orderly(self) -> bool {
        self.window().ordered() && self.window().floor <= self.slots.values.len()
    }

    /// One child was entered, and its activation is fresh.
    pub open spec fn nested(self, heap: Heap, after_heap: Heap, after: Machine) -> bool {
        let n = heap.active.len() as int;
        let token = after_heap.active[n].token;
        &&& after_heap.active.len() == n + 1
        &&& n < usize::MAX
        &&& heap.begins_with(after_heap, self.own())
        &&& self.frames.frames.len() == 0 ==> after_heap.active.drop_last() == heap.active
        &&& heap.keeps_marks(after_heap)
        &&& after.own() == token
        &&& heap.next_token <= token.0 < after_heap.next_token
        &&& after.frames.frames.len() == self.frames.frames.len() + 1
        &&& self.frames.keeps_frames(after.frames)
        &&& after.frames.frames.last().frame.cold.entry_guard == Some(
            ActiveFrameGuard { token, depth: n as usize },
        )
        &&& self.frames.next_generation <= after.frames.frames.last().id.generation
            < after.frames.next_generation
        &&& after.frames.frames.last().id.execution == self.frames.execution
        &&& self.frames.frames.len() > 0 && self.orderly() ==> {
            &&& self.slots.within(after.slots, self.window())
            &&& self.window().floor <= after.window().base
            &&& after.orderly()
        }
    }

    pub open spec fn moved(self, heap: Heap, after_heap: Heap, after: Machine) -> bool {
        self.calm(heap, after_heap, after) || self.nested(heap, after_heap, after)
    }
}

impl Machine {
    /// The newest frame is gone, and so is its activation.
    pub open spec fn ended(self, heap: Heap, after_heap: Heap, after: Machine) -> bool {
        &&& self.frames.frames.len() > 0
        &&& after.frames.frames.len() == self.frames.frames.len() - 1
        &&& after.frames.keeps_frames(self.frames)
        &&& after.frames.next_generation >= self.frames.next_generation
        &&& self.orderly() ==> self.slots.same_below(after.slots, self.window().base as int)
        &&& heap.retired(self.frames.frames.last().frame.cold.entry_guard).active
            == after_heap.active
        &&& heap.keeps_marks(after_heap)
        &&& after_heap.next_token >= heap.next_token
    }

    /// Whether an activation is one of `base`.
    pub open spec fn listed(base: Seq<ActiveFrameRecord>, token: ActiveFrameToken) -> bool {
        exists|i: int| 0 <= i < base.len() && (#[trigger] base[i]).token == token
    }

    /// Whether the guard of a frame that is not the oldest one lies above what
    /// the execution rests on.
    pub open spec fn apart(
        base: Seq<ActiveFrameRecord>,
        root: ActiveFrameToken,
        guard: Option<ActiveFrameGuard>,
    ) -> bool {
        guard matches Some(guard) ==> {
            &&& guard.depth > base.len()
            &&& guard.token != root
            &&& !Machine::listed(base, guard.token)
        }
    }

    /// Whether the activations of an execution lie on top of those of `base`.
    #[verifier::opaque]
    pub open spec fn rests_on(self, heap: Heap, base: Seq<ActiveFrameRecord>) -> bool {
        let n = base.len() as int;
        let frames = self.frames.frames;
        &&& n <= heap.active.len()
        &&& forall|i: int| 0 <= i < n ==> #[trigger] heap.active[i] == base[i]
        &&& forall|k: int|
            0 <= k < frames.len() ==> !Machine::listed(
                base,
                (#[trigger] frames[k]).frame.cold.active_frame,
            )
        &&& forall|i: int|
            0 <= i < heap.active.len() ==> (#[trigger] heap.active[i]).token.0 < heap.next_token
        &&& frames.len() == 0 ==> heap.active.len() == n
        &&& frames.len() > 0 ==> {
            let root = heap.active[n].token;
            &&& n < heap.active.len()
            &&& n <= usize::MAX
            &&& frames[0].frame.cold.entry_guard == Some(
                ActiveFrameGuard { token: root, depth: n as usize },
            )
            &&& forall|k: int|
                0 < k < frames.len() ==> Machine::apart(
                    base,
                    root,
                    (#[trigger] frames[k]).frame.cold.entry_guard,
                )
        }
    }
}

impl Machine {
    /// The windows of the frames lie one above the other.
    pub open spec fn stacked(self) -> bool {
        let frames = self.frames.frames;
        &&& self.frames.issued()
        &&& forall|k: int| 0 <= k < frames.len() ==> (#[trigger] frames[k]).frame.window.ordered()
        &&& forall|j: int, k: int|
            0 <= j < k < frames.len() ==> (#[trigger] frames[j]).frame.window.floor <= (
            #[trigger] frames[k]).frame.window.base
        &&& frames.len() > 0 ==> frames.last().frame.window.floor <= self.slots.values.len()
    }

    /// Whether each frame has the window that it had and nothing changed below
    /// that window, unless the frame is a new one.
    pub open spec fn spares(self, after: Machine) -> bool {
        &&& after.frames.execution == self.frames.execution
        &&& after.frames.next_generation >= self.frames.next_generation
        &&& forall|k: int|
            0 <= k < after.frames.frames.len() && (#[trigger] after.frames.frames[k]).id.generation
                < self.frames.next_generation ==> {
                &&& k < self.frames.frames.len()
                &&& after.frames.frames[k].id == self.frames.frames[k].id
                &&& after.frames.frames[k].frame.window == self.frames.frames[k].frame.window
                &&& self.slots.same_below(
                    after.slots,
                    self.frames.frames[k].frame.window.base as int,
                )
            }
    }

    /// Windows that lay one above the other still do, every frame was spared,
    /// and no class lost its mark.
    #[verifier::opaque]
    pub open spec fn stays_apart(self, heap: Heap, after_heap: Heap, after: Machine) -> bool {
        &&& heap.keeps_marks(after_heap)
        &&& self.stacked() ==> after.stacked() && self.spares(after)
    }
}

proof fn nothing_stays_apart(machine: Machine, heap: Heap)
    ensures
        machine.stays_apart(heap, heap, machine),
{
    reveal(Machine::stays_apart);
    if machine.stacked() {
        let frames = machine.frames.frames;
        assert forall|k: int| 0 <= k < frames.len() implies (
        #[trigger] frames[k]).frame.window.base <= machine.slots.values.len() by {
            assert(frames[k].frame.window.ordered());
            assert(frames.last().frame.window.ordered());
        }
    }
}

broadcast proof fn both_stay_apart(
    heap: Heap,
    first: Machine,
    next_heap: Heap,
    second: Machine,
    last_heap: Heap,
    third: Machine,
)
    requires
        #[trigger] first.stays_apart(heap, next_heap, second),
        #[trigger] second.stays_apart(next_heap, last_heap, third),
    ensures
        first.stays_apart(heap, last_heap, third),
{
    reveal(Machine::stays_apart);
    assert forall|i: int|
        0 <= i < heap.objects.len() && Heap::has_begun(heap.objects[i]) implies Heap::has_begun(
        #[trigger] last_heap.objects[i],
    ) by {
        assert(Heap::has_begun(next_heap.objects[i]));
    }
    if first.stacked() {
        assert forall|k: int|
            0 <= k < third.frames.frames.len() && (#[trigger] third.frames.frames[k]).id.generation
                < first.frames.next_generation implies {
            &&& k < first.frames.frames.len()
            &&& third.frames.frames[k].id == first.frames.frames[k].id
            &&& third.frames.frames[k].frame.window == first.frames.frames[k].frame.window
            &&& first.slots.same_below(third.slots, first.frames.frames[k].frame.window.base as int)
        } by {
            assert(second.frames.frames[k].id.generation < first.frames.next_generation);
        }
    }
}

proof fn moving_stays_apart(machine: Machine, heap: Heap, after_heap: Heap, after: Machine)
    requires
        machine.moved(heap, after_heap, after),
        machine.calm(heap, after_heap, after) || machine.frames.frames.len() > 0,
    ensures
        machine.stays_apart(heap, after_heap, after),
{
    reveal(Machine::stays_apart);
    if machine.stacked() {
        let frames = machine.frames.frames;
        let later = after.frames.frames;
        let n = frames.len() as int;
        if n > 0 {
            assert(frames[n - 1].frame.window.ordered());
        }
        assert forall|k: int| 0 <= k < n implies {
            &&& (#[trigger] later[k]).id == frames[k].id
            &&& later[k].id.execution == machine.frames.execution
            &&& later[k].id.generation < machine.frames.next_generation
            &&& later[k].frame.window == frames[k].frame.window
            &&& machine.slots.same_below(after.slots, frames[k].frame.window.base as int)
        } by {
            assert(frames[k].frame.window.ordered());
            assert(k < n - 1 ==> frames[k].frame.window.floor <= frames[n - 1].frame.window.base);
        }
        assert forall|j: int, k: int| 0 <= j < k < later.len() implies (
        #[trigger] later[j]).frame.window.floor <= (#[trigger] later[k]).frame.window.base by {
            assert(frames[j].frame.window.ordered());
            if k < n {
                assert(frames[j].frame.window.floor <= frames[k].frame.window.base);
            } else {
                assert(j < n - 1 ==> frames[j].frame.window.floor <= frames[n
                    - 1].frame.window.base);
            }
        }
        assert forall|k: int| 0 <= k < later.len() implies (
        #[trigger] later[k]).frame.window.ordered() by {
            if k < n {
                assert(frames[k].frame.window.ordered());
            }
        }
    }
}

proof fn ending_stays_apart(machine: Machine, heap: Heap, after_heap: Heap, after: Machine)
    requires
        machine.ended(heap, after_heap, after),
    ensures
        machine.stays_apart(heap, after_heap, after),
{
    reveal(Machine::stays_apart);
    if machine.stacked() {
        let frames = machine.frames.frames;
        let later = after.frames.frames;
        let n = frames.len() as int;
        assert(frames[n - 1].frame.window.ordered());
        assert forall|k: int| 0 <= k < later.len() implies {
            &&& (#[trigger] later[k]).id == frames[k].id
            &&& later[k].id.execution == machine.frames.execution
            &&& later[k].id.generation < machine.frames.next_generation
            &&& later[k].frame.window == frames[k].frame.window
            &&& later[k].frame.window.ordered()
            &&& later[k].frame.window.floor <= machine.window().base
            &&& machine.slots.same_below(after.slots, frames[k].frame.window.base as int)
        } by {
            assert(frames[k].frame.window.ordered());
            assert(frames[k].frame.window.floor <= frames[n - 1].frame.window.base);
        }
        assert forall|j: int, k: int| 0 <= j < k < later.len() implies (
        #[trigger] later[j]).frame.window.floor <= (#[trigger] later[k]).frame.window.base by {
            assert(frames[j].frame.window.floor <= frames[k].frame.window.base);
        }
    }
}

proof fn moving_keeps_rest(
    machine: Machine,
    heap: Heap,
    after_heap: Heap,
    after: Machine,
    base: Seq<ActiveFrameRecord>,
)
    requires
        machine.rests_on(heap, base),
        machine.moved(heap, after_heap, after),
        machine.calm(heap, after_heap, after) || machine.frames.frames.len() > 0,
    ensures
        after.rests_on(after_heap, base),
        machine.stays_apart(heap, after_heap, after),
{
    reveal(Machine::rests_on);
    moving_stays_apart(machine, heap, after_heap, after);
    let n = base.len() as int;
    if machine.frames.frames.len() > 0 {
        assert(after_heap.active[n].token == heap.active[n].token);
        assert(after.frames.frames[0].frame.cold.entry_guard
            == machine.frames.frames[0].frame.cold.entry_guard);
        if machine.nested(heap, after_heap, after) && !machine.calm(heap, after_heap, after) {
            let token = after_heap.active[heap.active.len() as int].token;
            assert forall|j: int| 0 <= j < n implies (#[trigger] base[j]).token != token by {
                assert(heap.active[j] == base[j]);
            }
        }
    }
}

proof fn found_position(records: Seq<ActiveFrameRecord>, token: ActiveFrameToken, from: int)
    requires
        0 <= from,
    ensures
        ActiveFrames::position_from(records, token, from) matches Some(p) ==> from <= p
            < records.len() && records[p].token == token,
    decreases records.len() - from,
{
    if from < records.len() && records[from].token != token {
        found_position(records, token, from + 1);
    }
}

/// Retiring a guard that lies above the oldest activation keeps that one and
/// everything below it.
proof fn retiring_keeps_below(
    heap: Heap,
    base: Seq<ActiveFrameRecord>,
    root: ActiveFrameToken,
    guard: Option<ActiveFrameGuard>,
)
    requires
        base.len() < heap.active.len(),
        forall|i: int|
            0 <= i < base.len() ==> #[trigger] heap.active[i] == base[i],
        heap.active[base.len() as int].token == root,
        Machine::apart(base, root, guard),
    ensures
        base.len() < heap.retired(guard).active.len() <= heap.active.len(),
        heap.retired(guard).next_token == heap.next_token,
        heap.retired(guard).active == heap.active.take(heap.retired(guard).active.len() as int),
{
    match guard {
        Some(guard) => {
            found_position(heap.active, guard.token, 0);
            let p = ActiveFrames::retire_position(heap.active, guard.token, guard.depth as int);
            assert(p > base.len()) by {
                if 0 <= p < base.len() {
                    assert(heap.active[p] == base[p]);
                }
            }
            assert(heap.active.drop_last() =~= heap.active.take(heap.active.len() - 1));
            assert(heap.active.take(heap.active.len() as int) =~= heap.active);
        },
        None => {
            assert(heap.active.take(heap.active.len() as int) =~= heap.active);
        },
    }
}

proof fn ending_keeps_rest(
    machine: Machine,
    heap: Heap,
    after_heap: Heap,
    after: Machine,
    base: Seq<ActiveFrameRecord>,
)
    requires
        machine.rests_on(heap, base),
        machine.ended(heap, after_heap, after),
    ensures
        after.rests_on(after_heap, base),
        machine.stays_apart(heap, after_heap, after),
{
    reveal(Machine::rests_on);
    ending_stays_apart(machine, heap, after_heap, after);
    let n = base.len() as int;
    let k = machine.frames.frames.len() - 1;
    let guard = machine.frames.frames[k].frame.cold.entry_guard;
    let retired = heap.retired(guard);
    assert forall|j: int| 0 <= j < after.frames.frames.len() implies !Machine::listed(
        base,
        (#[trigger] after.frames.frames[j]).frame.cold.active_frame,
    ) by {
        assert(machine.frames.frames[j].frame.cold.active_frame
            == after.frames.frames[j].frame.cold.active_frame);
    }
    if k > 0 {
        retiring_keeps_below(heap, base, heap.active[n].token, guard);
        assert forall|i: int| 0 <= i < retired.active.len() implies #[trigger] after_heap.active[i]
            == heap.active[i] by {
            assert(retired.active[i] == heap.active[i]);
        }
        assert(after_heap.active[n] == heap.active[n]);
        assert(after.frames.frames[0].frame.cold.entry_guard
            == machine.frames.frames[0].frame.cold.entry_guard) by {
            assert(machine.frames.frames[0].frame.cold.entry_guard
                == after.frames.frames[0].frame.cold.entry_guard);
        }
        assert forall|j: int| 0 < j < after.frames.frames.len() implies Machine::apart(
            base,
            after_heap.active[n].token,
            (#[trigger] after.frames.frames[j]).frame.cold.entry_guard,
        ) by {
            assert(machine.frames.frames[j].frame.cold.entry_guard
                == after.frames.frames[j].frame.cold.entry_guard);
        }
    } else {
        assert(retired.active =~= heap.active.take(n));
        assert forall|i: int| 0 <= i < n implies #[trigger] after_heap.active[i] == heap.active[i] by {
            assert(retired.active[i] == heap.active[i]);
        }
    }
}

/// Guards of frames whose activations are gone retire nothing.
proof fn lost_guards_retire_nothing(
    heap: Heap,
    base: Seq<ActiveFrameRecord>,
    root: ActiveFrameToken,
    frames: Seq<FrameRecord>,
    from: int,
)
    requires
        from >= 1,
        heap.active.len() == base.len(),
        forall|i: int| 0 <= i < base.len() ==> #[trigger] heap.active[i] == base[i],
        forall|k: int|
            0 < k < frames.len() ==> Machine::apart(
                base,
                root,
                (#[trigger] frames[k]).frame.cold.entry_guard,
            ),
    ensures
        heap.abandoned(frames, from).active == heap.active,
    decreases frames.len() - from,
{
    if from < frames.len() {
        let guard = frames[from].frame.cold.entry_guard;
        let retired = heap.retired(guard);
        match guard {
            Some(guard) => {
                found_position(heap.active, guard.token, 0);
                match ActiveFrames::position_from(heap.active, guard.token, 0) {
                    Some(p) => {
                        assert(heap.active[p] == base[p]);
                        assert(Machine::listed(base, guard.token));
                    },
                    None => {},
                }
            },
            None => {},
        }
        assert(retired.active == heap.active);
        lost_guards_retire_nothing(retired, base, root, frames, from + 1);
    }
}

/// Abandoning an execution leaves the activations that it rested on.
proof fn abandoning_restores(machine: Machine, heap: Heap, base: Seq<ActiveFrameRecord>)
    requires
        machine.rests_on(heap, base),
    ensures
        ({
            let after = heap.abandoned(machine.frames.frames, 0);
            &&& after.active.len() == base.len()
            &&& forall|i: int|
                0 <= i < base.len() ==> #[trigger] after.active[i] == base[i]
        }),
{
    reveal(Machine::rests_on);
    let frames = machine.frames.frames;
    let n = base.len() as int;
    if frames.len() > 0 {
        let retired = heap.retired(frames[0].frame.cold.entry_guard);
        assert(retired.active =~= heap.active.take(n));
        assert forall|i: int| 0 <= i < n implies #[trigger] retired.active[i] == base[i] by {
            assert(heap.active[i] == base[i]);
        }
        lost_guards_retire_nothing(retired, base, heap.active[n].token, frames, 1);
    }
}

/// Whatever state an execution is left in, abandoning it leaves exactly the
/// activations that it rested on.
pub proof fn abandoned_executions_restore_activations(
    machine: Machine,
    heap: Heap,
    base: Seq<ActiveFrameRecord>,
)
    requires
        machine.rests_on(heap, base),
    ensures
        heap.abandoned(machine.frames.frames, 0).active == base,
{
    abandoning_restores(machine, heap, base);
    assert(heap.abandoned(machine.frames.frames, 0).active =~= base);
}

proof fn calm_then_moved(
    heap: Heap,
    machine: Machine,
    heap2: Heap,
    machine2: Machine,
    heap3: Heap,
    machine3: Machine,
)
    requires
        machine.calm(heap, heap2, machine2),
        machine2.moved(heap2, heap3, machine3),
    ensures
        machine.moved(heap, heap3, machine3),
        machine2.calm(heap2, heap3, machine3) ==> machine.calm(heap, heap3, machine3),
{
}

proof fn moved_then_calm(
    heap: Heap,
    machine: Machine,
    heap2: Heap,
    machine2: Machine,
    heap3: Heap,
    machine3: Machine,
)
    requires
        machine.moved(heap, heap2, machine2),
        machine2.calm(heap2, heap3, machine3),
        heap3.active == heap2.active,
    ensures
        machine.moved(heap, heap3, machine3),
{
}

/// Storing the current frame with its guard is calm.
proof fn storing_is_calm(machine: Machine, heap: Heap, after: Machine, frame: Frame)
    requires
        machine.frames.frames.len() > 0,
        after.frames == machine.frames.stored(frame),
        machine.slots.within(after.slots, machine.window()),
        frame.cold.entry_guard == machine.frames.frames.last().frame.cold.entry_guard,
        frame.window == machine.window(),
        frame.cold.active_frame == machine.own(),
    ensures
        machine.calm(heap, heap, after),
{
}

/// Taking a fresh activation off again leaves the activations as they were.
proof fn fresh_activations_retire(heap: Heap, registered: Heap, guard: ActiveFrameGuard)
    requires
        registered.active.len() == heap.active.len() + 1,
        registered.active.last().token == guard.token,
        guard.depth == heap.active.len(),
    ensures
        registered.finished(guard).0.active == registered.active.drop_last(),
        registered.finished(guard).0.next_token == registered.next_token,
{
}

/// A prepared entry carries the guard of its fresh activation; a refused one
/// leaves none.
proof fn requests_register_once(heap: Heap, request: Request)
    ensures
        ({
            let (after, r) = heap.request_entry(request);
            match r {
                Err(_) => after.active == heap.active && after.next_token >= heap.next_token
                    && heap.keeps_marks(after),
                Ok(entry) => {
                    &&& heap.keeps_marks(after)
                    &&& entry.cold.active_frame == ActiveFrameToken(heap.next_token)
                    &&& heap.active.len() < usize::MAX
                    &&& after.active.len() == heap.active.len() + 1
                    &&& after.active.drop_last() == heap.active
                    &&& after.active.last().token == ActiveFrameToken(heap.next_token)
                    &&& after.next_token == heap.next_token + 1
                    &&& entry.cold.entry_guard == Some(
                        ActiveFrameGuard {
                            token: ActiveFrameToken(heap.next_token),
                            depth: heap.active.len() as usize,
                        },
                    )
                },
            }
        }),
{
    let (prepared_heap, r) = heap.prepare_frame(
        request.callable,
        request.receiver,
        request.new_target,
        request.arguments,
        request.bytecode,
    );
    crate::call::native::releasing_touches_edges_only(prepared_heap, request.arguments);
    match r {
        Ok(prepared) => {
            assert(prepared_heap.active.drop_last() =~= heap.active);
            let retired = prepared_heap.finished(prepared.active_frame).0;
            crate::call::native::releasing_touches_edges_only(retired, request.arguments);
        },
        Err(_) => {
            assert(prepared_heap.active =~= heap.active);
        },
    }
}

/// Pushing an entry whose activation is fresh.
proof fn fresh_entries_nest(machine: Machine, heap: Heap, registered: Heap, entry: Entry, token: u64)
    requires
        heap.active.len() < usize::MAX,
        registered.active.len() == heap.active.len() + 1,
        registered.active.drop_last() == heap.active,
        registered.active.last().token == ActiveFrameToken(token),
        heap.next_token <= token < registered.next_token,
        heap.keeps_marks(registered),
        entry.cold.active_frame == ActiveFrameToken(token),
        entry.cold.entry_guard == Some(
            ActiveFrameGuard {
                token: ActiveFrameToken(token),
                depth: heap.active.len() as usize,
            },
        ),
    ensures
        ({
            let (after, entered, r) = machine.push_entry(registered, entry);
            &&& machine.moved(heap, after, entered)
            &&& r is Err ==> machine.calm(heap, after, entered)
        }),
{
    assert forall|i: int| 0 <= i < heap.active.len() implies (#[trigger] registered.active[i])
        == heap.active[i] by {
        assert(registered.active.drop_last()[i] == registered.active[i]);
    }
}

/// Entering a frame for a request.
proof fn requests_nest(machine: Machine, heap: Heap, request: Request)
    ensures
        ({
            let (registered, r) = heap.request_entry(request);
            match r {
                Err(_) => machine.calm(heap, registered, machine),
                Ok(entry) => {
                    let (after, entered, r) = machine.push_entry(registered, entry);
                    machine.moved(heap, after, entered)
                },
            }
        }),
{
    requests_register_once(heap, request);
    let (registered, r) = heap.request_entry(request);
    match r {
        Ok(entry) => fresh_entries_nest(machine, heap, registered, entry, heap.next_token),
        Err(_) => {},
    }
}

proof fn begin_frame_moves(
    machine: Machine,
    heap: Heap,
    frame: Frame,
    dropped: nat,
    kept: Seq<JsValue>,
    request: Request,
)
    requires
        machine.frames.frames.len() > 0,
        frame.cold.entry_guard == machine.frames.frames.last().frame.cold.entry_guard,
        frame.window == machine.window(),
        frame.cold.active_frame == machine.own(),
    ensures
        ({
            let (after, entered, r) = machine.begin_frame(heap, frame, dropped, kept, request);
            machine.moved(heap, after, entered)
        }),
{
    let (slots, _) = Machine::reshuffle(machine.slots, frame.window, dropped, kept);
    let popped = Machine { slots, ..machine };
    let (ready, _) = popped.resumed(frame, Error::internal("call resume PC overflow"));
    requests_nest(ready, heap, request);
    let (after, entered, _) = machine.begin_frame(heap, frame, dropped, kept, request);
    assert(machine.calm(heap, heap, ready));
    calm_then_moved(heap, machine, heap, ready, after, entered);
}

proof fn begin_pending_is_calm(
    machine: Machine,
    heap: Heap,
    frame: Frame,
    dropped: nat,
    kept: Seq<JsValue>,
    callback: Callback,
    return_to: ReturnTarget,
)
    requires
        machine.frames.frames.len() > 0,
        frame.cold.entry_guard == machine.frames.frames.last().frame.cold.entry_guard,
        frame.window == machine.window(),
        frame.cold.active_frame == machine.own(),
    ensures
        machine.calm(
            heap,
            heap,
            machine.begin_pending(frame, dropped, kept, callback, return_to).0,
        ),
{
}

proof fn enter_callback_moves(
    machine: Machine,
    heap: Heap,
    frame: Frame,
    dropped: nat,
    kept: Seq<JsValue>,
    callback: Callback,
    return_to: ReturnTarget,
    bridge: bool,
)
    requires
        machine.frames.frames.len() > 0,
        frame.cold.entry_guard == machine.frames.frames.last().frame.cold.entry_guard,
        frame.window == machine.window(),
        frame.cold.active_frame == machine.own(),
    ensures
        ({
            let (after, entered, r) = machine.enter_callback(
                heap,
                frame,
                dropped,
                kept,
                callback,
                return_to,
                bridge,
            );
            machine.moved(heap, after, entered)
        }),
{
    begin_pending_is_calm(machine, heap, frame, dropped, kept, callback, return_to);
    match callback.classification {
        CallableExecution::Bytecode { bytecode, start, count } => {
            let request = Request {
                callable: callback.callable,
                receiver: callback.receiver,
                new_target: JsValue::Undefined,
                arguments: callback.arguments,
                bytecode,
                closure_count: count,
                caller_realm: frame.realm,
                return_to,
            };
            begin_frame_moves(machine, heap, frame, dropped, kept, request);
        },
        _ => {},
    }
}

proof fn bound_calls_are_still(
    heap: Heap,
    realm: usize,
    callable: CallableRef,
    receiver: JsValue,
    arguments: Seq<JsValue>,
    fuel: nat,
)
    ensures
        heap.still(heap.bound_call(realm, callable, receiver, arguments, fuel).0),
    decreases fuel,
{
    match heap.classification(callable) {
        Ok(CallableExecution::Bound { target, this_value, start, count }) => {
            if fuel > 0 {
                bound_calls_are_still(
                    heap,
                    realm,
                    target,
                    this_value,
                    heap.bound_list(start, count) + arguments,
                    (fuel - 1) as nat,
                );
            }
        },
        _ => {},
    }
}

proof fn enter_call_moves(machine: Machine, heap: Heap, id: FrameId, count: u16, method: bool, tail: bool)
    ensures
        ({
            let (after, entered, r) = machine.enter_call(heap, id, count, method, tail);
            machine.moved(heap, after, entered)
        }),
{
    match machine.frames.current(id) {
        Ok(frame) => {
            match (
                machine.slots.peek(frame.window, count as int),
                machine.call_operands(frame.window, count as nat, method),
            ) {
                (Ok(JsValue::Object(object)), Ok((arguments, receiver))) => {
                    match heap.callable(object) {
                        Ok(Some(callable)) => {
                            let fuel = heap.objects.len();
                            bound_calls_are_still(
                                heap,
                                frame.realm,
                                callable,
                                receiver,
                                arguments,
                                fuel,
                            );
                            match heap.bound_call(
                                frame.realm,
                                callable,
                                receiver,
                                arguments,
                                fuel,
                            ) {
                                (bound, Ok(NativeConversion::Value(callback))) => {
                                    enter_callback_moves(
                                        machine,
                                        bound,
                                        frame,
                                        count as nat + if method {
                                            2nat
                                        } else {
                                            1nat
                                        },
                                        Seq::empty(),
                                        callback,
                                        ReturnTarget {
                                            value_use: ReturnValue::Push,
                                            frame: id,
                                            tail,
                                            operation: None,
                                        },
                                        true,
                                    );
                                },
                                _ => {},
                            }
                        },
                        _ => {},
                    }
                },
                _ => {},
            }
        },
        Err(_) => {},
    }
}

/// A prepared frame carries the guard of its fresh activation.
proof fn preparations_register_once(
    heap: Heap,
    callable: CallableRef,
    this_value: JsValue,
    new_target: JsValue,
    arguments: Seq<JsValue>,
    bytecode: usize,
)
    ensures
        ({
            let (after, r) = heap.prepare_frame(
                callable,
                this_value,
                new_target,
                arguments,
                bytecode,
            );
            match r {
                Err(_) => after.active == heap.active && after.next_token >= heap.next_token,
                Ok(prepared) => {
                    &&& heap.active.len() < usize::MAX
                    &&& after.active.len() == heap.active.len() + 1
                    &&& after.active.drop_last() == heap.active
                    &&& after.active.last().token == ActiveFrameToken(heap.next_token)
                    &&& after.next_token == heap.next_token + 1
                    &&& prepared.active_frame == (ActiveFrameGuard {
                        token: ActiveFrameToken(heap.next_token),
                        depth: heap.active.len() as usize,
                    })
                },
            }
        }),
{
    let (after, r) = heap.prepare_frame(callable, this_value, new_target, arguments, bytecode);
    match r {
        Ok(_) => {
            assert(after.active.drop_last() =~= heap.active);
        },
        Err(_) => {
            assert(after.active =~= heap.active);
        },
    }
}

proof fn install_ordinary_moves(
    machine: Machine,
    heap: Heap,
    call: OrdinaryCall,
    parent: FrameId,
    count: nat,
    method: bool,
    tail: bool,
)
    ensures
        ({
            let (after, entered, r) = machine.install_ordinary(
                heap,
                call,
                parent,
                count,
                method,
                tail,
            );
            machine.moved(heap, after, entered)
        }),
{
    match machine.frames.current(parent) {
        Ok(frame) => {
            match machine.call_operands(frame.window, count, method) {
                Ok((arguments, receiver)) => {
                    let callable = CallableRef { object: call.callee() };
                    preparations_register_once(
                        heap,
                        callable,
                        receiver,
                        JsValue::Undefined,
                        arguments,
                        call.code(),
                    );
                    match heap.prepare_frame(
                        callable,
                        receiver,
                        JsValue::Undefined,
                        arguments,
                        call.code(),
                    ) {
                        (registered, Ok(prepared)) => {
                            let (slots, _) = machine.slots.discard(
                                frame.window,
                                count + if method {
                                    2nat
                                } else {
                                    1nat
                                },
                            );
                            let popped = Machine { slots, ..machine };
                            let (resumed, _) = popped.resumed(
                                frame,
                                Error::internal("call resume PC overflow"),
                            );
                            let entry = Entry {
                                executable: prepared.executable,
                                realm: prepared.realm,
                                cold: FrameCold::fresh_spec(
                                    prepared,
                                    callable,
                                    frame.realm,
                                    Some(
                                        ReturnTarget {
                                            value_use: ReturnValue::Push,
                                            frame: parent,
                                            tail,
                                            operation: None,
                                        },
                                    ),
                                ),
                                original_arguments: arguments,
                                parameters: prepared.arguments,
                                locals: prepared.locals,
                            };
                            fresh_entries_nest(resumed, heap, registered, entry, heap.next_token);
                            assert(machine.calm(heap, heap, resumed));
                            let (after, entered, _) = resumed.push_entry(registered, entry);
                            calm_then_moved(heap, machine, heap, resumed, after, entered);
                            fresh_activations_retire(heap, registered, prepared.active_frame);
                        },
                        _ => {},
                    }
                },
                Err(_) => {},
            }
        },
        Err(_) => {},
    }
}

proof fn enter_selected_moves(
    machine: Machine,
    heap: Heap,
    id: FrameId,
    frame: Frame,
    callee: JsValue,
    arguments: Seq<JsValue>,
    receiver: JsValue,
    method: bool,
    tail: bool,
)
    requires
        machine.frames.frames.len() > 0,
        frame.cold.entry_guard == machine.frames.frames.last().frame.cold.entry_guard,
        frame.window == machine.window(),
        frame.cold.active_frame == machine.own(),
    ensures
        ({
            let (after, entered, r) = machine.enter_selected(
                heap,
                id,
                frame,
                callee,
                arguments,
                receiver,
                method,
                tail,
            );
            machine.moved(heap, after, entered)
        }),
{
    match heap.direct_selection(callee) {
        Ok(DirectSelection::Ordinary(selected)) => {
            match selected.authenticated(heap) {
                Ok(call) => install_ordinary_moves(
                    machine,
                    heap,
                    call,
                    id,
                    arguments.len(),
                    method,
                    tail,
                ),
                Err(_) => {},
            }
        },
        Ok(DirectSelection::Native(native)) => {
            let (function, target, realm, min_readable_args) = native.parts();
            begin_pending_is_calm(
                machine,
                heap,
                frame,
                arguments.len() + if method {
                    2nat
                } else {
                    1nat
                },
                Seq::empty(),
                Callback {
                    callable: CallableRef { object: function },
                    receiver,
                    arguments,
                    classification: CallableExecution::Native { target, realm, min_readable_args },
                },
                ReturnTarget { value_use: ReturnValue::Push, frame: id, tail, operation: None },
            );
        },
        _ => {},
    }
}

proof fn enter_direct_moves(
    machine: Machine,
    heap: Heap,
    id: FrameId,
    count: u16,
    method: bool,
    tail: bool,
)
    ensures
        ({
            let (after, entered, r) = machine.enter_direct(heap, id, count, method, tail);
            machine.moved(heap, after, entered)
        }),
{
    match machine.frames.current(id) {
        Ok(frame) => {
            match (
                machine.slots.peek(frame.window, count as int),
                machine.call_operands(frame.window, count as nat, method),
            ) {
                (Ok(callee), Ok((arguments, receiver))) => {
                    enter_selected_moves(
                        machine,
                        heap,
                        id,
                        frame,
                        callee,
                        arguments,
                        receiver,
                        method,
                        tail,
                    );
                },
                _ => {},
            }
        },
        Err(_) => {},
    }
}

proof fn finish_ordinary_ends(machine: Machine, heap: Heap, id: FrameId)
    ensures
        ({
            let (after_heap, after, r) = machine.finish_ordinary(heap, id);
            machine.calm(heap, after_heap, after) || machine.ended(heap, after_heap, after)
        }),
{
}

proof fn release_operand_is_calm(machine: Machine, heap: Heap, id: FrameId, keep_top: bool)
    ensures
        ({
            let (after_heap, after, r) = machine.release_operand(heap, id, keep_top);
            machine.calm(heap, after_heap, after)
        }),
{
}

proof fn numeric_complete_is_calm(machine: Machine, heap: Heap, id: FrameId, kind: NumericKind)
    ensures
        ({
            let (after_heap, after, r) = machine.numeric_complete(heap, id, kind);
            machine.calm(heap, after_heap, after)
        }),
{
}

proof fn complete_primitives_is_calm(
    machine: Machine,
    heap: Heap,
    id: FrameId,
    addition: bool,
    next: u64,
)
    ensures
        ({
            let (after_heap, after, _, r) = machine.complete_primitives(heap, id, addition, next);
            machine.calm(heap, after_heap, after)
        }),
{
}

proof fn merging_is_still(heap: Heap, realm: usize, bound: Seq<JsValue>, arguments: Seq<JsValue>)
    ensures
        heap.still(heap.concatenated(realm, bound, arguments).0),
{
    crate::call::native::releasing_touches_edges_only(heap, bound);
    crate::call::native::releasing_touches_edges_only(heap.release_each(bound), arguments);
    crate::call::native::releasing_touches_edges_only(heap, arguments);
    crate::call::native::releasing_touches_edges_only(heap.release_each(arguments), bound);
}

proof fn normalizing_is_still(
    heap: Heap,
    realm: usize,
    callable: CallableRef,
    receiver: JsValue,
    arguments: Seq<JsValue>,
    fuel: nat,
)
    ensures
        heap.still(heap.normalize(realm, callable, receiver, arguments, fuel).0),
    decreases fuel,
{
    crate::call::classifying_touches_edges_only(heap, callable);
    let (taken, kind) = heap.classify(callable);
    let released = taken.release(receiver).0;
    crate::call::native::releasing_touches_edges_only(released, arguments);
    match kind {
        Ok(CallableExecution::Bound { target, this_value, start, count }) => {
            crate::call::native::releasing_touches_edges_only(
                released.release(this_value).0,
                arguments,
            );
            let bound = released.bound_list(start, count);
            merging_is_still(released, realm, bound, arguments);
            match released.concatenated(realm, bound, arguments) {
                (merged_heap, Ok(NativeConversion::Value(merged))) => {
                    crate::call::native::releasing_touches_edges_only(
                        merged_heap.release(this_value).0,
                        merged,
                    );
                    if fuel > 0 {
                        normalizing_is_still(
                            merged_heap,
                            realm,
                            target,
                            this_value,
                            merged,
                            (fuel - 1) as nat,
                        );
                    }
                },
                _ => {},
            }
        },
        _ => {},
    }
}

proof fn read_property_moves(
    machine: Machine,
    heap: Heap,
    id: FrameId,
    frame: Frame,
    base: JsValue,
    key: PropertyKey,
    dropped: nat,
    kept: Seq<JsValue>,
)
    requires
        machine.frames.frames.len() > 0,
        frame.cold.entry_guard == machine.frames.frames.last().frame.cold.entry_guard,
        frame.window == machine.window(),
        frame.cold.active_frame == machine.own(),
    ensures
        ({
            let (after_heap, after, r) = machine.read_property(
                heap,
                id,
                frame,
                base,
                key,
                dropped,
                kept,
            );
            machine.moved(heap, after_heap, after)
        }),
{
    match heap.value_read(frame.realm, base, key) {
        (selected, Ok(OrdinaryRead::Call { getter, receiver })) => {
            let fuel = selected.objects.len();
            normalizing_is_still(selected, frame.realm, getter, receiver, Seq::empty(), fuel);
            match selected.normalize(frame.realm, getter, receiver, Seq::empty(), fuel) {
                (named, Ok(NativeConversion::Value(callback))) => {
                    enter_callback_moves(
                        machine,
                        named,
                        frame,
                        dropped,
                        kept,
                        callback,
                        ReturnTarget {
                            value_use: ReturnValue::Push,
                            frame: id,
                            tail: false,
                            operation: None,
                        },
                        false,
                    );
                },
                _ => {},
            }
        },
        _ => {},
    }
}

proof fn read_progress_moves(
    machine: Machine,
    heap: Heap,
    id: FrameId,
    key: ReadKey,
    keep_receiver: bool,
)
    ensures
        ({
            let (after_heap, after, r) = machine.read_progress(heap, id, key, keep_receiver);
            machine.moved(heap, after_heap, after)
        }),
        ({
            let (after_heap, after, r) = machine.read(heap, id, key, keep_receiver);
            machine.moved(heap, after_heap, after)
        }),
{
    match key {
        ReadKey::Static(index) => read_static_moves(machine, heap, id, index, keep_receiver),
        ReadKey::Computed { keep_key } => read_computed_moves(
            machine,
            heap,
            id,
            keep_receiver,
            keep_key,
        ),
    }
}

proof fn read_static_moves(
    machine: Machine,
    heap: Heap,
    id: FrameId,
    index: u32,
    keep_receiver: bool,
)
    ensures
        ({
            let (after_heap, after, r) = machine.read_progress(
                heap,
                id,
                ReadKey::Static(index),
                keep_receiver,
            );
            machine.moved(heap, after_heap, after)
        }),
{
    match machine.frames.current(id) {
        Ok(frame) => {
            match (heap.function_at(frame.executable), machine.slots.peek(frame.window, 0)) {
                (Ok(function), Ok(base)) => {
                    match Heap::static_key(function, index) {
                        Ok(key) => read_property_moves(
                            machine,
                            heap,
                            id,
                            frame,
                            base,
                            key,
                            if keep_receiver {
                                0
                            } else {
                                1
                            },
                            Seq::empty(),
                        ),
                        Err(_) => {},
                    }
                },
                _ => {},
            }
        },
        Err(_) => {},
    }
}

proof fn read_computed_moves(
    machine: Machine,
    heap: Heap,
    id: FrameId,
    keep_receiver: bool,
    keep_key: bool,
)
    ensures
        ({
            let (after_heap, after, r) = machine.read_progress(
                heap,
                id,
                ReadKey::Computed { keep_key },
                keep_receiver,
            );
            machine.moved(heap, after_heap, after)
        }),
{
    let (after_heap, after, _) = machine.read_progress(
        heap,
        id,
        ReadKey::Computed { keep_key },
        keep_receiver,
    );
    match machine.frames.current(id) {
        Ok(frame) => {
            match (machine.slots.peek(frame.window, 1), machine.slots.peek(frame.window, 0)) {
                (Ok(base), Ok(name)) => {
                    if base.nullish() {
                        throwing_is_still(heap, frame.realm, Heap::nullish_read(base, keep_key));
                    } else {
                        keys_are_still(heap, name);
                        match heap.canonical_key(name) {
                            (named, Ok(key)) => {
                                read_property_moves(
                                    machine,
                                    named,
                                    id,
                                    frame,
                                    base,
                                    key,
                                    if keep_receiver {
                                        1
                                    } else {
                                        2
                                    },
                                    if keep_key {
                                        seq![key.as_value()]
                                    } else {
                                        Seq::empty()
                                    },
                                );
                                calm_then_moved(heap, machine, named, machine, after_heap, after);
                            },
                            (named, Err(e)) => {
                                throwing_is_still(named, frame.realm, e);
                            },
                        }
                    }
                },
                _ => {},
            }
        },
        Err(_) => {},
    }
}

proof fn throwing_is_still(heap: Heap, realm: usize, error: Error)
    ensures
        heap.still(heap.throw_step(realm, error).0),
{
}

proof fn keys_are_still(heap: Heap, value: JsValue)
    ensures
        heap.still(heap.canonical_key(value).0),
{
}

proof fn read_converted_moves(machine: Machine, heap: Heap, id: FrameId, input: ConvertedRead)
    ensures
        ({
            let (after_heap, after, r) = machine.read_converted(heap, id, input);
            machine.moved(heap, after_heap, after)
        }),
{
    match (machine.frames.current(id), heap.canonical_key(input.key)) {
        (Ok(frame), (named, Ok(key))) => {
            read_property_moves(
                machine,
                named,
                id,
                frame,
                input.base,
                key,
                0,
                (if input.keep_receiver {
                    seq![input.base]
                } else {
                    Seq::empty()
                }) + (if input.keep_key {
                    seq![key.as_value()]
                } else {
                    Seq::empty()
                }),
            );
        },
        _ => {},
    }
}

proof fn finish_environment_moves(machine: Machine, heap: Heap, id: FrameId, frame: Frame, effect: Effect)
    requires
        machine.frames.frames.len() > 0,
        frame.cold.entry_guard == machine.frames.frames.last().frame.cold.entry_guard,
        frame.window == machine.window(),
        frame.cold.active_frame == machine.own(),
    ensures
        ({
            let (after_heap, after, r) = machine.finish_environment(heap, id, frame, effect);
            machine.moved(heap, after_heap, after)
        }),
{
    match effect {
        Effect::Call(call) => {
            let (ready, _) = machine.resumed(
                frame,
                Error::internal("environment resume PC overflow"),
            );
            let request = call.request(frame.realm, id);
            requests_nest(ready, heap, request);
            let (after_heap, after, _) = machine.finish_environment(heap, id, frame, effect);
            assert(machine.calm(heap, heap, ready));
            if machine.frames.can_push() && !heap.would_overflow() {
                calm_then_moved(heap, machine, heap, ready, after_heap, after);
            }
        },
        _ => {},
    }
}

proof fn elements_are_still(heap: Heap, owner: usize, values: Seq<JsValue>, from: int)
    ensures
        heap.still(heap.with_elements(owner, values, from)),
    decreases values.len() - from,
{
    if 0 <= from < values.len() {
        elements_are_still(
            heap.with_element(owner, from as nat, Heap::data_slot(values[from])),
            owner,
            values,
            from + 1,
        );
    }
}

proof fn arrays_are_still(heap: Heap, realm: usize, values: Seq<JsValue>)
    ensures
        heap.still(heap.new_array(realm, values).0),
{
    match heap.realm_at(realm) {
        Ok(data) => elements_are_still(
            heap.allocated(Heap::array_object(data)),
            heap.next_ref().index,
            values,
            0,
        ),
        Err(_) => {},
    }
}

proof fn appending_is_still(
    heap: Heap,
    object: ObjectRef,
    start: nat,
    values: Seq<JsValue>,
    from: int,
)
    ensures
        heap.still(heap.append_from(object, start, values, from).0),
    decreases values.len() - from,
{
    if 0 <= from < values.len() {
        match heap.with_text(Texts::digits((start + from) as nat)).define_element(
            object,
            heap.index_key((start + from) as nat),
            values[from],
        ) {
            (after, Ok(true)) => appending_is_still(after, object, start, values, from + 1),
            _ => {},
        }
    }
}

proof fn append_dense_is_calm(machine: Machine, heap: Heap, id: FrameId)
    ensures
        ({
            let (after_heap, after, r) = machine.append_dense(heap, id);
            machine.calm(heap, after_heap, after)
        }),
{
    match machine.frames.current(id) {
        Ok(frame) => {
            match (
                machine.slots.peek(frame.window, 2),
                machine.slots.peek(frame.window, 1),
                machine.slots.peek(frame.window, 0),
            ) {
                (Ok(JsValue::Object(array)), Ok(JsValue::Int(index)), Ok(source)) => {
                    match heap.plain_elements(source) {
                        Some(values) => appending_is_still(heap, array, index as nat, values, 0),
                        None => {},
                    }
                },
                _ => {},
            }
        },
        Err(_) => {},
    }
}

proof fn define_array_element_is_calm(machine: Machine, heap: Heap, id: FrameId)
    ensures
        ({
            let (after_heap, after, r) = machine.define_array_element(heap, id);
            machine.calm(heap, after_heap, after)
        }),
{
}

proof fn effects_are_still(
    machine: Machine,
    heap: Heap,
    frame: Frame,
    function: FunctionBytecode,
    op: Operation,
)
    ensures
        heap.still(machine.environment_effect(heap, frame, function, op).0),
        machine.slots.within(
            machine.environment_effect(heap, frame, function, op).1.slots,
            frame.window,
        ),
{
    reveal(Machine::environment_effect);
    match op {
        Operation::GlobalDelete(index) => {
            assert(heap.still(machine.global_delete(heap, frame, function, index).0));
            assert(machine.slots.within(machine.global_delete(heap, frame, function, index).1.slots, frame.window));
        },
        Operation::GlobalReference(index) => {
            assert(heap.still(machine.global_reference(heap, frame, function, index).0));
            assert(machine.slots.within(machine.global_reference(heap, frame, function, index).1.slots, frame.window));
        },
        Operation::Put { source, name, strict, check_presence } => {
            puts_are_still(machine, heap, frame, function, source, name, strict, check_presence);
        },
        Operation::Define { source, name } => {
            assert(heap.still(machine.environment_define(heap, frame, function, source, name).0));
            assert(machine.slots.within(machine.environment_define(heap, frame, function, source, name).1.slots, frame.window));
        },
        Operation::Delete { source, name } => {
            assert(heap.still(machine.environment_delete(heap, frame, function, source, name).0));
            assert(machine.slots.within(machine.environment_delete(heap, frame, function, source, name).1.slots, frame.window));
        },
        Operation::CreateArray(count) => {
            match machine.slots.top(frame.window, count as nat) {
                Ok(values) => arrays_are_still(heap, frame.realm, values),
                Err(_) => {},
            }
            assert(heap.still(machine.create_array(heap, frame, count).0));
            assert(machine.slots.within(machine.create_array(heap, frame, count).1.slots, frame.window));
        },
        Operation::ToObject => {
            assert(heap.still(machine.environment_to_object(heap, frame).0));
            assert(machine.slots.within(machine.environment_to_object(heap, frame).1.slots, frame.window));
        },
        Operation::InitializeWith(index) => {
            assert(heap.still(machine.initialize_with(heap, frame, function, index).0));
            assert(machine.slots.within(machine.initialize_with(heap, frame, function, index).1.slots, frame.window));
        },
        _ => {
            assert(heap.still(machine.environment_get(heap, frame, function, op).0));
            assert(machine.slots.within(machine.environment_get(heap, frame, function, op).1.slots, frame.window));
        },
    }
}

proof fn puts_are_still(
    machine: Machine,
    heap: Heap,
    frame: Frame,
    function: FunctionBytecode,
    source: WriteTarget,
    name: u32,
    strict: bool,
    check_presence: bool,
)
    ensures
        heap.still(
            machine.environment_put(
                heap,
                frame,
                function,
                source,
                name,
                strict,
                check_presence,
            ).0,
        ),
        machine.slots.within(
            machine.environment_put(
                heap,
                frame,
                function,
                source,
                name,
                strict,
                check_presence,
            ).1.slots,
            frame.window,
        ),
{
    let target = match source {
        WriteTarget::Global { index, initialize } => heap.global_write(
            frame,
            function,
            index,
            initialize,
        ),
        _ => match Heap::linked_key(function, name) {
            Ok(key) => Ok(GlobalWrite::Property(key)),
            Err(e) => Err(e),
        },
    };
    match target {
        Ok(GlobalWrite::Property(key)) => {
            match machine.write_object(heap, frame, source, key, strict) {
                Ok(object) => {
                    match heap.own_cell(object, key) {
                        Ok(Some(cell)) => put_variable_is_still(
                            machine,
                            heap,
                            frame,
                            cell,
                            key,
                            strict,
                        ),
                        _ => {},
                    }
                    put_property_is_still(
                        machine,
                        heap,
                        frame,
                        object,
                        key,
                        machine.slots.peek(frame.window, 0),
                        if source is Reference {
                            2
                        } else {
                            1
                        },
                        strict,
                        check_presence,
                    );
                },
                Err(_) => {},
            }
        },
        _ => {},
    }
}

proof fn put_variable_is_still(
    machine: Machine,
    heap: Heap,
    frame: Frame,
    cell: usize,
    key: PropertyKey,
    strict: bool,
)
    ensures
        ({
            let (after_heap, after, r) = machine.put_variable(heap, frame, cell, key, strict);
            heap.still(after_heap) && machine.slots.within(after.slots, frame.window)
        }),
{
}

proof fn put_property_is_still(
    machine: Machine,
    heap: Heap,
    frame: Frame,
    object: ObjectRef,
    key: PropertyKey,
    value: Result<JsValue, Error>,
    dropped: nat,
    strict: bool,
    check_presence: bool,
)
    ensures
        ({
            let (after_heap, after, r) = machine.put_property(
                heap,
                frame,
                object,
                key,
                value,
                dropped,
                strict,
                check_presence,
            );
            heap.still(after_heap) && machine.slots.within(after.slots, frame.window)
        }),
{
}

proof fn environment_step_moves(machine: Machine, heap: Heap, id: FrameId, op: Operation)
    ensures
        ({
            let (after_heap, after, r) = machine.environment_step(heap, id, op);
            machine.moved(heap, after_heap, after)
        }),
{
    match op {
        Operation::Append => append_dense_is_calm(machine, heap, id),
        Operation::DefineArrayElement => define_array_element_is_calm(machine, heap, id),
        _ => {
            match machine.frames.current(id) {
                Ok(frame) => {
                    match heap.function_at(frame.executable) {
                        Ok(function) => {
                            crate::environment_driver::environments_keep_frames(
                                machine,
                                heap,
                                frame,
                                function,
                                op,
                            );
                            effects_are_still(machine, heap, frame, function, op);
                            match machine.environment_effect(heap, frame, function, op) {
                                (next, put, Ok(effect)) => {
                                    finish_environment_moves(put, next, id, frame, effect);
                                    let (after_heap, after, _) = put.finish_environment(
                                        next,
                                        id,
                                        frame,
                                        effect,
                                    );
                                    calm_then_moved(heap, machine, next, put, after_heap, after);
                                },
                                _ => {},
                            }
                        },
                        Err(_) => {},
                    }
                },
                Err(_) => {},
            }
        },
    }
}

proof fn write_value_moves(
    machine: Machine,
    heap: Heap,
    id: FrameId,
    frame: Frame,
    base: JsValue,
    key: PropertyKey,
    value: JsValue,
    dropped: nat,
    strict: bool,
)
    requires
        machine.frames.frames.len() > 0,
        frame.cold.entry_guard == machine.frames.frames.last().frame.cold.entry_guard,
        frame.window == machine.window(),
        frame.cold.active_frame == machine.own(),
    ensures
        ({
            let (after_heap, after, r) = machine.write_value(
                heap,
                id,
                frame,
                base,
                key,
                value,
                dropped,
                strict,
            );
            machine.moved(heap, after_heap, after)
        }),
{
    match base {
        JsValue::Object(object) => {
            let (next, put, r) = machine.put_property(
                heap,
                frame,
                object,
                key,
                Ok(value),
                dropped,
                strict,
                false,
            );
            assert(heap.still(next) && put.frames == machine.frames);
            match r {
                Ok(effect) => {
                    finish_environment_moves(put, next, id, frame, effect);
                    let (after_heap, after, _) = put.finish_environment(next, id, frame, effect);
                    calm_then_moved(heap, machine, next, put, after_heap, after);
                },
                Err(_) => {},
            }
        },
        _ => {},
    }
}

proof fn write_moves(machine: Machine, heap: Heap, id: FrameId, key: Option<u32>)
    ensures
        ({
            let (after_heap, after, r) = machine.write(heap, id, key);
            machine.moved(heap, after_heap, after)
        }),
{
    let dropped: nat = if key is Some {
        2
    } else {
        3
    };
    match machine.frames.current(id) {
        Ok(frame) => {
            match (
                heap.function_at(frame.executable),
                machine.slots.peek(frame.window, dropped - 1),
                machine.slots.peek(frame.window, 0),
            ) {
                (Ok(function), Ok(base), Ok(value)) => {
                    let (named_heap, named) = match key {
                        Some(index) => (heap, Heap::static_key(function, index)),
                        None => match machine.slots.peek(frame.window, 1) {
                            Err(e) => (heap, Err(e)),
                            Ok(operand) => heap.canonical_key(operand),
                        },
                    };
                    match named {
                        Ok(key) => write_value_moves(
                            machine,
                            named_heap,
                            id,
                            frame,
                            base,
                            key,
                            value,
                            dropped,
                            function.metadata.strict,
                        ),
                        Err(_) => {},
                    }
                },
                _ => {},
            }
        },
        Err(_) => {},
    }
}

proof fn write_converted_moves(machine: Machine, heap: Heap, id: FrameId, input: ConvertedWrite)
    ensures
        ({
            let (after_heap, after, r) = machine.write_converted(heap, id, input);
            machine.moved(heap, after_heap, after)
        }),
{
    match (machine.frames.current(id), heap.canonical_key(input.key)) {
        (Ok(frame), (named, Ok(key))) => {
            match heap.function_at(frame.executable) {
                Ok(function) => {
                    write_value_moves(
                        machine,
                        named,
                        id,
                        frame,
                        input.base,
                        key,
                        input.value,
                        0,
                        function.metadata.strict,
                    );
                    let (next, put, _) = machine.write_value(
                        named,
                        id,
                        frame,
                        input.base,
                        key,
                        input.value,
                        0,
                        function.metadata.strict,
                    );
                    let (after_heap, after, _) = machine.write_converted(heap, id, input);
                    assert(put.calm(next, after_heap, after));
                    moved_then_calm(heap, machine, next, put, after_heap, after);
                },
                Err(_) => {},
            }
        },
        _ => {},
    }
}

/// Entering a frame after calm changes of the machine; an entry that is given
/// up instead takes its activation with it.
proof fn requests_nest_late(machine: Machine, heap: Heap, ready: Machine, request: Request)
    requires
        machine.calm(heap, heap, ready),
    ensures
        ({
            let (registered, r) = heap.request_entry(request);
            match r {
                Err(_) => {
                    &&& machine.calm(heap, registered, machine)
                    &&& machine.calm(heap, registered, ready)
                },
                Ok(entry) => {
                    let (after, entered, _) = ready.push_entry(registered, entry);
                    let retired = registered.retired(entry.cold.entry_guard);
                    &&& machine.moved(heap, after, entered)
                    &&& machine.calm(heap, retired, ready)
                    &&& machine.calm(heap, retired, machine)
                },
            }
        }),
{
    requests_register_once(heap, request);
    let (registered, r) = heap.request_entry(request);
    match r {
        Ok(entry) => {
            fresh_entries_nest(ready, heap, registered, entry, heap.next_token);
            let (after, entered, _) = ready.push_entry(registered, entry);
            calm_then_moved(heap, machine, heap, ready, after, entered);
            fresh_activations_retire(heap, registered, entry.cold.entry_guard->Some_0);
        },
        Err(_) => {},
    }
}

proof fn apply_callback_moves(
    machine: Machine,
    heap: Heap,
    id: FrameId,
    frame: Frame,
    callback: Callback,
)
    requires
        machine.frames.frames.len() > 0,
        frame.cold.entry_guard == machine.frames.frames.last().frame.cold.entry_guard,
        frame.window == machine.window(),
        frame.cold.active_frame == machine.own(),
    ensures
        ({
            let (after_heap, after, r) = machine.apply_callback(heap, id, frame, callback);
            machine.moved(heap, after_heap, after)
        }),
{
    match callback.classification {
        CallableExecution::Bytecode { bytecode, count, .. } => {
            let request = Request {
                callable: callback.callable,
                receiver: callback.receiver,
                new_target: JsValue::Undefined,
                arguments: callback.arguments,
                bytecode,
                closure_count: count,
                caller_realm: frame.realm,
                return_to: ReturnTarget {
                    value_use: ReturnValue::Push,
                    frame: id,
                    tail: false,
                    operation: None,
                },
            };
            let (slots, _) = machine.slots.discard(frame.window, 3);
            let popped = Machine { slots, ..machine };
            let (ready, _) = popped.resumed(frame, Error::internal("Apply resume PC overflow"));
            assert(machine.calm(heap, heap, popped));
            assert(machine.calm(heap, heap, ready));
            requests_nest_late(machine, heap, popped, request);
            requests_nest_late(machine, heap, ready, request);
        },
        _ => {},
    }
}

proof fn selecting_constructors_is_still(
    heap: Heap,
    realm: usize,
    callable: CallableRef,
    new_target: JsValue,
    arguments: Seq<JsValue>,
    return_to: ReturnTarget,
    fuel: nat,
)
    ensures
        heap.still(
            heap.select_constructor(realm, callable, new_target, arguments, return_to, fuel).0,
        ),
    decreases fuel,
{
    match heap.classification(callable) {
        Ok(CallableExecution::Bound { target, start, count, .. }) => {
            if fuel > 0 {
                selecting_constructors_is_still(
                    heap,
                    realm,
                    target,
                    if new_target == JsValue::Object(callable.object) {
                        JsValue::Object(target.object)
                    } else {
                        new_target
                    },
                    heap.bound_list(start, count) + arguments,
                    return_to,
                    (fuel - 1) as nat,
                );
            }
        },
        _ => {},
    }
}

proof fn install_constructor_moves(
    machine: Machine,
    heap: Heap,
    frame: Frame,
    request: Request,
    dropped: nat,
    result: ConstructorReturn,
)
    requires
        machine.frames.frames.len() > 0,
        frame.cold.entry_guard == machine.frames.frames.last().frame.cold.entry_guard,
        frame.window == machine.window(),
        frame.cold.active_frame == machine.own(),
    ensures
        ({
            let (after_heap, after, r) = machine.install_constructor(
                heap,
                frame,
                request,
                dropped,
                result,
            );
            machine.moved(heap, after_heap, after)
        }),
{
    let (slots, _) = machine.slots.discard(frame.window, dropped);
    let popped = Machine { slots, ..machine };
    let (ready, _) = popped.resumed(frame, Error::internal("construct resume PC overflow"));
    assert(machine.calm(heap, heap, ready));
    let made = Request {
        receiver: match result {
            ConstructorReturn::Base(receiver) => receiver,
            ConstructorReturn::Derived => request.receiver,
        },
        ..request
    };
    requests_register_once(heap, made);
    match heap.request_entry(made) {
        (registered, Ok(entry)) => {
            let entry = Entry {
                cold: FrameCold { constructor_return: Some(result), ..entry.cold },
                ..entry
            };
            fresh_entries_nest(ready, heap, registered, entry, heap.next_token);
            let (after_heap, after, _) = ready.push_entry(registered, entry);
            calm_then_moved(heap, machine, heap, ready, after_heap, after);
        },
        _ => {},
    }
}

proof fn finish_prototype_moves(
    machine: Machine,
    heap: Heap,
    frame: Frame,
    request: Request,
    dropped: nat,
    completion: Completion,
)
    requires
        machine.frames.frames.len() > 0,
        frame.cold.entry_guard == machine.frames.frames.last().frame.cold.entry_guard,
        frame.window == machine.window(),
        frame.cold.active_frame == machine.own(),
    ensures
        ({
            let (after_heap, after, r) = machine.finish_prototype(
                heap,
                frame,
                request,
                dropped,
                completion,
            );
            machine.moved(heap, after_heap, after)
        }),
{
    let (made, r) = heap.constructed(request.caller_realm, request.new_target, completion);
    assert(heap.still(made));
    match r {
        Ok(Completion::Return(receiver)) => {
            install_constructor_moves(
                machine,
                made,
                frame,
                request,
                dropped,
                ConstructorReturn::Base(receiver),
            );
        },
        _ => {},
    }
}

proof fn constructor_waits_is_calm(
    machine: Machine,
    heap: Heap,
    frame: Frame,
    request: Request,
    operand_count: nat,
    identity: u64,
)
    requires
        machine.frames.frames.len() > 0,
        frame.cold.entry_guard == machine.frames.frames.last().frame.cold.entry_guard,
        frame.window == machine.window(),
        frame.cold.active_frame == machine.own(),
    ensures
        machine.calm(
            heap,
            heap,
            machine.constructor_waits(frame, request, operand_count, identity).0,
        ),
{
}

proof fn await_prototype_moves(
    machine: Machine,
    heap: Heap,
    frame: Frame,
    request: Request,
    operand_count: nat,
    identity: u64,
    read: OrdinaryRead,
)
    requires
        machine.frames.frames.len() > 0,
        frame.cold.entry_guard == machine.frames.frames.last().frame.cold.entry_guard,
        frame.window == machine.window(),
        frame.cold.active_frame == machine.own(),
    ensures
        ({
            let (after_heap, after, r) = machine.await_prototype(
                heap,
                frame,
                request,
                operand_count,
                identity,
                read,
            );
            machine.moved(heap, after_heap, after)
        }),
{
    constructor_waits_is_calm(machine, heap, frame, request, operand_count, identity);
    match read {
        OrdinaryRead::Call { getter, receiver } => {
            match heap.ordinary_getter(getter) {
                Ok(Some((bytecode, count))) => {
                    let (waiting, _) = machine.constructor_waits(
                        frame,
                        request,
                        operand_count,
                        identity,
                    );
                    requests_nest_late(
                        machine,
                        heap,
                        waiting,
                        Request {
                            callable: getter,
                            receiver,
                            new_target: JsValue::Undefined,
                            arguments: Seq::empty(),
                            bytecode,
                            closure_count: count,
                            caller_realm: frame.realm,
                            return_to: ReturnTarget {
                                operation: Some(OperationTarget::Constructor(identity)),
                                ..request.return_to
                            },
                        },
                    );
                },
                _ => {},
            }
        },
        OrdinaryRead::Complete(value) => {
            finish_prototype_moves(
                machine,
                heap,
                frame,
                request,
                operand_count,
                Completion::Return(
                    match value {
                        Some(value) => value,
                        None => JsValue::Undefined,
                    },
                ),
            );
        },
        _ => {},
    }
}

proof fn construct_base_moves(
    machine: Machine,
    heap: Heap,
    frame: Frame,
    request: Request,
    operand_count: nat,
    identity: u64,
)
    requires
        machine.frames.frames.len() > 0,
        frame.cold.entry_guard == machine.frames.frames.last().frame.cold.entry_guard,
        frame.window == machine.window(),
        frame.cold.active_frame == machine.own(),
    ensures
        ({
            let (after_heap, after, r) = machine.construct_base(
                heap,
                frame,
                request,
                operand_count,
                identity,
            );
            machine.moved(heap, after_heap, after)
        }),
{
    match request.new_target {
        JsValue::Object(object) => {
            match heap.ordinary_read(
                object,
                PropertyKey::String(ATOM_PROTOTYPE),
                request.new_target,
            ) {
                Ok(OrdinaryRead::Complete(value)) => finish_prototype_moves(
                    machine,
                    heap,
                    frame,
                    request,
                    operand_count,
                    Completion::Return(
                        match value {
                            Some(value) => value,
                            None => JsValue::Undefined,
                        },
                    ),
                ),
                Ok(read) => await_prototype_moves(
                    machine,
                    heap,
                    frame,
                    request,
                    operand_count,
                    identity,
                    read,
                ),
                Err(_) => {},
            }
        },
        _ => {
            let (made, r) = heap.create(frame.realm, request.new_target);
            assert(heap.still(made));
            match r {
                Ok(CreateStep::Complete(Completion::Return(receiver))) => {
                    install_constructor_moves(
                        machine,
                        made,
                        frame,
                        request,
                        operand_count,
                        ConstructorReturn::Base(receiver),
                    );
                },
                Ok(CreateStep::Read(read)) => {
                    await_prototype_moves(
                        machine,
                        made,
                        frame,
                        request,
                        operand_count,
                        identity,
                        read,
                    );
                },
                _ => {},
            }
        },
    }
}

proof fn enter_request_moves(
    machine: Machine,
    heap: Heap,
    id: FrameId,
    callable: CallableRef,
    new_target: JsValue,
    arguments: Seq<JsValue>,
    operand_count: nat,
    identity: u64,
)
    ensures
        ({
            let (after_heap, after, r) = machine.enter_request(
                heap,
                id,
                callable,
                new_target,
                arguments,
                operand_count,
                identity,
            );
            machine.moved(heap, after_heap, after)
        }),
{
    match machine.frames.current(id) {
        Ok(frame) => {
            let return_to = ReturnTarget {
                value_use: ReturnValue::Push,
                frame: id,
                tail: false,
                operation: None,
            };
            let fuel = heap.objects.len();
            selecting_constructors_is_still(
                heap,
                frame.realm,
                callable,
                new_target,
                arguments,
                return_to,
                fuel,
            );
            match heap.select_constructor(
                frame.realm,
                callable,
                new_target,
                arguments,
                return_to,
                fuel,
            ) {
                (selected, Ok(Selection::Selected(request, kind))) => {
                    install_constructor_moves(
                        machine,
                        selected,
                        frame,
                        request,
                        operand_count,
                        ConstructorReturn::Derived,
                    );
                    construct_base_moves(
                        machine,
                        selected,
                        frame,
                        request,
                        operand_count,
                        identity,
                    );
                },
                _ => {},
            }
        },
        Err(_) => {},
    }
}

proof fn apply_moves(machine: Machine, heap: Heap, id: FrameId, kind: ApplyKind, identity: u64)
    ensures
        ({
            let (after_heap, after, r) = machine.apply(heap, id, kind, identity);
            machine.moved(heap, after_heap, after)
        }),
{
    match machine.frames.current(id) {
        Ok(frame) => {
            prepare_apply_moves(machine, heap, id, frame, kind, identity);
        },
        Err(_) => {},
    }
}

proof fn apply_call_moves(
    machine: Machine,
    heap: Heap,
    id: FrameId,
    frame: Frame,
    callable: CallableRef,
    receiver: JsValue,
    arguments: Seq<JsValue>,
)
    requires
        machine.frames.frames.len() > 0,
        frame.cold.entry_guard == machine.frames.frames.last().frame.cold.entry_guard,
        frame.window == machine.window(),
        frame.cold.active_frame == machine.own(),
    ensures
        ({
            let (after_heap, after, r) = machine.apply_call(
                heap,
                id,
                frame,
                callable,
                receiver,
                arguments,
            );
            machine.moved(heap, after_heap, after)
        }),
{
    let fuel = heap.objects.len();
    bound_calls_are_still(heap, frame.realm, callable, receiver, arguments, fuel);
    match heap.bound_call(frame.realm, callable, receiver, arguments, fuel) {
        (bound, Ok(NativeConversion::Value(callback))) => {
            apply_callback_moves(machine, bound, id, frame, callback);
        },
        _ => {},
    }
}

proof fn prepare_apply_moves(
    machine: Machine,
    heap: Heap,
    id: FrameId,
    frame: Frame,
    kind: ApplyKind,
    identity: u64,
)
    requires
        machine.frames.frames.len() > 0,
        frame.cold.entry_guard == machine.frames.frames.last().frame.cold.entry_guard,
        frame.window == machine.window(),
        frame.cold.active_frame == machine.own(),
    ensures
        ({
            let (after_heap, after, r) = machine.prepare_apply(heap, id, frame, kind, identity);
            machine.moved(heap, after_heap, after)
        }),
{
    match (
        machine.slots.peek(frame.window, 2),
        machine.slots.peek(frame.window, 1),
        machine.slots.peek(frame.window, 0),
    ) {
        (Ok(callee), Ok(receiver), Ok(list)) => {
            match heap.callable_of(callee) {
                Ok(callable) => {
                    apply_call_moves(machine, heap, id, frame, callable, receiver, Seq::empty());
                    match list {
                        JsValue::Object(array) => {
                            let (read, r) = heap.fast_arguments(frame.realm, array);
                            assert(heap.still(read));
                            match r {
                                Ok(Some(NativeConversion::Value(arguments))) => {
                                    apply_call_moves(
                                        machine,
                                        read,
                                        id,
                                        frame,
                                        callable,
                                        receiver,
                                        arguments,
                                    );
                                    let (checked, _) = read.constructor_check(
                                        frame.realm,
                                        callable.object,
                                    );
                                    assert(read.still(checked));
                                    enter_request_moves(
                                        machine,
                                        checked,
                                        id,
                                        callable,
                                        receiver,
                                        arguments,
                                        3,
                                        identity,
                                    );
                                },
                                _ => {},
                            }
                        },
                        _ => {},
                    }
                },
                Err(_) => {},
            }
        },
        _ => {},
    }
}

proof fn define_property_is_calm(
    machine: Machine,
    heap: Heap,
    id: FrameId,
    key: Option<u32>,
    method: Option<MethodDefinition>,
)
    ensures
        ({
            let (after_heap, after, r) = machine.define_property(heap, id, key, method);
            machine.calm(heap, after_heap, after)
        }),
{
    match machine.frames.current(id) {
        Ok(frame) => {
            let offset: int = if key is None {
                2
            } else {
                1
            };
            match (machine.slots.peek(frame.window, offset), machine.slots.peek(frame.window, 0)) {
                (Ok(JsValue::Object(object)), Ok(value)) => {
                    match machine.definition_key(heap, frame, key) {
                        (named, Ok(name)) => {
                            assert(heap.still(named));
                            let outcome = match method {
                                Some(method) => named.define_method(object, name, value, method),
                                None => named.define(object, name, Heap::data_slot(value)),
                            };
                            assert(heap.still(outcome.0));
                            finish_definition_is_calm(machine, outcome, frame, key is None);
                        },
                        (named, Err(_)) => {
                            assert(heap.still(named));
                        },
                    }
                },
                _ => {},
            }
        },
        Err(_) => {},
    }
}

proof fn finish_definition_is_calm(
    machine: Machine,
    outcome: (Heap, Result<bool, Error>),
    frame: Frame,
    computed: bool,
)
    requires
        machine.frames.frames.len() > 0,
        frame.cold.entry_guard == machine.frames.frames.last().frame.cold.entry_guard,
        frame.window == machine.window(),
        frame.cold.active_frame == machine.own(),
    ensures
        ({
            let (after_heap, after, r) = machine.finish_definition(outcome, frame, computed);
            machine.calm(outcome.0, after_heap, after)
        }),
{
}

proof fn initializer_moves(machine: Machine, heap: Heap, id: FrameId, mode: InitializerKind)
    ensures
        ({
            let (after_heap, after, r) = machine.initializer(heap, id, mode);
            machine.moved(heap, after_heap, after)
        }),
{
    match machine.frames.current(id) {
        Ok(frame) => {
            initializer_step_moves(machine, heap, id, frame, mode);
            let (next, entered, r) = machine.initializer_step(heap, id, frame, mode);
            catching_is_still(next, frame.realm, r);
            moved_then_calm(heap, machine, next, entered, next.caught(frame.realm, r).0, entered);
        },
        Err(_) => {},
    }
}

proof fn catching_is_still(heap: Heap, realm: usize, step: Result<CallStep, Error>)
    ensures
        heap.still(heap.caught(realm, step).0),
{
}

proof fn begin_initializer_is_still(
    machine: Machine,
    heap: Heap,
    frame: Frame,
    mode: InitializerKind,
)
    ensures
        heap.still(machine.begin_initializer(heap, frame, mode).0),
{
    match (machine.slots.peek(frame.window, 0), machine.slots.peek(frame.window, 1)) {
        (Ok(top), Ok(below)) => {
            match mode {
                InitializerKind::Install => {
                    match machine.slots.peek(frame.window, 2) {
                        Ok(constructor) => {
                            assert(heap.still(heap.install_initializer(constructor, below, top).0));
                        },
                        Err(_) => {},
                    }
                },
                InitializerKind::Static => {
                    assert(heap.still(heap.begin_static(below, top).0));
                },
                _ => {},
            }
        },
        _ => {},
    }
}

proof fn initializer_step_moves(
    machine: Machine,
    heap: Heap,
    id: FrameId,
    frame: Frame,
    mode: InitializerKind,
)
    requires
        machine.frames.frames.len() > 0,
        frame.cold.entry_guard == machine.frames.frames.last().frame.cold.entry_guard,
        frame.window == machine.window(),
        frame.cold.active_frame == machine.own(),
    ensures
        ({
            let (after_heap, after, r) = machine.initializer_step(heap, id, frame, mode);
            machine.moved(heap, after_heap, after)
        }),
{
    begin_initializer_is_still(machine, heap, frame, mode);
    let (begun, r) = machine.begin_initializer(heap, frame, mode);
    let (slots, _) = machine.slots.pop(frame.window);
    let popped = Machine { slots, ..machine };
    let (ready, _) = popped.resumed(frame, Error::internal("initializer resume PC overflow"));
    assert(machine.calm(begun, begun, ready));
    match r {
        Ok((initializer, receiver)) => {
            match begun.initializer_request(initializer, receiver, frame.realm, id) {
                Ok(Some(request)) => {
                    assert(begun.still(begun.overflow_step(frame.realm).0));
                    requests_nest_late(machine, begun, ready, request);
                },
                _ => {},
            }
        },
        Err(_) => {},
    }
    let (after_heap, after, _) = machine.initializer_step(heap, id, frame, mode);
    assert(machine.moved(begun, after_heap, after));
    calm_then_moved(heap, machine, begun, machine, after_heap, after);
}

proof fn finish_class_result_is_calm(
    machine: Machine,
    heap: Heap,
    id: FrameId,
    outcome: (Heap, Result<DefineClassOutcome, Error>),
)
    requires
        heap.still(outcome.0),
    ensures
        ({
            let (after_heap, after, r) = machine.finish_class_result(id, outcome);
            machine.calm(heap, after_heap, after)
        }),
{
}

proof fn finish_class_reply_is_calm(
    machine: Machine,
    heap: Heap,
    pending: PendingClass,
    completion: Completion,
)
    ensures
        ({
            let (after_heap, after, r) = machine.finish_class_reply(heap, pending, completion);
            machine.calm(heap, after_heap, after)
        }),
{
    match completion {
        Completion::Return(prototype) => {
            let outcome = heap.derived_class_pair(
                pending.constructor,
                pending.name,
                pending.parent,
                prototype,
            );
            assert(heap.still(outcome.0));
            finish_class_result_is_calm(machine, heap, pending.frame, outcome);
        },
        Completion::Throw(value) => {
            finish_class_result_is_calm(
                machine,
                heap,
                pending.frame,
                (heap, Ok(DefineClassOutcome::Throw(value))),
            );
        },
    }
}

proof fn enter_class_parent_moves(
    machine: Machine,
    heap: Heap,
    frame: Frame,
    pending: PendingClass,
)
    requires
        machine.frames.frames.len() > 0,
        frame.cold.entry_guard == machine.frames.frames.last().frame.cold.entry_guard,
        frame.window == machine.window(),
        frame.cold.active_frame == machine.own(),
    ensures
        ({
            let (after_heap, after, r) = machine.enter_class_parent(heap, frame, pending);
            machine.moved(heap, after_heap, after)
        }),
{
    match heap.class_parent(pending.parent) {
        Err(e) => finish_class_result_is_calm(machine, heap, pending.frame, (heap, Err(e))),
        Ok(_) => {
            match heap.class_read(
                pending.parent,
                JsValue::Object(pending.parent),
                heap.objects.len(),
            ) {
                Ok(OrdinaryRead::Complete(value)) => finish_class_reply_is_calm(
                    machine,
                    heap,
                    pending,
                    Completion::Return(
                        match value {
                            Some(value) => value,
                            None => JsValue::Undefined,
                        },
                    ),
                ),
                Ok(OrdinaryRead::Call { getter, receiver }) => {
                    match heap.ordinary_getter(getter) {
                        Ok(Some((bytecode, count))) => {
                            let waiting = machine.class_waits(frame, Some(pending));
                            assert(machine.calm(heap, heap, waiting));
                            requests_nest_late(
                                machine,
                                heap,
                                waiting,
                                Request {
                                    callable: getter,
                                    receiver,
                                    new_target: JsValue::Undefined,
                                    arguments: Seq::empty(),
                                    bytecode,
                                    closure_count: count,
                                    caller_realm: pending.realm,
                                    return_to: ReturnTarget {
                                        value_use: ReturnValue::Push,
                                        frame: pending.frame,
                                        tail: false,
                                        operation: Some(
                                            OperationTarget::ClassDefinition(pending.identity),
                                        ),
                                    },
                                },
                            );
                        },
                        _ => {},
                    }
                },
                _ => {},
            }
        },
    }
}

proof fn define_class_moves(
    machine: Machine,
    heap: Heap,
    id: FrameId,
    name: u32,
    has_heritage: bool,
    identity: u64,
)
    ensures
        ({
            let (after_heap, after, r) = machine.define_class(
                heap,
                id,
                name,
                has_heritage,
                identity,
            );
            machine.moved(heap, after_heap, after)
        }),
{
    match machine.frames.current(id) {
        Ok(frame) => {
            match (
                machine.slots.peek(frame.window, 1),
                heap.class_name(frame.executable, name),
                machine.slots.peek(frame.window, 0),
            ) {
                (Ok(parent), Ok(name), Ok(constructor)) => {
                    if has_heritage && parent is Object {
                        enter_class_parent_moves(
                            machine,
                            heap,
                            frame,
                            PendingClass {
                                identity,
                                frame: id,
                                realm: frame.realm,
                                parent: parent->Object_0,
                                constructor,
                                name,
                            },
                        );
                    } else {
                        let outcome = heap.define_class_pair(
                            frame.realm,
                            parent,
                            constructor,
                            name,
                            has_heritage,
                        );
                        assert(heap.still(outcome.0));
                        finish_class_result_is_calm(machine, heap, id, outcome);
                    }
                },
                _ => {},
            }
        },
        Err(_) => {},
    }
}

proof fn class_reply_is_calm(
    machine: Machine,
    heap: Heap,
    target: ReturnTarget,
    completion: Completion,
)
    ensures
        ({
            let (after_heap, after, r) = machine.class_reply(heap, target, completion);
            machine.calm(heap, after_heap, after)
        }),
{
    match machine.frames.current(target.frame) {
        Ok(frame) => {
            match frame.cold.class_wait {
                Some(pending) => {
                    let taken = machine.class_waits(frame, None);
                    assert(machine.calm(heap, heap, taken));
                    finish_class_reply_is_calm(taken, heap, pending, completion);
                    let (after_heap, after, _) = taken.finish_class_reply(
                        heap,
                        pending,
                        completion,
                    );
                    calm_then_moved(heap, machine, heap, taken, after_heap, after);
                },
                None => {},
            }
        },
        Err(_) => {},
    }
}

proof fn constructor_reply_moves(
    machine: Machine,
    heap: Heap,
    target: ReturnTarget,
    completion: Completion,
)
    ensures
        ({
            let (after_heap, after, r) = machine.constructor_reply(heap, target, completion);
            machine.moved(heap, after_heap, after)
        }),
{
    match machine.frames.current(target.frame) {
        Ok(waiting) => {
            match waiting.cold.constructor_wait {
                Some(pending) => {
                    let frame = Frame {
                        cold: FrameCold { constructor_wait: None, ..waiting.cold },
                        ..waiting
                    };
                    let taken = Machine { frames: machine.frames.stored(frame), ..machine };
                    assert(machine.calm(heap, heap, taken));
                    match taken.slots.top(frame.window, pending.argument_count as nat) {
                        Ok(arguments) => {
                            let (slots, _) = taken.slots.discard(
                                frame.window,
                                pending.argument_count as nat,
                            );
                            let popped = Machine { slots, ..taken };
                            assert(machine.calm(heap, heap, popped));
                            let request = pending.request(arguments);
                            let dropped = pending.operand_count as nat;
                            finish_prototype_moves(
                                popped,
                                heap,
                                frame,
                                request,
                                dropped,
                                completion,
                            );
                            let (after_heap, after, _) = popped.finish_prototype(
                                heap,
                                frame,
                                request,
                                dropped,
                                completion,
                            );
                            calm_then_moved(heap, machine, heap, popped, after_heap, after);
                        },
                        Err(_) => {},
                    }
                },
                None => {},
            }
        },
        Err(_) => {},
    }
}

proof fn enter_construct_moves(machine: Machine, heap: Heap, id: FrameId, count: u16, identity: u64)
    ensures
        ({
            let (after_heap, after, r) = machine.enter_construct(heap, id, count, identity);
            machine.moved(heap, after_heap, after)
        }),
{
    match machine.frames.current(id) {
        Ok(frame) => {
            match (
                machine.slots.peek(frame.window, count as int + 1),
                machine.slots.peek(frame.window, count as int),
                machine.slots.top(frame.window, count as nat),
            ) {
                (Ok(JsValue::Object(object)), Ok(new_target), Ok(arguments)) => {
                    match heap.constructor_of(object) {
                        Ok(Some(callable)) => enter_request_moves(
                            machine,
                            heap,
                            id,
                            callable,
                            new_target,
                            arguments,
                            (count + 2) as nat,
                            identity,
                        ),
                        _ => {},
                    }
                },
                _ => {},
            }
        },
        Err(_) => {},
    }
}

proof fn enter_default_derived_moves(machine: Machine, heap: Heap, id: FrameId, identity: u64)
    ensures
        ({
            let (after_heap, after, r) = machine.enter_default_derived(heap, id, identity);
            machine.moved(heap, after_heap, after)
        }),
{
    match machine.frames.current(id) {
        Ok(frame) => {
            match (
                heap.prototype(frame.cold.function),
                machine.slots.actual_arguments(frame.window),
            ) {
                (Ok(Some(parent)), Ok(arguments)) => {
                    match heap.constructor_of(parent) {
                        Ok(Some(callable)) => enter_request_moves(
                            machine,
                            heap,
                            id,
                            callable,
                            frame.cold.input.new_target,
                            arguments,
                            0,
                            identity,
                        ),
                        _ => {},
                    }
                },
                _ => {},
            }
        },
        Err(_) => {},
    }
}

proof fn await_has_moves(
    machine: Machine,
    heap: Heap,
    id: FrameId,
    frame: Frame,
    key: PropertyKey,
    read: OrdinaryRead,
    pending: PendingHas,
)
    requires
        machine.frames.frames.len() > 0,
        frame.cold.entry_guard == machine.frames.frames.last().frame.cold.entry_guard,
        frame.window == machine.window(),
        frame.cold.active_frame == machine.own(),
    ensures
        ({
            let (after_heap, after, r) = machine.await_has(heap, id, frame, key, read, pending);
            machine.moved(heap, after_heap, after)
        }),
{
    let waiting = machine.has_waits(frame, Some(pending));
    assert(machine.calm(heap, heap, waiting));
    match read {
        OrdinaryRead::Call { getter, receiver } => {
            match heap.ordinary_getter(getter) {
                Ok(Some((bytecode, count))) => requests_nest_late(
                    machine,
                    heap,
                    waiting,
                    Request {
                        callable: getter,
                        receiver,
                        new_target: JsValue::Undefined,
                        arguments: Seq::empty(),
                        bytecode,
                        closure_count: count,
                        caller_realm: frame.realm,
                        return_to: ReturnTarget {
                            value_use: ReturnValue::Push,
                            frame: id,
                            tail: false,
                            operation: Some(OperationTarget::HasBinding(pending.identity)),
                        },
                    },
                ),
                _ => {},
            }
        },
        _ => {},
    }
}

proof fn environment_steps_are_still(heap: Heap, step: EnvironmentStep)
    ensures
        heap.still(step.advance_spec(heap).0),
{
}

proof fn advance_has_moves(
    machine: Machine,
    heap: Heap,
    id: FrameId,
    frame: Frame,
    step: EnvironmentStep,
    identity: u64,
    fuel: nat,
)
    requires
        machine.frames.frames.len() > 0,
        frame.cold.entry_guard == machine.frames.frames.last().frame.cold.entry_guard,
        frame.window == machine.window(),
        frame.cold.active_frame == machine.own(),
    ensures
        ({
            let (after_heap, after, r) = machine.advance_has(
                heap,
                id,
                frame,
                step,
                identity,
                fuel,
            );
            machine.moved(heap, after_heap, after)
        }),
    decreases fuel,
{
    match step.calls(heap) {
        Some((key, read, resume)) => {
            await_has_moves(machine, heap, id, frame, key, read, PendingHas { identity, resume });
        },
        None => {
            if fuel > 0 {
                environment_steps_are_still(heap, step);
                match step.advance_spec(heap) {
                    (next, Ok(Some(step))) => advance_has_moves(
                        machine,
                        next,
                        id,
                        frame,
                        step,
                        identity,
                        (fuel - 1) as nat,
                    ),
                    _ => {},
                }
            }
        },
    }
}

proof fn start_has_moves(
    machine: Machine,
    heap: Heap,
    id: FrameId,
    source: DynamicEnvironmentSource,
    name: u32,
    identity: u64,
)
    ensures
        ({
            let (after_heap, after, r) = machine.start_has(heap, id, source, name, identity);
            machine.moved(heap, after_heap, after)
        }),
{
    match machine.frames.current(id) {
        Ok(frame) => {
            match (
                machine.dynamic_object(heap, frame, source),
                heap.function_at(frame.executable),
            ) {
                (Ok((object, kind)), Ok(function)) => {
                    match Heap::linked_key(function, name) {
                        Ok(key) => advance_has_moves(
                            machine,
                            heap,
                            id,
                            frame,
                            EnvironmentStep::has_binding(
                                frame.realm,
                                object,
                                key,
                                kind is WithObject,
                            ),
                            identity,
                            3,
                        ),
                        Err(_) => {},
                    }
                },
                _ => {},
            }
        },
        Err(_) => {},
    }
}

proof fn has_reply_moves(
    machine: Machine,
    heap: Heap,
    target: ReturnTarget,
    completion: Completion,
)
    ensures
        ({
            let (after_heap, after, r) = machine.has_reply(heap, target, completion);
            machine.moved(heap, after_heap, after)
        }),
        ({
            let (after_heap, after, r) = machine.environment_reply(heap, target, completion);
            machine.moved(heap, after_heap, after)
        }),
{
    match machine.frames.current(target.frame) {
        Ok(waiting) => {
            match waiting.cold.has_binding_wait {
                Some(pending) => {
                    let taken = machine.has_waits(waiting, None);
                    assert(machine.calm(heap, heap, taken));
                    match pending.resume.resume_spec(heap, completion) {
                        Ok(step) => {
                            let frame = Frame {
                                cold: FrameCold { has_binding_wait: None, ..waiting.cold },
                                ..waiting
                            };
                            advance_has_moves(
                                taken,
                                heap,
                                target.frame,
                                frame,
                                step,
                                pending.identity,
                                3,
                            );
                            let (after_heap, after, _) = taken.advance_has(
                                heap,
                                target.frame,
                                frame,
                                step,
                                pending.identity,
                                3,
                            );
                            calm_then_moved(heap, machine, heap, taken, after_heap, after);
                        },
                        Err(_) => {},
                    }
                },
                None => {},
            }
        },
        Err(_) => {},
    }
}

proof fn starting_conversions_is_calm(
    machine: Machine,
    heap: Heap,
    id: FrameId,
    identity: u64,
    addition: bool,
    property_key: bool,
    keep_receiver: bool,
    keep_key: bool,
)
    ensures
        machine.calm(
            heap,
            heap,
            machine.start_conversion(heap, id, identity, addition, property_key).0,
        ),
        machine.calm(
            heap,
            heap,
            machine.start_property_read(heap, id, identity, keep_receiver, keep_key).0,
        ),
        machine.calm(heap, heap, machine.start_property_write(heap, id, identity).0),
{
}

proof fn conversion_reply_is_calm(
    machine: Machine,
    heap: Heap,
    target: ReturnTarget,
    completion: Completion,
)
    ensures
        ({
            let (after_heap, after, r) = machine.conversion_reply(heap, target, completion);
            machine.calm(heap, after_heap, after)
        }),
{
}

proof fn enter_conversion_moves(
    machine: Machine,
    heap: Heap,
    task: ConversionTask,
    frame: Frame,
    callback: Callback,
    resume: PrimitiveResume,
)
    requires
        machine.frames.frames.len() > 0,
        frame.cold.entry_guard == machine.frames.frames.last().frame.cold.entry_guard,
        frame.window == machine.window(),
        frame.cold.active_frame == machine.own(),
    ensures
        ({
            let (after_heap, after, r) = machine.enter_conversion(
                heap,
                task,
                frame,
                callback,
                resume,
            );
            machine.moved(heap, after_heap, after)
        }),
{
    let wait = ConversionWait { finish: task.finish, identity: task.identity, resume };
    let waiting = machine.await_conversion(frame, wait);
    assert(machine.calm(heap, heap, waiting));
    match callback.classification {
        CallableExecution::Bytecode { bytecode, start, count } => {
            requests_nest_late(
                machine,
                heap,
                waiting,
                Request {
                    callable: callback.callable,
                    receiver: callback.receiver,
                    new_target: JsValue::Undefined,
                    arguments: callback.arguments,
                    bytecode,
                    closure_count: count,
                    caller_realm: frame.realm,
                    return_to: ReturnTarget {
                        value_use: ReturnValue::Push,
                        frame: task.frame,
                        tail: false,
                        operation: Some(OperationTarget::Conversion(task.identity)),
                    },
                },
            );
        },
        _ => {},
    }
}

proof fn invoke_conversion_moves(
    machine: Machine,
    heap: Heap,
    task: ConversionTask,
    callable: CallableRef,
    receiver: JsValue,
    arguments: Seq<JsValue>,
    resume: PrimitiveResume,
)
    ensures
        ({
            let (after_heap, after, r) = machine.invoke_conversion(
                heap,
                task,
                callable,
                receiver,
                arguments,
                resume,
            );
            machine.moved(heap, after_heap, after)
        }),
{
    match machine.frames.current(task.frame) {
        Ok(frame) => {
            let fuel = heap.objects.len();
            normalizing_is_still(heap, frame.realm, callable, receiver, arguments, fuel);
            match heap.normalize(frame.realm, callable, receiver, arguments, fuel) {
                (named, Ok(NativeConversion::Value(callback))) => {
                    enter_conversion_moves(machine, named, task, frame, callback, resume);
                },
                _ => {},
            }
        },
        Err(_) => {},
    }
}

proof fn finish_conversion_is_calm(
    machine: Machine,
    heap: Heap,
    task: ConversionTask,
    frame: Frame,
    value: JsValue,
)
    requires
        machine.frames.frames.len() > 0,
        frame.cold.entry_guard == machine.frames.frames.last().frame.cold.entry_guard,
        frame.window == machine.window(),
        frame.cold.active_frame == machine.own(),
    ensures
        ({
            let (after_heap, after, r) = machine.finish_conversion(heap, task, frame, value);
            machine.calm(heap, after_heap, after)
        }),
{
    match task.finish {
        Finish::AddLeft(right) => {
            additions_are_still(heap, frame.realm, value, right);
            conversion_computed_is_calm(
                machine,
                heap.add_completion(frame.realm, value, right),
                task,
                frame,
                Some(value),
                right,
            );
        },
        Finish::AddRight(left) => {
            additions_are_still(heap, frame.realm, left, value);
            conversion_computed_is_calm(
                machine,
                heap.add_completion(frame.realm, left, value),
                task,
                frame,
                Some(left),
                value,
            );
        },
        Finish::Plus => {
            additions_are_still(heap, frame.realm, value, value);
            conversion_computed_is_calm(
                machine,
                heap.plus_completion(frame.realm, value),
                task,
                frame,
                None,
                value,
            );
        },
        Finish::PropertyKey => keys_are_still(heap, value),
        _ => {},
    }
}

proof fn additions_are_still(heap: Heap, realm: usize, left: JsValue, right: JsValue)
    ensures
        heap.still(heap.add_completion(realm, left, right).0),
        heap.still(heap.plus_completion(realm, right).0),
{
}

proof fn conversion_computed_is_calm(
    machine: Machine,
    outcome: (Heap, Result<Option<Completion>, Error>),
    task: ConversionTask,
    frame: Frame,
    left: Option<JsValue>,
    right: JsValue,
)
    requires
        machine.frames.frames.len() > 0,
        frame.cold.entry_guard == machine.frames.frames.last().frame.cold.entry_guard,
        frame.window == machine.window(),
        frame.cold.active_frame == machine.own(),
    ensures
        ({
            let (after_heap, after, r) = machine.conversion_computed(
                outcome,
                task,
                frame,
                left,
                right,
            );
            machine.calm(outcome.0, after_heap, after) && after_heap == outcome.0
        }),
{
}

proof fn conversion_replies_are_still(
    heap: Heap,
    task: ConversionTask,
    resume: PrimitiveResume,
    completion: Completion,
)
    ensures
        heap.still(task.ready(heap, resume, completion).0),
        task.ready(heap, resume, completion).1 matches Ok(progress) ==> progress is Ready,
{
}

proof fn invoked_conversions_do_not_end(
    machine: Machine,
    heap: Heap,
    task: ConversionTask,
    callable: CallableRef,
    receiver: JsValue,
    arguments: Seq<JsValue>,
    resume: PrimitiveResume,
)
    ensures
        machine.invoke_conversion(heap, task, callable, receiver, arguments, resume).2 matches Ok(
            progress,
        ) ==> progress is Ready || progress is Entered,
{
}

proof fn advance_conversion_moves(machine: Machine, heap: Heap, task: ConversionTask)
    ensures
        ({
            let (after_heap, after, r) = machine.advance_conversion(heap, task);
            &&& machine.moved(heap, after_heap, after)
            &&& r matches Ok(progress) ==> progress is Ready || progress is Entered
                || machine.calm(heap, after_heap, after)
        }),
{
    match machine.frames.current(task.frame) {
        Ok(frame) => match task.step {
            PrimitiveStep::Get { object, key, resume } => {
                match heap.ordinary_read(object, key, JsValue::Object(object)) {
                    Ok(OrdinaryRead::Call { getter, receiver }) => {
                        invoke_conversion_moves(
                            machine,
                            heap,
                            task,
                            getter,
                            receiver,
                            Seq::empty(),
                            resume,
                        );
                        invoked_conversions_do_not_end(
                            machine,
                            heap,
                            task,
                            getter,
                            receiver,
                            Seq::empty(),
                            resume,
                        );
                    },
                    Ok(OrdinaryRead::Complete(value)) => {
                        conversion_replies_are_still(
                            heap,
                            task,
                            resume,
                            Completion::Return(
                                match value {
                                    Some(value) => value,
                                    None => JsValue::Undefined,
                                },
                            ),
                        );
                    },
                    _ => {},
                }
            },
            PrimitiveStep::Call { callable, receiver, argument, resume } => {
                let arguments = match argument {
                    Some(argument) => seq![argument],
                    None => Seq::empty(),
                };
                invoke_conversion_moves(
                    machine,
                    heap,
                    task,
                    callable,
                    receiver,
                    arguments,
                    resume,
                );
                invoked_conversions_do_not_end(
                    machine,
                    heap,
                    task,
                    callable,
                    receiver,
                    arguments,
                    resume,
                );
            },
            PrimitiveStep::Complete(Completion::Return(value)) => {
                finish_conversion_is_calm(machine, heap, task, frame, value);
            },
            PrimitiveStep::Complete(_) => {},
        },
        Err(_) => {},
    }
}

proof fn push_result_is_calm(
    machine: Machine,
    heap: Heap,
    frame: Frame,
    value: JsValue,
    overflow: Error,
)
    requires
        machine.frames.frames.len() > 0,
        frame.cold.entry_guard == machine.frames.frames.last().frame.cold.entry_guard,
        frame.window == machine.window(),
        frame.cold.active_frame == machine.own(),
    ensures
        machine.calm(heap, heap, machine.push_result(frame, value, overflow).0),
{
}

proof fn defer_access_is_calm(machine: Machine, heap: Heap, id: FrameId, request: PendingRequest)
    ensures
        ({
            let (after_heap, after, r) = machine.defer_access(heap, id, request);
            machine.calm(heap, after_heap, after) && after_heap == heap
        }),
{
}

proof fn convert_moves(machine: Machine, heap: Heap, id: FrameId, task: ConversionTask)
    ensures
        ({
            let (after_heap, after, r) = machine.convert(heap, id, task);
            machine.moved(heap, after_heap, after)
        }),
{
    advance_conversion_moves(machine, heap, task);
    let (next, advanced, r) = machine.advance_conversion(heap, task);
    match r {
        Ok(Progress::PropertyRead(input)) => {
            read_converted_moves(advanced, next, id, input);
            let (after_heap, after, _) = advanced.read_converted(next, id, input);
            calm_then_moved(heap, machine, next, advanced, after_heap, after);
        },
        Ok(Progress::PropertyWrite(input)) => {
            write_converted_moves(advanced, next, id, input);
            let (after_heap, after, _) = advanced.write_converted(next, id, input);
            calm_then_moved(heap, machine, next, advanced, after_heap, after);
        },
        Ok(Progress::Complete(Completion::Return(value))) => {
            match advanced.frames.current(id) {
                Ok(frame) => {
                    let overflow = Error::internal("conversion resume PC overflow");
                    push_result_is_calm(advanced, next, frame, value, overflow);
                    let (after, _) = advanced.push_result(frame, value, overflow);
                    moved_then_calm(heap, machine, next, advanced, next, after);
                },
                Err(_) => {},
            }
        },
        Ok(Progress::Predicate(input)) => {
            let request = PendingRequest::Predicate { key: input.key, target: input.target };
            defer_access_is_calm(advanced, next, id, request);
            let (_, after, _) = advanced.defer_access(next, id, request);
            moved_then_calm(heap, machine, next, advanced, next, after);
        },
        Ok(Progress::SuperProperty(input)) => {
            let request = PendingRequest::SuperProperty {
                key: input.key,
                receiver: input.receiver,
                home: input.home,
                operands: input.operands,
            };
            defer_access_is_calm(advanced, next, id, request);
            let (_, after, _) = advanced.defer_access(next, id, request);
            moved_then_calm(heap, machine, next, advanced, next, after);
        },
        _ => {},
    }
}

proof fn mapping_is_still(
    heap: Heap,
    slots: Slots,
    window: FrameWindow,
    function: FunctionBytecode,
    owner: usize,
    values: Seq<JsValue>,
    mapped: nat,
    from: int,
)
    ensures
        heap.still(
            Machine::map_arguments(heap, slots, window, function, owner, values, mapped, from).0,
        ),
        slots.within(
            Machine::map_arguments(heap, slots, window, function, owner, values, mapped, from).1,
            window,
        ),
    decreases values.len() - from,
{
    if 0 <= from < values.len() {
        if from < mapped {
            match Machine::capture_parameter(heap, slots, window, function, from as u16) {
                (captured, slots, Ok(cell)) => mapping_is_still(
                    captured.with_element(
                        owner,
                        from as nat,
                        PropertySlot::VarRef { cell, enumerable: true, configurable: true },
                    ),
                    slots,
                    window,
                    function,
                    owner,
                    values,
                    mapped,
                    from + 1,
                ),
                _ => {},
            }
        } else {
            mapping_is_still(
                heap.with_element(owner, from as nat, Heap::data_slot(values[from])),
                slots,
                window,
                function,
                owner,
                values,
                mapped,
                from + 1,
            );
        }
    }
}

proof fn push_arguments_is_calm(machine: Machine, heap: Heap, id: FrameId, mapped: bool, from: u16)
    ensures
        ({
            let (after_heap, after, r) = machine.push_arguments(heap, id, mapped);
            machine.calm(heap, after_heap, after)
        }),
        ({
            let (after_heap, after, r) = machine.push_rest(heap, id, from);
            machine.calm(heap, after_heap, after)
        }),
{
    match machine.frames.current(id) {
        Ok(frame) => {
            match machine.slots.actual_arguments(frame.window) {
                Ok(values) => {
                    arrays_are_still(
                        heap,
                        frame.realm,
                        if from <= values.len() {
                            values.skip(from as int)
                        } else {
                            Seq::empty()
                        },
                    );
                    match (heap.function_at(frame.executable), heap.realm_at(frame.realm)) {
                        (Ok(function), Ok(realm)) => mapping_is_still(
                            heap.allocated(Machine::arguments_object(realm)),
                            machine.slots,
                            frame.window,
                            function,
                            heap.next_ref().index,
                            values,
                            Machine::mapped_count(function, values, mapped),
                            0,
                        ),
                        _ => {},
                    }
                },
                Err(_) => {},
            }
        },
        Err(_) => {},
    }
}

proof fn capturing_is_still(
    heap: Heap,
    slots: Slots,
    frame: Frame,
    function: FunctionBytecode,
    realm: Realm,
    variables: Seq<ClosureVariable>,
    from: int,
    seen: Seq<usize>,
)
    ensures
        heap.still(
            Machine::capture_list(heap, slots, frame, function, realm, variables, from, seen).0,
        ),
        slots.within(
            Machine::capture_list(heap, slots, frame, function, realm, variables, from, seen).1,
            frame.window,
        ),
    decreases variables.len() - from,
{
    if 0 <= from < variables.len() {
        let (captured, taken, r) = Machine::capture_variable(
            heap,
            slots,
            frame,
            function,
            realm,
            variables[from],
        );
        assert(heap.still(captured));
        assert(slots.within(taken, frame.window));
        match r {
            Ok(cell) => capturing_is_still(
                captured,
                taken,
                frame,
                function,
                realm,
                variables,
                from + 1,
                seen.push(cell),
            ),
            Err(_) => {},
        }
    }
}

proof fn instantiate_is_calm(machine: Machine, heap: Heap, id: FrameId, index: u32)
    ensures
        ({
            let (after_heap, after, r) = machine.instantiate(heap, id, index);
            machine.calm(heap, after_heap, after)
        }),
{
    match machine.frames.current(id) {
        Ok(frame) => {
            match (heap.function_at(frame.executable), heap.realm_at(frame.realm)) {
                (Ok(function), Ok(realm)) => {
                    if index < function.constants@.len() {
                        match function.constants@[index as int] {
                            BytecodeConstant::Function(bytecode) => {
                                match heap.function_at(bytecode) {
                                    Ok(child) => capturing_is_still(
                                        heap,
                                        machine.slots,
                                        frame,
                                        function,
                                        realm,
                                        child.closure_variables@,
                                        0,
                                        Seq::empty(),
                                    ),
                                    Err(_) => {},
                                }
                            },
                            _ => {},
                        }
                    }
                },
                _ => {},
            }
        },
        Err(_) => {},
    }
}

proof fn push_home_is_calm(machine: Machine, heap: Heap, frame: Frame)
    requires
        machine.frames.frames.len() > 0,
        frame.cold.entry_guard == machine.frames.frames.last().frame.cold.entry_guard,
        frame.window == machine.window(),
        frame.cold.active_frame == machine.own(),
    ensures
        ({
            let (after_heap, after, r) = machine.push_home(heap, frame);
            machine.calm(heap, after_heap, after)
        }),
{
}

proof fn super_of_is_calm(machine: Machine, heap: Heap, frame: Frame)
    requires
        machine.frames.frames.len() > 0,
        frame.cold.entry_guard == machine.frames.frames.last().frame.cold.entry_guard,
        frame.window == machine.window(),
        frame.cold.active_frame == machine.own(),
    ensures
        ({
            let (after_heap, after, r) = machine.super_of(heap, frame);
            machine.calm(heap, after_heap, after)
        }),
{
}

proof fn set_name_is_calm(
    machine: Machine,
    heap: Heap,
    frame: Frame,
    function: FunctionBytecode,
    index: u32,
)
    requires
        machine.frames.frames.len() > 0,
        frame.cold.entry_guard == machine.frames.frames.last().frame.cold.entry_guard,
        frame.window == machine.window(),
        frame.cold.active_frame == machine.own(),
    ensures
        ({
            let (after_heap, after, r) = machine.set_name(heap, frame, function, index);
            machine.calm(heap, after_heap, after)
        }),
{
}

proof fn set_computed_name_is_calm(machine: Machine, heap: Heap, frame: Frame)
    requires
        machine.frames.frames.len() > 0,
        frame.cold.entry_guard == machine.frames.frames.last().frame.cold.entry_guard,
        frame.window == machine.window(),
        frame.cold.active_frame == machine.own(),
    ensures
        ({
            let (after_heap, after, r) = machine.set_computed_name(heap, frame);
            machine.calm(heap, after_heap, after)
        }),
{
}

proof fn reset_captured_is_calm(machine: Machine, heap: Heap, frame: Frame, index: u16)
    requires
        machine.frames.frames.len() > 0,
        frame.cold.entry_guard == machine.frames.frames.last().frame.cold.entry_guard,
        frame.window == machine.window(),
        frame.cold.active_frame == machine.own(),
    ensures
        ({
            let (after_heap, after, r) = machine.reset_captured(heap, frame, index);
            machine.calm(heap, after_heap, after)
        }),
{
}

proof fn close_captured_is_calm(
    machine: Machine,
    heap: Heap,
    frame: Frame,
    function: FunctionBytecode,
    index: u16,
)
    requires
        machine.frames.frames.len() > 0,
        frame.cold.entry_guard == machine.frames.frames.last().frame.cold.entry_guard,
        frame.window == machine.window(),
        frame.cold.active_frame == machine.own(),
    ensures
        ({
            let (after_heap, after, r) = machine.close_captured(heap, frame, function, index);
            machine.calm(heap, after_heap, after)
        }),
{
}

proof fn open_catch_is_calm(
    machine: Machine,
    heap: Heap,
    frame: Frame,
    function: FunctionBytecode,
    target: u32,
)
    requires
        machine.frames.frames.len() > 0,
        frame.cold.entry_guard == machine.frames.frames.last().frame.cold.entry_guard,
        frame.window == machine.window(),
        frame.cold.active_frame == machine.own(),
    ensures
        ({
            let (after_heap, after, r) = machine.open_catch(heap, frame, function, target);
            machine.calm(heap, after_heap, after)
        }),
{
}

proof fn close_catch_is_calm(
    machine: Machine,
    heap: Heap,
    frame: Frame,
    function: FunctionBytecode,
    nip: bool,
)
    requires
        machine.frames.frames.len() > 0,
        frame.cold.entry_guard == machine.frames.frames.last().frame.cold.entry_guard,
        frame.window == machine.window(),
        frame.cold.active_frame == machine.own(),
    ensures
        ({
            let (after_heap, after, r) = machine.close_catch(heap, frame, function, nip);
            machine.calm(heap, after_heap, after)
        }),
{
}

proof fn throw_top_is_calm(machine: Machine, heap: Heap, frame: Frame)
    requires
        machine.frames.frames.len() > 0,
        frame.cold.entry_guard == machine.frames.frames.last().frame.cold.entry_guard,
        frame.window == machine.window(),
        frame.cold.active_frame == machine.own(),
    ensures
        ({
            let (after_heap, after, r) = machine.throw_top(heap, frame);
            machine.calm(heap, after_heap, after)
        }),
{
}

proof fn cell_binding_is_calm(
    machine: Machine,
    heap: Heap,
    frame: Frame,
    function: FunctionBytecode,
    source: BindingSource,
    index: u16,
    write: bool,
    checked: bool,
    keep: bool,
)
    requires
        machine.frames.frames.len() > 0,
        frame.cold.entry_guard == machine.frames.frames.last().frame.cold.entry_guard,
        frame.window == machine.window(),
        frame.cold.active_frame == machine.own(),
    ensures
        ({
            let (after_heap, after, r) = machine.cell_binding(
                heap,
                frame,
                function,
                source,
                index,
                write,
                checked,
                keep,
            );
            machine.calm(heap, after_heap, after)
        }),
{
}

proof fn dead_zone_is_calm(
    machine: Machine,
    heap: Heap,
    frame: Frame,
    function: FunctionBytecode,
    index: u16,
)
    requires
        machine.frames.frames.len() > 0,
        frame.cold.entry_guard == machine.frames.frames.last().frame.cold.entry_guard,
        frame.window == machine.window(),
        frame.cold.active_frame == machine.own(),
    ensures
        ({
            let (after_heap, after, r) = machine.dead_zone(heap, frame, function, index);
            machine.calm(heap, after_heap, after)
        }),
{
}

proof fn bind_derived_is_calm(
    machine: Machine,
    heap: Heap,
    frame: Frame,
    function: FunctionBytecode,
    index: u16,
)
    requires
        machine.frames.frames.len() > 0,
        frame.cold.entry_guard == machine.frames.frames.last().frame.cold.entry_guard,
        frame.window == machine.window(),
        frame.cold.active_frame == machine.own(),
    ensures
        ({
            let (after_heap, after, r) = machine.bind_derived(heap, frame, function, index);
            machine.calm(heap, after_heap, after)
        }),
{
}

proof fn return_derived_is_calm(
    machine: Machine,
    heap: Heap,
    frame: Frame,
    function: FunctionBytecode,
    index: u16,
)
    requires
        machine.frames.frames.len() > 0,
        frame.cold.entry_guard == machine.frames.frames.last().frame.cold.entry_guard,
        frame.window == machine.window(),
        frame.cold.active_frame == machine.own(),
    ensures
        ({
            let (after_heap, after, r) = machine.return_derived(heap, frame, function, index);
            machine.calm(heap, after_heap, after)
        }),
{
}

proof fn normalize_this_is_calm(machine: Machine, heap: Heap, frame: Frame)
    requires
        machine.frames.frames.len() > 0,
        frame.cold.entry_guard == machine.frames.frames.last().frame.cold.entry_guard,
        frame.window == machine.window(),
        frame.cold.active_frame == machine.own(),
    ensures
        ({
            let (after_heap, after, r) = machine.normalize_this(heap, frame);
            machine.calm(heap, after_heap, after)
        }),
{
}

proof fn compared_is_calm(machine: Machine, heap: Heap, id: FrameId, negate: bool)
    ensures
        machine.calm(heap, heap, machine.compared(heap, id, negate).0),
{
}

proof fn frame_step_is_calm(machine: Machine, heap: Heap, id: FrameId, exit: RunExit)
    ensures
        ({
            let (after_heap, after, r) = machine.frame_step(heap, id, exit);
            machine.calm(heap, after_heap, after)
        }),
{
    match machine.frames.current(id) {
        Ok(frame) => {
            match heap.function_at(frame.executable) {
                Ok(function) => frame_operation_is_calm(machine, heap, id, frame, function, exit),
                Err(_) => {},
            }
        },
        Err(_) => {},
    }
}

proof fn frame_operation_is_calm(
    machine: Machine,
    heap: Heap,
    id: FrameId,
    frame: Frame,
    function: FunctionBytecode,
    exit: RunExit,
)
    requires
        machine.frames.current(id) == Ok::<Frame, Error>(frame),
    ensures
        machine.frame_operation(heap, id, frame, function, exit) matches Some(step) ==> machine.calm(
            heap,
            step.0,
            step.1,
        ),
{
    match exit {
        RunExit::ReleaseOperand { keep_top } => release_operand_is_calm(machine, heap, id, keep_top),
        RunExit::HomeObject => push_home_is_calm(machine, heap, frame),
        RunExit::GetSuper => super_of_is_calm(machine, heap, frame),
        RunExit::StrictEquality(negate) => compared_is_calm(machine, heap, id, negate),
        RunExit::Arguments(mapped) => push_arguments_is_calm(machine, heap, id, mapped, 0),
        RunExit::Rest(from) => push_arguments_is_calm(machine, heap, id, false, from),
        RunExit::SetName(index) => set_name_is_calm(machine, heap, frame, function, index),
        RunExit::SetComputedName => set_computed_name_is_calm(machine, heap, frame),
        RunExit::InstantiateClosure(index) => instantiate_is_calm(machine, heap, id, index),
        RunExit::ResetCaptured(index) => reset_captured_is_calm(machine, heap, frame, index),
        RunExit::CloseCaptured(index) => close_captured_is_calm(
            machine,
            heap,
            frame,
            function,
            index,
        ),
        RunExit::Catch(target) => open_catch_is_calm(machine, heap, frame, function, target),
        RunExit::DropCatch => close_catch_is_calm(machine, heap, frame, function, false),
        RunExit::NipCatch => close_catch_is_calm(machine, heap, frame, function, true),
        RunExit::Throw => throw_top_is_calm(machine, heap, frame),
        RunExit::Binding { source, index, write, checked, keep } => cell_binding_is_calm(
            machine,
            heap,
            frame,
            function,
            source,
            index,
            write,
            checked,
            keep,
        ),
        RunExit::LexicalUninitialized(index) => dead_zone_is_calm(
            machine,
            heap,
            frame,
            function,
            index,
        ),
        RunExit::InitializeDerived(index) => bind_derived_is_calm(
            machine,
            heap,
            frame,
            function,
            index,
        ),
        RunExit::ReturnDerived(index) => return_derived_is_calm(
            machine,
            heap,
            frame,
            function,
            index,
        ),
        RunExit::NormalizeThis => normalize_this_is_calm(machine, heap, frame),
        _ => {},
    }
}

impl Machine {
    /// Whether the frames are as they were, but for the resume position of the
    /// current one, and its storage alone was touched.
    pub open spec fn goes_on(self, frame: Frame, after: Machine) -> bool {
        &&& self.slots.within(after.slots, frame.window)
        &&& after.frames == self.frames || after.frames == self.frames.stored(
            Frame { resume_pc: after.frames.frames.last().frame.resume_pc, ..frame },
        )
    }
}

proof fn value_instructions_go_on(
    machine: Machine,
    heap: Heap,
    function: FunctionBytecode,
    frame: Frame,
    value: JsValue,
    index: u32,
)
    requires
        machine.frames.frames.len() > 0,
    ensures
        machine.goes_on(
            frame,
            machine.instruction(heap, function, frame, Instruction::Push(value)).0,
        ),
        machine.goes_on(
            frame,
            machine.instruction(heap, function, frame, Instruction::Constant(index)).0,
        ),
        machine.goes_on(
            frame,
            machine.instruction(heap, function, frame, Instruction::This).0,
        ),
        machine.goes_on(
            frame,
            machine.instruction(heap, function, frame, Instruction::NewTarget).0,
        ),
        machine.goes_on(
            frame,
            machine.instruction(heap, function, frame, Instruction::ActiveFunction).0,
        ),
{
    reveal(Machine::instruction);
}

proof fn local_instructions_go_on(
    machine: Machine,
    heap: Heap,
    function: FunctionBytecode,
    frame: Frame,
    index: u16,
)
    requires
        machine.frames.frames.len() > 0,
    ensures
        machine.goes_on(
            frame,
            machine.instruction(heap, function, frame, Instruction::GetLocal(index)).0,
        ),
        machine.goes_on(
            frame,
            machine.instruction(heap, function, frame, Instruction::GetLocalCheck(index)).0,
        ),
        machine.goes_on(
            frame,
            machine.instruction(heap, function, frame, Instruction::PutLocal(index)).0,
        ),
        machine.goes_on(
            frame,
            machine.instruction(heap, function, frame, Instruction::PutLocalCheck(index)).0,
        ),
        machine.goes_on(
            frame,
            machine.instruction(heap, function, frame, Instruction::SetLocal(index)).0,
        ),
        machine.goes_on(
            frame,
            machine.instruction(heap, function, frame, Instruction::SetLocalCheck(index)).0,
        ),
{
    reveal(Machine::instruction);
}

proof fn binding_instructions_go_on(
    machine: Machine,
    heap: Heap,
    function: FunctionBytecode,
    frame: Frame,
    index: u16,
)
    requires
        machine.frames.frames.len() > 0,
    ensures
        machine.goes_on(
            frame,
            machine.instruction(heap, function, frame, Instruction::InitializeLocal(index)).0,
        ),
        machine.goes_on(
            frame,
            machine.instruction(heap, function, frame, Instruction::ResetLocal(index)).0,
        ),
        machine.goes_on(
            frame,
            machine.instruction(heap, function, frame, Instruction::CloseLocal(index)).0,
        ),
        machine.goes_on(
            frame,
            machine.instruction(heap, function, frame, Instruction::GetArgument(index)).0,
        ),
        machine.goes_on(
            frame,
            machine.instruction(heap, function, frame, Instruction::PutArgument(index)).0,
        ),
        machine.goes_on(
            frame,
            machine.instruction(heap, function, frame, Instruction::SetArgument(index)).0,
        ),
{
    reveal(Machine::instruction);
}

proof fn operand_instructions_go_on(
    machine: Machine,
    heap: Heap,
    function: FunctionBytecode,
    frame: Frame,
)
    requires
        machine.frames.frames.len() > 0,
    ensures
        machine.goes_on(
            frame,
            machine.instruction(heap, function, frame, Instruction::Drop).0,
        ),
        machine.goes_on(
            frame,
            machine.instruction(heap, function, frame, Instruction::Nip).0,
        ),
        machine.goes_on(
            frame,
            machine.instruction(heap, function, frame, Instruction::Dup).0,
        ),
        machine.goes_on(
            frame,
            machine.instruction(heap, function, frame, Instruction::Dup2).0,
        ),
{
    reveal(Machine::instruction);
}

proof fn order_instructions_go_on(
    machine: Machine,
    heap: Heap,
    function: FunctionBytecode,
    frame: Frame,
)
    requires
        machine.frames.frames.len() > 0,
    ensures
        machine.goes_on(
            frame,
            machine.instruction(heap, function, frame, Instruction::Swap).0,
        ),
        machine.goes_on(
            frame,
            machine.instruction(heap, function, frame, Instruction::Rot3).0,
        ),
        machine.goes_on(
            frame,
            machine.instruction(heap, function, frame, Instruction::Rot4).0,
        ),
{
    reveal(Machine::instruction);
}

proof fn flow_instructions_go_on(
    machine: Machine,
    heap: Heap,
    function: FunctionBytecode,
    frame: Frame,
    target: u32,
)
    requires
        machine.frames.frames.len() > 0,
    ensures
        machine.goes_on(
            frame,
            machine.instruction(heap, function, frame, Instruction::Jump(target)).0,
        ),
        machine.goes_on(
            frame,
            machine.instruction(heap, function, frame, Instruction::JumpIfFalse(target)).0,
        ),
        machine.goes_on(
            frame,
            machine.instruction(heap, function, frame, Instruction::JumpIfTrue(target)).0,
        ),
        machine.goes_on(
            frame,
            machine.instruction(heap, function, frame, Instruction::Not).0,
        ),
{
    reveal(Machine::instruction);
}

proof fn sum_instructions_go_on(
    machine: Machine,
    heap: Heap,
    function: FunctionBytecode,
    frame: Frame,
    name: u32,
)
    requires
        machine.frames.frames.len() > 0,
    ensures
        machine.goes_on(
            frame,
            machine.instruction(heap, function, frame, Instruction::Add).0,
        ),
        machine.goes_on(
            frame,
            machine.instruction(heap, function, frame, Instruction::Plus).0,
        ),
        machine.goes_on(
            frame,
            machine.instruction(heap, function, frame, Instruction::Return).0,
        ),
        machine.goes_on(
            frame,
            machine.instruction(heap, function, frame, Instruction::ReturnUndefined).0,
        ),
        machine.goes_on(
            frame,
            machine.instruction(heap, function, frame, Instruction::PutRefValue(name)).0,
        ),
{
    reveal(Machine::instruction);
}

proof fn numeric_instructions_go_on(
    machine: Machine,
    heap: Heap,
    function: FunctionBytecode,
    frame: Frame,
    kind: NumericKind,
)
    requires
        machine.frames.frames.len() > 0,
    ensures
        machine.goes_on(
            frame,
            machine.instruction(heap, function, frame, Instruction::Numeric(kind)).0,
        ),
{
    reveal(Machine::instruction);
}

proof fn leaving_instructions_go_on(
    machine: Machine,
    heap: Heap,
    function: FunctionBytecode,
    frame: Frame,
    instruction: Instruction,
)
    requires
        instruction.exit_spec() is Some,
    ensures
        machine.instruction(heap, function, frame, instruction).0 == machine,
{
    reveal(Machine::instruction);
}

/// An instruction of the resident loop moves the resume position of the
/// current frame, or leaves the frames alone.
proof fn instructions_go_on(
    machine: Machine,
    heap: Heap,
    function: FunctionBytecode,
    frame: Frame,
    instruction: Instruction,
)
    requires
        machine.frames.frames.len() > 0,
    ensures
        machine.goes_on(frame, machine.instruction(heap, function, frame, instruction).0),
{
    match instruction {
        Instruction::Push(value) => value_instructions_go_on(machine, heap, function, frame, value, 0),
        Instruction::Constant(index) => value_instructions_go_on(machine, heap, function, frame, JsValue::Undefined, index),
        Instruction::This => value_instructions_go_on(machine, heap, function, frame, JsValue::Undefined, 0),
        Instruction::NewTarget => value_instructions_go_on(machine, heap, function, frame, JsValue::Undefined, 0),
        Instruction::ActiveFunction => value_instructions_go_on(machine, heap, function, frame, JsValue::Undefined, 0),
        Instruction::GetLocal(index) => local_instructions_go_on(machine, heap, function, frame, index),
        Instruction::GetLocalCheck(index) => local_instructions_go_on(machine, heap, function, frame, index),
        Instruction::PutLocal(index) => local_instructions_go_on(machine, heap, function, frame, index),
        Instruction::PutLocalCheck(index) => local_instructions_go_on(machine, heap, function, frame, index),
        Instruction::SetLocal(index) => local_instructions_go_on(machine, heap, function, frame, index),
        Instruction::SetLocalCheck(index) => local_instructions_go_on(machine, heap, function, frame, index),
        Instruction::InitializeLocal(index) => binding_instructions_go_on(machine, heap, function, frame, index),
        Instruction::ResetLocal(index) => binding_instructions_go_on(machine, heap, function, frame, index),
        Instruction::CloseLocal(index) => binding_instructions_go_on(machine, heap, function, frame, index),
        Instruction::GetArgument(index) => binding_instructions_go_on(machine, heap, function, frame, index),
        Instruction::PutArgument(index) => binding_instructions_go_on(machine, heap, function, frame, index),
        Instruction::SetArgument(index) => binding_instructions_go_on(machine, heap, function, frame, index),
        Instruction::Drop => operand_instructions_go_on(machine, heap, function, frame),
        Instruction::Nip => operand_instructions_go_on(machine, heap, function, frame),
        Instruction::Dup => operand_instructions_go_on(machine, heap, function, frame),
        Instruction::Dup2 => operand_instructions_go_on(machine, heap, function, frame),
        Instruction::Swap => order_instructions_go_on(machine, heap, function, frame),
        Instruction::Rot3 => order_instructions_go_on(machine, heap, function, frame),
        Instruction::Rot4 => order_instructions_go_on(machine, heap, function, frame),
        Instruction::Jump(target) => flow_instructions_go_on(machine, heap, function, frame, target),
        Instruction::JumpIfFalse(target) => flow_instructions_go_on(machine, heap, function, frame, target),
        Instruction::JumpIfTrue(target) => flow_instructions_go_on(machine, heap, function, frame, target),
        Instruction::Not => flow_instructions_go_on(machine, heap, function, frame, 0),
        Instruction::Add => sum_instructions_go_on(machine, heap, function, frame, 0),
        Instruction::Plus => sum_instructions_go_on(machine, heap, function, frame, 0),
        Instruction::Return => sum_instructions_go_on(machine, heap, function, frame, 0),
        Instruction::ReturnUndefined => sum_instructions_go_on(machine, heap, function, frame, 0),
        Instruction::PutRefValue(name) => sum_instructions_go_on(machine, heap, function, frame, name),
        Instruction::Numeric(kind) => numeric_instructions_go_on(
            machine,
            heap,
            function,
            frame,
            kind,
        ),
        _ => leaving_instructions_go_on(machine, heap, function, frame, instruction),
    }
}

proof fn instruction_is_calm(
    machine: Machine,
    heap: Heap,
    function: FunctionBytecode,
    frame: Frame,
    instruction: Instruction,
)
    requires
        machine.frames.frames.len() > 0,
        frame.cold.entry_guard == machine.frames.frames.last().frame.cold.entry_guard,
        frame.window == machine.window(),
        frame.cold.active_frame == machine.own(),
    ensures
        machine.calm(heap, heap, machine.instruction(heap, function, frame, instruction).0),
{
    instructions_go_on(machine, heap, function, frame, instruction);
    let after = machine.instruction(heap, function, frame, instruction).0;
    if after.frames != machine.frames {
        storing_is_calm(
            machine,
            heap,
            after,
            Frame { resume_pc: after.frames.frames.last().frame.resume_pc, ..frame },
        );
    }
}

proof fn run_is_calm(machine: Machine, heap: Heap, id: FrameId, fuel: nat)
    ensures
        machine.calm(heap, heap, machine.run(heap, id, fuel).0),
    decreases fuel,
{
    if fuel > 0 {
        match machine.frames.current(id) {
            Ok(frame) => {
                match heap.function_at(frame.executable) {
                    Ok(function) => {
                        if frame.resume_pc < function.code@.len() {
                            let at = Frame { fault_pc: frame.resume_pc, ..frame };
                            let entered = Machine { frames: machine.frames.stored(at), ..machine };
                            let instruction = function.code@[frame.resume_pc as int];
                            instruction_is_calm(entered, heap, function, at, instruction);
                            let (after, _) = entered.instruction(heap, function, at, instruction);
                            calm_then_moved(heap, machine, heap, entered, heap, after);
                            run_is_calm(after, heap, id, (fuel - 1) as nat);
                            let (last, _, _) = after.run(heap, id, (fuel - 1) as nat);
                            calm_then_moved(heap, machine, heap, after, heap, last);
                        }
                    },
                    Err(_) => {},
                }
            },
            Err(_) => {},
        }
    }
}

proof fn unwind_is_calm(machine: Machine, heap: Heap, id: FrameId, value: JsValue)
    ensures
        machine.calm(heap, heap, machine.unwind(heap, id, value).0),
{
}

proof fn finish_frame_ends(
    machine: Machine,
    heap: Heap,
    id: FrameId,
    exit: RunExit,
    forwarded: Option<Completion>,
)
    ensures
        ({
            let (after_heap, after, r) = machine.finish_frame(heap, id, exit, forwarded);
            machine.calm(heap, after_heap, after) || machine.ended(heap, after_heap, after)
        }),
{
}

proof fn ready_exit_keeps_rest(
    machine: Machine,
    heap: Heap,
    id: FrameId,
    exit: RunExit,
    next: u64,
    base: Seq<ActiveFrameRecord>,
)
    requires
        machine.rests_on(heap, base),
        machine.frames.is_current(id),
    ensures
        ({
            let (after_heap, after, _, r) = machine.ready_exit(heap, id, exit, next);
            &&& after.rests_on(after_heap, base)
            &&& machine.stays_apart(heap, after_heap, after)
        }),
{
    broadcast use both_stay_apart;

    nothing_stays_apart(machine, heap);
    match exit {
        RunExit::Call { arguments, method, tail } => {
            enter_direct_moves(machine, heap, id, arguments, method, tail);
            let (after_heap, after, _) = machine.enter_direct(heap, id, arguments, method, tail);
            moving_keeps_rest(machine, heap, after_heap, after, base);
        },
        RunExit::Complete => {
            finish_ordinary_ends(machine, heap, id);
            let (after_heap, after, _) = machine.finish_ordinary(heap, id);
            if machine.calm(heap, after_heap, after) {
                moving_keeps_rest(machine, heap, after_heap, after, base);
            } else {
                ending_keeps_rest(machine, heap, after_heap, after, base);
            }
        },
        RunExit::ReleaseOperand { keep_top } => {
            release_operand_is_calm(machine, heap, id, keep_top);
            let (after_heap, after, _) = machine.release_operand(heap, id, keep_top);
            moving_keeps_rest(machine, heap, after_heap, after, base);
        },
        RunExit::Numeric(kind) => {
            numeric_complete_is_calm(machine, heap, id, kind);
            let (after_heap, after, _) = machine.numeric_complete(heap, id, kind);
            moving_keeps_rest(machine, heap, after_heap, after, base);
        },
        RunExit::ConvertPlus | RunExit::ConvertAdd => {
            complete_primitives_is_calm(machine, heap, id, exit is ConvertAdd, next);
            let (after_heap, after, _, _) = machine.complete_primitives(
                heap,
                id,
                exit is ConvertAdd,
                next,
            );
            moving_keeps_rest(machine, heap, after_heap, after, base);
        },
        RunExit::GetField { index, keep_receiver } => {
            read_progress_moves(machine, heap, id, ReadKey::Static(index), keep_receiver);
            let (after_heap, after, _) = machine.read_progress(
                heap,
                id,
                ReadKey::Static(index),
                keep_receiver,
            );
            moving_keeps_rest(machine, heap, after_heap, after, base);
        },
        RunExit::GetElement { keep_receiver, keep_key } => {
            let key = ReadKey::Computed { keep_key };
            read_progress_moves(machine, heap, id, key, keep_receiver);
            let (after_heap, after, _) = machine.read_progress(heap, id, key, keep_receiver);
            moving_keeps_rest(machine, heap, after_heap, after, base);
        },
        _ => {},
    }
}

proof fn publishing_is_calm(machine: Machine, heap: Heap, pc: usize)
    requires
        machine.frames.frames.len() > 0,
    ensures
        machine.calm(heap, heap.pc_updated(machine.own(), pc).0, machine),
{
}

proof fn ready_keeps_rest(
    machine: Machine,
    heap: Heap,
    id: FrameId,
    next: u64,
    fuel: nat,
    base: Seq<ActiveFrameRecord>,
)
    requires
        machine.rests_on(heap, base),
    ensures
        ({
            let (after_heap, after, _, _, r) = machine.ready(heap, id, next, fuel);
            &&& after.rests_on(after_heap, base)
            &&& machine.stays_apart(heap, after_heap, after)
        }),
    decreases fuel,
{
    broadcast use both_stay_apart;

    nothing_stays_apart(machine, heap);
    run_is_calm(machine, heap, id, fuel);
    let (ran, left, result) = machine.run(heap, id, fuel);
    moving_keeps_rest(machine, heap, heap, ran, base);
    match ran.frames.current(id) {
        Ok(frame) => {
            publishing_is_calm(ran, heap, frame.fault_pc);
            let (published, r) = heap.pc_updated(frame.cold.active_frame, frame.fault_pc);
            moving_keeps_rest(ran, heap, published, ran, base);
            match (r, result) {
                (Ok(_), Ok(exit)) => {
                    ready_exit_keeps_rest(ran, published, id, exit, next, base);
                    match ran.ready_exit(published, id, exit, next) {
                        (after_heap, after, next, Ok(Ready::Again(id))) => {
                            if left < fuel {
                                ready_keeps_rest(after, after_heap, id, next, left, base);
                            }
                        },
                        _ => {},
                    }
                },
                _ => {},
            }
        },
        Err(_) => {},
    }
}

proof fn begin_eval_is_calm(machine: Machine, heap: Heap, id: FrameId, count: u16, scope: u32)
    ensures
        ({
            let (after_heap, after, r) = machine.begin_eval(heap, id, count, scope);
            machine.calm(heap, after_heap, after)
        }),
{
}

proof fn apply_eval_is_calm(machine: Machine, heap: Heap, id: FrameId, scope: u32)
    ensures
        ({
            let (after_heap, after, r) = machine.apply_eval(heap, id, scope);
            machine.calm(heap, after_heap, after)
        }),
{
    match machine.frames.current(id) {
        Ok(frame) => {
            match machine.slots.peek(frame.window, 0) {
                Ok(JsValue::Object(array)) => {
                    let (read, r) = heap.fast_arguments(frame.realm, array);
                    assert(heap.still(read));
                    match r {
                        Ok(Some(NativeConversion::Value(values))) => {
                            let (slots, _) = Machine::reshuffle(
                                machine.slots,
                                frame.window,
                                1,
                                values,
                            );
                            let spread = Machine { slots, ..machine };
                            assert(machine.calm(heap, read, spread));
                            begin_eval_is_calm(spread, read, id, values.len() as u16, scope);
                            let (after_heap, after, _) = spread.begin_eval(
                                read,
                                id,
                                values.len() as u16,
                                scope,
                            );
                            calm_then_moved(heap, machine, read, spread, after_heap, after);
                        },
                        _ => {},
                    }
                },
                _ => {},
            }
        },
        Err(_) => {},
    }
}

proof fn dispatch_moves(machine: Machine, heap: Heap, id: FrameId, exit: RunExit, next: u64)
    ensures
        ({
            let (after_heap, after, _, r) = machine.dispatch(heap, id, exit, next);
            machine.moved(heap, after_heap, after)
        }),
{
    reveal(Machine::dispatch);
    match exit {
        RunExit::Environment(Operation::Has { .. }) | RunExit::DefineClass { .. } | RunExit::Apply(_)
        | RunExit::Construct(_) | RunExit::InitDerivedConstructor => {
            dispatch_identified_moves(machine, heap, id, exit, next);
        },
        RunExit::Environment(op) => environment_step_moves(machine, heap, id, op),
        RunExit::DefineProperty { key, method } => define_property_is_calm(
            machine,
            heap,
            id,
            key,
            method,
        ),
        RunExit::ClassInitializer(mode) => initializer_moves(machine, heap, id, mode),
        RunExit::ConvertPlus | RunExit::ConvertAdd | RunExit::ConvertPropertyKey => {
            dispatch_conversion_moves(machine, heap, id, exit, next);
        },
        RunExit::GetField { index, keep_receiver } => read_progress_moves(
            machine,
            heap,
            id,
            ReadKey::Static(index),
            keep_receiver,
        ),
        RunExit::GetElement { .. } | RunExit::SetProperty(None) => {
            dispatch_access_moves(machine, heap, id, exit, next);
        },
        RunExit::SetProperty(Some(index)) => write_moves(machine, heap, id, Some(index)),
        RunExit::Call { arguments, method, tail } => enter_call_moves(
            machine,
            heap,
            id,
            arguments,
            method,
            tail,
        ),
        RunExit::Eval { arguments, scope } => begin_eval_is_calm(
            machine,
            heap,
            id,
            arguments,
            scope,
        ),
        RunExit::ApplyEval(scope) => apply_eval_is_calm(machine, heap, id, scope),
        RunExit::Numeric(kind) => numeric_complete_is_calm(machine, heap, id, kind),
        RunExit::Complete | RunExit::Bridge | RunExit::Interrupted => {},
        _ => frame_step_is_calm(machine, heap, id, exit),
    }
}

proof fn dispatch_identified_moves(
    machine: Machine,
    heap: Heap,
    id: FrameId,
    exit: RunExit,
    next: u64,
)
    ensures
        ({
            let (after_heap, after, _, r) = machine.dispatch_identified(heap, id, exit, next);
            machine.moved(heap, after_heap, after)
        }),
{
    if next < u64::MAX {
        let identity = (next + 1) as u64;
        match exit {
            RunExit::Environment(Operation::Has { source, name }) => start_has_moves(
                machine,
                heap,
                id,
                source,
                name,
                identity,
            ),
            RunExit::DefineClass { name, has_heritage } => define_class_moves(
                machine,
                heap,
                id,
                name,
                has_heritage,
                identity,
            ),
            RunExit::Apply(kind) => apply_moves(machine, heap, id, kind, identity),
            RunExit::Construct(count) => enter_construct_moves(machine, heap, id, count, identity),
            _ => enter_default_derived_moves(machine, heap, id, identity),
        }
    }
}

proof fn dispatch_conversion_moves(
    machine: Machine,
    heap: Heap,
    id: FrameId,
    exit: RunExit,
    next: u64,
)
    ensures
        ({
            let (after_heap, after, _, r) = machine.dispatch_conversion(heap, id, exit, next);
            machine.moved(heap, after_heap, after)
        }),
{
    starting_conversions_is_calm(
        machine,
        heap,
        id,
        (next + 1) as u64,
        exit is ConvertAdd,
        exit is ConvertPropertyKey,
        false,
        false,
    );
}

proof fn dispatch_access_moves(machine: Machine, heap: Heap, id: FrameId, exit: RunExit, next: u64)
    ensures
        ({
            let (after_heap, after, _, r) = machine.dispatch_access(heap, id, exit, next);
            machine.moved(heap, after_heap, after)
        }),
{
    match exit {
        RunExit::GetElement { keep_receiver, keep_key } => {
            starting_conversions_is_calm(
                machine,
                heap,
                id,
                (next + 1) as u64,
                false,
                false,
                keep_receiver,
                keep_key,
            );
            read_progress_moves(machine, heap, id, ReadKey::Computed { keep_key }, keep_receiver);
        },
        RunExit::SetProperty(None) => {
            starting_conversions_is_calm(
                machine,
                heap,
                id,
                (next + 1) as u64,
                false,
                false,
                false,
                false,
            );
            write_moves(machine, heap, id, None);
        },
        _ => {},
    }
}

proof fn advance_keeps_rest(
    machine: Machine,
    heap: Heap,
    id: FrameId,
    state: DriverState,
    fuel: nat,
    base: Seq<ActiveFrameRecord>,
)
    requires
        machine.rests_on(heap, base),
        machine.frames.frames.len() > 0,
    ensures
        ({
            let (after_heap, after, _, _, r) = machine.advance(heap, id, state, fuel);
            &&& after.rests_on(after_heap, base)
            &&& machine.stays_apart(heap, after_heap, after)
        }),
{
    broadcast use both_stay_apart;

    nothing_stays_apart(machine, heap);
    match (state.conversion, state.forwarded) {
        (Some(task), _) => {
            convert_moves(machine, heap, id, task);
            let (after_heap, after, _) = machine.convert(heap, id, task);
            moving_keeps_rest(machine, heap, after_heap, after, base);
        },
        (None, Some(_)) => {},
        (None, None) => {
            ready_keeps_rest(machine, heap, id, state.next_operation, fuel, base);
            match machine.ready(heap, id, state.next_operation, fuel) {
                (ready_heap, ready, next, _, Ok(Boundary::Conversion(exit))) => {
                    if ready.frames.frames.len() > 0 {
                        let id = ready.frames.frames.last().id;
                        starting_conversions_is_calm(
                            ready,
                            ready_heap,
                            id,
                            next,
                            exit is ConvertAdd,
                            false,
                            false,
                            false,
                        );
                        let (after, _) = ready.start_boundary(ready_heap, next, exit);
                        moving_keeps_rest(ready, ready_heap, ready_heap, after, base);
                    }
                },
                (ready_heap, ready, next, _, Ok(Boundary::Exit(exit))) => {
                    if ready.frames.frames.len() > 0 {
                        let id = ready.frames.frames.last().id;
                        dispatch_moves(ready, ready_heap, id, exit, next);
                        let (after_heap, after, _, _) = ready.dispatch(ready_heap, id, exit, next);
                        moving_keeps_rest(ready, ready_heap, after_heap, after, base);
                    }
                },
                _ => {},
            }
        },
    }
}

proof fn deliver_moves(
    machine: Machine,
    heap: Heap,
    target: ReturnTarget,
    completion: Completion,
)
    ensures
        ({
            let (after_heap, after, r) = machine.deliver(heap, target, completion);
            machine.moved(heap, after_heap, after)
        }),
{
    match target.operation {
        Some(OperationTarget::Constructor(_)) => {
            constructor_reply_moves(machine, heap, target, completion);
        },
        Some(OperationTarget::ClassDefinition(_)) => {
            class_reply_is_calm(machine, heap, target, completion);
        },
        Some(OperationTarget::HasBinding(_)) | Some(OperationTarget::Iterator(_)) => {
            has_reply_moves(machine, heap, target, completion);
        },
        Some(_) => conversion_reply_is_calm(machine, heap, target, completion),
        None => {},
    }
}

/// Delivering needs a frame to deliver to.
proof fn deliver_keeps_rest(
    machine: Machine,
    heap: Heap,
    target: ReturnTarget,
    completion: Completion,
    base: Seq<ActiveFrameRecord>,
)
    requires
        machine.rests_on(heap, base),
    ensures
        ({
            let (after_heap, after, r) = machine.deliver(heap, target, completion);
            &&& after.rests_on(after_heap, base)
            &&& machine.stays_apart(heap, after_heap, after)
        }),
{
    broadcast use both_stay_apart;

    nothing_stays_apart(machine, heap);
    deliver_moves(machine, heap, target, completion);
    let (after_heap, after, _) = machine.deliver(heap, target, completion);
    if machine.frames.current(target.frame) is Ok {
        moving_keeps_rest(machine, heap, after_heap, after, base);
    }
}

proof fn end_frame_keeps_rest(
    machine: Machine,
    heap: Heap,
    id: FrameId,
    forwarded: Option<Completion>,
    base: Seq<ActiveFrameRecord>,
)
    requires
        machine.rests_on(heap, base),
    ensures
        ({
            let (after_heap, after, r) = machine.end_frame(heap, id, forwarded);
            &&& after.rests_on(after_heap, base)
            &&& machine.stays_apart(heap, after_heap, after)
        }),
{
    broadcast use both_stay_apart;

    nothing_stays_apart(machine, heap);
    finish_frame_ends(machine, heap, id, RunExit::Complete, forwarded);
    let (ended_heap, ended, r) = machine.finish_frame(heap, id, RunExit::Complete, forwarded);
    if machine.calm(heap, ended_heap, ended) {
        moving_keeps_rest(machine, heap, ended_heap, ended, base);
    } else {
        ending_keeps_rest(machine, heap, ended_heap, ended, base);
    }
    match r {
        Ok(exit) => {
            match exit.return_to {
                Some(target) => deliver_keeps_rest(
                    ended,
                    ended_heap,
                    target,
                    exit.completion,
                    base,
                ),
                None => {},
            }
        },
        Err(_) => {},
    }
}

proof fn complete_frame_keeps_rest(
    machine: Machine,
    heap: Heap,
    forwarded: Option<Completion>,
    base: Seq<ActiveFrameRecord>,
)
    requires
        machine.rests_on(heap, base),
    ensures
        ({
            let (after_heap, after, r) = machine.complete_frame(heap, forwarded);
            &&& after.rests_on(after_heap, base)
            &&& machine.stays_apart(heap, after_heap, after)
        }),
{
    broadcast use both_stay_apart;

    nothing_stays_apart(machine, heap);
    if machine.frames.frames.len() > 0 {
        let id = machine.frames.frames.last().id;
        match forwarded {
            Some(Completion::Throw(value)) => {
                unwind_is_calm(machine, heap, id, value);
                let (unwound, r) = machine.unwind(heap, id, value);
                moving_keeps_rest(machine, heap, heap, unwound, base);
                match r {
                    Ok(CallStep::Complete(completion)) => end_frame_keeps_rest(
                        unwound,
                        heap,
                        id,
                        Some(completion),
                        base,
                    ),
                    _ => {},
                }
            },
            _ => end_frame_keeps_rest(machine, heap, id, forwarded, base),
        }
    }
}

proof fn turn_keeps_rest(
    machine: Machine,
    heap: Heap,
    state: DriverState,
    fuel: nat,
    base: Seq<ActiveFrameRecord>,
)
    requires
        machine.rests_on(heap, base),
    ensures
        ({
            let (after_heap, after, _, _, r) = machine.turn(heap, state, fuel);
            &&& after.rests_on(after_heap, base)
            &&& machine.stays_apart(heap, after_heap, after)
        }),
{
    broadcast use both_stay_apart;

    nothing_stays_apart(machine, heap);
    if machine.pending_call is None && fuel > 0 && machine.frames.frames.len() > 0 {
        let id = machine.frames.frames.last().id;
        advance_keeps_rest(machine, heap, id, state, (fuel - 1) as nat, base);
        let (next_heap, next, _, _, r) = machine.advance(heap, id, state, (fuel - 1) as nat);
        match r {
            Ok(Dispatch::Return) => complete_frame_keeps_rest(next, next_heap, None, base),
            Ok(Dispatch::Complete(completion)) => complete_frame_keeps_rest(
                next,
                next_heap,
                Some(completion),
                base,
            ),
            _ => {},
        }
    }
}

proof fn drive_keeps_rest(
    machine: Machine,
    heap: Heap,
    state: DriverState,
    fuel: nat,
    base: Seq<ActiveFrameRecord>,
)
    requires
        machine.rests_on(heap, base),
    ensures
        ({
            let (after_heap, after, _, _, r) = machine.drive(heap, state, fuel);
            &&& after.rests_on(after_heap, base)
            &&& machine.stays_apart(heap, after_heap, after)
        }),
    decreases fuel,
{
    broadcast use both_stay_apart;

    nothing_stays_apart(machine, heap);
    reveal_with_fuel(Machine::drive, 2);
    turn_keeps_rest(machine, heap, state, fuel, base);
    match machine.turn(heap, state, fuel) {
        (next_heap, next, next_state, left, Ok(None)) => {
            if left < fuel {
                drive_keeps_rest(next, next_heap, next_state, left, base);
            }
        },
        _ => {},
    }
}

proof fn answer_keeps_rest(
    machine: Machine,
    heap: Heap,
    completion: Completion,
    base: Seq<ActiveFrameRecord>,
)
    requires
        machine.rests_on(heap, base),
    ensures
        ({
            let (after_heap, after, r) = machine.answer(heap, completion);
            &&& after.rests_on(after_heap, base)
            &&& machine.stays_apart(heap, after_heap, after)
        }),
{
    broadcast use both_stay_apart;

    nothing_stays_apart(machine, heap);
    match machine.pending_call {
        Some(call) => {
            match machine.frames.current(call.return_to.frame) {
                Ok(frame) => {
                    let (slots, _) = machine.slots.discard(
                        frame.window,
                        Machine::spilled(call.request),
                    );
                    let taken = Machine { pending_call: None, slots, ..machine };
                    moving_keeps_rest(machine, heap, heap, taken, base);
                    deliver_keeps_rest(taken, heap, call.return_to, completion, base);
                },
                Err(_) => {
                    moving_keeps_rest(
                        machine,
                        heap,
                        heap,
                        Machine { pending_call: None, ..machine },
                        base,
                    );
                },
            }
        },
        None => {},
    }
}

/// While the driver runs, the activations of the execution lie on top of those
/// that were there before, the oldest frame's first.
pub proof fn driving_keeps_activations_balanced(
    machine: Machine,
    heap: Heap,
    state: DriverState,
    fuel: nat,
    base: Seq<ActiveFrameRecord>,
)
    requires
        machine.rests_on(heap, base),
    ensures
        ({
            let (after_heap, after, _, _, r) = machine.drive(heap, state, fuel);
            after.rests_on(after_heap, base)
        }),
{
    drive_keeps_rest(machine, heap, state, fuel, base);
}

/// The embedder's answer to a pending call keeps the activations balanced.
pub proof fn answers_keep_activations_balanced(
    machine: Machine,
    heap: Heap,
    completion: Completion,
    base: Seq<ActiveFrameRecord>,
)
    requires
        machine.rests_on(heap, base),
    ensures
        ({
            let (after_heap, after, r) = machine.answer(heap, completion);
            after.rests_on(after_heap, base)
        }),
{
    answer_keeps_rest(machine, heap, completion, base);
}

/// Each frame has a storage window of its own: however far the driver runs,
/// the windows lie one above the other, and as long as a frame is there,
/// nothing below its window changes.
pub proof fn driving_keeps_windows_exclusive(
    machine: Machine,
    heap: Heap,
    state: DriverState,
    fuel: nat,
    base: Seq<ActiveFrameRecord>,
)
    requires
        machine.rests_on(heap, base),
        machine.stacked(),
    ensures
        machine.drive(heap, state, fuel).1.stacked(),
        machine.spares(machine.drive(heap, state, fuel).1),
{
    reveal(Machine::stays_apart);
    drive_keeps_rest(machine, heap, state, fuel, base);
}

/// Static elements that have begun stay begun, however far the driver runs and
/// whatever the embedder answers: they are never begun a second time.
pub proof fn static_elements_are_never_replayed(
    machine: Machine,
    heap: Heap,
    state: DriverState,
    fuel: nat,
    completion: Completion,
    base: Seq<ActiveFrameRecord>,
    constructor: JsValue,
    initializer: JsValue,
)
    requires
        machine.rests_on(heap, base),
        constructor matches JsValue::Object(object) && object.index < heap.objects.len()
            && Heap::has_begun(heap.objects[object.index as int]),
    ensures
        ({
            let driven = machine.drive(heap, state, fuel).0;
            &&& Heap::has_begun(driven.objects[constructor->Object_0.index as int])
            &&& driven.begin_static(constructor, initializer).0 == driven
            &&& driven.begin_static(constructor, initializer).1 is Err
        }),
        ({
            let answered = machine.answer(heap, completion).0;
            &&& Heap::has_begun(answered.objects[constructor->Object_0.index as int])
            &&& answered.begin_static(constructor, initializer).0 == answered
            &&& answered.begin_static(constructor, initializer).1 is Err
        }),
{
    reveal(Machine::stays_apart);
    drive_keeps_rest(machine, heap, state, fuel, base);
    answer_keeps_rest(machine, heap, completion, base);
}

/// Beginning the static elements of a class marks it.
pub proof fn begun_static_elements_are_marked(
    heap: Heap,
    constructor: JsValue,
    initializer: JsValue,
)
    requires
        heap.begin_static(constructor, initializer).1 is Ok,
    ensures
        constructor matches JsValue::Object(object) && object.index < heap.objects.len()
            && Heap::has_begun(
            heap.begin_static(constructor, initializer).0.objects[object.index as int],
        ),
{
}

/// The embedder's answer to a pending call keeps the windows exclusive.
pub proof fn answers_keep_windows_exclusive(
    machine: Machine,
    heap: Heap,
    completion: Completion,
    base: Seq<ActiveFrameRecord>,
)
    requires
        machine.rests_on(heap, base),
        machine.stacked(),
    ensures
        machine.answer(heap, completion).1.stacked(),
        machine.spares(machine.answer(heap, completion).1),
{
    reveal(Machine::stays_apart);
    answer_keeps_rest(machine, heap, completion, base);
}

/// A fresh execution starts with its one window in order.
pub proof fn entries_start_in_order(
    heap: Heap,
    domain: u64,
    execution: u64,
    limits: ExecutionLimits,
    entry: Entry,
)
    ensures
        Machine::fresh(domain, execution, limits).push_entry(heap, entry).1.stacked(),
{
}

/// However a run is over, by a result or by an engine error, the activations
/// are exactly those that the execution rested on.
pub proof fn finished_runs_leave_no_activations(
    machine: Machine,
    heap: Heap,
    state: DriverState,
    fuel: nat,
    base: Seq<ActiveFrameRecord>,
)
    requires
        machine.rests_on(heap, base),
        match machine.run_frames(heap, state, fuel).2 {
            Ok(exit) => exit is Complete,
            Err(_) => true,
        },
    ensures
        ({
            let after = machine.run_frames(heap, state, fuel).0;
            &&& after.active.len() == base.len()
            &&& forall|i: int|
                0 <= i < base.len() ==> #[trigger] after.active[i] == base[i]
        }),
{
    driving_keeps_activations_balanced(machine, heap, state, fuel, base);
    let (driven_heap, driven, _, _, _) = machine.drive(heap, state, fuel);
    abandoning_restores(driven, driven_heap, base);
}

/// An entry that was prepared for a new execution rests on the activations
/// that were registered before it.
pub proof fn entries_rest_on_earlier_activations(
    heap: Heap,
    domain: u64,
    execution: u64,
    limits: ExecutionLimits,
    request: Request,
)
    requires
        forall|i: int|
            0 <= i < heap.active.len() ==> (#[trigger] heap.active[i]).token.0 < heap.next_token,
        heap.request_entry(request).1 is Ok,
    ensures
        ({
            let base = heap.active;
            let (registered, entry) = heap.request_entry(request);
            let (after_heap, after, r) = Machine::fresh(domain, execution, limits).push_entry(
                registered,
                entry->Ok_0,
            );
            after.rests_on(after_heap, base)
        }),
{
    let base = heap.active;
    requests_register_once(heap, request);
    let (registered, r) = heap.request_entry(request);
    let entry = r->Ok_0;
    let fresh = Machine::fresh(domain, execution, limits);
    fresh_entries_nest(fresh, heap, registered, entry, heap.next_token);
    let (after_heap, after, _) = fresh.push_entry(registered, entry);
    reveal(Machine::rests_on);
    assert(fresh.rests_on(heap, base));
    if fresh.calm(heap, after_heap, after) {
        moving_keeps_rest(fresh, heap, after_heap, after, base);
    } else {
        assert(after.frames.frames[0] == after.frames.frames.last());
    }
}

/// An execution that is over has taken every activation off that it or its
/// entry registered: the same activations are registered as before.
pub proof fn finished_executions_restore_activations(
    heap: Heap,
    domain: u64,
    execution: u64,
    limits: ExecutionLimits,
    request: Request,
    fuel: nat,
)
    requires
        forall|i: int|
            0 <= i < heap.active.len() ==> (#[trigger] heap.active[i]).token.0 < heap.next_token,
        heap.request_entry(request).1 is Ok,
        ({
            let (registered, entry) = heap.request_entry(request);
            let fresh = Machine::fresh(domain, execution, limits);
            match fresh.execute(registered, entry->Ok_0, fuel).2 {
                Ok(exit) => exit is Complete,
                Err(_) => true,
            }
        }),
    ensures
        ({
            let (registered, entry) = heap.request_entry(request);
            let fresh = Machine::fresh(domain, execution, limits);
            fresh.execute(registered, entry->Ok_0, fuel).0.active == heap.active
        }),
{
    let base = heap.active;
    entries_rest_on_earlier_activations(heap, domain, execution, limits, request);
    let (registered, entry) = heap.request_entry(request);
    let fresh = Machine::fresh(domain, execution, limits);
    let state = DriverState { forwarded: None, conversion: None, next_operation: 0 };
    let (after_heap, after, r) = fresh.push_entry(registered, entry->Ok_0);
    let done = fresh.execute(registered, entry->Ok_0, fuel).0;
    if r is Ok {
        finished_runs_leave_no_activations(after, after_heap, state, fuel, base);
    }
    assert(done.active =~= heap.active);
}

} // verus!
