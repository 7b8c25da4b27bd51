//! One executable owner and one exclusive storage window per running frame.
use vstd::prelude::*;
use crate::construct_driver::{PendingClass, PendingConstructor};
use crate::conversion_driver::ConversionWait;
use crate::error::Error;
use crate::frames::active::ActiveFrameToken;
use crate::runtime::ActiveFrameGuard;
use crate::slots::{FrameStorage, FrameWindow};
use crate::value::{JsValue, ObjectRef};
use crate::with_driver::PendingHas;

verus! {

#[derive(Clone, Copy, Debug, PartialEq, Eq, Structural)]
pub enum ReturnValue {
    Push,
    Discard,
}

/// Where the completion of a frame goes.
#[derive(Clone, Copy, Debug, PartialEq, Eq, Structural)]
pub struct ReturnTarget {
    pub value_use: ReturnValue,
    pub frame: FrameId,
    pub tail: bool,
    pub operation: Option<OperationTarget>,
}

/// The pending operation that a completion answers.
#[derive(Clone, Copy, Debug, PartialEq, Eq, Structural)]
pub enum OperationTarget {
    Conversion(u64),
    PropertyGet(u64),
    Constructor(u64),
    ClassDefinition(u64),
    HasBinding(u64),
    Iterator(u64),
    Eval(u16),
}

#[derive(Clone, Copy, Debug, PartialEq, Eq, Structural)]
pub enum ConstructorReturn {
    Base(JsValue),
    Derived,
}

/// A property query whose continuations replace native recursion.
#[derive(Clone, Copy, Debug, PartialEq, Eq, Structural)]
pub struct PendingProxyGet {
    pub continuations: usize,
}

/// The values a call was entered with.
#[derive(Clone, Copy, Debug, PartialEq, Eq, Structural)]
pub struct CallInput {
    pub this_value: JsValue,
    pub new_target: JsValue,
    pub callee_global: ObjectRef,
}

#[derive(Clone, Copy, Debug)]
pub struct FrameCold {
    pub property_wait: Option<PendingProxyGet>,
    pub has_binding_wait: Option<PendingHas>,
    pub class_wait: Option<PendingClass>,
    pub constructor_wait: Option<PendingConstructor>,
    pub constructor_return: Option<ConstructorReturn>,
    pub conversion: Option<ConversionWait>,
    pub normalized_this: Option<JsValue>,
    pub return_to: Option<ReturnTarget>,
    pub entry_guard: Option<ActiveFrameGuard>,
    pub caller_realm: usize,
    pub active_frame: ActiveFrameToken,
    pub function: ObjectRef,
    pub input: CallInput,
}

/// Owners crossing the driver boundary before installation.
pub struct FrameEntry {
    pub executable: usize,
    pub realm: usize,
    pub cold: FrameCold,
    pub storage: FrameStorage,
}

#[derive(Clone, Copy, Debug)]
pub struct Frame {
    pub executable: usize,
    pub realm: usize,
    pub window: FrameWindow,
    /// Where this frame's unwind regions start.
    pub region_base: usize,
    pub fault_pc: usize,
    pub resume_pc: usize,
    pub cold: FrameCold,
}

/// A frame's identity is never used again, not even by another execution.
#[derive(Clone, Copy, Debug, PartialEq, Eq, Structural)]
pub struct FrameId {
    pub execution: u64,
    pub generation: u64,
}

#[derive(Clone, Copy, Debug)]
pub struct FrameRecord {
    pub id: FrameId,
    pub frame: Frame,
}

pub struct FrameStore {
    pub frames: Vec<FrameRecord>,
    pub execution: u64,
    pub next_generation: u64,
    pub limit: usize,
}

/// The frame stack as a mathematical value.
#[verifier::ext_equal]
pub struct Frames {
    pub frames: Seq<FrameRecord>,
    pub execution: u64,
    pub next_generation: u64,
    pub limit: usize,
}

impl View for FrameStore {
    type V = Frames;

    open spec fn view(&self) -> Frames {
        Frames {
            frames: self.frames@,
            execution: self.execution,
            next_generation: self.next_generation,
            limit: self.limit,
        }
    }
}

impl Frames {
    pub open spec fn can_push(self) -> bool {
        self.frames.len() < self.limit
    }

    /// Frames and their pending continuations, from position `from`.
    pub open spec fn continuations(frames: Seq<FrameRecord>, from: int) -> nat
        decreases frames.len() - from,
    {
        if from < 0 || from >= frames.len() {
            0
        } else {
            (match frames[from].frame.cold.property_wait {
                Some(wait) => wait.continuations as nat,
                None => 0,
            }) + Frames::continuations(frames, from + 1)
        }
    }

    /// The logical depth, counting continuations that replaced recursion.
    pub open spec fn logical_depth(self, pending: usize) -> nat {
        self.frames.len() + pending as nat + Frames::continuations(self.frames, 0)
    }

    pub open spec fn is_current(self, id: FrameId) -> bool {
        self.frames.len() > 0 && self.frames.last().id == id
    }

    pub open spec fn current(self, id: FrameId) -> Result<Frame, Error> {
        if self.is_current(id) {
            Ok(self.frames.last().frame)
        } else {
            Err(Error::internal("frame identity is not the current execution frame"))
        }
    }

    /// Replacing the current frame.
    pub open spec fn stored(self, frame: Frame) -> Frames {
        Frames {
            frames: self.frames.update(
                self.frames.len() - 1,
                FrameRecord { id: self.frames.last().id, frame },
            ),
            ..self
        }
    }

    pub open spec fn push(self, frame: Frame) -> (Frames, Result<FrameId, Error>) {
        if self.frames.len() >= self.limit {
            (self, Err(Error::internal("execution frame limit exceeded")))
        } else if self.next_generation == u64::MAX {
            (self, Err(Error::internal("execution frame identity exhausted")))
        } else {
            let id = FrameId { execution: self.execution, generation: self.next_generation };
            (
                Frames {
                    frames: self.frames.push(FrameRecord { id, frame }),
                    next_generation: (self.next_generation + 1) as u64,
                    ..self
                },
                Ok(id),
            )
        }
    }

    pub open spec fn pop(self, id: FrameId) -> (Frames, Result<Frame, Error>) {
        match self.current(id) {
            Err(e) => (self, Err(e)),
            Ok(frame) => (Frames { frames: self.frames.drop_last(), ..self }, Ok(frame)),
        }
    }

    /// Every frame on the stack has an identity that was issued before.
    pub open spec fn issued(self) -> bool {
        forall|i: int|
            0 <= i < self.frames.len() ==> (#[trigger] self.frames[i]).id.execution
                == self.execution && self.frames[i].id.generation < self.next_generation
    }
}

impl FrameStore {
    pub fn new(execution: u64, limit: usize) -> (r: FrameStore)
        ensures
            r@ == (Frames { frames: Seq::empty(), execution, next_generation: 1, limit }),
            r@.issued(),
    {
        FrameStore { frames: Vec::new(), execution, next_generation: 1, limit }
    }

    pub fn can_push(&self) -> (r: bool)
        ensures
            r == self@.can_push(),
    {
        self.frames.len() < self.limit
    }

    /// Continuations replace recursive calls and share the depth ceiling, also
    /// where they install no frame.
    pub fn can_push_with_continuations(&self, pending: usize) -> (r: bool)
        ensures
            r == (self@.logical_depth(pending) < self@.limit),
    {
        let mut depth: usize = match self.frames.len().checked_add(pending) {
            Some(depth) => depth,
            None => {
                return false;
            },
        };
        let mut i: usize = 0;
        while i < self.frames.len()
            invariant
                i <= self.frames@.len(),
                depth + Frames::continuations(self.frames@, i as int) == self@.logical_depth(
                    pending,
                ),
            decreases self.frames@.len() - i,
        {
            let more: usize = match self.frames[i].frame.cold.property_wait {
                Some(wait) => wait.continuations,
                None => 0,
            };
            depth = match depth.checked_add(more) {
                Some(depth) => depth,
                None => {
                    return false;
                },
            };
            i = i + 1;
        }
        depth < self.limit
    }

    pub fn current_id(&self) -> (r: Option<FrameId>)
        ensures
            r == (if self@.frames.len() > 0 {
                Some(self@.frames.last().id)
            } else {
                None
            }),
    {
        if self.frames.len() == 0 {
            None
        } else {
            Some(self.frames[self.frames.len() - 1].id)
        }
    }

    /// Install a frame.  A refused frame leaves the store as it is.
    pub fn push(&mut self, frame: Frame) -> (r: Result<FrameId, Error>)
        ensures
            (final(self)@, r) == old(self)@.push(frame),
    {
        if self.frames.len() >= self.limit {
            return Err(Error::internal("execution frame limit exceeded"));
        }
        let next: u64 = match self.next_generation.checked_add(1) {
            Some(next) => next,
            None => {
                return Err(Error::internal("execution frame identity exhausted"));
            },
        };
        let id = FrameId { execution: self.execution, generation: self.next_generation };
        self.next_generation = next;
        self.frames.push(FrameRecord { id, frame });
        Ok(id)
    }

    /// The current frame, if it is the named one.
    pub fn current(&self, id: FrameId) -> (r: Result<Frame, Error>)
        ensures
            r == self@.current(id),
    {
        if self.frames.len() > 0 && self.frames[self.frames.len() - 1].id == id {
            Ok(self.frames[self.frames.len() - 1].frame)
        } else {
            Err(Error::internal("frame identity is not the current execution frame"))
        }
    }

    /// Access to the current frame, if it is the named one.
    pub fn current_mut(&mut self, id: FrameId) -> (r: Result<&mut Frame, Error>)
        ensures
            match r {
                Ok(frame) => {
                    &&& old(self)@.is_current(id)
                    &&& *frame == old(self)@.frames.last().frame
                    &&& final(self)@ == old(self)@.stored(*final(frame))
                },
                Err(e) => {
                    &&& !old(self)@.is_current(id)
                    &&& e == Error::internal("frame identity is not the current execution frame")
                    &&& final(self)@ == old(self)@
                },
            },
    {
        let length: usize = self.frames.len();
        if length > 0 && self.frames[length - 1].id == id {
            Ok(&mut self.frames[length - 1].frame)
        } else {
            Err(Error::internal("frame identity is not the current execution frame"))
        }
    }

    /// Replace the current frame.
    pub fn store(&mut self, frame: Frame)
        ensures
            final(self)@ == (if old(self)@.frames.len() > 0 {
                old(self)@.stored(frame)
            } else {
                old(self)@
            }),
    {
        let length: usize = self.frames.len();
        if length > 0 {
            let id = self.frames[length - 1].id;
            self.frames.set(length - 1, FrameRecord { id, frame });
        }
    }

    pub fn pop(&mut self, id: FrameId) -> (r: Result<Frame, Error>)
        ensures
            (final(self)@, r) == old(self)@.pop(id),
    {
        let frame = self.current(id)?;
        let _ = self.frames.pop();
        Ok(frame)
    }
}

/// A new frame's identity differs from every one that the store has issued,
/// also after the frames that held them are gone.
pub proof fn frame_identities_are_fresh(frames: Frames, frame: Frame, earlier: FrameId)
    requires
        frames.push(frame).1 is Ok,
        earlier.execution != frames.execution || earlier.generation < frames.next_generation,
    ensures
        frames.push(frame).1->Ok_0 != earlier,
        !frames.push(frame).0.is_current(earlier),
        frames.push(frame).0.is_current(frames.push(frame).1->Ok_0),
        frames.push(frame).0.next_generation > frames.next_generation,
{
}

/// Issued identities stay below the next one through every operation.
pub proof fn frame_operations_keep_identities_issued(frames: Frames, frame: Frame, id: FrameId)
    requires
        frames.issued(),
    ensures
        frames.push(frame).0.issued(),
        frames.pop(id).0.issued(),
        frames.frames.len() > 0 ==> frames.stored(frame).issued(),
{
}

/// Popping the frame just installed restores the frames below it.
pub proof fn pop_undoes_frame_push(frames: Frames, frame: Frame)
    requires
        frames.push(frame).1 is Ok,
    ensures
        ({
            let (after, id) = frames.push(frame);
            let (restored, popped) = after.pop(id->Ok_0);
            restored.frames == frames.frames && popped == Ok::<Frame, Error>(frame)
        }),
{
    let (after, id) = frames.push(frame);
    assert(after.frames.drop_last() =~= frames.frames);
}

/// A stale or foreign identity changes nothing and is refused.
pub proof fn stale_identities_are_refused(frames: Frames, id: FrameId)
    requires
        !frames.is_current(id),
    ensures
        frames.current(id) is Err,
        frames.pop(id) == (
            frames,
            Err::<Frame, Error>(
                Error::internal("frame identity is not the current execution frame"),
            ),
        ),
{
}

/// The logical depth grows by one with each frame and by the continuations that
/// the frame waits for, and does not depend on their order.
pub proof fn waiting_frames_add_their_continuations(frames: Frames, frame: Frame, pending: usize)
    requires
        frames.push(frame).1 is Ok,
    ensures
        frames.push(frame).0.logical_depth(pending) == frames.logical_depth(pending) + 1 + (
        match frame.cold.property_wait {
            Some(wait) => wait.continuations as int,
            None => 0,
        }),
        frames.logical_depth(pending) == frames.logical_depth(0) + pending,
        frames.frames.len() == 0 ==> frames.logical_depth(pending) == pending,
{
    let record = frames.push(frame).0.frames.last();
    continuations_add(frames.frames, record, 0);
}

proof fn continuations_add(frames: Seq<FrameRecord>, record: FrameRecord, from: int)
    requires
        0 <= from <= frames.len(),
    ensures
        Frames::continuations(frames.push(record), from) == Frames::continuations(frames, from) + (
        match record.frame.cold.property_wait {
            Some(wait) => wait.continuations as int,
            None => 0,
        }),
    decreases frames.len() - from,
{
    reveal_with_fuel(Frames::continuations, 3);
    if from < frames.len() {
        continuations_add(frames, record, from + 1);
    }
}

/// Only the newest frame can be changed, and what was stored is what is current;
/// the identity and the frames below stay.
pub proof fn stored_frames_are_current(frames: Frames, id: FrameId, frame: Frame)
    requires
        frames.is_current(id),
    ensures
        frames.stored(frame).current(id) == Ok::<Frame, Error>(frame),
        frames.stored(frame).frames.len() == frames.frames.len(),
        forall|i: int|
            0 <= i < frames.frames.len() - 1 ==> frames.stored(frame).frames[i]
                == #[trigger] frames.frames[i],
        frames.stored(frame).next_generation == frames.next_generation,
{
}

} // verus!
