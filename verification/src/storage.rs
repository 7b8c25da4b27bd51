//! What operations on one frame's window leave alone.
use vstd::prelude::*;
use crate::slots::{FrameBinding, FrameWindow, Slots};
use crate::value::JsValue;

verus! {

impl FrameWindow {
    /// The parts of a window lie in order.
    pub open spec fn ordered(self) -> bool {
        self.base <= self.parameters_at <= self.locals_at <= self.floor
    }
}

impl Slots {
    /// Whether the slots below `n` were left alone.
    pub open spec fn same_below(self, after: Slots, n: int) -> bool {
        &&& n <= self.values.len()
        &&& n <= after.values.len()
        &&& forall|i: int| 0 <= i < n ==> #[trigger] after.values[i] == self.values[i]
    }

    /// Whether what changed lies within one window and above it.
    pub open spec fn within(self, after: Slots, window: FrameWindow) -> bool {
        window.ordered() && window.floor <= self.values.len() ==> {
            &&& window.floor <= after.values.len()
            &&& self.same_below(after, window.base as int)
        }
    }
}

pub broadcast proof fn discarding_stays_within(slots: Slots, window: FrameWindow, count: nat)
    ensures
        slots.within((#[trigger] slots.discard(window, count)).0, window),
    decreases count,
{
    if count > 0 && slots.pop(window).1 is Ok {
        discarding_stays_within(slots.pop(window).0, window, (count - 1) as nat);
    }
}

pub broadcast proof fn pushing_keeps_all(slots: Slots, list: Seq<JsValue>)
    ensures
        slots.same_below((#[trigger] slots.push_all(list)).0, slots.values.len() as int),
    decreases list.len(),
{
    if list.len() > 0 && slots.push(list[0]).1 is Ok {
        pushing_keeps_all(slots.push(list[0]).0, list.drop_first());
    }
}

pub broadcast proof fn reuse_stays_within(slots: Slots, window: FrameWindow, from: int)
    ensures
        window.base <= from ==> slots.within(
            #[trigger] slots.reuse_captured(window, from),
            window,
        ),
    decreases window.floor - from,
{
    if 0 <= from < window.floor && from < slots.values.len() {
        let next = match slots.values[from] {
            FrameBinding::Captured { cell, .. } => Slots {
                values: slots.values.update(from, FrameBinding::Captured { cell, reusable: true }),
                ..slots
            },
            _ => slots,
        };
        reuse_stays_within(next, window, from + 1);
    }
}

} // verus!
