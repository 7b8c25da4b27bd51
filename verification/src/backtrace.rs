//! The text of the activations that are visible when an error is made.
use vstd::prelude::*;
use crate::error::Error;
use crate::frames::active::{ActiveFrameKind, ActiveFrameRecord};
use crate::heap::Heap;
use crate::runtime::{Runtime, ATOM_NAME, ATOM_STACK};
use crate::text::{append_text, text_units, Texts};
use crate::value::{JsValue, ObjectRef, PropertyKey};

verus! {

impl Heap {
    /// The name of a function for readers: its own `name`, unless that is no
    /// text or an empty one.
    pub open spec fn function_label(self, function: ObjectRef) -> Seq<u16> {
        match self.own_data(function, PropertyKey::String(ATOM_NAME)) {
            Some(JsValue::String(atom)) => if self.text_at(atom).len() > 0 {
                self.text_at(atom)
            } else {
                Texts::units("<anonymous>")
            },
            _ => Texts::units("<anonymous>"),
        }
    }

    /// The line of one activation; a hidden one has none.
    pub open spec fn stack_line(self, record: ActiveFrameRecord) -> Seq<u16> {
        if record.backtrace_hidden {
            Seq::empty()
        } else {
            Texts::units("    at ") + self.function_label(record.function) + match record.kind {
                ActiveFrameKind::Native { .. } => Texts::units(" (native)\n"),
                ActiveFrameKind::Bytecode { .. } => Texts::units("\n"),
            }
        }
    }

    /// The lines of the oldest `count` activations, the newest of them first.
    #[verifier::opaque]
    pub open spec fn stack_text(self, count: nat) -> Seq<u16>
        decreases count,
    {
        if count == 0 || count > self.active.len() {
            Seq::empty()
        } else {
            self.stack_line(self.active[count - 1]) + self.stack_text((count - 1) as nat)
        }
    }
}

impl Runtime {
    fn function_label(&self, function: ObjectRef) -> (r: Vec<u16>)
        ensures
            r@ == self@.function_label(function),
    {
        match self.own_data(function, PropertyKey::String(ATOM_NAME)) {
            Some(JsValue::String(atom)) => {
                let name = self.text(atom);
                if name.len() > 0 {
                    return name;
                }
            },
            _ => {},
        }
        text_units("<anonymous>")
    }

    fn stack_line(&self, record: ActiveFrameRecord) -> (r: Vec<u16>)
        ensures
            r@ == self@.stack_line(record),
    {
        if record.backtrace_hidden {
            return Vec::new();
        }
        let mut out = text_units("    at ");
        let label = self.function_label(record.function);
        append_text(&mut out, &label);
        let end = match record.kind {
            ActiveFrameKind::Native { .. } => text_units(" (native)\n"),
            ActiveFrameKind::Bytecode { .. } => text_units("\n"),
        };
        append_text(&mut out, &end);
        out
    }

    /// The lines of all activations, the newest first.
    pub fn stack_units(&self) -> (r: Vec<u16>)
        requires
            self.wf(),
        ensures
            r@ == self@.stack_text(self@.active.len()),
    {
        let mut out: Vec<u16> = Vec::new();
        let mut left: usize = self.active.len();
        while left > 0
            invariant
                self.wf(),
                left <= self@.active.len(),
                self@.stack_text(self@.active.len()) == out@ + self@.stack_text(left as nat),
            decreases left,
        {
            left = left - 1;
            match self.active.get(left) {
                Some(record) => {
                    let line = self.stack_line(*record);
                    proof {
                        reveal_with_fuel(Heap::stack_text, 2);
                        assert(out@ + (line@ + self@.stack_text(left as nat)) =~= (out@ + line@)
                            + self@.stack_text(left as nat));
                    }
                    append_text(&mut out, &line);
                },
                None => {},
            }
        }
        proof {
            reveal_with_fuel(Heap::stack_text, 2);
        }
        assert(out@ + Seq::<u16>::empty() =~= out@);
        out
    }
}

/// What an activation adds to the text stands in front of that of the older
/// ones.
pub proof fn newest_activations_come_first(heap: Heap)
    requires
        heap.active.len() > 0,
    ensures
        heap.stack_text(heap.active.len()) == heap.stack_line(heap.active.last()) + (Heap {
            active: heap.active.drop_last(),
            ..heap
        }).stack_text((heap.active.len() - 1) as nat),
{
    let older = Heap { active: heap.active.drop_last(), ..heap };
    reveal_with_fuel(Heap::stack_text, 2);
    same_lines(heap, older, older.active.len());
}

proof fn same_lines(heap: Heap, older: Heap, count: nat)
    requires
        older == (Heap { active: heap.active.drop_last(), ..heap }),
        count < heap.active.len(),
    ensures
        heap.stack_text(count) == older.stack_text(count),
    decreases count,
{
    reveal_with_fuel(Heap::stack_text, 2);
    if count > 0 {
        assert(older.function_label(older.active[count - 1].function) == heap.function_label(
            heap.active[count - 1].function,
        ));
        same_lines(heap, older, (count - 1) as nat);
    }
}

/// An error keeps the text of the activations that were visible when it was
/// made.
pub proof fn errors_keep_their_activations(heap: Heap, prototype: ObjectRef, error: Error)
    requires
        heap.texts.len() + 2 <= usize::MAX,
        forall|p: int|
            0 <= p < heap.properties.len() ==> (#[trigger] heap.properties[p]).owner
                != heap.next_ref().index,
    ensures
        heap.with_error(prototype, error).own_data(
            heap.next_ref(),
            PropertyKey::String(ATOM_STACK),
        ) matches Some(JsValue::String(atom)) && heap.with_error(prototype, error).text_at(atom)
            == heap.stack_text(heap.active.len()),
{
    let after = heap.with_error(prototype, error);
    let named = heap.with_text(heap.error_text(error));
    let key = PropertyKey::String(ATOM_STACK);
    let at = heap.properties.len() as int + 1;
    assert forall|p: int| 0 <= p < at implies (#[trigger] after.properties[p]).owner
        != heap.next_ref().index || after.properties[p].key != key by {
        if p < heap.properties.len() {
            assert(after.properties[p] == heap.properties[p]);
        }
    }
    crate::object::position_is(after.properties, heap.next_ref().index, key, 0, at);
    crate::text::interning_names_the_text(named.texts, heap.stack_text(heap.active.len()));
}

/// A function with a nonempty name of its own is shown by it; any other one, also
/// one whose name is no text, is anonymous.
pub proof fn functions_are_shown_by_their_name(heap: Heap, function: ObjectRef, atom: crate::value::Atom)
    requires
        atom < heap.texts.len(),
    ensures
        heap.own_data(function, PropertyKey::String(ATOM_NAME)) == Some(JsValue::String(atom))
            && heap.texts[atom as int].len() > 0 ==> heap.function_label(function)
            == heap.texts[atom as int],
        heap.own_data(function, PropertyKey::String(ATOM_NAME)) == Some(JsValue::String(atom))
            && heap.texts[atom as int].len() == 0 ==> heap.function_label(function) == Texts::units(
            "<anonymous>",
        ),
        !(heap.own_data(function, PropertyKey::String(ATOM_NAME)) matches Some(value) && value
            is String) ==> heap.function_label(function) == Texts::units("<anonymous>"),
{
}

/// A visible activation has one line that holds the label of its function and
/// says whether it is native; a hidden one has none and leaves the text as it
/// was.
pub proof fn visible_activations_have_a_line(heap: Heap, record: ActiveFrameRecord)
    ensures
        ({
            let label = heap.function_label(record.function);
            let line = heap.stack_line(record);
            let n = label.len() as int;
            &&& record.backtrace_hidden <==> line.len() == 0
            &&& !record.backtrace_hidden ==> {
                &&& line.take(7) == Texts::units("    at ")
                &&& line.subrange(7, 7 + n) == label
                &&& line.last() == 10
                &&& record.kind is Bytecode ==> line.len() == n + 8
                &&& record.kind is Native ==> line.skip(7 + n) == Texts::units(" (native)\n")
            }
        }),
        record.backtrace_hidden ==> ({
            let after = Heap { active: heap.active.push(record), ..heap };
            after.stack_text(after.active.len()) == heap.stack_text(heap.active.len())
        }),
{
    let label = heap.function_label(record.function);
    let line = heap.stack_line(record);
    let n = label.len() as int;
    reveal_strlit("    at ");
    reveal_strlit(" (native)\n");
    reveal_strlit("\n");
    assert(Texts::units("    at ").len() == 7);
    assert(Texts::units(" (native)\n").len() == 10);
    assert(Texts::units("\n").len() == 1);
    assert(Texts::units("\n")[0] == 10);
    assert(Texts::units(" (native)\n")[9] == 10);
    if !record.backtrace_hidden {
        assert(line.take(7) =~= Texts::units("    at "));
        assert(line.subrange(7, 7 + n) =~= label);
        if record.kind is Native {
            assert(line.skip(7 + n) =~= Texts::units(" (native)\n"));
        }
    } else {
        let after = Heap { active: heap.active.push(record), ..heap };
        newest_activations_come_first(after);
        assert(after.active.drop_last() =~= heap.active);
        assert(Heap { active: after.active.drop_last(), ..after } == heap);
        assert(Seq::<u16>::empty() + heap.stack_text(heap.active.len()) =~= heap.stack_text(
            heap.active.len(),
        ));
    }
}

} // verus!
