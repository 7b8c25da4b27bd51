//! One stack of bindings and operands shared by all frames of an execution.
//!
//! A frame's window covers its original arguments, its parameters, its locals
//! and, from `floor` on, its operands.  Only the newest frame's operands can
//! grow, so they end where the stack ends.
use vstd::prelude::*;
use crate::error::Error;
use crate::value::JsValue;

verus! {

/// One slot of a frame.
#[derive(Clone, Copy, Debug, PartialEq, Eq, Structural)]
pub enum FrameBinding {
    Direct(JsValue),
    Uninitialized,
    /// The variable lives in a cell.  `reusable` says that an abandoned scope
    /// left the cell behind for the next entry of that scope.
    Captured { cell: usize, reusable: bool },
}

/// Where the parts of a frame lie.
#[derive(Clone, Copy, Debug, PartialEq, Eq, Structural)]
pub struct FrameWindow {
    pub base: usize,
    pub parameters_at: usize,
    pub locals_at: usize,
    pub floor: usize,
}

/// The owners that a new frame starts with.
pub struct FrameStorage {
    pub original_arguments: Vec<JsValue>,
    pub parameters: Vec<FrameBinding>,
    pub locals: Vec<FrameBinding>,
}

pub struct SlotStore {
    pub values: Vec<FrameBinding>,
    pub limit: usize,
}

/// The stack as a mathematical value.
#[verifier::ext_equal]
pub struct Slots {
    pub values: Seq<FrameBinding>,
    pub limit: usize,
}

impl View for SlotStore {
    type V = Slots;

    open spec fn view(&self) -> Slots {
        Slots { values: self.values@, limit: self.limit }
    }
}

impl Slots {
    pub open spec fn depth(self, window: FrameWindow) -> nat {
        if window.floor <= self.values.len() {
            (self.values.len() - window.floor) as nat
        } else {
            0
        }
    }

    /// The operand `offset` places below the top.
    pub open spec fn peek(self, window: FrameWindow, offset: int) -> Result<JsValue, Error> {
        if 0 <= offset < self.depth(window) {
            match self.values[self.values.len() - 1 - offset] {
                FrameBinding::Direct(value) => Ok(value),
                _ => Err(Error::internal("operand slot holds a binding")),
            }
        } else {
            Err(Error::internal("operand stack underflow"))
        }
    }

    pub open spec fn push(self, value: JsValue) -> (Slots, Result<(), Error>) {
        if self.values.len() < self.limit {
            (Slots { values: self.values.push(FrameBinding::Direct(value)), ..self }, Ok(()))
        } else {
            (self, Err(Error::internal("execution slot limit exceeded")))
        }
    }

    pub open spec fn pop(self, window: FrameWindow) -> (Slots, Result<JsValue, Error>) {
        match self.peek(window, 0) {
            Err(e) => (self, Err(e)),
            Ok(value) => (Slots { values: self.values.drop_last(), ..self }, Ok(value)),
        }
    }

    /// Removing `count` operands one by one.
    pub open spec fn discard(self, window: FrameWindow, count: nat) -> (Slots, Result<(), Error>)
        decreases count,
    {
        if count == 0 {
            (self, Ok(()))
        } else {
            let (slots, value) = self.pop(window);
            match value {
                Err(e) => (slots, Err(e)),
                Ok(_) => slots.discard(window, (count - 1) as nat),
            }
        }
    }

    /// Removing operands down to `depth`.
    pub open spec fn discard_to(self, window: FrameWindow, depth: nat) -> (Slots, Result<(), Error>) {
        if self.depth(window) > depth {
            self.discard(window, (self.depth(window) - depth) as nat)
        } else {
            (self, Ok(()))
        }
    }

    /// The top `count` operands, the deepest first.
    pub open spec fn top(self, window: FrameWindow, count: nat) -> Result<Seq<JsValue>, Error>
        decreases count,
    {
        if count == 0 {
            Ok(Seq::empty())
        } else {
            match self.peek(window, count - 1) {
                Err(e) => Err(e),
                Ok(value) => match self.top(window, (count - 1) as nat) {
                    Err(e) => Err(e),
                    Ok(rest) => Ok(seq![value] + rest),
                },
            }
        }
    }

    /// Pushing a list, the first element deepest.
    pub open spec fn push_all(self, list: Seq<JsValue>) -> (Slots, Result<(), Error>)
        decreases list.len(),
    {
        if list.len() == 0 {
            (self, Ok(()))
        } else {
            let (slots, r) = self.push(list[0]);
            match r {
                Err(e) => (slots, Err(e)),
                Ok(_) => slots.push_all(list.drop_first()),
            }
        }
    }

    pub open spec fn local_index(window: FrameWindow, index: u16) -> int {
        window.locals_at + index
    }

    pub open spec fn has_local(self, window: FrameWindow, index: u16) -> bool {
        Slots::local_index(window, index) < window.floor && window.floor <= self.values.len()
    }

    pub open spec fn local(self, window: FrameWindow, index: u16) -> Result<FrameBinding, Error> {
        if self.has_local(window, index) {
            Ok(self.values[Slots::local_index(window, index)])
        } else {
            Err(Error::internal("local index is out of bounds"))
        }
    }

    pub open spec fn set_local(self, window: FrameWindow, index: u16, binding: FrameBinding) -> (
        Slots,
        Result<(), Error>,
    ) {
        if self.has_local(window, index) {
            (
                Slots {
                    values: self.values.update(Slots::local_index(window, index), binding),
                    ..self
                },
                Ok(()),
            )
        } else {
            (self, Err(Error::internal("local index is out of bounds")))
        }
    }

    pub open spec fn parameter_index(window: FrameWindow, index: u16) -> int {
        window.parameters_at + index
    }

    pub open spec fn has_parameter(self, window: FrameWindow, index: u16) -> bool {
        Slots::parameter_index(window, index) < window.locals_at && window.locals_at
            <= self.values.len()
    }

    pub open spec fn parameter(self, window: FrameWindow, index: u16) -> Result<
        FrameBinding,
        Error,
    > {
        if self.has_parameter(window, index) {
            Ok(self.values[Slots::parameter_index(window, index)])
        } else {
            Err(Error::internal("parameter index is out of bounds"))
        }
    }

    pub open spec fn set_parameter(
        self,
        window: FrameWindow,
        index: u16,
        binding: FrameBinding,
    ) -> (Slots, Result<(), Error>) {
        if self.has_parameter(window, index) {
            (
                Slots {
                    values: self.values.update(Slots::parameter_index(window, index), binding),
                    ..self
                },
                Ok(()),
            )
        } else {
            (self, Err(Error::internal("parameter index is out of bounds")))
        }
    }

    pub open spec fn direct(values: Seq<JsValue>) -> Seq<FrameBinding> {
        values.map_values(|v: JsValue| FrameBinding::Direct(v))
    }

    /// The window of a frame laid out on top of the stack.
    pub open spec fn window_for(self, arguments: nat, parameters: nat, locals: nat) -> FrameWindow {
        FrameWindow {
            base: self.values.len() as usize,
            parameters_at: (self.values.len() + arguments) as usize,
            locals_at: (self.values.len() + arguments + parameters) as usize,
            floor: (self.values.len() + arguments + parameters + locals) as usize,
        }
    }

    pub open spec fn push_frame(
        self,
        arguments: Seq<JsValue>,
        parameters: Seq<FrameBinding>,
        locals: Seq<FrameBinding>,
    ) -> (Slots, Result<FrameWindow, Error>) {
        if self.values.len() + arguments.len() + parameters.len() + locals.len() <= self.limit {
            (
                Slots {
                    values: self.values + Slots::direct(arguments) + parameters + locals,
                    ..self
                },
                Ok(self.window_for(arguments.len(), parameters.len(), locals.len())),
            )
        } else {
            (self, Err(Error::internal("execution slot limit exceeded")))
        }
    }

    /// Removing a frame's window and everything above it.
    pub open spec fn clear_frame(self, window: FrameWindow) -> Slots {
        if window.base <= self.values.len() {
            Slots { values: self.values.take(window.base as int), ..self }
        } else {
            self
        }
    }

    /// The original arguments of a frame from position `from`.
    pub open spec fn arguments_from(self, window: FrameWindow, from: int) -> Result<
        Seq<JsValue>,
        Error,
    >
        decreases window.parameters_at - from,
    {
        if from >= window.parameters_at {
            Ok(Seq::empty())
        } else if 0 <= from < self.values.len() {
            match self.values[from] {
                FrameBinding::Direct(value) => match self.arguments_from(window, from + 1) {
                    Err(e) => Err(e),
                    Ok(rest) => Ok(seq![value] + rest),
                },
                _ => Err(Error::internal("original argument slot holds a binding")),
            }
        } else {
            Err(Error::internal("original argument is out of bounds"))
        }
    }

    pub open spec fn actual_arguments(self, window: FrameWindow) -> Result<Seq<JsValue>, Error> {
        self.arguments_from(window, window.base as int)
    }
}

impl SlotStore {
    pub fn new(limit: usize) -> (r: SlotStore)
        ensures
            r@ == (Slots { values: Seq::empty(), limit }),
    {
        SlotStore { values: Vec::new(), limit }
    }

    pub fn depth(&self, window: FrameWindow) -> (r: usize)
        ensures
            r == self@.depth(window),
    {
        if window.floor <= self.values.len() {
            self.values.len() - window.floor
        } else {
            0
        }
    }

    pub fn peek(&self, window: FrameWindow, offset: usize) -> (r: Result<JsValue, Error>)
        ensures
            r == self@.peek(window, offset as int),
    {
        if offset < self.depth(window) {
            match self.values[self.values.len() - 1 - offset] {
                FrameBinding::Direct(value) => Ok(value),
                _ => Err(Error::internal("operand slot holds a binding")),
            }
        } else {
            Err(Error::internal("operand stack underflow"))
        }
    }

    pub fn push(&mut self, value: JsValue) -> (r: Result<(), Error>)
        ensures
            (final(self)@, r) == old(self)@.push(value),
    {
        if self.values.len() < self.limit {
            self.values.push(FrameBinding::Direct(value));
            Ok(())
        } else {
            Err(Error::internal("execution slot limit exceeded"))
        }
    }

    pub fn pop(&mut self, window: FrameWindow) -> (r: Result<JsValue, Error>)
        ensures
            (final(self)@, r) == old(self)@.pop(window),
    {
        let value = self.peek(window, 0)?;
        let _ = self.values.pop();
        Ok(value)
    }

    pub fn discard(&mut self, window: FrameWindow, count: usize) -> (r: Result<(), Error>)
        ensures
            (final(self)@, r) == old(self)@.discard(window, count as nat),
    {
        let mut left: usize = count;
        while left > 0
            invariant
                self@.discard(window, left as nat) == old(self)@.discard(window, count as nat),
            decreases left,
        {
            let _ = self.pop(window)?;
            left = left - 1;
        }
        Ok(())
    }

    pub fn discard_to(&mut self, window: FrameWindow, depth: usize) -> (r: Result<(), Error>)
        ensures
            (final(self)@, r) == old(self)@.discard_to(window, depth as nat),
    {
        let current: usize = self.depth(window);
        if current > depth {
            self.discard(window, current - depth)
        } else {
            Ok(())
        }
    }

    /// The top `count` operands, the deepest first.
    pub fn top(&self, window: FrameWindow, count: usize) -> (r: Result<Vec<JsValue>, Error>)
        ensures
            match r {
                Ok(list) => self@.top(window, count as nat) == Ok::<Seq<JsValue>, Error>(list@),
                Err(e) => self@.top(window, count as nat) == Err::<Seq<JsValue>, Error>(e),
            },
    {
        let mut out: Vec<JsValue> = Vec::new();
        let mut left: usize = count;
        while left > 0
            invariant
                left <= count,
                match self@.top(window, left as nat) {
                    Ok(rest) => self@.top(window, count as nat) == Ok::<Seq<JsValue>, Error>(
                        out@ + rest,
                    ),
                    Err(e) => self@.top(window, count as nat) == Err::<Seq<JsValue>, Error>(e),
                },
            decreases left,
        {
            let value = self.peek(window, left - 1)?;
            let ghost before = out@;
            out.push(value);
            left = left - 1;
            proof {
                match self@.top(window, left as nat) {
                    Ok(rest) => {
                        assert(out@ + rest =~= before + (seq![value] + rest));
                    },
                    Err(_) => {},
                }
            }
        }
        assert(out@ + Seq::<JsValue>::empty() =~= out@);
        Ok(out)
    }

    pub fn push_all(&mut self, list: &Vec<JsValue>) -> (r: Result<(), Error>)
        ensures
            (final(self)@, r) == old(self)@.push_all(list@),
    {
        let mut i: usize = 0;
        assert(list@.skip(0) =~= list@);
        while i < list.len()
            invariant
                i <= list@.len(),
                self@.push_all(list@.skip(i as int)) == old(self)@.push_all(list@),
            decreases list@.len() - i,
        {
            assert(list@.skip(i as int)[0] == list@[i as int]);
            assert(list@.skip(i as int).drop_first() =~= list@.skip(i as int + 1));
            self.push(list[i])?;
            i = i + 1;
        }
        Ok(())
    }

    fn local_at(&self, window: FrameWindow, index: u16) -> (r: Option<usize>)
        ensures
            match r {
                Some(p) => self@.has_local(window, index) && p == Slots::local_index(
                    window,
                    index,
                ) && p < self@.values.len(),
                None => !self@.has_local(window, index),
            },
    {
        if window.floor <= self.values.len() && window.locals_at <= window.floor && (index as usize)
            < window.floor - window.locals_at {
            Some(window.locals_at + index as usize)
        } else {
            None
        }
    }

    pub fn local(&self, window: FrameWindow, index: u16) -> (r: Result<FrameBinding, Error>)
        ensures
            r == self@.local(window, index),
    {
        match self.local_at(window, index) {
            Some(p) => Ok(self.values[p]),
            None => Err(Error::internal("local index is out of bounds")),
        }
    }

    pub fn set_local(&mut self, window: FrameWindow, index: u16, binding: FrameBinding) -> (r:
        Result<(), Error>)
        ensures
            (final(self)@, r) == old(self)@.set_local(window, index, binding),
    {
        match self.local_at(window, index) {
            Some(p) => {
                self.values.set(p, binding);
                Ok(())
            },
            None => Err(Error::internal("local index is out of bounds")),
        }
    }

    fn parameter_at(&self, window: FrameWindow, index: u16) -> (r: Option<usize>)
        ensures
            match r {
                Some(p) => self@.has_parameter(window, index) && p == Slots::parameter_index(
                    window,
                    index,
                ) && p < self@.values.len(),
                None => !self@.has_parameter(window, index),
            },
    {
        if window.locals_at <= self.values.len() && window.parameters_at <= window.locals_at && (
        index as usize) < window.locals_at - window.parameters_at {
            Some(window.parameters_at + index as usize)
        } else {
            None
        }
    }

    pub fn parameter(&self, window: FrameWindow, index: u16) -> (r: Result<FrameBinding, Error>)
        ensures
            r == self@.parameter(window, index),
    {
        match self.parameter_at(window, index) {
            Some(p) => Ok(self.values[p]),
            None => Err(Error::internal("parameter index is out of bounds")),
        }
    }

    pub fn set_parameter(&mut self, window: FrameWindow, index: u16, binding: FrameBinding) -> (r:
        Result<(), Error>)
        ensures
            (final(self)@, r) == old(self)@.set_parameter(window, index, binding),
    {
        match self.parameter_at(window, index) {
            Some(p) => {
                self.values.set(p, binding);
                Ok(())
            },
            None => Err(Error::internal("parameter index is out of bounds")),
        }
    }

    fn append(&mut self, list: &Vec<FrameBinding>)
        ensures
            final(self)@ == (Slots { values: old(self)@.values + list@, ..old(self)@ }),
    {
        let mut i: usize = 0;
        let ghost before = self.values@;
        while i < list.len()
            invariant
                i <= list@.len(),
                self.limit == old(self).limit,
                self.values@ == before + list@.take(i as int),
            decreases list@.len() - i,
        {
            self.values.push(list[i]);
            i = i + 1;
            assert(self.values@ =~= before + list@.take(i as int));
        }
        assert(list@.take(list@.len() as int) =~= list@);
    }

    /// Lay a frame out on top of the stack, or leave the stack as it is.
    pub fn push_frame(&mut self, storage: &FrameStorage) -> (r: Result<FrameWindow, Error>)
        ensures
            (final(self)@, r) == old(self)@.push_frame(
                storage.original_arguments@,
                storage.parameters@,
                storage.locals@,
            ),
    {
        let base: usize = self.values.len();
        let arguments: usize = storage.original_arguments.len();
        let parameters: usize = storage.parameters.len();
        let locals: usize = storage.locals.len();
        if base > self.limit || arguments > self.limit - base {
            return Err(Error::internal("execution slot limit exceeded"));
        }
        let parameters_at: usize = base + arguments;
        if parameters > self.limit - parameters_at {
            return Err(Error::internal("execution slot limit exceeded"));
        }
        let locals_at: usize = parameters_at + parameters;
        if locals > self.limit - locals_at {
            return Err(Error::internal("execution slot limit exceeded"));
        }
        let floor: usize = locals_at + locals;
        let ghost list = storage.original_arguments@;
        let mut i: usize = 0;
        while i < arguments
            invariant
                i <= arguments,
                arguments == storage.original_arguments@.len(),
                list == storage.original_arguments@,
                self.limit == old(self).limit,
                self.values@ == old(self).values@ + Slots::direct(list.take(i as int)),
            decreases arguments - i,
        {
            self.values.push(FrameBinding::Direct(storage.original_arguments[i]));
            i = i + 1;
            assert(self.values@ =~= old(self).values@ + Slots::direct(list.take(i as int)));
        }
        assert(list.take(arguments as int) =~= list);
        self.append(&storage.parameters);
        self.append(&storage.locals);
        Ok(FrameWindow { base, parameters_at, locals_at, floor })
    }

    pub fn clear_frame(&mut self, window: FrameWindow)
        ensures
            final(self)@ == old(self)@.clear_frame(window),
    {
        if window.base <= self.values.len() {
            self.values.truncate(window.base);
        }
    }

    /// The values a frame was called with.
    pub fn snapshot_actual_arguments(&self, window: FrameWindow) -> (r: Result<
        Vec<JsValue>,
        Error,
    >)
        ensures
            match r {
                Ok(list) => self@.actual_arguments(window) == Ok::<Seq<JsValue>, Error>(list@),
                Err(e) => self@.actual_arguments(window) == Err::<Seq<JsValue>, Error>(e),
            },
    {
        let mut out: Vec<JsValue> = Vec::new();
        let mut i: usize = window.base;
        while i < window.parameters_at
            invariant
                window.base <= i,
                match self@.arguments_from(window, i as int) {
                    Ok(rest) => self@.actual_arguments(window) == Ok::<Seq<JsValue>, Error>(
                        out@ + rest,
                    ),
                    Err(e) => self@.actual_arguments(window) == Err::<Seq<JsValue>, Error>(e),
                },
            decreases window.parameters_at - i,
        {
            if i >= self.values.len() {
                return Err(Error::internal("original argument is out of bounds"));
            }
            let value = match self.values[i] {
                FrameBinding::Direct(value) => value,
                _ => {
                    return Err(Error::internal("original argument slot holds a binding"));
                },
            };
            let ghost before = out@;
            out.push(value);
            i = i + 1;
            proof {
                match self@.arguments_from(window, i as int) {
                    Ok(rest) => {
                        assert(out@ + rest =~= before + (seq![value] + rest));
                    },
                    Err(_) => {},
                }
            }
        }
        assert(out@ + Seq::<JsValue>::empty() =~= out@);
        Ok(out)
    }
}

/// Popping gives back what was pushed and restores the stack.
pub proof fn pop_undoes_push(slots: Slots, window: FrameWindow, value: JsValue)
    requires
        slots.values.len() < slots.limit,
        window.floor <= slots.values.len(),
    ensures
        slots.push(value).0.pop(window) == (slots, Ok::<JsValue, Error>(value)),
{
    assert(slots.values.push(FrameBinding::Direct(value)).drop_last() =~= slots.values);
}

/// Clearing a frame's window restores the stack below it.
pub proof fn clearing_undoes_a_frame(
    slots: Slots,
    arguments: Seq<JsValue>,
    parameters: Seq<FrameBinding>,
    locals: Seq<FrameBinding>,
)
    requires
        slots.push_frame(arguments, parameters, locals).1 is Ok,
    ensures
        slots.push_frame(arguments, parameters, locals).0.clear_frame(
            slots.push_frame(arguments, parameters, locals).1->Ok_0,
        ) == slots,
{
    let after = slots.push_frame(arguments, parameters, locals).0;
    assert(after.values.take(slots.values.len() as int) =~= slots.values);
}

/// Writing a local leaves every operand of the frame where it was.
pub proof fn locals_are_apart_from_operands(
    slots: Slots,
    window: FrameWindow,
    index: u16,
    binding: FrameBinding,
    offset: int,
)
    ensures
        slots.set_local(window, index, binding).0.peek(window, offset) == slots.peek(
            window,
            offset,
        ),
{
}

/// Reading operands off the top gives as many as were asked for.
pub proof fn top_is_whole(slots: Slots, window: FrameWindow, count: nat)
    ensures
        slots.top(window, count) matches Ok(list) ==> list.len() == count,
    decreases count,
{
    if count > 0 {
        top_is_whole(slots, window, (count - 1) as nat);
    }
}

/// The arguments of a call can be read back from its frame as they were given,
/// and its parameters and locals lie where their indices say.
pub proof fn frames_keep_their_arguments(
    slots: Slots,
    arguments: Seq<JsValue>,
    parameters: Seq<FrameBinding>,
    locals: Seq<FrameBinding>,
    index: u16,
)
    requires
        slots.push_frame(arguments, parameters, locals).1 is Ok,
    ensures
        ({
            let (after, r) = slots.push_frame(arguments, parameters, locals);
            let window = r->Ok_0;
            &&& after.actual_arguments(window) == Ok::<Seq<JsValue>, Error>(arguments)
            &&& index < parameters.len() ==> after.parameter(window, index) == Ok::<
                FrameBinding,
                Error,
            >(parameters[index as int])
            &&& index < locals.len() ==> after.local(window, index) == Ok::<FrameBinding, Error>(
                locals[index as int],
            )
            &&& index >= parameters.len() ==> after.parameter(window, index) is Err
            &&& index >= locals.len() ==> after.local(window, index) is Err
            &&& after.depth(window) == 0
            &&& forall|i: int|
                0 <= i < slots.values.len() ==> #[trigger] after.values[i] == slots.values[i]
        }),
{
    let (after, r) = slots.push_frame(arguments, parameters, locals);
    arguments_read_back(slots, arguments, parameters, locals, 0);
    assert(arguments.skip(0) =~= arguments);
}

proof fn arguments_read_back(
    slots: Slots,
    arguments: Seq<JsValue>,
    parameters: Seq<FrameBinding>,
    locals: Seq<FrameBinding>,
    from: int,
)
    requires
        slots.push_frame(arguments, parameters, locals).1 is Ok,
        0 <= from <= arguments.len(),
    ensures
        ({
            let (after, r) = slots.push_frame(arguments, parameters, locals);
            after.arguments_from(r->Ok_0, slots.values.len() + from) == Ok::<Seq<JsValue>, Error>(
                arguments.skip(from),
            )
        }),
    decreases arguments.len() - from,
{
    let (after, r) = slots.push_frame(arguments, parameters, locals);
    if from < arguments.len() {
        arguments_read_back(slots, arguments, parameters, locals, from + 1);
        assert(after.values[slots.values.len() + from] == FrameBinding::Direct(arguments[from]));
        assert(seq![arguments[from]] + arguments.skip(from + 1) =~= arguments.skip(from));
    } else {
        assert(arguments.skip(from) =~= Seq::<JsValue>::empty());
    }
}

/// The top operands come in the order in which they were pushed.
pub proof fn operands_come_in_the_order_of_their_pushes(
    slots: Slots,
    window: FrameWindow,
    list: Seq<JsValue>,
)
    requires
        window.floor <= slots.values.len(),
        slots.values.len() + list.len() <= slots.limit,
    ensures
        slots.push_all(list).1 is Ok,
        slots.push_all(list).0.values == slots.values + Slots::direct(list),
        slots.push_all(list).0.top(window, list.len()) == Ok::<Seq<JsValue>, Error>(list),
        slots.push_all(list).0.discard(window, list.len()) == (slots, Ok::<(), Error>(())),
{
    pushing_appends(slots, list);
    let after = slots.push_all(list).0;
    tops_are_tails(after, window, slots.values, list, list.len());
    assert(list.skip(0) =~= list);
    discarding_drops(after, window, slots, list);
}

proof fn pushing_appends(slots: Slots, list: Seq<JsValue>)
    requires
        slots.values.len() + list.len() <= slots.limit,
    ensures
        slots.push_all(list).1 is Ok,
        slots.push_all(list).0 == (Slots { values: slots.values + Slots::direct(list), ..slots }),
    decreases list.len(),
{
    if list.len() > 0 {
        let next = slots.push(list[0]).0;
        pushing_appends(next, list.drop_first());
        assert(next.values + Slots::direct(list.drop_first()) =~= slots.values + Slots::direct(
            list,
        ));
    } else {
        assert(slots.values + Slots::direct(list) =~= slots.values);
    }
}

proof fn tops_are_tails(
    after: Slots,
    window: FrameWindow,
    below: Seq<FrameBinding>,
    list: Seq<JsValue>,
    count: nat,
)
    requires
        window.floor <= below.len(),
        after.values == below + Slots::direct(list),
        count <= list.len(),
    ensures
        after.top(window, count) == Ok::<Seq<JsValue>, Error>(list.skip(list.len() - count)),
    decreases count,
{
    if count > 0 {
        tops_are_tails(after, window, below, list, (count - 1) as nat);
        let at = list.len() - count;
        assert(after.values[after.values.len() - count] == FrameBinding::Direct(list[at]));
        assert(seq![list[at]] + list.skip(at + 1) =~= list.skip(at));
    } else {
        assert(list.skip(list.len() as int) =~= Seq::<JsValue>::empty());
    }
}

proof fn discarding_drops(after: Slots, window: FrameWindow, slots: Slots, list: Seq<JsValue>)
    requires
        window.floor <= slots.values.len(),
        after == (Slots { values: slots.values + Slots::direct(list), ..slots }),
    ensures
        after.discard(window, list.len()) == (slots, Ok::<(), Error>(())),
    decreases list.len(),
{
    if list.len() > 0 {
        assert(after.values.last() == FrameBinding::Direct(list.last()));
        let next = after.pop(window).0;
        assert(next.values =~= slots.values + Slots::direct(list.drop_last()));
        discarding_drops(next, window, slots, list.drop_last());
    } else {
        assert(after.values =~= slots.values);
    }
}

/// Writing one variable of a frame leaves all others, and the value written is
/// the value read.
pub proof fn variables_are_apart(
    slots: Slots,
    window: FrameWindow,
    index: u16,
    binding: FrameBinding,
    other: u16,
)
    ensures
        slots.set_local(window, index, binding).1 is Ok ==> {
            let after = slots.set_local(window, index, binding).0;
            &&& after.local(window, index) == Ok::<FrameBinding, Error>(binding)
            &&& other != index ==> after.local(window, other) == slots.local(window, other)
            &&& after.parameter(window, other) == slots.parameter(window, other)
        },
        slots.set_parameter(window, index, binding).1 is Ok ==> {
            let after = slots.set_parameter(window, index, binding).0;
            &&& after.parameter(window, index) == Ok::<FrameBinding, Error>(binding)
            &&& other != index ==> after.parameter(window, other) == slots.parameter(window, other)
            &&& after.local(window, other) == slots.local(window, other)
        },
        slots.set_local(window, index, binding).1 is Ok <==> slots.local(window, index) is Ok,
        slots.set_parameter(window, index, binding).1 is Ok <==> slots.parameter(window, index) is Ok,
{
}

} // verus!
