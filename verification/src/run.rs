//! The resident instruction loop.
//!
//! It works on the current frame's window alone.  An instruction that needs
//! the heap, another frame or the embedder leaves the loop with the frame's
//! resume position still on that instruction and its operands in place.
use vstd::prelude::*;
use crate::code::{ApplyKind, BytecodeConstant, FunctionBytecode, Instruction, MethodDefinition, NumericKind};
use crate::construct_driver::InitializerKind;
use crate::environment_driver::{Operation, WriteTarget};
use crate::error::Error;
use crate::execution::{Machine, RunningExecution};
use crate::frame::{Frame, FrameId};
use crate::heap::Heap;
use crate::numeric::NumericOutcome;
use crate::runtime::Runtime;
use crate::slots::{FrameBinding, FrameWindow, Slots};
use crate::value::JsValue;

verus! {

/// Which table a binding instruction indexes.
#[derive(Clone, Copy, Debug, PartialEq, Eq, Structural)]
pub enum BindingSource {
    Local,
    Argument,
    Closure,
}

/// Why the loop was left.
#[derive(Clone, Copy, Debug, PartialEq, Eq, Structural)]
pub enum RunExit {
    Complete,
    Bridge,
    Interrupted,
    Call { arguments: u16, method: bool, tail: bool },
    Construct(u16),
    InitDerivedConstructor,
    Apply(ApplyKind),
    Eval { arguments: u16, scope: u32 },
    ApplyEval(u32),
    ConvertPlus,
    ConvertAdd,
    ConvertPropertyKey,
    GetField { index: u32, keep_receiver: bool },
    GetElement { keep_receiver: bool, keep_key: bool },
    SetProperty(Option<u32>),
    Environment(Operation),
    DefineProperty { key: Option<u32>, method: Option<MethodDefinition> },
    DefineClass { name: u32, has_heritage: bool },
    ClassInitializer(InitializerKind),
    ReleaseOperand { keep_top: bool },
    HomeObject,
    GetSuper,
    BindingError { index: u16, redeclaration: bool },
    StrictEquality(bool),
    Arguments(bool),
    Rest(u16),
    SetName(u32),
    SetComputedName,
    InstantiateClosure(u32),
    ResetCaptured(u16),
    CloseCaptured(u16),
    Catch(u32),
    DropCatch,
    NipCatch,
    Throw,
    Binding { source: BindingSource, index: u16, write: bool, checked: bool, keep: bool },
    LexicalUninitialized(u16),
    InitializeDerived(u16),
    ReturnDerived(u16),
    NormalizeThis,
    Numeric(NumericKind),
}

impl Instruction {
    /// The exit of an instruction that the loop never completes itself.
    pub open spec fn exit_spec(&self) -> Option<RunExit> {
        match *self {
            Instruction::GetClosure(index) => Some(
                RunExit::Binding { source: BindingSource::Closure, index, write: false, checked: false, keep: false },
            ),
            Instruction::GetClosureCheck(index) => Some(
                RunExit::Binding { source: BindingSource::Closure, index, write: false, checked: true, keep: false },
            ),
            Instruction::PutClosure(index) => Some(
                RunExit::Binding { source: BindingSource::Closure, index, write: true, checked: false, keep: false },
            ),
            Instruction::PutClosureCheck(index) => Some(
                RunExit::Binding { source: BindingSource::Closure, index, write: true, checked: true, keep: false },
            ),
            Instruction::SetClosure(index) => Some(
                RunExit::Binding { source: BindingSource::Closure, index, write: true, checked: false, keep: true },
            ),
            Instruction::SetClosureCheck(index) => Some(
                RunExit::Binding { source: BindingSource::Closure, index, write: true, checked: true, keep: true },
            ),
            Instruction::BindingError { index, redeclaration } => Some(
                RunExit::BindingError { index, redeclaration },
            ),
            Instruction::StrictEqual => Some(RunExit::StrictEquality(false)),
            Instruction::StrictNotEqual => Some(RunExit::StrictEquality(true)),
            Instruction::Call { arguments, method, tail } => Some(
                RunExit::Call { arguments, method, tail },
            ),
            Instruction::Construct(count) => Some(RunExit::Construct(count)),
            Instruction::Apply(kind) => Some(RunExit::Apply(kind)),
            Instruction::Eval { arguments, scope } => Some(RunExit::Eval { arguments, scope }),
            Instruction::ApplyEval(scope) => Some(RunExit::ApplyEval(scope)),
            Instruction::InitDerivedConstructor => Some(RunExit::InitDerivedConstructor),
            Instruction::GetField { index, keep_receiver } => Some(
                RunExit::GetField { index, keep_receiver },
            ),
            Instruction::GetElement { keep_receiver, keep_key } => Some(
                RunExit::GetElement { keep_receiver, keep_key },
            ),
            Instruction::SetProperty(key) => Some(RunExit::SetProperty(key)),
            Instruction::ToPropertyKey => Some(RunExit::ConvertPropertyKey),
            Instruction::Catch(target) => Some(RunExit::Catch(target)),
            Instruction::DropCatch => Some(RunExit::DropCatch),
            Instruction::NipCatch => Some(RunExit::NipCatch),
            Instruction::Throw => Some(RunExit::Throw),
            Instruction::ReturnDerived(index) => Some(RunExit::ReturnDerived(index)),
            Instruction::InitializeDerived(index) => Some(RunExit::InitializeDerived(index)),
            Instruction::InstantiateClosure(index) => Some(RunExit::InstantiateClosure(index)),
            Instruction::DefineProperty { key, method } => Some(
                RunExit::DefineProperty { key, method },
            ),
            Instruction::DefineClass { name, has_heritage } => Some(
                RunExit::DefineClass { name, has_heritage },
            ),
            Instruction::InstallClassInstanceInitializer => Some(
                RunExit::ClassInitializer(InitializerKind::Install),
            ),
            Instruction::RunClassInstanceInitializer => Some(
                RunExit::ClassInitializer(InitializerKind::Instance),
            ),
            Instruction::RunClassStaticInitializer => Some(
                RunExit::ClassInitializer(InitializerKind::Static),
            ),
            Instruction::RunClassStaticBlock => Some(
                RunExit::ClassInitializer(InitializerKind::Block),
            ),
            Instruction::HomeObject => Some(RunExit::HomeObject),
            Instruction::GetSuper => Some(RunExit::GetSuper),
            Instruction::SetName(name) => Some(RunExit::SetName(name)),
            Instruction::SetComputedName => Some(RunExit::SetComputedName),
            Instruction::Arguments { mapped } => Some(RunExit::Arguments(mapped)),
            Instruction::Rest(from) => Some(RunExit::Rest(from)),
            Instruction::GlobalReference(index) => Some(
                RunExit::Environment(Operation::GlobalReference(index)),
            ),
            Instruction::GlobalDelete(index) => Some(
                RunExit::Environment(Operation::GlobalDelete(index)),
            ),
            Instruction::GlobalGet { index, strict } => Some(
                RunExit::Environment(Operation::GlobalGet { index, strict }),
            ),
            Instruction::GlobalPut { index, name, strict, initialize } => Some(
                RunExit::Environment(
                    Operation::Put {
                        source: WriteTarget::Global { index, initialize },
                        name,
                        strict,
                        check_presence: true,
                    },
                ),
            ),
            Instruction::VariableEnvironment => Some(
                RunExit::Environment(Operation::CreateVariable),
            ),
            Instruction::CreateObject => Some(RunExit::Environment(Operation::CreateObject)),
            Instruction::CreateArray(count) => Some(
                RunExit::Environment(Operation::CreateArray(count)),
            ),
            Instruction::DefineArrayEl => Some(
                RunExit::Environment(Operation::DefineArrayElement),
            ),
            Instruction::Append => Some(RunExit::Environment(Operation::Append)),
            Instruction::ToObject => Some(RunExit::Environment(Operation::ToObject)),
            Instruction::InitializeWith(index) => Some(
                RunExit::Environment(Operation::InitializeWith(index)),
            ),
            Instruction::EnvironmentObject(source) => Some(
                RunExit::Environment(Operation::Object(source)),
            ),
            Instruction::EnvironmentHas { source, name } => Some(
                RunExit::Environment(Operation::Has { source, name }),
            ),
            Instruction::EnvironmentGet { source, name, strict } => Some(
                RunExit::Environment(Operation::Get { source, name, strict }),
            ),
            Instruction::EnvironmentPut { source, name, strict } => Some(
                RunExit::Environment(
                    Operation::Put {
                        source: WriteTarget::Dynamic(source),
                        name,
                        strict,
                        check_presence: false,
                    },
                ),
            ),
            Instruction::EnvironmentDefine { source, name } => Some(
                RunExit::Environment(Operation::Define { source, name }),
            ),
            Instruction::EnvironmentDelete { source, name } => Some(
                RunExit::Environment(Operation::Delete { source, name }),
            ),
            Instruction::GetRefValue(name) => Some(
                RunExit::Environment(Operation::ReadReference { name, strict: true }),
            ),
            Instruction::GetRefValueUndef(name) => Some(
                RunExit::Environment(Operation::ReadReference { name, strict: false }),
            ),
            Instruction::Foreign(_) => Some(RunExit::Bridge),
            _ => None,
        }
    }

    pub fn exit(&self) -> (r: Option<RunExit>)
        ensures
            r == self.exit_spec(),
    {
        match *self {
            Instruction::GetClosure(index) => Some(
                RunExit::Binding { source: BindingSource::Closure, index, write: false, checked: false, keep: false },
            ),
            Instruction::GetClosureCheck(index) => Some(
                RunExit::Binding { source: BindingSource::Closure, index, write: false, checked: true, keep: false },
            ),
            Instruction::PutClosure(index) => Some(
                RunExit::Binding { source: BindingSource::Closure, index, write: true, checked: false, keep: false },
            ),
            Instruction::PutClosureCheck(index) => Some(
                RunExit::Binding { source: BindingSource::Closure, index, write: true, checked: true, keep: false },
            ),
            Instruction::SetClosure(index) => Some(
                RunExit::Binding { source: BindingSource::Closure, index, write: true, checked: false, keep: true },
            ),
            Instruction::SetClosureCheck(index) => Some(
                RunExit::Binding { source: BindingSource::Closure, index, write: true, checked: true, keep: true },
            ),
            Instruction::BindingError { index, redeclaration } => Some(
                RunExit::BindingError { index, redeclaration },
            ),
            Instruction::StrictEqual => Some(RunExit::StrictEquality(false)),
            Instruction::StrictNotEqual => Some(RunExit::StrictEquality(true)),
            Instruction::Call { arguments, method, tail } => Some(
                RunExit::Call { arguments, method, tail },
            ),
            Instruction::Construct(count) => Some(RunExit::Construct(count)),
            Instruction::Apply(kind) => Some(RunExit::Apply(kind)),
            Instruction::Eval { arguments, scope } => Some(RunExit::Eval { arguments, scope }),
            Instruction::ApplyEval(scope) => Some(RunExit::ApplyEval(scope)),
            Instruction::InitDerivedConstructor => Some(RunExit::InitDerivedConstructor),
            Instruction::GetField { index, keep_receiver } => Some(
                RunExit::GetField { index, keep_receiver },
            ),
            Instruction::GetElement { keep_receiver, keep_key } => Some(
                RunExit::GetElement { keep_receiver, keep_key },
            ),
            Instruction::SetProperty(key) => Some(RunExit::SetProperty(key)),
            Instruction::ToPropertyKey => Some(RunExit::ConvertPropertyKey),
            Instruction::Catch(target) => Some(RunExit::Catch(target)),
            Instruction::DropCatch => Some(RunExit::DropCatch),
            Instruction::NipCatch => Some(RunExit::NipCatch),
            Instruction::Throw => Some(RunExit::Throw),
            Instruction::ReturnDerived(index) => Some(RunExit::ReturnDerived(index)),
            Instruction::InitializeDerived(index) => Some(RunExit::InitializeDerived(index)),
            Instruction::InstantiateClosure(index) => Some(RunExit::InstantiateClosure(index)),
            Instruction::DefineProperty { key, method } => Some(
                RunExit::DefineProperty { key, method },
            ),
            Instruction::DefineClass { name, has_heritage } => Some(
                RunExit::DefineClass { name, has_heritage },
            ),
            Instruction::InstallClassInstanceInitializer => Some(
                RunExit::ClassInitializer(InitializerKind::Install),
            ),
            Instruction::RunClassInstanceInitializer => Some(
                RunExit::ClassInitializer(InitializerKind::Instance),
            ),
            Instruction::RunClassStaticInitializer => Some(
                RunExit::ClassInitializer(InitializerKind::Static),
            ),
            Instruction::RunClassStaticBlock => Some(
                RunExit::ClassInitializer(InitializerKind::Block),
            ),
            Instruction::HomeObject => Some(RunExit::HomeObject),
            Instruction::GetSuper => Some(RunExit::GetSuper),
            Instruction::SetName(name) => Some(RunExit::SetName(name)),
            Instruction::SetComputedName => Some(RunExit::SetComputedName),
            Instruction::Arguments { mapped } => Some(RunExit::Arguments(mapped)),
            Instruction::Rest(from) => Some(RunExit::Rest(from)),
            Instruction::GlobalReference(index) => Some(
                RunExit::Environment(Operation::GlobalReference(index)),
            ),
            Instruction::GlobalDelete(index) => Some(
                RunExit::Environment(Operation::GlobalDelete(index)),
            ),
            Instruction::GlobalGet { index, strict } => Some(
                RunExit::Environment(Operation::GlobalGet { index, strict }),
            ),
            Instruction::GlobalPut { index, name, strict, initialize } => Some(
                RunExit::Environment(
                    Operation::Put {
                        source: WriteTarget::Global { index, initialize },
                        name,
                        strict,
                        check_presence: true,
                    },
                ),
            ),
            Instruction::VariableEnvironment => Some(
                RunExit::Environment(Operation::CreateVariable),
            ),
            Instruction::CreateObject => Some(RunExit::Environment(Operation::CreateObject)),
            Instruction::CreateArray(count) => Some(
                RunExit::Environment(Operation::CreateArray(count)),
            ),
            Instruction::DefineArrayEl => Some(
                RunExit::Environment(Operation::DefineArrayElement),
            ),
            Instruction::Append => Some(RunExit::Environment(Operation::Append)),
            Instruction::ToObject => Some(RunExit::Environment(Operation::ToObject)),
            Instruction::InitializeWith(index) => Some(
                RunExit::Environment(Operation::InitializeWith(index)),
            ),
            Instruction::EnvironmentObject(source) => Some(
                RunExit::Environment(Operation::Object(source)),
            ),
            Instruction::EnvironmentHas { source, name } => Some(
                RunExit::Environment(Operation::Has { source, name }),
            ),
            Instruction::EnvironmentGet { source, name, strict } => Some(
                RunExit::Environment(Operation::Get { source, name, strict }),
            ),
            Instruction::EnvironmentPut { source, name, strict } => Some(
                RunExit::Environment(
                    Operation::Put {
                        source: WriteTarget::Dynamic(source),
                        name,
                        strict,
                        check_presence: false,
                    },
                ),
            ),
            Instruction::EnvironmentDefine { source, name } => Some(
                RunExit::Environment(Operation::Define { source, name }),
            ),
            Instruction::EnvironmentDelete { source, name } => Some(
                RunExit::Environment(Operation::Delete { source, name }),
            ),
            Instruction::GetRefValue(name) => Some(
                RunExit::Environment(Operation::ReadReference { name, strict: true }),
            ),
            Instruction::GetRefValueUndef(name) => Some(
                RunExit::Environment(Operation::ReadReference { name, strict: false }),
            ),
            Instruction::Foreign(_) => Some(RunExit::Bridge),
            _ => None,
        }
    }
}

impl Heap {
    /// Scaling a magnitude up to 53 significant bits.
    pub open spec fn scaled(magnitude: nat, exponent: nat) -> (nat, nat)
        decreases exponent,
    {
        if magnitude >= 0x10_0000_0000_0000 || magnitude == 0 || exponent == 0 {
            (magnitude, exponent)
        } else {
            Heap::scaled(2 * magnitude, (exponent - 1) as nat)
        }
    }

    /// The bit pattern of a small integer as a number.
    pub open spec fn integer_bits(n: i32) -> u64 {
        if n == 0 {
            0
        } else {
            let (fraction, exponent) = Heap::scaled(
                if n < 0 {
                    -n as nat
                } else {
                    n as nat
                },
                1075,
            );
            ((if n < 0 {
                0x8000_0000_0000_0000int
            } else {
                0
            }) + exponent * 0x10_0000_0000_0000 + (fraction - 0x10_0000_0000_0000)) as u64
        }
    }

    /// Equality of two number patterns: zeros agree, not-a-number never does.
    pub open spec fn same_number(left: u64, right: u64) -> bool {
        let magnitude = left % 0x8000_0000_0000_0000u64;
        if magnitude > 0x7ff0_0000_0000_0000u64 {
            false
        } else if magnitude == 0 {
            right % 0x8000_0000_0000_0000u64 == 0
        } else {
            left == right
        }
    }

    /// Strict equality.
    pub open spec fn strictly_equal(self, left: JsValue, right: JsValue) -> bool {
        match (left, right) {
            (JsValue::Float(a), JsValue::Float(b)) => Heap::same_number(a, b),
            (JsValue::Float(a), JsValue::Int(b)) => Heap::same_number(a, Heap::integer_bits(b)),
            (JsValue::Int(a), JsValue::Float(b)) => Heap::same_number(Heap::integer_bits(a), b),
            (JsValue::BigInt(a), JsValue::BigInt(b)) => a == b || (a < self.bigint_texts.len() && b
                < self.bigint_texts.len() && self.bigint_texts[a as int]
                == self.bigint_texts[b as int]),
            _ => left == right,
        }
    }
}

impl Runtime {
    fn scale(magnitude: u64, exponent: u64) -> (r: (u64, u64))
        requires
            magnitude < 0x20_0000_0000_0000,
        ensures
            (r.0 as nat, r.1 as nat) == Heap::scaled(magnitude as nat, exponent as nat),
            r.0 < 0x20_0000_0000_0000,
            r.1 <= exponent,
        decreases exponent,
    {
        if magnitude >= 0x10_0000_0000_0000 || magnitude == 0 || exponent == 0 {
            (magnitude, exponent)
        } else {
            Runtime::scale(2 * magnitude, exponent - 1)
        }
    }

    /// The bit pattern of a small integer as a number.
    pub fn number_bits(n: i32) -> (r: u64)
        ensures
            r == Heap::integer_bits(n),
    {
        if n == 0 {
            return 0;
        }
        let magnitude: u64 = if n < 0 {
            (-(n as i64)) as u64
        } else {
            n as u64
        };
        let (fraction, exponent) = Runtime::scale(magnitude, 1075);
        let sign: u64 = if n < 0 {
            0x8000_0000_0000_0000
        } else {
            0
        };
        proof {
            scaled_reaches(magnitude as nat, 1075);
        }
        sign + exponent * 0x10_0000_0000_0000 + (fraction - 0x10_0000_0000_0000)
    }

    fn numbers_agree(left: u64, right: u64) -> (r: bool)
        ensures
            r == Heap::same_number(left, right),
    {
        let magnitude: u64 = left % 0x8000_0000_0000_0000;
        if magnitude > 0x7ff0_0000_0000_0000 {
            false
        } else if magnitude == 0 {
            right % 0x8000_0000_0000_0000 == 0
        } else {
            left == right
        }
    }

    /// Strict equality.
    pub fn strict_equals(&self, left: JsValue, right: JsValue) -> (r: bool)
        ensures
            r == self@.strictly_equal(left, right),
    {
        match (left, right) {
            (JsValue::Float(a), JsValue::Float(b)) => Runtime::numbers_agree(a, b),
            (JsValue::Float(a), JsValue::Int(b)) => Runtime::numbers_agree(
                a,
                Runtime::number_bits(b),
            ),
            (JsValue::Int(a), JsValue::Float(b)) => Runtime::numbers_agree(
                Runtime::number_bits(a),
                b,
            ),
            (JsValue::BigInt(a), JsValue::BigInt(b)) => {
                a == b || (a < self.bigint_texts.len() && b < self.bigint_texts.len()
                    && self.bigint_texts[a] == self.bigint_texts[b])
            },
            _ => left == right,
        }
    }
}

/// `magnitude` doubled `steps` times.
spec fn doubled(magnitude: nat, steps: nat) -> nat
    decreases steps,
{
    if steps == 0 {
        magnitude
    } else {
        doubled(2 * magnitude, (steps - 1) as nat)
    }
}

proof fn doubled_grows(small: nat, large: nat, steps: nat)
    requires
        small <= large,
    ensures
        doubled(small, steps) <= doubled(large, steps),
    decreases steps,
{
    if steps > 0 {
        doubled_grows(2 * small, 2 * large, (steps - 1) as nat);
    }
}

proof fn scaled_by(magnitude: nat, exponent: nat, steps: nat)
    requires
        0 < magnitude < 0x20_0000_0000_0000,
        exponent >= steps,
        doubled(magnitude, steps) >= 0x10_0000_0000_0000,
    ensures
        0x10_0000_0000_0000 <= Heap::scaled(magnitude, exponent).0 < 0x20_0000_0000_0000,
    decreases steps,
{
    if magnitude < 0x10_0000_0000_0000 {
        scaled_by(2 * magnitude, (exponent - 1) as nat, (steps - 1) as nat);
    }
}

/// A magnitude always reaches its full width.
proof fn scaled_reaches(magnitude: nat, exponent: nat)
    requires
        0 < magnitude < 0x20_0000_0000_0000,
        exponent >= 52,
    ensures
        0x10_0000_0000_0000 <= Heap::scaled(magnitude, exponent).0 < 0x20_0000_0000_0000,
{
    assert(doubled(1, 52) == 0x10_0000_0000_0000) by {
        reveal_with_fuel(doubled, 53);
    }
    doubled_grows(1, magnitude, 52);
    scaled_by(magnitude, exponent, 52);
}

impl Machine {
    /// The state after a hot instruction: its new operands, and the position
    /// of the next instruction unless it failed.
    pub open spec fn hot(self, frame: Frame, slots: (Slots, Result<(), Error>), next: usize) -> (
        Machine,
        Result<Option<RunExit>, Error>,
    ) {
        match slots.1 {
            Ok(_) => (
                Machine {
                    frames: self.frames.stored(Frame { resume_pc: next, ..frame }),
                    slots: slots.0,
                    ..self
                },
                Ok(None),
            ),
            Err(e) => (Machine { slots: slots.0, ..self }, Err(e)),
        }
    }

    pub open spec fn leave(self, exit: RunExit) -> (Machine, Result<Option<RunExit>, Error>) {
        (self, Ok(Some(exit)))
    }

    pub open spec fn fail(self, error: Error) -> (Machine, Result<Option<RunExit>, Error>) {
        (self, Err(error))
    }

    /// Replace the top operand.
    pub open spec fn retop(slots: Slots, window: FrameWindow, value: JsValue) -> (
        Slots,
        Result<(), Error>,
    ) {
        let (popped, r) = slots.pop(window);
        match r {
            Err(e) => (popped, Err(e)),
            Ok(_) => popped.push(value),
        }
    }

    /// Replace the top two operands by one.
    pub open spec fn retop2(slots: Slots, window: FrameWindow, value: JsValue) -> (
        Slots,
        Result<(), Error>,
    ) {
        let (popped, r) = slots.discard(window, 2);
        match r {
            Err(e) => (popped, Err(e)),
            Ok(_) => popped.push(value),
        }
    }

    /// Remove `count` operands and push a list.
    pub open spec fn reshuffle(
        slots: Slots,
        window: FrameWindow,
        count: nat,
        list: Seq<JsValue>,
    ) -> (Slots, Result<(), Error>) {
        let (popped, r) = slots.discard(window, count);
        match r {
            Err(e) => (popped, Err(e)),
            Ok(_) => popped.push_all(list),
        }
    }

    /// Store the top operand in a local or a parameter, keeping it or not.
    pub open spec fn store_top(
        slots: Slots,
        window: FrameWindow,
        local: bool,
        index: u16,
        keep: bool,
    ) -> (Slots, Result<(), Error>) {
        match slots.peek(window, 0) {
            Err(e) => (slots, Err(e)),
            Ok(value) => {
                let (written, r) = if local {
                    slots.set_local(window, index, FrameBinding::Direct(value))
                } else {
                    slots.set_parameter(window, index, FrameBinding::Direct(value))
                };
                match r {
                    Err(e) => (written, Err(e)),
                    Ok(_) => if keep {
                        (written, Ok(()))
                    } else {
                        written.discard(window, 1)
                    },
                }
            },
        }
    }

    /// Reading a local: its value, its cell or its dead zone.
    pub open spec fn read_local(self, frame: Frame, next: usize, index: u16, checked: bool) -> (
        Machine,
        Result<Option<RunExit>, Error>,
    ) {
        match self.slots.local(frame.window, index) {
            Err(e) => self.fail(e),
            Ok(FrameBinding::Direct(value)) => self.hot(frame, self.slots.push(value), next),
            Ok(FrameBinding::Captured { .. }) => self.leave(
                RunExit::Binding {
                    source: BindingSource::Local,
                    index,
                    write: false,
                    checked,
                    keep: false,
                },
            ),
            Ok(FrameBinding::Uninitialized) => if checked {
                self.leave(RunExit::LexicalUninitialized(index))
            } else {
                self.fail(Error::internal("unchecked local is not initialized"))
            },
        }
    }

    /// Writing a local: in place, through its cell, or refused in its dead zone.
    pub open spec fn write_local(
        self,
        frame: Frame,
        next: usize,
        index: u16,
        checked: bool,
        keep: bool,
    ) -> (Machine, Result<Option<RunExit>, Error>) {
        match self.slots.local(frame.window, index) {
            Err(e) => self.fail(e),
            Ok(FrameBinding::Captured { .. }) => self.leave(
                RunExit::Binding { source: BindingSource::Local, index, write: true, checked, keep },
            ),
            Ok(FrameBinding::Uninitialized) => if checked {
                self.leave(RunExit::LexicalUninitialized(index))
            } else {
                self.hot(frame, Machine::store_top(self.slots, frame.window, true, index, keep), next)
            },
            Ok(FrameBinding::Direct(_)) => self.hot(
                frame,
                Machine::store_top(self.slots, frame.window, true, index, keep),
                next,
            ),
        }
    }

    pub open spec fn write_parameter(self, frame: Frame, next: usize, index: u16, keep: bool) -> (
        Machine,
        Result<Option<RunExit>, Error>,
    ) {
        match self.slots.parameter(frame.window, index) {
            Err(e) => self.fail(e),
            Ok(FrameBinding::Captured { .. }) => self.leave(
                RunExit::Binding {
                    source: BindingSource::Argument,
                    index,
                    write: true,
                    checked: false,
                    keep,
                },
            ),
            Ok(_) => self.hot(
                frame,
                Machine::store_top(self.slots, frame.window, false, index, keep),
                next,
            ),
        }
    }

    /// The receiver as the function sees it.
    pub open spec fn load_this(self, frame: Frame, next: usize, strict: bool) -> (
        Machine,
        Result<Option<RunExit>, Error>,
    ) {
        match frame.cold.normalized_this {
            Some(value) => self.hot(frame, self.slots.push(value), next),
            None => {
                let value = frame.cold.input.this_value;
                if strict || value is Object {
                    self.hot(frame, self.slots.push(value), next)
                } else if value.nullish() {
                    self.hot(
                        frame,
                        self.slots.push(JsValue::Object(frame.cold.input.callee_global)),
                        next,
                    )
                } else {
                    self.leave(RunExit::NormalizeThis)
                }
            },
        }
    }

    pub open spec fn branch(
        self,
        heap: Heap,
        frame: Frame,
        next: usize,
        target: u32,
        sense: bool,
    ) -> (Machine, Result<Option<RunExit>, Error>) {
        match self.slots.peek(frame.window, 0) {
            Err(e) => self.fail(e),
            Ok(value) => self.hot(
                frame,
                self.slots.discard(frame.window, 1),
                if heap.truthy(value) == sense {
                    target as usize
                } else {
                    next
                },
            ),
        }
    }

    /// One instruction of the current frame, whose fault position is stored.
    #[verifier::opaque]
    pub open spec fn instruction(
        self,
        heap: Heap,
        function: FunctionBytecode,
        frame: Frame,
        instruction: Instruction,
    ) -> (Machine, Result<Option<RunExit>, Error>) {
        let next = (frame.fault_pc + 1) as usize;
        let window = frame.window;
        let slots = self.slots;
        match instruction.exit_spec() {
            Some(exit) => self.leave(exit),
            None => match instruction {
                Instruction::Push(value) => self.hot(frame, slots.push(value), next),
                Instruction::Constant(index) => if index < function.constants@.len() {
                    match function.constants@[index as int] {
                        BytecodeConstant::Value(value) => self.hot(frame, slots.push(value), next),
                        _ => self.fail(Error::internal("constant is not a value")),
                    }
                } else {
                    self.fail(Error::internal("constant index is out of bounds"))
                },
                Instruction::This => self.load_this(frame, next, function.metadata.strict),
                Instruction::NewTarget => self.hot(
                    frame,
                    slots.push(frame.cold.input.new_target),
                    next,
                ),
                Instruction::ActiveFunction => self.hot(
                    frame,
                    slots.push(JsValue::Object(frame.cold.function)),
                    next,
                ),
                Instruction::GetLocal(index) => self.read_local(frame, next, index, false),
                Instruction::GetLocalCheck(index) => self.read_local(frame, next, index, true),
                Instruction::PutLocal(index) => self.write_local(frame, next, index, false, false),
                Instruction::PutLocalCheck(index) => self.write_local(
                    frame,
                    next,
                    index,
                    true,
                    false,
                ),
                Instruction::SetLocal(index) => self.write_local(frame, next, index, false, true),
                Instruction::SetLocalCheck(index) => self.write_local(
                    frame,
                    next,
                    index,
                    true,
                    true,
                ),
                Instruction::InitializeLocal(index) => self.write_local(
                    frame,
                    next,
                    index,
                    false,
                    false,
                ),
                Instruction::ResetLocal(index) => match slots.local(window, index) {
                    Err(e) => self.fail(e),
                    Ok(FrameBinding::Captured { .. }) => self.leave(RunExit::ResetCaptured(index)),
                    Ok(_) => self.hot(
                        frame,
                        slots.set_local(window, index, FrameBinding::Uninitialized),
                        next,
                    ),
                },
                Instruction::CloseLocal(index) => match slots.local(window, index) {
                    Err(e) => self.fail(e),
                    Ok(FrameBinding::Captured { .. }) => self.leave(RunExit::CloseCaptured(index)),
                    Ok(_) => self.hot(frame, (slots, Ok(())), next),
                },
                Instruction::GetArgument(index) => match slots.parameter(window, index) {
                    Err(e) => self.fail(e),
                    Ok(FrameBinding::Direct(value)) => self.hot(frame, slots.push(value), next),
                    Ok(FrameBinding::Captured { .. }) => self.leave(
                        RunExit::Binding {
                            source: BindingSource::Argument,
                            index,
                            write: false,
                            checked: false,
                            keep: false,
                        },
                    ),
                    Ok(FrameBinding::Uninitialized) => self.fail(
                        Error::internal("parameter is not initialized"),
                    ),
                },
                Instruction::PutArgument(index) => self.write_parameter(frame, next, index, false),
                Instruction::SetArgument(index) => self.write_parameter(frame, next, index, true),
                Instruction::Drop => match slots.peek(window, 0) {
                    Err(e) => self.fail(e),
                    Ok(value) => if value is Object {
                        self.leave(RunExit::ReleaseOperand { keep_top: false })
                    } else {
                        self.hot(frame, slots.discard(window, 1), next)
                    },
                },
                Instruction::Nip => match (slots.peek(window, 0), slots.peek(window, 1)) {
                    (Ok(top), Ok(below)) => if below is Object {
                        self.leave(RunExit::ReleaseOperand { keep_top: true })
                    } else {
                        self.hot(frame, Machine::retop2(slots, window, top), next)
                    },
                    (Err(e), _) => self.fail(e),
                    (_, Err(e)) => self.fail(e),
                },
                Instruction::Dup => match slots.peek(window, 0) {
                    Err(e) => self.fail(e),
                    Ok(value) => self.hot(frame, slots.push(value), next),
                },
                Instruction::Dup2 => match slots.top(window, 2) {
                    Err(e) => self.fail(e),
                    Ok(list) => self.hot(frame, slots.push_all(list), next),
                },
                Instruction::Swap => match (slots.peek(window, 0), slots.peek(window, 1)) {
                    (Ok(top), Ok(below)) => self.hot(
                        frame,
                        Machine::reshuffle(slots, window, 2, seq![top, below]),
                        next,
                    ),
                    (Err(e), _) => self.fail(e),
                    (_, Err(e)) => self.fail(e),
                },
                Instruction::Rot3 => match slots.top(window, 3) {
                    Err(e) => self.fail(e),
                    Ok(list) => self.hot(
                        frame,
                        Machine::reshuffle(slots, window, 3, seq![list[2], list[0], list[1]]),
                        next,
                    ),
                },
                Instruction::Rot4 => match slots.top(window, 4) {
                    Err(e) => self.fail(e),
                    Ok(list) => self.hot(
                        frame,
                        Machine::reshuffle(
                            slots,
                            window,
                            4,
                            seq![list[3], list[0], list[1], list[2]],
                        ),
                        next,
                    ),
                },
                Instruction::Jump(target) => self.hot(frame, (slots, Ok(())), target as usize),
                Instruction::JumpIfFalse(target) => self.branch(heap, frame, next, target, false),
                Instruction::JumpIfTrue(target) => self.branch(heap, frame, next, target, true),
                Instruction::Not => match slots.peek(window, 0) {
                    Err(e) => self.fail(e),
                    Ok(value) => self.hot(
                        frame,
                        Machine::retop(slots, window, JsValue::Bool(!heap.truthy(value))),
                        next,
                    ),
                },
                Instruction::Add => match (slots.peek(window, 1), slots.peek(window, 0)) {
                    (Ok(JsValue::Int(a)), Ok(JsValue::Int(b))) => match Heap::fitted(a + b) {
                        NumericOutcome::Value(sum) => self.hot(
                            frame,
                            Machine::retop2(slots, window, sum),
                            next,
                        ),
                        NumericOutcome::Embedder => self.leave(RunExit::ConvertAdd),
                    },
                    (Err(e), _) => self.fail(e),
                    (_, Err(e)) => self.fail(e),
                    _ => self.leave(RunExit::ConvertAdd),
                },
                Instruction::Plus => match slots.peek(window, 0) {
                    Err(e) => self.fail(e),
                    Ok(JsValue::Int(_)) => self.hot(frame, (slots, Ok(())), next),
                    Ok(_) => self.leave(RunExit::ConvertPlus),
                },
                Instruction::Numeric(kind) => self.numeric_instruction(frame, next, kind),
                Instruction::Return => match slots.peek(window, 0) {
                    Err(e) => self.fail(e),
                    Ok(value) => (
                        Machine {
                            slots: slots.pop(window).0,
                            pending: Some(value),
                            ..self
                        },
                        Ok(Some(RunExit::Complete)),
                    ),
                },
                Instruction::ReturnUndefined => (
                    Machine { pending: Some(JsValue::Undefined), ..self },
                    Ok(Some(RunExit::Complete)),
                ),
                Instruction::PutRefValue(name) => self.leave(
                    RunExit::Environment(
                        Operation::Put {
                            source: WriteTarget::Reference,
                            name,
                            strict: function.metadata.strict,
                            check_presence: true,
                        },
                    ),
                ),
                _ => self.fail(Error::internal("instruction has no resident form")),
            },
        }
    }

    /// Operators on two small integers stay in the loop.
    pub open spec fn numeric_instruction(self, frame: Frame, next: usize, kind: NumericKind) -> (
        Machine,
        Result<Option<RunExit>, Error>,
    ) {
        let window = frame.window;
        if kind.is_unary() {
            match self.slots.peek(window, 0) {
                Err(e) => self.fail(e),
                Ok(JsValue::Int(a)) => match Heap::numeric(kind, JsValue::Int(a), JsValue::Null) {
                    Ok(NumericOutcome::Value(value)) => self.hot(
                        frame,
                        Machine::retop(self.slots, window, value),
                        next,
                    ),
                    _ => self.leave(RunExit::Numeric(kind)),
                },
                Ok(_) => self.leave(RunExit::Numeric(kind)),
            }
        } else {
            match (self.slots.peek(window, 1), self.slots.peek(window, 0)) {
                (Ok(JsValue::Int(a)), Ok(JsValue::Int(b))) => match Heap::numeric(
                    kind,
                    JsValue::Int(a),
                    JsValue::Int(b),
                ) {
                    Ok(NumericOutcome::Value(value)) => self.hot(
                        frame,
                        Machine::retop2(self.slots, window, value),
                        next,
                    ),
                    _ => self.leave(RunExit::Numeric(kind)),
                },
                (Err(e), _) => self.fail(e),
                (_, Err(e)) => self.fail(e),
                _ => self.leave(RunExit::Numeric(kind)),
            }
        }
    }

    /// The loop: at most `fuel` instructions of the current frame.
    pub open spec fn run(self, heap: Heap, id: FrameId, fuel: nat) -> (
        Machine,
        nat,
        Result<RunExit, Error>,
    )
        decreases fuel,
    {
        if fuel == 0 {
            (self, 0, Ok(RunExit::Interrupted))
        } else {
            match self.frames.current(id) {
                Err(e) => (self, fuel, Err(e)),
                Ok(frame) => match heap.function_at(frame.executable) {
                    Err(e) => (self, fuel, Err(e)),
                    Ok(function) => if frame.resume_pc >= function.code@.len() {
                        (self, fuel, Err(Error::internal("bytecode position is out of bounds")))
                    } else {
                        let at = Frame { fault_pc: frame.resume_pc, ..frame };
                        let entered = Machine { frames: self.frames.stored(at), ..self };
                        let (after, r) = entered.instruction(
                            heap,
                            function,
                            at,
                            function.code@[frame.resume_pc as int],
                        );
                        match r {
                            Err(e) => (after, (fuel - 1) as nat, Err(e)),
                            Ok(Some(exit)) => (after, (fuel - 1) as nat, Ok(exit)),
                            Ok(None) => after.run(heap, id, (fuel - 1) as nat),
                        }
                    },
                },
            }
        }
    }
}

impl RunningExecution {
    fn advance(&mut self, frame: Frame, next: usize)
        requires
            old(self)@.frames.frames.len() > 0,
        ensures
            final(self)@ == (Machine {
                frames: old(self)@.frames.stored(Frame { resume_pc: next, ..frame }),
                ..old(self)@
            }),
    {
        let mut frame = frame;
        frame.resume_pc = next;
        self.frames.store(frame);
    }

    fn store_top(&mut self, window: FrameWindow, local: bool, index: u16, keep: bool) -> (r: Result<
        (),
        Error,
    >)
        ensures
            final(self)@ == (Machine { slots: final(self)@.slots, ..old(self)@ }),
            (final(self)@.slots, r) == Machine::store_top(
                old(self)@.slots,
                window,
                local,
                index,
                keep,
            ),
    {
        let value = self.slots.peek(window, 0)?;
        if local {
            self.slots.set_local(window, index, FrameBinding::Direct(value))?;
        } else {
            self.slots.set_parameter(window, index, FrameBinding::Direct(value))?;
        }
        if keep {
            Ok(())
        } else {
            self.slots.discard(window, 1)
        }
    }

    fn read_local(&mut self, frame: Frame, next: usize, index: u16, checked: bool) -> (r: Result<
        Option<RunExit>,
        Error,
    >)
        requires
            old(self)@.frames.frames.len() > 0,
        ensures
            (final(self)@, r) == old(self)@.read_local(frame, next, index, checked),
    {
        match self.slots.local(frame.window, index)? {
            FrameBinding::Direct(value) => {
                self.slots.push(value)?;
                self.advance(frame, next);
                Ok(None)
            },
            FrameBinding::Captured { .. } => Ok(
                Some(
                    RunExit::Binding {
                        source: BindingSource::Local,
                        index,
                        write: false,
                        checked,
                        keep: false,
                    },
                ),
            ),
            FrameBinding::Uninitialized => {
                if checked {
                    Ok(Some(RunExit::LexicalUninitialized(index)))
                } else {
                    Err(Error::internal("unchecked local is not initialized"))
                }
            },
        }
    }

    fn write_local(&mut self, frame: Frame, next: usize, index: u16, checked: bool, keep: bool)
        -> (r: Result<Option<RunExit>, Error>)
        requires
            old(self)@.frames.frames.len() > 0,
        ensures
            (final(self)@, r) == old(self)@.write_local(frame, next, index, checked, keep),
    {
        match self.slots.local(frame.window, index)? {
            FrameBinding::Captured { .. } => {
                return Ok(
                    Some(
                        RunExit::Binding {
                            source: BindingSource::Local,
                            index,
                            write: true,
                            checked,
                            keep,
                        },
                    ),
                );
            },
            FrameBinding::Uninitialized => {
                if checked {
                    return Ok(Some(RunExit::LexicalUninitialized(index)));
                }
            },
            FrameBinding::Direct(_) => {},
        }
        self.store_top(frame.window, true, index, keep)?;
        self.advance(frame, next);
        Ok(None)
    }

    fn write_parameter(&mut self, frame: Frame, next: usize, index: u16, keep: bool) -> (r: Result<
        Option<RunExit>,
        Error,
    >)
        requires
            old(self)@.frames.frames.len() > 0,
        ensures
            (final(self)@, r) == old(self)@.write_parameter(frame, next, index, keep),
    {
        match self.slots.parameter(frame.window, index)? {
            FrameBinding::Captured { .. } => {
                return Ok(
                    Some(
                        RunExit::Binding {
                            source: BindingSource::Argument,
                            index,
                            write: true,
                            checked: false,
                            keep,
                        },
                    ),
                );
            },
            _ => {},
        }
        self.store_top(frame.window, false, index, keep)?;
        self.advance(frame, next);
        Ok(None)
    }

    fn load_this(&mut self, frame: Frame, next: usize, strict: bool) -> (r: Result<
        Option<RunExit>,
        Error,
    >)
        requires
            old(self)@.frames.frames.len() > 0,
        ensures
            (final(self)@, r) == old(self)@.load_this(frame, next, strict),
    {
        let value = match frame.cold.normalized_this {
            Some(value) => value,
            None => {
                let value = frame.cold.input.this_value;
                if strict || value.is_object() {
                    value
                } else if value.nullish() {
                    JsValue::Object(frame.cold.input.callee_global)
                } else {
                    return Ok(Some(RunExit::NormalizeThis));
                }
            },
        };
        self.slots.push(value)?;
        self.advance(frame, next);
        Ok(None)
    }

    fn branch(
        &mut self,
        runtime: &Runtime,
        frame: Frame,
        next: usize,
        target: u32,
        sense: bool,
    ) -> (r: Result<Option<RunExit>, Error>)
        requires
            old(self)@.frames.frames.len() > 0,
        ensures
            (final(self)@, r) == old(self)@.branch(runtime@, frame, next, target, sense),
    {
        let value = self.slots.peek(frame.window, 0)?;
        let taken = runtime.value_to_boolean(value) == sense;
        self.slots.discard(frame.window, 1)?;
        self.advance(
            frame,
            if taken {
                target as usize
            } else {
                next
            },
        );
        Ok(None)
    }

    fn numeric_instruction(&mut self, frame: Frame, next: usize, kind: NumericKind) -> (r: Result<
        Option<RunExit>,
        Error,
    >)
        requires
            old(self)@.frames.frames.len() > 0,
        ensures
            (final(self)@, r) == old(self)@.numeric_instruction(frame, next, kind),
    {
        let window = frame.window;
        if kind.unary() {
            match self.slots.peek(window, 0)? {
                JsValue::Int(a) => match Runtime::numeric_primitives(
                    kind,
                    JsValue::Int(a),
                    JsValue::Null,
                ) {
                    Ok(NumericOutcome::Value(value)) => {
                        let _ = self.slots.pop(window)?;
                        self.slots.push(value)?;
                        self.advance(frame, next);
                        Ok(None)
                    },
                    _ => Ok(Some(RunExit::Numeric(kind))),
                },
                _ => Ok(Some(RunExit::Numeric(kind))),
            }
        } else {
            let left = self.slots.peek(window, 1)?;
            let right = self.slots.peek(window, 0)?;
            match (left, right) {
                (JsValue::Int(a), JsValue::Int(b)) => match Runtime::numeric_primitives(
                    kind,
                    JsValue::Int(a),
                    JsValue::Int(b),
                ) {
                    Ok(NumericOutcome::Value(value)) => {
                        self.slots.discard(window, 2)?;
                        self.slots.push(value)?;
                        self.advance(frame, next);
                        Ok(None)
                    },
                    _ => Ok(Some(RunExit::Numeric(kind))),
                },
                _ => Ok(Some(RunExit::Numeric(kind))),
            }
        }
    }

    /// Operand shuffles.
    fn shuffle(&mut self, window: FrameWindow, count: usize, list: Vec<JsValue>) -> (r: Result<
        (),
        Error,
    >)
        ensures
            final(self)@ == (Machine { slots: final(self)@.slots, ..old(self)@ }),
            (final(self)@.slots, r) == Machine::reshuffle(
                old(self)@.slots,
                window,
                count as nat,
                list@,
            ),
    {
        self.slots.discard(window, count)?;
        self.slots.push_all(&list)
    }

    /// One instruction of the current frame.
    #[verifier::rlimit(60)]
    fn instruction(
        &mut self,
        runtime: &Runtime,
        function: &FunctionBytecode,
        frame: Frame,
        instruction: Instruction,
    ) -> (r: Result<Option<RunExit>, Error>)
        requires
            old(self)@.frames.frames.len() > 0,
            frame.fault_pc < usize::MAX,
        ensures
            (final(self)@, r) == old(self)@.instruction(runtime@, *function, frame, instruction),
    {
        proof {
            reveal(Machine::instruction);
        }
        match instruction.exit() {
            Some(exit) => {
                return Ok(Some(exit));
            },
            None => {},
        }
        let next: usize = frame.fault_pc + 1;
        let window = frame.window;
        match instruction {
            Instruction::Push(value) => {
                self.slots.push(value)?;
                self.advance(frame, next);
                Ok(None)
            },
            Instruction::Constant(index) => {
                if (index as usize) < function.constants.len() {
                    match function.constants[index as usize] {
                        BytecodeConstant::Value(value) => {
                            self.slots.push(value)?;
                            self.advance(frame, next);
                            Ok(None)
                        },
                        _ => Err(Error::internal("constant is not a value")),
                    }
                } else {
                    Err(Error::internal("constant index is out of bounds"))
                }
            },
            Instruction::This => self.load_this(frame, next, function.metadata.strict),
            Instruction::NewTarget => {
                self.slots.push(frame.cold.input.new_target)?;
                self.advance(frame, next);
                Ok(None)
            },
            Instruction::ActiveFunction => {
                self.slots.push(JsValue::Object(frame.cold.function))?;
                self.advance(frame, next);
                Ok(None)
            },
            Instruction::GetLocal(index) => self.read_local(frame, next, index, false),
            Instruction::GetLocalCheck(index) => self.read_local(frame, next, index, true),
            Instruction::PutLocal(index) => self.write_local(frame, next, index, false, false),
            Instruction::PutLocalCheck(index) => self.write_local(frame, next, index, true, false),
            Instruction::SetLocal(index) => self.write_local(frame, next, index, false, true),
            Instruction::SetLocalCheck(index) => self.write_local(frame, next, index, true, true),
            Instruction::InitializeLocal(index) => self.write_local(
                frame,
                next,
                index,
                false,
                false,
            ),
            Instruction::ResetLocal(index) => {
                match self.slots.local(window, index)? {
                    FrameBinding::Captured { .. } => {
                        return Ok(Some(RunExit::ResetCaptured(index)));
                    },
                    _ => {},
                }
                self.slots.set_local(window, index, FrameBinding::Uninitialized)?;
                self.advance(frame, next);
                Ok(None)
            },
            Instruction::CloseLocal(index) => {
                match self.slots.local(window, index)? {
                    FrameBinding::Captured { .. } => {
                        return Ok(Some(RunExit::CloseCaptured(index)));
                    },
                    _ => {},
                }
                self.advance(frame, next);
                Ok(None)
            },
            Instruction::GetArgument(index) => match self.slots.parameter(window, index)? {
                FrameBinding::Direct(value) => {
                    self.slots.push(value)?;
                    self.advance(frame, next);
                    Ok(None)
                },
                FrameBinding::Captured { .. } => Ok(
                    Some(
                        RunExit::Binding {
                            source: BindingSource::Argument,
                            index,
                            write: false,
                            checked: false,
                            keep: false,
                        },
                    ),
                ),
                FrameBinding::Uninitialized => Err(
                    Error::internal("parameter is not initialized"),
                ),
            },
            Instruction::PutArgument(index) => self.write_parameter(frame, next, index, false),
            Instruction::SetArgument(index) => self.write_parameter(frame, next, index, true),
            Instruction::Drop => {
                let value = self.slots.peek(window, 0)?;
                if value.is_object() {
                    return Ok(Some(RunExit::ReleaseOperand { keep_top: false }));
                }
                self.slots.discard(window, 1)?;
                self.advance(frame, next);
                Ok(None)
            },
            Instruction::Nip => {
                let top = self.slots.peek(window, 0)?;
                let below = self.slots.peek(window, 1)?;
                if below.is_object() {
                    return Ok(Some(RunExit::ReleaseOperand { keep_top: true }));
                }
                self.slots.discard(window, 2)?;
                self.slots.push(top)?;
                self.advance(frame, next);
                Ok(None)
            },
            Instruction::Dup => {
                let value = self.slots.peek(window, 0)?;
                self.slots.push(value)?;
                self.advance(frame, next);
                Ok(None)
            },
            Instruction::Dup2 => {
                let list = self.slots.top(window, 2)?;
                self.slots.push_all(&list)?;
                self.advance(frame, next);
                Ok(None)
            },
            Instruction::Swap => {
                let top = self.slots.peek(window, 0)?;
                let below = self.slots.peek(window, 1)?;
                let list: Vec<JsValue> = vec![top, below];
                assert(list@ =~= seq![top, below]);
                self.shuffle(window, 2, list)?;
                self.advance(frame, next);
                Ok(None)
            },
            Instruction::Rot3 => {
                let list = self.slots.top(window, 3)?;
                proof {
                    crate::slots::top_is_whole(self@.slots, window, 3);
                }
                let turned: Vec<JsValue> = vec![list[2], list[0], list[1]];
                assert(turned@ =~= seq![list@[2], list@[0], list@[1]]);
                self.shuffle(window, 3, turned)?;
                self.advance(frame, next);
                Ok(None)
            },
            Instruction::Rot4 => {
                let list = self.slots.top(window, 4)?;
                proof {
                    crate::slots::top_is_whole(self@.slots, window, 4);
                }
                let turned: Vec<JsValue> = vec![list[3], list[0], list[1], list[2]];
                assert(turned@ =~= seq![list@[3], list@[0], list@[1], list@[2]]);
                self.shuffle(window, 4, turned)?;
                self.advance(frame, next);
                Ok(None)
            },
            Instruction::Jump(target) => {
                self.advance(frame, target as usize);
                Ok(None)
            },
            Instruction::JumpIfFalse(target) => self.branch(runtime, frame, next, target, false),
            Instruction::JumpIfTrue(target) => self.branch(runtime, frame, next, target, true),
            Instruction::Not => {
                let value = self.slots.peek(window, 0)?;
                let flipped = !runtime.value_to_boolean(value);
                let _ = self.slots.pop(window)?;
                self.slots.push(JsValue::Bool(flipped))?;
                self.advance(frame, next);
                Ok(None)
            },
            Instruction::Add => {
                let left = self.slots.peek(window, 1)?;
                let right = self.slots.peek(window, 0)?;
                match (left, right) {
                    (JsValue::Int(a), JsValue::Int(b)) => {
                        let sum: i64 = a as i64 + b as i64;
                        if -0x8000_0000 <= sum && sum <= 0x7fff_ffff {
                            self.slots.discard(window, 2)?;
                            self.slots.push(JsValue::Int(sum as i32))?;
                            self.advance(frame, next);
                            Ok(None)
                        } else {
                            Ok(Some(RunExit::ConvertAdd))
                        }
                    },
                    _ => Ok(Some(RunExit::ConvertAdd)),
                }
            },
            Instruction::Plus => match self.slots.peek(window, 0)? {
                JsValue::Int(_) => {
                    self.advance(frame, next);
                    Ok(None)
                },
                _ => Ok(Some(RunExit::ConvertPlus)),
            },
            Instruction::Numeric(kind) => self.numeric_instruction(frame, next, kind),
            Instruction::Return => {
                let value = self.slots.pop(window)?;
                self.pending = Some(value);
                Ok(Some(RunExit::Complete))
            },
            Instruction::ReturnUndefined => {
                self.pending = Some(JsValue::Undefined);
                Ok(Some(RunExit::Complete))
            },
            Instruction::PutRefValue(name) => Ok(
                Some(
                    RunExit::Environment(
                        Operation::Put {
                            source: WriteTarget::Reference,
                            name,
                            strict: function.metadata.strict,
                            check_presence: true,
                        },
                    ),
                ),
            ),
            _ => Err(Error::internal("instruction has no resident form")),
        }
    }
}

/// Run the current frame until an instruction leaves the loop.  Each
/// instruction takes one unit of `fuel`.
pub fn run(
    runtime: &Runtime,
    execution: &mut RunningExecution,
    id: FrameId,
    fuel: &mut u64,
) -> (r: Result<RunExit, Error>)
    ensures
        (final(execution)@, *final(fuel) as nat, r) == old(execution)@.run(
            runtime@,
            id,
            *old(fuel) as nat,
        ),
        *final(fuel) <= *old(fuel),
{
    loop
        invariant
            execution@.run(runtime@, id, *fuel as nat) == old(execution)@.run(
                runtime@,
                id,
                *old(fuel) as nat,
            ),
            *fuel <= *old(fuel),
        decreases *fuel,
    {
        if *fuel == 0 {
            return Ok(RunExit::Interrupted);
        }
        let mut frame = execution.frames.current(id)?;
        let function = runtime.function_bytecode(frame.executable)?;
        let pc: usize = frame.resume_pc;
        if pc >= function.code.len() {
            return Err(Error::internal("bytecode position is out of bounds"));
        }
        *fuel = *fuel - 1;
        frame.fault_pc = pc;
        execution.frames.store(frame);
        match execution.instruction(runtime, function, frame, function.code[pc])? {
            Some(exit) => {
                return Ok(exit);
            },
            None => {},
        }
    }
}

impl Machine {
    /// Comparing the top two operands.
    pub open spec fn compared(self, heap: Heap, id: FrameId, negate: bool) -> (
        Machine,
        Result<(), Error>,
    ) {
        match self.frames.current(id) {
            Err(e) => (self, Err(e)),
            Ok(frame) => match (self.slots.peek(frame.window, 1), self.slots.peek(frame.window, 0)) {
                (Err(e), _) => (self, Err(e)),
                (_, Err(e)) => (self, Err(e)),
                (Ok(left), Ok(right)) => {
                    let (slots, r) = Machine::retop2(
                        self.slots,
                        frame.window,
                        JsValue::Bool(heap.strictly_equal(left, right) != negate),
                    );
                    match r {
                        Err(e) => (Machine { slots, ..self }, Err(e)),
                        Ok(_) => if frame.fault_pc == usize::MAX {
                            (
                                Machine { slots, ..self },
                                Err(Error::internal("comparison resume PC overflow")),
                            )
                        } else {
                            (
                                Machine {
                                    slots,
                                    frames: self.frames.stored(
                                        Frame { resume_pc: (frame.fault_pc + 1) as usize, ..frame },
                                    ),
                                    ..self
                                },
                                Ok(()),
                            )
                        },
                    }
                },
            },
        }
    }
}

/// Replace the top two operands by the result of their strict comparison.
pub fn strict_comparison(
    runtime: &Runtime,
    execution: &mut RunningExecution,
    id: FrameId,
    negate: bool,
) -> (r: Result<(), Error>)
    ensures
        (final(execution)@, r) == old(execution)@.compared(runtime@, id, negate),
{
    let frame = execution.frames.current(id)?;
    let left = execution.slots.peek(frame.window, 1)?;
    let right = execution.slots.peek(frame.window, 0)?;
    let equal = runtime.strict_equals(left, right);
    execution.slots.discard(frame.window, 2)?;
    execution.slots.push(JsValue::Bool(equal != negate))?;
    if frame.fault_pc == usize::MAX {
        return Err(Error::internal("comparison resume PC overflow"));
    }
    execution.advance(frame, frame.fault_pc + 1);
    Ok(())
}

/// Running goes on behind a hot instruction.
pub proof fn hot_instructions_run_on(
    machine: Machine,
    heap: Heap,
    id: FrameId,
    frame: Frame,
    function: FunctionBytecode,
    after: Machine,
    fuel: nat,
)
    requires
        machine.frames.current(id) == Ok::<Frame, Error>(frame),
        heap.function_at(frame.executable) == Ok::<FunctionBytecode, Error>(function),
        frame.resume_pc < function.code@.len(),
        ({
            let at = Frame { fault_pc: frame.resume_pc, ..frame };
            (Machine { frames: machine.frames.stored(at), ..machine }).instruction(
                heap,
                function,
                at,
                function.code@[frame.resume_pc as int],
            ) == (after, Ok::<Option<RunExit>, Error>(None))
        }),
    ensures
        machine.run(heap, id, fuel + 1) == after.run(heap, id, fuel),
{
}

impl Heap {
    /// Whether a bit pattern is the number `n`: a sign bit, eleven bits of
    /// exponent with the bias 1023, and 52 bits below a leading one.
    pub open spec fn pattern_is_integer(bits: u64, n: int) -> bool {
        let negative = bits / 0x8000_0000_0000_0000 == 1;
        let exponent = bits / 0x10_0000_0000_0000 % 0x800;
        let fraction = bits % 0x10_0000_0000_0000;
        if n == 0 {
            exponent == 0 && fraction == 0
        } else {
            &&& 0 < exponent <= 1075
            &&& negative <==> n < 0
            &&& 0x10_0000_0000_0000 + fraction == (if n < 0 {
                -n
            } else {
                n
            }) * vstd::arithmetic::power2::pow2((1075 - exponent) as nat)
        }
    }

    /// Whether a bit pattern is no number at all.
    pub open spec fn pattern_is_no_number(bits: u64) -> bool {
        bits / 0x10_0000_0000_0000 % 0x800 == 0x7ff && bits % 0x10_0000_0000_0000 != 0
    }
}

proof fn scaling_multiplies(magnitude: nat, exponent: nat)
    requires
        magnitude > 0,
    ensures
        Heap::scaled(magnitude, exponent).1 <= exponent,
        Heap::scaled(magnitude, exponent).0 == magnitude * vstd::arithmetic::power2::pow2(
            (exponent - Heap::scaled(magnitude, exponent).1) as nat,
        ),
    decreases exponent,
{
    if magnitude >= 0x10_0000_0000_0000 || exponent == 0 {
        assert(vstd::arithmetic::power2::pow2(0) == 1) by {
            vstd::arithmetic::power2::lemma2_to64();
        }
        assert(magnitude * 1 == magnitude);
    } else {
        scaling_multiplies(2 * magnitude, (exponent - 1) as nat);
        let steps = (exponent - Heap::scaled(magnitude, exponent).1) as nat;
        vstd::arithmetic::power2::lemma_pow2_unfold(steps);
        let half = vstd::arithmetic::power2::pow2((steps - 1) as nat);
        assert((2 * magnitude) * half == magnitude * (2 * half)) by (nonlinear_arith);
    }
}

proof fn integer_patterns_are_their_integers(n: i32)
    requires
        n != 0,
    ensures
        Heap::pattern_is_integer(Heap::integer_bits(n), n as int),
        Heap::integer_bits(n) % 0x8000_0000_0000_0000 != 0,
        Heap::integer_bits(n) % 0x8000_0000_0000_0000 <= 0x7ff0_0000_0000_0000,
{
    let magnitude = (if n < 0 {
        -n
    } else {
        n as int
    }) as nat;
    let (fraction, exponent) = Heap::scaled(magnitude, 1075);
    scaled_reaches(magnitude, 1075);
    scaling_multiplies(magnitude, 1075);
    let steps = (1075 - exponent) as nat;
    if steps >= 53 {
        vstd::arithmetic::power2::lemma2_to64_rest();
        if steps > 53 {
            vstd::arithmetic::power2::lemma_pow2_strictly_increases(53, steps);
        }
        assert(magnitude * vstd::arithmetic::power2::pow2(steps) >= vstd::arithmetic::power2::pow2(steps)) by (nonlinear_arith)
            requires
                magnitude >= 1,
                vstd::arithmetic::power2::pow2(steps) >= 0,
        ;
        assert(false);
    }
    let sign: int = if n < 0 {
        0x8000_0000_0000_0000
    } else {
        0
    };
    let bits = Heap::integer_bits(n);
    let low = fraction - 0x10_0000_0000_0000;
    assert(bits == sign + exponent * 0x10_0000_0000_0000 + low);
    assert(bits / 0x8000_0000_0000_0000 == sign / 0x8000_0000_0000_0000);
    assert(bits / 0x10_0000_0000_0000 == sign / 0x10_0000_0000_0000 + exponent);
    assert(bits % 0x10_0000_0000_0000 == low);
}

proof fn integers_have_one_pattern(n: i32, bits: u64)
    requires
        n != 0,
        Heap::pattern_is_integer(bits, n as int),
    ensures
        bits == Heap::integer_bits(n),
{
    integer_patterns_are_their_integers(n);
    let own = Heap::integer_bits(n);
    let magnitude = if n < 0 {
        -n
    } else {
        n as int
    };
    let e = bits / 0x10_0000_0000_0000 % 0x800;
    let x = own / 0x10_0000_0000_0000 % 0x800;
    if e < x {
        patterns_of_one_exponent(magnitude, (1075 - x) as nat, (1075 - e) as nat);
    }
    if x < e {
        patterns_of_one_exponent(magnitude, (1075 - e) as nat, (1075 - x) as nat);
    }
}

proof fn patterns_of_one_exponent(magnitude: int, less: nat, more: nat)
    requires
        magnitude > 0,
        less < more,
        magnitude * vstd::arithmetic::power2::pow2(less) >= 0x10_0000_0000_0000,
    ensures
        magnitude * vstd::arithmetic::power2::pow2(more) >= 0x20_0000_0000_0000,
{
    vstd::arithmetic::power2::lemma_pow2_unfold((less + 1) as nat);
    if less + 1 < more {
        vstd::arithmetic::power2::lemma_pow2_strictly_increases((less + 1) as nat, more);
    }
    let a = vstd::arithmetic::power2::pow2(less) as int;
    let b = vstd::arithmetic::power2::pow2(more) as int;
    assert(magnitude * b >= 2 * (magnitude * a)) by (nonlinear_arith)
        requires
            magnitude > 0,
            b >= 2 * a,
    ;
}

/// Strict equality is symmetric, and every value but a pattern that is no
/// number equals itself.
pub proof fn strict_equality_is_symmetric(heap: Heap, left: JsValue, right: JsValue)
    ensures
        heap.strictly_equal(left, right) == heap.strictly_equal(right, left),
        heap.strictly_equal(left, left) <==> !(left matches JsValue::Float(bits)
            && Heap::pattern_is_no_number(bits)),
{
    if let JsValue::Float(bits) = left {
        if let JsValue::Int(n) = right {
            if n != 0 {
                integer_patterns_are_their_integers(n);
            }
        }
    }
    if let JsValue::Int(n) = left {
        if n != 0 {
            integer_patterns_are_their_integers(n);
        }
    }
}

/// Numbers are strictly equal where they are the same number, however they are
/// stored: a small integer equals the pattern of that integer and no other, and
/// the two zeros are one number.
pub proof fn equal_numbers_are_strictly_equal(heap: Heap, n: i32, m: i32, bits: u64, other: u64)
    ensures
        heap.strictly_equal(JsValue::Int(n), JsValue::Int(m)) <==> n - m == 0,
        heap.strictly_equal(JsValue::Int(n), JsValue::Float(bits)) <==> Heap::pattern_is_integer(
            bits,
            n as int,
        ),
        heap.strictly_equal(JsValue::Float(bits), JsValue::Int(n)) <==> Heap::pattern_is_integer(
            bits,
            n as int,
        ),
        heap.strictly_equal(JsValue::Float(bits), JsValue::Float(other)) <==> {
            &&& !Heap::pattern_is_no_number(bits)
            &&& !Heap::pattern_is_no_number(other)
            &&& bits == other || (Heap::pattern_is_integer(bits, 0) && Heap::pattern_is_integer(
                other,
                0,
            ))
        },
{
    if n != 0 {
        integer_patterns_are_their_integers(n);
        if Heap::pattern_is_integer(bits, n as int) {
            integers_have_one_pattern(n, bits);
        }
    }
}

/// Values of different types are never strictly equal, texts and symbols are
/// where they are the same ones, and an object equals itself alone.
pub proof fn strict_equality_tells_types_and_texts_apart(
    heap: Heap,
    left: JsValue,
    right: JsValue,
    a: usize,
    b: usize,
)
    requires
        forall|i: int, j: int| 0 <= i < j < heap.texts.len() ==> heap.texts[i] != heap.texts[j],
        a < heap.texts.len(),
        b < heap.texts.len(),
    ensures
        heap.strictly_equal(JsValue::String(a), JsValue::String(b)) <==> heap.texts[a as int]
            == heap.texts[b as int],
        heap.strictly_equal(JsValue::Bool(true), JsValue::Bool(false)) == false,
        (left is Undefined) != (right is Undefined) || (left is Null) != (right is Null) || (
        left is Bool) != (right is Bool) || (left is String) != (right is String) || (
        left is BigInt) != (right is BigInt) || (left is Symbol) != (right is Symbol) || (
        left is Object) != (right is Object) ==> !heap.strictly_equal(left, right),
        left is Object || left is Symbol || left is Bool || left is Undefined || left is Null ==> (
        heap.strictly_equal(left, right) <==> left == right),
        a < heap.bigint_texts.len() && b < heap.bigint_texts.len() ==> (heap.strictly_equal(
            JsValue::BigInt(a),
            JsValue::BigInt(b),
        ) <==> heap.bigint_texts[a as int] == heap.bigint_texts[b as int]),
{
    if a < b {
        assert(heap.texts[a as int] != heap.texts[b as int]);
    }
    if b < a {
        assert(heap.texts[b as int] != heap.texts[a as int]);
    }
}

/// The comparison of the top two operands is their strict equality or its
/// opposite, takes their place, and the frame goes on behind it.
pub proof fn comparisons_replace_their_operands(
    machine: Machine,
    heap: Heap,
    id: FrameId,
    frame: Frame,
    left: JsValue,
    right: JsValue,
    negate: bool,
)
    requires
        machine.frames.current(id) == Ok::<Frame, Error>(frame),
        frame.fault_pc < usize::MAX,
        machine.slots.peek(frame.window, 1) == Ok::<JsValue, Error>(left),
        machine.slots.peek(frame.window, 0) == Ok::<JsValue, Error>(right),
        machine.slots.values.len() <= machine.slots.limit,
    ensures
        ({
            let (after, r) = machine.compared(heap, id, negate);
            &&& r is Ok
            &&& after.slots.values == machine.slots.values.take(
                machine.slots.values.len() - 2,
            ).push(
                FrameBinding::Direct(
                    JsValue::Bool(
                        if negate {
                            !heap.strictly_equal(left, right)
                        } else {
                            heap.strictly_equal(left, right)
                        },
                    ),
                ),
            )
            &&& after.frames.current(id) == Ok::<Frame, Error>(
                Frame { resume_pc: (frame.fault_pc + 1) as usize, ..frame },
            )
        }),
        (Instruction::StrictEqual).exit_spec() == Some(RunExit::StrictEquality(false)),
        (Instruction::StrictNotEqual).exit_spec() == Some(RunExit::StrictEquality(true)),
{
    two_operands_can_go(machine.slots, frame.window);
}

proof fn two_operands_can_go(slots: Slots, window: FrameWindow)
    requires
        slots.peek(window, 0) is Ok,
        slots.peek(window, 1) is Ok,
    ensures
        slots.discard(window, 2) == (
            Slots { values: slots.values.take(slots.values.len() - 2), ..slots },
            Ok::<(), Error>(()),
        ),
        slots.discard(window, 1) == (
            Slots { values: slots.values.take(slots.values.len() - 1), ..slots },
            Ok::<(), Error>(()),
        ),
{
    reveal_with_fuel(Slots::discard, 3);
    let one = slots.pop(window).0;
    assert(one.peek(window, 0) == slots.peek(window, 1));
    assert(one.values.drop_last() =~= slots.values.take(slots.values.len() - 2));
    assert(one.values =~= slots.values.take(slots.values.len() - 1));
}

impl Machine {
    /// The instruction at a position was completed: the frame goes on at `next`
    /// and nothing but its operands changed.
    pub open spec fn went_on(
        self,
        id: FrameId,
        frame: Frame,
        next: int,
        step: (Machine, Result<Option<RunExit>, Error>),
    ) -> bool {
        &&& step.1 == Ok::<Option<RunExit>, Error>(None)
        &&& step.0.frames.current(id) == Ok::<Frame, Error>(
            Frame { resume_pc: next as usize, ..frame },
        )
        &&& step.0.regions == self.regions
        &&& step.0.pending == self.pending
        &&& step.0.pending_call == self.pending_call
    }
}

/// What the instructions that move operands leave: copies on top of what they
/// copied, exchanged operands exchanged, the top below the next two or three.
#[verifier::rlimit(80)]
#[verifier::spinoff_prover]
pub proof fn operand_moves_lose_nothing(
    machine: Machine,
    heap: Heap,
    function: FunctionBytecode,
    id: FrameId,
    frame: Frame,
    d: JsValue,
    c: JsValue,
    b: JsValue,
    a: JsValue,
)
    requires
        machine.frames.current(id) == Ok::<Frame, Error>(frame),
        frame.fault_pc < usize::MAX,
        machine.slots.peek(frame.window, 3) == Ok::<JsValue, Error>(d),
        machine.slots.peek(frame.window, 2) == Ok::<JsValue, Error>(c),
        machine.slots.peek(frame.window, 1) == Ok::<JsValue, Error>(b),
        machine.slots.peek(frame.window, 0) == Ok::<JsValue, Error>(a),
        machine.slots.values.len() + 2 <= machine.slots.limit,
    ensures
        ({
            let next = frame.fault_pc + 1;
            let rest = machine.slots.values.take(machine.slots.values.len() - 4);
            let dup = machine.instruction(heap, function, frame, Instruction::Dup);
            let dup2 = machine.instruction(heap, function, frame, Instruction::Dup2);
            let swap = machine.instruction(heap, function, frame, Instruction::Swap);
            let rot3 = machine.instruction(heap, function, frame, Instruction::Rot3);
            let rot4 = machine.instruction(heap, function, frame, Instruction::Rot4);
            let drop = machine.instruction(heap, function, frame, Instruction::Drop);
            let nip = machine.instruction(heap, function, frame, Instruction::Nip);
            &&& machine.went_on(id, frame, next, dup)
            &&& dup.0.slots.values == rest + Slots::direct(seq![d, c, b, a, a])
            &&& machine.went_on(id, frame, next, dup2)
            &&& dup2.0.slots.values == rest + Slots::direct(seq![d, c, b, a, b, a])
            &&& machine.went_on(id, frame, next, swap)
            &&& swap.0.slots.values == rest + Slots::direct(seq![d, c, a, b])
            &&& machine.went_on(id, frame, next, rot3)
            &&& rot3.0.slots.values == rest + Slots::direct(seq![d, a, c, b])
            &&& machine.went_on(id, frame, next, rot4)
            &&& rot4.0.slots.values == rest + Slots::direct(seq![a, d, c, b])
            &&& !(a is Object) ==> machine.went_on(id, frame, next, drop) && drop.0.slots.values
                == rest + Slots::direct(seq![d, c, b])
            &&& !(b is Object) ==> machine.went_on(id, frame, next, nip) && nip.0.slots.values
                == rest + Slots::direct(seq![d, c, a])
            &&& a is Object ==> drop == (
                machine,
                Ok::<Option<RunExit>, Error>(Some(RunExit::ReleaseOperand { keep_top: false })),
            )
            &&& b is Object ==> nip == (
                machine,
                Ok::<Option<RunExit>, Error>(Some(RunExit::ReleaseOperand { keep_top: true })),
            )
        }),
{
    reveal(Machine::instruction);
    reveal_with_fuel(Slots::top, 5);
    reveal_with_fuel(Slots::discard, 5);
    reveal_with_fuel(Slots::push_all, 5);
    let slots = machine.slots;
    let n = slots.values.len();
    let window = frame.window;
    let rest = slots.values.take(n - 4);
    let one = slots.pop(window).0;
    let two = one.pop(window).0;
    let three = two.pop(window).0;
    assert(one.peek(window, 0) == slots.peek(window, 1));
    assert(two.peek(window, 0) == slots.peek(window, 2));
    assert(three.peek(window, 0) == slots.peek(window, 3));
    assert(slots.values =~= rest + Slots::direct(seq![d, c, b, a]));
    assert(one.values =~= rest + Slots::direct(seq![d, c, b]));
    assert(two.values =~= rest + Slots::direct(seq![d, c]));
    assert(three.values =~= rest + Slots::direct(seq![d]));
    assert(three.values.drop_last() =~= rest);
    assert(slots.top(window, 2)->Ok_0 =~= seq![b, a]);
    assert(slots.top(window, 3)->Ok_0 =~= seq![c, b, a]);
    assert(slots.top(window, 4)->Ok_0 =~= seq![d, c, b, a]);
    assert(seq![b, a].drop_first() =~= seq![a]);
    assert(seq![a, b].drop_first() =~= seq![b]);
    assert(seq![a, c, b].drop_first() =~= seq![c, b]);
    assert(seq![c, b].drop_first() =~= seq![b]);
    assert(seq![a, d, c, b].drop_first() =~= seq![d, c, b]);
    assert(seq![d, c, b].drop_first() =~= seq![c, b]);
    let dup = machine.instruction(heap, function, frame, Instruction::Dup);
    assert(dup.0.slots.values =~= rest + Slots::direct(seq![d, c, b, a, a]));
    let dup2 = machine.instruction(heap, function, frame, Instruction::Dup2);
    assert(dup2.0.slots.values =~= rest + Slots::direct(seq![d, c, b, a, b, a]));
    let swap = machine.instruction(heap, function, frame, Instruction::Swap);
    assert(swap.0.slots.values =~= rest + Slots::direct(seq![d, c, a, b]));
    let rot3 = machine.instruction(heap, function, frame, Instruction::Rot3);
    assert(rot3.0.slots.values =~= rest + Slots::direct(seq![d, a, c, b]));
    let rot4 = machine.instruction(heap, function, frame, Instruction::Rot4);
    assert(rot4.0.slots.values =~= rest + Slots::direct(seq![a, d, c, b]));
    let nip = machine.instruction(heap, function, frame, Instruction::Nip);
    if !(b is Object) {
        assert(nip.0.slots.values =~= rest + Slots::direct(seq![d, c, a]));
    }
}

/// A branch takes its condition off the operands and goes to its target exactly
/// where the condition has the sense that it asks for; a jump always goes
/// there.
pub proof fn branches_follow_their_condition(
    machine: Machine,
    heap: Heap,
    function: FunctionBytecode,
    id: FrameId,
    frame: Frame,
    value: JsValue,
    target: u32,
)
    requires
        machine.frames.current(id) == Ok::<Frame, Error>(frame),
        frame.fault_pc < usize::MAX,
        machine.slots.peek(frame.window, 0) == Ok::<JsValue, Error>(value),
        machine.slots.values.len() <= machine.slots.limit,
    ensures
        ({
            let next = frame.fault_pc + 1;
            let rest = machine.slots.values.drop_last();
            let if_true = machine.instruction(heap, function, frame, Instruction::JumpIfTrue(target));
            let if_false = machine.instruction(
                heap,
                function,
                frame,
                Instruction::JumpIfFalse(target),
            );
            let always = machine.instruction(heap, function, frame, Instruction::Jump(target));
            let not = machine.instruction(heap, function, frame, Instruction::Not);
            &&& heap.truthy(value) ==> machine.went_on(id, frame, target as int, if_true)
                && machine.went_on(id, frame, next, if_false)
            &&& !heap.truthy(value) ==> machine.went_on(id, frame, target as int, if_false)
                && machine.went_on(id, frame, next, if_true)
            &&& if_true.0.slots.values == rest
            &&& if_false.0.slots.values == rest
            &&& machine.went_on(id, frame, target as int, always)
            &&& always.0.slots == machine.slots
            &&& machine.went_on(id, frame, next, not)
            &&& not.0.slots.values == rest.push(
                FrameBinding::Direct(JsValue::Bool(!heap.truthy(value))),
            )
        }),
{
    reveal(Machine::instruction);
    reveal_with_fuel(Slots::discard, 2);
}

/// What a load puts on the operands: a constant, the called function, the
/// target of `new`, and the receiver, which strict code sees as it was given
/// and other code never as undefined or null.
pub proof fn loads_push_what_they_name(
    machine: Machine,
    heap: Heap,
    function: FunctionBytecode,
    id: FrameId,
    frame: Frame,
    value: JsValue,
    index: u32,
)
    requires
        machine.frames.current(id) == Ok::<Frame, Error>(frame),
        frame.fault_pc < usize::MAX,
        machine.slots.values.len() < machine.slots.limit,
        index < function.constants@.len(),
        function.constants@[index as int] == BytecodeConstant::Value(value),
    ensures
        ({
            let next = frame.fault_pc + 1;
            let literal = machine.instruction(heap, function, frame, Instruction::Push(value));
            let constant = machine.instruction(heap, function, frame, Instruction::Constant(index));
            let target = machine.instruction(heap, function, frame, Instruction::NewTarget);
            let active = machine.instruction(heap, function, frame, Instruction::ActiveFunction);
            let receiver = machine.instruction(heap, function, frame, Instruction::This);
            let given = frame.cold.input.this_value;
            let grown = |v: JsValue| machine.slots.values.push(FrameBinding::Direct(v));
            &&& machine.went_on(id, frame, next, literal) && literal.0.slots.values == grown(value)
            &&& machine.went_on(id, frame, next, constant) && constant.0.slots.values == grown(value)
            &&& machine.went_on(id, frame, next, target) && target.0.slots.values == grown(
                frame.cold.input.new_target,
            )
            &&& machine.went_on(id, frame, next, active) && active.0.slots.values == grown(
                JsValue::Object(frame.cold.function),
            )
            &&& frame.cold.normalized_this is None && function.metadata.strict ==> machine.went_on(
                id,
                frame,
                next,
                receiver,
            ) && receiver.0.slots.values == grown(given)
            &&& frame.cold.normalized_this is None && given is Object ==> machine.went_on(
                id,
                frame,
                next,
                receiver,
            ) && receiver.0.slots.values == grown(given)
            &&& frame.cold.normalized_this is None && !function.metadata.strict && (
            given is Undefined || given is Null) ==> machine.went_on(id, frame, next, receiver)
                && receiver.0.slots.values == grown(
                JsValue::Object(frame.cold.input.callee_global),
            )
            &&& frame.cold.normalized_this is None && !function.metadata.strict && !(
            given is Undefined || given is Null || given is Object) ==> receiver == (
                machine,
                Ok::<Option<RunExit>, Error>(Some(RunExit::NormalizeThis)),
            )
            &&& frame.cold.normalized_this matches Some(boxed) ==> machine.went_on(
                id,
                frame,
                next,
                receiver,
            ) && receiver.0.slots.values == grown(boxed)
        }),
{
    reveal(Machine::instruction);
}

/// A return hands the top operand over and leaves the rest.
pub proof fn returns_hand_over_the_top(
    machine: Machine,
    heap: Heap,
    function: FunctionBytecode,
    frame: Frame,
    value: JsValue,
)
    requires
        machine.slots.peek(frame.window, 0) == Ok::<JsValue, Error>(value),
    ensures
        ({
            let (after, r) = machine.instruction(heap, function, frame, Instruction::Return);
            &&& r == Ok::<Option<RunExit>, Error>(Some(RunExit::Complete))
            &&& after.pending == Some(value)
            &&& after.slots.values == machine.slots.values.drop_last()
            &&& after.frames == machine.frames
        }),
        ({
            let (after, r) = machine.instruction(heap, function, frame, Instruction::ReturnUndefined);
            &&& r == Ok::<Option<RunExit>, Error>(Some(RunExit::Complete))
            &&& after.pending == Some(JsValue::Undefined)
            &&& after.slots == machine.slots
            &&& after.frames == machine.frames
        }),
{
    reveal(Machine::instruction);
}

/// A stored local or parameter reads as what was stored, the store keeps its
/// operand where it is an expression, and every other slot stays.  A local that
/// is not initialized yet refuses checked accesses.
pub proof fn stored_variables_read_back(
    machine: Machine,
    heap: Heap,
    function: FunctionBytecode,
    id: FrameId,
    frame: Frame,
    index: u16,
    old: JsValue,
    value: JsValue,
)
    requires
        machine.frames.current(id) == Ok::<Frame, Error>(frame),
        frame.fault_pc < usize::MAX,
        machine.slots.peek(frame.window, 0) == Ok::<JsValue, Error>(value),
        machine.slots.values.len() < machine.slots.limit,
    ensures
        machine.slots.local(frame.window, index) == Ok::<FrameBinding, Error>(
            FrameBinding::Direct(old),
        ) ==> {
            let next = frame.fault_pc + 1;
            let put = machine.instruction(heap, function, frame, Instruction::PutLocal(index));
            let set = machine.instruction(heap, function, frame, Instruction::SetLocal(index));
            let checked = machine.instruction(heap, function, frame, Instruction::PutLocalCheck(index));
            let kept = machine.instruction(heap, function, frame, Instruction::SetLocalCheck(index));
            let get = machine.instruction(heap, function, frame, Instruction::GetLocal(index));
            &&& machine.went_on(id, frame, next, put) && checked == put
            &&& machine.went_on(id, frame, next, set) && kept == set
            &&& put.0.slots.local(frame.window, index) == Ok::<FrameBinding, Error>(
                FrameBinding::Direct(value),
            )
            &&& set.0.slots.local(frame.window, index) == Ok::<FrameBinding, Error>(
                FrameBinding::Direct(value),
            )
            &&& set.0.slots.values.drop_last() == put.0.slots.values
            &&& set.0.slots.peek(frame.window, 0) == Ok::<JsValue, Error>(value)
            &&& forall|i: int|
                0 <= i < put.0.slots.values.len() && i != frame.window.locals_at + index
                    ==> #[trigger] put.0.slots.values[i] == machine.slots.values[i]
            &&& machine.went_on(id, frame, next, get)
            &&& get.0.slots.values == machine.slots.values.push(FrameBinding::Direct(old))
        },
        machine.slots.local(frame.window, index) == Ok::<FrameBinding, Error>(
            FrameBinding::Uninitialized,
        ) ==> {
            let refused = (
                machine,
                Ok::<Option<RunExit>, Error>(Some(RunExit::LexicalUninitialized(index))),
            );
            let first = machine.instruction(
                heap,
                function,
                frame,
                Instruction::InitializeLocal(index),
            );
            &&& machine.instruction(heap, function, frame, Instruction::GetLocalCheck(index))
                == refused
            &&& machine.instruction(heap, function, frame, Instruction::PutLocalCheck(index))
                == refused
            &&& machine.instruction(heap, function, frame, Instruction::SetLocalCheck(index))
                == refused
            &&& machine.went_on(id, frame, frame.fault_pc + 1, first)
            &&& first.0.slots.local(frame.window, index) == Ok::<FrameBinding, Error>(
                FrameBinding::Direct(value),
            )
        },
        machine.slots.parameter(frame.window, index) == Ok::<FrameBinding, Error>(
            FrameBinding::Direct(old),
        ) ==> {
            let next = frame.fault_pc + 1;
            let put = machine.instruction(heap, function, frame, Instruction::PutArgument(index));
            let set = machine.instruction(heap, function, frame, Instruction::SetArgument(index));
            let get = machine.instruction(heap, function, frame, Instruction::GetArgument(index));
            &&& machine.went_on(id, frame, next, set)
            &&& set.0.slots.parameter(frame.window, index) == Ok::<FrameBinding, Error>(
                FrameBinding::Direct(value),
            )
            &&& frame.window.locals_at <= frame.window.floor ==> {
                &&& machine.went_on(id, frame, next, put)
                &&& set.0.slots.values.drop_last() == put.0.slots.values
                &&& set.0.slots.peek(frame.window, 0) == Ok::<JsValue, Error>(value)
            }
            &&& machine.went_on(id, frame, next, get)
            &&& get.0.slots.values == machine.slots.values.push(FrameBinding::Direct(old))
        },
{
    reveal(Machine::instruction);
    reveal_with_fuel(Slots::discard, 2);
}

/// An operator between small integers leaves what the operator gives in the
/// place of its operands; what needs more than that leaves the operands where
/// they are.
pub proof fn resident_operators_agree_with_the_others(
    machine: Machine,
    heap: Heap,
    function: FunctionBytecode,
    id: FrameId,
    frame: Frame,
    kind: NumericKind,
    left: i32,
    right: i32,
)
    requires
        machine.frames.current(id) == Ok::<Frame, Error>(frame),
        frame.fault_pc < usize::MAX,
        machine.slots.peek(frame.window, 1) == Ok::<JsValue, Error>(JsValue::Int(left)),
        machine.slots.peek(frame.window, 0) == Ok::<JsValue, Error>(JsValue::Int(right)),
        machine.slots.values.len() <= machine.slots.limit,
    ensures
        ({
            let next = frame.fault_pc + 1;
            let unary = kind is Increment || kind is Decrement || kind is ToNumeric || kind is BitNot
                || kind is Negate;
            let rest = machine.slots.values.take(
                machine.slots.values.len() - if unary {
                    1int
                } else {
                    2
                },
            );
            let step = machine.instruction(heap, function, frame, Instruction::Numeric(kind));
            let outcome = if unary {
                Heap::numeric(kind, JsValue::Int(right), JsValue::Null)
            } else {
                Heap::numeric(kind, JsValue::Int(left), JsValue::Int(right))
            };
            &&& outcome matches Ok(NumericOutcome::Value(value)) ==> machine.went_on(
                id,
                frame,
                next,
                step,
            ) && step.0.slots.values == rest.push(FrameBinding::Direct(value))
            &&& !(outcome matches Ok(NumericOutcome::Value(_))) ==> step == (
                machine,
                Ok::<Option<RunExit>, Error>(Some(RunExit::Numeric(kind))),
            )
        }),
        ({
            let next = frame.fault_pc + 1;
            let rest = machine.slots.values.take(machine.slots.values.len() - 2);
            let step = machine.instruction(heap, function, frame, Instruction::Add);
            let plus = machine.instruction(heap, function, frame, Instruction::Plus);
            let outcome = heap.sum(JsValue::Int(left), JsValue::Int(right)).1;
            &&& outcome matches Ok(NumericOutcome::Value(value)) ==> machine.went_on(
                id,
                frame,
                next,
                step,
            ) && step.0.slots.values == rest.push(FrameBinding::Direct(value))
            &&& !(outcome matches Ok(NumericOutcome::Value(_))) ==> step == (
                machine,
                Ok::<Option<RunExit>, Error>(Some(RunExit::ConvertAdd)),
            )
            &&& machine.went_on(id, frame, next, plus) && plus.0.slots == machine.slots
        }),
{
    reveal(Machine::instruction);
    two_operands_can_go(machine.slots, frame.window);
    assert(machine.slots.values.drop_last() =~= machine.slots.values.take(
        machine.slots.values.len() - 1,
    ));
}

/// A variable that lives in a cell is accessed through it, under the index that
/// the instruction names: gets read, puts and sets write, only sets keep the
/// value, and only the checked ones look at the dead zone.
pub proof fn captured_variables_are_accessed_through_their_cells(
    machine: Machine,
    heap: Heap,
    function: FunctionBytecode,
    frame: Frame,
    index: u16,
)
    requires
        frame.fault_pc < usize::MAX,
    ensures
        ({
            let does = |instruction: Instruction, source: BindingSource, write: bool, checked: bool, keep: bool|
                machine.instruction(heap, function, frame, instruction) == (
                    machine,
                    Ok::<Option<RunExit>, Error>(
                        Some(RunExit::Binding { source, index, write, checked, keep }),
                    ),
                );
            &&& machine.slots.parameter(frame.window, index) matches Ok(FrameBinding::Captured { .. })
                ==> {
                let source = BindingSource::Argument;
                &&& does(Instruction::GetArgument(index), source, false, false, false)
                &&& does(Instruction::PutArgument(index), source, true, false, false)
                &&& does(Instruction::SetArgument(index), source, true, false, true)
            }
            &&& machine.slots.local(frame.window, index) matches Ok(FrameBinding::Captured { .. })
                ==> {
                let source = BindingSource::Local;
                &&& does(Instruction::GetLocal(index), source, false, false, false)
                &&& does(Instruction::GetLocalCheck(index), source, false, true, false)
                &&& does(Instruction::PutLocal(index), source, true, false, false)
                &&& does(Instruction::PutLocalCheck(index), source, true, true, false)
                &&& does(Instruction::SetLocal(index), source, true, false, true)
                &&& does(Instruction::SetLocalCheck(index), source, true, true, true)
                &&& does(Instruction::InitializeLocal(index), source, true, false, false)
            }
            &&& does(Instruction::GetClosure(index), BindingSource::Closure, false, false, false)
            &&& does(Instruction::GetClosureCheck(index), BindingSource::Closure, false, true, false)
            &&& does(Instruction::PutClosure(index), BindingSource::Closure, true, false, false)
            &&& does(Instruction::PutClosureCheck(index), BindingSource::Closure, true, true, false)
            &&& does(Instruction::SetClosure(index), BindingSource::Closure, true, false, true)
            &&& does(Instruction::SetClosureCheck(index), BindingSource::Closure, true, true, true)
        }),
{
    reveal(Machine::instruction);
}

} // verus!
