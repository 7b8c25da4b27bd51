//! Published bytecode: what a compiler hands to the virtual machine.
use vstd::prelude::*;
use crate::value::{Atom, JsValue};

verus! {

#[derive(Clone, Copy, Debug, PartialEq, Eq, Structural)]
pub enum FunctionKind {
    Normal,
    Generator,
    Async,
    AsyncGenerator,
}

#[derive(Clone, Copy, Debug, PartialEq, Eq, Structural)]
pub enum ConstructorKind {
    NotConstructor,
    Base,
    Derived,
}

#[derive(Clone, Copy, Debug, PartialEq, Eq, Structural)]
pub enum ClassInitializerKind {
    InstanceFields,
    StaticElements,
    StaticBlock,
}

/// What a variable slot is for.
#[derive(Clone, Copy, Debug, PartialEq, Eq, Structural)]
pub enum BindingKind {
    Normal,
    FunctionName,
    DerivedThis,
    WithObject,
    EvalVariableObject,
    Private,
}

/// One local or parameter of a function.
#[derive(Clone, Copy, Debug, PartialEq, Eq, Structural)]
pub struct LocalDefinition {
    pub name: Option<Atom>,
    pub is_lexical: bool,
    pub is_const: bool,
    pub is_captured: bool,
    pub kind: BindingKind,
}

/// Where a closure takes one of its cells from.
#[derive(Clone, Copy, Debug, PartialEq, Eq, Structural)]
pub enum ClosureSource {
    ParentLocal(u16),
    ParentArgument(u16),
    ParentClosure(u16),
    Global,
}

#[derive(Clone, Copy, Debug, PartialEq, Eq, Structural)]
pub struct ClosureVariable {
    pub source: ClosureSource,
    pub name: Option<Atom>,
    pub is_lexical: bool,
    pub is_const: bool,
    pub kind: BindingKind,
}

/// A cell that holds an object environment.
#[derive(Clone, Copy, Debug, PartialEq, Eq, Structural)]
pub enum DynamicEnvironmentSource {
    Local(u16),
    Closure(u16),
}

#[derive(Clone, Copy, Debug, PartialEq, Eq, Structural)]
pub enum ApplyKind {
    Call,
    Construct,
}

#[derive(Clone, Copy, Debug, PartialEq, Eq, Structural)]
pub enum DefineMethodKind {
    Method,
    Getter,
    Setter,
}

/// A method definition: its kind and whether the property is enumerable.
#[derive(Clone, Copy, Debug, PartialEq, Eq, Structural)]
pub struct MethodDefinition {
    pub kind: DefineMethodKind,
    pub enumerable: bool,
}

/// Arithmetic and relational operators with primitive fast paths.
#[derive(Clone, Copy, Debug, PartialEq, Eq, Structural)]
pub enum NumericKind {
    Subtract,
    Multiply,
    Divide,
    Remainder,
    Power,
    ShiftLeft,
    ShiftRight,
    ShiftRightUnsigned,
    BitAnd,
    BitOr,
    BitXor,
    BitNot,
    Negate,
    Less,
    Greater,
    Increment,
    Decrement,
    ToNumeric,
}

impl NumericKind {
    pub open spec fn is_unary(self) -> bool {
        self is Increment || self is Decrement || self is ToNumeric || self is BitNot
            || self is Negate
    }

    pub fn unary(&self) -> (r: bool)
        ensures
            r == self.is_unary(),
    {
        matches!(
            self,
            NumericKind::Increment | NumericKind::Decrement | NumericKind::ToNumeric
                | NumericKind::BitNot | NumericKind::Negate
        )
    }
}

#[derive(Clone, Copy, Debug, PartialEq, Eq, Structural)]
pub enum Instruction {
    Push(JsValue),
    Constant(u32),
    This,
    NewTarget,
    ActiveFunction,
    GetLocal(u16),
    GetLocalCheck(u16),
    PutLocal(u16),
    PutLocalCheck(u16),
    SetLocal(u16),
    SetLocalCheck(u16),
    InitializeLocal(u16),
    ResetLocal(u16),
    CloseLocal(u16),
    GetArgument(u16),
    PutArgument(u16),
    SetArgument(u16),
    GetClosure(u16),
    GetClosureCheck(u16),
    PutClosure(u16),
    PutClosureCheck(u16),
    SetClosure(u16),
    SetClosureCheck(u16),
    BindingError { index: u16, redeclaration: bool },
    Drop,
    Nip,
    Dup,
    Dup2,
    Swap,
    /// Move the top below the next two.
    Rot3,
    /// Move the top below the next three.
    Rot4,
    Jump(u32),
    JumpIfFalse(u32),
    JumpIfTrue(u32),
    Not,
    Add,
    Plus,
    Numeric(NumericKind),
    StrictEqual,
    StrictNotEqual,
    Call { arguments: u16, method: bool, tail: bool },
    Construct(u16),
    Apply(ApplyKind),
    InitDerivedConstructor,
    GetField { index: u32, keep_receiver: bool },
    GetElement { keep_receiver: bool, keep_key: bool },
    SetProperty(Option<u32>),
    ToPropertyKey,
    Catch(u32),
    DropCatch,
    NipCatch,
    Throw,
    Return,
    ReturnUndefined,
    ReturnDerived(u16),
    InitializeDerived(u16),
    InstantiateClosure(u32),
    DefineProperty { key: Option<u32>, method: Option<MethodDefinition> },
    DefineClass { name: u32, has_heritage: bool },
    InstallClassInstanceInitializer,
    RunClassInstanceInitializer,
    RunClassStaticInitializer,
    RunClassStaticBlock,
    HomeObject,
    GetSuper,
    SetName(u32),
    SetComputedName,
    Arguments { mapped: bool },
    Rest(u16),
    GlobalReference(u16),
    GlobalDelete(u16),
    GlobalGet { index: u16, strict: bool },
    GlobalPut { index: u16, name: u32, strict: bool, initialize: bool },
    VariableEnvironment,
    CreateObject,
    CreateArray(u16),
    DefineArrayEl,
    Append,
    ToObject,
    InitializeWith(u16),
    EnvironmentObject(DynamicEnvironmentSource),
    EnvironmentHas { source: DynamicEnvironmentSource, name: u32 },
    EnvironmentGet { source: DynamicEnvironmentSource, name: u32, strict: bool },
    EnvironmentPut { source: DynamicEnvironmentSource, name: u32, strict: bool },
    EnvironmentDefine { source: DynamicEnvironmentSource, name: u32 },
    EnvironmentDelete { source: DynamicEnvironmentSource, name: u32 },
    GetRefValue(u32),
    GetRefValueUndef(u32),
    PutRefValue(u32),
    /// A direct evaluation in the scope that `scope` names for the embedder.
    Eval { arguments: u16, scope: u32 },
    /// A direct evaluation whose arguments are the elements of an array.
    ApplyEval(u32),
    /// An instruction that only the embedder can complete.
    Foreign(u32),
}

/// A value or a nested function of the constant pool.
#[derive(Clone, Copy, Debug, PartialEq, Eq, Structural)]
pub enum BytecodeConstant {
    Value(JsValue),
    Function(usize),
}

#[derive(Clone, Copy, Debug, PartialEq, Eq, Structural)]
pub struct FunctionMetadata {
    pub function_kind: FunctionKind,
    pub constructor_kind: ConstructorKind,
    pub class_initializer_kind: Option<ClassInitializerKind>,
    pub strict: bool,
    pub closure_count: u16,
    pub function_name_local: Option<u16>,
    pub eval_variable_object_local: Option<u16>,
    pub strip_variable_debug: bool,
    /// Name given to functions made from this code.
    pub name: Option<Atom>,
    /// Whether functions made from this code own a prototype object.
    pub has_prototype: bool,
}

/// One published function.  It never changes after publication.
pub struct FunctionBytecode {
    pub code: Vec<Instruction>,
    pub constants: Vec<BytecodeConstant>,
    pub local_definitions: Vec<LocalDefinition>,
    pub argument_definitions: Vec<LocalDefinition>,
    pub closure_variables: Vec<ClosureVariable>,
    pub property_key_atoms: Vec<Option<Atom>>,
    pub metadata: FunctionMetadata,
    /// The local of the variables that evaluated code declares in the scope of
    /// the parameters.
    pub arg_eval_variable_object_local: Option<u16>,
    pub realm: usize,
}

impl FunctionBytecode {
    /// The store that follows the addition at `pc`: its local and how many
    /// instructions it makes with the addition.  A kept result must be dropped
    /// at once.
    pub open spec fn add_store_spec(&self, pc: usize) -> Option<(u16, usize)> {
        if pc + 1 < self.code@.len() {
            match self.code@[pc + 1] {
                Instruction::PutLocal(index) => Some((index, 2usize)),
                Instruction::PutLocalCheck(index) => Some((index, 2usize)),
                Instruction::SetLocal(index) => if self.drops(pc + 2) {
                    Some((index, 3usize))
                } else {
                    None
                },
                Instruction::SetLocalCheck(index) => if self.drops(pc + 2) {
                    Some((index, 3usize))
                } else {
                    None
                },
                _ => None,
            }
        } else {
            None
        }
    }

    pub open spec fn drops(&self, pc: int) -> bool {
        0 <= pc < self.code@.len() && self.code@[pc] is Drop
    }

    #[verifier::when_used_as_spec(add_store_spec)]
    pub fn add_store(&self, pc: usize) -> (r: Option<(u16, usize)>)
        ensures
            r == self.add_store_spec(pc),
            r matches Some((_, span)) ==> pc + span <= usize::MAX && span >= 2,
    {
        let length: usize = self.code.len();
        if pc >= length || pc + 1 >= length {
            return None;
        }
        let dropped = pc + 1 < length - 1 && matches!(self.code[pc + 2], Instruction::Drop);
        match self.code[pc + 1] {
            Instruction::PutLocal(index) => Some((index, 2usize)),
            Instruction::PutLocalCheck(index) => Some((index, 2usize)),
            Instruction::SetLocal(index) => if dropped {
                Some((index, 3usize))
            } else {
                None
            },
            Instruction::SetLocalCheck(index) => if dropped {
                Some((index, 3usize))
            } else {
                None
            },
            _ => None,
        }
    }
}

} // verus!
