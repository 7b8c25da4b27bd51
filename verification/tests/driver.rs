//! Programs run by the driver from source text.
//!
//! A small compiler turns the sources into published bytecode, and a host
//! answers what the driver leaves to its embedder: native bodies, properties
//! that are materialized by their first access and a few instructions.
use stack_vm::activation::VmUnwindRegion;
use stack_vm::bindings::{capture_local, capture_parameter};
use stack_vm::call::ordinary::DirectSelection;
use stack_vm::call::{CallableExecution, NativeInvocation, NativeInvokeMode, NativeInvokeOutcome};
use stack_vm::class::DefineClassOutcome;
use stack_vm::code::{ApplyKind, BindingKind, BytecodeConstant, ClassInitializerKind, ClosureSource, ClosureVariable, ConstructorKind, DefineMethodKind, DynamicEnvironmentSource, FunctionBytecode, FunctionKind, FunctionMetadata, Instruction, LocalDefinition, MethodDefinition, NumericKind};
use stack_vm::construct_driver::{initializer, InitializerKind};
use stack_vm::conversion_driver::{complete_primitives, ConversionTask, PredicateInput, PrimitiveCompletion, SuperPropertyInput};
use stack_vm::driver::frames::{deliver, execute, run_frames, turn, CallContinuation, DriverState, RunningExit, Stop};
use stack_vm::driver::{push_frame, CallStep};
use stack_vm::environment_driver::{Operation, WriteTarget};
use stack_vm::error::{Error, ErrorKind, NativeErrorKind};
use stack_vm::eval_driver::enter;
use stack_vm::execution::{ExecutionLimits, ExecutionRegistry, PendingCall, PendingRequest, RunningExecution};
use stack_vm::frame::{FrameCold, FrameEntry, FrameId, OperationTarget, ReturnTarget, ReturnValue};
use stack_vm::frames::active::{ActiveFrameKind, NativeCProto, NativeFunctionId};
use stack_vm::heap::{HeapObject, InternalCallableData, NativeFunctionData, NumberText, ObjectKind, ObjectPayload, PropertyEntry, PropertySlot, Realm, VarRef};
use stack_vm::object::{OrdinaryRead, PropertyDescriptor, PropertySetAction};
use stack_vm::run::{run, RunExit};
use stack_vm::runtime::{Runtime, ATOM_LENGTH};
use stack_vm::slots::{FrameBinding, FrameStorage};
use stack_vm::value::{CallableRef, Completion, JsValue, NativeConversion, ObjectRef, PropertyKey, SymbolRef};
use std::collections::HashMap;
use std::rc::Rc;

#[derive(Clone, Debug, PartialEq)]
enum Token {
    Word(String),
    Private(String),
    Int(i32),
    Float(f64),
    Big(String),
    Text(String),
    Punct(&'static str),
    End,
}

const PUNCTUATION: [&str; 40] = [
    "...", "===", "!==", ">>>", "**", "=>", "==", "!=", "<=", ">=", "&&", "||", "+=", "-=", "++", "--", "<<", ">>",
    "{", "}", "(", ")", "[", "]", ";", ",", "<", ">", "+", "-", "*", "/", "%", "&", "|", "^", "!", "~", "?", ":",
];

fn tokens(source: &str) -> Vec<Token> {
    let units: Vec<char> = source.chars().collect();
    let mut out: Vec<Token> = Vec::new();
    let mut at: usize = 0;
    while at < units.len() {
        let unit = units[at];
        if unit.is_whitespace() {
            at += 1;
        } else if unit.is_alphabetic() || unit == '_' || unit == '$' || unit == '#' {
            let start: usize = at;
            at += 1;
            while at < units.len() && (units[at].is_alphanumeric() || units[at] == '_' || units[at] == '$') {
                at += 1;
            }
            let word: String = units[start..at].iter().collect();
            if unit == '#' {
                out.push(Token::Private(word));
            } else {
                out.push(Token::Word(word));
            }
        } else if unit.is_ascii_digit() {
            let start: usize = at;
            while at < units.len() && (units[at].is_ascii_digit() || units[at] == '.') {
                at += 1;
            }
            let text: String = units[start..at].iter().collect();
            if at < units.len() && units[at] == 'n' {
                at += 1;
                out.push(Token::Big(text));
            } else if text.contains('.') {
                out.push(Token::Float(text.parse().unwrap()));
            } else {
                out.push(Token::Int(text.parse().unwrap()));
            }
        } else if unit == '\'' || unit == '"' {
            let start: usize = at + 1;
            at += 1;
            while units[at] != unit {
                at += 1;
            }
            out.push(Token::Text(units[start..at].iter().collect()));
            at += 1;
        } else if unit == '.' && !(units[at..].len() > 2 && units[at + 1] == '.') {
            out.push(Token::Punct("."));
            at += 1;
        } else if unit == '=' && (units[at..].len() < 2 || (units[at + 1] != '=' && units[at + 1] != '>')) {
            out.push(Token::Punct("="));
            at += 1;
        } else {
            let rest: String = units[at..].iter().take(3).collect();
            let found = PUNCTUATION.iter().find(|p| rest.starts_with(**p)).unwrap();
            out.push(Token::Punct(found));
            at += found.len();
        }
    }
    out.push(Token::End);
    out
}

#[derive(Clone, Debug)]
enum Expr {
    Undefined,
    Null,
    Bool(bool),
    Int(i32),
    Float(f64),
    Big(String),
    Text(String),
    This,
    NewTarget,
    Name(String),
    Function(Rc<Function>),
    Class(Rc<Class>),
    Object(Vec<Member>),
    Array(Vec<Argument>),
    Field(Box<Expr>, String),
    Index(Box<Expr>, Box<Expr>),
    Hidden(Box<Expr>, String),
    Call(Box<Expr>, Vec<Argument>),
    New(Box<Expr>, Vec<Argument>),
    Super(Vec<Argument>),
    Unary(&'static str, Box<Expr>),
    Update(bool, bool, Box<Expr>),
    Binary(&'static str, Box<Expr>, Box<Expr>),
    Choice(Box<Expr>, Box<Expr>, Box<Expr>),
    Assign(&'static str, Box<Expr>, Box<Expr>),
    Comma(Box<Expr>, Box<Expr>),
}

/// An argument or an array element; a hole has no expression.
#[derive(Clone, Debug)]
struct Argument {
    spread: bool,
    value: Option<Expr>,
}

#[derive(Clone, Debug)]
enum Key {
    Named(String),
    Computed(Expr),
    Hidden(String),
}

#[derive(Clone, Copy, Debug, PartialEq)]
enum MemberKind {
    Value,
    Method,
    Getter,
    Setter,
    StaticBlock,
}

#[derive(Clone, Debug)]
struct Member {
    key: Key,
    kind: MemberKind,
    value: Option<Expr>,
}

#[derive(Clone, Debug)]
struct Parameter {
    name: String,
    default: Option<Expr>,
    rest: bool,
}

#[derive(Clone, Debug)]
struct Function {
    name: Option<String>,
    parameters: Vec<Parameter>,
    body: Vec<Statement>,
    arrow: bool,
    generator: bool,
    strict: bool,
}

#[derive(Clone, Debug)]
struct Class {
    name: Option<String>,
    parent: Option<Expr>,
    constructor: Option<Rc<Function>>,
    members: Vec<Member>,
}

#[derive(Clone, Copy, Debug, PartialEq)]
enum Declaration {
    Var,
    Let,
    Const,
}

#[derive(Clone, Debug)]
enum Statement {
    Declare(Declaration, Vec<(String, Option<Expr>)>),
    Function(Rc<Function>),
    Class(Rc<Class>),
    Expression(Expr),
    If(Expr, Box<Statement>, Option<Box<Statement>>),
    While(Expr, Box<Statement>),
    For(Option<Box<Statement>>, Expr, Expr, Box<Statement>),
    Return(Option<Expr>),
    Throw(Expr),
    Try(Vec<Statement>, Option<(Option<String>, Vec<Statement>)>, Option<Vec<Statement>>),
    With(Expr, Box<Statement>),
    Block(Vec<Statement>),
}

struct Parser {
    tokens: Vec<Token>,
    at: usize,
    strict: bool,
}

impl Parser {
    fn peek(&self) -> Token {
        self.tokens[self.at].clone()
    }

    fn is(&self, text: &str) -> bool {
        match &self.tokens[self.at] {
            Token::Punct(p) => *p == text,
            Token::Word(word) => word == text,
            _ => false,
        }
    }

    fn follows(&self, offset: usize, text: &str) -> bool {
        matches!(self.tokens.get(self.at + offset), Some(Token::Punct(p)) if *p == text)
    }

    fn accept(&mut self, text: &str) -> bool {
        let found = self.is(text);
        if found {
            self.at += 1;
        }
        found
    }

    fn expect(&mut self, text: &str) {
        if !self.accept(text) {
            panic!("expected {text} before {:?}", &self.tokens[self.at..]);
        }
    }

    fn word(&mut self) -> String {
        match self.peek() {
            Token::Word(word) => {
                self.at += 1;
                word
            },
            token => panic!("expected a name before {token:?}"),
        }
    }

    fn program(&mut self) -> Vec<Statement> {
        let mut out: Vec<Statement> = Vec::new();
        while self.peek() != Token::End {
            out.push(self.statement());
        }
        out
    }

    fn block(&mut self) -> Vec<Statement> {
        self.expect("{");
        let mut out: Vec<Statement> = Vec::new();
        while !self.accept("}") {
            out.push(self.statement());
        }
        out
    }

    fn end_statement(&mut self) {
        if !self.is("}") && self.peek() != Token::End {
            let _ = self.accept(";");
        }
    }

    fn statement(&mut self) -> Statement {
        if self.is("{") {
            return Statement::Block(self.block());
        }
        if self.accept(";") {
            return Statement::Block(Vec::new());
        }
        for (word, kind) in [("var", Declaration::Var), ("let", Declaration::Let), ("const", Declaration::Const)] {
            if self.is(word) {
                self.at += 1;
                let statement = self.declarations(kind);
                self.end_statement();
                return statement;
            }
        }
        if self.accept("function") {
            return Statement::Function(self.function_rest(true));
        }
        if self.is("class") {
            self.at += 1;
            return Statement::Class(self.class_rest());
        }
        if self.accept("if") {
            self.expect("(");
            let test = self.expression();
            self.expect(")");
            let then = Box::new(self.statement());
            let other = if self.accept("else") { Some(Box::new(self.statement())) } else { None };
            return Statement::If(test, then, other);
        }
        if self.accept("while") {
            self.expect("(");
            let test = self.expression();
            self.expect(")");
            return Statement::While(test, Box::new(self.statement()));
        }
        if self.accept("for") {
            self.expect("(");
            let init = if self.is(";") { None } else { Some(Box::new(self.statement_head())) };
            self.expect(";");
            let test = self.expression();
            self.expect(";");
            let step = self.expression();
            self.expect(")");
            return Statement::For(init, test, step, Box::new(self.statement()));
        }
        if self.accept("return") {
            let value = if self.is(";") || self.is("}") { None } else { Some(self.expression()) };
            self.end_statement();
            return Statement::Return(value);
        }
        if self.accept("throw") {
            let value = self.expression();
            self.end_statement();
            return Statement::Throw(value);
        }
        if self.accept("try") {
            let body = self.block();
            let mut handler = None;
            let mut cleanup = None;
            if self.accept("catch") {
                let name = if self.accept("(") {
                    let name = self.word();
                    self.expect(")");
                    Some(name)
                } else {
                    None
                };
                handler = Some((name, self.block()));
            }
            if self.accept("finally") {
                cleanup = Some(self.block());
            }
            return Statement::Try(body, handler, cleanup);
        }
        if self.accept("with") {
            self.expect("(");
            let object = self.expression();
            self.expect(")");
            return Statement::With(object, Box::new(self.statement()));
        }
        let value = self.expression();
        self.end_statement();
        Statement::Expression(value)
    }

    fn statement_head(&mut self) -> Statement {
        if self.accept("let") {
            self.declarations(Declaration::Let)
        } else if self.accept("var") {
            self.declarations(Declaration::Var)
        } else {
            Statement::Expression(self.expression())
        }
    }

    fn declarations(&mut self, kind: Declaration) -> Statement {
        let mut list: Vec<(String, Option<Expr>)> = Vec::new();
        loop {
            let name = self.word();
            let value = if self.accept("=") { Some(self.named(&name)) } else { None };
            list.push((name, value));
            if !self.accept(",") {
                return Statement::Declare(kind, list);
            }
        }
    }

    /// A value that gives its name to an anonymous function.
    fn named(&mut self, name: &str) -> Expr {
        match self.assignment() {
            Expr::Function(function) if function.name.is_none() && !function.arrow => {
                let mut copy = (*function).clone();
                copy.name = Some(format!("={name}"));
                Expr::Function(Rc::new(copy))
            },
            value => value,
        }
    }

    fn function_rest(&mut self, declared: bool) -> Rc<Function> {
        let generator = self.accept("*");
        let name = if declared || !self.is("(") { Some(self.word()) } else { None };
        self.function_tail(name, generator)
    }

    fn function_tail(&mut self, name: Option<String>, generator: bool) -> Rc<Function> {
        self.expect("(");
        let mut parameters: Vec<Parameter> = Vec::new();
        while !self.accept(")") {
            let rest = self.accept("...");
            let parameter = self.word();
            let default = if self.accept("=") { Some(self.assignment()) } else { None };
            parameters.push(Parameter { name: parameter, default, rest });
            let _ = self.accept(",");
        }
        let outer = self.strict;
        if self.follows(0, "{") && self.tokens[self.at + 1] == Token::Text("use strict".to_string()) {
            self.strict = true;
        }
        let body = self.block();
        let strict = self.strict;
        self.strict = outer;
        Rc::new(Function { name, parameters, body, arrow: false, generator, strict })
    }

    fn arrow(&mut self) -> Option<Expr> {
        let start = self.at;
        let mut parameters: Vec<Parameter> = Vec::new();
        if self.accept("(") {
            while let Token::Word(name) = self.peek() {
                self.at += 1;
                parameters.push(Parameter { name, default: None, rest: false });
                if !self.accept(",") {
                    break;
                }
            }
            if !self.accept(")") {
                self.at = start;
                return None;
            }
        } else if let Token::Word(name) = self.peek() {
            self.at += 1;
            parameters.push(Parameter { name, default: None, rest: false });
        }
        if !self.accept("=>") {
            self.at = start;
            return None;
        }
        let body = if self.is("{") { self.block() } else { vec![Statement::Return(Some(self.assignment()))] };
        Some(Expr::Function(Rc::new(Function {
            name: None,
            parameters,
            body,
            arrow: true,
            generator: false,
            strict: self.strict,
        })))
    }

    fn key(&mut self) -> Key {
        match self.peek() {
            Token::Word(word) => {
                self.at += 1;
                Key::Named(word)
            },
            Token::Text(text) => {
                self.at += 1;
                Key::Named(text)
            },
            Token::Int(n) => {
                self.at += 1;
                Key::Named(n.to_string())
            },
            Token::Private(name) => {
                self.at += 1;
                Key::Hidden(name)
            },
            _ => {
                self.expect("[");
                let key = self.assignment();
                self.expect("]");
                Key::Computed(key)
            },
        }
    }

    /// A property of a literal or a class member after its modifiers.
    fn member(&mut self, class: bool) -> Member {
        for (word, kind) in [("get", MemberKind::Getter), ("set", MemberKind::Setter)] {
            let ends = ["(", ":", "=", ";", "}", ","];
            if self.is(word) && !ends.iter().any(|p| self.follows(1, p)) {
                self.at += 1;
                let key = self.key();
                let value = Expr::Function(self.function_tail(None, false));
                return Member { key, kind, value: Some(value) };
            }
        }
        let key = self.key();
        if self.is("(") {
            let value = Expr::Function(self.function_tail(None, false));
            return Member { key, kind: MemberKind::Method, value: Some(value) };
        }
        let name = match &key {
            Key::Named(name) => name.clone(),
            _ => String::new(),
        };
        let present = if class { self.accept("=") } else { self.accept(":") };
        let value = if !present {
            if class { None } else { Some(Expr::Name(name)) }
        } else if matches!(key, Key::Named(_)) {
            Some(self.named(&name))
        } else {
            Some(self.assignment())
        };
        Member { key, kind: MemberKind::Value, value }
    }

    fn class_rest(&mut self) -> Rc<Class> {
        let outer = self.strict;
        self.strict = true;
        let name = if self.is("{") || self.is("extends") { None } else { Some(self.word()) };
        let parent = if self.accept("extends") { Some(self.postfix()) } else { None };
        self.expect("{");
        let mut constructor = None;
        let mut members: Vec<Member> = Vec::new();
        while !self.accept("}") {
            if self.accept(";") {
                continue;
            }
            if self.is("static") && self.follows(1, "{") {
                self.at += 1;
                let body = self.block();
                let value = Expr::Function(Rc::new(Function {
                    name: None,
                    parameters: Vec::new(),
                    body,
                    arrow: false,
                    generator: false,
                    strict: true,
                }));
                members.push(Member { key: Key::Named(String::new()), kind: MemberKind::StaticBlock, value: Some(value) });
                continue;
            }
            if self.is("constructor") {
                self.at += 1;
                constructor = Some(self.function_tail(None, false));
                continue;
            }
            members.push(self.member(true));
        }
        self.strict = outer;
        Rc::new(Class { name, parent, constructor, members })
    }

    fn arguments(&mut self, close: &str) -> Vec<Argument> {
        let mut out: Vec<Argument> = Vec::new();
        while !self.accept(close) {
            if self.accept(",") {
                out.push(Argument { spread: false, value: None });
                continue;
            }
            let spread = self.accept("...");
            out.push(Argument { spread, value: Some(self.assignment()) });
            if !self.is(close) {
                self.expect(",");
            }
        }
        out
    }

    fn expression(&mut self) -> Expr {
        let mut left = self.assignment();
        while self.accept(",") {
            left = Expr::Comma(Box::new(left), Box::new(self.assignment()));
        }
        left
    }

    fn assignment(&mut self) -> Expr {
        if let Some(arrow) = self.arrow() {
            return arrow;
        }
        let left = self.choice();
        for op in ["=", "+=", "-="] {
            if self.is(op) {
                self.at += 1;
                let value = match &left {
                    Expr::Name(name) => {
                        let name = name.clone();
                        self.named(&name)
                    },
                    _ => self.assignment(),
                };
                let op = if op == "=" { "=" } else if op == "+=" { "+" } else { "-" };
                return Expr::Assign(op, Box::new(left), Box::new(value));
            }
        }
        left
    }

    fn choice(&mut self) -> Expr {
        let test = self.binary(0);
        if !self.accept("?") {
            return test;
        }
        let then = self.assignment();
        self.expect(":");
        let other = self.assignment();
        Expr::Choice(Box::new(test), Box::new(then), Box::new(other))
    }

    fn binary(&mut self, level: usize) -> Expr {
        let levels: [&[&'static str]; 10] = [
            &["||"],
            &["&&"],
            &["|"],
            &["^"],
            &["&"],
            &["===", "!=="],
            &["<", ">", "in", "instanceof"],
            &["<<", ">>", ">>>"],
            &["+", "-"],
            &["*", "/", "%"],
        ];
        if level == levels.len() {
            let base = self.unary();
            if self.accept("**") {
                return Expr::Binary("**", Box::new(base), Box::new(self.binary(level)));
            }
            return base;
        }
        let mut left = self.binary(level + 1);
        loop {
            let mut found = None;
            for op in levels[level] {
                if self.is(op) {
                    found = Some(*op);
                }
            }
            match found {
                Some(op) => {
                    self.at += 1;
                    left = Expr::Binary(op, Box::new(left), Box::new(self.binary(level + 1)));
                },
                None => return left,
            }
        }
    }

    fn unary(&mut self) -> Expr {
        for op in ["!", "+", "-", "~", "delete"] {
            if self.is(op) {
                self.at += 1;
                let value = self.unary();
                return match (op, value) {
                    ("-", Expr::Int(n)) => Expr::Int(-n),
                    (op, value) => Expr::Unary(op, Box::new(value)),
                };
            }
        }
        for (op, up) in [("++", true), ("--", false)] {
            if self.accept(op) {
                return Expr::Update(true, up, Box::new(self.unary()));
            }
        }
        let value = self.postfix();
        for (op, up) in [("++", true), ("--", false)] {
            if self.accept(op) {
                return Expr::Update(false, up, Box::new(value));
            }
        }
        value
    }

    fn postfix(&mut self) -> Expr {
        let mut value = if self.accept("new") {
            if self.accept(".") {
                self.expect("target");
                Expr::NewTarget
            } else {
                let mut callee = self.primary();
                while self.accept(".") {
                    callee = Expr::Field(Box::new(callee), self.word());
                }
                let list = if self.accept("(") { self.arguments(")") } else { Vec::new() };
                Expr::New(Box::new(callee), list)
            }
        } else if self.accept("super") {
            self.expect("(");
            Expr::Super(self.arguments(")"))
        } else {
            self.primary()
        };
        loop {
            if self.accept(".") {
                value = match self.peek() {
                    Token::Private(name) => {
                        self.at += 1;
                        Expr::Hidden(Box::new(value), name)
                    },
                    _ => Expr::Field(Box::new(value), self.word()),
                };
            } else if self.accept("[") {
                let key = self.expression();
                self.expect("]");
                value = Expr::Index(Box::new(value), Box::new(key));
            } else if self.accept("(") {
                value = Expr::Call(Box::new(value), self.arguments(")"));
            } else {
                return value;
            }
        }
    }

    fn primary(&mut self) -> Expr {
        let token = self.peek();
        self.at += 1;
        match token {
            Token::Int(n) => Expr::Int(n),
            Token::Float(n) => Expr::Float(n),
            Token::Big(text) => Expr::Big(text),
            Token::Text(text) => Expr::Text(text),
            Token::Punct("(") => {
                let value = self.expression();
                self.expect(")");
                value
            },
            Token::Punct("[") => Expr::Array(self.arguments("]")),
            Token::Punct("{") => {
                let mut members: Vec<Member> = Vec::new();
                while !self.accept("}") {
                    members.push(self.member(false));
                    let _ = self.accept(",");
                }
                Expr::Object(members)
            },
            Token::Word(word) => match word.as_str() {
                "undefined" => Expr::Undefined,
                "null" => Expr::Null,
                "true" => Expr::Bool(true),
                "false" => Expr::Bool(false),
                "this" => Expr::This,
                "function" => Expr::Function(self.function_rest(false)),
                "class" => Expr::Class(self.class_rest()),
                _ => Expr::Name(word),
            },
            token => panic!("unexpected {token:?}"),
        }
    }
}

const FOREIGN_IN: u32 = 0;
const FOREIGN_INSTANCEOF: u32 = 1;
/// Write `[object, key, result, value]` and leave the result.
const FOREIGN_UPDATE: u32 = 2;

#[derive(Clone, Copy, Debug, PartialEq)]
enum Place {
    Local(u16),
    Argument(u16),
}

#[derive(Clone, Debug)]
struct Binding {
    name: String,
    place: Place,
    lexical: bool,
    constant: bool,
    own_name: bool,
}

#[derive(Clone, Debug)]
enum Scope {
    Names(Vec<Binding>),
    /// An object whose properties are names: that of a with statement, or the
    /// variables that evaluated code declared.
    With(u16),
}

#[derive(Clone, Copy, Debug, PartialEq)]
enum Target {
    Local { index: u16, lexical: bool, constant: bool, own_name: bool },
    Argument(u16),
    Closure { index: u16, lexical: bool, constant: bool, own_name: bool },
    Global(u16),
}

/// An open try statement and its cleanup.
#[derive(Clone, Debug)]
struct Region {
    cleanup: Option<Vec<Statement>>,
}

#[derive(Clone)]
struct Unit {
    code: Vec<Instruction>,
    constants: Vec<BytecodeConstant>,
    locals: Vec<LocalDefinition>,
    parameters: Vec<LocalDefinition>,
    closures: Vec<ClosureVariable>,
    keys: Vec<Option<usize>>,
    scopes: Vec<Scope>,
    regions: Vec<Region>,
    metadata: FunctionMetadata,
    /// Where a derived constructor keeps `this`.
    derived_this: Option<u16>,
    /// Where a program keeps the value of its last expression statement.
    result: Option<u16>,
    /// Whether a constructor runs field initializers.
    class_constructor: bool,
}

struct Compiler<'a> {
    runtime: &'a mut Runtime,
    realm: usize,
    units: Vec<Unit>,
    hidden: HashMap<String, JsValue>,
    /// The units around each direct evaluation.
    evaluations: &'a mut Vec<Vec<Unit>>,
}

fn atom(runtime: &mut Runtime, text: &str) -> usize {
    match runtime.intern_property_key(text) {
        PropertyKey::String(atom) => atom,
        PropertyKey::Symbol(_) => unreachable!(),
    }
}

fn contains_eval(body: &[Statement]) -> bool {
    format!("{body:?}").contains("Call(Name(\"eval\")")
}

impl Compiler<'_> {
    fn unit(&mut self) -> &mut Unit {
        self.units.last_mut().unwrap()
    }

    fn emit(&mut self, instruction: Instruction) -> usize {
        let unit = self.unit();
        unit.code.push(instruction);
        unit.code.len() - 1
    }

    fn here(&mut self) -> u32 {
        self.unit().code.len() as u32
    }

    /// Let a jump emitted earlier lead here.
    fn land(&mut self, at: usize) {
        let target = self.here();
        let code = &mut self.unit().code[at];
        *code = match *code {
            Instruction::Jump(_) => Instruction::Jump(target),
            Instruction::JumpIfFalse(_) => Instruction::JumpIfFalse(target),
            Instruction::JumpIfTrue(_) => Instruction::JumpIfTrue(target),
            Instruction::Catch(_) => Instruction::Catch(target),
            other => panic!("{other:?} does not jump"),
        };
    }

    fn key(&mut self, name: &str) -> u32 {
        let atom = atom(self.runtime, name);
        let keys = &mut self.unit().keys;
        let at = keys.iter().position(|k| *k == Some(atom));
        match at {
            Some(at) => at as u32,
            None => {
                keys.push(Some(atom));
                (keys.len() - 1) as u32
            },
        }
    }

    fn local(&mut self, name: Option<&str>, lexical: bool, constant: bool, kind: BindingKind) -> u16 {
        let name = name.map(|name| atom(self.runtime, name));
        let locals = &mut self.unit().locals;
        locals.push(LocalDefinition { name, is_lexical: lexical, is_const: constant, is_captured: false, kind });
        (locals.len() - 1) as u16
    }

    fn bind(&mut self, binding: Binding) {
        match self.unit().scopes.last_mut().unwrap() {
            Scope::Names(names) => names.push(binding),
            Scope::With(_) => panic!("a with scope declares nothing"),
        }
    }

    fn declare(&mut self, name: &str, lexical: bool, constant: bool) -> u16 {
        let index = self.local(Some(name), lexical, constant, BindingKind::Normal);
        self.bind(Binding { name: name.to_string(), place: Place::Local(index), lexical, constant, own_name: false });
        index
    }

    fn closure(&mut self, level: usize, variable: ClosureVariable) -> u16 {
        let closures = &mut self.units[level].closures;
        match closures.iter().position(|c| *c == variable) {
            Some(at) => at as u16,
            None => {
                closures.push(variable);
                (closures.len() - 1) as u16
            },
        }
    }

    /// The object environments that hide a name, the innermost first, and
    /// where it is bound behind them.
    fn resolve(&mut self, level: usize, name: &str) -> (Vec<DynamicEnvironmentSource>, Target) {
        let mut environments: Vec<DynamicEnvironmentSource> = Vec::new();
        for scope in self.units[level].scopes.clone().iter().rev() {
            match scope {
                Scope::With(index) => environments.push(DynamicEnvironmentSource::Local(*index)),
                Scope::Names(names) => {
                    if let Some(found) = names.iter().find(|b| b.name == name) {
                        let target = match found.place {
                            Place::Local(index) => Target::Local {
                                index,
                                lexical: found.lexical,
                                constant: found.constant,
                                own_name: found.own_name,
                            },
                            Place::Argument(index) => Target::Argument(index),
                        };
                        return (environments, target);
                    }
                },
            }
        }
        if level == 0 {
            return (environments, self.global(level, name));
        }
        let (outer, target) = self.resolve(level - 1, name);
        for environment in outer {
            let (source, kind) = match environment {
                DynamicEnvironmentSource::Local(index) => {
                    let local = &mut self.units[level - 1].locals[index as usize];
                    local.is_captured = true;
                    (ClosureSource::ParentLocal(index), local.kind)
                },
                DynamicEnvironmentSource::Closure(index) => {
                    (ClosureSource::ParentClosure(index), self.units[level - 1].closures[index as usize].kind)
                },
            };
            let index = self.closure(
                level,
                ClosureVariable { source, name: None, is_lexical: false, is_const: false, kind },
            );
            environments.push(DynamicEnvironmentSource::Closure(index));
        }
        let name_atom = atom(self.runtime, name);
        let target = match target {
            Target::Global(_) => self.global(level, name),
            Target::Local { index, lexical, constant, own_name } => {
                self.units[level - 1].locals[index as usize].is_captured = true;
                let kind = self.units[level - 1].locals[index as usize].kind;
                let index = self.closure(
                    level,
                    ClosureVariable {
                        source: ClosureSource::ParentLocal(index),
                        name: Some(name_atom),
                        is_lexical: lexical,
                        is_const: constant,
                        kind,
                    },
                );
                Target::Closure { index, lexical, constant, own_name }
            },
            Target::Argument(index) => {
                self.units[level - 1].parameters[index as usize].is_captured = true;
                let index = self.closure(
                    level,
                    ClosureVariable {
                        source: ClosureSource::ParentArgument(index),
                        name: Some(name_atom),
                        is_lexical: false,
                        is_const: false,
                        kind: BindingKind::Normal,
                    },
                );
                Target::Closure { index, lexical: false, constant: false, own_name: false }
            },
            Target::Closure { index, lexical, constant, own_name } => {
                let index = self.closure(
                    level,
                    ClosureVariable {
                        source: ClosureSource::ParentClosure(index),
                        name: Some(name_atom),
                        is_lexical: lexical,
                        is_const: constant,
                        kind: BindingKind::Normal,
                    },
                );
                Target::Closure { index, lexical, constant, own_name }
            },
        };
        (environments, target)
    }

    fn global(&mut self, level: usize, name: &str) -> Target {
        let key = self.runtime.intern_property_key(name);
        let lexical_object = self.runtime.realm(self.realm).unwrap().global_lexical;
        let lexical = self.runtime.has_own_property(lexical_object, key).unwrap();
        let index = self.closure(
            level,
            ClosureVariable {
                source: ClosureSource::Global,
                name: key.atom(),
                is_lexical: lexical,
                is_const: false,
                kind: BindingKind::Normal,
            },
        );
        Target::Global(index)
    }

    fn lookup(&mut self, name: &str) -> (Vec<DynamicEnvironmentSource>, Target) {
        let level = self.units.len() - 1;
        self.resolve(level, name)
    }

    fn read_target(&mut self, target: Target) {
        let instruction = match target {
            Target::Local { index, lexical: true, .. } => Instruction::GetLocalCheck(index),
            Target::Local { index, .. } => Instruction::GetLocal(index),
            Target::Argument(index) => Instruction::GetArgument(index),
            Target::Closure { index, lexical: true, .. } => Instruction::GetClosureCheck(index),
            Target::Closure { index, .. } => Instruction::GetClosure(index),
            Target::Global(index) => Instruction::GlobalGet { index, strict: true },
        };
        self.emit(instruction);
    }

    /// Store the top operand and keep it.
    fn write_target(&mut self, name: &str, target: Target) {
        let strict = self.unit().metadata.strict;
        let key = self.key(name);
        match target {
            Target::Local { own_name: true, .. } | Target::Closure { own_name: true, .. } => {
                if strict {
                    self.emit(Instruction::BindingError { index: key as u16, redeclaration: false });
                }
            },
            Target::Local { constant: true, .. } | Target::Closure { constant: true, .. } => {
                self.emit(Instruction::BindingError { index: key as u16, redeclaration: false });
            },
            Target::Local { index, lexical, .. } => {
                self.emit(if lexical { Instruction::SetLocalCheck(index) } else { Instruction::SetLocal(index) });
            },
            Target::Argument(index) => {
                self.emit(Instruction::SetArgument(index));
            },
            Target::Closure { index, lexical, .. } => {
                self.emit(if lexical { Instruction::SetClosureCheck(index) } else { Instruction::SetClosure(index) });
            },
            Target::Global(index) => {
                self.emit(Instruction::Dup);
                self.emit(Instruction::GlobalPut { index, name: key, strict, initialize: false });
            },
        }
    }

    /// Test each environment in turn; `found` runs where one has the name.
    fn through(
        &mut self,
        name: &str,
        environments: &[DynamicEnvironmentSource],
        found: &dyn Fn(&mut Self, DynamicEnvironmentSource, u32),
        missing: &dyn Fn(&mut Self),
    ) {
        let key = self.key(name);
        let mut ends: Vec<usize> = Vec::new();
        for source in environments {
            self.emit(Instruction::EnvironmentHas { source: *source, name: key });
            let next = self.emit(Instruction::JumpIfFalse(0));
            found(self, *source, key);
            ends.push(self.emit(Instruction::Jump(0)));
            self.land(next);
        }
        missing(self);
        for end in ends {
            self.land(end);
        }
    }

    fn read(&mut self, name: &str) {
        let (environments, target) = self.lookup(name);
        let strict = self.unit().metadata.strict;
        self.through(
            name,
            &environments,
            &|c, source, key| {
                c.emit(Instruction::EnvironmentGet { source, name: key, strict });
            },
            &|c| c.read_target(target),
        );
    }

    /// Push the receiver and the function of a call by name.
    fn read_callee(&mut self, name: &str) {
        let (environments, target) = self.lookup(name);
        let strict = self.unit().metadata.strict;
        self.through(
            name,
            &environments,
            &|c, source, key| {
                c.emit(Instruction::EnvironmentObject(source));
                c.emit(Instruction::EnvironmentGet { source, name: key, strict });
            },
            &|c| {
                c.emit(Instruction::Push(JsValue::Undefined));
                c.read_target(target);
            },
        );
    }

    /// Combine with the old value, if there is an operator.
    fn combine(&mut self, op: &str, value: &Expr) {
        self.expression(value);
        match op {
            "=" => {},
            "+" => {
                self.emit(Instruction::Add);
            },
            _ => {
                self.emit(Instruction::Numeric(NumericKind::Subtract));
            },
        }
    }

    fn assign_name(&mut self, op: &'static str, name: &str, value: &Expr) {
        let (environments, target) = self.lookup(name);
        if environments.is_empty() {
            if op != "=" {
                self.read_target(target);
            }
            self.combine(op, value);
            self.write_target(name, target);
            return;
        }
        let strict = self.unit().metadata.strict;
        let plain = op == "=" && matches!(value, Expr::Int(_));
        if plain {
            self.through(
                name,
                &environments,
                &|c, source, key| {
                    c.expression(value);
                    c.emit(Instruction::Dup);
                    c.emit(Instruction::EnvironmentPut { source, name: key, strict });
                },
                &|c| {
                    c.expression(value);
                    c.write_target(name, target);
                },
            );
            return;
        }
        let key = self.key(name);
        let through_reference = |c: &mut Self| {
            if op != "=" {
                c.emit(Instruction::GetRefValue(key));
            }
            c.combine(op, value);
            c.emit(Instruction::Dup);
            c.emit(Instruction::Rot3);
            c.emit(Instruction::PutRefValue(key));
        };
        self.through(
            name,
            &environments,
            &|c, source, _| {
                c.emit(Instruction::EnvironmentObject(source));
                through_reference(c);
            },
            &|c| match target {
                Target::Global(index) => {
                    c.emit(Instruction::GlobalReference(index));
                    through_reference(c);
                },
                _ => {
                    if op != "=" {
                        c.read_target(target);
                    }
                    c.combine(op, value);
                    c.write_target(name, target);
                },
            },
        );
    }

    fn symbol(&mut self, name: &str) -> JsValue {
        if let Some(symbol) = self.hidden.get(name) {
            return *symbol;
        }
        self.runtime.symbols.push(None);
        let symbol = JsValue::Symbol(SymbolRef {
            domain: self.runtime.domain_id(),
            index: self.runtime.symbols.len() - 1,
        });
        self.hidden.insert(name.to_string(), symbol);
        symbol
    }

    fn text(&mut self, text: &str) {
        let value = JsValue::String(atom(self.runtime, text));
        self.emit(Instruction::Push(value));
    }

    /// Push the elements of a list as one array.
    fn list(&mut self, list: &[Argument]) {
        let plain = list.iter().take_while(|a| !a.spread && a.value.is_some()).count();
        for argument in &list[..plain] {
            self.expression(argument.value.as_ref().unwrap());
        }
        self.emit(Instruction::CreateArray(plain as u16));
        if plain == list.len() {
            return;
        }
        self.emit(Instruction::Push(JsValue::Int(plain as i32)));
        for argument in &list[plain..] {
            match &argument.value {
                None => {
                    self.emit(Instruction::Numeric(NumericKind::Increment));
                },
                Some(value) => {
                    self.expression(value);
                    if argument.spread {
                        self.emit(Instruction::Append);
                    } else {
                        self.emit(Instruction::DefineArrayEl);
                        self.emit(Instruction::Numeric(NumericKind::Increment));
                    }
                },
            }
        }
        self.emit(Instruction::Drop);
    }

    fn spreads(list: &[Argument]) -> bool {
        list.iter().any(|a| a.spread)
    }

    fn plain_arguments(&mut self, list: &[Argument]) -> u16 {
        for argument in list {
            self.expression(argument.value.as_ref().unwrap());
        }
        list.len() as u16
    }

    /// A direct evaluation; the embedder compiles its text among the units
    /// that are open here.
    fn evaluation(&mut self, list: &[Argument]) {
        if self.units.len() > 1 {
            // Evaluated code has the caller's `this`.
            self.emit(Instruction::This);
            self.emit(Instruction::Drop);
        }
        self.read("eval");
        if Compiler::spreads(list) {
            self.list(list);
            let scope = self.evaluations.len() as u32;
            self.evaluations.push(self.units.clone());
            self.emit(Instruction::ApplyEval(scope));
            return;
        }
        let arguments = self.plain_arguments(list);
        let scope = self.evaluations.len() as u32;
        self.evaluations.push(self.units.clone());
        self.emit(Instruction::Eval { arguments, scope });
    }

    /// Compile evaluated code among the units that were open around it.
    fn evaluated(&mut self, statements: &[Statement]) -> usize {
        let strict = self.unit().metadata.strict;
        let parent = self.units.len() - 1;
        let mut names: Vec<String> = Vec::new();
        for scope in &self.units[parent].scopes {
            if let Scope::Names(bindings) = scope {
                names.extend(bindings.iter().map(|b| b.name.clone()));
            }
        }
        for variable in &self.units[parent].closures {
            if let (Some(name), false) = (variable.name, variable.source == ClosureSource::Global) {
                names.push(String::from_utf16(&self.runtime.text(name)).unwrap());
            }
        }
        let variables = self.units[parent].metadata.eval_variable_object_local.map(ClosureSource::ParentLocal).or_else(|| {
            let closures = &self.units[parent].closures;
            let at = closures.iter().position(|c| c.kind == BindingKind::EvalVariableObject);
            at.map(|at| ClosureSource::ParentClosure(at as u16))
        });
        self.units.push(fresh_unit(strict));
        self.unit().scopes.push(Scope::Names(Vec::new()));
        let result = self.local(None, false, false, BindingKind::Normal);
        self.unit().result = Some(result);
        // Code that is evaluated in turn finds all of these.
        for name in names {
            let _ = self.lookup(&name);
        }
        let variables = variables.map(|source| {
            let kind = BindingKind::EvalVariableObject;
            let variable = ClosureVariable { source, name: None, is_lexical: false, is_const: false, kind };
            DynamicEnvironmentSource::Closure(self.closure(parent + 1, variable))
        });
        match variables {
            Some(source) if !strict => {
                for statement in statements {
                    if let Statement::Declare(Declaration::Var, list) = statement {
                        for (name, _) in list {
                            let name = self.key(name);
                            self.emit(Instruction::Push(JsValue::Undefined));
                            self.emit(Instruction::EnvironmentDefine { source, name });
                        }
                    }
                }
                self.hoist(statements, false);
            },
            _ => self.hoist(statements, true),
        }
        for statement in statements {
            self.statement(statement);
        }
        self.emit(Instruction::GetLocal(result));
        self.emit(Instruction::Return);
        self.publish()
    }

    fn call(&mut self, callee: &Expr, list: &[Argument]) {
        if matches!(callee, Expr::Name(name) if name == "eval") {
            self.evaluation(list);
            return;
        }
        let method = match callee {
            Expr::Field(base, name) => {
                self.expression(base);
                let index = self.key(name);
                self.emit(Instruction::GetField { index, keep_receiver: true });
                true
            },
            Expr::Index(base, key) => {
                self.expression(base);
                self.expression(key);
                self.emit(Instruction::GetElement { keep_receiver: true, keep_key: false });
                true
            },
            Expr::Hidden(base, name) => {
                self.expression(base);
                let symbol = self.symbol(name);
                self.emit(Instruction::Push(symbol));
                self.emit(Instruction::GetElement { keep_receiver: true, keep_key: false });
                true
            },
            Expr::Name(name) => {
                let (environments, _) = self.lookup(name);
                if environments.is_empty() {
                    self.read(name);
                    false
                } else {
                    self.read_callee(name);
                    true
                }
            },
            _ => {
                self.expression(callee);
                false
            },
        };
        if Compiler::spreads(list) {
            if method {
                self.emit(Instruction::Swap);
            } else {
                self.emit(Instruction::Push(JsValue::Undefined));
            }
            self.list(list);
            self.emit(Instruction::Apply(ApplyKind::Call));
        } else {
            let arguments = self.plain_arguments(list);
            self.emit(Instruction::Call { arguments, method, tail: false });
        }
    }

    fn construct(&mut self, list: &[Argument]) {
        if Compiler::spreads(list) {
            self.list(list);
            self.emit(Instruction::Apply(ApplyKind::Construct));
        } else {
            let count = self.plain_arguments(list);
            self.emit(Instruction::Construct(count));
        }
    }

    /// Bind `this` of a derived constructor to the object on top and run its
    /// field initializers.
    fn bind_derived(&mut self) {
        let this = self.unit().derived_this.unwrap();
        self.emit(Instruction::Dup);
        self.emit(Instruction::InitializeDerived(this));
        self.emit(Instruction::ActiveFunction);
        self.emit(Instruction::RunClassInstanceInitializer);
    }

    fn update(&mut self, prefix: bool, up: bool, target: &Expr) {
        let kind = if up { NumericKind::Increment } else { NumericKind::Decrement };
        match target {
            Expr::Name(name) => {
                let (environments, target) = self.lookup(name);
                assert!(environments.is_empty());
                self.read_target(target);
                self.emit(Instruction::Numeric(NumericKind::ToNumeric));
                if !prefix {
                    self.emit(Instruction::Dup);
                }
                self.emit(Instruction::Numeric(kind));
                self.write_target(name, target);
                if !prefix {
                    self.emit(Instruction::Drop);
                }
            },
            Expr::Field(base, name) => {
                assert!(!prefix);
                self.expression(base);
                let index = self.key(name);
                self.emit(Instruction::GetField { index, keep_receiver: true });
                self.emit(Instruction::Numeric(NumericKind::ToNumeric));
                self.emit(Instruction::Dup);
                self.emit(Instruction::Numeric(kind));
                self.emit(Instruction::Rot3);
                self.emit(Instruction::Rot3);
                self.emit(Instruction::Swap);
                self.emit(Instruction::SetProperty(Some(index)));
            },
            Expr::Index(base, key) => {
                assert!(!prefix);
                self.expression(base);
                self.expression(key);
                self.emit(Instruction::GetElement { keep_receiver: true, keep_key: true });
                self.emit(Instruction::Numeric(NumericKind::ToNumeric));
                self.emit(Instruction::Dup);
                self.emit(Instruction::Numeric(kind));
                self.emit(Instruction::Foreign(FOREIGN_UPDATE));
            },
            other => panic!("cannot update {other:?}"),
        }
    }

    fn expression(&mut self, expression: &Expr) {
        match expression {
            Expr::Undefined => {
                self.emit(Instruction::Push(JsValue::Undefined));
            },
            Expr::Null => {
                self.emit(Instruction::Push(JsValue::Null));
            },
            Expr::Bool(value) => {
                self.emit(Instruction::Push(JsValue::Bool(*value)));
            },
            Expr::Int(value) => {
                self.emit(Instruction::Push(JsValue::Int(*value)));
            },
            Expr::Float(value) => {
                let value = float(self.runtime, *value);
                self.emit(Instruction::Push(value));
            },
            Expr::Big(text) => {
                let value = bigint(self.runtime, text);
                self.emit(Instruction::Push(value));
            },
            Expr::Text(text) => self.text(text),
            Expr::This => match self.unit().derived_this {
                Some(index) => {
                    self.emit(Instruction::GetLocalCheck(index));
                },
                None => {
                    self.emit(Instruction::This);
                },
            },
            Expr::NewTarget => {
                self.emit(Instruction::NewTarget);
            },
            Expr::Name(name) => self.read(name),
            Expr::Function(function) => self.function(function, FunctionRole::Plain),
            Expr::Class(class) => self.class(class),
            Expr::Object(members) => {
                self.emit(Instruction::CreateObject);
                for member in members {
                    self.member(member, true);
                }
            },
            Expr::Array(list) => self.list(list),
            Expr::Field(base, name) => {
                self.expression(base);
                let index = self.key(name);
                self.emit(Instruction::GetField { index, keep_receiver: false });
            },
            Expr::Index(base, key) => {
                self.expression(base);
                self.expression(key);
                self.emit(Instruction::GetElement { keep_receiver: false, keep_key: false });
            },
            Expr::Hidden(base, name) => {
                self.expression(base);
                let symbol = self.symbol(name);
                self.emit(Instruction::Push(symbol));
                self.emit(Instruction::GetElement { keep_receiver: false, keep_key: false });
            },
            Expr::Call(callee, list) => self.call(callee, list),
            Expr::New(callee, list) => {
                self.expression(callee);
                self.emit(Instruction::Dup);
                self.construct(list);
            },
            Expr::Super(list) => {
                self.emit(Instruction::ActiveFunction);
                self.emit(Instruction::GetSuper);
                self.emit(Instruction::NewTarget);
                self.construct(list);
                self.bind_derived();
            },
            Expr::Unary(op, value) => match (*op, &**value) {
                ("delete", Expr::Name(name)) => {
                    let (environments, target) = self.lookup(name);
                    self.through(
                        name,
                        &environments,
                        &|c, source, key| {
                            c.emit(Instruction::EnvironmentDelete { source, name: key });
                        },
                        &|c| match target {
                            Target::Global(index) => {
                                c.emit(Instruction::GlobalDelete(index));
                            },
                            _ => {
                                c.emit(Instruction::Push(JsValue::Bool(false)));
                            },
                        },
                    );
                },
                ("delete", Expr::Field(base, name)) => {
                    self.read_callee("deleteProperty");
                    self.expression(base);
                    self.text(name);
                    self.emit(Instruction::Call { arguments: 2, method: true, tail: false });
                },
                ("+", value) => {
                    self.expression(value);
                    self.emit(Instruction::Plus);
                },
                ("!", value) => {
                    self.expression(value);
                    self.emit(Instruction::Not);
                },
                ("~", value) => {
                    self.expression(value);
                    self.emit(Instruction::Numeric(NumericKind::BitNot));
                },
                ("-", value) => {
                    self.expression(value);
                    self.emit(Instruction::Numeric(NumericKind::Negate));
                },
                other => panic!("no operator {other:?}"),
            },
            Expr::Update(prefix, up, target) => self.update(*prefix, *up, target),
            Expr::Binary(op @ ("&&" | "||"), left, right) => {
                self.expression(left);
                self.emit(Instruction::Dup);
                let end = if *op == "&&" {
                    self.emit(Instruction::JumpIfFalse(0))
                } else {
                    self.emit(Instruction::JumpIfTrue(0))
                };
                self.emit(Instruction::Drop);
                self.expression(right);
                self.land(end);
            },
            Expr::Binary(op, left, right) => {
                self.expression(left);
                self.expression(right);
                let instruction = match *op {
                    "+" => Instruction::Add,
                    "-" => Instruction::Numeric(NumericKind::Subtract),
                    "*" => Instruction::Numeric(NumericKind::Multiply),
                    "/" => Instruction::Numeric(NumericKind::Divide),
                    "%" => Instruction::Numeric(NumericKind::Remainder),
                    "**" => Instruction::Numeric(NumericKind::Power),
                    "<<" => Instruction::Numeric(NumericKind::ShiftLeft),
                    ">>" => Instruction::Numeric(NumericKind::ShiftRight),
                    ">>>" => Instruction::Numeric(NumericKind::ShiftRightUnsigned),
                    "&" => Instruction::Numeric(NumericKind::BitAnd),
                    "|" => Instruction::Numeric(NumericKind::BitOr),
                    "^" => Instruction::Numeric(NumericKind::BitXor),
                    "<" => Instruction::Numeric(NumericKind::Less),
                    ">" => Instruction::Numeric(NumericKind::Greater),
                    "===" => Instruction::StrictEqual,
                    "!==" => Instruction::StrictNotEqual,
                    "in" => Instruction::Foreign(FOREIGN_IN),
                    "instanceof" => Instruction::Foreign(FOREIGN_INSTANCEOF),
                    other => panic!("no operator {other}"),
                };
                self.emit(instruction);
            },
            Expr::Choice(test, then, other) => {
                self.expression(test);
                let no = self.emit(Instruction::JumpIfFalse(0));
                self.expression(then);
                let end = self.emit(Instruction::Jump(0));
                self.land(no);
                self.expression(other);
                self.land(end);
            },
            Expr::Assign(op, target, value) => match &**target {
                Expr::Name(name) => self.assign_name(op, name, value),
                Expr::Field(base, name) => {
                    self.expression(base);
                    let index = self.key(name);
                    if *op != "=" {
                        self.emit(Instruction::GetField { index, keep_receiver: true });
                    }
                    self.combine(op, value);
                    self.emit(Instruction::Dup);
                    self.emit(Instruction::Rot3);
                    self.emit(Instruction::SetProperty(Some(index)));
                },
                Expr::Index(base, key) => {
                    assert_eq!(*op, "=");
                    self.expression(base);
                    self.expression(key);
                    self.combine(op, value);
                    self.emit(Instruction::Dup);
                    self.emit(Instruction::Rot4);
                    self.emit(Instruction::SetProperty(None));
                },
                Expr::Hidden(base, name) => {
                    assert_eq!(*op, "=");
                    self.expression(base);
                    let symbol = self.symbol(name);
                    self.emit(Instruction::Push(symbol));
                    self.combine(op, value);
                    self.emit(Instruction::Dup);
                    self.emit(Instruction::Rot4);
                    self.emit(Instruction::SetProperty(None));
                },
                other => panic!("cannot assign {other:?}"),
            },
            Expr::Comma(left, right) => {
                self.expression(left);
                self.emit(Instruction::Drop);
                self.expression(right);
            },
        }
    }

    /// Define one member on the object on top.
    fn member(&mut self, member: &Member, enumerable: bool) {
        let kind = match member.kind {
            MemberKind::Method => Some(DefineMethodKind::Method),
            MemberKind::Getter => Some(DefineMethodKind::Getter),
            MemberKind::Setter => Some(DefineMethodKind::Setter),
            _ => None,
        };
        let method = kind.map(|kind| MethodDefinition { kind, enumerable });
        let key = match &member.key {
            Key::Named(name) => Some(self.key(name)),
            Key::Computed(key) => {
                self.expression(key);
                self.emit(Instruction::ToPropertyKey);
                None
            },
            Key::Hidden(name) => {
                let symbol = self.symbol(name);
                self.emit(Instruction::Push(symbol));
                None
            },
        };
        match (method, member.value.as_ref()) {
            (Some(_), Some(Expr::Function(function))) => self.function(function, FunctionRole::Method),
            (_, Some(value)) => self.expression(value),
            (_, None) => {
                self.emit(Instruction::Push(JsValue::Undefined));
            },
        }
        self.emit(Instruction::DefineProperty { key, method });
    }

    fn class(&mut self, class: &Class) {
        self.hidden.clear();
        match &class.parent {
            Some(parent) => self.expression(parent),
            None => {
                self.emit(Instruction::Push(JsValue::Undefined));
            },
        }
        let derived = class.parent.is_some();
        let constructor = class.constructor.clone().unwrap_or_else(|| {
            Rc::new(Function {
                name: None,
                parameters: Vec::new(),
                body: Vec::new(),
                arrow: false,
                generator: false,
                strict: true,
            })
        });
        let role = match (derived, class.constructor.is_some()) {
            (false, _) => FunctionRole::BaseConstructor,
            (true, true) => FunctionRole::DerivedConstructor,
            (true, false) => FunctionRole::DefaultDerived,
        };
        self.function(&constructor, role);
        let name = JsValue::String(atom(self.runtime, class.name.as_deref().unwrap_or("")));
        self.unit().constants.push(BytecodeConstant::Value(name));
        let name = (self.unit().constants.len() - 1) as u32;
        self.emit(Instruction::DefineClass { name, has_heritage: derived });
        let mut fields: Vec<(Option<String>, Option<String>, Member)> = Vec::new();
        let mut blocks: Vec<Rc<Function>> = Vec::new();
        for (at, member) in class.members.iter().enumerate() {
            match (member.kind, &member.value) {
                (MemberKind::StaticBlock, Some(Expr::Function(block))) => blocks.push(block.clone()),
                (MemberKind::Value, _) => {
                    if let Key::Computed(key) = &member.key {
                        let name = format!("%key{at}");
                        self.expression(key);
                        self.emit(Instruction::ToPropertyKey);
                        let index = self.local(None, false, false, BindingKind::Normal);
                        self.bind(Binding {
                            name: name.clone(),
                            place: Place::Local(index),
                            lexical: false,
                            constant: false,
                            own_name: false,
                        });
                        self.emit(Instruction::PutLocal(index));
                        fields.push((None, Some(name), member.clone()));
                    } else {
                        fields.push((None, None, member.clone()));
                    }
                },
                _ => self.member(member, false),
            }
        }
        if !fields.is_empty() {
            self.initializer(ClassInitializerKind::InstanceFields, |c| {
                for (_, computed, member) in &fields {
                    c.emit(Instruction::This);
                    let key = match (&member.key, computed) {
                        (_, Some(local)) => {
                            c.read(local);
                            None
                        },
                        (Key::Named(name), None) => Some(c.key(name)),
                        (Key::Hidden(name), None) => {
                            let symbol = c.symbol(name);
                            c.emit(Instruction::Push(symbol));
                            None
                        },
                        (Key::Computed(_), None) => unreachable!(),
                    };
                    match &member.value {
                        Some(value) => c.expression(value),
                        None => {
                            c.emit(Instruction::Push(JsValue::Undefined));
                        },
                    }
                    if computed.is_some() && matches!(member.value, Some(Expr::Function(_))) {
                        c.emit(Instruction::SetComputedName);
                    }
                    c.emit(Instruction::DefineProperty { key, method: None });
                    c.emit(Instruction::Drop);
                }
            });
            self.emit(Instruction::InstallClassInstanceInitializer);
        }
        self.emit(Instruction::Drop);
        if !blocks.is_empty() {
            self.initializer(ClassInitializerKind::StaticElements, |c| {
                for block in &blocks {
                    c.function(block, FunctionRole::StaticBlock);
                    c.emit(Instruction::RunClassStaticBlock);
                }
            });
            self.emit(Instruction::RunClassStaticInitializer);
        }
    }

    /// Push a synthetic function of a class.
    fn initializer(&mut self, kind: ClassInitializerKind, body: impl Fn(&mut Self)) {
        let mut unit = fresh_unit(true);
        unit.metadata.class_initializer_kind = Some(kind);
        self.units.push(unit);
        body(self);
        self.emit(Instruction::ReturnUndefined);
        self.finish_function();
    }

    /// Publish the unit on top and push a function made of it.
    fn finish_function(&mut self) {
        let bytecode = self.publish();
        let constants = &mut self.unit().constants;
        constants.push(BytecodeConstant::Function(bytecode));
        let index = (constants.len() - 1) as u32;
        self.emit(Instruction::InstantiateClosure(index));
    }

    fn publish(&mut self) -> usize {
        let mut unit = self.units.pop().unwrap();
        unit.metadata.closure_count = unit.closures.len() as u16;
        self.runtime.code.push(FunctionBytecode {
            code: unit.code,
            constants: unit.constants,
            local_definitions: unit.locals,
            argument_definitions: unit.parameters,
            closure_variables: unit.closures,
            property_key_atoms: unit.keys,
            metadata: unit.metadata,
            arg_eval_variable_object_local: None,
            realm: self.realm,
        });
        self.runtime.code.len() - 1
    }

    fn function(&mut self, function: &Function, role: FunctionRole) {
        let mut unit = fresh_unit(function.strict);
        unit.metadata.function_kind = if function.generator { FunctionKind::Generator } else { FunctionKind::Normal };
        let plain = role == FunctionRole::Plain && !function.arrow;
        unit.metadata.constructor_kind = match role {
            FunctionRole::BaseConstructor => ConstructorKind::Base,
            FunctionRole::DerivedConstructor | FunctionRole::DefaultDerived => ConstructorKind::Derived,
            _ if plain && !function.generator => ConstructorKind::Base,
            _ => ConstructorKind::NotConstructor,
        };
        unit.metadata.has_prototype = plain;
        unit.class_constructor = role == FunctionRole::BaseConstructor;
        if role == FunctionRole::StaticBlock {
            unit.metadata.class_initializer_kind = Some(ClassInitializerKind::StaticBlock);
        }
        let given = function.name.as_ref().map(|name| name.trim_start_matches('=').to_string());
        unit.metadata.name = given.as_ref().map(|name| atom(self.runtime, name));
        self.units.push(unit);
        self.unit().scopes.push(Scope::Names(Vec::new()));
        let owns_name = function.name.as_ref().is_some_and(|name| !name.starts_with('='));
        if plain && owns_name {
            let name = given.clone().unwrap();
            let index = self.local(Some(&name), false, false, BindingKind::FunctionName);
            self.unit().metadata.function_name_local = Some(index);
            self.bind(Binding { name, place: Place::Local(index), lexical: false, constant: false, own_name: true });
        }
        if matches!(role, FunctionRole::DerivedConstructor | FunctionRole::DefaultDerived) {
            let this = self.local(None, true, false, BindingKind::DerivedThis);
            self.unit().derived_this = Some(this);
        }
        if contains_eval(&function.body) {
            let index = self.local(None, false, false, BindingKind::EvalVariableObject);
            self.unit().metadata.eval_variable_object_local = Some(index);
            self.emit(Instruction::VariableEnvironment);
            self.emit(Instruction::PutLocal(index));
            if !function.strict {
                self.unit().scopes.push(Scope::With(index));
            }
        }
        self.unit().scopes.push(Scope::Names(Vec::new()));
        self.parameters(function);
        if self.unit().class_constructor {
            self.emit(Instruction::This);
            self.emit(Instruction::ActiveFunction);
            self.emit(Instruction::RunClassInstanceInitializer);
            self.emit(Instruction::Drop);
        }
        self.hoist(&function.body, true);
        for statement in &function.body {
            self.statement(statement);
        }
        match self.unit().derived_this {
            Some(this) => {
                if role == FunctionRole::DefaultDerived {
                    self.emit(Instruction::InitDerivedConstructor);
                    self.bind_derived();
                    self.emit(Instruction::Drop);
                }
                self.emit(Instruction::Push(JsValue::Undefined));
                self.emit(Instruction::ReturnDerived(this));
            },
            None => {
                self.emit(Instruction::ReturnUndefined);
            },
        }
        self.finish_function();
    }

    fn parameters(&mut self, function: &Function) {
        let simple = function.parameters.iter().all(|p| p.default.is_none() && !p.rest);
        for parameter in &function.parameters {
            if parameter.rest {
                continue;
            }
            let name = Some(atom(self.runtime, &parameter.name));
            let parameters = &mut self.unit().parameters;
            parameters.push(LocalDefinition {
                name,
                is_lexical: false,
                is_const: false,
                is_captured: false,
                kind: BindingKind::Normal,
            });
            let index = (parameters.len() - 1) as u16;
            if simple {
                self.bind(Binding {
                    name: parameter.name.clone(),
                    place: Place::Argument(index),
                    lexical: false,
                    constant: false,
                    own_name: false,
                });
            }
        }
        let mentions = format!("{:?}", function.body).contains("Name(\"arguments\")");
        if mentions && !function.arrow {
            let index = self.declare("arguments", false, false);
            let mapped = simple && !function.strict;
            self.emit(Instruction::Arguments { mapped });
            self.emit(Instruction::PutLocal(index));
        }
        if simple {
            return;
        }
        for parameter in &function.parameters {
            self.declare(&parameter.name, true, false);
        }
        let mut at: u16 = 0;
        for parameter in &function.parameters {
            let (_, target) = self.lookup(&parameter.name);
            let Target::Local { index, .. } = target else { panic!("a parameter is a local here") };
            if parameter.rest {
                self.emit(Instruction::Rest(at));
            } else {
                self.emit(Instruction::GetArgument(at));
                at += 1;
                if let Some(default) = &parameter.default {
                    self.emit(Instruction::Dup);
                    self.emit(Instruction::Push(JsValue::Undefined));
                    self.emit(Instruction::StrictEqual);
                    let supplied = self.emit(Instruction::JumpIfFalse(0));
                    self.emit(Instruction::Drop);
                    self.expression(default);
                    self.land(supplied);
                }
                self.emit(Instruction::Dup);
                self.emit(Instruction::PutArgument(at - 1));
            }
            self.emit(Instruction::InitializeLocal(index));
        }
        // The body has variables of its own that start with the parameters.
        self.unit().scopes.push(Scope::Names(Vec::new()));
        for (index, parameter) in function.parameters.iter().filter(|p| !p.rest).enumerate() {
            self.bind(Binding {
                name: parameter.name.clone(),
                place: Place::Argument(index as u16),
                lexical: false,
                constant: false,
                own_name: false,
            });
        }
    }

    fn bound_here(&mut self, name: &str) -> bool {
        match self.unit().scopes.last().unwrap() {
            Scope::Names(names) => names.iter().any(|b| b.name == name),
            Scope::With(_) => false,
        }
    }

    fn hoist_vars(&mut self, statements: &[Statement]) {
        for statement in statements {
            match statement {
                Statement::Declare(Declaration::Var, list) => {
                    for (name, _) in list {
                        if !self.bound_here(name) {
                            self.declare(name, false, false);
                        }
                    }
                },
                Statement::If(_, then, other) => {
                    self.hoist_vars(std::slice::from_ref(then));
                    if let Some(other) = other {
                        self.hoist_vars(std::slice::from_ref(other));
                    }
                },
                Statement::While(_, body) | Statement::With(_, body) => self.hoist_vars(std::slice::from_ref(body)),
                Statement::For(init, _, _, body) => {
                    if let Some(init) = init {
                        self.hoist_vars(std::slice::from_ref(init));
                    }
                    self.hoist_vars(std::slice::from_ref(body));
                },
                Statement::Block(body) => self.hoist_vars(body),
                Statement::Try(body, handler, cleanup) => {
                    self.hoist_vars(body);
                    if let Some((_, handler)) = handler {
                        self.hoist_vars(handler);
                    }
                    if let Some(cleanup) = cleanup {
                        self.hoist_vars(cleanup);
                    }
                },
                _ => {},
            }
        }
    }

    /// Declare the names of a scope and make its functions.
    fn hoist(&mut self, statements: &[Statement], whole: bool) {
        if whole {
            self.hoist_vars(statements);
        }
        for statement in statements {
            match statement {
                Statement::Declare(kind, list) if *kind != Declaration::Var => {
                    for (name, _) in list {
                        self.declare(name, true, *kind == Declaration::Const);
                    }
                },
                Statement::Class(class) => {
                    self.declare(class.name.as_ref().unwrap(), true, false);
                },
                Statement::Function(function) => {
                    self.declare(function.name.as_ref().unwrap(), false, false);
                },
                _ => {},
            }
        }
        for statement in statements {
            if let Statement::Function(function) = statement {
                let name = function.name.clone().unwrap();
                let mut copy = (**function).clone();
                copy.name = Some(format!("={name}"));
                self.function(&copy, FunctionRole::Plain);
                let (_, target) = self.lookup(&name);
                self.write_target(&name, target);
                self.emit(Instruction::Drop);
            }
        }
    }

    fn block(&mut self, statements: &[Statement]) {
        self.unit().scopes.push(Scope::Names(Vec::new()));
        let first = self.unit().locals.len();
        let names: Vec<String> = statements
            .iter()
            .flat_map(|s| match s {
                Statement::Declare(kind, list) if *kind != Declaration::Var => list.iter().map(|(n, _)| n.clone()).collect(),
                Statement::Class(class) => vec![class.name.clone().unwrap()],
                _ => Vec::new(),
            })
            .collect();
        let at = self.unit().code.len();
        self.hoist(statements, false);
        // The scope starts with its lexical variables in their dead zone, so
        // the resets stand before the functions that capture them.
        let made: Vec<Instruction> = self.unit().code.drain(at..).collect();
        for offset in 0..names.len() {
            self.emit(Instruction::ResetLocal((first + offset) as u16));
        }
        self.unit().code.extend(made);
        for statement in statements {
            self.statement(statement);
        }
        for offset in 0..names.len() {
            self.emit(Instruction::CloseLocal((first + offset) as u16));
        }
        self.unit().scopes.pop();
    }

    fn initialize(&mut self, name: &str) {
        let (environments, target) = self.lookup(name);
        match target {
            Target::Local { index, lexical: true, .. } => {
                assert!(environments.is_empty());
                self.emit(Instruction::InitializeLocal(index));
            },
            Target::Global(index) => {
                let key = self.key(name);
                self.emit(Instruction::GlobalPut { index, name: key, strict: true, initialize: true });
            },
            other => panic!("{name} is no lexical variable: {other:?}"),
        }
    }

    fn return_value(&mut self) {
        // Each open statement is left in turn: its region is closed around
        // the value and its cleanup runs.
        let regions = self.unit().regions.clone();
        for at in (0..regions.len()).rev() {
            self.emit(Instruction::NipCatch);
            if let Some(cleanup) = &regions[at].cleanup {
                let inner = self.unit().regions.split_off(at);
                self.block(cleanup);
                self.unit().regions.extend(inner);
            }
        }
        match self.unit().derived_this {
            Some(this) => self.emit(Instruction::ReturnDerived(this)),
            None => self.emit(Instruction::Return),
        };
    }

    fn protected(&mut self, cleanup: Option<Vec<Statement>>, body: &dyn Fn(&mut Self)) -> usize {
        let handler = self.emit(Instruction::Catch(0));
        self.unit().regions.push(Region { cleanup });
        body(self);
        self.unit().regions.pop();
        self.emit(Instruction::DropCatch);
        handler
    }

    fn try_catch(&mut self, body: &[Statement], handler: &Option<(Option<String>, Vec<Statement>)>) {
        let Some((name, handler)) = handler else {
            self.block(body);
            return;
        };
        let caught = self.protected(None, &|c| c.block(body));
        let end = self.emit(Instruction::Jump(0));
        self.land(caught);
        self.unit().scopes.push(Scope::Names(Vec::new()));
        match name {
            Some(name) => {
                let index = self.declare(name, false, false);
                self.emit(Instruction::PutLocal(index));
                self.block(handler);
                self.emit(Instruction::CloseLocal(index));
            },
            None => {
                self.emit(Instruction::Drop);
                self.block(handler);
            },
        }
        self.unit().scopes.pop();
        self.land(end);
    }

    fn statement(&mut self, statement: &Statement) {
        match statement {
            Statement::Declare(kind, list) => {
                for (name, value) in list {
                    match (kind, value) {
                        (Declaration::Var, None) => {},
                        (Declaration::Var, Some(value)) => {
                            self.assign_name("=", name, value);
                            self.emit(Instruction::Drop);
                        },
                        (_, value) => {
                            match value {
                                Some(value) => self.expression(value),
                                None => {
                                    self.emit(Instruction::Push(JsValue::Undefined));
                                },
                            }
                            self.initialize(name);
                        },
                    }
                }
            },
            Statement::Function(_) => {},
            Statement::Class(class) => {
                self.class(class);
                self.initialize(class.name.as_ref().unwrap());
            },
            Statement::Expression(value) => {
                self.expression(value);
                match self.unit().result {
                    Some(index) => self.emit(Instruction::PutLocal(index)),
                    None => self.emit(Instruction::Drop),
                };
            },
            Statement::If(test, then, other) => {
                self.expression(test);
                let no = self.emit(Instruction::JumpIfFalse(0));
                self.statement(then);
                let end = self.emit(Instruction::Jump(0));
                self.land(no);
                if let Some(other) = other {
                    self.statement(other);
                }
                self.land(end);
            },
            Statement::While(test, body) => {
                let start = self.here();
                self.expression(test);
                let end = self.emit(Instruction::JumpIfFalse(0));
                self.statement(body);
                self.emit(Instruction::Jump(start));
                self.land(end);
            },
            Statement::For(init, test, step, body) => {
                self.unit().scopes.push(Scope::Names(Vec::new()));
                if let Some(init) = init {
                    if self.units.len() > 1 || !matches!(**init, Statement::Declare(Declaration::Var, _)) {
                        self.hoist(std::slice::from_ref(init), false);
                    }
                    self.statement(init);
                }
                let start = self.here();
                self.expression(test);
                let end = self.emit(Instruction::JumpIfFalse(0));
                self.statement(body);
                self.expression(step);
                self.emit(Instruction::Drop);
                self.emit(Instruction::Jump(start));
                self.land(end);
                self.unit().scopes.pop();
            },
            Statement::Return(value) => {
                match value {
                    Some(value) => self.expression(value),
                    None => {
                        self.emit(Instruction::Push(JsValue::Undefined));
                    },
                }
                self.return_value();
            },
            Statement::Throw(value) => {
                self.expression(value);
                self.emit(Instruction::Throw);
            },
            Statement::Try(body, handler, cleanup) => match cleanup {
                None => self.try_catch(body, handler),
                Some(cleanup) => {
                    let caught = self.protected(Some(cleanup.clone()), &|c| c.try_catch(body, handler));
                    self.block(cleanup);
                    let end = self.emit(Instruction::Jump(0));
                    self.land(caught);
                    self.block(cleanup);
                    self.emit(Instruction::Throw);
                    self.land(end);
                },
            },
            Statement::With(object, body) => {
                self.expression(object);
                self.emit(Instruction::ToObject);
                let index = self.local(None, false, false, BindingKind::WithObject);
                self.emit(Instruction::InitializeWith(index));
                self.unit().scopes.push(Scope::With(index));
                self.statement(body);
                self.unit().scopes.pop();
            },
            Statement::Block(body) => self.block(body),
        }
    }
}

#[derive(Clone, Copy, Debug, PartialEq)]
enum FunctionRole {
    Plain,
    Method,
    BaseConstructor,
    DerivedConstructor,
    DefaultDerived,
    StaticBlock,
}

fn fresh_unit(strict: bool) -> Unit {
    Unit {
        code: Vec::new(),
        constants: Vec::new(),
        locals: Vec::new(),
        parameters: Vec::new(),
        closures: Vec::new(),
        keys: Vec::new(),
        scopes: Vec::new(),
        regions: Vec::new(),
        metadata: FunctionMetadata {
            function_kind: FunctionKind::Normal,
            constructor_kind: ConstructorKind::NotConstructor,
            class_initializer_kind: None,
            strict,
            closure_count: 0,
            function_name_local: None,
            eval_variable_object_local: None,
            strip_variable_debug: false,
            name: None,
            has_prototype: false,
        },
        derived_this: None,
        result: None,
        class_constructor: false,
    }
}

fn float(runtime: &mut Runtime, value: f64) -> JsValue {
    let text = format!("{value}");
    let text = atom(runtime, &text);
    runtime.number_texts.push(NumberText { bits: value.to_bits(), text });
    JsValue::Float(value.to_bits())
}

fn bigint(runtime: &mut Runtime, text: &str) -> JsValue {
    let text = atom(runtime, text);
    runtime.bigint_texts.push(text);
    JsValue::BigInt(runtime.bigint_texts.len() - 1)
}

/// What one measured execution cost.
#[derive(Clone, Copy, Debug, Default)]
struct Profile {
    maximum_frame_depth: usize,
    frames_pushed: u64,
    owned_bridge_exits: u64,
    owned_sync_call_bridges: u64,
}

struct Host {
    runtime: Runtime,
    registry: ExecutionRegistry,
    profile: Profile,
    nesting: usize,
    maps: HashMap<usize, Vec<(JsValue, JsValue)>>,
    proxies: HashMap<usize, (JsValue, JsValue)>,
    evaluations: Vec<Vec<Unit>>,
}

/// Native functions: the path they are found under, the number of arguments
/// that their bodies may read, and whether they construct.
const NATIVES: [(&str, u8, bool); 31] = [
    ("Object", 1, true),
    ("Object.defineProperty", 3, false),
    ("Object.create", 2, false),
    ("Object.setPrototypeOf", 2, false),
    ("Object.getPrototypeOf", 1, false),
    ("Symbol", 1, false),
    ("Function", 0, true),
    ("Function.prototype.bind", 1, false),
    ("Function.prototype.call", 1, false),
    ("parseInt", 2, false),
    ("Reflect", 0, false),
    ("Reflect.get", 2, false),
    ("String", 1, true),
    ("String.fromCharCode", 0, false),
    ("Math", 0, false),
    ("Math.abs", 1, false),
    ("Math.min", 0, false),
    ("Math.max", 0, false),
    ("Array", 1, true),
    ("Array.prototype.map", 1, false),
    ("Array.prototype.push", 0, false),
    ("Number", 1, true),
    ("Number.prototype.valueOf", 0, false),
    ("Map", 0, true),
    ("Map.prototype.get", 1, false),
    ("Map.prototype.set", 2, false),
    ("Uint8Array", 1, true),
    ("Proxy", 2, true),
    ("deleteProperty", 2, false),
    ("Array.prototype.join", 1, false),
    ("eval", 1, false),
];

fn native_target(code: u32) -> NativeFunctionId {
    NativeFunctionId {
        code,
        cproto: NativeCProto::Generic,
        uses_calling_realm: false,
        registered: true,
        weight: 1,
        family: None,
        hidden: false,
    }
}

fn hidden(value: JsValue) -> PropertySlot {
    PropertySlot::Data { value, writable: true, enumerable: false, configurable: true }
}

impl Host {
    fn new(domain: u64) -> Host {
        Host {
            runtime: Runtime::new(domain),
            registry: ExecutionRegistry::new(),
            profile: Profile::default(),
            nesting: 0,
            maps: HashMap::new(),
            proxies: HashMap::new(),
            evaluations: Vec::new(),
        }
    }

    fn define(&mut self, object: ObjectRef, name: &str, slot: PropertySlot) {
        let key = self.runtime.intern_property_key(name);
        assert!(self.runtime.define_own_property(object, key, slot).unwrap());
    }

    fn own(&mut self, object: ObjectRef, name: &str) -> JsValue {
        let key = self.runtime.intern_property_key(name);
        match self.runtime.get_own_property(object, key).unwrap() {
            Some(PropertyDescriptor::Data { value, .. }) => value,
            other => panic!("{name} is {other:?}"),
        }
    }

    fn string(&mut self, text: &str) -> JsValue {
        JsValue::String(atom(&mut self.runtime, text))
    }

    fn error_prototype(&mut self, parent: ObjectRef, name: &str) -> ObjectRef {
        let prototype = self.runtime.new_object(Some(parent));
        let name = self.string(name);
        self.define(prototype, "name", hidden(name));
        prototype
    }

    fn new_context(&mut self) -> usize {
        let runtime = &mut self.runtime;
        let object_prototype = runtime.new_object(None);
        let plain = |runtime: &mut Runtime| runtime.new_object(Some(object_prototype));
        let function_prototype = plain(runtime);
        let array_prototype = plain(runtime);
        let string_prototype = plain(runtime);
        let number_prototype = plain(runtime);
        let boolean_prototype = plain(runtime);
        let symbol_prototype = plain(runtime);
        let bigint_prototype = plain(runtime);
        let promise_prototype = plain(runtime);
        let global_object = runtime.allocate(HeapObject {
            kind: ObjectKind::GlobalObject,
            payload: ObjectPayload::GlobalObject,
            prototype: Some(object_prototype),
            is_constructor: false,
            extensible: true,
        });
        let global_lexical = runtime.new_object(None);
        let type_error_prototype = self.error_prototype(object_prototype, "TypeError");
        let reference_error_prototype = self.error_prototype(object_prototype, "ReferenceError");
        let range_error_prototype = self.error_prototype(object_prototype, "RangeError");
        let syntax_error_prototype = self.error_prototype(object_prototype, "SyntaxError");
        let internal_error_prototype = self.error_prototype(object_prototype, "InternalError");
        self.runtime.realms.push(Realm {
            object_prototype,
            function_prototype,
            array_prototype,
            string_prototype,
            number_prototype,
            boolean_prototype,
            symbol_prototype,
            bigint_prototype,
            promise_prototype,
            type_error_prototype,
            reference_error_prototype,
            range_error_prototype,
            syntax_error_prototype,
            internal_error_prototype,
            global_object,
            global_lexical,
        });
        let realm = self.runtime.realms.len() - 1;
        self.define(global_object, "globalThis", hidden(JsValue::Object(global_object)));
        let prototypes = [
            ("Object", object_prototype),
            ("Function", function_prototype),
            ("Array", array_prototype),
            ("String", string_prototype),
            ("Number", number_prototype),
        ];
        for (code, (path, minimum, constructs)) in NATIVES.iter().enumerate() {
            let function = self.runtime.allocate(HeapObject {
                kind: ObjectKind::Function,
                payload: ObjectPayload::NativeFunction(NativeFunctionData {
                    target: native_target(code as u32),
                    realm: Some(realm),
                    min_readable_args: *minimum,
                    internal: InternalCallableData::Nothing,
                }),
                prototype: Some(function_prototype),
                is_constructor: *constructs,
                extensible: true,
            });
            if *constructs {
                let prototype = prototypes.iter().find(|(name, _)| name == path).map(|(_, p)| *p);
                let prototype = prototype.unwrap_or_else(|| self.runtime.new_object(Some(object_prototype)));
                self.define(function, "prototype", hidden(JsValue::Object(prototype)));
            }
            let mut owner = global_object;
            let mut names = path.split('.').peekable();
            while let Some(name) = names.next() {
                if names.peek().is_none() {
                    // The string constructor is made by its first access.
                    let slot = if *path == "String" {
                        PropertySlot::AutoInit { value: JsValue::Object(function) }
                    } else {
                        hidden(JsValue::Object(function))
                    };
                    self.define(owner, name, slot);
                } else {
                    match self.own(owner, name) {
                        JsValue::Object(object) => owner = object,
                        other => panic!("{name} is {other:?}"),
                    }
                }
            }
        }
        let JsValue::Object(symbol) = self.own(global_object, "Symbol") else { panic!() };
        for (index, name) in ["toPrimitive", "unscopables", "iterator"].iter().enumerate() {
            let value = JsValue::Symbol(SymbolRef { domain: self.runtime.domain_id(), index });
            self.define(symbol, name, hidden(value));
        }
        for (name, prototype) in [("TypeError", type_error_prototype), ("RangeError", range_error_prototype)] {
            let constructor = self.runtime.new_object(Some(function_prototype));
            self.define(constructor, "prototype", hidden(JsValue::Object(prototype)));
            self.define(global_object, name, hidden(JsValue::Object(constructor)));
        }
        realm
    }

    fn type_error(&mut self, realm: usize, text: &'static str) -> Completion {
        let error = Error::new(ErrorKind::Type, text);
        Completion::Throw(self.runtime.new_native_error_from_error(realm, NativeErrorKind::Type, error).unwrap())
    }

    fn declare(&mut self, realm: usize, name: &str, kind: Declaration) {
        let data = self.runtime.realm(realm).unwrap();
        let key = self.runtime.intern_property_key(name);
        let lexical = kind != Declaration::Var;
        let owner = if lexical { data.global_lexical } else { data.global_object };
        if self.runtime.has_own_property(owner, key).unwrap() {
            return;
        }
        let cell = self.runtime.new_var_ref(VarRef {
            value: if lexical { None } else { Some(JsValue::Undefined) },
            is_const: kind == Declaration::Const,
            is_lexical: lexical,
            kind: BindingKind::Normal,
        });
        let slot = PropertySlot::VarRef { cell, enumerable: true, configurable: false };
        self.runtime.add_property(PropertyEntry { owner: owner.index, key, slot });
    }

    fn create_global_lexical(&mut self, realm: usize, name: &str, is_const: bool, initial: Option<JsValue>) {
        self.declare(realm, name, if is_const { Declaration::Const } else { Declaration::Let });
        if let Some(value) = initial {
            let key = self.runtime.intern_property_key(name);
            let object = self.runtime.realm(realm).unwrap().global_lexical;
            let cell = self.runtime.own_var_ref_root(object, key).unwrap().unwrap();
            self.runtime.write_var_ref(cell, value).unwrap();
        }
    }

    fn declare_all(&mut self, realm: usize, statements: &[Statement], top: bool) {
        for statement in statements {
            match statement {
                Statement::Declare(kind, list) if *kind == Declaration::Var || top => {
                    for (name, _) in list {
                        self.declare(realm, name, *kind);
                    }
                },
                Statement::Function(function) if top => {
                    self.declare(realm, function.name.as_ref().unwrap(), Declaration::Var);
                },
                Statement::Class(class) if top => {
                    self.declare(realm, class.name.as_ref().unwrap(), Declaration::Let);
                },
                Statement::For(Some(init), _, _, body) => {
                    self.declare_all(realm, std::slice::from_ref(init), false);
                    self.declare_all(realm, std::slice::from_ref(body), false);
                },
                Statement::While(_, body) => self.declare_all(realm, std::slice::from_ref(body), false),
                Statement::Block(body) => self.declare_all(realm, body, false),
                _ => {},
            }
        }
    }

    /// Run a program; a throw is the error.
    fn try_eval(&mut self, realm: usize, source: &str) -> Result<JsValue, JsValue> {
        let statements = Parser { tokens: tokens(source), at: 0, strict: false }.program();
        self.declare_all(realm, &statements, true);
        let mut compiler = Compiler {
            runtime: &mut self.runtime,
            realm,
            units: vec![fresh_unit(false)],
            hidden: HashMap::new(),
            evaluations: &mut self.evaluations,
        };
        compiler.unit().scopes.push(Scope::Names(Vec::new()));
        let result = compiler.local(None, false, false, BindingKind::Normal);
        compiler.unit().result = Some(result);
        for statement in &statements {
            if let Statement::Function(function) = statement {
                let name = function.name.clone().unwrap();
                let mut copy = (**function).clone();
                copy.name = Some(format!("={name}"));
                compiler.function(&copy, FunctionRole::Plain);
                let (_, target) = compiler.lookup(&name);
                compiler.write_target(&name, target);
                compiler.emit(Instruction::Drop);
            }
        }
        for statement in &statements {
            compiler.statement(statement);
        }
        compiler.emit(Instruction::GetLocal(result));
        compiler.emit(Instruction::Return);
        let bytecode = compiler.publish();
        let callable = self.link(realm, bytecode);
        let entry = self.callable_entry(realm, callable, JsValue::Undefined, Vec::new());
        match self.execute(entry, ExecutionLimits::default()).unwrap() {
            Completion::Return(value) => Ok(value),
            Completion::Throw(value) => Err(value),
        }
    }

    /// A function of a realm made from code whose cells are all global.
    fn link(&mut self, realm: usize, bytecode: usize) -> CallableRef {
        let data = self.runtime.realm(realm).unwrap();
        let names: Vec<usize> = self.runtime.code[bytecode]
            .closure_variables
            .iter()
            .map(|variable| {
                assert_eq!(variable.source, ClosureSource::Global);
                variable.name.unwrap()
            })
            .collect();
        let cells: Vec<usize> = names.iter().map(|name| self.runtime.link_global(data, *name).unwrap()).collect();
        CallableRef { object: self.runtime.new_function(data, bytecode, cells).unwrap() }
    }

    fn eval(&mut self, realm: usize, source: &str) -> JsValue {
        match self.try_eval(realm, source) {
            Ok(value) => value,
            Err(value) => panic!("{source} threw {value:?}: {}", self.describe(value)),
        }
    }

    fn eval_object(&mut self, realm: usize, source: &str) -> ObjectRef {
        match self.eval(realm, source) {
            JsValue::Object(object) => object,
            other => panic!("{source} gave {other:?}"),
        }
    }

    fn describe(&mut self, value: JsValue) -> String {
        match value {
            JsValue::Object(object) => self.text_property(0, object, "message"),
            JsValue::String(atom) => String::from_utf16(&self.runtime.text(atom)).unwrap(),
            other => format!("{other:?}"),
        }
    }

    fn get_property(&mut self, realm: usize, object: ObjectRef, name: &str) -> JsValue {
        let key = self.runtime.intern_property_key(name);
        self.get_key(realm, object, key)
    }

    fn get_key(&mut self, realm: usize, object: ObjectRef, key: PropertyKey) -> JsValue {
        match self.get(realm, JsValue::Object(object), key) {
            Completion::Return(value) => value,
            Completion::Throw(value) => panic!("the read threw {value:?}"),
        }
    }

    fn text_property(&mut self, realm: usize, object: ObjectRef, name: &str) -> String {
        match self.get_property(realm, object, name) {
            JsValue::String(atom) => String::from_utf16(&self.runtime.text(atom)).unwrap(),
            other => panic!("{name} is {other:?}"),
        }
    }

    /// The frame of a bytecode call from outside.
    fn callable_entry(&mut self, realm: usize, callable: CallableRef, this: JsValue, arguments: Vec<JsValue>) -> FrameEntry {
        let execution = self.runtime.bytecode_for_callable(callable).unwrap();
        let CallableExecution::Bytecode { bytecode, .. } = execution else { panic!("expected bytecode") };
        let prepared = self
            .runtime
            .prepare_bytecode_frame(callable, this, JsValue::Undefined, &arguments, bytecode)
            .unwrap();
        FrameEntry {
            executable: prepared.executable,
            realm: prepared.realm,
            cold: FrameCold::fresh(&prepared, callable, realm, None),
            storage: FrameStorage {
                original_arguments: arguments,
                parameters: prepared.arguments,
                locals: prepared.locals,
            },
        }
    }

    fn entry(&mut self, realm: usize, source: &str, arguments: Vec<JsValue>) -> FrameEntry {
        let function = self.eval_object(realm, source);
        let callable = self.runtime.as_callable(function).unwrap().expect("expected function");
        self.callable_entry(realm, callable, JsValue::Undefined, arguments)
    }

    fn observe(&mut self, execution: &RunningExecution) {
        if self.nesting == 1 {
            let profile = &mut self.profile;
            profile.maximum_frame_depth = profile.maximum_frame_depth.max(execution.frames.frames.len());
            profile.frames_pushed = profile.frames_pushed.max(execution.frames.next_generation - 1);
        }
    }

    /// Run an entry to its end, one instruction at a time.
    fn execute(&mut self, entry: FrameEntry, limits: ExecutionLimits) -> Result<Completion, Error> {
        self.nesting += 1;
        let mut fuel: u64 = 2;
        let exit = execute(&mut self.runtime, &mut self.registry, entry, limits, &mut fuel);
        let result = self.finish(exit);
        self.nesting -= 1;
        result
    }

    fn execute_running(&mut self, execution: RunningExecution) -> Result<Completion, Error> {
        self.nesting += 1;
        let mut fuel: u64 = 2;
        let exit = run_frames(&mut self.runtime, &mut self.registry, execution, &mut fuel);
        let result = self.finish(exit);
        self.nesting -= 1;
        result
    }

    /// Measure one execution.
    fn measure(&mut self, entry: FrameEntry) -> (Completion, Profile) {
        self.profile = Profile::default();
        let completion = self.execute(entry, ExecutionLimits::default()).unwrap();
        (completion, self.profile)
    }

    fn finish(&mut self, exit: Result<RunningExit, Error>) -> Result<Completion, Error> {
        let mut exit = exit;
        loop {
            let mut fuel: u64 = 2;
            exit = match exit? {
                RunningExit::Complete(completion) => return Ok(completion),
                RunningExit::Interrupted(continuation) => {
                    self.observe(&continuation.execution);
                    continuation.resume(&mut self.runtime, &mut self.registry, &mut fuel)
                },
                RunningExit::Call(continuation)
                    if matches!(
                        continuation.execution.pending_call,
                        Some(PendingCall { request: PendingRequest::Eval { .. }, .. })
                    ) =>
                {
                    self.observe(&continuation.execution);
                    let mut continuation = continuation;
                    match self.evaluate(&mut continuation.execution) {
                        Some(completion) => {
                            continuation.reply(&mut self.runtime, &mut self.registry, completion, &mut fuel)
                        },
                        None => continuation.resume(&mut self.runtime, &mut self.registry, &mut fuel),
                    }
                },
                RunningExit::Call(continuation) => {
                    self.observe(&continuation.execution);
                    let completion = self.answer(&continuation.execution);
                    continuation.reply(&mut self.runtime, &mut self.registry, completion, &mut fuel)
                },
                RunningExit::RootHandoff(continuation) => {
                    self.observe(&continuation.execution);
                    if self.nesting == 1 {
                        self.profile.owned_bridge_exits += 1;
                    }
                    let mut continuation = continuation;
                    if let Err(error) = self.complete_instruction(&mut continuation) {
                        continuation.abandon(&mut self.runtime, &mut self.registry);
                        return Err(error);
                    }
                    continuation.resume(&mut self.runtime, &mut self.registry, &mut fuel)
                },
            };
        }
    }

    fn count_call(&mut self) {
        if self.nesting == 1 {
            self.profile.owned_sync_call_bridges += 1;
        }
    }

    /// Do what a pending call asks for.
    fn answer(&mut self, execution: &RunningExecution) -> Completion {
        let request = execution.pending_call.unwrap().request;
        let id = execution.frames.current_id().unwrap();
        let frame = execution.frames.current(id).unwrap();
        match request {
            PendingRequest::Native { callable, receiver, count, .. } => {
                self.count_call();
                let arguments = execution.slots.top(frame.window, count).unwrap();
                self.call(frame.realm, callable, receiver, arguments)
            },
            PendingRequest::Call { callable, receiver, count } => {
                self.count_call();
                let arguments = execution.slots.top(frame.window, count).unwrap();
                self.call(frame.realm, callable, receiver, arguments)
            },
            PendingRequest::Get { object, key, receiver } => {
                if self.proxies.contains_key(&object.index) {
                    self.count_call();
                }
                self.special(frame.realm, object, key, receiver)
            },
            PendingRequest::Numeric { kind, left, right } => self.numeric(frame.realm, kind, left, right),
            PendingRequest::Eval { .. } => unreachable!("evaluations are answered by frames"),
            PendingRequest::Predicate { key, target } => {
                let key = self.key_of(key);
                let target = self.object(target);
                Completion::Return(JsValue::Bool(self.has(target, key)))
            },
            PendingRequest::SuperProperty { key, receiver, home, .. } => {
                let key = self.key_of(key);
                let home = self.object(home);
                let base = self.runtime.get_prototype_of(home).unwrap().unwrap();
                match self.runtime.prepare_ordinary_read(base, key, receiver).unwrap() {
                    OrdinaryRead::Complete(value) => Completion::Return(value.unwrap_or(JsValue::Undefined)),
                    other => panic!("the read gave {other:?}"),
                }
            },
            PendingRequest::Define { object, key, value } => self.define_converted(frame.realm, object, key, value),
        }
    }

    /// Answer a direct evaluation, or enter the frame of its code.
    fn evaluate(&mut self, execution: &mut RunningExecution) -> Option<Completion> {
        let Some(PendingCall { request: PendingRequest::Eval { callee, count, scope }, .. }) = execution.pending_call else {
            panic!("expected an evaluation")
        };
        let id = execution.frames.current_id().unwrap();
        let frame = execution.frames.current(id).unwrap();
        let arguments = execution.slots.top(frame.window, count as usize).unwrap();
        let data = self.runtime.realm(frame.realm).unwrap();
        if callee != self.own(data.global_object, "eval") {
            let callable = self.callable(callee);
            return Some(self.call(frame.realm, callable, JsValue::Undefined, arguments));
        }
        let source = match arguments.first() {
            Some(JsValue::String(atom)) => String::from_utf16(&self.runtime.text(*atom)).unwrap(),
            other => return Some(Completion::Return(other.copied().unwrap_or(JsValue::Undefined))),
        };
        let units = self.evaluations[scope as usize].clone();
        let tokens = tokens(&source);
        if matches!(tokens.iter().rev().nth(1), Some(Token::Punct("="))) {
            let error = Error::new(ErrorKind::Syntax, "unexpected end of source");
            let made = self.runtime.new_native_error_from_error(frame.realm, NativeErrorKind::Syntax, error);
            return Some(Completion::Throw(made.unwrap()));
        }
        let strict = units.last().unwrap().metadata.strict;
        let statements = Parser { tokens, at: 0, strict }.program();
        let mut compiler = Compiler {
            runtime: &mut self.runtime,
            realm: frame.realm,
            units,
            hidden: HashMap::new(),
            evaluations: &mut self.evaluations,
        };
        let bytecode = compiler.evaluated(&statements);
        let sources: Vec<ClosureVariable> = self.runtime.code[bytecode].closure_variables.clone();
        let ObjectPayload::BytecodeFunction(caller) = self.runtime.object(frame.cold.function).unwrap().payload else {
            panic!("expected a bytecode caller")
        };
        let cells: Vec<usize> = sources
            .iter()
            .map(|variable| match variable.source {
                ClosureSource::ParentLocal(index) => {
                    capture_local(&mut self.runtime, &mut execution.slots, frame.window, frame.executable, index).unwrap()
                },
                ClosureSource::ParentArgument(index) => {
                    capture_parameter(&mut self.runtime, &mut execution.slots, frame.window, frame.executable, index).unwrap()
                },
                ClosureSource::ParentClosure(index) => {
                    self.runtime.closure_cells[caller.start + index as usize]
                },
                ClosureSource::Global => self.runtime.link_global(data, variable.name.unwrap()).unwrap(),
            })
            .collect();
        let callable = CallableRef { object: self.runtime.new_function(data, bytecode, cells).unwrap() };
        let this = frame.cold.normalized_this.unwrap_or(frame.cold.input.this_value);
        let entry = self.callable_entry(frame.realm, callable, this, Vec::new());
        enter(&mut self.runtime, execution, entry).unwrap();
        None
    }

    /// Define an element whose key is converted first.
    fn define_converted(&mut self, realm: usize, object: ObjectRef, key: JsValue, value: JsValue) -> Completion {
        let key = match key {
            JsValue::Object(holder) => {
                let method = self.get_property(realm, holder, "toString");
                let method = self.callable(method);
                match self.call(realm, method, key, Vec::new()) {
                    Completion::Return(name) => self.key_of(name),
                    thrown => return thrown,
                }
            },
            key => self.key_of(key),
        };
        assert!(self.runtime.define_element(object, key, value).unwrap());
        Completion::Return(JsValue::Undefined)
    }

    fn number(&self, value: JsValue) -> f64 {
        match value {
            JsValue::Int(n) => f64::from(n),
            JsValue::Float(bits) => f64::from_bits(bits),
            other => panic!("{other:?} is no number"),
        }
    }

    fn made(&mut self, value: f64) -> JsValue {
        let small = value as i32;
        if f64::from(small) == value && !(value == 0.0 && value.is_sign_negative()) {
            JsValue::Int(small)
        } else {
            float(&mut self.runtime, value)
        }
    }

    fn integer(&self, value: JsValue) -> Option<i128> {
        match value {
            JsValue::BigInt(index) => {
                let text = self.runtime.text(self.runtime.bigint_texts[index]);
                Some(String::from_utf16(&text).unwrap().parse().unwrap())
            },
            _ => None,
        }
    }

    /// The number that an object stands for.
    fn converted(&mut self, realm: usize, value: JsValue) -> Completion {
        if !value.is_object() {
            return Completion::Return(value);
        }
        let key = self.runtime.intern_property_key("valueOf");
        let Completion::Return(method) = self.get(realm, value, key) else { panic!("no valueOf") };
        let method = self.callable(method);
        self.call(realm, method, value, Vec::new())
    }

    /// Operators on numbers that the driver does not compute.
    fn numeric(&mut self, realm: usize, kind: Option<NumericKind>, left: JsValue, right: Option<JsValue>) -> Completion {
        let unary = right.is_none();
        let left = match self.converted(realm, left) {
            Completion::Return(value) => value,
            thrown => return thrown,
        };
        let right = match right.map(|right| self.converted(realm, right)) {
            None => None,
            Some(Completion::Return(value)) => Some(value),
            Some(thrown) => return thrown,
        };
        if let (Some(a), b) = (self.integer(left), right.and_then(|right| self.integer(right))) {
            if !unary && b.is_none() {
                return self.type_error(realm, "cannot mix bigint with other types");
            }
            let b = b.unwrap_or(0);
            let result = match kind {
                None => a + b,
                Some(NumericKind::Subtract) => a - b,
                Some(NumericKind::Multiply) => a * b,
                Some(NumericKind::Divide | NumericKind::Remainder) if b == 0 => {
                    let error = Error::new(ErrorKind::Range, "division by zero");
                    let error = self.runtime.new_native_error_from_error(realm, NativeErrorKind::Range, error);
                    return Completion::Throw(error.unwrap());
                },
                Some(NumericKind::Divide) => a / b,
                Some(NumericKind::Remainder) => a % b,
                Some(NumericKind::Power) => a.pow(b as u32),
                Some(NumericKind::ShiftLeft) => a << b,
                Some(NumericKind::ShiftRight) => a >> b,
                Some(NumericKind::ShiftRightUnsigned) => {
                    return self.type_error(realm, "bigint operands are forbidden for >>>");
                },
                Some(NumericKind::BitAnd) => a & b,
                Some(NumericKind::BitOr) => a | b,
                Some(NumericKind::BitXor) => a ^ b,
                Some(NumericKind::BitNot) => !a,
                Some(NumericKind::Negate) => -a,
                Some(NumericKind::Less) => return Completion::Return(JsValue::Bool(a < b)),
                Some(NumericKind::Greater) => return Completion::Return(JsValue::Bool(a > b)),
                Some(NumericKind::Increment) => a + 1,
                Some(NumericKind::Decrement) => a - 1,
                Some(NumericKind::ToNumeric) => a,
            };
            return Completion::Return(bigint(&mut self.runtime, &result.to_string()));
        }
        let a = self.number(left);
        let b = right.map(|right| self.number(right)).unwrap_or(0.0);
        let result = match kind {
            None if unary => return Completion::Return(left),
            None => a + b,
            Some(NumericKind::Subtract) => a - b,
            Some(NumericKind::Multiply) => a * b,
            Some(NumericKind::Divide) => a / b,
            Some(NumericKind::Negate) => -a,
            Some(NumericKind::Less) => return Completion::Return(JsValue::Bool(a < b)),
            Some(NumericKind::Greater) => return Completion::Return(JsValue::Bool(a > b)),
            Some(NumericKind::Increment) => a + 1.0,
            Some(NumericKind::Decrement) => a - 1.0,
            Some(NumericKind::ToNumeric) => a,
            Some(other) => panic!("{other:?} is not computed on floats"),
        };
        Completion::Return(self.made(result))
    }

    /// Read a property of an object with its own protocol.
    fn special(&mut self, realm: usize, object: ObjectRef, key: PropertyKey, receiver: JsValue) -> Completion {
        if let Some((target, handler)) = self.proxies.get(&object.index).copied() {
            let trap = self.runtime.intern_property_key("get");
            let Completion::Return(JsValue::Object(trap)) = self.get(realm, handler, trap) else {
                return self.get(realm, target, key);
            };
            let callable = self.runtime.as_callable(trap).unwrap().unwrap();
            return self.call(realm, callable, handler, vec![target, key.as_value(), receiver]);
        }
        let p = self.runtime.find_property(object, key).expect("a special read has an own entry");
        let PropertySlot::AutoInit { value } = self.runtime.properties[p].slot else { panic!("not special") };
        self.runtime.replace_slot(p, hidden(value));
        Completion::Return(value)
    }

    fn get(&mut self, realm: usize, base: JsValue, key: PropertyKey) -> Completion {
        match self.runtime.prepare_value_read(realm, base, key).unwrap() {
            OrdinaryRead::Complete(value) => Completion::Return(value.unwrap_or(JsValue::Undefined)),
            OrdinaryRead::Call { getter, receiver } => self.call(realm, getter, receiver, Vec::new()),
            OrdinaryRead::Special { object, receiver } => self.special(realm, object, key, receiver),
        }
    }

    fn set(&mut self, realm: usize, base: JsValue, key: PropertyKey, value: JsValue) -> Completion {
        let JsValue::Object(object) = base else { panic!("cannot set a property of {base:?}") };
        if self.runtime.object(object).unwrap().payload == ObjectPayload::Array {
            assert!(self.runtime.define_element(object, key, value).unwrap());
            return Completion::Return(JsValue::Undefined);
        }
        match self.runtime.prepare_set_property(object, key, value).unwrap() {
            PropertySetAction::Complete => Completion::Return(JsValue::Undefined),
            PropertySetAction::Call { setter, receiver, argument } => self.call(realm, setter, receiver, vec![argument]),
            other => panic!("the write gave {other:?}"),
        }
    }

    /// Call a function from outside the driver.
    fn call(&mut self, realm: usize, callable: CallableRef, receiver: JsValue, arguments: Vec<JsValue>) -> Completion {
        match self.runtime.bytecode_for_callable(callable).unwrap() {
            CallableExecution::Bytecode { .. } => {
                let entry = self.callable_entry(realm, callable, receiver, arguments);
                self.execute(entry, ExecutionLimits::default()).unwrap()
            },
            CallableExecution::Native { target, realm, min_readable_args } => {
                let prepared = self
                    .runtime
                    .prepare_native_invocation(
                        callable,
                        realm,
                        target,
                        min_readable_args,
                        NativeInvocation::Call { this_value: receiver },
                        arguments,
                        NativeInvokeMode::Ordinary,
                    )
                    .unwrap();
                let actual = prepared.activation.arguments.actual_arg_count;
                let readable = prepared.activation.arguments.readable.clone();
                let completion = self.native(realm, target.code, receiver, &readable, actual);
                let outcome = prepared
                    .activation
                    .finish(&mut self.runtime, Ok(NativeInvokeOutcome::Completion(completion)))
                    .unwrap();
                match outcome {
                    NativeInvokeOutcome::Completion(completion) => completion,
                    other => panic!("a native call gave {other:?}"),
                }
            },
            CallableExecution::Bound { target, this_value, start, count } => {
                let mut all = self.runtime.bound_arguments(start, count);
                all.extend(arguments);
                self.call(realm, target, this_value, all)
            },
            CallableExecution::Proxy => panic!("a proxy is not called here"),
        }
    }

    fn callable(&self, value: JsValue) -> CallableRef {
        match value {
            JsValue::Object(object) => self.runtime.as_callable(object).unwrap().unwrap(),
            other => panic!("{other:?} is not callable"),
        }
    }

    fn object(&mut self, value: JsValue) -> ObjectRef {
        match value {
            JsValue::Object(object) => object,
            other => panic!("{other:?} is no object"),
        }
    }

    fn key_of(&mut self, value: JsValue) -> PropertyKey {
        self.runtime.native_to_property_key(value).unwrap()
    }

    fn descriptor(&mut self, realm: usize, attributes: ObjectRef) -> PropertySlot {
        let accessor = ["get", "set"].map(|name| match self.get_property(realm, attributes, name) {
            JsValue::Object(object) => Some(object),
            _ => None,
        });
        let configurable = self.get_property(realm, attributes, "configurable") == JsValue::Bool(true);
        if accessor[0].is_some() || accessor[1].is_some() {
            return PropertySlot::Accessor { get: accessor[0], set: accessor[1], enumerable: false, configurable };
        }
        PropertySlot::Data {
            value: self.get_property(realm, attributes, "value"),
            writable: self.get_property(realm, attributes, "writable") == JsValue::Bool(true),
            enumerable: false,
            configurable,
        }
    }

    fn numeric_value(&mut self, realm: usize, value: JsValue) -> Result<f64, JsValue> {
        match self.converted(realm, value) {
            Completion::Return(value) => Ok(self.number(value)),
            Completion::Throw(value) => Err(value),
        }
    }

    /// The body of a native function.
    fn native(&mut self, realm: usize, code: u32, this: JsValue, arguments: &[JsValue], actual: usize) -> Completion {
        let argument = |at: usize| arguments.get(at).copied().unwrap_or(JsValue::Undefined);
        let value = match NATIVES[code as usize].0 {
            "Object.defineProperty" => {
                let object = self.object(argument(0));
                let key = self.key_of(argument(1));
                let attributes = self.object(argument(2));
                let slot = self.descriptor(realm, attributes);
                assert!(self.runtime.define_own_property(object, key, slot).unwrap());
                argument(0)
            },
            "Object.create" => {
                let prototype = match argument(0) {
                    JsValue::Object(object) => Some(object),
                    _ => None,
                };
                let object = self.runtime.new_object(prototype);
                if let JsValue::Object(attributes) = argument(1) {
                    let keys: Vec<PropertyKey> =
                        self.runtime.properties.iter().filter(|p| p.owner == attributes.index).map(|p| p.key).collect();
                    for key in keys {
                        let one = self.get_key(realm, attributes, key);
                        let one = self.object(one);
                        let slot = self.descriptor(realm, one);
                        assert!(self.runtime.define_own_property(object, key, slot).unwrap());
                    }
                }
                JsValue::Object(object)
            },
            "Object.setPrototypeOf" => {
                let object = self.object(argument(0));
                let prototype = self.object(argument(1));
                self.runtime.objects[object.index].prototype = Some(prototype);
                argument(0)
            },
            "Object.getPrototypeOf" => {
                let object = self.object(argument(0));
                self.runtime.get_prototype_of(object).unwrap().map_or(JsValue::Null, JsValue::Object)
            },
            "Symbol" => {
                let description = match argument(0) {
                    JsValue::String(atom) => Some(atom),
                    _ => None,
                };
                self.runtime.symbols.push(description);
                JsValue::Symbol(SymbolRef {
                    domain: self.runtime.domain_id(),
                    index: self.runtime.symbols.len() - 1,
                })
            },
            "Function.prototype.bind" => {
                let target = self.object(this);
                let data = self.runtime.object(target).unwrap();
                let start = self.runtime.bound_values.len();
                let count = actual.saturating_sub(1);
                self.runtime.bound_values.extend(arguments.iter().take(actual).skip(1));
                JsValue::Object(self.runtime.allocate(HeapObject {
                    kind: ObjectKind::Function,
                    payload: ObjectPayload::BoundFunction { target, this_value: argument(0), start, count },
                    prototype: data.prototype,
                    is_constructor: data.is_constructor,
                    extensible: true,
                }))
            },
            "Function.prototype.call" => {
                let callable = self.callable(this);
                let rest = arguments[..actual].iter().skip(1).copied().collect();
                return self.call(realm, callable, argument(0), rest);
            },
            "parseInt" => {
                let JsValue::String(text) = argument(0) else { panic!("expected a text") };
                assert_eq!(argument(1), JsValue::Int(10));
                JsValue::Int(String::from_utf16(&self.runtime.text(text)).unwrap().parse().unwrap())
            },
            "Reflect.get" => {
                if !argument(0).is_object() {
                    return self.type_error(realm, "not an object");
                }
                let key = self.key_of(argument(1));
                return self.get(realm, argument(0), key);
            },
            "String" => self.runtime.to_js_string(argument(0)).unwrap(),
            "String.fromCharCode" => {
                let units: Vec<u16> = arguments[..actual].iter().map(|v| self.number(*v) as u16).collect();
                JsValue::String(self.runtime.intern(units))
            },
            "Math.abs" => {
                let value = self.number(argument(0)).abs();
                self.made(value)
            },
            name @ ("Math.min" | "Math.max") => {
                let mut best = if name == "Math.min" { f64::INFINITY } else { f64::NEG_INFINITY };
                for value in &arguments[..actual] {
                    match self.numeric_value(realm, *value) {
                        Ok(value) => best = if name == "Math.min" { best.min(value) } else { best.max(value) },
                        Err(thrown) => return Completion::Throw(thrown),
                    }
                }
                self.made(best)
            },
            "Array.prototype.map" => {
                let array = self.object(this);
                let values = self.runtime.dense_values(array).unwrap();
                let callback = self.callable(argument(0));
                let mut mapped: Vec<JsValue> = Vec::new();
                for value in values {
                    match self.call(realm, callback, JsValue::Undefined, vec![value]) {
                        Completion::Return(value) => mapped.push(value),
                        thrown => return thrown,
                    }
                }
                JsValue::Object(self.runtime.new_array_from_values(realm, &mapped).unwrap())
            },
            "Array.prototype.join" => {
                let array = self.object(this);
                let JsValue::String(between) = argument(0) else { panic!("expected a text") };
                let mut text: Vec<u16> = Vec::new();
                for (at, value) in self.runtime.dense_values(array).unwrap().into_iter().enumerate() {
                    if at > 0 {
                        text.extend(self.runtime.text(between));
                    }
                    text.extend(self.runtime.primitive_units(value).unwrap());
                }
                JsValue::String(self.runtime.intern(text))
            },
            "Array.prototype.push" => {
                let length = self.runtime.intern_property_key("length");
                let Completion::Return(JsValue::Int(mut at)) = self.get(realm, this, length) else { panic!("no length") };
                for value in &arguments[..actual] {
                    let key = self.runtime.intern_property_key(&at.to_string());
                    let _ = self.set(realm, this, key, *value);
                    at += 1;
                }
                let _ = self.set(realm, this, length, JsValue::Int(at));
                JsValue::Int(at)
            },
            "Number.prototype.valueOf" => match this {
                JsValue::Object(object) => match self.runtime.object(object).unwrap().payload {
                    ObjectPayload::Primitive(value) => value,
                    other => panic!("{other:?} holds no number"),
                },
                value => value,
            },
            "Map.prototype.get" => {
                let object = self.object(this);
                let found = self.maps[&object.index].iter().find(|(key, _)| *key == argument(0)).map(|(_, v)| *v);
                found.unwrap_or(JsValue::Undefined)
            },
            "Map.prototype.set" => {
                let object = self.object(this);
                let entries = self.maps.get_mut(&object.index).unwrap();
                entries.retain(|(key, _)| *key != argument(0));
                entries.push((argument(0), argument(1)));
                this
            },
            "deleteProperty" => {
                let object = self.object(argument(0));
                let key = self.key_of(argument(1));
                JsValue::Bool(self.runtime.delete_property(object, key).unwrap())
            },
            other => panic!("{other} has no call body"),
        };
        Completion::Return(value)
    }

    /// Construct with a native constructor.
    fn construct(&mut self, realm: usize, constructor: JsValue, arguments: &[JsValue]) -> Completion {
        let constructor = self.object(constructor);
        let data = self.runtime.object(constructor).unwrap();
        let ObjectPayload::NativeFunction(native) = data.payload else { panic!("expected a native constructor") };
        let name = NATIVES[native.target.code as usize].0;
        let JsValue::Object(prototype) = self.own(constructor, "prototype") else { panic!("no prototype") };
        let argument = |at: usize| arguments.get(at).copied().unwrap_or(JsValue::Undefined);
        let (kind, payload) = match name {
            "String" | "Number" => (ObjectKind::Primitive, ObjectPayload::Primitive(argument(0))),
            "Array" => {
                let array = self.runtime.new_array_from_values(realm, &Vec::new()).unwrap();
                let p = self.runtime.find_property(array, PropertyKey::String(ATOM_LENGTH)).unwrap();
                let slot = PropertySlot::Data { value: argument(0), writable: true, enumerable: false, configurable: false };
                self.runtime.replace_slot(p, slot);
                return Completion::Return(JsValue::Object(array));
            },
            "Proxy" => {
                let target = self.object(argument(0));
                let is_callable = self.runtime.as_callable(target).unwrap().is_some();
                (ObjectKind::Other, ObjectPayload::Proxy { is_callable, target: Some(target) })
            },
            _ => (ObjectKind::Other, ObjectPayload::Other(native.target.code)),
        };
        let made = self.runtime.allocate(HeapObject {
            kind,
            payload,
            prototype: Some(prototype),
            is_constructor: false,
            extensible: true,
        });
        match name {
            "Map" => {
                self.maps.insert(made.index, Vec::new());
            },
            "Proxy" => {
                self.proxies.insert(made.index, (argument(0), argument(1)));
            },
            _ => {},
        }
        Completion::Return(JsValue::Object(made))
    }

    fn has(&mut self, object: ObjectRef, key: PropertyKey) -> bool {
        let mut at = Some(object);
        while let Some(object) = at {
            if self.runtime.has_own_property(object, key).unwrap() {
                return true;
            }
            at = self.runtime.get_prototype_of(object).unwrap();
        }
        false
    }

    /// Complete the instruction that the driver handed over.
    fn complete_instruction(&mut self, continuation: &mut CallContinuation) -> Result<(), Error> {
        let id = continuation.execution.frames.current_id().unwrap();
        let frame = continuation.execution.frames.current(id).unwrap();
        let instruction = self.runtime.code[frame.executable].code[frame.resume_pc];
        let slots = &mut continuation.execution.slots;
        let peek = |offset: usize| slots.peek(frame.window, offset).unwrap();
        let (dropped, completion, pushed): (usize, Completion, Option<JsValue>) = match instruction {
            Instruction::Foreign(FOREIGN_IN) => {
                let key = self.key_of(peek(1));
                let object = self.object(peek(0));
                let found = JsValue::Bool(self.has(object, key));
                (2, Completion::Return(found), Some(found))
            },
            Instruction::Foreign(FOREIGN_INSTANCEOF) => {
                let constructor = self.object(peek(0));
                let prototype = self.get_property(frame.realm, constructor, "prototype");
                let mut at = match peek(1) {
                    JsValue::Object(object) => self.runtime.get_prototype_of(object).unwrap(),
                    _ => None,
                };
                let mut found = false;
                while let Some(object) = at {
                    found = found || JsValue::Object(object) == prototype;
                    at = self.runtime.get_prototype_of(object).unwrap();
                }
                (2, Completion::Return(JsValue::Undefined), Some(JsValue::Bool(found)))
            },
            Instruction::Foreign(FOREIGN_UPDATE) => {
                let (base, key, result, value) = (peek(3), peek(2), peek(1), peek(0));
                let key = self.key_of(key);
                (4, self.set(frame.realm, base, key, value), Some(result))
            },
            Instruction::SetProperty(Some(index)) => {
                let name = self.runtime.code[frame.executable].property_key_atoms[index as usize].unwrap();
                (2, self.set(frame.realm, peek(1), PropertyKey::String(name), peek(0)), None)
            },
            Instruction::SetProperty(None) => {
                let key = self.key_of(peek(1));
                (3, self.set(frame.realm, peek(2), key, peek(0)), None)
            },
            Instruction::Construct(count) => {
                let arguments = slots.top(frame.window, count as usize).unwrap();
                let completion = self.construct(frame.realm, peek(count as usize + 1), &arguments);
                (count as usize + 2, completion, Some(completion.value()))
            },
            Instruction::GlobalGet { index, .. } => {
                let name = self.runtime.code[frame.executable].closure_variables[index as usize].name.unwrap();
                let global = self.runtime.realm(frame.realm).unwrap().global_object;
                let receiver = JsValue::Object(global);
                let completion = self.special(frame.realm, global, PropertyKey::String(name), receiver);
                (0, completion, Some(completion.value()))
            },
            Instruction::Call { arguments, .. } => {
                for offset in (0..arguments as usize).rev() {
                    self.runtime.validate_value_domain(peek(offset), "call argument")?;
                }
                panic!("a call of this runtime was handed over")
            },
            other => panic!("{other:?} was handed over"),
        };
        match completion {
            Completion::Throw(_) => continuation.state.forwarded = Some(completion),
            Completion::Return(_) => {
                slots.discard(frame.window, dropped).unwrap();
                if let Some(value) = pushed {
                    slots.push(value).unwrap();
                }
                continuation.execution.frames.current_mut(id).unwrap().resume_pc += 1;
            },
        }
        Ok(())
    }

    fn is_idle(&self) -> bool {
        self.runtime.active.is_empty()
    }

    /// Start an execution at an instruction of a function.
    fn start_at(&mut self, entry: FrameEntry, at: usize) -> (RunningExecution, FrameId) {
        let mut execution =
            RunningExecution::new(&mut self.registry, &self.runtime, ExecutionLimits::default()).unwrap();
        let id = push_frame(&mut self.runtime, &mut execution, entry).unwrap();
        execution.frames.current_mut(id).unwrap().resume_pc = at;
        (execution, id)
    }

    fn position(&self, entry: &FrameEntry, found: impl Fn(&Instruction) -> bool) -> usize {
        self.runtime.code[entry.executable].code.iter().position(found).expect("the instruction is published")
    }

    /// Drop an execution that is not finished.
    fn abandon(&mut self, execution: RunningExecution) {
        let state = stack_vm::driver::frames::DriverState { forwarded: None, conversion: None, next_operation: 0 };
        CallContinuation { execution, state }.abandon(&mut self.runtime, &mut self.registry);
    }
}

fn steps(runtime: &Runtime, execution: &mut RunningExecution, id: FrameId) -> RunExit {
    let mut fuel: u64 = 1000;
    run(runtime, execution, id, &mut fuel).unwrap()
}

fn expect_text(host: &mut Host, realm: usize, object: ObjectRef, key: &str, expected: &str) {
    assert_eq!(host.text_property(realm, object, key), expected);
}

fn returned(completion: Completion, source: &str) -> JsValue {
    match completion {
        Completion::Return(value) => value,
        other => panic!("{source}: {other:?}"),
    }
}

fn thrown_object(completion: Completion, source: &str) -> ObjectRef {
    match completion {
        Completion::Throw(JsValue::Object(error)) => error,
        other => panic!("{source}: {other:?}"),
    }
}

fn object_of(value: JsValue, source: &str) -> ObjectRef {
    match value {
        JsValue::Object(object) => object,
        other => panic!("{source}: {other:?}"),
    }
}

#[test]
fn lexical_initialization_and_tdz_use_owned_slots() {
    for (source, error_message) in [
        ("(function(){var sum=0,i=0; while(i<3){let x=i+13; sum=sum+x; i=i+1} return sum})", None),
        ("(function(){var i=0; while(i<2){if(i===1)return x; let x=42; i=i+1}})", Some("x is not initialized")),
        ("(function(){let x=40; x=x+1; const y=1; return x+y})", None),
        ("(function(){return x; let x=42})", Some("x is not initialized")),
        ("(function(){x=42; let x})", Some("x is not initialized")),
        ("(function(){let x=x; return x})", Some("x is not initialized")),
    ] {
        let mut host = Host::new(1);
        let realm = host.new_context();
        let entry = host.entry(realm, source, Vec::new());
        let (completion, costs) = host.measure(entry);
        assert_eq!(costs.owned_bridge_exits, 0, "{source}: {costs:?}");
        match (completion, error_message) {
            (Completion::Return(value), None) => assert_eq!(value, JsValue::Int(42)),
            (Completion::Throw(JsValue::Object(error)), Some(message)) => {
                for (key, expected) in [("name", "ReferenceError"), ("message", message)] {
                    expect_text(&mut host, realm, error, key, expected);
                }
            },
            _ => panic!("unexpected lexical completion: {source}"),
        }
        assert!(host.is_idle());
    }
}

#[test]
fn closure_reads_and_writes_preserve_live_cells_and_tdz() {
    for (source, throws) in [
        ("(function(){var x=40;return function(){x=x+1;return x}})()", false),
        ("(function(){let x=40;return function(){x=x+1;return x}})()", false),
        ("(function(){const x=42;return function(){return x}})()", false),
        ("(function(){return function(){return x};let x})()", true),
        ("(function(){return function(){x=42};let x})()", true),
    ] {
        let mut host = Host::new(1);
        let realm = host.new_context();
        let closure = host.eval(realm, source);
        let entry = host.entry(realm, "(function(f){f();return f()})", vec![closure]);
        let (completion, costs) = host.measure(entry);
        assert_eq!(costs.owned_bridge_exits, 0, "{source}: {costs:?}");
        assert_eq!(costs.maximum_frame_depth, 2);
        match (completion, throws) {
            (Completion::Return(value), false) => assert_eq!(value, JsValue::Int(42)),
            (Completion::Throw(JsValue::Object(error)), true) => {
                for (key, expected) in [("name", "ReferenceError"), ("message", "x is not initialized")] {
                    expect_text(&mut host, realm, error, key, expected);
                }
            },
            _ => panic!("unexpected closure completion: {source}"),
        }
        assert!(host.is_idle());
    }
}

#[test]
fn catch_and_finally_resume_owned_frames_and_survive_handoff() {
    for (source, bridge) in [
        ("(function(){try{throw 40}catch(e){return e+2}})", false),
        ("(function(f){try{return f()}catch(e){return e+2}})", false),
        ("(function(){try{return 1}finally{return 42}})", false),
        ("(function(){var x=0;try{try{throw 40}finally{x=2}}catch(e){return e+x}})", false),
        ("(function(){try{String(1);throw 40}catch(e){return e+2}})", true),
    ] {
        let mut host = Host::new(1);
        let realm = host.new_context();
        let throwing = host.eval(realm, "(function(){throw 40})");
        let entry = host.entry(realm, source, vec![throwing]);
        let (completion, costs) = host.measure(entry);
        assert_eq!(returned(completion, source), JsValue::Int(42), "{source}");
        assert_eq!(costs.owned_bridge_exits != 0, bridge, "{source}: {costs:?}");
        assert!(host.is_idle());
    }
}

#[test]
fn created_closures_keep_captured_values_after_scope_and_frame_exit() {
    for source in [
        "(function(){let x=42;return function(){return x}})",
        "(function(x){return function(){return x}})",
        "(function(){var f; {let x=42; f=function(){return x}} return f})",
        "(function(){var f,g,i=41;while(i<43){let x=i;if(i===41)f=function(){return x};else g=function(){return x};i=i+1}return function(){return f()+g()-41}})",
    ] {
        let mut host = Host::new(1);
        let realm = host.new_context();
        let entry = host.entry(realm, source, vec![JsValue::Int(42)]);
        let (completion, costs) = host.measure(entry);
        let closure = returned(completion, source);
        assert!(closure.is_object());
        assert_eq!(costs.owned_bridge_exits, 0, "{source}: {costs:?}");
        let entry = host.entry(realm, "(function(f){return f()})", vec![closure]);
        let (completion, costs) = host.measure(entry);
        assert_eq!(returned(completion, source), JsValue::Int(42));
        assert_eq!(costs.owned_bridge_exits, 0);
        assert!(host.is_idle());
    }
}

#[test]
fn captured_parent_slots_share_writes_initialization_and_abrupt_reuse() {
    for source in [
        "(function(){let x=40;var f=function(){x=x+1};f();x=x+1;return x})",
        "(function(x){var f=function(){x=x+1};f();x=x+1;return x})",
        "(function(){function f(){return x}let x=42;return f()})",
        "(function(){function f(){return x}try{return x}catch(e){return 42}let x})",
        "(function(){var i=0,f;while(i<2){try{let x=40+i;if(i===0)f=function(){return x};i=i+1;throw 0}catch(e){}}return f()+1})",
    ] {
        let mut host = Host::new(1);
        let realm = host.new_context();
        let entry = host.entry(realm, source, vec![JsValue::Int(40)]);
        let (completion, costs) = host.measure(entry);
        assert_eq!(returned(completion, source), JsValue::Int(42), "{source}");
        assert_eq!(costs.owned_bridge_exits, 0, "{source}: {costs:?}");
        assert!(host.is_idle());
    }
}

#[test]
fn arguments_and_rest_preserve_actual_arity_and_parameter_aliasing() {
    for (source, arguments, expected) in [
        ("(function(a){'use strict';a=2;return arguments})", vec![1], vec![1]),
        ("(function(a){a=2;return arguments})", vec![1, 40], vec![2, 40]),
        ("(function(a,b){return arguments})", vec![42], vec![42]),
        ("(function(a,...rest){return rest})", vec![1, 40, 2], vec![40, 2]),
        ("(function(a,b,...rest){return rest})", vec![1], vec![]),
    ] {
        let mut host = Host::new(1);
        let realm = host.new_context();
        let entry = host.entry(realm, source, arguments.into_iter().map(JsValue::Int).collect());
        let (completion, costs) = host.measure(entry);
        let object = object_of(returned(completion, source), source);
        assert_eq!(costs.owned_bridge_exits, 0, "{source}: {costs:?}");
        assert_eq!(host.get_property(realm, object, "length"), JsValue::Int(expected.len() as i32));
        for (index, value) in expected.into_iter().enumerate() {
            assert_eq!(host.get_property(realm, object, &index.to_string()), JsValue::Int(value), "{source}: {index}");
        }
        assert!(host.is_idle());
    }
}

#[test]
fn default_parameters_keep_order_tdz_and_supplied_values() {
    for (source, arguments) in [
        ("(function(a=missing){return a===null?42:0})", vec![JsValue::Null]),
        ("(function(a=missing){return a===false?42:0})", vec![JsValue::Bool(false)]),
        ("(function(a=40,b=a+2){return b})", vec![]),
        ("(function(a=40,b=a+2){return b})", vec![JsValue::Undefined]),
        ("(function(a=40,b=a+2){return b})", vec![JsValue::Int(1), JsValue::Int(42)]),
        ("(function(a=40,b=function(){return a}){a=2;return a+b()})", vec![]),
        ("(function(f){try{return f()}catch(e){return e}})", vec![]),
    ] {
        let mut host = Host::new(1);
        let realm = host.new_context();
        let arguments = if source.contains("try{") {
            vec![host.eval(realm, "(function(a=b,b=42){return a})")]
        } else {
            arguments
        };
        let entry = host.entry(realm, source, arguments);
        let (completion, costs) = host.measure(entry);
        let value = returned(completion, source);
        assert_eq!(costs.owned_bridge_exits, 0, "{source}: {costs:?}");
        if source.contains("try{") {
            let error = object_of(value, source);
            expect_text(&mut host, realm, error, "name", "ReferenceError");
        } else {
            assert_eq!(value, JsValue::Int(42));
        }
        assert!(host.is_idle());
    }
}

#[test]
fn readonly_binding_errors_preserve_tdz_and_rhs_order() {
    for (source, name, message) in [
        ("(function(){const x=1;x=42})", "TypeError", "'x' is read-only"),
        ("(function f(){'use strict';f=42})", "TypeError", "'f' is read-only"),
        ("(function(){const x=1;return function(){x=42}})()", "TypeError", "'x' is read-only"),
        ("(function(){x=42;const x=1})", "TypeError", "'x' is read-only"),
    ] {
        let mut host = Host::new(1);
        let realm = host.new_context();
        let entry = host.entry(realm, source, vec![]);
        let (completion, costs) = host.measure(entry);
        let error = thrown_object(completion, source);
        assert_eq!(costs.owned_bridge_exits, 0, "{source}: {costs:?}");
        for (key, expected) in [("name", name), ("message", message)] {
            expect_text(&mut host, realm, error, key, expected);
        }
        assert!(host.is_idle());
    }
    let mut host = Host::new(1);
    let realm = host.new_context();
    let source = "(function(){const x=0;function rhs(){throw 42}try{x=rhs()}catch(e){return e}})";
    let entry = host.entry(realm, source, vec![]);
    let (completion, costs) = host.measure(entry);
    assert_eq!(returned(completion, source), JsValue::Int(42));
    assert_eq!(costs.owned_bridge_exits, 0);
}

#[test]
fn instance_initializers_run_as_owned_children_and_propagate_throws() {
    for (source, wrapper) in [
        ("(class {#x=42;#m(){return this.#x}read(){return this.#m()}})", "(function(C){return new C().read()})"),
        ("(class extends (function B(){}) {#x=42;read(){return this.#x}})", "(function(C){return new C().read()})"),
        ("(class {#x=(function(){throw 42})()})", "(function(C){try{return new C()}catch(e){return e}})"),
    ] {
        let mut host = Host::new(1);
        let realm = host.new_context();
        let constructor = host.eval(realm, source);
        let entry = host.entry(realm, wrapper, vec![constructor]);
        let (completion, costs) = host.measure(entry);
        assert_eq!(returned(completion, source), JsValue::Int(42), "{source}");
        assert_eq!(costs.owned_bridge_exits, 0, "{source}: {costs:?}");
        assert!(costs.maximum_frame_depth >= 3);
        assert!(host.is_idle());
    }
}

#[test]
fn base_class_creation_and_initialization_throw_through_owned_frames() {
    for source in [
        "(function(){try{class C {static{throw 42}}}catch(e){return e}})",
        "(function(){try{class C {#x=(function(){throw 42})()}return new C()}catch(e){return e}})",
        "(function(){class C extends null {}return 42})",
        "(function(){try{class C extends 1 {}}catch(e){return e}})",
    ] {
        let mut host = Host::new(1);
        let realm = host.new_context();
        let entry = host.entry(realm, source, vec![]);
        let (completion, costs) = host.measure(entry);
        let value = returned(completion, source);
        if let JsValue::Object(error) = value {
            assert!(source.contains("extends 1"), "{source}");
            expect_text(&mut host, realm, error, "name", "TypeError");
        } else {
            assert!(!source.contains("extends 1"), "{source}");
            assert_eq!(value, JsValue::Int(42), "{source}");
        }
        assert_eq!(costs.owned_bridge_exits, 0, "{source}: {costs:?}");
        assert!(host.is_idle());
    }
}

#[test]
fn class_methods_are_published_and_called_without_handoff() {
    for source in [
        "(function(){class C {#x=42;read(){return this.#x}}return new C().read()})",
        "(function(){class C {get x(){return 42}}return new C().x})",
        "(function(){class B {read(){return 42}}class C extends B {}return new C().read()})",
        "(function(){class C {#x=42;get x(){return this.#x}set x(v){this.#x=v}}return new C().x})",
    ] {
        let mut host = Host::new(1);
        let realm = host.new_context();
        let entry = host.entry(realm, source, vec![]);
        let (completion, costs) = host.measure(entry);
        assert_eq!(returned(completion, source), JsValue::Int(42));
        assert_eq!(costs.owned_bridge_exits, 0, "{source}: {costs:?}");
        assert!(host.is_idle());
    }
}

#[test]
fn public_fields_define_own_data_and_skip_inherited_setters() {
    for source in [
        "(function(){class C {x=42}return new C().x})",
        "(function(){class B {set x(v){throw 99}}class C extends B {x=42}return new C().x})",
        "(function(){class C {x=40;y=this.x+2}return new C().y})",
        "(function(){class C {f=function(){return this.x};x=42}return new C().f()})",
        "(function(){try{class C {x=(function(){throw 42})()}return new C()}catch(e){return e}})",
    ] {
        let mut host = Host::new(1);
        let realm = host.new_context();
        let entry = host.entry(realm, source, vec![]);
        let (completion, costs) = host.measure(entry);
        assert_eq!(returned(completion, source), JsValue::Int(42), "{source}");
        assert_eq!(costs.owned_bridge_exits, 0, "{source}: {costs:?}");
        assert!(host.is_idle());
    }
}

#[test]
fn computed_class_keys_convert_once_before_definition() {
    for source in [
        "(function(k,count){class C {[k]=41}return new C().x+count()})",
        "(function(k,count){class C {[k](){return 41}}return new C().x()+count()})",
        "(function(k,count){class C {get [k](){return 41}set x(v){throw 99}}return new C().x+count()})",
    ] {
        let mut host = Host::new(1);
        let realm = host.new_context();
        let pair = host.eval_object(realm, "(function(){var n=0;return {key:{toString:function(){n=n+1;return 'x'},valueOf:function(){throw 99}},count:function(){return n}}})()");
        let key = host.get_property(realm, pair, "key");
        let count = host.get_property(realm, pair, "count");
        let entry = host.entry(realm, source, vec![key, count]);
        let (completion, costs) = host.measure(entry);
        assert_eq!(returned(completion, source), JsValue::Int(42), "{source}");
        assert_eq!(costs.owned_bridge_exits, 0, "{source}: {costs:?}");
        assert!(host.is_idle());
    }
    for (key_source, source) in [
        ("Symbol('x')", "(function(k){class C {[k]=42}return new C()})"),
        ("1.5", "(function(k){class C {[k]=42}return new C()})"),
        ("-1", "(function(k){class C {[k]=42}return new C()})"),
        (
            "({toString:function(){throw 42}})",
            "(function(k){try{class C {[k]=(function(){throw 99})()}return new C()}catch(e){return e}})",
        ),
    ] {
        let mut host = Host::new(1);
        let realm = host.new_context();
        let key = host.eval(realm, key_source);
        let expected_key = if key.is_object() { None } else { Some(host.key_of(key)) };
        let entry = host.entry(realm, source, vec![key]);
        let (completion, costs) = host.measure(entry);
        let value = returned(completion, source);
        if let Some(key) = expected_key {
            let instance = object_of(value, source);
            assert_eq!(host.get_key(realm, instance, key), JsValue::Int(42));
        } else {
            assert_eq!(value, JsValue::Int(42));
        }
        assert_eq!(costs.owned_bridge_exits, 0, "{source}: {costs:?}");
        assert!(host.is_idle());
    }
}

#[test]
fn computed_function_field_names_keep_key_identity_and_existing_names() {
    for (key_source, expected, initializer) in [
        ("'x'", "x", "function(){}"),
        ("-1", "-1", "function(){}"),
        ("Symbol('x')", "[x]", "function(){}"),
        ("Symbol()", "", "function(){}"),
        ("Symbol('')", "[]", "function(){}"),
        ("'x'", "keep", "function keep(){}"),
    ] {
        let mut host = Host::new(1);
        let realm = host.new_context();
        let key = host.eval(realm, key_source);
        let property = host.key_of(key);
        let source = format!("(function(k){{class C {{[k]={initializer}}}return new C()}})");
        let entry = host.entry(realm, &source, vec![key]);
        let (completion, costs) = host.measure(entry);
        let instance = object_of(returned(completion, &source), &source);
        let function = object_of(host.get_key(realm, instance, property), &source);
        expect_text(&mut host, realm, function, "name", expected);
        assert_eq!(costs.owned_bridge_exits, 0, "{source}: {costs:?}");
        assert!(host.is_idle());
    }
}

#[test]
fn with_entry_boxes_primitives_and_unwinds_nullish_errors() {
    for kind in 0..5 {
        let mut host = Host::new(1);
        let realm = host.new_context();
        let value = match kind {
            0 => JsValue::Int(1),
            1 => JsValue::Bool(true),
            2 => host.string("x"),
            3 => JsValue::Null,
            _ => JsValue::Undefined,
        };
        let source = "(function(o){try{with(o){return 42}}catch(e){return e}})";
        let entry = host.entry(realm, source, vec![value]);
        let (completion, costs) = host.measure(entry);
        let result = returned(completion, source);
        if value.nullish() {
            let error = object_of(result, source);
            expect_text(&mut host, realm, error, "message", "cannot convert to object");
        } else {
            assert_eq!(result, JsValue::Int(42));
        }
        assert_eq!(costs.owned_bridge_exits, 0, "{costs:?}");
        assert!(host.is_idle());
    }
}

#[test]
fn variable_environment_creation_uses_authenticated_null_prototype() {
    let mut host = Host::new(1);
    let realm = host.new_context();
    let entry = host.entry(realm, "(function(){eval('');return 42})", vec![]);
    let pc = host.position(&entry, |op| matches!(op, Instruction::VariableEnvironment));
    let (mut execution, id) = host.start_at(entry, pc);
    let op = Operation::CreateVariable;
    assert_eq!(steps(&host.runtime, &mut execution, id), RunExit::Environment(op));
    let before = execution.frames.current(id).unwrap().fault_pc;
    let step = stack_vm::environment_driver::step(&mut host.runtime, &mut execution, id, op).unwrap();
    assert_eq!(step, CallStep::Entered);
    let frame = execution.frames.current(id).unwrap();
    assert_eq!(frame.resume_pc, before + 1);
    let environment = object_of(execution.slots.peek(frame.window, 0).unwrap(), "variable environment");
    assert!(host.runtime.get_prototype_of(environment).unwrap().is_none());
    host.abandon(execution);
    assert!(host.is_idle());
}

#[test]
fn dynamic_data_reads_handle_unscopables_and_captured_with_receivers() {
    for (setup, source) in [
        ("({x:42})", "(function(o){with(o){return x}})"),
        ("({x:99,[Symbol.unscopables]:{x:true}})", "(function(o){let x=42;with(o){return x}})"),
        ("({x:42,[Symbol.unscopables]:{x:false}})", "(function(o){with(o){return (function(){return x})()}})"),
        ("({x:42,m:function(){return this.x}})", "(function(o){with(o){return m()}})"),
        ("({})", "(function(o){let x=42;with(o){return x}})"),
    ] {
        let mut host = Host::new(1);
        let realm = host.new_context();
        let object = host.eval(realm, setup);
        let entry = host.entry(realm, source, vec![object]);
        let (completion, costs) = host.measure(entry);
        assert_eq!(returned(completion, source), JsValue::Int(42), "{source}");
        assert_eq!(costs.owned_bridge_exits, 0, "{source}: {costs:?}");
        assert!(host.is_idle());
    }
}

#[test]
fn dynamic_getters_run_once_and_keep_the_with_receiver() {
    for (setup, source) in [
        (
            "(function(){var n=0;return {get x(){n=n+1;return 41},count:function(){return n}}})()",
            "(function(o){with(o){return x+count()}})",
        ),
        ("({get x(){throw 42}})", "(function(o){try{with(o){return x}}catch(e){return e}})"),
        (
            "(function(){var n=0;return {x:41,get m(){n=n+1;return function(){return this.x+n}}}})()",
            "(function(o){with(o){return m()}})",
        ),
        ("({get x(){return 42}})", "(function(o){with(o){return (function(){return x})()}})"),
    ] {
        let mut host = Host::new(1);
        let realm = host.new_context();
        let object = host.eval(realm, setup);
        let entry = host.entry(realm, source, vec![object]);
        let (completion, costs) = host.measure(entry);
        assert_eq!(returned(completion, source), JsValue::Int(42));
        assert_eq!(costs.owned_bridge_exits, 0, "{source}: {costs:?}");
        assert!(costs.maximum_frame_depth >= 2);
        assert!(host.is_idle());
    }
}

#[test]
fn unscopables_getters_resume_in_order_and_propagate_abrupt_completion() {
    for (setup, source, expected) in [
        (
            "(function(){var n=0;var excluded={get x(){n=n*10+2;return false}};return [{get x(){n=n*10+3;return 41},get [Symbol.unscopables](){n=n*10+1;return excluded}},function(){return n}]})()",
            "(function(o,count){var v=(function(){with(o){return x}})();return v+count()})",
            164,
        ),
        (
            "(function(){var n=0;var excluded={get x(){n=n*10+2;return true}};return [{get x(){throw 99},get [Symbol.unscopables](){n=n*10+1;return excluded}},function(){return n}]})()",
            "(function(o,count){let x=41;var v=(function(){with(o){return x}})();return v+count()})",
            53,
        ),
        (
            "[{x:99,get [Symbol.unscopables](){throw 42}},function(){return 0}]",
            "(function(o){try{with(o){return x}}catch(e){return e}})",
            42,
        ),
        (
            "[{x:99,get [Symbol.unscopables](){return {get x(){throw 42}}}},function(){return 0}]",
            "(function(o){try{with(o){return x}}catch(e){return e}})",
            42,
        ),
        (
            "[{get [Symbol.unscopables](){throw 99}},function(){return 0}]",
            "(function(o){let x=42;with(o){return x}})",
            42,
        ),
    ] {
        let mut host = Host::new(1);
        let realm = host.new_context();
        let pair = host.eval_object(realm, setup);
        let object = host.get_property(realm, pair, "0");
        let count = host.get_property(realm, pair, "1");
        let entry = host.entry(realm, source, vec![object, count]);
        let (completion, costs) = host.measure(entry);
        assert_eq!(returned(completion, source), JsValue::Int(expected), "{setup}");
        assert_eq!(costs.owned_bridge_exits, 0, "{setup}: {costs:?}");
        assert!(host.is_idle());
    }
}

#[test]
fn selected_native_calls_return_or_throw_into_the_owned_caller() {
    for (callee, source) in [
        ("parseInt", "(function(f){let x=2;return f('40',10)+x})"),
        ("Reflect.get", "(function(f){let x=40;try{f(0,'x')}catch(e){return x+2}})"),
    ] {
        let mut host = Host::new(1);
        let realm = host.new_context();
        let callee = host.eval(realm, callee);
        let entry = host.entry(realm, source, vec![callee]);
        let (completion, costs) = host.measure(entry);
        assert_eq!(completion, Completion::Return(JsValue::Int(42)));
        assert_eq!(costs.owned_bridge_exits, 0, "{source}: {costs:?}");
        assert!(host.is_idle());
    }
}

#[test]
fn selected_native_callback_reentry_preserves_captured_bindings() {
    let mut host = Host::new(1);
    let realm = host.new_context();
    let array = host.eval(realm, "(function(){let xs=[10,20,12];xs.f=Array.prototype.map;return xs})()");
    let source =
        "(function(xs){let sum=0;let mapped=xs.f(function(value){sum=sum+value;return value});return sum})";
    let entry = host.entry(realm, source, vec![array]);
    let (completion, costs) = host.measure(entry);
    assert_eq!(completion, Completion::Return(JsValue::Int(42)));
    assert_eq!(costs.owned_bridge_exits, 0, "{costs:?}");
    assert!(host.is_idle());
    assert_eq!(costs.owned_sync_call_bridges, 1);
}

#[test]
fn named_array_prototype_reads_reach_owned_methods() {
    let mut host = Host::new(1);
    let realm = host.new_context();
    host.eval(realm, "Object.defineProperty(Array.prototype,'owned',{value:function(){return 42},configurable:true})");
    let array = host.eval(realm, "[]");
    let entry = host.entry(realm, "(function(xs){return xs.owned()})", vec![array]);
    let (completion, costs) = host.measure(entry);
    assert_eq!(completion, Completion::Return(JsValue::Int(42)));
    assert_eq!(costs.owned_bridge_exits, 0, "{costs:?}");
    assert!(host.is_idle());
}

#[test]
fn program_global_initialization_and_assignments_use_owned_cells() {
    for source in [
        "let x=40;x=x+2;x",
        "const x=42;x",
        "var x=40;x=x+2;x",
        "function f(){return 42}f()",
        "x=40;x=x+2;x",
    ] {
        let mut host = Host::new(1);
        let realm = host.new_context();
        assert_eq!(host.eval(realm, source), JsValue::Int(42), "{source}");
        assert_eq!(host.profile.owned_bridge_exits, 0, "{source}: {:?}", host.profile);
        assert!(host.is_idle());
    }
}

#[test]
fn global_writes_preserve_tdz_const_and_rhs_order() {
    for (setup, body, message) in [
        ("const x=1", "x=42;return x", Some("'x' is read-only")),
        ("throw 0;let x", "x=42;return x", Some("x is not initialized")),
        ("throw 0;let x", "x=(function(){throw 42})()", None),
        ("const x=1", "x=(function(){throw 42})()", None),
        ("delete globalThis.x", "'use strict';x=42", Some("'x' is not defined")),
        (
            "Object.defineProperty(globalThis,'x',{value:1,writable:false,configurable:true})",
            "'use strict';x=42",
            Some("'x' is read-only"),
        ),
        (
            "Object.defineProperty(globalThis,'x',{value:42,writable:false,configurable:true})",
            "x=99;return x",
            None,
        ),
    ] {
        let mut host = Host::new(1);
        let realm = host.new_context();
        let _ = host.try_eval(realm, setup);
        let source = format!("(function(){{{body}}})");
        let entry = host.entry(realm, &source, vec![]);
        let (completion, costs) = host.measure(entry);
        if let Some(message) = message {
            let error = thrown_object(completion, &source);
            expect_text(&mut host, realm, error, "message", message);
        } else if body.contains("throw 42") {
            assert_eq!(completion, Completion::Throw(JsValue::Int(42)), "{source}");
        } else {
            assert_eq!(completion, Completion::Return(JsValue::Int(42)), "{source}");
        }
        assert_eq!(costs.owned_bridge_exits, 0, "{source}: {costs:?}");
        assert!(host.is_idle());
    }
}

#[test]
fn global_property_setters_run_once_without_getter_reads() {
    for inherited in [false, true] {
        let mut host = Host::new(1);
        let realm = host.new_context();
        let target = if inherited { "Object.getPrototypeOf(globalThis)" } else { "globalThis" };
        host.eval(realm, &format!("(function(){{let stored=0;globalThis.readStored=function(){{return stored}};Object.defineProperty({target},'x',{{get(){{throw 99}},set(value){{if(this!==globalThis)throw 99;stored=stored+value}},configurable:true}})}})()"));
        let entry = host.entry(realm, "(function(){'use strict';x=40;x=2;return 42})", vec![]);
        let (completion, costs) = host.measure(entry);
        assert_eq!(completion, Completion::Return(JsValue::Int(42)));
        assert_eq!(host.eval(realm, "readStored()"), JsValue::Int(42));
        assert_eq!(costs.owned_bridge_exits, 0, "inherited={inherited}: {costs:?}");
        assert!(costs.maximum_frame_depth >= 2);
        assert!(host.is_idle());
    }
}

#[test]
fn delete_global_binding_probes_presence_without_reading_accessors() {
    for (setup, expected) in [
        ("let x=1", false),
        ("throw 0;let x", false),
        ("var x=1", false),
        ("globalThis.x=1", true),
        ("delete globalThis.x", true),
        ("Object.defineProperty(globalThis,'x',{get(){throw 99},configurable:true})", true),
        ("Object.setPrototypeOf(globalThis,{get x(){throw 99}})", true),
    ] {
        let mut host = Host::new(1);
        let realm = host.new_context();
        let _ = host.try_eval(realm, setup);
        let entry = host.entry(realm, "(function(){return delete x})", vec![]);
        let (completion, costs) = host.measure(entry);
        assert_eq!(completion, Completion::Return(JsValue::Bool(expected)), "{setup}");
        assert_eq!(costs.owned_bridge_exits, 0, "{setup}: {costs:?}");
        assert!(host.is_idle());
    }
}

#[test]
fn spread_calls_preserve_receiver_bound_arguments_and_explicit_frames() {
    for (callee, source) in [
        ("(function(a,b){return a+b})", "(function(f){return f(...[40,2])})"),
        ("({base:40,f:function(x){return this.base+x}})", "(function(o){return o.f(...[2])})"),
        ("(function(a,b){return this.base+a+b}).bind({base:1},40)", "(function(f){return f(...[1])})"),
        ("(function(){return 42})", "(function(f){return f(...[])})"),
        ("(function(){throw 42})", "(function(f){try{return f(...[1])}catch(e){return e}})"),
        (
            "(function loop(n){if(n===0)return 42;return loop(...[n-1])})",
            "(function(f){return f(...[256])})",
        ),
    ] {
        let mut host = Host::new(1);
        let realm = host.new_context();
        let callee = host.eval(realm, callee);
        let entry = host.entry(realm, source, vec![callee]);
        let (completion, costs) = host.measure(entry);
        assert_eq!(completion, Completion::Return(JsValue::Int(42)), "{source}");
        assert_eq!(costs.owned_bridge_exits, 0, "{source}: {costs:?}");
        assert!(host.is_idle());
    }
}

#[test]
fn spread_constructors_and_super_use_existing_constructor_continuations() {
    for (callee, arguments) in [
        ("(function Base(a,b){if(new.target===Base)return {value:a+b};throw 99})", "[40,2]"),
        ("(function(a,b){return {value:a+b}}).bind(null,40)", "[2]"),
        (
            "(class Derived extends (class Base{constructor(a,b){return {value:a+b}}}) {constructor(...args){super(...args)}})",
            "[40,2]",
        ),
        ("(class Derived extends (class Base{constructor(a,b){return {value:a+b}}}) {})", "[40,2]"),
    ] {
        let mut host = Host::new(1);
        let realm = host.new_context();
        let callee = host.eval(realm, callee);
        let args = host.eval(realm, arguments);
        let entry = host.entry(realm, "(function(C,args){return (new C(...args)).value})", vec![callee, args]);
        let (completion, costs) = host.measure(entry);
        assert_eq!(completion, Completion::Return(JsValue::Int(42)), "{arguments}");
        assert_eq!(costs.owned_bridge_exits, 0, "{costs:?}");
        assert!(host.is_idle());
    }
}

#[test]
fn apply_construct_snapshot_survives_prototype_getter_and_carrier_mutation() {
    let mut host = Host::new(1);
    let realm = host.new_context();
    let constructor = host.eval(realm, "(function(value){return value})");
    let new_target = host.eval(realm, "({get prototype(){return {}}})");
    let carrier = host.eval_object(realm, "[{}]");
    let argument = host.runtime.dense_values(carrier).unwrap()[0];
    assert!(argument.is_object());
    let entry = host.entry(realm, "(function(C){return new C(...[])})", vec![]);
    let pc = host.position(&entry, |op| matches!(op, Instruction::Apply(ApplyKind::Construct)));
    let (mut execution, id) = host.start_at(entry, pc);
    for value in [constructor, new_target, JsValue::Object(carrier)] {
        execution.slots.push(value).unwrap();
    }
    host.profile = Profile::default();
    assert_eq!(steps(&host.runtime, &mut execution, id), RunExit::Apply(ApplyKind::Construct));
    let step =
        stack_vm::apply_driver::step(&mut host.runtime, &mut execution, id, ApplyKind::Construct, 1).unwrap();
    assert_eq!(step, CallStep::Entered);
    assert_ne!(execution.frames.current_id(), Some(id));
    let zero = host.runtime.intern_property_key("0");
    assert!(host.runtime.delete_property(carrier, zero).unwrap());
    let completion = host.execute_running(execution).unwrap();
    assert_eq!(completion, Completion::Return(argument));
    assert_eq!(host.profile.owned_bridge_exits, 0, "{:?}", host.profile);
    assert!(host.is_idle());
}

#[test]
fn apply_checkpoint_preserves_callability_list_and_constructor_error_order() {
    for (function, array, construct, error_name, message) in [
        ("0", "({get length(){throw 99}})", false, Some("TypeError"), Some("not a function")),
        ("0", "new Array(65535)", true, Some("TypeError"), Some("not a function")),
        ("(()=>42)", "new Array(65535)", true, Some("RangeError"), None),
        ("(()=>42)", "[]", true, Some("TypeError"), None),
        ("(()=>42)", "1", false, Some("TypeError"), Some("not a object")),
        ("(()=>42)", "null", true, None, None),
        ("(()=>42)", "undefined", false, None, None),
    ] {
        let mut host = Host::new(1);
        let realm = host.new_context();
        let function = host.eval(realm, function);
        let array = host.eval(realm, array);
        let source = if construct { "(function(C){return new C(...[])})" } else { "(function(f){return f(...[])})" };
        let entry = host.entry(realm, source, vec![]);
        let kind = if construct { ApplyKind::Construct } else { ApplyKind::Call };
        let pc = host.position(&entry, |op| matches!(op, Instruction::Apply(found) if *found == kind));
        let (mut execution, _) = host.start_at(entry, pc);
        for value in [function, JsValue::Undefined, array] {
            execution.slots.push(value).unwrap();
        }
        host.profile = Profile::default();
        let completion = host.execute_running(execution).unwrap();
        if let Some(error_name) = error_name {
            let error = thrown_object(completion, source);
            expect_text(&mut host, realm, error, "name", error_name);
            if let Some(message) = message {
                expect_text(&mut host, realm, error, "message", message);
            }
        } else {
            assert_eq!(completion, Completion::Return(JsValue::Int(42)));
        }
        assert_eq!(host.profile.owned_bridge_exits, 0, "{:?}", host.profile);
        assert!(host.is_idle());
    }
}

#[test]
fn array_element_checkpoint_defines_own_properties_without_setters() {
    let mut host = Host::new(1);
    let realm = host.new_context();
    host.eval(realm, "Object.defineProperty(Array.prototype,'1',{set(){throw 99},configurable:true})");
    let array = host.eval(realm, "[]");
    let entry = host.entry(realm, "(function(){return [...[],40]})", vec![]);
    let pc = host.position(&entry, |op| matches!(op, Instruction::DefineArrayEl));
    // Start at the published element write; the spread before it is not run.
    let (mut execution, id) = host.start_at(entry, pc);
    for value in [array, JsValue::Int(1), JsValue::Int(40)] {
        execution.slots.push(value).unwrap();
    }
    let op = Operation::DefineArrayElement;
    assert_eq!(steps(&host.runtime, &mut execution, id), RunExit::Environment(op));
    let step = stack_vm::environment_driver::step(&mut host.runtime, &mut execution, id, op).unwrap();
    assert_eq!(step, CallStep::Entered);
    let frame = execution.frames.current(id).unwrap();
    assert_eq!(frame.resume_pc, pc + 1);
    assert_eq!(execution.slots.depth(frame.window), 2);
    assert_eq!(execution.slots.peek(frame.window, 0).unwrap(), JsValue::Int(1));
    assert_eq!(execution.slots.peek(frame.window, 1).unwrap(), array);
    host.profile = Profile::default();
    let completion = host.execute_running(execution).unwrap();
    let array = object_of(returned(completion, "sparse array"), "sparse array");
    assert_eq!(host.get_property(realm, array, "length"), JsValue::Int(2));
    let zero = host.runtime.intern_property_key("0");
    assert!(host.runtime.get_own_property(array, zero).unwrap().is_none());
    let one = host.runtime.intern_property_key("1");
    assert!(matches!(
        host.runtime.get_own_property(array, one).unwrap(),
        Some(PropertyDescriptor::Data {
            value: JsValue::Int(40),
            writable: true,
            enumerable: true,
            configurable: true
        })
    ));
    assert_eq!(host.profile.owned_bridge_exits, 0, "{:?}", host.profile);
    assert!(host.is_idle());
}

#[test]
fn global_reference_accessors_and_new_bindings_use_owned_calls() {
    for (setup, source, expected, stored, error_message) in [
        (
            "delete globalThis.x",
            "(function(o){with(o){return x=(function(){return 42})()}})",
            42,
            Some(42),
            None,
        ),
        (
            "(function(){let n=1;Object.defineProperty(globalThis,'x',{get(){return n},set(v){n=v;return 99},configurable:true})})()",
            "(function(o){with(o){return x+=(function(){return 41})()}})",
            42,
            Some(42),
            None,
        ),
        (
            "(function(){let n=0;globalThis.marker=41;Object.defineProperty(globalThis,'x',{get(){return n},set(v){n=n+v+this.marker;return 99},configurable:true})})()",
            "(function(o){with(o){return x+=(function(){return 1})()}})",
            1,
            Some(42),
            None,
        ),
        (
            "Object.defineProperty(globalThis,'x',{get(){throw 42},configurable:true})",
            "(function(o){try{with(o){x+=(function(){throw 99})()}}catch(e){return e}})",
            42,
            None,
            None,
        ),
        (
            "Object.defineProperty(globalThis,'x',{value:1,writable:false,configurable:true})",
            "(function(o){with(o){return x=(function(){return 42})()}})",
            42,
            Some(1),
            None,
        ),
        (
            "delete globalThis.x",
            "(function(o){with(o){return function(){'use strict';try{x=(function(){return 42})()}catch(e){return e}}}})({})",
            0,
            None,
            Some("'x' is not defined"),
        ),
    ] {
        let mut host = Host::new(1);
        let realm = host.new_context();
        host.eval(realm, setup);
        let object = host.eval(realm, "({})");
        let entry = host.entry(realm, source, vec![object]);
        let (completion, costs) = host.measure(entry);
        let value = returned(completion, source);
        if let Some(message) = error_message {
            let error = object_of(value, source);
            expect_text(&mut host, realm, error, "message", message);
        } else {
            assert_eq!(value, JsValue::Int(expected), "{source}");
        }
        if let Some(stored) = stored {
            let global = host.runtime.realm(realm).unwrap().global_object;
            assert_eq!(host.get_property(realm, global, "x"), JsValue::Int(stored));
        }
        assert_eq!(costs.owned_bridge_exits, 0, "{source}: {costs:?}");
        assert!(host.is_idle());
    }
}

#[test]
fn global_reference_checkpoint_checks_presence_without_invoking_getters() {
    for (setup, present) in [
        ("globalThis.x=1", true),
        ("Object.defineProperty(globalThis,'x',{get(){throw 99},configurable:true})", true),
        ("Object.setPrototypeOf(globalThis,{get x(){throw 99}})", true),
        ("delete globalThis.x", false),
    ] {
        let mut host = Host::new(1);
        let realm = host.new_context();
        host.eval(realm, setup);
        let source = "(function(o){with(o){x=(function(){return 42})()}})";
        let entry = host.entry(realm, source, vec![JsValue::Undefined]);
        let pc = host.position(&entry, |op| matches!(op, Instruction::GlobalReference(_)));
        let (mut execution, id) = host.start_at(entry, pc);
        let RunExit::Environment(op @ Operation::GlobalReference(_)) = steps(&host.runtime, &mut execution, id) else {
            panic!("expected global reference")
        };
        let step = stack_vm::environment_driver::step(&mut host.runtime, &mut execution, id, op).unwrap();
        assert_eq!(step, CallStep::Entered);
        let frame = execution.frames.current(id).unwrap();
        assert_eq!(frame.resume_pc, pc + 1);
        assert_eq!(execution.slots.depth(frame.window), 1);
        let expected = if present {
            JsValue::Object(host.runtime.realm(realm).unwrap().global_object)
        } else {
            JsValue::Undefined
        };
        assert_eq!(execution.slots.peek(frame.window, 0).unwrap(), expected);
        host.abandon(execution);
        assert!(host.is_idle());
    }
}

#[test]
fn global_references_prefer_late_lexical_cells_before_evaluating_rhs() {
    for (lexical, is_const, initial, expected_error) in [
        (false, false, Some(JsValue::Int(1)), None),
        (true, false, Some(JsValue::Int(1)), None),
        (true, true, Some(JsValue::Int(1)), Some("'x' is read-only")),
        (true, false, None, Some("x is not initialized")),
    ] {
        let mut host = Host::new(1);
        let realm = host.new_context();
        host.eval(realm, "globalThis.x=1");
        let object = host.eval(realm, "({})");
        let source = if expected_error.is_some() {
            "(function(o){try{with(o){return x=(function(){throw 99})()}}catch(e){return e}})"
        } else {
            "(function(o){with(o){return x=(function(){return 42})()}})"
        };
        let entry = host.entry(realm, source, vec![object]);
        let _ = host.position(&entry, |op| matches!(op, Instruction::GlobalReference(_)));
        // Publish against the property first, then introduce a live lexical cell.
        if lexical {
            host.create_global_lexical(realm, "x", is_const, initial);
        }
        let (completion, costs) = host.measure(entry);
        let value = returned(completion, source);
        let key = host.runtime.intern_property_key("x");
        if let Some(message) = expected_error {
            let error = object_of(value, source);
            expect_text(&mut host, realm, error, "message", message);
        } else {
            assert_eq!(value, JsValue::Int(42));
            if lexical {
                let object = host.runtime.realm(realm).unwrap().global_lexical;
                let root = host.runtime.own_var_ref_root(object, key).unwrap().unwrap();
                assert_eq!(host.runtime.read_var_ref(root).unwrap(), JsValue::Int(42));
            }
        }
        let global = host.runtime.realm(realm).unwrap().global_object;
        assert_eq!(host.get_key(realm, global, key), JsValue::Int(if lexical { 1 } else { 42 }));
        assert_eq!(costs.owned_bridge_exits, 0, "{source}: {costs:?}");
        assert!(host.is_idle());
    }
}

#[test]
fn reference_read_checkpoint_preserves_cells_and_reports_unresolved_names() {
    for (initial, unresolved, expected_error) in [
        (Some(JsValue::Int(42)), false, None),
        (None, false, Some("x is not initialized")),
        (Some(JsValue::Int(42)), true, Some("'x' is not defined")),
    ] {
        let mut host = Host::new(1);
        let realm = host.new_context();
        host.create_global_lexical(realm, "x", false, initial);
        let object = host.runtime.realm(realm).unwrap().global_lexical;
        let key = host.runtime.intern_property_key("x");
        let root = host.runtime.own_var_ref_root(object, key).unwrap().unwrap();
        let source = "(function(o){with(o){x+=(function(){return 1})()}})";
        let entry = host.entry(realm, source, vec![JsValue::Object(object)]);
        let pc = host.position(&entry, |op| {
            matches!(op, Instruction::GetRefValue(_) | Instruction::GetRefValueUndef(_))
        });
        let (mut execution, id) = host.start_at(entry, pc);
        let base = if unresolved { JsValue::Undefined } else { JsValue::Object(object) };
        execution.slots.push(base).unwrap();
        let RunExit::Environment(op @ Operation::ReadReference { .. }) = steps(&host.runtime, &mut execution, id) else {
            panic!("expected reference read")
        };
        let result = stack_vm::environment_driver::step(&mut host.runtime, &mut execution, id, op).unwrap();
        if let Some(message) = expected_error {
            let CallStep::Complete(completion) = result else { panic!("expected reference error") };
            let error = thrown_object(completion, source);
            expect_text(&mut host, realm, error, "message", message);
        } else {
            assert_eq!(result, CallStep::Entered);
            let frame = execution.frames.current(id).unwrap();
            assert_eq!(frame.resume_pc, pc + 1);
            assert_eq!(execution.slots.depth(frame.window), 2);
            assert_eq!(execution.slots.peek(frame.window, 0).unwrap(), JsValue::Int(42));
            assert_eq!(execution.slots.peek(frame.window, 1).unwrap(), base);
        }
        assert_eq!(host.runtime.own_var_ref_root(object, key).unwrap(), Some(root));
        host.abandon(execution);
        assert!(host.is_idle());
    }
}

#[test]
fn reference_write_checkpoint_preserves_live_lexical_cells() {
    for (is_const, initial, strict, expected_error) in [
        (false, Some(JsValue::Int(1)), false, None),
        (false, Some(JsValue::Int(1)), true, None),
        (true, Some(JsValue::Int(1)), false, None),
        (true, Some(JsValue::Int(1)), true, Some("'x' is read-only")),
        (false, None, false, Some("x is not initialized")),
    ] {
        let mut host = Host::new(1);
        let realm = host.new_context();
        host.create_global_lexical(realm, "x", is_const, initial);
        let object = host.runtime.realm(realm).unwrap().global_lexical;
        let key = host.runtime.intern_property_key("x");
        let root = host.runtime.own_var_ref_root(object, key).unwrap().unwrap();
        let source = if strict {
            "(function(o){with(o){return function(){'use strict';x=(function(){return 42})()}}})({})"
        } else {
            "(function(o){with(o){x=(function(){return 42})()}})"
        };
        let entry = host.entry(realm, source, vec![JsValue::Object(object)]);
        let pc = host.position(&entry, |op| matches!(op, Instruction::PutRefValue(_)));
        let Instruction::PutRefValue(name) = host.runtime.code[entry.executable].code[pc] else { unreachable!() };
        let (mut execution, id) = host.start_at(entry, pc);
        execution.slots.push(JsValue::Object(object)).unwrap();
        execution.slots.push(JsValue::Int(42)).unwrap();
        let op = Operation::Put { source: WriteTarget::Reference, name, strict, check_presence: true };
        assert_eq!(steps(&host.runtime, &mut execution, id), RunExit::Environment(op));
        let result = stack_vm::environment_driver::step(&mut host.runtime, &mut execution, id, op).unwrap();
        if let Some(message) = expected_error {
            let CallStep::Complete(completion) = result else { panic!("expected lexical rejection") };
            let error = thrown_object(completion, source);
            expect_text(&mut host, realm, error, "message", message);
        } else {
            assert_eq!(result, CallStep::Entered);
            let frame = execution.frames.current(id).unwrap();
            assert_eq!(frame.resume_pc, pc + 1);
            assert_eq!(execution.slots.depth(frame.window), 0);
            let expected = if is_const { JsValue::Int(1) } else { JsValue::Int(42) };
            assert_eq!(host.runtime.read_var_ref(root).unwrap(), expected);
        }
        assert_eq!(host.runtime.own_var_ref_root(object, key).unwrap(), Some(root));
        host.abandon(execution);
        assert!(host.is_idle());
    }
}

#[test]
fn dynamic_assignments_preserve_setter_receiver_and_rejection_rules() {
    for (setup, body, expected_error) in [
        ("({x:0})", "with(o){x=42;return x}", None),
        ("Object.create({x:0})", "with(o){x=42;return x}", None),
        (
            "(function(){let n=0;return {y:1,get x(){return n},set x(v){n=n+v+this.y;return 99}}})()",
            "with(o){x=41;return x}",
            None,
        ),
        (
            "(function(){let n=0;return Object.create({get x(){return n},set x(v){n=n+v+this.y;return 99}}, {y:{value:1}})})()",
            "with(o){x=41;return x}",
            None,
        ),
        ("({set x(v){throw v}})", "try{with(o){x=42}}catch(e){return e}", None),
        ("Object.defineProperty({},'x',{value:42})", "with(o){x=99;return x}", None),
        ("({get x(){return 42}})", "with(o){x=99;return x}", None),
        ("({x:1})", "with(o){x=(function(){delete x;return 42})()}return o.x", None),
        (
            "Object.defineProperty({},'x',{value:42})",
            "try{with(o){return (function(){'use strict';x=99})()}}catch(e){return e}",
            Some("'x' is read-only"),
        ),
        (
            "({get x(){return 42}})",
            "try{with(o){return (function(){'use strict';x=99})()}}catch(e){return e}",
            Some("no setter for property"),
        ),
    ] {
        let mut host = Host::new(1);
        let realm = host.new_context();
        let object = host.eval(realm, setup);
        let entry = host.entry(realm, &format!("(function(o){{{body}}})"), vec![object]);
        let (completion, costs) = host.measure(entry);
        let value = returned(completion, body);
        if let Some(message) = expected_error {
            let error = object_of(value, body);
            expect_text(&mut host, realm, error, "message", message);
        } else {
            assert_eq!(value, JsValue::Int(42), "{body}");
        }
        assert_eq!(costs.owned_bridge_exits, 0, "{body}: {costs:?}");
        assert!(host.is_idle());
    }
}

#[test]
fn dynamic_deletion_respects_own_descriptors_and_unscopables() {
    for (setup, expected, own_after) in [
        ("({x:42})", true, false),
        ("Object.defineProperty({},'x',{value:42,configurable:false})", false, true),
        ("({get x(){throw 99}})", true, false),
        ("Object.create({x:42})", true, false),
        ("({x:42,[Symbol.unscopables]:{x:true}})", false, true),
        ("({})", false, false),
    ] {
        let mut host = Host::new(1);
        let realm = host.new_context();
        let object = host.eval_object(realm, setup);
        let source = "(function(o){let x=41;with(o){return delete x}})";
        let entry = host.entry(realm, source, vec![JsValue::Object(object)]);
        let (completion, costs) = host.measure(entry);
        assert_eq!(returned(completion, source), JsValue::Bool(expected), "{setup}");
        let key = host.runtime.intern_property_key("x");
        assert_eq!(host.runtime.get_own_property(object, key).unwrap().is_some(), own_after, "{setup}");
        assert_eq!(costs.owned_bridge_exits, 0, "{setup}: {costs:?}");
        assert!(host.is_idle());
    }
}

#[test]
fn class_heritage_getter_replies_once_before_publication() {
    for (getter, expected_error) in [
        ("function(){n=n+1;return prototype}", false),
        ("function(){n=n+1;throw 41}", false),
        ("function(){n=n+1;return 1}", true),
    ] {
        let mut host = Host::new(1);
        let realm = host.new_context();
        let pair = host.eval_object(realm, &format!("(function(){{var n=0,prototype={{}};var B=(function(){{}}).bind(null);Object.defineProperty(B,'prototype',{{get:{getter}}});return [B,function(){{return n}}]}})()"));
        let parent = host.get_property(realm, pair, "0");
        let counter = host.get_property(realm, pair, "1");
        let source = "(function(B,count){try{class C extends B {}return 41+count()}catch(e){if(e===41)return e+count();return e}})";
        let entry = host.entry(realm, source, vec![parent, counter]);
        let (completion, costs) = host.measure(entry);
        let value = returned(completion, getter);
        if expected_error {
            let error = object_of(value, getter);
            expect_text(&mut host, realm, error, "name", "TypeError");
        } else {
            assert_eq!(value, JsValue::Int(42));
        }
        assert_eq!(costs.owned_bridge_exits, 0, "{getter}: {costs:?}");
        assert_eq!(costs.maximum_frame_depth, 2);
        assert!(host.is_idle());
    }
}

#[test]
fn class_initializer_installation_and_static_calls_do_not_replay() {
    let mut host = Host::new(1);
    let realm = host.new_context();
    let entry = host.entry(realm, "(function(){return class {x=42; static {throw 42}}})", vec![]);
    let pc = host.position(&entry, |op| matches!(op, Instruction::RunClassStaticInitializer));
    let install_pc = host.position(&entry, |op| matches!(op, Instruction::InstallClassInstanceInitializer));
    let mut constructor = None;
    let mut static_initializer = None;
    let mut instance_initializer = None;
    for constant in host.runtime.code[entry.executable].constants.clone() {
        let BytecodeConstant::Function(child) = constant else { continue };
        let metadata = host.runtime.code[child].metadata;
        let callable = JsValue::Object(host.link(realm, child).object);
        if metadata.class_initializer_kind == Some(ClassInitializerKind::StaticElements) {
            static_initializer = Some(callable);
        } else if metadata.class_initializer_kind == Some(ClassInitializerKind::InstanceFields) {
            instance_initializer = Some(callable);
        } else if metadata.constructor_kind != ConstructorKind::NotConstructor {
            constructor = Some(callable);
        }
    }
    let name = atom(&mut host.runtime, "");
    let DefineClassOutcome::Defined { constructor, prototype } = host
        .runtime
        .define_class_pair(realm, JsValue::Undefined, constructor.unwrap(), name, false)
        .unwrap()
    else {
        panic!("expected fresh class pair")
    };
    let (constructor, prototype) = (JsValue::Object(constructor), JsValue::Object(prototype));
    let static_initializer = static_initializer.unwrap();
    let (mut execution, parent) = host.start_at(entry, install_pc);
    for value in [constructor, prototype, instance_initializer.unwrap()] {
        execution.slots.push(value).unwrap();
    }
    let exit = steps(&host.runtime, &mut execution, parent);
    assert_eq!(exit, RunExit::ClassInitializer(InitializerKind::Install));
    let step = initializer(&mut host.runtime, &mut execution, parent, InitializerKind::Install).unwrap();
    assert_eq!(step, CallStep::Entered);
    assert_eq!(execution.frames.current_id(), Some(parent));
    let frame = execution.frames.current(parent).unwrap();
    assert_eq!(frame.resume_pc, install_pc + 1);
    assert_eq!(execution.slots.depth(frame.window), 2);
    assert_eq!(execution.slots.peek(frame.window, 1).unwrap(), constructor);
    assert_eq!(execution.slots.pop(frame.window).unwrap(), prototype);
    execution.frames.current_mut(parent).unwrap().resume_pc = pc;
    execution.slots.push(static_initializer).unwrap();
    let exit = steps(&host.runtime, &mut execution, parent);
    assert_eq!(exit, RunExit::ClassInitializer(InitializerKind::Static));
    let step = initializer(&mut host.runtime, &mut execution, parent, InitializerKind::Static).unwrap();
    assert_eq!(step, CallStep::Entered);
    let child = execution.frames.current_id().unwrap();
    assert_ne!(child, parent);
    let RunExit::InstantiateClosure(index) = steps(&host.runtime, &mut execution, child) else {
        panic!("expected static block closure")
    };
    stack_vm::bindings::instantiate(&mut host.runtime, &mut execution, child, index).unwrap();
    let exit = steps(&host.runtime, &mut execution, child);
    assert_eq!(exit, RunExit::ClassInitializer(InitializerKind::Block));
    let step = initializer(&mut host.runtime, &mut execution, child, InitializerKind::Block).unwrap();
    assert_eq!(step, CallStep::Entered);
    let block = execution.frames.current_id().unwrap();
    assert_ne!(block, child);
    assert_eq!(steps(&host.runtime, &mut execution, block), RunExit::Throw);
    let frame = execution.frames.current(block).unwrap();
    assert_eq!(execution.slots.pop(frame.window).unwrap(), JsValue::Int(42));
    // Preparation is irreversible even when the body throws.
    assert!(host.runtime.begin_class_static_initializer(constructor, static_initializer).is_err());
    assert_eq!(execution.frames.frames.len(), 3);
    host.abandon(execution);
    assert!(host.is_idle());
}

#[test]
fn logical_limit_returns_a_throw_and_unwinds_every_active_frame() {
    let mut host = Host::new(1);
    let realm = host.new_context();
    let entry = host.entry(realm, "(function f(){return f()})", Vec::new());
    host.profile = Profile::default();
    let completion = host.execute(entry, ExecutionLimits { frames: 8, slots: 1024 }).unwrap();
    let error = thrown_object(completion, "overflow");
    assert_eq!(host.profile.maximum_frame_depth, 8);
    assert_eq!(host.profile.frames_pushed, 8);
    assert_eq!(host.profile.owned_bridge_exits, 0);
    assert!(host.is_idle());
    expect_text(&mut host, realm, error, "message", "stack overflow");
}

#[test]
fn nested_bound_calls_keep_argument_order() {
    let mut host = Host::new(1);
    let realm = host.new_context();
    let callee = host.eval(realm, "(function(a,b,c){return a*100+b*10+c}).bind(1000,1).bind(9000,2)");
    let entry = host.entry(realm, "(function root(f){return f(3)})", vec![callee]);
    let (completion, costs) = host.measure(entry);
    assert_eq!(completion, Completion::Return(JsValue::Int(123)));
    assert_eq!(costs.maximum_frame_depth, 2);
    assert_eq!(costs.owned_bridge_exits, 0);
    assert!(host.is_idle());
}

#[test]
fn bound_receiver_and_native_fallback_preserve_original_call() {
    for (source, depth) in [
        ("(function(a,b,c){'use strict';return this+a*100+b*10+c}).bind(1000,1).bind(9000,2)", 2),
        ("String.fromCharCode.bind(null,65).bind(null,66)", 1),
    ] {
        let mut host = Host::new(1);
        let realm = host.new_context();
        let callee = host.eval(realm, source);
        let argument = if depth == 1 { 67 } else { 3 };
        let expected = if depth == 1 { host.string("ABC") } else { JsValue::Int(1123) };
        let entry = host.entry(realm, "(function root(f,x){return f(x)})", vec![callee, JsValue::Int(argument)]);
        let (completion, costs) = host.measure(entry);
        assert_eq!(completion, Completion::Return(expected));
        assert_eq!(costs.maximum_frame_depth, depth);
        assert_eq!(costs.owned_bridge_exits, 0);
        assert!(host.is_idle());
    }
}

#[test]
fn boxed_this_identity_survives_frame_handoff() {
    let mut host = Host::new(1);
    let realm = host.new_context();
    let callee = host.eval(realm, "(function(){return this === ('x' in {},this)}).bind(3)");
    let entry = host.entry(realm, "(function root(f){return f()})", vec![callee]);
    let (completion, costs) = host.measure(entry);
    assert_eq!(completion, Completion::Return(JsValue::Bool(true)));
    assert_eq!(costs.maximum_frame_depth, 2);
    assert_eq!(costs.owned_bridge_exits, 1);
    assert!(host.is_idle());
}

#[test]
fn named_accessors_on_non_proxy_storage_use_owned_getter_frames() {
    for expression in [
        "(function(){return arguments})(7)",
        "new Uint8Array(2)",
        "new String('text')",
        "new Number(7)",
        "new Map()",
    ] {
        let mut host = Host::new(1);
        let realm = host.new_context();
        let object = host.eval(realm, &format!("var hits=0;var object={expression};object.marker=42;Object.defineProperty(object,'x',{{get:function(){{hits++;return this.marker}}}});object"));
        let entry = host.entry(realm, "(function(o){return o.x})", vec![object]);
        let (completion, costs) = host.measure(entry);
        assert_eq!(completion, Completion::Return(JsValue::Int(42)), "{expression}");
        assert_eq!(costs.frames_pushed, 2, "{expression}");
        assert_eq!(costs.owned_bridge_exits, 0, "{expression}");
        assert_eq!(costs.owned_sync_call_bridges, 0, "{expression}");
        assert_eq!(host.eval(realm, "hits"), JsValue::Int(1));
    }
}

#[test]
fn pending_native_call_can_be_abandoned_without_invocation_or_runtime_cycle() {
    let mut host = Host::new(1);
    let realm = host.new_context();
    let callee = host.eval(realm, "Math.abs");
    let entry = host.entry(realm, "(function(f){return f(42)})", vec![callee]);
    host.profile = Profile::default();
    let mut fuel: u64 = 1000;
    let pending =
        execute(&mut host.runtime, &mut host.registry, entry, ExecutionLimits::default(), &mut fuel).unwrap();
    let RunningExit::Call(pending) = pending else { panic!("expected a pending call") };
    assert!(!host.is_idle());
    assert_eq!(host.registry.active.len(), 1);
    assert_eq!(host.profile.owned_sync_call_bridges, 0);
    pending.abandon(&mut host.runtime, &mut host.registry);
    assert!(host.is_idle());
    assert!(host.registry.active.is_empty());
    assert_eq!(host.profile.owned_sync_call_bridges, 0);
}

#[test]
fn computed_update_retains_the_original_key_across_getter_and_write_handoff() {
    let mut host = Host::new(1);
    let realm = host.new_context();
    let object = host.eval(realm, "var key='x',hits=0,written=0;({get x(){hits++;key='y';return 40},set x(v){written=v},set y(v){throw 99}})");
    let entry = host.entry(realm, "(function(o){return o[key]++})", vec![object]);
    let (completion, costs) = host.measure(entry);
    assert_eq!(completion, Completion::Return(JsValue::Int(40)));
    assert_eq!(costs.maximum_frame_depth, 2);
    assert_eq!(costs.owned_bridge_exits, 1);
    assert_eq!(host.eval(realm, "hits"), JsValue::Int(1));
    assert_eq!(host.eval(realm, "written"), JsValue::Int(41));
    let y = host.string("y");
    assert_eq!(host.eval(realm, "key"), y);
}

#[test]
fn nullish_computed_reads_reject_before_key_callbacks() {
    for (source, expected) in [
        ("(function(o,k){try{return o[k]}catch(e){return e.message}})", "cannot read property of null"),
        ("(function(o,k){try{return o[k]++}catch(e){return e.message}})", "value has no property"),
    ] {
        let mut host = Host::new(1);
        let realm = host.new_context();
        let key = host.eval(realm, "var hits=0;({toString(){hits++;throw 99}})");
        let entry = host.entry(realm, source, vec![JsValue::Null, key]);
        let (completion, costs) = host.measure(entry);
        let expected = host.string(expected);
        assert_eq!(returned(completion, source), expected);
        assert_eq!(costs.owned_bridge_exits, 0);
        assert_eq!(costs.owned_sync_call_bridges, 0);
        assert_eq!(host.eval(realm, "hits"), JsValue::Int(0));
    }
}

#[test]
fn object_property_keys_resume_string_hint_and_late_method_reads() {
    for (setup, expected_events) in [
        (
            "var events='';var target={marker:42,get x(){events+='G';return this.marker}};var key={get [Symbol.toPrimitive](){events+='M';return function(hint){events+=hint;return 'x'}}}",
            "MstringG",
        ),
        (
            "var events='';var later=function(){throw 99};var target={get x(){events+='G';return 42}};var key={toString(){events+='S';later=function(){events+='V';return 'x'};return this},get valueOf(){events+='M';return later}}",
            "SMVG",
        ),
        (
            "var events='';var target={};Object.defineProperty(target,'x',{get:(function(a,b){events+='G';return this.marker+a+b}).bind({marker:39},1).bind({marker:0},2)});var key={toString:(function(k){events+=this.marker;return k}).bind({marker:'B'},'x')}",
            "BG",
        ),
    ] {
        let mut host = Host::new(1);
        let realm = host.new_context();
        host.eval(realm, setup);
        let target = host.eval(realm, "target");
        let key = host.eval(realm, "key");
        let entry = host.entry(realm, "(function(o,k){return o[k]})", vec![target, key]);
        let (completion, costs) = host.measure(entry);
        assert_eq!(completion, Completion::Return(JsValue::Int(42)));
        assert_eq!(costs.maximum_frame_depth, 2);
        assert_eq!(costs.owned_bridge_exits, 0, "{setup}");
        assert_eq!(costs.owned_sync_call_bridges, 0, "{setup}");
        let expected = host.string(expected_events);
        assert_eq!(host.eval(realm, "events"), expected);
    }
}

#[test]
fn converted_property_keys_keep_the_evaluated_base_and_throw_identity() {
    let mut host = Host::new(1);
    let realm = host.new_context();
    let key = host.eval(
        realm,
        "var current={x:42};var replacement={x:99};({toString(){current=replacement;return 'x'}})",
    );
    let entry = host.entry(realm, "(function(k){return current[k]})", vec![key]);
    let (completion, costs) = host.measure(entry);
    assert_eq!(completion, Completion::Return(JsValue::Int(42)));
    assert_eq!(costs.owned_bridge_exits, 0);
    assert_eq!(costs.owned_sync_call_bridges, 0);
    assert_eq!(host.eval(realm, "current.x"), JsValue::Int(99));
    for key_source in ["({get toString(){hits++;throw token}})", "({toString(){hits++;throw token}})"] {
        let token = host.eval(realm, "var hits=0;var token={};token");
        let key = host.eval(realm, key_source);
        let target = host.eval(realm, "({get x(){throw 98}})");
        let entry = host.entry(realm, "(function(o,k){return o[k]})", vec![target, key]);
        let (completion, costs) = host.measure(entry);
        assert_eq!(completion, Completion::Throw(token));
        assert_eq!(costs.owned_bridge_exits, 0);
        assert_eq!(costs.owned_sync_call_bridges, 0);
        assert_eq!(host.eval(realm, "hits"), JsValue::Int(1));
    }
}

#[test]
fn converted_key_crosses_only_the_unresolved_property_step() {
    for target_source in [
        "new Proxy({x:42},{get(t,k,r){traps++;return t[k]}})",
        "Object.defineProperty({},'x',{get:Number.prototype.valueOf.bind(42)})",
    ] {
        let mut host = Host::new(1);
        let realm = host.new_context();
        let key = host.eval(realm, "var keys=0,traps=0;({toString(){keys++;return 'x'}})");
        let target = host.eval(realm, target_source);
        let entry = host.entry(realm, "(function(o,k){return o[k]})", vec![target, key]);
        let (completion, costs) = host.measure(entry);
        assert_eq!(completion, Completion::Return(JsValue::Int(42)));
        assert_eq!(costs.owned_bridge_exits, 0);
        assert_eq!(costs.owned_sync_call_bridges, 1);
        assert_eq!(host.eval(realm, "keys"), JsValue::Int(1));
        let traps = JsValue::Int(i32::from(target_source.starts_with("new Proxy")));
        assert_eq!(host.eval(realm, "traps"), traps);
    }
}

#[test]
fn primitive_property_receivers_and_string_units_use_owned_reads() {
    for (setup, text) in [
        ("Object.defineProperty(Number.prototype,'x',{get:function(){'use strict';return this===42}})", false),
        ("Object.defineProperty(String.prototype,'x',{get:function(){'use strict';return this==='hi'}})", true),
    ] {
        let mut host = Host::new(1);
        let realm = host.new_context();
        host.eval(realm, setup);
        let input = if text { host.string("hi") } else { JsValue::Int(42) };
        let source = "(function(o){return o.x})";
        let entry = host.entry(realm, source, vec![input]);
        let (completion, costs) = host.measure(entry);
        assert_eq!(returned(completion, source), JsValue::Bool(true));
        assert_eq!(costs.owned_bridge_exits, 0);
        assert_eq!(costs.owned_sync_call_bridges, 0);
    }
    let mut host = Host::new(1);
    let realm = host.new_context();
    let input = host.string("hi");
    let entry = host.entry(realm, "(function(s){return s[0]+':'+s.length})", vec![input]);
    let (completion, costs) = host.measure(entry);
    let expected = host.string("h:2");
    assert_eq!(completion, Completion::Return(expected));
    assert_eq!(costs.frames_pushed, 1);
    assert_eq!(costs.owned_bridge_exits, 0);
    assert_eq!(costs.owned_sync_call_bridges, 0);
}

#[test]
fn object_key_updates_keep_one_conversion_across_the_remaining_set_bridge() {
    for selected in ["0", "Symbol.iterator"] {
        let mut host = Host::new(1);
        let realm = host.new_context();
        host.eval(realm, &format!("var keys=0,getters=0,written=0;var selected={selected};var target={{}};Object.defineProperty(target,selected,{{get:function(){{getters++;return 41}},set:function(v){{written=v}}}});var key={{toString(){{keys++;return selected}}}};"));
        let target = host.eval(realm, "target");
        let key = host.eval(realm, "key");
        let entry = host.entry(realm, "(function(o,k){return o[k]++})", vec![target, key]);
        let (completion, costs) = host.measure(entry);
        assert_eq!(completion, Completion::Return(JsValue::Int(41)));
        assert_eq!(costs.maximum_frame_depth, 2);
        assert_eq!(costs.owned_bridge_exits, 1);
        assert_eq!(costs.owned_sync_call_bridges, 0);
        assert_eq!(host.eval(realm, "keys*100+getters*10+written"), JsValue::Int(152));
    }
}

#[test]
fn object_key_conversion_failure_uses_the_reading_realm() {
    let mut host = Host::new(1);
    let caller = host.new_context();
    let foreign = host.new_context();
    let expected = host.eval_object(caller, "TypeError.prototype");
    let key = host.eval(foreign, "({toString(){return {}},valueOf(){return {}}})");
    let target = host.eval(caller, "({})");
    let entry = host.entry(caller, "(function(o,k){return o[k]})", vec![target, key]);
    let (completion, costs) = host.measure(entry);
    let error = thrown_object(completion, "key unexpectedly succeeded");
    assert_eq!(costs.owned_bridge_exits, 0);
    assert_eq!(costs.owned_sync_call_bridges, 0);
    assert_eq!(host.runtime.get_prototype_of(error).unwrap(), Some(expected));
    expect_text(&mut host, caller, error, "message", "toPrimitive");
    assert!(host.is_idle());
}

#[test]
fn ordinary_getter_resumes_in_the_same_execution() {
    let mut host = Host::new(1);
    let realm = host.new_context();
    let object = host.eval(realm, "Object.create({get x(){return this.y}}, {y:{value:41}})");
    let entry = host.entry(realm, "(function root(o){return o.x+1})", vec![object]);
    let (completion, costs) = host.measure(entry);
    assert_eq!(completion, Completion::Return(JsValue::Int(42)));
    assert_eq!(costs.maximum_frame_depth, 2);
    assert_eq!(costs.owned_bridge_exits, 0);
    assert!(host.is_idle());
}

#[test]
fn getter_method_call_keeps_the_original_receiver() {
    let mut host = Host::new(1);
    let realm = host.new_context();
    let object = host.eval(realm, "({y:52, fn:function(){return this.y}, get m(){return this.fn}})");
    let entry = host.entry(realm, "(function root(o){return o.m()})", vec![object]);
    let (completion, costs) = host.measure(entry);
    assert_eq!(completion, Completion::Return(JsValue::Int(52)));
    assert_eq!(costs.frames_pushed, 3);
    assert_eq!(costs.owned_bridge_exits, 0);
    assert!(host.is_idle());
}

#[test]
fn plus_conversion_getter_and_nested_value_of_use_explicit_replies() {
    let mut host = Host::new(1);
    let realm = host.new_context();
    let object = host.eval(realm, "({get valueOf(){return this.method}, method:function(){return +this.inner}, inner:{valueOf:function(){return 41}}})");
    let entry = host.entry(realm, "(function root(o){return +o+1})", vec![object]);
    let (completion, costs) = host.measure(entry);
    assert_eq!(completion, Completion::Return(JsValue::Int(42)));
    assert_eq!(costs.maximum_frame_depth, 3);
    assert_eq!(costs.frames_pushed, 4);
    assert_eq!(costs.owned_bridge_exits, 0);
    assert!(host.is_idle());
}

#[test]
fn plus_conversion_preserves_callback_numeric_tags_and_bigint_diagnostic() {
    let mut host = Host::new(1);
    let realm = host.new_context();
    let factory = host.eval(realm, "(function(v){return {valueOf:function(){return v}}})");
    let factory = host.callable(factory);
    let one = bigint(&mut host.runtime, "1");
    for value in [
        JsValue::Float(42.0f64.to_bits()),
        JsValue::Float((-0.0f64).to_bits()),
        JsValue::Float(0x7ff8_0000_0000_0042),
        one,
    ] {
        let object = returned(host.call(realm, factory, JsValue::Undefined, vec![value]), "factory");
        let entry = host.entry(realm, "(function root(o){return +o})", vec![object]);
        let (completion, costs) = host.measure(entry);
        assert_eq!(costs.frames_pushed, 2);
        assert_eq!(costs.owned_bridge_exits, 0);
        match (value, completion) {
            (JsValue::Float(expected), Completion::Return(JsValue::Float(actual))) => assert_eq!(actual, expected),
            (JsValue::BigInt(_), Completion::Throw(JsValue::Object(error))) => {
                for (key, expected) in [("name", "TypeError"), ("message", "bigint argument with unary +")] {
                    expect_text(&mut host, realm, error, key, expected);
                }
            },
            other => panic!("unexpected unary plus completion {other:?}"),
        }
        assert!(host.is_idle());
    }
}

#[test]
fn conversion_child_handoff_does_not_repeat_getter_or_method() {
    let mut host = Host::new(1);
    let realm = host.new_context();
    let object = host.eval(realm, "var hits=0; ({get valueOf(){hits++;return function(){hits++;return 5}}})");
    let entry = host.entry(realm, "(function root(o){return +o})", vec![object]);
    let (completion, _) = host.measure(entry);
    assert_eq!(completion, Completion::Return(JsValue::Int(5)));
    assert_eq!(host.eval(realm, "hits"), JsValue::Int(2));
    assert!(host.is_idle());
}

#[test]
fn conversion_getter_and_method_throws_keep_identity_and_run_once() {
    for source in ["({get valueOf(){hits++;throw token}})", "({valueOf:function(){hits++;throw token}})"] {
        let mut host = Host::new(1);
        let realm = host.new_context();
        let token = host.eval(realm, "var hits=0; var token={}; token");
        let object = host.eval(realm, source);
        let entry = host.entry(realm, "(function root(o){return +o})", vec![object]);
        let (completion, _) = host.measure(entry);
        assert_eq!(completion, Completion::Throw(token));
        assert_eq!(host.eval(realm, "hits"), JsValue::Int(1));
        assert!(host.is_idle());
    }
}

#[test]
fn addition_keeps_evaluated_left_when_right_reassigns_parameter() {
    let mut host = Host::new(1);
    let realm = host.new_context();
    let object = host.eval(realm, "({valueOf:function(){return 40}})");
    let entry = host.entry(realm, "(function root(x){return x+(x=2)})", vec![object]);
    let (completion, costs) = host.measure(entry);
    assert_eq!(completion, Completion::Return(JsValue::Int(42)));
    assert_eq!(costs.owned_bridge_exits, 0);
    assert!(host.is_idle());
}

#[test]
fn addition_reads_right_conversion_after_left_callback() {
    let mut host = Host::new(1);
    let realm = host.new_context();
    let right = host.eval(realm, "var log='';var right={valueOf:function(){return 2}};right");
    let left = host.eval(
        realm,
        "({valueOf:function(){log+='L';right.valueOf=function(){log+='R';return 9};return 1}})",
    );
    let entry = host.entry(realm, "(function root(a,b){return a+b})", vec![left, right]);
    let (completion, _) = host.measure(entry);
    assert_eq!(completion, Completion::Return(JsValue::Int(10)));
    let expected = host.string("LR");
    assert_eq!(host.eval(realm, "log"), expected);
    assert!(host.is_idle());
}

#[test]
fn constructor_primitive_and_object_returns_use_explicit_child_frames() {
    let mut host = Host::new(1);
    let realm = host.new_context();
    let constructor = host.eval(realm, "(function C(x){return x})");
    let marker = host.eval(realm, "({marker:42})");
    for argument in [JsValue::Int(7), marker] {
        let source = "(function root(C,x){return new C(x)})";
        let entry = host.entry(realm, source, vec![constructor, argument]);
        let (completion, costs) = host.measure(entry);
        let object = object_of(returned(completion, source), source);
        if argument.is_object() {
            assert_eq!(JsValue::Object(object), argument);
        }
        assert_eq!(costs.maximum_frame_depth, 2);
        assert_eq!(costs.owned_bridge_exits, 0);
        assert!(host.is_idle());
    }
}

#[test]
fn bound_constructor_retargets_new_target_to_original_function() {
    let mut host = Host::new(1);
    let realm = host.new_context();
    let original = host.eval(realm, "var C=function(){return new.target};C");
    let bound = host.eval(realm, "C.bind(null,1).bind(null,2)");
    let entry = host.entry(realm, "(function root(C){return new C()})", vec![bound]);
    let (completion, costs) = host.measure(entry);
    assert_eq!(completion, Completion::Return(original));
    assert_eq!(costs.maximum_frame_depth, 2);
    assert_eq!(costs.owned_bridge_exits, 0);
    assert!(host.is_idle());
}

#[test]
fn derived_return_without_super_preserves_object_and_rejects_primitives() {
    let mut host = Host::new(1);
    let realm = host.new_context();
    let constructor = host.eval(realm, "(class D extends null {constructor(x){return x}})");
    let marker = host.eval(realm, "({marker:42})");
    for (value, expected_error) in [
        (marker, None),
        (JsValue::Undefined, Some("ReferenceError")),
        (JsValue::Int(1), Some("TypeError")),
    ] {
        let entry = host.entry(realm, "(function root(C,x){return new C(x)})", vec![constructor, value]);
        let (completion, costs) = host.measure(entry);
        assert_eq!(costs.owned_bridge_exits, 0, "{costs:?}");
        match (completion, expected_error) {
            (Completion::Return(result), None) => assert_eq!(result, value),
            (Completion::Throw(JsValue::Object(error)), Some(name)) => {
                expect_text(&mut host, realm, error, "name", name);
            },
            other => panic!("unexpected derived completion {other:?}"),
        }
        assert!(host.is_idle());
    }
}

#[test]
fn explicit_super_initializes_this_once_after_calling_the_base() {
    for (source, frames, throws) in [
        ("(class D extends (function B(){}) {constructor(){super()}})", 3, false),
        ("(class D extends (function B(){}) {constructor(){super();super()}})", 4, true),
    ] {
        let mut host = Host::new(1);
        let realm = host.new_context();
        let constructor = host.eval(realm, source);
        let entry = host.entry(realm, "(function root(C){return new C()})", vec![constructor]);
        let (completion, costs) = host.measure(entry);
        assert_eq!(costs.frames_pushed, frames, "{costs:?}");
        assert_eq!(costs.owned_bridge_exits, 0, "{costs:?}");
        match (completion, throws) {
            (Completion::Return(JsValue::Object(_)), false) => {},
            (Completion::Throw(JsValue::Object(error)), true) => {
                expect_text(&mut host, realm, error, "message", "'this' can be initialized only once");
            },
            other => panic!("unexpected super completion {other:?}"),
        }
        assert!(host.is_idle());
    }
}

#[test]
fn default_derived_forwards_actual_arguments_and_live_super_new_target() {
    let mut host = Host::new(1);
    let realm = host.new_context();
    let constructor = host.eval(realm, "var D=class extends (function B(a,b,c){return c}) {}; D");
    let marker = host.eval(realm, "({marker:42})");
    let entry = host.entry(realm, "(function root(C,x){return new C(1,2,x)})", vec![constructor, marker]);
    let (completion, costs) = host.measure(entry);
    assert_eq!(completion, Completion::Return(marker));
    assert_eq!(costs.maximum_frame_depth, 3);
    assert_eq!(costs.owned_bridge_exits, 0);
    host.eval(realm, "Object.setPrototypeOf(D,function Replacement(){return new.target})");
    let entry = host.entry(realm, "(function root(C){return new C()})", vec![constructor]);
    let (completion, costs) = host.measure(entry);
    assert_eq!(completion, Completion::Return(constructor));
    assert_eq!(costs.maximum_frame_depth, 3);
    assert_eq!(costs.owned_bridge_exits, 0);
    assert!(host.is_idle());
}

#[test]
fn direct_child_call_preserves_foreign_argument_rejection() {
    let mut host = Host::new(1);
    let mut foreign = Runtime::new(2);
    let realm = host.new_context();
    let callee = host.eval(realm, "(function ignore(x){return 1})");
    let object = foreign.new_object(None);
    let entry = host.entry(realm, "(function root(f,x){return f(x)})", vec![callee, JsValue::Object(object)]);
    let Err(error) = host.execute(entry, ExecutionLimits::default()) else { panic!("expected domain rejection") };
    let text = String::from_utf16(&host.runtime.error_units(error)).unwrap();
    assert!(text.contains("call argument"), "{text}");
    assert!(host.is_idle());
    assert!(foreign.object(object).is_ok());
}

#[test]
fn publication_witness_keeps_native_reentry_throw_and_following_result() {
    let mut host = Host::new(1);
    let realm = host.new_context();
    for source in [
        "(function(){var m=new Map(),n=0,o={valueOf(){n++;m.set('x',41);return m.get('x')}};return Math.min(o,99)+n})()",
        "(function(){var marker={},m=new Map(),n=0;try{Math.min({valueOf(){n++;m.set('x',41);throw marker}},0);return 0}catch(e){return e===marker&&n===1?m.get('x')+1:0}})()",
        "(function(){var n=0,a={get length(){n++;return 0},set length(v){}};Array.prototype.push.call(a,41);return a[0]+n})()",
    ] {
        assert_eq!(host.eval(realm, source), JsValue::Int(42));
        assert!(host.is_idle());
    }
}

#[test]
fn direct_selection_borrows_owners_and_preserves_general_fallback() {
    let mut host = Host::new(1);
    let realm = host.new_context();
    for (source, kind) in [
        ("(function(x){return x})", 0),
        ("Math.min", 1),
        ("(function(x){return x}).bind(null)", 2),
        ("new Proxy(function(){},{})", 2),
        ("new Proxy({},{})", 2),
        ("(function*(){})", 2),
        ("({})", 2),
        ("17", 2),
    ] {
        let value = host.eval(realm, source);
        let edges = host.runtime.edges.len();
        let selected = match DirectSelection::select(&host.runtime, value).unwrap() {
            DirectSelection::Ordinary(_) => 0,
            DirectSelection::Native(_) => 1,
            DirectSelection::General => 2,
        };
        assert_eq!(selected, kind, "{source}");
        assert_eq!(host.runtime.edges.len(), edges, "{source}");
    }
    let mut foreign = Runtime::new(2);
    let value = JsValue::Object(foreign.new_object(None));
    assert!(matches!(DirectSelection::select(&host.runtime, value).unwrap(), DirectSelection::General));
}

#[test]
fn recycled_callback_frames_do_not_reuse_another_functions_static_key() {
    let mut host = Host::new(1);
    let realm = host.new_context();
    assert_eq!(host.eval(realm, "(()=>{let p=new Proxy({},{get(t,k){return k}});function first(){return p.first}function second(){return p.second}for(let i=0;i<10;i++){if(first()!=='first'||second()!=='second')return false}return true})()"), JsValue::Bool(true));
    assert!(host.is_idle());
}

#[test]
fn primitive_store_keeps_conversion_capture_and_throw_observations() {
    let mut host = Host::new(1);
    let realm = host.new_context();
    let source = r#"(()=>{
            let s='', b=1n;
            for(let i=0;i<20;i++){ s+='x'; b+=2n; }
            let capture=()=>s;
            s+='y';
            let old=s,trace='';
            try { s+=Symbol(); } catch(e) { if(e instanceof TypeError)trace+='throw'; }
            finally { trace+='finally'; }
            let a='left';
            a+= {valueOf(){a='changed';return 'right';}};
            let constant='a', read=constant;
            try { const x='a'; x+='b'; } catch(e) { if(e instanceof TypeError)read+='!'; }
            return s===old && capture()===old && s.length===21 && b===41n
                && trace==='throwfinally' && a==='leftright' && read==='a!';
        })()"#;
    assert_eq!(host.eval(realm, source), JsValue::Bool(true));
}

#[test]
fn object_numeric_fallback_keeps_conversion_order_throw_identity_and_finally() {
    let mut host = Host::new(1);
    let realm = host.new_context();
    let source = r#"(()=>{
            let trace='', marker={}, left={valueOf(){trace+='l';return 6n}},
                right={valueOf(){trace+='r';return 3n}};
            if(left*right!==18n)throw 'product';
            try{({valueOf(){trace+='x';throw marker}})*right}catch(e){if(e===marker)trace+='t'}
            finally{trace+='f'}
            let target={valueOf(){trace+='p';return 8n}};
            let old=target++;
            const fixed={valueOf(){trace+='c';return 2n}};
            try{fixed++}catch(e){if(e instanceof TypeError)trace+='e'}
            return trace==='lrxtfpce' && old===8n && target===9n;
        })()"#;
    assert_eq!(host.eval(realm, source), JsValue::Bool(true));
    assert!(host.is_idle());
}

#[test]
fn primitive_numeric_completion_keeps_bigint_operators_and_two_update_results() {
    let mut host = Host::new(1);
    let realm = host.new_context();
    let source = r#"(()=>{
            let x=5n, old=x++, next=++x, removed=x--, last=--x;
            let a=6n, b=3n;
            let values=[a*b,a/b,a%b,a**b,a<<b,a>>b,a&b,a|b,a^b,~a,-a];
            let errors='';
            try{a/0n}catch(e){errors+=e instanceof RangeError?'z':'!'}
            try{a*2}catch(e){errors+=e instanceof TypeError?'m':'!'}
            try{a>>>b}catch(e){errors+=e instanceof TypeError?'u':'!'}
            try{Symbol()*2}catch(e){errors+=e instanceof TypeError?'s':'!'}
            finally{errors+='f'}
            return values.join(',')==='18,2,0,216,48,0,2,7,5,-7,-6'
                && old===5n && next===7n && removed===7n && last===5n && x===5n
                && errors==='zmusf';
        })()"#;
    assert_eq!(host.eval(realm, source), JsValue::Bool(true));
    assert!(host.is_idle());
}

#[test]
fn sums_are_stored_together_with_their_addition() {
    let mut host = Host::new(1);
    let realm = host.new_context();
    let left = host.string("4");
    let right = JsValue::Int(2);
    let expected = host.string("42");
    for old in ["1", "{}"] {
        let source = format!("(function(a,b){{var x={old};x=a+b;return x}})");
        let entry = host.entry(realm, &source, vec![left, right]);
        let at = host.position(&entry, |instruction| matches!(instruction, Instruction::Add));
        let executable = entry.executable;
        let (mut execution, id) = host.start_at(entry, at - 2);
        let local = match host.runtime.code[executable].code[at + 1] {
            Instruction::SetLocal(index) | Instruction::SetLocalCheck(index) => index,
            other => panic!("{other:?} follows the addition"),
        };
        assert!(matches!(host.runtime.code[executable].code[at + 2], Instruction::Drop));
        assert_eq!(host.runtime.code[executable].add_store(at), Some((local, 3)));
        let window = execution.frames.current(id).unwrap().window;
        let held = if old == "1" { left } else { JsValue::Object(host.runtime.realms[realm].global_object) };
        execution.slots.set_local(window, local, FrameBinding::Direct(held)).unwrap();
        let _ = steps(&host.runtime, &mut execution, id);
        let mut next: u64 = 1;
        let completion = complete_primitives(&mut host.runtime, &mut execution, id, true, &mut next).unwrap();
        assert_eq!(completion, PrimitiveCompletion::Completed);
        let frame = execution.frames.current(id).unwrap();
        assert_eq!((frame.fault_pc, frame.resume_pc, next), (at + 2, at + 3, 2));
        assert_eq!(execution.slots.local(window, local).unwrap(), FrameBinding::Direct(expected));
        assert_eq!(execution.slots.depth(window), 0);
        // Giving up an old object can be observed at the store.
        let published = match host.runtime.active.last().unwrap().kind {
            ActiveFrameKind::Bytecode { pc, .. } => pc,
            other => panic!("{other:?} is active"),
        };
        assert_eq!(published == at + 1, old != "1");
        assert_eq!(host.execute_running(execution).unwrap(), Completion::Return(expected));
        assert!(host.is_idle());
    }
}

#[test]
fn callers_keep_their_storage_while_callees_run() {
    let mut host = Host::new(1);
    let realm = host.new_context();
    // Each level holds an operand and a local of its own below the next call.
    let source = "(function down(n){var local=n*10;if(n===0){return 0}return n+down(n-1)+local})";
    let entry = host.entry(realm, source, vec![JsValue::Int(4)]);
    let (completion, costs) = host.measure(entry);
    assert_eq!(completion, Completion::Return(JsValue::Int(110)));
    assert_eq!(costs.maximum_frame_depth, 5);
    assert!(host.is_idle());
    // A callee that overwrites its own bindings and throws leaves them alone too.
    let source = "(function root(a){var b=a+1;var f=function(a,b){a=0;b=0;var c=a;throw c};try{f(7,8)}catch(e){b=b+e}return a*10+b})";
    let entry = host.entry(realm, source, vec![JsValue::Int(3)]);
    let (completion, _) = host.measure(entry);
    assert_eq!(completion, Completion::Return(JsValue::Int(34)));
    assert!(host.is_idle());
}

#[test]
fn arrays_hand_their_values_back_in_order() {
    let mut host = Host::new(1);
    let realm = host.new_context();
    let values: Vec<JsValue> = (0..120).map(|n| JsValue::Int(1000 - n)).collect();
    let array = host.runtime.new_array_from_values(realm, &values).unwrap();
    assert_eq!(host.runtime.array_length(array), Some(120));
    assert_eq!(host.runtime.dense_values(array), Some(values.clone()));
    match host.runtime.prepare_fast_array_arguments(realm, array).unwrap() {
        Some(NativeConversion::Value(arguments)) => assert_eq!(arguments, values),
        _ => panic!("a dense array has its arguments at hand"),
    }
    let plain = host.runtime.new_object(None);
    assert_eq!(host.runtime.array_length(plain), None);
    assert!(host.runtime.prepare_fast_array_arguments(realm, plain).unwrap().is_none());
}

#[test]
fn elements_with_object_keys_take_their_value_before_the_key_is_converted() {
    let mut host = Host::new(1);
    let realm = host.new_context();
    let array = host.eval(realm, "[]");
    let key = host.eval(realm, "var log=0;({toString(){log=log+1;return '3'},valueOf(){return 5}})");
    let entry = host.entry(realm, "(function(){return [...[],40]})", vec![]);
    let pc = host.position(&entry, |op| matches!(op, Instruction::DefineArrayEl));
    let (mut execution, id) = host.start_at(entry, pc);
    for value in [array, key, JsValue::Int(40)] {
        execution.slots.push(value).unwrap();
    }
    let op = Operation::DefineArrayElement;
    assert_eq!(steps(&host.runtime, &mut execution, id), RunExit::Environment(op));
    let step = stack_vm::environment_driver::step(&mut host.runtime, &mut execution, id, op).unwrap();
    assert_eq!(step, CallStep::Entered);
    let object = object_of(array, "literal");
    let pending = execution.pending_call.unwrap();
    assert_eq!(pending.request, PendingRequest::Define { object, key, value: JsValue::Int(40) });
    let frame = execution.frames.current(id).unwrap();
    assert_eq!(frame.resume_pc, pc + 1);
    assert_eq!(execution.slots.depth(frame.window), 2);
    assert_eq!(execution.slots.peek(frame.window, 0).unwrap(), key);
    assert_eq!(host.eval(realm, "log"), JsValue::Int(0));
    let completion = host.execute_running(execution).unwrap();
    assert!(matches!(completion, Completion::Return(_)));
    assert_eq!(host.get_property(realm, object, "3"), JsValue::Int(40));
    assert_eq!(host.get_property(realm, object, "length"), JsValue::Int(4));
    assert_eq!(host.eval(realm, "log"), JsValue::Int(1));
    assert!(host.is_idle());
}

#[test]
fn parameter_scopes_own_their_variable_environment() {
    let mut host = Host::new(1);
    let realm = host.new_context();
    for (body, parameters) in [(None, Some(0)), (Some(0), None), (Some(0), Some(0)), (None, None)] {
        let entry = host.entry(realm, "(function(){return 1})", vec![]);
        let executable = entry.executable;
        host.runtime.code[executable].metadata.eval_variable_object_local = body;
        host.runtime.code[executable].arg_eval_variable_object_local = parameters;
        let (mut execution, id) = host.start_at(entry, 0);
        let _ = steps(&host.runtime, &mut execution, id);
        let depth = execution.slots.depth(execution.frames.current(id).unwrap().window);
        let made = stack_vm::environment_driver::step(&mut host.runtime, &mut execution, id, Operation::CreateVariable);
        if body.is_none() && parameters.is_none() {
            assert_eq!(
                made,
                Err(Error::internal("variable-environment creation has no authenticated local")),
            );
        } else {
            assert_eq!(made, Ok(CallStep::Entered));
            let window = execution.frames.current(id).unwrap().window;
            assert_eq!(execution.slots.depth(window), depth + 1);
            let object = object_of(execution.slots.peek(window, 0).unwrap(), "variables");
            assert_eq!(host.runtime.get_prototype_of(object).unwrap(), None);
        }
        host.abandon(execution);
        assert!(host.is_idle());
    }
}

#[test]
fn evaluations_answer_in_place_of_their_callee_and_arguments() {
    let mut host = Host::new(1);
    let realm = host.new_context();
    for (source, expected) in [
        ("(function(){return 7})", Completion::Return(JsValue::Int(7))),
        ("(function(){throw 8})", Completion::Throw(JsValue::Int(8))),
    ] {
        for count in [0u16, 1, 3] {
            let parent = host.entry(realm, "(function(){return 1})", vec![]);
            let (mut execution, id) = host.start_at(parent, 0);
            let window = execution.frames.current(id).unwrap().window;
            execution.slots.push(JsValue::Int(99)).unwrap();
            for value in 0..=count {
                execution.slots.push(JsValue::Int(i32::from(value))).unwrap();
            }
            let target = ReturnTarget {
                value_use: ReturnValue::Push,
                frame: id,
                tail: false,
                operation: Some(OperationTarget::Eval(count)),
            };
            let mut child = host.entry(realm, source, vec![]);
            child.cold.return_to = Some(target);
            push_frame(&mut host.runtime, &mut execution, child).unwrap();
            // Run the child alone, then look at what it left to its parent.
            let mut fuel: u64 = 100;
            let mut state = DriverState { forwarded: None, conversion: None, next_operation: 0 };
            while execution.frames.current_id() != Some(id) {
                assert!(turn(&mut host.runtime, &mut execution, &mut state, &mut fuel).unwrap().is_none());
            }
            match expected {
                Completion::Return(value) => {
                    assert_eq!(execution.slots.depth(window), 2);
                    assert_eq!(execution.slots.peek(window, 0).unwrap(), value);
                    assert_eq!(state.forwarded, None);
                },
                Completion::Throw(_) => {
                    assert_eq!(execution.slots.depth(window), 1);
                    assert_eq!(state.forwarded, Some(expected));
                },
            }
            assert_eq!(execution.slots.peek(window, execution.slots.depth(window) - 1).unwrap(), JsValue::Int(99));
            host.abandon(execution);
            assert!(host.is_idle());
        }
    }
    // An evaluation that lost its operands is refused.
    let parent = host.entry(realm, "(function(){return 1})", vec![]);
    let (mut execution, id) = host.start_at(parent, 0);
    let target = ReturnTarget {
        value_use: ReturnValue::Push,
        frame: id,
        tail: false,
        operation: Some(OperationTarget::Eval(0)),
    };
    let refused = deliver(&mut host.runtime, &mut execution, target, Completion::Return(JsValue::Int(1)));
    assert_eq!(refused.err(), Some(Error::internal("operand stack underflow")));
    host.abandon(execution);
}

#[test]
fn no_step_lets_static_elements_begin_again() {
    let mut host = Host::new(1);
    let realm = host.new_context();
    let class = host.eval(realm, "var n=0;class C{static {n=n+1}};C");
    assert_eq!(host.eval(realm, "n"), JsValue::Int(1));
    let constructor = object_of(class, "class");
    let begun = |host: &Host| match host.runtime.objects[constructor.index].payload {
        ObjectPayload::BytecodeFunction(data) => data.static_initialized,
        other => panic!("{other:?} is no class"),
    };
    assert!(begun(&host));
    host.eval(realm, "C.x=2;new C();C.y={}");
    assert!(begun(&host));
}

#[test]
fn finished_executions_leave_earlier_activations_untouched() {
    let mut host = Host::new(1);
    let realm = host.new_context();
    let outer = host.entry(realm, "(function(){return 1})", vec![]);
    let (mut execution, id) = host.start_at(outer, 0);
    let _ = steps(&host.runtime, &mut execution, id);
    let before = host.runtime.active.to_vec();
    assert_eq!(before.len(), 1);
    for source in ["(function(){var f=function(n){return n+1};return f(2)})", "(function(){null.x})"] {
        let entry = host.entry(realm, source, vec![]);
        let _ = host.execute(entry, ExecutionLimits::default()).unwrap();
        assert_eq!(host.runtime.active.to_vec(), before);
    }
    host.abandon(execution);
    assert!(host.is_idle());
}

#[test]
fn direct_eval_keeps_boxed_this_identity_in_bound_callers() {
    let mut host = Host::new(1);
    let realm = host.new_context();
    let bound = host.eval(realm, "(function(){return eval('this')===this?42:0}).bind(7)");
    let entry = host.entry(realm, "(function(f){return f()})", vec![bound]);
    let (completion, costs) = host.measure(entry);
    assert_eq!(completion, Completion::Return(JsValue::Int(42)));
    assert_eq!(costs.owned_bridge_exits, 0, "{costs:?}");
    assert!(costs.maximum_frame_depth >= 3, "{costs:?}");
    assert!(host.is_idle());
}

#[test]
fn direct_eval_runs_in_owned_children_and_shares_caller_bindings() {
    for (source, expected, message) in [
        ("(function(){let x=40;return eval('x+2')})", 42, None),
        ("(function(){let x=1;eval('x=42');return x})", 42, None),
        ("(function(){eval('var x=42');return x})", 42, None),
        ("(function(){'use strict';let x=40;return eval('x+2')})", 42, None),
        ("(function(){let x=40;return eval('eval(\"x+2\")')})", 42, None),
        ("(function(){try{return eval('throw 42')}catch(e){return e}})", 42, None),
        ("(function(){try{return eval('let =')}catch(e){return 42}})", 42, None),
        ("(function(){return eval(42)})", 42, None),
        ("(function(){var n=0;return eval(41,n=n+1)+n})", 42, None),
        ("(function(){let x=eval('x');return x})", 0, Some("x is not initialized")),
        ("(function(){let eval=function(a,b){return a+b};return eval(40,2)})", 42, None),
    ] {
        let mut host = Host::new(1);
        let realm = host.new_context();
        let entry = host.entry(realm, source, vec![]);
        let (completion, costs) = host.measure(entry);
        if let Some(message) = message {
            let error = thrown_object(completion, "eval TDZ error");
            expect_text(&mut host, realm, error, "message", message);
        } else {
            assert_eq!(completion, Completion::Return(JsValue::Int(expected)), "{source}");
        }
        assert_eq!(costs.owned_bridge_exits, 0, "{source}: {costs:?}");
        assert!(host.is_idle());
    }
}

#[test]
fn converted_keys_of_tests_and_super_accesses_go_to_the_embedder() {
    let mut host = Host::new(1);
    let realm = host.new_context();
    let key = host.eval(realm, "var keys=0;({toString(){keys=keys+1;return 'x'}})");
    let target = host.eval(realm, "({x:1})");
    let home = host.eval(realm, "Object.create({x:42})");
    for super_access in [false, true] {
        let entry = host.entry(realm, "(function(){return 1})", vec![]);
        let (mut execution, id) = host.start_at(entry, 0);
        let task = if super_access {
            let input = SuperPropertyInput { key, receiver: target, home, operands: 0 };
            ConversionTask::start_super_property(&host.runtime, &execution, id, 1, input).unwrap()
        } else {
            let input = PredicateInput { key, target };
            ConversionTask::start_predicate(&host.runtime, &execution, id, 1, input).unwrap()
        };
        let window = execution.frames.current(id).unwrap().window;
        let mut state = DriverState { forwarded: None, conversion: Some(task), next_operation: 1 };
        let mut fuel: u64 = 1000;
        let stop = loop {
            let stopped = turn(&mut host.runtime, &mut execution, &mut state, &mut fuel).unwrap();
            if let Some(stop) = stopped {
                break stop;
            }
        };
        assert_eq!(stop, Stop::Call);
        let name = host.string("x");
        let request = execution.pending_call.unwrap().request;
        let expected = if super_access {
            assert_eq!(
                request,
                PendingRequest::SuperProperty { key: name, receiver: target, home, operands: 0 },
            );
            JsValue::Int(42)
        } else {
            assert_eq!(request, PendingRequest::Predicate { key: name, target });
            JsValue::Bool(true)
        };
        let completion = host.answer(&execution);
        assert_eq!(completion, Completion::Return(expected));
        let pending = execution.pending_call.unwrap();
        execution.pending_call = None;
        let delivered = deliver(&mut host.runtime, &mut execution, pending.return_to, completion).unwrap();
        assert_eq!(delivered.forwarded, None);
        assert_eq!(execution.slots.peek(window, 0).unwrap(), expected);
        host.abandon(execution);
        assert!(host.is_idle());
    }
    assert_eq!(host.eval(realm, "keys"), JsValue::Int(2));
}

#[test]
fn array_literals_preserve_values_and_callee_realm_without_setters() {
    let mut host = Host::new(1);
    let caller = host.new_context();
    let callee = host.new_context();
    host.eval(callee, "Object.defineProperty(Array.prototype,'0',{set(){throw 99},configurable:true})");
    let prototype = host.eval_object(callee, "Array.prototype");
    for (source, expected) in [
        ("(function(){return []})", vec![]),
        ("(function(a){return [40,a,2]})", vec![JsValue::Int(40), JsValue::Int(41), JsValue::Int(2)]),
        ("(function(){return eval('[40,2]')})", vec![JsValue::Int(40), JsValue::Int(2)]),
    ] {
        let function = host.eval_object(callee, source);
        let callable = host.runtime.as_callable(function).unwrap().expect("expected function");
        let entry = host.callable_entry(caller, callable, JsValue::Undefined, vec![JsValue::Int(41)]);
        let (completion, costs) = host.measure(entry);
        let array = object_of(returned(completion, "array"), "array");
        assert_eq!(host.runtime.dense_values(array), Some(expected));
        assert_eq!(host.runtime.get_prototype_of(array).unwrap(), Some(prototype));
        assert_eq!(costs.owned_bridge_exits, 0, "{source}: {costs:?}");
        assert!(host.is_idle());
    }
}

#[test]
fn apply_eval_checkpoint_runs_children_and_cleans_argument_snapshots() {
    for (callee_source, array_source, expected, throws) in [
        ("eval", "['40+2',{}]", 42, false),
        ("eval", "[42,{}]", 42, false),
        ("eval", "[]", 0, false),
        ("eval", "['throw 42',{}]", 42, true),
        ("(function(a,b){return a+b})", "[40,2]", 42, false),
        ("(function(a,b){return a+b}).bind(null,40)", "[2]", 42, false),
    ] {
        let mut host = Host::new(1);
        let realm = host.new_context();
        let callee = host.eval(realm, callee_source);
        let array = host.eval(realm, array_source);
        let entry = host.entry(realm, "(function(){'use strict';return eval(...[])})", vec![callee]);
        let pc = host.position(&entry, |op| matches!(op, Instruction::ApplyEval(_)));
        let (mut execution, id) = host.start_at(entry, pc);
        execution.slots.push(callee).unwrap();
        execution.slots.push(array).unwrap();
        let window = execution.frames.current(id).unwrap().window;
        let retained = array_source == "['40+2',{}]";
        host.profile = Profile::default();
        if retained {
            let carrier = object_of(array, "carrier");
            let extra = host.get_property(realm, carrier, "1");
            let RunExit::ApplyEval(scope) = steps(&host.runtime, &mut execution, id) else {
                panic!("expected ApplyEval")
            };
            let step = stack_vm::eval_driver::apply(&mut host.runtime, &mut execution, id, scope).unwrap();
            assert_eq!(step, CallStep::Entered);
            assert!(host.evaluate(&mut execution).is_none());
            assert_ne!(execution.frames.current_id(), Some(id));
            let index = host.runtime.intern_property_key("1");
            assert!(host.runtime.delete_property(carrier, index).unwrap());
            // The snapshot survives the carrier.
            let at = window.floor;
            assert_eq!(execution.slots.values[at + 2], FrameBinding::Direct(extra));
        }
        let completion = host.execute_running(execution).unwrap();
        if throws {
            assert_eq!(completion, Completion::Throw(JsValue::Int(expected)));
        } else if array_source == "[]" {
            assert_eq!(completion, Completion::Return(JsValue::Undefined));
        } else {
            assert_eq!(completion, Completion::Return(JsValue::Int(expected)), "{callee_source}");
        }
        assert_eq!(host.profile.owned_bridge_exits, 0, "{callee_source}: {:?}", host.profile);
        assert!(host.is_idle());
    }
}

#[test]
fn presence_is_decided_without_reading() {
    let mut host = Host::new(1);
    let realm = host.new_context();
    let parent = host.runtime.new_object(None);
    let child = host.runtime.new_object(Some(parent));
    let key = host.runtime.intern_property_key("x");
    assert_eq!(host.runtime.has_property(child, key).unwrap(), Some(false));
    let cell = host.runtime.new_var_ref(VarRef {
        value: None,
        is_const: false,
        is_lexical: true,
        kind: BindingKind::Normal,
    });
    let slot = PropertySlot::VarRef { cell, enumerable: true, configurable: false };
    host.runtime.add_property(PropertyEntry { owner: parent.index, key, slot });
    // A read of the variable would be refused, its presence is not.
    assert_eq!(host.runtime.has_property(child, key).unwrap(), Some(true));
    let late = host.runtime.intern_property_key("late");
    let slot = PropertySlot::AutoInit { value: JsValue::Int(1) };
    host.runtime.add_property(PropertyEntry { owner: parent.index, key: late, slot });
    assert_eq!(host.runtime.has_property(child, late).unwrap(), Some(true));
    assert!(matches!(
        host.runtime.properties.iter().find(|entry| entry.key == late).unwrap().slot,
        PropertySlot::AutoInit { .. }
    ));
    // Exotic objects decide for themselves.
    let proxy = host.eval_object(realm, "new Proxy({},{})");
    assert_eq!(host.runtime.has_property(proxy, key).unwrap(), None);
    let boxed = host.eval_object(realm, "new String('ab')");
    let one = host.runtime.intern_property_key("1");
    let two = host.runtime.intern_property_key("2");
    assert_eq!(host.runtime.has_property(boxed, one).unwrap(), None);
    assert_eq!(host.runtime.has_property(boxed, two).unwrap(), Some(false));
}

#[test]
fn names_under_with_are_found_before_their_variables_are_initialized() {
    let mut host = Host::new(1);
    let realm = host.new_context();
    host.create_global_lexical(realm, "x", false, None);
    let lexical = host.runtime.realm(realm).unwrap().global_lexical;
    let object = host.runtime.new_object(Some(lexical));
    let source = "(function(o){var x=7;with(o){try{return x}catch(e){return e}}})";
    let entry = host.entry(realm, source, vec![JsValue::Object(object)]);
    let (completion, _) = host.measure(entry);
    let error = object_of(returned(completion, source), source);
    expect_text(&mut host, realm, error, "message", "x is not initialized");
    assert!(host.is_idle());
}

#[test]
fn elements_grow_arrays_up_to_the_greatest_length() {
    let mut host = Host::new(1);
    let realm = host.new_context();
    let length = PropertyKey::String(ATOM_LENGTH);
    for (index, expected, stored) in [
        ("2147483646", 2147483647usize, JsValue::Int(2147483647)),
        ("2147483647", 2147483648, JsValue::Float((2147483648.0f64).to_bits())),
        ("3000000000", 3000000001, JsValue::Float((3000000001.0f64).to_bits())),
        ("4294967294", 4294967295, JsValue::Float((4294967295.0f64).to_bits())),
        // These are ordinary names.
        ("4294967295", 0, JsValue::Int(0)),
        ("01", 0, JsValue::Int(0)),
    ] {
        let array = host.runtime.new_array_from_values(realm, &Vec::new()).unwrap();
        let key = host.runtime.intern_property_key(index);
        assert!(host.runtime.define_element(array, key, JsValue::Int(40)).unwrap());
        assert_eq!(host.runtime.array_length(array), Some(expected), "{index}");
        match host.runtime.get_own_property(array, length).unwrap() {
            Some(PropertyDescriptor::Data { value, .. }) => assert_eq!(value, stored, "{index}"),
            other => panic!("{other:?}"),
        }
        // An element below the length leaves it.
        let zero = host.runtime.intern_property_key("0");
        if expected > 0 {
            assert!(host.runtime.define_element(array, zero, JsValue::Int(1)).unwrap());
            assert_eq!(host.runtime.array_length(array), Some(expected));
        }
    }
}

#[test]
fn lengths_are_stored_as_the_numbers_they_are() {
    for n in [0usize, 1, 2147483647, 2147483648, 2147483649, 4294967294, 4294967295] {
        let value = Runtime::length_value(n);
        let number = match value {
            JsValue::Int(n) => n as f64,
            JsValue::Float(bits) => f64::from_bits(bits),
            other => panic!("{other:?}"),
        };
        assert_eq!(number, n as f64);
        assert_eq!(Runtime::length_of(value), Some(n));
    }
    assert_eq!(Runtime::length_of(JsValue::Float((0.5f64).to_bits())), None);
    assert_eq!(Runtime::length_of(JsValue::Float((2147483648.5f64).to_bits())), None);
    assert_eq!(Runtime::length_of(JsValue::Float((4294967296.0f64).to_bits())), None);
    assert_eq!(Runtime::length_of(JsValue::Int(-1)), None);
}

#[test]
fn fixed_lengths_refuse_new_elements() {
    let mut host = Host::new(1);
    let realm = host.new_context();
    let array = host.runtime.new_array_from_values(realm, &vec![JsValue::Int(1)]).unwrap();
    let p = host.runtime.find_property(array, PropertyKey::String(ATOM_LENGTH)).unwrap();
    let slot =
        PropertySlot::Data { value: JsValue::Int(1), writable: false, enumerable: false, configurable: false };
    host.runtime.replace_slot(p, slot);
    let zero = host.runtime.intern_property_key("0");
    let one = host.runtime.intern_property_key("1");
    assert!(!host.runtime.define_element(array, one, JsValue::Int(40)).unwrap());
    assert!(host.runtime.get_own_property(array, one).unwrap().is_none());
    assert_eq!(host.runtime.array_length(array), Some(1));
    // An element below the length is no change of it.
    assert!(host.runtime.define_element(array, zero, JsValue::Int(2)).unwrap());
    assert_eq!(host.own(array, "0"), JsValue::Int(2));
    // The literal that defines the element throws.
    let entry = host.entry(realm, "(function(){return [...[],40]})", vec![]);
    let pc = host.position(&entry, |op| matches!(op, Instruction::DefineArrayEl));
    let (mut execution, id) = host.start_at(entry, pc);
    for value in [JsValue::Object(array), JsValue::Int(1), JsValue::Int(40)] {
        execution.slots.push(value).unwrap();
    }
    let op = Operation::DefineArrayElement;
    assert_eq!(steps(&host.runtime, &mut execution, id), RunExit::Environment(op));
    let step = stack_vm::environment_driver::step(&mut host.runtime, &mut execution, id, op).unwrap();
    let CallStep::Complete(completion) = step else { panic!("expected a refusal, got {step:?}") };
    let error = thrown_object(completion, "element");
    assert_eq!(
        host.runtime.objects[error.index].prototype,
        Some(host.runtime.realm(realm).unwrap().type_error_prototype),
    );
    assert_eq!(host.runtime.array_length(array), Some(1));
    host.abandon(execution);
    assert!(host.is_idle());
}

#[test]
fn proxies_have_the_realm_of_their_target() {
    let mut host = Host::new(1);
    let home = host.new_context();
    let caller = host.new_context();
    let target = host.eval_object(home, "(function F(){})");
    let proxy = |host: &mut Host, target: Option<ObjectRef>| {
        host.runtime.allocate(HeapObject {
            kind: ObjectKind::Other,
            payload: ObjectPayload::Proxy { is_callable: true, target },
            prototype: None,
            is_constructor: true,
            extensible: true,
        })
    };
    let inner = proxy(&mut host, Some(target));
    let outer = proxy(&mut host, Some(inner));
    for value in [target, inner, outer] {
        match host.runtime.function_realm_from_value(caller, JsValue::Object(value)).unwrap() {
            NativeConversion::Value(realm) => assert_eq!(realm, home),
            NativeConversion::Throw(value) => panic!("threw {value:?}"),
        }
    }
    let plain = host.runtime.new_object(None);
    assert!(matches!(
        host.runtime.function_realm_from_value(caller, JsValue::Object(plain)).unwrap(),
        NativeConversion::Value(realm) if realm == caller
    ));
    let revoked = proxy(&mut host, None);
    let around = proxy(&mut host, Some(revoked));
    for value in [revoked, around] {
        let NativeConversion::Throw(error) =
            host.runtime.function_realm_from_value(caller, JsValue::Object(value)).unwrap()
        else {
            panic!("a revoked proxy has no realm")
        };
        let error = object_of(error, "revoked proxy");
        assert_eq!(
            host.runtime.objects[error.index].prototype,
            Some(host.runtime.realm(caller).unwrap().type_error_prototype),
        );
    }
}

#[test]
fn absent_names_are_reported_before_the_value_is_taken() {
    let mut host = Host::new(1);
    let realm = host.new_context();
    let source = "(function(){'use strict';missing=1})";
    for present in [false, true] {
        if present {
            host.eval(realm, "globalThis.missing=0");
        }
        let entry = host.entry(realm, source, vec![]);
        let pc = host.position(&entry, |op| matches!(op, Instruction::GlobalPut { .. }));
        // No operand is on the stack.
        let (mut execution, id) = host.start_at(entry, pc);
        let RunExit::Environment(op) = steps(&host.runtime, &mut execution, id) else { panic!("expected a write") };
        let step = stack_vm::environment_driver::step(&mut host.runtime, &mut execution, id, op);
        if present {
            assert_eq!(step, Err(Error::internal("operand stack underflow")));
        } else {
            let Ok(CallStep::Complete(completion)) = step else { panic!("got {step:?}") };
            let error = thrown_object(completion, source);
            expect_text(&mut host, realm, error, "message", "'missing' is not defined");
        }
        host.abandon(execution);
        assert!(host.is_idle());
    }
}

#[test]
fn throws_inside_iterator_regions_go_to_the_embedder() {
    let mut host = Host::new(1);
    let realm = host.new_context();
    let source = "(function(v){try{throw v}catch(e){return e+1}})";
    let entry = host.entry(realm, source, vec![JsValue::Int(41)]);
    let pc = host.position(&entry, |op| matches!(op, Instruction::Throw));
    let (mut execution, id) = host.start_at(entry, 0);
    // Run up to the throw, inside the catch region.
    let mut state = DriverState { forwarded: None, conversion: None, next_operation: 0 };
    while execution.frames.current(id).unwrap().resume_pc != pc {
        let mut fuel: u64 = 2;
        let stop = turn(&mut host.runtime, &mut execution, &mut state, &mut fuel).unwrap();
        assert!(matches!(stop, None | Some(Stop::Interrupted)), "{stop:?}");
    }
    let regions = execution.regions.clone();
    execution.regions.push(VmUnwindRegion::Iterator { record_base: 0, enabled: true, asynchronous: false });
    let operands = execution.slots.values.clone();
    let mut fuel: u64 = 1000;
    let exit = run_frames(&mut host.runtime, &mut host.registry, execution, &mut fuel).unwrap();
    let RunningExit::RootHandoff(mut left) = exit else { panic!("expected a handoff") };
    assert_eq!(left.state.forwarded, Some(Completion::Throw(JsValue::Int(41))));
    assert_eq!(left.execution.regions.len(), regions.len() + 1);
    assert_eq!(left.execution.frames.current_id(), Some(id));
    assert!(left.execution.slots.values.len() <= operands.len());
    // The iterator is closed, and the throw goes on to the catch region.
    left.execution.regions.pop();
    let exit = left.resume(&mut host.runtime, &mut host.registry, &mut fuel).unwrap();
    let RunningExit::Complete(completion) = exit else { panic!("expected the end") };
    assert_eq!(completion, Completion::Return(JsValue::Int(42)));
    assert!(host.is_idle());
}

#[test]
fn caught_throws_leave_the_value_above_the_kept_operands() {
    let mut host = Host::new(1);
    let realm = host.new_context();
    let entry = host.entry(realm, "(function(){return 1})", vec![]);
    let (mut execution, id) = host.start_at(entry, 0);
    for n in 0..4 {
        execution.slots.push(JsValue::Int(n)).unwrap();
    }
    execution.regions.push(VmUnwindRegion::Catch { target: 9, stack_depth: 2 });
    let step = stack_vm::unwind::unwind(&host.runtime, &mut execution, id, JsValue::Bool(true)).unwrap();
    assert_eq!(step, CallStep::Entered);
    let frame = execution.frames.current(id).unwrap();
    assert_eq!(frame.resume_pc, 9);
    assert_eq!(execution.slots.values.len(), frame.window.floor + 3);
    for (depth, value) in [JsValue::Bool(true), JsValue::Int(1), JsValue::Int(0)].into_iter().enumerate() {
        assert_eq!(execution.slots.peek(frame.window, depth).unwrap(), value);
    }
    assert!(execution.regions.is_empty());
    host.abandon(execution);
    assert!(host.is_idle());
}

#[test]
fn abandoned_executions_leave_the_activations_they_rested_on() {
    let mut host = Host::new(1);
    let realm = host.new_context();
    let outer = host.entry(realm, "(function(){return 1})", vec![]);
    let (below, id) = host.start_at(outer, 0);
    let base = host.runtime.active.to_vec();
    assert_eq!(base.len(), 1);
    // Left while a callee of a callee waits for the embedder.
    let callee = host.eval(realm, "Math.abs");
    let source = "(function(f){var g=function(){return f(1)};return (function(){return g()})()})";
    let entry = host.entry(realm, source, vec![callee]);
    let mut fuel: u64 = 1000;
    let exit = execute(&mut host.runtime, &mut host.registry, entry, ExecutionLimits::default(), &mut fuel).unwrap();
    let RunningExit::Call(left) = exit else { panic!("expected a pending call") };
    assert!(host.runtime.active.to_vec().len() >= 4);
    left.abandon(&mut host.runtime, &mut host.registry);
    assert_eq!(host.runtime.active.to_vec(), base);
    assert_eq!(below.frames.current_id(), Some(id));
    host.abandon(below);
    assert!(host.is_idle());
}
