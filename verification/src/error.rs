//! Engine errors, kept apart from thrown language values.
use vstd::prelude::*;
use crate::value::Atom;

verus! {

/// What went wrong.  The first five kinds are visible to programs as error
/// objects; the others end the execution.
#[derive(Clone, Copy, Debug, PartialEq, Eq, Structural)]
pub enum ErrorKind {
    Type,
    Reference,
    Range,
    Syntax,
    /// Exhausted engine resources that a program can catch.
    Overflow,
    Internal,
    Invariant,
    WrongRuntime,
    Heap,
}

/// The constructors of program-visible errors.
#[derive(Clone, Copy, Debug, PartialEq, Eq, Structural)]
pub enum NativeErrorKind {
    Type,
    Reference,
    Range,
    Syntax,
    Internal,
}

impl NativeErrorKind {
    pub open spec fn visible(kind: ErrorKind) -> Option<NativeErrorKind> {
        match kind {
            ErrorKind::Type => Some(NativeErrorKind::Type),
            ErrorKind::Reference => Some(NativeErrorKind::Reference),
            ErrorKind::Range => Some(NativeErrorKind::Range),
            ErrorKind::Syntax => Some(NativeErrorKind::Syntax),
            ErrorKind::Overflow => Some(NativeErrorKind::Internal),
            _ => None,
        }
    }

    #[verifier::when_used_as_spec(visible)]
    pub fn from_javascript_error(kind: ErrorKind) -> (r: Option<NativeErrorKind>)
        ensures
            r == NativeErrorKind::visible(kind),
    {
        match kind {
            ErrorKind::Type => Some(NativeErrorKind::Type),
            ErrorKind::Reference => Some(NativeErrorKind::Reference),
            ErrorKind::Range => Some(NativeErrorKind::Range),
            ErrorKind::Syntax => Some(NativeErrorKind::Syntax),
            ErrorKind::Overflow => Some(NativeErrorKind::Internal),
            _ => None,
        }
    }
}

/// An error and its text: `head`, then the text of `atom` if there is one,
/// then `tail`.
#[derive(Clone, Copy, Debug, PartialEq, Eq)]
pub struct Error {
    pub kind: ErrorKind,
    pub head: &'static str,
    pub atom: Option<Atom>,
    pub tail: &'static str,
}

impl Error {
    pub open spec fn new_spec(kind: ErrorKind, text: &'static str) -> Error {
        Error { kind, head: text, atom: None, tail: "" }
    }

    #[verifier::when_used_as_spec(new_spec)]
    pub fn new(kind: ErrorKind, text: &'static str) -> (r: Error)
        ensures
            r == Error::new_spec(kind, text),
    {
        Error { kind, head: text, atom: None, tail: "" }
    }

    pub open spec fn internal_spec(text: &'static str) -> Error {
        Error::new_spec(ErrorKind::Internal, text)
    }

    /// A broken driver protocol.
    #[verifier::when_used_as_spec(internal_spec)]
    pub fn internal(text: &'static str) -> (r: Error)
        ensures
            r == Error::internal_spec(text),
    {
        Error::new(ErrorKind::Internal, text)
    }

    pub open spec fn broken_spec(text: &'static str) -> Error {
        Error::new_spec(ErrorKind::Invariant, text)
    }

    /// A broken engine invariant.
    #[verifier::when_used_as_spec(broken_spec)]
    pub fn broken(text: &'static str) -> (r: Error)
        ensures
            r == Error::broken_spec(text),
    {
        Error::new(ErrorKind::Invariant, text)
    }

    pub open spec fn wrong_runtime_spec(text: &'static str) -> Error {
        Error::new_spec(ErrorKind::WrongRuntime, text)
    }

    /// A value of another runtime.
    #[verifier::when_used_as_spec(wrong_runtime_spec)]
    pub fn wrong_runtime(text: &'static str) -> (r: Error)
        ensures
            r == Error::wrong_runtime_spec(text),
    {
        Error::new(ErrorKind::WrongRuntime, text)
    }

    pub open spec fn stale_spec() -> Error {
        Error::new_spec(ErrorKind::Heap, "stale heap handle")
    }

    /// A handle that names nothing in its store.
    #[verifier::when_used_as_spec(stale_spec)]
    pub fn stale() -> (r: Error)
        ensures
            r == Error::stale_spec(),
    {
        Error::new(ErrorKind::Heap, "stale heap handle")
    }

    pub open spec fn named_spec(
        kind: ErrorKind,
        head: &'static str,
        atom: Option<Atom>,
        tail: &'static str,
    ) -> Error {
        Error { kind, head, atom, tail }
    }

    /// `head`, the text of `atom`, `tail`.
    #[verifier::when_used_as_spec(named_spec)]
    pub fn named(
        kind: ErrorKind,
        head: &'static str,
        atom: Option<Atom>,
        tail: &'static str,
    ) -> (r: Error)
        ensures
            r == Error::named_spec(kind, head, atom, tail),
    {
        Error { kind, head, atom, tail }
    }
}

} // verus!
