//! The diagnostics that end a transformation.
use vstd::prelude::*;

verus! {

/// Why a declaration was not transformed.
#[derive(PartialEq, Eq, Structural, Clone, Copy, Debug)]
pub enum ErrorKind {
    /// The attribute was given arguments.
    UnexpectedArguments,
    /// The annotated item is not a function declaration.
    NotAFunction,
    /// A parameter, the receiver included, is a mutable reference.
    MutableArgumentNotAllowed,
    /// The declaration has a receiver.
    ReceiverNotAllowed,
    /// The declaration is asynchronous.
    AsyncNotAllowed,
    /// A parameter's pattern binds no single identifier, so it cannot be
    /// forwarded by name.
    UnsupportedParameterPattern,
}

/// The message that goes with each kind of error.
pub open spec fn message_of(kind: ErrorKind) -> Seq<char> {
    match kind {
        ErrorKind::UnexpectedArguments => "pure_functional: attribute arguments are not supported"@,
        ErrorKind::NotAFunction => "pure_functional: attribute applies to functions only"@,
        ErrorKind::MutableArgumentNotAllowed =>
            "pure_functional: function with mutable arguments is not supported"@,
        ErrorKind::ReceiverNotAllowed => "pure_functional: function with self is not supported"@,
        ErrorKind::AsyncNotAllowed => "pure_functional: attribute on async fn is not supported"@,
        ErrorKind::UnsupportedParameterPattern =>
            "pure_functional: parameter patterns other than identifiers are not supported"@,
    }
}

/// An error of the pipeline: its kind, which also fixes its message.
#[derive(PartialEq, Eq, Structural, Clone, Copy, Debug)]
pub struct Diagnostic {
    pub kind: ErrorKind,
}

impl Diagnostic {
    pub fn new(kind: ErrorKind) -> (r: Diagnostic)
        ensures
            r.kind == kind,
    {
        Diagnostic { kind }
    }

    /// The human-readable text of this diagnostic.
    pub fn message(&self) -> (r: String)
        ensures
            r@ == message_of(self.kind),
    {
        match self.kind {
            ErrorKind::UnexpectedArguments => String::from_str(
                "pure_functional: attribute arguments are not supported",
            ),
            ErrorKind::NotAFunction => String::from_str(
                "pure_functional: attribute applies to functions only",
            ),
            ErrorKind::MutableArgumentNotAllowed => String::from_str(
                "pure_functional: function with mutable arguments is not supported",
            ),
            ErrorKind::ReceiverNotAllowed => String::from_str(
                "pure_functional: function with self is not supported",
            ),
            ErrorKind::AsyncNotAllowed => String::from_str(
                "pure_functional: attribute on async fn is not supported",
            ),
            ErrorKind::UnsupportedParameterPattern => String::from_str(
                "pure_functional: parameter patterns other than identifiers are not supported",
            ),
        }
    }
}

} // verus!
