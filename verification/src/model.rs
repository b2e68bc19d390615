use vstd::prelude::*;

verus! {

/// Whether the generated closure borrows the values it captures from the
/// enclosing scope, or takes ownership of them.
#[derive(Clone, Copy, Debug, PartialEq, Eq, Structural)]
pub enum CaptureMode {
    ByReference,
    ByMove,
}

/// The mathematical model of one parsed invocation: the capture mode as a
/// flag, the arity as a natural number, and the body as its character
/// sequence.
pub struct SpecModel {
    pub is_move: bool,
    pub arity: nat,
    pub body: Seq<char>,
}

/// The structured form of one invocation: a capture mode, the number of
/// positional parameters the closure takes, and the body expression kept as
/// opaque source text.
pub struct Specification {
    pub capture_mode: CaptureMode,
    pub arity: u16,
    pub body: String,
}

impl View for Specification {
    type V = SpecModel;

    open spec fn view(&self) -> SpecModel {
        SpecModel {
            is_move: self.capture_mode is ByMove,
            arity: self.arity as nat,
            body: self.body@,
        }
    }
}

/// A parse failure.  `pos` is the character offset (not the byte offset) of
/// the offending token in the input.
#[derive(Clone, Copy, Debug, PartialEq, Eq, Structural)]
pub enum ParseError {
    /// The token in the arity position is not an integer literal: it does
    /// not begin with a digit run (after an optional base prefix), or it is
    /// a float form (a dot or a decimal exponent after the digits).
    ExpectedIntegerLiteral { pos: usize },
    /// The arity literal's value does not fit in sixteen bits.
    ArityOverflow { pos: usize },
    /// The `=>` between the arity and the body is missing.
    MissingSeparator { pos: usize },
    /// What follows the separator is not a single well-formed expression.
    MalformedBody { pos: usize },
}

impl ParseError {
    /// The character offset of the offending token.
    pub open spec fn spec_pos(&self) -> usize {
        match self {
            ParseError::ExpectedIntegerLiteral { pos } => *pos,
            ParseError::ArityOverflow { pos } => *pos,
            ParseError::MissingSeparator { pos } => *pos,
            ParseError::MalformedBody { pos } => *pos,
        }
    }

    /// The character offset of the offending token.
    pub fn position(&self) -> (p: usize)
        ensures
            p == self.spec_pos(),
    {
        match self {
            ParseError::ExpectedIntegerLiteral { pos } => *pos,
            ParseError::ArityOverflow { pos } => *pos,
            ParseError::MissingSeparator { pos } => *pos,
            ParseError::MalformedBody { pos } => *pos,
        }
    }

    /// The description that `message` returns for each variant.
    pub open spec fn spec_message(&self) -> Seq<char> {
        match self {
            ParseError::ExpectedIntegerLiteral { .. } => "expected an integer literal"@,
            ParseError::ArityOverflow { .. } => "arity does not fit in a 16-bit integer"@,
            ParseError::MissingSeparator { .. } => "expected `=>` between the arity and the body"@,
            ParseError::MalformedBody { .. } => "expected an expression as the body"@,
        }
    }

    /// A human-readable description of the failure.
    pub fn message(&self) -> (m: &'static str)
        ensures
            m@ == self.spec_message(),
    {
        match self {
            ParseError::ExpectedIntegerLiteral { .. } => "expected an integer literal",
            ParseError::ArityOverflow { .. } => "arity does not fit in a 16-bit integer",
            ParseError::MissingSeparator { .. } => "expected `=>` between the arity and the body",
            ParseError::MalformedBody { .. } => "expected an expression as the body",
        }
    }
}

} // verus!
