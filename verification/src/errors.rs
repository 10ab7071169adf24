//! Parse errors: a malformed token sequence halts generation entirely, with
//! one fatal, descriptive error carrying the offending token position.

use vstd::prelude::*;

verus! {

/// The ways a token stream can be malformed.
#[derive(Clone, Copy, PartialEq, Eq, Structural, Debug)]
pub enum ErrorKind {
    /// A token where the grammar admits no such token.
    UnexpectedToken,
    /// A block opened but never closed.
    UnterminatedBlock,
    /// A block introduced by a keyword the grammar does not know.
    UnknownKeyword,
    /// A hook kind given more than once in one group.
    DuplicateHook,
}

impl ErrorKind {
    /// The human-readable description of this kind of error.
    pub open spec fn text(self) -> Seq<char> {
        match self {
            ErrorKind::UnexpectedToken => "unexpected token"@,
            ErrorKind::UnterminatedBlock => "unterminated block"@,
            ErrorKind::UnknownKeyword => "unknown keyword"@,
            ErrorKind::DuplicateHook => "duplicate hook"@,
        }
    }
}

/// A fatal parse error: what went wrong, and at which token of the input.
#[derive(Clone, Copy, PartialEq, Eq, Structural, Debug)]
pub struct ParseError {
    /// Index of the offending token in the input stream (or its length, for
    /// an input that ended too early).
    pub pos: usize,
    pub kind: ErrorKind,
}

impl ParseError {
    /// The human-readable message for this error.
    pub fn message(&self) -> (r: String)
        ensures
            r@ == self.kind.text(),
    {
        match self.kind {
            ErrorKind::UnexpectedToken => "unexpected token".to_owned(),
            ErrorKind::UnterminatedBlock => "unterminated block".to_owned(),
            ErrorKind::UnknownKeyword => "unknown keyword".to_owned(),
            ErrorKind::DuplicateHook => "duplicate hook".to_owned(),
        }
    }
}

} // verus!
