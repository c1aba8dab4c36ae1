//! What is reported when a mapping cannot be expanded.

use vstd::prelude::*;

verus! {

/// Why a mapping was refused.
#[derive(Clone, Copy, Debug, PartialEq, Eq, Structural)]
pub enum ErrorKind {
    /// The key path is empty, or two identifiers are not separated by `.`.
    MalformedKeyPath,
    /// No `->` follows the key path.
    ExpectedArrow,
    /// The text after `->` is not a type path.
    MalformedTypeExpression,
    /// `as` is not followed by `scalar`.
    UnexpectedScalarKeyword,
    /// Angle brackets with nothing between them, as in `Vec<>`.
    EmptyGenericArguments,
    /// The last generic argument is neither a type path nor a reference to one.
    UnsupportedArgumentShape,
    /// Arguments in parentheses, as in `Fn(i32) -> bool`.
    UnsupportedTypeShape,
}

impl ErrorKind {
    /// What was expected in place of what was found.
    pub open spec fn message_text(self) -> Seq<char> {
        match self {
            ErrorKind::MalformedKeyPath => "expected identifier"@,
            ErrorKind::ExpectedArrow => "expected `->`"@,
            ErrorKind::MalformedTypeExpression => "expected type path"@,
            ErrorKind::UnexpectedScalarKeyword => "expected `scalar`"@,
            ErrorKind::EmptyGenericArguments => "expected generic type argument"@,
            ErrorKind::UnsupportedArgumentShape => "expected type path or reference type"@,
            ErrorKind::UnsupportedTypeShape =>
                "expected type without arguments or angle bracketed type arguments"@,
        }
    }

    /// The message for this kind of error.
    pub fn message(&self) -> (text: &'static str)
        ensures
            text@ == self.message_text(),
    {
        match self {
            ErrorKind::MalformedKeyPath => "expected identifier",
            ErrorKind::ExpectedArrow => "expected `->`",
            ErrorKind::MalformedTypeExpression => "expected type path",
            ErrorKind::UnexpectedScalarKeyword => "expected `scalar`",
            ErrorKind::EmptyGenericArguments => "expected generic type argument",
            ErrorKind::UnsupportedArgumentShape => "expected type path or reference type",
            ErrorKind::UnsupportedTypeShape =>
                "expected type without arguments or angle bracketed type arguments",
        }
    }
}

/// An error kind with the part of the input it is about: the characters
/// from `start` up to, not including, `end`.
#[derive(Clone, Copy, Debug, PartialEq, Eq, Structural)]
pub struct Diagnostic {
    pub kind: ErrorKind,
    pub start: usize,
    pub end: usize,
}

/// A part of the input: the characters from `start` up to, not including,
/// `end`.
#[derive(Clone, Copy, Debug, PartialEq, Eq, Structural)]
pub struct Piece {
    pub start: usize,
    pub end: usize,
}

impl Diagnostic {
    /// Whether this diagnostic is about some character of `piece`, or, where
    /// it is about none at all, stands at one.
    pub open spec fn touches(self, piece: Piece) -> bool {
        (piece.start < self.end || piece.start <= self.start) && self.start < piece.end
    }

    /// Finds the first of `pieces` that this diagnostic touches.
    pub fn first_touched(&self, pieces: &Vec<Piece>) -> (found: Option<usize>)
        ensures
            match found {
                Some(at) => at < pieces@.len() && self.touches(pieces@[at as int]) && forall|i: int|
                    0 <= i < at ==> !self.touches(#[trigger] pieces@[i]),
                None => forall|i: int| 0 <= i < pieces@.len() ==> !self.touches(#[trigger] pieces@[i]),
            },
    {
        let mut at: usize = 0;
        while at < pieces.len()
            invariant
                at <= pieces@.len(),
                forall|i: int| 0 <= i < at ==> !self.touches(#[trigger] pieces@[i]),
            decreases pieces@.len() - at,
        {
            let piece = pieces[at];
            if (piece.start < self.end || piece.start <= self.start) && self.start < piece.end {
                return Some(at);
            }
            at += 1;
        }
        None
    }
}

/// A result with its text taken by its view.
pub open spec fn text_result(written: Result<String, Diagnostic>) -> Result<Seq<char>, Diagnostic> {
    match written {
        Ok(text) => Ok(text@),
        Err(diagnostic) => Err(diagnostic),
    }
}

} // verus!
