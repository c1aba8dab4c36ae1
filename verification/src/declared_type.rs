//! The declared type of a mapping: its text in the input and the type
//! expression read from it.

use crate::diagnostic::{Diagnostic, ErrorKind};
use crate::syntax::{ask_type_path, is_asked};
use crate::text::{is_plain_text, trim, trimmed};
use crate::type_expression::{TypeExpression, TypeTree};
use vstd::prelude::*;
use vstd::string::*;

verus! {

/// A type as a mapping declares it. `source` is the type as written, without
/// the blanks around it; it stood at the characters from `start` up to, not
/// including, `end` of the input.
#[derive(Debug, PartialEq, Eq)]
pub struct DeclaredType {
    pub source: String,
    pub start: usize,
    pub end: usize,
    pub expression: TypeExpression,
}

/// The mathematical value of a [`DeclaredType`].
pub struct DeclaredTypeView {
    pub source: Seq<char>,
    pub start: usize,
    pub end: usize,
    pub expression: TypeTree,
}

impl View for DeclaredType {
    type V = DeclaredTypeView;

    open spec fn view(&self) -> DeclaredTypeView {
        DeclaredTypeView {
            source: self.source@,
            start: self.start,
            end: self.end,
            expression: self.expression@,
        }
    }
}

impl DeclaredTypeView {
    /// The given kind of error, reported at the declared type.
    pub open spec fn refused(self, kind: ErrorKind) -> Diagnostic {
        Diagnostic { kind, start: self.start, end: self.end }
    }
}

/// The declared type that stands in `s[from..to]` between its blanks, where
/// `answer` is what the parser made of it. Blanks alone hold no type, and a
/// text that is not plain is taken to hold none, whatever the answer.
pub open spec fn declared_type_from(
    s: Seq<char>,
    from: int,
    to: int,
    answer: Option<TypeTree>,
) -> Result<DeclaredTypeView, Diagnostic> {
    let place = trimmed(s, from, to);
    if is_asked(s, place.start as int, place.end as int, true) && answer is Some {
        Ok(
            DeclaredTypeView {
                source: s.subrange(place.start as int, place.end as int),
                start: place.start,
                end: place.end,
                expression: answer->0,
            },
        )
    } else {
        Err(
            Diagnostic {
                kind: ErrorKind::MalformedTypeExpression,
                start: place.start,
                end: place.end,
            },
        )
    }
}

/// A result with its declared type taken by its view.
pub open spec fn declared_type_result(read: Result<DeclaredType, Diagnostic>) -> Result<
    DeclaredTypeView,
    Diagnostic,
> {
    match read {
        Ok(ty) => Ok(ty@),
        Err(diagnostic) => Err(diagnostic),
    }
}

/// An answer of the parser, taken by its view.
pub open spec fn type_answer(answer: Option<TypeExpression>) -> Option<TypeTree> {
    match answer {
        Some(ty) => Some(ty@),
        None => None,
    }
}

impl DeclaredType {
    /// Makes the declared type that stands in `text[from..to]` of what the
    /// parser answered about it.
    pub fn from_answer(text: &str, from: usize, to: usize, answer: Option<TypeExpression>) -> (read:
        Result<DeclaredType, Diagnostic>)
        requires
            from <= to <= text@.len(),
        ensures
            declared_type_result(read) == declared_type_from(
                text@,
                from as int,
                to as int,
                type_answer(answer),
            ),
    {
        let place = trim(text, from, to);
        let asked = place.start < place.end && is_plain_text(text, place.start, place.end);
        match answer {
            Some(expression) => if asked {
                return Ok(
                    DeclaredType {
                        source: String::from_str(text.substring_char(place.start, place.end)),
                        start: place.start,
                        end: place.end,
                        expression,
                    },
                );
            },
            None => {},
        }
        Err(
            Diagnostic {
                kind: ErrorKind::MalformedTypeExpression,
                start: place.start,
                end: place.end,
            },
        )
    }

    /// Reads the declared type that stands in `text[from..to]`: the parser is
    /// asked about the text between the blanks, and the type is made of its
    /// answer.
    pub fn read(text: &str, from: usize, to: usize) -> (read: Result<DeclaredType, Diagnostic>)
        requires
            from <= to <= text@.len(),
        ensures
            exists|answer: Option<TypeTree>|
                declared_type_result(read) == #[trigger] declared_type_from(
                    text@,
                    from as int,
                    to as int,
                    answer,
                ),
    {
        let place = trim(text, from, to);
        let answer = ask_type_path(text, place.start, place.end);
        let ghost witness = type_answer(answer);
        let read = DeclaredType::from_answer(text, from, to, answer);
        assert(declared_type_result(read) == declared_type_from(
            text@,
            from as int,
            to as int,
            witness,
        ));
        read
    }

    /// The given kind of error, reported at this declared type.
    pub fn refused(&self, kind: ErrorKind) -> (diagnostic: Diagnostic)
        ensures
            diagnostic == self@.refused(kind),
    {
        Diagnostic { kind, start: self.start, end: self.end }
    }
}

} // verus!
