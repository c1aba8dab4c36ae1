//! Accessor-method stubs for a typed query-resolution layer.
//!
//! A field mapping such as `other.bar -> Option<i32>` or an association
//! mapping such as `country -> Country` is read from text, its declared type
//! is reduced to the innermost named type, and the source text of one
//! accessor method is written.
//!
//! - [`type_expression`]: type expressions, their leaf and their
//!   classification as scalar or object.
//! - [`field`] and [`loaded_association`]: the two mappings, how they are
//!   read and how they expand.
//! - [`stub`]: the text of the accessors, for a host framework.
//! - [`declared_type`], [`text`], [`diagnostic`]: the parts of a mapping and
//!   what is reported of a mapping that is refused.
//! - [`syntax`]: the calls into the `syn` parser.

use vstd::prelude::*;
use vstd::string::*;

pub mod declared_type;
pub mod diagnostic;
pub mod field;
pub mod loaded_association;
pub mod stub;
pub mod syntax;
pub mod text;
pub mod type_expression;

pub use declared_type::DeclaredType;
pub use diagnostic::{Diagnostic, ErrorKind, Piece};
pub use type_expression::{
    classify, inner_most_type_name, Argument, ArgumentType, Classification, TypeExpression,
};

verus! {

/// The text that stops compilation with the message of `kind`. No message
/// holds a character that a string literal would have to escape.
pub open spec fn refusal(kind: ErrorKind) -> Seq<char> {
    "compile_error! { \""@ + kind.message_text() + "\" }"@
}

/// What stands in place of a mapping: its accessor, or the compile error of
/// its diagnostic.
pub open spec fn macro_output(expansion: Result<Seq<char>, Diagnostic>) -> Seq<char> {
    match expansion {
        Ok(text) => text,
        Err(diagnostic) => refusal(diagnostic.kind),
    }
}

/// Writes what stands in place of `expansion`.
pub fn emit(expansion: Result<String, Diagnostic>) -> (output: String)
    ensures
        output@ == macro_output(diagnostic::text_result(expansion)),
{
    match expansion {
        Ok(text) => text,
        Err(diagnostic) => {
            let mut output = String::from_str("compile_error! { \"");
            output.append(diagnostic.kind.message());
            output.append("\" }");
            output
        },
    }
}

/// Expands the field mapping `input` for Juniper: to its accessor, or to a
/// compile error.
pub fn field(input: &str) -> (output: String)
    ensures
        exists|names: Seq<Option<Seq<char>>>, ty: Option<type_expression::TypeTree>|
            output@ == macro_output(
                #[trigger] field::field_expansion(input@, stub::HostView::juniper(), names, ty),
            ),
{
    emit(field::expand(input))
}

/// Expands the association mapping `input` for Juniper: to its accessor, or
/// to a compile error.
pub fn loaded_association(input: &str) -> (output: String)
    ensures
        exists|name: Option<Seq<char>>, ty: Option<type_expression::TypeTree>|
            output@ == macro_output(
                #[trigger] loaded_association::association_expansion(
                    input@,
                    stub::HostView::juniper(),
                    name,
                    ty,
                ),
            ),
{
    emit(loaded_association::expand(input))
}

} // verus!
