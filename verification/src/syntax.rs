//! What is asked of the `syn` parser: whether a text is one identifier, and
//! which type path a text holds.
//!
//! Nothing is proved of `syn`, and nothing is claimed of what it answers:
//! the functions marked `external_body` are the places where it is called
//! and its syntax tree is copied. What is made of an answer is decided by
//! functions that take the answer as an argument.

use crate::text::{is_plain, is_plain_text};
use crate::type_expression::{Argument, ArgumentType, TypeExpression};
use vstd::prelude::*;
use vstd::string::*;

verus! {

/// `syn::TypePath`, a type path of the syntax tree. Nothing is known of its
/// contents here.
#[verifier::external_type_specification]
#[verifier::external_body]
pub struct ExTypePath(syn::TypePath);

/// `syn::GenericArgument`, one argument between angle brackets. Nothing is
/// known of its contents here.
#[verifier::external_type_specification]
#[verifier::external_body]
pub struct ExGenericArgument(syn::GenericArgument);

/// `syn::Type`, a type of the syntax tree. Nothing is known of its contents
/// here.
#[verifier::external_type_specification]
#[verifier::external_body]
pub struct ExType(syn::Type);

/// Whether the parser is asked about `s[from..to]`: about no empty text,
/// and for a type path about no text that is not plain.
pub open spec fn is_asked(s: Seq<char>, from: int, to: int, plain_only: bool) -> bool {
    0 <= from < to <= s.len() && (plain_only ==> is_plain(s.subrange(from, to)))
}

/// Asks the parser for the identifier in `text[from..to]`. An empty text
/// holds none, and the parser is not asked about it.
pub fn ask_identifier(text: &str, from: usize, to: usize) -> (name: Option<String>)
    requires
        from <= to <= text@.len(),
    ensures
        !is_asked(text@, from as int, to as int, false) ==> name is None,
{
    if from < to {
        parse_identifier(text.substring_char(from, to))
    } else {
        None
    }
}

/// Asks the parser for the type path in `text[from..to]`. An empty text
/// holds none, and a text that is not plain is taken to hold none: the
/// parser is asked about neither.
pub fn ask_type_path(text: &str, from: usize, to: usize) -> (ty: Option<TypeExpression>)
    requires
        from <= to <= text@.len(),
    ensures
        !is_asked(text@, from as int, to as int, true) ==> ty is None,
{
    if from < to && is_plain_text(text, from, to) {
        parse_type_path(text.substring_char(from, to))
    } else {
        None
    }
}

/// Calls `syn::parse_str` for a `syn::Ident`, which accepts a text that
/// holds one identifier, neither a keyword nor `_`, and nothing else, and
/// hands back the identifier as `to_string` prints it. Nothing is claimed of
/// the answer.
#[verifier::external_body]
fn parse_identifier(text: &str) -> (name: Option<String>) {
    match syn::parse_str::<syn::Ident>(text) {
        Ok(ident) => Some(ident.to_string()),
        Err(_) => None,
    }
}

/// Calls `syn::parse_str` for a `syn::TypePath`, which accepts a text that
/// holds one type path and nothing else, and copies the path with
/// [`from_type_path`]. Nothing is claimed of the answer.
///
/// The text is to be plain. The parser reads every literal that it meets
/// among the arguments with `Lit::new`, which panics on a literal that it
/// does not know, such as `c"x"` or the error marker of the lexer, and
/// which reads strings and characters in quotes with panics of their own. A
/// plain text holds no quotation mark, no character in single quotes and no
/// slash, and so no literal but a number.
#[verifier::external_body]
fn parse_type_path(text: &str) -> (ty: Option<TypeExpression>)
    requires
        is_plain(text@),
{
    match syn::parse_str::<syn::TypePath>(text) {
        Ok(path) => from_type_path(&path),
        Err(_) => None,
    }
}

/// Copies the identifier and the arguments of the last segment of a
/// `syn::TypePath`, one variant of `syn::PathArguments` to one variant of
/// [`TypeExpression`]. There is nothing to copy from a path without
/// segments; the parser makes no such path. Nothing is claimed of the copy.
#[verifier::external_body]
fn from_type_path(path: &syn::TypePath) -> Option<TypeExpression> {
    let segment = path.path.segments.last()?;
    let name = segment.ident.to_string();
    Some(match &segment.arguments {
        syn::PathArguments::None => TypeExpression::Named { name },
        syn::PathArguments::AngleBracketed(list) => TypeExpression::Generic {
            name,
            arguments: list.args.iter().map(from_generic_argument).collect::<Option<Vec<Argument>>>()?,
        },
        syn::PathArguments::Parenthesized(_) => TypeExpression::CallStyle { name },
    })
}

/// Copies one `syn::GenericArgument`: a type, or anything else. Nothing is
/// claimed of the copy.
#[verifier::external_body]
fn from_generic_argument(argument: &syn::GenericArgument) -> Option<Argument> {
    Some(match argument {
        syn::GenericArgument::Type(ty) => Argument::Type(from_type(ty)?),
        _ => Argument::Other,
    })
}

/// Copies one `syn::Type`: a type path, a reference with the type it refers
/// to, or anything else. Nothing is claimed of the copy.
#[verifier::external_body]
fn from_type(ty: &syn::Type) -> Option<ArgumentType> {
    Some(match ty {
        syn::Type::Path(path) => ArgumentType::Path(from_type_path(path)?),
        syn::Type::Reference(reference) => ArgumentType::Reference(Box::new(from_type(&reference.elem)?)),
        _ => ArgumentType::Other,
    })
}

} // verus!
