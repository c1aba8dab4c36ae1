//! Association mappings: `name -> Type`, for a field that is loaded before
//! it is read.

use crate::declared_type::{declared_type_from, type_answer, DeclaredType, DeclaredTypeView};
use crate::diagnostic::{text_result, Diagnostic, ErrorKind, Piece};
use crate::field::{accessor_name, is_raw, write_accessor_name};
use crate::stub::{association_form, association_stub, Host, HostView};
use crate::syntax::{ask_identifier, ask_type_path};
use crate::text::{
    arrow_from, arrow_missing, find_arrow, find_word_end, missing_arrow, skip_space_chars,
    skip_spaces, trim, trimmed, word_end,
};
use crate::type_expression::{inner_most_type_name, TypeExpression, TypeTree};
use vstd::prelude::*;
use vstd::string::*;

verus! {

/// An association mapping: the name of the field and its declared type.
#[derive(Debug, PartialEq, Eq)]
pub struct Input {
    pub name: String,
    pub ty: DeclaredType,
}

/// The mathematical value of an [`Input`].
pub struct InputView {
    pub name: Seq<char>,
    pub ty: DeclaredTypeView,
}

impl View for Input {
    type V = InputView;

    open spec fn view(&self) -> InputView {
        InputView { name: self.name@, ty: self.ty@ }
    }
}

impl InputView {
    /// `field_` and the name of the association, without the `r#` of a raw
    /// identifier.
    pub open spec fn method_name(self) -> Seq<char> {
        accessor_name(self.name)
    }

    /// The accessor of the association, with a traversal guard over the leaf
    /// of the declared type.
    pub open spec fn expansion(self, host: HostView) -> Result<Seq<char>, Diagnostic> {
        match self.ty.expression.leaf() {
            Ok(leaf) => Ok(
                association_form(host, self.method_name(), leaf, self.ty.source, self.name),
            ),
            Err(kind) => Err(self.ty.refused(kind)),
        }
    }
}

/// A result with its mapping taken by its view.
pub open spec fn association_result(read: Result<Input, Diagnostic>) -> Result<
    InputView,
    Diagnostic,
> {
    match read {
        Ok(input) => Ok(input@),
        Err(diagnostic) => Err(diagnostic),
    }
}

/// An answer of the parser about a name, taken by its view.
pub open spec fn name_answer(name: Option<String>) -> Option<Seq<char>> {
    match name {
        Some(name) => Some(name@),
        None => None,
    }
}

/// Where the name of the association stands in `s`: before the first `->`,
/// or, in a text without one, at the word that the text begins with.
pub open spec fn name_place(s: Seq<char>) -> Piece {
    let arrow = arrow_from(s, 0);
    if arrow < s.len() {
        trimmed(s, 0, arrow)
    } else {
        let start = skip_spaces(s, 0, s.len() as int);
        Piece { start: start as usize, end: word_end(s, start, s.len() as int) as usize }
    }
}

/// The association mapping that `s` holds, where `name` is what the parser
/// made of the name and `ty` what it made of the declared type.
///
/// With `->` in the text, the name is what stands before the first one and
/// the declared type what stands after it. Without `->`, the name is the
/// word that the text begins with, and the arrow is missing after it. Of
/// several faults the first in this order is reported: the name, the arrow,
/// the declared type.
pub open spec fn association_reading(
    s: Seq<char>,
    name: Option<Seq<char>>,
    ty: Option<TypeTree>,
) -> Result<InputView, Diagnostic> {
    let arrow = arrow_from(s, 0);
    let place = name_place(s);
    if place.start < place.end && name is Some {
        if arrow < s.len() {
            match declared_type_from(s, arrow + 2, s.len() as int, ty) {
                Ok(ty) => Ok(InputView { name: name->0, ty }),
                Err(diagnostic) => Err(diagnostic),
            }
        } else {
            Err(arrow_missing(s, skip_spaces(s, place.end as int, s.len() as int)))
        }
    } else {
        Err(Diagnostic { kind: ErrorKind::MalformedKeyPath, start: place.start, end: place.end })
    }
}

/// The accessor for the association mapping that `s` holds, under the
/// answers of the parser.
pub open spec fn association_expansion(
    s: Seq<char>,
    host: HostView,
    name: Option<Seq<char>>,
    ty: Option<TypeTree>,
) -> Result<Seq<char>, Diagnostic> {
    match association_reading(s, name, ty) {
        Ok(input) => input.expansion(host),
        Err(diagnostic) => Err(diagnostic),
    }
}

/// The accessor of an association mapping is a method named `field_` and
/// the name of the association, for every name that is no raw identifier.
/// Of a raw identifier the `r#` is left out.
pub proof fn lemma_association_method_name(mapping: InputView, host: HostView)
    ensures
        !is_raw(mapping.name) ==> mapping.method_name() == "field_"@ + mapping.name,
        is_raw(mapping.name) ==> mapping.method_name() == "field_"@ + mapping.name.subrange(
            2,
            mapping.name.len() as int,
        ),
        mapping.expansion(host) matches Ok(text) ==> ("fn "@ + mapping.method_name() + "("@).is_prefix_of(
            text,
        ),
{
    reveal_strlit("(");
    reveal_strlit("(&self, executor: &");
}

/// A text in which no name stands is refused for its name, whatever the
/// parser answers.
pub proof fn lemma_empty_name_is_refused(s: Seq<char>, name: Option<Seq<char>>, ty: Option<TypeTree>)
    requires
        name_place(s).start >= name_place(s).end,
    ensures
        association_reading(s, name, ty) == Err::<InputView, Diagnostic>(
            Diagnostic {
                kind: ErrorKind::MalformedKeyPath,
                start: name_place(s).start,
                end: name_place(s).end,
            },
        ),
{
}

/// A text without `->` that begins with a name is refused for the missing
/// arrow, at what follows the name.
pub proof fn lemma_missing_arrow_is_refused(s: Seq<char>, name: Option<Seq<char>>, ty: Option<TypeTree>)
    requires
        arrow_from(s, 0) >= s.len(),
        name_place(s).start < name_place(s).end,
        name is Some,
    ensures
        association_reading(s, name, ty) == Err::<InputView, Diagnostic>(
            arrow_missing(s, skip_spaces(s, name_place(s).end as int, s.len() as int)),
        ),
        association_reading(s, name, ty)->Err_0.kind == ErrorKind::ExpectedArrow,
{
}

/// Finds where the name of the association stands in `text`.
pub fn find_name(text: &str) -> (place: Piece)
    ensures
        place == name_place(text@),
        place.start <= place.end <= text@.len(),
{
    let len: usize = text.unicode_len();
    let arrow: usize = find_arrow(text);
    if arrow < len {
        trim(text, 0, arrow)
    } else {
        let start: usize = skip_space_chars(text, 0, len);
        Piece { start, end: find_word_end(text, start, len) }
    }
}

impl Input {
    /// Makes an association mapping of `input` and of what the parser
    /// answered: `name` about the name and `ty` about the declared type.
    pub fn assemble(input: &str, name: Option<String>, ty: Option<TypeExpression>) -> (read: Result<
        Input,
        Diagnostic,
    >)
        ensures
            association_result(read) == association_reading(
                input@,
                name_answer(name),
                type_answer(ty),
            ),
    {
        let len: usize = input.unicode_len();
        let place = find_name(input);
        let name = match name {
            Some(name) => if place.start < place.end {
                name
            } else {
                return Err(
                    Diagnostic {
                        kind: ErrorKind::MalformedKeyPath,
                        start: place.start,
                        end: place.end,
                    },
                );
            },
            None => {
                return Err(
                    Diagnostic {
                        kind: ErrorKind::MalformedKeyPath,
                        start: place.start,
                        end: place.end,
                    },
                );
            },
        };
        let arrow: usize = find_arrow(input);
        if arrow >= len {
            return Err(missing_arrow(input, skip_space_chars(input, place.end, len)));
        }
        match DeclaredType::from_answer(input, arrow + 2, len, ty) {
            Ok(ty) => Ok(Input { name, ty }),
            Err(diagnostic) => Err(diagnostic),
        }
    }

    /// Reads an association mapping from `input`: one identifier, `->` and
    /// a type path. The parser is asked about the name and about the
    /// declared type, and the mapping is made of its answers.
    pub fn parse(input: &str) -> (read: Result<Input, Diagnostic>)
        ensures
            exists|name: Option<Seq<char>>, ty: Option<TypeTree>|
                association_result(read) == #[trigger] association_reading(input@, name, ty),
    {
        let len: usize = input.unicode_len();
        let place = find_name(input);
        let name = ask_identifier(input, place.start, place.end);
        let arrow: usize = find_arrow(input);
        let ty = if arrow < len {
            let place = trim(input, arrow + 2, len);
            ask_type_path(input, place.start, place.end)
        } else {
            None
        };
        let ghost answers = (name_answer(name), type_answer(ty));
        let read = Input::assemble(input, name, ty);
        assert(association_result(read) == association_reading(input@, answers.0, answers.1));
        read
    }

    /// The name of the accessor method.
    pub fn resolver_method_name(&self) -> (name: String)
        ensures
            name@ == self@.method_name(),
    {
        write_accessor_name(self.name.as_str())
    }

    /// Writes the accessor of this association.
    pub fn expand(&self, host: &Host) -> (written: Result<String, Diagnostic>)
        ensures
            text_result(written) == self@.expansion(host@),
    {
        let name = self.resolver_method_name();
        match inner_most_type_name(&self.ty.expression) {
            Ok(leaf) => Ok(
                association_stub(
                    host,
                    name.as_str(),
                    leaf.as_str(),
                    self.ty.source.as_str(),
                    self.name.as_str(),
                ),
            ),
            Err(kind) => Err(self.ty.refused(kind)),
        }
    }
}

/// Reads an association mapping from `input` and writes its accessor for
/// `host`: the accessor of the mapping that is made of the answers of the
/// parser.
pub fn expand_for(input: &str, host: &Host) -> (written: Result<String, Diagnostic>)
    ensures
        exists|name: Option<Seq<char>>, ty: Option<TypeTree>|
            text_result(written) == #[trigger] association_expansion(input@, host@, name, ty),
{
    let read = Input::parse(input);
    let ghost answers = choose|name: Option<Seq<char>>, ty: Option<TypeTree>|
        association_result(read) == #[trigger] association_reading(input@, name, ty);
    let written = match read {
        Ok(mapping) => mapping.expand(host),
        Err(diagnostic) => Err(diagnostic),
    };
    assert(text_result(written) == association_expansion(input@, host@, answers.0, answers.1));
    written
}

/// Reads an association mapping from `input` and writes its accessor for
/// Juniper.
pub fn expand(input: &str) -> (written: Result<String, Diagnostic>)
    ensures
        exists|name: Option<Seq<char>>, ty: Option<TypeTree>|
            text_result(written) == #[trigger] association_expansion(
                input@,
                HostView::juniper(),
                name,
                ty,
            ),
{
    expand_for(input, &Host::juniper())
}

} // verus!
