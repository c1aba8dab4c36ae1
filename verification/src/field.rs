//! Field mappings: `path.to.field -> Type`, or `path.to.field -> Type as
//! scalar` for a type that the framework is to take as a plain value.

use crate::declared_type::{declared_type_from, type_answer, DeclaredType, DeclaredTypeView};
use crate::diagnostic::{text_result, Diagnostic, ErrorKind, Piece};
use crate::stub::{object_form, object_stub, scalar_form, scalar_stub, Host, HostView};
use crate::syntax::{ask_identifier, ask_type_path};
use crate::text::{
    arrow_from, arrow_missing, find_arrow, find_char, find_path_end, find_word_start, is_blank,
    is_space, is_word, lemma_trim_end_is, lemma_word_start_is, missing_arrow, path_end,
    position_of, skip_space_chars, skip_spaces, spells, trim, trim_end, trim_space_chars, trimmed,
    word_start,
};
use crate::type_expression::{inner_most_type_name, is_builtin, is_builtin_scalar, TypeExpression, TypeTree};
use vstd::prelude::*;
use vstd::string::*;

verus! {

/// A field mapping: the path from `self` to the field, the declared type,
/// and whether the type is to be taken as a scalar whatever its leaf.
#[derive(Debug, PartialEq, Eq)]
pub struct FieldInput {
    pub key_path: Vec<String>,
    pub ty: DeclaredType,
    pub force_as_scalar: bool,
}

/// The mathematical value of a [`FieldInput`].
pub struct FieldInputView {
    pub key_path: Seq<Seq<char>>,
    pub ty: DeclaredTypeView,
    pub force_as_scalar: bool,
}

/// The names of a key path.
pub open spec fn names_of(path: Seq<String>) -> Seq<Seq<char>> {
    Seq::new(path.len(), |i: int| path[i]@)
}

impl View for FieldInput {
    type V = FieldInputView;

    open spec fn view(&self) -> FieldInputView {
        FieldInputView {
            key_path: names_of(self.key_path@),
            ty: self.ty@,
            force_as_scalar: self.force_as_scalar,
        }
    }
}

/// The segments of a key path with a `.` between each two.
pub open spec fn dotted(path: Seq<Seq<char>>) -> Seq<char>
    decreases path.len(),
{
    if path.len() == 0 {
        Seq::empty()
    } else if path.len() == 1 {
        path[0]
    } else {
        dotted(path.drop_last()) + "."@ + path.last()
    }
}

/// Whether `name` is written as a raw identifier, with `r#` before it.
pub open spec fn is_raw(name: Seq<char>) -> bool {
    name.len() >= 2 && name[0] == 'r' && name[1] == '#'
}

/// `name` without the `r#` of a raw identifier.
pub open spec fn unraw(name: Seq<char>) -> Seq<char> {
    if is_raw(name) {
        name.subrange(2, name.len() as int)
    } else {
        name
    }
}

/// `field_` and `name` without the `r#` of a raw identifier.
pub open spec fn accessor_name(name: Seq<char>) -> Seq<char> {
    "field_"@ + unraw(name)
}

/// Writes the name of the accessor for the field `name`.
pub fn write_accessor_name(name: &str) -> (written: String)
    ensures
        written@ == accessor_name(name@),
{
    let len: usize = name.unicode_len();
    let mut written = String::from_str("field_");
    if len >= 2 && name.get_char(0) == 'r' && name.get_char(1) == '#' {
        written.append(name.substring_char(2, len));
    } else {
        written.append(name);
    }
    written
}

impl FieldInputView {
    /// A key path has at least one segment.
    pub open spec fn well_formed(self) -> bool {
        self.key_path.len() > 0
    }

    /// `field_` and the last segment of the key path, without the `r#` of a
    /// raw identifier.
    pub open spec fn method_name(self) -> Seq<char> {
        accessor_name(self.key_path.last())
    }

    /// Whether the leaf of the declared type is a built-in scalar.
    pub open spec fn is_scalar(self) -> Result<bool, Diagnostic> {
        match self.ty.expression.leaf() {
            Ok(leaf) => Ok(is_builtin_scalar(leaf)),
            Err(kind) => Err(self.ty.refused(kind)),
        }
    }

    /// The accessor without a traversal guard.
    pub open spec fn scalar_expansion(self, host: HostView) -> Seq<char> {
        scalar_form(host, self.method_name(), self.ty.source, dotted(self.key_path))
    }

    /// The accessor with a traversal guard over the leaf of the declared
    /// type.
    pub open spec fn object_expansion(self, host: HostView) -> Result<Seq<char>, Diagnostic> {
        match self.ty.expression.leaf() {
            Ok(leaf) => Ok(
                object_form(host, self.method_name(), leaf, self.ty.source, dotted(self.key_path)),
            ),
            Err(kind) => Err(self.ty.refused(kind)),
        }
    }

    /// The accessor of the mapping: the scalar form where the leaf is a
    /// built-in scalar or the mapping says `as scalar`, else the object form.
    /// A declared type without a leaf is refused in either case.
    pub open spec fn expansion(self, host: HostView) -> Result<Seq<char>, Diagnostic> {
        match self.is_scalar() {
            Ok(scalar) => if scalar || self.force_as_scalar {
                Ok(self.scalar_expansion(host))
            } else {
                self.object_expansion(host)
            },
            Err(diagnostic) => Err(diagnostic),
        }
    }
}

/// A result with its key path taken by its names.
pub open spec fn key_path_result(read: Result<Vec<String>, Diagnostic>) -> Result<
    Seq<Seq<char>>,
    Diagnostic,
> {
    match read {
        Ok(path) => Ok(names_of(path@)),
        Err(diagnostic) => Err(diagnostic),
    }
}

/// A result with its mapping taken by its view.
pub open spec fn field_result(read: Result<FieldInput, Diagnostic>) -> Result<
    FieldInputView,
    Diagnostic,
> {
    match read {
        Ok(input) => Ok(input@),
        Err(diagnostic) => Err(diagnostic),
    }
}

/// The answers of the parser about the pieces of a key path, taken by
/// their views.
pub open spec fn name_answers(names: Seq<Option<String>>) -> Seq<Option<Seq<char>>> {
    Seq::new(
        names.len(),
        |i: int|
            match names[i] {
                Some(name) => Some(name@),
                None => None,
            },
    )
}

/// `done` before what is still to be read, where that is read at all.
pub open spec fn continued(
    done: Seq<Seq<char>>,
    rest: Result<Seq<Seq<char>>, Diagnostic>,
) -> Result<Seq<Seq<char>>, Diagnostic> {
    match rest {
        Ok(names) => Ok(done + names),
        Err(diagnostic) => Err(diagnostic),
    }
}

/// The pieces of `s[from..to]` between its dots, each without the blanks
/// around it.
pub open spec fn pieces_in(s: Seq<char>, from: int, to: int) -> Seq<Piece>
    decreases to - from,
{
    let dot = position_of(s, '.', from, to);
    if from <= dot < to {
        seq![trimmed(s, from, dot)] + pieces_in(s, dot + 1, to)
    } else {
        seq![trimmed(s, from, dot)]
    }
}

/// Whether the `i`-th piece is not empty and the parser found an identifier
/// in it.
pub open spec fn is_answered(pieces: Seq<Piece>, names: Seq<Option<Seq<char>>>, i: int) -> bool {
    pieces[i].start < pieces[i].end && i < names.len() && names[i] is Some
}

/// The key path that the pieces from the `i`-th on hold, where `names` is
/// what the parser made of each piece. The first piece that is empty, or in
/// which the parser found no identifier, is refused.
pub open spec fn key_path_of(pieces: Seq<Piece>, names: Seq<Option<Seq<char>>>, i: int) -> Result<
    Seq<Seq<char>>,
    Diagnostic,
>
    decreases pieces.len() - i,
{
    if i < 0 || i >= pieces.len() {
        Ok(Seq::empty())
    } else if is_answered(pieces, names, i) {
        continued(seq![names[i]->0], key_path_of(pieces, names, i + 1))
    } else {
        Err(
            Diagnostic {
                kind: ErrorKind::MalformedKeyPath,
                start: pieces[i].start,
                end: pieces[i].end,
            },
        )
    }
}

/// What may follow the declared type.
#[derive(Clone, Copy, Debug, PartialEq, Eq, Structural)]
pub enum ScalarClause {
    /// Nothing.
    Absent,
    /// `as scalar`.
    Present,
    /// `as` and then no word, or a word that is not `scalar`: the word
    /// stands at the characters from `start` up to `end`.
    Unexpected { start: usize, end: usize },
}

/// Where the declared type ends, and what follows it.
#[derive(Clone, Copy, Debug, PartialEq, Eq, Structural)]
pub struct Tail {
    pub type_end: usize,
    pub clause: ScalarClause,
}

/// The end of `s[from..to]`: it closes with the word `as`, or with `as`,
/// blanks and one more word, or with neither.
pub open spec fn tail_of(s: Seq<char>, from: int, to: int) -> Tail {
    let last_end = trim_end(s, from, to);
    let last_start = word_start(s, from, last_end);
    let before_end = trim_end(s, from, last_start);
    let before_start = word_start(s, from, before_end);
    if s.subrange(last_start, last_end) == "as"@ {
        Tail {
            type_end: last_start as usize,
            clause: ScalarClause::Unexpected { start: last_end as usize, end: last_end as usize },
        }
    } else if last_start < last_end && before_end < last_start && s.subrange(
        before_start,
        before_end,
    ) == "as"@ {
        Tail {
            type_end: before_start as usize,
            clause: if s.subrange(last_start, last_end) == "scalar"@ {
                ScalarClause::Present
            } else {
                ScalarClause::Unexpected { start: last_start as usize, end: last_end as usize }
            },
        }
    } else {
        Tail { type_end: to as usize, clause: ScalarClause::Absent }
    }
}

/// Whether `s[from..to]` is the word `as`, blanks, the word `scalar` and
/// perhaps blanks after it.
pub open spec fn is_scalar_clause(s: Seq<char>, from: int, to: int) -> bool {
    exists|gap: int, end: int|
        from + 2 < gap <= end <= to && s.subrange(from, from + 2) == "as"@ && is_blank(
            s,
            from + 2,
            gap,
        ) && #[trigger] s.subrange(gap, end) == "scalar"@ && is_blank(s, end, to)
}

/// Where the key path of `s` ends: at the first `->`, or, in a text without
/// one, where the dotted path ends that the text begins with.
pub open spec fn head_end(s: Seq<char>) -> int {
    let arrow = arrow_from(s, 0);
    if arrow < s.len() {
        arrow
    } else {
        path_end(s, 0, s.len() as int)
    }
}

/// The pieces of the key path of `s`.
pub open spec fn field_pieces(s: Seq<char>) -> Seq<Piece> {
    pieces_in(s, 0, head_end(s))
}

/// Where the declared type of `s` stands, between the first `->` and the
/// scalar clause. The parser is asked about this part of a text with `->`.
pub open spec fn type_place(s: Seq<char>) -> Piece {
    let from = arrow_from(s, 0) + 2;
    trimmed(s, from, tail_of(s, from, s.len() as int).type_end as int)
}

/// The field mapping that `s` holds, where `names` is what the parser made
/// of the pieces of the key path and `ty` what it made of the declared type.
///
/// With `->` in the text, the key path is what stands before the first one,
/// and the declared type stands after it, before `as scalar` if the text
/// ends so. Without `->`, the key path is the dotted path that the text
/// begins with, and the arrow is missing where that path ends. Of several
/// faults the first in this order is reported: the key path, the arrow, the
/// declared type, the word after `as`.
pub open spec fn field_reading(
    s: Seq<char>,
    names: Seq<Option<Seq<char>>>,
    ty: Option<TypeTree>,
) -> Result<FieldInputView, Diagnostic> {
    let arrow = arrow_from(s, 0);
    match key_path_of(field_pieces(s), names, 0) {
        Ok(key_path) => if arrow < s.len() {
            let tail = tail_of(s, arrow + 2, s.len() as int);
            match declared_type_from(s, arrow + 2, tail.type_end as int, ty) {
                Ok(ty) => match tail.clause {
                    ScalarClause::Absent => Ok(
                        FieldInputView { key_path, ty, force_as_scalar: false },
                    ),
                    ScalarClause::Present => Ok(
                        FieldInputView { key_path, ty, force_as_scalar: true },
                    ),
                    ScalarClause::Unexpected { start, end } => Err(
                        Diagnostic { kind: ErrorKind::UnexpectedScalarKeyword, start, end },
                    ),
                },
                Err(diagnostic) => Err(diagnostic),
            }
        } else {
            Err(arrow_missing(s, skip_spaces(s, head_end(s), s.len() as int)))
        },
        Err(diagnostic) => Err(diagnostic),
    }
}

/// The accessor for the field mapping that `s` holds, under the answers of
/// the parser.
pub open spec fn field_expansion(
    s: Seq<char>,
    host: HostView,
    names: Seq<Option<Seq<char>>>,
    ty: Option<TypeTree>,
) -> Result<Seq<char>, Diagnostic> {
    match field_reading(s, names, ty) {
        Ok(input) => input.expansion(host),
        Err(diagnostic) => Err(diagnostic),
    }
}

/// A mapping that says `as scalar` expands to the scalar form whatever the
/// leaf of its declared type is.
pub proof fn lemma_forced_scalar_is_scalar_form(mapping: FieldInputView, host: HostView)
    requires
        mapping.force_as_scalar,
        mapping.ty.expression.leaf() is Ok,
    ensures
        mapping.expansion(host) == Ok::<Seq<char>, Diagnostic>(mapping.scalar_expansion(host)),
{
}

/// The accessor of a field mapping is a method named `field_` and the last
/// segment of the key path, for every segment that is no raw identifier. Of
/// a raw identifier the `r#` is left out.
pub proof fn lemma_field_method_name(mapping: FieldInputView, host: HostView)
    ensures
        !is_raw(mapping.key_path.last()) ==> mapping.method_name() == "field_"@
            + mapping.key_path.last(),
        is_raw(mapping.key_path.last()) ==> mapping.method_name() == "field_"@
            + mapping.key_path.last().subrange(2, mapping.key_path.last().len() as int),
        mapping.expansion(host) matches Ok(text) ==> ("fn "@ + mapping.method_name() + "("@).is_prefix_of(
            text,
        ),
{
    reveal_strlit("(");
    reveal_strlit("(&self, _: &");
}

/// A text has at least one piece of a key path.
pub proof fn lemma_pieces_are_not_empty(s: Seq<char>, from: int, to: int)
    ensures
        pieces_in(s, from, to).len() > 0,
{
}

/// A text whose first piece is empty holds no key path: it is refused at
/// that piece, whatever the parser answers.
pub proof fn lemma_empty_key_path_is_refused(
    s: Seq<char>,
    names: Seq<Option<Seq<char>>>,
    ty: Option<TypeTree>,
)
    requires
        field_pieces(s)[0].start >= field_pieces(s)[0].end,
    ensures
        field_reading(s, names, ty) == Err::<FieldInputView, Diagnostic>(
            Diagnostic {
                kind: ErrorKind::MalformedKeyPath,
                start: field_pieces(s)[0].start,
                end: field_pieces(s)[0].end,
            },
        ),
{
    lemma_pieces_are_not_empty(s, 0, head_end(s));
}

/// A text without `->` whose leading dotted path is a key path is refused
/// for the missing arrow, at what follows that path.
pub proof fn lemma_missing_arrow_is_refused(
    s: Seq<char>,
    names: Seq<Option<Seq<char>>>,
    ty: Option<TypeTree>,
)
    requires
        arrow_from(s, 0) >= s.len(),
        key_path_of(pieces_in(s, 0, path_end(s, 0, s.len() as int)), names, 0) is Ok,
    ensures
        field_reading(s, names, ty) == Err::<FieldInputView, Diagnostic>(
            arrow_missing(s, skip_spaces(s, path_end(s, 0, s.len() as int), s.len() as int)),
        ),
        field_reading(s, names, ty)->Err_0.kind == ErrorKind::ExpectedArrow,
{
}

/// A text with `->` whose key path has a piece in which the parser found no
/// identifier is refused for its key path.
pub proof fn lemma_faulty_key_path_is_refused(
    s: Seq<char>,
    names: Seq<Option<Seq<char>>>,
    ty: Option<TypeTree>,
)
    requires
        key_path_of(field_pieces(s), names, 0) is Err,
    ensures
        field_reading(s, names, ty) matches Err(diagnostic) && diagnostic.kind
            == ErrorKind::MalformedKeyPath,
{
    lemma_key_path_refusal(field_pieces(s), names, 0);
}

/// A key path is refused for no other reason than a piece of it.
pub proof fn lemma_key_path_refusal(pieces: Seq<Piece>, names: Seq<Option<Seq<char>>>, i: int)
    ensures
        key_path_of(pieces, names, i) matches Err(diagnostic) ==> diagnostic.kind
            == ErrorKind::MalformedKeyPath,
        key_path_of(pieces, names, i) matches Ok(path) ==> 0 <= i <= pieces.len() ==> path.len()
            == pieces.len() - i,
    decreases pieces.len() - i,
{
    if 0 <= i < pieces.len() {
        lemma_key_path_refusal(pieces, names, i + 1);
    }
}

/// A mapping that was read has a key path of at least one segment.
pub proof fn lemma_key_path_is_not_empty(
    s: Seq<char>,
    names: Seq<Option<Seq<char>>>,
    ty: Option<TypeTree>,
)
    ensures
        field_reading(s, names, ty) matches Ok(mapping) ==> mapping.well_formed(),
{
    lemma_pieces_are_not_empty(s, 0, head_end(s));
    lemma_key_path_refusal(field_pieces(s), names, 0);
}

/// A text with `->` and nothing but blanks between it and the scalar clause
/// holds no declared type: it is refused there, whatever the parser answers.
pub proof fn lemma_missing_type_is_refused(
    s: Seq<char>,
    names: Seq<Option<Seq<char>>>,
    ty: Option<TypeTree>,
)
    requires
        arrow_from(s, 0) < s.len(),
        key_path_of(field_pieces(s), names, 0) is Ok,
        type_place(s).start >= type_place(s).end,
    ensures
        field_reading(s, names, ty) == Err::<FieldInputView, Diagnostic>(
            Diagnostic {
                kind: ErrorKind::MalformedTypeExpression,
                start: type_place(s).start,
                end: type_place(s).end,
            },
        ),
{
}

/// A text that closes with `as`, blanks and `scalar`, after a character
/// that is of no word, has the scalar clause, and its declared type ends
/// where that `as` begins.
pub proof fn lemma_scalar_clause_is_present(s: Seq<char>, from: int, to: int, at: int)
    requires
        0 <= from <= at,
        to <= s.len(),
        to <= usize::MAX,
        at == from || !is_word(s[at - 1]),
        is_scalar_clause(s, at, to),
    ensures
        tail_of(s, from, to) == (Tail { type_end: at as usize, clause: ScalarClause::Present }),
{
    let (gap, end) = choose|gap: int, end: int|
        at + 2 < gap <= end <= to && s.subrange(at, at + 2) == "as"@ && is_blank(s, at + 2, gap)
            && #[trigger] s.subrange(gap, end) == "scalar"@ && is_blank(s, end, to);
    reveal_strlit("as");
    reveal_strlit("scalar");
    let first = s.subrange(at, at + 2);
    let second = s.subrange(gap, end);
    assert(first[0] == 'a' && first[1] == 's');
    assert(second.len() == 6);
    assert(second[0] == 's' && second[1] == 'c' && second[2] == 'a' && second[3] == 'l'
        && second[4] == 'a' && second[5] == 'r');
    assert forall|i: int| gap <= i < end implies is_word(#[trigger] s[i]) by {
        assert(s[i] == second[i - gap]);
    }
    assert(is_space(s[gap - 1]));
    lemma_trim_end_is(s, from, to, end);
    lemma_word_start_is(s, from, end, gap);
    lemma_trim_end_is(s, from, gap, at + 2);
    lemma_word_start_is(s, from, at + 2, at);
}

/// Splits `text[from..to]` at its dots.
pub fn split_pieces(text: &str, from: usize, to: usize) -> (pieces: Vec<Piece>)
    requires
        from <= to <= text@.len(),
    ensures
        pieces@ == pieces_in(text@, from as int, to as int),
        pieces@.len() > 0,
        forall|i: int|
            0 <= i < pieces@.len() ==> (#[trigger] pieces@[i]).start <= pieces@[i].end
                <= text@.len(),
{
    let mut pieces: Vec<Piece> = Vec::new();
    let mut at: usize = from;
    loop
        invariant
            from <= at <= to <= text@.len(),
            pieces_in(text@, from as int, to as int) == pieces@ + pieces_in(
                text@,
                at as int,
                to as int,
            ),
            forall|i: int|
                0 <= i < pieces@.len() ==> (#[trigger] pieces@[i]).start <= pieces@[i].end
                    <= text@.len(),
        decreases to - at,
    {
        let dot: usize = find_char(text, '.', at, to);
        let piece = trim(text, at, dot);
        let ghost done = pieces@;
        pieces.push(piece);
        if dot < to {
            assert(done + (seq![piece] + pieces_in(text@, dot + 1, to as int)) =~= pieces@
                + pieces_in(text@, dot + 1, to as int));
            at = dot + 1;
        } else {
            assert(done + seq![piece] =~= pieces@);
            return pieces;
        }
    }
}

/// Finds the pieces of the key path of `text`.
pub fn key_path_pieces(text: &str) -> (pieces: Vec<Piece>)
    ensures
        pieces@ == field_pieces(text@),
        pieces@.len() > 0,
        forall|i: int|
            0 <= i < pieces@.len() ==> (#[trigger] pieces@[i]).start <= pieces@[i].end
                <= text@.len(),
{
    let len: usize = text.unicode_len();
    let arrow: usize = find_arrow(text);
    let end: usize = if arrow < len {
        arrow
    } else {
        find_path_end(text, 0, len)
    };
    split_pieces(text, 0, end)
}

/// Makes a key path of what the parser answered about each of `pieces`.
pub fn assemble_key_path(pieces: &Vec<Piece>, names: &Vec<Option<String>>) -> (read: Result<
    Vec<String>,
    Diagnostic,
>)
    ensures
        key_path_result(read) == key_path_of(pieces@, name_answers(names@), 0),
        read matches Ok(path) ==> path@.len() == pieces@.len() && forall|i: int|
            0 <= i < pieces@.len() ==> #[trigger] is_answered(pieces@, name_answers(names@), i)
                && name_answers(names@)[i] == Some(path@[i]@),
        read matches Err(diagnostic) ==> exists|i: int|
            0 <= i < pieces@.len() && !#[trigger] is_answered(pieces@, name_answers(names@), i)
                && diagnostic == (Diagnostic {
                kind: ErrorKind::MalformedKeyPath,
                start: pieces@[i].start,
                end: pieces@[i].end,
            }) && forall|j: int| 0 <= j < i ==> #[trigger] is_answered(
                pieces@,
                name_answers(names@),
                j,
            ),
{
    let ghost answers = name_answers(names@);
    let mut path: Vec<String> = Vec::new();
    let mut i: usize = 0;
    while i < pieces.len()
        invariant
            i <= pieces@.len(),
            path@.len() == i,
            answers == name_answers(names@),
            key_path_of(pieces@, answers, 0) == continued(
                names_of(path@),
                key_path_of(pieces@, answers, i as int),
            ),
            forall|k: int|
                0 <= k < i ==> #[trigger] is_answered(pieces@, answers, k) && answers[k] == Some(
                    path@[k]@,
                ),
        decreases pieces@.len() - i,
    {
        let piece = pieces[i];
        let found: Option<String> = if piece.start < piece.end && i < names.len() {
            match &names[i] {
                Some(name) => Some(name.clone()),
                None => None,
            }
        } else {
            None
        };
        match found {
            Some(name) => {
                let ghost done = names_of(path@);
                assert(is_answered(pieces@, answers, i as int) && answers[i as int] == Some(name@));
                path.push(name);
                proof {
                    assert(names_of(path@) =~= done + seq![name@]);
                    if let Ok(rest) = key_path_of(pieces@, answers, i + 1) {
                        assert(done + (seq![name@] + rest) =~= (done + seq![name@]) + rest);
                    }
                }
                i += 1;
            },
            None => {
                assert(!is_answered(pieces@, answers, i as int));
                return Err(
                    Diagnostic {
                        kind: ErrorKind::MalformedKeyPath,
                        start: piece.start,
                        end: piece.end,
                    },
                );
            },
        }
    }
    assert(names_of(path@) + Seq::<Seq<char>>::empty() =~= names_of(path@));
    Ok(path)
}

/// Finds where the declared type in `text[from..to]` ends and what follows
/// it. The clause is present exactly where the text closes with `as`, blanks
/// and `scalar`, after a character that is of no word; the declared type
/// then ends where that `as` begins.
pub fn read_tail(text: &str, from: usize, to: usize) -> (tail: Tail)
    requires
        from <= to <= text@.len(),
    ensures
        tail == tail_of(text@, from as int, to as int),
        from <= tail.type_end <= to,
        tail.clause == ScalarClause::Present <==> exists|at: int|
            from <= at && (at == from || !is_word(text@[at - 1])) && #[trigger] is_scalar_clause(
                text@,
                at,
                to as int,
            ),
        tail.clause == ScalarClause::Present ==> is_scalar_clause(
            text@,
            tail.type_end as int,
            to as int,
        ) && (tail.type_end == from || !is_word(text@[tail.type_end - 1])),
        tail.clause == ScalarClause::Absent ==> tail.type_end == to,
{
    proof {
        assert forall|at: int|
            from <= at && (at == from || !is_word(text@[at - 1])) && #[trigger] is_scalar_clause(
                text@,
                at,
                to as int,
            ) implies tail_of(text@, from as int, to as int).clause == ScalarClause::Present by {
            lemma_scalar_clause_is_present(text@, from as int, to as int, at);
        }
    }
    let last_end: usize = trim_space_chars(text, from, to);
    let last_start: usize = find_word_start(text, from, last_end);
    let before_end: usize = trim_space_chars(text, from, last_start);
    let before_start: usize = find_word_start(text, from, before_end);
    if spells(text, last_start, last_end, "as") {
        Tail {
            type_end: last_start,
            clause: ScalarClause::Unexpected { start: last_end, end: last_end },
        }
    } else if last_start < last_end && before_end < last_start && spells(
        text,
        before_start,
        before_end,
        "as",
    ) {
        if spells(text, last_start, last_end, "scalar") {
            proof {
                reveal_strlit("as");
                assert(text@.subrange(before_start as int, before_end as int).len() == 2);
                assert(is_blank(text@, before_start + 2, last_start as int));
                assert(text@.subrange(last_start as int, last_end as int) == "scalar"@);
                assert(is_scalar_clause(text@, before_start as int, to as int));
            }
            Tail { type_end: before_start, clause: ScalarClause::Present }
        } else {
            Tail {
                type_end: before_start,
                clause: ScalarClause::Unexpected { start: last_start, end: last_end },
            }
        }
    } else {
        Tail { type_end: to, clause: ScalarClause::Absent }
    }
}

/// Joins the segments of a key path with dots.
pub fn join_key_path(path: &Vec<String>) -> (text: String)
    ensures
        text@ == dotted(names_of(path@)),
{
    let mut text = String::new();
    let mut i: usize = 0;
    while i < path.len()
        invariant
            i <= path.len(),
            text@ == dotted(names_of(path@).subrange(0, i as int)),
        decreases path.len() - i,
    {
        let ghost before = names_of(path@).subrange(0, i as int);
        let ghost after = names_of(path@).subrange(0, i + 1);
        assert(after.drop_last() =~= before);
        if i == 0 {
            text = path[i].clone();
        } else {
            text.append(".");
            text.append(path[i].as_str());
        }
        i += 1;
    }
    assert(names_of(path@).subrange(0, path.len() as int) =~= names_of(path@));
    text
}

impl FieldInput {
    /// A key path has at least one segment.
    pub open spec fn well_formed(&self) -> bool {
        self.key_path@.len() > 0
    }

    /// Makes a field mapping of `input` and of what the parser answered:
    /// `names` about the pieces of the key path, one answer for each piece,
    /// and `ty` about the declared type.
    pub fn assemble(input: &str, names: &Vec<Option<String>>, ty: Option<TypeExpression>) -> (read:
        Result<FieldInput, Diagnostic>)
        ensures
            field_result(read) == field_reading(input@, name_answers(names@), type_answer(ty)),
            read matches Ok(mapping) ==> mapping.well_formed(),
    {
        let len: usize = input.unicode_len();
        let pieces = key_path_pieces(input);
        let key_path = match assemble_key_path(&pieces, names) {
            Ok(key_path) => key_path,
            Err(diagnostic) => { return Err(diagnostic); },
        };
        let arrow: usize = find_arrow(input);
        if arrow >= len {
            let end: usize = find_path_end(input, 0, len);
            return Err(missing_arrow(input, skip_space_chars(input, end, len)));
        }
        let tail = read_tail(input, arrow + 2, len);
        let ty = match DeclaredType::from_answer(input, arrow + 2, tail.type_end, ty) {
            Ok(ty) => ty,
            Err(diagnostic) => { return Err(diagnostic); },
        };
        match tail.clause {
            ScalarClause::Absent => Ok(FieldInput { key_path, ty, force_as_scalar: false }),
            ScalarClause::Present => Ok(FieldInput { key_path, ty, force_as_scalar: true }),
            ScalarClause::Unexpected { start, end } => Err(
                Diagnostic { kind: ErrorKind::UnexpectedScalarKeyword, start, end },
            ),
        }
    }

    /// Reads a field mapping from `input`: identifiers with dots between
    /// them, `->`, a type path, and then perhaps `as scalar`. The parser is
    /// asked about each piece of the key path and about the declared type,
    /// and the mapping is made of its answers.
    pub fn parse(input: &str) -> (read: Result<FieldInput, Diagnostic>)
        ensures
            exists|names: Seq<Option<Seq<char>>>, ty: Option<TypeTree>|
                field_result(read) == #[trigger] field_reading(input@, names, ty),
            read matches Ok(mapping) ==> mapping.well_formed(),
    {
        let len: usize = input.unicode_len();
        let pieces = key_path_pieces(input);
        let mut names: Vec<Option<String>> = Vec::new();
        let mut i: usize = 0;
        while i < pieces.len()
            invariant
                i <= pieces@.len(),
                forall|k: int|
                    0 <= k < pieces@.len() ==> (#[trigger] pieces@[k]).start <= pieces@[k].end
                        <= input@.len(),
            decreases pieces@.len() - i,
        {
            let piece = pieces[i];
            names.push(ask_identifier(input, piece.start, piece.end));
            i += 1;
        }
        let arrow: usize = find_arrow(input);
        let ty = if arrow < len {
            let tail = read_tail(input, arrow + 2, len);
            let place = trim(input, arrow + 2, tail.type_end);
            ask_type_path(input, place.start, place.end)
        } else {
            None
        };
        let ghost answers = (name_answers(names@), type_answer(ty));
        let read = FieldInput::assemble(input, &names, ty);
        assert(field_result(read) == field_reading(input@, answers.0, answers.1));
        read
    }

    /// The name of the accessor method.
    pub fn resolver_method_name(&self) -> (name: String)
        requires
            self.well_formed(),
        ensures
            name@ == self@.method_name(),
    {
        write_accessor_name(self.key_path[self.key_path.len() - 1].as_str())
    }

    /// Whether the leaf of the declared type is a built-in scalar.
    pub fn is_scalar(&self) -> (scalar: Result<bool, Diagnostic>)
        ensures
            scalar == self@.is_scalar(),
    {
        match inner_most_type_name(&self.ty.expression) {
            Ok(leaf) => Ok(is_builtin(leaf.as_str())),
            Err(kind) => Err(self.ty.refused(kind)),
        }
    }

    /// Writes the accessor without a traversal guard.
    pub fn expand_to_scalar(&self, host: &Host) -> (text: String)
        requires
            self.well_formed(),
        ensures
            text@ == self@.scalar_expansion(host@),
    {
        let name = self.resolver_method_name();
        let path = join_key_path(&self.key_path);
        scalar_stub(host, name.as_str(), self.ty.source.as_str(), path.as_str())
    }

    /// Writes the accessor with a traversal guard over the leaf of the
    /// declared type.
    pub fn expand_to_type(&self, host: &Host) -> (written: Result<String, Diagnostic>)
        requires
            self.well_formed(),
        ensures
            text_result(written) == self@.object_expansion(host@),
    {
        let name = self.resolver_method_name();
        let path = join_key_path(&self.key_path);
        match inner_most_type_name(&self.ty.expression) {
            Ok(leaf) => Ok(
                object_stub(
                    host,
                    name.as_str(),
                    leaf.as_str(),
                    self.ty.source.as_str(),
                    path.as_str(),
                ),
            ),
            Err(kind) => Err(self.ty.refused(kind)),
        }
    }

    /// Writes the accessor of this mapping.
    pub fn expand(&self, host: &Host) -> (written: Result<String, Diagnostic>)
        requires
            self.well_formed(),
        ensures
            text_result(written) == self@.expansion(host@),
    {
        match self.is_scalar() {
            Ok(scalar) => if scalar || self.force_as_scalar {
                Ok(self.expand_to_scalar(host))
            } else {
                self.expand_to_type(host)
            },
            Err(diagnostic) => Err(diagnostic),
        }
    }
}

/// Reads a field mapping from `input` and writes its accessor for `host`:
/// the accessor of the mapping that is made of the answers of the parser.
pub fn expand_for(input: &str, host: &Host) -> (written: Result<String, Diagnostic>)
    ensures
        exists|names: Seq<Option<Seq<char>>>, ty: Option<TypeTree>|
            text_result(written) == #[trigger] field_expansion(input@, host@, names, ty),
{
    let read = FieldInput::parse(input);
    let ghost answers = choose|names: Seq<Option<Seq<char>>>, ty: Option<TypeTree>|
        field_result(read) == #[trigger] field_reading(input@, names, ty);
    let written = match read {
        Ok(mapping) => mapping.expand(host),
        Err(diagnostic) => Err(diagnostic),
    };
    assert(text_result(written) == field_expansion(input@, host@, answers.0, answers.1));
    written
}

/// Reads a field mapping from `input` and writes its accessor for Juniper.
pub fn expand(input: &str) -> (written: Result<String, Diagnostic>)
    ensures
        exists|names: Seq<Option<Seq<char>>>, ty: Option<TypeTree>|
            text_result(written) == #[trigger] field_expansion(
                input@,
                HostView::juniper(),
                names,
                ty,
            ),
{
    expand_for(input, &Host::juniper())
}

} // verus!
