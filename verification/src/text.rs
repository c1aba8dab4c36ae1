//! Scanning a text by characters: where a character first occurs, where the
//! blanks end, where the last word begins.

use crate::diagnostic::{Diagnostic, ErrorKind, Piece};
use vstd::prelude::*;
use vstd::string::*;

verus! {

/// A blank between two tokens.
pub open spec fn is_space(c: char) -> bool {
    c == ' ' || c == '\t' || c == '\n' || c == '\r'
}

/// A character of a word: a letter, a digit, `_`, the `#` of a raw
/// identifier, or any character outside ASCII.
pub open spec fn is_word(c: char) -> bool {
    ||| 'a' <= c <= 'z'
    ||| 'A' <= c <= 'Z'
    ||| '0' <= c <= '9'
    ||| c == '_'
    ||| c == '#'
    ||| c > '\x7f'
}

/// The first place in `s[from..to]` that holds `c`, or `to` where none does.
pub open spec fn position_of(s: Seq<char>, c: char, from: int, to: int) -> int
    decreases to - from,
{
    if from >= to {
        to
    } else if s[from] == c {
        from
    } else {
        position_of(s, c, from + 1, to)
    }
}

/// The first place in `s[from..to]` that holds no blank, or `to`.
pub open spec fn skip_spaces(s: Seq<char>, from: int, to: int) -> int
    decreases to - from,
{
    if from >= to {
        to
    } else if is_space(s[from]) {
        skip_spaces(s, from + 1, to)
    } else {
        from
    }
}

/// The end of `s[from..to]` once the blanks at its end are taken off.
pub open spec fn trim_end(s: Seq<char>, from: int, to: int) -> int
    decreases to - from,
{
    if to <= from {
        from
    } else if is_space(s[to - 1]) {
        trim_end(s, from, to - 1)
    } else {
        to
    }
}

/// Where the word begins that ends at `to`, looking no further back than
/// `from`. It is `to` itself where no word ends there.
pub open spec fn word_start(s: Seq<char>, from: int, to: int) -> int
    decreases to - from,
{
    if to <= from {
        from
    } else if is_word(s[to - 1]) {
        word_start(s, from, to - 1)
    } else {
        to
    }
}

/// The place of `s[from..to]` without the blanks around it.
pub open spec fn trimmed(s: Seq<char>, from: int, to: int) -> Piece {
    let start = skip_spaces(s, from, to);
    Piece { start: start as usize, end: trim_end(s, start, to) as usize }
}

/// Whether `->` stands at `at`.
pub open spec fn arrow_at(s: Seq<char>, at: int) -> bool {
    0 <= at && at + 1 < s.len() && s[at] == '-' && s[at + 1] == '>'
}

/// The diagnostic for a `->` that is missing at `at`: it is about the two
/// characters there, as far as the text has them.
pub open spec fn arrow_missing(s: Seq<char>, at: int) -> Diagnostic {
    Diagnostic {
        kind: ErrorKind::ExpectedArrow,
        start: at as usize,
        end: if at + 2 <= s.len() {
            (at + 2) as usize
        } else {
            s.len() as usize
        },
    }
}

/// The first place at or after `from` where `->` stands, or the length of
/// `s` where it stands nowhere.
pub open spec fn arrow_from(s: Seq<char>, from: int) -> int
    decreases s.len() - from,
{
    if from >= s.len() {
        s.len() as int
    } else if arrow_at(s, from) {
        from
    } else {
        arrow_from(s, from + 1)
    }
}

/// The first place in `s[from..to]` that holds no character of a word, or
/// `to`.
pub open spec fn word_end(s: Seq<char>, from: int, to: int) -> int
    decreases to - from,
{
    if from >= to {
        to
    } else if is_word(s[from]) {
        word_end(s, from + 1, to)
    } else {
        from
    }
}

/// Where the dotted path ends that `s[from..to]` begins with: words with
/// dots between them, and blanks around the dots.
pub open spec fn path_end(s: Seq<char>, from: int, to: int) -> int
    decreases to - from,
{
    let end = word_end(s, skip_spaces(s, from, to), to);
    let dot = skip_spaces(s, end, to);
    if from <= dot < to && s[dot] == '.' {
        path_end(s, dot + 1, to)
    } else {
        end
    }
}

/// A text without a quotation mark, a character in single quotes or a
/// slash: it holds no literal but a number, and no comment.
pub open spec fn is_plain(s: Seq<char>) -> bool {
    forall|i: int| 0 <= i < s.len() ==> !quotes_at(s, i)
}

/// Whether a quotation mark or a slash stands at `i`, or a single quote
/// that opens a character: one that a backslash follows, or that closes two
/// places on.
pub open spec fn quotes_at(s: Seq<char>, i: int) -> bool {
    ||| s[i] == '"'
    ||| s[i] == '/'
    ||| s[i] == '\'' && i + 1 < s.len() && s[i + 1] == '\\'
    ||| s[i] == '\'' && i + 2 < s.len() && s[i + 2] == '\''
}

/// Whether `s[from..to]` holds nothing but blanks.
pub open spec fn is_blank(s: Seq<char>, from: int, to: int) -> bool {
    forall|i: int| from <= i < to ==> is_space(#[trigger] s[i])
}

/// The blanks at the end of a range end where a character that is no
/// blank stands before nothing but blanks.
pub proof fn lemma_trim_end_is(s: Seq<char>, from: int, to: int, end: int)
    requires
        from <= end <= to,
        is_blank(s, end, to),
        end == from || !is_space(s[end - 1]),
    ensures
        trim_end(s, from, to) == end,
    decreases to - end,
{
    if end < to {
        lemma_trim_end_is(s, from, to - 1, end);
    }
}

/// The word at the end of a range begins where a character that is of no
/// word stands before nothing but characters of words.
pub proof fn lemma_word_start_is(s: Seq<char>, from: int, to: int, start: int)
    requires
        from <= start <= to,
        forall|i: int| start <= i < to ==> is_word(#[trigger] s[i]),
        start == from || !is_word(s[start - 1]),
    ensures
        word_start(s, from, to) == start,
    decreases to - start,
{
    if start < to {
        lemma_word_start_is(s, from, to - 1, start);
    }
}

/// Whether `c` is a blank.
pub fn is_space_char(c: char) -> (blank: bool)
    ensures
        blank == is_space(c),
{
    c == ' ' || c == '\t' || c == '\n' || c == '\r'
}

/// Whether `c` is a character of a word.
pub fn is_word_char(c: char) -> (inside: bool)
    ensures
        inside == is_word(c),
{
    ('a' <= c && c <= 'z') || ('A' <= c && c <= 'Z') || ('0' <= c && c <= '9') || c == '_' || c
        == '#' || c > '\x7f'
}

/// Finds the first `c` in `text[from..to]`: no character before the place
/// returned is `c`, and the one there is, unless the place is `to`.
pub fn find_char(text: &str, c: char, from: usize, to: usize) -> (at: usize)
    requires
        from <= to <= text@.len(),
    ensures
        at == position_of(text@, c, from as int, to as int),
        from <= at <= to,
        at < to ==> text@[at as int] == c,
        forall|i: int| from <= i < at ==> text@[i] != c,
{
    let mut at: usize = from;
    while at < to && text.get_char(at) != c
        invariant
            from <= at <= to <= text@.len(),
            position_of(text@, c, from as int, to as int) == position_of(
                text@,
                c,
                at as int,
                to as int,
            ),
            forall|i: int| from <= i < at ==> text@[i] != c,
        decreases to - at,
    {
        at += 1;
    }
    at
}

/// Skips the blanks at the start of `text[from..to]`: what lies before the
/// place returned is blank, and the character there is not, unless the place
/// is `to`.
pub fn skip_space_chars(text: &str, from: usize, to: usize) -> (at: usize)
    requires
        from <= to <= text@.len(),
    ensures
        at == skip_spaces(text@, from as int, to as int),
        from <= at <= to,
        at < to ==> !is_space(text@[at as int]),
        is_blank(text@, from as int, at as int),
{
    let mut at: usize = from;
    while at < to && is_space_char(text.get_char(at))
        invariant
            from <= at <= to <= text@.len(),
            skip_spaces(text@, from as int, to as int) == skip_spaces(text@, at as int, to as int),
            is_blank(text@, from as int, at as int),
        decreases to - at,
    {
        at += 1;
    }
    at
}

/// Takes the blanks off the end of `text[from..to]`: what lies after the
/// place returned is blank, and the character before it is not, unless the
/// place is `from`.
pub fn trim_space_chars(text: &str, from: usize, to: usize) -> (end: usize)
    requires
        from <= to <= text@.len(),
    ensures
        end == trim_end(text@, from as int, to as int),
        from <= end <= to,
        from < end ==> !is_space(text@[end - 1]),
        is_blank(text@, end as int, to as int),
{
    let mut end: usize = to;
    while from < end && is_space_char(text.get_char(end - 1))
        invariant
            from <= end <= to <= text@.len(),
            trim_end(text@, from as int, to as int) == trim_end(text@, from as int, end as int),
            is_blank(text@, end as int, to as int),
        decreases end - from,
    {
        end -= 1;
    }
    end
}

/// Finds where the word that ends at `to` begins: what lies after the place
/// returned is made of word characters, and the character before it is none,
/// unless the place is `from`.
pub fn find_word_start(text: &str, from: usize, to: usize) -> (start: usize)
    requires
        from <= to <= text@.len(),
    ensures
        start == word_start(text@, from as int, to as int),
        from <= start <= to,
        from < start ==> !is_word(text@[start - 1]),
        forall|i: int| start <= i < to ==> is_word(text@[i]),
{
    let mut start: usize = to;
    while from < start && is_word_char(text.get_char(start - 1))
        invariant
            from <= start <= to <= text@.len(),
            word_start(text@, from as int, to as int) == word_start(
                text@,
                from as int,
                start as int,
            ),
            forall|i: int| start <= i < to ==> is_word(text@[i]),
        decreases start - from,
    {
        start -= 1;
    }
    start
}

/// Finds where the word that begins at `from` ends: what lies before the
/// place returned is made of word characters, and the character there is
/// none, unless the place is `to`.
pub fn find_word_end(text: &str, from: usize, to: usize) -> (end: usize)
    requires
        from <= to <= text@.len(),
    ensures
        end == word_end(text@, from as int, to as int),
        from <= end <= to,
        end < to ==> !is_word(text@[end as int]),
        forall|i: int| from <= i < end ==> is_word(text@[i]),
{
    let mut end: usize = from;
    while end < to && is_word_char(text.get_char(end))
        invariant
            from <= end <= to <= text@.len(),
            word_end(text@, from as int, to as int) == word_end(text@, end as int, to as int),
            forall|i: int| from <= i < end ==> is_word(text@[i]),
        decreases to - end,
    {
        end += 1;
    }
    end
}

/// Finds where the dotted path ends that `text[from..to]` begins with: no
/// character of a word stands at the place returned, and what follows it
/// after the blanks is no dot.
pub fn find_path_end(text: &str, from: usize, to: usize) -> (end: usize)
    requires
        from <= to <= text@.len(),
    ensures
        end == path_end(text@, from as int, to as int),
        from <= end <= to,
        end < to ==> !is_word(text@[end as int]),
        skip_spaces(text@, end as int, to as int) < to ==> text@[skip_spaces(
            text@,
            end as int,
            to as int,
        )] != '.',
{
    let mut at: usize = from;
    loop
        invariant
            from <= at <= to <= text@.len(),
            path_end(text@, from as int, to as int) == path_end(text@, at as int, to as int),
        decreases to - at,
    {
        let start: usize = skip_space_chars(text, at, to);
        let end: usize = find_word_end(text, start, to);
        let dot: usize = skip_space_chars(text, end, to);
        if dot < to && text.get_char(dot) == '.' {
            at = dot + 1;
        } else {
            return end;
        }
    }
}

/// Finds the first `->` in `text`: it stands at the place returned and
/// nowhere before it, unless the place is the length of `text`.
pub fn find_arrow(text: &str) -> (at: usize)
    ensures
        at == arrow_from(text@, 0),
        at <= text@.len(),
        at < text@.len() ==> arrow_at(text@, at as int),
        forall|i: int| 0 <= i < at ==> !arrow_at(text@, i),
{
    let len: usize = text.unicode_len();
    let mut at: usize = 0;
    while at < len
        invariant
            at <= len == text@.len(),
            arrow_from(text@, 0) == arrow_from(text@, at as int),
            forall|i: int| 0 <= i < at ==> !arrow_at(text@, i),
        decreases len - at,
    {
        if len - at >= 2 && text.get_char(at) == '-' && text.get_char(at + 1) == '>' {
            return at;
        }
        at += 1;
    }
    at
}

/// Whether `text[from..to]` is plain.
pub fn is_plain_text(text: &str, from: usize, to: usize) -> (plain: bool)
    requires
        from <= to <= text@.len(),
    ensures
        plain == is_plain(text@.subrange(from as int, to as int)),
{
    let ghost part = text@.subrange(from as int, to as int);
    let mut at: usize = from;
    while at < to
        invariant
            from <= at <= to <= text@.len(),
            part == text@.subrange(from as int, to as int),
            forall|i: int| 0 <= i < at - from ==> !quotes_at(part, i),
        decreases to - at,
    {
        let c = text.get_char(at);
        let quoted = c == '"' || c == '/' || (c == '\'' && ((to - at > 1 && text.get_char(at + 1)
            == '\\') || (to - at > 2 && text.get_char(at + 2) == '\'')));
        assert(quoted == quotes_at(part, at - from));
        if quoted {
            return false;
        }
        at += 1;
    }
    true
}

/// Finds the place of `text[from..to]` without the blanks around it.
pub fn trim(text: &str, from: usize, to: usize) -> (place: Piece)
    requires
        from <= to <= text@.len(),
    ensures
        place == trimmed(text@, from as int, to as int),
        from <= place.start <= place.end <= to,
{
    let start: usize = skip_space_chars(text, from, to);
    Piece { start, end: trim_space_chars(text, start, to) }
}

/// Makes the diagnostic for a `->` that is missing at `at`.
pub fn missing_arrow(text: &str, at: usize) -> (diagnostic: Diagnostic)
    requires
        at <= text@.len(),
    ensures
        diagnostic == arrow_missing(text@, at as int),
{
    let len: usize = text.unicode_len();
    let end: usize = if len - at >= 2 {
        at + 2
    } else {
        len
    };
    Diagnostic { kind: ErrorKind::ExpectedArrow, start: at, end }
}

/// Whether the characters `text[from..to]` spell `word`.
pub fn spells(text: &str, from: usize, to: usize, word: &str) -> (same: bool)
    requires
        from <= to <= text@.len(),
    ensures
        same == (text@.subrange(from as int, to as int) == word@),
{
    let len: usize = word.unicode_len();
    if to - from != len {
        return false;
    }
    let mut i: usize = 0;
    while i < len
        invariant
            from <= to <= text@.len(),
            to - from == len == word@.len(),
            i <= len,
            forall|j: int| 0 <= j < i ==> text@[from + j] == word@[j],
        decreases len - i,
    {
        if text.get_char(from + i) != word.get_char(i) {
            return false;
        }
        i += 1;
    }
    assert(text@.subrange(from as int, to as int) =~= word@);
    true
}

/// Whether `text` as a whole spells `word`.
pub fn same_text(text: &str, word: &str) -> (same: bool)
    ensures
        same == (text@ == word@),
{
    let len: usize = text.unicode_len();
    assert(text@.subrange(0, len as int) =~= text@);
    spells(text, 0, len, word)
}

} // verus!
