use juniper_from_schema_helpers::field::{
    assemble_key_path, join_key_path, key_path_pieces, read_tail, split_pieces,
    write_accessor_name, ScalarClause, Tail,
};
use juniper_from_schema_helpers::syntax::{ask_identifier, ask_type_path};
use juniper_from_schema_helpers::text::{
    find_arrow, find_char, find_path_end, find_word_end, find_word_start, is_plain_text,
    is_space_char, is_word_char, missing_arrow, same_text, skip_space_chars, spells, trim,
    trim_space_chars,
};
use juniper_from_schema_helpers::{DeclaredType, Diagnostic, ErrorKind, Piece, TypeExpression};

#[test]
fn blanks_are_space_tab_and_line_ends() {
    for c in [' ', '\t', '\n', '\r'] {
        assert!(is_space_char(c));
    }
    for c in ['a', '_', '-', '.', '\u{a0}', '\u{2028}', '\0'] {
        assert!(!is_space_char(c));
    }
}

#[test]
fn words_are_made_of_letters_digits_underscores_and_what_is_not_ascii() {
    for c in ['a', 'z', 'A', 'Z', '0', '9', '_', '#', 'ü', '\u{80}', '\u{10ffff}'] {
        assert!(is_word_char(c));
    }
    for c in ['`', '{', '@', '[', '/', ':', ' ', '-', '>', '<', '.', '$', '"', '\'', '\x7f'] {
        assert!(!is_word_char(c));
    }
}

#[test]
fn find_char_gives_the_first_place_or_the_end() {
    assert_eq!(find_char("a.b.c", '.', 0, 5), 1);
    assert_eq!(find_char("a.b.c", '.', 2, 5), 3);
    assert_eq!(find_char("a.b.c", '.', 4, 5), 5);
    assert_eq!(find_char("a.b.c", '.', 0, 1), 1);
    assert_eq!(find_char("a.b.c", '.', 1, 1), 1);
    assert_eq!(find_char("", '.', 0, 0), 0);
    assert_eq!(find_char("tür-x", '-', 0, 5), 3);
}

#[test]
fn blanks_are_skipped_from_both_ends() {
    assert_eq!(skip_space_chars("  ab  ", 0, 6), 2);
    assert_eq!(skip_space_chars("  ab  ", 2, 6), 2);
    assert_eq!(skip_space_chars("  ab  ", 4, 6), 6);
    assert_eq!(skip_space_chars(" \t\r\n", 0, 4), 4);
    assert_eq!(trim_space_chars("  ab  ", 0, 6), 4);
    assert_eq!(trim_space_chars("  ab  ", 0, 2), 0);
    assert_eq!(trim_space_chars("  ab  ", 2, 3), 3);
    assert_eq!(trim_space_chars("", 0, 0), 0);
}

#[test]
fn word_start_looks_back_over_one_word() {
    assert_eq!(find_word_start("Vec<T> as scalar", 0, 16), 10);
    assert_eq!(find_word_start("Vec<T> as scalar", 0, 9), 7);
    assert_eq!(find_word_start("Vec<T> as scalar", 0, 6), 6);
    assert_eq!(find_word_start("Vec<T> as scalar", 12, 16), 12);
    assert_eq!(find_word_start("scalar", 0, 6), 0);
}

#[test]
fn arrow_is_a_dash_and_a_greater_than_sign() {
    assert_eq!(find_arrow("a->b"), 1);
    assert_eq!(find_arrow("a - > b->c->d"), 7);
    assert_eq!(find_arrow("->"), 0);
    assert_eq!(find_arrow("a-"), 2);
    assert_eq!(find_arrow("a>-b"), 4);
    assert_eq!(find_arrow(""), 0);
    let missing = |start, end| Diagnostic { kind: ErrorKind::ExpectedArrow, start, end };
    assert_eq!(missing_arrow("a=>b", 1), missing(1, 3));
    assert_eq!(missing_arrow("a-", 1), missing(1, 2));
    assert_eq!(missing_arrow("a", 1), missing(1, 1));
}

#[test]
fn word_end_and_path_end_look_forward() {
    assert_eq!(find_word_end("foo.bar baz", 0, 11), 3);
    assert_eq!(find_word_end("foo.bar baz", 4, 11), 7);
    assert_eq!(find_word_end("foo.bar baz", 3, 11), 3);
    assert_eq!(find_word_end("foo", 0, 3), 3);
    assert_eq!(find_path_end("foo.bar baz", 0, 11), 7);
    assert_eq!(find_path_end("  foo . bar  baz", 0, 16), 11);
    assert_eq!(find_path_end("foo. ", 0, 5), 5);
    assert_eq!(find_path_end("foo bar.baz", 0, 11), 3);
    assert_eq!(find_path_end(".foo", 0, 4), 4);
    assert_eq!(find_path_end("", 0, 0), 0);
    assert_eq!(find_path_end("  ", 0, 2), 2);
}

#[test]
fn plain_text_holds_no_quotes_and_no_slash() {
    for text in ["", "Vec<User>", "Cow<'a, str>", "&'a T", "Array<u8, 4>", "Foo<'_>", "a'b"] {
        assert!(is_plain_text(text, 0, text.chars().count()));
    }
    for text in ["\"", "c\"x\"", "'a'", "b'x'", "'\\n'", "a/b", "(/*ERROR*/)", "x'\\"] {
        assert!(!is_plain_text(text, 0, text.chars().count()));
    }
    assert!(is_plain_text("\"Vec<T>\"", 1, 7));
    assert!(!is_plain_text("<'a'>", 1, 4));
    assert!(is_plain_text("<'a'>", 1, 3));
}

#[test]
fn trim_gives_the_place_between_the_blanks() {
    assert_eq!(trim("  ab  ", 0, 6), Piece { start: 2, end: 4 });
    assert_eq!(trim("  ab  ", 0, 2), Piece { start: 2, end: 2 });
    assert_eq!(trim("  a b  ", 1, 6), Piece { start: 2, end: 5 });
    assert_eq!(trim("", 0, 0), Piece { start: 0, end: 0 });
}

#[test]
fn spells_compares_a_part_of_the_text() {
    assert!(spells("T as scalar", 2, 4, "as"));
    assert!(spells("T as scalar", 5, 11, "scalar"));
    assert!(!spells("T as scalar", 5, 10, "scalar"));
    assert!(!spells("T as scalar", 2, 4, "aS"));
    assert!(spells("T as scalar", 3, 3, ""));
}

#[test]
fn same_text_compares_whole_texts() {
    assert!(same_text("ID", "ID"));
    assert!(!same_text("ID", "Id"));
    assert!(!same_text("ID", "IDs"));
    assert!(same_text("", ""));
}

#[test]
fn parser_is_asked_for_identifiers() {
    assert_eq!(ask_identifier("  foo  ", 2, 5), Some("foo".to_string()));
    assert_eq!(ask_identifier("a.bar.c", 2, 5), Some("bar".to_string()));
    assert_eq!(ask_identifier("_x1", 0, 3), Some("_x1".to_string()));
    assert_eq!(ask_identifier("Tür", 0, 3), Some("Tür".to_string()));
    assert_eq!(ask_identifier("foo /* note */", 0, 14), Some("foo".to_string()));
    assert_eq!(ask_identifier("r#type", 0, 6), Some("r#type".to_string()));
    assert_eq!(ask_identifier("foo", 1, 1), None);
    assert_eq!(ask_identifier("", 0, 0), None);
    assert_eq!(ask_identifier("_", 0, 1), None);
    assert_eq!(ask_identifier("fn", 0, 2), None);
    assert_eq!(ask_identifier("a b", 0, 3), None);
    assert_eq!(ask_identifier("a.b", 0, 3), None);
    assert_eq!(ask_identifier("\"a\"", 0, 3), None);
    assert_eq!(ask_identifier("c\"a\"", 0, 4), None);
    assert_eq!(ask_identifier("(", 0, 1), None);
}

#[test]
fn parser_is_asked_for_plain_type_paths_only() {
    let named = |name: &str| TypeExpression::Named { name: name.to_string() };
    assert_eq!(ask_type_path("x -> i32", 5, 8), Some(named("i32")));
    assert_eq!(ask_type_path("x -> i32", 5, 5), None);
    assert_eq!(ask_type_path("&i32", 0, 4), None);
    assert_eq!(ask_type_path("Foo<c\"a\">", 0, 9), None);
    assert_eq!(ask_type_path("Foo<\"a\">", 0, 8), None);
    assert_eq!(ask_type_path("Foo<'a'>", 0, 8), None);
    assert_eq!(ask_type_path("Foo<(/*ERROR*/)>", 0, 16), None);
    assert!(ask_type_path("Foo<'a, 7>", 0, 10).is_some());
}

#[test]
fn key_path_is_split_at_its_dots() {
    let piece = |start, end| Piece { start, end };
    assert_eq!(split_pieces("foo", 0, 3), vec![piece(0, 3)]);
    assert_eq!(split_pieces("a . b.c -> T", 0, 8), vec![piece(0, 1), piece(4, 5), piece(6, 7)]);
    assert_eq!(split_pieces("a.b.", 0, 4), vec![piece(0, 1), piece(2, 3), piece(4, 4)]);
    assert_eq!(split_pieces("a..b", 0, 4), vec![piece(0, 1), piece(2, 2), piece(3, 4)]);
    assert_eq!(split_pieces("", 0, 0), vec![piece(0, 0)]);
    assert_eq!(key_path_pieces("a.b c -> T"), vec![piece(0, 1), piece(2, 5)]);
    assert_eq!(key_path_pieces("a.b c"), vec![piece(0, 1), piece(2, 3)]);
    assert_eq!(key_path_pieces("-> T"), vec![piece(0, 0)]);
}

#[test]
fn key_path_is_made_of_the_answers() {
    let piece = |start, end| Piece { start, end };
    let some = |name: &str| Some(name.to_string());
    let refused = |start, end| Err(Diagnostic { kind: ErrorKind::MalformedKeyPath, start, end });
    let pieces = vec![piece(0, 1), piece(4, 5)];
    assert_eq!(
        assemble_key_path(&pieces, &vec![some("a"), some("b")]),
        Ok(vec!["a".to_string(), "b".to_string()])
    );
    assert_eq!(assemble_key_path(&pieces, &vec![None, some("b")]), refused(0, 1));
    assert_eq!(assemble_key_path(&pieces, &vec![some("a"), None]), refused(4, 5));
    assert_eq!(assemble_key_path(&pieces, &vec![some("a")]), refused(4, 5));
    assert_eq!(
        assemble_key_path(&vec![piece(0, 1), piece(2, 2)], &vec![some("a"), some("b")]),
        refused(2, 2)
    );
    assert_eq!(assemble_key_path(&vec![], &vec![]), Ok(vec![]));
}

#[test]
fn accessor_name_leaves_the_raw_marker_out() {
    assert_eq!(write_accessor_name("foo"), "field_foo");
    assert_eq!(write_accessor_name("r#type"), "field_type");
    assert_eq!(write_accessor_name("r#"), "field_");
    assert_eq!(write_accessor_name("r"), "field_r");
    assert_eq!(write_accessor_name("rx#y"), "field_rx#y");
    assert_eq!(write_accessor_name(""), "field_");
}

#[test]
fn diagnostic_finds_the_first_piece_it_touches() {
    let piece = |start, end| Piece { start, end };
    let pieces = vec![piece(0, 3), piece(4, 5), piece(5, 6), piece(7, 10)];
    let about = |start, end| Diagnostic { kind: ErrorKind::ExpectedArrow, start, end };
    assert_eq!(about(0, 3).first_touched(&pieces), Some(0));
    assert_eq!(about(2, 9).first_touched(&pieces), Some(0));
    assert_eq!(about(3, 4).first_touched(&pieces), None);
    assert_eq!(about(3, 5).first_touched(&pieces), Some(1));
    assert_eq!(about(5, 5).first_touched(&pieces), Some(2));
    assert_eq!(about(6, 8).first_touched(&pieces), Some(3));
    assert_eq!(about(10, 12).first_touched(&pieces), None);
    assert_eq!(about(0, 1).first_touched(&vec![]), None);
}

#[test]
fn key_path_is_joined_with_dots() {
    assert_eq!(join_key_path(&vec![]), "");
    assert_eq!(join_key_path(&vec!["a".to_string()]), "a");
    assert_eq!(join_key_path(&vec!["a".to_string(), "b".to_string(), "c".to_string()]), "a.b.c");
}

#[test]
fn tail_tells_the_scalar_clause_from_the_type() {
    let text = "x -> Vec<T> as scalar";
    assert_eq!(read_tail(text, 4, 21), Tail { type_end: 12, clause: ScalarClause::Present });
    assert_eq!(read_tail(text, 4, 14), Tail {
        type_end: 12,
        clause: ScalarClause::Unexpected { start: 14, end: 14 }
    });
    assert_eq!(read_tail(text, 4, 11), Tail { type_end: 11, clause: ScalarClause::Absent });
    let text = "x -> T  as   other  ";
    assert_eq!(read_tail(text, 4, 20), Tail {
        type_end: 8,
        clause: ScalarClause::Unexpected { start: 13, end: 18 }
    });
    assert_eq!(read_tail("as scalar", 0, 9), Tail { type_end: 0, clause: ScalarClause::Present });
    assert_eq!(read_tail("as", 0, 2), Tail {
        type_end: 0,
        clause: ScalarClause::Unexpected { start: 2, end: 2 }
    });
    assert_eq!(read_tail("Tas scalar", 0, 10), Tail { type_end: 10, clause: ScalarClause::Absent });
    assert_eq!(read_tail("T asscalar", 0, 10), Tail { type_end: 10, clause: ScalarClause::Absent });
    assert_eq!(read_tail("T>as scalar", 0, 11), Tail { type_end: 2, clause: ScalarClause::Present });
    assert_eq!(read_tail("", 0, 0), Tail { type_end: 0, clause: ScalarClause::Absent });
    assert_eq!(read_tail("   ", 0, 3), Tail { type_end: 3, clause: ScalarClause::Absent });
}

#[test]
fn declared_type_is_read_between_blanks() {
    assert_eq!(
        DeclaredType::read("x ->  i32  ", 4, 11),
        Ok(DeclaredType {
            source: "i32".to_string(),
            start: 6,
            end: 9,
            expression: TypeExpression::Named { name: "i32".to_string() },
        })
    );
    assert_eq!(
        DeclaredType::read("x ->  i32  ", 4, 6),
        Err(Diagnostic { kind: ErrorKind::MalformedTypeExpression, start: 6, end: 6 })
    );
    let answer = || Some(TypeExpression::Named { name: "u8".to_string() });
    assert_eq!(
        DeclaredType::from_answer("x ->  i32  ", 4, 11, answer()),
        Ok(DeclaredType {
            source: "i32".to_string(),
            start: 6,
            end: 9,
            expression: TypeExpression::Named { name: "u8".to_string() },
        })
    );
    assert_eq!(
        DeclaredType::from_answer("x -> 'c'", 4, 8, answer()),
        Err(Diagnostic { kind: ErrorKind::MalformedTypeExpression, start: 5, end: 8 })
    );
    assert_eq!(
        DeclaredType::from_answer("x -> i32", 4, 8, None),
        Err(Diagnostic { kind: ErrorKind::MalformedTypeExpression, start: 5, end: 8 })
    );
    assert_eq!(
        DeclaredType::read("x ->  i32  ", 0, 11),
        Err(Diagnostic { kind: ErrorKind::MalformedTypeExpression, start: 0, end: 9 })
    );
    let ty = DeclaredType::read("Vec<>", 0, 5).unwrap();
    assert_eq!(
        ty.refused(ErrorKind::EmptyGenericArguments),
        Diagnostic { kind: ErrorKind::EmptyGenericArguments, start: 0, end: 5 }
    );
}
