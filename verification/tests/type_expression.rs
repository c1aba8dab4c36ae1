use juniper_from_schema_helpers::{
    classify, inner_most_type_name, Argument, ArgumentType, Classification, Diagnostic, ErrorKind,
    TypeExpression,
};

fn named(name: &str) -> TypeExpression {
    TypeExpression::Named { name: name.to_string() }
}

fn generic(name: &str, arguments: Vec<Argument>) -> TypeExpression {
    TypeExpression::Generic { name: name.to_string(), arguments }
}

fn path(ty: TypeExpression) -> Argument {
    Argument::Type(ArgumentType::Path(ty))
}

fn reference(ty: TypeExpression) -> Argument {
    Argument::Type(ArgumentType::Reference(Box::new(ArgumentType::Path(ty))))
}

fn leaf_of(text: &str) -> Result<String, ErrorKind> {
    let ty = TypeExpression::parse(text).unwrap();
    inner_most_type_name(&ty).map(|leaf| leaf.clone())
}

#[test]
fn test_inner_most_type() {
    let ty = TypeExpression::parse("i32").unwrap();
    let ty = inner_most_type_name(&ty).unwrap();
    assert_eq!("i32", ty.to_string());

    let ty = TypeExpression::parse("f64").unwrap();
    let ty = inner_most_type_name(&ty).unwrap();
    assert_eq!("f64", ty.to_string());

    let ty = TypeExpression::parse("String").unwrap();
    let ty = inner_most_type_name(&ty).unwrap();
    assert_eq!("String", ty.to_string());

    let ty = TypeExpression::parse("bool").unwrap();
    let ty = inner_most_type_name(&ty).unwrap();
    assert_eq!("bool", ty.to_string());

    let ty = TypeExpression::parse("Vec<i32>").unwrap();
    let ty = inner_most_type_name(&ty).unwrap();
    assert_eq!("i32", ty.to_string());

    let ty = TypeExpression::parse("Option<Vec<Option<i32>>>").unwrap();
    let ty = inner_most_type_name(&ty).unwrap();
    assert_eq!("i32", ty.to_string());

    let ty = TypeExpression::parse("Option<Vec<Option<i32>>>").unwrap();
    let ty = inner_most_type_name(&ty).unwrap();
    assert_eq!("i32", ty.to_string());

    let ty = TypeExpression::parse("Vec<&i32>").unwrap();
    let ty = inner_most_type_name(&ty).unwrap();
    assert_eq!("i32", ty.to_string());
}

#[test]
fn parse_copies_the_shape_of_the_type_path() {
    assert_eq!(TypeExpression::parse("i32"), Ok(named("i32")));
    assert_eq!(
        TypeExpression::parse("Vec<&i32>"),
        Ok(generic("Vec", vec![reference(named("i32"))]))
    );
    assert_eq!(
        TypeExpression::parse("HashMap<String, Vec<User>>"),
        Ok(generic(
            "HashMap",
            vec![
                path(named("String")),
                path(generic("Vec", vec![path(named("User"))])),
            ]
        ))
    );
    assert_eq!(TypeExpression::parse("Vec<>"), Ok(generic("Vec", vec![])));
    assert_eq!(
        TypeExpression::parse("Fn(i32) -> bool"),
        Ok(TypeExpression::CallStyle { name: "Fn".to_string() })
    );
}

#[test]
fn parse_reads_the_last_segment_of_a_longer_path() {
    assert_eq!(
        TypeExpression::parse("std::vec::Vec<models::User>"),
        Ok(generic("Vec", vec![path(named("User"))]))
    );
    assert_eq!(leaf_of("std::option::Option<models::User>"), Ok("User".to_string()));
}

#[test]
fn parse_tells_types_from_other_arguments() {
    assert_eq!(
        TypeExpression::parse("Vec<(i32, i32)>"),
        Ok(generic("Vec", vec![Argument::Type(ArgumentType::Other)]))
    );
    assert_eq!(
        TypeExpression::parse("Cow<'a, str>"),
        Ok(generic("Cow", vec![Argument::Other, path(named("str"))]))
    );
    assert_eq!(
        TypeExpression::parse("Vec<&&i32>"),
        Ok(generic(
            "Vec",
            vec![Argument::Type(ArgumentType::Reference(Box::new(ArgumentType::Reference(
                Box::new(ArgumentType::Path(named("i32")))
            ))))]
        ))
    );
    assert_eq!(
        TypeExpression::parse("Vec<&'a mut [u8]>"),
        Ok(generic(
            "Vec",
            vec![Argument::Type(ArgumentType::Reference(Box::new(ArgumentType::Other)))]
        ))
    );
    assert_eq!(
        TypeExpression::parse("Iterator<Item = u8>"),
        Ok(generic("Iterator", vec![Argument::Other]))
    );
    assert_eq!(
        TypeExpression::parse("Array<u8, 4>"),
        Ok(generic("Array", vec![path(named("u8")), Argument::Other]))
    );
}

#[test]
fn parse_refuses_what_is_no_type_path() {
    let refused = |text: &str| {
        Err(Diagnostic {
            kind: ErrorKind::MalformedTypeExpression,
            start: 0,
            end: text.chars().count(),
        })
    };
    assert_eq!(TypeExpression::parse(""), refused(""));
    assert_eq!(TypeExpression::parse("&i32"), refused("&i32"));
    assert_eq!(TypeExpression::parse("Vec<i32"), refused("Vec<i32"));
    assert_eq!(TypeExpression::parse("i32 bar"), refused("i32 bar"));
    assert_eq!(TypeExpression::parse("(i32, i32)"), refused("(i32, i32)"));
    assert_eq!(TypeExpression::parse("Tür<"), refused("Tür<"));
    assert_eq!(TypeExpression::parse("Foo<c\"x\">"), refused("Foo<c\"x\">"));
    assert_eq!(TypeExpression::parse("Foo<'x'>"), refused("Foo<'x'>"));
}

#[test]
fn leaf_of_a_bare_name_is_the_name() {
    assert_eq!(inner_most_type_name(&named("User")), Ok(&"User".to_string()));
}

#[test]
fn leaf_is_that_of_the_last_argument() {
    assert_eq!(leaf_of("HashMap<String, User>"), Ok("User".to_string()));
    assert_eq!(leaf_of("Result<User, Error>"), Ok("Error".to_string()));
    let ty = generic(
        "Pair",
        vec![Argument::Other, path(named("First")), path(named("Last"))],
    );
    assert_eq!(inner_most_type_name(&ty), Ok(&"Last".to_string()));
}

#[test]
fn leaf_looks_through_nested_wrappers() {
    assert_eq!(leaf_of("Option<Vec<Option<i32>>>"), leaf_of("i32"));
    assert_eq!(leaf_of("Vec<&i32>"), leaf_of("i32"));
    assert_eq!(leaf_of("Option<&Vec<&Option<User>>>"), Ok("User".to_string()));
    let mut ty = named("Leaf");
    for depth in 0..200 {
        ty = if depth % 2 == 0 {
            generic("Vec", vec![path(ty)])
        } else {
            generic("Option", vec![reference(ty)])
        };
    }
    assert_eq!(inner_most_type_name(&ty), Ok(&"Leaf".to_string()));
}

#[test]
fn leaf_of_empty_angle_brackets_is_refused() {
    assert_eq!(inner_most_type_name(&generic("Vec", vec![])), Err(ErrorKind::EmptyGenericArguments));
    assert_eq!(leaf_of("Vec<>"), Err(ErrorKind::EmptyGenericArguments));
    assert_eq!(leaf_of("Option<Vec<>>"), Err(ErrorKind::EmptyGenericArguments));
}

#[test]
fn leaf_of_an_unsupported_argument_is_refused() {
    assert_eq!(leaf_of("Vec<(i32, i32)>"), Err(ErrorKind::UnsupportedArgumentShape));
    assert_eq!(leaf_of("Vec<&&i32>"), Err(ErrorKind::UnsupportedArgumentShape));
    assert_eq!(leaf_of("Vec<[u8; 4]>"), Err(ErrorKind::UnsupportedArgumentShape));
    assert_eq!(leaf_of("Vec<'static>"), Err(ErrorKind::UnsupportedArgumentShape));
    assert_eq!(leaf_of("Option<Vec<&[u8]>>"), Err(ErrorKind::UnsupportedArgumentShape));
    assert_eq!(leaf_of("Pair<(), User>"), Ok("User".to_string()));
    assert_eq!(leaf_of("Pair<User, ()>"), Err(ErrorKind::UnsupportedArgumentShape));
}

#[test]
fn leaf_of_call_style_arguments_is_refused() {
    assert_eq!(leaf_of("Fn(i32) -> bool"), Err(ErrorKind::UnsupportedTypeShape));
    assert_eq!(leaf_of("Box<Fn(i32) -> bool>"), Err(ErrorKind::UnsupportedTypeShape));
    assert_eq!(
        inner_most_type_name(&TypeExpression::CallStyle { name: "FnOnce".to_string() }),
        Err(ErrorKind::UnsupportedTypeShape)
    );
}

#[test]
fn leaf_is_the_same_on_equal_expressions() {
    let first = TypeExpression::parse("Option<Vec<User>>").unwrap();
    let second = generic(
        "Option",
        vec![path(generic("Vec", vec![path(named("User"))]))],
    );
    assert_eq!(first, second);
    assert_eq!(inner_most_type_name(&first), inner_most_type_name(&second));
    assert_eq!(classify(&first), classify(&second));
    assert_eq!(classify(&first), classify(&first));
}

#[test]
fn built_in_scalars_are_classified_as_scalar() {
    for name in ["String", "i32", "f64", "bool", "ID"] {
        assert_eq!(classify(&named(name)), Ok(Classification::Scalar));
        assert_eq!(
            classify(&generic("Option", vec![path(named(name))])),
            Ok(Classification::Scalar)
        );
    }
}

#[test]
fn other_leaves_are_classified_as_objects() {
    for name in ["User", "string", "I32", "u32", "f32", "Bool", "Id", "id", "str", "i64"] {
        assert_eq!(classify(&named(name)), Ok(Classification::Object(name.to_string())));
    }
    assert_eq!(
        classify(&TypeExpression::parse("Vec<Option<Country>>").unwrap()),
        Ok(Classification::Object("Country".to_string()))
    );
}

#[test]
fn classification_passes_on_what_the_leaf_refuses() {
    assert_eq!(classify(&generic("Vec", vec![])), Err(ErrorKind::EmptyGenericArguments));
    assert_eq!(
        classify(&generic("Vec", vec![Argument::Other])),
        Err(ErrorKind::UnsupportedArgumentShape)
    );
    assert_eq!(
        classify(&generic("Vec", vec![Argument::Type(ArgumentType::Other)])),
        Err(ErrorKind::UnsupportedArgumentShape)
    );
    assert_eq!(
        classify(&generic(
            "Vec",
            vec![Argument::Type(ArgumentType::Reference(Box::new(ArgumentType::Other)))]
        )),
        Err(ErrorKind::UnsupportedArgumentShape)
    );
    assert_eq!(
        classify(&TypeExpression::CallStyle { name: "Fn".to_string() }),
        Err(ErrorKind::UnsupportedTypeShape)
    );
}
