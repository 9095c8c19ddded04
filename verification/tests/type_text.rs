use graphql_sdl::{parse_type, Type};

fn named(name: &str) -> Type {
    Type::Named(name.to_string())
}

#[test]
fn named_type_renders_as_its_name() {
    assert_eq!(named("Int").to_text(), "Int");
}

#[test]
fn list_type_renders_in_brackets() {
    assert_eq!(Type::List(Box::new(named("Int"))).to_text(), "[Int]");
}

#[test]
fn non_null_type_renders_with_bang() {
    assert_eq!(Type::NonNull(Box::new(named("Int"))).to_text(), "Int!");
}

#[test]
fn nested_type_renders_inside_out() {
    let ty = Type::NonNull(Box::new(Type::List(Box::new(Type::NonNull(Box::new(named(
        "String",
    )))))));
    assert_eq!(ty.to_text(), "[String!]!");
}

#[test]
fn parse_type_reads_plain_name() {
    assert_eq!(parse_type("Int"), Some(named("Int")));
}

#[test]
fn parse_type_reads_non_null_list() {
    assert_eq!(
        parse_type("[Int]!"),
        Some(Type::NonNull(Box::new(Type::List(Box::new(named("Int"))))))
    );
}

#[test]
fn parse_type_rejects_leftovers_and_garbage() {
    assert_eq!(parse_type("Int]"), None);
    assert_eq!(parse_type("[Int"), None);
    assert_eq!(parse_type(""), None);
    assert_eq!(parse_type("!"), None);
}

#[test]
fn round_trip_through_text() {
    let cases = vec![
        named("Int"),
        Type::List(Box::new(named("Int"))),
        Type::NonNull(Box::new(Type::List(Box::new(Type::NonNull(Box::new(named("ID"))))))),
        Type::List(Box::new(Type::List(Box::new(named("Boolean"))))),
    ];
    for ty in cases {
        let text = ty.to_text();
        let back = parse_type(text.as_str()).expect("re-parse failed");
        assert_eq!(back, ty);
        assert_eq!(back.to_text(), text);
    }
}
