use graphql_sdl::{
    check_executable_rules, check_rules, parse_executable_document, parse_schema_document,
    scalar_type, validate_document, Definition, Schema, TypeDefinition,
};

#[test]
fn schema_parse_accepts_a_valid_document() {
    let schema = Schema::parse("type Query { a: Int } schema { query: Query }")
        .expect("expected a valid schema");
    assert_eq!(schema.doc.definitions.len(), 2);
    assert!(schema.input_type_exists(&"Int".to_string()) == false);
    assert!(schema.output_type_exists(&"Query".to_string()));
}

#[test]
fn schema_parse_formats_each_diagnostic_on_one_line() {
    let message = Schema::parse("scalar A\nscalar A\nschema { query: A }")
        .expect_err("expected a failure");
    let expected = "[2:1, 1:1]: There can only be one type named \"A\"\n[3:17]: Not defined or not an object type.\n";
    assert_eq!(message, expected);
}

#[test]
fn validate_document_owes_success_and_the_exact_error_text() {
    let clean = parse_schema_document("type Query { a: Int }").expect("Parse error");
    let schema = validate_document(clean).expect("a clean document must validate");
    assert_eq!(schema.doc.definitions.len(), 1);

    let broken = parse_schema_document("scalar A scalar A").expect("Parse error");
    let text = validate_document(broken).expect_err("a duplicate must be rejected");
    assert_eq!(text, "[1:10, 1:1]: There can only be one type named \"A\"\n");
}

#[test]
fn schema_parse_reports_syntax_errors() {
    let message = Schema::parse("type {").expect_err("expected a syntax error");
    assert_eq!(message, "[1:6]: expected a type name");
}

#[test]
fn check_rules_collects_diagnostics_from_every_rule() {
    let doc = parse_schema_document("type __Foo { __a: Int }\ntype __Foo { b: Int }\nschema { mutation: Absent }")
        .expect("Parse error");
    let errors = check_rules(&doc).expect_err("expected diagnostics");
    let messages: Vec<&str> = errors.iter().map(|e| e.message.as_str()).collect();
    assert_eq!(
        messages,
        vec![
            "Type names cannot be prefixed with \"__\" two underscores.",
            "Field names cannot be prefixed with \"__\" two underscores.",
            "Type names cannot be prefixed with \"__\" two underscores.",
            "There can only be one type named \"__Foo\"",
            "The query root operation type must be provided and must be an Object type.",
            "Not defined or not an object type.",
        ]
    );
}

#[test]
fn executable_rules_compose_in_order() {
    let doc = parse_executable_document(
        "query Foo { a }\nquery Foo { b }\nfragment Spare on T { c }",
    )
    .expect("Parse error");
    let errors = check_executable_rules(&doc).expect_err("expected diagnostics");
    assert_eq!(errors.len(), 2);
    assert_eq!(
        errors[0].message,
        "There can only be one operation named \"Foo\""
    );
    assert_eq!(errors[1].message, "Fragment \"Spare\" is never used");
}

#[test]
fn scalar_type_reads_the_type_directive() {
    let doc = parse_schema_document(
        "scalar Date @type(name: \"chrono\")\nscalar Plain\nscalar Wrong @type(name: 4)",
    )
    .expect("Parse error");
    let mut seen = Vec::new();
    for definition in &doc.definitions {
        if let Definition::TypeDefinition(td) = &definition.node {
            if let TypeDefinition::Scalar(scalar) = &td.node {
                seen.push(scalar_type(&scalar.node.directives));
            }
        }
    }
    assert_eq!(seen.len(), 3);
    assert_eq!(seen[0], Ok(Some(&"chrono".to_string())));
    assert_eq!(seen[1], Ok(None));
    match &seen[2] {
        Err(err) => assert_eq!(
            err.message,
            "The \"name\" parameter type of the \"@type\" directive must be a string."
        ),
        Ok(_) => panic!("expected an error"),
    }
}

#[test]
fn get_argument_finds_the_first_matching_name() {
    let doc = parse_schema_document("scalar S @d(a: 1, b: \"two\", a: 3)").expect("Parse error");
    if let Definition::TypeDefinition(td) = &doc.definitions[0].node {
        if let TypeDefinition::Scalar(scalar) = &td.node {
            let directive = &scalar.node.directives[0].node;
            let a = directive.get_argument("a").expect("a is present");
            assert_eq!(a.node, graphql_sdl::Value::Int(1));
            assert!(directive.get_argument("missing").is_none());
            return;
        }
    }
    panic!("expected a scalar definition");
}

#[test]
fn error_line_format_joins_positions_with_commas() {
    let error = graphql_sdl::Error {
        locations: vec![
            graphql_sdl::Pos { line: 12, column: 34 },
            graphql_sdl::Pos { line: 5, column: 6 },
        ],
        message: "boom".to_string(),
    };
    assert_eq!(error.to_text(), "[12:34, 5:6]: boom");
}
