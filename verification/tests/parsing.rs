use graphql_sdl::{
    parse_executable_document, parse_schema_document, Definition, ExecutableDefinition, Selection,
    TypeDefinition, Value,
};

#[test]
fn parses_every_definition_kind() {
    let source = r#"
        "a scalar"
        scalar Date @type(name: "chrono")
        type Query implements Node & Timestamped @owned {
            node(id: ID!): Node
            all(first: Int = 10): [Query!]!
        }
        interface Node {
            id: ID!
        }
        union Pet = | Dog | Cat
        enum Color {
            RED
            GREEN @deprecated
        }
        input Filter {
            text: String = "none"
            limit: Int
        }
        directive @owned(by: String) on OBJECT | FIELD_DEFINITION
        schema @main {
            query: Query
        }
    "#;
    let doc = parse_schema_document(source).expect("Parse error");
    assert_eq!(doc.definitions.len(), 8);
    let kinds: Vec<&str> = doc
        .definitions
        .iter()
        .map(|d| match &d.node {
            Definition::SchemaDefinition(..) => "schema",
            Definition::TypeDefinition(td) => match &td.node {
                TypeDefinition::Scalar(..) => "scalar",
                TypeDefinition::Object(..) => "object",
                TypeDefinition::Interface(..) => "interface",
                TypeDefinition::Union(..) => "union",
                TypeDefinition::Enum(..) => "enum",
                TypeDefinition::InputObject(..) => "input",
            },
            Definition::DirectiveDefinition(..) => "directive",
        })
        .collect();
    assert_eq!(
        kinds,
        vec!["scalar", "object", "interface", "union", "enum", "input", "directive", "schema"]
    );
}

#[test]
fn parses_comments_and_commas_as_trivia() {
    let doc = parse_schema_document("# heading\ntype Foo { a: Int, b: String }\n# trailing")
        .expect("Parse error");
    assert_eq!(doc.definitions.len(), 1);
}

#[test]
fn parses_argument_value_kinds() {
    let doc = parse_schema_document(
        "scalar S @d(i: -42, f: 1.5, s: \"txt\", b: true, n: null, e: RED, v: $var, l: [1, 2])",
    )
    .expect("Parse error");
    let Definition::TypeDefinition(td) = &doc.definitions[0].node else {
        panic!("expected a type definition");
    };
    let TypeDefinition::Scalar(scalar) = &td.node else {
        panic!("expected a scalar");
    };
    let args = &scalar.node.directives[0].node.arguments;
    assert_eq!(args.len(), 8);
    assert_eq!(args[0].1.node, Value::Int(-42));
    assert_eq!(args[1].1.node, Value::FloatText("1.5".to_string()));
    assert_eq!(args[2].1.node, Value::Str("txt".to_string()));
    assert_eq!(args[3].1.node, Value::Boolean(true));
    assert_eq!(args[4].1.node, Value::Null);
    assert_eq!(args[5].1.node, Value::Enum("RED".to_string()));
    assert_eq!(args[6].1.node, Value::Variable("var".to_string()));
    assert_eq!(
        args[7].1.node,
        Value::List(vec![Value::Int(1), Value::Int(2)])
    );
}

#[test]
fn parses_object_literal_values() {
    let doc = parse_schema_document("scalar S @d(o: {a: 1, b: [true]}, e: {})")
        .expect("Parse error");
    let Definition::TypeDefinition(td) = &doc.definitions[0].node else {
        panic!("expected a type definition");
    };
    let TypeDefinition::Scalar(scalar) = &td.node else {
        panic!("expected a scalar");
    };
    let args = &scalar.node.directives[0].node.arguments;
    assert_eq!(args.len(), 2);
    assert_eq!(
        args[0].1.node,
        Value::Object(vec![
            ("a".to_string(), Value::Int(1)),
            ("b".to_string(), Value::List(vec![Value::Boolean(true)])),
        ])
    );
    assert_eq!(args[1].1.node, Value::Object(vec![]));
}

#[test]
fn rejects_malformed_documents() {
    assert!(parse_schema_document("type").is_err());
    assert!(parse_schema_document("type Foo {").is_err());
    assert!(parse_schema_document("scalar S @d(a: )").is_err());
    assert!(parse_schema_document("scalar S @d(a: {x 1})").is_err());
    assert!(parse_schema_document("scalar S @d(a: \"open").is_err());
    assert!(parse_schema_document("union U = ").is_err());
    assert!(parse_schema_document("%").is_err());
    assert!(parse_schema_document("scalar S @d(a: 99999999999999999999)").is_err());
    assert!(parse_executable_document("query { ..Frag }").is_err());
    assert!(parse_executable_document("fragment F { a }").is_err());
}

#[test]
fn parses_operations_with_variables_and_aliases() {
    let doc = parse_executable_document(
        "query Q($id: ID!, $n: Int = 3) @traced { renamed: human(id: $id) { name } }",
    )
    .expect("Parse error");
    assert_eq!(doc.definitions.len(), 1);
    let ExecutableDefinition::Operation(op) = &doc.definitions[0] else {
        panic!("expected an operation");
    };
    assert_eq!(op.node.name.as_ref().map(|n| n.node.as_str()), Some("Q"));
    let items = &op.node.selection_set.node.items;
    assert_eq!(items.len(), 1);
    let Selection::Field(field) = &items[0].node else {
        panic!("expected a field");
    };
    assert_eq!(field.node.alias.as_ref().map(|a| a.node.as_str()), Some("renamed"));
    assert_eq!(field.node.name.node, "human");
    assert_eq!(field.node.arguments.len(), 1);
    assert_eq!(field.node.selection_set.node.items.len(), 1);
}

#[test]
fn parses_extend_definitions() {
    let doc = parse_schema_document("extend type Foo { b: Int }").expect("Parse error");
    let Definition::TypeDefinition(td) = &doc.definitions[0].node else {
        panic!("expected a type definition");
    };
    let TypeDefinition::Object(object) = &td.node else {
        panic!("expected an object");
    };
    assert!(object.node.extend);
}

#[test]
fn positions_are_one_based_lines_and_columns() {
    let doc = parse_schema_document("\n  scalar A").expect("Parse error");
    assert_eq!(doc.definitions[0].pos.line, 2);
    assert_eq!(doc.definitions[0].pos.column, 3);
}
