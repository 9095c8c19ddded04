use graphql_sdl::{check_root_operation_types, parse_schema_document};

fn expect_passes_root_types(source: &str) {
    let doc = parse_schema_document(source).expect("Parse error");
    if let Err(errors) = check_root_operation_types(&doc) {
        for err in &errors {
            println!("{}", err.to_text());
        }
        panic!("Expected rule to pass, but errors found");
    }
}

fn expect_fails_root_types(source: &str) {
    let doc = parse_schema_document(source).expect("Parse error");
    if check_root_operation_types(&doc).is_ok() {
        panic!("Expected rule to fail, but no errors were found");
    }
}

#[test]
fn good_operation_types() {
    expect_passes_root_types(
        r#"
            type Query
            type Mutation
            type Subscription

            schema {
                query: Query
                mutation: Mutation
                subscription: Subscription
            }
        "#,
    );
}

#[test]
fn query_is_input() {
    expect_fails_root_types(
        r#"
            input Query
            type Mutation
            type Subscription

            schema {
                query: Query
                mutation: Mutation
                subscription: Subscription
            }
        "#,
    );
}

#[test]
fn mutation_is_input() {
    expect_fails_root_types(
        r#"
            type Query
            input Mutation
            type Subscription

            schema {
                query: Query
                mutation: Mutation
                subscription: Subscription
            }
        "#,
    );
}

#[test]
fn subscription_is_input() {
    expect_fails_root_types(
        r#"
            type Query
            type Mutation
            input Subscription

            schema {
                query: Query
                mutation: Mutation
                subscription: Subscription
            }
        "#,
    );
}

#[test]
fn query_not_provided() {
    expect_fails_root_types(
        r#"
            type Mutation
            type Subscription

            schema {
                mutation: Mutation
                subscription: Subscription
            }
        "#,
    );
}

#[test]
fn missing_query_root_message() {
    let doc = parse_schema_document("type Foo { a: Int } schema { mutation: Foo }")
        .expect("Parse error");
    let errors = check_root_operation_types(&doc).expect_err("expected a diagnostic");
    assert_eq!(errors.len(), 1);
    assert_eq!(
        errors[0].message,
        "The query root operation type must be provided and must be an Object type."
    );
}

#[test]
fn query_root_must_be_object_message() {
    let doc = parse_schema_document("input Bar { a: Int } schema { query: Bar }")
        .expect("Parse error");
    let errors = check_root_operation_types(&doc).expect_err("expected a diagnostic");
    assert_eq!(errors.len(), 1);
    assert_eq!(errors[0].message, "Not defined or not an object type.");
    // the diagnostic points at the reference to Bar inside the schema block
    assert_eq!(errors[0].locations.len(), 1);
    assert_eq!(errors[0].locations[0].line, 1);
    assert_eq!(errors[0].locations[0].column, 38);
}

#[test]
fn schema_block_before_types_accepted() {
    let doc = parse_schema_document("schema { query: Foo } type Foo { a: Int }")
        .expect("Parse error");
    assert!(check_root_operation_types(&doc).is_ok());
}
