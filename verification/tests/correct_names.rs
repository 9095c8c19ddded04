use graphql_sdl::{check_correct_names, parse_schema_document};

fn expect_passes_correct_names(source: &str) {
    let doc = parse_schema_document(source).expect("Parse error");
    if let Err(errors) = check_correct_names(&doc) {
        for err in &errors {
            println!("{}", err.to_text());
        }
        panic!("Expected rule to pass, but errors found");
    }
}

fn expect_fails_correct_names(source: &str) {
    let doc = parse_schema_document(source).expect("Parse error");
    if check_correct_names(&doc).is_ok() {
        panic!("Expected rule to fail, but no errors were found");
    }
}

#[test]
fn good_field_names() {
    expect_passes_correct_names(
        r#"
            input MyObj {
                a: Int,
            }

            interface MyInterface {
                a: Int,
            }

            type Query {
                obj: MyObj,
            }
        "#,
    );
}

#[test]
fn incorrect_object_field_name() {
    expect_fails_correct_names(
        r#"
            type MyObj {
                __a: Int,
            }
        "#,
    );
}

#[test]
fn incorrect_interface_field_name() {
    expect_fails_correct_names(
        r#"
            interface MyInterface {
                __a: Int,
            }
        "#,
    );
}

#[test]
fn incorrect_input_object_field_name() {
    expect_fails_correct_names(
        r#"
            input MyInput {
                __a: Int,
            }
        "#,
    );
}

#[test]
fn reserved_type_name_rejected() {
    let doc = parse_schema_document("type __Foo { a: Int }").expect("Parse error");
    let errors = check_correct_names(&doc).expect_err("expected a diagnostic");
    assert_eq!(errors.len(), 1);
    assert_eq!(
        errors[0].message,
        "Type names cannot be prefixed with \"__\" two underscores."
    );
}

#[test]
fn reserved_field_name_rejected() {
    let doc = parse_schema_document("type Foo { __a: Int }").expect("Parse error");
    let errors = check_correct_names(&doc).expect_err("expected a diagnostic");
    assert_eq!(errors.len(), 1);
    assert_eq!(
        errors[0].message,
        "Field names cannot be prefixed with \"__\" two underscores."
    );
}

#[test]
fn plain_names_accepted() {
    let doc = parse_schema_document("type Foo { a: Int }").expect("Parse error");
    assert!(check_correct_names(&doc).is_ok());
}
