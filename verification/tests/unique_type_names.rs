use graphql_sdl::{check_unique_type_names, parse_schema_document};

fn expect_passes_unique_types(source: &str) {
    let doc = parse_schema_document(source).expect("Parse error");
    if let Err(errors) = check_unique_type_names(&doc) {
        for err in &errors {
            println!("{}", err.to_text());
        }
        panic!("Expected rule to pass, but errors found");
    }
}

fn expect_fails_unique_types(source: &str) {
    let doc = parse_schema_document(source).expect("Parse error");
    if check_unique_type_names(&doc).is_ok() {
        panic!("Expected rule to fail, but no errors were found");
    }
}

#[test]
fn good_type_names() {
    expect_passes_unique_types(
        r#"
            scalar A

            input B {
                a: Int
            }
        "#,
    );
}

#[test]
fn duplicate_type_names() {
    expect_fails_unique_types(
        r#"
            scalar A

            input A {
                a: Int
            }
        "#,
    );
}

#[test]
fn duplicate_reported_once_with_both_positions() {
    let doc = parse_schema_document("scalar A\ninput A { a: Int }").expect("Parse error");
    let errors = check_unique_type_names(&doc).expect_err("expected a diagnostic");
    assert_eq!(errors.len(), 1);
    assert_eq!(errors[0].message, "There can only be one type named \"A\"");
    // the later definition's position first, the defining one's second
    assert_eq!(errors[0].locations.len(), 2);
    assert_eq!(errors[0].locations[0].line, 2);
    assert_eq!(errors[0].locations[0].column, 1);
    assert_eq!(errors[0].locations[1].line, 1);
    assert_eq!(errors[0].locations[1].column, 1);
}

#[test]
fn three_definitions_of_one_name_give_two_diagnostics() {
    let doc = parse_schema_document("scalar A\nscalar A\nscalar A").expect("Parse error");
    let errors = check_unique_type_names(&doc).expect_err("expected diagnostics");
    assert_eq!(errors.len(), 2);
    // the first occurrence stays the defining one for every later duplicate
    assert_eq!(errors[0].locations[1].line, 1);
    assert_eq!(errors[1].locations[1].line, 1);
    assert_eq!(errors[1].locations[0].line, 3);
}

#[test]
fn distinct_names_in_any_order_accepted() {
    expect_passes_unique_types("input B { a: Int } scalar A type C { b: Int }");
}
