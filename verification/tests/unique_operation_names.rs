use graphql_sdl::{check_unique_operation_names, parse_executable_document};

fn expect_passes_unique_operations(source: &str) {
    let doc = parse_executable_document(source).expect("Parse error");
    if let Err(errors) = check_unique_operation_names(&doc) {
        for err in &errors {
            println!("{}", err.to_text());
        }
        panic!("Expected rule to pass, but errors found");
    }
}

fn expect_fails_unique_operations(source: &str) {
    let doc = parse_executable_document(source).expect("Parse error");
    if check_unique_operation_names(&doc).is_ok() {
        panic!("Expected rule to fail, but no errors were found");
    }
}

#[test]
fn no_operations() {
    expect_passes_unique_operations(
        r#"
          fragment fragA on Dog {
            name
          }
        "#,
    );
}

#[test]
fn one_anon_operation() {
    expect_passes_unique_operations(
        r#"
          {
            field
          }
        "#,
    );
}

#[test]
fn one_named_operation() {
    expect_passes_unique_operations(
        r#"
          query Foo {
            field
          }
        "#,
    );
}

#[test]
fn multiple_operations() {
    expect_passes_unique_operations(
        r#"
          query Foo {
            dog {
              name
            }
          }
          query Bar {
            dog {
              name
            }
          }
        "#,
    );
}

#[test]
fn multiple_operations_of_different_types() {
    expect_passes_unique_operations(
        r#"
          query Foo {
            field
          }
          mutation Bar {
            field
          }
        "#,
    );
}

#[test]
fn fragment_and_operation_named_the_same() {
    expect_passes_unique_operations(
        r#"
          query Foo {
            dog {
              ...Foo
            }
          }
          fragment Foo on Dog {
            name
          }
        "#,
    );
}

#[test]
fn multiple_operations_of_same_name() {
    expect_fails_unique_operations(
        r#"
          query Foo {
            dog {
              name
            }
          }
          query Foo {
            human {
              name
            }
          }
        "#,
    );
}

#[test]
fn multiple_ops_of_same_name_of_different_types() {
    expect_fails_unique_operations(
        r#"
          query Foo {
            dog {
              name
            }
          }
          mutation Foo {
            testInput
          }
        "#,
    );
}

#[test]
fn duplicate_operation_reported_once() {
    let doc = parse_executable_document("query Foo { a }\nquery Foo { b }")
        .expect("Parse error");
    let errors = check_unique_operation_names(&doc).expect_err("expected a diagnostic");
    assert_eq!(errors.len(), 1);
    assert_eq!(
        errors[0].message,
        "There can only be one operation named \"Foo\""
    );
    // the later occurrence's position first, the defining one's second
    assert_eq!(errors[0].locations.len(), 2);
    assert_eq!(errors[0].locations[0].line, 2);
    assert_eq!(errors[0].locations[0].column, 7);
    assert_eq!(errors[0].locations[1].line, 1);
    assert_eq!(errors[0].locations[1].column, 7);
}

#[test]
fn three_operations_of_one_name_point_at_the_defining_one() {
    let doc = parse_executable_document("query Foo { a }\nquery Foo { b }\nquery Foo { c }")
        .expect("Parse error");
    let errors = check_unique_operation_names(&doc).expect_err("expected diagnostics");
    assert_eq!(errors.len(), 2);
    // the first occurrence stays the defining one for every later duplicate
    assert_eq!(errors[0].locations[1].line, 1);
    assert_eq!(errors[1].locations[0].line, 3);
    assert_eq!(errors[1].locations[1].line, 1);
}

#[test]
fn two_anonymous_operations_never_conflict() {
    expect_passes_unique_operations("{ a }\n{ b }");
}
