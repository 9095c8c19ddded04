use graphql_sdl::{check_no_unused_fragments, parse_executable_document};

fn expect_passes_fragment_usage(source: &str) {
    let doc = parse_executable_document(source).expect("Parse error");
    if let Err(errors) = check_no_unused_fragments(&doc) {
        for err in &errors {
            println!("{}", err.to_text());
        }
        panic!("Expected rule to pass, but errors found");
    }
}

fn expect_fails_fragment_usage(source: &str) {
    let doc = parse_executable_document(source).expect("Parse error");
    if check_no_unused_fragments(&doc).is_ok() {
        panic!("Expected rule to fail, but no errors were found");
    }
}

#[test]
fn all_fragment_names_are_used() {
    expect_passes_fragment_usage(
        r#"
          {
            human(id: 4) {
              ...HumanFields1
              ... on Human {
                ...HumanFields2
              }
            }
          }
          fragment HumanFields1 on Human {
            name
            ...HumanFields3
          }
          fragment HumanFields2 on Human {
            name
          }
          fragment HumanFields3 on Human {
            name
          }
        "#,
    );
}

#[test]
fn all_fragment_names_are_used_by_multiple_operations() {
    expect_passes_fragment_usage(
        r#"
          query Foo {
            human(id: 4) {
              ...HumanFields1
            }
          }
          query Bar {
            human(id: 4) {
              ...HumanFields2
            }
          }
          fragment HumanFields1 on Human {
            name
            ...HumanFields3
          }
          fragment HumanFields2 on Human {
            name
          }
          fragment HumanFields3 on Human {
            name
          }
        "#,
    );
}

#[test]
fn contains_unknown_fragments() {
    expect_fails_fragment_usage(
        r#"
          query Foo {
            human(id: 4) {
              ...HumanFields1
            }
          }
          query Bar {
            human(id: 4) {
              ...HumanFields2
            }
          }
          fragment HumanFields1 on Human {
            name
            ...HumanFields3
          }
          fragment HumanFields2 on Human {
            name
          }
          fragment HumanFields3 on Human {
            name
          }
          fragment Unused1 on Human {
            name
          }
          fragment Unused2 on Human {
            name
          }
        "#,
    );
}

#[test]
fn contains_unknown_fragments_with_ref_cycle() {
    expect_fails_fragment_usage(
        r#"
          query Foo {
            human(id: 4) {
              ...HumanFields1
            }
          }
          query Bar {
            human(id: 4) {
              ...HumanFields2
            }
          }
          fragment HumanFields1 on Human {
            name
            ...HumanFields3
          }
          fragment HumanFields2 on Human {
            name
          }
          fragment HumanFields3 on Human {
            name
          }
          fragment Unused1 on Human {
            name
            ...Unused2
          }
          fragment Unused2 on Human {
            name
            ...Unused1
          }
        "#,
    );
}

#[test]
fn contains_unknown_and_undef_fragments() {
    expect_fails_fragment_usage(
        r#"
          query Foo {
            human(id: 4) {
              ...bar
            }
          }
          fragment foo on Human {
            name
          }
        "#,
    );
}

#[test]
fn unused_cycle_reported_once_per_fragment() {
    let doc = parse_executable_document(
        "query Foo { ...Used }\nfragment Used on T { a }\nfragment CycA on T { ...CycB }\nfragment CycB on T { ...CycA }",
    )
    .expect("Parse error");
    let errors = check_no_unused_fragments(&doc).expect_err("expected diagnostics");
    assert_eq!(errors.len(), 2);
    assert_eq!(errors[0].message, "Fragment \"CycA\" is never used");
    assert_eq!(errors[1].message, "Fragment \"CycB\" is never used");
    assert_eq!(errors[0].locations.len(), 1);
    assert_eq!(errors[0].locations[0].line, 3);
    assert_eq!(errors[0].locations[0].column, 1);
}

#[test]
fn deep_chain_of_spreads_is_reachable() {
    expect_passes_fragment_usage(
        "{ a { ...F1 } }\nfragment F1 on T { b { ...F2 } }\nfragment F2 on T { ... on U { ...F3 } }\nfragment F3 on T { c }",
    );
}

#[test]
fn self_spreading_unused_fragment_reported() {
    let doc = parse_executable_document("{ a }\nfragment Loner on T { ...Loner }")
        .expect("Parse error");
    let errors = check_no_unused_fragments(&doc).expect_err("expected a diagnostic");
    assert_eq!(errors.len(), 1);
    assert_eq!(errors[0].message, "Fragment \"Loner\" is never used");
}
