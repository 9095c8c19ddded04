use graphql_sdl::{
    check_executable_rules, check_rules, parse_executable_document, parse_schema_document, visit,
    visit_executable, CorrectNames, NoUnusedFragments, RootOperationTypes, UniqueOperationNames,
    UniqueTypeNames, VisitorContext, VisitorNil,
};

#[test]
fn composed_schema_visitors_match_the_pipeline() {
    let source = "type __Foo { __a: Int }\nscalar __Foo\nschema { query: Missing }";
    let doc = parse_schema_document(source).expect("Parse error");
    let mut visitor = VisitorNil
        .with(UniqueTypeNames::new())
        .with(RootOperationTypes::new())
        .with(CorrectNames);
    let mut ctx = VisitorContext::new();
    visit(&mut visitor, &mut ctx, &doc);
    let composed: Vec<(Vec<graphql_sdl::Pos>, String)> = ctx
        .errors
        .into_iter()
        .map(|e| (e.locations, e.message))
        .collect();
    let piped: Vec<(Vec<graphql_sdl::Pos>, String)> = check_rules(&doc)
        .expect_err("expected diagnostics")
        .into_iter()
        .map(|e| (e.locations, e.message))
        .collect();
    assert_eq!(composed, piped);
    assert_eq!(composed.len(), 5);
}

#[test]
fn composed_executable_visitors_match_the_pipeline() {
    let source = "query Q { ...Used }\nquery Q { a }\nfragment Used on T { a }\nfragment Idle on T { b }";
    let doc = parse_executable_document(source).expect("Parse error");
    let mut visitor = VisitorNil.with(UniqueOperationNames::new()).with(NoUnusedFragments::new());
    let mut ctx = VisitorContext::new();
    visit_executable(&mut visitor, &mut ctx, &doc);
    let composed: Vec<(Vec<graphql_sdl::Pos>, String)> = ctx
        .errors
        .into_iter()
        .map(|e| (e.locations, e.message))
        .collect();
    let piped: Vec<(Vec<graphql_sdl::Pos>, String)> = check_executable_rules(&doc)
        .expect_err("expected diagnostics")
        .into_iter()
        .map(|e| (e.locations, e.message))
        .collect();
    assert_eq!(composed, piped);
    assert_eq!(composed.len(), 2);
}

#[test]
fn a_passing_document_leaves_the_context_empty() {
    let doc = parse_schema_document("type Query { a: Int }").expect("Parse error");
    let mut visitor = VisitorNil
        .with(UniqueTypeNames::new())
        .with(RootOperationTypes::new())
        .with(CorrectNames);
    let mut ctx = VisitorContext::new();
    visit(&mut visitor, &mut ctx, &doc);
    assert!(ctx.errors.is_empty());
}
