//! The validation pipeline: the rule library run in one traversal over a
//! schema document, every violation collected in document order.
//!
//! `doc_errors` is the complete mathematical statement of what the pipeline
//! reports: for each definition in source order, first the reserved-name
//! diagnostics for the type name, then the unique-type-names diagnostic,
//! then the reserved-name diagnostics for its fields; schema definitions
//! contribute their root-operation diagnostics. `check_rules` returns `Ok`
//! exactly when that sequence is empty.

use vstd::prelude::*;

pub mod correct_names;
pub mod unique_operation_names;
pub mod messages;
pub mod no_unused_fragments;
pub mod root_operation_types;
pub mod unique_type_names;

use crate::error::{error_views, Error};
use crate::pos::{Pos, Positioned};
use crate::schema_ast::{Definition, Document, TypeDefinition};
use crate::validation::correct_names::{
    correct_name_errors, correct_name_errors_upto, correct_names_def_errors,
    type_definition_field_errors, type_name_errors, CorrectNames,
};
use crate::validation::root_operation_types::{
    object_names, root_operation_errors, root_operation_errors_upto, root_schema_errors,
    RootOperationTypes,
};
use crate::validation::unique_type_names::{
    defined_type_name, lemma_duplicate_type_name_reported_once, type_def_pos,
    unique_type_name_errors, unique_type_name_errors_upto, utn_state_at, utn_step_errors,
    UniqueTypeNames,
};
use crate::validation::messages::msg_one_type;
use crate::exec_visitor::ExecutableVisitor;
use crate::executable_ast::{ExecutableDefinition, ExecutableDocument};
use crate::validation::no_unused_fragments::{
    defined_fragments, defined_fragments_upto, doc_targets, doc_targets_upto,
    lemma_unused_equiv, scope_of, sp_entry, targets_of, unused_fragment_errors,
    walk_selection_set, NoUnusedFragments, SpecScope,
};
use crate::validation::unique_operation_names::{
    lemma_duplicate_operation_reported_once, operation_name, unique_operation_errors,
    unique_operation_errors_upto, uon_state_at, UniqueOperationNames,
};
use crate::validation::messages::msg_one_operation;
use crate::visitor::{errs_view, RuleError, SpecError, Visitor, VisitorContext};

verus! {

/// Every diagnostic the composed rules report at one definition, in rule
/// registration order, given the document's object-type names and the
/// unique-names state so far.
pub open spec fn def_errors(
    objects: Seq<Seq<char>>,
    seen: Seq<(Seq<char>, Pos)>,
    def: Positioned<Definition>,
) -> Seq<SpecError> {
    match def.node {
        Definition::SchemaDefinition(sd) => root_schema_errors(objects, sd),
        Definition::TypeDefinition(td) => type_name_errors(td) + utn_step_errors(seen, td)
            + type_definition_field_errors(td),
        Definition::DirectiveDefinition(..) => Seq::empty(),
    }
}

/// Every diagnostic reported over the first `i` definitions.
pub open spec fn doc_errors_upto(defs: Seq<Positioned<Definition>>, i: int) -> Seq<SpecError>
    decreases i,
{
    if i <= 0 {
        Seq::empty()
    } else {
        doc_errors_upto(defs, i - 1) + def_errors(
            object_names(defs),
            utn_state_at(defs, i - 1),
            defs[i - 1],
        )
    }
}

/// Every diagnostic `check_rules` reports on a schema document, in order.
pub open spec fn doc_errors(defs: Seq<Positioned<Definition>>) -> Seq<SpecError> {
    doc_errors_upto(defs, defs.len() as int)
}

fn copy_locations(v: &Vec<Pos>) -> (r: Vec<Pos>)
    ensures
        r@ == v@,
{
    let n = v.len();
    let mut out: Vec<Pos> = Vec::new();
    let mut i: usize = 0;
    while i < n
        invariant
            0 <= i <= n,
            n == v@.len(),
            out@ == v@.subrange(0, i as int),
        decreases n - i,
    {
        out.push(v[i]);
        proof {
            assert(out@ =~= v@.subrange(0, i + 1));
        }
        i = i + 1;
    }
    proof {
        assert(out@ =~= v@);
    }
    out
}

fn to_caller_errors(found: &Vec<RuleError>) -> (r: Vec<Error>)
    ensures
        error_views(r@) == errs_view(found@),
        r@.len() == found@.len(),
{
    let n = found.len();
    let mut out: Vec<Error> = Vec::new();
    let mut i: usize = 0;
    while i < n
        invariant
            0 <= i <= n,
            n == found@.len(),
            out@.len() == i,
            error_views(out@) == errs_view(found@.subrange(0, i as int)),
        decreases n - i,
    {
        let converted = Error {
            locations: copy_locations(&found[i].locations),
            message: found[i].message.clone(),
        };
        proof {
            assert(converted@ == found@[i as int]@);
        }
        let ghost prior = out@;
        out.push(converted);
        proof {
            assert(out@ == prior.push(converted));
            assert forall|k: int| 0 <= k < out@.len() implies error_views(out@)[k] == errs_view(
                found@.subrange(0, i + 1),
            )[k] by {
                if k < i {
                    assert(error_views(prior)[k] == errs_view(found@.subrange(0, i as int))[k]);
                    assert(out@[k] == prior[k]);
                    assert(found@.subrange(0, i + 1)[k] == found@[k]);
                    assert(found@.subrange(0, i as int)[k] == found@[k]);
                } else {
                    assert(out@[k] == converted);
                    assert(found@.subrange(0, i + 1)[k] == found@[i as int]);
                }
            }
            assert(error_views(out@) =~= errs_view(found@.subrange(0, i + 1)));
        }
        i = i + 1;
    }
    proof {
        assert(found@.subrange(0, n as int) =~= found@);
        assert(error_views(out@) == errs_view(found@));
    }
    out
}

/// Runs the whole rule library over one schema document in a single
/// traversal with a fresh diagnostic context: `Ok` when no rule reports a
/// violation, otherwise every diagnostic, in document order.
pub fn check_rules(doc: &Document) -> (r: Result<(), Vec<Error>>)
    ensures
        match r {
            Ok(..) => doc_errors(doc.definitions@).len() == 0,
            Err(errors) => errors@.len() > 0 && error_views(errors@) == doc_errors(
                doc.definitions@,
            ),
        },
{
    let ghost defs = doc.definitions@;
    let mut correct = CorrectNames;
    let mut root = RootOperationTypes::new();
    let mut unique = UniqueTypeNames::new();
    let mut ctx = VisitorContext::new();

    root.enter_document(&mut ctx, doc);
    proof {
        assert(errs_view(ctx.errors@) =~= doc_errors_upto(defs, 0));
    }

    let n = doc.definitions.len();
    let mut i: usize = 0;
    while i < n
        invariant
            0 <= i <= n,
            n == defs.len(),
            defs == doc.definitions@,
            errs_view(ctx.errors@) == doc_errors_upto(defs, i as int),
            unique.seen() == utn_state_at(defs, i as int),
            root.objects_view() == object_names(defs),
        decreases n - i,
    {
        let definition = &doc.definitions[i];
        match &definition.node {
            Definition::SchemaDefinition(schema_definition) => {
                root.enter_schema_definition(&mut ctx, schema_definition);
            },
            Definition::TypeDefinition(type_definition) => {
                correct.enter_type_definition(&mut ctx, type_definition);
                unique.enter_type_definition(&mut ctx, type_definition);
                match &type_definition.node {
                    TypeDefinition::Object(object) => {
                        correct.enter_object_definition(&mut ctx, object);
                    },
                    TypeDefinition::Interface(interface) => {
                        correct.enter_interface_definition(&mut ctx, interface);
                    },
                    TypeDefinition::InputObject(input_object) => {
                        correct.enter_input_object_definition(&mut ctx, input_object);
                    },
                    _ => {},
                }
            },
            Definition::DirectiveDefinition(..) => {},
        }
        proof {
            assert(errs_view(ctx.errors@) =~= doc_errors_upto(defs, i + 1));
        }
        i = i + 1;
    }

    if ctx.errors.len() == 0 {
        proof {
            assert(errs_view(ctx.errors@) =~= Seq::<SpecError>::empty());
        }
        Ok(())
    } else {
        Err(to_caller_errors(&ctx.errors))
    }
}

proof fn lemma_correct_upto_len(defs: Seq<Positioned<Definition>>, i: int, m: int)
    requires
        0 <= i <= m <= defs.len(),
    ensures
        correct_name_errors_upto(defs, i).len() <= correct_name_errors_upto(defs, m).len(),
    decreases m - i,
{
    if i < m {
        lemma_correct_upto_len(defs, i, m - 1);
    }
}

proof fn lemma_root_upto_len(defs: Seq<Positioned<Definition>>, i: int, m: int)
    requires
        0 <= i <= m <= defs.len(),
    ensures
        root_operation_errors_upto(defs, i).len() <= root_operation_errors_upto(defs, m).len(),
    decreases m - i,
{
    if i < m {
        lemma_root_upto_len(defs, i, m - 1);
    }
}

proof fn lemma_correct_step_empty(defs: Seq<Positioned<Definition>>, i: int)
    requires
        0 <= i < defs.len(),
        correct_name_errors(defs).len() == 0,
    ensures
        correct_names_def_errors(defs[i]) == Seq::<SpecError>::empty(),
{
    lemma_correct_upto_len(defs, i + 1, defs.len() as int);
    assert(correct_names_def_errors(defs[i]) =~= Seq::<SpecError>::empty());
}

proof fn lemma_root_step_empty(defs: Seq<Positioned<Definition>>, i: int)
    requires
        0 <= i < defs.len(),
        root_operation_errors(defs).len() == 0,
    ensures
        (match defs[i].node {
            Definition::SchemaDefinition(sd) => root_schema_errors(object_names(defs), sd),
            _ => Seq::<SpecError>::empty(),
        }) == Seq::<SpecError>::empty(),
{
    lemma_root_upto_len(defs, i + 1, defs.len() as int);
    assert((match defs[i].node {
        Definition::SchemaDefinition(sd) => root_schema_errors(object_names(defs), sd),
        _ => Seq::<SpecError>::empty(),
    }) =~= Seq::<SpecError>::empty());
}

/// When neither the reserved-names rule nor the root-operation-types rule
/// reports anything, the pipeline reports exactly the unique-type-names
/// diagnostics.
pub proof fn lemma_doc_errors_only_unique(defs: Seq<Positioned<Definition>>)
    requires
        correct_name_errors(defs).len() == 0,
        root_operation_errors(defs).len() == 0,
    ensures
        doc_errors(defs) == unique_type_name_errors(defs),
{
    lemma_only_unique_upto(defs, defs.len() as int);
}

proof fn lemma_only_unique_upto(defs: Seq<Positioned<Definition>>, i: int)
    requires
        0 <= i <= defs.len(),
        correct_name_errors(defs).len() == 0,
        root_operation_errors(defs).len() == 0,
    ensures
        doc_errors_upto(defs, i) == unique_type_name_errors_upto(defs, i),
    decreases i,
{
    if i > 0 {
        lemma_only_unique_upto(defs, i - 1);
        match defs[i - 1].node {
            Definition::SchemaDefinition(sd) => {
                lemma_root_step_empty(defs, i - 1);
                assert(doc_errors_upto(defs, i) =~= unique_type_name_errors_upto(defs, i));
            },
            Definition::TypeDefinition(td) => {
                lemma_correct_step_empty(defs, i - 1);
                assert(type_name_errors(td).len() + type_definition_field_errors(td).len() == 0);
                assert(type_name_errors(td) =~= Seq::<SpecError>::empty());
                assert(type_definition_field_errors(td) =~= Seq::<SpecError>::empty());
                assert(doc_errors_upto(defs, i) =~= unique_type_name_errors_upto(defs, i));
            },
            Definition::DirectiveDefinition(..) => {
                assert(doc_errors_upto(defs, i) =~= unique_type_name_errors_upto(defs, i));
            },
        }
    }
}

/// Law: on a document where exactly one pair of type definitions shares a
/// name — at `i` and `j` — and no other rule reports anything, `check_rules`
/// reports exactly one diagnostic, naming the later definition's position
/// first and the earlier one's second, with the duplicate-type message.
pub proof fn lemma_duplicate_type_name_single_diagnostic(
    defs: Seq<Positioned<Definition>>,
    i: int,
    j: int,
)
    requires
        correct_name_errors(defs).len() == 0,
        root_operation_errors(defs).len() == 0,
        0 <= i < j < defs.len(),
        defined_type_name(defs[i]) is Some,
        defined_type_name(defs[j]) == defined_type_name(defs[i]),
        forall|k: int, l: int|
            0 <= k < l < defs.len() && !(k == i && l == j)
                && #[trigger] defined_type_name(defs[k]) is Some
                && #[trigger] defined_type_name(defs[l]) is Some ==> defined_type_name(defs[k])
                != defined_type_name(defs[l]),
    ensures
        doc_errors(defs) == seq![
            SpecError {
                locations: seq![type_def_pos(defs[j]), type_def_pos(defs[i])],
                message: msg_one_type(defined_type_name(defs[i])->Some_0),
            },
        ],
{
    lemma_doc_errors_only_unique(defs);
    lemma_duplicate_type_name_reported_once(defs, i, j);
}

/// Every diagnostic `check_executable_rules` reports on an executable
/// document: the duplicate-operation diagnostics in document order, then the
/// unused-fragment diagnostics in fragment-definition order.
pub open spec fn executable_doc_errors(defs: Seq<ExecutableDefinition>) -> Seq<SpecError> {
    unique_operation_errors(defs) + unused_fragment_errors(defs)
}

/// Runs the executable-document rules in one traversal with a fresh
/// diagnostic context: `Ok` when no rule reports a violation, otherwise
/// every diagnostic.
pub fn check_executable_rules(doc: &ExecutableDocument) -> (r: Result<(), Vec<Error>>)
    ensures
        match r {
            Ok(..) => executable_doc_errors(doc.definitions@).len() == 0,
            Err(errors) => errors@.len() > 0 && error_views(errors@) == executable_doc_errors(
                doc.definitions@,
            ),
        },
{
    let ghost defs = doc.definitions@;
    let mut unique = UniqueOperationNames::new();
    let mut usage = NoUnusedFragments::new();
    let mut ctx = VisitorContext::new();

    proof {
        assert forall|s: SpecScope|
            #[trigger] targets_of(usage.spreads_view(), s) == doc_targets_upto(defs, s, 0) by {
            assert(sp_entry(usage.spreads_view(), s, 0) is None);
            assert(targets_of(usage.spreads_view(), s) =~= doc_targets_upto(defs, s, 0));
        }
    }

    let n = doc.definitions.len();
    let mut i: usize = 0;
    while i < n
        invariant
            0 <= i <= n,
            n == defs.len(),
            defs == doc.definitions@,
            errs_view(ctx.errors@) == unique_operation_errors_upto(defs, i as int),
            unique.seen() == uon_state_at(defs, i as int),
            usage.defined_view() == defined_fragments_upto(defs, i as int),
            forall|s: SpecScope|
                #[trigger] targets_of(usage.spreads_view(), s) == doc_targets_upto(
                    defs,
                    s,
                    i as int,
                ),
        decreases n - i,
    {
        let ghost mpre = usage.spreads_view();
        match &doc.definitions[i] {
            ExecutableDefinition::Operation(operation_definition) => {
                unique.enter_operation_definition(&mut ctx, operation_definition);
                usage.enter_operation_definition(&mut ctx, operation_definition);
                walk_selection_set(&mut usage, &mut ctx, &operation_definition.node.selection_set);
            },
            ExecutableDefinition::Fragment(fragment_definition) => {
                usage.enter_fragment_definition(&mut ctx, fragment_definition);
                walk_selection_set(&mut usage, &mut ctx, &fragment_definition.node.selection_set);
            },
        }
        proof {
            assert(errs_view(ctx.errors@) =~= unique_operation_errors_upto(defs, i + 1));
            assert forall|s: SpecScope|
                #[trigger] targets_of(usage.spreads_view(), s) == doc_targets_upto(
                    defs,
                    s,
                    i + 1,
                ) by {
                assert(targets_of(mpre, s) == doc_targets_upto(defs, s, i as int));
                if s == scope_of(defs[i as int]) {
                    assert(targets_of(usage.spreads_view(), s) =~= doc_targets_upto(
                        defs,
                        s,
                        i + 1,
                    ));
                } else {
                    assert(targets_of(usage.spreads_view(), s) =~= doc_targets_upto(
                        defs,
                        s,
                        i + 1,
                    ));
                }
            }
        }
        i = i + 1;
    }

    let ghost m = usage.spreads_view();
    proof {
        assert forall|s: SpecScope| #[trigger] targets_of(m, s) == doc_targets(defs, s) by {}
    }
    usage.exit_executable_document(&mut ctx, doc);
    proof {
        lemma_unused_equiv(m, defs, defined_fragments(defs), defined_fragments(defs).len() as int);
        assert(errs_view(ctx.errors@) =~= executable_doc_errors(defs));
    }

    if ctx.errors.len() == 0 {
        proof {
            assert(errs_view(ctx.errors@) =~= Seq::<SpecError>::empty());
        }
        Ok(())
    } else {
        Err(to_caller_errors(&ctx.errors))
    }
}

/// Law: on an executable document where exactly one pair of operations
/// shares a name — at `i` and `j` — and every defined fragment is in use,
/// `check_executable_rules` reports exactly one diagnostic: the duplicate
/// operation, naming the later occurrence's position and then the defining
/// one's, with the duplicate-operation message.
pub proof fn lemma_duplicate_operation_single_diagnostic(
    defs: Seq<ExecutableDefinition>,
    i: int,
    j: int,
)
    requires
        unused_fragment_errors(defs).len() == 0,
        0 <= i < j < defs.len(),
        operation_name(defs[i]) is Some,
        operation_name(defs[j]) is Some,
        operation_name(defs[j])->Some_0.0 == operation_name(defs[i])->Some_0.0,
        forall|k: int, l: int|
            0 <= k < l < defs.len() && !(k == i && l == j)
                && #[trigger] operation_name(defs[k]) is Some
                && #[trigger] operation_name(defs[l]) is Some ==> operation_name(defs[k])->Some_0.0
                != operation_name(defs[l])->Some_0.0,
    ensures
        executable_doc_errors(defs) == seq![
            SpecError {
                locations: seq![
                    operation_name(defs[j])->Some_0.1,
                    operation_name(defs[i])->Some_0.1,
                ],
                message: msg_one_operation(operation_name(defs[i])->Some_0.0),
            },
        ],
{
    lemma_duplicate_operation_reported_once(defs, i, j);
    assert(executable_doc_errors(defs) =~= seq![
        SpecError {
            locations: seq![
                operation_name(defs[j])->Some_0.1,
                operation_name(defs[i])->Some_0.1,
            ],
            message: msg_one_operation(operation_name(defs[i])->Some_0.0),
        },
    ]);
}

/// Runs the unique-type-names rule alone over a schema document.
pub fn check_unique_type_names(doc: &Document) -> (r: Result<(), Vec<Error>>)
    ensures
        match r {
            Ok(..) => unique_type_name_errors(doc.definitions@).len() == 0,
            Err(errors) => errors@.len() > 0 && error_views(errors@) == unique_type_name_errors(
                doc.definitions@,
            ),
        },
{
    let ghost defs = doc.definitions@;
    let mut unique = UniqueTypeNames::new();
    let mut ctx = VisitorContext::new();
    let n = doc.definitions.len();
    let mut i: usize = 0;
    while i < n
        invariant
            0 <= i <= n,
            n == defs.len(),
            defs == doc.definitions@,
            errs_view(ctx.errors@) == unique_type_name_errors_upto(defs, i as int),
            unique.seen() == utn_state_at(defs, i as int),
        decreases n - i,
    {
        match &doc.definitions[i].node {
            Definition::TypeDefinition(type_definition) => {
                unique.enter_type_definition(&mut ctx, type_definition);
            },
            _ => {},
        }
        proof {
            assert(errs_view(ctx.errors@) =~= unique_type_name_errors_upto(defs, i + 1));
        }
        i = i + 1;
    }
    if ctx.errors.len() == 0 {
        proof {
            assert(errs_view(ctx.errors@) =~= Seq::<SpecError>::empty());
        }
        Ok(())
    } else {
        Err(to_caller_errors(&ctx.errors))
    }
}

/// Runs the root-operation-types rule alone over a schema document.
pub fn check_root_operation_types(doc: &Document) -> (r: Result<(), Vec<Error>>)
    ensures
        match r {
            Ok(..) => root_operation_errors(doc.definitions@).len() == 0,
            Err(errors) => errors@.len() > 0 && error_views(errors@) == root_operation_errors(
                doc.definitions@,
            ),
        },
{
    let ghost defs = doc.definitions@;
    let mut root = RootOperationTypes::new();
    let mut ctx = VisitorContext::new();
    root.enter_document(&mut ctx, doc);
    proof {
        assert(errs_view(ctx.errors@) =~= root_operation_errors_upto(defs, 0));
    }
    let n = doc.definitions.len();
    let mut i: usize = 0;
    while i < n
        invariant
            0 <= i <= n,
            n == defs.len(),
            defs == doc.definitions@,
            errs_view(ctx.errors@) == root_operation_errors_upto(defs, i as int),
            root.objects_view() == object_names(defs),
        decreases n - i,
    {
        match &doc.definitions[i].node {
            Definition::SchemaDefinition(schema_definition) => {
                root.enter_schema_definition(&mut ctx, schema_definition);
            },
            _ => {},
        }
        proof {
            assert(errs_view(ctx.errors@) =~= root_operation_errors_upto(defs, i + 1));
        }
        i = i + 1;
    }
    if ctx.errors.len() == 0 {
        proof {
            assert(errs_view(ctx.errors@) =~= Seq::<SpecError>::empty());
        }
        Ok(())
    } else {
        Err(to_caller_errors(&ctx.errors))
    }
}

/// Runs the reserved-names rule alone over a schema document.
pub fn check_correct_names(doc: &Document) -> (r: Result<(), Vec<Error>>)
    ensures
        match r {
            Ok(..) => correct_name_errors(doc.definitions@).len() == 0,
            Err(errors) => errors@.len() > 0 && error_views(errors@) == correct_name_errors(
                doc.definitions@,
            ),
        },
{
    let ghost defs = doc.definitions@;
    let mut correct = CorrectNames;
    let mut ctx = VisitorContext::new();
    let n = doc.definitions.len();
    let mut i: usize = 0;
    while i < n
        invariant
            0 <= i <= n,
            n == defs.len(),
            defs == doc.definitions@,
            errs_view(ctx.errors@) == correct_name_errors_upto(defs, i as int),
        decreases n - i,
    {
        match &doc.definitions[i].node {
            Definition::TypeDefinition(type_definition) => {
                correct.enter_type_definition(&mut ctx, type_definition);
                match &type_definition.node {
                    TypeDefinition::Object(object) => {
                        correct.enter_object_definition(&mut ctx, object);
                    },
                    TypeDefinition::Interface(interface) => {
                        correct.enter_interface_definition(&mut ctx, interface);
                    },
                    TypeDefinition::InputObject(input_object) => {
                        correct.enter_input_object_definition(&mut ctx, input_object);
                    },
                    _ => {},
                }
            },
            _ => {},
        }
        proof {
            assert(errs_view(ctx.errors@) =~= correct_name_errors_upto(defs, i + 1));
        }
        i = i + 1;
    }
    if ctx.errors.len() == 0 {
        proof {
            assert(errs_view(ctx.errors@) =~= Seq::<SpecError>::empty());
        }
        Ok(())
    } else {
        Err(to_caller_errors(&ctx.errors))
    }
}

/// Runs the unique-operation-names rule alone over an executable document.
pub fn check_unique_operation_names(doc: &ExecutableDocument) -> (r: Result<(), Vec<Error>>)
    ensures
        match r {
            Ok(..) => unique_operation_errors(doc.definitions@).len() == 0,
            Err(errors) => errors@.len() > 0 && error_views(errors@) == unique_operation_errors(
                doc.definitions@,
            ),
        },
{
    let ghost defs = doc.definitions@;
    let mut unique = UniqueOperationNames::new();
    let mut ctx = VisitorContext::new();
    let n = doc.definitions.len();
    let mut i: usize = 0;
    while i < n
        invariant
            0 <= i <= n,
            n == defs.len(),
            defs == doc.definitions@,
            errs_view(ctx.errors@) == unique_operation_errors_upto(defs, i as int),
            unique.seen() == uon_state_at(defs, i as int),
        decreases n - i,
    {
        match &doc.definitions[i] {
            ExecutableDefinition::Operation(operation_definition) => {
                unique.enter_operation_definition(&mut ctx, operation_definition);
            },
            _ => {},
        }
        proof {
            assert(errs_view(ctx.errors@) =~= unique_operation_errors_upto(defs, i + 1));
        }
        i = i + 1;
    }
    if ctx.errors.len() == 0 {
        proof {
            assert(errs_view(ctx.errors@) =~= Seq::<SpecError>::empty());
        }
        Ok(())
    } else {
        Err(to_caller_errors(&ctx.errors))
    }
}

/// Runs the fragment-usage rule alone over an executable document.
pub fn check_no_unused_fragments(doc: &ExecutableDocument) -> (r: Result<(), Vec<Error>>)
    ensures
        match r {
            Ok(..) => unused_fragment_errors(doc.definitions@).len() == 0,
            Err(errors) => errors@.len() > 0 && error_views(errors@) == unused_fragment_errors(
                doc.definitions@,
            ),
        },
{
    let ghost defs = doc.definitions@;
    let mut usage = NoUnusedFragments::new();
    let mut ctx = VisitorContext::new();
    proof {
        assert forall|s: SpecScope|
            #[trigger] targets_of(usage.spreads_view(), s) == doc_targets_upto(defs, s, 0) by {
            assert(sp_entry(usage.spreads_view(), s, 0) is None);
            assert(targets_of(usage.spreads_view(), s) =~= doc_targets_upto(defs, s, 0));
        }
    }
    let n = doc.definitions.len();
    let mut i: usize = 0;
    while i < n
        invariant
            0 <= i <= n,
            n == defs.len(),
            defs == doc.definitions@,
            ctx.errors@.len() == 0,
            usage.defined_view() == defined_fragments_upto(defs, i as int),
            forall|s: SpecScope|
                #[trigger] targets_of(usage.spreads_view(), s) == doc_targets_upto(
                    defs,
                    s,
                    i as int,
                ),
        decreases n - i,
    {
        let ghost mpre = usage.spreads_view();
        match &doc.definitions[i] {
            ExecutableDefinition::Operation(operation_definition) => {
                usage.enter_operation_definition(&mut ctx, operation_definition);
                walk_selection_set(&mut usage, &mut ctx, &operation_definition.node.selection_set);
            },
            ExecutableDefinition::Fragment(fragment_definition) => {
                usage.enter_fragment_definition(&mut ctx, fragment_definition);
                walk_selection_set(&mut usage, &mut ctx, &fragment_definition.node.selection_set);
            },
        }
        proof {
            assert forall|s: SpecScope|
                #[trigger] targets_of(usage.spreads_view(), s) == doc_targets_upto(
                    defs,
                    s,
                    i + 1,
                ) by {
                assert(targets_of(mpre, s) == doc_targets_upto(defs, s, i as int));
                if s == scope_of(defs[i as int]) {
                    assert(targets_of(usage.spreads_view(), s) =~= doc_targets_upto(
                        defs,
                        s,
                        i + 1,
                    ));
                } else {
                    assert(targets_of(usage.spreads_view(), s) =~= doc_targets_upto(
                        defs,
                        s,
                        i + 1,
                    ));
                }
            }
        }
        i = i + 1;
    }
    let ghost m = usage.spreads_view();
    proof {
        assert forall|s: SpecScope| #[trigger] targets_of(m, s) == doc_targets(defs, s) by {}
    }
    usage.exit_executable_document(&mut ctx, doc);
    proof {
        lemma_unused_equiv(m, defs, defined_fragments(defs), defined_fragments(defs).len() as int);
        assert(errs_view(ctx.errors@) =~= unused_fragment_errors(defs));
    }
    if ctx.errors.len() == 0 {
        proof {
            assert(errs_view(ctx.errors@) =~= Seq::<SpecError>::empty());
        }
        Ok(())
    } else {
        Err(to_caller_errors(&ctx.errors))
    }
}

} // verus!
