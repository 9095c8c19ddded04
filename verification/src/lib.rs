//! Semantic validation for GraphQL documents.
//!
//! Given an already-parsed abstract syntax tree of a schema-definition
//! document or an executable query document, the library walks the tree and
//! checks a battery of independent well-formedness rules (uniqueness of
//! names, reachability of referenced fragments, reserved-name conventions,
//! structural constraints on root types), collecting every violation with
//! its source position rather than failing on the first.
//!
//! The rules are visitors over one depth-first traversal; `check_rules` and
//! `check_executable_rules` run the whole library, and each rule can also
//! be run alone. What each pipeline reports is stated exactly by the spec
//! functions beside it — `doc_errors`, `executable_doc_errors` — and the
//! laws the rules obey are proved in the `validation` modules.

use vstd::prelude::*;

mod common;
mod directives;
mod error;
mod exec_visitor;
mod executable_ast;
mod parser;
mod pos;
mod schema;
mod schema_ast;
mod text;
pub mod validation;
mod visitor;

pub use common::{lemma_type_text_round_trip, parse_type, Directive, SpecType, Type, Value};
pub use directives::scalar_type;
pub use error::Error;
pub use exec_visitor::{visit_executable, ExecutableVisitor};
pub use executable_ast::{
    ExecutableDefinition, ExecutableDocument, FragmentDefinition, FragmentSpread, InlineFragment,
    OperationDefinition, OperationType, Selection, SelectionSet,
};
pub use parser::{parse_executable_document, parse_schema_document, ParseError};
pub use pos::{Pos, Positioned};
pub use schema::{
    format_error_lines, is_syntax_error_text, is_validation_error_text, spec_error_lines,
    validate_document, Schema,
};
pub use schema_ast::{
    Definition, DirectiveDefinition, DirectiveLocation, Document, EnumType, EnumValue, Field,
    InputObjectType, InputValue, InterfaceType, ObjectType, ScalarType, SchemaDefinition,
    TypeDefinition, UnionType,
};
pub use validation::correct_names::CorrectNames;
pub use validation::no_unused_fragments::{NoUnusedFragments, Scope};
pub use validation::root_operation_types::RootOperationTypes;
pub use validation::unique_operation_names::UniqueOperationNames;
pub use validation::unique_type_names::UniqueTypeNames;
pub use validation::{
    check_correct_names, check_executable_rules, check_no_unused_fragments, check_rules,
    check_root_operation_types, check_unique_operation_names, check_unique_type_names,
};
pub use visitor::{visit, RuleError, Visitor, VisitorCons, VisitorContext, VisitorNil};

verus! {

} // verus!
