//! The positioned tree of an executable (query) document.
//!
//! Selections nest arbitrarily deep; the fragment-usage rule observes
//! fragment spreads wherever they occur inside a selection set.

use vstd::prelude::*;

use crate::common::Value;
use crate::pos::Positioned;

verus! {

/// An executable document: operations and fragment definitions in source
/// order.
#[derive(Debug)]
pub struct ExecutableDocument {
    pub definitions: Vec<ExecutableDefinition>,
}

/// One top-level definition of an executable document.
#[derive(Debug)]
pub enum ExecutableDefinition {
    Operation(Positioned<OperationDefinition>),
    Fragment(Positioned<FragmentDefinition>),
}

/// Which kind of operation a definition is.
#[derive(Clone, Copy, Debug, PartialEq, Eq, Structural)]
pub enum OperationType {
    Query,
    Mutation,
    Subscription,
}

/// An operation: an optional name and a selection set.
#[derive(Debug)]
pub struct OperationDefinition {
    pub ty: OperationType,
    pub name: Option<Positioned<String>>,
    pub selection_set: Positioned<SelectionSet>,
}

/// A fragment definition: a required name, the type it applies to, and a
/// selection set.
#[derive(Debug)]
pub struct FragmentDefinition {
    pub name: Positioned<String>,
    pub type_condition: Positioned<String>,
    pub selection_set: Positioned<SelectionSet>,
}

/// A braced group of selections.
#[derive(Debug)]
pub struct SelectionSet {
    pub items: Vec<Positioned<Selection>>,
}

/// One selection: a field, a named fragment spread, or an inline fragment.
#[derive(Debug)]
pub enum Selection {
    Field(Positioned<Field>),
    FragmentSpread(Positioned<FragmentSpread>),
    InlineFragment(Positioned<InlineFragment>),
}

/// A field selection, possibly with arguments and a nested selection set.
#[derive(Debug)]
pub struct Field {
    pub alias: Option<Positioned<String>>,
    pub name: Positioned<String>,
    pub arguments: Vec<(Positioned<String>, Positioned<Value>)>,
    pub selection_set: Positioned<SelectionSet>,
}

/// A `...Name` reference to a fragment definition.
#[derive(Debug)]
pub struct FragmentSpread {
    pub fragment_name: Positioned<String>,
}

/// An `... on Type { ... }` selection.
#[derive(Debug)]
pub struct InlineFragment {
    pub type_condition: Option<Positioned<String>>,
    pub selection_set: Positioned<SelectionSet>,
}

} // verus!
