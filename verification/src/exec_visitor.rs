//! The visitor contract over executable documents and its traversal engine.
//!
//! The walk recurses into operation and fragment bodies: selection sets,
//! individual selections, and fragment spreads each get their own
//! `enter`/`exit` pair, so rules can track structure nested arbitrarily
//! deep — the fragment-usage rule observes spreads wherever they occur.
//! `VisitorNil` and `VisitorCons` compose executable visitors exactly as
//! they compose schema visitors.

use vstd::prelude::*;

use crate::executable_ast::{
    ExecutableDefinition, ExecutableDocument, Field, FragmentDefinition, FragmentSpread,
    InlineFragment, OperationDefinition, Selection, SelectionSet,
};
use crate::pos::Positioned;
use crate::visitor::{only_appends, VisitorCons, VisitorContext, VisitorNil};

verus! {

/// The visitor contract for executable documents: one `enter`/`exit` pair
/// per node kind, each with a no-op default, and each promising only to
/// append to the accumulated diagnostics.
pub trait ExecutableVisitor: Sized {
    fn enter_executable_document(&mut self, ctx: &mut VisitorContext, doc: &ExecutableDocument)
        ensures
            only_appends(old(ctx).errors@, final(ctx).errors@),
    {
    }

    fn exit_executable_document(&mut self, ctx: &mut VisitorContext, doc: &ExecutableDocument)
        ensures
            only_appends(old(ctx).errors@, final(ctx).errors@),
    {
    }

    fn enter_executable_definition(
        &mut self,
        ctx: &mut VisitorContext,
        definition: &ExecutableDefinition,
    )
        ensures
            only_appends(old(ctx).errors@, final(ctx).errors@),
    {
    }

    fn exit_executable_definition(
        &mut self,
        ctx: &mut VisitorContext,
        definition: &ExecutableDefinition,
    )
        ensures
            only_appends(old(ctx).errors@, final(ctx).errors@),
    {
    }

    fn enter_operation_definition(
        &mut self,
        ctx: &mut VisitorContext,
        operation_definition: &Positioned<OperationDefinition>,
    )
        ensures
            only_appends(old(ctx).errors@, final(ctx).errors@),
    {
    }

    fn exit_operation_definition(
        &mut self,
        ctx: &mut VisitorContext,
        operation_definition: &Positioned<OperationDefinition>,
    )
        ensures
            only_appends(old(ctx).errors@, final(ctx).errors@),
    {
    }

    fn enter_fragment_definition(
        &mut self,
        ctx: &mut VisitorContext,
        fragment_definition: &Positioned<FragmentDefinition>,
    )
        ensures
            only_appends(old(ctx).errors@, final(ctx).errors@),
    {
    }

    fn exit_fragment_definition(
        &mut self,
        ctx: &mut VisitorContext,
        fragment_definition: &Positioned<FragmentDefinition>,
    )
        ensures
            only_appends(old(ctx).errors@, final(ctx).errors@),
    {
    }

    fn enter_selection_set(
        &mut self,
        ctx: &mut VisitorContext,
        selection_set: &Positioned<SelectionSet>,
    )
        ensures
            only_appends(old(ctx).errors@, final(ctx).errors@),
    {
    }

    fn exit_selection_set(
        &mut self,
        ctx: &mut VisitorContext,
        selection_set: &Positioned<SelectionSet>,
    )
        ensures
            only_appends(old(ctx).errors@, final(ctx).errors@),
    {
    }

    fn enter_selection(&mut self, ctx: &mut VisitorContext, selection: &Positioned<Selection>)
        ensures
            only_appends(old(ctx).errors@, final(ctx).errors@),
    {
    }

    fn exit_selection(&mut self, ctx: &mut VisitorContext, selection: &Positioned<Selection>)
        ensures
            only_appends(old(ctx).errors@, final(ctx).errors@),
    {
    }

    fn enter_field(&mut self, ctx: &mut VisitorContext, field: &Positioned<Field>)
        ensures
            only_appends(old(ctx).errors@, final(ctx).errors@),
    {
    }

    fn exit_field(&mut self, ctx: &mut VisitorContext, field: &Positioned<Field>)
        ensures
            only_appends(old(ctx).errors@, final(ctx).errors@),
    {
    }

    fn enter_fragment_spread(
        &mut self,
        ctx: &mut VisitorContext,
        fragment_spread: &Positioned<FragmentSpread>,
    )
        ensures
            only_appends(old(ctx).errors@, final(ctx).errors@),
    {
    }

    fn exit_fragment_spread(
        &mut self,
        ctx: &mut VisitorContext,
        fragment_spread: &Positioned<FragmentSpread>,
    )
        ensures
            only_appends(old(ctx).errors@, final(ctx).errors@),
    {
    }

    fn enter_inline_fragment(
        &mut self,
        ctx: &mut VisitorContext,
        inline_fragment: &Positioned<InlineFragment>,
    )
        ensures
            only_appends(old(ctx).errors@, final(ctx).errors@),
    {
    }

    fn exit_inline_fragment(
        &mut self,
        ctx: &mut VisitorContext,
        inline_fragment: &Positioned<InlineFragment>,
    )
        ensures
            only_appends(old(ctx).errors@, final(ctx).errors@),
    {
    }
}

impl ExecutableVisitor for VisitorNil {
    fn enter_executable_document(&mut self, ctx: &mut VisitorContext, doc: &ExecutableDocument)
        ensures
            final(ctx).errors@ == old(ctx).errors@,
    {
    }

    fn exit_executable_document(&mut self, ctx: &mut VisitorContext, doc: &ExecutableDocument)
        ensures
            final(ctx).errors@ == old(ctx).errors@,
    {
    }

    fn enter_executable_definition(&mut self, ctx: &mut VisitorContext, definition: &ExecutableDefinition)
        ensures
            final(ctx).errors@ == old(ctx).errors@,
    {
    }

    fn exit_executable_definition(&mut self, ctx: &mut VisitorContext, definition: &ExecutableDefinition)
        ensures
            final(ctx).errors@ == old(ctx).errors@,
    {
    }

    fn enter_operation_definition(&mut self, ctx: &mut VisitorContext, operation_definition: &Positioned<OperationDefinition>)
        ensures
            final(ctx).errors@ == old(ctx).errors@,
    {
    }

    fn exit_operation_definition(&mut self, ctx: &mut VisitorContext, operation_definition: &Positioned<OperationDefinition>)
        ensures
            final(ctx).errors@ == old(ctx).errors@,
    {
    }

    fn enter_fragment_definition(&mut self, ctx: &mut VisitorContext, fragment_definition: &Positioned<FragmentDefinition>)
        ensures
            final(ctx).errors@ == old(ctx).errors@,
    {
    }

    fn exit_fragment_definition(&mut self, ctx: &mut VisitorContext, fragment_definition: &Positioned<FragmentDefinition>)
        ensures
            final(ctx).errors@ == old(ctx).errors@,
    {
    }

    fn enter_selection_set(&mut self, ctx: &mut VisitorContext, selection_set: &Positioned<SelectionSet>)
        ensures
            final(ctx).errors@ == old(ctx).errors@,
    {
    }

    fn exit_selection_set(&mut self, ctx: &mut VisitorContext, selection_set: &Positioned<SelectionSet>)
        ensures
            final(ctx).errors@ == old(ctx).errors@,
    {
    }

    fn enter_selection(&mut self, ctx: &mut VisitorContext, selection: &Positioned<Selection>)
        ensures
            final(ctx).errors@ == old(ctx).errors@,
    {
    }

    fn exit_selection(&mut self, ctx: &mut VisitorContext, selection: &Positioned<Selection>)
        ensures
            final(ctx).errors@ == old(ctx).errors@,
    {
    }

    fn enter_field(&mut self, ctx: &mut VisitorContext, field: &Positioned<Field>)
        ensures
            final(ctx).errors@ == old(ctx).errors@,
    {
    }

    fn exit_field(&mut self, ctx: &mut VisitorContext, field: &Positioned<Field>)
        ensures
            final(ctx).errors@ == old(ctx).errors@,
    {
    }

    fn enter_fragment_spread(&mut self, ctx: &mut VisitorContext, fragment_spread: &Positioned<FragmentSpread>)
        ensures
            final(ctx).errors@ == old(ctx).errors@,
    {
    }

    fn exit_fragment_spread(&mut self, ctx: &mut VisitorContext, fragment_spread: &Positioned<FragmentSpread>)
        ensures
            final(ctx).errors@ == old(ctx).errors@,
    {
    }

    fn enter_inline_fragment(&mut self, ctx: &mut VisitorContext, inline_fragment: &Positioned<InlineFragment>)
        ensures
            final(ctx).errors@ == old(ctx).errors@,
    {
    }

    fn exit_inline_fragment(&mut self, ctx: &mut VisitorContext, inline_fragment: &Positioned<InlineFragment>)
        ensures
            final(ctx).errors@ == old(ctx).errors@,
    {
    }
}

impl<A: ExecutableVisitor, B: ExecutableVisitor> ExecutableVisitor for VisitorCons<A, B> {
    fn enter_executable_document(&mut self, ctx: &mut VisitorContext, doc: &ExecutableDocument) {
        self.0.enter_executable_document(ctx, doc);
        self.1.enter_executable_document(ctx, doc);
    }

    fn exit_executable_document(&mut self, ctx: &mut VisitorContext, doc: &ExecutableDocument) {
        self.0.exit_executable_document(ctx, doc);
        self.1.exit_executable_document(ctx, doc);
    }

    fn enter_executable_definition(
        &mut self,
        ctx: &mut VisitorContext,
        definition: &ExecutableDefinition,
    ) {
        self.0.enter_executable_definition(ctx, definition);
        self.1.enter_executable_definition(ctx, definition);
    }

    fn exit_executable_definition(
        &mut self,
        ctx: &mut VisitorContext,
        definition: &ExecutableDefinition,
    ) {
        self.0.exit_executable_definition(ctx, definition);
        self.1.exit_executable_definition(ctx, definition);
    }

    fn enter_operation_definition(
        &mut self,
        ctx: &mut VisitorContext,
        operation_definition: &Positioned<OperationDefinition>,
    ) {
        self.0.enter_operation_definition(ctx, operation_definition);
        self.1.enter_operation_definition(ctx, operation_definition);
    }

    fn exit_operation_definition(
        &mut self,
        ctx: &mut VisitorContext,
        operation_definition: &Positioned<OperationDefinition>,
    ) {
        self.0.exit_operation_definition(ctx, operation_definition);
        self.1.exit_operation_definition(ctx, operation_definition);
    }

    fn enter_fragment_definition(
        &mut self,
        ctx: &mut VisitorContext,
        fragment_definition: &Positioned<FragmentDefinition>,
    ) {
        self.0.enter_fragment_definition(ctx, fragment_definition);
        self.1.enter_fragment_definition(ctx, fragment_definition);
    }

    fn exit_fragment_definition(
        &mut self,
        ctx: &mut VisitorContext,
        fragment_definition: &Positioned<FragmentDefinition>,
    ) {
        self.0.exit_fragment_definition(ctx, fragment_definition);
        self.1.exit_fragment_definition(ctx, fragment_definition);
    }

    fn enter_selection_set(
        &mut self,
        ctx: &mut VisitorContext,
        selection_set: &Positioned<SelectionSet>,
    ) {
        self.0.enter_selection_set(ctx, selection_set);
        self.1.enter_selection_set(ctx, selection_set);
    }

    fn exit_selection_set(
        &mut self,
        ctx: &mut VisitorContext,
        selection_set: &Positioned<SelectionSet>,
    ) {
        self.0.exit_selection_set(ctx, selection_set);
        self.1.exit_selection_set(ctx, selection_set);
    }

    fn enter_selection(&mut self, ctx: &mut VisitorContext, selection: &Positioned<Selection>) {
        self.0.enter_selection(ctx, selection);
        self.1.enter_selection(ctx, selection);
    }

    fn exit_selection(&mut self, ctx: &mut VisitorContext, selection: &Positioned<Selection>) {
        self.0.exit_selection(ctx, selection);
        self.1.exit_selection(ctx, selection);
    }

    fn enter_field(&mut self, ctx: &mut VisitorContext, field: &Positioned<Field>) {
        self.0.enter_field(ctx, field);
        self.1.enter_field(ctx, field);
    }

    fn exit_field(&mut self, ctx: &mut VisitorContext, field: &Positioned<Field>) {
        self.0.exit_field(ctx, field);
        self.1.exit_field(ctx, field);
    }

    fn enter_fragment_spread(
        &mut self,
        ctx: &mut VisitorContext,
        fragment_spread: &Positioned<FragmentSpread>,
    ) {
        self.0.enter_fragment_spread(ctx, fragment_spread);
        self.1.enter_fragment_spread(ctx, fragment_spread);
    }

    fn exit_fragment_spread(
        &mut self,
        ctx: &mut VisitorContext,
        fragment_spread: &Positioned<FragmentSpread>,
    ) {
        self.0.exit_fragment_spread(ctx, fragment_spread);
        self.1.exit_fragment_spread(ctx, fragment_spread);
    }

    fn enter_inline_fragment(
        &mut self,
        ctx: &mut VisitorContext,
        inline_fragment: &Positioned<InlineFragment>,
    ) {
        self.0.enter_inline_fragment(ctx, inline_fragment);
        self.1.enter_inline_fragment(ctx, inline_fragment);
    }

    fn exit_inline_fragment(
        &mut self,
        ctx: &mut VisitorContext,
        inline_fragment: &Positioned<InlineFragment>,
    ) {
        self.0.exit_inline_fragment(ctx, inline_fragment);
        self.1.exit_inline_fragment(ctx, inline_fragment);
    }
}

/// Drives one depth-first walk of an executable document, invoking the
/// matching `enter`/`exit` pair for each node kind it encounters, in
/// document order, recursing into selection sets.
pub fn visit_executable<V: ExecutableVisitor>(
    v: &mut V,
    ctx: &mut VisitorContext,
    doc: &ExecutableDocument,
)
    ensures
        only_appends(old(ctx).errors@, final(ctx).errors@),
{
    v.enter_executable_document(ctx, doc);
    let n = doc.definitions.len();
    let mut i: usize = 0;
    while i < n
        invariant
            0 <= i <= n,
            n == doc.definitions@.len(),
            only_appends(old(ctx).errors@, ctx.errors@),
        decreases n - i,
    {
        visit_executable_definition(v, ctx, &doc.definitions[i]);
        i = i + 1;
    }
    v.exit_executable_document(ctx, doc);
}

fn visit_executable_definition<V: ExecutableVisitor>(
    v: &mut V,
    ctx: &mut VisitorContext,
    definition: &ExecutableDefinition,
)
    ensures
        only_appends(old(ctx).errors@, final(ctx).errors@),
{
    v.enter_executable_definition(ctx, definition);
    match definition {
        ExecutableDefinition::Operation(operation_definition) => {
            v.enter_operation_definition(ctx, operation_definition);
            visit_selection_set(v, ctx, &operation_definition.node.selection_set);
            v.exit_operation_definition(ctx, operation_definition);
        },
        ExecutableDefinition::Fragment(fragment_definition) => {
            v.enter_fragment_definition(ctx, fragment_definition);
            visit_selection_set(v, ctx, &fragment_definition.node.selection_set);
            v.exit_fragment_definition(ctx, fragment_definition);
        },
    }
    v.exit_executable_definition(ctx, definition);
}

fn visit_selection_set<V: ExecutableVisitor>(
    v: &mut V,
    ctx: &mut VisitorContext,
    selection_set: &Positioned<SelectionSet>,
)
    ensures
        only_appends(old(ctx).errors@, final(ctx).errors@),
    decreases selection_set.node,
{
    v.enter_selection_set(ctx, selection_set);
    let n = selection_set.node.items.len();
    let mut i: usize = 0;
    while i < n
        invariant
            0 <= i <= n,
            n == selection_set.node.items@.len(),
            only_appends(old(ctx).errors@, ctx.errors@),
        decreases n - i,
    {
        proof {
            assert(selection_set.node.items@[i as int].node == selection_set.node.items[
                i as int
            ].node);
        }
        visit_selection(v, ctx, &selection_set.node.items[i]);
        i = i + 1;
    }
    v.exit_selection_set(ctx, selection_set);
}

fn visit_selection<V: ExecutableVisitor>(
    v: &mut V,
    ctx: &mut VisitorContext,
    selection: &Positioned<Selection>,
)
    ensures
        only_appends(old(ctx).errors@, final(ctx).errors@),
    decreases selection.node,
{
    v.enter_selection(ctx, selection);
    match &selection.node {
        Selection::Field(field) => {
            v.enter_field(ctx, field);
            visit_selection_set(v, ctx, &field.node.selection_set);
            v.exit_field(ctx, field);
        },
        Selection::FragmentSpread(fragment_spread) => {
            v.enter_fragment_spread(ctx, fragment_spread);
            v.exit_fragment_spread(ctx, fragment_spread);
        },
        Selection::InlineFragment(inline_fragment) => {
            v.enter_inline_fragment(ctx, inline_fragment);
            visit_selection_set(v, ctx, &inline_fragment.node.selection_set);
            v.exit_inline_fragment(ctx, inline_fragment);
        },
    }
    v.exit_selection(ctx, selection);
}

} // verus!
