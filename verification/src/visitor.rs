//! The visitor contract over schema documents, visitor composition, and the
//! traversal engine.
//!
//! A visitor is a capability set with one `enter`/`exit` pair per node kind;
//! every method has a no-op default, so a concrete rule implements only what
//! it needs. Any number of visitors combine into one (`VisitorNil::with`,
//! `VisitorCons::with`) that runs them all, in registration order, against
//! the same tree and the same diagnostic context. Every hook promises that
//! it only appends to the accumulated diagnostics: reporting never
//! short-circuits traversal or other rules.

use vstd::prelude::*;

use crate::common::Directive;
use crate::pos::{Pos, Positioned};
use crate::schema_ast::{
    Definition, DirectiveDefinition, Document, EnumType, EnumValue, Field, InputObjectType,
    InputValue, InterfaceType, ObjectType, ScalarType, SchemaDefinition, TypeDefinition,
    UnionType,
};

verus! {

/// The mathematical shape of one diagnostic.
pub ghost struct SpecError {
    pub locations: Seq<Pos>,
    pub message: Seq<char>,
}

/// One reported violation: a message and the source positions it points at.
///
/// Multiple locations let a rule point at both an offending node and a prior
/// conflicting one.
#[derive(Debug, PartialEq)]
pub struct RuleError {
    pub locations: Vec<Pos>,
    pub message: String,
}

impl View for RuleError {
    type V = SpecError;

    open spec fn view(&self) -> SpecError {
        SpecError { locations: self.locations@, message: self.message@ }
    }
}

/// The views of a sequence of diagnostics.
pub open spec fn errs_view(errors: Seq<RuleError>) -> Seq<SpecError> {
    errors.map_values(|e: RuleError| e@)
}

/// The diagnostic context: one mutable error sink threaded by reference
/// through one traversal. Empty after a pass means the document passed.
pub struct VisitorContext {
    pub errors: Vec<RuleError>,
}

impl VisitorContext {
    /// A fresh context with no diagnostics.
    pub fn new() -> (r: Self)
        ensures
            r.errors@.len() == 0,
    {
        VisitorContext { errors: Vec::new() }
    }

    /// Appends a diagnostic; never removes or reorders earlier ones.
    pub fn report_error(&mut self, locations: Vec<Pos>, msg: String)
        ensures
            final(self).errors@ == old(self).errors@.push(
                RuleError { locations, message: msg },
            ),
            errs_view(final(self).errors@) == errs_view(old(self).errors@).push(
                SpecError { locations: locations@, message: msg@ },
            ),
    {
        let ghost prior = self.errors@;
        let e = RuleError { locations, message: msg };
        let ghost ev = e@;
        self.errors.push(e);
        proof {
            assert(errs_view(self.errors@) =~= errs_view(prior).push(ev));
        }
    }
}

/// Whether `post` extends `pre` without disturbing what was already there.
pub open spec fn only_appends(pre: Seq<RuleError>, post: Seq<RuleError>) -> bool {
    &&& post.len() >= pre.len()
    &&& forall|i: int| 0 <= i < pre.len() ==> post[i] == pre[i]
}

/// The visitor contract: one `enter`/`exit` pair per node kind of a schema
/// document, each with a no-op default. `enter` fires on arrival (pre-order)
/// and `exit` on departure (post-order), always paired, even for nodes
/// without children.
pub trait Visitor: Sized {
    fn enter_document(&mut self, ctx: &mut VisitorContext, doc: &Document)
        ensures
            only_appends(old(ctx).errors@, final(ctx).errors@),
    {
    }

    fn exit_document(&mut self, ctx: &mut VisitorContext, doc: &Document)
        ensures
            only_appends(old(ctx).errors@, final(ctx).errors@),
    {
    }

    fn enter_definition(&mut self, ctx: &mut VisitorContext, definition: &Positioned<Definition>)
        ensures
            only_appends(old(ctx).errors@, final(ctx).errors@),
    {
    }

    fn exit_definition(&mut self, ctx: &mut VisitorContext, definition: &Positioned<Definition>)
        ensures
            only_appends(old(ctx).errors@, final(ctx).errors@),
    {
    }

    fn enter_schema_definition(
        &mut self,
        ctx: &mut VisitorContext,
        schema_definition: &Positioned<SchemaDefinition>,
    )
        ensures
            only_appends(old(ctx).errors@, final(ctx).errors@),
    {
    }

    fn exit_schema_definition(
        &mut self,
        ctx: &mut VisitorContext,
        schema_definition: &Positioned<SchemaDefinition>,
    )
        ensures
            only_appends(old(ctx).errors@, final(ctx).errors@),
    {
    }

    fn enter_type_definition(
        &mut self,
        ctx: &mut VisitorContext,
        type_definition: &Positioned<TypeDefinition>,
    )
        ensures
            only_appends(old(ctx).errors@, final(ctx).errors@),
    {
    }

    fn exit_type_definition(
        &mut self,
        ctx: &mut VisitorContext,
        type_definition: &Positioned<TypeDefinition>,
    )
        ensures
            only_appends(old(ctx).errors@, final(ctx).errors@),
    {
    }

    fn enter_directive_definition(
        &mut self,
        ctx: &mut VisitorContext,
        directive_definition: &Positioned<DirectiveDefinition>,
    )
        ensures
            only_appends(old(ctx).errors@, final(ctx).errors@),
    {
    }

    fn exit_directive_definition(
        &mut self,
        ctx: &mut VisitorContext,
        directive_definition: &Positioned<DirectiveDefinition>,
    )
        ensures
            only_appends(old(ctx).errors@, final(ctx).errors@),
    {
    }

    fn enter_scalar_definition(
        &mut self,
        ctx: &mut VisitorContext,
        scalar_definition: &Positioned<ScalarType>,
    )
        ensures
            only_appends(old(ctx).errors@, final(ctx).errors@),
    {
    }

    fn exit_scalar_definition(
        &mut self,
        ctx: &mut VisitorContext,
        scalar_definition: &Positioned<ScalarType>,
    )
        ensures
            only_appends(old(ctx).errors@, final(ctx).errors@),
    {
    }

    fn enter_object_definition(
        &mut self,
        ctx: &mut VisitorContext,
        object_definition: &Positioned<ObjectType>,
    )
        ensures
            only_appends(old(ctx).errors@, final(ctx).errors@),
    {
    }

    fn exit_object_definition(
        &mut self,
        ctx: &mut VisitorContext,
        object_definition: &Positioned<ObjectType>,
    )
        ensures
            only_appends(old(ctx).errors@, final(ctx).errors@),
    {
    }

    fn enter_interface_definition(
        &mut self,
        ctx: &mut VisitorContext,
        interface_definition: &Positioned<InterfaceType>,
    )
        ensures
            only_appends(old(ctx).errors@, final(ctx).errors@),
    {
    }

    fn exit_interface_definition(
        &mut self,
        ctx: &mut VisitorContext,
        interface_definition: &Positioned<InterfaceType>,
    )
        ensures
            only_appends(old(ctx).errors@, final(ctx).errors@),
    {
    }

    fn enter_union_definition(
        &mut self,
        ctx: &mut VisitorContext,
        union_definition: &Positioned<UnionType>,
    )
        ensures
            only_appends(old(ctx).errors@, final(ctx).errors@),
    {
    }

    fn exit_union_definition(
        &mut self,
        ctx: &mut VisitorContext,
        union_definition: &Positioned<UnionType>,
    )
        ensures
            only_appends(old(ctx).errors@, final(ctx).errors@),
    {
    }

    fn enter_enum_definition(
        &mut self,
        ctx: &mut VisitorContext,
        enum_definition: &Positioned<EnumType>,
    )
        ensures
            only_appends(old(ctx).errors@, final(ctx).errors@),
    {
    }

    fn exit_enum_definition(
        &mut self,
        ctx: &mut VisitorContext,
        enum_definition: &Positioned<EnumType>,
    )
        ensures
            only_appends(old(ctx).errors@, final(ctx).errors@),
    {
    }

    fn enter_input_object_definition(
        &mut self,
        ctx: &mut VisitorContext,
        input_object_definition: &Positioned<InputObjectType>,
    )
        ensures
            only_appends(old(ctx).errors@, final(ctx).errors@),
    {
    }

    fn exit_input_object_definition(
        &mut self,
        ctx: &mut VisitorContext,
        input_object_definition: &Positioned<InputObjectType>,
    )
        ensures
            only_appends(old(ctx).errors@, final(ctx).errors@),
    {
    }

    fn enter_field(&mut self, ctx: &mut VisitorContext, field: &Positioned<Field>)
        ensures
            only_appends(old(ctx).errors@, final(ctx).errors@),
    {
    }

    fn exit_field(&mut self, ctx: &mut VisitorContext, field: &Positioned<Field>)
        ensures
            only_appends(old(ctx).errors@, final(ctx).errors@),
    {
    }

    fn enter_input_value(&mut self, ctx: &mut VisitorContext, input_value: &Positioned<InputValue>)
        ensures
            only_appends(old(ctx).errors@, final(ctx).errors@),
    {
    }

    fn exit_input_value(&mut self, ctx: &mut VisitorContext, input_value: &Positioned<InputValue>)
        ensures
            only_appends(old(ctx).errors@, final(ctx).errors@),
    {
    }

    fn enter_enum_value(&mut self, ctx: &mut VisitorContext, enum_value: &Positioned<EnumValue>)
        ensures
            only_appends(old(ctx).errors@, final(ctx).errors@),
    {
    }

    fn exit_enum_value(&mut self, ctx: &mut VisitorContext, enum_value: &Positioned<EnumValue>)
        ensures
            only_appends(old(ctx).errors@, final(ctx).errors@),
    {
    }

    fn enter_directive(&mut self, ctx: &mut VisitorContext, directive: &Positioned<Directive>)
        ensures
            only_appends(old(ctx).errors@, final(ctx).errors@),
    {
    }

    fn exit_directive(&mut self, ctx: &mut VisitorContext, directive: &Positioned<Directive>)
        ensures
            only_appends(old(ctx).errors@, final(ctx).errors@),
    {
    }
}

/// The empty visitor chain: provably a no-op — every hook leaves the
/// diagnostics untouched, so combining any visitor with it changes nothing.
pub struct VisitorNil;

/// A visitor chain: runs the first visitor's hook, then the rest's, at every
/// node.
pub struct VisitorCons<A, B>(pub A, pub B);

impl VisitorNil {
    /// Prepends a visitor to the empty chain.
    pub fn with<V>(self, visitor: V) -> (r: VisitorCons<V, Self>)
        ensures
            r.0 == visitor,
    {
        VisitorCons(visitor, self)
    }
}

impl<A, B> VisitorCons<A, B> {
    /// Prepends a visitor to this chain.
    pub fn with<V>(self, visitor: V) -> (r: VisitorCons<V, Self>)
        ensures
            r.0 == visitor,
            r.1 == self,
    {
        VisitorCons(visitor, self)
    }
}

impl Visitor for VisitorNil {
    fn enter_document(&mut self, ctx: &mut VisitorContext, doc: &Document)
        ensures
            final(ctx).errors@ == old(ctx).errors@,
    {
    }

    fn exit_document(&mut self, ctx: &mut VisitorContext, doc: &Document)
        ensures
            final(ctx).errors@ == old(ctx).errors@,
    {
    }

    fn enter_definition(&mut self, ctx: &mut VisitorContext, definition: &Positioned<Definition>)
        ensures
            final(ctx).errors@ == old(ctx).errors@,
    {
    }

    fn exit_definition(&mut self, ctx: &mut VisitorContext, definition: &Positioned<Definition>)
        ensures
            final(ctx).errors@ == old(ctx).errors@,
    {
    }

    fn enter_schema_definition(&mut self, ctx: &mut VisitorContext, schema_definition: &Positioned<SchemaDefinition>)
        ensures
            final(ctx).errors@ == old(ctx).errors@,
    {
    }

    fn exit_schema_definition(&mut self, ctx: &mut VisitorContext, schema_definition: &Positioned<SchemaDefinition>)
        ensures
            final(ctx).errors@ == old(ctx).errors@,
    {
    }

    fn enter_type_definition(&mut self, ctx: &mut VisitorContext, type_definition: &Positioned<TypeDefinition>)
        ensures
            final(ctx).errors@ == old(ctx).errors@,
    {
    }

    fn exit_type_definition(&mut self, ctx: &mut VisitorContext, type_definition: &Positioned<TypeDefinition>)
        ensures
            final(ctx).errors@ == old(ctx).errors@,
    {
    }

    fn enter_directive_definition(&mut self, ctx: &mut VisitorContext, directive_definition: &Positioned<DirectiveDefinition>)
        ensures
            final(ctx).errors@ == old(ctx).errors@,
    {
    }

    fn exit_directive_definition(&mut self, ctx: &mut VisitorContext, directive_definition: &Positioned<DirectiveDefinition>)
        ensures
            final(ctx).errors@ == old(ctx).errors@,
    {
    }

    fn enter_scalar_definition(&mut self, ctx: &mut VisitorContext, scalar_definition: &Positioned<ScalarType>)
        ensures
            final(ctx).errors@ == old(ctx).errors@,
    {
    }

    fn exit_scalar_definition(&mut self, ctx: &mut VisitorContext, scalar_definition: &Positioned<ScalarType>)
        ensures
            final(ctx).errors@ == old(ctx).errors@,
    {
    }

    fn enter_object_definition(&mut self, ctx: &mut VisitorContext, object_definition: &Positioned<ObjectType>)
        ensures
            final(ctx).errors@ == old(ctx).errors@,
    {
    }

    fn exit_object_definition(&mut self, ctx: &mut VisitorContext, object_definition: &Positioned<ObjectType>)
        ensures
            final(ctx).errors@ == old(ctx).errors@,
    {
    }

    fn enter_interface_definition(&mut self, ctx: &mut VisitorContext, interface_definition: &Positioned<InterfaceType>)
        ensures
            final(ctx).errors@ == old(ctx).errors@,
    {
    }

    fn exit_interface_definition(&mut self, ctx: &mut VisitorContext, interface_definition: &Positioned<InterfaceType>)
        ensures
            final(ctx).errors@ == old(ctx).errors@,
    {
    }

    fn enter_union_definition(&mut self, ctx: &mut VisitorContext, union_definition: &Positioned<UnionType>)
        ensures
            final(ctx).errors@ == old(ctx).errors@,
    {
    }

    fn exit_union_definition(&mut self, ctx: &mut VisitorContext, union_definition: &Positioned<UnionType>)
        ensures
            final(ctx).errors@ == old(ctx).errors@,
    {
    }

    fn enter_enum_definition(&mut self, ctx: &mut VisitorContext, enum_definition: &Positioned<EnumType>)
        ensures
            final(ctx).errors@ == old(ctx).errors@,
    {
    }

    fn exit_enum_definition(&mut self, ctx: &mut VisitorContext, enum_definition: &Positioned<EnumType>)
        ensures
            final(ctx).errors@ == old(ctx).errors@,
    {
    }

    fn enter_input_object_definition(&mut self, ctx: &mut VisitorContext, input_object_definition: &Positioned<InputObjectType>)
        ensures
            final(ctx).errors@ == old(ctx).errors@,
    {
    }

    fn exit_input_object_definition(&mut self, ctx: &mut VisitorContext, input_object_definition: &Positioned<InputObjectType>)
        ensures
            final(ctx).errors@ == old(ctx).errors@,
    {
    }

    fn enter_field(&mut self, ctx: &mut VisitorContext, field: &Positioned<Field>)
        ensures
            final(ctx).errors@ == old(ctx).errors@,
    {
    }

    fn exit_field(&mut self, ctx: &mut VisitorContext, field: &Positioned<Field>)
        ensures
            final(ctx).errors@ == old(ctx).errors@,
    {
    }

    fn enter_input_value(&mut self, ctx: &mut VisitorContext, input_value: &Positioned<InputValue>)
        ensures
            final(ctx).errors@ == old(ctx).errors@,
    {
    }

    fn exit_input_value(&mut self, ctx: &mut VisitorContext, input_value: &Positioned<InputValue>)
        ensures
            final(ctx).errors@ == old(ctx).errors@,
    {
    }

    fn enter_enum_value(&mut self, ctx: &mut VisitorContext, enum_value: &Positioned<EnumValue>)
        ensures
            final(ctx).errors@ == old(ctx).errors@,
    {
    }

    fn exit_enum_value(&mut self, ctx: &mut VisitorContext, enum_value: &Positioned<EnumValue>)
        ensures
            final(ctx).errors@ == old(ctx).errors@,
    {
    }

    fn enter_directive(&mut self, ctx: &mut VisitorContext, directive: &Positioned<Directive>)
        ensures
            final(ctx).errors@ == old(ctx).errors@,
    {
    }

    fn exit_directive(&mut self, ctx: &mut VisitorContext, directive: &Positioned<Directive>)
        ensures
            final(ctx).errors@ == old(ctx).errors@,
    {
    }
}

impl<A: Visitor, B: Visitor> Visitor for VisitorCons<A, B> {
    fn enter_document(&mut self, ctx: &mut VisitorContext, doc: &Document) {
        self.0.enter_document(ctx, doc);
        self.1.enter_document(ctx, doc);
    }

    fn exit_document(&mut self, ctx: &mut VisitorContext, doc: &Document) {
        self.0.exit_document(ctx, doc);
        self.1.exit_document(ctx, doc);
    }

    fn enter_definition(&mut self, ctx: &mut VisitorContext, definition: &Positioned<Definition>) {
        self.0.enter_definition(ctx, definition);
        self.1.enter_definition(ctx, definition);
    }

    fn exit_definition(&mut self, ctx: &mut VisitorContext, definition: &Positioned<Definition>) {
        self.0.exit_definition(ctx, definition);
        self.1.exit_definition(ctx, definition);
    }

    fn enter_schema_definition(
        &mut self,
        ctx: &mut VisitorContext,
        schema_definition: &Positioned<SchemaDefinition>,
    ) {
        self.0.enter_schema_definition(ctx, schema_definition);
        self.1.enter_schema_definition(ctx, schema_definition);
    }

    fn exit_schema_definition(
        &mut self,
        ctx: &mut VisitorContext,
        schema_definition: &Positioned<SchemaDefinition>,
    ) {
        self.0.exit_schema_definition(ctx, schema_definition);
        self.1.exit_schema_definition(ctx, schema_definition);
    }

    fn enter_type_definition(
        &mut self,
        ctx: &mut VisitorContext,
        type_definition: &Positioned<TypeDefinition>,
    ) {
        self.0.enter_type_definition(ctx, type_definition);
        self.1.enter_type_definition(ctx, type_definition);
    }

    fn exit_type_definition(
        &mut self,
        ctx: &mut VisitorContext,
        type_definition: &Positioned<TypeDefinition>,
    ) {
        self.0.exit_type_definition(ctx, type_definition);
        self.1.exit_type_definition(ctx, type_definition);
    }

    fn enter_directive_definition(
        &mut self,
        ctx: &mut VisitorContext,
        directive_definition: &Positioned<DirectiveDefinition>,
    ) {
        self.0.enter_directive_definition(ctx, directive_definition);
        self.1.enter_directive_definition(ctx, directive_definition);
    }

    fn exit_directive_definition(
        &mut self,
        ctx: &mut VisitorContext,
        directive_definition: &Positioned<DirectiveDefinition>,
    ) {
        self.0.exit_directive_definition(ctx, directive_definition);
        self.1.exit_directive_definition(ctx, directive_definition);
    }

    fn enter_scalar_definition(
        &mut self,
        ctx: &mut VisitorContext,
        scalar_definition: &Positioned<ScalarType>,
    ) {
        self.0.enter_scalar_definition(ctx, scalar_definition);
        self.1.enter_scalar_definition(ctx, scalar_definition);
    }

    fn exit_scalar_definition(
        &mut self,
        ctx: &mut VisitorContext,
        scalar_definition: &Positioned<ScalarType>,
    ) {
        self.0.exit_scalar_definition(ctx, scalar_definition);
        self.1.exit_scalar_definition(ctx, scalar_definition);
    }

    fn enter_object_definition(
        &mut self,
        ctx: &mut VisitorContext,
        object_definition: &Positioned<ObjectType>,
    ) {
        self.0.enter_object_definition(ctx, object_definition);
        self.1.enter_object_definition(ctx, object_definition);
    }

    fn exit_object_definition(
        &mut self,
        ctx: &mut VisitorContext,
        object_definition: &Positioned<ObjectType>,
    ) {
        self.0.exit_object_definition(ctx, object_definition);
        self.1.exit_object_definition(ctx, object_definition);
    }

    fn enter_interface_definition(
        &mut self,
        ctx: &mut VisitorContext,
        interface_definition: &Positioned<InterfaceType>,
    ) {
        self.0.enter_interface_definition(ctx, interface_definition);
        self.1.enter_interface_definition(ctx, interface_definition);
    }

    fn exit_interface_definition(
        &mut self,
        ctx: &mut VisitorContext,
        interface_definition: &Positioned<InterfaceType>,
    ) {
        self.0.exit_interface_definition(ctx, interface_definition);
        self.1.exit_interface_definition(ctx, interface_definition);
    }

    fn enter_union_definition(
        &mut self,
        ctx: &mut VisitorContext,
        union_definition: &Positioned<UnionType>,
    ) {
        self.0.enter_union_definition(ctx, union_definition);
        self.1.enter_union_definition(ctx, union_definition);
    }

    fn exit_union_definition(
        &mut self,
        ctx: &mut VisitorContext,
        union_definition: &Positioned<UnionType>,
    ) {
        self.0.exit_union_definition(ctx, union_definition);
        self.1.exit_union_definition(ctx, union_definition);
    }

    fn enter_enum_definition(
        &mut self,
        ctx: &mut VisitorContext,
        enum_definition: &Positioned<EnumType>,
    ) {
        self.0.enter_enum_definition(ctx, enum_definition);
        self.1.enter_enum_definition(ctx, enum_definition);
    }

    fn exit_enum_definition(
        &mut self,
        ctx: &mut VisitorContext,
        enum_definition: &Positioned<EnumType>,
    ) {
        self.0.exit_enum_definition(ctx, enum_definition);
        self.1.exit_enum_definition(ctx, enum_definition);
    }

    fn enter_input_object_definition(
        &mut self,
        ctx: &mut VisitorContext,
        input_object_definition: &Positioned<InputObjectType>,
    ) {
        self.0.enter_input_object_definition(ctx, input_object_definition);
        self.1.enter_input_object_definition(ctx, input_object_definition);
    }

    fn exit_input_object_definition(
        &mut self,
        ctx: &mut VisitorContext,
        input_object_definition: &Positioned<InputObjectType>,
    ) {
        self.0.exit_input_object_definition(ctx, input_object_definition);
        self.1.exit_input_object_definition(ctx, input_object_definition);
    }

    fn enter_field(&mut self, ctx: &mut VisitorContext, field: &Positioned<Field>) {
        self.0.enter_field(ctx, field);
        self.1.enter_field(ctx, field);
    }

    fn exit_field(&mut self, ctx: &mut VisitorContext, field: &Positioned<Field>) {
        self.0.exit_field(ctx, field);
        self.1.exit_field(ctx, field);
    }

    fn enter_input_value(
        &mut self,
        ctx: &mut VisitorContext,
        input_value: &Positioned<InputValue>,
    ) {
        self.0.enter_input_value(ctx, input_value);
        self.1.enter_input_value(ctx, input_value);
    }

    fn exit_input_value(
        &mut self,
        ctx: &mut VisitorContext,
        input_value: &Positioned<InputValue>,
    ) {
        self.0.exit_input_value(ctx, input_value);
        self.1.exit_input_value(ctx, input_value);
    }

    fn enter_enum_value(&mut self, ctx: &mut VisitorContext, enum_value: &Positioned<EnumValue>) {
        self.0.enter_enum_value(ctx, enum_value);
        self.1.enter_enum_value(ctx, enum_value);
    }

    fn exit_enum_value(&mut self, ctx: &mut VisitorContext, enum_value: &Positioned<EnumValue>) {
        self.0.exit_enum_value(ctx, enum_value);
        self.1.exit_enum_value(ctx, enum_value);
    }

    fn enter_directive(&mut self, ctx: &mut VisitorContext, directive: &Positioned<Directive>) {
        self.0.enter_directive(ctx, directive);
        self.1.enter_directive(ctx, directive);
    }

    fn exit_directive(&mut self, ctx: &mut VisitorContext, directive: &Positioned<Directive>) {
        self.0.exit_directive(ctx, directive);
        self.1.exit_directive(ctx, directive);
    }
}

/// Drives one depth-first walk of a schema document, invoking the matching
/// `enter`/`exit` pair for each node kind it encounters, in document order.
pub fn visit<V: Visitor>(v: &mut V, ctx: &mut VisitorContext, doc: &Document)
    ensures
        only_appends(old(ctx).errors@, final(ctx).errors@),
{
    v.enter_document(ctx, doc);
    visit_definitions(v, ctx, doc);
    v.exit_document(ctx, doc);
}

fn visit_definitions<V: Visitor>(v: &mut V, ctx: &mut VisitorContext, doc: &Document)
    ensures
        only_appends(old(ctx).errors@, final(ctx).errors@),
{
    let n = doc.definitions.len();
    let mut i: usize = 0;
    while i < n
        invariant
            0 <= i <= n,
            n == doc.definitions@.len(),
            only_appends(old(ctx).errors@, ctx.errors@),
        decreases n - i,
    {
        visit_definition(v, ctx, &doc.definitions[i]);
        i = i + 1;
    }
}

fn visit_definition<V: Visitor>(
    v: &mut V,
    ctx: &mut VisitorContext,
    definition: &Positioned<Definition>,
)
    ensures
        only_appends(old(ctx).errors@, final(ctx).errors@),
{
    v.enter_definition(ctx, definition);
    match &definition.node {
        Definition::SchemaDefinition(schema_definition) => {
            v.enter_schema_definition(ctx, schema_definition);
            visit_directives(v, ctx, &schema_definition.node.directives);
            v.exit_schema_definition(ctx, schema_definition);
        },
        Definition::TypeDefinition(type_definition) => {
            v.enter_type_definition(ctx, type_definition);
            match &type_definition.node {
                TypeDefinition::Scalar(scalar) => {
                    v.enter_scalar_definition(ctx, scalar);
                    visit_directives(v, ctx, &scalar.node.directives);
                    v.exit_scalar_definition(ctx, scalar);
                },
                TypeDefinition::Object(object) => {
                    v.enter_object_definition(ctx, object);
                    visit_directives(v, ctx, &object.node.directives);
                    visit_fields(v, ctx, &object.node.fields);
                    v.exit_object_definition(ctx, object);
                },
                TypeDefinition::Interface(interface) => {
                    v.enter_interface_definition(ctx, interface);
                    visit_directives(v, ctx, &interface.node.directives);
                    visit_fields(v, ctx, &interface.node.fields);
                    v.exit_interface_definition(ctx, interface);
                },
                TypeDefinition::Union(union_type) => {
                    v.enter_union_definition(ctx, union_type);
                    visit_directives(v, ctx, &union_type.node.directives);
                    v.exit_union_definition(ctx, union_type);
                },
                TypeDefinition::Enum(enum_type) => {
                    v.enter_enum_definition(ctx, enum_type);
                    visit_directives(v, ctx, &enum_type.node.directives);
                    visit_enum_values(v, ctx, &enum_type.node.values);
                    v.exit_enum_definition(ctx, enum_type);
                },
                TypeDefinition::InputObject(input_object) => {
                    v.enter_input_object_definition(ctx, input_object);
                    visit_directives(v, ctx, &input_object.node.directives);
                    visit_input_values(v, ctx, &input_object.node.fields);
                    v.exit_input_object_definition(ctx, input_object);
                },
            }
            v.exit_type_definition(ctx, type_definition);
        },
        Definition::DirectiveDefinition(directive_definition) => {
            v.enter_directive_definition(ctx, directive_definition);
            visit_input_values(v, ctx, &directive_definition.node.arguments);
            v.exit_directive_definition(ctx, directive_definition);
        },
    }
    v.exit_definition(ctx, definition);
}

fn visit_fields<V: Visitor>(v: &mut V, ctx: &mut VisitorContext, fields: &Vec<Positioned<Field>>)
    ensures
        only_appends(old(ctx).errors@, final(ctx).errors@),
{
    let n = fields.len();
    let mut i: usize = 0;
    while i < n
        invariant
            0 <= i <= n,
            n == fields@.len(),
            only_appends(old(ctx).errors@, ctx.errors@),
        decreases n - i,
    {
        let field = &fields[i];
        v.enter_field(ctx, field);
        visit_input_values(v, ctx, &field.node.arguments);
        visit_directives(v, ctx, &field.node.directives);
        v.exit_field(ctx, field);
        i = i + 1;
    }
}

fn visit_input_values<V: Visitor>(
    v: &mut V,
    ctx: &mut VisitorContext,
    input_values: &Vec<Positioned<InputValue>>,
)
    ensures
        only_appends(old(ctx).errors@, final(ctx).errors@),
{
    let n = input_values.len();
    let mut i: usize = 0;
    while i < n
        invariant
            0 <= i <= n,
            n == input_values@.len(),
            only_appends(old(ctx).errors@, ctx.errors@),
        decreases n - i,
    {
        let input_value = &input_values[i];
        v.enter_input_value(ctx, input_value);
        visit_directives(v, ctx, &input_value.node.directives);
        v.exit_input_value(ctx, input_value);
        i = i + 1;
    }
}

fn visit_enum_values<V: Visitor>(
    v: &mut V,
    ctx: &mut VisitorContext,
    enum_values: &Vec<Positioned<EnumValue>>,
)
    ensures
        only_appends(old(ctx).errors@, final(ctx).errors@),
{
    let n = enum_values.len();
    let mut i: usize = 0;
    while i < n
        invariant
            0 <= i <= n,
            n == enum_values@.len(),
            only_appends(old(ctx).errors@, ctx.errors@),
        decreases n - i,
    {
        let enum_value = &enum_values[i];
        v.enter_enum_value(ctx, enum_value);
        visit_directives(v, ctx, &enum_value.node.directives);
        v.exit_enum_value(ctx, enum_value);
        i = i + 1;
    }
}

fn visit_directives<V: Visitor>(
    v: &mut V,
    ctx: &mut VisitorContext,
    directives: &Vec<Positioned<Directive>>,
)
    ensures
        only_appends(old(ctx).errors@, final(ctx).errors@),
{
    let n = directives.len();
    let mut i: usize = 0;
    while i < n
        invariant
            0 <= i <= n,
            n == directives@.len(),
            only_appends(old(ctx).errors@, ctx.errors@),
        decreases n - i,
    {
        let directive = &directives[i];
        v.enter_directive(ctx, directive);
        v.exit_directive(ctx, directive);
        i = i + 1;
    }
}

} // verus!
