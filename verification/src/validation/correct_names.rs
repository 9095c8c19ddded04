//! Rule: names beginning with `__` (two underscores) are reserved for
//! introspection and may be used neither for a type nor for a field of an
//! object, interface or input-object type.
//!
//! Both checks are pure name-prefix tests with no other state.

use vstd::prelude::*;

use crate::pos::{one_location, Positioned};
use crate::schema_ast::{Definition, Field, InputObjectType, InputValue, InterfaceType,
    ObjectType, TypeDefinition};
use crate::text::{has_reserved_prefix, spec_has_reserved_prefix};
use crate::validation::messages::{msg_reserved_field_name, msg_reserved_type_name,
    reserved_field_name_message, reserved_type_name_message};
use crate::visitor::{errs_view, only_appends, SpecError, Visitor, VisitorContext};

verus! {

/// The diagnostics for a type definition whose name carries the reserved
/// prefix: one, at the name's position.
pub open spec fn type_name_errors(td: Positioned<TypeDefinition>) -> Seq<SpecError> {
    if spec_has_reserved_prefix(td.node.spec_name()) {
        seq![
            SpecError {
                locations: seq![td.node.spec_name_pos()],
                message: msg_reserved_type_name(),
            },
        ]
    } else {
        Seq::empty()
    }
}

/// The diagnostic for one reserved field name, at the field node's position.
pub open spec fn field_error(name: Seq<char>, pos: crate::pos::Pos) -> Seq<SpecError> {
    if spec_has_reserved_prefix(name) {
        seq![SpecError { locations: seq![pos], message: msg_reserved_field_name() }]
    } else {
        Seq::empty()
    }
}

/// The diagnostics for the first `i` fields of an object or interface type.
pub open spec fn field_name_errors_upto(fields: Seq<Positioned<Field>>, i: int) -> Seq<SpecError>
    decreases i,
{
    if i <= 0 {
        Seq::empty()
    } else {
        field_name_errors_upto(fields, i - 1) + field_error(
            fields[i - 1].node.name.node@,
            fields[i - 1].pos,
        )
    }
}

/// The diagnostics for the fields of an object or interface type.
pub open spec fn field_name_errors(fields: Seq<Positioned<Field>>) -> Seq<SpecError> {
    field_name_errors_upto(fields, fields.len() as int)
}

/// The diagnostics for the first `i` fields of an input-object type.
pub open spec fn input_field_name_errors_upto(
    fields: Seq<Positioned<InputValue>>,
    i: int,
) -> Seq<SpecError>
    decreases i,
{
    if i <= 0 {
        Seq::empty()
    } else {
        input_field_name_errors_upto(fields, i - 1) + field_error(
            fields[i - 1].node.name.node@,
            fields[i - 1].pos,
        )
    }
}

/// The diagnostics for the fields of an input-object type.
pub open spec fn input_field_name_errors(fields: Seq<Positioned<InputValue>>) -> Seq<SpecError> {
    input_field_name_errors_upto(fields, fields.len() as int)
}

fn check_correct_field_names(ctx: &mut VisitorContext, fields: &Vec<Positioned<Field>>)
    ensures
        only_appends(old(ctx).errors@, final(ctx).errors@),
        errs_view(final(ctx).errors@) == errs_view(old(ctx).errors@) + field_name_errors(fields@),
{
    let n = fields.len();
    let mut i: usize = 0;
    while i < n
        invariant
            0 <= i <= n,
            n == fields@.len(),
            only_appends(old(ctx).errors@, ctx.errors@),
            errs_view(ctx.errors@) == errs_view(old(ctx).errors@) + field_name_errors_upto(
                fields@,
                i as int,
            ),
        decreases n - i,
    {
        let field = &fields[i];
        if has_reserved_prefix(&field.node.name.node) {
            ctx.report_error(one_location(field.position()), reserved_field_name_message());
        }
        proof {
            assert(errs_view(ctx.errors@) =~= errs_view(old(ctx).errors@)
                + field_name_errors_upto(fields@, i + 1));
        }
        i = i + 1;
    }
}

fn check_correct_input_field_names(ctx: &mut VisitorContext, fields: &Vec<Positioned<InputValue>>)
    ensures
        only_appends(old(ctx).errors@, final(ctx).errors@),
        errs_view(final(ctx).errors@) == errs_view(old(ctx).errors@) + input_field_name_errors(
            fields@,
        ),
{
    let n = fields.len();
    let mut i: usize = 0;
    while i < n
        invariant
            0 <= i <= n,
            n == fields@.len(),
            only_appends(old(ctx).errors@, ctx.errors@),
            errs_view(ctx.errors@) == errs_view(old(ctx).errors@) + input_field_name_errors_upto(
                fields@,
                i as int,
            ),
        decreases n - i,
    {
        let field = &fields[i];
        if has_reserved_prefix(&field.node.name.node) {
            ctx.report_error(one_location(field.position()), reserved_field_name_message());
        }
        proof {
            assert(errs_view(ctx.errors@) =~= errs_view(old(ctx).errors@)
                + input_field_name_errors_upto(fields@, i + 1));
        }
        i = i + 1;
    }
}

/// The reserved-name diagnostics for the fields of one type definition.
pub open spec fn type_definition_field_errors(td: Positioned<TypeDefinition>) -> Seq<SpecError> {
    match td.node {
        TypeDefinition::Object(object) => field_name_errors(object.node.fields@),
        TypeDefinition::Interface(interface) => field_name_errors(interface.node.fields@),
        TypeDefinition::InputObject(input_object) => input_field_name_errors(
            input_object.node.fields@,
        ),
        _ => Seq::empty(),
    }
}

/// The diagnostics this rule reports at one definition: the type-name check
/// first, then the field checks.
pub open spec fn correct_names_def_errors(def: Positioned<Definition>) -> Seq<SpecError> {
    match def.node {
        Definition::TypeDefinition(td) => type_name_errors(td) + type_definition_field_errors(td),
        _ => Seq::empty(),
    }
}

/// The diagnostics this rule reports over the first `i` definitions.
pub open spec fn correct_name_errors_upto(
    defs: Seq<Positioned<Definition>>,
    i: int,
) -> Seq<SpecError>
    decreases i,
{
    if i <= 0 {
        Seq::empty()
    } else {
        correct_name_errors_upto(defs, i - 1) + correct_names_def_errors(defs[i - 1])
    }
}

/// All diagnostics the reserved-names rule reports on a document.
pub open spec fn correct_name_errors(defs: Seq<Positioned<Definition>>) -> Seq<SpecError> {
    correct_name_errors_upto(defs, defs.len() as int)
}

/// The reserved-names rule; it keeps no state.
pub struct CorrectNames;

impl Visitor for CorrectNames {
    fn enter_type_definition(
        &mut self,
        ctx: &mut VisitorContext,
        type_definition: &Positioned<TypeDefinition>,
    )
        ensures
            errs_view(final(ctx).errors@) == errs_view(old(ctx).errors@) + type_name_errors(
                *type_definition,
            ),
    {
        let name = type_definition.node.name();
        if has_reserved_prefix(&name.node) {
            ctx.report_error(one_location(name.position()), reserved_type_name_message());
            proof {
                assert(errs_view(ctx.errors@) =~= errs_view(old(ctx).errors@) + type_name_errors(
                    *type_definition,
                ));
            }
        } else {
            proof {
                assert(errs_view(ctx.errors@) =~= errs_view(old(ctx).errors@) + type_name_errors(
                    *type_definition,
                ));
            }
        }
    }

    fn enter_object_definition(
        &mut self,
        ctx: &mut VisitorContext,
        object_definition: &Positioned<ObjectType>,
    )
        ensures
            errs_view(final(ctx).errors@) == errs_view(old(ctx).errors@) + field_name_errors(
                object_definition.node.fields@,
            ),
    {
        check_correct_field_names(ctx, &object_definition.node.fields);
    }

    fn enter_interface_definition(
        &mut self,
        ctx: &mut VisitorContext,
        interface_definition: &Positioned<InterfaceType>,
    )
        ensures
            errs_view(final(ctx).errors@) == errs_view(old(ctx).errors@) + field_name_errors(
                interface_definition.node.fields@,
            ),
    {
        check_correct_field_names(ctx, &interface_definition.node.fields);
    }

    fn enter_input_object_definition(
        &mut self,
        ctx: &mut VisitorContext,
        input_object_definition: &Positioned<InputObjectType>,
    )
        ensures
            errs_view(final(ctx).errors@) == errs_view(old(ctx).errors@) + input_field_name_errors(
                input_object_definition.node.fields@,
            ),
    {
        check_correct_input_field_names(ctx, &input_object_definition.node.fields);
    }
}

} // verus!
