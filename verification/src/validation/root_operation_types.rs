//! Rule: a `schema` definition must bind its root operation types to
//! declared object types.
//!
//! The `query` root is mandatory; `mutation` and `subscription` are optional
//! but, if present, are held to the same check. A root naming a declared
//! non-object type fails exactly because it is absent from the object-name
//! set: the rule does not distinguish "wrong kind" from "absent".
//!
//! On document entry the rule scans every top-level definition once and
//! collects the declared object-type names; this pre-pass makes the check
//! independent of whether the `schema` block appears before or after the
//! object types it names.

use vstd::prelude::*;

use crate::pos::{one_location, Positioned};
use crate::schema_ast::{Definition, Document, SchemaDefinition, TypeDefinition};
use crate::text::string_eq;
use crate::validation::messages::{msg_query_root_missing, msg_root_not_object,
    query_root_missing_message, root_not_object_message};
use crate::visitor::{errs_view, only_appends, SpecError, Visitor, VisitorContext};

verus! {

/// The names of the object types declared among the first `i` definitions.
pub open spec fn object_names_upto(defs: Seq<Positioned<Definition>>, i: int) -> Seq<Seq<char>>
    decreases i,
{
    if i <= 0 {
        Seq::empty()
    } else {
        let prev = object_names_upto(defs, i - 1);
        match defs[i - 1].node {
            Definition::TypeDefinition(td) => match td.node {
                TypeDefinition::Object(object) => prev.push(object.node.name.node@),
                _ => prev,
            },
            _ => prev,
        }
    }
}

/// The names of all object types declared in the document.
pub open spec fn object_names(defs: Seq<Positioned<Definition>>) -> Seq<Seq<char>> {
    object_names_upto(defs, defs.len() as int)
}

/// The diagnostics for one optional root binding other than `query`:
/// nothing when absent, nothing when it names a declared object type, and
/// one diagnostic at the name's position otherwise.
pub open spec fn optional_root_errors(
    objects: Seq<Seq<char>>,
    root: Option<Positioned<String>>,
) -> Seq<SpecError> {
    match root {
        Some(name) => {
            if !objects.contains(name.node@) {
                seq![SpecError { locations: seq![name.pos], message: msg_root_not_object() }]
            } else {
                Seq::empty()
            }
        },
        None => Seq::empty(),
    }
}

/// The diagnostics for the `query` root binding: its absence is itself an
/// error, reported at the schema definition's position.
pub open spec fn query_root_errors(
    objects: Seq<Seq<char>>,
    sd: Positioned<SchemaDefinition>,
) -> Seq<SpecError> {
    match sd.node.query {
        Some(name) => {
            if !objects.contains(name.node@) {
                seq![SpecError { locations: seq![name.pos], message: msg_root_not_object() }]
            } else {
                Seq::empty()
            }
        },
        None => seq![SpecError { locations: seq![sd.pos], message: msg_query_root_missing() }],
    }
}

/// All diagnostics this rule reports at one schema definition, given the
/// declared object-type names: query first, then mutation, then
/// subscription.
pub open spec fn root_schema_errors(
    objects: Seq<Seq<char>>,
    sd: Positioned<SchemaDefinition>,
) -> Seq<SpecError> {
    query_root_errors(objects, sd) + optional_root_errors(objects, sd.node.mutation)
        + optional_root_errors(objects, sd.node.subscription)
}

/// The diagnostics this rule reports over the first `i` definitions, given
/// the whole document's object-type names.
pub open spec fn root_operation_errors_upto(
    defs: Seq<Positioned<Definition>>,
    i: int,
) -> Seq<SpecError>
    decreases i,
{
    if i <= 0 {
        Seq::empty()
    } else {
        root_operation_errors_upto(defs, i - 1) + (match defs[i - 1].node {
            Definition::SchemaDefinition(sd) => root_schema_errors(object_names(defs), sd),
            _ => Seq::empty(),
        })
    }
}

/// All diagnostics the root-operation-types rule reports on a document.
pub open spec fn root_operation_errors(defs: Seq<Positioned<Definition>>) -> Seq<SpecError> {
    root_operation_errors_upto(defs, defs.len() as int)
}

/// The root-operation-types rule. State lives for one traversal only.
pub struct RootOperationTypes {
    objects: Vec<String>,
}

impl RootOperationTypes {
    /// The object-type names collected on document entry.
    pub closed spec fn objects_view(&self) -> Seq<Seq<char>> {
        self.objects@.map_values(|s: String| s@)
    }

    /// A fresh rule with nothing collected.
    pub fn new() -> (r: Self)
        ensures
            r.objects_view() == Seq::<Seq<char>>::empty(),
    {
        let r = RootOperationTypes { objects: Vec::new() };
        proof {
            assert(r.objects_view() =~= Seq::<Seq<char>>::empty());
        }
        r
    }

    /// Whether a collected object type carries this name.
    fn contains_object(&self, name: &String) -> (r: bool)
        ensures
            r == self.objects_view().contains(name@),
    {
        let n = self.objects.len();
        let mut i: usize = 0;
        while i < n
            invariant
                0 <= i <= n,
                n == self.objects@.len(),
                forall|k: int| 0 <= k < i ==> self.objects_view()[k] != name@,
            decreases n - i,
        {
            if string_eq(&self.objects[i], name) {
                assert(self.objects_view()[i as int] == name@);
                return true;
            }
            assert(self.objects_view()[i as int] != name@);
            i = i + 1;
        }
        proof {
            if self.objects_view().contains(name@) {
                let k = choose|k: int|
                    0 <= k < self.objects_view().len() && self.objects_view()[k] == name@;
                assert(self.objects_view()[k] != name@);
            }
        }
        false
    }

    fn check_root(&self, ctx: &mut VisitorContext, name: &Positioned<String>)
        ensures
            only_appends(old(ctx).errors@, final(ctx).errors@),
            errs_view(final(ctx).errors@) == errs_view(old(ctx).errors@) + optional_root_errors(
                self.objects_view(),
                Some(*name),
            ),
    {
        if !self.contains_object(&name.node) {
            ctx.report_error(one_location(name.position()), root_not_object_message());
        }
        proof {
            assert(errs_view(ctx.errors@) =~= errs_view(old(ctx).errors@) + optional_root_errors(
                self.objects_view(),
                Some(*name),
            ));
        }
    }
}

impl Visitor for RootOperationTypes {
    fn enter_document(&mut self, ctx: &mut VisitorContext, doc: &Document)
        ensures
            final(self).objects_view() == object_names(doc.definitions@),
            final(ctx).errors@ == old(ctx).errors@,
    {
        self.objects = Vec::new();
        proof {
            assert(self.objects_view() =~= object_names_upto(doc.definitions@, 0));
        }
        let n = doc.definitions.len();
        let mut i: usize = 0;
        while i < n
            invariant
                0 <= i <= n,
                n == doc.definitions@.len(),
                self.objects_view() == object_names_upto(doc.definitions@, i as int),
            decreases n - i,
        {
            let ghost prior = self.objects_view();
            match &doc.definitions[i].node {
                Definition::TypeDefinition(type_definition) => match &type_definition.node {
                    TypeDefinition::Object(object) => {
                        self.objects.push(object.node.name.node.clone());
                        proof {
                            assert(self.objects_view() =~= prior.push(object.node.name.node@));
                        }
                    },
                    _ => {},
                },
                _ => {},
            }
            i = i + 1;
        }
    }

    fn enter_schema_definition(
        &mut self,
        ctx: &mut VisitorContext,
        schema_definition: &Positioned<SchemaDefinition>,
    )
        ensures
            final(self).objects_view() == old(self).objects_view(),
            errs_view(final(ctx).errors@) == errs_view(old(ctx).errors@) + root_schema_errors(
                old(self).objects_view(),
                *schema_definition,
            ),
    {
        match &schema_definition.node.query {
            Some(name) => {
                if !self.contains_object(&name.node) {
                    ctx.report_error(one_location(name.position()), root_not_object_message());
                }
            },
            None => {
                ctx.report_error(
                    one_location(schema_definition.position()),
                    query_root_missing_message(),
                );
            },
        }
        match &schema_definition.node.mutation {
            Some(name) => self.check_root(ctx, name),
            None => {},
        }
        match &schema_definition.node.subscription {
            Some(name) => self.check_root(ctx, name),
            None => {},
        }
        proof {
            assert(errs_view(ctx.errors@) =~= errs_view(old(ctx).errors@) + root_schema_errors(
                old(self).objects_view(),
                *schema_definition,
            ));
        }
    }
}

} // verus!
