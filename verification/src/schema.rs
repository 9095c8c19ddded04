//! A validated schema: parse-then-validate, surfacing a single formatted
//! error text on either failure, one line per diagnostic.

use vstd::prelude::*;

use crate::error::{error_views, spec_error_text, Error};
use crate::parser::parse_schema_document;
use crate::pos::{one_location, Pos, Positioned};
use crate::schema_ast::{Definition, Document, TypeDefinition};
use crate::validation::{check_rules, doc_errors};
use crate::visitor::SpecError;

verus! {

/// A schema document that passed every validation rule.
#[derive(Debug)]
pub struct Schema {
    pub doc: Document,
}

/// The formatted text of a batch of diagnostics: one line per diagnostic.
pub open spec fn spec_error_lines_upto(errors: Seq<SpecError>, i: int) -> Seq<char>
    decreases i,
{
    if i <= 0 {
        Seq::empty()
    } else {
        spec_error_lines_upto(errors, i - 1) + spec_error_text(errors[i - 1]) + seq!['\n']
    }
}

/// The formatted text of a batch of diagnostics.
pub open spec fn spec_error_lines(errors: Seq<SpecError>) -> Seq<char> {
    spec_error_lines_upto(errors, errors.len() as int)
}

/// Formats a batch of diagnostics, one line per diagnostic, each line
/// `[<line>:<column>, ...]: <message>`.
pub fn format_error_lines(errors: &Vec<Error>) -> (r: String)
    ensures
        r@ == spec_error_lines(error_views(errors@)),
{
    let n = errors.len();
    let mut s = String::new();
    let mut i: usize = 0;
    while i < n
        invariant
            0 <= i <= n,
            n == errors@.len(),
            s@ == spec_error_lines_upto(error_views(errors@), i as int),
        decreases n - i,
    {
        s.append(errors[i].to_text().as_str());
        proof {
            reveal_strlit("\n");
        }
        s.append("\n");
        proof {
            assert(s@ =~= spec_error_lines_upto(error_views(errors@), i + 1));
        }
        i = i + 1;
    }
    s
}

/// Whether a type definition declares `name` as a usable input type: a
/// scalar, an enum, or an input object.
pub open spec fn is_input_type_named(def: Positioned<Definition>, name: Seq<char>) -> bool {
    match def.node {
        Definition::TypeDefinition(td) => match td.node {
            TypeDefinition::Scalar(scalar) => scalar.node.name.node@ == name,
            TypeDefinition::Enum(enum_type) => enum_type.node.name.node@ == name,
            TypeDefinition::InputObject(input_object) => input_object.node.name.node@ == name,
            _ => false,
        },
        _ => false,
    }
}

/// Whether a type definition declares `name` as a usable output type: an
/// object, an interface, a union, or an enum.
pub open spec fn is_output_type_named(def: Positioned<Definition>, name: Seq<char>) -> bool {
    match def.node {
        Definition::TypeDefinition(td) => match td.node {
            TypeDefinition::Object(object) => object.node.name.node@ == name,
            TypeDefinition::Interface(interface) => interface.node.name.node@ == name,
            TypeDefinition::Union(union_type) => union_type.node.name.node@ == name,
            TypeDefinition::Enum(enum_type) => enum_type.node.name.node@ == name,
            _ => false,
        },
        _ => false,
    }
}

/// Whether `text` is the rendering of one syntax diagnostic: a single
/// position and a message, as the parser collaborator reports a malformed
/// source.
pub open spec fn is_syntax_error_text(text: Seq<char>) -> bool {
    exists|p: Pos, m: Seq<char>|
        text == spec_error_text(SpecError { locations: seq![p], message: m })
}

/// Whether `text` is the formatted diagnostic lines of some document that
/// fails validation: one line per diagnostic of a non-empty batch.
pub open spec fn is_validation_error_text(text: Seq<char>) -> bool {
    exists|d: Document|
        #![trigger spec_error_lines(doc_errors(d.definitions@))]
        doc_errors(d.definitions@).len() > 0 && text == spec_error_lines(
            doc_errors(d.definitions@),
        )
}

/// Validates an already-parsed document: the schema holding exactly that
/// document when every rule passes, otherwise the formatted diagnostic
/// lines. Success is owed precisely when the document draws no diagnostic.
pub fn validate_document(doc: Document) -> (r: Result<Schema, String>)
    ensures
        r matches Ok(schema) ==> schema.doc == doc && doc_errors(doc.definitions@).len() == 0,
        r matches Err(text) ==> doc_errors(doc.definitions@).len() > 0 && text@
            == spec_error_lines(doc_errors(doc.definitions@)),
{
    match check_rules(&doc) {
        Ok(..) => Ok(Schema { doc }),
        Err(errors) => {
            let text = format_error_lines(&errors);
            proof {
                assert(spec_error_lines(error_views(errors@)) == spec_error_lines(
                    doc_errors(doc.definitions@),
                ));
            }
            Err(text)
        },
    }
}

impl Schema {
    /// Parses source text and validates it, yielding the schema or a single
    /// formatted error text: a rendered syntax diagnostic, or one line per
    /// validation diagnostic — the two failure families are never mixed.
    ///
    /// The reading of the source text is the parser collaborator, outside
    /// what the contracts state, so which document a given source yields is
    /// not pinned here; everything from the parsed document on is pinned by
    /// `validate_document`, which this function applies to the parse result.
    pub fn parse(source: &str) -> (r: Result<Schema, String>)
        ensures
            r matches Ok(schema) ==> doc_errors(schema.doc.definitions@).len() == 0,
            r matches Err(text) ==> is_syntax_error_text(text@) || is_validation_error_text(
                text@,
            ),
    {
        let doc = match parse_schema_document(source) {
            Ok(doc) => doc,
            Err(e) => {
                let rendered = Error { locations: one_location(e.pos), message: e.message };
                let text = rendered.to_text();
                proof {
                    assert(rendered@ == SpecError {
                        locations: seq![e.pos],
                        message: rendered.message@,
                    });
                    assert(is_syntax_error_text(text@));
                }
                return Err(text);
            },
        };
        let ghost parsed = doc;
        let r = validate_document(doc);
        proof {
            match &r {
                Ok(..) => {},
                Err(text) => {
                    assert(text@ == spec_error_lines(doc_errors(parsed.definitions@)));
                    assert(is_validation_error_text(text@));
                },
            }
        }
        r
    }

    /// Whether the schema declares a usable input type with this name.
    pub fn input_type_exists(&self, name: &String) -> (r: bool)
        ensures
            r == exists|k: int|
                0 <= k < self.doc.definitions@.len() && #[trigger] is_input_type_named(
                    self.doc.definitions@[k],
                    name@,
                ),
    {
        let n = self.doc.definitions.len();
        let mut i: usize = 0;
        while i < n
            invariant
                0 <= i <= n,
                n == self.doc.definitions@.len(),
                forall|k: int|
                    0 <= k < i ==> !is_input_type_named(#[trigger] self.doc.definitions@[k], name@),
            decreases n - i,
        {
            match &self.doc.definitions[i].node {
                Definition::TypeDefinition(td) => {
                    let found = match &td.node {
                        TypeDefinition::Scalar(scalar) => crate::text::string_eq(
                            &scalar.node.name.node,
                            name,
                        ),
                        TypeDefinition::Enum(enum_type) => crate::text::string_eq(
                            &enum_type.node.name.node,
                            name,
                        ),
                        TypeDefinition::InputObject(input_object) => crate::text::string_eq(
                            &input_object.node.name.node,
                            name,
                        ),
                        _ => false,
                    };
                    if found {
                        assert(is_input_type_named(self.doc.definitions@[i as int], name@));
                        return true;
                    }
                },
                _ => {},
            }
            i = i + 1;
        }
        false
    }

    /// Whether the schema declares a usable output type with this name.
    pub fn output_type_exists(&self, name: &String) -> (r: bool)
        ensures
            r == exists|k: int|
                0 <= k < self.doc.definitions@.len() && #[trigger] is_output_type_named(
                    self.doc.definitions@[k],
                    name@,
                ),
    {
        let n = self.doc.definitions.len();
        let mut i: usize = 0;
        while i < n
            invariant
                0 <= i <= n,
                n == self.doc.definitions@.len(),
                forall|k: int|
                    0 <= k < i ==> !is_output_type_named(
                        #[trigger] self.doc.definitions@[k],
                        name@,
                    ),
            decreases n - i,
        {
            match &self.doc.definitions[i].node {
                Definition::TypeDefinition(td) => {
                    let found = match &td.node {
                        TypeDefinition::Object(object) => crate::text::string_eq(
                            &object.node.name.node,
                            name,
                        ),
                        TypeDefinition::Interface(interface) => crate::text::string_eq(
                            &interface.node.name.node,
                            name,
                        ),
                        TypeDefinition::Union(union_type) => crate::text::string_eq(
                            &union_type.node.name.node,
                            name,
                        ),
                        TypeDefinition::Enum(enum_type) => crate::text::string_eq(
                            &enum_type.node.name.node,
                            name,
                        ),
                        _ => false,
                    };
                    if found {
                        assert(is_output_type_named(self.doc.definitions@[i as int], name@));
                        return true;
                    }
                },
                _ => {},
            }
            i = i + 1;
        }
        false
    }
}

} // verus!
