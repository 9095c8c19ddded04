//! The positioned tree of a schema-definition document.
//!
//! Every node is immutable once built and carries the position where it
//! starts; definitions keep their source order, which the traversal and the
//! diagnostics preserve.

use vstd::prelude::*;

use crate::common::{Directive, Type, Value};
use crate::pos::{Pos, Positioned};

verus! {

/// A schema-definition document: its top-level definitions in source order.
#[derive(Debug)]
pub struct Document {
    pub definitions: Vec<Positioned<Definition>>,
}

/// One top-level definition of a schema document.
#[derive(Debug)]
pub enum Definition {
    SchemaDefinition(Positioned<SchemaDefinition>),
    TypeDefinition(Positioned<TypeDefinition>),
    DirectiveDefinition(Positioned<DirectiveDefinition>),
}

/// The `schema { ... }` block naming the root operation types.
#[derive(Debug)]
pub struct SchemaDefinition {
    pub extend: bool,
    pub directives: Vec<Positioned<Directive>>,
    pub query: Option<Positioned<String>>,
    pub mutation: Option<Positioned<String>>,
    pub subscription: Option<Positioned<String>>,
}

/// A type definition, one variant per kind of type.
#[derive(Debug)]
pub enum TypeDefinition {
    Scalar(Positioned<ScalarType>),
    Object(Positioned<ObjectType>),
    Interface(Positioned<InterfaceType>),
    Union(Positioned<UnionType>),
    Enum(Positioned<EnumType>),
    InputObject(Positioned<InputObjectType>),
}

impl TypeDefinition {
    /// The name this type definition declares.
    pub open spec fn spec_name(&self) -> Seq<char> {
        match self {
            TypeDefinition::Scalar(scalar) => scalar.node.name.node@,
            TypeDefinition::Object(object) => object.node.name.node@,
            TypeDefinition::Interface(interface) => interface.node.name.node@,
            TypeDefinition::Union(union_type) => union_type.node.name.node@,
            TypeDefinition::Enum(enum_type) => enum_type.node.name.node@,
            TypeDefinition::InputObject(input_object) => input_object.node.name.node@,
        }
    }

    /// The position of the declared name.
    pub open spec fn spec_name_pos(&self) -> Pos {
        match self {
            TypeDefinition::Scalar(scalar) => scalar.node.name.pos,
            TypeDefinition::Object(object) => object.node.name.pos,
            TypeDefinition::Interface(interface) => interface.node.name.pos,
            TypeDefinition::Union(union_type) => union_type.node.name.pos,
            TypeDefinition::Enum(enum_type) => enum_type.node.name.pos,
            TypeDefinition::InputObject(input_object) => input_object.node.name.pos,
        }
    }

    /// The positioned name of this type definition, whichever variant it is.
    pub fn name(&self) -> (r: &Positioned<String>)
        ensures
            r.node@ == self.spec_name(),
            r.pos == self.spec_name_pos(),
    {
        match self {
            TypeDefinition::Scalar(scalar) => &scalar.node.name,
            TypeDefinition::Object(object) => &object.node.name,
            TypeDefinition::Interface(interface) => &interface.node.name,
            TypeDefinition::Union(union_type) => &union_type.node.name,
            TypeDefinition::Enum(enum_type) => &enum_type.node.name,
            TypeDefinition::InputObject(input_object) => &input_object.node.name,
        }
    }
}

/// A `scalar` definition.
#[derive(Debug)]
pub struct ScalarType {
    pub extend: bool,
    pub description: Option<Positioned<String>>,
    pub name: Positioned<String>,
    pub directives: Vec<Positioned<Directive>>,
}

/// A `type` (object) definition.
#[derive(Debug)]
pub struct ObjectType {
    pub extend: bool,
    pub description: Option<Positioned<String>>,
    pub name: Positioned<String>,
    pub implements_interfaces: Vec<Positioned<String>>,
    pub directives: Vec<Positioned<Directive>>,
    pub fields: Vec<Positioned<Field>>,
}

/// A field of an object or interface type.
#[derive(Debug)]
pub struct Field {
    pub description: Option<Positioned<String>>,
    pub name: Positioned<String>,
    pub arguments: Vec<Positioned<InputValue>>,
    pub ty: Positioned<Type>,
    pub directives: Vec<Positioned<Directive>>,
}

/// An input field or argument definition: a name, a type and an optional
/// default.
#[derive(Debug)]
pub struct InputValue {
    pub description: Option<Positioned<String>>,
    pub name: Positioned<String>,
    pub ty: Positioned<Type>,
    pub default_value: Option<Positioned<Value>>,
    pub directives: Vec<Positioned<Directive>>,
}

/// An `interface` definition.
#[derive(Debug)]
pub struct InterfaceType {
    pub extend: bool,
    pub description: Option<Positioned<String>>,
    pub name: Positioned<String>,
    pub directives: Vec<Positioned<Directive>>,
    pub fields: Vec<Positioned<Field>>,
}

/// A `union` definition and its member types.
#[derive(Debug)]
pub struct UnionType {
    pub extend: bool,
    pub description: Option<Positioned<String>>,
    pub name: Positioned<String>,
    pub directives: Vec<Positioned<Directive>>,
    pub members: Vec<Positioned<String>>,
}

/// An `enum` definition and its values.
#[derive(Debug)]
pub struct EnumType {
    pub extend: bool,
    pub description: Option<Positioned<String>>,
    pub name: Positioned<String>,
    pub directives: Vec<Positioned<Directive>>,
    pub values: Vec<Positioned<EnumValue>>,
}

/// One value of an `enum` definition.
#[derive(Debug)]
pub struct EnumValue {
    pub description: Option<Positioned<String>>,
    pub name: Positioned<String>,
    pub directives: Vec<Positioned<Directive>>,
}

/// An `input` (input object) definition.
#[derive(Debug)]
pub struct InputObjectType {
    pub extend: bool,
    pub description: Option<Positioned<String>>,
    pub name: Positioned<String>,
    pub directives: Vec<Positioned<Directive>>,
    pub fields: Vec<Positioned<InputValue>>,
}

/// Where a directive may be applied.
#[derive(Clone, Copy, Debug, PartialEq, Eq, Structural)]
pub enum DirectiveLocation {
    Query,
    Mutation,
    Subscription,
    Field,
    FragmentDefinition,
    FragmentSpread,
    InlineFragment,
    Schema,
    Scalar,
    Object,
    FieldDefinition,
    ArgumentDefinition,
    Interface,
    Union,
    Enum,
    EnumValue,
    InputObject,
    InputFieldDefinition,
}

/// A `directive @name on ...` definition.
#[derive(Debug)]
pub struct DirectiveDefinition {
    pub description: Option<Positioned<String>>,
    pub name: Positioned<String>,
    pub arguments: Vec<Positioned<InputValue>>,
    pub locations: Vec<Positioned<DirectiveLocation>>,
}

} // verus!
