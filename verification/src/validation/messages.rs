//! The exact wording of every diagnostic the rules can report, as spec
//! functions, with the executable builders proved against them.

use vstd::prelude::*;

verus! {

/// `There can only be one type named "<name>"`
pub open spec fn msg_one_type(name: Seq<char>) -> Seq<char> {
    "There can only be one type named \""@ + name + "\""@
}

/// `There can only be one operation named "<name>"`
pub open spec fn msg_one_operation(name: Seq<char>) -> Seq<char> {
    "There can only be one operation named \""@ + name + "\""@
}

/// `Fragment "<name>" is never used`
pub open spec fn msg_unused_fragment(name: Seq<char>) -> Seq<char> {
    "Fragment \""@ + name + "\" is never used"@
}

/// The message for a type name carrying the reserved `__` prefix.
pub open spec fn msg_reserved_type_name() -> Seq<char> {
    "Type names cannot be prefixed with \"__\" two underscores."@
}

/// The message for a field name carrying the reserved `__` prefix.
pub open spec fn msg_reserved_field_name() -> Seq<char> {
    "Field names cannot be prefixed with \"__\" two underscores."@
}

/// The message for a missing `query` root operation type.
pub open spec fn msg_query_root_missing() -> Seq<char> {
    "The query root operation type must be provided and must be an Object type."@
}

/// The message for a root operation type name that no declared object type
/// carries.
pub open spec fn msg_root_not_object() -> Seq<char> {
    "Not defined or not an object type."@
}

pub fn one_type_message(name: &String) -> (r: String)
    ensures
        r@ == msg_one_type(name@),
{
    let mut s = String::from_str("There can only be one type named \"");
    s.append(name.as_str());
    s.append("\"");
    proof {
        assert(s@ =~= msg_one_type(name@));
    }
    s
}

pub fn one_operation_message(name: &String) -> (r: String)
    ensures
        r@ == msg_one_operation(name@),
{
    let mut s = String::from_str("There can only be one operation named \"");
    s.append(name.as_str());
    s.append("\"");
    proof {
        assert(s@ =~= msg_one_operation(name@));
    }
    s
}

pub fn unused_fragment_message(name: &String) -> (r: String)
    ensures
        r@ == msg_unused_fragment(name@),
{
    let mut s = String::from_str("Fragment \"");
    s.append(name.as_str());
    s.append("\" is never used");
    proof {
        assert(s@ =~= msg_unused_fragment(name@));
    }
    s
}

pub fn reserved_type_name_message() -> (r: String)
    ensures
        r@ == msg_reserved_type_name(),
{
    String::from_str("Type names cannot be prefixed with \"__\" two underscores.")
}

pub fn reserved_field_name_message() -> (r: String)
    ensures
        r@ == msg_reserved_field_name(),
{
    String::from_str("Field names cannot be prefixed with \"__\" two underscores.")
}

pub fn query_root_missing_message() -> (r: String)
    ensures
        r@ == msg_query_root_missing(),
{
    String::from_str("The query root operation type must be provided and must be an Object type.")
}

pub fn root_not_object_message() -> (r: String)
    ensures
        r@ == msg_root_not_object(),
{
    String::from_str("Not defined or not an object type.")
}

} // verus!
