//! Reading the `@type` directive that binds a declared scalar to a concrete
//! type name.

use vstd::prelude::*;

use crate::common::{spec_argument_index, Directive, Value};
use crate::error::Error;
use crate::pos::{one_location, Positioned};
use crate::text::kw_eq;

verus! {

/// The first directive of `dirs`, from `i` on, named `type`.
pub open spec fn spec_type_directive_index(dirs: Seq<Positioned<Directive>>, i: int) -> Option<int>
    decreases dirs.len() - i,
{
    if i < 0 || i >= dirs.len() {
        None
    } else if dirs[i].node.name.node@ == "type"@ {
        Some(i)
    } else {
        spec_type_directive_index(dirs, i + 1)
    }
}

/// The value bound to the `name` argument of the first `@type` directive of
/// `dirs`, if both exist.
pub open spec fn spec_scalar_type_value(dirs: Seq<Positioned<Directive>>) -> Option<
    Positioned<Value>,
> {
    match spec_type_directive_index(dirs, 0) {
        Some(d) => {
            match spec_argument_index(dirs[d].node.arguments@, "name"@) {
                Some(a) => Some(dirs[d].node.arguments@[a].1),
                None => None,
            }
        },
        None => None,
    }
}

/// The concrete type name a scalar's directives bind it to: the string
/// value of the `name` argument of its `@type` directive. `None` when the
/// directive or the argument is absent; an error when the argument's value
/// is not a string.
pub fn scalar_type(directives: &Vec<Positioned<Directive>>) -> (r: Result<Option<&String>, Error>)
    ensures
        match spec_scalar_type_value(directives@) {
            Some(value) => {
                match value.node {
                    Value::Str(text) => r matches Ok(opt) && opt matches Some(found) && found@
                        == text@,
                    _ => r matches Err(e) && e@.locations == seq![value.pos] && e@.message
                        == spec_bad_scalar_type_message(),
                }
            },
            None => r matches Ok(opt) && opt is None,
        },
{
    let n = directives.len();
    let mut i: usize = 0;
    while i < n
        invariant
            0 <= i <= n,
            n == directives@.len(),
            spec_type_directive_index(directives@, 0) == spec_type_directive_index(
                directives@,
                i as int,
            ),
        decreases n - i,
    {
        if kw_eq(&directives[i].node.name.node, "type") {
            assert(spec_type_directive_index(directives@, 0) == Some(i as int));
            match directives[i].node.get_argument("name") {
                Some(value) => {
                    match &value.node {
                        Value::Str(text) => {
                            return Ok(Some(text));
                        },
                        _ => {
                            return Err(
                                Error {
                                    locations: one_location(value.pos),
                                    message: bad_scalar_type_message(),
                                },
                            );
                        },
                    }
                },
                None => {
                    return Ok(None);
                },
            }
        }
        assert(directives@[i as int].node.name.node@ != "type"@);
        i = i + 1;
    }
    Ok(None)
}

/// The message for an `@type` directive whose `name` argument is not a
/// string.
pub open spec fn spec_bad_scalar_type_message() -> Seq<char> {
    "The \"name\" parameter type of the \"@type\" directive must be a string."@
}

fn bad_scalar_type_message() -> (r: String)
    ensures
        r@ == spec_bad_scalar_type_message(),
{
    String::from_str(
        "The \"name\" parameter type of the \"@type\" directive must be a string.",
    )
}

} // verus!
