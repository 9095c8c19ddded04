//! The caller-facing diagnostic type and its textual rendering:
//! `[<line>:<column>, ...]: <message>`.

use vstd::prelude::*;

use crate::pos::Pos;
use crate::text::{dec_str, usize_to_string};
use crate::visitor::SpecError;

verus! {

/// A validation diagnostic handed back to callers: one message and the
/// source positions it points at.
#[derive(Debug, PartialEq)]
pub struct Error {
    pub locations: Vec<Pos>,
    pub message: String,
}

impl View for Error {
    type V = SpecError;

    open spec fn view(&self) -> SpecError {
        SpecError { locations: self.locations@, message: self.message@ }
    }
}

/// The views of a sequence of caller-facing diagnostics.
pub open spec fn error_views(errors: Seq<Error>) -> Seq<SpecError> {
    errors.map_values(|e: Error| e@)
}

/// A position rendered as `line:column`.
pub open spec fn spec_pos_text(p: Pos) -> Seq<char> {
    dec_str(p.line as nat) + seq![':'] + dec_str(p.column as nat)
}

/// The first `i` positions rendered and joined with `, `.
pub open spec fn spec_locations_text_upto(locations: Seq<Pos>, i: int) -> Seq<char>
    decreases i,
{
    if i <= 0 {
        Seq::empty()
    } else if i == 1 {
        spec_pos_text(locations[0])
    } else {
        spec_locations_text_upto(locations, i - 1) + seq![',', ' '] + spec_pos_text(
            locations[i - 1],
        )
    }
}

/// All positions rendered and joined with `, `.
pub open spec fn spec_locations_text(locations: Seq<Pos>) -> Seq<char> {
    spec_locations_text_upto(locations, locations.len() as int)
}

/// A diagnostic rendered as one line: `[<loc>, <loc>, ...]: <message>`.
pub open spec fn spec_error_text(e: SpecError) -> Seq<char> {
    seq!['['] + spec_locations_text(e.locations) + seq![']', ':', ' '] + e.message
}

fn pos_text(p: Pos) -> (r: String)
    ensures
        r@ == spec_pos_text(p),
{
    proof {
        reveal_strlit(":");
    }
    let mut s = usize_to_string(p.line);
    s.append(":");
    s.append(usize_to_string(p.column).as_str());
    proof {
        assert(s@ =~= spec_pos_text(p));
    }
    s
}

fn locations_text(locations: &Vec<Pos>) -> (r: String)
    ensures
        r@ == spec_locations_text(locations@),
{
    proof {
        reveal_strlit(", ");
    }
    let n = locations.len();
    let mut s = String::new();
    let mut i: usize = 0;
    while i < n
        invariant
            0 <= i <= n,
            n == locations@.len(),
            s@ == spec_locations_text_upto(locations@, i as int),
        decreases n - i,
    {
        if i > 0 {
            s.append(", ");
        }
        s.append(pos_text(locations[i]).as_str());
        proof {
            reveal_strlit(", ");
            assert(s@ =~= spec_locations_text_upto(locations@, i + 1));
        }
        i = i + 1;
    }
    s
}

impl Error {
    /// This diagnostic rendered as one line: `[<loc>, <loc>, ...]: <message>`.
    pub fn to_text(&self) -> (r: String)
        ensures
            r@ == spec_error_text(self@),
    {
        proof {
            reveal_strlit("[");
            reveal_strlit("]: ");
        }
        let mut s = String::from_str("[");
        s.append(locations_text(&self.locations).as_str());
        s.append("]: ");
        s.append(self.message.as_str());
        proof {
            assert(s@ =~= spec_error_text(self@));
        }
        s
    }
}

} // verus!
