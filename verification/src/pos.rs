//! Source positions and positioned tree nodes.

use vstd::prelude::*;

verus! {

/// A `(line, column)` position in source text, both 1-based.
#[derive(Clone, Copy, Debug, PartialEq, Eq, Structural)]
pub struct Pos {
    pub line: usize,
    pub column: usize,
}

/// A node value paired with the position where it starts in the source text.
///
/// The tree is owned by the containing document and borrowed immutably by
/// every visitor during traversal; visitors never mutate it.
#[derive(Debug, PartialEq)]
pub struct Positioned<T> {
    pub pos: Pos,
    pub node: T,
}

impl<T> Positioned<T> {
    pub fn new(pos: Pos, node: T) -> (r: Self)
        ensures
            r.pos == pos,
            r.node == node,
    {
        Positioned { pos, node }
    }

    /// The position of this node.
    pub fn position(&self) -> (r: Pos)
        ensures
            r == self.pos,
    {
        self.pos
    }
}

/// A one-element location list for a diagnostic.
pub fn one_location(a: Pos) -> (r: Vec<Pos>)
    ensures
        r@ == seq![a],
{
    let mut v: Vec<Pos> = Vec::new();
    v.push(a);
    proof {
        assert(v@ =~= seq![a]);
    }
    v
}

/// A two-element location list for a diagnostic: the offending position
/// first, the prior conflicting one second.
pub fn two_locations(a: Pos, b: Pos) -> (r: Vec<Pos>)
    ensures
        r@ == seq![a, b],
{
    let mut v: Vec<Pos> = Vec::new();
    v.push(a);
    v.push(b);
    proof {
        assert(v@ =~= seq![a, b]);
    }
    v
}

} // verus!
