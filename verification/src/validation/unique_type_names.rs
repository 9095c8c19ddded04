//! Rule: every type definition in a schema document declares a distinct
//! name.
//!
//! The rule keeps a map from name to the position where the name was first
//! seen. The first occurrence wins as the defining one; every later
//! occurrence is flagged with one diagnostic pointing at both positions.

use vstd::prelude::*;

use crate::pos::{two_locations, Pos, Positioned};
use crate::schema_ast::{Definition, TypeDefinition};
use crate::text::string_eq;
use crate::validation::messages::{msg_one_type, one_type_message};
use crate::visitor::{errs_view, SpecError, Visitor, VisitorContext};

verus! {

/// The first-seen position recorded for `name` in `seen`, looking from
/// entry `i` on.
pub open spec fn utn_lookup(seen: Seq<(Seq<char>, Pos)>, name: Seq<char>, i: int) -> Option<Pos>
    decreases seen.len() - i,
{
    if i < 0 || i >= seen.len() {
        None
    } else if seen[i].0 == name {
        Some(seen[i].1)
    } else {
        utn_lookup(seen, name, i + 1)
    }
}

/// The diagnostics this rule reports on encountering `td` with first-seen
/// map `seen`: one duplicate diagnostic when the name is already mapped.
pub open spec fn utn_step_errors(
    seen: Seq<(Seq<char>, Pos)>,
    td: Positioned<TypeDefinition>,
) -> Seq<SpecError> {
    match utn_lookup(seen, td.node.spec_name(), 0) {
        Some(prev) => seq![
            SpecError {
                locations: seq![td.pos, prev],
                message: msg_one_type(td.node.spec_name()),
            },
        ],
        None => Seq::empty(),
    }
}

/// The first-seen map after encountering `td`: unchanged on a duplicate,
/// extended otherwise.
pub open spec fn utn_step_state(
    seen: Seq<(Seq<char>, Pos)>,
    td: Positioned<TypeDefinition>,
) -> Seq<(Seq<char>, Pos)> {
    match utn_lookup(seen, td.node.spec_name(), 0) {
        Some(..) => seen,
        None => seen.push((td.node.spec_name(), td.pos)),
    }
}

/// The first-seen map after the first `i` definitions of a document.
pub open spec fn utn_state_at(defs: Seq<Positioned<Definition>>, i: int) -> Seq<(Seq<char>, Pos)>
    decreases i,
{
    if i <= 0 {
        Seq::empty()
    } else {
        let prev = utn_state_at(defs, i - 1);
        match defs[i - 1].node {
            Definition::TypeDefinition(td) => utn_step_state(prev, td),
            _ => prev,
        }
    }
}

/// The diagnostics this rule reports over the first `i` definitions.
pub open spec fn unique_type_name_errors_upto(
    defs: Seq<Positioned<Definition>>,
    i: int,
) -> Seq<SpecError>
    decreases i,
{
    if i <= 0 {
        Seq::empty()
    } else {
        unique_type_name_errors_upto(defs, i - 1) + (match defs[i - 1].node {
            Definition::TypeDefinition(td) => utn_step_errors(utn_state_at(defs, i - 1), td),
            _ => Seq::empty(),
        })
    }
}

/// All diagnostics the unique-type-names rule reports on a document.
pub open spec fn unique_type_name_errors(defs: Seq<Positioned<Definition>>) -> Seq<SpecError> {
    unique_type_name_errors_upto(defs, defs.len() as int)
}

/// The name a definition declares, when it is a type definition.
pub open spec fn defined_type_name(def: Positioned<Definition>) -> Option<Seq<char>> {
    match def.node {
        Definition::TypeDefinition(td) => Some(td.node.spec_name()),
        _ => None,
    }
}

/// The position of the type definition node a definition wraps; for other
/// definitions, the definition's own position.
pub open spec fn type_def_pos(def: Positioned<Definition>) -> Pos {
    match def.node {
        Definition::TypeDefinition(td) => td.pos,
        _ => def.pos,
    }
}

/// The first index in `[j, i)` holding a type definition named `name`.
pub open spec fn first_named_before(
    defs: Seq<Positioned<Definition>>,
    name: Seq<char>,
    i: int,
    j: int,
) -> Option<int>
    decreases i - j,
{
    if j < 0 || j >= i {
        None
    } else if defined_type_name(defs[j]) == Some(name) {
        Some(j)
    } else {
        first_named_before(defs, name, i, j + 1)
    }
}

proof fn lemma_lookup_push(seen: Seq<(Seq<char>, Pos)>, p: (Seq<char>, Pos), name: Seq<char>, i: int)
    requires
        0 <= i <= seen.len(),
    ensures
        utn_lookup(seen.push(p), name, i) == match utn_lookup(seen, name, i) {
            Some(prev) => Some(prev),
            None => if p.0 == name {
                Some(p.1)
            } else {
                None
            },
        },
    decreases seen.len() - i,
{
    if i < seen.len() {
        assert(seen.push(p)[i] == seen[i]);
        lemma_lookup_push(seen, p, name, i + 1);
    } else {
        assert(seen.push(p)[i] == p);
        assert(utn_lookup(seen, name, i) is None);
        if p.0 != name {
            assert(utn_lookup(seen.push(p), name, i + 1) is None);
        }
    }
}

proof fn lemma_first_extend(defs: Seq<Positioned<Definition>>, name: Seq<char>, i: int, j: int)
    requires
        0 <= j <= i < defs.len(),
    ensures
        first_named_before(defs, name, i + 1, j) == match first_named_before(defs, name, i, j) {
            Some(k) => Some(k),
            None => if defined_type_name(defs[i]) == Some(name) {
                Some(i)
            } else {
                None
            },
        },
    decreases i - j,
{
    if j < i && !(defined_type_name(defs[j]) == Some(name)) {
        lemma_first_extend(defs, name, i, j + 1);
    } else if j == i {
        assert(first_named_before(defs, name, i, j) is None);
        if !(defined_type_name(defs[i]) == Some(name)) {
            assert(first_named_before(defs, name, i + 1, j + 1) is None);
        }
    }
}

/// The first-seen map after `i` definitions answers a lookup for `name`
/// with the position of the first type definition declaring `name` among
/// those definitions, if there is one.
proof fn lemma_state_lookup(defs: Seq<Positioned<Definition>>, i: int, name: Seq<char>)
    requires
        0 <= i <= defs.len(),
    ensures
        utn_lookup(utn_state_at(defs, i), name, 0) == match first_named_before(defs, name, i, 0) {
            Some(j) => Some(type_def_pos(defs[j])),
            None => None,
        },
    decreases i,
{
    if i > 0 {
        lemma_state_lookup(defs, i - 1, name);
        lemma_first_extend(defs, name, i - 1, 0);
        let prev = utn_state_at(defs, i - 1);
        match defs[i - 1].node {
            Definition::TypeDefinition(td) => {
                lemma_state_lookup(defs, i - 1, td.node.spec_name());
                match utn_lookup(prev, td.node.spec_name(), 0) {
                    Some(..) => {},
                    None => {
                        lemma_lookup_push(prev, (td.node.spec_name(), td.pos), name, 0);
                    },
                }
            },
            _ => {},
        }
    }
}

/// Law: in a document where every pair of type definitions declares
/// distinct names, the unique-type-names rule contributes zero diagnostics,
/// regardless of definition order.
pub proof fn lemma_distinct_type_names_no_errors(defs: Seq<Positioned<Definition>>)
    requires
        forall|k: int, l: int|
            0 <= k < l < defs.len() && #[trigger] defined_type_name(defs[k]) is Some
                && #[trigger] defined_type_name(defs[l]) is Some ==> defined_type_name(defs[k])
                != defined_type_name(defs[l]),
    ensures
        unique_type_name_errors(defs) == Seq::<SpecError>::empty(),
{
    lemma_distinct_upto(defs, defs.len() as int);
}

proof fn lemma_distinct_upto(defs: Seq<Positioned<Definition>>, i: int)
    requires
        0 <= i <= defs.len(),
        forall|k: int, l: int|
            0 <= k < l < defs.len() && #[trigger] defined_type_name(defs[k]) is Some
                && #[trigger] defined_type_name(defs[l]) is Some ==> defined_type_name(defs[k])
                != defined_type_name(defs[l]),
    ensures
        unique_type_name_errors_upto(defs, i) == Seq::<SpecError>::empty(),
    decreases i,
{
    if i > 0 {
        lemma_distinct_upto(defs, i - 1);
        match defs[i - 1].node {
            Definition::TypeDefinition(td) => {
                let name = td.node.spec_name();
                lemma_state_lookup(defs, i - 1, name);
                match first_named_before(defs, name, i - 1, 0) {
                    Some(j) => {
                        lemma_first_in_range(defs, name, i - 1, 0);
                        assert(defined_type_name(defs[j]) == Some(name));
                        assert(defined_type_name(defs[i - 1]) == Some(name));
                        assert(false);
                    },
                    None => {},
                }
                assert(unique_type_name_errors_upto(defs, i)
                    =~= Seq::<SpecError>::empty());
            },
            _ => {
                assert(unique_type_name_errors_upto(defs, i)
                    =~= Seq::<SpecError>::empty());
            },
        }
    }
}

proof fn lemma_first_in_range(defs: Seq<Positioned<Definition>>, name: Seq<char>, i: int, j: int)
    requires
        0 <= j,
        i <= defs.len(),
        first_named_before(defs, name, i, j) is Some,
    ensures
        j <= first_named_before(defs, name, i, j)->Some_0 < i,
        defined_type_name(defs[first_named_before(defs, name, i, j)->Some_0]) == Some(name),
    decreases i - j,
{
    if j < i && !(defined_type_name(defs[j]) == Some(name)) {
        lemma_first_in_range(defs, name, i, j + 1);
    }
}

/// Law: in a document where exactly one pair of type definitions shares a
/// name — the ones at `i` and `j` — the unique-type-names rule reports
/// exactly one diagnostic, naming the later definition's position first and
/// the earlier one's second.
pub proof fn lemma_duplicate_type_name_reported_once(
    defs: Seq<Positioned<Definition>>,
    i: int,
    j: int,
)
    requires
        0 <= i < j < defs.len(),
        defined_type_name(defs[i]) is Some,
        defined_type_name(defs[j]) == defined_type_name(defs[i]),
        forall|k: int, l: int|
            0 <= k < l < defs.len() && !(k == i && l == j)
                && #[trigger] defined_type_name(defs[k]) is Some
                && #[trigger] defined_type_name(defs[l]) is Some ==> defined_type_name(defs[k])
                != defined_type_name(defs[l]),
    ensures
        unique_type_name_errors(defs) == seq![
            SpecError {
                locations: seq![type_def_pos(defs[j]), type_def_pos(defs[i])],
                message: msg_one_type(defined_type_name(defs[i])->Some_0),
            },
        ],
{
    lemma_duplicate_upto(defs, i, j, defs.len() as int);
}

proof fn lemma_duplicate_upto(defs: Seq<Positioned<Definition>>, i: int, j: int, m: int)
    requires
        0 <= i < j < defs.len(),
        0 <= m <= defs.len(),
        defined_type_name(defs[i]) is Some,
        defined_type_name(defs[j]) == defined_type_name(defs[i]),
        forall|k: int, l: int|
            0 <= k < l < defs.len() && !(k == i && l == j)
                && #[trigger] defined_type_name(defs[k]) is Some
                && #[trigger] defined_type_name(defs[l]) is Some ==> defined_type_name(defs[k])
                != defined_type_name(defs[l]),
    ensures
        unique_type_name_errors_upto(defs, m) == if m <= j {
            Seq::<SpecError>::empty()
        } else {
            seq![
                SpecError {
                    locations: seq![type_def_pos(defs[j]), type_def_pos(defs[i])],
                    message: msg_one_type(defined_type_name(defs[i])->Some_0),
                },
            ]
        },
    decreases m,
{
    if m > 0 {
        lemma_duplicate_upto(defs, i, j, m - 1);
        match defs[m - 1].node {
            Definition::TypeDefinition(td) => {
                let name = td.node.spec_name();
                lemma_state_lookup(defs, m - 1, name);
                if m - 1 == j {
                    match first_named_before(defs, name, m - 1, 0) {
                        Some(k) => {
                            lemma_first_in_range(defs, name, m - 1, 0);
                            if k != i {
                                if k < i {
                                    assert(defined_type_name(defs[k]) != defined_type_name(
                                        defs[i],
                                    ));
                                } else if k < j {
                                    assert(defined_type_name(defs[i]) != defined_type_name(
                                        defs[k],
                                    ));
                                }
                                assert(false);
                            }
                            assert(utn_step_errors(utn_state_at(defs, m - 1), td) =~= seq![
                                SpecError {
                                    locations: seq![type_def_pos(defs[j]), type_def_pos(defs[i])],
                                    message: msg_one_type(defined_type_name(defs[i])->Some_0),
                                },
                            ]);
                        },
                        None => {
                            lemma_first_found(defs, name, m - 1, 0, i);
                            assert(false);
                        },
                    }
                } else {
                    match first_named_before(defs, name, m - 1, 0) {
                        Some(k) => {
                            lemma_first_in_range(defs, name, m - 1, 0);
                            assert(defined_type_name(defs[k]) == Some(name));
                            assert(defined_type_name(defs[m - 1]) == Some(name));
                            assert(!(k == i && m - 1 == j));
                            assert(false);
                        },
                        None => {},
                    }
                }
                assert(unique_type_name_errors_upto(defs, m) =~= if m <= j {
                    Seq::<SpecError>::empty()
                } else {
                    seq![
                        SpecError {
                            locations: seq![type_def_pos(defs[j]), type_def_pos(defs[i])],
                            message: msg_one_type(defined_type_name(defs[i])->Some_0),
                        },
                    ]
                });
            },
            _ => {
                assert(unique_type_name_errors_upto(defs, m) =~= unique_type_name_errors_upto(
                    defs,
                    m - 1,
                ));
            },
        }
    }
}

proof fn lemma_first_found(
    defs: Seq<Positioned<Definition>>,
    name: Seq<char>,
    i: int,
    j: int,
    w: int,
)
    requires
        0 <= j <= w < i <= defs.len(),
        defined_type_name(defs[w]) == Some(name),
    ensures
        first_named_before(defs, name, i, j) is Some,
    decreases i - j,
{
    if !(defined_type_name(defs[j]) == Some(name)) {
        lemma_first_found(defs, name, i, j + 1, w);
    }
}

/// The unique-type-names rule. State lives for one traversal only.
pub struct UniqueTypeNames {
    names: Vec<(String, Pos)>,
}

impl UniqueTypeNames {
    /// The first-seen map so far.
    pub closed spec fn seen(&self) -> Seq<(Seq<char>, Pos)> {
        self.names@.map_values(|p: (String, Pos)| (p.0@, p.1))
    }

    /// A fresh rule with nothing seen.
    pub fn new() -> (r: Self)
        ensures
            r.seen() == Seq::<(Seq<char>, Pos)>::empty(),
    {
        let r = UniqueTypeNames { names: Vec::new() };
        proof {
            assert(r.seen() =~= Seq::<(Seq<char>, Pos)>::empty());
        }
        r
    }

    /// Looks the name up in the first-seen map.
    fn lookup(&self, name: &String) -> (r: Option<Pos>)
        ensures
            r == utn_lookup(self.seen(), name@, 0),
    {
        let n = self.names.len();
        let mut i: usize = 0;
        while i < n
            invariant
                0 <= i <= n,
                n == self.names@.len(),
                utn_lookup(self.seen(), name@, 0) == utn_lookup(self.seen(), name@, i as int),
            decreases n - i,
        {
            if string_eq(&self.names[i].0, name) {
                assert(self.seen()[i as int].0 == name@);
                return Some(self.names[i].1);
            }
            assert(self.seen()[i as int].0 != name@);
            i = i + 1;
        }
        None
    }
}

impl Visitor for UniqueTypeNames {
    fn enter_type_definition(
        &mut self,
        ctx: &mut VisitorContext,
        type_definition: &Positioned<TypeDefinition>,
    )
        ensures
            final(self).seen() == utn_step_state(old(self).seen(), *type_definition),
            errs_view(final(ctx).errors@) == errs_view(old(ctx).errors@) + utn_step_errors(
                old(self).seen(),
                *type_definition,
            ),
    {
        let name = type_definition.node.name();
        match self.lookup(&name.node) {
            Some(prev_pos) => {
                ctx.report_error(
                    two_locations(type_definition.position(), prev_pos),
                    one_type_message(&name.node),
                );
                proof {
                    assert(errs_view(ctx.errors@) =~= errs_view(old(ctx).errors@)
                        + utn_step_errors(old(self).seen(), *type_definition));
                }
            },
            None => {
                let ghost prior = self.seen();
                self.names.push((name.node.clone(), type_definition.position()));
                proof {
                    assert(self.seen() =~= prior.push(
                        (type_definition.node.spec_name(), type_definition.pos),
                    ));
                    assert(errs_view(ctx.errors@) =~= errs_view(old(ctx).errors@)
                        + utn_step_errors(old(self).seen(), *type_definition));
                }
            },
        }
    }
}

} // verus!
