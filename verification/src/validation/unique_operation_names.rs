//! Rule: every named operation in an executable document carries a distinct
//! name. Anonymous operations never conflict.
//!
//! The rule keeps a map from name to the position where the name was first
//! seen. The first occurrence wins as the defining one; every later
//! occurrence is flagged with one diagnostic pointing at both positions.

use vstd::prelude::*;

use crate::exec_visitor::ExecutableVisitor;
use crate::executable_ast::{ExecutableDefinition, OperationDefinition};
use crate::pos::{two_locations, Pos, Positioned};
use crate::text::string_eq;
use crate::validation::messages::{msg_one_operation, one_operation_message};
use crate::visitor::{errs_view, SpecError, VisitorContext};

verus! {

/// The name an executable definition declares, when it is a named
/// operation, with the name's position.
pub open spec fn operation_name(def: ExecutableDefinition) -> Option<(Seq<char>, Pos)> {
    match def {
        ExecutableDefinition::Operation(op) => match op.node.name {
            Some(name) => Some((name.node@, name.pos)),
            None => None,
        },
        _ => None,
    }
}

/// The first-seen position recorded for `name` in `seen`, looking from
/// entry `i` on.
pub open spec fn uon_lookup(seen: Seq<(Seq<char>, Pos)>, name: Seq<char>, i: int) -> Option<Pos>
    decreases seen.len() - i,
{
    if i < 0 || i >= seen.len() {
        None
    } else if seen[i].0 == name {
        Some(seen[i].1)
    } else {
        uon_lookup(seen, name, i + 1)
    }
}

/// The diagnostics this rule reports on encountering one operation, given
/// the first-seen map: one duplicate diagnostic naming the current
/// occurrence's position and then the defining one's.
pub open spec fn uon_step_errors(
    seen: Seq<(Seq<char>, Pos)>,
    op: Positioned<OperationDefinition>,
) -> Seq<SpecError> {
    match op.node.name {
        Some(name) => {
            match uon_lookup(seen, name.node@, 0) {
                Some(prev) => seq![
                    SpecError {
                        locations: seq![name.pos, prev],
                        message: msg_one_operation(name.node@),
                    },
                ],
                None => Seq::empty(),
            }
        },
        None => Seq::empty(),
    }
}

/// The first-seen map after encountering one operation: unchanged on a
/// duplicate or an anonymous operation, extended otherwise.
pub open spec fn uon_step_state(
    seen: Seq<(Seq<char>, Pos)>,
    op: Positioned<OperationDefinition>,
) -> Seq<(Seq<char>, Pos)> {
    match op.node.name {
        Some(name) => {
            match uon_lookup(seen, name.node@, 0) {
                Some(..) => seen,
                None => seen.push((name.node@, name.pos)),
            }
        },
        None => seen,
    }
}

/// The first-seen map after the first `i` definitions of a document.
pub open spec fn uon_state_at(defs: Seq<ExecutableDefinition>, i: int) -> Seq<(Seq<char>, Pos)>
    decreases i,
{
    if i <= 0 {
        Seq::empty()
    } else {
        let prev = uon_state_at(defs, i - 1);
        match defs[i - 1] {
            ExecutableDefinition::Operation(op) => uon_step_state(prev, op),
            _ => prev,
        }
    }
}

/// The diagnostics this rule reports over the first `i` definitions.
pub open spec fn unique_operation_errors_upto(
    defs: Seq<ExecutableDefinition>,
    i: int,
) -> Seq<SpecError>
    decreases i,
{
    if i <= 0 {
        Seq::empty()
    } else {
        unique_operation_errors_upto(defs, i - 1) + (match defs[i - 1] {
            ExecutableDefinition::Operation(op) => uon_step_errors(uon_state_at(defs, i - 1), op),
            _ => Seq::empty(),
        })
    }
}

/// All diagnostics the unique-operation-names rule reports on a document.
pub open spec fn unique_operation_errors(defs: Seq<ExecutableDefinition>) -> Seq<SpecError> {
    unique_operation_errors_upto(defs, defs.len() as int)
}

/// Whether a definition is an operation named `n`.
pub open spec fn is_operation_named(def: ExecutableDefinition, n: Seq<char>) -> bool {
    match operation_name(def) {
        Some(p) => p.0 == n,
        None => false,
    }
}

/// The first index in `[j, i)` holding an operation named `name`.
pub open spec fn first_operation_named_before(
    defs: Seq<ExecutableDefinition>,
    name: Seq<char>,
    i: int,
    j: int,
) -> Option<int>
    decreases i - j,
{
    if j < 0 || j >= i {
        None
    } else if is_operation_named(defs[j], name) {
        Some(j)
    } else {
        first_operation_named_before(defs, name, i, j + 1)
    }
}

proof fn lemma_uon_lookup_push(
    seen: Seq<(Seq<char>, Pos)>,
    p: (Seq<char>, Pos),
    name: Seq<char>,
    i: int,
)
    requires
        0 <= i <= seen.len(),
    ensures
        uon_lookup(seen.push(p), name, i) == match uon_lookup(seen, name, i) {
            Some(prev) => Some(prev),
            None => if p.0 == name {
                Some(p.1)
            } else {
                None
            },
        },
    decreases seen.len() - i,
{
    if i < seen.len() {
        assert(seen.push(p)[i] == seen[i]);
        lemma_uon_lookup_push(seen, p, name, i + 1);
    } else {
        assert(seen.push(p)[i] == p);
        assert(uon_lookup(seen, name, i) is None);
        if p.0 != name {
            assert(uon_lookup(seen.push(p), name, i + 1) is None);
        }
    }
}

proof fn lemma_uon_first_extend(defs: Seq<ExecutableDefinition>, name: Seq<char>, i: int, j: int)
    requires
        0 <= j <= i < defs.len(),
    ensures
        first_operation_named_before(defs, name, i + 1, j) == match first_operation_named_before(
            defs,
            name,
            i,
            j,
        ) {
            Some(k) => Some(k),
            None => if is_operation_named(defs[i], name) {
                Some(i)
            } else {
                None
            },
        },
    decreases i - j,
{
    if j < i && !is_operation_named(defs[j], name) {
        lemma_uon_first_extend(defs, name, i, j + 1);
    } else if j == i {
        assert(first_operation_named_before(defs, name, i, j) is None);
        if !is_operation_named(defs[i], name) {
            assert(first_operation_named_before(defs, name, i + 1, j + 1) is None);
        }
    }
}

/// A found index is in range, matches, and is the first match.
proof fn lemma_uon_first_in_range(
    defs: Seq<ExecutableDefinition>,
    name: Seq<char>,
    i: int,
    j: int,
)
    requires
        0 <= j,
        i <= defs.len(),
        first_operation_named_before(defs, name, i, j) is Some,
    ensures
        j <= first_operation_named_before(defs, name, i, j)->Some_0 < i,
        is_operation_named(defs[first_operation_named_before(defs, name, i, j)->Some_0], name),
    decreases i - j,
{
    if j < i && !is_operation_named(defs[j], name) {
        lemma_uon_first_in_range(defs, name, i, j + 1);
    }
}

/// A matching operation at or after `j` means the scan from `j` finds one.
proof fn lemma_uon_first_found(
    defs: Seq<ExecutableDefinition>,
    name: Seq<char>,
    i: int,
    j: int,
    w: int,
)
    requires
        0 <= j <= w < i <= defs.len(),
        is_operation_named(defs[w], name),
    ensures
        first_operation_named_before(defs, name, i, j) is Some,
    decreases i - j,
{
    if !is_operation_named(defs[j], name) {
        lemma_uon_first_found(defs, name, i, j + 1, w);
    }
}

/// The first-seen map after `i` definitions answers a lookup for `name`
/// with the name position of the first operation named `name` among those
/// definitions, if there is one.
proof fn lemma_uon_state_lookup(defs: Seq<ExecutableDefinition>, i: int, name: Seq<char>)
    requires
        0 <= i <= defs.len(),
    ensures
        uon_lookup(uon_state_at(defs, i), name, 0) == match first_operation_named_before(
            defs,
            name,
            i,
            0,
        ) {
            Some(j) => Some(operation_name(defs[j])->Some_0.1),
            None => None,
        },
    decreases i,
{
    if i > 0 {
        lemma_uon_state_lookup(defs, i - 1, name);
        lemma_uon_first_extend(defs, name, i - 1, 0);
        let prev = uon_state_at(defs, i - 1);
        match defs[i - 1] {
            ExecutableDefinition::Operation(op) => {
                match op.node.name {
                    Some(op_name) => {
                        lemma_uon_state_lookup(defs, i - 1, op_name.node@);
                        match uon_lookup(prev, op_name.node@, 0) {
                            Some(..) => {},
                            None => {
                                lemma_uon_lookup_push(
                                    prev,
                                    (op_name.node@, op_name.pos),
                                    name,
                                    0,
                                );
                            },
                        }
                    },
                    None => {},
                }
            },
            _ => {},
        }
    }
}

/// Law: in a document where no two named operations share a name — in
/// particular, however many operations are anonymous — the
/// unique-operation-names rule contributes zero diagnostics.
pub proof fn lemma_distinct_operation_names_no_errors(defs: Seq<ExecutableDefinition>)
    requires
        forall|k: int, l: int|
            0 <= k < l < defs.len() && #[trigger] operation_name(defs[k]) is Some
                && #[trigger] operation_name(defs[l]) is Some ==> operation_name(defs[k])->Some_0.0
                != operation_name(defs[l])->Some_0.0,
    ensures
        unique_operation_errors(defs) == Seq::<SpecError>::empty(),
{
    lemma_uon_distinct_upto(defs, defs.len() as int);
}

proof fn lemma_uon_distinct_upto(defs: Seq<ExecutableDefinition>, i: int)
    requires
        0 <= i <= defs.len(),
        forall|k: int, l: int|
            0 <= k < l < defs.len() && #[trigger] operation_name(defs[k]) is Some
                && #[trigger] operation_name(defs[l]) is Some ==> operation_name(defs[k])->Some_0.0
                != operation_name(defs[l])->Some_0.0,
    ensures
        unique_operation_errors_upto(defs, i) == Seq::<SpecError>::empty(),
    decreases i,
{
    if i > 0 {
        lemma_uon_distinct_upto(defs, i - 1);
        match defs[i - 1] {
            ExecutableDefinition::Operation(op) => {
                match op.node.name {
                    Some(name) => {
                        lemma_uon_state_lookup(defs, i - 1, name.node@);
                        match first_operation_named_before(defs, name.node@, i - 1, 0) {
                            Some(j) => {
                                lemma_uon_first_in_range(defs, name.node@, i - 1, 0);
                                assert(operation_name(defs[j]) is Some);
                                assert(operation_name(defs[i - 1]) is Some);
                                assert(false);
                            },
                            None => {},
                        }
                    },
                    None => {},
                }
                assert(unique_operation_errors_upto(defs, i) =~= Seq::<SpecError>::empty());
            },
            _ => {
                assert(unique_operation_errors_upto(defs, i) =~= Seq::<SpecError>::empty());
            },
        }
    }
}

/// Law: in a document where exactly one pair of operations shares a name —
/// the ones at `i` and `j` — the unique-operation-names rule reports exactly
/// one diagnostic, naming the later occurrence's position first and the
/// defining one's second.
pub proof fn lemma_duplicate_operation_reported_once(
    defs: Seq<ExecutableDefinition>,
    i: int,
    j: int,
)
    requires
        0 <= i < j < defs.len(),
        operation_name(defs[i]) is Some,
        operation_name(defs[j]) is Some,
        operation_name(defs[j])->Some_0.0 == operation_name(defs[i])->Some_0.0,
        forall|k: int, l: int|
            0 <= k < l < defs.len() && !(k == i && l == j)
                && #[trigger] operation_name(defs[k]) is Some
                && #[trigger] operation_name(defs[l]) is Some ==> operation_name(defs[k])->Some_0.0
                != operation_name(defs[l])->Some_0.0,
    ensures
        unique_operation_errors(defs) == seq![
            SpecError {
                locations: seq![
                    operation_name(defs[j])->Some_0.1,
                    operation_name(defs[i])->Some_0.1,
                ],
                message: msg_one_operation(operation_name(defs[i])->Some_0.0),
            },
        ],
{
    lemma_uon_duplicate_upto(defs, i, j, defs.len() as int);
}

proof fn lemma_uon_duplicate_upto(defs: Seq<ExecutableDefinition>, i: int, j: int, m: int)
    requires
        0 <= i < j < defs.len(),
        0 <= m <= defs.len(),
        operation_name(defs[i]) is Some,
        operation_name(defs[j]) is Some,
        operation_name(defs[j])->Some_0.0 == operation_name(defs[i])->Some_0.0,
        forall|k: int, l: int|
            0 <= k < l < defs.len() && !(k == i && l == j)
                && #[trigger] operation_name(defs[k]) is Some
                && #[trigger] operation_name(defs[l]) is Some ==> operation_name(defs[k])->Some_0.0
                != operation_name(defs[l])->Some_0.0,
    ensures
        unique_operation_errors_upto(defs, m) == if m <= j {
            Seq::<SpecError>::empty()
        } else {
            seq![
                SpecError {
                    locations: seq![
                        operation_name(defs[j])->Some_0.1,
                        operation_name(defs[i])->Some_0.1,
                    ],
                    message: msg_one_operation(operation_name(defs[i])->Some_0.0),
                },
            ]
        },
    decreases m,
{
    if m > 0 {
        lemma_uon_duplicate_upto(defs, i, j, m - 1);
        let single = seq![
            SpecError {
                locations: seq![
                    operation_name(defs[j])->Some_0.1,
                    operation_name(defs[i])->Some_0.1,
                ],
                message: msg_one_operation(operation_name(defs[i])->Some_0.0),
            },
        ];
        match defs[m - 1] {
            ExecutableDefinition::Operation(op) => {
                match op.node.name {
                    Some(name) => {
                        lemma_uon_state_lookup(defs, m - 1, name.node@);
                        if m - 1 == j {
                            match first_operation_named_before(defs, name.node@, m - 1, 0) {
                                Some(k) => {
                                    lemma_uon_first_in_range(defs, name.node@, m - 1, 0);
                                    if k != i {
                                        if k < i {
                                            assert(operation_name(defs[k])->Some_0.0
                                                != operation_name(defs[i])->Some_0.0);
                                        } else {
                                            assert(operation_name(defs[i])->Some_0.0
                                                != operation_name(defs[k])->Some_0.0);
                                        }
                                        assert(false);
                                    }
                                    assert(uon_step_errors(uon_state_at(defs, m - 1), op)
                                        =~= single);
                                },
                                None => {
                                    lemma_uon_first_found(defs, name.node@, m - 1, 0, i);
                                    assert(false);
                                },
                            }
                        } else {
                            match first_operation_named_before(defs, name.node@, m - 1, 0) {
                                Some(k) => {
                                    lemma_uon_first_in_range(defs, name.node@, m - 1, 0);
                                    assert(operation_name(defs[k]) is Some);
                                    assert(operation_name(defs[m - 1]) is Some);
                                    assert(!(k == i && m - 1 == j));
                                    assert(false);
                                },
                                None => {},
                            }
                        }
                    },
                    None => {},
                }
                assert(unique_operation_errors_upto(defs, m) =~= if m <= j {
                    Seq::<SpecError>::empty()
                } else {
                    single
                });
            },
            _ => {
                assert(unique_operation_errors_upto(defs, m) =~= unique_operation_errors_upto(
                    defs,
                    m - 1,
                ));
            },
        }
    }
}

/// The unique-operation-names rule. State lives for one traversal only.
pub struct UniqueOperationNames {
    names: Vec<(String, Pos)>,
}

impl UniqueOperationNames {
    /// The first-seen map so far.
    pub closed spec fn seen(&self) -> Seq<(Seq<char>, Pos)> {
        self.names@.map_values(|p: (String, Pos)| (p.0@, p.1))
    }

    /// A fresh rule with nothing seen.
    pub fn new() -> (r: Self)
        ensures
            r.seen() == Seq::<(Seq<char>, Pos)>::empty(),
    {
        let r = UniqueOperationNames { names: Vec::new() };
        proof {
            assert(r.seen() =~= Seq::<(Seq<char>, Pos)>::empty());
        }
        r
    }

    /// Looks the name up in the first-seen map.
    fn lookup(&self, name: &String) -> (r: Option<Pos>)
        ensures
            r == uon_lookup(self.seen(), name@, 0),
    {
        let n = self.names.len();
        let mut i: usize = 0;
        while i < n
            invariant
                0 <= i <= n,
                n == self.names@.len(),
                uon_lookup(self.seen(), name@, 0) == uon_lookup(self.seen(), name@, i as int),
            decreases n - i,
        {
            if string_eq(&self.names[i].0, name) {
                assert(self.seen()[i as int].0 == name@);
                return Some(self.names[i].1);
            }
            assert(self.seen()[i as int].0 != name@);
            i = i + 1;
        }
        None
    }
}

impl ExecutableVisitor for UniqueOperationNames {
    fn enter_operation_definition(
        &mut self,
        ctx: &mut VisitorContext,
        operation_definition: &Positioned<OperationDefinition>,
    )
        ensures
            final(self).seen() == uon_step_state(old(self).seen(), *operation_definition),
            errs_view(final(ctx).errors@) == errs_view(old(ctx).errors@) + uon_step_errors(
                old(self).seen(),
                *operation_definition,
            ),
    {
        match &operation_definition.node.name {
            Some(name) => {
                match self.lookup(&name.node) {
                    Some(prev_pos) => {
                        ctx.report_error(
                            two_locations(name.position(), prev_pos),
                            one_operation_message(&name.node),
                        );
                        proof {
                            assert(errs_view(ctx.errors@) =~= errs_view(old(ctx).errors@)
                                + uon_step_errors(old(self).seen(), *operation_definition));
                        }
                    },
                    None => {
                        let ghost prior = self.seen();
                        self.names.push((name.node.clone(), name.position()));
                        proof {
                            assert(self.seen() =~= prior.push((name.node@, name.pos)));
                            assert(errs_view(ctx.errors@) =~= errs_view(old(ctx).errors@)
                                + uon_step_errors(old(self).seen(), *operation_definition));
                        }
                    },
                }
            },
            None => {
                proof {
                    assert(errs_view(ctx.errors@) =~= errs_view(old(ctx).errors@)
                        + uon_step_errors(old(self).seen(), *operation_definition));
                }
            },
        }
    }
}

} // verus!
