//! Rule: every fragment definition in an executable document must be
//! reachable from at least one operation's selection set, directly or
//! transitively through nested fragment spreads; unreachable fragments are
//! reported as unused.
//!
//! During traversal the rule records, for the scope of each operation or
//! fragment definition, the fragment names it spreads, wherever they occur
//! inside its selection set. On document exit it computes the set of
//! fragment names reachable from any operation scope — guarding against
//! revisiting a name, so cycles of mutually-spreading fragments terminate —
//! and reports every defined fragment whose name is absent.

use vstd::prelude::*;

use crate::exec_visitor::ExecutableVisitor;
use crate::executable_ast::{
    ExecutableDefinition, ExecutableDocument, FragmentDefinition, FragmentSpread,
    OperationDefinition, Selection, SelectionSet,
};
use crate::pos::{one_location, Pos, Positioned};
use crate::text::{contains_string, string_eq, string_views};
use crate::validation::messages::{msg_unused_fragment, unused_fragment_message};
use crate::visitor::{errs_view, only_appends, SpecError, VisitorContext};

verus! {

/// Where a fragment spread occurs: inside an operation (named or not) or
/// inside a fragment definition. Used only as a graph-node identity by the
/// reachability computation; never persisted in the tree.
#[derive(Debug)]
pub enum Scope {
    Operation(Option<String>),
    Fragment(String),
}

/// The mathematical shape of a scope, with names as character sequences.
pub ghost enum SpecScope {
    Operation(Option<Seq<char>>),
    Fragment(Seq<char>),
}

impl View for Scope {
    type V = SpecScope;

    open spec fn view(&self) -> SpecScope {
        match self {
            Scope::Operation(name) => SpecScope::Operation(
                match name {
                    Some(n) => Some(n@),
                    None => None,
                },
            ),
            Scope::Fragment(name) => SpecScope::Fragment(name@),
        }
    }
}

impl Scope {
    /// An owned copy of this scope.
    pub fn duplicate(&self) -> (r: Scope)
        ensures
            r@ == self@,
    {
        match self {
            Scope::Operation(name) => Scope::Operation(
                match name {
                    Some(n) => Some(n.clone()),
                    None => None,
                },
            ),
            Scope::Fragment(name) => Scope::Fragment(name.clone()),
        }
    }

    /// Whether two scopes are the same graph node.
    pub fn same_scope(&self, other: &Scope) -> (r: bool)
        ensures
            r == (self@ == other@),
    {
        match (self, other) {
            (Scope::Operation(a), Scope::Operation(b)) => match (a, b) {
                (Some(x), Some(y)) => string_eq(x, y),
                (None, None) => true,
                _ => false,
            },
            (Scope::Fragment(a), Scope::Fragment(b)) => string_eq(a, b),
            _ => false,
        }
    }
}

/// The scope an executable definition establishes.
pub open spec fn scope_of(def: ExecutableDefinition) -> SpecScope {
    match def {
        ExecutableDefinition::Operation(op) => SpecScope::Operation(
            match op.node.name {
                Some(name) => Some(name.node@),
                None => None,
            },
        ),
        ExecutableDefinition::Fragment(fragment) => SpecScope::Fragment(fragment.node.name.node@),
    }
}

/// The fragment names spread anywhere inside one selection, in document
/// order.
pub open spec fn spreads_in_selection(sel: Selection) -> Seq<Seq<char>>
    decreases sel,
{
    match sel {
        Selection::Field(field) => spreads_in_selection_set(field.node.selection_set.node),
        Selection::FragmentSpread(spread) => seq![spread.node.fragment_name.node@],
        Selection::InlineFragment(inline) => spreads_in_selection_set(inline.node.selection_set.node),
    }
}

/// The fragment names spread anywhere inside a list of selections.
pub open spec fn spreads_in_items(items: Seq<Positioned<Selection>>) -> Seq<Seq<char>>
    decreases items,
{
    if items.len() == 0 {
        Seq::empty()
    } else {
        spreads_in_selection(items[0].node) + spreads_in_items(items.drop_first())
    }
}

/// The fragment names spread anywhere inside a selection set.
pub open spec fn spreads_in_selection_set(ss: SelectionSet) -> Seq<Seq<char>>
    decreases ss,
{
    spreads_in_items(ss.items@)
}

/// The fragment names that the definitions with scope `s`, among the first
/// `i`, spread — the outgoing edges of graph node `s`.
pub open spec fn doc_targets_upto(
    defs: Seq<ExecutableDefinition>,
    s: SpecScope,
    i: int,
) -> Seq<Seq<char>>
    decreases i,
{
    if i <= 0 {
        Seq::empty()
    } else {
        doc_targets_upto(defs, s, i - 1) + (if scope_of(defs[i - 1]) == s {
            spreads_in_selection_set(selection_set_of(defs[i - 1]))
        } else {
            Seq::empty()
        })
    }
}

/// The selection set an executable definition owns.
pub open spec fn selection_set_of(def: ExecutableDefinition) -> SelectionSet {
    match def {
        ExecutableDefinition::Operation(op) => op.node.selection_set.node,
        ExecutableDefinition::Fragment(fragment) => fragment.node.selection_set.node,
    }
}

/// The outgoing edges of graph node `s` over the whole document.
pub open spec fn doc_targets(defs: Seq<ExecutableDefinition>, s: SpecScope) -> Seq<Seq<char>> {
    doc_targets_upto(defs, s, defs.len() as int)
}

/// Whether `p` is a chain of fragment names, each spread by the fragment
/// before it.
pub open spec fn doc_chain(defs: Seq<ExecutableDefinition>, p: Seq<Seq<char>>) -> bool {
    forall|k: int|
        0 <= k < p.len() - 1 ==> doc_targets(defs, SpecScope::Fragment(p[k])).contains(p[k + 1])
}

/// Whether the chain `p`, entered from the operation at index `i`, shows
/// the fragment named `name` to be in use.
pub open spec fn doc_reaches_via(
    defs: Seq<ExecutableDefinition>,
    i: int,
    p: Seq<Seq<char>>,
    name: Seq<char>,
) -> bool {
    &&& 0 <= i < defs.len()
    &&& defs[i] is Operation
    &&& p.len() > 0
    &&& doc_targets(defs, scope_of(defs[i])).contains(p[0])
    &&& doc_chain(defs, p)
    &&& p.last() == name
}

/// Whether the fragment named `name` is reachable from some operation's
/// selection set, directly or through a chain of fragment spreads.
pub open spec fn spec_reachable(defs: Seq<ExecutableDefinition>, name: Seq<char>) -> bool {
    exists|i: int, p: Seq<Seq<char>>| doc_reaches_via(defs, i, p, name)
}

/// The fragment definitions of the first `i` definitions: each distinct
/// `(name, position)` pair once, in order of first occurrence.
pub open spec fn defined_fragments_upto(
    defs: Seq<ExecutableDefinition>,
    i: int,
) -> Seq<(Seq<char>, Pos)>
    decreases i,
{
    if i <= 0 {
        Seq::empty()
    } else {
        let prev = defined_fragments_upto(defs, i - 1);
        match defs[i - 1] {
            ExecutableDefinition::Fragment(fragment) => {
                if prev.contains((fragment.node.name.node@, fragment.pos)) {
                    prev
                } else {
                    prev.push((fragment.node.name.node@, fragment.pos))
                }
            },
            _ => prev,
        }
    }
}

/// The fragment definitions of the whole document, deduplicated.
pub open spec fn defined_fragments(defs: Seq<ExecutableDefinition>) -> Seq<(Seq<char>, Pos)> {
    defined_fragments_upto(defs, defs.len() as int)
}

/// The diagnostics for the first `k` recorded fragments: one per fragment
/// that is not reachable from any operation.
pub open spec fn unused_errors_upto(
    defs: Seq<ExecutableDefinition>,
    frags: Seq<(Seq<char>, Pos)>,
    k: int,
) -> Seq<SpecError>
    decreases k,
{
    if k <= 0 {
        Seq::empty()
    } else {
        unused_errors_upto(defs, frags, k - 1) + (if !spec_reachable(defs, frags[k - 1].0) {
            seq![
                SpecError {
                    locations: seq![frags[k - 1].1],
                    message: msg_unused_fragment(frags[k - 1].0),
                },
            ]
        } else {
            Seq::empty()
        })
    }
}

/// All diagnostics the fragment-usage rule reports on a document: one per
/// defined fragment that no operation reaches, in definition order.
pub open spec fn unused_fragment_errors(defs: Seq<ExecutableDefinition>) -> Seq<SpecError> {
    unused_errors_upto(defs, defined_fragments(defs), defined_fragments(defs).len() as int)
}

/// The index of the first entry for scope `sc` in the recorded spread map,
/// looking from entry `i` on.
pub open spec fn sp_entry(
    m: Seq<(SpecScope, Seq<Seq<char>>)>,
    sc: SpecScope,
    i: int,
) -> Option<int>
    decreases m.len() - i,
{
    if i < 0 || i >= m.len() {
        None
    } else if m[i].0 == sc {
        Some(i)
    } else {
        sp_entry(m, sc, i + 1)
    }
}

/// The fragment names recorded as spread from scope `sc`.
pub open spec fn targets_of(m: Seq<(SpecScope, Seq<Seq<char>>)>, sc: SpecScope) -> Seq<Seq<char>> {
    match sp_entry(m, sc, 0) {
        Some(k) => m[k].1,
        None => Seq::empty(),
    }
}

/// Every fragment name recorded as a spread target, over all scopes.
pub open spec fn all_targets(m: Seq<(SpecScope, Seq<Seq<char>>)>) -> Seq<Seq<char>>
    decreases m.len(),
{
    if m.len() == 0 {
        Seq::empty()
    } else {
        m[0].1 + all_targets(m.drop_first())
    }
}

/// Whether `p` is a chain of fragment names through the recorded spread
/// map, each spread by the fragment before it.
pub open spec fn map_chain(m: Seq<(SpecScope, Seq<Seq<char>>)>, p: Seq<Seq<char>>) -> bool {
    forall|k: int|
        0 <= k < p.len() - 1 ==> targets_of(m, SpecScope::Fragment(p[k])).contains(p[k + 1])
}

/// Whether the chain `p`, entered from the operation at index `i`, shows
/// the fragment named `name` to be in use, over the recorded spread map.
pub open spec fn map_reaches_via(
    m: Seq<(SpecScope, Seq<Seq<char>>)>,
    defs: Seq<ExecutableDefinition>,
    i: int,
    p: Seq<Seq<char>>,
    name: Seq<char>,
) -> bool {
    &&& 0 <= i < defs.len()
    &&& defs[i] is Operation
    &&& p.len() > 0
    &&& targets_of(m, scope_of(defs[i])).contains(p[0])
    &&& map_chain(m, p)
    &&& p.last() == name
}

/// Whether the fragment named `name` is reachable through the recorded
/// spread map from the scope of some operation of `defs`.
pub open spec fn map_reachable(
    m: Seq<(SpecScope, Seq<Seq<char>>)>,
    defs: Seq<ExecutableDefinition>,
    name: Seq<char>,
) -> bool {
    exists|i: int, p: Seq<Seq<char>>| map_reaches_via(m, defs, i, p, name)
}

/// The diagnostics reported from the recorded state: one per recorded
/// fragment not reachable through the recorded spread map.
pub open spec fn map_unused_upto(
    m: Seq<(SpecScope, Seq<Seq<char>>)>,
    defs: Seq<ExecutableDefinition>,
    frags: Seq<(Seq<char>, Pos)>,
    k: int,
) -> Seq<SpecError>
    decreases k,
{
    if k <= 0 {
        Seq::empty()
    } else {
        map_unused_upto(m, defs, frags, k - 1) + (if !map_reachable(m, defs, frags[k - 1].0) {
            seq![
                SpecError {
                    locations: seq![frags[k - 1].1],
                    message: msg_unused_fragment(frags[k - 1].0),
                },
            ]
        } else {
            Seq::empty()
        })
    }
}

/// All diagnostics reported from the recorded state.
pub open spec fn map_unused_errors(
    m: Seq<(SpecScope, Seq<Seq<char>>)>,
    defs: Seq<ExecutableDefinition>,
    frags: Seq<(Seq<char>, Pos)>,
) -> Seq<SpecError> {
    map_unused_upto(m, defs, frags, frags.len() as int)
}

/// The fragment-usage rule. State lives for one traversal only.
pub struct NoUnusedFragments {
    spreads: Vec<(Scope, Vec<String>)>,
    defined_fragments: Vec<(String, Pos)>,
    current_scope: Option<Scope>,
}

impl NoUnusedFragments {
    /// The recorded spread map: for each scope seen to spread fragments, the
    /// names it spreads, in document order.
    pub closed spec fn spreads_view(&self) -> Seq<(SpecScope, Seq<Seq<char>>)> {
        self.spreads@.map_values(
            |e: (Scope, Vec<String>)| (e.0@, e.1@.map_values(|s: String| s@)),
        )
    }

    /// The recorded fragment definitions, each distinct `(name, position)`
    /// pair once.
    pub closed spec fn defined_view(&self) -> Seq<(Seq<char>, Pos)> {
        self.defined_fragments@.map_values(|e: (String, Pos)| (e.0@, e.1))
    }

    /// The scope currently being walked.
    pub closed spec fn scope_view(&self) -> Option<SpecScope> {
        match self.current_scope {
            Some(scope) => Some(scope@),
            None => None,
        }
    }

    /// A fresh rule with nothing recorded.
    pub fn new() -> (r: Self)
        ensures
            r.spreads_view() == Seq::<(SpecScope, Seq<Seq<char>>)>::empty(),
            r.defined_view() == Seq::<(Seq<char>, Pos)>::empty(),
            r.scope_view() is None,
    {
        let r = NoUnusedFragments {
            spreads: Vec::new(),
            defined_fragments: Vec::new(),
            current_scope: None,
        };
        proof {
            assert(r.spreads_view() =~= Seq::<(SpecScope, Seq<Seq<char>>)>::empty());
            assert(r.defined_view() =~= Seq::<(Seq<char>, Pos)>::empty());
        }
        r
    }

    /// Whether a fragment with this name and position was already recorded.
    fn has_defined(&self, name: &String, pos: Pos) -> (r: bool)
        ensures
            r == self.defined_view().contains((name@, pos)),
    {
        let n = self.defined_fragments.len();
        let mut i: usize = 0;
        while i < n
            invariant
                0 <= i <= n,
                n == self.defined_fragments@.len(),
                forall|k: int| 0 <= k < i ==> self.defined_view()[k] != (name@, pos),
            decreases n - i,
        {
            let entry = &self.defined_fragments[i];
            if string_eq(&entry.0, name) && entry.1.line == pos.line && entry.1.column
                == pos.column {
                assert(self.defined_view()[i as int] == (name@, pos));
                return true;
            }
            assert(self.defined_view()[i as int] != (name@, pos));
            i = i + 1;
        }
        proof {
            if self.defined_view().contains((name@, pos)) {
                let k = choose|k: int|
                    0 <= k < self.defined_view().len() && self.defined_view()[k] == (name@, pos);
                assert(self.defined_view()[k] != (name@, pos));
            }
        }
        false
    }

    /// Records one spread of `name` from `scope`: appended to the scope's
    /// entry, which is created on its first spread.
    fn push_target(&mut self, scope: &Scope, name: &String)
        ensures
            final(self).defined_view() == old(self).defined_view(),
            final(self).scope_view() == old(self).scope_view(),
            forall|s: SpecScope|
                #[trigger] targets_of(final(self).spreads_view(), s) == if s == scope@ {
                    targets_of(old(self).spreads_view(), s).push(name@)
                } else {
                    targets_of(old(self).spreads_view(), s)
                },
    {
        let ghost m0 = self.spreads_view();
        let n = self.spreads.len();
        let mut k: usize = 0;
        while k < n
            invariant
                0 <= k <= n,
                n == self.spreads@.len(),
                self.spreads_view() == m0,
                m0 == old(self).spreads_view(),
                self.defined_view() == old(self).defined_view(),
                self.scope_view() == old(self).scope_view(),
                forall|j: int| 0 <= j < k ==> m0[j].0 != scope@,
                sp_entry(m0, scope@, 0) == sp_entry(m0, scope@, k as int),
            decreases n - k,
        {
            if self.spreads[k].0.same_scope(scope) {
                assert(m0[k as int].0 == scope@);
                assert(sp_entry(m0, scope@, 0) == Some(k as int));
                let ghost v0 = self.spreads@;
                let (entry_scope, mut entry_targets) = self.spreads.remove(k);
                let ghost t0 = entry_targets@;
                entry_targets.push(name.clone());
                let ghost appended = (entry_scope, entry_targets);
                self.spreads.insert(k, (entry_scope, entry_targets));
                proof {
                    let v1 = self.spreads@;
                    assert forall|j: int| 0 <= j < v1.len() implies v1[j] == v0.update(
                        k as int,
                        appended,
                    )[j] by {
                        if j < k {
                            assert(v0.remove(k as int)[j] == v0[j]);
                        } else if j > k {
                            assert(v0.remove(k as int)[j - 1] == v0[j]);
                        }
                    }
                    assert(v1 =~= v0.update(k as int, appended));
                    let m1 = self.spreads_view();
                    let target = m0.update(
                        k as int,
                        (m0[k as int].0, m0[k as int].1.push(name@)),
                    );
                    assert forall|j: int| 0 <= j < m1.len() implies m1[j] == target[j] by {
                        if j == k {
                            t0.lemma_push_map_commute(|t: String| t@, *name);
                            assert(appended.1@ == t0.push(*name));
                            assert(appended.1@.map_values(|t: String| t@) == t0.map_values(
                                |t: String| t@,
                            ).push(name@));
                        }
                    }
                    assert(m1 =~= target);
                    lemma_targets_after_update(m0, k as int, name@, scope@);
                    assert(self.defined_view() == old(self).defined_view());
                    assert(self.scope_view() == old(self).scope_view());
                }
                return;
            }
            assert(m0[k as int].0 != scope@);
            k = k + 1;
        }
        assert(sp_entry(m0, scope@, 0) is None);
        let mut fresh: Vec<String> = Vec::new();
        fresh.push(name.clone());
        proof {
            assert(fresh@.map_values(|t: String| t@) =~= seq![name@]);
        }
        let ghost vpre = self.spreads@;
        let ghost mpre = self.spreads_view();
        let duplicated = scope.duplicate();
        self.spreads.push((duplicated, fresh));
        proof {
            let m1 = self.spreads_view();
            assert forall|j: int| 0 <= j < m1.len() implies m1[j] == m0.push(
                (scope@, seq![name@]),
            )[j] by {
                if j < m0.len() {
                    assert(self.spreads@[j] == vpre[j]);
                    assert(m1[j] == mpre[j]);
                }
            }
            assert(m1 =~= m0.push((scope@, seq![name@])));
            lemma_targets_after_push(m0, name@, scope@);
        }
    }
}

proof fn lemma_sp_entry_same_keys(
    m0: Seq<(SpecScope, Seq<Seq<char>>)>,
    m1: Seq<(SpecScope, Seq<Seq<char>>)>,
    s: SpecScope,
    i: int,
)
    requires
        m0.len() == m1.len(),
        forall|j: int| 0 <= j < m0.len() ==> m0[j].0 == m1[j].0,
        0 <= i <= m0.len(),
    ensures
        sp_entry(m0, s, i) == sp_entry(m1, s, i),
    decreases m0.len() - i,
{
    if i < m0.len() && m0[i].0 != s {
        lemma_sp_entry_same_keys(m0, m1, s, i + 1);
    }
}

proof fn lemma_targets_after_update(
    m0: Seq<(SpecScope, Seq<Seq<char>>)>,
    k: int,
    name: Seq<char>,
    sc: SpecScope,
)
    requires
        0 <= k < m0.len(),
        m0[k].0 == sc,
        sp_entry(m0, sc, 0) == Some(k),
    ensures
        forall|s: SpecScope|
            #[trigger] targets_of(m0.update(k, (m0[k].0, m0[k].1.push(name))), s) == if s == sc {
                targets_of(m0, s).push(name)
            } else {
                targets_of(m0, s)
            },
{
    let m1 = m0.update(k, (m0[k].0, m0[k].1.push(name)));
    assert forall|s: SpecScope|
        #[trigger] targets_of(m1, s) == if s == sc {
            targets_of(m0, s).push(name)
        } else {
            targets_of(m0, s)
        } by {
        lemma_sp_entry_same_keys(m0, m1, s, 0);
        match sp_entry(m0, s, 0) {
            Some(j) => {
                lemma_sp_entry_first(m0, s, 0, j);
                if s == sc {
                    assert(sp_entry(m0, s, 0) == sp_entry(m0, sc, 0));
                    assert(j == k);
                    assert(m1[k].1 == m0[k].1.push(name));
                } else {
                    assert(m0[j].0 == s);
                    assert(j != k);
                    assert(m1[j].1 == m0[j].1);
                }
            },
            None => {
                if s == sc {
                    lemma_sp_entry_found(m0, s, 0, k);
                }
            },
        }
    }
}

/// A found entry is in range, matches, and is the first match.
proof fn lemma_sp_entry_first(m: Seq<(SpecScope, Seq<Seq<char>>)>, s: SpecScope, i: int, j: int)
    requires
        0 <= i <= m.len(),
        sp_entry(m, s, i) == Some(j),
    ensures
        i <= j < m.len(),
        m[j].0 == s,
        forall|l: int| i <= l < j ==> m[l].0 != s,
    decreases m.len() - i,
{
    if i < m.len() && m[i].0 != s {
        lemma_sp_entry_first(m, s, i + 1, j);
    }
}

/// A matching entry at or after `i` means the scan from `i` finds one.
proof fn lemma_sp_entry_found(m: Seq<(SpecScope, Seq<Seq<char>>)>, s: SpecScope, i: int, w: int)
    requires
        0 <= i <= w < m.len(),
        m[w].0 == s,
    ensures
        sp_entry(m, s, i) is Some,
    decreases w - i,
{
    if m[i].0 != s {
        lemma_sp_entry_found(m, s, i + 1, w);
    }
}

proof fn lemma_sp_entry_push(
    m: Seq<(SpecScope, Seq<Seq<char>>)>,
    e: (SpecScope, Seq<Seq<char>>),
    s: SpecScope,
    i: int,
)
    requires
        0 <= i <= m.len(),
    ensures
        sp_entry(m.push(e), s, i) == match sp_entry(m, s, i) {
            Some(k) => Some(k),
            None => if e.0 == s {
                Some(m.len() as int)
            } else {
                None
            },
        },
    decreases m.len() - i,
{
    if i < m.len() {
        assert(m.push(e)[i] == m[i]);
        lemma_sp_entry_push(m, e, s, i + 1);
    } else {
        assert(m.push(e)[i] == e);
        assert(sp_entry(m, s, i) is None);
        if e.0 != s {
            assert(sp_entry(m.push(e), s, i + 1) is None);
        }
    }
}

proof fn lemma_targets_after_push(
    m0: Seq<(SpecScope, Seq<Seq<char>>)>,
    name: Seq<char>,
    sc: SpecScope,
)
    requires
        sp_entry(m0, sc, 0) is None,
    ensures
        forall|s: SpecScope|
            #[trigger] targets_of(m0.push((sc, seq![name])), s) == if s == sc {
                targets_of(m0, s).push(name)
            } else {
                targets_of(m0, s)
            },
{
    let m1 = m0.push((sc, seq![name]));
    assert forall|s: SpecScope|
        #[trigger] targets_of(m1, s) == if s == sc {
            targets_of(m0, s).push(name)
        } else {
            targets_of(m0, s)
        } by {
        lemma_sp_entry_push(m0, (sc, seq![name]), s, 0);
        match sp_entry(m0, s, 0) {
            Some(j) => {
                lemma_sp_entry_first(m0, s, 0, j);
                assert(m1[j].1 == m0[j].1);
                if s == sc {
                    assert(false);
                }
            },
            None => {
                if s == sc {
                    assert(targets_of(m0, s) =~= Seq::<Seq<char>>::empty());
                    assert(m1[m0.len() as int].1 == seq![name]);
                    assert(targets_of(m0, s).push(name) =~= seq![name]);
                }
            },
        }
    }
}

/// Every target recorded for entry `k` is among all recorded targets.
proof fn lemma_entry_in_all(m: Seq<(SpecScope, Seq<Seq<char>>)>, k: int, x: Seq<char>)
    requires
        0 <= k < m.len(),
        m[k].1.contains(x),
    ensures
        all_targets(m).contains(x),
    decreases k,
{
    if k == 0 {
        let i = choose|i: int| 0 <= i < m[0].1.len() && m[0].1[i] == x;
        assert(all_targets(m)[i] == x);
    } else {
        assert(m.drop_first()[k - 1] == m[k]);
        lemma_entry_in_all(m.drop_first(), k - 1, x);
        let i = choose|i: int|
            0 <= i < all_targets(m.drop_first()).len() && all_targets(m.drop_first())[i] == x;
        assert(all_targets(m)[m[0].1.len() + i] == x);
    }
}

/// Every target recorded for a scope is among all recorded targets.
proof fn lemma_targets_in_all(m: Seq<(SpecScope, Seq<Seq<char>>)>, sc: SpecScope, x: Seq<char>)
    requires
        targets_of(m, sc).contains(x),
    ensures
        all_targets(m).contains(x),
{
    match sp_entry(m, sc, 0) {
        Some(k) => {
            lemma_sp_entry_first(m, sc, 0, k);
            lemma_entry_in_all(m, k, x);
        },
        None => {},
    }
}

/// A direct spread target of an operation is in use.
proof fn lemma_direct_target_reachable(
    m: Seq<(SpecScope, Seq<Seq<char>>)>,
    defs: Seq<ExecutableDefinition>,
    j: int,
    x: Seq<char>,
)
    requires
        0 <= j < defs.len(),
        defs[j] is Operation,
        targets_of(m, scope_of(defs[j])).contains(x),
    ensures
        map_reachable(m, defs, x),
{
    let p = seq![x];
    assert(p.last() == x);
    assert(map_chain(m, p));
    assert(map_reaches_via(m, defs, j, p, x));
}

/// A spread target of a fragment in use is itself in use.
proof fn lemma_extend_path(
    m: Seq<(SpecScope, Seq<Seq<char>>)>,
    defs: Seq<ExecutableDefinition>,
    r: Seq<char>,
    x: Seq<char>,
)
    requires
        map_reachable(m, defs, r),
        targets_of(m, SpecScope::Fragment(r)).contains(x),
    ensures
        map_reachable(m, defs, x),
{
    let (i, p): (int, Seq<Seq<char>>) = choose|i: int, p: Seq<Seq<char>>|
        map_reaches_via(m, defs, i, p, r);
    let p2 = p.push(x);
    assert(p2.last() == x);
    assert(p2[0] == p[0]);
    assert forall|k: int|
        0 <= k < p2.len() - 1 implies targets_of(m, SpecScope::Fragment(p2[k])).contains(
        p2[k + 1],
    ) by {
        if k < p.len() - 1 {
            assert(p2[k] == p[k]);
            assert(p2[k + 1] == p[k + 1]);
        } else {
            assert(p2[k] == p.last());
            assert(p2[k + 1] == x);
        }
    }
    assert(map_reaches_via(m, defs, i, p2, x));
}

/// A name on every chain from a closed set of names is in the set: the
/// cycle-safe search misses nothing.
proof fn lemma_chain_reached(
    m: Seq<(SpecScope, Seq<Seq<char>>)>,
    defs: Seq<ExecutableDefinition>,
    found: Seq<Seq<char>>,
    i: int,
    p: Seq<Seq<char>>,
    name: Seq<char>,
)
    requires
        map_reaches_via(m, defs, i, p, name),
        forall|j: int, x: Seq<char>|
            0 <= j < defs.len() && defs[j] is Operation && #[trigger] targets_of(
                m,
                scope_of(defs[j]),
            ).contains(x) ==> found.contains(x),
        forall|r: Seq<char>, x: Seq<char>|
            found.contains(r) && #[trigger] targets_of(m, SpecScope::Fragment(r)).contains(x)
                ==> found.contains(x),
    ensures
        found.contains(name),
    decreases p.len(),
{
    if p.len() == 1 {
        assert(targets_of(m, scope_of(defs[i])).contains(p[0]));
    } else {
        let p1 = p.drop_last();
        assert forall|k: int|
            0 <= k < p1.len() - 1 implies targets_of(m, SpecScope::Fragment(p1[k])).contains(
            p1[k + 1],
        ) by {
            assert(p1[k] == p[k]);
            assert(p1[k + 1] == p[k + 1]);
        }
        assert(p1[0] == p[0]);
        assert(map_reaches_via(m, defs, i, p1, p1.last()));
        lemma_chain_reached(m, defs, found, i, p1, p1.last());
        assert(p1.last() == p[p.len() - 2]);
        assert(targets_of(m, SpecScope::Fragment(p[p.len() - 2])).contains(p[p.len() - 1]));
    }
}

fn append_all(stack: &mut Vec<String>, items: &Vec<String>)
    ensures
        string_views(final(stack)@) == string_views(old(stack)@) + string_views(items@),
{
    let n = items.len();
    let mut i: usize = 0;
    while i < n
        invariant
            0 <= i <= n,
            n == items@.len(),
            string_views(stack@) == string_views(old(stack)@) + string_views(items@).subrange(
                0,
                i as int,
            ),
        decreases n - i,
    {
        let ghost pre = stack@;
        stack.push(items[i].clone());
        proof {
            pre.lemma_push_map_commute(|t: String| t@, items@[i as int]);
            assert(string_views(stack@) =~= string_views(old(stack)@) + string_views(
                items@,
            ).subrange(0, i + 1));
        }
        i = i + 1;
    }
    proof {
        assert(string_views(items@).subrange(0, n as int) =~= string_views(items@));
    }
}

impl NoUnusedFragments {
    /// The recorded spread targets of a scope, when it has any.
    fn targets_for(&self, scope: &Scope) -> (r: Option<&Vec<String>>)
        ensures
            match r {
                Some(v) => string_views(v@) == targets_of(self.spreads_view(), scope@),
                None => targets_of(self.spreads_view(), scope@) == Seq::<Seq<char>>::empty(),
            },
    {
        let ghost m = self.spreads_view();
        let n = self.spreads.len();
        let mut k: usize = 0;
        while k < n
            invariant
                0 <= k <= n,
                n == self.spreads@.len(),
                m == self.spreads_view(),
                sp_entry(m, scope@, 0) == sp_entry(m, scope@, k as int),
            decreases n - k,
        {
            if self.spreads[k].0.same_scope(scope) {
                assert(m[k as int].0 == scope@);
                assert(sp_entry(m, scope@, 0) == Some(k as int));
                return Some(&self.spreads[k].1);
            }
            assert(m[k as int].0 != scope@);
            k = k + 1;
        }
        assert(sp_entry(m, scope@, 0) is None);
        None
    }

    /// The names of all fragments reachable from any operation of `doc`
    /// through the recorded spread map, cycle-safely.
    #[verifier::rlimit(100)]
    fn find_reachable_fragments(&self, doc: &ExecutableDocument) -> (r: Vec<String>)
        ensures
            forall|x: Seq<char>|
                #[trigger] string_views(r@).contains(x) <==> map_reachable(
                    self.spreads_view(),
                    doc.definitions@,
                    x,
                ),
    {
        let ghost m = self.spreads_view();
        let ghost defs = doc.definitions@;
        let mut stack: Vec<String> = Vec::new();

        let n = doc.definitions.len();
        let mut i: usize = 0;
        while i < n
            invariant
                0 <= i <= n,
                n == defs.len(),
                defs == doc.definitions@,
                m == self.spreads_view(),
                forall|k: int|
                    0 <= k < stack@.len() ==> map_reachable(
                        m,
                        defs,
                        #[trigger] string_views(stack@)[k],
                    ),
                forall|k: int|
                    0 <= k < stack@.len() ==> all_targets(m).contains(
                        #[trigger] string_views(stack@)[k],
                    ),
                forall|j: int, x: Seq<char>|
                    0 <= j < i && defs[j] is Operation && #[trigger] targets_of(
                        m,
                        scope_of(defs[j]),
                    ).contains(x) ==> string_views(stack@).contains(x),
            decreases n - i,
        {
            match &doc.definitions[i] {
                ExecutableDefinition::Operation(op) => {
                    let scope = Scope::Operation(
                        match &op.node.name {
                            Some(name) => Some(name.node.clone()),
                            None => None,
                        },
                    );
                    proof {
                        assert(scope@ == scope_of(defs[i as int]));
                    }
                    let ghost pre = stack@;
                    match self.targets_for(&scope) {
                        Some(ts) => {
                            append_all(&mut stack, ts);
                            proof {
                                let tv = targets_of(m, scope_of(defs[i as int]));
                                assert(string_views(stack@) == string_views(pre) + tv);
                                assert forall|k: int|
                                    0 <= k < stack@.len() implies map_reachable(
                                    m,
                                    defs,
                                    #[trigger] string_views(stack@)[k],
                                ) && all_targets(m).contains(string_views(stack@)[k]) by {
                                    if k < pre.len() {
                                        assert(string_views(stack@)[k] == string_views(pre)[k]);
                                    } else {
                                        let x = string_views(stack@)[k];
                                        assert(tv[k - pre.len()] == x);
                                        assert(tv.contains(x));
                                        lemma_direct_target_reachable(m, defs, i as int, x);
                                        lemma_targets_in_all(m, scope_of(defs[i as int]), x);
                                    }
                                }
                                assert forall|j: int, x: Seq<char>|
                                    0 <= j < i + 1 && defs[j] is Operation && #[trigger] targets_of(
                                    m,
                                    scope_of(defs[j]),
                                ).contains(x) implies string_views(stack@).contains(x) by {
                                    if j < i {
                                        let k = choose|k: int|
                                            0 <= k < string_views(pre).len() && string_views(
                                                pre,
                                            )[k] == x;
                                        assert(string_views(stack@)[k] == x);
                                    } else {
                                        let tv = targets_of(m, scope_of(defs[j]));
                                        let k = choose|k: int| 0 <= k < tv.len() && tv[k] == x;
                                        assert(string_views(stack@)[pre.len() + k] == x);
                                    }
                                }
                            }
                        },
                        None => {},
                    }
                },
                ExecutableDefinition::Fragment(..) => {},
            }
            i = i + 1;
        }

        let ghost u = all_targets(m).to_set();
        let mut reachable: Vec<String> = Vec::new();
        loop
            invariant
                defs == doc.definitions@,
                m == self.spreads_view(),
                u == all_targets(m).to_set(),
                forall|k: int|
                    0 <= k < stack@.len() ==> map_reachable(
                        m,
                        defs,
                        #[trigger] string_views(stack@)[k],
                    ),
                forall|k: int|
                    0 <= k < stack@.len() ==> u.contains(#[trigger] string_views(stack@)[k]),
                forall|k: int|
                    0 <= k < reachable@.len() ==> map_reachable(
                        m,
                        defs,
                        #[trigger] string_views(reachable@)[k],
                    ),
                forall|k: int|
                    0 <= k < reachable@.len() ==> u.contains(
                        #[trigger] string_views(reachable@)[k],
                    ),
                string_views(reachable@).no_duplicates(),
                forall|j: int, x: Seq<char>|
                    0 <= j < defs.len() && defs[j] is Operation && #[trigger] targets_of(
                        m,
                        scope_of(defs[j]),
                    ).contains(x) ==> string_views(stack@).contains(x) || string_views(
                        reachable@,
                    ).contains(x),
                forall|r: Seq<char>, x: Seq<char>|
                    string_views(reachable@).contains(r) && #[trigger] targets_of(
                        m,
                        SpecScope::Fragment(r),
                    ).contains(x) ==> string_views(stack@).contains(x) || string_views(
                        reachable@,
                    ).contains(x),
            ensures
                stack@.len() == 0,
                forall|k: int|
                    0 <= k < reachable@.len() ==> map_reachable(
                        m,
                        defs,
                        #[trigger] string_views(reachable@)[k],
                    ),
                forall|j: int, x: Seq<char>|
                    0 <= j < defs.len() && defs[j] is Operation && #[trigger] targets_of(
                        m,
                        scope_of(defs[j]),
                    ).contains(x) ==> string_views(reachable@).contains(x),
                forall|r: Seq<char>, x: Seq<char>|
                    string_views(reachable@).contains(r) && #[trigger] targets_of(
                        m,
                        SpecScope::Fragment(r),
                    ).contains(x) ==> string_views(reachable@).contains(x),
            decreases u.len() - reachable@.len(), stack@.len(),
        {
            proof {
                string_views(reachable@).unique_seq_to_set();
                assert(string_views(reachable@).to_set().subset_of(u)) by {
                    assert forall|x: Seq<char>|
                        string_views(reachable@).to_set().contains(x) implies u.contains(x) by {
                        let k = choose|k: int|
                            0 <= k < string_views(reachable@).len() && string_views(
                                reachable@,
                            )[k] == x;
                    }
                }
                vstd::set_lib::lemma_len_subset(string_views(reachable@).to_set(), u);
            }
            if stack.len() == 0 {
                break;
            }
            let ghost spre = stack@;
            let popped = stack.pop().unwrap();
            proof {
                assert(stack@ =~= spre.drop_last());
                assert(string_views(stack@) =~= string_views(spre).drop_last());
                assert(string_views(spre)[spre.len() - 1] == popped@);
            }
            if !contains_string(&reachable, &popped) {
                let ghost rpre = reachable@;
                reachable.push(popped.clone());
                proof {
                    rpre.lemma_push_map_commute(|t: String| t@, popped);
                    assert(string_views(reachable@) =~= string_views(rpre).push(popped@));
                    assert(map_reachable(m, defs, popped@));
                    string_views(reachable@).unique_seq_to_set();
                    assert(string_views(reachable@).to_set().subset_of(u));
                    vstd::set_lib::lemma_len_subset(string_views(reachable@).to_set(), u);
                }
                let frag_scope = Scope::Fragment(popped);
                let ghost s2 = stack@;
                match self.targets_for(&frag_scope) {
                    Some(ts) => {
                        append_all(&mut stack, ts);
                        proof {
                            assert(string_views(stack@) == string_views(s2) + targets_of(
                                m,
                                SpecScope::Fragment(popped@),
                            ));
                        }
                    },
                    None => {},
                }
                proof {
                    let rv = string_views(reachable@);
                    let sv = string_views(stack@);
                    let ghost tv = targets_of(m, SpecScope::Fragment(popped@));
                    assert forall|k: int|
                        0 <= k < sv.len() implies map_reachable(m, defs, #[trigger] sv[k])
                        && u.contains(sv[k]) by {
                        if k < string_views(s2).len() {
                            assert(sv[k] == string_views(s2)[k]);
                            assert(string_views(s2)[k] == string_views(spre)[k]);
                        } else {
                            assert(tv[k - string_views(s2).len()] == sv[k]);
                            assert(tv.contains(sv[k]));
                            lemma_extend_path(m, defs, popped@, sv[k]);
                            lemma_targets_in_all(m, SpecScope::Fragment(popped@), sv[k]);
                        }
                    }
                    assert forall|j: int, x: Seq<char>|
                        0 <= j < defs.len() && defs[j] is Operation && #[trigger] targets_of(
                            m,
                            scope_of(defs[j]),
                        ).contains(x) implies sv.contains(x) || rv.contains(x) by {
                        lemma_membership_preserved(spre, s2, rpre, reachable@, stack@, popped, x);
                    }
                    assert forall|r: Seq<char>, x: Seq<char>|
                        rv.contains(r) && #[trigger] targets_of(
                            m,
                            SpecScope::Fragment(r),
                        ).contains(x) implies sv.contains(x) || rv.contains(x) by {
                        if r == popped@ {
                            let k = choose|k: int| 0 <= k < tv.len() && tv[k] == x;
                            assert(sv[string_views(s2).len() + k] == x);
                        } else {
                            assert(string_views(rpre).contains(r));
                            lemma_membership_preserved(
                                spre,
                                s2,
                                rpre,
                                reachable@,
                                stack@,
                                popped,
                                x,
                            );
                        }
                    }
                }
            } else {
                proof {
                    let rv = string_views(reachable@);
                    let sv = string_views(stack@);
                    assert forall|j: int, x: Seq<char>|
                        0 <= j < defs.len() && defs[j] is Operation && #[trigger] targets_of(
                            m,
                            scope_of(defs[j]),
                        ).contains(x) implies sv.contains(x) || rv.contains(x) by {
                        lemma_membership_preserved_pop(spre, stack@, reachable@, popped, x);
                    }
                    assert forall|r: Seq<char>, x: Seq<char>|
                        rv.contains(r) && #[trigger] targets_of(
                            m,
                            SpecScope::Fragment(r),
                        ).contains(x) implies sv.contains(x) || rv.contains(x) by {
                        lemma_membership_preserved_pop(spre, stack@, reachable@, popped, x);
                    }
                }
            }
        }

        proof {
            assert forall|x: Seq<char>|
                #[trigger] string_views(reachable@).contains(x) <==> map_reachable(
                    m,
                    defs,
                    x,
                ) by {
                if string_views(reachable@).contains(x) {
                    let k = choose|k: int|
                        0 <= k < string_views(reachable@).len() && string_views(reachable@)[k]
                            == x;
                    assert(map_reachable(m, defs, string_views(reachable@)[k]));
                }
                if map_reachable(m, defs, x) {
                    let (i, p): (int, Seq<Seq<char>>) = choose|i: int, p: Seq<Seq<char>>|
                        map_reaches_via(m, defs, i, p, x);
                    assert(string_views(stack@).len() == 0);
                    lemma_chain_reached(m, defs, string_views(reachable@), i, p, x);
                }
            }
        }
        reachable
    }
}

/// After a pop, an element present in the old stack or the old found set is
/// present in the new stack or the new found set, the popped element having
/// moved into the found set.
proof fn lemma_membership_preserved(
    spre: Seq<String>,
    s2: Seq<String>,
    rpre: Seq<String>,
    rnow: Seq<String>,
    snow: Seq<String>,
    popped: String,
    x: Seq<char>,
)
    requires
        s2 == spre.drop_last(),
        spre.len() > 0,
        string_views(spre)[spre.len() - 1] == popped@,
        string_views(rnow) == string_views(rpre).push(popped@),
        string_views(snow).len() >= string_views(s2).len(),
        forall|k: int|
            0 <= k < string_views(s2).len() ==> #[trigger] string_views(snow)[k] == string_views(
                s2,
            )[k],
        string_views(spre).contains(x) || string_views(rpre).contains(x),
    ensures
        string_views(snow).contains(x) || string_views(rnow).contains(x),
{
    if string_views(rpre).contains(x) {
        let k = choose|k: int|
            0 <= k < string_views(rpre).len() && string_views(rpre)[k] == x;
        assert(string_views(rnow)[k] == x);
    } else {
        let k = choose|k: int|
            0 <= k < string_views(spre).len() && string_views(spre)[k] == x;
        if k == spre.len() - 1 {
            assert(string_views(rnow).last() == popped@);
            assert(string_views(rnow).contains(x));
        } else {
            assert(string_views(s2)[k] =~= string_views(spre)[k]);
            assert(string_views(snow)[k] == x);
        }
    }
}

/// After popping an element already found, membership in stack-or-found is
/// preserved.
proof fn lemma_membership_preserved_pop(
    spre: Seq<String>,
    snow: Seq<String>,
    rnow: Seq<String>,
    popped: String,
    x: Seq<char>,
)
    requires
        snow == spre.drop_last(),
        spre.len() > 0,
        string_views(spre)[spre.len() - 1] == popped@,
        string_views(rnow).contains(popped@),
        string_views(spre).contains(x) || string_views(rnow).contains(x),
    ensures
        string_views(snow).contains(x) || string_views(rnow).contains(x),
{
    if string_views(spre).contains(x) {
        let k = choose|k: int|
            0 <= k < string_views(spre).len() && string_views(spre)[k] == x;
        if k == spre.len() - 1 {
            assert(string_views(rnow).contains(x));
        } else {
            assert(string_views(snow)[k] =~= string_views(spre)[k]);
            assert(string_views(snow).contains(x));
        }
    }
}

proof fn lemma_spreads_items_push(items: Seq<Positioned<Selection>>, x: Positioned<Selection>)
    ensures
        spreads_in_items(items.push(x)) == spreads_in_items(items) + spreads_in_selection(x.node),
    decreases items.len(),
{
    if items.len() == 0 {
        assert(items.push(x)[0] == x);
        assert(items.push(x).drop_first() =~= Seq::<Positioned<Selection>>::empty());
        assert(spreads_in_items(items.push(x).drop_first()) =~= Seq::<Seq<char>>::empty());
        assert(spreads_in_items(items.push(x)) == spreads_in_selection(x.node) + spreads_in_items(
            items.push(x).drop_first(),
        ));
        assert(spreads_in_items(items.push(x)) =~= spreads_in_items(items) + spreads_in_selection(
            x.node,
        ));
    } else {
        assert(items.push(x)[0] == items[0]);
        assert(items.push(x).drop_first() =~= items.drop_first().push(x));
        lemma_spreads_items_push(items.drop_first(), x);
        assert(items.push(x).len() > 0);
        assert(spreads_in_items(items.push(x)) == spreads_in_selection(items[0].node)
            + spreads_in_items(items.push(x).drop_first()));
        assert(spreads_in_items(items.push(x).drop_first()) == spreads_in_items(items.drop_first())
            + spreads_in_selection(x.node));
        assert(spreads_in_items(items) == spreads_in_selection(items[0].node) + spreads_in_items(
            items.drop_first(),
        ));
        assert(spreads_in_items(items.push(x)) =~= spreads_in_items(items) + spreads_in_selection(
            x.node,
        ));
    }
}

/// Walks one selection set for the fragment-usage rule, recording every
/// spread it contains under the rule's current scope.
pub fn walk_selection_set(
    rule: &mut NoUnusedFragments,
    ctx: &mut VisitorContext,
    selection_set: &Positioned<SelectionSet>,
)
    requires
        old(rule).scope_view() is Some,
    ensures
        final(ctx).errors@ == old(ctx).errors@,
        final(rule).defined_view() == old(rule).defined_view(),
        final(rule).scope_view() == old(rule).scope_view(),
        forall|s: SpecScope|
            #[trigger] targets_of(final(rule).spreads_view(), s) == if s == old(
                rule,
            ).scope_view()->Some_0 {
                targets_of(old(rule).spreads_view(), s) + spreads_in_selection_set(
                    selection_set.node,
                )
            } else {
                targets_of(old(rule).spreads_view(), s)
            },
    decreases selection_set.node,
{
    let ghost sc = old(rule).scope_view()->Some_0;
    let ghost m0 = rule.spreads_view();
    let ghost items = selection_set.node.items@;
    let n = selection_set.node.items.len();
    let mut i: usize = 0;
    while i < n
        invariant
            0 <= i <= n,
            n == items.len(),
            items == selection_set.node.items@,
            ctx.errors@ == old(ctx).errors@,
            rule.defined_view() == old(rule).defined_view(),
            rule.scope_view() == old(rule).scope_view(),
            old(rule).scope_view() == Some(sc),
            m0 == old(rule).spreads_view(),
            forall|s: SpecScope|
                #[trigger] targets_of(rule.spreads_view(), s) == if s == sc {
                    targets_of(m0, s) + spreads_in_items(items.take(i as int))
                } else {
                    targets_of(m0, s)
                },
        decreases n - i,
    {
        let ghost mpre = rule.spreads_view();
        walk_selection(rule, ctx, &selection_set.node.items[i]);
        proof {
            assert(items.take(i + 1) =~= items.take(i as int).push(items[i as int]));
            lemma_spreads_items_push(items.take(i as int), items[i as int]);
            assert forall|s: SpecScope|
                #[trigger] targets_of(rule.spreads_view(), s) == if s == sc {
                    targets_of(m0, s) + spreads_in_items(items.take(i + 1))
                } else {
                    targets_of(m0, s)
                } by {
                assert(targets_of(rule.spreads_view(), s) == if s == sc {
                    targets_of(mpre, s) + spreads_in_selection(items[i as int].node)
                } else {
                    targets_of(mpre, s)
                });
                if s == sc {
                    assert(targets_of(m0, s) + spreads_in_items(items.take(i + 1))
                        =~= (targets_of(m0, s) + spreads_in_items(items.take(i as int)))
                        + spreads_in_selection(items[i as int].node));
                }
            }
        }
        i = i + 1;
    }
    proof {
        assert(items.take(n as int) =~= items);
    }
}

fn walk_selection(
    rule: &mut NoUnusedFragments,
    ctx: &mut VisitorContext,
    selection: &Positioned<Selection>,
)
    requires
        old(rule).scope_view() is Some,
    ensures
        final(ctx).errors@ == old(ctx).errors@,
        final(rule).defined_view() == old(rule).defined_view(),
        final(rule).scope_view() == old(rule).scope_view(),
        forall|s: SpecScope|
            #[trigger] targets_of(final(rule).spreads_view(), s) == if s == old(
                rule,
            ).scope_view()->Some_0 {
                targets_of(old(rule).spreads_view(), s) + spreads_in_selection(selection.node)
            } else {
                targets_of(old(rule).spreads_view(), s)
            },
    decreases selection.node,
{
    let ghost sc = old(rule).scope_view()->Some_0;
    match &selection.node {
        Selection::Field(field) => {
            walk_selection_set(rule, ctx, &field.node.selection_set);
        },
        Selection::FragmentSpread(fragment_spread) => {
            let ghost m0 = rule.spreads_view();
            rule.enter_fragment_spread(ctx, fragment_spread);
            proof {
                assert forall|s: SpecScope|
                    #[trigger] targets_of(rule.spreads_view(), s) == if s == sc {
                        targets_of(m0, s) + spreads_in_selection(selection.node)
                    } else {
                        targets_of(m0, s)
                    } by {
                    if s == sc {
                        assert(targets_of(m0, s).push(
                            fragment_spread.node.fragment_name.node@,
                        ) =~= targets_of(m0, s) + seq![fragment_spread.node.fragment_name.node@]);
                    }
                }
            }
        },
        Selection::InlineFragment(inline_fragment) => {
            walk_selection_set(rule, ctx, &inline_fragment.node.selection_set);
        },
    }
}

/// When the recorded spread map agrees pointwise with the document's edges,
/// reachability through it is reachability in the document.
pub proof fn lemma_reachable_equiv(
    m: Seq<(SpecScope, Seq<Seq<char>>)>,
    defs: Seq<ExecutableDefinition>,
    x: Seq<char>,
)
    requires
        forall|s: SpecScope| #[trigger] targets_of(m, s) == doc_targets(defs, s),
    ensures
        map_reachable(m, defs, x) <==> spec_reachable(defs, x),
{
    if map_reachable(m, defs, x) {
        let (i, p): (int, Seq<Seq<char>>) = choose|i: int, p: Seq<Seq<char>>|
            map_reaches_via(m, defs, i, p, x);
        assert(targets_of(m, scope_of(defs[i])) == doc_targets(defs, scope_of(defs[i])));
        assert forall|k: int|
            0 <= k < p.len() - 1 implies doc_targets(defs, SpecScope::Fragment(p[k])).contains(
            p[k + 1],
        ) by {
            assert(targets_of(m, SpecScope::Fragment(p[k])) == doc_targets(
                defs,
                SpecScope::Fragment(p[k]),
            ));
        }
        assert(doc_reaches_via(defs, i, p, x));
    }
    if spec_reachable(defs, x) {
        let (i, p): (int, Seq<Seq<char>>) = choose|i: int, p: Seq<Seq<char>>|
            doc_reaches_via(defs, i, p, x);
        assert(targets_of(m, scope_of(defs[i])) == doc_targets(defs, scope_of(defs[i])));
        assert forall|k: int|
            0 <= k < p.len() - 1 implies targets_of(m, SpecScope::Fragment(p[k])).contains(
            p[k + 1],
        ) by {
            assert(targets_of(m, SpecScope::Fragment(p[k])) == doc_targets(
                defs,
                SpecScope::Fragment(p[k]),
            ));
        }
        assert(map_reaches_via(m, defs, i, p, x));
    }
}

/// Under the same agreement, the diagnostics computed from the recorded
/// state are the document's unused-fragment diagnostics.
pub proof fn lemma_unused_equiv(
    m: Seq<(SpecScope, Seq<Seq<char>>)>,
    defs: Seq<ExecutableDefinition>,
    frags: Seq<(Seq<char>, Pos)>,
    k: int,
)
    requires
        forall|s: SpecScope| #[trigger] targets_of(m, s) == doc_targets(defs, s),
        0 <= k <= frags.len(),
    ensures
        map_unused_upto(m, defs, frags, k) == unused_errors_upto(defs, frags, k),
    decreases k,
{
    if k > 0 {
        lemma_unused_equiv(m, defs, frags, k - 1);
        lemma_reachable_equiv(m, defs, frags[k - 1].0);
    }
}

/// The recorded fragment definitions carry no duplicate pair.
proof fn lemma_defined_fragments_no_duplicates(defs: Seq<ExecutableDefinition>, i: int)
    requires
        0 <= i <= defs.len(),
    ensures
        defined_fragments_upto(defs, i).no_duplicates(),
    decreases i,
{
    if i > 0 {
        lemma_defined_fragments_no_duplicates(defs, i - 1);
        let prev = defined_fragments_upto(defs, i - 1);
        match defs[i - 1] {
            ExecutableDefinition::Fragment(fragment) => {
                let pair = (fragment.node.name.node@, fragment.pos);
                if !prev.contains(pair) {
                    assert forall|a: int, b: int|
                        0 <= a < b < prev.push(pair).len() implies prev.push(pair)[a] != prev.push(
                        pair,
                    )[b] by {
                        if b == prev.len() {
                            assert(prev[a] == prev.push(pair)[a]);
                        }
                    }
                }
            },
            _ => {},
        }
    }
}

/// Law: the fragment-usage diagnostics are exactly one `never used`
/// diagnostic for each defined fragment that no operation reaches — also
/// when it is reachable only via a cycle of mutually-spreading fragments —
/// and none for a fragment that some operation reaches, directly or through
/// any chain.
pub proof fn lemma_fragment_usage_law(defs: Seq<ExecutableDefinition>)
    ensures
        defined_fragments(defs).no_duplicates(),
        unused_fragment_errors(defs) == defined_fragments(defs).filter(
            |f: (Seq<char>, Pos)| !spec_reachable(defs, f.0),
        ).map_values(
            |f: (Seq<char>, Pos)| SpecError {
                locations: seq![f.1],
                message: msg_unused_fragment(f.0),
            },
        ),
{
    lemma_defined_fragments_no_duplicates(defs, defs.len() as int);
    lemma_unused_filter_shape(defs, defined_fragments(defs), defined_fragments(defs).len() as int);
    assert(defined_fragments(defs).take(defined_fragments(defs).len() as int) =~= defined_fragments(
        defs,
    ));
}

proof fn lemma_unused_filter_shape(
    defs: Seq<ExecutableDefinition>,
    frags: Seq<(Seq<char>, Pos)>,
    k: int,
)
    requires
        0 <= k <= frags.len(),
    ensures
        unused_errors_upto(defs, frags, k) == frags.take(k).filter(
            |f: (Seq<char>, Pos)| !spec_reachable(defs, f.0),
        ).map_values(
            |f: (Seq<char>, Pos)| SpecError {
                locations: seq![f.1],
                message: msg_unused_fragment(f.0),
            },
        ),
    decreases k,
{
    let keep = |f: (Seq<char>, Pos)| !spec_reachable(defs, f.0);
    let to_error = |f: (Seq<char>, Pos)| SpecError {
        locations: seq![f.1],
        message: msg_unused_fragment(f.0),
    };
    if k > 0 {
        lemma_unused_filter_shape(defs, frags, k - 1);
        assert(frags.take(k) =~= frags.take(k - 1).push(frags[k - 1]));
        assert(frags.take(k - 1).push(frags[k - 1]).filter(keep) == if keep(frags[k - 1]) {
            frags.take(k - 1).filter(keep).push(frags[k - 1])
        } else {
            frags.take(k - 1).filter(keep)
        }) by {
            reveal_with_fuel(Seq::filter, 2);
            assert(frags.take(k - 1).push(frags[k - 1]).drop_last() =~= frags.take(k - 1));
        }
        if keep(frags[k - 1]) {
            frags.take(k - 1).filter(keep).lemma_push_map_commute(to_error, frags[k - 1]);
            assert(unused_errors_upto(defs, frags, k) =~= frags.take(k).filter(keep).map_values(
                to_error,
            ));
        } else {
            assert(unused_errors_upto(defs, frags, k) =~= frags.take(k).filter(keep).map_values(
                to_error,
            ));
        }
    } else {
        assert(frags.take(0) =~= Seq::<(Seq<char>, Pos)>::empty());
        assert(unused_errors_upto(defs, frags, k) =~= frags.take(k).filter(keep).map_values(
            to_error,
        ));
    }
}

impl ExecutableVisitor for NoUnusedFragments {
    fn exit_executable_document(&mut self, ctx: &mut VisitorContext, doc: &ExecutableDocument)
        ensures
            *final(self) == *old(self),
            errs_view(final(ctx).errors@) == errs_view(old(ctx).errors@) + map_unused_errors(
                old(self).spreads_view(),
                doc.definitions@,
                old(self).defined_view(),
            ),
    {
        let ghost m = self.spreads_view();
        let ghost defs = doc.definitions@;
        let ghost frags = self.defined_view();
        let reachable = self.find_reachable_fragments(doc);
        let n = self.defined_fragments.len();
        let mut k: usize = 0;
        while k < n
            invariant
                0 <= k <= n,
                n == self.defined_fragments@.len(),
                *self == *old(self),
                m == self.spreads_view(),
                frags == self.defined_view(),
                defs == doc.definitions@,
                forall|x: Seq<char>|
                    #[trigger] string_views(reachable@).contains(x) <==> map_reachable(m, defs, x),
                only_appends(old(ctx).errors@, ctx.errors@),
                errs_view(ctx.errors@) == errs_view(old(ctx).errors@) + map_unused_upto(
                    m,
                    defs,
                    frags,
                    k as int,
                ),
            decreases n - k,
        {
            let name_known = contains_string(&reachable, &self.defined_fragments[k].0);
            proof {
                assert(frags[k as int].0 == self.defined_fragments@[k as int].0@);
            }
            if !name_known {
                ctx.report_error(
                    one_location(self.defined_fragments[k].1),
                    unused_fragment_message(&self.defined_fragments[k].0),
                );
            }
            proof {
                assert(errs_view(ctx.errors@) =~= errs_view(old(ctx).errors@) + map_unused_upto(
                    m,
                    defs,
                    frags,
                    k + 1,
                ));
            }
            k = k + 1;
        }
    }

    fn enter_operation_definition(
        &mut self,
        ctx: &mut VisitorContext,
        operation_definition: &Positioned<OperationDefinition>,
    )
        ensures
            final(ctx).errors@ == old(ctx).errors@,
            final(self).spreads_view() == old(self).spreads_view(),
            final(self).defined_view() == old(self).defined_view(),
            final(self).scope_view() == Some(
                scope_of(ExecutableDefinition::Operation(*operation_definition)),
            ),
    {
        self.current_scope = Some(
            Scope::Operation(
                match &operation_definition.node.name {
                    Some(name) => Some(name.node.clone()),
                    None => None,
                },
            ),
        );
    }

    fn enter_fragment_definition(
        &mut self,
        ctx: &mut VisitorContext,
        fragment_definition: &Positioned<FragmentDefinition>,
    )
        ensures
            final(ctx).errors@ == old(ctx).errors@,
            final(self).spreads_view() == old(self).spreads_view(),
            final(self).scope_view() == Some(
                scope_of(ExecutableDefinition::Fragment(*fragment_definition)),
            ),
            final(self).defined_view() == if old(self).defined_view().contains(
                (fragment_definition.node.name.node@, fragment_definition.pos),
            ) {
                old(self).defined_view()
            } else {
                old(self).defined_view().push(
                    (fragment_definition.node.name.node@, fragment_definition.pos),
                )
            },
    {
        self.current_scope = Some(Scope::Fragment(fragment_definition.node.name.node.clone()));
        let ghost prior = self.defined_view();
        if !self.has_defined(&fragment_definition.node.name.node, fragment_definition.position()) {
            self.defined_fragments.push(
                (fragment_definition.node.name.node.clone(), fragment_definition.position()),
            );
            proof {
                assert(self.defined_view() =~= prior.push(
                    (fragment_definition.node.name.node@, fragment_definition.pos),
                ));
            }
        }
    }

    fn enter_fragment_spread(
        &mut self,
        ctx: &mut VisitorContext,
        fragment_spread: &Positioned<FragmentSpread>,
    )
        ensures
            final(ctx).errors@ == old(ctx).errors@,
            final(self).defined_view() == old(self).defined_view(),
            final(self).scope_view() == old(self).scope_view(),
            old(self).scope_view() is None ==> final(self).spreads_view() == old(
                self,
            ).spreads_view(),
            old(self).scope_view() is Some ==> forall|s: SpecScope|
                #[trigger] targets_of(final(self).spreads_view(), s) == if s == old(
                    self,
                ).scope_view()->Some_0 {
                    targets_of(old(self).spreads_view(), s).push(
                        fragment_spread.node.fragment_name.node@,
                    )
                } else {
                    targets_of(old(self).spreads_view(), s)
                },
    {
        let name = fragment_spread.node.fragment_name.node.clone();
        match self.current_scope.take() {
            Some(scope) => {
                let ghost sc = scope@;
                let ghost m0 = self.spreads_view();
                self.push_target(&scope, &name);
                let ghost m1 = self.spreads_view();
                self.current_scope = Some(scope);
                proof {
                    assert(self.spreads_view() == m1);
                    assert(old(self).scope_view() == Some(sc));
                    assert forall|s: SpecScope|
                        #[trigger] targets_of(self.spreads_view(), s) == if s == sc {
                            targets_of(m0, s).push(fragment_spread.node.fragment_name.node@)
                        } else {
                            targets_of(m0, s)
                        } by {
                        assert(targets_of(m1, s) == if s == sc {
                            targets_of(m0, s).push(name@)
                        } else {
                            targets_of(m0, s)
                        });
                    }
                }
            },
            None => {
                self.current_scope = None;
            },
        }
    }
}

} // verus!
