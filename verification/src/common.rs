//! Type references, directives and literal values, shared by both document
//! flavors.
//!
//! A type reference is rendered as `Name` for a named type, `[T]` for a list
//! and `T!` for a non-null type; this canonical textual form is what appears
//! in diagnostics and regenerated schema text, and `parse_type` reads it
//! back.

use vstd::prelude::*;

use crate::pos::Positioned;

verus! {

/// A type reference: a named type, a list, or a non-null wrapper.
#[derive(Debug, PartialEq, Eq)]
pub enum Type {
    Named(String),
    List(Box<Type>),
    NonNull(Box<Type>),
}

/// The mathematical shape of a type reference, with names as character
/// sequences.
pub ghost enum SpecType {
    Named(Seq<char>),
    List(Box<SpecType>),
    NonNull(Box<SpecType>),
}

pub open spec fn type_view(t: Type) -> SpecType
    decreases t,
{
    match t {
        Type::Named(name) => SpecType::Named(name@),
        Type::List(inner) => SpecType::List(Box::new(type_view(*inner))),
        Type::NonNull(inner) => SpecType::NonNull(Box::new(type_view(*inner))),
    }
}

impl View for Type {
    type V = SpecType;

    open spec fn view(&self) -> SpecType {
        type_view(*self)
    }
}

/// Characters permitted in a name: letters, digits and `_`.
pub open spec fn is_name_char(c: char) -> bool {
    c == '_' || ('a' <= c && c <= 'z') || ('A' <= c && c <= 'Z') || ('0' <= c && c <= '9')
}

/// A usable name: non-empty and made of name characters only.
pub open spec fn valid_name(name: Seq<char>) -> bool {
    name.len() > 0 && (forall|i: int| 0 <= i < name.len() ==> is_name_char(#[trigger] name[i]))
}

/// A well-formed type reference: names are usable and non-null never wraps
/// non-null, as in the source grammar.
pub open spec fn wf_spec_type(t: SpecType) -> bool
    decreases t,
{
    match t {
        SpecType::Named(name) => valid_name(name),
        SpecType::List(inner) => wf_spec_type(*inner),
        SpecType::NonNull(inner) => wf_spec_type(*inner) && !(*inner is NonNull),
    }
}

/// The canonical textual form: `Name`, `[T]`, `T!`.
pub open spec fn spec_type_text(t: SpecType) -> Seq<char>
    decreases t,
{
    match t {
        SpecType::Named(name) => name,
        SpecType::List(inner) => seq!['['] + spec_type_text(*inner) + seq![']'],
        SpecType::NonNull(inner) => spec_type_text(*inner) + seq!['!'],
    }
}

impl Type {
    /// Renders this type reference in its canonical textual form.
    pub fn to_text(&self) -> (r: String)
        ensures
            r@ == spec_type_text(self@),
        decreases *self,
    {
        proof {
            reveal_strlit("[");
            reveal_strlit("]");
            reveal_strlit("!");
        }
        match self {
            Type::Named(name) => name.clone(),
            Type::List(inner) => {
                let mut s = String::from_str("[");
                s.append(inner.to_text().as_str());
                s.append("]");
                proof {
                    assert(s@ =~= spec_type_text(self@));
                }
                s
            },
            Type::NonNull(inner) => {
                let mut s = inner.to_text();
                s.append("!");
                proof {
                    assert(s@ =~= spec_type_text(self@));
                }
                s
            },
        }
    }
}

/// How many leading characters of `s` are name characters.
pub open spec fn name_prefix_len(s: Seq<char>) -> nat
    decreases s.len(),
{
    if s.len() > 0 && is_name_char(s[0]) {
        1 + name_prefix_len(s.drop_first())
    } else {
        0
    }
}

/// Parses a base type (a name or a bracketed list) from the front of `s`,
/// returning it with the unconsumed remainder.
pub open spec fn spec_parse_base(s: Seq<char>) -> Option<(SpecType, Seq<char>)>
    decreases s.len(), 0int,
{
    if s.len() > 0 && s[0] == '[' {
        match spec_parse_ty(s.drop_first()) {
            Some((inner, rest)) => {
                if rest.len() > 0 && rest[0] == ']' {
                    Some((SpecType::List(Box::new(inner)), rest.drop_first()))
                } else {
                    None
                }
            },
            None => None,
        }
    } else {
        let n = name_prefix_len(s);
        if n > 0 {
            Some((SpecType::Named(s.subrange(0, n as int)), s.skip(n as int)))
        } else {
            None
        }
    }
}

/// Parses a type (a base type with an optional `!` suffix) from the front of
/// `s`, returning it with the unconsumed remainder.
pub open spec fn spec_parse_ty(s: Seq<char>) -> Option<(SpecType, Seq<char>)>
    decreases s.len(), 1int,
{
    match spec_parse_base(s) {
        Some((base, rest)) => {
            if rest.len() > 0 && rest[0] == '!' {
                Some((SpecType::NonNull(Box::new(base)), rest.drop_first()))
            } else {
                Some((base, rest))
            }
        },
        None => None,
    }
}

/// Parses a complete type reference: a type with nothing left over.
pub open spec fn spec_parse_type(s: Seq<char>) -> Option<SpecType> {
    match spec_parse_ty(s) {
        Some((t, rest)) => {
            if rest.len() == 0 {
                Some(t)
            } else {
                None
            }
        },
        None => None,
    }
}

proof fn lemma_name_prefix_len_concat(name: Seq<char>, rest: Seq<char>)
    requires
        valid_name(name),
        rest.len() == 0 || !is_name_char(rest[0]),
    ensures
        name_prefix_len(name + rest) == name.len(),
    decreases name.len(),
{
    let s = name + rest;
    assert(s[0] == name[0]);
    assert(is_name_char(s[0]));
    if name.len() == 1 {
        assert(s.drop_first() =~= rest);
        assert(name_prefix_len(s) == 1 + name_prefix_len(s.drop_first()));
    } else {
        assert(s.drop_first() =~= name.drop_first() + rest);
        assert(valid_name(name.drop_first())) by {
            assert(forall|i: int|
                0 <= i < name.drop_first().len() ==> #[trigger] name.drop_first()[i] == name[i + 1]);
        }
        lemma_name_prefix_len_concat(name.drop_first(), rest);
    }
}

proof fn lemma_parse_base_text(t: SpecType, rest: Seq<char>)
    requires
        wf_spec_type(t),
        !(t is NonNull),
        rest.len() == 0 || !is_name_char(rest[0]),
    ensures
        spec_parse_base(spec_type_text(t) + rest) == Some::<(SpecType, Seq<char>)>((t, rest)),
    decreases t, 0int,
{
    let s = spec_type_text(t) + rest;
    match t {
        SpecType::Named(name) => {
            assert(s[0] == name[0]);
            assert(is_name_char(name[0]));
            assert(s[0] != '[');
            lemma_name_prefix_len_concat(name, rest);
            let n = name_prefix_len(s);
            assert(n == name.len());
            assert(s.subrange(0, n as int) =~= name);
            assert(s.skip(n as int) =~= rest);
        },
        SpecType::List(inner) => {
            assert(s[0] == '[');
            assert(s.drop_first() =~= spec_type_text(*inner) + (seq![']'] + rest));
            assert(!is_name_char(']'));
            lemma_parse_ty_text(*inner, seq![']'] + rest);
            let mid = seq![']'] + rest;
            assert(mid[0] == ']');
            assert(mid.drop_first() =~= rest);
        },
        SpecType::NonNull(..) => {},
    }
}

proof fn lemma_parse_ty_text(t: SpecType, rest: Seq<char>)
    requires
        wf_spec_type(t),
        rest.len() == 0 || (!is_name_char(rest[0]) && rest[0] != '!'),
    ensures
        spec_parse_ty(spec_type_text(t) + rest) == Some::<(SpecType, Seq<char>)>((t, rest)),
    decreases t, 1int,
{
    let s = spec_type_text(t) + rest;
    match t {
        SpecType::NonNull(inner) => {
            assert(s =~= spec_type_text(*inner) + (seq!['!'] + rest));
            assert(!is_name_char('!'));
            lemma_parse_base_text(*inner, seq!['!'] + rest);
            let mid = seq!['!'] + rest;
            assert(mid[0] == '!');
            assert(mid.drop_first() =~= rest);
        },
        _ => {
            lemma_parse_base_text(t, rest);
            if rest.len() > 0 {
                assert(rest[0] != '!');
            }
        },
    }
}

proof fn lemma_name_prefix_len_exact(u: Seq<char>, n: nat)
    requires
        n <= u.len(),
        forall|k: int| 0 <= k < n ==> is_name_char(#[trigger] u[k]),
        n == u.len() || !is_name_char(u[n as int]),
    ensures
        name_prefix_len(u) == n,
    decreases n,
{
    if n == 0 {
    } else {
        assert(is_name_char(u[0]));
        assert(forall|k: int|
            0 <= k < n - 1 ==> #[trigger] u.drop_first()[k] == u[k + 1]);
        lemma_name_prefix_len_exact(u.drop_first(), (n - 1) as nat);
    }
}

fn name_char_at(s: &str, j: usize) -> (r: bool)
    requires
        j < s@.len(),
    ensures
        r == is_name_char(s@[j as int]),
{
    let c = s.get_char(j);
    c == '_' || ('a' <= c && c <= 'z') || ('A' <= c && c <= 'Z') || ('0' <= c && c <= '9')
}

fn parse_base_at(s: &str, i: usize) -> (r: Option<(Type, usize)>)
    requires
        i <= s@.len(),
        s@.len() <= usize::MAX,
    ensures
        match r {
            Some(p) => i < p.1 <= s@.len() && spec_parse_base(s@.skip(i as int)) == Some(
                (p.0@, s@.skip(p.1 as int)),
            ),
            None => spec_parse_base(s@.skip(i as int)) is None,
        },
    decreases s@.len() - i, 0int,
{
    let ghost u = s@.skip(i as int);
    let len = s.unicode_len();
    if i < len && s.get_char(i) == '[' {
        assert(u[0] == '[');
        assert(u.drop_first() =~= s@.skip(i + 1));
        match parse_ty_at(s, i + 1) {
            Some((inner, j)) => {
                if j < len && s.get_char(j) == ']' {
                    proof {
                        assert(s@.skip(j as int)[0] == ']');
                        assert(s@.skip(j as int).drop_first() =~= s@.skip(j + 1));
                    }
                    Some((Type::List(Box::new(inner)), j + 1))
                } else {
                    proof {
                        if j < len {
                            assert(s@.skip(j as int)[0] == s@[j as int]);
                        } else {
                            assert(s@.skip(j as int).len() == 0);
                        }
                    }
                    None
                }
            },
            None => None,
        }
    } else {
        proof {
            if i < len {
                assert(u[0] == s@[i as int]);
            }
        }
        let mut j = i;
        while j < len && name_char_at(s, j)
            invariant
                i <= j <= len,
                len == s@.len(),
                forall|k: int| i <= k < j ==> is_name_char(#[trigger] s@[k]),
            decreases len - j,
        {
            j = j + 1;
        }
        proof {
            assert(forall|k: int| 0 <= k < j - i ==> u[k] == s@[#[trigger] (k + i)]);
            lemma_name_prefix_len_exact(u, (j - i) as nat);
        }
        if j > i {
            let name = s.substring_char(i, j).to_owned();
            proof {
                assert(u.subrange(0, (j - i) as int) =~= s@.subrange(i as int, j as int));
                assert(u.skip((j - i) as int) =~= s@.skip(j as int));
            }
            Some((Type::Named(name), j))
        } else {
            None
        }
    }
}

fn parse_ty_at(s: &str, i: usize) -> (r: Option<(Type, usize)>)
    requires
        i <= s@.len(),
        s@.len() <= usize::MAX,
    ensures
        match r {
            Some(p) => i < p.1 <= s@.len() && spec_parse_ty(s@.skip(i as int)) == Some(
                (p.0@, s@.skip(p.1 as int)),
            ),
            None => spec_parse_ty(s@.skip(i as int)) is None,
        },
    decreases s@.len() - i, 1int,
{
    let len = s.unicode_len();
    match parse_base_at(s, i) {
        Some((base, j)) => {
            if j < len && s.get_char(j) == '!' {
                proof {
                    assert(s@.skip(j as int)[0] == '!');
                    assert(s@.skip(j as int).drop_first() =~= s@.skip(j + 1));
                }
                Some((Type::NonNull(Box::new(base)), j + 1))
            } else {
                proof {
                    if j < len {
                        assert(s@.skip(j as int)[0] == s@[j as int]);
                    } else {
                        assert(s@.skip(j as int).len() == 0);
                    }
                }
                Some((base, j))
            }
        },
        None => None,
    }
}

/// Reads a type reference written in the canonical textual form; `None` when
/// the text is not exactly one type reference.
pub fn parse_type(source: &str) -> (r: Option<Type>)
    ensures
        match r {
            Some(t) => spec_parse_type(source@) == Some(t@),
            None => spec_parse_type(source@) is None,
        },
{
    let len = source.unicode_len();
    proof {
        assert(source@.skip(0) =~= source@);
    }
    match parse_ty_at(source, 0) {
        Some((t, j)) => {
            if j == len {
                Some(t)
            } else {
                None
            }
        },
        None => None,
    }
}

/// Round trip: re-parsing the canonical textual form of a well-formed type
/// reference yields the same type reference.
pub proof fn lemma_type_text_round_trip(t: SpecType)
    requires
        wf_spec_type(t),
    ensures
        spec_parse_type(spec_type_text(t)) == Some(t),
{
    lemma_parse_ty_text(t, Seq::empty());
    assert(spec_type_text(t) + Seq::<char>::empty() =~= spec_type_text(t));
}

/// A literal value in a document: an argument value or an input default.
///
/// Numbers with a fractional part are kept as their source text; validation
/// never computes with them.
#[derive(Debug, PartialEq, Eq)]
pub enum Value {
    Null,
    Variable(String),
    Int(i64),
    FloatText(String),
    Str(String),
    Boolean(bool),
    Enum(String),
    List(Vec<Value>),
    Object(Vec<(String, Value)>),
}

/// A directive applied to a definition or a field: a name with named
/// arguments.
#[derive(Debug, PartialEq)]
pub struct Directive {
    pub name: Positioned<String>,
    pub arguments: Vec<(Positioned<String>, Positioned<Value>)>,
}

/// The position of the first argument of `args`, from `i` on, whose name
/// reads `name`.
pub open spec fn spec_first_argument_from(
    args: Seq<(Positioned<String>, Positioned<Value>)>,
    name: Seq<char>,
    i: int,
) -> Option<int>
    decreases args.len() - i,
{
    if i < 0 || i >= args.len() {
        None
    } else if args[i].0.node@ == name {
        Some(i)
    } else {
        spec_first_argument_from(args, name, i + 1)
    }
}

/// The position of the first argument of `args` whose name reads `name`.
pub open spec fn spec_argument_index(
    args: Seq<(Positioned<String>, Positioned<Value>)>,
    name: Seq<char>,
) -> Option<int> {
    spec_first_argument_from(args, name, 0)
}

impl Directive {
    /// The value of the first argument with the given name, if any.
    pub fn get_argument(&self, name: &str) -> (r: Option<&Positioned<Value>>)
        ensures
            match r {
                Some(v) => {
                    &&& spec_argument_index(self.arguments@, name@) is Some
                    &&& *v == self.arguments@[spec_argument_index(
                        self.arguments@,
                        name@,
                    )->Some_0].1
                },
                None => spec_argument_index(self.arguments@, name@) is None,
            },
    {
        let wanted = name.to_owned();
        let n = self.arguments.len();
        let mut i: usize = 0;
        while i < n
            invariant
                0 <= i <= n,
                n == self.arguments@.len(),
                wanted@ == name@,
                spec_first_argument_from(self.arguments@, name@, 0)
                    == spec_first_argument_from(self.arguments@, name@, i as int),
            decreases n - i,
        {
            if crate::text::string_eq(&self.arguments[i].0.node, &wanted) {
                return Some(&self.arguments[i].1);
            }
            i = i + 1;
        }
        None
    }
}

} // verus!
