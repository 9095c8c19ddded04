//! Small verified text utilities: decimal rendering of numbers and the
//! reserved-name prefix test shared by the validation rules.

use vstd::prelude::*;

verus! {

/// The decimal digit character for a value below ten.
pub open spec fn dec_digit(d: nat) -> char {
    if d == 0 {
        '0'
    } else if d == 1 {
        '1'
    } else if d == 2 {
        '2'
    } else if d == 3 {
        '3'
    } else if d == 4 {
        '4'
    } else if d == 5 {
        '5'
    } else if d == 6 {
        '6'
    } else if d == 7 {
        '7'
    } else if d == 8 {
        '8'
    } else {
        '9'
    }
}

/// The usual decimal rendering of a natural number, most significant digit
/// first and without leading zeros (except for zero itself).
pub open spec fn dec_str(n: nat) -> Seq<char>
    decreases n,
{
    if n < 10 {
        seq![dec_digit(n)]
    } else {
        dec_str(n / 10).push(dec_digit(n % 10))
    }
}

fn digit_str(d: usize) -> (r: &'static str)
    requires
        d < 10,
    ensures
        r@ == seq![dec_digit(d as nat)],
{
    proof {
        reveal_strlit("0");
        reveal_strlit("1");
        reveal_strlit("2");
        reveal_strlit("3");
        reveal_strlit("4");
        reveal_strlit("5");
        reveal_strlit("6");
        reveal_strlit("7");
        reveal_strlit("8");
        reveal_strlit("9");
    }
    let r = match d {
        0 => "0",
        1 => "1",
        2 => "2",
        3 => "3",
        4 => "4",
        5 => "5",
        6 => "6",
        7 => "7",
        8 => "8",
        _ => "9",
    };
    proof {
        assert(r@ =~= seq![dec_digit(d as nat)]);
    }
    r
}

/// Renders a number in decimal, as it appears in diagnostic locations.
pub fn usize_to_string(n: usize) -> (r: String)
    ensures
        r@ == dec_str(n as nat),
    decreases n,
{
    if n < 10 {
        String::from_str(digit_str(n))
    } else {
        let mut s = usize_to_string(n / 10);
        s.append(digit_str(n % 10));
        s
    }
}

/// Whether a name begins with the two-character prefix `__` that is reserved
/// for introspection.
pub open spec fn spec_has_reserved_prefix(name: Seq<char>) -> bool {
    name.len() >= 2 && name[0] == '_' && name[1] == '_'
}

/// The reserved-name test used by the naming rules.
pub fn has_reserved_prefix(name: &String) -> (r: bool)
    ensures
        r == spec_has_reserved_prefix(name@),
{
    let s = name.as_str();
    if s.unicode_len() < 2 {
        return false;
    }
    s.get_char(0) == '_' && s.get_char(1) == '_'
}

/// Whether two string sequences are equal; equality on `String` values used
/// by the rules when looking names up.
pub fn string_eq(a: &String, b: &String) -> (r: bool)
    ensures
        r == (a@ == b@),
{
    (*a).eq(b)
}

/// Whether a name reads the same as a keyword.
pub fn kw_eq(name: &String, kw: &str) -> (r: bool)
    ensures
        r == (name@ == kw@),
{
    string_eq(name, &kw.to_owned())
}

/// The views of a sequence of strings.
pub open spec fn string_views(v: Seq<String>) -> Seq<Seq<char>> {
    v.map_values(|s: String| s@)
}

/// Whether a list of strings holds one that reads `name`.
pub fn contains_string(v: &Vec<String>, name: &String) -> (r: bool)
    ensures
        r == string_views(v@).contains(name@),
{
    let n = v.len();
    let mut i: usize = 0;
    while i < n
        invariant
            0 <= i <= n,
            n == v@.len(),
            forall|k: int| 0 <= k < i ==> #[trigger] v@[k]@ != name@,
        decreases n - i,
    {
        if string_eq(&v[i], name) {
            assert(v@.map_values(|s: String| s@)[i as int] == name@);
            return true;
        }
        i = i + 1;
    }
    proof {
        let views = v@.map_values(|s: String| s@);
        if views.contains(name@) {
            let k = choose|k: int| 0 <= k < views.len() && views[k] == name@;
            assert(v@[k]@ == name@);
        }
    }
    false
}

} // verus!
