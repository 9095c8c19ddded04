//! A recursive-descent reader for schema-definition documents and
//! executable documents.
//!
//! Parsing is a collaborator of the validation core: it turns source text
//! into the positioned tree, and a malformed text fails here, with a
//! syntax-error kind distinct from validation diagnostics, before any rule
//! runs.

use vstd::prelude::*;

use crate::common::{Directive, Type, Value};
use crate::executable_ast::{
    ExecutableDefinition, ExecutableDocument, FragmentDefinition, FragmentSpread, InlineFragment,
    OperationDefinition, OperationType, Selection, SelectionSet,
};
use crate::executable_ast::Field as SelectionField;
use crate::pos::{Pos, Positioned};
use crate::schema_ast::{
    Definition, DirectiveDefinition, DirectiveLocation, Document, EnumType, EnumValue, Field,
    InputObjectType, InputValue, InterfaceType, ObjectType, ScalarType, SchemaDefinition,
    TypeDefinition, UnionType,
};
use crate::text::kw_eq;

verus! {

/// A syntax error: where it was found and what was expected.
#[derive(Debug, PartialEq)]
pub struct ParseError {
    pub pos: Pos,
    pub message: String,
}

fn parse_error(pos: Pos, message: &str) -> (r: ParseError)
    ensures
        r.pos == pos,
        r.message@ == message@,
{
    ParseError { pos, message: message.to_owned() }
}

enum TokKind {
    Name(String),
    IntVal(i64),
    FloatVal(String),
    StrVal(String),
    Punct(char),
    Spread,
}

struct Tok {
    kind: TokKind,
    pos: Pos,
}

/// Which kind of type definition a keyword introduces.
#[derive(Clone, Copy, PartialEq, Eq, Structural)]
enum TypeKeyword {
    Scalar,
    Object,
    Interface,
    Union,
    Enum,
    InputObject,
}

fn is_name_start(c: char) -> (r: bool) {
    c == '_' || ('a' <= c && c <= 'z') || ('A' <= c && c <= 'Z')
}

fn is_digit(c: char) -> (r: bool) {
    '0' <= c && c <= '9'
}

fn is_name_part(c: char) -> (r: bool) {
    is_name_start(c) || is_digit(c)
}

/// The numeric value of a run of decimal digits, rejecting values beyond
/// the integer range.
fn digits_to_int(s: &str, start: usize, end: usize, negative: bool, pos: Pos) -> (r: Result<
    i64,
    ParseError,
>)
    requires
        start <= end <= s@.len(),
        s@.len() <= usize::MAX,
    decreases end - start,
{
    let mut value: i64 = 0;
    let mut k = start;
    while k < end
        invariant
            start <= k <= end,
            end <= s@.len(),
            0 <= value,
        decreases end - k,
    {
        let c = s.get_char(k);
        if !('0' <= c && c <= '9') {
            return Err(parse_error(pos, "malformed number"));
        }
        let d = (c as u32 - '0' as u32) as i64;
        if value > (i64::MAX - d) / 10 {
            return Err(parse_error(pos, "number out of range"));
        }
        value = value * 10 + d;
        k = k + 1;
    }
    if negative {
        Ok(0 - value)
    } else {
        Ok(value)
    }
}

/// Splits source text into tokens, tracking line and column positions.
fn lex(source: &str) -> (r: Result<Vec<Tok>, ParseError>) {
    let len = source.unicode_len();
    let mut toks: Vec<Tok> = Vec::new();
    let mut i: usize = 0;
    let mut line: usize = 1;
    let mut column: usize = 1;
    while i < len
        invariant
            0 <= i <= len,
            len == source@.len(),
        decreases len - i,
    {
        let c = source.get_char(i);
        if c == '\n' {
            i = i + 1;
            line = saturating_add(line, 1);
            column = 1;
        } else if c == ' ' || c == '\t' || c == '\r' || c == ',' {
            i = i + 1;
            column = saturating_add(column, 1);
        } else if c == '#' {
            let mut j = i + 1;
            while j < len && source.get_char(j) != '\n'
                invariant
                    i < j <= len,
                    len == source@.len(),
                decreases len - j,
            {
                j = j + 1;
            }
            i = j;
        } else {
            let pos = Pos { line, column };
            if is_name_start(c) {
                let mut j = i + 1;
                while j < len && is_name_part(source.get_char(j))
                    invariant
                        i < j <= len,
                        len == source@.len(),
                    decreases len - j,
                {
                    j = j + 1;
                }
                let name = source.substring_char(i, j).to_owned();
                toks.push(Tok { kind: TokKind::Name(name), pos });
                column = saturating_add(column, j - i);
                i = j;
            } else if is_digit(c) || c == '-' {
                let negative = c == '-';
                let digits_start = if negative {
                    i + 1
                } else {
                    i
                };
                let mut j = digits_start;
                while j < len && is_digit(source.get_char(j))
                    invariant
                        digits_start <= j <= len,
                        len == source@.len(),
                    decreases len - j,
                {
                    j = j + 1;
                }
                if j == digits_start {
                    return Err(parse_error(pos, "expected digits after minus sign"));
                }
                if j < len && source.get_char(j) == '.' {
                    let mut k = j + 1;
                    while k < len && is_digit(source.get_char(k))
                        invariant
                            j < k <= len,
                            len == source@.len(),
                        decreases len - k,
                    {
                        k = k + 1;
                    }
                    if k == j + 1 {
                        return Err(parse_error(pos, "expected digits after decimal point"));
                    }
                    let text = source.substring_char(i, k).to_owned();
                    toks.push(Tok { kind: TokKind::FloatVal(text), pos });
                    column = saturating_add(column, k - i);
                    i = k;
                } else {
                    match digits_to_int(source, digits_start, j, negative, pos) {
                        Ok(value) => {
                            toks.push(Tok { kind: TokKind::IntVal(value), pos });
                        },
                        Err(e) => {
                            return Err(e);
                        },
                    }
                    column = saturating_add(column, j - i);
                    i = j;
                }
            } else if c == '"' {
                let mut j = i + 1;
                while j < len && source.get_char(j) != '"' && source.get_char(j) != '\n'
                    && source.get_char(j) != '\\'
                    invariant
                        i < j <= len,
                        len == source@.len(),
                    decreases len - j,
                {
                    j = j + 1;
                }
                if j >= len || source.get_char(j) != '"' {
                    return Err(parse_error(pos, "unterminated string"));
                }
                let text = source.substring_char(i + 1, j).to_owned();
                toks.push(Tok { kind: TokKind::StrVal(text), pos });
                column = saturating_add(column, j + 1 - i);
                i = j + 1;
            } else if c == '.' {
                if len - i > 2 && source.get_char(i + 1) == '.' && source.get_char(i + 2) == '.' {
                    toks.push(Tok { kind: TokKind::Spread, pos });
                    column = saturating_add(column, 3);
                    i = i + 3;
                } else {
                    return Err(parse_error(pos, "expected three dots"));
                }
            } else if c == '!' || c == '$' || c == '(' || c == ')' || c == ':' || c == '='
                || c == '@' || c == '[' || c == ']' || c == '{' || c == '}' || c == '|'
                || c == '&' {
                toks.push(Tok { kind: TokKind::Punct(c), pos });
                column = saturating_add(column, 1);
                i = i + 1;
            } else {
                return Err(parse_error(pos, "unexpected character"));
            }
        }
    }
    Ok(toks)
}

fn saturating_add(a: usize, b: usize) -> (r: usize)
    ensures
        r <= a + b,
{
    if a <= usize::MAX - b {
        a + b
    } else {
        usize::MAX
    }
}

fn end_pos(toks: &Vec<Tok>) -> (r: Pos) {
    if toks.len() > 0 {
        toks[toks.len() - 1].pos
    } else {
        Pos { line: 1, column: 1 }
    }
}

fn peek_punct(toks: &Vec<Tok>, i: usize, c: char) -> (r: bool)
    ensures
        r ==> i < toks@.len() && i < usize::MAX,
{
    if i < toks.len() {
        match &toks[i].kind {
            TokKind::Punct(p) => *p == c,
            _ => false,
        }
    } else {
        false
    }
}

fn peek_keyword(toks: &Vec<Tok>, i: usize, kw: &str) -> (r: bool)
    ensures
        r ==> i < toks@.len() && i < usize::MAX,
{
    if i < toks.len() {
        match &toks[i].kind {
            TokKind::Name(name) => kw_eq(name, kw),
            _ => false,
        }
    } else {
        false
    }
}

fn expect_punct(toks: &Vec<Tok>, i: usize, c: char, what: &str) -> (r: Result<usize, ParseError>)
    requires
        i <= toks@.len(),
    ensures
        r is Ok ==> i < r->Ok_0 <= toks@.len(),
{
    if i < toks.len() {
        match &toks[i].kind {
            TokKind::Punct(p) => {
                if *p == c {
                    return Ok(i + 1);
                }
            },
            _ => {},
        }
    }
    Err(parse_error(end_or_tok_pos(toks, i), what))
}

fn end_or_tok_pos(toks: &Vec<Tok>, i: usize) -> (r: Pos) {
    if i < toks.len() {
        toks[i].pos
    } else {
        end_pos(toks)
    }
}

fn parse_name(toks: &Vec<Tok>, i: usize, what: &str) -> (r: Result<
    (Positioned<String>, usize),
    ParseError,
>)
    requires
        i <= toks@.len(),
    ensures
        r is Ok ==> i < r->Ok_0.1 <= toks@.len(),
{
    if i < toks.len() {
        match &toks[i].kind {
            TokKind::Name(name) => Ok((Positioned::new(toks[i].pos, name.clone()), i + 1)),
            _ => Err(parse_error(toks[i].pos, what)),
        }
    } else {
        Err(parse_error(end_pos(toks), what))
    }
}

fn parse_value(toks: &Vec<Tok>, i: usize) -> (r: Result<(Positioned<Value>, usize), ParseError>)
    requires
        i <= toks@.len(),
    ensures
        r is Ok ==> i < r->Ok_0.1 <= toks@.len(),
    decreases toks@.len() - i,
{
    if i >= toks.len() {
        return Err(parse_error(end_pos(toks), "expected a value"));
    }
    let pos = toks[i].pos;
    match &toks[i].kind {
        TokKind::IntVal(value) => Ok((Positioned::new(pos, Value::Int(*value)), i + 1)),
        TokKind::FloatVal(text) => Ok(
            (Positioned::new(pos, Value::FloatText(text.clone())), i + 1),
        ),
        TokKind::StrVal(text) => Ok((Positioned::new(pos, Value::Str(text.clone())), i + 1)),
        TokKind::Name(name) => {
            if kw_eq(name, "true") {
                Ok((Positioned::new(pos, Value::Boolean(true)), i + 1))
            } else if kw_eq(name, "false") {
                Ok((Positioned::new(pos, Value::Boolean(false)), i + 1))
            } else if kw_eq(name, "null") {
                Ok((Positioned::new(pos, Value::Null), i + 1))
            } else {
                Ok((Positioned::new(pos, Value::Enum(name.clone())), i + 1))
            }
        },
        TokKind::Punct(p) => {
            if *p == '$' {
                let (name, j) = match parse_name(toks, i + 1, "expected a variable name") {
                    Ok(v) => v,
                    Err(e) => {
                        return Err(e);
                    },
                };
                Ok((Positioned::new(pos, Value::Variable(name.node)), j))
            } else if *p == '[' {
                let mut items: Vec<Value> = Vec::new();
                let mut j = i + 1;
                loop
                    invariant
                        i < j <= toks@.len(),
                    decreases toks@.len() - j,
                {
                    if peek_punct(toks, j, ']') {
                        return Ok((Positioned::new(pos, Value::List(items)), j + 1));
                    }
                    if j >= toks.len() {
                        return Err(parse_error(end_pos(toks), "expected a closing bracket"));
                    }
                    match parse_value(toks, j) {
                        Ok((item, j2)) => {
                            items.push(item.node);
                            j = j2;
                        },
                        Err(e) => {
                            return Err(e);
                        },
                    }
                }
            } else if *p == '{' {
                let mut fields: Vec<(String, Value)> = Vec::new();
                let mut j = i + 1;
                loop
                    invariant
                        i < j <= toks@.len(),
                    decreases toks@.len() - j,
                {
                    if peek_punct(toks, j, '}') {
                        return Ok((Positioned::new(pos, Value::Object(fields)), j + 1));
                    }
                    if j >= toks.len() {
                        return Err(parse_error(end_pos(toks), "expected a closing brace"));
                    }
                    let (name, j2) = match parse_name(toks, j, "expected an object field name") {
                        Ok(v) => v,
                        Err(e) => {
                            return Err(e);
                        },
                    };
                    let j3 = match expect_punct(toks, j2, ':', "expected a colon") {
                        Ok(v) => v,
                        Err(e) => {
                            return Err(e);
                        },
                    };
                    match parse_value(toks, j3) {
                        Ok((value, j4)) => {
                            fields.push((name.node, value.node));
                            j = j4;
                        },
                        Err(e) => {
                            return Err(e);
                        },
                    }
                }
            } else {
                Err(parse_error(pos, "expected a value"))
            }
        },
        TokKind::Spread => Err(parse_error(pos, "expected a value")),
    }
}

fn parse_type_ref(toks: &Vec<Tok>, i: usize) -> (r: Result<(Positioned<Type>, usize), ParseError>)
    requires
        i <= toks@.len(),
    ensures
        r is Ok ==> i < r->Ok_0.1 <= toks@.len(),
    decreases toks@.len() - i,
{
    if i >= toks.len() {
        return Err(parse_error(end_pos(toks), "expected a type"));
    }
    let pos = toks[i].pos;
    let (base, after_base) = match &toks[i].kind {
        TokKind::Name(name) => (Type::Named(name.clone()), i + 1),
        TokKind::Punct(p) => {
            if *p == '[' {
                let (inner, j) = match parse_type_ref(toks, i + 1) {
                    Ok(v) => v,
                    Err(e) => {
                        return Err(e);
                    },
                };
                let j2 = match expect_punct(toks, j, ']', "expected a closing bracket") {
                    Ok(v) => v,
                    Err(e) => {
                        return Err(e);
                    },
                };
                (Type::List(Box::new(inner.node)), j2)
            } else {
                return Err(parse_error(pos, "expected a type"));
            }
        },
        _ => {
            return Err(parse_error(pos, "expected a type"));
        },
    };
    if peek_punct(toks, after_base, '!') {
        Ok((Positioned::new(pos, Type::NonNull(Box::new(base))), after_base + 1))
    } else {
        Ok((Positioned::new(pos, base), after_base))
    }
}

fn parse_argument_values(toks: &Vec<Tok>, i: usize) -> (r: Result<
    (Vec<(Positioned<String>, Positioned<Value>)>, usize),
    ParseError,
>)
    requires
        i <= toks@.len(),
    ensures
        r is Ok ==> i <= r->Ok_0.1 <= toks@.len(),
    decreases toks@.len() - i,
{
    let mut arguments: Vec<(Positioned<String>, Positioned<Value>)> = Vec::new();
    if !peek_punct(toks, i, '(') {
        return Ok((arguments, i));
    }
    let mut j = i + 1;
    loop
        invariant
            i < j <= toks@.len(),
        decreases toks@.len() - j,
    {
        if peek_punct(toks, j, ')') {
            return Ok((arguments, j + 1));
        }
        if j >= toks.len() {
            return Err(parse_error(end_pos(toks), "expected a closing parenthesis"));
        }
        let (name, j2) = match parse_name(toks, j, "expected an argument name") {
            Ok(v) => v,
            Err(e) => {
                return Err(e);
            },
        };
        let j3 = match expect_punct(toks, j2, ':', "expected a colon") {
            Ok(v) => v,
            Err(e) => {
                return Err(e);
            },
        };
        match parse_value(toks, j3) {
            Ok((value, j4)) => {
                arguments.push((name, value));
                j = j4;
            },
            Err(e) => {
                return Err(e);
            },
        }
    }
}

fn parse_directives(toks: &Vec<Tok>, i: usize) -> (r: Result<
    (Vec<Positioned<Directive>>, usize),
    ParseError,
>)
    requires
        i <= toks@.len(),
    ensures
        r is Ok ==> i <= r->Ok_0.1 <= toks@.len(),
    decreases toks@.len() - i,
{
    let mut directives: Vec<Positioned<Directive>> = Vec::new();
    let mut j = i;
    while peek_punct(toks, j, '@')
        invariant
            i <= j <= toks@.len(),
        decreases toks@.len() - j,
    {
        let pos = toks[j].pos;
        let (name, j2) = match parse_name(toks, j + 1, "expected a directive name") {
            Ok(v) => v,
            Err(e) => {
                return Err(e);
            },
        };
        match parse_argument_values(toks, j2) {
            Ok((arguments, j3)) => {
                directives.push(Positioned::new(pos, Directive { name, arguments }));
                j = j3;
            },
            Err(e) => {
                return Err(e);
            },
        }
    }
    Ok((directives, j))
}

fn parse_description(toks: &Vec<Tok>, i: usize) -> (r: (Option<Positioned<String>>, usize))
    requires
        i <= toks@.len(),
    ensures
        i <= r.1 <= toks@.len(),
{
    if i < toks.len() {
        match &toks[i].kind {
            TokKind::StrVal(text) => (Some(Positioned::new(toks[i].pos, text.clone())), i + 1),
            _ => (None, i),
        }
    } else {
        (None, i)
    }
}

fn parse_input_value(toks: &Vec<Tok>, i: usize) -> (r: Result<
    (Positioned<InputValue>, usize),
    ParseError,
>)
    requires
        i <= toks@.len(),
    ensures
        r is Ok ==> i < r->Ok_0.1 <= toks@.len(),
    decreases toks@.len() - i,
{
    let (description, j0) = parse_description(toks, i);
    let (name, j1) = match parse_name(toks, j0, "expected an input value name") {
        Ok(v) => v,
        Err(e) => {
            return Err(e);
        },
    };
    let pos = name.pos;
    let j2 = match expect_punct(toks, j1, ':', "expected a colon") {
        Ok(v) => v,
        Err(e) => {
            return Err(e);
        },
    };
    let (ty, j3) = match parse_type_ref(toks, j2) {
        Ok(v) => v,
        Err(e) => {
            return Err(e);
        },
    };
    let (default_value, j4) = if peek_punct(toks, j3, '=') {
        match parse_value(toks, j3 + 1) {
            Ok((value, j)) => (Some(value), j),
            Err(e) => {
                return Err(e);
            },
        }
    } else {
        (None, j3)
    };
    match parse_directives(toks, j4) {
        Ok((directives, j5)) => Ok(
            (
                Positioned::new(
                    pos,
                    InputValue { description, name, ty, default_value, directives },
                ),
                j5,
            ),
        ),
        Err(e) => Err(e),
    }
}

fn parse_argument_definitions(toks: &Vec<Tok>, i: usize) -> (r: Result<
    (Vec<Positioned<InputValue>>, usize),
    ParseError,
>)
    requires
        i <= toks@.len(),
    ensures
        r is Ok ==> i <= r->Ok_0.1 <= toks@.len(),
    decreases toks@.len() - i,
{
    let mut arguments: Vec<Positioned<InputValue>> = Vec::new();
    if !peek_punct(toks, i, '(') {
        return Ok((arguments, i));
    }
    let mut j = i + 1;
    loop
        invariant
            i < j <= toks@.len(),
        decreases toks@.len() - j,
    {
        if peek_punct(toks, j, ')') {
            return Ok((arguments, j + 1));
        }
        if j >= toks.len() {
            return Err(parse_error(end_pos(toks), "expected a closing parenthesis"));
        }
        match parse_input_value(toks, j) {
            Ok((argument, j2)) => {
                arguments.push(argument);
                j = j2;
            },
            Err(e) => {
                return Err(e);
            },
        }
    }
}

fn parse_field(toks: &Vec<Tok>, i: usize) -> (r: Result<(Positioned<Field>, usize), ParseError>)
    requires
        i <= toks@.len(),
    ensures
        r is Ok ==> i < r->Ok_0.1 <= toks@.len(),
    decreases toks@.len() - i,
{
    let (description, j0) = parse_description(toks, i);
    let (name, j1) = match parse_name(toks, j0, "expected a field name") {
        Ok(v) => v,
        Err(e) => {
            return Err(e);
        },
    };
    let pos = name.pos;
    let (arguments, j2) = match parse_argument_definitions(toks, j1) {
        Ok(v) => v,
        Err(e) => {
            return Err(e);
        },
    };
    let j3 = match expect_punct(toks, j2, ':', "expected a colon") {
        Ok(v) => v,
        Err(e) => {
            return Err(e);
        },
    };
    let (ty, j4) = match parse_type_ref(toks, j3) {
        Ok(v) => v,
        Err(e) => {
            return Err(e);
        },
    };
    match parse_directives(toks, j4) {
        Ok((directives, j5)) => Ok(
            (Positioned::new(pos, Field { description, name, arguments, ty, directives }), j5),
        ),
        Err(e) => Err(e),
    }
}

fn parse_fields_block(toks: &Vec<Tok>, i: usize) -> (r: Result<
    (Vec<Positioned<Field>>, usize),
    ParseError,
>)
    requires
        i <= toks@.len(),
    ensures
        r is Ok ==> i <= r->Ok_0.1 <= toks@.len(),
    decreases toks@.len() - i,
{
    let mut fields: Vec<Positioned<Field>> = Vec::new();
    if !peek_punct(toks, i, '{') {
        return Ok((fields, i));
    }
    let mut j = i + 1;
    loop
        invariant
            i < j <= toks@.len(),
        decreases toks@.len() - j,
    {
        if peek_punct(toks, j, '}') {
            return Ok((fields, j + 1));
        }
        if j >= toks.len() {
            return Err(parse_error(end_pos(toks), "expected a closing brace"));
        }
        match parse_field(toks, j) {
            Ok((field, j2)) => {
                fields.push(field);
                j = j2;
            },
            Err(e) => {
                return Err(e);
            },
        }
    }
}

fn parse_input_fields_block(toks: &Vec<Tok>, i: usize) -> (r: Result<
    (Vec<Positioned<InputValue>>, usize),
    ParseError,
>)
    requires
        i <= toks@.len(),
    ensures
        r is Ok ==> i <= r->Ok_0.1 <= toks@.len(),
    decreases toks@.len() - i,
{
    let mut fields: Vec<Positioned<InputValue>> = Vec::new();
    if !peek_punct(toks, i, '{') {
        return Ok((fields, i));
    }
    let mut j = i + 1;
    loop
        invariant
            i < j <= toks@.len(),
        decreases toks@.len() - j,
    {
        if peek_punct(toks, j, '}') {
            return Ok((fields, j + 1));
        }
        if j >= toks.len() {
            return Err(parse_error(end_pos(toks), "expected a closing brace"));
        }
        match parse_input_value(toks, j) {
            Ok((field, j2)) => {
                fields.push(field);
                j = j2;
            },
            Err(e) => {
                return Err(e);
            },
        }
    }
}

fn parse_schema_definition(toks: &Vec<Tok>, i: usize, extend: bool, pos: Pos) -> (r: Result<
    (Positioned<Definition>, usize),
    ParseError,
>)
    requires
        i <= toks@.len(),
    ensures
        r is Ok ==> i <= r->Ok_0.1 <= toks@.len(),
    decreases toks@.len() - i,
{
    let (directives, j0) = match parse_directives(toks, i) {
        Ok(v) => v,
        Err(e) => {
            return Err(e);
        },
    };
    let mut query: Option<Positioned<String>> = None;
    let mut mutation: Option<Positioned<String>> = None;
    let mut subscription: Option<Positioned<String>> = None;
    let mut j = match expect_punct(toks, j0, '{', "expected an opening brace") {
        Ok(v) => v,
        Err(e) => {
            return Err(e);
        },
    };
    loop
        invariant
            i <= j <= toks@.len(),
        decreases toks@.len() - j,
    {
        if peek_punct(toks, j, '}') {
            let sd = SchemaDefinition { extend, directives, query, mutation, subscription };
            return Ok(
                (
                    Positioned::new(
                        pos,
                        Definition::SchemaDefinition(Positioned::new(pos, sd)),
                    ),
                    j + 1,
                ),
            );
        }
        if j >= toks.len() {
            return Err(parse_error(end_pos(toks), "expected a closing brace"));
        }
        let (kind, j2) = match parse_name(toks, j, "expected a root operation kind") {
            Ok(v) => v,
            Err(e) => {
                return Err(e);
            },
        };
        let j3 = match expect_punct(toks, j2, ':', "expected a colon") {
            Ok(v) => v,
            Err(e) => {
                return Err(e);
            },
        };
        let (name, j4) = match parse_name(toks, j3, "expected a type name") {
            Ok(v) => v,
            Err(e) => {
                return Err(e);
            },
        };
        if kw_eq(&kind.node, "query") {
            query = Some(name);
        } else if kw_eq(&kind.node, "mutation") {
            mutation = Some(name);
        } else if kw_eq(&kind.node, "subscription") {
            subscription = Some(name);
        } else {
            return Err(parse_error(kind.pos, "expected query, mutation or subscription"));
        }
        j = j4;
    }
}

fn directive_location_of(name: &Positioned<String>) -> (r: Result<
    Positioned<DirectiveLocation>,
    ParseError,
>) {
    let loc = if kw_eq(&name.node, "QUERY") {
        DirectiveLocation::Query
    } else if kw_eq(&name.node, "MUTATION") {
        DirectiveLocation::Mutation
    } else if kw_eq(&name.node, "SUBSCRIPTION") {
        DirectiveLocation::Subscription
    } else if kw_eq(&name.node, "FIELD") {
        DirectiveLocation::Field
    } else if kw_eq(&name.node, "FRAGMENT_DEFINITION") {
        DirectiveLocation::FragmentDefinition
    } else if kw_eq(&name.node, "FRAGMENT_SPREAD") {
        DirectiveLocation::FragmentSpread
    } else if kw_eq(&name.node, "INLINE_FRAGMENT") {
        DirectiveLocation::InlineFragment
    } else if kw_eq(&name.node, "SCHEMA") {
        DirectiveLocation::Schema
    } else if kw_eq(&name.node, "SCALAR") {
        DirectiveLocation::Scalar
    } else if kw_eq(&name.node, "OBJECT") {
        DirectiveLocation::Object
    } else if kw_eq(&name.node, "FIELD_DEFINITION") {
        DirectiveLocation::FieldDefinition
    } else if kw_eq(&name.node, "ARGUMENT_DEFINITION") {
        DirectiveLocation::ArgumentDefinition
    } else if kw_eq(&name.node, "INTERFACE") {
        DirectiveLocation::Interface
    } else if kw_eq(&name.node, "UNION") {
        DirectiveLocation::Union
    } else if kw_eq(&name.node, "ENUM") {
        DirectiveLocation::Enum
    } else if kw_eq(&name.node, "ENUM_VALUE") {
        DirectiveLocation::EnumValue
    } else if kw_eq(&name.node, "INPUT_OBJECT") {
        DirectiveLocation::InputObject
    } else if kw_eq(&name.node, "INPUT_FIELD_DEFINITION") {
        DirectiveLocation::InputFieldDefinition
    } else {
        return Err(parse_error(name.pos, "expected a directive location"));
    };
    Ok(Positioned::new(name.pos, loc))
}

fn parse_type_definition(toks: &Vec<Tok>, i: usize, extend: bool, pos: Pos, kind: TypeKeyword) -> (
    r: Result<(Positioned<Definition>, usize), ParseError>)
    requires
        i <= toks@.len(),
    ensures
        r is Ok ==> i <= r->Ok_0.1 <= toks@.len(),
    decreases toks@.len() - i,
{
    let description: Option<Positioned<String>> = None;
    let (name, j0) = match parse_name(toks, i, "expected a type name") {
        Ok(v) => v,
        Err(e) => {
            return Err(e);
        },
    };
    let mut implements_interfaces: Vec<Positioned<String>> = Vec::new();
    let mut j1 = j0;
    if kind == TypeKeyword::Object && peek_keyword(toks, j0, "implements") {
        let mut j = j0 + 1;
        loop
            invariant
                j0 < j <= toks@.len(),
            ensures
                j0 < j1 <= toks@.len(),
            decreases toks@.len() - j,
        {
            let (iface, j2) = match parse_name(toks, j, "expected an interface name") {
                Ok(v) => v,
                Err(e) => {
                    return Err(e);
                },
            };
            implements_interfaces.push(iface);
            if peek_punct(toks, j2, '&') {
                j = j2 + 1;
            } else {
                j1 = j2;
                break;
            }
        }
    }
    let (directives, j2) = match parse_directives(toks, j1) {
        Ok(v) => v,
        Err(e) => {
            return Err(e);
        },
    };
    let td = if kind == TypeKeyword::Scalar {
        (TypeDefinition::Scalar(
            Positioned::new(pos, ScalarType { extend, description, name, directives }),
        ), j2)
    } else if kind == TypeKeyword::Object {
        let (fields, j3) = match parse_fields_block(toks, j2) {
            Ok(v) => v,
            Err(e) => {
                return Err(e);
            },
        };
        (TypeDefinition::Object(
            Positioned::new(
                pos,
                ObjectType {
                    extend,
                    description,
                    name,
                    implements_interfaces,
                    directives,
                    fields,
                },
            ),
        ), j3)
    } else if kind == TypeKeyword::Interface {
        let (fields, j3) = match parse_fields_block(toks, j2) {
            Ok(v) => v,
            Err(e) => {
                return Err(e);
            },
        };
        (TypeDefinition::Interface(
            Positioned::new(pos, InterfaceType { extend, description, name, directives, fields }),
        ), j3)
    } else if kind == TypeKeyword::Union {
        let mut members: Vec<Positioned<String>> = Vec::new();
        let mut j3 = j2;
        if peek_punct(toks, j2, '=') {
            let mut j = j2 + 1;
            if peek_punct(toks, j, '|') {
                j = j + 1;
            }
            loop
                invariant
                    j2 < j <= toks@.len(),
                ensures
                    j2 < j3 <= toks@.len(),
                decreases toks@.len() - j,
            {
                let (member, j4) = match parse_name(toks, j, "expected a union member name") {
                    Ok(v) => v,
                    Err(e) => {
                        return Err(e);
                    },
                };
                members.push(member);
                if peek_punct(toks, j4, '|') {
                    j = j4 + 1;
                } else {
                    j3 = j4;
                    break;
                }
            }
        }
        (TypeDefinition::Union(
            Positioned::new(pos, UnionType { extend, description, name, directives, members }),
        ), j3)
    } else if kind == TypeKeyword::Enum {
        let mut values: Vec<Positioned<EnumValue>> = Vec::new();
        let mut j3 = j2;
        if peek_punct(toks, j2, '{') {
            let mut j = j2 + 1;
            loop
                invariant
                    j2 < j <= toks@.len(),
                ensures
                    j2 < j3 <= toks@.len(),
                decreases toks@.len() - j,
            {
                if peek_punct(toks, j, '}') {
                    j3 = j + 1;
                    break;
                }
                if j >= toks.len() {
                    return Err(parse_error(end_pos(toks), "expected a closing brace"));
                }
                let (value_description, jd) = parse_description(toks, j);
                let (value_name, j4) = match parse_name(toks, jd, "expected an enum value") {
                    Ok(v) => v,
                    Err(e) => {
                        return Err(e);
                    },
                };
                let (value_directives, j5) = match parse_directives(toks, j4) {
                    Ok(v) => v,
                    Err(e) => {
                        return Err(e);
                    },
                };
                values.push(
                    Positioned::new(
                        value_name.pos,
                        EnumValue {
                            description: value_description,
                            name: value_name,
                            directives: value_directives,
                        },
                    ),
                );
                j = j5;
            }
        }
        (TypeDefinition::Enum(
            Positioned::new(pos, EnumType { extend, description, name, directives, values }),
        ), j3)
    } else {
        let (fields, j3) = match parse_input_fields_block(toks, j2) {
            Ok(v) => v,
            Err(e) => {
                return Err(e);
            },
        };
        (TypeDefinition::InputObject(
            Positioned::new(
                pos,
                InputObjectType { extend, description, name, directives, fields },
            ),
        ), j3)
    };
    let (td_value, j_end) = td;
    Ok(
        (
            Positioned::new(pos, Definition::TypeDefinition(Positioned::new(pos, td_value))),
            j_end,
        ),
    )
}

#[verifier::loop_isolation(false)]
fn parse_directive_definition(toks: &Vec<Tok>, i: usize, pos: Pos) -> (r: Result<
    (Positioned<Definition>, usize),
    ParseError,
>)
    requires
        i <= toks@.len(),
    ensures
        r is Ok ==> i <= r->Ok_0.1 <= toks@.len(),
    decreases toks@.len() - i,
{
    let description: Option<Positioned<String>> = None;
    let j0 = match expect_punct(toks, i, '@', "expected an at sign") {
        Ok(v) => v,
        Err(e) => {
            return Err(e);
        },
    };
    let (name, j1) = match parse_name(toks, j0, "expected a directive name") {
        Ok(v) => v,
        Err(e) => {
            return Err(e);
        },
    };
    let (arguments, j2) = match parse_argument_definitions(toks, j1) {
        Ok(v) => v,
        Err(e) => {
            return Err(e);
        },
    };
    if !peek_keyword(toks, j2, "on") {
        return Err(parse_error(end_or_tok_pos(toks, j2), "expected the word on"));
    }
    let mut locations: Vec<Positioned<DirectiveLocation>> = Vec::new();
    let mut j = j2 + 1;
    if peek_punct(toks, j, '|') {
        j = j + 1;
    }
    loop
        invariant
            j2 < j <= toks@.len(),
        decreases toks@.len() - j,
    {
        let (loc_name, j3) = match parse_name(toks, j, "expected a directive location") {
            Ok(v) => v,
            Err(e) => {
                return Err(e);
            },
        };
        match directive_location_of(&loc_name) {
            Ok(loc) => {
                locations.push(loc);
            },
            Err(e) => {
                return Err(e);
            },
        }
        if peek_punct(toks, j3, '|') {
            j = j3 + 1;
        } else {
            let dd = DirectiveDefinition { description, name, arguments, locations };
            return Ok(
                (
                    Positioned::new(
                        pos,
                        Definition::DirectiveDefinition(Positioned::new(pos, dd)),
                    ),
                    j3,
                ),
            );
        }
    }
}

fn parse_definition(toks: &Vec<Tok>, i: usize) -> (r: Result<
    (Positioned<Definition>, usize),
    ParseError,
>)
    requires
        i < toks@.len(),
    ensures
        r is Ok ==> i < r->Ok_0.1 <= toks@.len(),
    decreases toks@.len() - i, 1int,
{
    let (_description, j0) = parse_description(toks, i);
    if j0 >= toks.len() {
        return Err(parse_error(end_pos(toks), "expected a definition"));
    }
    let pos = toks[j0].pos;
    match &toks[j0].kind {
        TokKind::Name(keyword) => {
            if kw_eq(keyword, "extend") {
                if j0 + 1 >= toks.len() {
                    return Err(parse_error(end_pos(toks), "expected a definition to extend"));
                }
                match parse_keyword_definition(toks, j0 + 1, true) {
                    Ok((def, j)) => Ok((def, j)),
                    Err(e) => Err(e),
                }
            } else {
                match parse_keyword_definition(toks, j0, false) {
                    Ok((def, j)) => Ok((def, j)),
                    Err(e) => Err(e),
                }
            }
        },
        _ => Err(parse_error(pos, "expected a definition")),
    }
}

fn parse_keyword_definition(toks: &Vec<Tok>, i: usize, extend: bool) -> (r: Result<
    (Positioned<Definition>, usize),
    ParseError,
>)
    requires
        i < toks@.len(),
    ensures
        r is Ok ==> i < r->Ok_0.1 <= toks@.len(),
    decreases toks@.len() - i, 0int,
{
    let n = toks.len();
    proof {
        assert(i < n);
    }
    let pos = toks[i].pos;
    match &toks[i].kind {
        TokKind::Name(keyword) => {
            if kw_eq(keyword, "schema") {
                parse_schema_definition(toks, i + 1, extend, pos)
            } else if kw_eq(keyword, "scalar") {
                parse_type_definition(toks, i + 1, extend, pos, TypeKeyword::Scalar)
            } else if kw_eq(keyword, "type") {
                parse_type_definition(toks, i + 1, extend, pos, TypeKeyword::Object)
            } else if kw_eq(keyword, "interface") {
                parse_type_definition(toks, i + 1, extend, pos, TypeKeyword::Interface)
            } else if kw_eq(keyword, "union") {
                parse_type_definition(toks, i + 1, extend, pos, TypeKeyword::Union)
            } else if kw_eq(keyword, "enum") {
                parse_type_definition(toks, i + 1, extend, pos, TypeKeyword::Enum)
            } else if kw_eq(keyword, "input") {
                parse_type_definition(toks, i + 1, extend, pos, TypeKeyword::InputObject)
            } else if kw_eq(keyword, "directive") {
                parse_directive_definition(toks, i + 1, pos)
            } else {
                Err(parse_error(pos, "expected a definition keyword"))
            }
        },
        _ => Err(parse_error(pos, "expected a definition keyword")),
    }
}

/// Reads a schema-definition document from source text; a malformed text
/// fails with a syntax error before validation ever runs.
pub fn parse_schema_document(source: &str) -> (r: Result<Document, ParseError>) {
    let toks = match lex(source) {
        Ok(v) => v,
        Err(e) => {
            return Err(e);
        },
    };
    let mut definitions: Vec<Positioned<Definition>> = Vec::new();
    let mut i: usize = 0;
    while i < toks.len()
        invariant
            0 <= i <= toks@.len(),
        decreases toks@.len() - i,
    {
        match parse_definition(&toks, i) {
            Ok((definition, j)) => {
                definitions.push(definition);
                i = j;
            },
            Err(e) => {
                return Err(e);
            },
        }
    }
    Ok(Document { definitions })
}

fn parse_selection_set(toks: &Vec<Tok>, i: usize) -> (r: Result<
    (Positioned<SelectionSet>, usize),
    ParseError,
>)
    requires
        i <= toks@.len(),
    ensures
        r is Ok ==> i < r->Ok_0.1 <= toks@.len(),
    decreases toks@.len() - i, 1int,
{
    if !peek_punct(toks, i, '{') {
        return Err(parse_error(end_or_tok_pos(toks, i), "expected a selection set"));
    }
    let pos = toks[i].pos;
    let mut items: Vec<Positioned<Selection>> = Vec::new();
    let mut j = i + 1;
    loop
        invariant
            i < j <= toks@.len(),
        decreases toks@.len() - j,
    {
        if peek_punct(toks, j, '}') {
            return Ok((Positioned::new(pos, SelectionSet { items }), j + 1));
        }
        if j >= toks.len() {
            return Err(parse_error(end_pos(toks), "expected a closing brace"));
        }
        match parse_selection(toks, j) {
            Ok((selection, j2)) => {
                items.push(selection);
                j = j2;
            },
            Err(e) => {
                return Err(e);
            },
        }
    }
}

fn parse_selection(toks: &Vec<Tok>, i: usize) -> (r: Result<
    (Positioned<Selection>, usize),
    ParseError,
>)
    requires
        i < toks@.len(),
    ensures
        r is Ok ==> i < r->Ok_0.1 <= toks@.len(),
    decreases toks@.len() - i, 0int,
{
    let n = toks.len();
    proof {
        assert(i < n);
    }
    let pos = toks[i].pos;
    match &toks[i].kind {
        TokKind::Spread => {
            if peek_keyword(toks, i + 1, "on") {
                let (type_condition, j) = match parse_name(toks, i + 2, "expected a type name") {
                    Ok(v) => v,
                    Err(e) => {
                        return Err(e);
                    },
                };
                let (_directives, j2) = match parse_directives(toks, j) {
                    Ok(v) => v,
                    Err(e) => {
                        return Err(e);
                    },
                };
                let (selection_set, j3) = match parse_selection_set(toks, j2) {
                    Ok(v) => v,
                    Err(e) => {
                        return Err(e);
                    },
                };
                let inline = InlineFragment { type_condition: Some(type_condition), selection_set };
                Ok(
                    (
                        Positioned::new(
                            pos,
                            Selection::InlineFragment(Positioned::new(pos, inline)),
                        ),
                        j3,
                    ),
                )
            } else if peek_punct(toks, i + 1, '{') || peek_punct(toks, i + 1, '@') {
                let (_directives, j) = match parse_directives(toks, i + 1) {
                    Ok(v) => v,
                    Err(e) => {
                        return Err(e);
                    },
                };
                let (selection_set, j2) = match parse_selection_set(toks, j) {
                    Ok(v) => v,
                    Err(e) => {
                        return Err(e);
                    },
                };
                let inline = InlineFragment { type_condition: None, selection_set };
                Ok(
                    (
                        Positioned::new(
                            pos,
                            Selection::InlineFragment(Positioned::new(pos, inline)),
                        ),
                        j2,
                    ),
                )
            } else {
                let (fragment_name, j) = match parse_name(toks, i + 1, "expected a fragment name") {
                    Ok(v) => v,
                    Err(e) => {
                        return Err(e);
                    },
                };
                let (_directives, j2) = match parse_directives(toks, j) {
                    Ok(v) => v,
                    Err(e) => {
                        return Err(e);
                    },
                };
                let spread = FragmentSpread { fragment_name };
                Ok(
                    (
                        Positioned::new(
                            pos,
                            Selection::FragmentSpread(Positioned::new(pos, spread)),
                        ),
                        j2,
                    ),
                )
            }
        },
        TokKind::Name(..) => {
            let (first, j0) = match parse_name(toks, i, "expected a field name") {
                Ok(v) => v,
                Err(e) => {
                    return Err(e);
                },
            };
            let (alias, name, j1) = if peek_punct(toks, j0, ':') {
                match parse_name(toks, j0 + 1, "expected a field name") {
                    Ok((second, j)) => (Some(first), second, j),
                    Err(e) => {
                        return Err(e);
                    },
                }
            } else {
                (None, first, j0)
            };
            let (arguments, j2) = match parse_argument_values(toks, j1) {
                Ok(v) => v,
                Err(e) => {
                    return Err(e);
                },
            };
            let (_directives, j3) = match parse_directives(toks, j2) {
                Ok(v) => v,
                Err(e) => {
                    return Err(e);
                },
            };
            let (selection_set, j4) = if peek_punct(toks, j3, '{') {
                match parse_selection_set(toks, j3) {
                    Ok(v) => v,
                    Err(e) => {
                        return Err(e);
                    },
                }
            } else {
                (Positioned::new(pos, SelectionSet { items: Vec::new() }), j3)
            };
            let field = SelectionField { alias, name, arguments, selection_set };
            Ok((Positioned::new(pos, Selection::Field(Positioned::new(pos, field))), j4))
        },
        _ => Err(parse_error(pos, "expected a selection")),
    }
}

fn parse_variable_definitions(toks: &Vec<Tok>, i: usize) -> (r: Result<usize, ParseError>)
    requires
        i <= toks@.len(),
    ensures
        r is Ok ==> i <= r->Ok_0 <= toks@.len(),
    decreases toks@.len() - i,
{
    if !peek_punct(toks, i, '(') {
        return Ok(i);
    }
    let mut j = i + 1;
    loop
        invariant
            i < j <= toks@.len(),
        decreases toks@.len() - j,
    {
        if peek_punct(toks, j, ')') {
            return Ok(j + 1);
        }
        if j >= toks.len() {
            return Err(parse_error(end_pos(toks), "expected a closing parenthesis"));
        }
        let j1 = match expect_punct(toks, j, '$', "expected a variable") {
            Ok(v) => v,
            Err(e) => {
                return Err(e);
            },
        };
        let (_name, j2) = match parse_name(toks, j1, "expected a variable name") {
            Ok(v) => v,
            Err(e) => {
                return Err(e);
            },
        };
        let j3 = match expect_punct(toks, j2, ':', "expected a colon") {
            Ok(v) => v,
            Err(e) => {
                return Err(e);
            },
        };
        let (_ty, j4) = match parse_type_ref(toks, j3) {
            Ok(v) => v,
            Err(e) => {
                return Err(e);
            },
        };
        if peek_punct(toks, j4, '=') {
            match parse_value(toks, j4 + 1) {
                Ok((_value, j5)) => {
                    j = j5;
                },
                Err(e) => {
                    return Err(e);
                },
            }
        } else {
            j = j4;
        }
    }
}

fn parse_executable_definition(toks: &Vec<Tok>, i: usize) -> (r: Result<
    (ExecutableDefinition, usize),
    ParseError,
>)
    requires
        i < toks@.len(),
    ensures
        r is Ok ==> i < r->Ok_0.1 <= toks@.len(),
    decreases toks@.len() - i, 2int,
{
    let n = toks.len();
    proof {
        assert(i < n);
    }
    let pos = toks[i].pos;
    match &toks[i].kind {
        TokKind::Punct(p) => {
            if *p == '{' {
                let (selection_set, j) = match parse_selection_set(toks, i) {
                    Ok(v) => v,
                    Err(e) => {
                        return Err(e);
                    },
                };
                let op = OperationDefinition {
                    ty: OperationType::Query,
                    name: None,
                    selection_set,
                };
                Ok((ExecutableDefinition::Operation(Positioned::new(pos, op)), j))
            } else {
                Err(parse_error(pos, "expected an operation or a fragment"))
            }
        },
        TokKind::Name(keyword) => {
            if kw_eq(keyword, "fragment") {
                let (name, j0) = match parse_name(toks, i + 1, "expected a fragment name") {
                    Ok(v) => v,
                    Err(e) => {
                        return Err(e);
                    },
                };
                if !peek_keyword(toks, j0, "on") {
                    return Err(parse_error(end_or_tok_pos(toks, j0), "expected the word on"));
                }
                let (type_condition, j1) = match parse_name(toks, j0 + 1, "expected a type name") {
                    Ok(v) => v,
                    Err(e) => {
                        return Err(e);
                    },
                };
                let (_directives, j2) = match parse_directives(toks, j1) {
                    Ok(v) => v,
                    Err(e) => {
                        return Err(e);
                    },
                };
                let (selection_set, j3) = match parse_selection_set(toks, j2) {
                    Ok(v) => v,
                    Err(e) => {
                        return Err(e);
                    },
                };
                let fragment = FragmentDefinition { name, type_condition, selection_set };
                Ok((ExecutableDefinition::Fragment(Positioned::new(pos, fragment)), j3))
            } else {
                let ty = if kw_eq(keyword, "query") {
                    OperationType::Query
                } else if kw_eq(keyword, "mutation") {
                    OperationType::Mutation
                } else if kw_eq(keyword, "subscription") {
                    OperationType::Subscription
                } else {
                    return Err(parse_error(pos, "expected an operation or a fragment"));
                };
                let (name, j0) = if i + 1 < toks.len() {
                    match &toks[i + 1].kind {
                        TokKind::Name(..) => {
                            match parse_name(toks, i + 1, "expected an operation name") {
                                Ok((name, j)) => (Some(name), j),
                                Err(e) => {
                                    return Err(e);
                                },
                            }
                        },
                        _ => (None, i + 1),
                    }
                } else {
                    (None, i + 1)
                };
                let j1 = match parse_variable_definitions(toks, j0) {
                    Ok(v) => v,
                    Err(e) => {
                        return Err(e);
                    },
                };
                let (_directives, j2) = match parse_directives(toks, j1) {
                    Ok(v) => v,
                    Err(e) => {
                        return Err(e);
                    },
                };
                let (selection_set, j3) = match parse_selection_set(toks, j2) {
                    Ok(v) => v,
                    Err(e) => {
                        return Err(e);
                    },
                };
                let op = OperationDefinition { ty, name, selection_set };
                Ok((ExecutableDefinition::Operation(Positioned::new(pos, op)), j3))
            }
        },
        _ => Err(parse_error(pos, "expected an operation or a fragment")),
    }
}

/// Reads an executable (query) document from source text; a malformed text
/// fails with a syntax error before validation ever runs.
pub fn parse_executable_document(source: &str) -> (r: Result<ExecutableDocument, ParseError>) {
    let toks = match lex(source) {
        Ok(v) => v,
        Err(e) => {
            return Err(e);
        },
    };
    let mut definitions: Vec<ExecutableDefinition> = Vec::new();
    let mut i: usize = 0;
    while i < toks.len()
        invariant
            0 <= i <= toks@.len(),
        decreases toks@.len() - i,
    {
        match parse_executable_definition(&toks, i) {
            Ok((definition, j)) => {
                definitions.push(definition);
                i = j;
            },
            Err(e) => {
                return Err(e);
            },
        }
    }
    Ok(ExecutableDocument { definitions })
}

} // verus!
