//! The shared payload grammars.
//!
//! Each directive's payload is one of a handful of shapes: empty or
//! `= <bool>`, `= <string>`, `= <value>`, `= <string or expression>`, or a
//! parenthesized comma-separated list. The functions here parse those shapes
//! from a payload token sequence; each one consumes the whole payload or
//! fails with a diagnostic at the offending token.

use vstd::prelude::*;
use crate::tokens::{Ident, Span, Token, TokenKind};
use crate::diagnostics::Diagnostics;
use crate::value::AnyValue;

verus! {

/// A string literal or an opaque expression, for directives that accept
/// either.
#[derive(Clone, Debug)]
pub enum Value {
    LitStr(String),
    Expr(String),
}

// --- bare flags: no payload (true) or `= <bool>` ---------------------------

/// Whether a payload fits the bare-flag shape.
pub open spec fn flag_ok(p: Seq<Token>) -> bool {
    ||| p.len() == 0
    ||| (p.len() == 2 && p[0].kind is Eq && p[1].kind is LitBool)
}

/// The flag value of a well-formed bare-flag payload.
pub open spec fn flag_value(p: Seq<Token>) -> bool {
    if p.len() == 0 {
        true
    } else {
        p[1].kind->LitBool_0
    }
}

/// The span an ill-formed bare-flag payload is reported at.
pub open spec fn flag_err_span(p: Seq<Token>) -> Span {
    if p.len() >= 1 && !(p[0].kind is Eq) {
        p[0].span
    } else if p.len() == 1 {
        p[0].span
    } else if p.len() >= 2 && !(p[1].kind is LitBool) {
        p[1].span
    } else {
        p[2].span
    }
}

/// Parses a bare-flag payload: an empty payload means `true`, otherwise the
/// payload must be `= <boolean literal>`.
pub fn parse_bool_or_true(p: &Vec<Token>) -> (r: Result<bool, Diagnostics>)
    ensures
        r is Ok <==> flag_ok(p@),
        r matches Ok(v) ==> v == flag_value(p@),
        r matches Err(e) ==> e.span == flag_err_span(p@),
{
    if p.len() == 0 {
        Ok(true)
    } else if !matches!(&p[0].kind, TokenKind::Eq) {
        Err(Diagnostics::with_span(p[0].span, "expected `=`"))
    } else if p.len() == 1 {
        Err(Diagnostics::with_span(p[0].span, "expected a boolean literal after `=`"))
    } else {
        match &p[1].kind {
            TokenKind::LitBool(b) => {
                if p.len() == 2 {
                    Ok(*b)
                } else {
                    Err(Diagnostics::with_span(p[2].span, "unexpected token after the boolean literal"))
                }
            },
            _ => Err(Diagnostics::with_span(p[1].span, "expected a boolean literal after `=`")),
        }
    }
}

// --- `= <string literal>` ---------------------------------------------------

/// Whether a payload is exactly `= <string literal>`.
pub open spec fn str_ok(p: Seq<Token>) -> bool {
    p.len() == 2 && p[0].kind is Eq && p[1].kind is LitStr
}

/// The string of a well-formed `= <string literal>` payload.
pub open spec fn str_value(p: Seq<Token>) -> Seq<char> {
    p[1].kind->LitStr_0@
}

/// The span an ill-formed `= <string literal>` payload is reported at.
pub open spec fn str_err_span(p: Seq<Token>, attr: Span) -> Span {
    if p.len() == 0 {
        attr
    } else if !(p[0].kind is Eq) {
        p[0].span
    } else if p.len() == 1 {
        p[0].span
    } else if !(p[1].kind is LitStr) {
        p[1].span
    } else {
        p[2].span
    }
}

/// Parses a `= <string literal>` payload.
pub fn parse_next_literal_str(p: &Vec<Token>, attr: &Ident) -> (r: Result<String, Diagnostics>)
    ensures
        r is Ok <==> str_ok(p@),
        r matches Ok(s) ==> s@ == str_value(p@),
        r matches Err(e) ==> e.span == str_err_span(p@, attr.span),
{
    if p.len() == 0 {
        Err(Diagnostics::with_span(attr.span, "expected `= <string literal>`"))
    } else if !matches!(&p[0].kind, TokenKind::Eq) {
        Err(Diagnostics::with_span(p[0].span, "expected `=`"))
    } else if p.len() == 1 {
        Err(Diagnostics::with_span(p[0].span, "expected a string literal after `=`"))
    } else {
        match &p[1].kind {
            TokenKind::LitStr(s) => {
                if p.len() == 2 {
                    Ok(s.clone())
                } else {
                    Err(Diagnostics::with_span(p[2].span, "unexpected token after the string literal"))
                }
            },
            _ => Err(Diagnostics::with_span(p[1].span, "expected a string literal after `=`")),
        }
    }
}

// --- literal-or-expression values -------------------------------------------

/// Whether a token can stand where a literal-or-expression value is expected.
pub open spec fn is_value_token(t: Token) -> bool {
    ||| t.kind is LitStr
    ||| t.kind is LitBool
    ||| t.kind is LitInt
    ||| t.kind is Expr
    ||| t.kind is Ident
}

/// Whether `v` is the [`AnyValue`] a value token denotes: literal tokens give
/// literals, expression and bare-identifier tokens give opaque expressions.
pub open spec fn any_value_matches(t: Token, v: AnyValue) -> bool {
    match t.kind {
        TokenKind::LitStr(s) => v matches AnyValue::LitStr(x) && x@ == s@,
        TokenKind::LitBool(b) => v matches AnyValue::LitBool(x) && x == b,
        TokenKind::LitInt(n) => v matches AnyValue::LitInt(x) && x == n,
        TokenKind::Expr(e) => v matches AnyValue::Expr(x) && x@ == e@,
        TokenKind::Ident(e) => v matches AnyValue::Expr(x) && x@ == e@,
        _ => false,
    }
}

/// The [`AnyValue`] denoted by one value token, or `None` where the token is
/// punctuation.
pub fn token_any_value(t: &Token) -> (r: Option<AnyValue>)
    ensures
        r is Some <==> is_value_token(*t),
        r matches Some(v) ==> any_value_matches(*t, v),
{
    match &t.kind {
        TokenKind::LitStr(s) => Some(AnyValue::LitStr(s.clone())),
        TokenKind::LitBool(b) => Some(AnyValue::LitBool(*b)),
        TokenKind::LitInt(n) => Some(AnyValue::LitInt(*n)),
        TokenKind::Expr(e) => Some(AnyValue::Expr(e.clone())),
        TokenKind::Ident(e) => Some(AnyValue::Expr(e.clone())),
        _ => None,
    }
}

/// Whether a payload is exactly `= <literal-or-expression>`.
pub open spec fn value_ok(p: Seq<Token>) -> bool {
    p.len() == 2 && p[0].kind is Eq && is_value_token(p[1])
}

/// The span an ill-formed `= <literal-or-expression>` payload is reported at.
pub open spec fn value_err_span(p: Seq<Token>, attr: Span) -> Span {
    if p.len() == 0 {
        attr
    } else if !(p[0].kind is Eq) {
        p[0].span
    } else if p.len() == 1 {
        p[0].span
    } else if !is_value_token(p[1]) {
        p[1].span
    } else {
        p[2].span
    }
}

/// Parses a `= <literal-or-expression>` payload.
pub fn parse_next_any_value(p: &Vec<Token>, attr: &Ident) -> (r: Result<AnyValue, Diagnostics>)
    ensures
        r is Ok <==> value_ok(p@),
        r matches Ok(v) ==> any_value_matches(p@[1], v),
        r matches Err(e) ==> e.span == value_err_span(p@, attr.span),
{
    if p.len() == 0 {
        Err(Diagnostics::with_span(attr.span, "expected `= <literal or expression>`"))
    } else if !matches!(&p[0].kind, TokenKind::Eq) {
        Err(Diagnostics::with_span(p[0].span, "expected `=`"))
    } else if p.len() == 1 {
        Err(Diagnostics::with_span(p[0].span, "expected a literal or an expression after `=`"))
    } else if p.len() > 2 {
        Err(Diagnostics::with_span(
            if token_any_value(&p[1]).is_some() { p[2].span } else { p[1].span },
            "unexpected token in the value payload",
        ))
    } else {
        match token_any_value(&p[1]) {
            Some(v) => Ok(v),
            None => Err(Diagnostics::with_span(p[1].span, "expected a literal or an expression after `=`")),
        }
    }
}

/// Whether `v` is the [`Value`] a token denotes: a string literal, or an
/// expression for expression and bare-identifier tokens.
pub open spec fn str_or_expr_matches(t: Token, v: Value) -> bool {
    match t.kind {
        TokenKind::LitStr(s) => v matches Value::LitStr(x) && x@ == s@,
        TokenKind::Expr(e) => v matches Value::Expr(x) && x@ == e@,
        TokenKind::Ident(e) => v matches Value::Expr(x) && x@ == e@,
        _ => false,
    }
}

/// Whether a token can stand where a string-or-expression value is expected.
pub open spec fn is_str_or_expr_token(t: Token) -> bool {
    t.kind is LitStr || t.kind is Expr || t.kind is Ident
}

/// Whether a payload is exactly `= <string literal or expression>`.
pub open spec fn str_or_expr_ok(p: Seq<Token>) -> bool {
    p.len() == 2 && p[0].kind is Eq && is_str_or_expr_token(p[1])
}

/// The span an ill-formed `= <string or expression>` payload is reported at.
pub open spec fn str_or_expr_err_span(p: Seq<Token>, attr: Span) -> Span {
    if p.len() == 0 {
        attr
    } else if !(p[0].kind is Eq) {
        p[0].span
    } else if p.len() == 1 {
        p[0].span
    } else if !is_str_or_expr_token(p[1]) {
        p[1].span
    } else {
        p[2].span
    }
}

/// Parses a `= <string literal or expression>` payload.
pub fn parse_next_literal_str_or_expr(p: &Vec<Token>, attr: &Ident) -> (r: Result<
    Value,
    Diagnostics,
>)
    ensures
        r is Ok <==> str_or_expr_ok(p@),
        r matches Ok(v) ==> str_or_expr_matches(p@[1], v),
        r matches Err(e) ==> e.span == str_or_expr_err_span(p@, attr.span),
{
    if p.len() == 0 {
        Err(Diagnostics::with_span(attr.span, "expected `= <string literal or expression>`"))
    } else if !matches!(&p[0].kind, TokenKind::Eq) {
        Err(Diagnostics::with_span(p[0].span, "expected `=`"))
    } else if p.len() == 1 {
        Err(Diagnostics::with_span(p[0].span, "expected a string literal or an expression after `=`"))
    } else {
        let v: Option<Value> = match &p[1].kind {
            TokenKind::LitStr(s) => Some(Value::LitStr(s.clone())),
            TokenKind::Expr(e) => Some(Value::Expr(e.clone())),
            TokenKind::Ident(e) => Some(Value::Expr(e.clone())),
            _ => None,
        };
        match v {
            Some(v) => {
                if p.len() == 2 {
                    Ok(v)
                } else {
                    Err(Diagnostics::with_span(p[2].span, "unexpected token in the value payload"))
                }
            },
            None => Err(Diagnostics::with_span(
                p[1].span,
                "expected a string literal or an expression after `=`",
            )),
        }
    }
}

/// The mathematical content of a [`Value`].
pub enum ValueModel {
    LitStr(Seq<char>),
    Expr(Seq<char>),
}

/// The model of a [`Value`].
pub open spec fn value_model(v: Value) -> ValueModel {
    match v {
        Value::LitStr(s) => ValueModel::LitStr(s@),
        Value::Expr(e) => ValueModel::Expr(e@),
    }
}

/// A copy of a [`Value`] with the same content.
pub fn clone_value(v: &Value) -> (r: Value)
    ensures
        value_model(r) == value_model(*v),
{
    match v {
        Value::LitStr(s) => Value::LitStr(s.clone()),
        Value::Expr(e) => Value::Expr(e.clone()),
    }
}

// --- `= <enumeration value>` -------------------------------------------------

/// Whether a payload is `= <name>` with the name a bare identifier or a
/// string literal.
pub open spec fn enum_payload_ok(p: Seq<Token>) -> bool {
    p.len() == 2 && p[0].kind is Eq && (p[1].kind is Ident || p[1].kind is LitStr)
}

/// The name of a well-formed `= <name>` payload.
pub open spec fn enum_payload_name(p: Seq<Token>) -> Seq<char> {
    match p[1].kind {
        TokenKind::Ident(s) => s@,
        TokenKind::LitStr(s) => s@,
        _ => Seq::empty(),
    }
}

/// The span an ill-formed `= <name>` payload is reported at.
pub open spec fn enum_err_span(p: Seq<Token>, attr: Span) -> Span {
    if p.len() == 0 {
        attr
    } else if !(p[0].kind is Eq) {
        p[0].span
    } else if p.len() == 1 {
        p[0].span
    } else if !(p[1].kind is Ident || p[1].kind is LitStr) {
        p[1].span
    } else {
        p[2].span
    }
}

/// Parses a `= <name>` payload and hands back the name and its span, for the
/// closed enumerations.
pub fn parse_enum_name(p: &Vec<Token>, attr: &Ident) -> (r: Result<(String, Span), Diagnostics>)
    ensures
        r is Ok <==> enum_payload_ok(p@),
        r matches Ok(v) ==> v.0@ == enum_payload_name(p@) && v.1 == p@[1].span,
        r matches Err(e) ==> e.span == enum_err_span(p@, attr.span),
{
    if p.len() == 0 {
        Err(Diagnostics::with_span(attr.span, "expected `= <value>`"))
    } else if !matches!(&p[0].kind, TokenKind::Eq) {
        Err(Diagnostics::with_span(p[0].span, "expected `=`"))
    } else if p.len() == 1 {
        Err(Diagnostics::with_span(p[0].span, "expected a value after `=`"))
    } else if p.len() > 2 {
        Err(Diagnostics::with_span(
            if matches!(&p[1].kind, TokenKind::Ident(_)) || matches!(&p[1].kind, TokenKind::LitStr(_)) {
                p[2].span
            } else {
                p[1].span
            },
            "unexpected token in the value payload",
        ))
    } else {
        match &p[1].kind {
            TokenKind::Ident(s) => Ok((s.clone(), p[1].span)),
            TokenKind::LitStr(s) => Ok((s.clone(), p[1].span)),
            _ => Err(Diagnostics::with_span(p[1].span, "expected a name after `=`")),
        }
    }
}

// --- `= <type or path reference>` ---------------------------------------------

/// Whether a payload is `= <reference>`: a type or path reference given as a
/// bare identifier or an opaque expression.
pub open spec fn type_ref_ok(p: Seq<Token>) -> bool {
    p.len() == 2 && p[0].kind is Eq && (p[1].kind is Ident || p[1].kind is Expr)
}

/// The reference text of a well-formed `= <reference>` payload.
pub open spec fn type_ref_value(p: Seq<Token>) -> Seq<char> {
    match p[1].kind {
        TokenKind::Ident(s) => s@,
        TokenKind::Expr(s) => s@,
        _ => Seq::empty(),
    }
}

/// The span an ill-formed `= <reference>` payload is reported at.
pub open spec fn type_ref_err_span(p: Seq<Token>, attr: Span) -> Span {
    if p.len() == 0 {
        attr
    } else if !(p[0].kind is Eq) {
        p[0].span
    } else if p.len() == 1 {
        p[0].span
    } else if !(p[1].kind is Ident || p[1].kind is Expr) {
        p[1].span
    } else {
        p[2].span
    }
}

/// Parses a `= <type or path reference>` payload; the reference text is
/// carried through opaquely.
pub fn parse_next_type_ref(p: &Vec<Token>, attr: &Ident) -> (r: Result<String, Diagnostics>)
    ensures
        r is Ok <==> type_ref_ok(p@),
        r matches Ok(s) ==> s@ == type_ref_value(p@),
        r matches Err(e) ==> e.span == type_ref_err_span(p@, attr.span),
{
    if p.len() == 0 {
        Err(Diagnostics::with_span(attr.span, "expected `= <type or path reference>`"))
    } else if !matches!(&p[0].kind, TokenKind::Eq) {
        Err(Diagnostics::with_span(p[0].span, "expected `=`"))
    } else if p.len() == 1 {
        Err(Diagnostics::with_span(p[0].span, "expected a reference after `=`"))
    } else if p.len() > 2 {
        Err(Diagnostics::with_span(
            if matches!(&p[1].kind, TokenKind::Ident(_)) || matches!(&p[1].kind, TokenKind::Expr(_)) {
                p[2].span
            } else {
                p[1].span
            },
            "unexpected token in the reference payload",
        ))
    } else {
        match &p[1].kind {
            TokenKind::Ident(s) => Ok(s.clone()),
            TokenKind::Expr(s) => Ok(s.clone()),
            _ => Err(Diagnostics::with_span(p[1].span, "expected a reference after `=`")),
        }
    }
}

// --- parenthesized comma-separated lists ------------------------------------

/// Whether a payload is one parenthesized group: `( ... )`.
pub open spec fn paren_ok(p: Seq<Token>) -> bool {
    p.len() >= 2 && p[0].kind is LParen && p[p.len() - 1].kind is RParen
}

/// The tokens between the outer parentheses.
pub open spec fn paren_inner(p: Seq<Token>) -> Seq<Token> {
    p.subrange(1, p.len() - 1)
}

/// Whether the tokens of a list body alternate between an accepted item and a
/// comma, starting with an item; a trailing comma is accepted.
pub open spec fn alternates(c: Seq<Token>, item: spec_fn(Token) -> bool) -> bool {
    forall|i: int|
        0 <= i < c.len() ==> (if i % 2 == 0 {
            item(#[trigger] c[i])
        } else {
            c[i].kind is Comma
        })
}

/// How many items a well-formed alternating list body of `n` tokens holds.
pub open spec fn alt_count(n: int) -> int {
    (n + 1) / 2
}

/// Parses a parenthesized, comma-separated list of literal-or-expression
/// values; the empty list is legal.
pub fn parse_value_list(p: &Vec<Token>, attr: &Ident) -> (r: Result<Vec<AnyValue>, Diagnostics>)
    ensures
        r is Ok <==> paren_ok(p@) && alternates(paren_inner(p@), |t: Token| is_value_token(t)),
        r matches Ok(v) ==> {
            &&& v@.len() == alt_count(paren_inner(p@).len() as int)
            &&& forall|i: int|
                0 <= i < v@.len() ==> any_value_matches(paren_inner(p@)[2 * i], #[trigger] v@[i])
        },
{
    if p.len() < 2 || !matches!(&p[0].kind, TokenKind::LParen)
        || !matches!(&p[p.len() - 1].kind, TokenKind::RParen) {
        let sp = if p.len() == 0 {
            attr.span
        } else if !matches!(&p[0].kind, TokenKind::LParen) {
            p[0].span
        } else {
            p[p.len() - 1].span
        };
        return Err(Diagnostics::with_span(sp, "expected a parenthesized list"));
    }
    let m = p.len() - 2;
    let mut out: Vec<AnyValue> = Vec::new();
    let mut j: usize = 0;
    while j < m
        invariant
            m == p@.len() - 2,
            p@.len() >= 2,
            j <= m,
            forall|k: int|
                0 <= k < j ==> (if k % 2 == 0 {
                    is_value_token(#[trigger] paren_inner(p@)[k])
                } else {
                    paren_inner(p@)[k].kind is Comma
                }),
            out@.len() == alt_count(j as int),
            forall|i: int|
                0 <= i < out@.len() ==> any_value_matches(paren_inner(p@)[2 * i], #[trigger] out@[i]),
        decreases m - j,
    {
        proof {
            assert(paren_inner(p@)[j as int] == p@[j + 1]);
        }
        if j % 2 == 0 {
            match token_any_value(&p[j + 1]) {
                Some(v) => {
                    out.push(v);
                },
                None => {
                    return Err(Diagnostics::with_span(
                        p[j + 1].span,
                        "expected a literal or an expression in the list",
                    ));
                },
            }
        } else {
            if !matches!(&p[j + 1].kind, TokenKind::Comma) {
                return Err(Diagnostics::with_span(p[j + 1].span, "expected `,` between list items"));
            }
        }
        j += 1;
    }
    Ok(out)
}

/// Parses a parenthesized, comma-separated list of string literals; the empty
/// list is legal.
pub fn parse_punctuated_within_parenthesis(p: &Vec<Token>, attr: &Ident) -> (r: Result<
    Vec<String>,
    Diagnostics,
>)
    ensures
        r is Ok <==> paren_ok(p@) && alternates(paren_inner(p@), |t: Token| t.kind is LitStr),
        r matches Ok(v) ==> {
            &&& v@.len() == alt_count(paren_inner(p@).len() as int)
            &&& forall|i: int|
                0 <= i < v@.len() ==> (#[trigger] v@[i])@ == paren_inner(p@)[2 * i].kind->LitStr_0@
        },
{
    if p.len() < 2 || !matches!(&p[0].kind, TokenKind::LParen)
        || !matches!(&p[p.len() - 1].kind, TokenKind::RParen) {
        let sp = if p.len() == 0 {
            attr.span
        } else if !matches!(&p[0].kind, TokenKind::LParen) {
            p[0].span
        } else {
            p[p.len() - 1].span
        };
        return Err(Diagnostics::with_span(sp, "expected a parenthesized list"));
    }
    let m = p.len() - 2;
    let mut out: Vec<String> = Vec::new();
    let mut j: usize = 0;
    while j < m
        invariant
            m == p@.len() - 2,
            p@.len() >= 2,
            j <= m,
            forall|k: int|
                0 <= k < j ==> (if k % 2 == 0 {
                    (#[trigger] paren_inner(p@)[k]).kind is LitStr
                } else {
                    paren_inner(p@)[k].kind is Comma
                }),
            out@.len() == alt_count(j as int),
            forall|i: int|
                0 <= i < out@.len() ==> (#[trigger] out@[i])@ == paren_inner(p@)[2 * i].kind->LitStr_0@,
        decreases m - j,
    {
        proof {
            assert(paren_inner(p@)[j as int] == p@[j + 1]);
        }
        if j % 2 == 0 {
            match &p[j + 1].kind {
                TokenKind::LitStr(s) => {
                    out.push(s.clone());
                },
                _ => {
                    return Err(Diagnostics::with_span(
                        p[j + 1].span,
                        "expected a string literal in the list",
                    ));
                },
            }
        } else {
            if !matches!(&p[j + 1].kind, TokenKind::Comma) {
                return Err(Diagnostics::with_span(p[j + 1].span, "expected `,` between list items"));
            }
        }
        j += 1;
    }
    Ok(out)
}

} // verus!
