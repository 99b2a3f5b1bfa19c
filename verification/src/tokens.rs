//! The token model of directive payloads.
//!
//! The host tokenizer hands this library each directive occurrence as a name
//! plus a flat sequence of payload tokens; every token carries the source
//! span it was written at, so diagnostics can point at the offending text.

use vstd::prelude::*;

verus! {

/// A half-open range of offsets into the annotation source text.
#[derive(Clone, Copy, PartialEq, Eq, Structural, Debug)]
pub struct Span {
    pub lo: usize,
    pub hi: usize,
}

/// A name together with the place it was written.
#[derive(Clone, Debug)]
pub struct Ident {
    pub name: String,
    pub span: Span,
}

/// What one payload token is.
#[derive(Clone, Debug)]
pub enum TokenKind {
    /// `=`
    Eq,
    /// `,`
    Comma,
    /// `(`
    LParen,
    /// `)`
    RParen,
    /// A bare identifier, such as a key name inside a sub-grammar.
    Ident(String),
    /// A string literal, already unquoted.
    LitStr(String),
    /// A boolean literal.
    LitBool(bool),
    /// An integer literal.
    LitInt(u64),
    /// An opaque expression, carried through without interpretation.
    Expr(String),
}

/// One payload token with its source span.
#[derive(Clone, Debug)]
pub struct Token {
    pub kind: TokenKind,
    pub span: Span,
}

} // verus!
