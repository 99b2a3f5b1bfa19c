//! Literal-or-expression values carried by directives.
//!
//! An [`AnyValue`] is either a literal constant or an opaque expression that
//! the consuming document evaluates at a later stage; this layer never
//! interprets it, it only threads it through to the emitter.

use vstd::prelude::*;
use crate::tokens::{Ident, Span};

verus! {

/// A reference to a field of the annotated type: by name, or by position for
/// tuple-like types.
#[derive(Clone, Debug)]
pub enum Member {
    Named(String),
    Unnamed(usize),
}

/// A literal constant or an opaque expression reference.
#[derive(Clone, Debug)]
pub enum AnyValue {
    /// A string literal, already unquoted.
    LitStr(String),
    /// A boolean literal.
    LitBool(bool),
    /// An integer literal.
    LitInt(u64),
    /// An expression the consuming document evaluates later; the text is an
    /// opaque handle.
    Expr(String),
    /// "Take the annotated type's own default for this field", resolved by
    /// the consuming document.
    DefaultTrait { struct_ident: Ident, field: Member },
}

impl AnyValue {
    /// The value that asks the consuming document to take the field's value
    /// from the annotated type's own default.
    pub fn new_default_trait(struct_ident: Ident, field: Member) -> (r: AnyValue)
        ensures
            r == (AnyValue::DefaultTrait { struct_ident, field }),
    {
        AnyValue::DefaultTrait { struct_ident, field }
    }
}

/// The tri-state requiredness of the broader system; this layer narrows it to
/// a boolean `required` directive.
#[derive(Clone, Copy, PartialEq, Eq, Structural, Debug)]
pub enum TriStateRequired {
    True,
    False,
    Inferred,
}

/// The mathematical content of a [`Member`].
pub enum MemberModel {
    Named(Seq<char>),
    Unnamed(usize),
}

/// The mathematical content of an [`AnyValue`]: its strings as character
/// sequences.
pub enum AnyValueModel {
    LitStr(Seq<char>),
    LitBool(bool),
    LitInt(u64),
    Expr(Seq<char>),
    DefaultTrait { struct_ident: Seq<char>, struct_span: Span, field: MemberModel },
}

/// The model of a [`Member`].
pub open spec fn member_model(m: Member) -> MemberModel {
    match m {
        Member::Named(s) => MemberModel::Named(s@),
        Member::Unnamed(i) => MemberModel::Unnamed(i),
    }
}

/// The model of an [`AnyValue`].
pub open spec fn any_model(v: AnyValue) -> AnyValueModel {
    match v {
        AnyValue::LitStr(s) => AnyValueModel::LitStr(s@),
        AnyValue::LitBool(b) => AnyValueModel::LitBool(b),
        AnyValue::LitInt(n) => AnyValueModel::LitInt(n),
        AnyValue::Expr(e) => AnyValueModel::Expr(e@),
        AnyValue::DefaultTrait { struct_ident, field } => AnyValueModel::DefaultTrait {
            struct_ident: struct_ident.name@,
            struct_span: struct_ident.span,
            field: member_model(field),
        },
    }
}

/// The models of a sequence of values.
pub open spec fn any_models(s: Seq<AnyValue>) -> Seq<AnyValueModel> {
    s.map_values(|v: AnyValue| any_model(v))
}

/// A copy of a [`Member`] with the same content.
pub fn clone_member(m: &Member) -> (r: Member)
    ensures
        member_model(r) == member_model(*m),
{
    match m {
        Member::Named(s) => Member::Named(s.clone()),
        Member::Unnamed(i) => Member::Unnamed(*i),
    }
}

/// A copy of an [`AnyValue`] with the same content.
pub fn clone_any(v: &AnyValue) -> (r: AnyValue)
    ensures
        any_model(r) == any_model(*v),
{
    match v {
        AnyValue::LitStr(s) => AnyValue::LitStr(s.clone()),
        AnyValue::LitBool(b) => AnyValue::LitBool(*b),
        AnyValue::LitInt(n) => AnyValue::LitInt(*n),
        AnyValue::Expr(e) => AnyValue::Expr(e.clone()),
        AnyValue::DefaultTrait { struct_ident, field } => AnyValue::DefaultTrait {
            struct_ident: Ident { name: struct_ident.name.clone(), span: struct_ident.span },
            field: clone_member(field),
        },
    }
}

/// A copy of a sequence of values with the same content.
pub fn clone_any_values(s: &Vec<AnyValue>) -> (r: Vec<AnyValue>)
    ensures
        any_models(r@) == any_models(s@),
{
    let mut out: Vec<AnyValue> = Vec::new();
    let mut i: usize = 0;
    while i < s.len()
        invariant
            i <= s@.len(),
            out@.len() == i,
            forall|k: int| 0 <= k < i ==> any_model(#[trigger] out@[k]) == any_model(s@[k]),
        decreases s@.len() - i,
    {
        out.push(clone_any(&s[i]));
        i += 1;
    }
    proof {
        assert(any_models(out@) =~= any_models(s@));
    }
    out
}

} // verus!
