//! The directive registry: one type per directive kind.
//!
//! Each type owns its payload grammar (`parse`), and — where the directive
//! contributes a schema-document value — its emission (`to_tokens`, which
//! appends the value to an output buffer). The `xml` directive additionally
//! owns the type-shape specialization `split_for_vec`.

use vstd::prelude::*;
use crate::tokens::{Ident, Token};
use crate::diagnostics::Diagnostics;
use crate::value::{AnyValue, Member, TriStateRequired, any_model, any_models, clone_any, clone_any_values};
use crate::parse_utils;
use crate::parse_utils::{
    Value, value_model, clone_value, flag_ok, flag_value, flag_err_span, str_ok, str_value,
    str_err_span, value_ok, value_err_span, any_value_matches, enum_payload_ok, enum_payload_name,
    enum_err_span, type_ref_ok, type_ref_value, type_ref_err_span, paren_ok, paren_inner,
    alternates, alt_count, is_value_token,
};
use crate::xml;
use crate::xml::{XmlModel, model, empty_model, xml_payload};
use crate::rename::{RenameRule, rule_of};
use crate::parameter;
use crate::parameter::{ParameterStyle, style_of, parameter_in_of};
use crate::schema_format::{SchemaFormat, format_of};
use crate::emit::{EmittedValue, EmittedValueModel, SchemaType, appended};

verus! {

/// The shape of the annotated item's type, as the type resolver reports it;
/// it drives shape-aware specialization.
#[derive(Clone, Copy, PartialEq, Eq, Structural, Debug)]
pub enum TypeShape {
    Scalar,
    Sequence,
    Mapping,
}

// --- default -----------------------------------------------------------------

/// The `default` directive: an explicit default value, or — without a payload
/// — the annotated item's own default.
#[derive(Clone, Debug)]
pub struct Default(pub Option<AnyValue>);

impl Default {
    /// The directive that takes the default from the annotated type's own
    /// `Default` implementation.
    pub fn new_default_trait(struct_ident: Ident, field_ident: Member) -> (r: Self)
        ensures
            r.0 == Some(AnyValue::DefaultTrait { struct_ident, field: field_ident }),
    {
        Self(Some(AnyValue::new_default_trait(struct_ident, field_ident)))
    }

    /// Parses no payload (derive from the item's own default) or
    /// `= <literal or expression>`.
    pub fn parse(payload: &Vec<Token>, attr: &Ident) -> (r: Result<Self, Diagnostics>)
        ensures
            r is Ok <==> (payload@.len() == 0 || value_ok(payload@)),
            r matches Ok(d) ==> (if payload@.len() == 0 {
                d.0 is None
            } else {
                d.0 matches Some(v) && any_value_matches(payload@[1], v)
            }),
            r matches Err(e) ==> e.span == value_err_span(payload@, attr.span),
    {
        if payload.len() == 0 {
            Ok(Self(None))
        } else {
            match parse_utils::parse_next_any_value(payload, attr) {
                Ok(v) => Ok(Self(Some(v))),
                Err(e) => Err(e),
            }
        }
    }

    /// Emits the optional default value.
    pub fn to_tokens(&self, tokens: &mut Vec<EmittedValue>)
        ensures
            appended(
                old(tokens)@,
                final(tokens)@,
                EmittedValueModel::MaybeValue(
                    match self.0 {
                        Some(v) => Some(any_model(v)),
                        None => None,
                    },
                ),
            ),
    {
        let copy: Option<AnyValue> = match &self.0 {
            Some(v) => Some(clone_any(v)),
            None => None,
        };
        tokens.push(EmittedValue::MaybeValue(copy));
    }
}

// --- example -----------------------------------------------------------------

/// The `example` directive: one example value.
#[derive(Clone, Debug)]
pub struct Example(pub AnyValue);

impl Example {
    /// Parses `= <literal or expression>`.
    pub fn parse(payload: &Vec<Token>, attr: &Ident) -> (r: Result<Self, Diagnostics>)
        ensures
            r is Ok <==> value_ok(payload@),
            r matches Ok(d) ==> any_value_matches(payload@[1], d.0),
            r matches Err(e) ==> e.span == value_err_span(payload@, attr.span),
    {
        match parse_utils::parse_next_any_value(payload, attr) {
            Ok(v) => Ok(Self(v)),
            Err(e) => Err(e),
        }
    }

    /// Emits the example value.
    pub fn to_tokens(&self, tokens: &mut Vec<EmittedValue>)
        ensures
            appended(old(tokens)@, final(tokens)@, EmittedValueModel::Value(any_model(self.0))),
    {
        tokens.push(EmittedValue::Value(clone_any(&self.0)));
    }
}

// --- examples ----------------------------------------------------------------

/// The `examples` directive: a parenthesized list of example values; the
/// empty list is legal and emits nothing.
#[derive(Clone, Debug)]
pub struct Examples(pub Vec<AnyValue>);

impl Examples {
    /// Parses `(<value>, ...)`.
    pub fn parse(payload: &Vec<Token>, attr: &Ident) -> (r: Result<Self, Diagnostics>)
        ensures
            r is Ok <==> paren_ok(payload@) && alternates(
                paren_inner(payload@),
                |t: Token| is_value_token(t),
            ),
            r matches Ok(d) ==> {
                &&& d.0@.len() == alt_count(paren_inner(payload@).len() as int)
                &&& forall|i: int|
                    0 <= i < d.0@.len() ==> any_value_matches(
                        paren_inner(payload@)[2 * i],
                        #[trigger] d.0@[i],
                    )
            },
    {
        match parse_utils::parse_value_list(payload, attr) {
            Ok(vs) => Ok(Self(vs)),
            Err(e) => Err(e),
        }
    }

    /// Emits the example values; an empty list emits nothing.
    pub fn to_tokens(&self, tokens: &mut Vec<EmittedValue>)
        ensures
            self.0@.len() == 0 ==> final(tokens)@ == old(tokens)@,
            self.0@.len() > 0 ==> appended(
                old(tokens)@,
                final(tokens)@,
                EmittedValueModel::Values(any_models(self.0@)),
            ),
    {
        if self.0.len() > 0 {
            tokens.push(EmittedValue::Values(clone_any_values(&self.0)));
        }
    }
}

// --- xml ---------------------------------------------------------------------

/// The `xml` directive: the annotated item's XML attribute structure.
#[derive(Clone, Debug)]
pub struct XmlAttr(pub xml::XmlAttr);

impl XmlAttr {
    /// The directive with nothing set.
    pub fn empty() -> (r: Self)
        ensures
            model(r.0) == empty_model(),
    {
        Self(xml::XmlAttr::empty())
    }

    /// Parses `(<key/value entries>)`.
    pub fn parse(payload: &Vec<Token>, attr: &Ident) -> (r: Result<Self, Diagnostics>)
        ensures
            r is Ok <==> xml_payload(payload@) is Some,
            r matches Ok(d) ==> Some(model(d.0)) == xml_payload(payload@),
    {
        match xml::parse_xml_payload(payload, attr) {
            Ok(x) => Ok(Self(x)),
            Err(e) => Err(e),
        }
    }

    /// Splits the directive for a sequence-shaped item into a wrapper-level
    /// part (the `wrapped` flag and the wrapper name) and an item-level part
    /// (everything else). On a non-sequence item the directive must not have
    /// `wrapped` set; it is handed through unchanged in the item slot. Either
    /// way the directive itself is left empty.
    pub fn split_for_vec(&mut self, shape: TypeShape) -> (r: Result<
        (Option<XmlAttr>, Option<XmlAttr>),
        Diagnostics,
    >)
        ensures
            shape is Sequence ==> {
                &&& r matches Ok(pair)
                &&& pair.0 matches Some(v) && model(v.0) == (XmlModel {
                    name: None,
                    namespace: None,
                    prefix: None,
                    is_wrapped: model(old(self).0).is_wrapped,
                    wrap_name: model(old(self).0).wrap_name,
                })
                &&& pair.1 matches Some(w) && model(w.0) == (XmlModel {
                    is_wrapped: None,
                    wrap_name: None,
                    ..model(old(self).0)
                })
                &&& model(final(self).0) == empty_model()
            },
            !(shape is Sequence) && model(old(self).0).is_wrapped is Some ==> {
                &&& r matches Err(e)
                &&& e.span == model(old(self).0).is_wrapped->0
                &&& e.help is Some
            },
            !(shape is Sequence) && model(old(self).0).is_wrapped is None ==> {
                &&& r matches Ok(pair)
                &&& pair.0 is None
                &&& pair.1 matches Some(w) && model(w.0) == model(old(self).0)
                &&& model(final(self).0) == empty_model()
            },
    {
        if matches!(shape, TypeShape::Sequence) {
            let mut taken = XmlAttr::empty();
            core::mem::swap(self, &mut taken);
            let xml::XmlAttr { name, namespace, prefix, is_wrapped, wrap_name } = taken.0;
            let vec_xml = xml::XmlAttr::with_wrapped(is_wrapped, wrap_name);
            let value_xml = xml::XmlAttr {
                name,
                namespace,
                prefix,
                is_wrapped: None,
                wrap_name: None,
            };
            Ok((Some(XmlAttr(vec_xml)), Some(XmlAttr(value_xml))))
        } else {
            match self.validate_xml(&self.0) {
                Err(e) => Err(e),
                Ok(()) => {
                    let mut taken = XmlAttr::empty();
                    core::mem::swap(self, &mut taken);
                    Ok((None, Some(taken)))
                },
            }
        }
    }

    /// Checks that `wrapped` is not set on a directive attached to a
    /// non-sequence item; the error points at the flag and carries a
    /// remediation hint.
    pub fn validate_xml(&self, xml: &xml::XmlAttr) -> (r: Result<(), Diagnostics>)
        ensures
            r is Ok <==> model(*xml).is_wrapped is None,
            r matches Err(e) ==> {
                &&& e.span == model(*xml).is_wrapped->0
                &&& e.help is Some
            },
    {
        match &xml.is_wrapped {
            Some(wrapped_ident) => Err(
                Diagnostics::with_span(
                    wrapped_ident.span,
                    "cannot use `wrapped` attribute in non slice field type",
                ).help("Try removing `wrapped` attribute or make your field a sequence"),
            ),
            None => Ok(()),
        }
    }

    /// Emits the XML attribute structure.
    pub fn to_tokens(&self, tokens: &mut Vec<EmittedValue>)
        ensures
            appended(old(tokens)@, final(tokens)@, EmittedValueModel::Xml(model(self.0))),
    {
        tokens.push(EmittedValue::Xml(self.0.duplicate()));
    }
}

// --- format ------------------------------------------------------------------

/// The `format` directive: a known schema value format.
#[derive(Clone, Copy, Debug)]
pub struct Format(pub SchemaFormat);

impl Format {
    /// Parses `= <format name>` against the closed format enumeration.
    pub fn parse(payload: &Vec<Token>, attr: &Ident) -> (r: Result<Self, Diagnostics>)
        ensures
            r is Ok <==> enum_payload_ok(payload@) && format_of(enum_payload_name(payload@)) is Some,
            r matches Ok(d) ==> Some(d.0) == format_of(enum_payload_name(payload@)),
            r matches Err(e) ==> e.span == (if enum_payload_ok(payload@) {
                payload@[1].span
            } else {
                enum_err_span(payload@, attr.span)
            }),
    {
        match parse_utils::parse_enum_name(payload, attr) {
            Ok((name, span)) => {
                match SchemaFormat::from_name(&name) {
                    Some(f) => Ok(Self(f)),
                    None => Err(Diagnostics::with_span(span, "unknown format")),
                }
            },
            Err(e) => Err(e),
        }
    }

    /// Emits the format.
    pub fn to_tokens(&self, tokens: &mut Vec<EmittedValue>)
        ensures
            final(tokens)@ == old(tokens)@.push(EmittedValue::Format(self.0)),
    {
        tokens.push(EmittedValue::Format(self.0));
    }
}

// --- bare flags --------------------------------------------------------------

/// The `write_only` directive.
#[derive(Clone, Copy, Debug)]
pub struct WriteOnly(pub bool);

impl WriteOnly {
    /// Parses no payload (`true`) or `= <bool>`.
    pub fn parse(payload: &Vec<Token>, _attr: &Ident) -> (r: Result<Self, Diagnostics>)
        ensures
            r is Ok <==> flag_ok(payload@),
            r matches Ok(d) ==> d.0 == flag_value(payload@),
            r matches Err(e) ==> e.span == flag_err_span(payload@),
    {
        match parse_utils::parse_bool_or_true(payload) {
            Ok(b) => Ok(Self(b)),
            Err(e) => Err(e),
        }
    }

    /// Emits the flag value.
    pub fn to_tokens(&self, tokens: &mut Vec<EmittedValue>)
        ensures
            final(tokens)@ == old(tokens)@.push(EmittedValue::Bool(self.0)),
    {
        tokens.push(EmittedValue::Bool(self.0));
    }
}

/// The `read_only` directive.
#[derive(Clone, Copy, Debug)]
pub struct ReadOnly(pub bool);

impl ReadOnly {
    /// Parses no payload (`true`) or `= <bool>`.
    pub fn parse(payload: &Vec<Token>, _attr: &Ident) -> (r: Result<Self, Diagnostics>)
        ensures
            r is Ok <==> flag_ok(payload@),
            r matches Ok(d) ==> d.0 == flag_value(payload@),
            r matches Err(e) ==> e.span == flag_err_span(payload@),
    {
        match parse_utils::parse_bool_or_true(payload) {
            Ok(b) => Ok(Self(b)),
            Err(e) => Err(e),
        }
    }

    /// Emits the flag value.
    pub fn to_tokens(&self, tokens: &mut Vec<EmittedValue>)
        ensures
            final(tokens)@ == old(tokens)@.push(EmittedValue::Bool(self.0)),
    {
        tokens.push(EmittedValue::Bool(self.0));
    }
}

// --- title -------------------------------------------------------------------

/// The `title` directive: a human-readable title.
#[derive(Clone, Debug)]
pub struct Title(pub String);

impl Title {
    /// Parses `= <string literal>`.
    pub fn parse(payload: &Vec<Token>, attr: &Ident) -> (r: Result<Self, Diagnostics>)
        ensures
            r is Ok <==> str_ok(payload@),
            r matches Ok(d) ==> d.0@ == str_value(payload@),
            r matches Err(e) ==> e.span == str_err_span(payload@, attr.span),
    {
        match parse_utils::parse_next_literal_str(payload, attr) {
            Ok(s) => Ok(Self(s)),
            Err(e) => Err(e),
        }
    }

    /// Emits the title.
    pub fn to_tokens(&self, tokens: &mut Vec<EmittedValue>)
        ensures
            appended(old(tokens)@, final(tokens)@, EmittedValueModel::Str(self.0@)),
    {
        tokens.push(EmittedValue::Str(self.0.clone()));
    }
}

// --- nullable ----------------------------------------------------------------

/// The `nullable` directive.
#[derive(Clone, Copy, Debug)]
pub struct Nullable(pub bool);

impl Nullable {
    /// The directive set to `true`.
    pub fn new() -> (r: Self)
        ensures
            r.0 == true,
    {
        Self(true)
    }

    /// The flag value.
    pub fn value(&self) -> (r: bool)
        ensures
            r == self.0,
    {
        self.0
    }

    /// The schema type the directive contributes to the annotated item's type
    /// list: the null type when set, nothing otherwise.
    pub fn into_schema_type_token_stream(self) -> (r: Option<SchemaType>)
        ensures
            r == (if self.0 {
                Some(SchemaType::Null)
            } else {
                None::<SchemaType>
            }),
    {
        if self.0 {
            Some(SchemaType::Null)
        } else {
            None
        }
    }

    /// Parses no payload (`true`) or `= <bool>`.
    pub fn parse(payload: &Vec<Token>, _attr: &Ident) -> (r: Result<Self, Diagnostics>)
        ensures
            r is Ok <==> flag_ok(payload@),
            r matches Ok(d) ==> d.0 == flag_value(payload@),
            r matches Err(e) ==> e.span == flag_err_span(payload@),
    {
        match parse_utils::parse_bool_or_true(payload) {
            Ok(b) => Ok(Self(b)),
            Err(e) => Err(e),
        }
    }

    /// Emits the flag value.
    pub fn to_tokens(&self, tokens: &mut Vec<EmittedValue>)
        ensures
            final(tokens)@ == old(tokens)@.push(EmittedValue::Bool(self.0)),
    {
        tokens.push(EmittedValue::Bool(self.0));
    }
}

// --- rename / rename_all -----------------------------------------------------

/// The `rename` directive: the item's explicit external name; it takes
/// precedence over a scope-level `rename_all` at consumption time.
#[derive(Clone, Debug)]
pub struct Rename(pub String);

impl Rename {
    /// The new name.
    pub fn into_value(self) -> (r: String)
        ensures
            r == self.0,
    {
        self.0
    }

    /// Parses `= <string literal>`.
    pub fn parse(payload: &Vec<Token>, attr: &Ident) -> (r: Result<Self, Diagnostics>)
        ensures
            r is Ok <==> str_ok(payload@),
            r matches Ok(d) ==> d.0@ == str_value(payload@),
            r matches Err(e) ==> e.span == str_err_span(payload@, attr.span),
    {
        match parse_utils::parse_next_literal_str(payload, attr) {
            Ok(s) => Ok(Self(s)),
            Err(e) => Err(e),
        }
    }

    /// Emits the new name for naming resolution.
    pub fn to_tokens(&self, tokens: &mut Vec<EmittedValue>)
        ensures
            appended(old(tokens)@, final(tokens)@, EmittedValueModel::Str(self.0@)),
    {
        tokens.push(EmittedValue::Str(self.0.clone()));
    }
}

/// The `rename_all` directive: a naming-convention transform applied to every
/// item in scope that has no explicit `rename`.
#[derive(Clone, Copy, Debug)]
pub struct RenameAll(pub RenameRule);

impl RenameAll {
    /// The parsed rule.
    pub fn as_rename_rule(&self) -> (r: &RenameRule)
        ensures
            *r == self.0,
    {
        &self.0
    }

    /// Parses `= <string literal>` against the closed set of rule names; an
    /// unknown rule name is an error at the literal's span.
    pub fn parse(payload: &Vec<Token>, attr: &Ident) -> (r: Result<Self, Diagnostics>)
        ensures
            r is Ok <==> str_ok(payload@) && rule_of(str_value(payload@)) is Some,
            r matches Ok(d) ==> Some(d.0) == rule_of(str_value(payload@)),
            r matches Err(e) ==> e.span == (if str_ok(payload@) {
                payload@[1].span
            } else {
                str_err_span(payload@, attr.span)
            }),
    {
        match parse_utils::parse_next_literal_str(payload, attr) {
            Ok(s) => {
                match RenameRule::from_name(&s) {
                    Some(rule) => Ok(Self(rule)),
                    None => Err(Diagnostics::with_span(payload[1].span, "unknown rename rule")),
                }
            },
            Err(e) => Err(e),
        }
    }
}

// --- style / parameter_in ------------------------------------------------------

/// The `style` directive: the parameter's serialization style.
#[derive(Clone, Copy, Debug)]
pub struct Style(pub ParameterStyle);

impl Style {
    /// Parses `= <style name>` against the closed style enumeration; an
    /// unknown value is an error at the value's span.
    pub fn parse(payload: &Vec<Token>, attr: &Ident) -> (r: Result<Self, Diagnostics>)
        ensures
            r is Ok <==> enum_payload_ok(payload@) && style_of(enum_payload_name(payload@)) is Some,
            r matches Ok(d) ==> Some(d.0) == style_of(enum_payload_name(payload@)),
            r matches Err(e) ==> e.span == (if enum_payload_ok(payload@) {
                payload@[1].span
            } else {
                enum_err_span(payload@, attr.span)
            }),
    {
        match parse_utils::parse_enum_name(payload, attr) {
            Ok((name, span)) => {
                match ParameterStyle::from_name(&name) {
                    Some(s) => Ok(Self(s)),
                    None => Err(Diagnostics::with_span(span, "unknown parameter style")),
                }
            },
            Err(e) => Err(e),
        }
    }

    /// Emits the style.
    pub fn to_tokens(&self, tokens: &mut Vec<EmittedValue>)
        ensures
            final(tokens)@ == old(tokens)@.push(EmittedValue::Style(self.0)),
    {
        tokens.push(EmittedValue::Style(self.0));
    }
}

impl core::convert::From<ParameterStyle> for Style {
    fn from(style: ParameterStyle) -> Self {
        Self(style)
    }
}

impl vstd::std_specs::convert::FromSpecImpl<ParameterStyle> for Style {
    open spec fn obeys_from_spec() -> bool {
        true
    }

    open spec fn from_spec(v: ParameterStyle) -> Style {
        Style(v)
    }
}

/// The `parameter_in` directive: where the parameter is carried.
#[derive(Clone, Copy, Debug)]
pub struct ParameterIn(pub parameter::ParameterIn);

impl ParameterIn {
    /// Parses `= <placement name>` against the closed placement enumeration;
    /// an unknown value is an error at the value's span.
    pub fn parse(payload: &Vec<Token>, attr: &Ident) -> (r: Result<Self, Diagnostics>)
        ensures
            r is Ok <==> enum_payload_ok(payload@) && parameter_in_of(enum_payload_name(payload@)) is Some,
            r matches Ok(d) ==> Some(d.0) == parameter_in_of(enum_payload_name(payload@)),
            r matches Err(e) ==> e.span == (if enum_payload_ok(payload@) {
                payload@[1].span
            } else {
                enum_err_span(payload@, attr.span)
            }),
    {
        match parse_utils::parse_enum_name(payload, attr) {
            Ok((name, span)) => {
                match parameter::ParameterIn::from_name(&name) {
                    Some(p) => Ok(Self(p)),
                    None => Err(Diagnostics::with_span(span, "unknown parameter placement")),
                }
            },
            Err(e) => Err(e),
        }
    }

    /// Emits the placement.
    pub fn to_tokens(&self, tokens: &mut Vec<EmittedValue>)
        ensures
            final(tokens)@ == old(tokens)@.push(EmittedValue::In(self.0)),
    {
        tokens.push(EmittedValue::In(self.0));
    }
}

// --- allow_reserved / explode --------------------------------------------------

/// The `allow_reserved` directive.
#[derive(Clone, Copy, Debug)]
pub struct AllowReserved(pub bool);

impl AllowReserved {
    /// Parses no payload (`true`) or `= <bool>`.
    pub fn parse(payload: &Vec<Token>, _attr: &Ident) -> (r: Result<Self, Diagnostics>)
        ensures
            r is Ok <==> flag_ok(payload@),
            r matches Ok(d) ==> d.0 == flag_value(payload@),
            r matches Err(e) ==> e.span == flag_err_span(payload@),
    {
        match parse_utils::parse_bool_or_true(payload) {
            Ok(b) => Ok(Self(b)),
            Err(e) => Err(e),
        }
    }

    /// Emits the flag value.
    pub fn to_tokens(&self, tokens: &mut Vec<EmittedValue>)
        ensures
            final(tokens)@ == old(tokens)@.push(EmittedValue::Bool(self.0)),
    {
        tokens.push(EmittedValue::Bool(self.0));
    }
}

/// The `explode` directive.
#[derive(Clone, Copy, Debug)]
pub struct Explode(pub bool);

impl Explode {
    /// Parses no payload (`true`) or `= <bool>`.
    pub fn parse(payload: &Vec<Token>, _attr: &Ident) -> (r: Result<Self, Diagnostics>)
        ensures
            r is Ok <==> flag_ok(payload@),
            r matches Ok(d) ==> d.0 == flag_value(payload@),
            r matches Err(e) ==> e.span == flag_err_span(payload@),
    {
        match parse_utils::parse_bool_or_true(payload) {
            Ok(b) => Ok(Self(b)),
            Err(e) => Err(e),
        }
    }

    /// Emits the flag value.
    pub fn to_tokens(&self, tokens: &mut Vec<EmittedValue>)
        ensures
            final(tokens)@ == old(tokens)@.push(EmittedValue::Bool(self.0)),
    {
        tokens.push(EmittedValue::Bool(self.0));
    }
}

// --- value_type / inline --------------------------------------------------------

/// The `value_type` directive: a type reference that overrides the annotated
/// item's own type during type resolution; it emits no document field.
#[derive(Clone, Debug)]
pub struct ValueType(pub String);

impl ValueType {
    /// Parses `= <type reference>`; the reference is carried through
    /// opaquely.
    pub fn parse(payload: &Vec<Token>, attr: &Ident) -> (r: Result<Self, Diagnostics>)
        ensures
            r is Ok <==> type_ref_ok(payload@),
            r matches Ok(d) ==> d.0@ == type_ref_value(payload@),
            r matches Err(e) ==> e.span == type_ref_err_span(payload@, attr.span),
    {
        match parse_utils::parse_next_type_ref(payload, attr) {
            Ok(s) => Ok(Self(s)),
            Err(e) => Err(e),
        }
    }
}

/// The `inline` directive: whether the referenced schema is inlined; it
/// steers the inlining decision only and emits no document field.
#[derive(Clone, Copy, Debug)]
pub struct Inline(pub bool);

impl Inline {
    /// Parses no payload (`true`) or `= <bool>`.
    pub fn parse(payload: &Vec<Token>, _attr: &Ident) -> (r: Result<Self, Diagnostics>)
        ensures
            r is Ok <==> flag_ok(payload@),
            r matches Ok(d) ==> d.0 == flag_value(payload@),
            r matches Err(e) ==> e.span == flag_err_span(payload@),
    {
        match parse_utils::parse_bool_or_true(payload) {
            Ok(b) => Ok(Self(b)),
            Err(e) => Err(e),
        }
    }
}

impl core::convert::From<bool> for Inline {
    fn from(value: bool) -> Self {
        Inline(value)
    }
}

impl vstd::std_specs::convert::FromSpecImpl<bool> for Inline {
    open spec fn obeys_from_spec() -> bool {
        true
    }

    open spec fn from_spec(v: bool) -> Inline {
        Inline(v)
    }
}

// --- names ----------------------------------------------------------------------

/// The `names` directive: names for the unnamed fields of a tuple-like item.
#[derive(Clone, Debug)]
pub struct IntoParamsNames(pub Vec<String>);

impl IntoParamsNames {
    /// The given names.
    pub fn into_values(self) -> (r: Vec<String>)
        ensures
            r == self.0,
    {
        self.0
    }

    /// Parses `(<string literal>, ...)`.
    pub fn parse(payload: &Vec<Token>, attr: &Ident) -> (r: Result<Self, Diagnostics>)
        ensures
            r is Ok <==> paren_ok(payload@) && alternates(
                paren_inner(payload@),
                |t: Token| t.kind is LitStr,
            ),
            r matches Ok(d) ==> {
                &&& d.0@.len() == alt_count(paren_inner(payload@).len() as int)
                &&& forall|i: int|
                    0 <= i < d.0@.len() ==> (#[trigger] d.0@[i])@ == paren_inner(
                        payload@,
                    )[2 * i].kind->LitStr_0@
            },
    {
        match parse_utils::parse_punctuated_within_parenthesis(payload, attr) {
            Ok(vs) => Ok(Self(vs)),
            Err(e) => Err(e),
        }
    }
}

// --- schema_with ------------------------------------------------------------------

/// The `schema_with` directive: a path the consuming document calls at
/// assembly time to produce the schema in place of this item's own.
#[derive(Clone, Debug)]
pub struct SchemaWith(pub String);

impl SchemaWith {
    /// Parses `= <path reference>`; the path is carried through opaquely.
    pub fn parse(payload: &Vec<Token>, attr: &Ident) -> (r: Result<Self, Diagnostics>)
        ensures
            r is Ok <==> type_ref_ok(payload@),
            r matches Ok(d) ==> d.0@ == type_ref_value(payload@),
            r matches Err(e) ==> e.span == type_ref_err_span(payload@, attr.span),
    {
        match parse_utils::parse_next_type_ref(payload, attr) {
            Ok(s) => Ok(Self(s)),
            Err(e) => Err(e),
        }
    }

    /// Emits the call of the given path.
    pub fn to_tokens(&self, tokens: &mut Vec<EmittedValue>)
        ensures
            appended(old(tokens)@, final(tokens)@, EmittedValueModel::Call(self.0@)),
    {
        tokens.push(EmittedValue::Call(self.0.clone()));
    }
}

// --- description -------------------------------------------------------------------

/// The `description` directive: a description given as a string literal or an
/// expression.
#[derive(Clone, Debug)]
pub struct Description(pub Value);

impl Description {
    /// Parses `= <string literal or expression>`.
    pub fn parse(payload: &Vec<Token>, attr: &Ident) -> (r: Result<Self, Diagnostics>)
        ensures
            r is Ok <==> parse_utils::str_or_expr_ok(payload@),
            r matches Ok(d) ==> parse_utils::str_or_expr_matches(payload@[1], d.0),
            r matches Err(e) ==> e.span == parse_utils::str_or_expr_err_span(payload@, attr.span),
    {
        match parse_utils::parse_next_literal_str_or_expr(payload, attr) {
            Ok(v) => Ok(Self(v)),
            Err(e) => Err(e),
        }
    }

    /// Emits the description.
    pub fn to_tokens(&self, tokens: &mut Vec<EmittedValue>)
        ensures
            appended(
                old(tokens)@,
                final(tokens)@,
                EmittedValueModel::StrOrExpr(value_model(self.0)),
            ),
    {
        tokens.push(EmittedValue::StrOrExpr(clone_value(&self.0)));
    }
}

impl core::convert::From<String> for Description {
    fn from(value: String) -> Self {
        Self(Value::LitStr(value))
    }
}

impl vstd::std_specs::convert::FromSpecImpl<String> for Description {
    open spec fn obeys_from_spec() -> bool {
        true
    }

    open spec fn from_spec(v: String) -> Description {
        Description(Value::LitStr(v))
    }
}

// --- deprecated --------------------------------------------------------------------

/// The `deprecated` directive, parsed from this annotation syntax only.
#[derive(Clone, Copy, Debug)]
pub struct Deprecated(pub bool);

impl Deprecated {
    /// Parses no payload (`true`) or `= <bool>`.
    pub fn parse(payload: &Vec<Token>, _attr: &Ident) -> (r: Result<Self, Diagnostics>)
        ensures
            r is Ok <==> flag_ok(payload@),
            r matches Ok(d) ==> d.0 == flag_value(payload@),
            r matches Err(e) ==> e.span == flag_err_span(payload@),
    {
        match parse_utils::parse_bool_or_true(payload) {
            Ok(b) => Ok(Self(b)),
            Err(e) => Err(e),
        }
    }

    /// Emits the flag value.
    pub fn to_tokens(&self, tokens: &mut Vec<EmittedValue>)
        ensures
            final(tokens)@ == old(tokens)@.push(EmittedValue::Bool(self.0)),
    {
        tokens.push(EmittedValue::Bool(self.0));
    }
}

// --- as ------------------------------------------------------------------------------

/// The `as` directive: the path under which the item appears in the document;
/// it overrides the emitted type name and emits no document field itself.
#[derive(Clone, Debug)]
pub struct As(pub String);

impl As {
    /// Parses `= <type path>`; the path is carried through opaquely.
    pub fn parse(payload: &Vec<Token>, attr: &Ident) -> (r: Result<Self, Diagnostics>)
        ensures
            r is Ok <==> type_ref_ok(payload@),
            r matches Ok(d) ==> d.0@ == type_ref_value(payload@),
            r matches Err(e) ==> e.span == type_ref_err_span(payload@, attr.span),
    {
        match parse_utils::parse_next_type_ref(payload, attr) {
            Ok(s) => Ok(Self(s)),
            Err(e) => Err(e),
        }
    }
}

// --- additional_properties -----------------------------------------------------------

/// The `additional_properties` directive.
#[derive(Clone, Copy, Debug)]
pub struct AdditionalProperties(pub bool);

impl AdditionalProperties {
    /// Parses no payload (`true`) or `= <bool>`.
    pub fn parse(payload: &Vec<Token>, _attr: &Ident) -> (r: Result<Self, Diagnostics>)
        ensures
            r is Ok <==> flag_ok(payload@),
            r matches Ok(d) ==> d.0 == flag_value(payload@),
            r matches Err(e) ==> e.span == flag_err_span(payload@),
    {
        match parse_utils::parse_bool_or_true(payload) {
            Ok(b) => Ok(Self(b)),
            Err(e) => Err(e),
        }
    }

    /// Emits the free-form flag value.
    pub fn to_tokens(&self, tokens: &mut Vec<EmittedValue>)
        ensures
            final(tokens)@ == old(tokens)@.push(EmittedValue::FreeForm(self.0)),
    {
        tokens.push(EmittedValue::FreeForm(self.0));
    }
}

// --- required -------------------------------------------------------------------------

/// The `required` directive.
#[derive(Clone, Copy, Debug)]
pub struct Required(pub bool);

impl Required {
    /// Whether the item is required.
    pub fn is_true(&self) -> (r: bool)
        ensures
            r == self.0,
    {
        self.0
    }

    /// Parses no payload (`true`) or `= <bool>`.
    pub fn parse(payload: &Vec<Token>, _attr: &Ident) -> (r: Result<Self, Diagnostics>)
        ensures
            r is Ok <==> flag_ok(payload@),
            r matches Ok(d) ==> d.0 == flag_value(payload@),
            r matches Err(e) ==> e.span == flag_err_span(payload@),
    {
        match parse_utils::parse_bool_or_true(payload) {
            Ok(b) => Ok(Self(b)),
            Err(e) => Err(e),
        }
    }

    /// Emits the flag value.
    pub fn to_tokens(&self, tokens: &mut Vec<EmittedValue>)
        ensures
            final(tokens)@ == old(tokens)@.push(EmittedValue::Bool(self.0)),
    {
        tokens.push(EmittedValue::Bool(self.0));
    }
}

impl core::convert::From<TriStateRequired> for Required {
    fn from(value: TriStateRequired) -> Self {
        if value == TriStateRequired::True {
            Self(true)
        } else {
            Self(false)
        }
    }
}

impl vstd::std_specs::convert::FromSpecImpl<TriStateRequired> for Required {
    open spec fn obeys_from_spec() -> bool {
        true
    }

    open spec fn from_spec(v: TriStateRequired) -> Required {
        Required(v is True)
    }
}

impl core::convert::From<bool> for Required {
    fn from(value: bool) -> Self {
        Self(value)
    }
}

impl vstd::std_specs::convert::FromSpecImpl<bool> for Required {
    open spec fn obeys_from_spec() -> bool {
        true
    }

    open spec fn from_spec(v: bool) -> Required {
        Required(v)
    }
}

// --- content_encoding / content_media_type ----------------------------------------------

/// The `content_encoding` directive: the encoding of string content, such as
/// `base64`.
#[derive(Clone, Debug)]
pub struct ContentEncoding(pub String);

impl ContentEncoding {
    /// Parses `= <string literal>`.
    pub fn parse(payload: &Vec<Token>, attr: &Ident) -> (r: Result<Self, Diagnostics>)
        ensures
            r is Ok <==> str_ok(payload@),
            r matches Ok(d) ==> d.0@ == str_value(payload@),
            r matches Err(e) ==> e.span == str_err_span(payload@, attr.span),
    {
        match parse_utils::parse_next_literal_str(payload, attr) {
            Ok(s) => Ok(Self(s)),
            Err(e) => Err(e),
        }
    }

    /// Emits the encoding name.
    pub fn to_tokens(&self, tokens: &mut Vec<EmittedValue>)
        ensures
            appended(old(tokens)@, final(tokens)@, EmittedValueModel::Str(self.0@)),
    {
        tokens.push(EmittedValue::Str(self.0.clone()));
    }
}

/// The `content_media_type` directive: the media type of string content.
#[derive(Clone, Debug)]
pub struct ContentMediaType(pub String);

impl ContentMediaType {
    /// Parses `= <string literal>`.
    pub fn parse(payload: &Vec<Token>, attr: &Ident) -> (r: Result<Self, Diagnostics>)
        ensures
            r is Ok <==> str_ok(payload@),
            r matches Ok(d) ==> d.0@ == str_value(payload@),
            r matches Err(e) ==> e.span == str_err_span(payload@, attr.span),
    {
        match parse_utils::parse_next_literal_str(payload, attr) {
            Ok(s) => Ok(Self(s)),
            Err(e) => Err(e),
        }
    }

    /// Emits the media type.
    pub fn to_tokens(&self, tokens: &mut Vec<EmittedValue>)
        ensures
            appended(old(tokens)@, final(tokens)@, EmittedValueModel::Str(self.0@)),
    {
        tokens.push(EmittedValue::Str(self.0.clone()));
    }
}

} // verus!
