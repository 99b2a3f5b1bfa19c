//! The directive registry and the merge of one item's directives.
//!
//! [`Feature`] is the tagged union over every directive kind; each variant
//! owns its parsed value. Every kind has a fixed canonical name, unique
//! across the registry, used for parse dispatch, duplicate detection and
//! diagnostics. [`parse_directive`] is the front: it dispatches a named
//! payload to the kind's own grammar. [`merge_features`] combines the
//! directives found on one annotated item, rejecting duplicates.

use vstd::prelude::*;
use crate::tokens::{Ident, Span, Token, TokenKind};
use crate::diagnostics::Diagnostics;
use crate::attributes::{
    Example, Examples, XmlAttr, Format, WriteOnly, ReadOnly, Title, Nullable, Rename,
    RenameAll, Style, ParameterIn, AllowReserved, Explode, ValueType, Inline, IntoParamsNames,
    SchemaWith, Description, Deprecated, As, AdditionalProperties, Required, ContentEncoding,
    ContentMediaType, TypeShape,
};
use crate::parse_utils::{
    flag_ok, flag_value, str_ok, str_value, value_ok, any_value_matches, enum_payload_ok,
    enum_payload_name, type_ref_ok, type_ref_value, str_or_expr_ok, str_or_expr_matches, paren_ok,
    paren_inner, alternates, alt_count, is_value_token,
};
use crate::xml::{model, xml_payload, XmlModel};
use crate::rename::rule_of;
use crate::parameter::{style_of, parameter_in_of};
use crate::schema_format::format_of;

verus! {

/// The kind of a directive, one per registry entry.
#[derive(Clone, Copy, PartialEq, Eq, Structural, Debug)]
pub enum DirectiveKind {
    Default,
    Example,
    Examples,
    XmlAttr,
    Format,
    WriteOnly,
    ReadOnly,
    Title,
    Nullable,
    Rename,
    RenameAll,
    Style,
    ParameterIn,
    AllowReserved,
    Explode,
    ValueType,
    Inline,
    IntoParamsNames,
    SchemaWith,
    Description,
    Deprecated,
    As,
    AdditionalProperties,
    Required,
    ContentEncoding,
    ContentMediaType,
}

/// One parsed directive of any kind.
#[derive(Clone, Debug)]
pub enum Feature {
    Default(crate::attributes::Default),
    Example(Example),
    Examples(Examples),
    XmlAttr(XmlAttr),
    Format(Format),
    WriteOnly(WriteOnly),
    ReadOnly(ReadOnly),
    Title(Title),
    Nullable(Nullable),
    Rename(Rename),
    RenameAll(RenameAll),
    Style(Style),
    ParameterIn(ParameterIn),
    AllowReserved(AllowReserved),
    Explode(Explode),
    ValueType(ValueType),
    Inline(Inline),
    IntoParamsNames(IntoParamsNames),
    SchemaWith(SchemaWith),
    Description(Description),
    Deprecated(Deprecated),
    As(As),
    AdditionalProperties(AdditionalProperties),
    Required(Required),
    ContentEncoding(ContentEncoding),
    ContentMediaType(ContentMediaType),
}

/// The canonical name of a directive kind.
pub open spec fn spec_name(k: DirectiveKind) -> Seq<char> {
    match k {
        DirectiveKind::Default => "default"@,
        DirectiveKind::Example => "example"@,
        DirectiveKind::Examples => "examples"@,
        DirectiveKind::XmlAttr => "xml"@,
        DirectiveKind::Format => "format"@,
        DirectiveKind::WriteOnly => "write_only"@,
        DirectiveKind::ReadOnly => "read_only"@,
        DirectiveKind::Title => "title"@,
        DirectiveKind::Nullable => "nullable"@,
        DirectiveKind::Rename => "rename"@,
        DirectiveKind::RenameAll => "rename_all"@,
        DirectiveKind::Style => "style"@,
        DirectiveKind::ParameterIn => "parameter_in"@,
        DirectiveKind::AllowReserved => "allow_reserved"@,
        DirectiveKind::Explode => "explode"@,
        DirectiveKind::ValueType => "value_type"@,
        DirectiveKind::Inline => "inline"@,
        DirectiveKind::IntoParamsNames => "names"@,
        DirectiveKind::SchemaWith => "schema_with"@,
        DirectiveKind::Description => "description"@,
        DirectiveKind::Deprecated => "deprecated"@,
        DirectiveKind::As => "as"@,
        DirectiveKind::AdditionalProperties => "additional_properties"@,
        DirectiveKind::Required => "required"@,
        DirectiveKind::ContentEncoding => "content_encoding"@,
        DirectiveKind::ContentMediaType => "content_media_type"@,
    }
}

/// The canonical name of a directive kind, for dispatch and diagnostics.
pub fn canonical_name(k: DirectiveKind) -> (r: &'static str)
    ensures
        r@ == spec_name(k),
{
    match k {
        DirectiveKind::Default => "default",
        DirectiveKind::Example => "example",
        DirectiveKind::Examples => "examples",
        DirectiveKind::XmlAttr => "xml",
        DirectiveKind::Format => "format",
        DirectiveKind::WriteOnly => "write_only",
        DirectiveKind::ReadOnly => "read_only",
        DirectiveKind::Title => "title",
        DirectiveKind::Nullable => "nullable",
        DirectiveKind::Rename => "rename",
        DirectiveKind::RenameAll => "rename_all",
        DirectiveKind::Style => "style",
        DirectiveKind::ParameterIn => "parameter_in",
        DirectiveKind::AllowReserved => "allow_reserved",
        DirectiveKind::Explode => "explode",
        DirectiveKind::ValueType => "value_type",
        DirectiveKind::Inline => "inline",
        DirectiveKind::IntoParamsNames => "names",
        DirectiveKind::SchemaWith => "schema_with",
        DirectiveKind::Description => "description",
        DirectiveKind::Deprecated => "deprecated",
        DirectiveKind::As => "as",
        DirectiveKind::AdditionalProperties => "additional_properties",
        DirectiveKind::Required => "required",
        DirectiveKind::ContentEncoding => "content_encoding",
        DirectiveKind::ContentMediaType => "content_media_type",
    }
}

/// Law: the canonical name used for dispatch is unique across the entire
/// registry; no two directive kinds share a name.
pub proof fn lemma_canonical_names_unique(a: DirectiveKind, b: DirectiveKind)
    requires
        a != b,
    ensures
        spec_name(a) != spec_name(b),
{
    lemma_dispatch_of_canonical_name(a);
    lemma_dispatch_of_canonical_name(b);
}

impl Feature {
    /// The kind of this directive.
    pub open spec fn kind_spec(&self) -> DirectiveKind {
        match self {
            Feature::Default(_) => DirectiveKind::Default,
            Feature::Example(_) => DirectiveKind::Example,
            Feature::Examples(_) => DirectiveKind::Examples,
            Feature::XmlAttr(_) => DirectiveKind::XmlAttr,
            Feature::Format(_) => DirectiveKind::Format,
            Feature::WriteOnly(_) => DirectiveKind::WriteOnly,
            Feature::ReadOnly(_) => DirectiveKind::ReadOnly,
            Feature::Title(_) => DirectiveKind::Title,
            Feature::Nullable(_) => DirectiveKind::Nullable,
            Feature::Rename(_) => DirectiveKind::Rename,
            Feature::RenameAll(_) => DirectiveKind::RenameAll,
            Feature::Style(_) => DirectiveKind::Style,
            Feature::ParameterIn(_) => DirectiveKind::ParameterIn,
            Feature::AllowReserved(_) => DirectiveKind::AllowReserved,
            Feature::Explode(_) => DirectiveKind::Explode,
            Feature::ValueType(_) => DirectiveKind::ValueType,
            Feature::Inline(_) => DirectiveKind::Inline,
            Feature::IntoParamsNames(_) => DirectiveKind::IntoParamsNames,
            Feature::SchemaWith(_) => DirectiveKind::SchemaWith,
            Feature::Description(_) => DirectiveKind::Description,
            Feature::Deprecated(_) => DirectiveKind::Deprecated,
            Feature::As(_) => DirectiveKind::As,
            Feature::AdditionalProperties(_) => DirectiveKind::AdditionalProperties,
            Feature::Required(_) => DirectiveKind::Required,
            Feature::ContentEncoding(_) => DirectiveKind::ContentEncoding,
            Feature::ContentMediaType(_) => DirectiveKind::ContentMediaType,
        }
    }

    /// The kind of this directive.
    pub fn kind(&self) -> (r: DirectiveKind)
        ensures
            r == self.kind_spec(),
    {
        match self {
            Feature::Default(_) => DirectiveKind::Default,
            Feature::Example(_) => DirectiveKind::Example,
            Feature::Examples(_) => DirectiveKind::Examples,
            Feature::XmlAttr(_) => DirectiveKind::XmlAttr,
            Feature::Format(_) => DirectiveKind::Format,
            Feature::WriteOnly(_) => DirectiveKind::WriteOnly,
            Feature::ReadOnly(_) => DirectiveKind::ReadOnly,
            Feature::Title(_) => DirectiveKind::Title,
            Feature::Nullable(_) => DirectiveKind::Nullable,
            Feature::Rename(_) => DirectiveKind::Rename,
            Feature::RenameAll(_) => DirectiveKind::RenameAll,
            Feature::Style(_) => DirectiveKind::Style,
            Feature::ParameterIn(_) => DirectiveKind::ParameterIn,
            Feature::AllowReserved(_) => DirectiveKind::AllowReserved,
            Feature::Explode(_) => DirectiveKind::Explode,
            Feature::ValueType(_) => DirectiveKind::ValueType,
            Feature::Inline(_) => DirectiveKind::Inline,
            Feature::IntoParamsNames(_) => DirectiveKind::IntoParamsNames,
            Feature::SchemaWith(_) => DirectiveKind::SchemaWith,
            Feature::Description(_) => DirectiveKind::Description,
            Feature::Deprecated(_) => DirectiveKind::Deprecated,
            Feature::As(_) => DirectiveKind::As,
            Feature::AdditionalProperties(_) => DirectiveKind::AdditionalProperties,
            Feature::Required(_) => DirectiveKind::Required,
            Feature::ContentEncoding(_) => DirectiveKind::ContentEncoding,
            Feature::ContentMediaType(_) => DirectiveKind::ContentMediaType,
        }
    }

    /// The canonical name of this directive.
    pub fn name(&self) -> (r: &'static str)
        ensures
            r@ == spec_name(self.kind_spec()),
    {
        canonical_name(self.kind())
    }
}

/// The directive kind a name dispatches to, or `None` for an unknown name.
pub open spec fn kind_of_name(n: Seq<char>) -> Option<DirectiveKind> {
    if n == "default"@ {
        Some(DirectiveKind::Default)
    } else if n == "example"@ {
        Some(DirectiveKind::Example)
    } else if n == "examples"@ {
        Some(DirectiveKind::Examples)
    } else if n == "xml"@ {
        Some(DirectiveKind::XmlAttr)
    } else if n == "format"@ {
        Some(DirectiveKind::Format)
    } else if n == "write_only"@ {
        Some(DirectiveKind::WriteOnly)
    } else if n == "read_only"@ {
        Some(DirectiveKind::ReadOnly)
    } else if n == "title"@ {
        Some(DirectiveKind::Title)
    } else if n == "nullable"@ {
        Some(DirectiveKind::Nullable)
    } else if n == "rename"@ {
        Some(DirectiveKind::Rename)
    } else if n == "rename_all"@ {
        Some(DirectiveKind::RenameAll)
    } else if n == "style"@ {
        Some(DirectiveKind::Style)
    } else if n == "parameter_in"@ {
        Some(DirectiveKind::ParameterIn)
    } else if n == "allow_reserved"@ {
        Some(DirectiveKind::AllowReserved)
    } else if n == "explode"@ {
        Some(DirectiveKind::Explode)
    } else if n == "value_type"@ {
        Some(DirectiveKind::ValueType)
    } else if n == "inline"@ {
        Some(DirectiveKind::Inline)
    } else if n == "names"@ {
        Some(DirectiveKind::IntoParamsNames)
    } else if n == "schema_with"@ {
        Some(DirectiveKind::SchemaWith)
    } else if n == "description"@ {
        Some(DirectiveKind::Description)
    } else if n == "deprecated"@ {
        Some(DirectiveKind::Deprecated)
    } else if n == "as"@ {
        Some(DirectiveKind::As)
    } else if n == "additional_properties"@ {
        Some(DirectiveKind::AdditionalProperties)
    } else if n == "required"@ {
        Some(DirectiveKind::Required)
    } else if n == "content_encoding"@ {
        Some(DirectiveKind::ContentEncoding)
    } else if n == "content_media_type"@ {
        Some(DirectiveKind::ContentMediaType)
    } else {
        None
    }
}

/// Whether a directive name is in the registry.
pub open spec fn known_directive(n: Seq<char>) -> bool {
    kind_of_name(n) is Some
}

/// Whether a directive kind's payload grammar accepts a payload.
pub open spec fn directive_ok(k: DirectiveKind, p: Seq<Token>) -> bool {
    match k {
        DirectiveKind::Default => p.len() == 0 || value_ok(p),
        DirectiveKind::Example => value_ok(p),
        DirectiveKind::Examples => paren_ok(p) && alternates(
            paren_inner(p),
            |t: Token| is_value_token(t),
        ),
        DirectiveKind::XmlAttr => xml_payload(p) is Some,
        DirectiveKind::Format => enum_payload_ok(p) && format_of(enum_payload_name(p)) is Some,
        DirectiveKind::WriteOnly => flag_ok(p),
        DirectiveKind::ReadOnly => flag_ok(p),
        DirectiveKind::Title => str_ok(p),
        DirectiveKind::Nullable => flag_ok(p),
        DirectiveKind::Rename => str_ok(p),
        DirectiveKind::RenameAll => str_ok(p) && rule_of(str_value(p)) is Some,
        DirectiveKind::Style => enum_payload_ok(p) && style_of(enum_payload_name(p)) is Some,
        DirectiveKind::ParameterIn => enum_payload_ok(p) && parameter_in_of(
            enum_payload_name(p),
        ) is Some,
        DirectiveKind::AllowReserved => flag_ok(p),
        DirectiveKind::Explode => flag_ok(p),
        DirectiveKind::ValueType => type_ref_ok(p),
        DirectiveKind::Inline => flag_ok(p),
        DirectiveKind::IntoParamsNames => paren_ok(p) && alternates(
            paren_inner(p),
            |t: Token| t.kind is LitStr,
        ),
        DirectiveKind::SchemaWith => type_ref_ok(p),
        DirectiveKind::Description => str_or_expr_ok(p),
        DirectiveKind::Deprecated => flag_ok(p),
        DirectiveKind::As => type_ref_ok(p),
        DirectiveKind::AdditionalProperties => flag_ok(p),
        DirectiveKind::Required => flag_ok(p),
        DirectiveKind::ContentEncoding => str_ok(p),
        DirectiveKind::ContentMediaType => str_ok(p),
    }
}

/// Whether `f` is what parsing a payload under a directive kind yields.
pub open spec fn feature_matches(k: DirectiveKind, p: Seq<Token>, f: Feature) -> bool {
    match k {
        DirectiveKind::Default => f matches Feature::Default(d) && (if p.len() == 0 {
            d.0 is None
        } else {
            d.0 matches Some(v) && any_value_matches(p[1], v)
        }),
        DirectiveKind::Example => f matches Feature::Example(d) && any_value_matches(p[1], d.0),
        DirectiveKind::Examples => f matches Feature::Examples(d) && {
            &&& d.0@.len() == alt_count(paren_inner(p).len() as int)
            &&& forall|i: int|
                0 <= i < d.0@.len() ==> any_value_matches(paren_inner(p)[2 * i], #[trigger] d.0@[i])
        },
        DirectiveKind::XmlAttr => f matches Feature::XmlAttr(d) && Some(model(d.0)) == xml_payload(
            p,
        ),
        DirectiveKind::Format => f matches Feature::Format(d) && Some(d.0) == format_of(
            enum_payload_name(p),
        ),
        DirectiveKind::WriteOnly => f matches Feature::WriteOnly(d) && d.0 == flag_value(p),
        DirectiveKind::ReadOnly => f matches Feature::ReadOnly(d) && d.0 == flag_value(p),
        DirectiveKind::Title => f matches Feature::Title(d) && d.0@ == str_value(p),
        DirectiveKind::Nullable => f matches Feature::Nullable(d) && d.0 == flag_value(p),
        DirectiveKind::Rename => f matches Feature::Rename(d) && d.0@ == str_value(p),
        DirectiveKind::RenameAll => f matches Feature::RenameAll(d) && Some(d.0) == rule_of(
            str_value(p),
        ),
        DirectiveKind::Style => f matches Feature::Style(d) && Some(d.0) == style_of(
            enum_payload_name(p),
        ),
        DirectiveKind::ParameterIn => f matches Feature::ParameterIn(d) && Some(d.0)
            == parameter_in_of(enum_payload_name(p)),
        DirectiveKind::AllowReserved => f matches Feature::AllowReserved(d) && d.0 == flag_value(p),
        DirectiveKind::Explode => f matches Feature::Explode(d) && d.0 == flag_value(p),
        DirectiveKind::ValueType => f matches Feature::ValueType(d) && d.0@ == type_ref_value(p),
        DirectiveKind::Inline => f matches Feature::Inline(d) && d.0 == flag_value(p),
        DirectiveKind::IntoParamsNames => f matches Feature::IntoParamsNames(d) && {
            &&& d.0@.len() == alt_count(paren_inner(p).len() as int)
            &&& forall|i: int|
                0 <= i < d.0@.len() ==> (#[trigger] d.0@[i])@ == paren_inner(p)[2 * i].kind->LitStr_0@
        },
        DirectiveKind::SchemaWith => f matches Feature::SchemaWith(d) && d.0@ == type_ref_value(p),
        DirectiveKind::Description => f matches Feature::Description(d) && str_or_expr_matches(
            p[1],
            d.0,
        ),
        DirectiveKind::Deprecated => f matches Feature::Deprecated(d) && d.0 == flag_value(p),
        DirectiveKind::As => f matches Feature::As(d) && d.0@ == type_ref_value(p),
        DirectiveKind::AdditionalProperties => f matches Feature::AdditionalProperties(d) && d.0
            == flag_value(p),
        DirectiveKind::Required => f matches Feature::Required(d) && d.0 == flag_value(p),
        DirectiveKind::ContentEncoding => f matches Feature::ContentEncoding(d) && d.0@ == str_value(
            p,
        ),
        DirectiveKind::ContentMediaType => f matches Feature::ContentMediaType(d) && d.0@
            == str_value(p),
    }
}

/// The directive front: dispatches a named payload to the kind's own grammar
/// and produces the parsed directive, or a diagnostic. An unknown directive
/// name is an error at the name's span.
pub fn parse_directive(name: &Ident, payload: &Vec<Token>) -> (r: Result<Feature, Diagnostics>)
    ensures
        r is Ok <==> (kind_of_name(name.name@) matches Some(k) && directive_ok(k, payload@)),
        r matches Ok(f) ==> (kind_of_name(name.name@) matches Some(k) && feature_matches(
            k,
            payload@,
            f,
        ) && f.kind_spec() == k),
        !known_directive(name.name@) ==> (r matches Err(e) && e.span == name.span),
{
    let n = &name.name;
    if *n == "default".to_owned() {
        match crate::attributes::Default::parse(payload, name) {
            Ok(d) => Ok(Feature::Default(d)),
            Err(e) => Err(e),
        }
    } else if *n == "example".to_owned() {
        match Example::parse(payload, name) {
            Ok(d) => Ok(Feature::Example(d)),
            Err(e) => Err(e),
        }
    } else if *n == "examples".to_owned() {
        match Examples::parse(payload, name) {
            Ok(d) => Ok(Feature::Examples(d)),
            Err(e) => Err(e),
        }
    } else if *n == "xml".to_owned() {
        match XmlAttr::parse(payload, name) {
            Ok(d) => Ok(Feature::XmlAttr(d)),
            Err(e) => Err(e),
        }
    } else if *n == "format".to_owned() {
        match Format::parse(payload, name) {
            Ok(d) => Ok(Feature::Format(d)),
            Err(e) => Err(e),
        }
    } else if *n == "write_only".to_owned() {
        match WriteOnly::parse(payload, name) {
            Ok(d) => Ok(Feature::WriteOnly(d)),
            Err(e) => Err(e),
        }
    } else if *n == "read_only".to_owned() {
        match ReadOnly::parse(payload, name) {
            Ok(d) => Ok(Feature::ReadOnly(d)),
            Err(e) => Err(e),
        }
    } else if *n == "title".to_owned() {
        match Title::parse(payload, name) {
            Ok(d) => Ok(Feature::Title(d)),
            Err(e) => Err(e),
        }
    } else if *n == "nullable".to_owned() {
        match Nullable::parse(payload, name) {
            Ok(d) => Ok(Feature::Nullable(d)),
            Err(e) => Err(e),
        }
    } else if *n == "rename".to_owned() {
        match Rename::parse(payload, name) {
            Ok(d) => Ok(Feature::Rename(d)),
            Err(e) => Err(e),
        }
    } else if *n == "rename_all".to_owned() {
        match RenameAll::parse(payload, name) {
            Ok(d) => Ok(Feature::RenameAll(d)),
            Err(e) => Err(e),
        }
    } else if *n == "style".to_owned() {
        match Style::parse(payload, name) {
            Ok(d) => Ok(Feature::Style(d)),
            Err(e) => Err(e),
        }
    } else if *n == "parameter_in".to_owned() {
        match ParameterIn::parse(payload, name) {
            Ok(d) => Ok(Feature::ParameterIn(d)),
            Err(e) => Err(e),
        }
    } else if *n == "allow_reserved".to_owned() {
        match AllowReserved::parse(payload, name) {
            Ok(d) => Ok(Feature::AllowReserved(d)),
            Err(e) => Err(e),
        }
    } else if *n == "explode".to_owned() {
        match Explode::parse(payload, name) {
            Ok(d) => Ok(Feature::Explode(d)),
            Err(e) => Err(e),
        }
    } else if *n == "value_type".to_owned() {
        match ValueType::parse(payload, name) {
            Ok(d) => Ok(Feature::ValueType(d)),
            Err(e) => Err(e),
        }
    } else if *n == "inline".to_owned() {
        match Inline::parse(payload, name) {
            Ok(d) => Ok(Feature::Inline(d)),
            Err(e) => Err(e),
        }
    } else if *n == "names".to_owned() {
        match IntoParamsNames::parse(payload, name) {
            Ok(d) => Ok(Feature::IntoParamsNames(d)),
            Err(e) => Err(e),
        }
    } else if *n == "schema_with".to_owned() {
        match SchemaWith::parse(payload, name) {
            Ok(d) => Ok(Feature::SchemaWith(d)),
            Err(e) => Err(e),
        }
    } else if *n == "description".to_owned() {
        match Description::parse(payload, name) {
            Ok(d) => Ok(Feature::Description(d)),
            Err(e) => Err(e),
        }
    } else if *n == "deprecated".to_owned() {
        match Deprecated::parse(payload, name) {
            Ok(d) => Ok(Feature::Deprecated(d)),
            Err(e) => Err(e),
        }
    } else if *n == "as".to_owned() {
        match As::parse(payload, name) {
            Ok(d) => Ok(Feature::As(d)),
            Err(e) => Err(e),
        }
    } else if *n == "additional_properties".to_owned() {
        match AdditionalProperties::parse(payload, name) {
            Ok(d) => Ok(Feature::AdditionalProperties(d)),
            Err(e) => Err(e),
        }
    } else if *n == "required".to_owned() {
        match Required::parse(payload, name) {
            Ok(d) => Ok(Feature::Required(d)),
            Err(e) => Err(e),
        }
    } else if *n == "content_encoding".to_owned() {
        match ContentEncoding::parse(payload, name) {
            Ok(d) => Ok(Feature::ContentEncoding(d)),
            Err(e) => Err(e),
        }
    } else if *n == "content_media_type".to_owned() {
        match ContentMediaType::parse(payload, name) {
            Ok(d) => Ok(Feature::ContentMediaType(d)),
            Err(e) => Err(e),
        }
    } else {
        Err(Diagnostics::with_span(name.span, "unknown directive"))
    }
}

/// Law: dispatch by canonical name is exact; every kind's canonical name
/// dispatches back to that kind.
pub proof fn lemma_dispatch_of_canonical_name(k: DirectiveKind)
    ensures
        kind_of_name(spec_name(k)) == Some(k),
{
    reveal_strlit("default");
    reveal_strlit("example");
    reveal_strlit("examples");
    reveal_strlit("xml");
    reveal_strlit("format");
    reveal_strlit("write_only");
    reveal_strlit("read_only");
    reveal_strlit("title");
    reveal_strlit("nullable");
    reveal_strlit("rename");
    reveal_strlit("rename_all");
    reveal_strlit("style");
    reveal_strlit("parameter_in");
    reveal_strlit("allow_reserved");
    reveal_strlit("explode");
    reveal_strlit("value_type");
    reveal_strlit("inline");
    reveal_strlit("names");
    reveal_strlit("schema_with");
    reveal_strlit("description");
    reveal_strlit("deprecated");
    reveal_strlit("as");
    reveal_strlit("additional_properties");
    reveal_strlit("required");
    reveal_strlit("content_encoding");
    reveal_strlit("content_media_type");
    assert(("default"@).len() == 7);
    assert(("example"@).len() == 7);
    assert(("examples"@).len() == 8);
    assert(("xml"@).len() == 3);
    assert(("format"@).len() == 6);
    assert(("write_only"@).len() == 10);
    assert(("read_only"@).len() == 9);
    assert(("title"@).len() == 5);
    assert(("nullable"@).len() == 8);
    assert(("rename"@).len() == 6);
    assert(("rename_all"@).len() == 10);
    assert(("style"@).len() == 5);
    assert(("parameter_in"@).len() == 12);
    assert(("allow_reserved"@).len() == 14);
    assert(("explode"@).len() == 7);
    assert(("value_type"@).len() == 10);
    assert(("inline"@).len() == 6);
    assert(("names"@).len() == 5);
    assert(("schema_with"@).len() == 11);
    assert(("description"@).len() == 11);
    assert(("deprecated"@).len() == 10);
    assert(("as"@).len() == 2);
    assert(("additional_properties"@).len() == 21);
    assert(("required"@).len() == 8);
    assert(("content_encoding"@).len() == 16);
    assert(("content_media_type"@).len() == 18);
    match k {
        DirectiveKind::Default => assert(kind_of_name("default"@) == Some(DirectiveKind::Default)),
        DirectiveKind::Example => {
            assert(("example"@)[0] != ("default"@)[0]);
            assert(kind_of_name("example"@) == Some(DirectiveKind::Example));
        },
        DirectiveKind::Examples => assert(kind_of_name("examples"@) == Some(DirectiveKind::Examples)),
        DirectiveKind::XmlAttr => assert(kind_of_name("xml"@) == Some(DirectiveKind::XmlAttr)),
        DirectiveKind::Format => assert(kind_of_name("format"@) == Some(DirectiveKind::Format)),
        DirectiveKind::WriteOnly => assert(kind_of_name("write_only"@) == Some(DirectiveKind::WriteOnly)),
        DirectiveKind::ReadOnly => assert(kind_of_name("read_only"@) == Some(DirectiveKind::ReadOnly)),
        DirectiveKind::Title => assert(kind_of_name("title"@) == Some(DirectiveKind::Title)),
        DirectiveKind::Nullable => {
            assert(("nullable"@)[0] != ("examples"@)[0]);
            assert(kind_of_name("nullable"@) == Some(DirectiveKind::Nullable));
        },
        DirectiveKind::Rename => {
            assert(("rename"@)[0] != ("format"@)[0]);
            assert(kind_of_name("rename"@) == Some(DirectiveKind::Rename));
        },
        DirectiveKind::RenameAll => {
            assert(("rename_all"@)[0] != ("write_only"@)[0]);
            assert(kind_of_name("rename_all"@) == Some(DirectiveKind::RenameAll));
        },
        DirectiveKind::Style => {
            assert(("style"@)[0] != ("title"@)[0]);
            assert(kind_of_name("style"@) == Some(DirectiveKind::Style));
        },
        DirectiveKind::ParameterIn => assert(kind_of_name("parameter_in"@) == Some(DirectiveKind::ParameterIn)),
        DirectiveKind::AllowReserved => assert(kind_of_name("allow_reserved"@) == Some(DirectiveKind::AllowReserved)),
        DirectiveKind::Explode => {
            assert(("explode"@)[0] != ("default"@)[0]);
            assert(("explode"@)[2] != ("example"@)[2]);
            assert(kind_of_name("explode"@) == Some(DirectiveKind::Explode));
        },
        DirectiveKind::ValueType => {
            assert(("value_type"@)[0] != ("write_only"@)[0]);
            assert(("value_type"@)[0] != ("rename_all"@)[0]);
            assert(kind_of_name("value_type"@) == Some(DirectiveKind::ValueType));
        },
        DirectiveKind::Inline => {
            assert(("inline"@)[0] != ("format"@)[0]);
            assert(("inline"@)[0] != ("rename"@)[0]);
            assert(kind_of_name("inline"@) == Some(DirectiveKind::Inline));
        },
        DirectiveKind::IntoParamsNames => {
            assert(("names"@)[0] != ("title"@)[0]);
            assert(("names"@)[0] != ("style"@)[0]);
            assert(kind_of_name("names"@) == Some(DirectiveKind::IntoParamsNames));
        },
        DirectiveKind::SchemaWith => assert(kind_of_name("schema_with"@) == Some(DirectiveKind::SchemaWith)),
        DirectiveKind::Description => {
            assert(("description"@)[0] != ("schema_with"@)[0]);
            assert(kind_of_name("description"@) == Some(DirectiveKind::Description));
        },
        DirectiveKind::Deprecated => {
            assert(("deprecated"@)[0] != ("write_only"@)[0]);
            assert(("deprecated"@)[0] != ("rename_all"@)[0]);
            assert(("deprecated"@)[0] != ("value_type"@)[0]);
            assert(kind_of_name("deprecated"@) == Some(DirectiveKind::Deprecated));
        },
        DirectiveKind::As => assert(kind_of_name("as"@) == Some(DirectiveKind::As)),
        DirectiveKind::AdditionalProperties => assert(kind_of_name("additional_properties"@) == Some(DirectiveKind::AdditionalProperties)),
        DirectiveKind::Required => {
            assert(("required"@)[0] != ("examples"@)[0]);
            assert(("required"@)[0] != ("nullable"@)[0]);
            assert(kind_of_name("required"@) == Some(DirectiveKind::Required));
        },
        DirectiveKind::ContentEncoding => assert(kind_of_name("content_encoding"@) == Some(DirectiveKind::ContentEncoding)),
        DirectiveKind::ContentMediaType => assert(kind_of_name("content_media_type"@) == Some(DirectiveKind::ContentMediaType)),
    }
}

/// One directive together with the span of its occurrence on the annotated
/// item.
#[derive(Clone, Debug)]
pub struct SpannedFeature {
    pub feature: Feature,
    pub span: Span,
}

/// Whether no two directives of a sequence share a canonical name.
pub open spec fn distinct_kinds(s: Seq<SpannedFeature>) -> bool {
    forall|i: int, j: int|
        0 <= i < j < s.len() ==> (#[trigger] s[i].feature.kind_spec()) != (
        #[trigger] s[j].feature.kind_spec())
}

/// The merge and conflict resolver: combines the directives parsed for one
/// annotated item, in source order, into one feature set. A duplicate
/// directive is a conflict error that carries both occurrences' spans.
pub fn merge_features(items: Vec<SpannedFeature>) -> (r: Result<Vec<SpannedFeature>, Diagnostics>)
    ensures
        r is Ok <==> distinct_kinds(items@),
        r matches Ok(v) ==> v == items,
        r matches Err(e) ==> exists|i: int, j: int|
            {
                &&& 0 <= i < j < items@.len()
                &&& (#[trigger] items@[i].feature.kind_spec()) == (
                #[trigger] items@[j].feature.kind_spec())
                &&& e.span == items@[j].span
                &&& e.related == Some(items@[i].span)
            },
{
    let n = items.len();
    let mut j: usize = 1;
    while j < n
        invariant
            n == items@.len(),
            1 <= j || n == 0,
            forall|a: int, b: int|
                0 <= a < b < j && b < n ==> (#[trigger] items@[a].feature.kind_spec()) != (
                #[trigger] items@[b].feature.kind_spec()),
        decreases n - j,
    {
        let mut i: usize = 0;
        while i < j
            invariant
                n == items@.len(),
                0 <= i <= j < n,
                forall|a: int|
                    0 <= a < i ==> (#[trigger] items@[a].feature.kind_spec())
                        != items@[j as int].feature.kind_spec(),
            decreases j - i,
        {
            if items[i].feature.kind() == items[j].feature.kind() {
                return Err(
                    Diagnostics::with_span(
                        items[j].span,
                        "the same directive may appear only once per item",
                    ).related(items[i].span),
                );
            }
            i += 1;
        }
        j += 1;
    }
    Ok(items)
}

/// Whether a directive kind is a bare flag: its payload may be left off, and
/// then means `true`.
pub open spec fn is_bare_flag(k: DirectiveKind) -> bool {
    ||| k is WriteOnly
    ||| k is ReadOnly
    ||| k is Nullable
    ||| k is AllowReserved
    ||| k is Explode
    ||| k is Deprecated
    ||| k is AdditionalProperties
    ||| k is Required
    ||| k is Inline
}

/// Law: for every bare-flag directive, parsing with no payload yields the
/// same result as parsing `= true`: both are accepted, and a directive value
/// matches the one exactly when it matches the other.
pub proof fn lemma_bare_flag_no_payload_is_true(
    k: DirectiveKind,
    empty: Seq<Token>,
    eq_true: Seq<Token>,
)
    requires
        is_bare_flag(k),
        empty.len() == 0,
        eq_true.len() == 2,
        eq_true[0].kind is Eq,
        eq_true[1].kind == TokenKind::LitBool(true),
    ensures
        directive_ok(k, empty),
        directive_ok(k, eq_true),
        forall|f: Feature| feature_matches(k, empty, f) <==> feature_matches(k, eq_true, f),
{
    assert(flag_value(empty) == flag_value(eq_true));
}


/// The wrapper-level part of a split XML attribute structure: the `wrapped`
/// flag and the wrapper name.
pub open spec fn wrapper_part(m: XmlModel) -> XmlModel {
    XmlModel {
        name: None,
        namespace: None,
        prefix: None,
        is_wrapped: m.is_wrapped,
        wrap_name: m.wrap_name,
    }
}

/// The item-level part of a split XML attribute structure: everything the
/// wrapper did not consume.
pub open spec fn item_part(m: XmlModel) -> XmlModel {
    XmlModel { is_wrapped: None, wrap_name: None, ..m }
}

/// Whether the directive at `i` is an `xml` directive with `wrapped` set.
pub open spec fn invalid_wrapped_at(s: Seq<SpannedFeature>, i: int) -> bool {
    s[i].feature matches Feature::XmlAttr(x) && model(x.0).is_wrapped is Some
}

/// Whether some directive of `s` has `wrapped` set while the annotated item
/// is not sequence-shaped: the one shape error of specialization.
pub open spec fn has_invalid_wrapped(s: Seq<SpannedFeature>, shape: TypeShape) -> bool {
    !(shape is Sequence) && exists|i: int|
        0 <= i < s.len() && #[trigger] invalid_wrapped_at(s, i)
}

/// Whether `out` is `input` with every `xml` directive specialized for the
/// annotated item's shape: on a sequence-shaped item it is replaced by the
/// wrapper-level and item-level pair, adjacent, at the original's position;
/// on any other shape it passes through unchanged; every other directive is
/// kept as it is, in source order.
pub open spec fn specialized(
    input: Seq<SpannedFeature>,
    shape: TypeShape,
    out: Seq<SpannedFeature>,
) -> bool
    decreases input.len(),
{
    if input.len() == 0 {
        out.len() == 0
    } else {
        match input[0].feature {
            Feature::XmlAttr(x) => {
                if shape is Sequence {
                    &&& out.len() >= 2
                    &&& out[0].feature matches Feature::XmlAttr(w) && model(w.0) == wrapper_part(
                        model(x.0),
                    )
                    &&& out[0].span == input[0].span
                    &&& out[1].feature matches Feature::XmlAttr(v) && model(v.0) == item_part(
                        model(x.0),
                    )
                    &&& out[1].span == input[0].span
                    &&& specialized(input.drop_first(), shape, out.subrange(2, out.len() as int))
                } else {
                    &&& out.len() >= 1
                    &&& out[0].feature matches Feature::XmlAttr(v) && model(v.0) == model(x.0)
                    &&& out[0].span == input[0].span
                    &&& specialized(input.drop_first(), shape, out.drop_first())
                }
            },
            _ => {
                &&& out.len() >= 1
                &&& out[0] == input[0]
                &&& specialized(input.drop_first(), shape, out.drop_first())
            },
        }
    }
}

/// The type-aware specializer over one item's directives: splits each `xml`
/// directive for the item's shape, inserting a directive derived by the split
/// immediately adjacent to the original's position, and hands every other
/// directive through unchanged. On a non-sequence item a directive with
/// `wrapped` set is a validation error at the flag, with a remediation hint.
pub fn specialize_features(items: Vec<SpannedFeature>, shape: TypeShape) -> (r: Result<
    Vec<SpannedFeature>,
    Diagnostics,
>)
    ensures
        r is Ok <==> !has_invalid_wrapped(items@, shape),
        r matches Ok(v) ==> specialized(items@, shape, v@),
        r matches Err(e) ==> e.help is Some && exists|i: int|
            0 <= i < items@.len() && #[trigger] invalid_wrapped_at(items@, i) && (
            items@[i].feature matches Feature::XmlAttr(x) && model(x.0).is_wrapped == Some(e.span)),
    decreases items@.len(),
{
    let ghost items0 = items@;
    let mut items = items;
    if items.len() == 0 {
        return Ok(Vec::new());
    }
    let sf = items.remove(0);
    proof {
        assert(items@ =~= items0.drop_first());
    }
    match sf.feature {
        Feature::XmlAttr(mut x) => {
            let ghost x0 = x;
            match x.split_for_vec(shape) {
                Err(e) => {
                    proof {
                        assert(items0[0].feature == Feature::XmlAttr(x0));
                        assert(model(x0.0).is_wrapped == Some(e.span));
                        assert(invalid_wrapped_at(items0, 0));
                    }
                    Err(e)
                },
                Ok(pair) => {
                    let rest = match specialize_features(items, shape) {
                        Ok(v) => v,
                        Err(e) => {
                            proof {
                                let i = choose|i: int|
                                    0 <= i < items0.drop_first().len() && #[trigger]
                                    invalid_wrapped_at(items0.drop_first(), i) && (
                                    items0.drop_first()[i].feature matches Feature::XmlAttr(x2)
                                        && model(x2.0).is_wrapped == Some(e.span));
                                assert(items0.drop_first()[i] == items0[i + 1]);
                                assert(invalid_wrapped_at(items0, i + 1));
                            }
                            return Err(e);
                        },
                    };
                    let (wrapper, item) = pair;
                    let mut out: Vec<SpannedFeature> = Vec::new();
                    if let Some(w) = wrapper {
                        out.push(SpannedFeature { feature: Feature::XmlAttr(w), span: sf.span });
                    }
                    if let Some(v) = item {
                        out.push(SpannedFeature { feature: Feature::XmlAttr(v), span: sf.span });
                    }
                    let mut rest = rest;
                    let ghost rest0 = rest@;
                    out.append(&mut rest);
                    proof {
                        assert(items0[0].feature == Feature::XmlAttr(x0));
                        if shape is Sequence {
                            assert(out@.subrange(2, out@.len() as int) =~= rest0);
                        } else {
                            assert(out@.drop_first() =~= rest0);
                            assert forall|i: int|
                                0 <= i < items0.len() implies !invalid_wrapped_at(items0, i) by {
                                if i > 0 {
                                    assert(items0.drop_first()[i - 1] == items0[i]);
                                    assert(!invalid_wrapped_at(items0.drop_first(), i - 1));
                                } else {
                                    assert(model(x0.0).is_wrapped is None);
                                }
                            }
                        }
                        assert(specialized(items0, shape, out@));
                    }
                    Ok(out)
                },
            }
        },
        feature => {
            let rest = match specialize_features(items, shape) {
                Ok(v) => v,
                Err(e) => {
                    proof {
                        let i = choose|i: int|
                            0 <= i < items0.drop_first().len() && #[trigger] invalid_wrapped_at(
                                items0.drop_first(),
                                i,
                            ) && (items0.drop_first()[i].feature matches Feature::XmlAttr(x2)
                                && model(x2.0).is_wrapped == Some(e.span));
                        assert(items0.drop_first()[i] == items0[i + 1]);
                        assert(invalid_wrapped_at(items0, i + 1));
                    }
                    return Err(e);
                },
            };
            let mut out: Vec<SpannedFeature> = Vec::new();
            out.push(SpannedFeature { feature, span: sf.span });
            let mut rest = rest;
            let ghost rest0 = rest@;
            out.append(&mut rest);
            proof {
                assert(out@.drop_first() =~= rest0);
                assert(out@[0] == items0[0]);
                if !(shape is Sequence) {
                    assert forall|i: int|
                        0 <= i < items0.len() implies !invalid_wrapped_at(items0, i) by {
                        if i > 0 {
                            assert(items0.drop_first()[i - 1] == items0[i]);
                            assert(!invalid_wrapped_at(items0.drop_first(), i - 1));
                        } else {
                            assert(!(items0[0].feature is XmlAttr));
                        }
                    }
                }
            }
            Ok(out)
        },
    }
}

} // verus!
