//! The schema-document values that directives emit.
//!
//! The emitter is a deterministic, stateless mapping from a validated
//! directive to at most one schema-document field; directives that only steer
//! type resolution or naming emit nothing.

use vstd::prelude::*;
use crate::value::{AnyValue, AnyValueModel, any_model, any_models, clone_any, clone_any_values};
use crate::parse_utils::{Value, ValueModel, value_model, clone_value};
use crate::xml::{XmlAttr, XmlModel, model};
use crate::schema_format::SchemaFormat;
use crate::parameter::{ParameterIn, ParameterStyle};
use crate::features::Feature;

verus! {

/// A schema type name contributed to the annotated item's type list.
#[derive(Clone, Copy, PartialEq, Eq, Structural, Debug)]
pub enum SchemaType {
    /// The null type, contributed by `nullable`.
    Null,
}

/// One emitted schema-document value.
#[derive(Clone, Debug)]
pub enum EmittedValue {
    /// A plain boolean field value.
    Bool(bool),
    /// A plain string field value.
    Str(String),
    /// A literal-or-expression value.
    Value(AnyValue),
    /// An optional value; `None` asks the consuming document to derive the
    /// value from the annotated item itself.
    MaybeValue(Option<AnyValue>),
    /// A sequence of literal-or-expression values.
    Values(Vec<AnyValue>),
    /// An XML attribute structure.
    Xml(XmlAttr),
    /// A schema value format.
    Format(SchemaFormat),
    /// A parameter serialization style.
    Style(ParameterStyle),
    /// A parameter placement.
    In(ParameterIn),
    /// A string or an expression evaluated by the consuming document.
    StrOrExpr(Value),
    /// A path the consuming document calls at assembly time to produce the
    /// schema.
    Call(String),
    /// The free-form `additional_properties` value.
    FreeForm(bool),
}

/// One schema-document field: its name and its value.
#[derive(Clone, Debug)]
pub struct Field {
    pub name: String,
    pub value: EmittedValue,
}

/// The mathematical content of an [`EmittedValue`].
pub enum EmittedValueModel {
    Bool(bool),
    Str(Seq<char>),
    Value(AnyValueModel),
    MaybeValue(Option<AnyValueModel>),
    Values(Seq<AnyValueModel>),
    Xml(XmlModel),
    Format(SchemaFormat),
    Style(ParameterStyle),
    In(ParameterIn),
    StrOrExpr(ValueModel),
    Call(Seq<char>),
    FreeForm(bool),
}

/// The model of an [`EmittedValue`].
pub open spec fn emitted_model(v: EmittedValue) -> EmittedValueModel {
    match v {
        EmittedValue::Bool(b) => EmittedValueModel::Bool(b),
        EmittedValue::Str(s) => EmittedValueModel::Str(s@),
        EmittedValue::Value(a) => EmittedValueModel::Value(any_model(a)),
        EmittedValue::MaybeValue(o) => EmittedValueModel::MaybeValue(
            match o {
                Some(a) => Some(any_model(a)),
                None => None,
            },
        ),
        EmittedValue::Values(vs) => EmittedValueModel::Values(any_models(vs@)),
        EmittedValue::Xml(x) => EmittedValueModel::Xml(model(x)),
        EmittedValue::Format(f) => EmittedValueModel::Format(f),
        EmittedValue::Style(s) => EmittedValueModel::Style(s),
        EmittedValue::In(i) => EmittedValueModel::In(i),
        EmittedValue::StrOrExpr(v) => EmittedValueModel::StrOrExpr(value_model(v)),
        EmittedValue::Call(p) => EmittedValueModel::Call(p@),
        EmittedValue::FreeForm(b) => EmittedValueModel::FreeForm(b),
    }
}

/// Whether `new` is `old` with exactly the value `m` appended.
pub open spec fn appended(old: Seq<EmittedValue>, new: Seq<EmittedValue>, m: EmittedValueModel) -> bool {
    &&& new.len() == old.len() + 1
    &&& (forall|i: int| 0 <= i < old.len() ==> new[i] == old[i])
    &&& emitted_model(new[new.len() - 1]) == m
}

/// The field name and value model a directive emits, or `None` for a
/// directive that only steers type resolution or naming.
pub open spec fn emitted_field(f: Feature) -> Option<(Seq<char>, EmittedValueModel)> {
    match f {
        Feature::Default(d) => Some(
            (
                "default"@,
                EmittedValueModel::MaybeValue(
                    match d.0 {
                        Some(v) => Some(any_model(v)),
                        None => None,
                    },
                ),
            ),
        ),
        Feature::Example(d) => Some(("example"@, EmittedValueModel::Value(any_model(d.0)))),
        Feature::Examples(d) => if d.0@.len() == 0 {
            None
        } else {
            Some(("examples"@, EmittedValueModel::Values(any_models(d.0@))))
        },
        Feature::XmlAttr(d) => Some(("xml"@, EmittedValueModel::Xml(model(d.0)))),
        Feature::Format(d) => Some(("format"@, EmittedValueModel::Format(d.0))),
        Feature::WriteOnly(d) => Some(("write_only"@, EmittedValueModel::Bool(d.0))),
        Feature::ReadOnly(d) => Some(("read_only"@, EmittedValueModel::Bool(d.0))),
        Feature::Title(d) => Some(("title"@, EmittedValueModel::Str(d.0@))),
        Feature::Nullable(d) => Some(("nullable"@, EmittedValueModel::Bool(d.0))),
        Feature::Rename(_) => None,
        Feature::RenameAll(_) => None,
        Feature::Style(d) => Some(("style"@, EmittedValueModel::Style(d.0))),
        Feature::ParameterIn(d) => Some(("in"@, EmittedValueModel::In(d.0))),
        Feature::AllowReserved(d) => Some(("allow_reserved"@, EmittedValueModel::Bool(d.0))),
        Feature::Explode(d) => Some(("explode"@, EmittedValueModel::Bool(d.0))),
        Feature::ValueType(_) => None,
        Feature::Inline(_) => None,
        Feature::IntoParamsNames(_) => None,
        Feature::SchemaWith(_) => None,
        Feature::Description(d) => Some(
            ("description"@, EmittedValueModel::StrOrExpr(value_model(d.0))),
        ),
        Feature::Deprecated(d) => Some(("deprecated"@, EmittedValueModel::Bool(d.0))),
        Feature::As(_) => None,
        Feature::AdditionalProperties(d) => Some(
            ("additional_properties"@, EmittedValueModel::FreeForm(d.0)),
        ),
        Feature::Required(d) => Some(("required"@, EmittedValueModel::Bool(d.0))),
        Feature::ContentEncoding(d) => Some(("contentEncoding"@, EmittedValueModel::Str(d.0@))),
        Feature::ContentMediaType(d) => Some(("contentMediaType"@, EmittedValueModel::Str(d.0@))),
    }
}

/// The emitter: the deterministic, stateless mapping from one validated
/// directive to at most one schema-document field. Directives that only steer
/// type resolution or naming emit nothing, and an empty `examples` list emits
/// no field.
pub fn emit_field(f: &Feature) -> (r: Option<Field>)
    ensures
        r is Some <==> emitted_field(*f) is Some,
        r matches Some(fld) ==> (emitted_field(*f) matches Some(exp) && fld.name@ == exp.0
            && emitted_model(fld.value) == exp.1),
{
    match f {
        Feature::Default(d) => {
            let copy: Option<AnyValue> = match &d.0 {
                Some(v) => Some(clone_any(v)),
                None => None,
            };
            Some(Field { name: "default".to_owned(), value: EmittedValue::MaybeValue(copy) })
        },
        Feature::Example(d) => Some(
            Field { name: "example".to_owned(), value: EmittedValue::Value(clone_any(&d.0)) },
        ),
        Feature::Examples(d) => {
            if d.0.len() == 0 {
                None
            } else {
                Some(
                    Field {
                        name: "examples".to_owned(),
                        value: EmittedValue::Values(clone_any_values(&d.0)),
                    },
                )
            }
        },
        Feature::XmlAttr(d) => Some(
            Field { name: "xml".to_owned(), value: EmittedValue::Xml(d.0.duplicate()) },
        ),
        Feature::Format(d) => Some(
            Field { name: "format".to_owned(), value: EmittedValue::Format(d.0) },
        ),
        Feature::WriteOnly(d) => Some(
            Field { name: "write_only".to_owned(), value: EmittedValue::Bool(d.0) },
        ),
        Feature::ReadOnly(d) => Some(
            Field { name: "read_only".to_owned(), value: EmittedValue::Bool(d.0) },
        ),
        Feature::Title(d) => Some(
            Field { name: "title".to_owned(), value: EmittedValue::Str(d.0.clone()) },
        ),
        Feature::Nullable(d) => Some(
            Field { name: "nullable".to_owned(), value: EmittedValue::Bool(d.0) },
        ),
        Feature::Rename(_) => None,
        Feature::RenameAll(_) => None,
        Feature::Style(d) => Some(
            Field { name: "style".to_owned(), value: EmittedValue::Style(d.0) },
        ),
        Feature::ParameterIn(d) => Some(
            Field { name: "in".to_owned(), value: EmittedValue::In(d.0) },
        ),
        Feature::AllowReserved(d) => Some(
            Field { name: "allow_reserved".to_owned(), value: EmittedValue::Bool(d.0) },
        ),
        Feature::Explode(d) => Some(
            Field { name: "explode".to_owned(), value: EmittedValue::Bool(d.0) },
        ),
        Feature::ValueType(_) => None,
        Feature::Inline(_) => None,
        Feature::IntoParamsNames(_) => None,
        Feature::SchemaWith(_) => None,
        Feature::Description(d) => Some(
            Field {
                name: "description".to_owned(),
                value: EmittedValue::StrOrExpr(clone_value(&d.0)),
            },
        ),
        Feature::Deprecated(d) => Some(
            Field { name: "deprecated".to_owned(), value: EmittedValue::Bool(d.0) },
        ),
        Feature::As(_) => None,
        Feature::AdditionalProperties(d) => Some(
            Field {
                name: "additional_properties".to_owned(),
                value: EmittedValue::FreeForm(d.0),
            },
        ),
        Feature::Required(d) => Some(
            Field { name: "required".to_owned(), value: EmittedValue::Bool(d.0) },
        ),
        Feature::ContentEncoding(d) => Some(
            Field { name: "contentEncoding".to_owned(), value: EmittedValue::Str(d.0.clone()) },
        ),
        Feature::ContentMediaType(d) => Some(
            Field { name: "contentMediaType".to_owned(), value: EmittedValue::Str(d.0.clone()) },
        ),
    }
}

} // verus!
