use schema_directives::tokens::{Ident, Span, Token, TokenKind};
use schema_directives::value::{AnyValue, Member, TriStateRequired};
use schema_directives::attributes::{
    AdditionalProperties, As, Deprecated, Examples, Explode, Format, Inline, IntoParamsNames,
    Nullable, ParameterIn, Rename, RenameAll, Required, SchemaWith, Style, Title, TypeShape,
    ValueType, WriteOnly, XmlAttr,
};
use schema_directives::features::{
    canonical_name, merge_features, parse_directive, specialize_features, DirectiveKind, Feature,
    SpannedFeature,
};
use schema_directives::emit::{emit_field, EmittedValue, SchemaType};
use schema_directives::rename::RenameRule;
use schema_directives::parameter::{ParameterIn as ParameterInKind, ParameterStyle};
use schema_directives::schema_format::SchemaFormat;
use schema_directives::parse_utils::Value;
use schema_directives::xml;

fn sp(n: usize) -> Span {
    Span { lo: n, hi: n + 1 }
}

fn tok(n: usize, kind: TokenKind) -> Token {
    Token { kind, span: sp(n) }
}

fn ident(name: &str) -> Ident {
    Ident { name: name.to_string(), span: sp(0) }
}

fn eq_tok(n: usize) -> Token {
    tok(n, TokenKind::Eq)
}

fn chars(s: &str) -> Vec<char> {
    s.chars().collect()
}

// --- bare flags: no payload behaves as `= true` -------------------------------

#[test]
fn bare_flag_no_payload_is_true() {
    let empty: Vec<Token> = vec![];
    let eq_true = vec![eq_tok(1), tok(2, TokenKind::LitBool(true))];
    let names = [
        "write_only",
        "read_only",
        "nullable",
        "allow_reserved",
        "explode",
        "deprecated",
        "additional_properties",
        "required",
        "inline",
    ];
    for name in names {
        let a = parse_directive(&ident(name), &empty).unwrap();
        let b = parse_directive(&ident(name), &eq_true).unwrap();
        let fa = emit_field(&a);
        let fb = emit_field(&b);
        match (fa, fb) {
            (Some(x), Some(y)) => {
                assert_eq!(x.name, y.name);
                assert!(matches!(x.value, EmittedValue::Bool(true) | EmittedValue::FreeForm(true)));
                assert!(matches!(y.value, EmittedValue::Bool(true) | EmittedValue::FreeForm(true)));
            },
            (None, None) => {
                // `inline` emits no document field; both parses agree on that.
                assert_eq!(name, "inline");
            },
            _ => panic!("no payload and `= true` emitted differently for {name}"),
        }
    }
}

#[test]
fn bare_flag_explicit_false() {
    let eq_false = vec![eq_tok(1), tok(2, TokenKind::LitBool(false))];
    let w = WriteOnly::parse(&eq_false, &ident("write_only")).unwrap();
    assert!(!w.0);
}

#[test]
fn bare_flag_rejects_trailing_token() {
    let p = vec![eq_tok(1), tok(2, TokenKind::LitBool(true)), tok(3, TokenKind::Comma)];
    let r = Explode::parse(&p, &ident("explode"));
    assert_eq!(r.unwrap_err().span, sp(3));
}

#[test]
fn bare_flag_rejects_non_bool() {
    let p = vec![eq_tok(1), tok(2, TokenKind::LitStr("yes".to_string()))];
    let r = Deprecated::parse(&p, &ident("deprecated"));
    assert_eq!(r.unwrap_err().span, sp(2));
}

// --- canonical names ------------------------------------------------------------

#[test]
fn canonical_names_are_unique() {
    let kinds = [
        DirectiveKind::Default,
        DirectiveKind::Example,
        DirectiveKind::Examples,
        DirectiveKind::XmlAttr,
        DirectiveKind::Format,
        DirectiveKind::WriteOnly,
        DirectiveKind::ReadOnly,
        DirectiveKind::Title,
        DirectiveKind::Nullable,
        DirectiveKind::Rename,
        DirectiveKind::RenameAll,
        DirectiveKind::Style,
        DirectiveKind::ParameterIn,
        DirectiveKind::AllowReserved,
        DirectiveKind::Explode,
        DirectiveKind::ValueType,
        DirectiveKind::Inline,
        DirectiveKind::IntoParamsNames,
        DirectiveKind::SchemaWith,
        DirectiveKind::Description,
        DirectiveKind::Deprecated,
        DirectiveKind::As,
        DirectiveKind::AdditionalProperties,
        DirectiveKind::Required,
        DirectiveKind::ContentEncoding,
        DirectiveKind::ContentMediaType,
    ];
    for (i, a) in kinds.iter().enumerate() {
        for (j, b) in kinds.iter().enumerate() {
            if i != j {
                assert_ne!(canonical_name(*a), canonical_name(*b));
            }
        }
    }
}

#[test]
fn unknown_directive_is_an_error_at_the_name() {
    let name = Ident { name: "bogus".to_string(), span: sp(7) };
    let r = parse_directive(&name, &vec![]);
    assert_eq!(r.unwrap_err().span, sp(7));
}

// --- split_for_vec ----------------------------------------------------------------

fn wrapped_xml(wrap_name: Option<&str>) -> XmlAttr {
    XmlAttr(xml::XmlAttr {
        name: Some("element".to_string()),
        namespace: None,
        prefix: None,
        is_wrapped: Some(Ident { name: "wrapped".to_string(), span: sp(9) }),
        wrap_name: wrap_name.map(|s| s.to_string()),
    })
}

#[test]
fn split_for_vec_on_sequence_splits_wrapping() {
    let mut x = wrapped_xml(Some("items"));
    let (vec_xml, value_xml) = x.split_for_vec(TypeShape::Sequence).unwrap();
    let vec_xml = vec_xml.expect("wrapper slot must be filled");
    let value_xml = value_xml.expect("item slot must be filled");
    assert!(vec_xml.0.is_wrapped.is_some());
    assert_eq!(vec_xml.0.wrap_name.as_deref(), Some("items"));
    assert!(vec_xml.0.name.is_none());
    assert!(value_xml.0.is_wrapped.is_none());
    assert!(value_xml.0.wrap_name.is_none());
    assert_eq!(value_xml.0.name.as_deref(), Some("element"));
}

#[test]
fn split_for_vec_on_scalar_with_wrapped_fails() {
    let mut x = wrapped_xml(None);
    let e = x.split_for_vec(TypeShape::Scalar).unwrap_err();
    assert_eq!(e.span, sp(9));
    assert!(e.help.is_some());
}

#[test]
fn split_for_vec_on_scalar_without_wrapped_passes_through() {
    let mut x = XmlAttr(xml::XmlAttr {
        name: Some("element".to_string()),
        namespace: Some("ns".to_string()),
        prefix: None,
        is_wrapped: None,
        wrap_name: None,
    });
    let (vec_xml, value_xml) = x.split_for_vec(TypeShape::Scalar).unwrap();
    assert!(vec_xml.is_none());
    let value_xml = value_xml.expect("item slot must be filled");
    assert_eq!(value_xml.0.name.as_deref(), Some("element"));
    assert_eq!(value_xml.0.namespace.as_deref(), Some("ns"));
}

#[test]
fn split_for_vec_on_map_validates_like_scalar() {
    let mut x = wrapped_xml(Some("items"));
    assert!(x.split_for_vec(TypeShape::Mapping).is_err());
}

#[test]
fn specialize_inserts_the_derived_directive_adjacently() {
    let items = vec![
        SpannedFeature { feature: Feature::Title(Title("t".to_string())), span: sp(1) },
        SpannedFeature { feature: Feature::XmlAttr(wrapped_xml(Some("items"))), span: sp(2) },
        SpannedFeature { feature: Feature::Nullable(Nullable(true)), span: sp(3) },
    ];
    let out = specialize_features(items, TypeShape::Sequence).unwrap();
    assert_eq!(out.len(), 4);
    assert!(matches!(out[0].feature, Feature::Title(_)));
    match (&out[1].feature, &out[2].feature) {
        (Feature::XmlAttr(wrapper), Feature::XmlAttr(item)) => {
            assert!(wrapper.0.is_wrapped.is_some());
            assert_eq!(wrapper.0.wrap_name.as_deref(), Some("items"));
            assert!(item.0.is_wrapped.is_none());
            assert_eq!(item.0.name.as_deref(), Some("element"));
        },
        _ => panic!("the split pair must stand where the directive stood"),
    }
    assert_eq!(out[1].span, sp(2));
    assert_eq!(out[2].span, sp(2));
    assert!(matches!(out[3].feature, Feature::Nullable(_)));
}

#[test]
fn specialize_rejects_wrapped_on_a_scalar_item() {
    let items = vec![
        SpannedFeature { feature: Feature::XmlAttr(wrapped_xml(None)), span: sp(2) },
    ];
    let e = specialize_features(items, TypeShape::Scalar).unwrap_err();
    assert_eq!(e.span, sp(9));
    assert!(e.help.is_some());
}

#[test]
fn specialize_passes_scalar_xml_through_unchanged() {
    let x = xml::XmlAttr {
        name: Some("element".to_string()),
        namespace: None,
        prefix: None,
        is_wrapped: None,
        wrap_name: None,
    };
    let items = vec![
        SpannedFeature { feature: Feature::XmlAttr(XmlAttr(x)), span: sp(2) },
    ];
    let out = specialize_features(items, TypeShape::Scalar).unwrap();
    assert_eq!(out.len(), 1);
    match &out[0].feature {
        Feature::XmlAttr(item) => assert_eq!(item.0.name.as_deref(), Some("element")),
        _ => panic!("the directive must pass through"),
    }
}

// --- examples ----------------------------------------------------------------------

#[test]
fn examples_empty_list_emits_no_field() {
    let p = vec![tok(1, TokenKind::LParen), tok(2, TokenKind::RParen)];
    let d = Examples::parse(&p, &ident("examples")).unwrap();
    assert!(d.0.is_empty());
    assert!(emit_field(&Feature::Examples(d)).is_none());
}

#[test]
fn examples_three_literals_emit_three_values() {
    let p = vec![
        tok(1, TokenKind::LParen),
        tok(2, TokenKind::LitInt(1)),
        tok(3, TokenKind::Comma),
        tok(4, TokenKind::LitInt(2)),
        tok(5, TokenKind::Comma),
        tok(6, TokenKind::LitInt(3)),
        tok(7, TokenKind::RParen),
    ];
    let d = Examples::parse(&p, &ident("examples")).unwrap();
    assert_eq!(d.0.len(), 3);
    let field = emit_field(&Feature::Examples(d)).expect("a non-empty list emits");
    assert_eq!(field.name, "examples");
    match field.value {
        EmittedValue::Values(vs) => {
            assert_eq!(vs.len(), 3);
            for (v, n) in vs.iter().zip([1u64, 2, 3]) {
                assert!(matches!(v, AnyValue::LitInt(x) if *x == n));
            }
        },
        _ => panic!("expected a sequence of values"),
    }
}

#[test]
fn examples_trailing_comma_is_accepted() {
    let p = vec![
        tok(1, TokenKind::LParen),
        tok(2, TokenKind::LitInt(1)),
        tok(3, TokenKind::Comma),
        tok(4, TokenKind::RParen),
    ];
    let d = Examples::parse(&p, &ident("examples")).unwrap();
    assert_eq!(d.0.len(), 1);
}

#[test]
fn examples_missing_comma_is_an_error() {
    let p = vec![
        tok(1, TokenKind::LParen),
        tok(2, TokenKind::LitInt(1)),
        tok(3, TokenKind::LitInt(2)),
        tok(4, TokenKind::RParen),
    ];
    assert!(Examples::parse(&p, &ident("examples")).is_err());
}

// --- required ----------------------------------------------------------------------

#[test]
fn required_from_tri_state() {
    assert!(!Required::from(TriStateRequired::Inferred).is_true());
    assert!(Required::from(TriStateRequired::True).is_true());
    assert!(!Required::from(TriStateRequired::False).is_true());
    assert!(Required::from(true).is_true());
}

// --- merge -------------------------------------------------------------------------

#[test]
fn merge_rejects_duplicates_with_both_spans() {
    let items = vec![
        SpannedFeature { feature: Feature::Title(Title("a".to_string())), span: sp(1) },
        SpannedFeature { feature: Feature::Nullable(Nullable(true)), span: sp(2) },
        SpannedFeature { feature: Feature::Title(Title("b".to_string())), span: sp(3) },
    ];
    let e = merge_features(items).unwrap_err();
    assert_eq!(e.span, sp(3));
    assert_eq!(e.related, Some(sp(1)));
}

#[test]
fn merge_keeps_distinct_directives_in_source_order() {
    let items = vec![
        SpannedFeature { feature: Feature::Rename(Rename("n".to_string())), span: sp(1) },
        SpannedFeature { feature: Feature::RenameAll(RenameAll(RenameRule::CamelCase)), span: sp(2) },
        SpannedFeature { feature: Feature::Title(Title("t".to_string())), span: sp(3) },
    ];
    let merged = merge_features(items).unwrap();
    assert_eq!(merged.len(), 3);
    assert!(matches!(merged[0].feature, Feature::Rename(_)));
    assert!(matches!(merged[1].feature, Feature::RenameAll(_)));
    assert!(matches!(merged[2].feature, Feature::Title(_)));
}

// --- rename rules --------------------------------------------------------------------

#[test]
fn rename_all_camel_case_round_trips() {
    let p = vec![eq_tok(1), tok(2, TokenKind::LitStr("camelCase".to_string()))];
    let d = RenameAll::parse(&p, &ident("rename_all")).unwrap();
    let rule = d.as_rename_rule();
    assert_eq!(rule.apply(&chars("user_name")), chars("userName"));
}

#[test]
fn rename_rules_transform_snake_case_names() {
    let name = chars("user_name");
    assert_eq!(RenameRule::Lowercase.apply(&name), chars("user_name"));
    assert_eq!(RenameRule::Uppercase.apply(&name), chars("USER_NAME"));
    assert_eq!(RenameRule::PascalCase.apply(&name), chars("UserName"));
    assert_eq!(RenameRule::CamelCase.apply(&name), chars("userName"));
    assert_eq!(RenameRule::SnakeCase.apply(&name), chars("user_name"));
    assert_eq!(RenameRule::ScreamingSnakeCase.apply(&name), chars("USER_NAME"));
    assert_eq!(RenameRule::KebabCase.apply(&name), chars("user-name"));
    assert_eq!(RenameRule::ScreamingKebabCase.apply(&name), chars("USER-NAME"));
}

#[test]
fn rename_all_unknown_rule_is_an_error() {
    let p = vec![eq_tok(1), tok(2, TokenKind::LitStr("camel-Case".to_string()))];
    let e = RenameAll::parse(&p, &ident("rename_all")).unwrap_err();
    assert_eq!(e.span, sp(2));
}

// --- enumerations ---------------------------------------------------------------------

#[test]
fn style_unknown_value_is_an_error_not_a_panic() {
    let p = vec![eq_tok(1), tok(2, TokenKind::LitStr("bogus".to_string()))];
    let e = Style::parse(&p, &ident("style")).unwrap_err();
    assert_eq!(e.span, sp(2));
}

#[test]
fn style_parses_known_values() {
    let p = vec![eq_tok(1), tok(2, TokenKind::Ident("Form".to_string()))];
    let d = Style::parse(&p, &ident("style")).unwrap();
    assert!(matches!(d.0, ParameterStyle::Form));
    let p = vec![eq_tok(1), tok(2, TokenKind::LitStr("DeepObject".to_string()))];
    let d = Style::parse(&p, &ident("style")).unwrap();
    assert!(matches!(d.0, ParameterStyle::DeepObject));
}

#[test]
fn parameter_in_parses_and_emits_in_field() {
    let p = vec![eq_tok(1), tok(2, TokenKind::Ident("Query".to_string()))];
    let d = ParameterIn::parse(&p, &ident("parameter_in")).unwrap();
    assert!(matches!(d.0, ParameterInKind::Query));
    let field = emit_field(&Feature::ParameterIn(d)).unwrap();
    assert_eq!(field.name, "in");
}

#[test]
fn format_parses_known_values_and_rejects_unknown() {
    let p = vec![eq_tok(1), tok(2, TokenKind::Ident("DateTime".to_string()))];
    let d = Format::parse(&p, &ident("format")).unwrap();
    assert!(matches!(d.0, SchemaFormat::DateTime));
    let p = vec![eq_tok(1), tok(2, TokenKind::Ident("Decimal128".to_string()))];
    assert_eq!(Format::parse(&p, &ident("format")).unwrap_err().span, sp(2));
}

// --- xml grammar ------------------------------------------------------------------------

#[test]
fn xml_parses_full_entry_list() {
    let p = vec![
        tok(1, TokenKind::LParen),
        tok(2, TokenKind::Ident("name".to_string())),
        eq_tok(3),
        tok(4, TokenKind::LitStr("user".to_string())),
        tok(5, TokenKind::Comma),
        tok(6, TokenKind::Ident("prefix".to_string())),
        eq_tok(7),
        tok(8, TokenKind::LitStr("u".to_string())),
        tok(9, TokenKind::Comma),
        tok(10, TokenKind::Ident("wrapped".to_string())),
        tok(11, TokenKind::LParen),
        tok(12, TokenKind::Ident("name".to_string())),
        eq_tok(13),
        tok(14, TokenKind::LitStr("users".to_string())),
        tok(15, TokenKind::RParen),
        tok(16, TokenKind::RParen),
    ];
    let d = XmlAttr::parse(&p, &ident("xml")).unwrap();
    assert_eq!(d.0.name.as_deref(), Some("user"));
    assert_eq!(d.0.prefix.as_deref(), Some("u"));
    assert!(d.0.namespace.is_none());
    assert_eq!(d.0.is_wrapped.as_ref().map(|i| i.span), Some(sp(10)));
    assert_eq!(d.0.wrap_name.as_deref(), Some("users"));
}

#[test]
fn xml_bare_wrapped_sets_the_flag_only() {
    let p = vec![
        tok(1, TokenKind::LParen),
        tok(2, TokenKind::Ident("wrapped".to_string())),
        tok(3, TokenKind::RParen),
    ];
    let d = XmlAttr::parse(&p, &ident("xml")).unwrap();
    assert!(d.0.is_wrapped.is_some());
    assert!(d.0.wrap_name.is_none());
}

#[test]
fn xml_later_entry_overrides_earlier() {
    let p = vec![
        tok(1, TokenKind::LParen),
        tok(2, TokenKind::Ident("name".to_string())),
        eq_tok(3),
        tok(4, TokenKind::LitStr("a".to_string())),
        tok(5, TokenKind::Comma),
        tok(6, TokenKind::Ident("name".to_string())),
        eq_tok(7),
        tok(8, TokenKind::LitStr("b".to_string())),
        tok(9, TokenKind::RParen),
    ];
    let d = XmlAttr::parse(&p, &ident("xml")).unwrap();
    assert_eq!(d.0.name.as_deref(), Some("b"));
}

#[test]
fn xml_unknown_key_is_an_error() {
    let p = vec![
        tok(1, TokenKind::LParen),
        tok(2, TokenKind::Ident("wrap".to_string())),
        tok(3, TokenKind::RParen),
    ];
    assert_eq!(XmlAttr::parse(&p, &ident("xml")).unwrap_err().span, sp(2));
}

#[test]
fn xml_requires_parentheses() {
    let p = vec![eq_tok(1), tok(2, TokenKind::LitStr("user".to_string()))];
    assert!(XmlAttr::parse(&p, &ident("xml")).is_err());
}

// --- strings and values -------------------------------------------------------------------

#[test]
fn title_requires_a_string_literal() {
    let ok = vec![eq_tok(1), tok(2, TokenKind::LitStr("User".to_string()))];
    let d = Title::parse(&ok, &ident("title")).unwrap();
    assert_eq!(d.0, "User");
    let bad = vec![eq_tok(1), tok(2, TokenKind::LitInt(3))];
    assert_eq!(Title::parse(&bad, &ident("title")).unwrap_err().span, sp(2));
    let missing = vec![tok(1, TokenKind::LitStr("User".to_string()))];
    assert_eq!(Title::parse(&missing, &ident("title")).unwrap_err().span, sp(1));
}

#[test]
fn default_without_payload_derives_from_the_item() {
    let d = schema_directives::attributes::Default::parse(&vec![], &ident("default")).unwrap();
    assert!(d.0.is_none());
    let field = emit_field(&Feature::Default(d)).unwrap();
    assert_eq!(field.name, "default");
    assert!(matches!(field.value, EmittedValue::MaybeValue(None)));
}

#[test]
fn default_with_expression_payload() {
    let p = vec![eq_tok(1), tok(2, TokenKind::Expr("Role::Admin".to_string()))];
    let d = schema_directives::attributes::Default::parse(&p, &ident("default")).unwrap();
    assert!(matches!(&d.0, Some(AnyValue::Expr(e)) if e == "Role::Admin"));
}

#[test]
fn default_trait_constructor_records_the_field() {
    let d = schema_directives::attributes::Default::new_default_trait(
        Ident { name: "User".to_string(), span: sp(1) },
        Member::Named("name".to_string()),
    );
    assert!(matches!(
        &d.0,
        Some(AnyValue::DefaultTrait { struct_ident, field: Member::Named(f) })
            if struct_ident.name == "User" && f == "name"
    ));
}

#[test]
fn example_requires_a_value() {
    let p = vec![eq_tok(1), tok(2, TokenKind::LitStr("demo".to_string()))];
    let d = schema_directives::attributes::Example::parse(&p, &ident("example")).unwrap();
    assert!(matches!(&d.0, AnyValue::LitStr(s) if s == "demo"));
    assert!(schema_directives::attributes::Example::parse(&vec![], &ident("example")).is_err());
}

#[test]
fn description_accepts_string_or_expression() {
    let p = vec![eq_tok(1), tok(2, TokenKind::LitStr("a user".to_string()))];
    let d = schema_directives::attributes::Description::parse(&p, &ident("description")).unwrap();
    assert!(matches!(&d.0, Value::LitStr(s) if s == "a user"));
    let p = vec![eq_tok(1), tok(2, TokenKind::Expr("DOC".to_string()))];
    let d = schema_directives::attributes::Description::parse(&p, &ident("description")).unwrap();
    assert!(matches!(&d.0, Value::Expr(e) if e == "DOC"));
    let p = vec![eq_tok(1), tok(2, TokenKind::LitBool(true))];
    assert!(schema_directives::attributes::Description::parse(&p, &ident("description")).is_err());
}

#[test]
fn names_collects_string_literals() {
    let p = vec![
        tok(1, TokenKind::LParen),
        tok(2, TokenKind::LitStr("id".to_string())),
        tok(3, TokenKind::Comma),
        tok(4, TokenKind::LitStr("name".to_string())),
        tok(5, TokenKind::RParen),
    ];
    let d = IntoParamsNames::parse(&p, &ident("names")).unwrap();
    assert_eq!(d.into_values(), vec!["id".to_string(), "name".to_string()]);
}

#[test]
fn names_rejects_non_string_items() {
    let p = vec![
        tok(1, TokenKind::LParen),
        tok(2, TokenKind::LitInt(1)),
        tok(3, TokenKind::RParen),
    ];
    assert_eq!(IntoParamsNames::parse(&p, &ident("names")).unwrap_err().span, sp(2));
}

#[test]
fn type_references_are_carried_through() {
    let p = vec![eq_tok(1), tok(2, TokenKind::Expr("Vec<String>".to_string()))];
    let d = ValueType::parse(&p, &ident("value_type")).unwrap();
    assert_eq!(d.0, "Vec<String>");
    let p = vec![eq_tok(1), tok(2, TokenKind::Ident("String".to_string()))];
    let d = As::parse(&p, &ident("as")).unwrap();
    assert_eq!(d.0, "String");
    let p = vec![eq_tok(1), tok(2, TokenKind::Expr("my_schema".to_string()))];
    let d = SchemaWith::parse(&p, &ident("schema_with")).unwrap();
    assert_eq!(d.0, "my_schema");
    let p = vec![eq_tok(1), tok(2, TokenKind::LitStr("String".to_string()))];
    assert!(ValueType::parse(&p, &ident("value_type")).is_err());
}

// --- nullable / getters --------------------------------------------------------------------

#[test]
fn nullable_contributes_the_null_type_when_set() {
    let n = Nullable::new();
    assert!(n.value());
    assert_eq!(n.into_schema_type_token_stream(), Some(SchemaType::Null));
    assert_eq!(Nullable(false).into_schema_type_token_stream(), None);
}

#[test]
fn rename_into_value_hands_back_the_name() {
    assert_eq!(Rename("external".to_string()).into_value(), "external");
}

// --- emission --------------------------------------------------------------------------------

#[test]
fn emitted_field_names_follow_the_document() {
    let enc = schema_directives::attributes::ContentEncoding("base64".to_string());
    let f = emit_field(&Feature::ContentEncoding(enc)).unwrap();
    assert_eq!(f.name, "contentEncoding");
    assert!(matches!(&f.value, EmittedValue::Str(s) if s == "base64"));

    let mt = schema_directives::attributes::ContentMediaType("application/json".to_string());
    let f = emit_field(&Feature::ContentMediaType(mt)).unwrap();
    assert_eq!(f.name, "contentMediaType");

    let ap = AdditionalProperties(false);
    let f = emit_field(&Feature::AdditionalProperties(ap)).unwrap();
    assert_eq!(f.name, "additional_properties");
    assert!(matches!(f.value, EmittedValue::FreeForm(false)));
}

#[test]
fn steering_directives_emit_no_field() {
    assert!(emit_field(&Feature::Rename(Rename("n".to_string()))).is_none());
    assert!(emit_field(&Feature::RenameAll(RenameAll(RenameRule::CamelCase))).is_none());
    assert!(emit_field(&Feature::ValueType(ValueType("T".to_string()))).is_none());
    assert!(emit_field(&Feature::Inline(Inline(true))).is_none());
    assert!(emit_field(&Feature::IntoParamsNames(IntoParamsNames(vec![]))).is_none());
    assert!(emit_field(&Feature::SchemaWith(SchemaWith("f".to_string()))).is_none());
    assert!(emit_field(&Feature::As(As("T".to_string()))).is_none());
}

#[test]
fn schema_with_emits_a_call_through_to_tokens() {
    let d = SchemaWith("my_schema".to_string());
    let mut out: Vec<EmittedValue> = Vec::new();
    d.to_tokens(&mut out);
    assert_eq!(out.len(), 1);
    assert!(matches!(&out[0], EmittedValue::Call(p) if p == "my_schema"));
}

#[test]
fn examples_to_tokens_emits_nothing_for_the_empty_list() {
    let d = Examples(vec![]);
    let mut out: Vec<EmittedValue> = Vec::new();
    d.to_tokens(&mut out);
    assert!(out.is_empty());
}

// --- the front end-to-end ---------------------------------------------------------------------

#[test]
fn parse_directive_dispatches_by_name() {
    let p = vec![eq_tok(1), tok(2, TokenKind::LitStr("User".to_string()))];
    assert!(matches!(parse_directive(&ident("title"), &p).unwrap(), Feature::Title(_)));
    assert!(matches!(parse_directive(&ident("rename"), &p).unwrap(), Feature::Rename(_)));
    let p = vec![eq_tok(1), tok(2, TokenKind::LitBool(true))];
    assert!(matches!(parse_directive(&ident("required"), &p).unwrap(), Feature::Required(_)));
    let p = vec![
        tok(1, TokenKind::LParen),
        tok(2, TokenKind::Ident("wrapped".to_string())),
        tok(3, TokenKind::RParen),
    ];
    assert!(matches!(parse_directive(&ident("xml"), &p).unwrap(), Feature::XmlAttr(_)));
}

#[test]
fn merge_reports_the_first_conflicting_pair() {
    let items = vec![
        SpannedFeature { feature: Feature::Title(Title("a".to_string())), span: sp(1) },
        SpannedFeature { feature: Feature::Nullable(Nullable(true)), span: sp(2) },
        SpannedFeature { feature: Feature::Title(Title("b".to_string())), span: sp(3) },
        SpannedFeature { feature: Feature::Nullable(Nullable(false)), span: sp(4) },
    ];
    let e = merge_features(items).unwrap_err();
    assert_eq!(e.span, sp(3));
    assert_eq!(e.related, Some(sp(1)));
}

#[test]
fn examples_requires_parentheses() {
    let p = vec![eq_tok(1), tok(2, TokenKind::LitInt(1))];
    assert!(Examples::parse(&p, &ident("examples")).is_err());
}

#[test]
fn style_requires_the_equals_sign() {
    let p = vec![tok(1, TokenKind::Ident("Form".to_string()))];
    assert_eq!(Style::parse(&p, &ident("style")).unwrap_err().span, sp(1));
}

#[test]
fn xml_malformed_wrapped_group_is_an_error() {
    let p = vec![
        tok(1, TokenKind::LParen),
        tok(2, TokenKind::Ident("wrapped".to_string())),
        tok(3, TokenKind::LParen),
        tok(4, TokenKind::Ident("namespace".to_string())),
        eq_tok(5),
        tok(6, TokenKind::LitStr("x".to_string())),
        tok(7, TokenKind::RParen),
        tok(8, TokenKind::RParen),
    ];
    assert_eq!(XmlAttr::parse(&p, &ident("xml")).unwrap_err().span, sp(4));
}

#[test]
fn parse_directive_surfaces_grammar_errors() {
    let p = vec![eq_tok(1), tok(2, TokenKind::LitInt(3))];
    let e = parse_directive(&ident("title"), &p).unwrap_err();
    assert_eq!(e.span, sp(2));
}

#[test]
fn default_accepts_a_literal_value() {
    let p = vec![eq_tok(1), tok(2, TokenKind::LitInt(5))];
    let d = schema_directives::attributes::Default::parse(&p, &ident("default")).unwrap();
    assert!(matches!(d.0, Some(AnyValue::LitInt(5))));
}

#[test]
fn pipeline_parses_merges_and_emits() {
    let title_p = vec![eq_tok(1), tok(2, TokenKind::LitStr("User".to_string()))];
    let req_p: Vec<Token> = vec![];
    let f1 = parse_directive(&ident("title"), &title_p).unwrap();
    let f2 = parse_directive(&ident("required"), &req_p).unwrap();
    let merged = merge_features(vec![
        SpannedFeature { feature: f1, span: sp(1) },
        SpannedFeature { feature: f2, span: sp(2) },
    ])
    .unwrap();
    let fields: Vec<_> = merged.iter().filter_map(|sf| emit_field(&sf.feature)).collect();
    assert_eq!(fields.len(), 2);
    assert_eq!(fields[0].name, "title");
    assert_eq!(fields[1].name, "required");
    assert!(matches!(fields[1].value, EmittedValue::Bool(true)));
}
