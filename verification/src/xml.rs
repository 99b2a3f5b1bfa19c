//! The nested key/value grammar of the `xml` directive.
//!
//! The payload is a parenthesized, comma-separated list of entries:
//! `name = "..."`, `namespace = "..."`, `prefix = "..."`, and `wrapped`,
//! bare or as `wrapped(name = "...")`. A later entry for the same key
//! overrides an earlier one.

use vstd::prelude::*;
use crate::tokens::{Ident, Span, Token, TokenKind};
use crate::diagnostics::Diagnostics;
use crate::parse_utils::{paren_ok, paren_inner};

verus! {

/// The parsed XML attribute structure of one annotated item.
///
/// `is_wrapped` keeps the identifier of the `wrapped` entry, so that a
/// validation error can point at the flag itself.
#[derive(Clone, Debug)]
pub struct XmlAttr {
    pub name: Option<String>,
    pub namespace: Option<String>,
    pub prefix: Option<String>,
    pub is_wrapped: Option<Ident>,
    pub wrap_name: Option<String>,
}

/// The mathematical content of an [`XmlAttr`]: its strings as character
/// sequences, and of the `wrapped` identifier only its span.
pub struct XmlModel {
    pub name: Option<Seq<char>>,
    pub namespace: Option<Seq<char>>,
    pub prefix: Option<Seq<char>>,
    pub is_wrapped: Option<Span>,
    pub wrap_name: Option<Seq<char>>,
}

/// The model of an [`XmlAttr`] value.
pub open spec fn model(x: XmlAttr) -> XmlModel {
    XmlModel {
        name: match x.name {
            Some(s) => Some(s@),
            None => None,
        },
        namespace: match x.namespace {
            Some(s) => Some(s@),
            None => None,
        },
        prefix: match x.prefix {
            Some(s) => Some(s@),
            None => None,
        },
        is_wrapped: match x.is_wrapped {
            Some(id) => Some(id.span),
            None => None,
        },
        wrap_name: match x.wrap_name {
            Some(s) => Some(s@),
            None => None,
        },
    }
}

/// The model with nothing set.
pub open spec fn empty_model() -> XmlModel {
    XmlModel { name: None, namespace: None, prefix: None, is_wrapped: None, wrap_name: None }
}

/// One grammar entry starting at `i` in the list body `c`: on success, the
/// model after the entry and the position just past it.
pub open spec fn entry_step(c: Seq<Token>, i: int, acc: XmlModel) -> Option<(XmlModel, int)> {
    if !(0 <= i < c.len()) {
        None
    } else {
        match c[i].kind {
            TokenKind::Ident(key) => {
                if key@ == "name"@ {
                    if i + 2 < c.len() && c[i + 1].kind is Eq && c[i + 2].kind is LitStr {
                        Some((XmlModel { name: Some(c[i + 2].kind->LitStr_0@), ..acc }, i + 3))
                    } else {
                        None
                    }
                } else if key@ == "namespace"@ {
                    if i + 2 < c.len() && c[i + 1].kind is Eq && c[i + 2].kind is LitStr {
                        Some((XmlModel { namespace: Some(c[i + 2].kind->LitStr_0@), ..acc }, i + 3))
                    } else {
                        None
                    }
                } else if key@ == "prefix"@ {
                    if i + 2 < c.len() && c[i + 1].kind is Eq && c[i + 2].kind is LitStr {
                        Some((XmlModel { prefix: Some(c[i + 2].kind->LitStr_0@), ..acc }, i + 3))
                    } else {
                        None
                    }
                } else if key@ == "wrapped"@ {
                    if i + 1 < c.len() && c[i + 1].kind is LParen {
                        if i + 5 < c.len() && (c[i + 2].kind matches TokenKind::Ident(k2)
                            && k2@ == "name"@) && c[i + 3].kind is Eq && c[i + 4].kind is LitStr
                            && c[i + 5].kind is RParen {
                            Some((
                                XmlModel {
                                    is_wrapped: Some(c[i].span),
                                    wrap_name: Some(c[i + 4].kind->LitStr_0@),
                                    ..acc
                                },
                                i + 6,
                            ))
                        } else {
                            None
                        }
                    } else {
                        Some((XmlModel { is_wrapped: Some(c[i].span), ..acc }, i + 1))
                    }
                } else {
                    None
                }
            },
            _ => None,
        }
    }
}

/// The model after parsing the whole list body `c` from `i` on, starting from
/// `acc`; `None` where the body does not match the grammar.
pub open spec fn xml_entries(c: Seq<Token>, i: int, acc: XmlModel) -> Option<XmlModel>
    decreases c.len() - i,
{
    if i >= c.len() {
        Some(acc)
    } else {
        match entry_step(c, i, acc) {
            None => None,
            Some((acc2, j)) => {
                if j >= c.len() {
                    Some(acc2)
                } else if c[j].kind is Comma {
                    if j + 1 > i {
                        xml_entries(c, j + 1, acc2)
                    } else {
                        None
                    }
                } else {
                    None
                }
            },
        }
    }
}

/// The model denoted by a full `xml` directive payload, or `None` where the
/// payload does not match the grammar.
pub open spec fn xml_payload(p: Seq<Token>) -> Option<XmlModel> {
    if paren_ok(p) {
        xml_entries(paren_inner(p), 0, empty_model())
    } else {
        None
    }
}

impl XmlAttr {
    /// The structure with nothing set.
    pub fn empty() -> (r: XmlAttr)
        ensures
            model(r) == empty_model(),
            r.name is None,
            r.namespace is None,
            r.prefix is None,
            r.is_wrapped is None,
            r.wrap_name is None,
    {
        XmlAttr { name: None, namespace: None, prefix: None, is_wrapped: None, wrap_name: None }
    }

    /// A copy of the structure with the same content.
    pub fn duplicate(&self) -> (r: XmlAttr)
        ensures
            model(r) == model(*self),
    {
        XmlAttr {
            name: match &self.name {
                Some(s) => Some(s.clone()),
                None => None,
            },
            namespace: match &self.namespace {
                Some(s) => Some(s.clone()),
                None => None,
            },
            prefix: match &self.prefix {
                Some(s) => Some(s.clone()),
                None => None,
            },
            is_wrapped: match &self.is_wrapped {
                Some(id) => Some(Ident { name: id.name.clone(), span: id.span }),
                None => None,
            },
            wrap_name: match &self.wrap_name {
                Some(s) => Some(s.clone()),
                None => None,
            },
        }
    }

    /// The structure holding only the wrapping portion: the `wrapped` flag
    /// and the wrapper element name.
    pub fn with_wrapped(is_wrapped: Option<Ident>, wrap_name: Option<String>) -> (r: XmlAttr)
        ensures
            r.name is None,
            r.namespace is None,
            r.prefix is None,
            r.is_wrapped == is_wrapped,
            r.wrap_name == wrap_name,
    {
        XmlAttr { name: None, namespace: None, prefix: None, is_wrapped, wrap_name }
    }
}

/// Parses the list body of an `xml` payload from interior position `i` on,
/// continuing from `acc`.
fn parse_xml_entries(p: &Vec<Token>, i: usize, acc: XmlAttr) -> (r: Result<XmlAttr, Diagnostics>)
    requires
        p@.len() >= 2,
        i <= p@.len() - 2,
    ensures
        (r is Ok) == (xml_entries(paren_inner(p@), i as int, model(acc)) is Some),
        r matches Ok(x) ==> Some(model(x)) == xml_entries(paren_inner(p@), i as int, model(acc)),
    decreases p@.len() - i,
{
    let ghost c = paren_inner(p@);
    let m = p.len() - 2;
    if i >= m {
        return Ok(acc);
    }
    proof {
        assert(c[i as int] == p@[i + 1]);
    }
    let mut acc = acc;
    let j: usize;
    match &p[i + 1].kind {
        TokenKind::Ident(key) => {
            if *key == "name".to_owned() || *key == "namespace".to_owned()
                || *key == "prefix".to_owned() {
                if i + 2 >= m {
                    return Err(Diagnostics::with_span(
                        p[i + 1].span,
                        "expected `= <string literal>` after the key",
                    ));
                }
                proof {
                    assert(c[i + 1] == p@[i + 2]);
                    assert(c[i + 2] == p@[i + 3]);
                }
                if !matches!(&p[i + 2].kind, TokenKind::Eq) {
                    return Err(Diagnostics::with_span(p[i + 2].span, "expected `=` after the key"));
                }
                match &p[i + 3].kind {
                    TokenKind::LitStr(s) => {
                        if *key == "name".to_owned() {
                            acc.name = Some(s.clone());
                        } else if *key == "namespace".to_owned() {
                            acc.namespace = Some(s.clone());
                        } else {
                            acc.prefix = Some(s.clone());
                        }
                        j = i + 3;
                    },
                    _ => {
                        return Err(Diagnostics::with_span(
                            p[i + 3].span,
                            "expected a string literal after `=`",
                        ));
                    },
                }
            } else if *key == "wrapped".to_owned() {
                let wrapped_ident = Ident { name: key.clone(), span: p[i + 1].span };
                if i + 1 < m && matches!(&p[i + 2].kind, TokenKind::LParen) {
                    proof {
                        assert(c[i + 1] == p@[i + 2]);
                    }
                    if m - (i + 1) < 5 {
                        return Err(Diagnostics::with_span(
                            p[i + 2].span,
                            "expected `(name = <string literal>)` after `wrapped`",
                        ));
                    }
                    proof {
                        assert(c[i + 2] == p@[i + 3]);
                        assert(c[i + 3] == p@[i + 4]);
                        assert(c[i + 4] == p@[i + 5]);
                        assert(c[i + 5] == p@[i + 6]);
                    }
                    let key2_ok: bool = match &p[i + 3].kind {
                        TokenKind::Ident(k2) => *k2 == "name".to_owned(),
                        _ => false,
                    };
                    if !key2_ok {
                        return Err(Diagnostics::with_span(
                            p[i + 3].span,
                            "expected `name` inside `wrapped(...)`",
                        ));
                    }
                    if !matches!(&p[i + 4].kind, TokenKind::Eq) {
                        return Err(Diagnostics::with_span(p[i + 4].span, "expected `=` after `name`"));
                    }
                    match &p[i + 5].kind {
                        TokenKind::LitStr(s) => {
                            if !matches!(&p[i + 6].kind, TokenKind::RParen) {
                                return Err(Diagnostics::with_span(
                                    p[i + 6].span,
                                    "expected `)` to close `wrapped(...)`",
                                ));
                            }
                            acc.is_wrapped = Some(wrapped_ident);
                            acc.wrap_name = Some(s.clone());
                            j = i + 6;
                        },
                        _ => {
                            return Err(Diagnostics::with_span(
                                p[i + 5].span,
                                "expected a string literal after `name =`",
                            ));
                        },
                    }
                } else {
                    acc.is_wrapped = Some(wrapped_ident);
                    j = i + 1;
                }
            } else {
                return Err(Diagnostics::with_span(
                    p[i + 1].span,
                    "unknown key; expected `name`, `namespace`, `prefix` or `wrapped`",
                ));
            }
        },
        _ => {
            return Err(Diagnostics::with_span(
                p[i + 1].span,
                "expected a key; one of `name`, `namespace`, `prefix` or `wrapped`",
            ));
        },
    }
    if j >= m {
        return Ok(acc);
    }
    proof {
        assert(c[j as int] == p@[j + 1]);
    }
    if !matches!(&p[j + 1].kind, TokenKind::Comma) {
        return Err(Diagnostics::with_span(p[j + 1].span, "expected `,` between entries"));
    }
    parse_xml_entries(p, j + 1, acc)
}

/// Parses a full `xml` directive payload: a parenthesized list of entries.
pub fn parse_xml_payload(p: &Vec<Token>, attr: &Ident) -> (r: Result<XmlAttr, Diagnostics>)
    ensures
        (r is Ok) == (xml_payload(p@) is Some),
        r matches Ok(x) ==> Some(model(x)) == xml_payload(p@),
{
    if p.len() < 2 || !matches!(&p[0].kind, TokenKind::LParen)
        || !matches!(&p[p.len() - 1].kind, TokenKind::RParen) {
        let sp = if p.len() == 0 {
            attr.span
        } else if !matches!(&p[0].kind, TokenKind::LParen) {
            p[0].span
        } else {
            p[p.len() - 1].span
        };
        return Err(Diagnostics::with_span(sp, "expected a parenthesized list of `xml` entries"));
    }
    parse_xml_entries(p, 0, XmlAttr::empty())
}

} // verus!
