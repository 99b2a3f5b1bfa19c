//! Parameter placement and serialization style enumerations.
//!
//! Both are closed enumerations parsed from a literal string or a bare
//! identifier; an unknown value is a parse error at the value's span.

use vstd::prelude::*;

verus! {

/// Where a parameter is carried in a request.
#[derive(Clone, Copy, PartialEq, Eq, Structural, Debug)]
pub enum ParameterIn {
    Query,
    Path,
    Header,
    Cookie,
}

/// How a parameter's value is serialized.
#[derive(Clone, Copy, PartialEq, Eq, Structural, Debug)]
pub enum ParameterStyle {
    Matrix,
    Label,
    Form,
    Simple,
    SpaceDelimited,
    PipeDelimited,
    DeepObject,
}

/// The placement a name denotes, or `None` for an unknown name.
pub open spec fn parameter_in_of(s: Seq<char>) -> Option<ParameterIn> {
    if s == "Query"@ {
        Some(ParameterIn::Query)
    } else if s == "Path"@ {
        Some(ParameterIn::Path)
    } else if s == "Header"@ {
        Some(ParameterIn::Header)
    } else if s == "Cookie"@ {
        Some(ParameterIn::Cookie)
    } else {
        None
    }
}

/// The style a name denotes, or `None` for an unknown name.
pub open spec fn style_of(s: Seq<char>) -> Option<ParameterStyle> {
    if s == "Matrix"@ {
        Some(ParameterStyle::Matrix)
    } else if s == "Label"@ {
        Some(ParameterStyle::Label)
    } else if s == "Form"@ {
        Some(ParameterStyle::Form)
    } else if s == "Simple"@ {
        Some(ParameterStyle::Simple)
    } else if s == "SpaceDelimited"@ {
        Some(ParameterStyle::SpaceDelimited)
    } else if s == "PipeDelimited"@ {
        Some(ParameterStyle::PipeDelimited)
    } else if s == "DeepObject"@ {
        Some(ParameterStyle::DeepObject)
    } else {
        None
    }
}

impl ParameterIn {
    /// The placement named by `name`, or `None` for an unknown name.
    pub fn from_name(name: &String) -> (r: Option<ParameterIn>)
        ensures
            r == parameter_in_of(name@),
    {
        if *name == "Query".to_owned() {
            Some(ParameterIn::Query)
        } else if *name == "Path".to_owned() {
            Some(ParameterIn::Path)
        } else if *name == "Header".to_owned() {
            Some(ParameterIn::Header)
        } else if *name == "Cookie".to_owned() {
            Some(ParameterIn::Cookie)
        } else {
            None
        }
    }
}

impl ParameterStyle {
    /// The style named by `name`, or `None` for an unknown name.
    pub fn from_name(name: &String) -> (r: Option<ParameterStyle>)
        ensures
            r == style_of(name@),
    {
        if *name == "Matrix".to_owned() {
            Some(ParameterStyle::Matrix)
        } else if *name == "Label".to_owned() {
            Some(ParameterStyle::Label)
        } else if *name == "Form".to_owned() {
            Some(ParameterStyle::Form)
        } else if *name == "Simple".to_owned() {
            Some(ParameterStyle::Simple)
        } else if *name == "SpaceDelimited".to_owned() {
            Some(ParameterStyle::SpaceDelimited)
        } else if *name == "PipeDelimited".to_owned() {
            Some(ParameterStyle::PipeDelimited)
        } else if *name == "DeepObject".to_owned() {
            Some(ParameterStyle::DeepObject)
        } else {
            None
        }
    }
}

} // verus!
