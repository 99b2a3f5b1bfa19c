//! The closed enumeration of known schema value formats.

use vstd::prelude::*;

verus! {

/// A known schema value format, parsed from a literal string or a bare
/// identifier; an unknown value is a parse error.
#[derive(Clone, Copy, PartialEq, Eq, Structural, Debug)]
pub enum SchemaFormat {
    Int32,
    Int64,
    Float,
    Double,
    Byte,
    Binary,
    Date,
    DateTime,
    Password,
}

/// The format a name denotes, or `None` for an unknown name.
pub open spec fn format_of(s: Seq<char>) -> Option<SchemaFormat> {
    if s == "Int32"@ {
        Some(SchemaFormat::Int32)
    } else if s == "Int64"@ {
        Some(SchemaFormat::Int64)
    } else if s == "Float"@ {
        Some(SchemaFormat::Float)
    } else if s == "Double"@ {
        Some(SchemaFormat::Double)
    } else if s == "Byte"@ {
        Some(SchemaFormat::Byte)
    } else if s == "Binary"@ {
        Some(SchemaFormat::Binary)
    } else if s == "Date"@ {
        Some(SchemaFormat::Date)
    } else if s == "DateTime"@ {
        Some(SchemaFormat::DateTime)
    } else if s == "Password"@ {
        Some(SchemaFormat::Password)
    } else {
        None
    }
}

impl SchemaFormat {
    /// The format named by `name`, or `None` for an unknown name.
    pub fn from_name(name: &String) -> (r: Option<SchemaFormat>)
        ensures
            r == format_of(name@),
    {
        if *name == "Int32".to_owned() {
            Some(SchemaFormat::Int32)
        } else if *name == "Int64".to_owned() {
            Some(SchemaFormat::Int64)
        } else if *name == "Float".to_owned() {
            Some(SchemaFormat::Float)
        } else if *name == "Double".to_owned() {
            Some(SchemaFormat::Double)
        } else if *name == "Byte".to_owned() {
            Some(SchemaFormat::Byte)
        } else if *name == "Binary".to_owned() {
            Some(SchemaFormat::Binary)
        } else if *name == "Date".to_owned() {
            Some(SchemaFormat::Date)
        } else if *name == "DateTime".to_owned() {
            Some(SchemaFormat::DateTime)
        } else if *name == "Password".to_owned() {
            Some(SchemaFormat::Password)
        } else {
            None
        }
    }
}

} // verus!
