use vstd::prelude::*;

use crate::text::{decimal, push_decimal};

verus! {

/// How a field is stored in the database.
#[derive(Clone, Copy, PartialEq, Eq, Structural, Debug)]
pub enum SqlType {
    Integer,
    Varchar(u64),
    Text,
}

/// How a field is represented in the host program.
#[derive(Clone, Copy, PartialEq, Eq, Structural, Debug)]
pub enum LogicalType {
    I32,
    I64,
    U32,
    U64,
    Str,
}

/// Why a field's declared attribute, logical type and size do not fit together.
#[derive(Clone, Copy, PartialEq, Eq, Structural, Debug)]
pub enum TypeError {
    /// A `varchar` on a string field without a size.
    MissingVarcharSize,
    /// A `varchar` on a field that is not a string.
    IncompatibleVarcharType,
    /// A `text` field with a size.
    TextSizeNotSupported,
    /// An `integer` field with a size.
    IntegerSizeNotSupported,
    /// Any other combination.
    UnknownType,
}

pub open spec fn is_integer_type(t: LogicalType) -> bool {
    t != LogicalType::Str
}

/// The column type of a field, or why it has none; the first rule that applies decides.
pub open spec fn map_type(ty: LogicalType, attr: Seq<char>, size: Option<u64>) -> Result<SqlType, TypeError> {
    if attr == "varchar"@ {
        if ty == LogicalType::Str {
            match size {
                Some(n) => Ok(SqlType::Varchar(n)),
                None => Err(TypeError::MissingVarcharSize),
            }
        } else {
            Err(TypeError::IncompatibleVarcharType)
        }
    } else if attr == "text"@ {
        if size is Some { Err(TypeError::TextSizeNotSupported) } else { Ok(SqlType::Text) }
    } else if attr == "integer"@ {
        if size is Some {
            Err(TypeError::IntegerSizeNotSupported)
        } else if is_integer_type(ty) {
            Ok(SqlType::Integer)
        } else {
            Err(TypeError::UnknownType)
        }
    } else {
        Err(TypeError::UnknownType)
    }
}

/// The SQL spelling of a column type.
pub open spec fn sql_type_text(t: SqlType) -> Seq<char> {
    match t {
        SqlType::Integer => "INTEGER"@,
        SqlType::Text => "TEXT"@,
        SqlType::Varchar(n) => "VARCHAR("@ + decimal(n as nat) + ")"@,
    }
}

/// Whether values of the column are written between single quotes.
pub open spec fn is_textual(t: SqlType) -> bool {
    t != SqlType::Integer
}

/// Whether `s` spells the word `w`.
pub fn is_word(s: &String, w: &str) -> (r: bool)
    ensures
        r == (s@ == w@),
{
    let t = String::from_str(w);
    *s == t
}

impl SqlType {
    /// Chooses the column type of a field from its logical type, declared attribute and size.
    pub fn from_type(ty: LogicalType, attr: &String, size: Option<u64>) -> (r: Result<SqlType, TypeError>)
        ensures
            r == map_type(ty, attr@, size),
    {
        if is_word(attr, "varchar") {
            if ty == LogicalType::Str {
                match size {
                    Some(n) => Ok(SqlType::Varchar(n)),
                    None => Err(TypeError::MissingVarcharSize),
                }
            } else {
                Err(TypeError::IncompatibleVarcharType)
            }
        } else if is_word(attr, "text") {
            if size.is_some() { Err(TypeError::TextSizeNotSupported) } else { Ok(SqlType::Text) }
        } else if is_word(attr, "integer") {
            if size.is_some() {
                Err(TypeError::IntegerSizeNotSupported)
            } else if ty != LogicalType::Str {
                Ok(SqlType::Integer)
            } else {
                Err(TypeError::UnknownType)
            }
        } else {
            Err(TypeError::UnknownType)
        }
    }

    /// The SQL spelling of this column type.
    pub fn to_string(&self) -> (r: String)
        ensures
            r@ == sql_type_text(*self),
    {
        match self {
            SqlType::Integer => String::from_str("INTEGER"),
            SqlType::Text => String::from_str("TEXT"),
            SqlType::Varchar(n) => {
                let mut r = String::from_str("VARCHAR(");
                push_decimal(&mut r, *n as u128);
                r.append(")");
                r
            },
        }
    }

    /// Whether values of this column are written between single quotes.
    pub fn is_textual(&self) -> (r: bool)
        ensures
            r == is_textual(*self),
    {
        !matches!(self, SqlType::Integer)
    }
}

} // verus!
