//! General SQL value and type vocabulary: the full range of column types
//! and literal values a broader SQL dialect can name.  The `CREATE TABLE`
//! grammar in [`crate::ddl`] covers only the subset in
//! [`crate::ast::DataTypeEnum`]; these types stand ready for wider
//! statement coverage.

use vstd::prelude::*;

verus! {

/// A SQL column type, with width, precision or enumeration payloads.
#[derive(Clone, Debug, Eq, Hash, PartialEq)]
pub enum SqlType {
    Bool,
    Char(u16),
    Varchar(u16),
    Int(u16),
    UnsignedInt(u16),
    Bigint(u16),
    UnsignedBigint(u16),
    Tinyint(u16),
    UnsignedTinyint(u16),
    Blob,
    Longblob,
    Mediumblob,
    Tinyblob,
    Double,
    Float,
    Real,
    Tinytext,
    Mediumtext,
    Longtext,
    Text,
    Date,
    DateTime(u16),
    Timestamp,
    Binary(u16),
    Varbinary(u16),
    Enum(Vec<Literal>),
    Decimal(u8, u8),
}

/// A SQL literal value.
#[derive(Clone, Debug, Eq, Hash, PartialEq)]
pub enum Literal {
    Null,
    Integer(i64),
    UnsignedInteger(u64),
    FixedPoint(Real),
    String(String),
    Blob(Vec<u8>),
    CurrentTime,
    CurrentDate,
    CurrentTimestamp,
    Placeholder(ItemPlaceholder),
}

/// A prepared-statement placeholder.
#[derive(Clone, Debug, Eq, Hash, PartialEq)]
pub enum ItemPlaceholder {
    QuestionMark,
    DollarNumber(i32),
    ColonNumber(i32),
}

/// A fixed-point number as an integral and a fractional part.
#[derive(Clone, Debug, Eq, Hash, PartialEq)]
pub struct Real {
    pub integral: i32,
    pub fractional: i32,
}

/// A placeholder entry point for statement parsing over this vocabulary.
pub fn parse_sql1() {
}

} // verus!
