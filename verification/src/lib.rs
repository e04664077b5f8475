//! Parsers for a practical subset of MySQL `CREATE TABLE` statements,
//! together with a few small companion parsers and text helpers.
//!
//! The central entry point is [`ddl::parse_create_sql`], which turns one
//! `CREATE TABLE` statement into a [`ast::TableSchema`]: the table name, the
//! ordered column definitions and the table options.  Every parser consumes a
//! prefix of its input and either succeeds with the unconsumed remainder and a
//! value, or fails returning the input unchanged.  The grammar itself is
//! stated as spec functions in [`grammar`], and each executable parser is
//! proved to return exactly what its spec function describes.

pub mod ast;
pub mod ddl;
pub mod grammar;
pub mod hexcolor;
pub mod http;
pub mod markdown;
pub mod mdvals;
pub mod num;
pub mod quoted;
pub mod render;
pub mod sqlvals;
pub mod text;
pub mod xml;
