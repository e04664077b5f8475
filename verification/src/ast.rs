//! The schema values produced by the `CREATE TABLE` parser, together with
//! their mathematical views: each executable type with `String` fields has a
//! spec-level mirror over `Seq<char>`.

use vstd::prelude::*;

verus! {

/// A column's data type.  Width and precision are the only payload that is
/// kept; display width and signedness of the integer family are parsed and
/// discarded.
#[derive(Debug, PartialEq, Eq, Clone, Copy)]
pub enum DataTypeEnum {
    TinyInt,
    SmallInt,
    Int,
    Bigint,
    VarChar(u32),
    DateTime(u32),
    Text,
    BigText,
    Decimal(u8),
    Unknown,
}

/// A column's default-value clause.
#[derive(Debug, PartialEq, Eq, Clone)]
pub enum DefaultEnum {
    /// No `DEFAULT` clause at all.
    DefaultNone,
    DefaultNull,
    DefaultInt(u32),
    DefaultStr(String),
    DefaultCurStamp,
    DefaultAutoIncrement,
    DefaultCurStampOnUpdateCurStamp,
    DefaultOnUpdateCurStamp,
    Unknown,
}

/// Spec-level mirror of [`DefaultEnum`].
pub enum SpecDefault {
    DefaultNone,
    DefaultNull,
    DefaultInt(u32),
    DefaultStr(Seq<char>),
    DefaultCurStamp,
    DefaultAutoIncrement,
    DefaultCurStampOnUpdateCurStamp,
    DefaultOnUpdateCurStamp,
    Unknown,
}

impl View for DefaultEnum {
    type V = SpecDefault;

    open spec fn view(&self) -> SpecDefault {
        match self {
            DefaultEnum::DefaultNone => SpecDefault::DefaultNone,
            DefaultEnum::DefaultNull => SpecDefault::DefaultNull,
            DefaultEnum::DefaultInt(n) => SpecDefault::DefaultInt(*n),
            DefaultEnum::DefaultStr(v) => SpecDefault::DefaultStr(v@),
            DefaultEnum::DefaultCurStamp => SpecDefault::DefaultCurStamp,
            DefaultEnum::DefaultAutoIncrement => SpecDefault::DefaultAutoIncrement,
            DefaultEnum::DefaultCurStampOnUpdateCurStamp => SpecDefault::DefaultCurStampOnUpdateCurStamp,
            DefaultEnum::DefaultOnUpdateCurStamp => SpecDefault::DefaultOnUpdateCurStamp,
            DefaultEnum::Unknown => SpecDefault::Unknown,
        }
    }
}

/// One column of a table: its name, data type and comment.  The parsed
/// default value is consumed by the grammar but not retained here.
#[derive(Debug, PartialEq, Eq)]
pub struct OneColumn {
    pub name: String,
    pub typ: DataTypeEnum,
    pub comment: String,
}

impl Clone for OneColumn {
    /// An equal column, field by field.
    fn clone(&self) -> (r: Self)
        ensures
            r@ == self@,
    {
        OneColumn { name: self.name.clone(), typ: self.typ, comment: self.comment.clone() }
    }
}

/// Spec-level mirror of [`OneColumn`].
pub struct SpecColumn {
    pub name: Seq<char>,
    pub typ: DataTypeEnum,
    pub comment: Seq<char>,
}

impl View for OneColumn {
    type V = SpecColumn;

    open spec fn view(&self) -> SpecColumn {
        SpecColumn { name: self.name@, typ: self.typ, comment: self.comment@ }
    }
}

impl OneColumn {
    /// Packs the three fields into a column record.
    pub fn new(name: String, typ: DataTypeEnum, comment: String) -> (r: Self)
        ensures
            r@.name == name@,
            r@.typ == typ,
            r@.comment == comment@,
    {
        OneColumn { name, typ, comment }
    }
}

/// The kind of an index declaration.
#[derive(Debug, PartialEq, Eq, Clone, Copy)]
pub enum IndexIdxTyeEnum {
    Primary,
    Unique,
    Normal,
    /// A `PRIMARY`/`UNIQUE` prefix that was tried but not recognized.
    Unspecified,
}

/// One index of a table.
#[derive(Debug, PartialEq, Eq, Clone)]
pub struct OneIndex {
    /// Empty when the index is unnamed.
    pub name: String,
    /// `BTREE` or `HASH` when a `USING` clause is present.
    pub using_type: Option<String>,
    pub typ: IndexIdxTyeEnum,
    pub column_names: Vec<String>,
}

/// Spec-level mirror of [`OneIndex`].
pub struct SpecIndex {
    pub name: Seq<char>,
    pub using_type: Option<Seq<char>>,
    pub typ: IndexIdxTyeEnum,
    pub column_names: Seq<Seq<char>>,
}

impl View for OneIndex {
    type V = SpecIndex;

    open spec fn view(&self) -> SpecIndex {
        SpecIndex {
            name: self.name@,
            using_type: match self.using_type {
                Option::Some(u) => Option::Some(u@),
                Option::None => Option::None,
            },
            typ: self.typ,
            column_names: Seq::new(self.column_names@.len(), |k: int| self.column_names@[k]@),
        }
    }
}

/// One line of a table body: a column definition or an index declaration.
#[derive(Debug, PartialEq, Eq, Clone)]
pub enum OneLineEnum {
    Column(OneColumn),
    Index(OneIndex),
}

/// Spec-level mirror of [`OneLineEnum`].
pub enum SpecLine {
    Column(SpecColumn),
    Index(SpecIndex),
}

impl View for OneLineEnum {
    type V = SpecLine;

    open spec fn view(&self) -> SpecLine {
        match self {
            OneLineEnum::Column(c) => SpecLine::Column(c@),
            OneLineEnum::Index(x) => SpecLine::Index(x@),
        }
    }
}

/// The trailing table options: all four are mandatory, in this order.
#[derive(Debug, PartialEq, Eq, Clone)]
pub struct TableOption {
    pub engine: String,
    pub charset: String,
    pub collate: String,
    pub comment: String,
}

/// Spec-level mirror of [`TableOption`].
pub struct SpecTableOption {
    pub engine: Seq<char>,
    pub charset: Seq<char>,
    pub collate: Seq<char>,
    pub comment: Seq<char>,
}

impl View for TableOption {
    type V = SpecTableOption;

    open spec fn view(&self) -> SpecTableOption {
        SpecTableOption {
            engine: self.engine@,
            charset: self.charset@,
            collate: self.collate@,
            comment: self.comment@,
        }
    }
}

/// A parsed table: its name, its columns (index lines filtered out, order
/// kept) and its options.
#[derive(Debug, PartialEq, Eq, Clone)]
pub struct TableSchema {
    pub table_name: String,
    pub column_arr: Vec<OneColumn>,
    pub option: TableOption,
}

/// Spec-level mirror of [`TableSchema`].
pub struct SpecTableSchema {
    pub table_name: Seq<char>,
    pub column_arr: Seq<SpecColumn>,
    pub option: SpecTableOption,
}

impl View for TableSchema {
    type V = SpecTableSchema;

    open spec fn view(&self) -> SpecTableSchema {
        SpecTableSchema {
            table_name: self.table_name@,
            column_arr: Seq::new(self.column_arr@.len(), |k: int| self.column_arr@[k]@),
            option: self.option@,
        }
    }
}

} // verus!
