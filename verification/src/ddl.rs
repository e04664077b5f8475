//! Executable parsers for the `CREATE TABLE` grammar.
//!
//! The `*_at` functions work over a character slice and a position and are
//! proved to return exactly what the corresponding spec function in
//! [`crate::grammar`] describes.  The public functions at the bottom take a
//! `&str`, parse a prefix, and return either the unconsumed remainder with
//! the parsed value or, on failure, the input unchanged.

use vstd::prelude::*;

use crate::ast::{DataTypeEnum, DefaultEnum, IndexIdxTyeEnum, OneColumn, OneIndex, OneLineEnum,
    TableOption, TableSchema};
use crate::grammar::{sp_auto_increment, sp_ch, sp_column_core,
    sp_column_definition1, sp_end_comma, sp_end_has_comma, sp_end_no_comma,
    sp_identifier_char,
    sp_comment_clause, sp_default_clause, sp_default_cur, sp_default_int, sp_default_null,
    sp_default_str, sp_define_line_list, sp_eq_sep, sp_idx_col_item, sp_idx_col_list,
    sp_idx_column_name, sp_idx_line, sp_idx_line2, sp_idx_part_prev, sp_idx_tail, sp_idx_using,
    sp_if_not_exists, sp_kw, sp_many1_define_line, sp_not_null,
    sp_null_kw, sp_on_update_cur, sp_one_define_line, sp_opt_default_kw,
    sp_parse_create_sql, sp_parse_create_table, sp_parse_data_type, sp_parse_default,
    sp_parse_table_option, sp_space1, sp_sql_identifier, sp_table_option_char_set,
    sp_table_option_collate,
    sp_table_option_comment, sp_table_option_engine, sp_type_bigtext, sp_type_collate,
    sp_type_datetime, sp_type_decimal, sp_type_int_size, sp_type_some_int, sp_type_text,
    sp_type_tiny_int, sp_type_varchar, sp_unsigned, spec_columns_of};
use crate::quoted::quoted_any_at;
use crate::text::{chars_to_string, chars_to_string_range, keyword, parse_u32_at,
    skip_ident_chars, skip_multispace, skip_space, tag, to_chars};

verus! {

/// Matches the single character `c` at `i`, as [`sp_ch`] describes.
fn ch(s: &[char], i: usize, c: char) -> (r: Option<usize>)
    requires
        i <= s@.len(),
    ensures
        r matches Some(p) ==> sp_ch(s@, i as int, c) == Some(p as int) && i < p <= s@.len(),
        r is None ==> sp_ch(s@, i as int, c) is None,
{
    if i < s.len() && s[i] == c {
        Some(i + 1)
    } else {
        None
    }
}

/// Matches a case-insensitive keyword at `i`, as [`sp_kw`] describes.
fn kw_at(s: &[char], i: usize, k: &str) -> (r: Option<usize>)
    requires
        i <= s@.len(),
    ensures
        r matches Some(p) ==> sp_kw(s@, i as int, k@) == Some(p as int) && i <= p <= s@.len(),
        r is None ==> sp_kw(s@, i as int, k@) is None,
{
    keyword(s, i, k)
}

/// Matches one or more spaces or tabs, as [`sp_space1`] describes.
fn space1_at(s: &[char], i: usize) -> (r: Option<usize>)
    requires
        i <= s@.len(),
    ensures
        r matches Some(p) ==> sp_space1(s@, i as int) == Some(p as int) && i < p <= s@.len(),
        r is None ==> sp_space1(s@, i as int) is None,
{
    if i < s.len() && crate::text::is_space_char_exec(s[i]) {
        proof {
            crate::text::lemma_run_end_space_bounds(s@, i as int);
        }
        Some(skip_space(s, i))
    } else {
        None
    }
}

/// Parses a SQL identifier, as [`sp_sql_identifier`] describes.
fn ident_at(s: &[char], i: usize) -> (r: Option<(usize, String)>)
    requires
        i <= s@.len(),
    ensures
        r matches Some(p) ==> sp_sql_identifier(s@, i as int) == Some((p.0 as int, p.1@)) && i
            < p.0 <= s@.len(),
        r is None ==> sp_sql_identifier(s@, i as int) is None,
{
    let i1 = if i < s.len() && s[i] == '`' {
        i + 1
    } else {
        i
    };
    let e = skip_ident_chars(s, i1);
    if e == i1 {
        None
    } else {
        let i2 = if e < s.len() && s[e] == '`' {
            e + 1
        } else {
            e
        };
        Some((i2, chars_to_string_range(s, i1, e)))
    }
}

/// Parses ` NOT NULL`, as [`sp_not_null`] describes.
fn not_null_at(s: &[char], i: usize) -> (r: Option<usize>)
    requires
        i <= s@.len(),
    ensures
        r matches Some(p) ==> sp_not_null(s@, i as int) == Some(p as int) && i <= p <= s@.len(),
        r is None ==> sp_not_null(s@, i as int) is None,
{
    let a = match space1_at(s, i) {
        Some(a) => a,
        None => {
            return None;
        },
    };
    let b = match kw_at(s, a, "not") {
        Some(b) => b,
        None => {
            return None;
        },
    };
    let c = match space1_at(s, b) {
        Some(c) => c,
        None => {
            return None;
        },
    };
    kw_at(s, c, "null")
}

/// Parses `DEFAULT <u32>`, as [`sp_default_int`] describes.
fn default_int_at(s: &[char], i: usize) -> (r: Option<(usize, u32)>)
    requires
        i <= s@.len(),
    ensures
        r matches Some(p) ==> sp_default_int(s@, i as int) == Some((p.0 as int, p.1)) && i <= p.0
            <= s@.len(),
        r is None ==> sp_default_int(s@, i as int) is None,
{
    let a = match kw_at(s, i, "default") {
        Some(a) => a,
        None => {
            return None;
        },
    };
    let b = match space1_at(s, a) {
        Some(b) => b,
        None => {
            return None;
        },
    };
    parse_u32_at(s, b)
}

/// Parses `DEFAULT '<string>'`, as [`sp_default_str`] describes.
fn default_str_at(s: &[char], i: usize) -> (r: Option<(usize, String)>)
    requires
        i <= s@.len(),
    ensures
        r matches Some(p) ==> sp_default_str(s@, i as int) == Some((p.0 as int, p.1@)) && i
            <= p.0 <= s@.len(),
        r is None ==> sp_default_str(s@, i as int) is None,
{
    let a = match kw_at(s, i, "default") {
        Some(a) => a,
        None => {
            return None;
        },
    };
    let b = match space1_at(s, a) {
        Some(b) => b,
        None => {
            return None;
        },
    };
    match quoted_any_at(s, b) {
        Some((c, v)) => Some((c, chars_to_string(v.as_slice()))),
        None => None,
    }
}

/// Parses `DEFAULT NULL`, as [`sp_default_null`] describes.
fn default_null_at(s: &[char], i: usize) -> (r: Option<usize>)
    requires
        i <= s@.len(),
    ensures
        r matches Some(p) ==> sp_default_null(s@, i as int) == Some(p as int) && i <= p
            <= s@.len(),
        r is None ==> sp_default_null(s@, i as int) is None,
{
    let a = match kw_at(s, i, "default") {
        Some(a) => a,
        None => {
            return None;
        },
    };
    let b = match space1_at(s, a) {
        Some(b) => b,
        None => {
            return None;
        },
    };
    kw_at(s, b, "null")
}

/// Parses ` ON UPDATE CURRENT_TIMESTAMP`, as [`sp_on_update_cur`] describes.
fn on_update_cur_at(s: &[char], i: usize) -> (r: Option<usize>)
    requires
        i <= s@.len(),
    ensures
        r matches Some(p) ==> sp_on_update_cur(s@, i as int) == Some(p as int) && i <= p
            <= s@.len(),
        r is None ==> sp_on_update_cur(s@, i as int) is None,
{
    let a = match space1_at(s, i) {
        Some(a) => a,
        None => {
            return None;
        },
    };
    let b = match kw_at(s, a, "on") {
        Some(b) => b,
        None => {
            return None;
        },
    };
    let c = match space1_at(s, b) {
        Some(c) => c,
        None => {
            return None;
        },
    };
    let d = match kw_at(s, c, "update") {
        Some(d) => d,
        None => {
            return None;
        },
    };
    let e = match space1_at(s, d) {
        Some(e) => e,
        None => {
            return None;
        },
    };
    kw_at(s, e, "current_timestamp")
}

/// Parses `DEFAULT CURRENT_TIMESTAMP [ON UPDATE ...]`, as
/// [`sp_default_cur`] describes.
fn default_cur_at(s: &[char], i: usize) -> (r: Option<(usize, bool)>)
    requires
        i <= s@.len(),
    ensures
        r matches Some(p) ==> sp_default_cur(s@, i as int) == Some((p.0 as int, p.1)) && i <= p.0
            <= s@.len(),
        r is None ==> sp_default_cur(s@, i as int) is None,
{
    let a = match kw_at(s, i, "default") {
        Some(a) => a,
        None => {
            return None;
        },
    };
    let b = match space1_at(s, a) {
        Some(b) => b,
        None => {
            return None;
        },
    };
    let c = match kw_at(s, b, "current_timestamp") {
        Some(c) => c,
        None => {
            return None;
        },
    };
    match on_update_cur_at(s, c) {
        Some(d) => Some((d, true)),
        None => Some((c, false)),
    }
}

/// Parses one default alternative after whitespace, as
/// [`sp_parse_default`] describes.
fn parse_default_at(s: &[char], i: usize) -> (r: Option<(usize, DefaultEnum)>)
    requires
        i <= s@.len(),
    ensures
        r matches Some(p) ==> sp_parse_default(s@, i as int) == Some((p.0 as int, p.1@)) && i
            <= p.0 <= s@.len(),
        r is None ==> sp_parse_default(s@, i as int) is None,
{
    let a = match space1_at(s, i) {
        Some(a) => a,
        None => {
            return None;
        },
    };
    if let Some((b, n)) = default_int_at(s, a) {
        return Some((b, DefaultEnum::DefaultInt(n)));
    }
    if let Some((b, v)) = default_str_at(s, a) {
        return Some((b, DefaultEnum::DefaultStr(v)));
    }
    if let Some(b) = default_null_at(s, a) {
        return Some((b, DefaultEnum::DefaultNull));
    }
    if let Some((b, on_update)) = default_cur_at(s, a) {
        if on_update {
            return Some((b, DefaultEnum::DefaultCurStampOnUpdateCurStamp));
        } else {
            return Some((b, DefaultEnum::DefaultCurStamp));
        }
    }
    if let Some(b) = kw_at(s, a, "auto_increment") {
        return Some((b, DefaultEnum::DefaultAutoIncrement));
    }
    None
}

/// Parses the whole default clause, as [`sp_default_clause`] describes.
fn default_clause_at(s: &[char], i: usize) -> (r: (usize, DefaultEnum))
    requires
        i <= s@.len(),
    ensures
        sp_default_clause(s@, i as int) == (r.0 as int, r.1@),
        i <= r.0 <= s@.len(),
{
    let a = match not_null_at(s, i) {
        Some(a) => a,
        None => i,
    };
    match parse_default_at(s, a) {
        Some((b, _v)) => (b, DefaultEnum::DefaultNull),
        None => (a, DefaultEnum::DefaultNone),
    }
}

/// Parses ` COMMENT '<string>'`, as [`sp_comment_clause`] describes.
fn comment_clause_at(s: &[char], i: usize) -> (r: Option<(usize, String)>)
    requires
        i <= s@.len(),
    ensures
        r matches Some(p) ==> sp_comment_clause(s@, i as int) == Some((p.0 as int, p.1@)) && i
            <= p.0 <= s@.len(),
        r is None ==> sp_comment_clause(s@, i as int) is None,
{
    let a = match space1_at(s, i) {
        Some(a) => a,
        None => {
            return None;
        },
    };
    let b = match kw_at(s, a, "comment") {
        Some(b) => b,
        None => {
            return None;
        },
    };
    let c = match space1_at(s, b) {
        Some(c) => c,
        None => {
            return None;
        },
    };
    match quoted_any_at(s, c) {
        Some((d, v)) => Some((d, chars_to_string(v.as_slice()))),
        None => None,
    }
}

/// Parses `(<u32>)`, as [`sp_type_int_size`] describes.
fn type_int_size_at(s: &[char], i: usize) -> (r: Option<(usize, u32)>)
    requires
        i <= s@.len(),
    ensures
        r matches Some(p) ==> sp_type_int_size(s@, i as int) == Some((p.0 as int, p.1)) && i
            <= p.0 <= s@.len(),
        r is None ==> sp_type_int_size(s@, i as int) is None,
{
    let a = match ch(s, i, '(') {
        Some(a) => a,
        None => {
            return None;
        },
    };
    let (b, v) = match parse_u32_at(s, a) {
        Some(p) => p,
        None => {
            return None;
        },
    };
    match ch(s, b, ')') {
        Some(c) => Some((c, v)),
        None => None,
    }
}

/// Parses ` UNSIGNED`, as [`sp_unsigned`] describes.
fn unsigned_at(s: &[char], i: usize) -> (r: Option<usize>)
    requires
        i <= s@.len(),
    ensures
        r matches Some(p) ==> sp_unsigned(s@, i as int) == Some(p as int) && i <= p <= s@.len(),
        r is None ==> sp_unsigned(s@, i as int) is None,
{
    let a = match space1_at(s, i) {
        Some(a) => a,
        None => {
            return None;
        },
    };
    kw_at(s, a, "unsigned")
}

/// Parses ` COLLATE <identifier>`, as [`sp_type_collate`] describes.
fn type_collate_at(s: &[char], i: usize) -> (r: Option<(usize, String)>)
    requires
        i <= s@.len(),
    ensures
        r matches Some(p) ==> sp_type_collate(s@, i as int) == Some((p.0 as int, p.1@)) && i
            <= p.0 <= s@.len(),
        r is None ==> sp_type_collate(s@, i as int) is None,
{
    let a = match space1_at(s, i) {
        Some(a) => a,
        None => {
            return None;
        },
    };
    let b = match kw_at(s, a, "collate") {
        Some(b) => b,
        None => {
            return None;
        },
    };
    let c = match space1_at(s, b) {
        Some(c) => c,
        None => {
            return None;
        },
    };
    ident_at(s, c)
}

/// The integer-family keyword at `i` matched case-insensitively; the value
/// is decided by the text as written, as [`int_flag_value`] describes.
fn type_some_int_at(s: &[char], i: usize) -> (r: Option<(usize, DataTypeEnum)>)
    requires
        i <= s@.len(),
    ensures
        r matches Some(p) ==> sp_type_some_int(s@, i as int) == Some((p.0 as int, p.1)) && i
            <= p.0 <= s@.len(),
        r is None ==> sp_type_some_int(s@, i as int) is None,
{
    proof {
        reveal_strlit("int");
        reveal_strlit("bigint");
        reveal_strlit("smallint");
        reveal_strlit("tinyint");
    }
    let flag: Option<(usize, DataTypeEnum)> = if let Some(a) = kw_at(s, i, "int") {
        let v = if tag(s, i, "int").is_some() {
            DataTypeEnum::Int
        } else {
            DataTypeEnum::Unknown
        };
        proof {
            lemma_flag_decides(s@, i as int, a as int, ("int")@);
        }
        Some((a, v))
    } else if let Some(a) = kw_at(s, i, "bigint") {
        let v = if tag(s, i, "bigint").is_some() {
            DataTypeEnum::Bigint
        } else {
            DataTypeEnum::Unknown
        };
        proof {
            lemma_flag_decides(s@, i as int, a as int, ("bigint")@);
        }
        Some((a, v))
    } else if let Some(a) = kw_at(s, i, "smallint") {
        let v = if tag(s, i, "smallint").is_some() {
            DataTypeEnum::SmallInt
        } else {
            DataTypeEnum::Unknown
        };
        proof {
            lemma_flag_decides(s@, i as int, a as int, ("smallint")@);
        }
        Some((a, v))
    } else if let Some(a) = kw_at(s, i, "tinyint") {
        let v = if tag(s, i, "tinyint").is_some() {
            DataTypeEnum::TinyInt
        } else {
            DataTypeEnum::Unknown
        };
        proof {
            lemma_flag_decides(s@, i as int, a as int, ("tinyint")@);
        }
        Some((a, v))
    } else {
        None
    };
    let (a, v) = match flag {
        Some(p) => p,
        None => {
            return None;
        },
    };
    let b = match type_int_size_at(s, a) {
        Some((b, _n)) => b,
        None => a,
    };
    let c = match unsigned_at(s, b) {
        Some(c) => c,
        None => b,
    };
    Some((c, v))
}

/// When a keyword `k` matched case-insensitively at `i..a`, the consumed
/// text equals `k` exactly if and only if the exact comparison succeeds;
/// and a consumed text of `k`'s length can equal no keyword of another
/// length.
proof fn lemma_flag_decides(s: Seq<char>, i: int, a: int, k: Seq<char>)
    requires
        0 <= i,
        i + k.len() <= s.len(),
        a == i + k.len(),
    ensures
        crate::text::tag_matches(s, i, k) ==> s.subrange(i, a) == k,
        !crate::text::tag_matches(s, i, k) ==> s.subrange(i, a) != k,
        forall|other: Seq<char>| other.len() != k.len() ==> s.subrange(i, a) != other,
{
    if crate::text::tag_matches(s, i, k) {
        assert(s.subrange(i, a) =~= k);
    } else {
        if s.subrange(i, a) == k {
            assert(forall|j: int| 0 <= j < k.len() ==> s.subrange(i, a)[j] == s[i + j]);
            assert(crate::text::tag_matches(s, i, k));
        }
    }
    assert(s.subrange(i, a).len() == k.len());
}

/// Parses `tinyint` with optional size, as [`sp_type_tiny_int`] describes.
fn type_tiny_int_at(s: &[char], i: usize) -> (r: Option<(usize, DataTypeEnum)>)
    requires
        i <= s@.len(),
    ensures
        r matches Some(p) ==> sp_type_tiny_int(s@, i as int) == Some((p.0 as int, p.1)) && i
            <= p.0 <= s@.len(),
        r is None ==> sp_type_tiny_int(s@, i as int) is None,
{
    let a = match kw_at(s, i, "tinyint") {
        Some(a) => a,
        None => {
            return None;
        },
    };
    let b = match type_int_size_at(s, a) {
        Some((b, _n)) => b,
        None => a,
    };
    Some((b, DataTypeEnum::TinyInt))
}

/// Parses `varchar(<n>)`, as [`sp_type_varchar`] describes.
fn type_varchar_at(s: &[char], i: usize) -> (r: Option<(usize, DataTypeEnum)>)
    requires
        i <= s@.len(),
    ensures
        r matches Some(p) ==> sp_type_varchar(s@, i as int) == Some((p.0 as int, p.1)) && i
            <= p.0 <= s@.len(),
        r is None ==> sp_type_varchar(s@, i as int) is None,
{
    let a = match kw_at(s, i, "varchar") {
        Some(a) => a,
        None => {
            return None;
        },
    };
    let (b, n) = match type_int_size_at(s, a) {
        Some(p) => p,
        None => {
            return None;
        },
    };
    let c = match type_collate_at(s, b) {
        Some((c, _v)) => c,
        None => b,
    };
    Some((c, DataTypeEnum::VarChar(n)))
}

/// Parses `datetime` with optional precision, as [`sp_type_datetime`]
/// describes.
fn type_datetime_at(s: &[char], i: usize) -> (r: Option<(usize, DataTypeEnum)>)
    requires
        i <= s@.len(),
    ensures
        r matches Some(p) ==> sp_type_datetime(s@, i as int) == Some((p.0 as int, p.1)) && i
            <= p.0 <= s@.len(),
        r is None ==> sp_type_datetime(s@, i as int) is None,
{
    let a = match kw_at(s, i, "datetime") {
        Some(a) => a,
        None => {
            return None;
        },
    };
    match type_int_size_at(s, a) {
        Some((b, n)) => Some((b, DataTypeEnum::DateTime(n))),
        None => Some((a, DataTypeEnum::DateTime(0))),
    }
}

/// Parses `text`, as [`sp_type_text`] describes.
fn type_text_at(s: &[char], i: usize) -> (r: Option<(usize, DataTypeEnum)>)
    requires
        i <= s@.len(),
    ensures
        r matches Some(p) ==> sp_type_text(s@, i as int) == Some((p.0 as int, p.1)) && i <= p.0
            <= s@.len(),
        r is None ==> sp_type_text(s@, i as int) is None,
{
    let a = match kw_at(s, i, "text") {
        Some(a) => a,
        None => {
            return None;
        },
    };
    let b = match type_collate_at(s, a) {
        Some((b, _v)) => b,
        None => a,
    };
    Some((b, DataTypeEnum::Text))
}

/// Parses `bigtext`, as [`sp_type_bigtext`] describes.
fn type_bigtext_at(s: &[char], i: usize) -> (r: Option<(usize, DataTypeEnum)>)
    requires
        i <= s@.len(),
    ensures
        r matches Some(p) ==> sp_type_bigtext(s@, i as int) == Some((p.0 as int, p.1)) && i
            <= p.0 <= s@.len(),
        r is None ==> sp_type_bigtext(s@, i as int) is None,
{
    let a = match kw_at(s, i, "bigtext") {
        Some(a) => a,
        None => {
            return None;
        },
    };
    let b = match type_collate_at(s, a) {
        Some((b, _v)) => b,
        None => a,
    };
    Some((b, DataTypeEnum::BigText))
}

/// Parses `decimal(<n>)`, as [`sp_type_decimal`] describes.
fn type_decimal_at(s: &[char], i: usize) -> (r: Option<(usize, DataTypeEnum)>)
    requires
        i <= s@.len(),
    ensures
        r matches Some(p) ==> sp_type_decimal(s@, i as int) == Some((p.0 as int, p.1)) && i
            <= p.0 <= s@.len(),
        r is None ==> sp_type_decimal(s@, i as int) is None,
{
    let a = match kw_at(s, i, "decimal") {
        Some(a) => a,
        None => {
            return None;
        },
    };
    let (b, n) = match type_int_size_at(s, a) {
        Some(p) => p,
        None => {
            return None;
        },
    };
    Some((b, DataTypeEnum::Decimal((n % 256) as u8)))
}

/// Parses a data type, as [`sp_parse_data_type`] describes.
fn parse_data_type_at(s: &[char], i: usize) -> (r: Option<(usize, DataTypeEnum)>)
    requires
        i <= s@.len(),
    ensures
        r matches Some(p) ==> sp_parse_data_type(s@, i as int) == Some((p.0 as int, p.1)) && i
            <= p.0 <= s@.len(),
        r is None ==> sp_parse_data_type(s@, i as int) is None,
{
    if let Some(p) = type_some_int_at(s, i) {
        return Some(p);
    }
    if let Some(p) = type_varchar_at(s, i) {
        return Some(p);
    }
    if let Some(p) = type_datetime_at(s, i) {
        return Some(p);
    }
    type_decimal_at(s, i)
}

/// The views of a vector of columns, in order.
pub open spec fn cols_view(v: Seq<OneColumn>) -> Seq<crate::ast::SpecColumn> {
    Seq::new(v.len(), |k: int| v[k]@)
}

/// The views of a vector of strings, in order.
pub open spec fn strs_view(v: Seq<String>) -> Seq<Seq<char>> {
    Seq::new(v.len(), |k: int| v[k]@)
}

/// The views of a vector of body lines, in order.
pub open spec fn lines_view(v: Seq<OneLineEnum>) -> Seq<crate::ast::SpecLine> {
    Seq::new(v.len(), |k: int| v[k]@)
}

/// Parses one column definition without leading whitespace, as
/// [`sp_column_core`] describes.
fn column_core_at(s: &[char], i: usize) -> (r: Option<(usize, OneColumn)>)
    requires
        i <= s@.len(),
    ensures
        r matches Some(p) ==> sp_column_core(s@, i as int) == Some((p.0 as int, p.1@)) && i
            < p.0 <= s@.len(),
        r is None ==> sp_column_core(s@, i as int) is None,
{
    let (a, name) = match ident_at(s, i) {
        Some(p) => p,
        None => {
            return None;
        },
    };
    let b = match space1_at(s, a) {
        Some(b) => b,
        None => {
            return None;
        },
    };
    let (c, typ) = match parse_data_type_at(s, b) {
        Some(p) => p,
        None => {
            return None;
        },
    };
    let (d, _default) = default_clause_at(s, c);
    let (e, comment) = match comment_clause_at(s, d) {
        Some(p) => p,
        None => (d, String::new()),
    };
    let f = skip_space(s, e);
    let g = match ch(s, f, ',') {
        Some(g) => g,
        None => {
            return None;
        },
    };
    let h = skip_multispace(s, g);
    Some((h, OneColumn { name, typ, comment }))
}

/// Parses one column definition with leading whitespace, as
/// [`sp_column_definition1`] describes.
fn column_definition1_at(s: &[char], i: usize) -> (r: Option<(usize, OneColumn)>)
    requires
        i <= s@.len(),
    ensures
        r matches Some(p) ==> sp_column_definition1(s@, i as int) == Some((p.0 as int, p.1@))
            && i < p.0 <= s@.len(),
        r is None ==> sp_column_definition1(s@, i as int) is None,
{
    let a = skip_multispace(s, i);
    column_core_at(s, a)
}

/// Parses one entry of an index's column list, as [`sp_idx_col_item`]
/// describes.
fn idx_col_item_at(s: &[char], i: usize) -> (r: Option<(usize, String)>)
    requires
        i <= s@.len(),
    ensures
        r matches Some(p) ==> sp_idx_col_item(s@, i as int) == Some((p.0 as int, p.1@)) && i
            < p.0 <= s@.len(),
        r is None ==> sp_idx_col_item(s@, i as int) is None,
{
    let (a, name) = match ident_at(s, i) {
        Some(p) => p,
        None => {
            return None;
        },
    };
    let b = skip_space(s, a);
    let c = match ch(s, b, ',') {
        Some(c) => c,
        None => b,
    };
    Some((c, name))
}

/// Parses the parenthesized column list of an index, as
/// [`sp_idx_column_name`] describes.
fn idx_column_name_at(s: &[char], i: usize) -> (r: Option<(usize, Vec<String>)>)
    requires
        i <= s@.len(),
    ensures
        r matches Some(p) ==> sp_idx_column_name(s@, i as int) == Some(
            (p.0 as int, strs_view(p.1@)),
        ) && i < p.0 <= s@.len(),
        r is None ==> sp_idx_column_name(s@, i as int) is None,
{
    let a = skip_space(s, i);
    let b = match ch(s, a, '(') {
        Some(b) => b,
        None => {
            return None;
        },
    };
    let mut j = b;
    let mut acc: Vec<String> = Vec::new();
    loop
        invariant
            b <= j <= s@.len(),
            sp_idx_col_list(s@, b as int).0 == sp_idx_col_list(s@, j as int).0,
            sp_idx_col_list(s@, b as int).1 == strs_view(acc@) + sp_idx_col_list(s@, j as int).1,
        ensures
            sp_idx_col_list(s@, b as int).0 == j,
            sp_idx_col_list(s@, b as int).1 == strs_view(acc@),
            b <= j <= s@.len(),
        decreases s@.len() - j,
    {
        let ghost acc0 = acc@;
        match idx_col_item_at(s, j) {
            Some((j2, name)) => {
                let ghost namev = name@;
                acc.push(name);
                proof {
                    assert(strs_view(acc@) + sp_idx_col_list(s@, j2 as int).1 =~= strs_view(acc0)
                        + (seq![namev] + sp_idx_col_list(s@, j2 as int).1));
                }
                j = j2;
            },
            None => {
                proof {
                    assert(strs_view(acc@) + sp_idx_col_list(s@, j as int).1 =~= strs_view(acc@));
                }
                break;
            },
        }
    }
    if acc.len() == 0 {
        return None;
    }
    match ch(s, j, ')') {
        Some(c) => Some((c, acc)),
        None => None,
    }
}

/// Parses ` USING BTREE|HASH`, as [`sp_idx_using`] describes.
fn idx_using_at(s: &[char], i: usize) -> (r: Option<(usize, String)>)
    requires
        i <= s@.len(),
    ensures
        r matches Some(p) ==> sp_idx_using(s@, i as int) == Some((p.0 as int, p.1@)) && i <= p.0
            <= s@.len(),
        r is None ==> sp_idx_using(s@, i as int) is None,
{
    let a = match space1_at(s, i) {
        Some(a) => a,
        None => {
            return None;
        },
    };
    let b = match kw_at(s, a, "using") {
        Some(b) => b,
        None => {
            return None;
        },
    };
    let c = match space1_at(s, b) {
        Some(c) => c,
        None => {
            return None;
        },
    };
    if let Some(d) = kw_at(s, c, "btree") {
        return Some((d, chars_to_string_range(s, c, d)));
    }
    match kw_at(s, c, "hash") {
        Some(d) => Some((d, chars_to_string_range(s, c, d))),
        None => None,
    }
}

/// Parses the optional `PRIMARY `/`UNIQUE ` prefix, as
/// [`sp_idx_part_prev`] describes.
fn idx_part_prev_at(s: &[char], i: usize) -> (r: Option<(usize, IndexIdxTyeEnum)>)
    requires
        i <= s@.len(),
    ensures
        r matches Some(p) ==> sp_idx_part_prev(s@, i as int) == Some((p.0 as int, p.1)) && i
            <= p.0 <= s@.len(),
        r is None ==> sp_idx_part_prev(s@, i as int) is None,
{
    if let Some(a) = kw_at(s, i, "primary") {
        return match space1_at(s, a) {
            Some(b) => Some((b, IndexIdxTyeEnum::Primary)),
            None => None,
        };
    }
    match kw_at(s, i, "unique") {
        Some(a) => match space1_at(s, a) {
            Some(b) => Some((b, IndexIdxTyeEnum::Unique)),
            None => None,
        },
        None => None,
    }
}

/// Parses the shared tail of an index declaration, as [`sp_idx_tail`]
/// describes.
fn idx_tail_at(s: &[char], i: usize, typ: IndexIdxTyeEnum) -> (r: Option<(usize, OneIndex)>)
    requires
        i <= s@.len(),
    ensures
        r matches Some(p) ==> sp_idx_tail(s@, i as int, typ) == Some((p.0 as int, p.1@)) && i
            < p.0 <= s@.len(),
        r is None ==> sp_idx_tail(s@, i as int, typ) is None,
{
    let a = match kw_at(s, i, "key") {
        Some(a) => a,
        None => {
            return None;
        },
    };
    let b = match space1_at(s, a) {
        Some(b) => b,
        None => {
            return None;
        },
    };
    let (c, name) = match ident_at(s, b) {
        Some(p) => p,
        None => (b, String::new()),
    };
    let (d, cols) = match idx_column_name_at(s, c) {
        Some(p) => p,
        None => {
            return None;
        },
    };
    let (e, using_type) = match idx_using_at(s, d) {
        Some((e, u)) => (e, Some(u)),
        None => (d, None),
    };
    let f = match ch(s, e, ',') {
        Some(f) => f,
        None => e,
    };
    let g = skip_multispace(s, f);
    let idx = OneIndex { name, using_type, typ, column_names: cols };
    proof {
        assert(idx@.column_names =~= strs_view(idx.column_names@));
        reveal_strlit("key");
    }
    Some((g, idx))
}

/// Parses an index declaration that must begin with `PRIMARY` or
/// `UNIQUE`, as [`sp_idx_line`] describes.
fn idx_line_at(s: &[char], i: usize) -> (r: Option<(usize, OneIndex)>)
    requires
        i <= s@.len(),
    ensures
        r matches Some(p) ==> sp_idx_line(s@, i as int) == Some((p.0 as int, p.1@)) && i < p.0
            <= s@.len(),
        r is None ==> sp_idx_line(s@, i as int) is None,
{
    let (a, typ) = match idx_part_prev_at(s, i) {
        Some(p) => p,
        None => {
            return None;
        },
    };
    idx_tail_at(s, a, typ)
}

/// Parses an index declaration with optional prefix, as [`sp_idx_line2`]
/// describes.
fn idx_line2_at(s: &[char], i: usize) -> (r: Option<(usize, OneIndex)>)
    requires
        i <= s@.len(),
    ensures
        r matches Some(p) ==> sp_idx_line2(s@, i as int) == Some((p.0 as int, p.1@)) && i < p.0
            <= s@.len(),
        r is None ==> sp_idx_line2(s@, i as int) is None,
{
    let a = skip_multispace(s, i);
    let (b, typ) = match idx_part_prev_at(s, a) {
        Some(p) => p,
        None => (a, IndexIdxTyeEnum::Normal),
    };
    idx_tail_at(s, b, typ)
}

/// Parses one body line, as [`sp_one_define_line`] describes.
fn one_define_line_at(s: &[char], i: usize) -> (r: Option<(usize, OneLineEnum)>)
    requires
        i <= s@.len(),
    ensures
        r matches Some(p) ==> sp_one_define_line(s@, i as int) == Some((p.0 as int, p.1@)) && i
            < p.0 <= s@.len(),
        r is None ==> sp_one_define_line(s@, i as int) is None,
{
    if let Some((a, x)) = idx_line2_at(s, i) {
        return Some((a, OneLineEnum::Index(x)));
    }
    match column_definition1_at(s, i) {
        Some((a, c)) => Some((a, OneLineEnum::Column(c))),
        None => None,
    }
}

/// Parses the parenthesized table body, as [`sp_many1_define_line`]
/// describes.
fn many1_define_line_at(s: &[char], i: usize) -> (r: Option<(usize, Vec<OneLineEnum>)>)
    requires
        i <= s@.len(),
    ensures
        r matches Some(p) ==> sp_many1_define_line(s@, i as int) == Some(
            (p.0 as int, lines_view(p.1@)),
        ) && i < p.0 <= s@.len(),
        r is None ==> sp_many1_define_line(s@, i as int) is None,
{
    let a = match ch(s, i, '(') {
        Some(a) => a,
        None => {
            return None;
        },
    };
    let b = skip_multispace(s, a);
    let mut j = b;
    let mut acc: Vec<OneLineEnum> = Vec::new();
    loop
        invariant
            b <= j <= s@.len(),
            sp_define_line_list(s@, b as int).0 == sp_define_line_list(s@, j as int).0,
            sp_define_line_list(s@, b as int).1 == lines_view(acc@) + sp_define_line_list(
                s@,
                j as int,
            ).1,
        ensures
            sp_define_line_list(s@, b as int).0 == j,
            sp_define_line_list(s@, b as int).1 == lines_view(acc@),
            b <= j <= s@.len(),
        decreases s@.len() - j,
    {
        let ghost acc0 = acc@;
        match one_define_line_at(s, j) {
            Some((j2, line)) => {
                let ghost linev = line@;
                acc.push(line);
                proof {
                    assert(lines_view(acc@) + sp_define_line_list(s@, j2 as int).1 =~= lines_view(
                        acc0,
                    ) + (seq![linev] + sp_define_line_list(s@, j2 as int).1));
                }
                j = j2;
            },
            None => {
                proof {
                    assert(lines_view(acc@) + sp_define_line_list(s@, j as int).1 =~= lines_view(
                        acc@,
                    ));
                }
                break;
            },
        }
    }
    if acc.len() == 0 {
        return None;
    }
    let c = skip_multispace(s, j);
    match ch(s, c, ')') {
        Some(d) => Some((d, acc)),
        None => None,
    }
}

/// Parses ` IF NOT EXISTS`, as [`sp_if_not_exists`] describes.
fn if_not_exists_at(s: &[char], i: usize) -> (r: Option<usize>)
    requires
        i <= s@.len(),
    ensures
        r matches Some(p) ==> sp_if_not_exists(s@, i as int) == Some(p as int) && i <= p
            <= s@.len(),
        r is None ==> sp_if_not_exists(s@, i as int) is None,
{
    let a = match space1_at(s, i) {
        Some(a) => a,
        None => {
            return None;
        },
    };
    let b = match kw_at(s, a, "if") {
        Some(b) => b,
        None => {
            return None;
        },
    };
    let c = match space1_at(s, b) {
        Some(c) => c,
        None => {
            return None;
        },
    };
    let d = match kw_at(s, c, "not") {
        Some(d) => d,
        None => {
            return None;
        },
    };
    let e = match space1_at(s, d) {
        Some(e) => e,
        None => {
            return None;
        },
    };
    kw_at(s, e, "exists")
}

/// Parses the `CREATE TABLE ... <name>` header, as
/// [`sp_parse_create_table`] describes.
fn parse_create_table_at(s: &[char], i: usize) -> (r: Option<(usize, String)>)
    requires
        i <= s@.len(),
    ensures
        r matches Some(p) ==> sp_parse_create_table(s@, i as int) == Some((p.0 as int, p.1@))
            && i <= p.0 <= s@.len(),
        r is None ==> sp_parse_create_table(s@, i as int) is None,
{
    let a = match kw_at(s, i, "create") {
        Some(a) => a,
        None => {
            return None;
        },
    };
    let b = match space1_at(s, a) {
        Some(b) => b,
        None => {
            return None;
        },
    };
    let c = match kw_at(s, b, "table") {
        Some(c) => c,
        None => {
            return None;
        },
    };
    let d = match if_not_exists_at(s, c) {
        Some(d) => d,
        None => c,
    };
    let e = match space1_at(s, d) {
        Some(e) => e,
        None => {
            return None;
        },
    };
    let (f, name) = match ident_at(s, e) {
        Some(p) => p,
        None => {
            return None;
        },
    };
    Some((skip_multispace(s, f), name))
}

/// Skips the `[=]` separator, as [`sp_eq_sep`] describes.
fn eq_sep_at(s: &[char], i: usize) -> (r: usize)
    requires
        i <= s@.len(),
    ensures
        r == sp_eq_sep(s@, i as int),
        i <= r <= s@.len(),
{
    let a = skip_space(s, i);
    let b = match ch(s, a, '=') {
        Some(b) => b,
        None => a,
    };
    skip_space(s, b)
}

/// Parses the optional ` DEFAULT` prefix, as [`sp_opt_default_kw`]
/// describes; consumes nothing when absent.
fn opt_default_kw_at(s: &[char], i: usize) -> (r: usize)
    requires
        i <= s@.len(),
    ensures
        r == sp_opt_default_kw(s@, i as int),
        i <= r <= s@.len(),
{
    if let Some(a) = space1_at(s, i) {
        if let Some(b) = kw_at(s, a, "default") {
            return b;
        }
    }
    i
}

/// Parses `ENGINE [=] <name>`, as [`sp_table_option_engine`] describes.
fn table_option_engine_at(s: &[char], i: usize) -> (r: Option<(usize, String)>)
    requires
        i <= s@.len(),
    ensures
        r matches Some(p) ==> sp_table_option_engine(s@, i as int) == Some((p.0 as int, p.1@))
            && i < p.0 <= s@.len(),
        r is None ==> sp_table_option_engine(s@, i as int) is None,
{
    let a = skip_space(s, i);
    let b = match kw_at(s, a, "engine") {
        Some(b) => b,
        None => {
            return None;
        },
    };
    let c = {
        let x = skip_space(s, b);
        match ch(s, x, '=') {
            Some(c) => c,
            None => b,
        }
    };
    let d = skip_space(s, c);
    ident_at(s, d)
}

/// Parses `[DEFAULT] CHARSET|CHARACTER SET [=] <name>`, as
/// [`sp_table_option_char_set`] describes.
fn table_option_char_set_at(s: &[char], i: usize) -> (r: Option<(usize, String)>)
    requires
        i <= s@.len(),
    ensures
        r matches Some(p) ==> sp_table_option_char_set(s@, i as int) == Some((p.0 as int, p.1@))
            && i < p.0 <= s@.len(),
        r is None ==> sp_table_option_char_set(s@, i as int) is None,
{
    let a = opt_default_kw_at(s, i);
    let b = skip_space(s, a);
    let kwend: Option<usize> = {
        let b2 = skip_space(s, b);
        match kw_at(s, b2, "charset") {
            Some(c) => Some(c),
            None => {
                match kw_at(s, b, "character") {
                    None => None,
                    Some(c1) => match space1_at(s, c1) {
                        None => None,
                        Some(c2) => kw_at(s, c2, "set"),
                    },
                }
            },
        }
    };
    let c = match kwend {
        Some(c) => c,
        None => {
            return None;
        },
    };
    let d = eq_sep_at(s, c);
    ident_at(s, d)
}

/// Parses `[DEFAULT] COLLATE [=] <name>`, as [`sp_table_option_collate`]
/// describes.
fn table_option_collate_at(s: &[char], i: usize) -> (r: Option<(usize, String)>)
    requires
        i <= s@.len(),
    ensures
        r matches Some(p) ==> sp_table_option_collate(s@, i as int) == Some((p.0 as int, p.1@))
            && i < p.0 <= s@.len(),
        r is None ==> sp_table_option_collate(s@, i as int) is None,
{
    let a = opt_default_kw_at(s, i);
    let b = skip_space(s, a);
    let c = match kw_at(s, b, "collate") {
        Some(c) => c,
        None => {
            return None;
        },
    };
    let d = eq_sep_at(s, c);
    ident_at(s, d)
}

/// Parses `COMMENT [=] '<string>'`, as [`sp_table_option_comment`]
/// describes.
fn table_option_comment_at(s: &[char], i: usize) -> (r: Option<(usize, String)>)
    requires
        i <= s@.len(),
    ensures
        r matches Some(p) ==> sp_table_option_comment(s@, i as int) == Some((p.0 as int, p.1@))
            && i < p.0 <= s@.len(),
        r is None ==> sp_table_option_comment(s@, i as int) is None,
{
    let a = match space1_at(s, i) {
        Some(a) => a,
        None => {
            return None;
        },
    };
    let b = match kw_at(s, a, "comment") {
        Some(b) => b,
        None => {
            return None;
        },
    };
    let c = eq_sep_at(s, b);
    match quoted_any_at(s, c) {
        Some((d, v)) => Some((d, chars_to_string(v.as_slice()))),
        None => None,
    }
}

/// Parses the four mandatory table options in their fixed order, as
/// [`sp_parse_table_option`] describes.
fn parse_table_option_at(s: &[char], i: usize) -> (r: Option<(usize, TableOption)>)
    requires
        i <= s@.len(),
    ensures
        r matches Some(p) ==> sp_parse_table_option(s@, i as int) == Some((p.0 as int, p.1@))
            && i < p.0 <= s@.len(),
        r is None ==> sp_parse_table_option(s@, i as int) is None,
{
    let (a, engine) = match table_option_engine_at(s, i) {
        Some(p) => p,
        None => {
            return None;
        },
    };
    let (b, charset) = match table_option_char_set_at(s, a) {
        Some(p) => p,
        None => {
            return None;
        },
    };
    let (c, collate) = match table_option_collate_at(s, b) {
        Some(p) => p,
        None => {
            return None;
        },
    };
    let (d, comment) = match table_option_comment_at(s, c) {
        Some(p) => p,
        None => {
            return None;
        },
    };
    Some((d, TableOption { engine, charset, collate, comment }))
}

/// Keeps the column lines, in order, as [`spec_columns_of`] describes.
fn columns_of(lines: Vec<OneLineEnum>) -> (r: Vec<OneColumn>)
    ensures
        cols_view(r@) == spec_columns_of(lines_view(lines@)),
{
    let ghost full = lines_view(lines@);
    let mut acc: Vec<OneColumn> = Vec::new();
    let mut k: usize = 0;
    proof {
        assert(full.skip(0) =~= full);
        assert(cols_view(acc@) + spec_columns_of(full) =~= spec_columns_of(full));
    }
    while k < lines.len()
        invariant
            k <= lines@.len(),
            full == lines_view(lines@),
            spec_columns_of(full) == cols_view(acc@) + spec_columns_of(full.skip(k as int)),
        decreases lines@.len() - k,
    {
        let ghost acc0 = acc@;
        proof {
            assert(full.skip(k as int).len() > 0);
            assert(full.skip(k as int)[0] == lines@[k as int]@);
            assert(full.skip(k as int).drop_first() =~= full.skip(k as int + 1));
        }
        match &lines[k] {
            OneLineEnum::Column(c) => {
                let c2 = c.clone();
                proof {
                    assert(c2@ == lines@[k as int]@->Column_0);
                }
                acc.push(c2);
                proof {
                    assert(cols_view(acc@) + spec_columns_of(full.skip(k as int + 1)) =~=
                        cols_view(acc0) + (seq![c2@] + spec_columns_of(full.skip(k as int + 1))));
                }
            },
            OneLineEnum::Index(_) => {},
        }
        k += 1;
    }
    proof {
        assert(full.skip(k as int) =~= Seq::empty());
        assert(cols_view(acc@) + spec_columns_of(full.skip(k as int)) =~= cols_view(acc@));
    }
    acc
}

/// Parses a whole `CREATE TABLE` statement, as [`sp_parse_create_sql`]
/// describes.
fn parse_create_sql_at(s: &[char], i: usize) -> (r: Option<(usize, TableSchema)>)
    requires
        i <= s@.len(),
    ensures
        r matches Some(p) ==> sp_parse_create_sql(s@, i as int) == Some((p.0 as int, p.1@)) && i
            <= p.0 <= s@.len(),
        r is None ==> sp_parse_create_sql(s@, i as int) is None,
{
    let (a, table_name) = match parse_create_table_at(s, i) {
        Some(p) => p,
        None => {
            return None;
        },
    };
    let b = skip_space(s, a);
    let (c, lines) = match many1_define_line_at(s, b) {
        Some(p) => p,
        None => {
            return None;
        },
    };
    let d = skip_space(s, c);
    let (e, option) = match parse_table_option_at(s, d) {
        Some(p) => p,
        None => {
            return None;
        },
    };
    let column_arr = columns_of(lines);
    let schema = TableSchema { table_name, column_arr, option };
    proof {
        assert(schema@.column_arr =~= cols_view(schema.column_arr@));
    }
    Some((e, schema))
}

/// The unconsumed remainder of `s` from position `j` on, as a `String`.
fn rest_of(s: &[char], j: usize) -> (r: String)
    requires
        j <= s@.len(),
    ensures
        r@ == s@.skip(j as int),
{
    let r = chars_to_string_range(s, j, s.len());
    proof {
        assert(s@.subrange(j as int, s@.len() as int) =~= s@.skip(j as int));
    }
    r
}

/// Parses a SQL identifier (a column or table name), stripping optional
/// backticks, as [`sp_sql_identifier`] describes.
pub fn sql_identifier(input: &str) -> (r: Result<(String, String), String>)
    ensures
        r matches Ok(p) ==> sp_sql_identifier(input@, 0) matches Some(q) && p.0@ == input@.skip(
            q.0,
        ) && p.1@ == q.1,
        r is Err <==> sp_sql_identifier(input@, 0) is None,
        r matches Err(e) ==> e@ == input@,
{
    let s = to_chars(input);
    match ident_at(s.as_slice(), 0) {
        Some((j, v)) => Ok((rest_of(s.as_slice(), j), v)),
        None => Err(input.to_owned()),
    }
}

/// Parses one identifier fragment: a run of letters and digits, or one
/// underscore, as [`sp_identifier_char`] describes.
pub fn identifier_char_parser(input: &str) -> (r: Result<(String, String), String>)
    ensures
        r matches Ok(p) ==> sp_identifier_char(input@, 0) matches Some(q) && p.0@ == input@.skip(
            q.0,
        ) && p.1@ == q.1,
        r is Err <==> sp_identifier_char(input@, 0) is None,
        r matches Err(e) ==> e@ == input@,
{
    let s = to_chars(input);
    let v = s.as_slice();
    if v.len() > 0 && crate::text::is_alnum_char_exec(v[0]) {
        let e = crate::text::skip_alnum(v, 0);
        Ok((rest_of(v, e), chars_to_string_range(v, 0, e)))
    } else if v.len() > 0 && v[0] == '_' {
        proof {
            assert(v@.subrange(0, 1) =~= seq!['_']);
        }
        Ok((rest_of(v, 1), chars_to_string_range(v, 0, 1)))
    } else {
        Err(input.to_owned())
    }
}

/// Parses ` NOT NULL`, discarding the nullability signal, as
/// [`sp_not_null`] describes; the returned value is always empty.
pub fn parse_column_definition_of_not_null(input: &str) -> (r: Result<(String, String), String>)
    ensures
        r matches Ok(p) ==> sp_not_null(input@, 0) matches Some(q) && p.0@ == input@.skip(q)
            && p.1@ == Seq::<char>::empty(),
        r is Err <==> sp_not_null(input@, 0) is None,
        r matches Err(e) ==> e@ == input@,
{
    let s = to_chars(input);
    match not_null_at(s.as_slice(), 0) {
        Some(j) => Ok((rest_of(s.as_slice(), j), String::new())),
        None => Err(input.to_owned()),
    }
}

/// Parses a bare `NULL` keyword, returning the consumed text as written,
/// as [`sp_null_kw`] describes.
pub fn parse_column_definition_of_null(input: &str) -> (r: Result<(String, String), String>)
    ensures
        r matches Ok(p) ==> sp_null_kw(input@, 0) matches Some(q) && p.0@ == input@.skip(q.0)
            && p.1@ == q.1,
        r is Err <==> sp_null_kw(input@, 0) is None,
        r matches Err(e) ==> e@ == input@,
{
    let s = to_chars(input);
    let v = s.as_slice();
    match kw_at(v, 0, "null") {
        Some(j) => Ok((rest_of(v, j), chars_to_string_range(v, 0, j))),
        None => Err(input.to_owned()),
    }
}

/// Parses the whole default clause of a column; it never fails, and any
/// matched default is normalized to `DefaultNull`, as
/// [`sp_default_clause`] describes.
pub fn parse_column_definition_of_default(input: &str) -> (r: Result<
    (String, DefaultEnum),
    String,
>)
    ensures
        r matches Ok(p) ==> p.0@ == input@.skip(sp_default_clause(input@, 0).0) && p.1@
            == sp_default_clause(input@, 0).1,
        r is Ok,
{
    let s = to_chars(input);
    let (j, v) = default_clause_at(s.as_slice(), 0);
    Ok((rest_of(s.as_slice(), j), v))
}

/// Parses a parenthesized size argument `(<n>)`, as [`sp_type_int_size`]
/// describes.
pub fn type_int_size(input: &str) -> (r: Result<(String, u32), String>)
    ensures
        r matches Ok(p) ==> sp_type_int_size(input@, 0) matches Some(q) && p.0@ == input@.skip(
            q.0,
        ) && p.1 == q.1,
        r is Err <==> sp_type_int_size(input@, 0) is None,
        r matches Err(e) ==> e@ == input@,
{
    let s = to_chars(input);
    match type_int_size_at(s.as_slice(), 0) {
        Some((j, v)) => Ok((rest_of(s.as_slice(), j), v)),
        None => Err(input.to_owned()),
    }
}

/// Parses `tinyint` with an optional size, as [`sp_type_tiny_int`]
/// describes.
pub fn type_tiny_int(input: &str) -> (r: Result<(String, DataTypeEnum), String>)
    ensures
        r matches Ok(p) ==> sp_type_tiny_int(input@, 0) matches Some(q) && p.0@ == input@.skip(
            q.0,
        ) && p.1 == q.1,
        r is Err <==> sp_type_tiny_int(input@, 0) is None,
        r matches Err(e) ==> e@ == input@,
{
    let s = to_chars(input);
    match type_tiny_int_at(s.as_slice(), 0) {
        Some((j, v)) => Ok((rest_of(s.as_slice(), j), v)),
        None => Err(input.to_owned()),
    }
}

/// Parses `AUTO_INCREMENT` as a default value, as [`sp_auto_increment`]
/// describes.
pub fn parse_int_auto_increment(input: &str) -> (r: Result<(String, DefaultEnum), String>)
    ensures
        r matches Ok(p) ==> sp_auto_increment(input@, 0) matches Some(q) && p.0@ == input@.skip(
            q,
        ) && p.1@ == crate::ast::SpecDefault::DefaultAutoIncrement,
        r is Err <==> sp_auto_increment(input@, 0) is None,
        r matches Err(e) ==> e@ == input@,
{
    let s = to_chars(input);
    match kw_at(s.as_slice(), 0, "auto_increment") {
        Some(j) => Ok((rest_of(s.as_slice(), j), DefaultEnum::DefaultAutoIncrement)),
        None => Err(input.to_owned()),
    }
}

/// Parses ` UNSIGNED`, as [`sp_unsigned`] describes; the payload is a
/// presence marker.
pub fn parse_int_is_unsigned(input: &str) -> (r: Result<(String, Option<i8>), String>)
    ensures
        r matches Ok(p) ==> sp_unsigned(input@, 0) matches Some(q) && p.0@ == input@.skip(q)
            && p.1 == Some(1i8),
        r is Err <==> sp_unsigned(input@, 0) is None,
        r matches Err(e) ==> e@ == input@,
{
    let s = to_chars(input);
    match unsigned_at(s.as_slice(), 0) {
        Some(j) => Ok((rest_of(s.as_slice(), j), Some(1i8))),
        None => Err(input.to_owned()),
    }
}

/// Parses an integer-family type, as [`sp_type_some_int`] describes.
pub fn type_some_int(input: &str) -> (r: Result<(String, DataTypeEnum), String>)
    ensures
        r matches Ok(p) ==> sp_type_some_int(input@, 0) matches Some(q) && p.0@ == input@.skip(
            q.0,
        ) && p.1 == q.1,
        r is Err <==> sp_type_some_int(input@, 0) is None,
        r matches Err(e) ==> e@ == input@,
{
    let s = to_chars(input);
    match type_some_int_at(s.as_slice(), 0) {
        Some((j, v)) => Ok((rest_of(s.as_slice(), j), v)),
        None => Err(input.to_owned()),
    }
}

/// Parses ` COLLATE <name>`, as [`sp_type_collate`] describes.
pub fn type_collate(input: &str) -> (r: Result<(String, String), String>)
    ensures
        r matches Ok(p) ==> sp_type_collate(input@, 0) matches Some(q) && p.0@ == input@.skip(
            q.0,
        ) && p.1@ == q.1,
        r is Err <==> sp_type_collate(input@, 0) is None,
        r matches Err(e) ==> e@ == input@,
{
    let s = to_chars(input);
    match type_collate_at(s.as_slice(), 0) {
        Some((j, v)) => Ok((rest_of(s.as_slice(), j), v)),
        None => Err(input.to_owned()),
    }
}

/// Parses `varchar(<n>)`, as [`sp_type_varchar`] describes.
pub fn type_varchar(input: &str) -> (r: Result<(String, DataTypeEnum), String>)
    ensures
        r matches Ok(p) ==> sp_type_varchar(input@, 0) matches Some(q) && p.0@ == input@.skip(
            q.0,
        ) && p.1 == q.1,
        r is Err <==> sp_type_varchar(input@, 0) is None,
        r matches Err(e) ==> e@ == input@,
{
    let s = to_chars(input);
    match type_varchar_at(s.as_slice(), 0) {
        Some((j, v)) => Ok((rest_of(s.as_slice(), j), v)),
        None => Err(input.to_owned()),
    }
}

/// Parses `datetime` with optional precision, as [`sp_type_datetime`]
/// describes.
pub fn type_datetime(input: &str) -> (r: Result<(String, DataTypeEnum), String>)
    ensures
        r matches Ok(p) ==> sp_type_datetime(input@, 0) matches Some(q) && p.0@ == input@.skip(
            q.0,
        ) && p.1 == q.1,
        r is Err <==> sp_type_datetime(input@, 0) is None,
        r matches Err(e) ==> e@ == input@,
{
    let s = to_chars(input);
    match type_datetime_at(s.as_slice(), 0) {
        Some((j, v)) => Ok((rest_of(s.as_slice(), j), v)),
        None => Err(input.to_owned()),
    }
}

/// Parses `text`, as [`sp_type_text`] describes.
pub fn type_text(input: &str) -> (r: Result<(String, DataTypeEnum), String>)
    ensures
        r matches Ok(p) ==> sp_type_text(input@, 0) matches Some(q) && p.0@ == input@.skip(q.0)
            && p.1 == q.1,
        r is Err <==> sp_type_text(input@, 0) is None,
        r matches Err(e) ==> e@ == input@,
{
    let s = to_chars(input);
    match type_text_at(s.as_slice(), 0) {
        Some((j, v)) => Ok((rest_of(s.as_slice(), j), v)),
        None => Err(input.to_owned()),
    }
}

/// Parses `bigtext`, as [`sp_type_bigtext`] describes.
pub fn type_bigtext(input: &str) -> (r: Result<(String, DataTypeEnum), String>)
    ensures
        r matches Ok(p) ==> sp_type_bigtext(input@, 0) matches Some(q) && p.0@ == input@.skip(
            q.0,
        ) && p.1 == q.1,
        r is Err <==> sp_type_bigtext(input@, 0) is None,
        r matches Err(e) ==> e@ == input@,
{
    let s = to_chars(input);
    match type_bigtext_at(s.as_slice(), 0) {
        Some((j, v)) => Ok((rest_of(s.as_slice(), j), v)),
        None => Err(input.to_owned()),
    }
}

/// Parses `decimal(<n>)`, as [`sp_type_decimal`] describes.
pub fn type_decimal(input: &str) -> (r: Result<(String, DataTypeEnum), String>)
    ensures
        r matches Ok(p) ==> sp_type_decimal(input@, 0) matches Some(q) && p.0@ == input@.skip(
            q.0,
        ) && p.1 == q.1,
        r is Err <==> sp_type_decimal(input@, 0) is None,
        r matches Err(e) ==> e@ == input@,
{
    let s = to_chars(input);
    match type_decimal_at(s.as_slice(), 0) {
        Some((j, v)) => Ok((rest_of(s.as_slice(), j), v)),
        None => Err(input.to_owned()),
    }
}

/// Parses a column's data type, as [`sp_parse_data_type`] describes.
pub fn parse_data_type(input: &str) -> (r: Result<(String, DataTypeEnum), String>)
    ensures
        r matches Ok(p) ==> sp_parse_data_type(input@, 0) matches Some(q) && p.0@ == input@.skip(
            q.0,
        ) && p.1 == q.1,
        r is Err <==> sp_parse_data_type(input@, 0) is None,
        r matches Err(e) ==> e@ == input@,
{
    let s = to_chars(input);
    match parse_data_type_at(s.as_slice(), 0) {
        Some((j, v)) => Ok((rest_of(s.as_slice(), j), v)),
        None => Err(input.to_owned()),
    }
}

/// Parses `DEFAULT <n>`, as [`sp_default_int`] describes.
pub fn parse_default_int(input: &str) -> (r: Result<(String, DefaultEnum), String>)
    ensures
        r matches Ok(p) ==> sp_default_int(input@, 0) matches Some(q) && p.0@ == input@.skip(q.0)
            && p.1@ == crate::ast::SpecDefault::DefaultInt(q.1),
        r is Err <==> sp_default_int(input@, 0) is None,
        r matches Err(e) ==> e@ == input@,
{
    let s = to_chars(input);
    match default_int_at(s.as_slice(), 0) {
        Some((j, n)) => Ok((rest_of(s.as_slice(), j), DefaultEnum::DefaultInt(n))),
        None => Err(input.to_owned()),
    }
}

/// Parses `DEFAULT '<string>'`, as [`sp_default_str`] describes.
pub fn parse_default_str(input: &str) -> (r: Result<(String, DefaultEnum), String>)
    ensures
        r matches Ok(p) ==> sp_default_str(input@, 0) matches Some(q) && p.0@ == input@.skip(q.0)
            && p.1@ == crate::ast::SpecDefault::DefaultStr(q.1),
        r is Err <==> sp_default_str(input@, 0) is None,
        r matches Err(e) ==> e@ == input@,
{
    let s = to_chars(input);
    match default_str_at(s.as_slice(), 0) {
        Some((j, v)) => Ok((rest_of(s.as_slice(), j), DefaultEnum::DefaultStr(v))),
        None => Err(input.to_owned()),
    }
}

/// Parses ` COMMENT '<string>'`, as [`sp_comment_clause`] describes.
pub fn parse_comment(input: &str) -> (r: Result<(String, String), String>)
    ensures
        r matches Ok(p) ==> sp_comment_clause(input@, 0) matches Some(q) && p.0@ == input@.skip(
            q.0,
        ) && p.1@ == q.1,
        r is Err <==> sp_comment_clause(input@, 0) is None,
        r matches Err(e) ==> e@ == input@,
{
    let s = to_chars(input);
    match comment_clause_at(s.as_slice(), 0) {
        Some((j, v)) => Ok((rest_of(s.as_slice(), j), v)),
        None => Err(input.to_owned()),
    }
}

/// Parses `DEFAULT NULL`, as [`sp_default_null`] describes.
pub fn parse_default_null(input: &str) -> (r: Result<(String, DefaultEnum), String>)
    ensures
        r matches Ok(p) ==> sp_default_null(input@, 0) matches Some(q) && p.0@ == input@.skip(q)
            && p.1@ == crate::ast::SpecDefault::DefaultNull,
        r is Err <==> sp_default_null(input@, 0) is None,
        r matches Err(e) ==> e@ == input@,
{
    let s = to_chars(input);
    match default_null_at(s.as_slice(), 0) {
        Some(j) => Ok((rest_of(s.as_slice(), j), DefaultEnum::DefaultNull)),
        None => Err(input.to_owned()),
    }
}

/// Parses ` ON UPDATE CURRENT_TIMESTAMP`, as [`sp_on_update_cur`]
/// describes.
pub fn parse_default_on_current_timestamp(input: &str) -> (r: Result<
    (String, DefaultEnum),
    String,
>)
    ensures
        r matches Ok(p) ==> sp_on_update_cur(input@, 0) matches Some(q) && p.0@ == input@.skip(q)
            && p.1@ == crate::ast::SpecDefault::DefaultOnUpdateCurStamp,
        r is Err <==> sp_on_update_cur(input@, 0) is None,
        r matches Err(e) ==> e@ == input@,
{
    let s = to_chars(input);
    match on_update_cur_at(s.as_slice(), 0) {
        Some(j) => Ok((rest_of(s.as_slice(), j), DefaultEnum::DefaultOnUpdateCurStamp)),
        None => Err(input.to_owned()),
    }
}

/// Parses `DEFAULT CURRENT_TIMESTAMP [ON UPDATE CURRENT_TIMESTAMP]`, as
/// [`sp_default_cur`] describes.
pub fn parse_default_current_timestamp(input: &str) -> (r: Result<(String, DefaultEnum), String>)
    ensures
        r matches Ok(p) ==> sp_default_cur(input@, 0) matches Some(q) && p.0@ == input@.skip(q.0)
            && p.1@ == (if q.1 {
            crate::ast::SpecDefault::DefaultCurStampOnUpdateCurStamp
        } else {
            crate::ast::SpecDefault::DefaultCurStamp
        }),
        r is Err <==> sp_default_cur(input@, 0) is None,
        r matches Err(e) ==> e@ == input@,
{
    let s = to_chars(input);
    match default_cur_at(s.as_slice(), 0) {
        Some((j, true)) => Ok(
            (rest_of(s.as_slice(), j), DefaultEnum::DefaultCurStampOnUpdateCurStamp),
        ),
        Some((j, false)) => Ok((rest_of(s.as_slice(), j), DefaultEnum::DefaultCurStamp)),
        None => Err(input.to_owned()),
    }
}

/// Parses one default alternative after whitespace, as
/// [`sp_parse_default`] describes.
pub fn parse_default(input: &str) -> (r: Result<(String, DefaultEnum), String>)
    ensures
        r matches Ok(p) ==> sp_parse_default(input@, 0) matches Some(q) && p.0@ == input@.skip(
            q.0,
        ) && p.1@ == q.1,
        r is Err <==> sp_parse_default(input@, 0) is None,
        r matches Err(e) ==> e@ == input@,
{
    let s = to_chars(input);
    match parse_default_at(s.as_slice(), 0) {
        Some((j, v)) => Ok((rest_of(s.as_slice(), j), v)),
        None => Err(input.to_owned()),
    }
}

/// Parses a line-ending comma with trailing spaces, as
/// [`sp_end_has_comma`] describes.
pub fn parse_end_has_comma(input: &str) -> (r: Result<(String, Option<i8>), String>)
    ensures
        r matches Ok(p) ==> sp_end_has_comma(input@, 0) matches Some(q) && p.0@ == input@.skip(q)
            && p.1 == Some(1i8),
        r is Err <==> sp_end_has_comma(input@, 0) is None,
        r matches Err(e) ==> e@ == input@,
{
    let s = to_chars(input);
    let v = s.as_slice();
    match ch(v, 0, ',') {
        Some(a) => {
            let j = skip_space(v, a);
            Ok((rest_of(v, j), Some(1i8)))
        },
        None => Err(input.to_owned()),
    }
}

/// Parses optional spaces followed by a closing brace, as
/// [`sp_end_no_comma`] describes.
pub fn parse_end_no_comma(input: &str) -> (r: Result<(String, Option<i8>), String>)
    ensures
        r matches Ok(p) ==> sp_end_no_comma(input@, 0) matches Some(q) && p.0@ == input@.skip(q)
            && p.1 == Some(0i8),
        r is Err <==> sp_end_no_comma(input@, 0) is None,
        r matches Err(e) ==> e@ == input@,
{
    let s = to_chars(input);
    let v = s.as_slice();
    let a = skip_space(v, 0);
    match ch(v, a, '}') {
        Some(j) => Ok((rest_of(v, j), Some(0i8))),
        None => Err(input.to_owned()),
    }
}

/// Parses either line ending, as [`sp_end_comma`] describes.
pub fn parse_end_comma(input: &str) -> (r: Result<(String, Option<i8>), String>)
    ensures
        r matches Ok(p) ==> sp_end_comma(input@, 0) matches Some(q) && p.0@ == input@.skip(q.0)
            && p.1 == Some(q.1),
        r is Err <==> sp_end_comma(input@, 0) is None,
        r matches Err(e) ==> e@ == input@,
{
    let s = to_chars(input);
    let v = s.as_slice();
    match ch(v, 0, ',') {
        Some(a) => {
            let j = skip_space(v, a);
            Ok((rest_of(v, j), Some(1i8)))
        },
        None => {
            let a = skip_space(v, 0);
            match ch(v, a, '}') {
                Some(j) => Ok((rest_of(v, j), Some(0i8))),
                None => Err(input.to_owned()),
            }
        },
    }
}

/// Parses one column definition with leading whitespace, as
/// [`sp_column_definition1`] describes.
pub fn parse_column_definition1(input: &str) -> (r: Result<(String, OneColumn), String>)
    ensures
        r matches Ok(p) ==> sp_column_definition1(input@, 0) matches Some(q) && p.0@
            == input@.skip(q.0) && p.1@ == q.1,
        r is Err <==> sp_column_definition1(input@, 0) is None,
        r matches Err(e) ==> e@ == input@,
{
    let s = to_chars(input);
    match column_definition1_at(s.as_slice(), 0) {
        Some((j, v)) => Ok((rest_of(s.as_slice(), j), v)),
        None => Err(input.to_owned()),
    }
}

/// Parses one column definition without leading whitespace, wrapped as a
/// body line, as [`sp_column_core`] describes.
pub fn parse_column_definition2(input: &str) -> (r: Result<(String, OneLineEnum), String>)
    ensures
        r matches Ok(p) ==> sp_column_core(input@, 0) matches Some(q) && p.0@ == input@.skip(q.0)
            && p.1@ == crate::ast::SpecLine::Column(q.1),
        r is Err <==> sp_column_core(input@, 0) is None,
        r matches Err(e) ==> e@ == input@,
{
    let s = to_chars(input);
    match column_core_at(s.as_slice(), 0) {
        Some((j, v)) => Ok((rest_of(s.as_slice(), j), OneLineEnum::Column(v))),
        None => Err(input.to_owned()),
    }
}

/// Parses the parenthesized column list of an index, as
/// [`sp_idx_column_name`] describes.
pub fn parse_idx_column_name(input: &str) -> (r: Result<(String, Vec<String>), String>)
    ensures
        r matches Ok(p) ==> sp_idx_column_name(input@, 0) matches Some(q) && p.0@ == input@.skip(
            q.0,
        ) && strs_view(p.1@) == q.1,
        r is Err <==> sp_idx_column_name(input@, 0) is None,
        r matches Err(e) ==> e@ == input@,
{
    let s = to_chars(input);
    match idx_column_name_at(s.as_slice(), 0) {
        Some((j, v)) => Ok((rest_of(s.as_slice(), j), v)),
        None => Err(input.to_owned()),
    }
}

/// Parses ` USING BTREE|HASH`, returning the tree kind as written, as
/// [`sp_idx_using`] describes.
pub fn parse_idx_using_struct(input: &str) -> (r: Result<(String, String), String>)
    ensures
        r matches Ok(p) ==> sp_idx_using(input@, 0) matches Some(q) && p.0@ == input@.skip(q.0)
            && p.1@ == q.1,
        r is Err <==> sp_idx_using(input@, 0) is None,
        r matches Err(e) ==> e@ == input@,
{
    let s = to_chars(input);
    match idx_using_at(s.as_slice(), 0) {
        Some((j, v)) => Ok((rest_of(s.as_slice(), j), v)),
        None => Err(input.to_owned()),
    }
}

/// Parses an index declaration that must begin with `PRIMARY` or
/// `UNIQUE`, as [`sp_idx_line`] describes.
pub fn parse_idx_line(input: &str) -> (r: Result<(String, OneIndex), String>)
    ensures
        r matches Ok(p) ==> sp_idx_line(input@, 0) matches Some(q) && p.0@ == input@.skip(q.0)
            && p.1@ == q.1,
        r is Err <==> sp_idx_line(input@, 0) is None,
        r matches Err(e) ==> e@ == input@,
{
    let s = to_chars(input);
    match idx_line_at(s.as_slice(), 0) {
        Some((j, v)) => Ok((rest_of(s.as_slice(), j), v)),
        None => Err(input.to_owned()),
    }
}

/// Parses an index declaration with an optional `PRIMARY`/`UNIQUE`
/// prefix, wrapped as a body line, as [`sp_idx_line2`] describes.
pub fn parse_idx_line2(input: &str) -> (r: Result<(String, OneLineEnum), String>)
    ensures
        r matches Ok(p) ==> sp_idx_line2(input@, 0) matches Some(q) && p.0@ == input@.skip(q.0)
            && p.1@ == crate::ast::SpecLine::Index(q.1),
        r is Err <==> sp_idx_line2(input@, 0) is None,
        r matches Err(e) ==> e@ == input@,
{
    let s = to_chars(input);
    match idx_line2_at(s.as_slice(), 0) {
        Some((j, v)) => Ok((rest_of(s.as_slice(), j), OneLineEnum::Index(v))),
        None => Err(input.to_owned()),
    }
}

/// Parses the `CREATE TABLE [IF NOT EXISTS] <name>` header, returning the
/// table name, as [`sp_parse_create_table`] describes.
pub fn parse_create_table(input: &str) -> (r: Result<(String, String), String>)
    ensures
        r matches Ok(p) ==> sp_parse_create_table(input@, 0) matches Some(q) && p.0@
            == input@.skip(q.0) && p.1@ == q.1,
        r is Err <==> sp_parse_create_table(input@, 0) is None,
        r matches Err(e) ==> e@ == input@,
{
    let s = to_chars(input);
    match parse_create_table_at(s.as_slice(), 0) {
        Some((j, v)) => Ok((rest_of(s.as_slice(), j), v)),
        None => Err(input.to_owned()),
    }
}

/// Parses one body line, index declarations tried first, as
/// [`sp_one_define_line`] describes.
pub fn parse_one_define_line(input: &str) -> (r: Result<(String, OneLineEnum), String>)
    ensures
        r matches Ok(p) ==> sp_one_define_line(input@, 0) matches Some(q) && p.0@ == input@.skip(
            q.0,
        ) && p.1@ == q.1,
        r is Err <==> sp_one_define_line(input@, 0) is None,
        r matches Err(e) ==> e@ == input@,
{
    let s = to_chars(input);
    match one_define_line_at(s.as_slice(), 0) {
        Some((j, v)) => Ok((rest_of(s.as_slice(), j), v)),
        None => Err(input.to_owned()),
    }
}

/// Parses `ENGINE [=] <name>`, as [`sp_table_option_engine`] describes.
pub fn table_option_engine(input: &str) -> (r: Result<(String, String), String>)
    ensures
        r matches Ok(p) ==> sp_table_option_engine(input@, 0) matches Some(q) && p.0@
            == input@.skip(q.0) && p.1@ == q.1,
        r is Err <==> sp_table_option_engine(input@, 0) is None,
        r matches Err(e) ==> e@ == input@,
{
    let s = to_chars(input);
    match table_option_engine_at(s.as_slice(), 0) {
        Some((j, v)) => Ok((rest_of(s.as_slice(), j), v)),
        None => Err(input.to_owned()),
    }
}

/// Parses `[DEFAULT] CHARSET|CHARACTER SET [=] <name>`, as
/// [`sp_table_option_char_set`] describes.
pub fn table_option_char_set(input: &str) -> (r: Result<(String, String), String>)
    ensures
        r matches Ok(p) ==> sp_table_option_char_set(input@, 0) matches Some(q) && p.0@
            == input@.skip(q.0) && p.1@ == q.1,
        r is Err <==> sp_table_option_char_set(input@, 0) is None,
        r matches Err(e) ==> e@ == input@,
{
    let s = to_chars(input);
    match table_option_char_set_at(s.as_slice(), 0) {
        Some((j, v)) => Ok((rest_of(s.as_slice(), j), v)),
        None => Err(input.to_owned()),
    }
}

/// Parses `[DEFAULT] COLLATE [=] <name>`, as [`sp_table_option_collate`]
/// describes.
pub fn table_option_collate(input: &str) -> (r: Result<(String, String), String>)
    ensures
        r matches Ok(p) ==> sp_table_option_collate(input@, 0) matches Some(q) && p.0@
            == input@.skip(q.0) && p.1@ == q.1,
        r is Err <==> sp_table_option_collate(input@, 0) is None,
        r matches Err(e) ==> e@ == input@,
{
    let s = to_chars(input);
    match table_option_collate_at(s.as_slice(), 0) {
        Some((j, v)) => Ok((rest_of(s.as_slice(), j), v)),
        None => Err(input.to_owned()),
    }
}

/// Parses `COMMENT [=] '<string>'`, as [`sp_table_option_comment`]
/// describes.
pub fn table_option_comment(input: &str) -> (r: Result<(String, String), String>)
    ensures
        r matches Ok(p) ==> sp_table_option_comment(input@, 0) matches Some(q) && p.0@
            == input@.skip(q.0) && p.1@ == q.1,
        r is Err <==> sp_table_option_comment(input@, 0) is None,
        r matches Err(e) ==> e@ == input@,
{
    let s = to_chars(input);
    match table_option_comment_at(s.as_slice(), 0) {
        Some((j, v)) => Ok((rest_of(s.as_slice(), j), v)),
        None => Err(input.to_owned()),
    }
}

/// Parses all four table options in their fixed order, as
/// [`sp_parse_table_option`] describes.
pub fn parse_table_option(input: &str) -> (r: Result<(String, TableOption), String>)
    ensures
        r matches Ok(p) ==> sp_parse_table_option(input@, 0) matches Some(q) && p.0@
            == input@.skip(q.0) && p.1@ == q.1,
        r is Err <==> sp_parse_table_option(input@, 0) is None,
        r matches Err(e) ==> e@ == input@,
{
    let s = to_chars(input);
    match parse_table_option_at(s.as_slice(), 0) {
        Some((j, v)) => Ok((rest_of(s.as_slice(), j), v)),
        None => Err(input.to_owned()),
    }
}

/// Parses a whole `CREATE TABLE` statement into a [`TableSchema`], as
/// [`sp_parse_create_sql`] describes: the header, one or more body lines,
/// and the four mandatory table options, with the index lines filtered
/// out of the final column list.
pub fn parse_create_sql(input: &str) -> (r: Result<(String, TableSchema), String>)
    ensures
        r matches Ok(p) ==> sp_parse_create_sql(input@, 0) matches Some(q) && p.0@
            == input@.skip(q.0) && p.1@ == q.1,
        r is Err <==> sp_parse_create_sql(input@, 0) is None,
        r matches Err(e) ==> e@ == input@,
{
    let s = to_chars(input);
    match parse_create_sql_at(s.as_slice(), 0) {
        Some((j, v)) => Ok((rest_of(s.as_slice(), j), v)),
        None => Err(input.to_owned()),
    }
}

} // verus!
