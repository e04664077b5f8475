//! The `CREATE TABLE` grammar, stated denotationally.
//!
//! Each production is a spec function from the input and a starting
//! position to `None` (no match) or `Some((p, v))`: the position just past
//! the consumed prefix, and the parsed value.  The executable parsers in
//! [`crate::ddl`] are proved to return exactly these results.
//!
//! Alternatives are committed in a fixed order: the first alternative that
//! matches wins, and a failed alternative consumes nothing.

use vstd::prelude::*;

use crate::ast::{DataTypeEnum, IndexIdxTyeEnum, SpecColumn, SpecDefault, SpecIndex, SpecLine,
    SpecTableOption, SpecTableSchema};
use crate::quoted::sp_quoted_any;
use crate::text::{is_ident_char, kw_matches, lemma_run_end_digit_bounds, lemma_run_end_ident_bounds,
    lemma_run_end_multispace_bounds, lemma_run_end_space_bounds, run_end_digit, run_end_ident,
    run_end_multispace, run_end_space, sp_u32};

verus! {

/// A single expected character at `i`.
pub open spec fn sp_ch(s: Seq<char>, i: int, c: char) -> Option<int> {
    if 0 <= i < s.len() && s[i] == c {
        Some(i + 1)
    } else {
        None
    }
}

/// A case-insensitive keyword at `i`.
pub open spec fn sp_kw(s: Seq<char>, i: int, k: Seq<char>) -> Option<int> {
    if kw_matches(s, i, k) {
        Some(i + k.len())
    } else {
        None
    }
}

/// One or more spaces or tabs.
pub open spec fn sp_space1(s: Seq<char>, i: int) -> Option<int> {
    if 0 <= i < s.len() && crate::text::is_space_char(s[i]) {
        Some(run_end_space(s, i))
    } else {
        None
    }
}

/// A SQL identifier: an optional backtick, one or more identifier
/// characters, and an optional closing backtick.  The backticks are
/// stripped from the returned name; each is optional independently.
pub open spec fn sp_sql_identifier(s: Seq<char>, i: int) -> Option<(int, Seq<char>)> {
    if 0 <= i <= s.len() {
        let i1 = if i < s.len() && s[i] == '`' {
            i + 1
        } else {
            i
        };
        let e = run_end_ident(s, i1);
        if e == i1 {
            None
        } else {
            let i2 = if e < s.len() && s[e] == '`' {
                e + 1
            } else {
                e
            };
            Some((i2, s.subrange(i1, e)))
        }
    } else {
        None
    }
}

/// `sp_sql_identifier` consumes at least one character and stays in bounds.
pub broadcast proof fn lemma_sp_sql_identifier_bounds(s: Seq<char>, i: int)
    ensures
        0 <= i <= s.len() ==> ((#[trigger] sp_sql_identifier(s, i)) matches Some(r) ==> i < r.0
            <= s.len()),
{
    if 0 <= i <= s.len() {
        let i1 = if i < s.len() && s[i] == '`' {
            i + 1
        } else {
            i
        };
        lemma_run_end_ident_bounds(s, i1);
    }
}

/// One identifier fragment: a run of ASCII letters and digits, or a
/// single underscore.  The consumed text is the value.
pub open spec fn sp_identifier_char(s: Seq<char>, i: int) -> Option<(int, Seq<char>)> {
    if 0 <= i < s.len() && crate::text::is_alnum_char(s[i]) {
        Some((crate::text::run_end_alnum(s, i), s.subrange(i, crate::text::run_end_alnum(s, i))))
    } else if 0 <= i < s.len() && s[i] == '_' {
        Some((i + 1, seq!['_']))
    } else {
        None
    }
}

/// A line-ending comma followed by optional spaces.
pub open spec fn sp_end_has_comma(s: Seq<char>, i: int) -> Option<int> {
    match sp_ch(s, i, ',') {
        None => None,
        Some(a) => Some(run_end_space(s, a)),
    }
}

/// Optional spaces followed by a closing brace.
pub open spec fn sp_end_no_comma(s: Seq<char>, i: int) -> Option<int> {
    if 0 <= i <= s.len() {
        sp_ch(s, run_end_space(s, i), '}')
    } else {
        None
    }
}

/// Either line ending, the comma form tried first.  The flag is `1` for
/// the comma form and `0` for the brace form.
pub open spec fn sp_end_comma(s: Seq<char>, i: int) -> Option<(int, i8)> {
    match sp_end_has_comma(s, i) {
        Some(a) => Some((a, 1)),
        None => match sp_end_no_comma(s, i) {
            Some(a) => Some((a, 0)),
            None => None,
        },
    }
}

/// The identifier scanner stops exactly at the first character outside
/// the identifier class.
proof fn lemma_run_end_ident_exact(s: Seq<char>, i: int, j: int)
    requires
        0 <= i <= j <= s.len(),
        forall|k: int| i <= k < j ==> is_ident_char(s[k]),
        j < s.len() ==> !is_ident_char(s[j]),
    ensures
        run_end_ident(s, i) == j,
    decreases j - i,
{
    if i < j {
        lemma_run_end_ident_exact(s, i + 1, j);
    }
}

/// Round trip for identifiers: any non-empty string of identifier
/// characters is parsed in full, bare or backtick-wrapped, and the parsed
/// name is the string itself with no backticks.
pub proof fn lemma_identifier_round_trip(id: Seq<char>)
    requires
        id.len() > 0,
        forall|k: int| 0 <= k < id.len() ==> is_ident_char(id[k]),
    ensures
        sp_sql_identifier(id, 0) == Some((id.len() as int, id)),
        sp_sql_identifier(seq!['`'] + id + seq!['`'], 0) == Some((id.len() as int + 2, id)),
{
    lemma_run_end_ident_exact(id, 0, id.len() as int);
    assert(!is_ident_char('`'));
    assert(id[0] != '`');
    assert(id.subrange(0, id.len() as int) =~= id);
    let s2 = seq!['`'] + id + seq!['`'];
    assert(s2.len() == id.len() + 2);
    assert(s2[0] == '`');
    assert(forall|k: int| 1 <= k < id.len() + 1 ==> s2[k] == id[k - 1] && is_ident_char(s2[k]));
    assert(s2[id.len() as int + 1] == '`');
    lemma_run_end_ident_exact(s2, 1, id.len() as int + 1);
    assert(s2.subrange(1, id.len() as int + 1) =~= id);
}

/// ` NOT NULL` (case-insensitive): whitespace, `not`, whitespace, `null`.
/// The nullability signal is discarded.
pub open spec fn sp_not_null(s: Seq<char>, i: int) -> Option<int> {
    match sp_space1(s, i) {
        None => None,
        Some(a) => match sp_kw(s, a, ("not")@) {
            None => None,
            Some(b) => match sp_space1(s, b) {
                None => None,
                Some(c) => sp_kw(s, c, ("null")@),
            },
        },
    }
}

/// A bare `NULL` keyword; the consumed text is returned as written.
pub open spec fn sp_null_kw(s: Seq<char>, i: int) -> Option<(int, Seq<char>)> {
    match sp_kw(s, i, ("null")@) {
        None => None,
        Some(a) => Some((a, s.subrange(i, a))),
    }
}

/// `DEFAULT <u32>`.
pub open spec fn sp_default_int(s: Seq<char>, i: int) -> Option<(int, u32)> {
    match sp_kw(s, i, ("default")@) {
        None => None,
        Some(a) => match sp_space1(s, a) {
            None => None,
            Some(b) => sp_u32(s, b),
        },
    }
}

/// `DEFAULT '<string>'` with a single- or double-quoted literal.
pub open spec fn sp_default_str(s: Seq<char>, i: int) -> Option<(int, Seq<char>)> {
    match sp_kw(s, i, ("default")@) {
        None => None,
        Some(a) => match sp_space1(s, a) {
            None => None,
            Some(b) => sp_quoted_any(s, b),
        },
    }
}

/// `DEFAULT NULL`.
pub open spec fn sp_default_null(s: Seq<char>, i: int) -> Option<int> {
    match sp_kw(s, i, ("default")@) {
        None => None,
        Some(a) => match sp_space1(s, a) {
            None => None,
            Some(b) => sp_kw(s, b, ("null")@),
        },
    }
}

/// ` ON UPDATE CURRENT_TIMESTAMP`.
pub open spec fn sp_on_update_cur(s: Seq<char>, i: int) -> Option<int> {
    match sp_space1(s, i) {
        None => None,
        Some(a) => match sp_kw(s, a, ("on")@) {
            None => None,
            Some(b) => match sp_space1(s, b) {
                None => None,
                Some(c) => match sp_kw(s, c, ("update")@) {
                    None => None,
                    Some(d) => match sp_space1(s, d) {
                        None => None,
                        Some(e) => sp_kw(s, e, ("current_timestamp")@),
                    },
                },
            },
        },
    }
}

/// `DEFAULT CURRENT_TIMESTAMP [ON UPDATE CURRENT_TIMESTAMP]`; the flag
/// says whether the `ON UPDATE` tail was present.
pub open spec fn sp_default_cur(s: Seq<char>, i: int) -> Option<(int, bool)> {
    match sp_kw(s, i, ("default")@) {
        None => None,
        Some(a) => match sp_space1(s, a) {
            None => None,
            Some(b) => match sp_kw(s, b, ("current_timestamp")@) {
                None => None,
                Some(c) => match sp_on_update_cur(s, c) {
                    Some(d) => Some((d, true)),
                    None => Some((c, false)),
                },
            },
        },
    }
}

/// `AUTO_INCREMENT`, read as a kind of default value.
pub open spec fn sp_auto_increment(s: Seq<char>, i: int) -> Option<int> {
    sp_kw(s, i, ("auto_increment")@)
}

/// One default-value alternative after mandatory whitespace, tried in
/// order: integer, string, `NULL`, `CURRENT_TIMESTAMP`, `AUTO_INCREMENT`.
pub open spec fn sp_parse_default(s: Seq<char>, i: int) -> Option<(int, SpecDefault)> {
    match sp_space1(s, i) {
        None => None,
        Some(a) => match sp_default_int(s, a) {
            Some((b, n)) => Some((b, SpecDefault::DefaultInt(n))),
            None => match sp_default_str(s, a) {
                Some((b, v)) => Some((b, SpecDefault::DefaultStr(v))),
                None => match sp_default_null(s, a) {
                    Some(b) => Some((b, SpecDefault::DefaultNull)),
                    None => match sp_default_cur(s, a) {
                        Some((b, on_update)) => if on_update {
                            Some((b, SpecDefault::DefaultCurStampOnUpdateCurStamp))
                        } else {
                            Some((b, SpecDefault::DefaultCurStamp))
                        },
                        None => match sp_auto_increment(s, a) {
                            Some(b) => Some((b, SpecDefault::DefaultAutoIncrement)),
                            None => None,
                        },
                    },
                },
            },
        },
    }
}

/// The whole default clause of a column: an optional ` NOT NULL` followed
/// by an optional default alternative.  It never fails; when any default
/// alternative matched the value is normalized to `DefaultNull`, otherwise
/// it is `DefaultNone`.
pub open spec fn sp_default_clause(s: Seq<char>, i: int) -> (int, SpecDefault) {
    let a = match sp_not_null(s, i) {
        Some(a) => a,
        None => i,
    };
    match sp_parse_default(s, a) {
        Some((b, _v)) => (b, SpecDefault::DefaultNull),
        None => (a, SpecDefault::DefaultNone),
    }
}

/// ` COMMENT '<string>'`.
pub open spec fn sp_comment_clause(s: Seq<char>, i: int) -> Option<(int, Seq<char>)> {
    match sp_space1(s, i) {
        None => None,
        Some(a) => match sp_kw(s, a, ("comment")@) {
            None => None,
            Some(b) => match sp_space1(s, b) {
                None => None,
                Some(c) => sp_quoted_any(s, c),
            },
        },
    }
}

/// A parenthesized size argument: `(<u32>)`.
pub open spec fn sp_type_int_size(s: Seq<char>, i: int) -> Option<(int, u32)> {
    match sp_ch(s, i, '(') {
        None => None,
        Some(a) => match sp_u32(s, a) {
            None => None,
            Some((b, v)) => match sp_ch(s, b, ')') {
                None => None,
                Some(c) => Some((c, v)),
            },
        },
    }
}

/// ` UNSIGNED`.
pub open spec fn sp_unsigned(s: Seq<char>, i: int) -> Option<int> {
    match sp_space1(s, i) {
        None => None,
        Some(a) => sp_kw(s, a, ("unsigned")@),
    }
}

/// ` COLLATE <identifier>`.
pub open spec fn sp_type_collate(s: Seq<char>, i: int) -> Option<(int, Seq<char>)> {
    match sp_space1(s, i) {
        None => None,
        Some(a) => match sp_kw(s, a, ("collate")@) {
            None => None,
            Some(b) => match sp_space1(s, b) {
                None => None,
                Some(c) => sp_sql_identifier(s, c),
            },
        },
    }
}

/// The value an integer-family keyword stands for.  The consumed text is
/// compared as written, so only the lower-case spellings are recognized;
/// any other casing yields `Unknown`.
pub open spec fn int_flag_value(f: Seq<char>) -> DataTypeEnum {
    if f == ("int")@ {
        DataTypeEnum::Int
    } else if f == ("bigint")@ {
        DataTypeEnum::Bigint
    } else if f == ("smallint")@ {
        DataTypeEnum::SmallInt
    } else if f == ("tinyint")@ {
        DataTypeEnum::TinyInt
    } else {
        DataTypeEnum::Unknown
    }
}

/// The integer family: one of `int`, `bigint`, `smallint`, `tinyint`
/// (tried in that order, case-insensitively), an optional display width
/// and an optional ` UNSIGNED`, both discarded.
pub open spec fn sp_type_some_int(s: Seq<char>, i: int) -> Option<(int, DataTypeEnum)> {
    let flag_end = match sp_kw(s, i, ("int")@) {
        Some(a) => Some(a),
        None => match sp_kw(s, i, ("bigint")@) {
            Some(a) => Some(a),
            None => match sp_kw(s, i, ("smallint")@) {
                Some(a) => Some(a),
                None => sp_kw(s, i, ("tinyint")@),
            },
        },
    };
    match flag_end {
        None => None,
        Some(a) => {
            let v = int_flag_value(s.subrange(i, a));
            let b = match sp_type_int_size(s, a) {
                Some((b, _n)) => b,
                None => a,
            };
            let c = match sp_unsigned(s, b) {
                Some(c) => c,
                None => b,
            };
            Some((c, v))
        },
    }
}

/// `tinyint` with an optional size argument.
pub open spec fn sp_type_tiny_int(s: Seq<char>, i: int) -> Option<(int, DataTypeEnum)> {
    match sp_kw(s, i, ("tinyint")@) {
        None => None,
        Some(a) => {
            let b = match sp_type_int_size(s, a) {
                Some((b, _n)) => b,
                None => a,
            };
            Some((b, DataTypeEnum::TinyInt))
        },
    }
}

/// `varchar(<n>)` with an optional collation suffix, which is discarded.
pub open spec fn sp_type_varchar(s: Seq<char>, i: int) -> Option<(int, DataTypeEnum)> {
    match sp_kw(s, i, ("varchar")@) {
        None => None,
        Some(a) => match sp_type_int_size(s, a) {
            None => None,
            Some((b, n)) => {
                let c = match sp_type_collate(s, b) {
                    Some((c, _v)) => c,
                    None => b,
                };
                Some((c, DataTypeEnum::VarChar(n)))
            },
        },
    }
}

/// `datetime` with an optional precision, zero when absent.
pub open spec fn sp_type_datetime(s: Seq<char>, i: int) -> Option<(int, DataTypeEnum)> {
    match sp_kw(s, i, ("datetime")@) {
        None => None,
        Some(a) => match sp_type_int_size(s, a) {
            Some((b, n)) => Some((b, DataTypeEnum::DateTime(n))),
            None => Some((a, DataTypeEnum::DateTime(0))),
        },
    }
}

/// `text` with an optional collation suffix.
pub open spec fn sp_type_text(s: Seq<char>, i: int) -> Option<(int, DataTypeEnum)> {
    match sp_kw(s, i, ("text")@) {
        None => None,
        Some(a) => {
            let b = match sp_type_collate(s, a) {
                Some((b, _v)) => b,
                None => a,
            };
            Some((b, DataTypeEnum::Text))
        },
    }
}

/// `bigtext` with an optional collation suffix.
pub open spec fn sp_type_bigtext(s: Seq<char>, i: int) -> Option<(int, DataTypeEnum)> {
    match sp_kw(s, i, ("bigtext")@) {
        None => None,
        Some(a) => {
            let b = match sp_type_collate(s, a) {
                Some((b, _v)) => b,
                None => a,
            };
            Some((b, DataTypeEnum::BigText))
        },
    }
}

/// `decimal(<n>)`; the precision is truncated to eight bits.
pub open spec fn sp_type_decimal(s: Seq<char>, i: int) -> Option<(int, DataTypeEnum)> {
    match sp_kw(s, i, ("decimal")@) {
        None => None,
        Some(a) => match sp_type_int_size(s, a) {
            None => None,
            Some((b, n)) => Some((b, DataTypeEnum::Decimal((n % 256) as u8))),
        },
    }
}

/// A column's data type: the integer family, `varchar`, `datetime` or
/// `decimal`, tried in that order.
pub open spec fn sp_parse_data_type(s: Seq<char>, i: int) -> Option<(int, DataTypeEnum)> {
    match sp_type_some_int(s, i) {
        Some(r) => Some(r),
        None => match sp_type_varchar(s, i) {
            Some(r) => Some(r),
            None => match sp_type_datetime(s, i) {
                Some(r) => Some(r),
                None => sp_type_decimal(s, i),
            },
        },
    }
}

/// Broadcast form of [`lemma_run_end_space_bounds`].
pub broadcast proof fn lemma_run_space_b(s: Seq<char>, i: int)
    ensures
        0 <= i <= s.len() ==> i <= #[trigger] run_end_space(s, i) <= s.len(),
{
    if 0 <= i <= s.len() {
        lemma_run_end_space_bounds(s, i);
    }
}

/// Broadcast form of [`lemma_run_end_multispace_bounds`].
pub broadcast proof fn lemma_run_multispace_b(s: Seq<char>, i: int)
    ensures
        0 <= i <= s.len() ==> i <= #[trigger] run_end_multispace(s, i) <= s.len(),
{
    if 0 <= i <= s.len() {
        lemma_run_end_multispace_bounds(s, i);
    }
}

/// Broadcast form of [`lemma_run_end_ident_bounds`].
pub broadcast proof fn lemma_run_ident_b(s: Seq<char>, i: int)
    ensures
        0 <= i <= s.len() ==> i <= #[trigger] run_end_ident(s, i) <= s.len(),
{
    if 0 <= i <= s.len() {
        lemma_run_end_ident_bounds(s, i);
    }
}

/// Broadcast form of [`lemma_run_end_digit_bounds`].
pub broadcast proof fn lemma_run_digit_b(s: Seq<char>, i: int)
    ensures
        0 <= i <= s.len() ==> i <= #[trigger] run_end_digit(s, i) <= s.len(),
{
    if 0 <= i <= s.len() {
        lemma_run_end_digit_bounds(s, i);
    }
}

/// A matched number ends after at least one digit and within the input.
pub broadcast proof fn lemma_sp_u32_bounds(s: Seq<char>, i: int)
    ensures
        0 <= i <= s.len() ==> ((#[trigger] sp_u32(s, i)) matches Some(r) ==> i < r.0 <= s.len()),
{
    if 0 <= i <= s.len() {
        lemma_run_end_digit_bounds(s, i);
    }
}

/// All the in-bounds facts a production proof needs about its parts.
pub broadcast group group_base_bounds {
    lemma_run_space_b,
    lemma_run_multispace_b,
    lemma_run_ident_b,
    lemma_run_digit_b,
    lemma_sp_u32_bounds,
    lemma_sp_sql_identifier_bounds,
    crate::quoted::lemma_sp_quoted_any_bounds,
}

/// `sp_space1` consumes at least one character and stays in bounds.
pub broadcast proof fn lemma_sp_space1_bounds(s: Seq<char>, i: int)
    ensures
        0 <= i <= s.len() ==> ((#[trigger] sp_space1(s, i)) matches Some(a) ==> i < a <= s.len()),
{
    broadcast use group_base_bounds;

    if 0 <= i < s.len() && crate::text::is_space_char(s[i]) {
        crate::text::lemma_run_end_space_bounds(s, i);
        assert(run_end_space(s, i) == run_end_space(s, i + 1));
    }
}

/// The data-type grammar and its sub-productions stay in bounds and, on
/// success, consume at least one character.
pub broadcast proof fn lemma_sp_parse_data_type_bounds(s: Seq<char>, i: int)
    ensures
        0 <= i <= s.len() ==> ((#[trigger] sp_parse_data_type(s, i)) matches Some(r) ==> i < r.0
            <= s.len()),
{
    broadcast use group_base_bounds, lemma_sp_space1_bounds;

    if 0 <= i <= s.len() {
        reveal_strlit("int");
        reveal_strlit("bigint");
        reveal_strlit("smallint");
        reveal_strlit("tinyint");
        reveal_strlit("varchar");
        reveal_strlit("datetime");
        reveal_strlit("decimal");
    }
}

/// The default clause never fails and never moves backwards.
pub broadcast proof fn lemma_sp_default_clause_bounds(s: Seq<char>, i: int)
    ensures
        0 <= i <= s.len() ==> i <= (#[trigger] sp_default_clause(s, i)).0 <= s.len(),
{
    broadcast use group_base_bounds, lemma_sp_space1_bounds;

}

/// A matched comment clause stays in bounds.
pub broadcast proof fn lemma_sp_comment_clause_bounds(s: Seq<char>, i: int)
    ensures
        0 <= i <= s.len() ==> ((#[trigger] sp_comment_clause(s, i)) matches Some(r) ==> i < r.0
            <= s.len()),
{
    broadcast use group_base_bounds, lemma_sp_space1_bounds;

}

/// One column definition: identifier, whitespace, data type, default
/// clause, optional comment, a mandatory trailing comma and trailing
/// whitespace.
pub open spec fn sp_column_core(s: Seq<char>, i: int) -> Option<(int, SpecColumn)> {
    match sp_sql_identifier(s, i) {
        None => None,
        Some((a, name)) => match sp_space1(s, a) {
            None => None,
            Some(b) => match sp_parse_data_type(s, b) {
                None => None,
                Some((c, typ)) => {
                    let d = sp_default_clause(s, c).0;
                    let after_comment = match sp_comment_clause(s, d) {
                        Some((e, v)) => (e, v),
                        None => (d, Seq::<char>::empty()),
                    };
                    let f = run_end_space(s, after_comment.0);
                    match sp_ch(s, f, ',') {
                        None => None,
                        Some(g) => Some(
                            (
                                run_end_multispace(s, g),
                                SpecColumn { name, typ, comment: after_comment.1 },
                            ),
                        ),
                    }
                },
            },
        },
    }
}

/// A column definition with optional leading whitespace.
pub open spec fn sp_column_definition1(s: Seq<char>, i: int) -> Option<(int, SpecColumn)> {
    if 0 <= i <= s.len() {
        sp_column_core(s, run_end_multispace(s, i))
    } else {
        None
    }
}

/// A matched column definition consumes at least one character.
pub broadcast proof fn lemma_sp_column_core_bounds(s: Seq<char>, i: int)
    ensures
        0 <= i <= s.len() ==> ((#[trigger] sp_column_core(s, i)) matches Some(r) ==> i < r.0
            <= s.len()),
{
    broadcast use group_base_bounds, lemma_sp_space1_bounds, lemma_sp_parse_data_type_bounds,
        lemma_sp_default_clause_bounds, lemma_sp_comment_clause_bounds;

}

/// See [`lemma_sp_column_core_bounds`].
pub broadcast proof fn lemma_sp_column_definition1_bounds(s: Seq<char>, i: int)
    ensures
        0 <= i <= s.len() ==> ((#[trigger] sp_column_definition1(s, i)) matches Some(r) ==> i
            < r.0 <= s.len()),
{
    broadcast use group_base_bounds, lemma_sp_column_core_bounds;

}

/// One entry of an index's column list: an identifier, optional spaces
/// and an optional comma.
pub open spec fn sp_idx_col_item(s: Seq<char>, i: int) -> Option<(int, Seq<char>)> {
    match sp_sql_identifier(s, i) {
        None => None,
        Some((a, name)) => {
            let b = run_end_space(s, a);
            let c = match sp_ch(s, b, ',') {
                Some(c) => c,
                None => b,
            };
            Some((c, name))
        },
    }
}

/// A matched column-list entry consumes at least one character.
pub broadcast proof fn lemma_sp_idx_col_item_bounds(s: Seq<char>, i: int)
    ensures
        0 <= i <= s.len() ==> ((#[trigger] sp_idx_col_item(s, i)) matches Some(r) ==> i < r.0
            <= s.len()),
{
    broadcast use group_base_bounds;

}

/// Zero or more index column-list entries, committed greedily.
pub open spec fn sp_idx_col_list(s: Seq<char>, i: int) -> (int, Seq<Seq<char>>)
    decreases s.len() - i,
    when 0 <= i <= s.len()
    via sp_idx_col_list_dec
{
    match sp_idx_col_item(s, i) {
        Some((j, name)) => {
            let r = sp_idx_col_list(s, j);
            (r.0, seq![name] + r.1)
        },
        None => (i, Seq::empty()),
    }
}

#[via_fn]
proof fn sp_idx_col_list_dec(s: Seq<char>, i: int) {
    broadcast use lemma_sp_idx_col_item_bounds;

}

/// The index column list never moves backwards.
pub broadcast proof fn lemma_sp_idx_col_list_bounds(s: Seq<char>, i: int)
    ensures
        0 <= i <= s.len() ==> i <= (#[trigger] sp_idx_col_list(s, i)).0 <= s.len(),
    decreases s.len() - i,
{
    broadcast use lemma_sp_idx_col_item_bounds;

    if 0 <= i <= s.len() {
        match sp_idx_col_item(s, i) {
            Some((j, _n)) => {
                lemma_sp_idx_col_list_bounds(s, j);
            },
            None => {},
        }
    }
}

/// The parenthesized column list of an index: `(name[,name...])`.
pub open spec fn sp_idx_column_name(s: Seq<char>, i: int) -> Option<(int, Seq<Seq<char>>)> {
    if 0 <= i <= s.len() {
        let a = run_end_space(s, i);
        match sp_ch(s, a, '(') {
            None => None,
            Some(b) => {
                let l = sp_idx_col_list(s, b);
                if l.1.len() == 0 {
                    None
                } else {
                    match sp_ch(s, l.0, ')') {
                        None => None,
                        Some(c) => Some((c, l.1)),
                    }
                }
            },
        }
    } else {
        None
    }
}

/// ` USING BTREE` or ` USING HASH`; the tree kind is returned as written.
pub open spec fn sp_idx_using(s: Seq<char>, i: int) -> Option<(int, Seq<char>)> {
    match sp_space1(s, i) {
        None => None,
        Some(a) => match sp_kw(s, a, ("using")@) {
            None => None,
            Some(b) => match sp_space1(s, b) {
                None => None,
                Some(c) => match sp_kw(s, c, ("btree")@) {
                    Some(d) => Some((d, s.subrange(c, d))),
                    None => match sp_kw(s, c, ("hash")@) {
                        Some(d) => Some((d, s.subrange(c, d))),
                        None => None,
                    },
                },
            },
        },
    }
}

/// The optional `PRIMARY ` / `UNIQUE ` prefix of an index declaration.
pub open spec fn sp_idx_part_prev(s: Seq<char>, i: int) -> Option<(int, IndexIdxTyeEnum)> {
    match sp_kw(s, i, ("primary")@) {
        Some(a) => match sp_space1(s, a) {
            Some(b) => Some((b, IndexIdxTyeEnum::Primary)),
            None => None,
        },
        None => match sp_kw(s, i, ("unique")@) {
            Some(a) => match sp_space1(s, a) {
                Some(b) => Some((b, IndexIdxTyeEnum::Unique)),
                None => None,
            },
            None => None,
        },
    }
}

/// The tail of an index declaration, shared by both index forms: `KEY`,
/// whitespace, an optional index name, the column list, an optional
/// `USING` clause, an optional comma and trailing whitespace.
pub open spec fn sp_idx_tail(s: Seq<char>, i: int, typ: IndexIdxTyeEnum) -> Option<
    (int, SpecIndex),
> {
    match sp_kw(s, i, ("key")@) {
        None => None,
        Some(a) => match sp_space1(s, a) {
            None => None,
            Some(b) => {
                let named = match sp_sql_identifier(s, b) {
                    Some((c, n)) => (c, n),
                    None => (b, Seq::<char>::empty()),
                };
                match sp_idx_column_name(s, named.0) {
                    None => None,
                    Some((d, cols)) => {
                        let using = match sp_idx_using(s, d) {
                            Some((e, u)) => (e, Some(u)),
                            None => (d, None),
                        };
                        let f = match sp_ch(s, using.0, ',') {
                            Some(f) => f,
                            None => using.0,
                        };
                        Some(
                            (
                                run_end_multispace(s, f),
                                SpecIndex {
                                    name: named.1,
                                    using_type: using.1,
                                    typ,
                                    column_names: cols,
                                },
                            ),
                        )
                    },
                }
            },
        },
    }
}

/// An index declaration that must begin with `PRIMARY` or `UNIQUE`.
pub open spec fn sp_idx_line(s: Seq<char>, i: int) -> Option<(int, SpecIndex)> {
    match sp_idx_part_prev(s, i) {
        None => None,
        Some((a, typ)) => sp_idx_tail(s, a, typ),
    }
}

/// An index declaration with optional leading whitespace and an optional
/// `PRIMARY`/`UNIQUE` prefix; a bare `KEY` gives a normal index.
pub open spec fn sp_idx_line2(s: Seq<char>, i: int) -> Option<(int, SpecIndex)> {
    if 0 <= i <= s.len() {
        let a = run_end_multispace(s, i);
        let prev = match sp_idx_part_prev(s, a) {
            Some((b, typ)) => (b, typ),
            None => (a, IndexIdxTyeEnum::Normal),
        };
        sp_idx_tail(s, prev.0, prev.1)
    } else {
        None
    }
}

/// A matched index tail stays in bounds.
pub broadcast proof fn lemma_sp_idx_tail_bounds(s: Seq<char>, i: int, typ: IndexIdxTyeEnum)
    ensures
        0 <= i <= s.len() ==> ((#[trigger] sp_idx_tail(s, i, typ)) matches Some(r) ==> i < r.0
            <= s.len()),
{
    broadcast use group_base_bounds, lemma_sp_space1_bounds, lemma_sp_idx_col_list_bounds;

}

/// One line of a table body: an index declaration if one matches, else a
/// column definition.
pub open spec fn sp_one_define_line(s: Seq<char>, i: int) -> Option<(int, SpecLine)> {
    match sp_idx_line2(s, i) {
        Some((a, x)) => Some((a, SpecLine::Index(x))),
        None => match sp_column_definition1(s, i) {
            Some((a, c)) => Some((a, SpecLine::Column(c))),
            None => None,
        },
    }
}

/// A matched body line consumes at least one character.
pub broadcast proof fn lemma_sp_one_define_line_bounds(s: Seq<char>, i: int)
    ensures
        0 <= i <= s.len() ==> ((#[trigger] sp_one_define_line(s, i)) matches Some(r) ==> i < r.0
            <= s.len()),
{
    broadcast use group_base_bounds, lemma_sp_idx_tail_bounds, lemma_sp_column_definition1_bounds;

    if 0 <= i <= s.len() {
        reveal_strlit("key");
    }
}

/// Zero or more body lines, committed greedily.
pub open spec fn sp_define_line_list(s: Seq<char>, i: int) -> (int, Seq<SpecLine>)
    decreases s.len() - i,
    when 0 <= i <= s.len()
    via sp_define_line_list_dec
{
    match sp_one_define_line(s, i) {
        Some((j, l)) => {
            let r = sp_define_line_list(s, j);
            (r.0, seq![l] + r.1)
        },
        None => (i, Seq::empty()),
    }
}

#[via_fn]
proof fn sp_define_line_list_dec(s: Seq<char>, i: int) {
    broadcast use lemma_sp_one_define_line_bounds;

}

/// The whole parenthesized table body: one or more lines between `(` and
/// `)`, with whitespace tolerated around them.
pub open spec fn sp_many1_define_line(s: Seq<char>, i: int) -> Option<(int, Seq<SpecLine>)> {
    match sp_ch(s, i, '(') {
        None => None,
        Some(a) => {
            let b = run_end_multispace(s, a);
            let l = sp_define_line_list(s, b);
            if l.1.len() == 0 {
                None
            } else {
                let c = run_end_multispace(s, l.0);
                match sp_ch(s, c, ')') {
                    None => None,
                    Some(d) => Some((d, l.1)),
                }
            }
        },
    }
}

/// The statement header: `CREATE TABLE [IF NOT EXISTS] <name>`, returning
/// the table name and consuming trailing whitespace.
pub open spec fn sp_parse_create_table(s: Seq<char>, i: int) -> Option<(int, Seq<char>)> {
    match sp_kw(s, i, ("create")@) {
        None => None,
        Some(a) => match sp_space1(s, a) {
            None => None,
            Some(b) => match sp_kw(s, b, ("table")@) {
                None => None,
                Some(c) => {
                    let d = match sp_if_not_exists(s, c) {
                        Some(d) => d,
                        None => c,
                    };
                    match sp_space1(s, d) {
                        None => None,
                        Some(e) => match sp_sql_identifier(s, e) {
                            None => None,
                            Some((f, name)) => Some((run_end_multispace(s, f), name)),
                        },
                    }
                },
            },
        },
    }
}

/// ` IF NOT EXISTS`.
pub open spec fn sp_if_not_exists(s: Seq<char>, i: int) -> Option<int> {
    match sp_space1(s, i) {
        None => None,
        Some(a) => match sp_kw(s, a, ("if")@) {
            None => None,
            Some(b) => match sp_space1(s, b) {
                None => None,
                Some(c) => match sp_kw(s, c, ("not")@) {
                    None => None,
                    Some(d) => match sp_space1(s, d) {
                        None => None,
                        Some(e) => sp_kw(s, e, ("exists")@),
                    },
                },
            },
        },
    }
}

/// `= `-style separator: spaces, then either `=` or nothing, then spaces.
pub open spec fn sp_eq_sep(s: Seq<char>, i: int) -> int {
    let a = run_end_space(s, i);
    let b = match sp_ch(s, a, '=') {
        Some(b) => b,
        None => a,
    };
    run_end_space(s, b)
}

/// `ENGINE [=] <name>` with optional leading spaces.
pub open spec fn sp_table_option_engine(s: Seq<char>, i: int) -> Option<(int, Seq<char>)> {
    if 0 <= i <= s.len() {
        let a = run_end_space(s, i);
        match sp_kw(s, a, ("engine")@) {
            None => None,
            Some(b) => {
                let c = match sp_opt_eq(s, b) {
                    Some(c) => c,
                    None => b,
                };
                let d = run_end_space(s, c);
                sp_sql_identifier(s, d)
            },
        }
    } else {
        None
    }
}

/// An optional `=` preceded by spaces; consumes nothing when absent.
pub open spec fn sp_opt_eq(s: Seq<char>, i: int) -> Option<int> {
    let a = run_end_space(s, i);
    sp_ch(s, a, '=')
}

/// An optional ` DEFAULT` prefix; consumes nothing when absent.
pub open spec fn sp_opt_default_kw(s: Seq<char>, i: int) -> int {
    match sp_space1(s, i) {
        None => i,
        Some(a) => match sp_kw(s, a, ("default")@) {
            Some(b) => b,
            None => i,
        },
    }
}

/// `[DEFAULT] CHARSET|CHARACTER SET [=] <name>`.
pub open spec fn sp_table_option_char_set(s: Seq<char>, i: int) -> Option<(int, Seq<char>)> {
    if 0 <= i <= s.len() {
        let a = sp_opt_default_kw(s, i);
        let b = run_end_space(s, a);
        let kwend = match sp_kw(s, run_end_space(s, b), ("charset")@) {
            Some(c) => Some(c),
            None => match sp_kw(s, b, ("character")@) {
                None => None,
                Some(c1) => match sp_space1(s, c1) {
                    None => None,
                    Some(c2) => sp_kw(s, c2, ("set")@),
                },
            },
        };
        match kwend {
            None => None,
            Some(c) => sp_sql_identifier(s, sp_eq_sep(s, c)),
        }
    } else {
        None
    }
}

/// `[DEFAULT] COLLATE [=] <name>`.
pub open spec fn sp_table_option_collate(s: Seq<char>, i: int) -> Option<(int, Seq<char>)> {
    if 0 <= i <= s.len() {
        let a = sp_opt_default_kw(s, i);
        let b = run_end_space(s, a);
        match sp_kw(s, b, ("collate")@) {
            None => None,
            Some(c) => sp_sql_identifier(s, sp_eq_sep(s, c)),
        }
    } else {
        None
    }
}

/// `COMMENT [=] '<string>'` with mandatory leading whitespace.
pub open spec fn sp_table_option_comment(s: Seq<char>, i: int) -> Option<(int, Seq<char>)> {
    match sp_space1(s, i) {
        None => None,
        Some(a) => match sp_kw(s, a, ("comment")@) {
            None => None,
            Some(b) => sp_quoted_any(s, sp_eq_sep(s, b)),
        },
    }
}

/// The four table options, each mandatory, in this fixed order:
/// `ENGINE`, `CHARSET`, `COLLATE`, `COMMENT`.
pub open spec fn sp_parse_table_option(s: Seq<char>, i: int) -> Option<(int, SpecTableOption)> {
    match sp_table_option_engine(s, i) {
        None => None,
        Some((a, engine)) => match sp_table_option_char_set(s, a) {
            None => None,
            Some((b, charset)) => match sp_table_option_collate(s, b) {
                None => None,
                Some((c, collate)) => match sp_table_option_comment(s, c) {
                    None => None,
                    Some((d, comment)) => Some(
                        (d, SpecTableOption { engine, charset, collate, comment }),
                    ),
                },
            },
        },
    }
}

/// The columns among a table body's lines, in their original order.
pub open spec fn spec_columns_of(lines: Seq<SpecLine>) -> Seq<SpecColumn>
    decreases lines.len(),
{
    if lines.len() == 0 {
        Seq::empty()
    } else {
        let rest = spec_columns_of(lines.drop_first());
        match lines[0] {
            SpecLine::Column(c) => seq![c] + rest,
            SpecLine::Index(_) => rest,
        }
    }
}

/// A whole `CREATE TABLE` statement: the header, the parenthesized body
/// and the table options.  The schema keeps the table name, the column
/// lines only (in order) and the options.
pub open spec fn sp_parse_create_sql(s: Seq<char>, i: int) -> Option<(int, SpecTableSchema)> {
    match sp_parse_create_table(s, i) {
        None => None,
        Some((a, name)) => {
            let b = run_end_space(s, a);
            match sp_many1_define_line(s, b) {
                None => None,
                Some((c, lines)) => {
                    let d = run_end_space(s, c);
                    match sp_parse_table_option(s, d) {
                        None => None,
                        Some((e, option)) => Some(
                            (
                                e,
                                SpecTableSchema {
                                    table_name: name,
                                    column_arr: spec_columns_of(lines),
                                    option,
                                },
                            ),
                        ),
                    }
                },
            }
        },
    }
}

} // verus!
