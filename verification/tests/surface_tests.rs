use my_parser_rs::ast::{DataTypeEnum, DefaultEnum, IndexIdxTyeEnum, OneColumn, OneIndex,
    OneLineEnum};
use my_parser_rs::ddl::{identifier_char_parser, parse_column_definition2,
    parse_column_definition_of_default, parse_column_definition_of_null, parse_comment,
    parse_create_table, parse_default_current_timestamp, parse_default_int,
    parse_default_null, parse_default_on_current_timestamp, parse_default_str, parse_end_comma,
    parse_end_has_comma, parse_end_no_comma, parse_idx_column_name, parse_idx_line,
    parse_idx_using_struct, parse_int_auto_increment, parse_int_is_unsigned,
    parse_one_define_line, sql_identifier, type_bigtext, type_datetime, type_decimal,
    type_int_size, type_text, type_varchar};
use my_parser_rs::hexcolor::{from_hex, hex_primary, is_hex_digit};
use my_parser_rs::markdown::{recog_title, title_level, title_level2};
use my_parser_rs::sqlvals::{parse_sql1, ItemPlaceholder, Literal, Real, SqlType};

#[test]
fn identifier_fragments_split_at_underscores() {
    assert_eq!(
        identifier_char_parser("abc_def"),
        Ok(("_def".to_string(), "abc".to_string()))
    );
    assert_eq!(
        identifier_char_parser("_def"),
        Ok(("def".to_string(), "_".to_string()))
    );
    assert!(identifier_char_parser("-x").is_err());
    assert!(identifier_char_parser("").is_err());
}

#[test]
fn identifiers_keep_half_wrapped_backticks() {
    assert_eq!(
        sql_identifier("`half"),
        Ok(("".to_string(), "half".to_string()))
    );
    assert_eq!(
        sql_identifier("half` rest"),
        Ok((" rest".to_string(), "half".to_string()))
    );
    assert!(sql_identifier("``").is_err());
    assert!(sql_identifier(" x").is_err());
}

#[test]
fn null_keyword_is_returned_as_written() {
    assert_eq!(
        parse_column_definition_of_null("NULL,"),
        Ok((",".to_string(), "NULL".to_string()))
    );
    assert!(parse_column_definition_of_null("nul").is_err());
}

#[test]
fn every_default_alternative_parses() {
    assert_eq!(
        parse_default_int("default 42 x"),
        Ok((" x".to_string(), DefaultEnum::DefaultInt(42)))
    );
    assert_eq!(
        parse_default_str("default 'on'"),
        Ok(("".to_string(), DefaultEnum::DefaultStr("on".to_string())))
    );
    assert_eq!(
        parse_default_null("DEFAULT NULL"),
        Ok(("".to_string(), DefaultEnum::DefaultNull))
    );
    assert_eq!(
        parse_default_current_timestamp("default current_timestamp"),
        Ok(("".to_string(), DefaultEnum::DefaultCurStamp))
    );
    assert_eq!(
        parse_default_current_timestamp("default current_timestamp on update current_timestamp"),
        Ok(("".to_string(), DefaultEnum::DefaultCurStampOnUpdateCurStamp))
    );
    assert_eq!(
        parse_default_on_current_timestamp(" ON UPDATE CURRENT_TIMESTAMP"),
        Ok(("".to_string(), DefaultEnum::DefaultOnUpdateCurStamp))
    );
    assert_eq!(
        parse_int_auto_increment("AUTO_INCREMENT,"),
        Ok((",".to_string(), DefaultEnum::DefaultAutoIncrement))
    );
    assert_eq!(
        parse_int_is_unsigned(" unsigned"),
        Ok(("".to_string(), Some(1)))
    );
    assert!(parse_default_int("default x").is_err());
    assert!(parse_int_is_unsigned("unsigned").is_err());
}

#[test]
fn absent_default_clause_is_none() {
    assert_eq!(
        parse_column_definition_of_default(" COMMENT 'x'"),
        Ok((" COMMENT 'x'".to_string(), DefaultEnum::DefaultNone))
    );
}

#[test]
fn comment_clause_needs_whitespace_and_quotes() {
    assert_eq!(
        parse_comment(" comment 'done'"),
        Ok(("".to_string(), "done".to_string()))
    );
    assert!(parse_comment("comment 'done'").is_err());
    assert!(parse_comment(" comment done").is_err());
}

#[test]
fn remaining_type_family_members_parse() {
    assert_eq!(
        type_varchar("varchar(12) COLLATE utf8mb4_bin x"),
        Ok((" x".to_string(), DataTypeEnum::VarChar(12)))
    );
    assert!(type_varchar("varchar").is_err());
    assert_eq!(
        type_datetime("datetime(3)"),
        Ok(("".to_string(), DataTypeEnum::DateTime(3)))
    );
    assert_eq!(
        type_datetime("datetime x"),
        Ok((" x".to_string(), DataTypeEnum::DateTime(0)))
    );
    assert_eq!(type_text("text"), Ok(("".to_string(), DataTypeEnum::Text)));
    assert_eq!(
        type_bigtext("bigtext COLLATE utf8mb4_bin"),
        Ok(("".to_string(), DataTypeEnum::BigText))
    );
    assert_eq!(
        type_decimal("decimal(30)"),
        Ok(("".to_string(), DataTypeEnum::Decimal(30)))
    );
    assert_eq!(
        type_decimal("decimal(300)"),
        Ok(("".to_string(), DataTypeEnum::Decimal(44)))
    );
    assert!(type_decimal("decimal").is_err());
    assert_eq!(type_int_size("(7)x"), Ok(("x".to_string(), 7)));
}

#[test]
fn line_endings_accept_comma_or_brace() {
    assert_eq!(parse_end_has_comma(",  x"), Ok(("x".to_string(), Some(1))));
    assert!(parse_end_has_comma("x").is_err());
    assert_eq!(parse_end_no_comma("  }x"), Ok(("x".to_string(), Some(0))));
    assert!(parse_end_no_comma("x").is_err());
    assert_eq!(parse_end_comma(", x"), Ok(("x".to_string(), Some(1))));
    assert_eq!(parse_end_comma("}"), Ok(("".to_string(), Some(0))));
    assert!(parse_end_comma("x").is_err());
}

#[test]
fn create_table_header_takes_optional_if_not_exists() {
    assert_eq!(
        parse_create_table("CREATE TABLE `demo_table_user` ("),
        Ok(("(".to_string(), "demo_table_user".to_string()))
    );
    assert_eq!(
        parse_create_table("create table if not exists t2("),
        Ok(("(".to_string(), "t2".to_string()))
    );
    assert!(parse_create_table("CREATE VIEW v").is_err());
}

#[test]
fn index_declarations_parse_names_columns_and_using() {
    assert_eq!(
        parse_idx_column_name(" (`a`,`b`)"),
        Ok(("".to_string(), vec!["a".to_string(), "b".to_string()]))
    );
    assert!(parse_idx_column_name("()").is_err());
    assert_eq!(
        parse_idx_using_struct(" USING hash"),
        Ok(("".to_string(), "hash".to_string()))
    );
    assert!(parse_idx_using_struct(" USING btrees").is_ok());
    assert!(parse_idx_using_struct(" USING rtree").is_err());
    let idx = parse_idx_line("PRIMARY KEY (`id`)").unwrap().1;
    assert_eq!(
        idx,
        OneIndex {
            name: "".to_string(),
            using_type: None,
            typ: IndexIdxTyeEnum::Primary,
            column_names: vec!["id".to_string()],
        }
    );
    assert!(parse_idx_line("KEY (`id`)").is_err());
}

#[test]
fn body_lines_prefer_index_over_column() {
    assert_eq!(
        parse_one_define_line("KEY `k` (`c`),"),
        Ok((
            "".to_string(),
            OneLineEnum::Index(OneIndex {
                name: "k".to_string(),
                using_type: None,
                typ: IndexIdxTyeEnum::Normal,
                column_names: vec!["c".to_string()],
            })
        ))
    );
    assert_eq!(
        parse_column_definition2("c int,"),
        Ok((
            "".to_string(),
            OneLineEnum::Column(OneColumn::new(
                "c".to_string(),
                DataTypeEnum::Int,
                "".to_string()
            ))
        ))
    );
    assert!(parse_one_define_line("! not a line").is_err());
}

#[test]
fn hex_digits_and_primaries() {
    assert!(is_hex_digit('a') && is_hex_digit('F') && is_hex_digit('0'));
    assert!(!is_hex_digit('g'));
    assert_eq!(from_hex("ff"), Some(255));
    assert_eq!(from_hex("00ff"), Some(255));
    assert_eq!(from_hex("100"), None);
    assert_eq!(from_hex(""), None);
    assert_eq!(hex_primary("2F1"), Ok(("1".to_string(), 47)));
    assert!(hex_primary("2").is_err());
}

#[test]
fn markdown_heading_levels() {
    assert_eq!(
        title_level("## MySQL\n"),
        Ok((" MySQL\n".to_string(), "##".to_string()))
    );
    assert!(title_level("MySQL").is_err());
    assert_eq!(title_level2("### x"), Ok((" x".to_string(), 3)));
    assert_eq!(title_level2("x"), Ok(("x".to_string(), 0)));
    assert_eq!(
        recog_title("heading rest"),
        Ok((" rest".to_string(), "heading".to_string()))
    );
}

#[test]
fn sql_value_vocabulary_round_trips_equality() {
    parse_sql1();
    let lit = Literal::FixedPoint(Real { integral: 3, fractional: 14 });
    assert_eq!(lit, lit.clone());
    let ty = SqlType::Enum(vec![Literal::String("a".to_string()), Literal::Null]);
    assert_eq!(ty, ty.clone());
    assert_ne!(
        Literal::Placeholder(ItemPlaceholder::QuestionMark),
        Literal::Placeholder(ItemPlaceholder::DollarNumber(1))
    );
}
