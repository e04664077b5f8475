use my_parser_rs::ast::{DataTypeEnum, OneColumn, TableOption, TableSchema};
use my_parser_rs::ddl::{parse_create_sql, parse_data_type, type_int_size};
use my_parser_rs::hexcolor::{hex_color, Color};
use my_parser_rs::http::Method;
use my_parser_rs::num::{parse_u32, parse_u32_ver1};
use my_parser_rs::render::{lowercase_first, to_big_case_camel, to_small_case_camel,
    transfer_type, uppercase_first};

#[test]
fn test_method_new() {
    let b1 = b"POST";
    assert_eq!(Method::Post, Method::new(b1));
}

#[test]
fn method_new_keeps_unknown_tokens() {
    assert_eq!(Method::Get, Method::new(b"get"));
    assert_eq!(Method::Custom("PATCH".to_string()), Method::new(b"PATCH"));
}

#[test]
fn test_parse_sql1() {
    let sql_str1 = r#"CREATE TABLE parse_t(
            id INT NOT NULL,
            cv1 VARCHAR(20) DEFAULT "",
            tt TIMESTAMP DEFAULT CURRENT_TIMESTAMP,
            dayweek SMALLINT,
            cv2 INT,
            PRIMARY KEY(id)
        ) ENGINE=innodb DEFAULT CHARSET=utf8mb4;"#;
    let lines: Vec<String> = sql_str1
        .lines()
        .filter(|l| {
            !l.is_empty()
                && !l.starts_with("#")
                && !l.starts_with("--")
                && !(l.starts_with("/*") && l.ends_with("*/;"))
        })
        .map(|l| {
            if !(l.ends_with("\n") || l.ends_with(";")) {
                String::from(l) + "\n"
            } else {
                String::from(l)
            }
        })
        .collect();
    println!("lines: {:?}", &lines);
}

#[test]
fn test_upper_first() {
    let res = uppercase_first("hello world");
    println!("{}", res);
}

#[test]
fn test_identifier_case_camel() {
    assert_eq!(to_big_case_camel("user_name"), "UserName".to_string());
    assert_eq!(to_big_case_camel("Hello_world"), "HelloWorld".to_string());
    assert_eq!(to_big_case_camel("Hello__world"), "HelloWorld".to_string());
    assert_eq!(to_big_case_camel("aaaaa"), "Aaaaa".to_string());
}

#[test]
fn case_helpers_map_single_characters() {
    assert_eq!(uppercase_first("hello"), "Hello".to_string());
    assert_eq!(uppercase_first(""), "".to_string());
    assert_eq!(lowercase_first("Hello"), "hello".to_string());
    assert_eq!(to_small_case_camel("User_Name"), "username".to_string());
}

#[test]
fn transfer_type_prints_widths() {
    assert_eq!(transfer_type(DataTypeEnum::Int), "int".to_string());
    assert_eq!(transfer_type(DataTypeEnum::VarChar(255)), "varchar(255)".to_string());
    assert_eq!(transfer_type(DataTypeEnum::VarChar(0)), "varchar(0)".to_string());
    assert_eq!(transfer_type(DataTypeEnum::Decimal(30)), "decimal(30)".to_string());
    assert_eq!(transfer_type(DataTypeEnum::DateTime(3)), "datetime".to_string());
    assert_eq!(transfer_type(DataTypeEnum::Unknown), "Unknown".to_string());
}

#[test]
fn test_parse_u32_ver1() {
    assert_eq!(
        parse_u32_ver1("(12345)".as_bytes()),
        Ok(("".as_bytes().to_vec(), 12345))
    );

    assert_eq!(parse_u32_ver1("(0)".as_bytes()), Ok(("".as_bytes().to_vec(), 0)));
}

#[test]
fn test_num1() {
    if let Ok((_p1, p2)) = parse_u32("(12345)".as_bytes()) {
        let res = String::from_utf8(p2.to_vec());
        if res.is_ok() {
            println!("parse res is: {}", res.unwrap());
        }
    } else {
        println!("error parsing...");
    }
}

#[test]
fn parenthesized_numbers_keep_their_digits() {
    assert_eq!(
        parse_u32("(007)x".as_bytes()),
        Ok(("x".as_bytes().to_vec(), "007".as_bytes().to_vec()))
    );
    assert!(parse_u32("(12".as_bytes()).is_err());
    assert!(parse_u32("12)".as_bytes()).is_err());
    assert_eq!(
        parse_u32("()".as_bytes()),
        Ok(("".as_bytes().to_vec(), Vec::new()))
    );
}

#[test]
fn test_from_hex() {
    assert_eq!(
        hex_color("#2F14DF"),
        Ok((
            "".to_string(),
            Color {
                red: 47,
                green: 20,
                blue: 223,
            }
        ))
    );
}

#[test]
fn hex_color_rejects_short_and_unhex_input() {
    assert!(hex_color("#2F14D").is_err());
    assert!(hex_color("2F14DF").is_err());
    assert!(hex_color("#2G14DF").is_err());
}

#[test]
fn demo_table_scenario() {
    let input = "CREATE TABLE `demo_table_user` (\n  `id` bigint NOT NULL COMMENT '主键',\n  PRIMARY KEY (`id`) USING BTREE\n) ENGINE=InnoDB DEFAULT CHARSET=utf8mb4 COLLATE=utf8mb4_bin COMMENT='demo'";
    let res = parse_create_sql(input);
    assert_eq!(
        res,
        Ok((
            "".to_string(),
            TableSchema {
                table_name: "demo_table_user".to_string(),
                column_arr: vec![OneColumn {
                    name: "id".to_string(),
                    typ: DataTypeEnum::Bigint,
                    comment: "主键".to_string(),
                }],
                option: TableOption {
                    engine: "InnoDB".to_string(),
                    charset: "utf8mb4".to_string(),
                    collate: "utf8mb4_bin".to_string(),
                    comment: "demo".to_string(),
                },
            }
        ))
    );
}

#[test]
fn table_options_are_fixed_order_and_all_mandatory() {
    let body = "CREATE TABLE t (\n`id` int NOT NULL,\n)";
    let ok = format!("{} ENGINE=InnoDB DEFAULT CHARSET=utf8mb4 COLLATE=utf8mb4_bin COMMENT='x'", body);
    assert!(parse_create_sql(&ok).is_ok());
    let missing_collate = format!("{} ENGINE=InnoDB DEFAULT CHARSET=utf8mb4 COMMENT='x'", body);
    assert!(parse_create_sql(&missing_collate).is_err());
    let missing_comment = format!("{} ENGINE=InnoDB DEFAULT CHARSET=utf8mb4 COLLATE=utf8mb4_bin", body);
    assert!(parse_create_sql(&missing_comment).is_err());
    let reordered = format!("{} ENGINE=InnoDB COLLATE=utf8mb4_bin DEFAULT CHARSET=utf8mb4 COMMENT='x'", body);
    assert!(parse_create_sql(&reordered).is_err());
    let missing_engine = format!("{} DEFAULT CHARSET=utf8mb4 COLLATE=utf8mb4_bin COMMENT='x'", body);
    assert!(parse_create_sql(&missing_engine).is_err());
}

#[test]
fn unrecognized_body_line_fails_the_whole_statement() {
    let input = "CREATE TABLE t (\n`id` int NOT NULL,\nFOREIGN KEY (`x`) REFERENCES other (`y`),\n) ENGINE=InnoDB DEFAULT CHARSET=utf8mb4 COLLATE=utf8mb4_bin COMMENT='x'";
    assert!(parse_create_sql(input).is_err());
}

#[test]
fn size_arguments_must_fit_a_u32() {
    assert_eq!(type_int_size("(4294967295)"), Ok(("".to_string(), 4294967295)));
    assert!(type_int_size("(4294967296)").is_err());
    assert!(type_int_size("(99999999999999999999)").is_err());
    assert!(type_int_size("()").is_err());
    assert!(parse_data_type("varchar(99999999999)").is_err());
}

#[test]
fn upper_case_integer_keywords_parse_as_unknown() {
    assert_eq!(parse_data_type("INT"), Ok(("".to_string(), DataTypeEnum::Unknown)));
    assert_eq!(parse_data_type("Bigint(20)"), Ok(("".to_string(), DataTypeEnum::Unknown)));
}
