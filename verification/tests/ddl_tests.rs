use my_parser_rs::ast::{DataTypeEnum, DefaultEnum, OneColumn, OneIndex, OneLineEnum, TableOption,
    TableSchema};
use my_parser_rs::ddl::{parse_column_definition1, parse_column_definition_of_default,
    parse_column_definition_of_not_null, parse_create_sql, parse_data_type, parse_default,
    parse_idx_line2, parse_table_option, sql_identifier, table_option_char_set,
    table_option_collate, table_option_comment, table_option_engine, type_collate, type_some_int,
    type_tiny_int};

#[test]
fn test_parse_column_definition_of_not_null() {
    assert_eq!(
        parse_column_definition_of_not_null(r##" not null"##),
        Ok(("".to_string(), "".to_string()))
    );
}

#[test]
fn test_parse_default() {
    assert_eq!(
        parse_default(r##" default 1"##),
        Ok(("".to_string(), DefaultEnum::DefaultInt(1)))
    );
    assert_eq!(
        parse_default(r##" default '1'"##),
        Ok(("".to_string(), DefaultEnum::DefaultStr("1".to_string())))
    );
}

// The whole default clause normalizes every matched DEFAULT alternative to
// `DefaultNull`; only the absence of a default gives `DefaultNone`.
#[test]
fn test_parse_column_definition_of_default() {
    assert_eq!(
        parse_column_definition_of_default(r##" not null default '1'"##),
        Ok(("".to_string(), DefaultEnum::DefaultNull))
    );
    assert_eq!(
        parse_column_definition_of_default(r##" not null default 2"##),
        Ok(("".to_string(), DefaultEnum::DefaultNull))
    );
    assert_eq!(
        parse_column_definition_of_default(
            r##" NOT NULL DEFAULT CURRENT_TIMESTAMP ON UPDATE CURRENT_TIMESTAMP"##
        ),
        Ok(("".to_string(), DefaultEnum::DefaultNull))
    );
}

#[test]
fn test_sql_identifier() {
    assert_eq!(
        sql_identifier("work_user"),
        Ok(("".to_string(), "work_user".to_string()))
    );
    assert_eq!(
        sql_identifier("`work_user`"),
        Ok(("".to_string(), "work_user".to_string()))
    );
}

#[test]
fn test_type_tiny_int() {
    assert_eq!(
        type_tiny_int("tinyint(10)"),
        Ok(("".to_string(), DataTypeEnum::TinyInt))
    );
    assert_eq!(
        type_some_int("tinyint(10)"),
        Ok(("".to_string(), DataTypeEnum::TinyInt))
    );
    assert_eq!(
        type_some_int("bigint"),
        Ok(("".to_string(), DataTypeEnum::Bigint))
    );
}

#[test]
fn test_type_collate() {
    assert_eq!(
        type_collate(" COLLATE utf8mb4_bin"),
        Ok(("".to_string(), "utf8mb4_bin".to_string()))
    );
}

#[test]
fn test_parse_data_type() {
    assert_eq!(parse_data_type("int"), Ok(("".to_string(), DataTypeEnum::Int)));
    assert_eq!(
        parse_data_type("bigint(20)"),
        Ok(("".to_string(), DataTypeEnum::Bigint))
    );
    assert_eq!(
        parse_data_type("varchar(255)"),
        Ok(("".to_string(), DataTypeEnum::VarChar(255)))
    );
    assert_eq!(
        parse_data_type("varchar(50) COLLATE utf8mb4_bin"),
        Ok(("".to_string(), DataTypeEnum::VarChar(50)))
    );
}

#[test]
fn test_parse_column_definition1() {
    assert_eq!(
        parse_column_definition1(r##"id int not null default 1 comment "主键","##),
        Ok((
            "".to_string(),
            OneColumn::new("id".to_string(), DataTypeEnum::Int, "主键".to_string())
        ))
    )
}

#[test]
fn test_parse_idx_line2() {
    let input = r##"UNIQUE KEY `user_name_idx` (`user_name`) USING BTREE"##;
    assert_eq!(
        parse_idx_line2(input),
        Ok((
            "".to_string(),
            OneLineEnum::Index(OneIndex {
                name: String::from("user_name_idx"),
                using_type: Some("BTREE".to_string()),
                typ: my_parser_rs::ast::IndexIdxTyeEnum::Unique,
                column_names: vec!["user_name".to_string()],
            })
        ))
    );
}

#[test]
fn test_table_option_engine() {
    assert_eq!(
        table_option_engine(r##" ENGINE=innodb"##),
        Ok(("".to_string(), "innodb".to_string()))
    );
    assert_eq!(
        table_option_engine(r##"ENGINE innodb"##),
        Ok(("".to_string(), "innodb".to_string()))
    );
}

#[test]
fn test_table_option_char_set() {
    assert_eq!(
        table_option_char_set(r##" DEFAULT CHARSET=utf8mb4"##),
        Ok(("".to_string(), "utf8mb4".to_string()))
    );
    assert_eq!(
        table_option_char_set(r##" CHARSET=utf8mb4"##),
        Ok(("".to_string(), "utf8mb4".to_string()))
    );
    assert_eq!(
        table_option_char_set(r##" CHARSET utf8mb4"##),
        Ok(("".to_string(), "utf8mb4".to_string()))
    );
}

#[test]
fn test_table_option_collate() {
    assert_eq!(
        table_option_collate(r##" COLLATE=utf8mb4_bin"##),
        Ok(("".to_string(), "utf8mb4_bin".to_string()))
    );
    assert_eq!(
        table_option_collate(r##" default COLLATE=utf8mb4_bin"##),
        Ok(("".to_string(), "utf8mb4_bin".to_string()))
    );
}

#[test]
fn test_table_option_comment() {
    assert_eq!(
        table_option_comment(r##" comment='配置表'"##),
        Ok(("".to_string(), "配置表".to_string()))
    );
}

#[test]
fn test_parse_table_option() {
    let expect = TableOption {
        engine: "InnoDB".to_string(),
        charset: "utf8mb4".to_string(),
        collate: "utf8mb4_bin".to_string(),
        comment: "配置表".to_string(),
    };
    assert_eq!(
        parse_table_option(
            r##" ENGINE=InnoDB DEFAULT CHARSET=utf8mb4 COLLATE=utf8mb4_bin COMMENT='配置表'"##
        ),
        Ok(("".to_string(), expect))
    );
}

#[test]
fn test_parse_create_sql() {
    let input = r###"CREATE TABLE `demo_table_user` (
  `id` bigint NOT NULL COMMENT '主键',
  `creator` bigint NOT NULL DEFAULT '0' COMMENT '创建人',
  `create_time` datetime NOT NULL DEFAULT CURRENT_TIMESTAMP COMMENT '创建时间',
  `updator` bigint NOT NULL DEFAULT '0' COMMENT '更新人',
  `update_time` datetime NOT NULL DEFAULT CURRENT_TIMESTAMP ON UPDATE CURRENT_TIMESTAMP COMMENT '更新时间',
  `version` int NOT NULL DEFAULT '1' COMMENT '乐观锁',
  `del_flag` tinyint NOT NULL DEFAULT '2' COMMENT '是否删除,1是,2否',
  PRIMARY KEY (`id`) USING BTREE,
  KEY `relate_idx` (`relate_id`) USING BTREE,
  KEY `tpl_id_idx` (`tpl_id`) USING BTREE
) ENGINE=InnoDB DEFAULT CHARSET=utf8mb4 COLLATE=utf8mb4_bin COMMENT='模板分类关联表';"###;
    let res = parse_create_sql(input);
    assert_eq!(
        res.unwrap().1,
        TableSchema {
            table_name: "demo_table_user".to_string(),
            column_arr: vec![
                OneColumn {
                    name: "id".to_string(),
                    typ: DataTypeEnum::Bigint,
                    comment: "主键".to_string(),
                },
                OneColumn {
                    name: "creator".to_string(),
                    typ: DataTypeEnum::Bigint,
                    comment: "创建人".to_string(),
                },
                OneColumn {
                    name: "create_time".to_string(),
                    typ: DataTypeEnum::DateTime(0,),
                    comment: "创建时间".to_string(),
                },
                OneColumn {
                    name: "updator".to_string(),
                    typ: DataTypeEnum::Bigint,
                    comment: "更新人".to_string(),
                },
                OneColumn {
                    name: "update_time".to_string(),
                    typ: DataTypeEnum::DateTime(0,),
                    comment: "更新时间".to_string(),
                },
                OneColumn {
                    name: "version".to_string(),
                    typ: DataTypeEnum::Int,
                    comment: "乐观锁".to_string(),
                },
                OneColumn {
                    name: "del_flag".to_string(),
                    typ: DataTypeEnum::TinyInt,
                    comment: "是否删除,1是,2否".to_string(),
                },
            ],
            option: TableOption {
                engine: "InnoDB".to_string(),
                charset: "utf8mb4".to_string(),
                collate: "utf8mb4_bin".to_string(),
                comment: "模板分类关联表".to_string(),
            },
        }
    );
}
