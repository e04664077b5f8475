use my_parser_rs::quoted::{parse_str_with_escaped_and_combine,
    parse_str_with_escaped_and_combine_in_single_quote};

#[test]
fn test_parse_str_with_escaped_and_combine_in_single_quote() {
    let input = "\'hello\'";
    println!("{}", &input);
    assert_eq!(
        parse_str_with_escaped_and_combine_in_single_quote(input),
        Ok(("".to_string(), "hello".to_string()))
    )
}

#[test]
fn test_parse_normal_or_escaped_str_and_combine() {
    assert_eq!(
        parse_str_with_escaped_and_combine("\"\\\"\""),
        Ok(("".to_string(), "\"".to_string()))
    );
    assert_eq!(
        parse_str_with_escaped_and_combine("\"hello \""),
        Ok(("".to_string(), "hello ".to_string()))
    );
    assert_eq!(
        parse_str_with_escaped_and_combine("\"hello \\\"Nico\\\"\""),
        Ok(("".to_string(), "hello \"Nico\"".to_string()))
    );
}

#[test]
fn escapes_decode_to_control_characters() {
    assert_eq!(
        parse_str_with_escaped_and_combine("\"a\\nb\\tc\\rd\\\\e\\/f\""),
        Ok(("".to_string(), "a\nb\tc\rd\\e/f".to_string()))
    );
}

#[test]
fn unsupported_escape_fails_without_truncation() {
    assert!(parse_str_with_escaped_and_combine("\"ab\\x\"").is_err());
    assert!(parse_str_with_escaped_and_combine("\"ab").is_err());
    assert!(parse_str_with_escaped_and_combine("ab\"").is_err());
}

#[test]
fn embedded_quote_ends_the_literal_early() {
    assert_eq!(
        parse_str_with_escaped_and_combine("\"ab\"cd\""),
        Ok(("cd\"".to_string(), "ab".to_string()))
    );
}

#[test]
fn mixed_quote_delimiters_are_each_accepted() {
    assert_eq!(
        parse_str_with_escaped_and_combine_in_single_quote("'it\""),
        Ok(("".to_string(), "it".to_string()))
    );
    assert!(parse_str_with_escaped_and_combine_in_single_quote("'it").is_err());
}
