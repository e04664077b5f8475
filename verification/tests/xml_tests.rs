use my_parser_rs::xml::{any_char, attributes, element, identifier, match_literal, one_or_more,
    pred, quoted_string, right, the_letter_a, zero_or_more, Element};

#[test]
fn test_the_letter_a() {
    let input = "abcd";
    let res = the_letter_a(input);
    println!("{:?}", res);
    assert!(res == Ok(("bcd".to_string(), ())));
}

#[test]
fn test_match_literal() {
    let parse_func = match_literal("hello world");
    assert_eq!(Ok(("".to_string(), ())), parse_func.parse("hello world"));
    assert_eq!(Ok((" hi ".to_string(), ())), parse_func.parse("hello world hi "));
    assert_eq!(Err("hello Rust".to_string()), parse_func.parse("hello Rust"));
}

#[test]
fn test_identifier_v1() {
    assert_eq!(
        Ok(("".to_string(), "hello-world".to_string())),
        identifier("hello-world")
    );
    assert_eq!(
        Ok((" a identifier".to_string(), "not".to_string())),
        identifier("not a identifier")
    );
}

#[test]
fn lib_test_pair() {
    let tag_opener = right(match_literal("<"), identifier);
    assert_eq!(
        tag_opener.parse("<my-first-element/>"),
        Ok(("/>".to_string(), "my-first-element".to_string()))
    );
}

#[test]
fn test_identifier() {
    let tag_opener = right(match_literal("<"), identifier);
    assert_eq!(
        tag_opener.parse("<my-first-element/>"),
        Ok(("/>".to_string(), "my-first-element".to_string()))
    );
    assert_eq!(tag_opener.parse("test-parse"), Err("test-parse".to_string()));
    assert_eq!(tag_opener.parse("!hello"), Err("!hello".to_string()));
}

#[test]
fn test_pred() {
    let parser = pred(any_char, |c| *c == 'o');
    assert_eq!(Ok(("mg".to_string(), 'o')), parser.parse("omg"));
    assert_eq!(Err("lol".to_string()), parser.parse("lol"));
}

#[test]
fn lib_test_one_or_more() {
    let parser = one_or_more(match_literal("ha"));
    assert_eq!(parser.parse("hahaha"), Ok(("".to_string(), vec![(), (), ()])));
    assert_eq!(parser.parse("ha123"), Ok(("123".to_string(), vec![()])));
    assert_eq!(parser.parse("aha123"), Err("aha123".to_string()));
}

#[test]
fn lib_test_zero_or_more() {
    let parser = zero_or_more(match_literal("ha"));
    assert_eq!(parser.parse("hahaha"), Ok(("".to_string(), vec![(), (), ()])));
    assert_eq!(parser.parse("ahaaha"), Ok(("ahaaha".to_string(), vec![])));
}

#[test]
fn test_quoted_string() {
    assert_eq!(
        quoted_string().parse("\"Hello world\""),
        Ok(("".to_string(), "Hello world".to_string()))
    );
}

#[test]
fn attribute_parser() {
    assert_eq!(
        Ok((
            "".to_string(),
            vec![
                ("one".to_string(), "1".to_string()),
                ("two".to_string(), "2".to_string())
            ]
        )),
        attributes().parse(" one=\"1\" two=\"2\"")
    );
}

#[test]
fn xml_parser() {
    let doc = r#"
        <top label="Top">
            <semi-bottom label="Bottom"/>
            <middle>
                <bottom label="Another bottom"/>
            </middle>
        </top>"#;
    let parsed_doc = Element {
        name: "top".to_string(),
        attributes: vec![("label".to_string(), "Top".to_string())],
        children: vec![
            Element {
                name: "semi-bottom".to_string(),
                attributes: vec![("label".to_string(), "Bottom".to_string())],
                children: vec![],
            },
            Element {
                name: "middle".to_string(),
                attributes: vec![],
                children: vec![Element {
                    name: "bottom".to_string(),
                    attributes: vec![("label".to_string(), "Another bottom".to_string())],
                    children: vec![],
                }],
            },
        ],
    };
    assert_eq!(Ok(("".to_string(), parsed_doc)), element().parse(doc));
}

#[test]
fn unclosed_and_mismatched_tags_fail() {
    assert!(element().parse("<a><b></b>").is_err());
    assert!(element().parse("<a></b>").is_err());
    assert_eq!(
        element().parse("<a x=\"1\"/> tail"),
        Ok((
            "tail".to_string(),
            Element {
                name: "a".to_string(),
                attributes: vec![("x".to_string(), "1".to_string())],
                children: vec![],
            }
        ))
    );
}

#[test]
fn identifier_rejects_a_leading_digit() {
    assert_eq!(identifier("9abc"), Err("9abc".to_string()));
    assert_eq!(identifier("!hello"), Err("!hello".to_string()));
}
