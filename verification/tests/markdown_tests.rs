use my_parser_rs::markdown::{recog_title_content, title_content, title_pair, Title};
use my_parser_rs::xml::{any_char, match_literal, one_or_more, pair, pred, right, zero_or_more};

#[test]
fn test_struct() {
    let t1 = Title {
        level: 1,
        title: "title 1".to_string(),
    };
    assert_eq!(t1.title, "title 1".to_string());
}

#[test]
fn test_recog_title() {
    let parse_func = match_literal("#");
    assert_eq!(parse_func.parse("# 你是"), Ok((" 你是".to_string(), ())));
    assert_eq!(parse_func.parse("## 你是"), Ok(("# 你是".to_string(), ())));
    assert_eq!(parse_func.parse("你是"), Err("你是".to_string()));
}

#[test]
fn test_recog_title_content() {
    assert_eq!(
        Ok(("".to_string(), "hello-title".to_string())),
        recog_title_content("hello-title")
    );
    assert_eq!(
        Ok(("".to_string(), "一级标题".to_string())),
        recog_title_content("一级标题")
    );
    assert_eq!(
        recog_title_content("一级\n标题"),
        Ok(("\n标题".to_string(), "一级".to_string()))
    );
}

#[test]
fn markdown_test_pair() {
    let title_beginer = pair(match_literal("#"), recog_title_content);
    assert_eq!(
        title_beginer.parse("# this is a title\n"),
        Ok(("\n".to_string(), ((), " this is a title".to_string())))
    );
}

#[test]
fn test_right() {
    let righter = right(match_literal("#"), recog_title_content);
    assert_eq!(
        righter.parse("# title 1\n"),
        Ok(("\n".to_string(), " title 1".to_string()))
    );
    assert_eq!(righter.parse("title 1"), Err("title 1".to_string()));
}

#[test]
fn test_predicate() {
    let parser = pred(any_char, |c| *c == '#');
    assert_eq!(parser.parse("# title"), Ok((" title".to_string(), '#')));
    assert_eq!(parser.parse("Begin content"), Err("Begin content".to_string()));
}

#[test]
fn markdown_test_one_or_more() {
    let parser = one_or_more(match_literal("ha"));
    assert_eq!(parser.parse("hahaha"), Ok(("".to_string(), vec![(), (), ()])));
    assert_eq!(parser.parse("no_title"), Err("no_title".to_string()));
}

#[test]
fn markdown_test_zero_or_more() {
    let parser = zero_or_more(match_literal("ha"));
    assert_eq!(parser.parse("title"), Ok(("title".to_string(), vec![])));
    assert_eq!(parser.parse("hatitle"), Ok(("title".to_string(), vec![()])));
}

#[test]
fn test_title_content() {
    assert_eq!(
        title_content().parse(" who is this\n"),
        Ok(("".to_string(), " who is this".to_string()))
    );
}

#[test]
fn test_title_pair() {
    assert_eq!(
        title_pair().parse("# why to do so? \n"),
        Ok(("".to_string(), (1, " why to do so? ".to_string())))
    );
    assert_eq!(
        title_pair().parse("why to do so? \n"),
        Ok(("".to_string(), (0, "why to do so? ".to_string())))
    );
}
