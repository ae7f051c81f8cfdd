use syconf::ast::{BinaryOperator, ConfigString, ConfigValue, Expr};
use syconf::methods::string::unindent;
use syconf::number::Number;
use syconf::parser::value::number::number;
use syconf::text::{chars_of, decimal_of, find, join, natural_of, order_texts, text_of, trim};
use syconf::parser::spaces::{ml_space0, ml_space1};
use syconf::parser::value::string::parse;
use syconf::parser::DEFAULT_DEPTH;
use syconf::source::Source;

fn span(content: &str) -> Source {
    Source::named("<test_string>", content)
}

#[test]
fn test_ml_space1() {
    let text = "  // hello\n";
    assert_eq!(&text[..ml_space1(&span(text), 0, text.len()).unwrap()], "  // hello\n");
    let text = "// hello\n//";
    assert_eq!(&text[..ml_space1(&span(text), 0, text.len()).unwrap()], "// hello\n//");
    assert_eq!(ml_space1(&span(""), 0, 0), None);
}

#[test]
fn test_ml_space0() {
    let text = "  // hello\n";
    assert_eq!(&text[..ml_space0(&span(text), 0, text.len())], "  // hello\n");
    let text = "// hello\n//";
    assert_eq!(&text[..ml_space0(&span(text), 0, text.len())], "// hello\n//");
}

#[test]
fn raw_string_vec() {
    let text = "\"hello\n\"";
    assert_eq!(
        parse(&span(text), 0, text.len(), DEFAULT_DEPTH).unwrap().0,
        vec![ConfigString::Raw("hello\n".to_string())]
    );
    let text = r#"'hello'"#;
    assert_eq!(
        parse(&span(text), 0, text.len(), DEFAULT_DEPTH).unwrap().0,
        vec![ConfigString::Raw("hello".to_string())]
    );
    let text = r##"#"abco""#"##;
    assert_eq!(
        parse(&span(text), 0, text.len(), DEFAULT_DEPTH).unwrap().0,
        vec![ConfigString::Raw("abco\"".to_string())]
    );
}

#[test]
fn test_unindent() {
    assert_eq!(
        unindent("aa \n  bb   \n  cc\n\n   "),
        vec!["aa", "bb", "cc"]
    );
    assert_eq!(
        unindent(" aa \n  bb   \n  cc\n\n   "),
        vec!["aa", " bb", " cc"]
    );
    assert_eq!(
        unindent("  aa \n  bb   \n  cc\n\n   "),
        vec!["aa", "bb", "cc"]
    );
    assert_eq!(
        unindent("\n\n  aa \n  bb   \n  cc\n\n   "),
        vec!["aa", "bb", "cc"]
    );
    let empty: Vec<&str> = vec![];
    assert_eq!(unindent(""), empty);
}

#[test]
fn sources() {
    let src = Source::from_string("a: 1".to_string());
    assert_eq!(src.as_str(), "a: 1");
    assert_eq!(src.path(), "<input_string>");
    assert_eq!(src.file(), "<input_string>");
    let src = Source::named("/tmp/x.sy", "1");
    assert_eq!(src.path(), "/tmp/x.sy");
    assert_eq!(src.as_str(), "1");
}

#[test]
fn places_are_counted_in_bytes() {
    let src = Source::named("f", "ab\n\u{e9}\u{4e2d}x\ny");
    let at = |pos: usize| {
        let l = src.locate(pos);
        (l.line, l.column, l.offset)
    };
    assert_eq!(at(0), (1, 1, 0));
    assert_eq!(at(2), (1, 3, 2));
    assert_eq!(at(3), (2, 1, 3));
    assert_eq!(at(4), (2, 3, 5));
    assert_eq!(at(5), (2, 6, 8));
    assert_eq!(at(7), (3, 1, 10));
    assert_eq!(at(8), (3, 2, 11));
    assert_eq!(src.locate(5).to_text(), "f:2:6");
}

#[test]
fn the_tree_of_a_sum() {
    let src = span("1 -  x");
    let tree = syconf::parse_source(&src).unwrap();
    assert_eq!((tree.location.line, tree.location.column, tree.location.offset), (1, 3, 2));
    match tree.inner {
        Expr::BinaryOperator(op) => {
            assert_eq!(op.op, BinaryOperator::Sub);
            assert_eq!(op.expr1.inner, Expr::Value(ConfigValue::Number(Number::Int(1))));
            assert_eq!(op.expr1.location.offset, 0);
            assert_eq!(op.expr2.inner, Expr::Identifier("x".to_string()));
            assert_eq!(op.expr2.location.offset, 5);
        }
        other => panic!("{:?}", other),
    }
}

#[test]
fn number_literals() {
    let read = |text: &str| number(&span(text), 0, text.len()).ok();
    assert_eq!(read("12"), Some((ConfigValue::Number(Number::Int(12)), 2)));
    assert_eq!(read("-12x"), Some((ConfigValue::Number(Number::Int(-12)), 3)));
    assert_eq!(read("+7"), Some((ConfigValue::Number(Number::Int(7)), 2)));
    assert_eq!(read("3.00"), Some((ConfigValue::Number(Number::Int(3)), 4)));
    assert_eq!(read("3."), Some((ConfigValue::Number(Number::Int(3)), 2)));
    assert_eq!(read("3.25"), Some((ConfigValue::Float("3.25".to_string()), 4)));
    assert_eq!(read(".5"), Some((ConfigValue::Float(".5".to_string()), 2)));
    assert_eq!(read("1e3"), Some((ConfigValue::Float("1e3".to_string()), 3)));
    assert_eq!(read("1e"), Some((ConfigValue::Number(Number::Int(1)), 1)));
    assert_eq!(read("2E-2 "), Some((ConfigValue::Float("2E-2".to_string()), 4)));
    assert_eq!(
        read("9223372036854775808"),
        Some((ConfigValue::Float("9223372036854775808".to_string()), 19))
    );
    assert_eq!(read("."), None);
    assert_eq!(read("-"), None);
    assert_eq!(read("x1"), None);
}

#[test]
fn strings_with_expressions() {
    let text = "\"a${ b }c$d\"";
    let parts = parse(&span(text), 0, text.len(), DEFAULT_DEPTH).unwrap().0;
    assert_eq!(parts.len(), 3);
    assert_eq!(parts[0], ConfigString::Raw("a".to_string()));
    match &parts[1] {
        ConfigString::Interpolated(e) => {
            assert_eq!(e.inner, Expr::Identifier("b".to_string()));
            assert_eq!(e.location.offset, 5);
        }
        other => panic!("{:?}", other),
    }
    assert_eq!(parts[2], ConfigString::Raw("c$d".to_string()));
    let text = "'a${b}'";
    assert_eq!(
        parse(&span(text), 0, text.len(), DEFAULT_DEPTH).unwrap().0,
        vec![ConfigString::Raw("a${b}".to_string())]
    );
    let text = "\"abc";
    assert!(parse(&span(text), 0, text.len(), DEFAULT_DEPTH).is_err());
}

#[test]
fn expressions_nest_only_so_deep() {
    let mut text = String::new();
    for _ in 0..300 {
        text.push('(');
    }
    text.push('1');
    for _ in 0..300 {
        text.push(')');
    }
    let err = syconf::parse_source(&span(&text)).err().unwrap();
    assert_eq!(err.kind, syconf::error::ErrorKind::Parse);
    let mut text = String::new();
    for _ in 0..100 {
        text.push('(');
    }
    text.push('1');
    for _ in 0..100 {
        text.push(')');
    }
    assert!(syconf::parse_source(&span(&text)).is_ok());
}

#[test]
fn texts() {
    let chars = |s: &str| chars_of(s);
    assert_eq!(text_of(&chars("a\u{e9}b")), "a\u{e9}b");
    assert_eq!(text_of(&decimal_of(0)), "0");
    assert_eq!(text_of(&decimal_of(-1050)), "-1050");
    assert_eq!(text_of(&decimal_of(i64::MIN)), "-9223372036854775808");
    assert_eq!(text_of(&decimal_of(i64::MAX)), "9223372036854775807");
    assert_eq!(text_of(&natural_of(907)), "907");
    assert_eq!(order_texts(&chars("a"), &chars("b")), -1);
    assert_eq!(order_texts(&chars("b"), &chars("a")), 1);
    assert_eq!(order_texts(&chars("ab"), &chars("ab")), 0);
    assert_eq!(order_texts(&chars(""), &chars("a")), -1);
    assert_eq!(order_texts(&chars("Z"), &chars("a")), -1);
    assert_eq!(find(&chars("abcabc"), &chars("ca"), 0), Some(2));
    assert_eq!(find(&chars("abcabc"), &chars("abc"), 1), Some(3));
    assert_eq!(find(&chars("abc"), &chars("x"), 0), None);
    assert_eq!(find(&chars("abc"), &chars(""), 3), Some(3));
    assert_eq!(
        text_of(&join(&vec![chars("a"), chars(""), chars("c")], &chars("--"))),
        "a----c"
    );
    assert_eq!(text_of(&trim(&chars("\u{a0} x \u{3000}"))), "x");
}
