use syconf::error::ErrorWithLocation;
use syconf::host::{Answer, Request};
use syconf::number::Number;
use syconf::source::Source;
use syconf::value::Value;
use syconf::{evaluate, parse_source, parse_string, Evaluation, DEFAULT_DEPTH};

fn to_json(value: &Value) -> serde_json::Value {
    match value {
        Value::Bool(b) => serde_json::Value::Bool(*b),
        Value::Number(Number::Int(i)) => serde_json::Value::from(*i),
        Value::Number(Number::Float(bits)) => serde_json::Value::from(f64::from_bits(*bits)),
        Value::String(s) => serde_json::Value::String(s.clone()),
        Value::HashMap(entries) => {
            let mut map = serde_json::Map::new();
            for (k, v) in entries.entries().iter() {
                map.insert(k.clone(), to_json(v));
            }
            serde_json::Value::Object(map)
        }
        Value::List(items) => serde_json::Value::Array(items.iter().map(to_json).collect()),
        Value::Func(_) => serde_json::Value::String("<function>".to_string()),
    }
}

fn answer(request: &Request) -> Answer {
    match request {
        Request::Literal(text) => match text.parse::<f64>() {
            Ok(x) => {
                if x.fract() == 0.0 {
                    Answer::Number(Number::Int(x as i64))
                } else {
                    Answer::Number(Number::Float(x.to_bits()))
                }
            }
            Err(e) => Answer::Failure(e.to_string()),
        },
        Request::Arithmetic(op, a, b) => {
            let x = f64::from_bits(*a);
            let y = f64::from_bits(*b);
            let z = match op {
                syconf::ast::BinaryOperator::Add => x + y,
                syconf::ast::BinaryOperator::Sub => x - y,
                syconf::ast::BinaryOperator::Mul => x * y,
                syconf::ast::BinaryOperator::Div => x / y,
            };
            Answer::Number(Number::Float(z.to_bits()))
        }
        Request::Display(bits) => Answer::Text(f64::from_bits(*bits).to_string()),
        Request::Shell(command) => {
            if command == "echo abc" {
                Answer::Text("abc\n".to_string())
            } else {
                Answer::Failure("Command exited with status 127".to_string())
            }
        }
        Request::Render(template, data) => {
            match handlebars::Handlebars::new().render_template(template, &to_json(data)) {
                Ok(text) => Answer::Text(text),
                Err(e) => Answer::Failure(e.to_string()),
            }
        }
        _ => Answer::Failure("not available here".to_string()),
    }
}

fn run(input: &str) -> Result<Value, ErrorWithLocation> {
    let src = Source::named("<input>", input);
    let expr = parse_source(&src)?;
    let mut answers: Vec<Answer> = Vec::new();
    loop {
        match evaluate(&expr, answers.clone(), DEFAULT_DEPTH) {
            Evaluation::Done(v) => return Ok(v),
            Evaluation::Failed(e) => return Err(e),
            Evaluation::Pending(request) => answers.push(answer(&request)),
        }
    }
}

#[test]
fn error_error_location() {
    let result = parse_string(" abc");
    let err = result.err().unwrap();
    let loc = err.location;
    assert_eq!(loc.unwrap().line, 1);
}

#[test]
fn func_concat_strings() {
    assert_eq!(
        parse_string(
            r#"
        let name = "mike"
        in
        "Name: ${name}"
    "#
        )
        .unwrap(),
        Value::String("Name: mike".into())
    );
}

#[test]
fn func_concat() {
    assert_eq!(
        parse_string(r#"concat([1],[2,3],[4]) == [1, 2, 3, 4]"#).unwrap(),
        Value::Bool(true)
    );
}

#[test]
fn test_shell() {
    assert_eq!(
        run(r#"
    shell("echo abc").trim() == "abc"
    "#)
        .unwrap(),
        Value::Bool(true)
    );
}

#[test]
fn test_template() {
    assert_eq!(
        run(r#"
    handlebars("hello {{name}}", {name: "Mouse"}) == "hello Mouse"
    "#)
        .unwrap(),
        Value::Bool(true)
    );
}

#[test]
fn func_map() {
    assert_eq!(
        parse_string(
            r#"
        {aa:3, bb:4}.map((k,v) => [k, v * 10]) == {bb: 40, aa: 30}
    "#
        )
        .unwrap(),
        Value::Bool(true)
    )
}

#[test]
fn func_filter() {
    assert_eq!(
        parse_string(
            r#"
        {aa:3, bb:4}.filter((k,v) => k == "bb") == {bb: 4}
    "#
        )
        .unwrap(),
        Value::Bool(true)
    )
}

#[test]
fn func_len() {
    assert_eq!(
        parse_string(
            r#"
        {aa:3, bb:4}.len() == 2
    "#
        )
        .unwrap(),
        Value::Bool(true)
    )
}

#[test]
fn func_insert() {
    assert_eq!(
        parse_string(
            r#"
        {aa: 33}.insert("bb", "abc") == {aa:33, bb:"abc"}
    "#
        )
        .unwrap(),
        Value::Bool(true)
    )
}

#[test]
fn key_expr() {
    assert_eq!(
        parse_string(
            r#"
        let x = 3
        in
        {"abc${x}": 33} == {abc3:33}
    "#
        )
        .unwrap(),
        Value::Bool(true)
    )
}

#[test]
fn test_merge() {
    assert_eq!(
        parse_string(
            r#"
        {
            a: {
                b: {
                    c: 10
                }
            }
            n1: 3
            n2: 4
        }.merge({
            a: {
                b: {
                    d: 20
                }
            }
            n2: 5
        }) == {
            a: {
                b: {
                    c: 10
                    d: 20
                }
            }
            n1: 3
            n2: 5
        }
    "#
        )
        .unwrap(),
        Value::Bool(true)
    )
}

#[test]
fn test_drop() {
    assert_eq!(
        parse_string(
            r#"
        {
            a: {
                b: {
                    c: 10
                    d: 20
                }
            }
        }.drop("a.b.d") == {
            a: {
                b: {
                    c: 10
                }
            }
        }
    "#
        )
        .unwrap(),
        Value::Bool(true)
    )
}

#[test]
fn test_to_list() {
    assert_eq!(
        parse_string(
            r#"
        {aa: 3, bb: 4}.to_list() == [
            ["aa", 3],
            ["bb", 4],
        ]
    "#
        )
        .unwrap(),
        Value::Bool(true)
    )
}

#[test]
fn join_list_by() {
    assert_eq!(
        parse_string(
            r#"
            ["hello", "world"].join(" ") == "hello world"
            "#
        )
        .unwrap(),
        Value::Bool(true)
    )
}

#[test]
fn test_fold() {
    assert_eq!(
        parse_string(
            r#"
            [1,2,3].fold((acc, x) => acc + x, 0) == 6
        "#
        )
        .unwrap(),
        Value::Bool(true)
    );
}

#[test]
fn test_to_hashmap() {
    assert_eq!(
        parse_string(
            r#"
            [
                ["aa", 3],
                ["bb", 4]
            ].to_hashmap() == {aa: 3, bb: 4}
        "#
        )
        .unwrap(),
        Value::Bool(true)
    );
}

#[test]
fn method_index() {
    assert_eq!(
        parse_string(
            r#"
        {aa:3, bb:4}["aa"] == 3
    "#
        )
        .unwrap(),
        Value::Bool(true)
    );
    assert_eq!(
        parse_string(
            r#"
        {aa:3, bb:4}.aa == 3
    "#
        )
        .unwrap(),
        Value::Bool(true)
    );
    assert_eq!(
        parse_string(
            r#"
        [1,2,3][1] == 2
    "#
        )
        .unwrap(),
        Value::Bool(true)
    );
}

#[test]
fn string_trim_string() {
    assert_eq!(
        parse_string(
            r#"
        "
            abc
            ".trim() == "abc"
    "#
        )
        .unwrap(),
        Value::Bool(true)
    )
}

#[test]
fn string_split_string() {
    assert_eq!(
        parse_string(
            r#"
            "aa,bb,cc".split(",") == ["aa", "bb", "cc"]
            "#
        )
        .unwrap(),
        Value::Bool(true)
    )
}

#[test]
fn string_test_lines() {
    assert_eq!(
        parse_string(
            r##"
        #"line1
        line2
        line3"#.lines().map((x) => x.trim()) == ["line1", "line2", "line3"]
    "##
        )
        .unwrap(),
        Value::Bool(true)
    )
}

#[test]
fn op_equal() {
    assert_eq!(
        parse_string(
            r#"
        3 == 3
    "#
        )
        .unwrap(),
        Value::Bool(true)
    );
    assert_eq!(
        parse_string(
            r#"
        {aa: 33} == {aa:33}
    "#
        )
        .unwrap(),
        Value::Bool(true)
    );
}

#[test]
fn string_script() {
    assert_eq!(
        parse_string(
            r#"
            "

            abc
                def
            abc

            ".script() == "abc
    def
abc"
    "#
        )
        .unwrap(),
        Value::Bool(true)
    );
    assert_eq!(
        parse_string(
            r#"
            "".script() == ""
    "#
        )
        .unwrap(),
        Value::Bool(true)
    );
}

#[test]
fn string_oneline() {
    assert_eq!(
        parse_string(
            r#"
            "

            abc
                def
            abc

            ".oneline() == "abc def abc"
    "#
        )
        .unwrap(),
        Value::Bool(true)
    );
}

#[test]
fn tests_error_location() {
    let err = parse_string(
        r#"
    let a = "${x}"
    in
    a
    "#,
    )
    .err()
    .unwrap();
    let line_no = err.location.unwrap().line;
    assert_eq!(line_no, 2);
}

#[test]
fn math() {
    assert_eq!(
        run("1 * 2 + 3 * 4 == 14").unwrap(),
        Value::Bool(true)
    );
    assert_eq!(
        run("4.25 + 0.25 == 4.5").unwrap(),
        Value::Bool(true)
    );
}

#[test]
fn interpolated_string() {
    assert_eq!(
        parse_string(
            r#"
    let x = "xx"
    let a = "aa" ;
    let b = 33
    in
    "hello ${x}${ a } ${ b}" == "hello xxaa 33"
    "#
        )
        .unwrap(),
        Value::Bool(true)
    );
}

#[test]
fn empty_string() {
    assert_eq!(
        parse_string(
            r#"
    "" == ''
    "#
        )
        .unwrap(),
        Value::Bool(true)
    );
}

#[test]
fn hashmap() {
    assert_eq!(
        parse_string(
            r#"
    let x = "abc"
    in
    {name: [x]} == {name: ["abc"]}
    "#
        )
        .unwrap(),
        Value::Bool(true)
    );
}

#[test]
fn failure() {
    let err = parse_string(
        r#"
    let a = 3
    abc
    "#,
    )
    .err()
    .unwrap();
    assert_eq!(err.location.unwrap().line, 3);
}

#[test]
fn comparison() {
    assert_eq!(
        parse_string(
            r#"
    (3 > 2) == true
    "#
        )
        .unwrap(),
        Value::Bool(true)
    );
}

#[test]
fn conditional() {
    assert_eq!(
        parse_string(
            r#"
    (if true then 3 else 2) == 3
    "#
        )
        .unwrap(),
        Value::Bool(true)
    );
}

#[test]
fn logical() {
    assert_eq!(
        parse_string(
            r#"
    let a = true
    let b = false
    in
    (a and b) == false
    "#
        )
        .unwrap(),
        Value::Bool(true)
    );
}

#[test]
fn comments() {
    assert_eq!(
        parse_string(
            r#"
    //
    44 == 44 // comment
    "#
        )
        .unwrap(),
        Value::Bool(true)
    );
}

#[test]
fn function_definition() {
    assert_eq!(
        parse_string(
            r#"
    let func = (a, b) => a + b
    in
    func(1,2,) == 3
    "#
        )
        .unwrap(),
        Value::Bool(true)
    );
}

#[test]
fn suffix_operator() {
    assert_eq!(
        parse_string(
            r#"
    let obj = {
        inc: (x) => x + 1
    }
    in
    obj.inc(2) == obj["inc"](2)
    "#
        )
        .unwrap(),
        Value::Bool(true)
    );
}

#[test]
fn plain_config() {
    let hm = vec![
        ("name".to_string(), Value::String("winnie the pooh".into())),
        ("age".to_string(), Value::Number(Number::Int(3))),
    ];
    assert_eq!(
        parse_string(
            r#"
            name: "winnie the pooh"
            age: 3
                  "#
        )
        .unwrap(),
        Value::map_of(hm)
    );
}

#[test]
fn conditional_evaluation() {
    assert_eq!(
        parse_string(
            r#"
            let ff = (x, acc, f) =>
                if x == 0 then acc else f(x-1, acc+1, f)

            in

            ff(2, 0, ff) == 2
                  "#
        )
        .unwrap(),
        Value::Bool(true)
    );
}

#[test]
fn negative_values() {
    assert_eq!(
        parse_string(
            r#"
            let a = -2
            in
            "${a}" == "-2"
                  "#
        )
        .unwrap(),
        Value::Bool(true)
    );
}
