use syconf::ast::BinaryOperator;
use syconf::context::Context;
use syconf::error::{ErrorKind, ErrorWithLocation};
use syconf::host::{Answer, Host, Request};
use syconf::node::{CodeNode, NodeContent};
use syconf::number::Number;
use syconf::serializable::SerializableValue;
use syconf::source::Source;
use syconf::value::{Builtin, Func, Value};
use syconf::{evaluate, parse_source, parse_string, Evaluation, DEFAULT_DEPTH};

fn fraction(x: f64) -> Value {
    Value::Number(Number::Float(x.to_bits()))
}

fn integer(x: i64) -> Value {
    Value::Number(Number::Int(x))
}

fn words(s: &str) -> Value {
    Value::String(s.to_string())
}

fn file_content(file: &str) -> Option<&'static str> {
    match file {
        "/etc/conf/base.sy" => Some("{ name: \"base\", port: 80 }"),
        "/etc/conf/lib/twice.sy" => Some("(x) => x * 2"),
        "/etc/conf/broken.sy" => Some("let a = "),
        _ => None,
    }
}

fn canonical(from: &str, path: &str) -> Option<String> {
    let base = match from.rfind('/') {
        Some(i) => &from[..i],
        None => "/etc/conf",
    };
    let mut parts: Vec<&str> = base.split('/').filter(|p| !p.is_empty()).collect();
    for piece in path.split('/') {
        match piece {
            "." | "" => {}
            ".." => {
                parts.pop();
            }
            other => parts.push(other),
        }
    }
    let file = format!("/{}", parts.join("/"));
    if file_content(&file).is_some() {
        Some(file)
    } else {
        None
    }
}

fn answer(request: &Request) -> Answer {
    match request {
        Request::Literal(text) => match text.parse::<f64>() {
            Ok(x) => {
                if x.fract() == 0.0 {
                    Answer::Number(Number::Int(x as i64))
                } else {
                    Answer::Number(Number::Float(x.to_bits()))
                }
            }
            Err(e) => Answer::Failure(e.to_string()),
        },
        Request::Arithmetic(op, a, b) => {
            let x = f64::from_bits(*a);
            let y = f64::from_bits(*b);
            let z = match op {
                BinaryOperator::Add => x + y,
                BinaryOperator::Sub => x - y,
                BinaryOperator::Mul => x * y,
                BinaryOperator::Div => x / y,
            };
            Answer::Number(Number::Float(z.to_bits()))
        }
        Request::Display(bits) => Answer::Text(f64::from_bits(*bits).to_string()),
        Request::Shell(command) => {
            if command == "echo abc" {
                Answer::Text("abc\n".to_string())
            } else {
                Answer::Failure("Command exited with status 127".to_string())
            }
        }
        Request::GetEnv(name) => {
            if name == "HOME_OF_TESTS" {
                Answer::Text("/home/tests".to_string())
            } else {
                Answer::Failure("environment variable not found".to_string())
            }
        }
        Request::ReadFile(name) => match file_content(name) {
            Some(content) => Answer::Text(content.to_string()),
            None => Answer::Failure(format!("Cannot open file '{}': not found", name)),
        },
        Request::Render(template, _) => {
            if template.contains("{{#if") {
                Answer::Failure("unclosed block".to_string())
            } else {
                Answer::Text(template.replace("{{name}}", "Mouse"))
            }
        }
        Request::Parse(_, text) => {
            if text == "{\"a\": 1}" {
                Answer::Value(Value::map_of(vec![("a".to_string(), integer(1))]))
            } else if text == "[1]" {
                Answer::Value(Value::list_of(vec![integer(1)]))
            } else {
                Answer::Failure("expected value at line 1 column 1".to_string())
            }
        }
        Request::Locate(from, path) => match canonical(from, path) {
            Some(file) => Answer::Text(file),
            None => Answer::Failure("No such file or directory".to_string()),
        },
        Request::Load(file) => match file_content(file) {
            Some(content) => Answer::Text(content.to_string()),
            None => Answer::Failure("No such file or directory".to_string()),
        },
    }
}

fn run_with_log(name: &str, input: &str) -> (Result<Value, ErrorWithLocation>, Vec<Request>) {
    let src = Source::named(name, input);
    let expr = match parse_source(&src) {
        Ok(expr) => expr,
        Err(e) => return (Err(e), Vec::new()),
    };
    let mut answers: Vec<Answer> = Vec::new();
    let mut asked: Vec<Request> = Vec::new();
    loop {
        match evaluate(&expr, answers.clone(), DEFAULT_DEPTH) {
            Evaluation::Done(v) => return (Ok(v), asked),
            Evaluation::Failed(e) => return (Err(e), asked),
            Evaluation::Pending(request) => {
                answers.push(answer(&request));
                asked.push(request);
            }
        }
    }
}

fn run(input: &str) -> Result<Value, ErrorWithLocation> {
    run_with_log("/etc/conf/main.sy", input).0
}

fn kind_of(input: &str) -> ErrorKind {
    run(input).err().unwrap().kind
}

#[test]
fn resolved_node_yields_its_value_in_any_scope() {
    let values = vec![
        Value::Bool(true),
        integer(-7),
        fraction(2.5),
        words("abc"),
        Value::list_of(vec![integer(1), words("x")]),
        Value::map_of(vec![("k".to_string(), integer(1))]),
    ];
    let mut host = Host::new(Vec::new());
    let empty = Context::empty(&mut host.scopes);
    let scope = Context::empty(&mut host.scopes);
    scope.bind(
        &mut host.scopes,
        "abc".to_string(),
        CodeNode::new(NodeContent::Resolved(integer(99)), None),
    );
    let child = scope.new_child(&mut host.scopes);
    for v in values {
        let node = CodeNode::new(NodeContent::Resolved(v.clone()), None);
        assert_eq!(node.resolve(&empty, &mut host, 1).unwrap(), v);
        assert_eq!(node.resolve(&scope, &mut host, 5).unwrap(), v);
        assert_eq!(node.resolve(&child, &mut host, 0).unwrap(), v);
        assert_eq!(host.next, 0);
        assert!(host.pending.is_none());
    }
}

#[test]
fn a_known_value_and_a_closure_take_no_depth() {
    let mut host = Host::new(Vec::new());
    let scope = Context::empty(&mut host.scopes);
    let node = CodeNode::new(NodeContent::Resolved(integer(1)), None);
    assert_eq!(node.resolve(&scope, &mut host, 0).unwrap(), integer(1));
    let call = CodeNode::new(
        NodeContent::FunctionCall {
            name: "x".to_string(),
            function: node,
            arguments: None,
        },
        None,
    );
    let err = call.resolve(&scope, &mut host, 0).err().unwrap();
    assert_eq!(err.kind, ErrorKind::DepthExceeded);
    assert_eq!(call.resolve(&scope, &mut host, 1).unwrap(), integer(1));
}

#[test]
fn closures_capture_the_scope_of_their_definition() {
    assert_eq!(
        parse_string("let x=1 in {let f=()=>x in {let x=2 in f()}}").unwrap(),
        integer(1)
    );
    assert_eq!(
        parse_string("let add = (a) => (b) => a + b let inc = add(1) in inc(41)").unwrap(),
        integer(42)
    );
}

#[test]
fn a_name_is_not_bound_in_its_own_definition() {
    let err = parse_string("let f=(n,acc)=>if n==0 then acc else f(n-1,acc+1) in f(3,0)")
        .err()
        .unwrap();
    assert_eq!(err.kind, ErrorKind::UndefinedVariable);
    assert_eq!(err.message, "Variable 'f' is not defined");
}

#[test]
fn recursion_ends_because_only_one_branch_is_resolved() {
    assert_eq!(
        parse_string(
            "let ff = (n, acc, f) => if n == 0 then acc else f(n-1, acc+1, f) in ff(400, 0, ff)"
        )
        .unwrap(),
        integer(400)
    );
    assert_eq!(parse_string("if true then 1 else 1/0").unwrap(), integer(1));
    assert_eq!(parse_string("if false then 1/0 else 2").unwrap(), integer(2));
}

#[test]
fn endless_recursion_ends_with_an_error() {
    assert_eq!(
        kind_of("let f = (g) => g(g) in f(f)"),
        ErrorKind::DepthExceeded
    );
}

#[test]
fn a_file_is_loaded_once_whatever_path_names_it() {
    let (result, asked) = run_with_log(
        "/etc/conf/main.sy",
        "[import \"base.sy\", import \"./lib/../base.sy\", import \"base.sy\"]",
    );
    let base = Value::map_of(vec![
        ("name".to_string(), words("base")),
        ("port".to_string(), integer(80)),
    ]);
    assert_eq!(
        result.unwrap(),
        Value::list_of(vec![base.clone(), base.clone(), base])
    );
    let loads: Vec<&Request> = asked
        .iter()
        .filter(|r| matches!(r, Request::Load(_)))
        .collect();
    assert_eq!(loads, vec![&Request::Load("/etc/conf/base.sy".to_string())]);
    let locates = asked
        .iter()
        .filter(|r| matches!(r, Request::Locate(_, _)))
        .count();
    assert_eq!(locates, 3);
}

#[test]
fn an_imported_function_can_be_called() {
    assert_eq!(run("let twice = import \"lib/twice.sy\" in twice(21)").unwrap(), integer(42));
}

#[test]
fn a_missing_import_is_an_error_at_the_import() {
    let err = run("\n  import \"nowhere.sy\"").err().unwrap();
    assert_eq!(err.kind, ErrorKind::ImportIo);
    assert_eq!(
        err.message,
        "Cannot read file 'nowhere.sy': No such file or directory"
    );
    let location = err.location.unwrap();
    assert_eq!(location.line, 2);
    assert_eq!(location.column, 3);
    assert_eq!(location.offset, 3);
    assert_eq!(location.source, "/etc/conf/main.sy");
}

#[test]
fn an_import_that_does_not_parse_is_an_error_at_the_import() {
    let err = run("import \"broken.sy\"").err().unwrap();
    assert_eq!(err.kind, ErrorKind::ImportIo);
    assert_eq!(err.location.unwrap().line, 1);
}

#[test]
fn arithmetic_does_not_coerce() {
    let err = parse_string("\"abc\" + 1").err().unwrap();
    assert_eq!(err.kind, ErrorKind::TypeMismatch);
    assert_eq!(
        err.message,
        "expects either INT and INT or FLOAT and FLOAT"
    );
    assert_eq!(kind_of("1 + 1.5"), ErrorKind::TypeMismatch);
    assert_eq!(kind_of("true * 2"), ErrorKind::TypeMismatch);
}

#[test]
fn deep_merge() {
    assert_eq!(
        parse_string("{a:{b:{c:1}}}.merge({a:{b:{d:2}}}) == {a:{b:{c:1,d:2}}}").unwrap(),
        Value::Bool(true)
    );
    assert_eq!(
        parse_string("{a:{b:1}}.merge({a:3}) == {a:3}").unwrap(),
        Value::Bool(true)
    );
    assert_eq!(
        parse_string("{a:3}.merge({a:{b:1}}) == {a:{b:1}}").unwrap(),
        Value::Bool(true)
    );
}

#[test]
fn interpolation() {
    assert_eq!(
        parse_string("let x=3 in \"n=${x}\" == \"n=3\"").unwrap(),
        Value::Bool(true)
    );
    assert_eq!(
        parse_string("\"${true}/${-12}/${'a'}\"").unwrap(),
        words("true/-12/a")
    );
    assert_eq!(run("\"${1.5}\"").unwrap(), words("1.5"));
    assert_eq!(kind_of("\"${[1]}\""), ErrorKind::TypeMismatch);
}

#[test]
fn fold_map_and_filter_keep_their_order() {
    assert_eq!(
        parse_string("[1,2,3].fold((acc,x)=>acc+x,0)==6").unwrap(),
        Value::Bool(true)
    );
    assert_eq!(
        parse_string("[\"a\",\"b\",\"c\"].fold((acc,x)=>\"${acc}${x}\",\"\")").unwrap(),
        words("abc")
    );
    assert_eq!(
        parse_string("[1,2,3].map((x) => x * x)").unwrap(),
        Value::list_of(vec![integer(1), integer(4), integer(9)])
    );
    assert_eq!(
        parse_string("[5,6,7,8].filter((i, x) => i > 0 and x < 8)").unwrap(),
        Value::list_of(vec![integer(6), integer(7)])
    );
}

#[test]
fn to_list_sorts_by_key() {
    assert_eq!(
        parse_string("{bb: 1, aa: 2, cc: 3}.to_list()").unwrap(),
        Value::list_of(vec![
            Value::list_of(vec![words("aa"), integer(2)]),
            Value::list_of(vec![words("bb"), integer(1)]),
            Value::list_of(vec![words("cc"), integer(3)]),
        ])
    );
    assert_eq!(
        parse_string("{b: 1, a: 2}.map((k, v) => [k, v]).to_list() == [[\"a\", 2], [\"b\", 1]]")
            .unwrap(),
        Value::Bool(true)
    );
}

#[test]
fn equality_across_kinds_and_of_functions() {
    assert_eq!(parse_string("3 == \"3\"").unwrap(), Value::Bool(false));
    assert_eq!(parse_string("3 != \"3\"").unwrap(), Value::Bool(true));
    assert_eq!(run("3 == 3.5").unwrap(), Value::Bool(false));
    assert_eq!(
        parse_string("let f = (x) => x in f == f").unwrap(),
        Value::Bool(false)
    );
    assert_eq!(
        parse_string("let f = (x) => x in [f] == [f]").unwrap(),
        Value::Bool(false)
    );
    assert_eq!(parse_string("concat == concat").unwrap(), Value::Bool(false));
    assert_eq!(parse_string("[1, [2]] == [1, [2]]").unwrap(), Value::Bool(true));
    assert_eq!(parse_string("[1, 2] == [1, 2, 3]").unwrap(), Value::Bool(false));
    let f = Func::new_builtin(Builtin::Concat).into_value();
    assert!(f != f.clone());
}

#[test]
fn integer_arithmetic() {
    assert_eq!(parse_string("7 / 2").unwrap(), integer(3));
    assert_eq!(parse_string("(0 - 7) / 2").unwrap(), integer(-3));
    assert_eq!(parse_string("7 / (0 - 2)").unwrap(), integer(-3));
    assert_eq!(parse_string("2 * 3 - 4").unwrap(), integer(2));
    assert_eq!(parse_string("10 - 2 - 3").unwrap(), integer(11));
    assert_eq!(
        parse_string("9223372036854775807 + 0").unwrap(),
        integer(i64::MAX)
    );
    assert_eq!(
        parse_string("-9223372036854775808").unwrap(),
        integer(i64::MIN)
    );
}

#[test]
fn integer_overflow_and_division_by_zero_are_errors() {
    let err = parse_string("9223372036854775807 + 1").err().unwrap();
    assert_eq!(err.kind, ErrorKind::ArityOrArgument);
    assert_eq!(err.message, "integer overflow");
    let err = parse_string("1 / 0").err().unwrap();
    assert_eq!(err.kind, ErrorKind::ArityOrArgument);
    assert_eq!(err.message, "division by zero");
    assert_eq!(
        parse_string("-9223372036854775808 / (0 - 1)").err().unwrap().message,
        "integer overflow"
    );
    assert_eq!(
        parse_string("3037000500 * 3037000500").err().unwrap().message,
        "integer overflow"
    );
}

#[test]
fn floating_point_arithmetic_is_the_hosts() {
    assert_eq!(run("1.5 + 2.25").unwrap(), fraction(3.75));
    assert_eq!(run("1.5 * 2.5").unwrap(), fraction(3.75));
    assert_eq!(run("1.5 / 0.5 == 3.0 + 0.0").unwrap(), Value::Bool(false));
    assert_eq!(run("2.50").unwrap(), fraction(2.5));
    assert_eq!(run("1e3").unwrap(), integer(1000));
    assert_eq!(parse_string("3.0").unwrap(), integer(3));
    assert_eq!(parse_string("1.5").err().unwrap().kind, ErrorKind::Suspended);
}

#[test]
fn order_of_values() {
    assert_eq!(parse_string("2 >= 2").unwrap(), Value::Bool(true));
    assert_eq!(parse_string("2 <= 1").unwrap(), Value::Bool(false));
    assert_eq!(parse_string("1 < 2").unwrap(), Value::Bool(true));
    assert_eq!(parse_string("\"abc\" < \"abd\"").unwrap(), Value::Bool(true));
    assert_eq!(parse_string("\"ab\" < \"abc\"").unwrap(), Value::Bool(true));
    assert_eq!(parse_string("\"b\" > \"abc\"").unwrap(), Value::Bool(true));
    assert_eq!(parse_string("false < true").unwrap(), Value::Bool(true));
    assert_eq!(run("1.5 < 2.5").unwrap(), Value::Bool(true));
    assert_eq!(run("(0.0 - 1.5) < 0.5").is_err(), true);
    let err = parse_string("1 < \"a\"").err().unwrap();
    assert_eq!(err.kind, ErrorKind::TypeMismatch);
    assert_eq!(err.message, "cannot compare int with string");
    assert_eq!(kind_of("1 < 1.5"), ErrorKind::TypeMismatch);
    assert_eq!(kind_of("[1] < [2]"), ErrorKind::TypeMismatch);
}

#[test]
fn floating_point_numbers_compare_as_ieee_754_has_it() {
    let nan = Number::Float(f64::NAN.to_bits());
    let zero = Number::Float(0.0f64.to_bits());
    let minus_zero = Number::Float((-0.0f64).to_bits());
    let minus_one = Number::Float((-1.0f64).to_bits());
    let infinity = Number::Float(f64::INFINITY.to_bits());
    assert!(nan != nan);
    assert!(zero == minus_zero);
    assert_eq!(nan.order(&zero), None);
    assert_eq!(zero.order(&minus_zero), Some(0));
    assert_eq!(minus_one.order(&zero), Some(-1));
    assert_eq!(zero.order(&minus_one), Some(1));
    assert_eq!(infinity.order(&zero), Some(1));
    assert_eq!(
        Number::Float((-2.5f64).to_bits()).order(&minus_one),
        Some(-1)
    );
    assert!(Number::Int(1) != Number::Float(1.0f64.to_bits()));
    assert_eq!(Number::Int(1).order(&Number::Float(1.0f64.to_bits())), None);
    assert_eq!(Number::Int(-1).as_usize(), None);
    assert_eq!(Number::Int(5).as_usize(), Some(5));
    assert_eq!(zero.as_usize(), None);
}

#[test]
fn logical_operators_resolve_both_operands() {
    assert_eq!(kind_of("false and (1 / 0 == 1)"), ErrorKind::ArityOrArgument);
    assert_eq!(kind_of("true or (1 / 0 == 1)"), ErrorKind::ArityOrArgument);
    assert_eq!(parse_string("false and 3").unwrap(), Value::Bool(false));
    assert_eq!(parse_string("true or 3").unwrap(), Value::Bool(true));
    assert_eq!(kind_of("true and 3"), ErrorKind::TypeMismatch);
    assert_eq!(kind_of("3 and true"), ErrorKind::TypeMismatch);
    assert_eq!(parse_string("not false").unwrap(), Value::Bool(true));
    assert_eq!(parse_string("true and not false").unwrap(), Value::Bool(true));
    assert_eq!(parse_string("false or true and false").unwrap(), Value::Bool(false));
    assert_eq!(kind_of("not 1"), ErrorKind::TypeMismatch);
}

#[test]
fn maps_keep_the_last_of_two_entries_with_one_key() {
    assert_eq!(
        parse_string("{a: 1, b: 2, a: 3}").unwrap(),
        Value::map_of(vec![("a".to_string(), integer(3)), ("b".to_string(), integer(2))])
    );
    assert_eq!(
        parse_string("[[\"a\", 1], [\"a\", 2]].to_hashmap() == {a: 2}").unwrap(),
        Value::Bool(true)
    );
}

#[test]
fn a_key_that_is_no_string_is_a_type_mismatch_at_the_map() {
    let err = parse_string("\n {(1 + 2): 4}").err().unwrap();
    assert_eq!(err.kind, ErrorKind::TypeMismatch);
    assert_eq!(err.message, "Type Mismatch: expects string but was int");
    assert_eq!(err.location.unwrap().line, 2);
}

#[test]
fn calls() {
    assert_eq!(kind_of("3(1)"), ErrorKind::NotCallable);
    assert_eq!(
        parse_string("let x = 3 in x(1)").err().unwrap().message,
        "value is not a function"
    );
    assert_eq!(parse_string("((a) => a)(1, 2)").unwrap(), integer(1));
    assert_eq!(kind_of("((a, b) => a)(1)"), ErrorKind::ArityOrArgument);
    assert_eq!(parse_string("(() => 5)()").unwrap(), integer(5));
}

#[test]
fn an_error_points_at_the_innermost_call() {
    let err = parse_string(
        "let f = (x) =>\n    x + \"a\"\nin\n[1].map(\n  f)",
    )
    .err()
    .unwrap();
    assert_eq!(err.kind, ErrorKind::TypeMismatch);
    assert_eq!(err.location.unwrap().line, 2);
    let err = parse_string("\n\n   [1].len(3)").err().unwrap();
    assert_eq!(err.kind, ErrorKind::ArityOrArgument);
    assert_eq!(err.message, "expects no arguments");
    assert_eq!(err.location.unwrap().line, 3);
}

#[test]
fn undefined_variable() {
    let err = parse_string("1 + nothing").err().unwrap();
    assert_eq!(err.kind, ErrorKind::UndefinedVariable);
    assert_eq!(err.message, "Variable 'nothing' is not defined");
    let location = err.location.unwrap();
    assert_eq!((location.line, location.column, location.offset), (1, 5, 4));
    assert_eq!(location.source, "<input>");
}

#[test]
fn parse_errors() {
    let err = parse_string("[1, 2").err().unwrap();
    assert_eq!(err.kind, ErrorKind::Parse);
    let err = parse_string("1 +").err().unwrap();
    assert_eq!(err.kind, ErrorKind::Parse);
    let err = parse_string("\"abc").err().unwrap();
    assert_eq!(err.kind, ErrorKind::Parse);
    assert_eq!(err.message, "Incomplete input");
    assert_eq!(err.location, None);
    let err = parse_string("if 1 then 2").err().unwrap();
    assert_eq!(err.kind, ErrorKind::Parse);
    assert_eq!(err.to_text(), "<input>:1:12: Cannot parse: ''");
}

#[test]
fn looking_into_values() {
    assert_eq!(parse_string("[1,2,3][0]").unwrap(), integer(1));
    let err = parse_string("[1,2,3][3]").err().unwrap();
    assert_eq!(err.kind, ErrorKind::ArityOrArgument);
    assert_eq!(err.message, "No such element");
    assert_eq!(parse_string("[1,2,3][0 - 1]").err().unwrap().message, "No such element");
    assert_eq!(run("[1,2,3][1.5]").err().unwrap().message, "expects int");
    assert_eq!(
        parse_string("{a: 1}.b").err().unwrap().message,
        "no such field or method: b"
    );
    assert_eq!(
        parse_string("[1].nothing").err().unwrap().message,
        "no such field or method: nothing"
    );
    assert_eq!(
        parse_string("\"abc\".upper").err().unwrap().message,
        "no such field or method: upper"
    );
    assert_eq!(kind_of("true.x"), ErrorKind::Internal);
    assert_eq!(kind_of("\"abc\"[0]"), ErrorKind::Internal);
    assert_eq!(kind_of("{a: 1}[0]"), ErrorKind::TypeMismatch);
    assert_eq!(
        parse_string("{len: 7}.len").unwrap(),
        integer(7)
    );
    assert_eq!(parse_string("{a: 7}.len()").unwrap(), integer(1));
    assert_eq!(parse_string("{a: {b: [5, 6]}}.a.b[1]").unwrap(), integer(6));
}

#[test]
fn list_methods() {
    assert_eq!(parse_string("[1,2].len()").unwrap(), integer(2));
    assert_eq!(
        parse_string("[1].append(2, 3)").unwrap(),
        Value::list_of(vec![integer(1), integer(2), integer(3)])
    );
    assert_eq!(parse_string("[].join(\",\")").unwrap(), words(""));
    assert_eq!(parse_string("[\"a\"].join(\",\")").unwrap(), words("a"));
    assert_eq!(parse_string("[\"a\", \"b\", \"\"].join(\", \")").unwrap(), words("a, b, "));
    assert_eq!(kind_of("[1].join(\",\")"), ErrorKind::TypeMismatch);
    assert_eq!(kind_of("[\"a\"].join(1)"), ErrorKind::TypeMismatch);
    assert_eq!(
        parse_string("[\"a\"].join()").err().unwrap().message,
        "'join' takes exactly one argument"
    );
    assert_eq!(
        parse_string("[1].map()").err().unwrap().message,
        "expects 1 arguments"
    );
    assert_eq!(
        parse_string("[1].map(1)").err().unwrap().message,
        "expects a function"
    );
    assert_eq!(kind_of("[1].filter((i, x) => x)"), ErrorKind::TypeMismatch);
    assert_eq!(kind_of("[1].fold(1, 2)"), ErrorKind::TypeMismatch);
    assert_eq!(
        parse_string("[[\"a\"]].to_hashmap()").err().unwrap().message,
        "the inner list must be a list of two elements"
    );
    assert_eq!(kind_of("[1].to_hashmap()"), ErrorKind::TypeMismatch);
    assert_eq!(kind_of("[[1, 2]].to_hashmap()"), ErrorKind::TypeMismatch);
    assert_eq!(
        parse_string("concat()").err().unwrap().message,
        "Concat requires at least one argument as a list"
    );
    assert_eq!(kind_of("concat([1], 2)"), ErrorKind::TypeMismatch);
}

#[test]
fn map_methods() {
    assert_eq!(
        parse_string("{a: 1}.insert(\"a\", 2) == {a: 2}").unwrap(),
        Value::Bool(true)
    );
    assert_eq!(kind_of("{a: 1}.insert(1, 2)"), ErrorKind::TypeMismatch);
    assert_eq!(
        parse_string("{a: 1, b: 2}.drop(\"a\") == {b: 2}").unwrap(),
        Value::Bool(true)
    );
    assert_eq!(
        parse_string("{a: 1}.drop(\"x.y\") == {a: 1}").unwrap(),
        Value::Bool(true)
    );
    assert_eq!(
        parse_string("{a: 1}.drop(\"a.b\")").err().unwrap().message,
        "Cannot drop hashmap key, because the object is not a hashmap"
    );
    assert_eq!(
        parse_string("{a: 1}.map((k, v) => 3)").err().unwrap().message,
        "hashmap map function must return a list of 2 values"
    );
    assert_eq!(
        parse_string("{a: 1}.map((k, v) => [k])").err().unwrap().message,
        "expects 2 arguments"
    );
    assert_eq!(
        parse_string("{a: 1}.map((k, v) => [v, k])").err().unwrap().message,
        "expects a string"
    );
    assert_eq!(
        parse_string("{a: 1, b: 2}.map((k, v) => [\"x\", v]) == {x: 2}").unwrap(),
        Value::Bool(true)
    );
    assert_eq!(kind_of("{a: 1}.merge(1)"), ErrorKind::TypeMismatch);
    assert_eq!(kind_of("{a: 1}.filter((k, v) => v)"), ErrorKind::TypeMismatch);
}

#[test]
fn string_methods() {
    assert_eq!(parse_string("\" \t a b \n\".trim()").unwrap(), words("a b"));
    assert_eq!(
        parse_string("\"a,b\".split(\"\")").unwrap(),
        Value::list_of(vec![words(""), words("a"), words(","), words("b"), words("")])
    );
    assert_eq!(
        parse_string("\",a,,b,\".split(\",\")").unwrap(),
        Value::list_of(vec![words(""), words("a"), words(""), words("b"), words("")])
    );
    assert_eq!(
        parse_string("\"aXYbXYXYc\".split(\"XY\")").unwrap(),
        Value::list_of(vec![words("a"), words("b"), words(""), words("c")])
    );
    assert_eq!(
        parse_string("\"\".split(\",\")").unwrap(),
        Value::list_of(vec![words("")])
    );
    assert_eq!(
        parse_string("\"a\r\nb\n\nc\r\".lines()").unwrap(),
        Value::list_of(vec![words("a"), words("b"), words(""), words("c\r")])
    );
    assert_eq!(parse_string("\"\".lines()").unwrap(), Value::list_of(vec![]));
    assert_eq!(parse_string("\"\n\".lines()").unwrap(), Value::list_of(vec![words("")]));
    assert_eq!(
        parse_string("\"a\".trim(1)").err().unwrap().message,
        "'trim' does not take any arguments"
    );
    assert_eq!(kind_of("\"a\".split(1)"), ErrorKind::TypeMismatch);
}

#[test]
fn requests_to_the_host() {
    assert_eq!(run("read_file(\"/etc/conf/lib/twice.sy\")").unwrap(), words("(x) => x * 2"));
    let err = run("read_file(\"/nowhere\")").err().unwrap();
    assert_eq!(err.kind, ErrorKind::ImportIo);
    assert_eq!(err.message, "Cannot open file '/nowhere': not found");
    assert_eq!(run("getenv(\"HOME_OF_TESTS\")").unwrap(), words("/home/tests"));
    assert_eq!(run("getenv(\"NOT_SET\", 3)").unwrap(), integer(3));
    let err = run("getenv(\"NOT_SET\")").err().unwrap();
    assert_eq!(err.kind, ErrorKind::ArityOrArgument);
    assert_eq!(err.message, "Environment variable 'NOT_SET' is not set");
    let err = run("shell(\"false\")").err().unwrap();
    assert_eq!(err.kind, ErrorKind::ExternalProcess);
    assert_eq!(err.message, "Command exited with status 127");
    let err = run("handlebars(\"{{#if}}\", {})").err().unwrap();
    assert_eq!(err.kind, ErrorKind::TemplateRender);
    assert_eq!(err.message, "cannot render template: unclosed block");
    assert_eq!(kind_of("shell(1)"), ErrorKind::TypeMismatch);
    assert_eq!(kind_of("shell()"), ErrorKind::ArityOrArgument);
    assert_eq!(kind_of("getenv()"), ErrorKind::ArityOrArgument);
    assert_eq!(kind_of("read_file(1)"), ErrorKind::TypeMismatch);
    assert_eq!(kind_of("handlebars(\"a\")"), ErrorKind::ArityOrArgument);
    assert_eq!(
        run("'{\"a\": 1}'.parse_json() == {a: 1}").unwrap(),
        Value::Bool(true)
    );
    let err = run("'nonsense'.parse_yaml()").err().unwrap();
    assert_eq!(err.kind, ErrorKind::ArityOrArgument);
    assert_eq!(
        err.message,
        "cannot parse YAML: expected value at line 1 column 1"
    );
    assert_eq!(
        run("'[1]'.parse_toml()").err().unwrap().message,
        "cannot parse TOML: the text does not hold a map"
    );
    assert_eq!(
        run("'a'.parse_json(1)").err().unwrap().message,
        "'parse_json' does not take any arguments"
    );
}

#[test]
fn an_evaluation_stops_at_the_first_request_that_is_not_answered() {
    let src = Source::named("<input>", "[shell(\"echo abc\"), getenv(\"X\", 1)]");
    let expr = parse_source(&src).unwrap();
    match evaluate(&expr, Vec::new(), DEFAULT_DEPTH) {
        Evaluation::Pending(request) => {
            assert_eq!(request, Request::Shell("echo abc".to_string()))
        }
        other => panic!("{:?}", other),
    }
    match evaluate(&expr, vec![Answer::Text("out".to_string())], DEFAULT_DEPTH) {
        Evaluation::Pending(request) => assert_eq!(request, Request::GetEnv("X".to_string())),
        other => panic!("{:?}", other),
    }
    match evaluate(
        &expr,
        vec![
            Answer::Text("out".to_string()),
            Answer::Failure("not set".to_string()),
        ],
        DEFAULT_DEPTH,
    ) {
        Evaluation::Done(v) => assert_eq!(v, Value::list_of(vec![words("out"), integer(1)])),
        other => panic!("{:?}", other),
    }
    match evaluate(&expr, vec![Answer::Number(Number::Int(1))], DEFAULT_DEPTH) {
        Evaluation::Failed(e) => assert_eq!(e.kind, ErrorKind::Internal),
        other => panic!("{:?}", other),
    }
    assert_eq!(
        parse_string("shell(\"echo abc\")").err().unwrap().kind,
        ErrorKind::Suspended
    );
}

#[test]
fn values_as_data() {
    let value = parse_string("{b: [1, true, \"x\"], a: (x) => x}").unwrap();
    assert_eq!(
        value.to_serializable(),
        SerializableValue::HashMap(vec![
            (
                "a".to_string(),
                SerializableValue::String("<function>".to_string())
            ),
            (
                "b".to_string(),
                SerializableValue::List(vec![
                    SerializableValue::Number(Number::Int(1)),
                    SerializableValue::Bool(true),
                    SerializableValue::String("x".to_string()),
                ])
            ),
        ])
    );
}

#[test]
fn values_of_the_wrong_kind() {
    let err = integer(1).as_bool().err().unwrap();
    assert_eq!(err.to_text(), "Type Mismatch: expects bool but was int");
    assert_eq!(words("a").as_int().err().unwrap().was, "string");
    assert_eq!(fraction(1.5).as_int().err().unwrap().was, "float");
    assert_eq!(fraction(1.5).as_float().unwrap(), 1.5f64.to_bits());
    assert_eq!(integer(1).as_value_string().err().unwrap().expects, "string");
    assert_eq!(Value::Bool(true).as_list().err().unwrap().was, "bool");
    assert_eq!(Value::list_of(vec![]).as_hashmap().err().unwrap().was, "list");
    assert_eq!(Value::map_of(vec![]).as_func().err().unwrap().was, "hashmap");
    assert_eq!(
        Func::new_builtin(Builtin::Not).into_value().as_int().err().unwrap().was,
        "function"
    );
    assert_eq!(integer(4).as_int().unwrap(), 4);
    assert_eq!(words("a").as_value_string().unwrap(), "a");
    assert_eq!(Value::list_of(vec![integer(1)]).as_list().unwrap(), &vec![integer(1)]);
}

#[test]
fn scopes_share_their_frames() {
    let mut host = Host::new(Vec::new());
    let node = |v: i64| CodeNode::new(NodeContent::Resolved(integer(v)), None);
    let parent = Context::empty(&mut host.scopes);
    let copy = parent;
    let child = parent.new_child(&mut host.scopes);
    let grandchild = child.new_child(&mut host.scopes);
    let other = Context::empty(&mut host.scopes);
    let value = |ctx: &Context, name: &str, host: &mut Host| {
        let found = ctx.get_value(&host.scopes, name);
        found.map(|n| n.resolve(ctx, host, 1).unwrap())
    };
    assert_eq!(value(&child, "a", &mut host), None);
    parent.bind(&mut host.scopes, "a".to_string(), node(1));
    assert_eq!(value(&parent, "a", &mut host), Some(integer(1)));
    assert_eq!(value(&copy, "a", &mut host), Some(integer(1)));
    assert_eq!(value(&child, "a", &mut host), Some(integer(1)));
    assert_eq!(value(&grandchild, "a", &mut host), Some(integer(1)));
    assert_eq!(value(&other, "a", &mut host), None);
    child.bind(&mut host.scopes, "a".to_string(), node(2));
    child.bind(&mut host.scopes, "b".to_string(), node(3));
    assert_eq!(value(&parent, "a", &mut host), Some(integer(1)));
    assert_eq!(value(&parent, "b", &mut host), None);
    assert_eq!(value(&child, "a", &mut host), Some(integer(2)));
    assert_eq!(value(&grandchild, "a", &mut host), Some(integer(2)));
    assert_eq!(value(&grandchild, "b", &mut host), Some(integer(3)));
    parent.bind(&mut host.scopes, "a".to_string(), node(4));
    assert_eq!(value(&parent, "a", &mut host), Some(integer(4)));
    assert_eq!(value(&grandchild, "a", &mut host), Some(integer(2)));
    let nowhere = Context { frame: 99 };
    nowhere.bind(&mut host.scopes, "a".to_string(), node(5));
    assert_eq!(value(&nowhere, "a", &mut host), None);
}

#[test]
fn the_depth_can_be_chosen() {
    let program =
        "let ff = (n, acc, f) => if n == 0 then acc else f(n-1, acc+1, f) in ff(50, 0, ff)";
    assert_eq!(
        syconf::parse_string_with_depth(program, 100).err().unwrap().kind,
        ErrorKind::DepthExceeded
    );
    assert_eq!(
        syconf::parse_string_with_depth(program, 400).unwrap(),
        integer(50)
    );
}

#[test]
fn maps_hold_their_keys_in_order() {
    let map = Value::map_of(vec![
        ("b".to_string(), integer(1)),
        ("a".to_string(), integer(2)),
        ("b".to_string(), integer(3)),
    ]);
    let keys: Vec<String> = map
        .as_hashmap()
        .unwrap()
        .iter()
        .map(|(k, _)| k.clone())
        .collect();
    assert_eq!(keys, vec!["a".to_string(), "b".to_string()]);
    assert_eq!(
        map,
        Value::map_of(vec![
            ("a".to_string(), integer(2)),
            ("b".to_string(), integer(3)),
        ])
    );
    assert_eq!(parse_string("{b: 3, a: 2}").unwrap(), map);
}

#[test]
fn a_source_can_be_copied() {
    let src = Source::from_string("a: 1".to_string());
    let copy = src.clone();
    assert_eq!(src.as_str(), "a: 1");
    assert_eq!(copy.as_str(), "a: 1");
    assert_eq!(copy.path(), src.path());
    assert_eq!(parse_source(&copy).unwrap(), parse_source(&src).unwrap());
}
