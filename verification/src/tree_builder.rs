//! The tree builder: compiles a syntax tree into a code node.
//!
//! Every identifier is settled while the tree is built: it becomes the node
//! that a scope binds it to, or the builtin of that name. When the node is
//! resolved later no name is looked up but those of parameters.
use crate::ast::{assignments_view, entries_view, exprs_view, parts_view, strings_view,
    Assignment, BinaryOperator, BinaryOperatorExpr, BinaryOperatorView, BlockExpr, BlockView,
    Comparison, ComparisonOperator, ComparisonView, Conditional, ConditionalView, ConfigString,
    ConfigStringView, ConfigValue, ConfigValueView, Expr, ExprKind, ExprView, ExprWithLocation,
    FuncDefinition, FuncDefinitionView, HashMapEntry, Logical, LogicalView, SuffixExpr,
    SuffixOperator, SuffixOperatorView, SuffixView};
use crate::context::{bound, find, lookup, newest, with_binding, with_child, with_root, Bindings,
    BindingsView, Context, ContextView, ScopesView};
use crate::error::{Error, ErrorKind, ErrorView, ErrorWithLocation, Location, LocationView};
use crate::functions::{lookup as lookup_builtin, lookup_spec};
use crate::host::{ask_spec, suspended, suspended_error, unexpected_answer,
    unexpected_answer_error, with_scopes, Answer, Host, HostView, Request, RequestView};
use crate::node::{names_view, node_of, nodes_view, pairs_view, resolved, CodeNode, ContentView,
    DefinitionView, FunctionDefinition, HmEntry, NodeContent, NodeView};
use crate::operators::{comparison, math};
use crate::resolver::depth_exceeded;
use crate::value::{Builtin, Func, FuncView, Value, ValueView};
use std::sync::Arc;
use vstd::prelude::*;
use vstd::string::StringExecFns;

verus! {

/// What building comes to: a node or an error, the cache of imports, and
/// the host, as the building left them.
pub type Built = (Result<NodeView, ErrorView>, BindingsView, HostView);

/// What building a part of a node comes to.
pub type BuiltContent = (Result<ContentView, ErrorView>, BindingsView, HostView);

/// What building a sequence of nodes comes to.
pub type BuiltAll = (Result<Seq<NodeView>, ErrorView>, BindingsView, HostView);

/// The view of the result of a build.
pub open spec fn built(r: Result<CodeNode, ErrorWithLocation>) -> Result<NodeView, ErrorView> {
    match r {
        Ok(n) => Ok(n@),
        Err(e) => Err(e@),
    }
}

/// The view of the result of building the content of a node.
pub open spec fn built_content(r: Result<NodeContent, ErrorWithLocation>) -> Result<
    ContentView,
    ErrorView,
> {
    match r {
        Ok(n) => Ok(n@),
        Err(e) => Err(e@),
    }
}

/// An error of this kind with this message at this place.
pub open spec fn error_at(kind: ErrorKind, message: Seq<char>, location: LocationView)
    -> ErrorView {
    ErrorView { location: Some(location), message, kind }
}

/// The node of a builtin.
pub open spec fn builtin_node(b: Builtin) -> NodeView {
    resolved(ValueView::Func(FuncView::BuiltInFunction(b)))
}

/// The node of a string that is known already.
pub open spec fn text_node(s: Seq<char>) -> NodeView {
    resolved(ValueView::String(s))
}

/// A call of a builtin.
pub open spec fn builtin_call(name: Seq<char>, b: Builtin, arguments: Seq<NodeView>) -> ContentView {
    ContentView::FunctionCall { name, function: builtin_node(b), arguments: Some(arguments) }
}

/// The name of an arithmetic operator.
pub open spec fn math_name(op: BinaryOperator) -> Seq<char> {
    match op {
        BinaryOperator::Add => "Add"@,
        BinaryOperator::Sub => "Sub"@,
        BinaryOperator::Mul => "Mul"@,
        BinaryOperator::Div => "Div"@,
    }
}

/// The builtin of an arithmetic operator.
pub open spec fn math_builtin(op: BinaryOperator) -> Builtin {
    match op {
        BinaryOperator::Add => Builtin::Add,
        BinaryOperator::Sub => Builtin::Sub,
        BinaryOperator::Mul => Builtin::Mul,
        BinaryOperator::Div => Builtin::Div,
    }
}

/// The name of a comparison operator.
pub open spec fn comparison_name(op: ComparisonOperator) -> Seq<char> {
    match op {
        ComparisonOperator::Equal => "Equal"@,
        ComparisonOperator::NotEqual => "NotEqual"@,
        ComparisonOperator::Less => "Less"@,
        ComparisonOperator::Greater => "Greater"@,
        ComparisonOperator::LessOrEqual => "LessOrEqual"@,
        ComparisonOperator::GreaterOrEqual => "GreaterOrEqual"@,
    }
}

/// The builtin of a comparison operator.
pub open spec fn comparison_builtin(op: ComparisonOperator) -> Builtin {
    match op {
        ComparisonOperator::Equal => Builtin::Equal,
        ComparisonOperator::NotEqual => Builtin::NotEqual,
        ComparisonOperator::Greater => Builtin::Greater,
        ComparisonOperator::GreaterOrEqual => Builtin::GreaterOrEqual,
        ComparisonOperator::Less => Builtin::Less,
        ComparisonOperator::LessOrEqual => Builtin::LessOrEqual,
    }
}

/// The error for an identifier that nothing binds.
pub open spec fn undefined(id: Seq<char>, location: LocationView) -> ErrorView {
    error_at(
        ErrorKind::UndefinedVariable,
        "Variable '"@ + id + "' is not defined"@,
        location,
    )
}

/// The error for a file that cannot be imported.
pub open spec fn unreadable(file: Seq<char>, reason: Seq<char>, location: LocationView)
    -> ErrorView {
    error_at(ErrorKind::ImportIo, "Cannot read file '"@ + file + "': "@ + reason, location)
}

/// What an identifier compiles to: a reference to the node that the scope
/// binds it to, or else to the builtin of its name.
pub open spec fn identifier_spec(
    scopes: ScopesView,
    ctx: ContextView,
    id: Seq<char>,
    location: LocationView,
) -> Result<ContentView, ErrorView> {
    match find(scopes, ctx, id) {
        Some(node) => Ok(ContentView::FunctionCall { name: id, function: node, arguments: None }),
        None => match lookup_spec(id) {
            Some(b) => Ok(
                ContentView::FunctionCall { name: id, function: builtin_node(b), arguments: None },
            ),
            None => Err(undefined(id, location)),
        },
    }
}

/// The store with the first `n` parameters bound, in the frame of `ctx`,
/// to their markers.
pub open spec fn bind_parameters(s: ScopesView, ctx: ContextView, names: Seq<Seq<char>>, n: int)
    -> ScopesView
    decreases n,
{
    if n <= 0 || n > names.len() {
        s
    } else {
        with_binding(
            bind_parameters(s, ctx, names, n - 1),
            ctx,
            names[n - 1],
            node_of(ContentView::FunctionInputArgument(names[n - 1]), None),
        )
    }
}

/// What a floating-point literal compiles to: the number that the host
/// reads it as.
pub open spec fn literal_spec(text: Seq<char>, location: LocationView, host: HostView) -> (
    Result<ContentView, ErrorView>,
    HostView,
) {
    let (answer, after) = ask_spec(host, RequestView::Literal(text));
    match answer {
        None => (Err(suspended()), after),
        Some(i) => match host.answers[i] {
            Answer::Number(n) => (Ok(ContentView::Resolved(ValueView::Number(n))), after),
            Answer::Failure(reason) => (
                Err(error_at(ErrorKind::Parse, "Cannot parse: '"@ + text + "': "@ + reason@, location)),
                after,
            ),
            _ => (Err(unexpected_answer()), after),
        },
    }
}

/// What the expression compiles to in the scope `ctx`, with `depth` nested
/// expressions and imports allowed.
///
/// A block and an import compile to the node of what they stand for;
/// every other expression to a node of its own that points at the
/// expression.
pub open spec fn build_spec(
    expr: ExprView,
    ctx: ContextView,
    cache: BindingsView,
    host: HostView,
    depth: nat,
) -> Built
    decreases depth, 0nat, 0nat,
{
    if depth == 0 {
        (Err(crate::error::located(depth_exceeded(), Some(expr.location))), cache, host)
    } else {
        let d = (depth - 1) as nat;
        match *expr.inner {
            ExprKind::Block(block) => block_spec(block, ctx, cache, host, d),
            ExprKind::Import(path) => import_spec(path, expr.location, cache, host, d),
            _ => {
                let (content, c1, h1) = content_spec(expr, ctx, cache, host, d);
                match content {
                    Ok(c) => (Ok(node_of(c, Some(expr.location))), c1, h1),
                    Err(e) => (Err(e), c1, h1),
                }
            },
        }
    }
}

/// The error for a block or an import where the content of a node is asked
/// for: they compile to the node of what they stand for, and have no
/// content of their own.
pub open spec fn no_content() -> ErrorView {
    crate::error::plain_error(
        ErrorKind::Internal,
        "a block or an import has no content of its own"@,
    )
}

/// What the expression compiles to, without the place that it points at.
pub open spec fn content_spec(
    expr: ExprView,
    ctx: ContextView,
    cache: BindingsView,
    host: HostView,
    depth: nat,
) -> BuiltContent
    decreases depth, 4nat, 0nat,
{
    match *expr.inner {
        ExprKind::Value(value) => config_value_spec(value, expr.location, ctx, cache, host, depth),
        ExprKind::Identifier(id) => (
            identifier_spec(host.scopes, ctx, id, expr.location),
            cache,
            host,
        ),
        ExprKind::FuncDefinition(fd) => func_definition_spec(fd, ctx, cache, host, depth),
        ExprKind::BinaryOperator(op) => math_op_spec(op, ctx, cache, host, depth),
        ExprKind::Comparison(relation) => relation_spec(relation, ctx, cache, host, depth),
        ExprKind::Conditional(cond) => conditional_spec(cond, ctx, cache, host, depth),
        ExprKind::Logical(logical) => logical_spec(logical, ctx, cache, host, depth),
        ExprKind::Suffix(suffix) => suffix_spec(suffix, ctx, cache, host, depth),
        ExprKind::Block(_) => (Err(no_content()), cache, host),
        ExprKind::Import(_) => (Err(no_content()), cache, host),
    }
}

/// What a literal compiles to: a boolean and a number to themselves, a
/// string to a call that puts its pieces together, a list and a map to
/// the nodes of what they hold.
pub open spec fn config_value_spec(
    value: ConfigValueView,
    location: LocationView,
    ctx: ContextView,
    cache: BindingsView,
    host: HostView,
    depth: nat,
) -> BuiltContent
    decreases depth, 3nat, 0nat,
{
    match value {
        ConfigValueView::Bool(b) => (Ok(ContentView::Resolved(ValueView::Bool(b))), cache, host),
        ConfigValueView::Number(n) => (
            Ok(ContentView::Resolved(ValueView::Number(n))),
            cache,
            host,
        ),
        ConfigValueView::Float(text) => {
            let (r, h1) = literal_spec(text, location, host);
            (r, cache, h1)
        },
        ConfigValueView::String(parts) => string_spec(parts, ctx, cache, host, depth),
        ConfigValueView::HashMap(entries) => {
            let (pairs, c1, h1) = entries_spec(entries, ctx, cache, host, depth, 0, Seq::empty());
            match pairs {
                Ok(p) => (Ok(ContentView::HashMap(p)), c1, h1),
                Err(e) => (Err(e), c1, h1),
            }
        },
        ConfigValueView::List(items) => {
            let (nodes, c1, h1) = build_all_spec(items, ctx, cache, host, depth, 0, Seq::empty());
            match nodes {
                Ok(n) => (Ok(ContentView::List(n)), c1, h1),
                Err(e) => (Err(e), c1, h1),
            }
        },
    }
}

/// What a string literal compiles to: a call of the builtin that puts
/// texts together, with the pieces of the string as its arguments.
pub open spec fn string_spec(
    parts: Seq<ConfigStringView>,
    ctx: ContextView,
    cache: BindingsView,
    host: HostView,
    depth: nat,
) -> BuiltContent
    decreases depth, 2nat, 0nat,
{
    let (kids, c1, h1) = parts_spec(parts, ctx, cache, host, depth, 0, Seq::empty());
    match kids {
        Ok(nodes) => (Ok(builtin_call("string_concat"@, Builtin::ConcatStrings, nodes)), c1, h1),
        Err(e) => (Err(e), c1, h1),
    }
}

/// What a function literal compiles to: a definition whose body is
/// compiled in a new child of the scope, which binds each parameter to its
/// marker.
pub open spec fn func_definition_spec(
    fd: FuncDefinitionView,
    ctx: ContextView,
    cache: BindingsView,
    host: HostView,
    depth: nat,
) -> BuiltContent
    decreases depth, 3nat, 0nat,
{
    let names = fd.arguments;
    let (body, c1, h1) = build_spec(
        fd.expression,
        newest(host.scopes),
        cache,
        with_scopes(
            host,
            bind_parameters(
                with_child(host.scopes, ctx),
                newest(host.scopes),
                names,
                names.len() as int,
            ),
        ),
        depth,
    );
    match body {
        Ok(node) => (
            Ok(ContentView::FunctionDefinition(DefinitionView { argument_names: Some(names), node })),
            c1,
            h1,
        ),
        Err(e) => (Err(e), c1, h1),
    }
}

/// The nodes of two expressions, the left one first.
pub open spec fn pair_spec(
    first: ExprView,
    second: ExprView,
    ctx: ContextView,
    cache: BindingsView,
    host: HostView,
    depth: nat,
) -> BuiltAll
    decreases depth, 1nat, 0nat,
{
    let (left, c1, h1) = build_spec(first, ctx, cache, host, depth);
    match left {
        Err(e) => (Err(e), c1, h1),
        Ok(a) => {
            let (right, c2, h2) = build_spec(second, ctx, c1, h1, depth);
            match right {
                Err(e) => (Err(e), c2, h2),
                Ok(b) => (Ok(seq![a, b]), c2, h2),
            }
        },
    }
}

/// What an arithmetic operation compiles to: a call of the function that
/// the operator stands for.
pub open spec fn math_op_spec(
    op: BinaryOperatorView,
    ctx: ContextView,
    cache: BindingsView,
    host: HostView,
    depth: nat,
) -> BuiltContent
    decreases depth, 3nat, 0nat,
{
    let (args, c1, h1) = pair_spec(op.expr1, op.expr2, ctx, cache, host, depth);
    match args {
        Err(e) => (Err(e), c1, h1),
        Ok(nodes) => (Ok(builtin_call(math_name(op.op), math_builtin(op.op), nodes)), c1, h1),
    }
}

/// What a comparison compiles to: a call of the function that the
/// operator stands for.
pub open spec fn relation_spec(
    relation: ComparisonView,
    ctx: ContextView,
    cache: BindingsView,
    host: HostView,
    depth: nat,
) -> BuiltContent
    decreases depth, 3nat, 0nat,
{
    let (args, c1, h1) = pair_spec(relation.expr1, relation.expr2, ctx, cache, host, depth);
    match args {
        Err(e) => (Err(e), c1, h1),
        Ok(nodes) => (
            Ok(
                builtin_call(
                    comparison_name(relation.operator),
                    comparison_builtin(relation.operator),
                    nodes,
                ),
            ),
            c1,
            h1,
        ),
    }
}

/// What a conditional compiles to: a node of its own kind, which holds the
/// nodes of the condition and of the two branches.
pub open spec fn conditional_spec(
    cond: ConditionalView,
    ctx: ContextView,
    cache: BindingsView,
    host: HostView,
    depth: nat,
) -> BuiltContent
    decreases depth, 3nat, 0nat,
{
    let (test, c1, h1) = build_spec(cond.condition, ctx, cache, host, depth);
    match test {
        Err(e) => (Err(e), c1, h1),
        Ok(condition) => {
            let (branches, c2, h2) = pair_spec(
                cond.then_branch,
                cond.else_branch,
                ctx,
                c1,
                h1,
                depth,
            );
            match branches {
                Err(e) => (Err(e), c2, h2),
                Ok(nodes) => (
                    Ok(
                        ContentView::Conditional {
                            condition,
                            then_branch: nodes[0],
                            else_branch: nodes[1],
                        },
                    ),
                    c2,
                    h2,
                ),
            }
        },
    }
}

/// What `and`, `or` and `not` compile to: calls of the functions of these
/// names, with all operands as arguments.
pub open spec fn logical_spec(
    logical: LogicalView,
    ctx: ContextView,
    cache: BindingsView,
    host: HostView,
    depth: nat,
) -> BuiltContent
    decreases depth, 3nat, 0nat,
{
    match logical {
        LogicalView::And(e1, e2) => {
            let (args, c1, h1) = pair_spec(e1, e2, ctx, cache, host, depth);
            match args {
                Err(e) => (Err(e), c1, h1),
                Ok(nodes) => (Ok(builtin_call("and"@, Builtin::And, nodes)), c1, h1),
            }
        },
        LogicalView::Or(e1, e2) => {
            let (args, c1, h1) = pair_spec(e1, e2, ctx, cache, host, depth);
            match args {
                Err(e) => (Err(e), c1, h1),
                Ok(nodes) => (Ok(builtin_call("or"@, Builtin::Or, nodes)), c1, h1),
            }
        },
        LogicalView::Not(e1) => {
            let (inner, c1, h1) = build_spec(e1, ctx, cache, host, depth);
            match inner {
                Err(e) => (Err(e), c1, h1),
                Ok(a) => (Ok(builtin_call("not"@, Builtin::Not, seq![a])), c1, h1),
            }
        },
    }
}

/// What an expression with a suffix compiles to. Arguments in brackets
/// make a call of what stands before them. A field and an index both make
/// a call of the one builtin that looks into values, with what stands
/// before them and the key as arguments.
pub open spec fn suffix_spec(
    suffix: SuffixView,
    ctx: ContextView,
    cache: BindingsView,
    host: HostView,
    depth: nat,
) -> BuiltContent
    decreases depth, 3nat, 0nat,
{
    let (base, c1, h1) = build_spec(suffix.base, ctx, cache, host, depth);
    match base {
        Err(e) => (Err(e), c1, h1),
        Ok(b) => match suffix.operator {
            SuffixOperatorView::FunctionApplication(args) => {
                let (nodes, c2, h2) = build_all_spec(args, ctx, c1, h1, depth, 0, Seq::empty());
                match nodes {
                    Err(e) => (Err(e), c2, h2),
                    Ok(n) => (
                        Ok(
                            ContentView::FunctionCall {
                                name: ".apply"@,
                                function: b,
                                arguments: Some(n),
                            },
                        ),
                        c2,
                        h2,
                    ),
                }
            },
            SuffixOperatorView::DotField(id) => (
                Ok(builtin_call(".get"@, Builtin::Index, seq![b, text_node(id)])),
                c1,
                h1,
            ),
            SuffixOperatorView::Index(ix) => {
                let (key, c2, h2) = build_spec(ix, ctx, c1, h1, depth);
                match key {
                    Err(e) => (Err(e), c2, h2),
                    Ok(k) => (Ok(builtin_call(".get"@, Builtin::Index, seq![b, k])), c2, h2),
                }
            },
        },
    }
}

/// The nodes of the expressions from `from` on, behind `acc`.
pub open spec fn build_all_spec(
    items: Seq<ExprView>,
    ctx: ContextView,
    cache: BindingsView,
    host: HostView,
    depth: nat,
    from: int,
    acc: Seq<NodeView>,
) -> BuiltAll
    decreases depth, 1nat, items.len() - from,
{
    if from < 0 || from >= items.len() {
        (Ok(acc), cache, host)
    } else {
        let (node, c1, h1) = build_spec(items[from], ctx, cache, host, depth);
        match node {
            Err(e) => (Err(e), c1, h1),
            Ok(n) => build_all_spec(items, ctx, c1, h1, depth, from + 1, acc.push(n)),
        }
    }
}

/// The nodes of the pieces of a string from `from` on, behind `acc`: text
/// as a string that is known already, an expression as what it compiles
/// to.
pub open spec fn parts_spec(
    parts: Seq<ConfigStringView>,
    ctx: ContextView,
    cache: BindingsView,
    host: HostView,
    depth: nat,
    from: int,
    acc: Seq<NodeView>,
) -> BuiltAll
    decreases depth, 1nat, parts.len() - from,
{
    if from < 0 || from >= parts.len() {
        (Ok(acc), cache, host)
    } else {
        match parts[from] {
            ConfigStringView::Raw(s) => parts_spec(
                parts,
                ctx,
                cache,
                host,
                depth,
                from + 1,
                acc.push(text_node(s)),
            ),
            ConfigStringView::Interpolated(e) => {
                let (node, c1, h1) = build_spec(e, ctx, cache, host, depth);
                match node {
                    Err(err) => (Err(err), c1, h1),
                    Ok(n) => parts_spec(parts, ctx, c1, h1, depth, from + 1, acc.push(n)),
                }
            },
        }
    }
}

/// The nodes of the entries of a map from `from` on, behind `acc`.
pub open spec fn entries_spec(
    entries: Seq<(ExprView, ExprView)>,
    ctx: ContextView,
    cache: BindingsView,
    host: HostView,
    depth: nat,
    from: int,
    acc: Seq<(NodeView, NodeView)>,
) -> (Result<Seq<(NodeView, NodeView)>, ErrorView>, BindingsView, HostView)
    decreases depth, 1nat, entries.len() - from,
{
    if from < 0 || from >= entries.len() {
        (Ok(acc), cache, host)
    } else {
        let (key, c1, h1) = build_spec(entries[from].0, ctx, cache, host, depth);
        match key {
            Err(e) => (Err(e), c1, h1),
            Ok(k) => {
                let (value, c2, h2) = build_spec(entries[from].1, ctx, c1, h1, depth);
                match value {
                    Err(e) => (Err(e), c2, h2),
                    Ok(v) => entries_spec(entries, ctx, c2, h2, depth, from + 1, acc.push((k, v))),
                }
            },
        }
    }
}

/// What making the assignments of a block from `from` on comes to, one
/// after the other: each right-hand side is compiled in the scope of the
/// block as the assignments before it left it, and then its name is bound
/// to it in that scope. The result is the first error, if there is one.
pub open spec fn assignments_spec(
    assignments: Seq<(Seq<char>, ExprView)>,
    scope: ContextView,
    cache: BindingsView,
    host: HostView,
    depth: nat,
    from: int,
) -> (Option<ErrorView>, BindingsView, HostView)
    decreases depth, 1nat, assignments.len() - from,
{
    if from < 0 || from >= assignments.len() {
        (None, cache, host)
    } else {
        let (node, c1, h1) = build_spec(assignments[from].1, scope, cache, host, depth);
        match node {
            Err(e) => (Some(e), c1, h1),
            Ok(n) => assignments_spec(
                assignments,
                scope,
                c1,
                with_scopes(h1, with_binding(h1.scopes, scope, assignments[from].0, n)),
                depth,
                from + 1,
            ),
        }
    }
}

/// What a block compiles to: its expression, compiled in a new child of
/// the scope, in which its assignments are made.
pub open spec fn block_spec(
    block: BlockView,
    ctx: ContextView,
    cache: BindingsView,
    host: HostView,
    depth: nat,
) -> Built
    decreases depth, 2nat, 0nat,
{
    let scope = newest(host.scopes);
    let (failed, c1, h1) = assignments_spec(
        block.local_assignments,
        scope,
        cache,
        with_scopes(host, with_child(host.scopes, ctx)),
        depth,
        0,
    );
    match failed {
        Some(e) => (Err(e), c1, h1),
        None => build_spec(block.expression, scope, c1, h1, depth),
    }
}

/// What an import compiles to. The host says which file the path names.
/// Where the cache holds a node for that file, that node is the result,
/// and nothing is read. Else the host reads the file, its text is parsed,
/// its expression is compiled in a new scope without a parent, and the
/// cache gets the node. A file that cannot be found or read, and a text
/// that is no program, are errors at the import that hold the cause.
pub open spec fn import_spec(
    path: Seq<char>,
    location: LocationView,
    cache: BindingsView,
    host: HostView,
    depth: nat,
) -> Built
    decreases depth, 2nat, 0nat,
{
    let (answer, h1) = ask_spec(host, RequestView::Locate(location.source, path));
    match answer {
        None => (Err(suspended()), cache, h1),
        Some(i) => match host.answers[i] {
            Answer::Text(file) => match lookup(cache, file@) {
                Some(node) => (Ok(node), cache, h1),
                None => {
                    let (loaded, h2) = ask_spec(h1, RequestView::Load(file@));
                    match loaded {
                        None => (Err(suspended()), cache, h2),
                        Some(k) => match host.answers[k] {
                            Answer::Text(text) => match crate::parser::parse_unit_spec(
                                crate::source::SourceView { name: file@, text: text@ },
                                crate::parser::DEFAULT_DEPTH as nat,
                            ) {
                                Err(e) => (
                                    Err(unreadable(file@, crate::error::error_text(e), location)),
                                    cache,
                                    h2,
                                ),
                                Ok(module) => {
                                    let (node, c3, h3) = build_spec(
                                        module,
                                        newest(h2.scopes),
                                        cache,
                                        with_scopes(h2, with_root(h2.scopes)),
                                        depth,
                                    );
                                    match node {
                                        Err(e) => (Err(e), c3, h3),
                                        Ok(n) => (Ok(n), bound(c3, file@, n), h3),
                                    }
                                },
                            },
                            Answer::Failure(reason) => (
                                Err(unreadable(file@, reason@, location)),
                                cache,
                                h2,
                            ),
                            _ => (Err(unexpected_answer()), cache, h2),
                        },
                    }
                },
            },
            Answer::Failure(reason) => (Err(unreadable(path, reason@, location)), cache, h1),
            _ => (Err(unexpected_answer()), cache, h1),
        },
    }
}

/// The builder of code nodes.
pub struct NodeTreeBuilder;

/// The node of a builtin.
pub fn builtin_func_node(func: Builtin) -> (r: CodeNode)
    ensures
        r@ == builtin_node(func),
{
    let value = Func::new_builtin(func).into_value();
    CodeNode::new(NodeContent::Resolved(value), None)
}

/// The node of a string that is known already.
fn text_literal(s: &String) -> (r: CodeNode)
    ensures
        r@ == text_node(s@),
{
    CodeNode::new(NodeContent::Resolved(Value::String(s.clone())), None)
}

/// A call of a builtin.
fn call_of(name: &str, b: Builtin, arguments: Vec<CodeNode>) -> (r: NodeContent)
    ensures
        r@ == builtin_call(name@, b, nodes_view(arguments@)),
{
    NodeContent::FunctionCall {
        name: String::from_str(name),
        function: builtin_func_node(b),
        arguments: Some(arguments),
    }
}

fn name_of_math(op: BinaryOperator) -> (r: &'static str)
    ensures
        r@ == math_name(op),
{
    match op {
        BinaryOperator::Add => "Add",
        BinaryOperator::Sub => "Sub",
        BinaryOperator::Mul => "Mul",
        BinaryOperator::Div => "Div",
    }
}

fn name_of_comparison(op: ComparisonOperator) -> (r: &'static str)
    ensures
        r@ == comparison_name(op),
{
    match op {
        ComparisonOperator::Equal => "Equal",
        ComparisonOperator::NotEqual => "NotEqual",
        ComparisonOperator::Less => "Less",
        ComparisonOperator::Greater => "Greater",
        ComparisonOperator::LessOrEqual => "LessOrEqual",
        ComparisonOperator::GreaterOrEqual => "GreaterOrEqual",
    }
}

pub proof fn lemma_nodes_view_push(nodes: Seq<CodeNode>, n: CodeNode)
    ensures
        nodes_view(nodes.push(n)) == nodes_view(nodes).push(n@),
{
    assert(nodes_view(nodes.push(n)) =~= nodes_view(nodes).push(n@));
}

fn no_content_error() -> (r: ErrorWithLocation)
    ensures
        r@ == no_content(),
{
    ErrorWithLocation::new(ErrorKind::Internal, "a block or an import has no content of its own")
}

impl NodeTreeBuilder {
    /// Compiles the expression in the scope `ctx`. `cache` holds the nodes
    /// of the files that were imported so far, each under its canonical
    /// path.
    pub fn build_tree(
        &self,
        ctx: &Context,
        expr: &ExprWithLocation,
        cache: &mut Bindings,
        host: &mut Host,
        depth: usize,
    ) -> (r: Result<CodeNode, Error>)
        ensures
            (built(r), final(cache)@, final(host)@) == build_spec(
                expr@,
                ctx@,
                old(cache)@,
                old(host)@,
                depth as nat,
            ),
        decreases depth, 0nat, 0nat,
    {
        if depth == 0 {
            return Err(crate::resolver::depth_error().at(&Some(expr.location.clone())));
        }
        let d: usize = depth - 1;
        match &expr.inner {
            Expr::Block(block) => self.block(ctx, block, cache, host, d),
            Expr::Import(path) => self.import(path, &expr.location, cache, host, d),
            _ => {
                match self.content(ctx, expr, cache, host, d) {
                    Ok(cell) => Ok(CodeNode::new(cell, Some(expr.location.clone()))),
                    Err(e) => Err(e),
                }
            },
        }
    }

    fn content(
        &self,
        ctx: &Context,
        expr: &ExprWithLocation,
        cache: &mut Bindings,
        host: &mut Host,
        depth: usize,
    ) -> (r: Result<NodeContent, Error>)
        ensures
            (built_content(r), final(cache)@, final(host)@) == content_spec(
                expr@,
                ctx@,
                old(cache)@,
                old(host)@,
                depth as nat,
            ),
        decreases depth, 4nat, 0nat,
    {
        match &expr.inner {
            Expr::Value(val) => self.config_value(ctx, val, &expr.location, cache, host, depth),
            Expr::Identifier(id) => self.identifier(ctx, id.as_str(), &expr.location, &host.scopes),
            Expr::FuncDefinition(fd) => self.func_definition(ctx, fd, cache, host, depth),
            Expr::BinaryOperator(op) => self.math_op(ctx, op, cache, host, depth),
            Expr::Comparison(relation) => self.comparison(ctx, relation, cache, host, depth),
            Expr::Conditional(cond) => self.conditional(ctx, cond, cache, host, depth),
            Expr::Logical(logical) => self.logical(ctx, logical, cache, host, depth),
            Expr::Suffix(suffix) => self.suffix_operator(ctx, suffix, cache, host, depth),
            Expr::Block(_) => Err(no_content_error()),
            Expr::Import(_) => Err(no_content_error()),
        }
    }

    /// Compiles two expressions, the left one first.
    fn pair(
        &self,
        ctx: &Context,
        first: &ExprWithLocation,
        second: &ExprWithLocation,
        cache: &mut Bindings,
        host: &mut Host,
        depth: usize,
    ) -> (r: Result<Vec<CodeNode>, Error>)
        ensures
            match r {
                Ok(nodes) => (Ok::<Seq<NodeView>, ErrorView>(nodes_view(nodes@)), final(cache)@, final(host)@) == pair_spec(first@, second@, ctx@, old(cache)@, old(host)@, depth as nat),
                Err(e) => (Err::<Seq<NodeView>, ErrorView>(e@), final(cache)@, final(host)@)
                    == pair_spec(first@, second@, ctx@, old(cache)@, old(host)@, depth as nat),
            },
        decreases depth, 1nat, 0nat,
    {
        let a = match self.build_tree(ctx, first, cache, host, depth) {
            Ok(a) => a,
            Err(e) => {
                return Err(e);
            },
        };
        let b = match self.build_tree(ctx, second, cache, host, depth) {
            Ok(b) => b,
            Err(e) => {
                return Err(e);
            },
        };
        let mut nodes: Vec<CodeNode> = Vec::new();
        nodes.push(a);
        nodes.push(b);
        assert(nodes_view(nodes@) =~= seq![a@, b@]);
        Ok(nodes)
    }

    /// Compiles the expressions from left to right.
    #[verifier::loop_isolation(false)]
    fn build_all(
        &self,
        ctx: &Context,
        items: &Vec<ExprWithLocation>,
        cache: &mut Bindings,
        host: &mut Host,
        depth: usize,
    ) -> (r: Result<Vec<CodeNode>, Error>)
        ensures
            match r {
                Ok(nodes) => (Ok::<Seq<NodeView>, ErrorView>(nodes_view(nodes@)), final(cache)@, final(host)@) == build_all_spec(
                    exprs_view(items@),
                    ctx@,
                    old(cache)@,
                    old(host)@,
                    depth as nat,
                    0,
                    Seq::empty(),
                ),
                Err(e) => (Err::<Seq<NodeView>, ErrorView>(e@), final(cache)@, final(host)@)
                    == build_all_spec(
                    exprs_view(items@),
                    ctx@,
                    old(cache)@,
                    old(host)@,
                    depth as nat,
                    0,
                    Seq::empty(),
                ),
            },
        decreases depth, 1nat, 0nat,
    {
        let mut out: Vec<CodeNode> = Vec::new();
        let mut i: usize = 0;
        assert(nodes_view(out@) =~= Seq::<NodeView>::empty());
        while i < items.len()
            invariant
                i <= items.len(),
                build_all_spec(
                    exprs_view(items@),
                    ctx@,
                    old(cache)@,
                    old(host)@,
                    depth as nat,
                    0,
                    Seq::empty(),
                ) == build_all_spec(
                    exprs_view(items@),
                    ctx@,
                    cache@,
                    host@,
                    depth as nat,
                    i as int,
                    nodes_view(out@),
                ),
            decreases items.len() - i,
        {
            match self.build_tree(ctx, &items[i], cache, host, depth) {
                Err(e) => {
                    return Err(e);
                },
                Ok(n) => {
                    proof {
                        lemma_nodes_view_push(out@, n);
                    }
                    out.push(n);
                },
            }
            i = i + 1;
        }
        Ok(out)
    }

    fn suffix_operator(
        &self,
        ctx: &Context,
        suffix: &SuffixExpr,
        cache: &mut Bindings,
        host: &mut Host,
        depth: usize,
    ) -> (r: Result<NodeContent, Error>)
        ensures
            (built_content(r), final(cache)@, final(host)@) == suffix_spec(
                suffix@,
                ctx@,
                old(cache)@,
                old(host)@,
                depth as nat,
            ),
        decreases depth, 3nat, 0nat,
    {
        let base = match self.build_tree(ctx, &suffix.base, cache, host, depth) {
            Ok(b) => b,
            Err(e) => {
                return Err(e);
            },
        };
        match &suffix.operator {
            SuffixOperator::FunctionApplication(args) => {
                match self.build_all(ctx, args, cache, host, depth) {
                    Err(e) => Err(e),
                    Ok(nodes) => Ok(
                        NodeContent::FunctionCall {
                            name: String::from_str(".apply"),
                            function: base,
                            arguments: Some(nodes),
                        },
                    ),
                }
            },
            SuffixOperator::DotField(id) => {
                let key = text_literal(id);
                let mut args: Vec<CodeNode> = Vec::new();
                args.push(base);
                args.push(key);
                assert(nodes_view(args@) =~= seq![base@, key@]);
                Ok(call_of(".get", Builtin::Index, args))
            },
            SuffixOperator::Index(ix) => {
                match self.build_tree(ctx, ix, cache, host, depth) {
                    Err(e) => Err(e),
                    Ok(key) => {
                        let mut args: Vec<CodeNode> = Vec::new();
                        args.push(base);
                        args.push(key);
                        assert(nodes_view(args@) =~= seq![base@, key@]);
                        Ok(call_of(".get", Builtin::Index, args))
                    },
                }
            },
        }
    }

    fn logical(
        &self,
        ctx: &Context,
        logical: &Logical,
        cache: &mut Bindings,
        host: &mut Host,
        depth: usize,
    ) -> (r: Result<NodeContent, Error>)
        ensures
            (built_content(r), final(cache)@, final(host)@) == logical_spec(
                logical@,
                ctx@,
                old(cache)@,
                old(host)@,
                depth as nat,
            ),
        decreases depth, 3nat, 0nat,
    {
        match logical {
            Logical::And(expr1, expr2) => {
                match self.pair(ctx, expr1, expr2, cache, host, depth) {
                    Err(e) => Err(e),
                    Ok(args) => Ok(call_of("and", Builtin::And, args)),
                }
            },
            Logical::Or(expr1, expr2) => {
                match self.pair(ctx, expr1, expr2, cache, host, depth) {
                    Err(e) => Err(e),
                    Ok(args) => Ok(call_of("or", Builtin::Or, args)),
                }
            },
            Logical::Not(expr1) => {
                match self.build_tree(ctx, expr1, cache, host, depth) {
                    Err(e) => Err(e),
                    Ok(a) => {
                        let mut args: Vec<CodeNode> = Vec::new();
                        args.push(a);
                        assert(nodes_view(args@) =~= seq![a@]);
                        Ok(call_of("not", Builtin::Not, args))
                    },
                }
            },
        }
    }

    fn conditional(
        &self,
        ctx: &Context,
        cond: &Conditional,
        cache: &mut Bindings,
        host: &mut Host,
        depth: usize,
    ) -> (r: Result<NodeContent, Error>)
        ensures
            (built_content(r), final(cache)@, final(host)@) == conditional_spec(
                cond@,
                ctx@,
                old(cache)@,
                old(host)@,
                depth as nat,
            ),
        decreases depth, 3nat, 0nat,
    {
        let condition = match self.build_tree(ctx, &cond.condition, cache, host, depth) {
            Ok(c) => c,
            Err(e) => {
                return Err(e);
            },
        };
        match self.pair(ctx, &cond.then_branch, &cond.else_branch, cache, host, depth) {
            Err(e) => Err(e),
            Ok(branches) => {
                assert(nodes_view(branches@).len() == 2);
                assert(nodes_view(branches@)[0] == branches@[0]@);
                assert(nodes_view(branches@)[1] == branches@[1]@);
                Ok(
                    NodeContent::Conditional {
                        condition,
                        then_branch: branches[0].clone(),
                        else_branch: branches[1].clone(),
                    },
                )
            },
        }
    }

    fn comparison(
        &self,
        ctx: &Context,
        relation: &Comparison,
        cache: &mut Bindings,
        host: &mut Host,
        depth: usize,
    ) -> (r: Result<NodeContent, Error>)
        ensures
            (built_content(r), final(cache)@, final(host)@) == relation_spec(
                relation@,
                ctx@,
                old(cache)@,
                old(host)@,
                depth as nat,
            ),
        decreases depth, 3nat, 0nat,
    {
        match self.pair(ctx, &relation.expr1, &relation.expr2, cache, host, depth) {
            Err(e) => Err(e),
            Ok(args) => Ok(
                call_of(
                    name_of_comparison(relation.operator),
                    comparison(&relation.operator),
                    args,
                ),
            ),
        }
    }

    fn math_op(
        &self,
        ctx: &Context,
        op: &BinaryOperatorExpr,
        cache: &mut Bindings,
        host: &mut Host,
        depth: usize,
    ) -> (r: Result<NodeContent, Error>)
        ensures
            (built_content(r), final(cache)@, final(host)@) == math_op_spec(
                op@,
                ctx@,
                old(cache)@,
                old(host)@,
                depth as nat,
            ),
        decreases depth, 3nat, 0nat,
    {
        match self.pair(ctx, &op.expr1, &op.expr2, cache, host, depth) {
            Err(e) => Err(e),
            Ok(args) => Ok(call_of(name_of_math(op.op), math(&op.op), args)),
        }
    }

    #[verifier::loop_isolation(false)]
    fn config_value(
        &self,
        ctx: &Context,
        val: &ConfigValue,
        location: &Location,
        cache: &mut Bindings,
        host: &mut Host,
        depth: usize,
    ) -> (r: Result<NodeContent, Error>)
        ensures
            (built_content(r), final(cache)@, final(host)@) == config_value_spec(
                val@,
                location@,
                ctx@,
                old(cache)@,
                old(host)@,
                depth as nat,
            ),
        decreases depth, 3nat, 0nat,
    {
        match val {
            ConfigValue::Bool(x) => Ok(NodeContent::Resolved(Value::Bool(*x))),
            ConfigValue::Number(v) => Ok(NodeContent::Resolved(Value::Number(*v))),
            ConfigValue::Float(text) => self.literal(text, location, host),
            ConfigValue::String(s) => self.string(ctx, s, cache, host, depth),
            ConfigValue::HashMap(hm) => {
                let mut out: Vec<HmEntry> = Vec::new();
                let mut i: usize = 0;
                assert(pairs_view(out@) =~= Seq::<(NodeView, NodeView)>::empty());
                while i < hm.len()
                    invariant
                        i <= hm.len(),
                        entries_spec(
                            entries_view(hm@),
                            ctx@,
                            old(cache)@,
                            old(host)@,
                            depth as nat,
                            0,
                            Seq::empty(),
                        ) == entries_spec(
                            entries_view(hm@),
                            ctx@,
                            cache@,
                            host@,
                            depth as nat,
                            i as int,
                            pairs_view(out@),
                        ),
                    decreases hm.len() - i,
                {
                    let key = match self.build_tree(ctx, &hm[i].key, cache, host, depth) {
                        Ok(k) => k,
                        Err(e) => {
                            return Err(e);
                        },
                    };
                    let value = match self.build_tree(ctx, &hm[i].value, cache, host, depth) {
                        Ok(v) => v,
                        Err(e) => {
                            return Err(e);
                        },
                    };
                    let ghost before = pairs_view(out@);
                    out.push(HmEntry { key, value });
                    assert(pairs_view(out@) =~= before.push((key@, value@)));
                    i = i + 1;
                }
                Ok(NodeContent::HashMap(out))
            },
            ConfigValue::List(list) => {
                match self.build_all(ctx, list, cache, host, depth) {
                    Ok(nodes) => Ok(NodeContent::List(nodes)),
                    Err(e) => Err(e),
                }
            },
        }
    }

    /// Asks the host what number a literal stands for.
    fn literal(&self, text: &String, location: &Location, host: &mut Host) -> (r: Result<
        NodeContent,
        Error,
    >)
        ensures
            (built_content(r), final(host)@) == literal_spec(text@, location@, old(host)@),
    {
        match host.ask(Request::Literal(text.clone())) {
            None => Err(suspended_error()),
            Some(i) => match &host.answers[i] {
                Answer::Number(n) => Ok(NodeContent::Resolved(Value::Number(*n))),
                Answer::Failure(reason) => {
                    let message = String::from_str("Cannot parse: '").concat(
                        text.as_str(),
                    ).concat("': ").concat(reason.as_str());
                    Err(
                        ErrorWithLocation {
                            location: Some(location.clone()),
                            message,
                            kind: ErrorKind::Parse,
                        },
                    )
                },
                _ => Err(unexpected_answer_error()),
            },
        }
    }

    #[verifier::loop_isolation(false)]
    fn string(
        &self,
        ctx: &Context,
        cs: &Vec<ConfigString>,
        cache: &mut Bindings,
        host: &mut Host,
        depth: usize,
    ) -> (r: Result<NodeContent, Error>)
        ensures
            (built_content(r), final(cache)@, final(host)@) == string_spec(
                parts_view(cs@),
                ctx@,
                old(cache)@,
                old(host)@,
                depth as nat,
            ),
        decreases depth, 2nat, 0nat,
    {
        let mut kids: Vec<CodeNode> = Vec::new();
        let mut i: usize = 0;
        assert(nodes_view(kids@) =~= Seq::<NodeView>::empty());
        while i < cs.len()
            invariant
                i <= cs.len(),
                parts_spec(parts_view(cs@), ctx@, old(cache)@, old(host)@, depth as nat, 0, Seq::empty())
                    == parts_spec(
                    parts_view(cs@),
                    ctx@,
                    cache@,
                    host@,
                    depth as nat,
                    i as int,
                    nodes_view(kids@),
                ),
            decreases cs.len() - i,
        {
            match &cs[i] {
                ConfigString::Raw(s) => {
                    let node = text_literal(s);
                    proof {
                        lemma_nodes_view_push(kids@, node);
                    }
                    kids.push(node);
                },
                ConfigString::Interpolated(a) => {
                    match self.build_tree(ctx, a, cache, host, depth) {
                        Err(e) => {
                            return Err(e);
                        },
                        Ok(node) => {
                            proof {
                                lemma_nodes_view_push(kids@, node);
                            }
                            kids.push(node);
                        },
                    }
                },
            }
            i = i + 1;
        }
        Ok(call_of("string_concat", Builtin::ConcatStrings, kids))
    }

    #[verifier::loop_isolation(false)]
    fn block(
        &self,
        ctx: &Context,
        block: &BlockExpr,
        cache: &mut Bindings,
        host: &mut Host,
        depth: usize,
    ) -> (r: Result<CodeNode, Error>)
        ensures
            (built(r), final(cache)@, final(host)@) == block_spec(
                block@,
                ctx@,
                old(cache)@,
                old(host)@,
                depth as nat,
            ),
        decreases depth, 2nat, 0nat,
    {
        let ns = ctx.new_child(&mut host.scopes);
        let mut i: usize = 0;
        while i < block.local_assignments.len()
            invariant
                i <= block.local_assignments.len(),
                ns == newest(old(host)@.scopes),
                assignments_spec(
                    assignments_view(block.local_assignments@),
                    ns,
                    old(cache)@,
                    with_scopes(old(host)@, with_child(old(host)@.scopes, *ctx)),
                    depth as nat,
                    0,
                ) == assignments_spec(
                    assignments_view(block.local_assignments@),
                    ns,
                    cache@,
                    host@,
                    depth as nat,
                    i as int,
                ),
            decreases block.local_assignments.len() - i,
        {
            let assignment = &block.local_assignments[i];
            match self.build_tree(&ns, &assignment.1, cache, host, depth) {
                Err(e) => {
                    return Err(e);
                },
                Ok(node) => {
                    ns.bind(&mut host.scopes, assignment.0.clone(), node);
                },
            }
            i = i + 1;
        }
        self.build_tree(&ns, &block.expression, cache, host, depth)
    }

    fn identifier(
        &self,
        ctx: &Context,
        id: &str,
        loc: &Location,
        scopes: &crate::context::Scopes,
    ) -> (r: Result<NodeContent, Error>)
        ensures
            built_content(r) == identifier_spec(scopes@, ctx@, id@, loc@),
    {
        let func_node = match ctx.get_value(scopes, id) {
            Some(node) => node,
            None => match lookup_builtin(id) {
                Some(b) => builtin_func_node(b),
                None => {
                    let message = String::from_str("Variable '").concat(id).concat(
                        "' is not defined",
                    );
                    return Err(
                        ErrorWithLocation {
                            location: Some(loc.clone()),
                            message,
                            kind: ErrorKind::UndefinedVariable,
                        },
                    );
                },
            },
        };
        Ok(
            NodeContent::FunctionCall {
                name: String::from_str(id),
                function: func_node,
                arguments: None,
            },
        )
    }

    #[verifier::loop_isolation(false)]
    fn func_definition(
        &self,
        ctx: &Context,
        fd: &FuncDefinition,
        cache: &mut Bindings,
        host: &mut Host,
        depth: usize,
    ) -> (r: Result<NodeContent, Error>)
        ensures
            (built_content(r), final(cache)@, final(host)@) == func_definition_spec(
                fd@,
                ctx@,
                old(cache)@,
                old(host)@,
                depth as nat,
            ),
        decreases depth, 3nat, 0nat,
    {
        let ns = ctx.new_child(&mut host.scopes);
        let mut names: Vec<String> = Vec::new();
        let mut i: usize = 0;
        while i < fd.arguments.len()
            invariant
                i <= fd.arguments.len(),
                names@ == fd.arguments@.subrange(0, i as int),
                ns == newest(old(host)@.scopes),
                host@ == with_scopes(
                    old(host)@,
                    bind_parameters(
                        with_child(old(host)@.scopes, *ctx),
                        ns,
                        names_view(fd.arguments@),
                        i as int,
                    ),
                ),
            decreases fd.arguments.len() - i,
        {
            let marker = CodeNode::new(
                NodeContent::FunctionInputArgument(fd.arguments[i].clone()),
                None,
            );
            ns.bind(&mut host.scopes, fd.arguments[i].clone(), marker);
            names.push(fd.arguments[i].clone());
            i = i + 1;
            assert(fd.arguments@.subrange(0, i as int) == fd.arguments@.subrange(0, i - 1).push(
                fd.arguments@[i - 1],
            ));
        }
        assert(fd.arguments@.subrange(0, fd.arguments.len() as int) == fd.arguments@);
        match self.build_tree(&ns, &fd.expression, cache, host, depth) {
            Err(e) => Err(e),
            Ok(val) => {
                let definition = FunctionDefinition { node: val, argument_names: Some(names) };
                assert(definition@ == DefinitionView {
                    argument_names: Some(names_view(fd.arguments@)),
                    node: val@,
                });
                Ok(NodeContent::FunctionDefinition(Arc::new(definition)))
            },
        }
    }

    fn import(
        &self,
        file_name: &String,
        location: &Location,
        cache: &mut Bindings,
        host: &mut Host,
        depth: usize,
    ) -> (r: Result<CodeNode, Error>)
        ensures
            (built(r), final(cache)@, final(host)@) == import_spec(
                file_name@,
                location@,
                old(cache)@,
                old(host)@,
                depth as nat,
            ),
        decreases depth, 2nat, 0nat,
    {
        let located = match host.ask(Request::Locate(location.source.clone(), file_name.clone())) {
            None => {
                return Err(suspended_error());
            },
            Some(i) => i,
        };
        let file: String = match &host.answers[located] {
            Answer::Text(file) => file.clone(),
            Answer::Failure(reason) => {
                return Err(unreadable_error(file_name, reason, location));
            },
            _ => {
                return Err(unexpected_answer_error());
            },
        };
        match cache.get_value(file.as_str()) {
            Some(node) => {
                return Ok(node);
            },
            None => {},
        }
        let loaded = match host.ask(Request::Load(file.clone())) {
            None => {
                return Err(suspended_error());
            },
            Some(k) => k,
        };
        let text: String = match &host.answers[loaded] {
            Answer::Text(text) => text.clone(),
            Answer::Failure(reason) => {
                return Err(unreadable_error(&file, reason, location));
            },
            _ => {
                return Err(unexpected_answer_error());
            },
        };
        let source = crate::source::Source::named(file.as_str(), text.as_str());
        let module = match crate::parser::parse_unit(&source, crate::parser::DEFAULT_DEPTH) {
            Ok(module) => module,
            Err(e) => {
                let cause = e.to_text();
                return Err(unreadable_error(&file, &cause, location));
            },
        };
        let empty = Context::empty(&mut host.scopes);
        match self.build_tree(&empty, &module, cache, host, depth) {
            Err(e) => Err(e),
            Ok(node) => {
                cache.bind(file, node.clone());
                Ok(node)
            },
        }
    }
}

fn unreadable_error(file: &String, reason: &String, location: &Location) -> (r: ErrorWithLocation)
    ensures
        r@ == unreadable(file@, reason@, location@),
{
    let message = String::from_str("Cannot read file '").concat(file.as_str()).concat(
        "': ",
    ).concat(reason.as_str());
    ErrorWithLocation { location: Some(location.clone()), message, kind: ErrorKind::ImportIo }
}

} // verus!
