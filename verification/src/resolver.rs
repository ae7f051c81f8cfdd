//! The resolution engine: what a code node comes to in a scope.
//!
//! `resolve_spec` says what resolving is. It is defined by recursion on a
//! depth: the number of nested resolutions and calls that the evaluation
//! may go through. Every value that the executable code returns is proved
//! to be the one that the specification gives.
use crate::ast::{BinaryOperator, ComparisonOperator};
use crate::context::{find, newest, with_binding, with_child, with_root, Context, ContextView,
    ScopesView};
use crate::error::{located, location_view, mismatch_text, plain_error, Error, ErrorKind,
    ErrorView, ErrorWithLocation, LocationView};
use crate::functions::{concat, concat_spec, concat_strings, concat_strings_spec, getenv,
    getenv_spec, handlebars_spec, handlebars_template, lemma_values_view_push, read_file,
    read_file_spec, shell, shell_spec};
use crate::host::{with_scopes, Format, Host, HostView};
use crate::methods::hashmap::{put, put_entry, HashmapMethod};
use crate::methods::list::ListMethod;
use crate::methods::string::StringMethod;
use crate::methods::{index, index_spec};
use crate::node::{names_view, nodes_view, pairs_view, resolved, CodeNode, ContentView,
    DefinitionView, FunctionDefinition, HmEntry, NodeContent, NodeView};
use crate::number::Number;
use crate::operators::{and, and_spec, apply_math, compare, comparison_spec, conditional,
    conditional_spec, math_spec, mismatch, mismatch_error, misuse, misuse_error, not, not_spec,
    or, or_spec, outcome, Outcome};
use crate::value::{entries_view, kind_name, values_view, Builtin, ClosureView, EntriesView,
    Func, FuncView, Method, MethodView, UserDefinedFunction, Value, ValueString, ValueView};
use crate::value_extraction::{extractor_spec, func_at, string_at, ValueExtractor};
use std::sync::Arc;
use vstd::prelude::*;
use vstd::string::StringExecFns;

verus! {

/// A result, and the host as the evaluation left it.
pub type Step = (Outcome, HostView);

/// The error for an evaluation that went as deep as it was allowed to.
pub open spec fn depth_exceeded() -> ErrorView {
    plain_error(ErrorKind::DepthExceeded, "the expression nests deeper than allowed"@)
}

/// The error for a parameter that the scope of the call does not bind.
pub open spec fn unbound(name: Seq<char>, location: Option<LocationView>) -> ErrorView {
    ErrorView {
        location,
        message: "Function argument '"@ + name + "' is not bound"@,
        kind: ErrorKind::UndefinedVariable,
    }
}

/// The error for a call of something that is no function.
pub open spec fn not_callable(location: Option<LocationView>) -> ErrorView {
    ErrorView { location, message: "value is not a function"@, kind: ErrorKind::NotCallable }
}

/// The error for a key of a map that is no string.
pub open spec fn bad_key(was: ValueView, location: Option<LocationView>) -> ErrorView {
    ErrorView {
        location,
        message: mismatch_text("string"@, kind_name(was)),
        kind: ErrorKind::TypeMismatch,
    }
}

/// The closure of a definition in a scope.
pub open spec fn closure(ctx: ContextView, definition: DefinitionView) -> ValueView {
    ValueView::Func(FuncView::UserDefined(ClosureView { context: ctx, definition }))
}

/// The store with the first `n` parameters bound, in the frame of `ctx`,
/// to the first `n` arguments, each as a value that is known already.
pub open spec fn bind_arguments(
    s: ScopesView,
    ctx: Context,
    names: Seq<Seq<char>>,
    args: Seq<ValueView>,
    n: int,
) -> ScopesView
    decreases n,
{
    if n <= 0 || n > names.len() || n > args.len() {
        s
    } else {
        with_binding(
            bind_arguments(s, ctx, names, args, n - 1),
            ctx,
            names[n - 1],
            resolved(args[n - 1]),
        )
    }
}

/// What a builtin function returns. None of them calls a function that it
/// was given, so none needs a depth.
pub open spec fn builtin_spec(b: Builtin, args: Seq<ValueView>, host: HostView) -> Step {
    match b {
        Builtin::ReadFile => read_file_spec(args, host),
        Builtin::GetEnv => getenv_spec(args, host),
        Builtin::Concat => (concat_spec(args), host),
        Builtin::Shell => shell_spec(args, host),
        Builtin::Handlebars => handlebars_spec(args, host),
        Builtin::ConcatStrings => concat_strings_spec(args, host),
        Builtin::Index => (index_spec(args), host),
        Builtin::And => (and_spec(args), host),
        Builtin::Or => (or_spec(args), host),
        Builtin::Not => (not_spec(args), host),
        Builtin::Add => math_spec(BinaryOperator::Add, args, host),
        Builtin::Sub => math_spec(BinaryOperator::Sub, args, host),
        Builtin::Mul => math_spec(BinaryOperator::Mul, args, host),
        Builtin::Div => math_spec(BinaryOperator::Div, args, host),
        Builtin::Equal => (comparison_spec(ComparisonOperator::Equal, args), host),
        Builtin::NotEqual => (comparison_spec(ComparisonOperator::NotEqual, args), host),
        Builtin::Greater => (comparison_spec(ComparisonOperator::Greater, args), host),
        Builtin::GreaterOrEqual => (
            comparison_spec(ComparisonOperator::GreaterOrEqual, args),
            host,
        ),
        Builtin::Less => (comparison_spec(ComparisonOperator::Less, args), host),
        Builtin::LessOrEqual => (comparison_spec(ComparisonOperator::LessOrEqual, args), host),
        Builtin::Conditional => (conditional_spec(args), host),
    }
}

/// The one argument of a method that takes a function and nothing else.
pub open spec fn only_function(args: Seq<ValueView>) -> Result<FuncView, ErrorView> {
    match extractor_spec(args, 1) {
        Ok(found) => func_at(found, 0),
        Err(e) => Err(e),
    }
}

/// What resolving `node` in the scope `ctx` comes to, with `depth` nested
/// resolutions and calls allowed.
///
/// A value that is known already is the result, and a function definition
/// becomes a closure that holds the scope; these two take no depth. A
/// parameter is looked up in the scope of the call, and what it is bound
/// to is resolved there. Of
/// a conditional the condition is resolved, and then the branch that it
/// selects and no other. The items of a list, and the keys and values of a
/// map, are resolved one after the other, in the order in which they are
/// written. A call without arguments is the function's value itself. For a
/// call with arguments the arguments are resolved from left to right, then
/// the function, and then the function is called; an error of the call
/// that points nowhere is made to point at the call.
pub open spec fn resolve_spec(node: NodeView, ctx: ContextView, host: HostView, depth: nat) -> Step
    decreases depth, 0nat, 0nat,
{
    if *node.content is Resolved {
        (Ok(node.content->Resolved_0), host)
    } else if *node.content is FunctionDefinition {
        (Ok(closure(ctx, node.content->FunctionDefinition_0)), host)
    } else if depth == 0 {
        (Err(located(depth_exceeded(), node.location)), host)
    } else {
        let d = (depth - 1) as nat;
        match *node.content {
            ContentView::Resolved(v) => (Ok(v), host),
            ContentView::FunctionInputArgument(name) => match find(host.scopes, ctx, name) {
                Some(target) => resolve_spec(target, ctx, host, d),
                None => (Err(unbound(name, node.location)), host),
            },
            ContentView::FunctionDefinition(definition) => (Ok(closure(ctx, definition)), host),
            ContentView::Conditional { condition, then_branch, else_branch } => {
                let (test, h1) = resolve_spec(condition, ctx, host, d);
                match test {
                    Err(e) => (Err(e), h1),
                    Ok(ValueView::Bool(b)) => if b {
                        resolve_spec(then_branch, ctx, h1, d)
                    } else {
                        resolve_spec(else_branch, ctx, h1, d)
                    },
                    Ok(other) => (Err(mismatch("bool"@, other)), h1),
                }
            },
            ContentView::List(items) => {
                let (values, h1) = resolve_all_spec(items, ctx, host, d, 0, Seq::empty());
                match values {
                    Ok(vs) => (Ok(ValueView::List(vs)), h1),
                    Err(e) => (Err(e), h1),
                }
            },
            ContentView::HashMap(entries) => resolve_entries_spec(
                entries,
                ctx,
                host,
                d,
                0,
                Seq::empty(),
                node.location,
            ),
            ContentView::FunctionCall { name, function, arguments } => match arguments {
                None => resolve_spec(function, ctx, host, d),
                Some(args) => {
                    let (values, h1) = resolve_all_spec(args, ctx, host, d, 0, Seq::empty());
                    match values {
                        Err(e) => (Err(e), h1),
                        Ok(vs) => {
                            let (callee, h2) = resolve_spec(function, ctx, h1, d);
                            match callee {
                                Err(e) => (Err(e), h2),
                                Ok(ValueView::Func(f)) => {
                                    let (result, h3) = call_spec(f, vs, h2, d);
                                    match result {
                                        Ok(v) => (Ok(v), h3),
                                        Err(e) => (Err(located(e, node.location)), h3),
                                    }
                                },
                                Ok(_) => (Err(not_callable(node.location)), h2),
                            }
                        },
                    }
                },
            },
        }
    }
}

/// The values of the nodes from `from` on, behind `acc`, resolved from
/// left to right; the first error ends it.
pub open spec fn resolve_all_spec(
    nodes: Seq<NodeView>,
    ctx: ContextView,
    host: HostView,
    depth: nat,
    from: int,
    acc: Seq<ValueView>,
) -> (Result<Seq<ValueView>, ErrorView>, HostView)
    decreases depth, 1nat, nodes.len() - from,
{
    if from < 0 || from >= nodes.len() {
        (Ok(acc), host)
    } else {
        let (value, h1) = resolve_spec(nodes[from], ctx, host, depth);
        match value {
            Err(e) => (Err(e), h1),
            Ok(v) => resolve_all_spec(nodes, ctx, h1, depth, from + 1, acc.push(v)),
        }
    }
}

/// The map of the entries from `from` on, put into `acc` in the order in
/// which they are written. Of each entry the key is resolved first and has
/// to be a string, then the value. Of two entries with one key the later
/// one stays.
pub open spec fn resolve_entries_spec(
    entries: Seq<(NodeView, NodeView)>,
    ctx: ContextView,
    host: HostView,
    depth: nat,
    from: int,
    acc: EntriesView,
    location: Option<LocationView>,
) -> Step
    decreases depth, 1nat, entries.len() - from,
{
    if from < 0 || from >= entries.len() {
        (Ok(ValueView::HashMap(acc)), host)
    } else {
        let (key, h1) = resolve_spec(entries[from].0, ctx, host, depth);
        match key {
            Err(e) => (Err(e), h1),
            Ok(ValueView::String(k)) => {
                let (value, h2) = resolve_spec(entries[from].1, ctx, h1, depth);
                match value {
                    Err(e) => (Err(e), h2),
                    Ok(v) => resolve_entries_spec(
                        entries,
                        ctx,
                        h2,
                        depth,
                        from + 1,
                        put(acc, k, v),
                        location,
                    ),
                }
            },
            Ok(other) => (Err(bad_key(other, location)), h1),
        }
    }
}

/// What calling `f` with `args` comes to, with `depth` nested resolutions
/// and calls allowed.
pub open spec fn call_spec(f: FuncView, args: Seq<ValueView>, host: HostView, depth: nat) -> Step
    decreases depth, 0nat, 0nat,
{
    if depth == 0 {
        (Err(depth_exceeded()), host)
    } else {
        let d = (depth - 1) as nat;
        match f {
            FuncView::BuiltInFunction(b) => builtin_spec(b, args, host),
            FuncView::BuiltInMethod(m) => method_call_spec(m, args, host, d),
            FuncView::UserDefined(c) => user_call_spec(c, args, host, d),
        }
    }
}

/// What calling a closure comes to: its body, resolved in a new child of
/// the scope that the closure holds, in which the parameters are bound to
/// the arguments in order. Arguments beyond the parameters are ignored;
/// too few are an error.
pub open spec fn user_call_spec(c: ClosureView, args: Seq<ValueView>, host: HostView, depth: nat)
    -> Step
    decreases depth, 1nat, 0nat,
{
    match c.definition.argument_names {
        None => (
            Err(plain_error(ErrorKind::Internal, "the function has no list of parameters"@)),
            host,
        ),
        Some(names) => if args.len() < names.len() {
            (Err(misuse("the function was given fewer arguments than it has parameters"@)), host)
        } else {
            resolve_spec(
                c.definition.node,
                newest(host.scopes),
                with_scopes(
                    host,
                    bind_arguments(
                        with_child(host.scopes, c.context),
                        newest(host.scopes),
                        names,
                        args,
                        names.len() as int,
                    ),
                ),
                depth,
            )
        },
    }
}

/// What calling a method comes to.
pub open spec fn method_call_spec(m: MethodView, args: Seq<ValueView>, host: HostView, depth: nat)
    -> Step
    decreases depth, 3nat, 0nat,
{
    match m {
        MethodView::HashMap(e, which) => match which {
            HashmapMethod::MapEach => match only_function(args) {
                Ok(f) => map_entries_spec(e, f, host, depth, 0, Seq::empty()),
                Err(err) => (Err(err), host),
            },
            HashmapMethod::Filter => match only_function(args) {
                Ok(f) => filter_entries_spec(e, f, host, depth, 0, Seq::empty()),
                Err(err) => (Err(err), host),
            },
            HashmapMethod::Len => (crate::methods::hashmap::len_spec(e, args), host),
            HashmapMethod::Insert => (crate::methods::hashmap::insert_spec(e, args), host),
            HashmapMethod::Merge => (crate::methods::hashmap::merge_spec(e, args), host),
            HashmapMethod::Drop => (crate::methods::hashmap::drop_spec(e, args), host),
            HashmapMethod::ToList => (crate::methods::hashmap::to_list_spec(e, args), host),
        },
        MethodView::List(items, which) => match which {
            ListMethod::MapEach => match only_function(args) {
                Ok(f) => map_items_spec(items, f, host, depth, 0, Seq::empty()),
                Err(err) => (Err(err), host),
            },
            ListMethod::Filter => match only_function(args) {
                Ok(f) => filter_items_spec(items, f, host, depth, 0, Seq::empty()),
                Err(err) => (Err(err), host),
            },
            ListMethod::Fold => if args.len() != 2 {
                (
                    Err(
                        misuse(
                            "Fold requires 2 arguments (initial value, accumulation function, list or hashmap)"@,
                        ),
                    ),
                    host,
                )
            } else {
                match args[0] {
                    ValueView::Func(f) => fold_spec(items, f, host, depth, 0, args[1]),
                    other => (Err(mismatch("function"@, other)), host),
                }
            },
            ListMethod::Len => (crate::methods::list::len_spec(items, args), host),
            ListMethod::Append => (crate::methods::list::append_spec(items, args), host),
            ListMethod::Join => (crate::methods::list::join_spec(items, args), host),
            ListMethod::ToHashmap => (crate::methods::list::to_hashmap_spec(items, args), host),
        },
        MethodView::String(s, which) => match which {
            StringMethod::ParseJson => crate::methods::string::parse_spec(
                Format::Json,
                s,
                args,
                host,
            ),
            StringMethod::ParseYaml => crate::methods::string::parse_spec(
                Format::Yaml,
                s,
                args,
                host,
            ),
            StringMethod::ParseToml => crate::methods::string::parse_spec(
                Format::Toml,
                s,
                args,
                host,
            ),
            StringMethod::Trim => (crate::methods::string::trim_spec(s, args), host),
            StringMethod::Split => (crate::methods::string::split_spec(s, args), host),
            StringMethod::Lines => (crate::methods::string::lines_spec(s, args), host),
            StringMethod::Script => (crate::methods::string::script_spec(s, args), host),
            StringMethod::Oneline => (crate::methods::string::oneline_spec(s, args), host),
        },
    }
}

/// `list.map(f)`: the list of what `f` returns for each item, in order.
pub open spec fn map_items_spec(
    items: Seq<ValueView>,
    f: FuncView,
    host: HostView,
    depth: nat,
    from: int,
    acc: Seq<ValueView>,
) -> Step
    decreases depth, 1nat, items.len() - from,
{
    if from < 0 || from >= items.len() {
        (Ok(ValueView::List(acc)), host)
    } else {
        let (result, h1) = call_spec(f, seq![items[from]], host, depth);
        match result {
            Err(e) => (Err(e), h1),
            Ok(v) => map_items_spec(items, f, h1, depth, from + 1, acc.push(v)),
        }
    }
}

/// The index of an item as a number of the language.
pub open spec fn index_value(i: int) -> ValueView {
    ValueView::Number(
        Number::Int(
            if i <= i64::MAX {
                i as i64
            } else {
                i64::MAX
            },
        ),
    )
}

/// `list.filter(f)`: the items for which `f`, given the index and the
/// item, returns `true`, in order.
pub open spec fn filter_items_spec(
    items: Seq<ValueView>,
    f: FuncView,
    host: HostView,
    depth: nat,
    from: int,
    acc: Seq<ValueView>,
) -> Step
    decreases depth, 1nat, items.len() - from,
{
    if from < 0 || from >= items.len() {
        (Ok(ValueView::List(acc)), host)
    } else {
        let (result, h1) = call_spec(f, seq![index_value(from), items[from]], host, depth);
        match result {
            Err(e) => (Err(e), h1),
            Ok(ValueView::Bool(keep)) => filter_items_spec(
                items,
                f,
                h1,
                depth,
                from + 1,
                if keep {
                    acc.push(items[from])
                } else {
                    acc
                },
            ),
            Ok(other) => (Err(mismatch("bool"@, other)), h1),
        }
    }
}

/// `list.fold(f, start)`: what is left when `f` has been given what was
/// there and the next item, for each item in order, beginning with
/// `start`.
pub open spec fn fold_spec(
    items: Seq<ValueView>,
    f: FuncView,
    host: HostView,
    depth: nat,
    from: int,
    acc: ValueView,
) -> Step
    decreases depth, 1nat, items.len() - from,
{
    if from < 0 || from >= items.len() {
        (Ok(acc), host)
    } else {
        let (result, h1) = call_spec(f, seq![acc, items[from]], host, depth);
        match result {
            Err(e) => (Err(e), h1),
            Ok(v) => fold_spec(items, f, h1, depth, from + 1, v),
        }
    }
}

/// `map.map(f)`: the map of the pairs of key and value that `f`, given a
/// key and its value, returns for each entry, in ascending order of the
/// keys.
pub open spec fn map_entries_spec(
    e: EntriesView,
    f: FuncView,
    host: HostView,
    depth: nat,
    from: int,
    acc: EntriesView,
) -> Step
    decreases depth, 1nat, e.len() - from,
{
    if from < 0 || from >= e.len() {
        (Ok(ValueView::HashMap(acc)), host)
    } else {
        let (result, h1) = call_spec(f, seq![ValueView::String(e[from].0), e[from].1], host, depth);
        match result {
            Err(err) => (Err(err), h1),
            Ok(ValueView::List(pair)) => match extractor_spec(pair, 2) {
                Err(err) => (Err(err), h1),
                Ok(found) => match string_at(found, 0) {
                    Ok(key) => map_entries_spec(
                        e,
                        f,
                        h1,
                        depth,
                        from + 1,
                        put(acc, key, found[1]),
                    ),
                    Err(err) => (Err(err), h1),
                },
            },
            Ok(_) => (Err(misuse("hashmap map function must return a list of 2 values"@)), h1),
        }
    }
}

/// `map.filter(f)`: the entries for which `f`, given the key and the
/// value, returns `true`.
pub open spec fn filter_entries_spec(
    e: EntriesView,
    f: FuncView,
    host: HostView,
    depth: nat,
    from: int,
    acc: EntriesView,
) -> Step
    decreases depth, 1nat, e.len() - from,
{
    if from < 0 || from >= e.len() {
        (Ok(ValueView::HashMap(acc)), host)
    } else {
        let (result, h1) = call_spec(f, seq![ValueView::String(e[from].0), e[from].1], host, depth);
        match result {
            Err(err) => (Err(err), h1),
            Ok(ValueView::Bool(keep)) => filter_entries_spec(
                e,
                f,
                h1,
                depth,
                from + 1,
                if keep {
                    put(acc, e[from].0, e[from].1)
                } else {
                    acc
                },
            ),
            Ok(other) => (Err(mismatch("bool"@, other)), h1),
        }
    }
}

pub fn depth_error() -> (r: ErrorWithLocation)
    ensures
        r@ == depth_exceeded(),
{
    ErrorWithLocation::new(ErrorKind::DepthExceeded, "the expression nests deeper than allowed")
}

/// Calls a builtin function.
pub fn call_builtin(b: Builtin, args: &Vec<Value>, host: &mut Host) -> (r: Result<Value, Error>)
    ensures
        (outcome(r), final(host)@) == builtin_spec(b, values_view(args@), old(host)@),
{
    match b {
        Builtin::ReadFile => read_file(args, host),
        Builtin::GetEnv => getenv(args, host),
        Builtin::Concat => concat(args),
        Builtin::Shell => shell(args, host),
        Builtin::Handlebars => handlebars_template(args, host),
        Builtin::ConcatStrings => concat_strings(args, host),
        Builtin::Index => index(args),
        Builtin::And => and(args),
        Builtin::Or => or(args),
        Builtin::Not => not(args),
        Builtin::Add => apply_math(BinaryOperator::Add, args, host),
        Builtin::Sub => apply_math(BinaryOperator::Sub, args, host),
        Builtin::Mul => apply_math(BinaryOperator::Mul, args, host),
        Builtin::Div => apply_math(BinaryOperator::Div, args, host),
        Builtin::Equal => compare(ComparisonOperator::Equal, args),
        Builtin::NotEqual => compare(ComparisonOperator::NotEqual, args),
        Builtin::Greater => compare(ComparisonOperator::Greater, args),
        Builtin::GreaterOrEqual => compare(ComparisonOperator::GreaterOrEqual, args),
        Builtin::Less => compare(ComparisonOperator::Less, args),
        Builtin::LessOrEqual => compare(ComparisonOperator::LessOrEqual, args),
        Builtin::Conditional => conditional(args),
    }
}

/// The function that a method takes as its one argument.
fn extract_only_function(args: &Vec<Value>) -> (r: Result<Func, Error>)
    ensures
        match r {
            Ok(f) => only_function(values_view(args@)) == Ok::<FuncView, ErrorView>(f@),
            Err(e) => only_function(values_view(args@)) == Err::<FuncView, ErrorView>(e@),
        },
{
    match ValueExtractor::new(args, 1) {
        Ok(extractor) => extractor.extract_func(0),
        Err(e) => Err(e),
    }
}

impl CodeNode {
    /// An error with this message that points at the node.
    fn err(&self, kind: ErrorKind, message: String) -> (r: ErrorWithLocation)
        ensures
            r@ == (ErrorView { location: self@.location, message: message@, kind }),
    {
        ErrorWithLocation {
            location: crate::error::clone_location(self.location()),
            message,
            kind,
        }
    }

    /// The error, pointing at the node unless it points somewhere already.
    fn add_location(&self, e: ErrorWithLocation) -> (r: ErrorWithLocation)
        ensures
            r@ == located(e@, self@.location),
    {
        e.at(self.location())
    }

    /// Resolves the node in the scope `ctx`, going at most `depth` nested
    /// resolutions and calls deep.
    pub fn resolve(&self, ctx: &Context, host: &mut Host, depth: usize) -> (r: Result<
        Value,
        ErrorWithLocation,
    >)
        ensures
            (outcome(r), final(host)@) == resolve_spec(self@, ctx@, old(host)@, depth as nat),
        decreases depth, 0nat, 0nat,
    {
        match self.content() {
            NodeContent::Resolved(v) => {
                return Ok(v.clone());
            },
            NodeContent::FunctionDefinition(definition) => {
                return Ok(
                    Func::new_user_defined(*ctx, crate::value::share(definition)).into_value(),
                );
            },
            _ => {},
        }
        if depth == 0 {
            return Err(self.add_location(depth_error()));
        }
        let d: usize = depth - 1;
        match self.content() {
            NodeContent::Resolved(v) => Ok(v.clone()),
            NodeContent::FunctionInputArgument(name) => {
                match ctx.get_value(&host.scopes, name.as_str()) {
                    Some(target) => target.resolve(ctx, host, d),
                    None => {
                        let message = String::from_str("Function argument '").concat(
                            name.as_str(),
                        ).concat("' is not bound");
                        Err(self.err(ErrorKind::UndefinedVariable, message))
                    },
                }
            },
            NodeContent::FunctionDefinition(definition) => {
                Ok(Func::new_user_defined(*ctx, crate::value::share(definition)).into_value())
            },
            NodeContent::Conditional { condition, then_branch, else_branch } => {
                match condition.resolve(ctx, host, d) {
                    Err(e) => Err(e),
                    Ok(Value::Bool(b)) => {
                        if b {
                            then_branch.resolve(ctx, host, d)
                        } else {
                            else_branch.resolve(ctx, host, d)
                        }
                    },
                    Ok(other) => Err(mismatch_error("bool", &other)),
                }
            },
            NodeContent::List(items) => {
                match resolve_all(items, ctx, host, d) {
                    Ok(values) => Ok(Value::List(Arc::new(values))),
                    Err(e) => Err(e),
                }
            },
            NodeContent::HashMap(entries) => resolve_entries(self, entries, ctx, host, d),
            NodeContent::FunctionCall { name: _, function, arguments } => {
                match arguments {
                    None => function.resolve(ctx, host, d),
                    Some(args) => {
                        match resolve_all(args, ctx, host, d) {
                            Err(e) => Err(e),
                            Ok(values) => {
                                match function.resolve(ctx, host, d) {
                                    Err(e) => Err(e),
                                    Ok(Value::Func(f)) => {
                                        match f.call(&values, host, d) {
                                            Ok(v) => Ok(v),
                                            Err(e) => Err(self.add_location(e)),
                                        }
                                    },
                                    Ok(_) => Err(
                                        self.err(
                                            ErrorKind::NotCallable,
                                            String::from_str("value is not a function"),
                                        ),
                                    ),
                                }
                            },
                        }
                    },
                }
            },
        }
    }
}

/// Resolves the nodes from left to right.
#[verifier::loop_isolation(false)]
fn resolve_all(nodes: &Vec<CodeNode>, ctx: &Context, host: &mut Host, depth: usize) -> (r: Result<
    Vec<Value>,
    Error,
>)
    ensures
        match r {
            Ok(values) => resolve_all_spec(
                nodes_view(nodes@),
                ctx@,
                old(host)@,
                depth as nat,
                0,
                Seq::empty(),
            ) == (Ok::<Seq<ValueView>, ErrorView>(values_view(values@)), final(host)@),
            Err(e) => resolve_all_spec(
                nodes_view(nodes@),
                ctx@,
                old(host)@,
                depth as nat,
                0,
                Seq::empty(),
            ) == (Err::<Seq<ValueView>, ErrorView>(e@), final(host)@),
        },
    decreases depth, 1nat, 0nat,
{
    let mut out: Vec<Value> = Vec::new();
    let mut i: usize = 0;
    assert(values_view(out@) =~= Seq::<ValueView>::empty());
    while i < nodes.len()
        invariant
            i <= nodes.len(),
            resolve_all_spec(nodes_view(nodes@), ctx@, old(host)@, depth as nat, 0, Seq::empty())
                == resolve_all_spec(
                nodes_view(nodes@),
                ctx@,
                host@,
                depth as nat,
                i as int,
                values_view(out@),
            ),
        decreases nodes.len() - i,
    {
        assert(nodes_view(nodes@)[i as int] == nodes@[i as int]@);
        match nodes[i].resolve(ctx, host, depth) {
            Err(e) => {
                return Err(e);
            },
            Ok(v) => {
                proof {
                    lemma_values_view_push(out@, v);
                }
                out.push(v);
            },
        }
        i = i + 1;
    }
    Ok(out)
}

/// Resolves the entries of a map in the order in which they are written.
#[verifier::loop_isolation(false)]
fn resolve_entries(
    node: &CodeNode,
    entries: &Vec<HmEntry>,
    ctx: &Context,
    host: &mut Host,
    depth: usize,
) -> (r: Result<Value, Error>)
    ensures
        (outcome(r), final(host)@) == resolve_entries_spec(
            pairs_view(entries@),
            ctx@,
            old(host)@,
            depth as nat,
            0,
            Seq::empty(),
            node@.location,
        ),
    decreases depth, 1nat, 0nat,
{
    let mut out: Vec<(ValueString, Value)> = Vec::new();
    let mut i: usize = 0;
    assert(entries_view(out@) =~= Seq::<(Seq<char>, ValueView)>::empty());
    while i < entries.len()
        invariant
            i <= entries.len(),
            crate::value::keys_ascend(out@),
            resolve_entries_spec(
                pairs_view(entries@),
                ctx@,
                old(host)@,
                depth as nat,
                0,
                Seq::empty(),
                node@.location,
            ) == resolve_entries_spec(
                pairs_view(entries@),
                ctx@,
                host@,
                depth as nat,
                i as int,
                entries_view(out@),
                node@.location,
            ),
        decreases entries.len() - i,
    {
        assert(pairs_view(entries@)[i as int] == (
            entries@[i as int].key@,
            entries@[i as int].value@,
        ));
        match entries[i].key.resolve(ctx, host, depth) {
            Err(e) => {
                return Err(e);
            },
            Ok(Value::String(key)) => {
                match entries[i].value.resolve(ctx, host, depth) {
                    Err(e) => {
                        return Err(e);
                    },
                    Ok(v) => {
                        put_entry(&mut out, key, v);
                    },
                }
            },
            Ok(other) => {
                let message = crate::error::TypeMismatch::new("string", other.kind()).to_text();
                return Err(node.err(ErrorKind::TypeMismatch, message));
            },
        }
        i = i + 1;
    }
    Ok(Value::HashMap(crate::value::Dict::of_ascending(out)))
}

impl Func {
    /// Calls the function with the arguments, going at most `depth` nested
    /// resolutions and calls deep.
    pub fn call(&self, args: &Vec<Value>, host: &mut Host, depth: usize) -> (r: Result<
        Value,
        ErrorWithLocation,
    >)
        ensures
            (outcome(r), final(host)@) == call_spec(
                self@,
                values_view(args@),
                old(host)@,
                depth as nat,
            ),
        decreases depth, 0nat, 0nat,
    {
        if depth == 0 {
            return Err(depth_error());
        }
        let d: usize = depth - 1;
        match self {
            Func::BuiltInFunction(b) => call_builtin(*b, args, host),
            Func::BuiltInMethod(m) => m.call(args, host, d),
            Func::UserDefined(u) => u.call(args, host, d),
        }
    }
}

impl UserDefinedFunction {
    /// Calls the closure.
    #[verifier::loop_isolation(false)]
    pub fn call(&self, args: &Vec<Value>, host: &mut Host, depth: usize) -> (r: Result<
        Value,
        ErrorWithLocation,
    >)
        ensures
            (outcome(r), final(host)@) == user_call_spec(
                self@,
                values_view(args@),
                old(host)@,
                depth as nat,
            ),
        decreases depth, 1nat, 0nat,
    {
        let names = match &self.definition.argument_names {
            None => {
                return Err(
                    ErrorWithLocation::new(
                        ErrorKind::Internal,
                        "the function has no list of parameters",
                    ),
                );
            },
            Some(names) => names,
        };
        assert(self@.definition.argument_names == Some(names_view(names@)));
        if args.len() < names.len() {
            return Err(
                misuse_error("the function was given fewer arguments than it has parameters"),
            );
        }
        let scope = self.context.new_child(&mut host.scopes);
        let mut i: usize = 0;
        while i < names.len()
            invariant
                i <= names.len(),
                scope == newest(old(host)@.scopes),
                host@ == with_scopes(
                    old(host)@,
                    bind_arguments(
                        with_child(old(host)@.scopes, self.context),
                        scope,
                        names_view(names@),
                        values_view(args@),
                        i as int,
                    ),
                ),
            decreases names.len() - i,
        {
            let node = CodeNode::new(NodeContent::Resolved(args[i].clone()), None);
            assert(node@ == resolved(args@[i as int]@));
            scope.bind(&mut host.scopes, names[i].clone(), node);
            i = i + 1;
        }
        self.definition.node.resolve(&scope, host, depth)
    }
}

impl Method {
    /// Calls the method on the value that it was looked up on.
    pub fn call(&self, args: &Vec<Value>, host: &mut Host, depth: usize) -> (r: Result<
        Value,
        ErrorWithLocation,
    >)
        ensures
            (outcome(r), final(host)@) == method_call_spec(
                self@,
                values_view(args@),
                old(host)@,
                depth as nat,
            ),
        decreases depth, 3nat, 0nat,
    {
        match self {
            Method::HashMap(hm, which) => match which {
                HashmapMethod::MapEach => match extract_only_function(args) {
                    Ok(f) => map_entries(hm, &f, host, depth),
                    Err(e) => Err(e),
                },
                HashmapMethod::Filter => match extract_only_function(args) {
                    Ok(f) => filter_entries(hm, &f, host, depth),
                    Err(e) => Err(e),
                },
                HashmapMethod::Len => crate::methods::hashmap::len(hm, args),
                HashmapMethod::Insert => crate::methods::hashmap::insert(hm, args),
                HashmapMethod::Merge => crate::methods::hashmap::merge(hm, args),
                HashmapMethod::Drop => crate::methods::hashmap::drop(hm, args),
                HashmapMethod::ToList => crate::methods::hashmap::to_list(hm, args),
            },
            Method::List(list, which) => match which {
                ListMethod::MapEach => match extract_only_function(args) {
                    Ok(f) => map_items(list, &f, host, depth),
                    Err(e) => Err(e),
                },
                ListMethod::Filter => match extract_only_function(args) {
                    Ok(f) => filter_items(list, &f, host, depth),
                    Err(e) => Err(e),
                },
                ListMethod::Fold => {
                    if args.len() != 2 {
                        return Err(
                            misuse_error(
                                "Fold requires 2 arguments (initial value, accumulation function, list or hashmap)",
                            ),
                        );
                    }
                    match &args[0] {
                        Value::Func(f) => fold(list, f, &args[1], host, depth),
                        other => Err(mismatch_error("function", other)),
                    }
                },
                ListMethod::Len => crate::methods::list::len(list, args),
                ListMethod::Append => crate::methods::list::append(list, args),
                ListMethod::Join => crate::methods::list::join(list, args),
                ListMethod::ToHashmap => crate::methods::list::to_hashmap(list, args),
            },
            Method::String(string, which) => match which {
                StringMethod::ParseJson => crate::methods::string::parse_text(
                    Format::Json,
                    string.as_str(),
                    args,
                    host,
                ),
                StringMethod::ParseYaml => crate::methods::string::parse_text(
                    Format::Yaml,
                    string.as_str(),
                    args,
                    host,
                ),
                StringMethod::ParseToml => crate::methods::string::parse_text(
                    Format::Toml,
                    string.as_str(),
                    args,
                    host,
                ),
                StringMethod::Trim => crate::methods::string::trim_string(string.as_str(), args),
                StringMethod::Split => crate::methods::string::split_string(
                    string.as_str(),
                    args,
                ),
                StringMethod::Lines => crate::methods::string::lines_string(
                    string.as_str(),
                    args,
                ),
                StringMethod::Script => crate::methods::string::script(string.as_str(), args),
                StringMethod::Oneline => crate::methods::string::oneline(string.as_str(), args),
            },
        }
    }
}

/// `list.map(f)`.
#[verifier::loop_isolation(false)]
fn map_items(list: &Vec<Value>, f: &Func, host: &mut Host, depth: usize) -> (r: Result<
    Value,
    Error,
>)
    ensures
        (outcome(r), final(host)@) == map_items_spec(
            values_view(list@),
            f@,
            old(host)@,
            depth as nat,
            0,
            Seq::empty(),
        ),
    decreases depth, 1nat, 0nat,
{
    let mut out: Vec<Value> = Vec::new();
    let mut i: usize = 0;
    assert(values_view(out@) =~= Seq::<ValueView>::empty());
    while i < list.len()
        invariant
            i <= list.len(),
            map_items_spec(values_view(list@), f@, old(host)@, depth as nat, 0, Seq::empty())
                == map_items_spec(
                values_view(list@),
                f@,
                host@,
                depth as nat,
                i as int,
                values_view(out@),
            ),
        decreases list.len() - i,
    {
        let mut call_args: Vec<Value> = Vec::new();
        call_args.push(list[i].clone());
        assert(values_view(call_args@) =~= seq![values_view(list@)[i as int]]);
        match f.call(&call_args, host, depth) {
            Err(e) => {
                return Err(e);
            },
            Ok(v) => {
                proof {
                    lemma_values_view_push(out@, v);
                }
                out.push(v);
            },
        }
        i = i + 1;
    }
    Ok(Value::List(Arc::new(out)))
}

/// `list.filter(f)`.
#[verifier::loop_isolation(false)]
fn filter_items(list: &Vec<Value>, f: &Func, host: &mut Host, depth: usize) -> (r: Result<
    Value,
    Error,
>)
    ensures
        (outcome(r), final(host)@) == filter_items_spec(
            values_view(list@),
            f@,
            old(host)@,
            depth as nat,
            0,
            Seq::empty(),
        ),
    decreases depth, 1nat, 0nat,
{
    let mut out: Vec<Value> = Vec::new();
    let mut i: usize = 0;
    assert(values_view(out@) =~= Seq::<ValueView>::empty());
    while i < list.len()
        invariant
            i <= list.len(),
            filter_items_spec(values_view(list@), f@, old(host)@, depth as nat, 0, Seq::empty())
                == filter_items_spec(
                values_view(list@),
                f@,
                host@,
                depth as nat,
                i as int,
                values_view(out@),
            ),
        decreases list.len() - i,
    {
        let mut call_args: Vec<Value> = Vec::new();
        call_args.push(Value::Number(Number::from_len(i)));
        call_args.push(list[i].clone());
        assert(values_view(call_args@) =~= seq![
            index_value(i as int),
            values_view(list@)[i as int],
        ]);
        match f.call(&call_args, host, depth) {
            Err(e) => {
                return Err(e);
            },
            Ok(Value::Bool(keep)) => {
                if keep {
                    proof {
                        lemma_values_view_push(out@, list@[i as int]);
                    }
                    out.push(list[i].clone());
                }
            },
            Ok(other) => {
                return Err(mismatch_error("bool", &other));
            },
        }
        i = i + 1;
    }
    Ok(Value::List(Arc::new(out)))
}

/// `list.fold(f, start)`.
#[verifier::loop_isolation(false)]
fn fold(list: &Vec<Value>, f: &Func, start: &Value, host: &mut Host, depth: usize) -> (r: Result<
    Value,
    Error,
>)
    ensures
        (outcome(r), final(host)@) == fold_spec(
            values_view(list@),
            f@,
            old(host)@,
            depth as nat,
            0,
            start@,
        ),
    decreases depth, 1nat, 0nat,
{
    let mut out = start.clone();
    let mut i: usize = 0;
    while i < list.len()
        invariant
            i <= list.len(),
            fold_spec(values_view(list@), f@, old(host)@, depth as nat, 0, start@) == fold_spec(
                values_view(list@),
                f@,
                host@,
                depth as nat,
                i as int,
                out@,
            ),
        decreases list.len() - i,
    {
        let mut call_args: Vec<Value> = Vec::new();
        call_args.push(out);
        call_args.push(list[i].clone());
        assert(values_view(call_args@) =~= seq![out@, values_view(list@)[i as int]]);
        match f.call(&call_args, host, depth) {
            Err(e) => {
                return Err(e);
            },
            Ok(v) => {
                out = v;
            },
        }
        i = i + 1;
    }
    Ok(out)
}

/// `map.map(f)`.
#[verifier::loop_isolation(false)]
fn map_entries(map: &crate::value::Dict, f: &Func, host: &mut Host, depth: usize) -> (r: Result<
    Value,
    Error,
>)
    ensures
        (outcome(r), final(host)@) == map_entries_spec(
            entries_view(map.items()),
            f@,
            old(host)@,
            depth as nat,
            0,
            Seq::empty(),
        ),
    decreases depth, 1nat, 0nat,
{
    let hm = map.entries();
    let mut out: Vec<(ValueString, Value)> = Vec::new();
    let mut i: usize = 0;
    assert(entries_view(out@) =~= Seq::<(Seq<char>, ValueView)>::empty());
    while i < hm.len()
        invariant
            i <= hm.len(),
            crate::value::keys_ascend(out@),
            map_entries_spec(entries_view(hm@), f@, old(host)@, depth as nat, 0, Seq::empty())
                == map_entries_spec(
                entries_view(hm@),
                f@,
                host@,
                depth as nat,
                i as int,
                entries_view(out@),
            ),
        decreases hm.len() - i,
    {
        let mut call_args: Vec<Value> = Vec::new();
        call_args.push(Value::String(hm[i].0.clone()));
        call_args.push(hm[i].1.clone());
        assert(values_view(call_args@) =~= seq![
            ValueView::String(entries_view(hm@)[i as int].0),
            entries_view(hm@)[i as int].1,
        ]);
        match f.call(&call_args, host, depth) {
            Err(e) => {
                return Err(e);
            },
            Ok(Value::List(pair)) => {
                let extractor = match ValueExtractor::new(&pair, 2) {
                    Ok(x) => x,
                    Err(e) => {
                        return Err(e);
                    },
                };
                proof {
                    let pv = values_view(pair@);
                    assert(pv[0] == pair@[0]@);
                    assert(pv[1] == pair@[1]@);
                }
                match extractor.extract_string(0) {
                    Ok(key) => {
                        put_entry(&mut out, key.clone(), pair[1].clone());
                    },
                    Err(e) => {
                        return Err(e);
                    },
                }
            },
            Ok(_) => {
                return Err(misuse_error("hashmap map function must return a list of 2 values"));
            },
        }
        i = i + 1;
    }
    Ok(Value::HashMap(crate::value::Dict::of_ascending(out)))
}

/// `map.filter(f)`.
#[verifier::loop_isolation(false)]
fn filter_entries(map: &crate::value::Dict, f: &Func, host: &mut Host, depth: usize) -> (r:
    Result<Value, Error>)
    ensures
        (outcome(r), final(host)@) == filter_entries_spec(
            entries_view(map.items()),
            f@,
            old(host)@,
            depth as nat,
            0,
            Seq::empty(),
        ),
    decreases depth, 1nat, 0nat,
{
    let hm = map.entries();
    let mut out: Vec<(ValueString, Value)> = Vec::new();
    let mut i: usize = 0;
    assert(entries_view(out@) =~= Seq::<(Seq<char>, ValueView)>::empty());
    while i < hm.len()
        invariant
            i <= hm.len(),
            crate::value::keys_ascend(out@),
            filter_entries_spec(entries_view(hm@), f@, old(host)@, depth as nat, 0, Seq::empty())
                == filter_entries_spec(
                entries_view(hm@),
                f@,
                host@,
                depth as nat,
                i as int,
                entries_view(out@),
            ),
        decreases hm.len() - i,
    {
        let mut call_args: Vec<Value> = Vec::new();
        call_args.push(Value::String(hm[i].0.clone()));
        call_args.push(hm[i].1.clone());
        assert(values_view(call_args@) =~= seq![
            ValueView::String(entries_view(hm@)[i as int].0),
            entries_view(hm@)[i as int].1,
        ]);
        match f.call(&call_args, host, depth) {
            Err(e) => {
                return Err(e);
            },
            Ok(Value::Bool(keep)) => {
                if keep {
                    put_entry(&mut out, hm[i].0.clone(), hm[i].1.clone());
                }
            },
            Ok(other) => {
                return Err(mismatch_error("bool", &other));
            },
        }
        i = i + 1;
    }
    Ok(Value::HashMap(crate::value::Dict::of_ascending(out)))
}

/// What compiling and resolving an expression comes to: it is compiled
/// in a new scope with nothing imported yet, and what it compiles to is
/// resolved in another new scope.
pub open spec fn run_spec(expr: crate::ast::ExprView, host: HostView, depth: nat) -> Step {
    let (node, cache, h1) = crate::tree_builder::build_spec(
        expr,
        newest(host.scopes),
        Seq::empty(),
        with_scopes(host, with_root(host.scopes)),
        depth,
    );
    match node {
        Err(e) => (Err(e), h1),
        Ok(n) => resolve_spec(n, newest(h1.scopes), with_scopes(h1, with_root(h1.scopes)), depth),
    }
}

/// Compiles and resolves an expression.
pub fn resolve(expr: &crate::ast::ExprWithLocation, host: &mut Host, depth: usize) -> (r: Result<
    Value,
    Error,
>)
    ensures
        (outcome(r), final(host)@) == run_spec(expr@, old(host)@, depth as nat),
{
    let mut cache = crate::context::Bindings::empty();
    let root = Context::empty(&mut host.scopes);
    let node = match crate::tree_builder::NodeTreeBuilder.build_tree(
        &root,
        expr,
        &mut cache,
        host,
        depth,
    ) {
        Ok(node) => node,
        Err(e) => {
            return Err(e);
        },
    };
    let scope = Context::empty(&mut host.scopes);
    node.resolve(&scope, host, depth)
}

} // verus!
