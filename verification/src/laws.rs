//! What holds of the language, whatever the program.
use crate::ast::BinaryOperator;
use crate::context::{lookup, BindingsView, ContextView};
use crate::error::{ErrorKind, LocationView};
use crate::host::{ask_spec, Answer, HostView, RequestView};
use crate::methods::hashmap::{ascending, as_pairs, ordered, to_list_spec};
use crate::node::{node_of, ContentView, DefinitionView, NodeView};
use crate::number::Number;
use crate::operators::{comparison_spec, math_spec};
use crate::resolver::{closure, resolve_spec};
use crate::tree_builder::import_spec;
use crate::value::{kind_name, value_equal, EntriesView, ValueView};
use vstd::prelude::*;

verus! {

/// Resolving a value that is known already yields that value, in every
/// scope, at every depth and whatever the host has answered, and asks the
/// host nothing.
pub proof fn law_resolved_yields_its_value(
    v: ValueView,
    location: Option<LocationView>,
    ctx: ContextView,
    host: HostView,
    depth: nat,
)
    ensures
        resolve_spec(node_of(ContentView::Resolved(v), location), ctx, host, depth) == (
            Ok::<ValueView, crate::error::ErrorView>(v),
            host,
        ),
{
}

/// Resolving a function definition yields a closure that holds the scope
/// in which the definition was resolved, at every depth. The body is not
/// resolved, and the host is asked nothing.
pub proof fn law_closure_holds_its_scope(
    definition: DefinitionView,
    location: Option<LocationView>,
    ctx: ContextView,
    host: HostView,
    depth: nat,
)
    ensures
        resolve_spec(
            node_of(ContentView::FunctionDefinition(definition), location),
            ctx,
            host,
            depth,
        ) == (Ok::<ValueView, crate::error::ErrorView>(closure(ctx, definition)), host),
{
}

/// Of a conditional whose condition is known, the branch that the
/// condition selects decides the result, and the other branch has no part
/// in it: with any other node in its place the result is the same.
pub proof fn law_conditional_takes_one_branch(
    test: bool,
    taken: NodeView,
    other: NodeView,
    another: NodeView,
    location: Option<LocationView>,
    ctx: ContextView,
    host: HostView,
    depth: nat,
)
    requires
        depth > 1,
    ensures
        resolve_spec(
            node_of(
                ContentView::Conditional {
                    condition: node_of(ContentView::Resolved(ValueView::Bool(test)), None),
                    then_branch: if test {
                        taken
                    } else {
                        other
                    },
                    else_branch: if test {
                        other
                    } else {
                        taken
                    },
                },
                location,
            ),
            ctx,
            host,
            depth,
        ) == resolve_spec(taken, ctx, host, (depth - 1) as nat),
        resolve_spec(
            node_of(
                ContentView::Conditional {
                    condition: node_of(ContentView::Resolved(ValueView::Bool(test)), None),
                    then_branch: if test {
                        taken
                    } else {
                        another
                    },
                    else_branch: if test {
                        another
                    } else {
                        taken
                    },
                },
                location,
            ),
            ctx,
            host,
            depth,
        ) == resolve_spec(taken, ctx, host, (depth - 1) as nat),
{
    let d = (depth - 1) as nat;
    let condition = node_of(ContentView::Resolved(ValueView::Bool(test)), None);
    assert(resolve_spec(condition, ctx, host, d) == (
        Ok::<ValueView, crate::error::ErrorView>(ValueView::Bool(test)),
        host,
    ));
}

/// Compiling an import of a file that the cache holds yields the node of
/// the cache, and asks the host for nothing but the file that the path
/// names: the file is not read again, whatever path names it and whatever
/// scope the import stands in.
pub proof fn law_import_is_memoized(
    path: Seq<char>,
    location: LocationView,
    ctx: ContextView,
    cache: BindingsView,
    host: HostView,
    depth: nat,
    file: String,
    node: NodeView,
)
    requires
        depth > 0,
        host.pending is None,
        host.next < host.answers.len(),
        host.answers[host.next as int] == Answer::Text(file),
        lookup(cache, file@) == Some(node),
    ensures
        crate::tree_builder::build_spec(
            crate::ast::ExprView {
                inner: Box::new(crate::ast::ExprKind::Import(path)),
                location,
            },
            ctx,
            cache,
            host,
            depth,
        ) == (
            Ok::<NodeView, crate::error::ErrorView>(node),
            cache,
            HostView {
                answers: host.answers,
                next: (host.next + 1) as usize,
                pending: None,
                scopes: host.scopes,
            },
        ),
{
    assert(import_spec(path, location, cache, host, (depth - 1) as nat) == (
        Ok::<NodeView, crate::error::ErrorView>(node),
        cache,
        HostView {
            answers: host.answers,
            next: (host.next + 1) as usize,
            pending: None,
            scopes: host.scopes,
        },
    ));
}

/// An import that compiles a file leaves the node in the cache under the
/// canonical path of the file, where the next import of the file finds it.
pub proof fn law_import_registers_its_node(
    path: Seq<char>,
    location: LocationView,
    cache: BindingsView,
    host: HostView,
    depth: nat,
    file: String,
)
    requires
        host.pending is None,
        host.next < host.answers.len(),
        host.answers[host.next as int] == Answer::Text(file),
        lookup(cache, file@) is None,
        import_spec(path, location, cache, host, depth).0 is Ok,
    ensures
        lookup(import_spec(path, location, cache, host, depth).1, file@) == Some(
            import_spec(path, location, cache, host, depth).0->Ok_0,
        ),
{
    let built = import_spec(path, location, cache, host, depth);
    let node = built.0->Ok_0;
    let (answer, h1) = ask_spec(host, RequestView::Locate(location.source, path));
    let (loaded, h2) = ask_spec(h1, RequestView::Load(file@));
    match loaded {
        Some(k) => match host.answers[k] {
            Answer::Text(text) => match crate::parser::parse_unit_spec(
                crate::source::SourceView { name: file@, text: text@ },
                crate::parser::DEFAULT_DEPTH as nat,
            ) {
                Ok(module) => {
                    let (inner, c3, h3) = crate::tree_builder::build_spec(
                        module,
                        crate::context::newest(h2.scopes),
                        cache,
                        crate::host::with_scopes(h2, crate::context::with_root(h2.scopes)),
                        depth,
                    );
                    crate::context::law_latest_binding_wins(c3, file@, node, file@);
                },
                Err(_) => {},
            },
            _ => {},
        },
        None => {},
    }
}

/// Arithmetic converts nothing: an operator on two values that are not two
/// integers and not two floating-point numbers is a type mismatch, and
/// asks the host nothing.
pub proof fn law_arithmetic_does_not_coerce(
    op: BinaryOperator,
    a: ValueView,
    b: ValueView,
    host: HostView,
)
    requires
        !(a matches ValueView::Number(Number::Int(_)) && b matches ValueView::Number(
            Number::Int(_),
        )),
        !(a matches ValueView::Number(Number::Float(_)) && b matches ValueView::Number(
            Number::Float(_),
        )),
    ensures
        math_spec(op, seq![a, b], host).0 matches Err(e) && e.kind == ErrorKind::TypeMismatch,
        math_spec(op, seq![a, b], host).1 == host,
{
}

/// The list that `to_list` makes of a map holds one pair for each key of
/// the map, and the pairs stand in ascending order of their keys.
pub proof fn law_to_list_is_sorted(e: EntriesView)
    ensures
        to_list_spec(e, Seq::empty()) == Ok::<ValueView, crate::error::ErrorView>(
            ValueView::List(as_pairs(ordered(e))),
        ),
        ascending(ordered(e)),
{
    lemma_ordered_ascending(e, 0, Seq::empty());
}

/// Putting entries one after the other into a map whose keys ascend gives
/// a map whose keys ascend.
pub proof fn lemma_ordered_ascending(e: EntriesView, from: int, acc: EntriesView)
    requires
        ascending(acc),
        0 <= from,
    ensures
        ascending(crate::methods::hashmap::ordered_from(e, from, acc)),
    decreases e.len() - from,
{
    if from < e.len() {
        crate::methods::hashmap::lemma_put_ascending(acc, e[from].0, e[from].1);
        lemma_ordered_ascending(
            e,
            from + 1,
            crate::methods::hashmap::put(acc, e[from].0, e[from].1),
        );
    }
}

/// Equality is defined for every two values: comparing for equality is
/// never an error. Values of different kinds are unequal, and a function
/// is unequal to everything, itself included.
pub proof fn law_equality_is_total(a: ValueView, b: ValueView)
    ensures
        comparison_spec(crate::ast::ComparisonOperator::Equal, seq![a, b]) == Ok::<
            ValueView,
            crate::error::ErrorView,
        >(ValueView::Bool(value_equal(a, b))),
        kind_name(a) != kind_name(b) ==> !value_equal(a, b),
        a is Func || b is Func ==> !value_equal(a, b),
{
    if kind_name(a) != kind_name(b) {
        crate::operators::lemma_kinds_differ(a, b);
    }
}

/// The first entry with a key, from `from` on, is the one that
/// `key_index_from` finds.
pub proof fn lemma_first_key(e: EntriesView, key: Seq<char>, from: int, i: int)
    requires
        0 <= from <= i < e.len(),
        e[i].0 == key,
        forall|j: int| from <= j < i ==> e[j].0 != key,
    ensures
        crate::methods::hashmap::key_index_from(e, key, from) == Some(i),
    decreases i - from,
{
    if from < i {
        lemma_first_key(e, key, from + 1, i);
    }
}

/// Where no entry from `from` on has a key, `key_index_from` finds none.
pub proof fn lemma_no_key(e: EntriesView, key: Seq<char>, from: int)
    requires
        0 <= from,
        forall|j: int| from <= j < e.len() ==> e[j].0 != key,
    ensures
        crate::methods::hashmap::key_index_from(e, key, from) is None,
    decreases e.len() - from,
{
    if from < e.len() {
        lemma_no_key(e, key, from + 1);
    }
}

/// A map holds under a key what was put there last, and putting a value
/// under one key changes nothing under any other key.
pub proof fn law_put_then_get(e: EntriesView, key: Seq<char>, value: ValueView, other: Seq<char>)
    ensures
        crate::methods::hashmap::entry_of(crate::methods::hashmap::put(e, key, value), key)
            == Some(value),
        other != key ==> crate::methods::hashmap::entry_of(
            crate::methods::hashmap::put(e, key, value),
            other,
        ) == crate::methods::hashmap::entry_of(e, other),
{
    let p = crate::methods::hashmap::lower_bound_from(e, key, 0);
    crate::methods::hashmap::lemma_lower_bound(e, key, 0);
    let r = crate::methods::hashmap::put(e, key, value);
    let replaced = p < e.len() && e[p].0 == key;
    assert forall|j: int| 0 <= j < p implies r[j].0 != key by {
        assert(r[j] == e[j]);
        crate::text::lemma_text_order_equal(e[j].0, key);
    }
    assert(r[p] == (key, value));
    lemma_first_key(r, key, 0, p);
    if other != key {
        crate::methods::hashmap::lemma_key_index(e, other, 0);
        match crate::methods::hashmap::key_index_from(e, other, 0) {
            None => {
                assert forall|j: int| 0 <= j < r.len() implies r[j].0 != other by {
                    if replaced {
                        if j != p {
                            assert(r[j] == e[j]);
                        }
                    } else {
                        if j < p {
                            assert(r[j] == e[j]);
                        } else if j > p {
                            assert(r[j] == e[j - 1]);
                        }
                    }
                }
                lemma_no_key(r, other, 0);
            },
            Some(i) => {
                let at = if replaced || i < p {
                    i
                } else {
                    i + 1
                };
                assert(r[at] == e[i]);
                assert forall|j: int| 0 <= j < at implies r[j].0 != other by {
                    if replaced {
                        if j != p {
                            assert(r[j] == e[j]);
                        }
                    } else {
                        if j < p {
                            assert(r[j] == e[j]);
                        } else if j > p {
                            assert(r[j] == e[j - 1]);
                        }
                    }
                }
                lemma_first_key(r, other, 0, at);
            },
        }
    }
}

/// A frame that is added to the store changes no lookup in the frames that
/// were there.
pub proof fn lemma_push_keeps_lookups(
    s: crate::context::ScopesView,
    frame: crate::context::FrameView,
    at: int,
    name: Seq<char>,
)
    requires
        at < s.len(),
    ensures
        crate::context::scope_lookup(s.push(frame), at, name) == crate::context::scope_lookup(
            s,
            at,
            name,
        ),
    decreases at,
{
    if 0 <= at {
        assert(s.push(frame)[at] == s[at]);
        match s[at].parent {
            Some(p) => {
                if p < at {
                    lemma_push_keeps_lookups(s, frame, p as int, name);
                }
            },
            None => {},
        }
    }
}

/// A new child of a scope finds every name where its parent finds it.
pub proof fn law_child_sees_its_parent(
    s: crate::context::ScopesView,
    parent: ContextView,
    name: Seq<char>,
)
    requires
        parent.frame < s.len(),
        s.len() < usize::MAX,
    ensures
        crate::context::find(
            crate::context::with_child(s, parent),
            crate::context::newest(s),
            name,
        ) == crate::context::find(s, parent, name),
{
    let after = crate::context::with_child(s, parent);
    assert(after[s.len() as int].bindings.len() == 0);
    lemma_push_keeps_lookups(s, after[s.len() as int], parent.frame as int, name);
}

/// Calling a closure resolves its body in a new child of the scope that
/// the closure holds, with the parameters bound to the arguments there:
/// whatever scope the call stands in has no part in it.
pub proof fn law_call_resolves_in_the_captured_scope(
    c: crate::value::ClosureView,
    names: Seq<Seq<char>>,
    args: Seq<ValueView>,
    host: HostView,
    depth: nat,
)
    requires
        depth > 0,
        c.definition.argument_names == Some(names),
        names.len() <= args.len(),
    ensures
        crate::resolver::call_spec(crate::value::FuncView::UserDefined(c), args, host, depth)
            == resolve_spec(
            c.definition.node,
            crate::context::newest(host.scopes),
            crate::host::with_scopes(
                host,
                crate::resolver::bind_arguments(
                    crate::context::with_child(host.scopes, c.context),
                    crate::context::newest(host.scopes),
                    names,
                    args,
                    names.len() as int,
                ),
            ),
            (depth - 1) as nat,
        ),
{
}

/// The list that `to_list` makes of a map whose keys ascend, as those of
/// every map do, holds one pair for each entry of the map, in the order of
/// the keys.
pub proof fn law_to_list_holds_every_entry(e: EntriesView)
    requires
        ascending(e),
    ensures
        to_list_spec(e, Seq::empty()) == Ok::<ValueView, crate::error::ErrorView>(
            ValueView::List(as_pairs(e)),
        ),
        as_pairs(e).len() == e.len(),
        forall|i: int|
            0 <= i < e.len() ==> #[trigger] as_pairs(e)[i] == ValueView::List(
                seq![ValueView::String(e[i].0), e[i].1],
            ),
{
    crate::methods::hashmap::lemma_ordered_from(e, 0);
    assert(e.take(0) =~= Seq::<(Seq<char>, ValueView)>::empty());
}

/// What merging puts under a key where `under` is what the first map holds
/// there and `v` what the second holds: the merge of the two where both
/// are maps, and else `v`.
pub open spec fn merged_value(under: Option<ValueView>, v: ValueView) -> ValueView {
    match (under, v) {
        (Some(ValueView::HashMap(a)), ValueView::HashMap(b)) => ValueView::HashMap(
            crate::methods::hashmap::merge_from(a, b, 0),
        ),
        (_, v) => v,
    }
}

/// In a map whose keys ascend no entry behind one has the key of that one.
pub proof fn lemma_key_once(e: EntriesView, i: int)
    requires
        ascending(e),
        0 <= i < e.len(),
    ensures
        crate::methods::hashmap::key_index_from(e, e[i].0, i + 1) is None,
{
    assert forall|j: int| i + 1 <= j < e.len() implies e[j].0 != e[i].0 by {
        crate::text::lemma_text_order_equal(e[i].0, e[j].0);
    }
    lemma_no_key(e, e[i].0, i + 1);
}

/// What a merge from index `from` on holds under a key.
pub proof fn lemma_merge_from(dest: EntriesView, src: EntriesView, from: int, key: Seq<char>)
    requires
        ascending(src),
        0 <= from <= src.len(),
    ensures
        crate::methods::hashmap::entry_of(
            crate::methods::hashmap::merge_from(dest, src, from),
            key,
        ) == match crate::methods::hashmap::key_index_from(src, key, from) {
            Some(i) => Some(merged_value(crate::methods::hashmap::entry_of(dest, key), src[i].1)),
            None => crate::methods::hashmap::entry_of(dest, key),
        },
    decreases src.len() - from,
{
    if from < src.len() {
        let k0 = src[from].0;
        let m = merged_value(crate::methods::hashmap::entry_of(dest, k0), src[from].1);
        let next = crate::methods::hashmap::put(dest, k0, m);
        assert(crate::methods::hashmap::merge_from(dest, src, from)
            == crate::methods::hashmap::merge_from(next, src, from + 1));
        lemma_merge_from(next, src, from + 1, key);
        law_put_then_get(dest, k0, m, key);
        if key == k0 {
            lemma_key_once(src, from);
        }
    }
}

/// The deep merge of two maps, key by key. Under a key that both hold with
/// a map each, the result holds the merge of those two maps. Under any
/// other key of the second map it holds what the second map holds: lists
/// and scalars are replaced, not combined. Under every other key it holds
/// what the first map holds.
pub proof fn law_merge_key_by_key(dest: EntriesView, src: EntriesView, key: Seq<char>)
    requires
        ascending(src),
    ensures
        crate::methods::hashmap::entry_of(crate::methods::hashmap::merge_from(dest, src, 0), key)
            == match crate::methods::hashmap::entry_of(src, key) {
            Some(v) => Some(merged_value(crate::methods::hashmap::entry_of(dest, key), v)),
            None => crate::methods::hashmap::entry_of(dest, key),
        },
{
    lemma_merge_from(dest, src, 0, key);
}

/// Folding a list: with no item left the result is what was there, and
/// the host is asked nothing; with an item left the function is called
/// with what was there and that item, an error of the call ends the fold,
/// and its value is what is there for the rest.
pub proof fn law_fold_goes_item_by_item(
    items: Seq<ValueView>,
    f: crate::value::FuncView,
    host: HostView,
    depth: nat,
    from: int,
    acc: ValueView,
)
    requires
        0 <= from,
    ensures
        from >= items.len() ==> crate::resolver::fold_spec(items, f, host, depth, from, acc) == (
            Ok::<ValueView, crate::error::ErrorView>(acc),
            host,
        ),
        from < items.len() ==> crate::resolver::fold_spec(items, f, host, depth, from, acc)
            == match crate::resolver::call_spec(f, seq![acc, items[from]], host, depth) {
            (Err(e), h1) => (Err::<ValueView, crate::error::ErrorView>(e), h1),
            (Ok(v), h1) => crate::resolver::fold_spec(items, f, h1, depth, from + 1, v),
        },
{
}

} // verus!
