//! Scopes: what the names of a program are bound to.
//!
//! A scope is a frame of bindings with, if it has one, a parent. The frames
//! of an evaluation stand in one store, and a `Context` is the handle of a
//! frame in it. Binding a name changes the frame: every scope that reaches
//! the frame through its parents sees the binding from then on.
use crate::node::{CodeNode, NodeView};
use crate::value::share;
use std::sync::Arc;
use vstd::prelude::*;

verus! {

/// The bindings of one frame: a chain of bindings of names to code nodes,
/// the latest first.
#[derive(Debug)]
pub struct Bindings {
    pub head: Option<Arc<Binding>>,
}

/// One binding, and the chain of those that came before it.
#[derive(Debug)]
pub struct Binding {
    pub name: String,
    pub node: CodeNode,
    pub rest: Bindings,
}

/// The bindings of a frame as a sequence, the latest first.
pub type BindingsView = Seq<(Seq<char>, NodeView)>;

impl View for Bindings {
    type V = BindingsView;

    open spec fn view(&self) -> BindingsView {
        self.model()
    }
}

impl Bindings {
    /// The value as a mathematical object.
    pub open spec fn model(&self) -> BindingsView
        decreases self,
    {
        match self.head {
            Some(b) => seq![(b.name@, b.node.model())] + b.rest.model(),
            None => Seq::empty(),
        }
    }
}

impl Clone for Bindings {
    fn clone(&self) -> (r: Bindings)
        ensures
            r == *self,
    {
        match &self.head {
            Some(b) => Bindings { head: Some(share(b)) },
            None => Bindings { head: None },
        }
    }
}

/// The node that the latest binding of `name` in `ctx`, from index `from`
/// on, binds it to.
pub open spec fn lookup_from(ctx: BindingsView, name: Seq<char>, from: int) -> Option<NodeView>
    decreases ctx.len() - from,
{
    if from < 0 || from >= ctx.len() {
        None
    } else if ctx[from].0 == name {
        Some(ctx[from].1)
    } else {
        lookup_from(ctx, name, from + 1)
    }
}

/// The node that `name` is bound to in `ctx`: that of its latest binding.
pub open spec fn lookup(ctx: BindingsView, name: Seq<char>) -> Option<NodeView> {
    lookup_from(ctx, name, 0)
}

/// `ctx` with one more binding, which hides every earlier one of the name.
pub open spec fn bound(ctx: BindingsView, name: Seq<char>, node: NodeView) -> BindingsView {
    seq![(name, node)] + ctx
}

pub proof fn lemma_lookup_shift(ctx: BindingsView, name: Seq<char>, from: int)
    requires
        0 <= from < ctx.len(),
    ensures
        lookup_from(ctx, name, from + 1) == lookup_from(ctx.drop_first(), name, from),
    decreases ctx.len() - from,
{
    if from + 1 < ctx.len() {
        if ctx[from + 1].0 != name {
            lemma_lookup_shift(ctx, name, from + 1);
        }
    }
}

/// A name that was just bound is bound to what it was bound to; every
/// other name is bound as before.
pub proof fn law_latest_binding_wins(ctx: BindingsView, name: Seq<char>, node: NodeView, other: Seq<char>)
    ensures
        lookup(bound(ctx, name, node), name) == Some(node),
        other != name ==> lookup(bound(ctx, name, node), other) == lookup(ctx, other),
{
    let b = bound(ctx, name, node);
    assert(b[0] == (name, node));
    if other != name {
        assert(b.drop_first() == ctx);
        lemma_lookup_shift(b, other, 0);
    }
}

impl Bindings {
    /// No bindings.
    pub fn empty() -> (r: Bindings)
        ensures
            r@ == Seq::<(Seq<char>, NodeView)>::empty(),
    {
        Bindings { head: None }
    }

    /// Binds `key` to `value`. A later binding of a name hides the earlier
    /// ones.
    pub fn bind(&mut self, key: String, value: CodeNode)
        ensures
            final(self)@ == bound(old(self)@, key@, value@),
    {
        let rest = self.clone();
        *self = Bindings { head: Some(Arc::new(Binding { name: key, node: value, rest })) };
    }

    /// The node that `val` is bound to, if it is bound.
    pub fn get_value(&self, val: &str) -> (r: Option<CodeNode>)
        ensures
            match r {
                Some(node) => lookup(self@, val@) == Some(node@),
                None => lookup(self@, val@) is None,
            },
    {
        let name = val.to_owned();
        let mut cur: &Bindings = self;
        loop
            invariant
                name@ == val@,
                lookup(self@, val@) == lookup(cur@, val@),
            decreases cur@.len(),
        {
            match &cur.head {
                None => {
                    return None;
                },
                Some(b) => {
                    if b.name == name {
                        return Some(b.node.clone());
                    }
                    proof {
                        assert(cur@.drop_first() == b.rest@);
                        lemma_lookup_shift(cur@, val@, 0);
                    }
                    cur = &b.rest;
                },
            }
        }
    }
}

/// A frame: its bindings, and the index of its parent in the store.
#[derive(Debug)]
pub struct Frame {
    pub bindings: Bindings,
    pub parent: Option<usize>,
}

pub struct FrameView {
    pub bindings: BindingsView,
    pub parent: Option<usize>,
}

impl View for Frame {
    type V = FrameView;

    open spec fn view(&self) -> FrameView {
        FrameView { bindings: self.bindings@, parent: self.parent }
    }
}

/// The store of the frames of an evaluation. A frame stands behind its
/// parent.
#[derive(Debug)]
pub struct Scopes {
    pub frames: Vec<Frame>,
}

/// The frames of a store, in the order in which they were made.
pub type ScopesView = Seq<FrameView>;

impl View for Scopes {
    type V = ScopesView;

    open spec fn view(&self) -> ScopesView {
        Seq::new(self.frames@.len(), |i: int| self.frames@[i]@)
    }
}

/// A scope: the handle of a frame in the store.
#[derive(Clone, Copy, Debug, PartialEq, Eq, Structural)]
pub struct Context {
    pub frame: usize,
}

/// A scope as a mathematical object: the handle itself.
pub type ContextView = Context;

impl View for Context {
    type V = Context;

    open spec fn view(&self) -> Context {
        *self
    }
}

/// The node that `name` is bound to in the frame at index `frame`, or else
/// in the nearest of its ancestors that binds it.
pub open spec fn scope_lookup(s: ScopesView, frame: int, name: Seq<char>) -> Option<NodeView>
    decreases frame,
{
    if frame < 0 || frame >= s.len() {
        None
    } else {
        match lookup(s[frame].bindings, name) {
            Some(node) => Some(node),
            None => match s[frame].parent {
                Some(p) => if p < frame {
                    scope_lookup(s, p as int, name)
                } else {
                    None
                },
                None => None,
            },
        }
    }
}

/// The node that `name` is bound to in the scope `ctx`.
pub open spec fn find(s: ScopesView, ctx: Context, name: Seq<char>) -> Option<NodeView> {
    scope_lookup(s, ctx.frame as int, name)
}

/// The handle of the frame that is made next.
pub open spec fn newest(s: ScopesView) -> Context {
    Context { frame: s.len() as usize }
}

/// The store with one more frame, which has no bindings and no parent.
pub open spec fn with_root(s: ScopesView) -> ScopesView {
    s.push(FrameView { bindings: Seq::empty(), parent: None })
}

/// The store with one more frame, which has no bindings and `parent` for
/// its parent.
pub open spec fn with_child(s: ScopesView, parent: Context) -> ScopesView {
    s.push(
        FrameView {
            bindings: Seq::empty(),
            parent: if parent.frame < s.len() {
                Some(parent.frame)
            } else {
                None
            },
        },
    )
}

/// The store with `name` bound to `node` in the frame of `ctx`. Every
/// other frame is as it was.
pub open spec fn with_binding(s: ScopesView, ctx: Context, name: Seq<char>, node: NodeView)
    -> ScopesView {
    if ctx.frame < s.len() {
        s.update(
            ctx.frame as int,
            FrameView {
                bindings: bound(s[ctx.frame as int].bindings, name, node),
                parent: s[ctx.frame as int].parent,
            },
        )
    } else {
        s
    }
}

/// Whether the scope at index `frame` reaches the frame at index `target`
/// through its parents without binding `name` on the way.
pub open spec fn sees_through(s: ScopesView, frame: int, target: int, name: Seq<char>) -> bool
    decreases frame,
{
    if frame < 0 || frame >= s.len() {
        false
    } else if frame == target {
        true
    } else {
        lookup(s[frame].bindings, name) is None && match s[frame].parent {
            Some(p) => p < frame && sees_through(s, p as int, target, name),
            None => false,
        }
    }
}

/// Whether the frame at index `target` is the frame at index `frame` or
/// one of its ancestors.
pub open spec fn reaches(s: ScopesView, frame: int, target: int) -> bool
    decreases frame,
{
    if frame < 0 || frame >= s.len() {
        false
    } else if frame == target {
        true
    } else {
        match s[frame].parent {
            Some(p) => p < frame && reaches(s, p as int, target),
            None => false,
        }
    }
}

/// After a name is bound in a frame, the scope of that frame and every
/// scope that reaches the frame through its parents without binding the
/// name nearer look the name up as the new node.
pub proof fn law_binding_is_seen_through_the_chain(
    s: ScopesView,
    ctx: Context,
    name: Seq<char>,
    node: NodeView,
    frame: int,
)
    requires
        ctx.frame < s.len(),
        sees_through(s, frame, ctx.frame as int, name),
    ensures
        scope_lookup(with_binding(s, ctx, name, node), frame, name) == Some(node),
    decreases frame,
{
    let after = with_binding(s, ctx, name, node);
    if frame == ctx.frame {
        law_latest_binding_wins(s[frame].bindings, name, node, name);
    } else {
        assert(after[frame] == s[frame]);
        let p = s[frame].parent->0;
        law_binding_is_seen_through_the_chain(s, ctx, name, node, p as int);
    }
}

/// Binding a name in a frame changes no lookup of another name, and no
/// lookup in a scope that does not reach the frame: the ancestors of the
/// frame among them.
pub proof fn law_binding_leaves_the_rest(
    s: ScopesView,
    ctx: Context,
    name: Seq<char>,
    node: NodeView,
    frame: int,
    other: Seq<char>,
)
    requires
        other != name || !reaches(s, frame, ctx.frame as int),
    ensures
        scope_lookup(with_binding(s, ctx, name, node), frame, other) == scope_lookup(
            s,
            frame,
            other,
        ),
    decreases frame,
{
    let after = with_binding(s, ctx, name, node);
    if 0 <= frame < s.len() {
        if frame == ctx.frame {
            law_latest_binding_wins(s[frame].bindings, name, node, other);
        } else {
            assert(after[frame] == s[frame]);
        }
        match s[frame].parent {
            Some(p) => {
                if p < frame {
                    law_binding_leaves_the_rest(s, ctx, name, node, p as int, other);
                }
            },
            None => {},
        }
    }
}

/// An ancestor of a frame stands before it, so a frame never reaches a
/// frame behind it.
pub proof fn lemma_reaches_back(s: ScopesView, frame: int, target: int)
    requires
        reaches(s, frame, target),
    ensures
        target <= frame,
    decreases frame,
{
    if frame != target {
        lemma_reaches_back(s, s[frame].parent->0 as int, target);
    }
}

impl Scopes {
    /// A store without frames.
    pub fn new() -> (r: Scopes)
        ensures
            r@ == Seq::<FrameView>::empty(),
    {
        let r = Scopes { frames: Vec::new() };
        assert(r@ =~= Seq::<FrameView>::empty());
        r
    }
}

impl Clone for Scopes {
    fn clone(&self) -> (r: Scopes)
        ensures
            r@ == self@,
    {
        let mut frames: Vec<Frame> = Vec::new();
        let mut i: usize = 0;
        while i < self.frames.len()
            invariant
                i <= self.frames.len(),
                frames@.len() == i,
                forall|k: int| 0 <= k < i ==> (#[trigger] frames@[k])@ == self.frames@[k]@,
            decreases self.frames.len() - i,
        {
            frames.push(
                Frame { bindings: self.frames[i].bindings.clone(), parent: self.frames[i].parent },
            );
            i = i + 1;
        }
        let r = Scopes { frames };
        assert(r@ =~= self@);
        r
    }
}

impl Context {
    /// A new scope without a parent, which binds nothing.
    pub fn empty(scopes: &mut Scopes) -> (r: Context)
        ensures
            final(scopes)@ == with_root(old(scopes)@),
            r == newest(old(scopes)@),
    {
        let frame: usize = scopes.frames.len();
        scopes.frames.push(Frame { bindings: Bindings::empty(), parent: None });
        assert(scopes@ =~= with_root(old(scopes)@));
        Context { frame }
    }

    /// A new scope whose parent is this one. What is bound in the child
    /// never shows in this scope; what is bound in this scope shows in the
    /// child, also when it is bound later, unless the child binds the name
    /// itself.
    pub fn new_child(&self, scopes: &mut Scopes) -> (r: Context)
        ensures
            final(scopes)@ == with_child(old(scopes)@, *self),
            r == newest(old(scopes)@),
    {
        let frame: usize = scopes.frames.len();
        let parent: Option<usize> = if self.frame < frame {
            Some(self.frame)
        } else {
            None
        };
        scopes.frames.push(Frame { bindings: Bindings::empty(), parent });
        assert(scopes@ =~= with_child(old(scopes)@, *self));
        Context { frame }
    }

    /// Binds `key` to `value` in the frame of this scope. A later binding
    /// of a name takes the place of the earlier one.
    pub fn bind(&self, scopes: &mut Scopes, key: String, value: CodeNode)
        ensures
            final(scopes)@ == with_binding(old(scopes)@, *self, key@, value@),
    {
        if self.frame < scopes.frames.len() {
            let mut bindings = scopes.frames[self.frame].bindings.clone();
            let parent = scopes.frames[self.frame].parent;
            bindings.bind(key, value);
            scopes.frames.set(self.frame, Frame { bindings, parent });
            assert(scopes@ =~= with_binding(old(scopes)@, *self, key@, value@));
        }
    }

    /// The node that `val` is bound to in this scope or, where this scope
    /// does not bind it, in the nearest ancestor that does.
    pub fn get_value(&self, scopes: &Scopes, val: &str) -> (r: Option<CodeNode>)
        ensures
            match r {
                Some(node) => find(scopes@, *self, val@) == Some(node@),
                None => find(scopes@, *self, val@) is None,
            },
    {
        let mut cur: usize = self.frame;
        loop
            invariant
                find(scopes@, *self, val@) == scope_lookup(scopes@, cur as int, val@),
            decreases cur,
        {
            if cur >= scopes.frames.len() {
                return None;
            }
            assert(scopes@[cur as int] == scopes.frames@[cur as int]@);
            match scopes.frames[cur].bindings.get_value(val) {
                Some(node) => {
                    return Some(node);
                },
                None => {},
            }
            match scopes.frames[cur].parent {
                Some(p) => {
                    if p < cur {
                        cur = p;
                    } else {
                        return None;
                    }
                },
                None => {
                    return None;
                },
            }
        }
    }
}

} // verus!
