//! Code nodes: the compiled form of an expression.
use crate::error::{location_view, Location, LocationView};
use crate::value::{share, Value, ValueView};
use std::sync::Arc;
use vstd::prelude::*;

verus! {

/// The definition of a function: the names of its parameters, and its body.
/// Every closure that comes of one definition shares it.
#[derive(Debug)]
pub struct FunctionDefinition {
    pub argument_names: Option<Vec<String>>,
    pub node: CodeNode,
}

pub struct DefinitionView {
    pub argument_names: Option<Seq<Seq<char>>>,
    pub node: NodeView,
}

/// What a code node holds.
#[derive(Debug)]
pub enum NodeContent {
    /// A value that is known already.
    Resolved(Value),
    List(Vec<CodeNode>),
    HashMap(Vec<HmEntry>),
    FunctionDefinition(Arc<FunctionDefinition>),
    Conditional { condition: CodeNode, then_branch: CodeNode, else_branch: CodeNode },
    /// A parameter: stands for what the scope of the call binds its name to.
    FunctionInputArgument(String),
    /// A call. Without arguments it is no call but the function's value
    /// itself: a reference to a variable.
    FunctionCall { name: String, function: CodeNode, arguments: Option<Vec<CodeNode>> },
}

pub enum ContentView {
    Resolved(ValueView),
    List(Seq<NodeView>),
    HashMap(Seq<(NodeView, NodeView)>),
    FunctionDefinition(DefinitionView),
    Conditional { condition: NodeView, then_branch: NodeView, else_branch: NodeView },
    FunctionInputArgument(Seq<char>),
    FunctionCall { name: Seq<char>, function: NodeView, arguments: Option<Seq<NodeView>> },
}

/// An entry of a map that is still code.
#[derive(Debug)]
pub struct HmEntry {
    pub key: CodeNode,
    pub value: CodeNode,
}

/// A compiled expression with the place in the source that it came from. It
/// never changes and is cheap to copy.
#[derive(Debug)]
pub struct CodeNode {
    pub inner: Arc<CodeNodeRef>,
}

#[derive(Debug)]
pub struct CodeNodeRef {
    pub location: Option<Location>,
    pub content: NodeContent,
}

pub struct NodeView {
    pub location: Option<LocationView>,
    pub content: Box<ContentView>,
}

/// The views of the strings of a sequence.
pub open spec fn names_view(names: Seq<String>) -> Seq<Seq<char>> {
    Seq::new(names.len(), |i: int| names[i]@)
}

/// The views of the nodes of a sequence.
pub open spec fn nodes_view(nodes: Seq<CodeNode>) -> Seq<NodeView>
    decreases nodes,
{
    Seq::new(
        nodes.len(),
        |i: int|
            if 0 <= i < nodes.len() {
                nodes[i].model()
            } else {
                arbitrary()
            },
    )
}

/// The views of the entries of a map that is still code.
pub open spec fn pairs_view(entries: Seq<HmEntry>) -> Seq<(NodeView, NodeView)>
    decreases entries,
{
    Seq::new(
        entries.len(),
        |i: int|
            if 0 <= i < entries.len() {
                (entries[i].key.model(), entries[i].value.model())
            } else {
                arbitrary()
            },
    )
}

impl View for FunctionDefinition {
    type V = DefinitionView;

    open spec fn view(&self) -> DefinitionView {
        self.model()
    }
}

impl FunctionDefinition {
    /// The value as a mathematical object.
    pub open spec fn model(&self) -> DefinitionView
        decreases self,
    {
        DefinitionView {
            argument_names: match self.argument_names {
                Some(names) => Some(names_view(names@)),
                None => None,
            },
            node: self.node.model(),
        }
    }
}

impl View for CodeNode {
    type V = NodeView;

    open spec fn view(&self) -> NodeView {
        self.model()
    }
}

impl CodeNode {
    /// The value as a mathematical object.
    pub open spec fn model(&self) -> NodeView
        decreases self,
    {
        NodeView {
            location: location_view(self.inner.location),
            content: Box::new(self.inner.content.model()),
        }
    }
}

impl View for NodeContent {
    type V = ContentView;

    open spec fn view(&self) -> ContentView {
        self.model()
    }
}

impl NodeContent {
    /// The value as a mathematical object.
    pub open spec fn model(&self) -> ContentView
        decreases self,
    {
        match self {
            NodeContent::Resolved(v) => ContentView::Resolved(v.model()),
            NodeContent::List(items) => ContentView::List(
                nodes_view(items@),
            ),
            NodeContent::HashMap(entries) => ContentView::HashMap(
                pairs_view(entries@),
            ),
            NodeContent::FunctionDefinition(d) => ContentView::FunctionDefinition(d.model()),
            NodeContent::Conditional { condition, then_branch, else_branch } => {
                ContentView::Conditional {
                    condition: condition.model(),
                    then_branch: then_branch.model(),
                    else_branch: else_branch.model(),
                }
            },
            NodeContent::FunctionInputArgument(name) => ContentView::FunctionInputArgument(name@),
            NodeContent::FunctionCall { name, function, arguments } => ContentView::FunctionCall {
                name: name@,
                function: function.model(),
                arguments: match arguments {
                    Some(items) => Some(
                        nodes_view(items@),
                    ),
                    None => None,
                },
            },
        }
    }
}

impl Clone for CodeNode {
    fn clone(&self) -> (r: CodeNode)
        ensures
            r == *self,
    {
        CodeNode { inner: share(&self.inner) }
    }
}

/// The node with the given content and location.
pub open spec fn node_of(content: ContentView, location: Option<LocationView>) -> NodeView {
    NodeView { location, content: Box::new(content) }
}

/// The node that holds a value and points nowhere.
pub open spec fn resolved(v: ValueView) -> NodeView {
    node_of(ContentView::Resolved(v), None)
}

impl CodeNode {
    pub fn new(content: NodeContent, location: Option<Location>) -> (r: CodeNode)
        ensures
            r@ == node_of(content@, location_view(location)),
    {
        CodeNode { inner: Arc::new(CodeNodeRef { location, content }) }
    }

    /// The place in the source that the node came from.
    pub fn location(&self) -> (r: &Option<Location>)
        ensures
            location_view(*r) == self@.location,
    {
        &self.inner.location
    }

    /// What the node holds.
    pub fn content(&self) -> (r: &NodeContent)
        ensures
            r@ == *self@.content,
    {
        &self.inner.content
    }
}

} // verus!
