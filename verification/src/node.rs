//! The content tree that travels on the wire, and its mathematical model.
//!
//! A [`ContentNode`] is a plain-text fallback together with exactly one kind.
//! Contracts throughout the crate speak of nodes through their model,
//! [`NodeModel`], in which strings are sequences of characters and children
//! are sequences of models.

use vstd::prelude::*;

verus! {

/// Mathematical model of a content node.
pub struct NodeModel {
    /// The plain-text fallback.
    pub plain: Seq<char>,
    /// What the node is.
    pub kind: KindModel,
}

/// Mathematical model of the kind of a content node.
pub enum KindModel {
    Text { text: Seq<char> },
    Bold { inner: Box<NodeModel> },
    Italic { inner: Box<NodeModel> },
    Underline { inner: Box<NodeModel> },
    Strikethrough { inner: Box<NodeModel> },
    Spoiler { inner: Box<NodeModel> },
    Blockquote { inner: Box<NodeModel> },
    InlineCode { text: Seq<char> },
    FencedCode { info: Seq<char>, text: Seq<char> },
    Link { url: Seq<char>, inner: Box<NodeModel> },
    Heading { level: i32, inner: Box<NodeModel> },
    List { items: Seq<NodeModel> },
    Timestamp { seconds: i64, nanos: i32 },
    Container { items: Seq<NodeModel> },
}

/// A node of the content tree: a plain-text fallback and exactly one kind.
#[derive(Debug)]
pub struct ContentNode {
    /// Fallback text for receivers that do not render the tree.
    pub plain: String,
    /// What the node is, with what it owns.
    pub kind: NodeKind,
}

/// The kind of a content node.
///
/// Structural kinds own exactly one nested node, `List` and `Container` own
/// an ordered sequence of nodes, and the leaves hold scalar data.
#[derive(Debug)]
pub enum NodeKind {
    Text { text: String },
    Bold { inner: Box<ContentNode> },
    Italic { inner: Box<ContentNode> },
    Underline { inner: Box<ContentNode> },
    Strikethrough { inner: Box<ContentNode> },
    Spoiler { inner: Box<ContentNode> },
    Blockquote { inner: Box<ContentNode> },
    InlineCode { text: String },
    FencedCode { info: String, text: String },
    Link { url: String, inner: Box<ContentNode> },
    /// The level is passed through as given; no range is enforced.
    Heading { level: i32, inner: Box<ContentNode> },
    List { items: Vec<ContentNode> },
    /// A UTC instant: whole seconds since the Unix epoch and the nanoseconds
    /// within the second.
    Timestamp { seconds: i64, nanos: i32 },
    Container { items: Vec<ContentNode> },
}

/// The model of a node: each string by its characters, each child by its model.
pub open spec fn node_model(node: ContentNode) -> NodeModel
    decreases node,
{
    NodeModel { plain: node.plain@, kind: kind_model(node.kind) }
}

/// The model of a kind.
pub open spec fn kind_model(kind: NodeKind) -> KindModel
    decreases kind,
{
    match kind {
        NodeKind::Text { text } => KindModel::Text { text: text@ },
        NodeKind::Bold { inner } => KindModel::Bold { inner: Box::new(node_model(*inner)) },
        NodeKind::Italic { inner } => KindModel::Italic { inner: Box::new(node_model(*inner)) },
        NodeKind::Underline { inner } => KindModel::Underline {
            inner: Box::new(node_model(*inner)),
        },
        NodeKind::Strikethrough { inner } => KindModel::Strikethrough {
            inner: Box::new(node_model(*inner)),
        },
        NodeKind::Spoiler { inner } => KindModel::Spoiler { inner: Box::new(node_model(*inner)) },
        NodeKind::Blockquote { inner } => KindModel::Blockquote {
            inner: Box::new(node_model(*inner)),
        },
        NodeKind::InlineCode { text } => KindModel::InlineCode { text: text@ },
        NodeKind::FencedCode { info, text } => KindModel::FencedCode { info: info@, text: text@ },
        NodeKind::Link { url, inner } => KindModel::Link {
            url: url@,
            inner: Box::new(node_model(*inner)),
        },
        NodeKind::Heading { level, inner } => KindModel::Heading {
            level,
            inner: Box::new(node_model(*inner)),
        },
        NodeKind::List { items } => KindModel::List { items: nodes_model(items) },
        NodeKind::Timestamp { seconds, nanos } => KindModel::Timestamp { seconds, nanos },
        NodeKind::Container { items } => KindModel::Container { items: nodes_model(items) },
    }
}

/// The models of a vector of nodes, in order.
pub open spec fn nodes_model(nodes: Vec<ContentNode>) -> Seq<NodeModel>
    decreases nodes,
{
    Seq::new(
        nodes.len() as nat,
        |i: int|
            if 0 <= i < nodes.len() {
                node_model(nodes[i])
            } else {
                arbitrary()
            },
    )
}

impl View for ContentNode {
    type V = NodeModel;

    open spec fn view(&self) -> NodeModel {
        node_model(*self)
    }
}

impl View for NodeKind {
    type V = KindModel;

    open spec fn view(&self) -> KindModel {
        kind_model(*self)
    }
}

/// A deep copy of a node.
fn copy_node(node: &ContentNode) -> (copy: ContentNode)
    ensures
        copy@ == node@,
    decreases node,
{
    ContentNode { plain: node.plain.clone(), kind: copy_kind(&node.kind) }
}

/// A deep copy of a kind.
fn copy_kind(kind: &NodeKind) -> (copy: NodeKind)
    ensures
        copy@ == kind@,
    decreases kind,
{
    match kind {
        NodeKind::Text { text } => NodeKind::Text { text: text.clone() },
        NodeKind::Bold { inner } => NodeKind::Bold { inner: Box::new(copy_node(inner)) },
        NodeKind::Italic { inner } => NodeKind::Italic { inner: Box::new(copy_node(inner)) },
        NodeKind::Underline { inner } => NodeKind::Underline { inner: Box::new(copy_node(inner)) },
        NodeKind::Strikethrough { inner } => NodeKind::Strikethrough {
            inner: Box::new(copy_node(inner)),
        },
        NodeKind::Spoiler { inner } => NodeKind::Spoiler { inner: Box::new(copy_node(inner)) },
        NodeKind::Blockquote { inner } => NodeKind::Blockquote {
            inner: Box::new(copy_node(inner)),
        },
        NodeKind::InlineCode { text } => NodeKind::InlineCode { text: text.clone() },
        NodeKind::FencedCode { info, text } => NodeKind::FencedCode {
            info: info.clone(),
            text: text.clone(),
        },
        NodeKind::Link { url, inner } => NodeKind::Link {
            url: url.clone(),
            inner: Box::new(copy_node(inner)),
        },
        NodeKind::Heading { level, inner } => NodeKind::Heading {
            level: *level,
            inner: Box::new(copy_node(inner)),
        },
        NodeKind::List { items } => NodeKind::List { items: copy_nodes(items) },
        NodeKind::Timestamp { seconds, nanos } => NodeKind::Timestamp {
            seconds: *seconds,
            nanos: *nanos,
        },
        NodeKind::Container { items } => NodeKind::Container { items: copy_nodes(items) },
    }
}

/// A deep copy of a vector of nodes, in order.
pub(crate) fn copy_nodes(nodes: &Vec<ContentNode>) -> (copy: Vec<ContentNode>)
    ensures
        nodes_model(copy) == nodes_model(*nodes),
    decreases nodes,
{
    let mut copy: Vec<ContentNode> = Vec::new();
    let mut i: usize = 0;
    while i < nodes.len()
        invariant
            i <= nodes.len(),
            copy.len() == i,
            forall|j: int| 0 <= j < i ==> node_model(#[trigger] copy[j]) == node_model(nodes[j]),
        decreases nodes.len() - i,
    {
        proof {
            vstd::std_specs::vec::axiom_vec_index_decreases(*nodes, i as int);
        }
        let child = copy_node(&nodes[i]);
        copy.push(child);
        i += 1;
    }
    assert(nodes_model(copy) =~= nodes_model(*nodes));
    copy
}

impl Clone for ContentNode {
    fn clone(&self) -> (copy: ContentNode)
        ensures
            copy@ == self@,
    {
        copy_node(self)
    }
}

impl Clone for NodeKind {
    fn clone(&self) -> (copy: NodeKind)
        ensures
            copy@ == self@,
    {
        copy_kind(self)
    }
}

/// The node of the given kind with an empty plain-text fallback.
pub open spec fn bare(kind: KindModel) -> NodeModel {
    NodeModel { plain: Seq::empty(), kind }
}

impl ContentNode {
    /// Wraps a kind into a node whose plain-text fallback is empty.
    pub fn of_kind(kind: NodeKind) -> (node: ContentNode)
        ensures
            node@ == bare(kind@),
    {
        ContentNode { plain: String::new(), kind }
    }

    /// Whether the node is a container.
    pub fn is_container(&self) -> (b: bool)
        ensures
            b == (self@.kind is Container),
    {
        match &self.kind {
            NodeKind::Container { .. } => true,
            _ => false,
        }
    }
}

} // verus!
