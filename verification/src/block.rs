//! The block builder: staging storage for an ordered sequence of content
//! nodes, and the rules that turn such a sequence into one wire node and back.

use crate::epoch::{since_unix_epoch, unix_offset};
use crate::node::{bare, nodes_model, ContentNode, KindModel, NodeKind, NodeModel};
use std::time::SystemTime;
use vstd::prelude::*;

verus! {

/// The wire node that stands for a sequence of children.
///
/// A single child stands for itself; any other number of children is wrapped,
/// in order, into a container with an empty plain-text fallback.
pub open spec fn normalized(children: Seq<NodeModel>) -> NodeModel {
    if children.len() == 1 {
        children[0]
    } else {
        bare(KindModel::Container { items: children })
    }
}

/// The sequence of children that a wire node stands for.
///
/// A container is unwrapped by one level; any other node is the single child.
pub open spec fn denormalized(node: NodeModel) -> Seq<NodeModel> {
    match node.kind {
        KindModel::Container { items } => items,
        _ => seq![node],
    }
}

/// A text leaf with an empty plain-text fallback.
pub open spec fn text_leaf(text: Seq<char>) -> NodeModel {
    bare(KindModel::Text { text })
}

/// The timestamp kind for an offset from the Unix epoch.
///
/// The seconds and nanoseconds are stored in the signed widths of the wire
/// format; an instant before the epoch, which has no offset, is stored as the
/// epoch itself.
pub open spec fn timestamp_kind(offset: Option<(u64, u32)>) -> KindModel {
    match offset {
        Some((seconds, nanos)) => KindModel::Timestamp {
            seconds: seconds as i64,
            nanos: nanos as i32,
        },
        None => KindModel::Timestamp { seconds: 0, nanos: 0 },
    }
}

/// A value that can be written as text.
pub trait IntoText: Sized {
    /// The characters that the value stands for.
    spec fn text_model(self) -> Seq<char>;

    /// The value as an owned string.
    fn into_text(self) -> (text: String)
        ensures
            text@ == self.text_model(),
    ;
}

impl<'a> IntoText for &'a str {
    open spec fn text_model(self) -> Seq<char> {
        self@
    }

    fn into_text(self) -> (text: String) {
        self.to_owned()
    }
}

impl IntoText for String {
    open spec fn text_model(self) -> Seq<char> {
        self@
    }

    fn into_text(self) -> (text: String) {
        self
    }
}

impl<'a> IntoText for &'a String {
    open spec fn text_model(self) -> Seq<char> {
        self@
    }

    fn into_text(self) -> (text: String) {
        self.clone()
    }
}

/// A value that can be used as content: it stands for a sequence of nodes.
pub trait IntoBlock: Sized {
    /// The children of the builder that the value converts into.
    spec fn block_model(self) -> Seq<NodeModel>;

    /// The value as a builder.
    fn into_block(self) -> (block: Block)
        ensures
            block@ == self.block_model(),
    ;
}

/// A builder of message content: an ordered sequence of content nodes.
#[derive(Debug)]
pub struct Block {
    children: Vec<ContentNode>,
}

impl View for Block {
    type V = Seq<NodeModel>;

    /// The children, in insertion order.
    closed spec fn view(&self) -> Seq<NodeModel> {
        nodes_model(self.children)
    }
}

impl Clone for Block {
    fn clone(&self) -> (copy: Block)
        ensures
            copy@ == self@,
    {
        Block { children: crate::node::copy_nodes(&self.children) }
    }
}

impl Block {
    /// An empty builder.
    pub fn new() -> (block: Block)
        ensures
            block@ == Seq::<NodeModel>::empty(),
    {
        let block = Block { children: Vec::new() };
        assert(block@ =~= Seq::<NodeModel>::empty());
        block
    }

    /// The children, in insertion order.
    pub fn children(&self) -> (nodes: &Vec<ContentNode>)
        ensures
            nodes_model(*nodes) == self@,
    {
        &self.children
    }

    /// Appends one node to the sequence.
    fn with_child(self, kind: NodeKind) -> (block: Block)
        ensures
            block@ == self@.push(bare(kind@)),
    {
        let mut children = self.children;
        children.push(ContentNode::of_kind(kind));
        let block = Block { children };
        assert(block@ =~= self@.push(bare(kind@)));
        block
    }

    /// Splices the children of `block` onto the end of this builder,
    /// keeping the order of both sequences.
    pub fn append<C: IntoBlock>(self, block: C) -> (joined: Block)
        ensures
            joined@ == self@ + block.block_model(),
    {
        let mut children = self.children;
        let mut other = block.into_block();
        let ghost tail = other.children;
        children.append(&mut other.children);
        let joined = Block { children };
        assert(joined@ =~= self@ + nodes_model(tail));
        joined
    }

    /// Splices the children of `block` onto the front of this builder,
    /// keeping the order of both sequences.
    pub fn prepend<C: IntoBlock>(self, block: C) -> (joined: Block)
        ensures
            joined@ == block.block_model() + self@,
    {
        let other = block.into_block();
        let mut children = other.children;
        let mut tail = self.children;
        let ghost head = children;
        children.append(&mut tail);
        let joined = Block { children };
        assert(joined@ =~= nodes_model(head) + self@);
        joined
    }

    /// Appends a text leaf.
    pub fn text<T: IntoText>(self, text: T) -> (block: Block)
        ensures
            block@ == self@.push(text_leaf(text.text_model())),
    {
        self.with_child(NodeKind::Text { text: text.into_text() })
    }

    /// Appends a bold node that wraps the normalized form of `content`.
    pub fn bold<C: IntoBlock>(self, content: C) -> (block: Block)
        ensures
            block@ == self@.push(
                bare(KindModel::Bold { inner: Box::new(normalized(content.block_model())) }),
            ),
    {
        let inner = ContentNode::from(content.into_block());
        self.with_child(NodeKind::Bold { inner: Box::new(inner) })
    }

    /// Appends an italic node that wraps the normalized form of `content`.
    pub fn italic<C: IntoBlock>(self, content: C) -> (block: Block)
        ensures
            block@ == self@.push(
                bare(KindModel::Italic { inner: Box::new(normalized(content.block_model())) }),
            ),
    {
        let inner = ContentNode::from(content.into_block());
        self.with_child(NodeKind::Italic { inner: Box::new(inner) })
    }

    /// Appends an underline node that wraps the normalized form of `content`.
    pub fn underline<C: IntoBlock>(self, content: C) -> (block: Block)
        ensures
            block@ == self@.push(
                bare(KindModel::Underline { inner: Box::new(normalized(content.block_model())) }),
            ),
    {
        let inner = ContentNode::from(content.into_block());
        self.with_child(NodeKind::Underline { inner: Box::new(inner) })
    }

    /// Appends a strikethrough node that wraps the normalized form of `content`.
    pub fn strikethrough<C: IntoBlock>(self, content: C) -> (block: Block)
        ensures
            block@ == self@.push(
                bare(KindModel::Strikethrough { inner: Box::new(normalized(content.block_model())) }),
            ),
    {
        let inner = ContentNode::from(content.into_block());
        self.with_child(NodeKind::Strikethrough { inner: Box::new(inner) })
    }

    /// Appends a spoiler node that wraps the normalized form of `content`.
    pub fn spoiler<C: IntoBlock>(self, content: C) -> (block: Block)
        ensures
            block@ == self@.push(
                bare(KindModel::Spoiler { inner: Box::new(normalized(content.block_model())) }),
            ),
    {
        let inner = ContentNode::from(content.into_block());
        self.with_child(NodeKind::Spoiler { inner: Box::new(inner) })
    }

    /// Appends a blockquote node that wraps the normalized form of `content`.
    pub fn blockquote<C: IntoBlock>(self, content: C) -> (block: Block)
        ensures
            block@ == self@.push(
                bare(KindModel::Blockquote { inner: Box::new(normalized(content.block_model())) }),
            ),
    {
        let inner = ContentNode::from(content.into_block());
        self.with_child(NodeKind::Blockquote { inner: Box::new(inner) })
    }

    /// Appends an inline code leaf.
    pub fn inline_code<T: IntoText>(self, text: T) -> (block: Block)
        ensures
            block@ == self@.push(bare(KindModel::InlineCode { text: text.text_model() })),
    {
        self.with_child(NodeKind::InlineCode { text: text.into_text() })
    }

    /// Appends a fenced code leaf with its info string, which may be empty.
    pub fn fenced_code<I: IntoText, T: IntoText>(self, info: I, text: T) -> (block: Block)
        ensures
            block@ == self@.push(
                bare(KindModel::FencedCode { info: info.text_model(), text: text.text_model() }),
            ),
    {
        let info = info.into_text();
        let text = text.into_text();
        self.with_child(NodeKind::FencedCode { info, text })
    }

    /// Appends a link to `url` that wraps the normalized form of `content`.
    pub fn link<U: IntoText, C: IntoBlock>(self, url: U, content: C) -> (block: Block)
        ensures
            block@ == self@.push(
                bare(
                    KindModel::Link {
                        url: url.text_model(),
                        inner: Box::new(normalized(content.block_model())),
                    },
                ),
            ),
    {
        let url = url.into_text();
        let inner = ContentNode::from(content.into_block());
        self.with_child(NodeKind::Link { url, inner: Box::new(inner) })
    }

    /// Appends a heading that wraps the normalized form of `content`.
    ///
    /// The level is passed through as given: every `i32` is accepted.
    pub fn heading<C: IntoBlock>(self, level: i32, content: C) -> (block: Block)
        ensures
            block@ == self@.push(
                bare(
                    KindModel::Heading {
                        level,
                        inner: Box::new(normalized(content.block_model())),
                    },
                ),
            ),
    {
        let inner = ContentNode::from(content.into_block());
        self.with_child(NodeKind::Heading { level, inner: Box::new(inner) })
    }

    /// Appends a list whose items are the normalized forms of `items`, in order.
    pub fn list<C: IntoBlock>(self, items: Vec<C>) -> (block: Block)
        ensures
            block@ == self@.push(bare(KindModel::List { items: normalized_each(items@) })),
    {
        let inner = normalize_each(items);
        self.with_child(NodeKind::List { items: inner })
    }

    /// Appends a timestamp leaf for the instant `time`.
    pub fn timestamp(self, time: SystemTime) -> (block: Block)
        ensures
            block@ == self@.push(bare(timestamp_kind(since_unix_epoch(time)))),
            block@.last().kind matches KindModel::Timestamp { nanos, .. } && 0 <= nanos
                < 1_000_000_000,
    {
        self.timestamp_at(unix_offset(time))
    }

    /// Appends a timestamp leaf for an offset from the Unix epoch, given as
    /// whole seconds and nanoseconds; `None` stands for an instant before the
    /// epoch.
    pub fn timestamp_at(self, offset: Option<(u64, u32)>) -> (block: Block)
        ensures
            block@ == self@.push(bare(timestamp_kind(offset))),
    {
        let kind = match offset {
            Some((seconds, nanos)) => NodeKind::Timestamp {
                seconds: seconds as i64,
                nanos: nanos as i32,
            },
            None => NodeKind::Timestamp { seconds: 0, nanos: 0 },
        };
        self.with_child(kind)
    }

    /// Appends a nested container whose children are the normalized forms of
    /// `blocks`, in order.
    pub fn container<C: IntoBlock>(self, blocks: Vec<C>) -> (block: Block)
        ensures
            block@ == self@.push(bare(KindModel::Container { items: normalized_each(blocks@) })),
    {
        let inner = normalize_each(blocks);
        self.with_child(NodeKind::Container { items: inner })
    }
}

/// The normalized form of each item, in the order of the items.
pub open spec fn normalized_each<C: IntoBlock>(items: Seq<C>) -> Seq<NodeModel> {
    items.map_values(|item: C| normalized(item.block_model()))
}

/// Normalizes each item, keeping the order.
fn normalize_each<C: IntoBlock>(items: Vec<C>) -> (nodes: Vec<ContentNode>)
    ensures
        nodes_model(nodes) == normalized_each(items@),
{
    let mut nodes: Vec<ContentNode> = Vec::new();
    for item in it: items
        invariant
            it.seq() == items@,
            nodes.len() == it.index(),
            forall|j: int|
                0 <= j < it.index() ==> (#[trigger] nodes[j])@ == normalized(
                    items@[j].block_model(),
                ),
    {
        let node = ContentNode::from(item.into_block());
        nodes.push(node);
    }
    assert(nodes_model(nodes) =~= normalized_each(items@));
    nodes
}

impl IntoBlock for Block {
    open spec fn block_model(self) -> Seq<NodeModel> {
        self@
    }

    fn into_block(self) -> (block: Block) {
        self
    }
}

impl IntoBlock for ContentNode {
    open spec fn block_model(self) -> Seq<NodeModel> {
        denormalized(self@)
    }

    fn into_block(self) -> (block: Block) {
        Block::from(self)
    }
}

impl<'a> IntoBlock for &'a str {
    open spec fn block_model(self) -> Seq<NodeModel> {
        seq![text_leaf(self@)]
    }

    fn into_block(self) -> (block: Block) {
        Block::from(self)
    }
}

impl IntoBlock for String {
    open spec fn block_model(self) -> Seq<NodeModel> {
        seq![text_leaf(self@)]
    }

    fn into_block(self) -> (block: Block) {
        Block::from(self)
    }
}

impl<'a> From<&'a str> for Block {
    /// A plain string is a builder with one text child.
    fn from(text: &'a str) -> (block: Block)
        ensures
            block@ == seq![text_leaf(text@)],
    {
        let block = Block::new().text(text);
        assert(block@ =~= seq![text_leaf(text@)]);
        block
    }
}

/// The conversion is specified on `from` itself, over the models: no value
/// of the concrete type is named as its result.
impl<'a> vstd::std_specs::convert::FromSpecImpl<&'a str> for Block {
    open spec fn obeys_from_spec() -> bool {
        false
    }

    open spec fn from_spec(text: &'a str) -> Block {
        arbitrary()
    }
}

impl From<String> for Block {
    /// A plain string is a builder with one text child.
    fn from(text: String) -> (block: Block)
        ensures
            block@ == seq![text_leaf(text@)],
    {
        let block = Block::new().text(text);
        assert(block@ =~= seq![text_leaf(text@)]);
        block
    }
}

/// The conversion is specified on `from` itself, over the models: no value
/// of the concrete type is named as its result.
impl vstd::std_specs::convert::FromSpecImpl<String> for Block {
    open spec fn obeys_from_spec() -> bool {
        false
    }

    open spec fn from_spec(text: String) -> Block {
        arbitrary()
    }
}

impl From<Block> for ContentNode {
    /// Normalizes a builder into one wire node.
    fn from(block: Block) -> (node: ContentNode)
        ensures
            node@ == normalized(block@),
            block@.len() == 1 ==> node@ == block@[0],
            block@.len() != 1 ==> node@ == bare(KindModel::Container { items: block@ }),
    {
        let mut children = block.children;
        if children.len() == 1 {
            let child = children.pop();
            child.unwrap()
        } else {
            ContentNode::of_kind(NodeKind::Container { items: children })
        }
    }
}

/// The conversion is specified on `from` itself, over the models: no value
/// of the concrete type is named as its result.
impl vstd::std_specs::convert::FromSpecImpl<Block> for ContentNode {
    open spec fn obeys_from_spec() -> bool {
        false
    }

    open spec fn from_spec(block: Block) -> ContentNode {
        arbitrary()
    }
}

impl From<ContentNode> for Block {
    /// Denormalizes a wire node into a builder.
    fn from(node: ContentNode) -> (block: Block)
        ensures
            block@ == denormalized(node@),
    {
        match node.kind {
            NodeKind::Container { items } => Block { children: items },
            kind => {
                let mut children: Vec<ContentNode> = Vec::new();
                children.push(ContentNode { plain: node.plain, kind });
                let block = Block { children };
                assert(block@ =~= seq![node@]);
                block
            },
        }
    }
}

/// The conversion is specified on `from` itself, over the models: no value
/// of the concrete type is named as its result.
impl vstd::std_specs::convert::FromSpecImpl<ContentNode> for Block {
    open spec fn obeys_from_spec() -> bool {
        false
    }

    open spec fn from_spec(node: ContentNode) -> Block {
        arbitrary()
    }
}

/// Normalizing a sequence of children and denormalizing the result gives the
/// sequence back, unless the sequence is a single container: that one is
/// handed through by normalization and then unwrapped.
pub proof fn lemma_denormalize_normalize(children: Seq<NodeModel>)
    requires
        !(children.len() == 1 && children[0].kind is Container),
    ensures
        denormalized(normalized(children)) == children,
{
    if children.len() == 1 {
        assert(seq![children[0]] =~= children);
    }
}

/// A builder whose single child is a container normalizes to that container,
/// not to a container around it, and denormalizing unwraps it by one level:
/// what comes back are the container's own children.
pub proof fn lemma_single_container_passes_through(children: Seq<NodeModel>)
    requires
        children.len() == 1,
        children[0].kind is Container,
    ensures
        normalized(children) == children[0],
        denormalized(normalized(children)) == children[0].kind->Container_items,
{
}

/// Denormalizing a node that is not a container and normalizing the result
/// gives the node back.
pub proof fn lemma_normalize_denormalize(node: NodeModel)
    requires
        !(node.kind is Container),
    ensures
        normalized(denormalized(node)) == node,
{
}

/// Appending and then normalizing two sequences that together do not hold
/// exactly one child gives a container of the first sequence followed by the
/// second, each in its own order.
pub proof fn lemma_joined_children_keep_order(first: Seq<NodeModel>, second: Seq<NodeModel>)
    requires
        first.len() + second.len() != 1,
    ensures
        normalized(first + second) == bare(KindModel::Container { items: first + second }),
        forall|i: int| 0 <= i < first.len() ==> (first + second)[i] == first[i],
        forall|j: int| 0 <= j < second.len() ==> (first + second)[first.len() + j] == second[j],
{
}

} // verus!
