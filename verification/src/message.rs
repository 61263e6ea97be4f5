//! What a message or an action carries: plain text or a content tree.

use crate::block::{normalized, Block};
use crate::node::{ContentNode, NodeModel};
use vstd::prelude::*;

verus! {

/// Mathematical model of the content of a message.
pub enum ContentModel {
    PlainText { text: Seq<char> },
    StructuredBlock { node: NodeModel },
}

/// The content of a message or an action.
#[derive(Debug)]
pub enum MessageContent {
    /// Text without formatting.
    PlainText(String),
    /// A content tree.
    StructuredBlock(ContentNode),
}

impl View for MessageContent {
    type V = ContentModel;

    open spec fn view(&self) -> ContentModel {
        match *self {
            MessageContent::PlainText(text) => ContentModel::PlainText { text: text@ },
            MessageContent::StructuredBlock(node) => ContentModel::StructuredBlock { node: node@ },
        }
    }
}

impl Clone for MessageContent {
    fn clone(&self) -> (copy: MessageContent)
        ensures
            copy@ == self@,
    {
        match self {
            MessageContent::PlainText(text) => MessageContent::PlainText(text.clone()),
            MessageContent::StructuredBlock(node) => MessageContent::StructuredBlock(node.clone()),
        }
    }
}

/// The text parameter of the call that carries a content: the text itself
/// for plain text, and empty for a content tree.
pub open spec fn wire_text(content: ContentModel) -> Seq<char> {
    match content {
        ContentModel::PlainText { text } => text,
        ContentModel::StructuredBlock { .. } => Seq::empty(),
    }
}

/// The content-tree parameter of the call that carries a content: absent for
/// plain text, and the tree itself otherwise.
pub open spec fn wire_node(content: ContentModel) -> Option<NodeModel> {
    match content {
        ContentModel::PlainText { .. } => None,
        ContentModel::StructuredBlock { node } => Some(node),
    }
}

/// The model of a node that may be absent.
pub open spec fn optional_node_model(node: Option<ContentNode>) -> Option<NodeModel> {
    match node {
        Some(node) => Some(node@),
        None => None,
    }
}

impl MessageContent {
    /// Splits the content into the two parameters of a call, of which exactly
    /// one is populated: the text and the content tree.
    pub fn into_wire(self) -> (wire: (String, Option<ContentNode>))
        ensures
            wire.0@ == wire_text(self@),
            optional_node_model(wire.1) == wire_node(self@),
            self is PlainText <==> wire.1 is None,
            self is StructuredBlock ==> wire.0@.len() == 0,
    {
        match self {
            MessageContent::PlainText(text) => (text, None),
            MessageContent::StructuredBlock(node) => (String::new(), Some(node)),
        }
    }
}

/// A value that can be sent as the content of a message.
pub trait IntoMessage: Sized {
    /// The content that the value converts into.
    spec fn message_model(self) -> ContentModel;

    /// The value as message content.
    fn into_message(self) -> (content: MessageContent)
        ensures
            content@ == self.message_model(),
    ;
}

impl IntoMessage for MessageContent {
    open spec fn message_model(self) -> ContentModel {
        self@
    }

    fn into_message(self) -> (content: MessageContent) {
        self
    }
}

impl<'a> IntoMessage for &'a str {
    open spec fn message_model(self) -> ContentModel {
        ContentModel::PlainText { text: self@ }
    }

    fn into_message(self) -> (content: MessageContent) {
        MessageContent::from(self)
    }
}

impl IntoMessage for String {
    open spec fn message_model(self) -> ContentModel {
        ContentModel::PlainText { text: self@ }
    }

    fn into_message(self) -> (content: MessageContent) {
        MessageContent::from(self)
    }
}

impl IntoMessage for Block {
    open spec fn message_model(self) -> ContentModel {
        ContentModel::StructuredBlock { node: normalized(self@) }
    }

    fn into_message(self) -> (content: MessageContent) {
        MessageContent::from(self)
    }
}

impl IntoMessage for ContentNode {
    open spec fn message_model(self) -> ContentModel {
        ContentModel::StructuredBlock { node: self@ }
    }

    fn into_message(self) -> (content: MessageContent) {
        MessageContent::StructuredBlock(self)
    }
}

impl<'a> From<&'a str> for MessageContent {
    /// A plain string is plain text, character for character.
    fn from(text: &'a str) -> (content: MessageContent)
        ensures
            content@ == (ContentModel::PlainText { text: text@ }),
    {
        MessageContent::PlainText(text.to_owned())
    }
}

/// The conversion is specified on `from` itself, over the models: no value
/// of the concrete type is named as its result.
impl<'a> vstd::std_specs::convert::FromSpecImpl<&'a str> for MessageContent {
    open spec fn obeys_from_spec() -> bool {
        false
    }

    open spec fn from_spec(text: &'a str) -> MessageContent {
        arbitrary()
    }
}

impl From<String> for MessageContent {
    /// A plain string is plain text, character for character.
    fn from(text: String) -> (content: MessageContent)
        ensures
            content@ == (ContentModel::PlainText { text: text@ }),
    {
        MessageContent::PlainText(text)
    }
}

/// The conversion is specified on `from` itself, over the models: no value
/// of the concrete type is named as its result.
impl vstd::std_specs::convert::FromSpecImpl<String> for MessageContent {
    open spec fn obeys_from_spec() -> bool {
        false
    }

    open spec fn from_spec(text: String) -> MessageContent {
        arbitrary()
    }
}

impl From<Block> for MessageContent {
    /// A builder is sent as the content tree that it normalizes to.
    fn from(block: Block) -> (content: MessageContent)
        ensures
            content@ == (ContentModel::StructuredBlock { node: normalized(block@) }),
    {
        MessageContent::StructuredBlock(ContentNode::from(block))
    }
}

/// The conversion is specified on `from` itself, over the models: no value
/// of the concrete type is named as its result.
impl vstd::std_specs::convert::FromSpecImpl<Block> for MessageContent {
    open spec fn obeys_from_spec() -> bool {
        false
    }

    open spec fn from_spec(block: Block) -> MessageContent {
        arbitrary()
    }
}

/// Whatever is sent, exactly one of the two parameters of the call is
/// populated: the text is empty when a tree is present, and the tree is absent
/// when the content is plain text.
pub proof fn lemma_one_parameter_populated(content: ContentModel)
    ensures
        content is PlainText ==> wire_node(content) is None && wire_text(content)
            == content->PlainText_text,
        content is StructuredBlock ==> wire_text(content).len() == 0 && wire_node(content)
            == Some(content->StructuredBlock_node),
{
}

} // verus!
