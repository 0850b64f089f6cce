//! What the panel shows: a tree of elements, for a window toolkit to lay out
//! and draw.

use vstd::prelude::*;

verus! {

/// Whether the server has acknowledged a message.
#[derive(Clone, Copy, Debug, PartialEq, Eq, Structural)]
pub enum MessageStyle {
    Sent,
    Pending,
}

/// The part of a message that a style is for.
#[derive(Clone, Copy, Debug, PartialEq, Eq, Structural)]
pub enum MessagePart {
    SenderText,
    SenderContainer,
    TimestampText,
    TimestampContainer,
    Body,
    Container,
}

/// Where the name of a channel stands in the channel selector.
#[derive(Clone, Copy, Debug, PartialEq, Eq, Structural)]
pub enum ItemType {
    Header,
    Selected,
    Unselected,
}

/// How the name of a channel looks in the channel selector.
#[derive(Clone, Copy, Debug, PartialEq, Eq, Structural)]
pub enum ChannelNameStyle {
    Header,
    ActiveItem,
    HoveredActiveItem,
    Item,
    HoveredItem,
}

/// The part of a channel's name that a style is for.
#[derive(Clone, Copy, Debug, PartialEq, Eq, Structural)]
pub enum ChannelNamePart {
    HashText,
    HashContainer,
    Name,
    Container,
}

/// An entry of the theme.
#[derive(Clone, Copy, Debug, PartialEq, Eq, Structural)]
pub enum Style {
    /// The container round the whole panel.
    Panel,
    /// The container round the channel selector.
    ChannelSelect,
    /// The container of the channel selector's header.
    ChannelSelectHeader,
    /// The menu of the channel selector.
    ChannelSelectMenu,
    /// The editor for a new message.
    InputEditor,
    /// The container round that editor.
    InputEditorContainer,
    /// The prompt to sign in, as the pointer's state over it calls for.
    SignInPrompt,
    Message(MessageStyle, MessagePart),
    ChannelName(ChannelNameStyle, ChannelNamePart),
}

/// A view of its own that the panel shows inside itself.
#[derive(Clone, Copy, Debug, PartialEq, Eq, Structural)]
pub enum ChildView {
    ChannelSelect,
    InputEditor,
}

/// The shape of the pointer.
#[derive(Clone, Copy, Debug, PartialEq, Eq, Structural)]
pub enum CursorStyle {
    PointingHand,
}

/// What a click of the left button calls for.
#[derive(Clone, Copy, Debug, PartialEq, Eq, Structural)]
pub enum Click {
    SignIn,
}

/// An element, with the elements inside it.
#[derive(Debug, PartialEq)]
pub enum Element {
    /// Children from top to bottom.
    Column { children: Vec<Element> },
    /// Children from left to right.
    Row { children: Vec<Element> },
    /// A line of text.
    Label { text: String, style: Style },
    /// Text that wraps.
    Text { text: String, style: Style },
    View { view: ChildView },
    /// The list of messages.
    MessageList,
    Empty,
    Contained { child: Box<Element>, style: Style },
    /// Takes its share of the room that the others leave, all of it where it
    /// is `expanded`.
    Flex { child: Box<Element>, flex: u32, expanded: bool },
    /// Reacts to the pointer.
    MouseArea { child: Box<Element>, region: usize, cursor: CursorStyle, on_left_click: Click },
    /// In the middle of the room that it gets.
    Aligned { child: Box<Element> },
    /// At least so wide, in pixels.
    Constrained { child: Box<Element>, min_width: u32 },
}

/// An [`Element`] with its texts as sequences of characters.
pub enum ElementTree {
    Column { children: Seq<ElementTree> },
    Row { children: Seq<ElementTree> },
    Label { text: Seq<char>, style: Style },
    Text { text: Seq<char>, style: Style },
    View { view: ChildView },
    MessageList,
    Empty,
    Contained { child: Box<ElementTree>, style: Style },
    Flex { child: Box<ElementTree>, flex: u32, expanded: bool },
    MouseArea { child: Box<ElementTree>, region: usize, cursor: CursorStyle, on_left_click: Click },
    Aligned { child: Box<ElementTree> },
    Constrained { child: Box<ElementTree>, min_width: u32 },
}

impl Element {
    /// What the element shows.
    pub open spec fn tree(self) -> ElementTree
        decreases self,
    {
        match self {
            Element::Column { children } => ElementTree::Column {
                children: Seq::new(
                    children@.len(),
                    |i: int|
                        if 0 <= i < children@.len() {
                            children@[i].tree()
                        } else {
                            ElementTree::Empty
                        },
                ),
            },
            Element::Row { children } => ElementTree::Row {
                children: Seq::new(
                    children@.len(),
                    |i: int|
                        if 0 <= i < children@.len() {
                            children@[i].tree()
                        } else {
                            ElementTree::Empty
                        },
                ),
            },
            Element::Label { text, style } => ElementTree::Label { text: text@, style },
            Element::Text { text, style } => ElementTree::Text { text: text@, style },
            Element::View { view } => ElementTree::View { view },
            Element::MessageList => ElementTree::MessageList,
            Element::Empty => ElementTree::Empty,
            Element::Contained { child, style } => ElementTree::Contained {
                child: Box::new(child.tree()),
                style,
            },
            Element::Flex { child, flex, expanded } => ElementTree::Flex {
                child: Box::new(child.tree()),
                flex,
                expanded,
            },
            Element::MouseArea { child, region, cursor, on_left_click } => ElementTree::MouseArea {
                child: Box::new(child.tree()),
                region,
                cursor,
                on_left_click,
            },
            Element::Aligned { child } => ElementTree::Aligned { child: Box::new(child.tree()) },
            Element::Constrained { child, min_width } => ElementTree::Constrained {
                child: Box::new(child.tree()),
                min_width,
            },
        }
    }
}

} // verus!
