//! The elements that the panel shows.

use crate::element::{
    ChannelNamePart, ChannelNameStyle, ChildView, Click, CursorStyle, Element, ElementTree,
    ItemType, MessagePart, MessageStyle, Style,
};
use crate::moment::Timestamp;
use crate::panel::ChatPanel;
use crate::timestamp::{format_timestamp, local_label};
use vstd::prelude::*;

verus! {

/// A message of a chat.
#[derive(Debug)]
pub struct ChannelMessage {
    /// The name by which its sender signs in.
    pub sender: String,
    pub timestamp: Timestamp,
    pub body: String,
    /// Whether the server has yet to acknowledge it.
    pub pending: bool,
}

/// An element in a container.
pub open spec fn contained(child: ElementTree, style: Style) -> ElementTree {
    ElementTree::Contained { child: Box::new(child), style }
}

/// How the name of a channel looks in the channel selector.
pub open spec fn channel_name_style(item_type: ItemType, is_hovered: bool) -> ChannelNameStyle {
    match (item_type, is_hovered) {
        (ItemType::Header, _) => ChannelNameStyle::Header,
        (ItemType::Selected, false) => ChannelNameStyle::ActiveItem,
        (ItemType::Selected, true) => ChannelNameStyle::HoveredActiveItem,
        (ItemType::Unselected, false) => ChannelNameStyle::Item,
        (ItemType::Unselected, true) => ChannelNameStyle::HoveredItem,
    }
}

/// The name of a channel, behind a hash sign.
pub open spec fn channel_name_tree(name: Seq<char>, style: ChannelNameStyle) -> ElementTree {
    contained(
        ElementTree::Row {
            children: seq![
                contained(
                    ElementTree::Label {
                        text: "#"@,
                        style: Style::ChannelName(style, ChannelNamePart::HashText),
                    },
                    Style::ChannelName(style, ChannelNamePart::HashContainer),
                ),
                ElementTree::Label {
                    text: name,
                    style: Style::ChannelName(style, ChannelNamePart::Name),
                },
            ],
        },
        Style::ChannelName(style, ChannelNamePart::Container),
    )
}

/// A message: its sender and its time side by side, above its body.
pub open spec fn message_tree(
    sender: Seq<char>,
    timestamp: Seq<char>,
    body: Seq<char>,
    style: MessageStyle,
) -> ElementTree {
    contained(
        ElementTree::Column {
            children: seq![
                ElementTree::Row {
                    children: seq![
                        contained(
                            ElementTree::Label {
                                text: sender,
                                style: Style::Message(style, MessagePart::SenderText),
                            },
                            Style::Message(style, MessagePart::SenderContainer),
                        ),
                        contained(
                            ElementTree::Label {
                                text: timestamp,
                                style: Style::Message(style, MessagePart::TimestampText),
                            },
                            Style::Message(style, MessagePart::TimestampContainer),
                        ),
                    ],
                },
                ElementTree::Text { text: body, style: Style::Message(style, MessagePart::Body) },
            ],
        },
        Style::Message(style, MessagePart::Container),
    )
}

/// The list of messages where a chat is shown, in the room that is left.
pub open spec fn messages_tree(has_channel: bool) -> ElementTree {
    ElementTree::Flex {
        child: Box::new(
            if has_channel {
                ElementTree::MessageList
            } else {
                ElementTree::Empty
            },
        ),
        flex: 1,
        expanded: true,
    }
}

/// The editor for a new message.
pub open spec fn input_box_tree() -> ElementTree {
    contained(
        ElementTree::View { view: ChildView::InputEditor },
        Style::InputEditorContainer,
    )
}

/// The channel selector above the messages above the editor for a new one.
pub open spec fn channel_tree(has_channel: bool) -> ElementTree {
    ElementTree::Column {
        children: seq![
            contained(
                ElementTree::View { view: ChildView::ChannelSelect },
                Style::ChannelSelect,
            ),
            messages_tree(has_channel),
            input_box_tree(),
        ],
    }
}

/// A prompt that signs the user in when it is clicked.
pub open spec fn sign_in_prompt_tree() -> ElementTree {
    ElementTree::Aligned {
        child: Box::new(
            ElementTree::MouseArea {
                child: Box::new(
                    ElementTree::Label {
                        text: "Sign in to use chat"@,
                        style: Style::SignInPrompt,
                    },
                ),
                region: 0,
                cursor: CursorStyle::PointingHand,
                on_left_click: Click::SignIn,
            },
        ),
    }
}

/// The whole panel: the prompt to sign in, or the chat for a user who has done
/// so.
pub open spec fn panel_tree(signed_in: bool, has_channel: bool) -> ElementTree {
    ElementTree::Constrained {
        child: Box::new(
            contained(
                if signed_in {
                    channel_tree(has_channel)
                } else {
                    sign_in_prompt_tree()
                },
                Style::Panel,
            ),
        ),
        min_width: 150,
    }
}

impl<W> ChatPanel<W> {
    /// What the user who has signed in, if any has, sees of the panel.
    pub open spec fn seen_by(self, user_id: Option<u64>) -> ElementTree {
        panel_tree(user_id is Some, self.active_channel is Some)
    }

    /// What is seen of a message when it is `now`.
    pub open spec fn seen_of(self, message: ChannelMessage, now: Timestamp) -> ElementTree {
        message_tree(
            message.sender@,
            local_label(
                message.timestamp.at_offset(self.local_timezone),
                now.at_offset(self.local_timezone),
            ),
            message.body@,
            if message.pending {
                MessageStyle::Pending
            } else {
                MessageStyle::Sent
            },
        )
    }

    /// The chat and the place in it of the message that a row shows.
    pub open spec fn source_of_row(self, ix: usize) -> Option<(u64, usize)> {
        match self.active_channel {
            Some(chat) => Some((chat, ix)),
            None => None,
        }
    }
}

/// Puts an element into a container.
fn contain(child: Element, style: Style) -> (element: Element)
    ensures
        element.tree() == contained(child.tree(), style),
{
    Element::Contained { child: Box::new(child), style }
}

impl<W: Copy> ChatPanel<W> {
    /// The whole panel, for the user who has signed in, if any has.
    pub fn render(&self, user_id: Option<u64>) -> (element: Element)
        ensures
            element.tree() == panel_tree(user_id is Some, self.active_channel is Some),
            element.tree() == self.seen_by(user_id),
    {
        let element = if user_id.is_some() {
            self.render_channel()
        } else {
            self.render_sign_in_prompt()
        };
        Element::Constrained { child: Box::new(contain(element, Style::Panel)), min_width: 150 }
    }

    /// The channel selector, the messages and the editor for a new one.
    pub fn render_channel(&self) -> (element: Element)
        ensures
            element.tree() == channel_tree(self.active_channel is Some),
    {
        let children: Vec<Element> = vec![
            contain(Element::View { view: ChildView::ChannelSelect }, Style::ChannelSelect),
            self.render_active_channel_messages(),
            self.render_input_box(),
        ];
        let element = Element::Column { children };
        assert(element.tree()->Column_children =~= channel_tree(
            self.active_channel is Some,
        )->Column_children);
        element
    }

    /// The messages of the chat that is shown.
    pub fn render_active_channel_messages(&self) -> (element: Element)
        ensures
            element.tree() == messages_tree(self.active_channel is Some),
    {
        let messages = if self.active_channel.is_some() {
            Element::MessageList
        } else {
            Element::Empty
        };
        proof {
            reveal_with_fuel(Element::tree, 2);
        }
        Element::Flex { child: Box::new(messages), flex: 1, expanded: true }
    }

    /// The message that a row of the list shows: the chat that it belongs to, and
    /// its place there. With no chat there is none.
    pub fn row_message(&self, ix: usize) -> (row: Option<(u64, usize)>)
        ensures
            row == (match self.active_channel {
                Some(chat) => Some((chat, ix)),
                None => None,
            }),
            row == self.source_of_row(ix),
    {
        match self.active_channel {
            Some(chat) => Some((chat, ix)),
            None => None,
        }
    }

    /// A message of the chat that is shown, when it is `now`.
    pub fn render_message(&self, message: &ChannelMessage, now: Timestamp) -> (element: Element)
        requires
            self.wf(),
            message.timestamp.wf(),
            now.wf(),
            message.timestamp.fits(self.local_timezone),
            now.fits(self.local_timezone),
        ensures
            element.tree() == message_tree(
                message.sender@,
                local_label(
                    message.timestamp.at_offset(self.local_timezone),
                    now.at_offset(self.local_timezone),
                ),
                message.body@,
                if message.pending {
                    MessageStyle::Pending
                } else {
                    MessageStyle::Sent
                },
            ),
            element.tree() == self.seen_of(*message, now),
    {
        let label = format_timestamp(message.timestamp, now, self.local_timezone);
        let style = if message.pending {
            MessageStyle::Pending
        } else {
            MessageStyle::Sent
        };
        let sender = Element::Label {
            text: message.sender.clone(),
            style: Style::Message(style, MessagePart::SenderText),
        };
        let timestamp = Element::Label {
            text: label,
            style: Style::Message(style, MessagePart::TimestampText),
        };
        let heading: Vec<Element> = vec![
            contain(sender, Style::Message(style, MessagePart::SenderContainer)),
            contain(timestamp, Style::Message(style, MessagePart::TimestampContainer)),
        ];
        let body = Element::Text {
            text: message.body.clone(),
            style: Style::Message(style, MessagePart::Body),
        };
        let row = Element::Row { children: heading };
        let ghost tree = message_tree(message.sender@, label@, message.body@, style);
        assert(row.tree()->Row_children
            =~= tree->Contained_child->Column_children[0]->Row_children);
        let children: Vec<Element> = vec![row, body];
        let column = Element::Column { children };
        proof {
            reveal_with_fuel(Element::tree, 2);
        }
        assert(column.tree()->Column_children =~= tree->Contained_child->Column_children);
        contain(column, Style::Message(style, MessagePart::Container))
    }

    /// The editor for a new message.
    pub fn render_input_box(&self) -> (element: Element)
        ensures
            element.tree() == input_box_tree(),
    {
        contain(Element::View { view: ChildView::InputEditor }, Style::InputEditorContainer)
    }

    /// The name of a channel, where the channel selector shows it.
    pub fn render_channel_name(name: &String, item_type: ItemType, is_hovered: bool) -> (element:
        Element)
        ensures
            element.tree() == channel_name_tree(name@, channel_name_style(item_type, is_hovered)),
    {
        let style = match (item_type, is_hovered) {
            (ItemType::Header, _) => ChannelNameStyle::Header,
            (ItemType::Selected, false) => ChannelNameStyle::ActiveItem,
            (ItemType::Selected, true) => ChannelNameStyle::HoveredActiveItem,
            (ItemType::Unselected, false) => ChannelNameStyle::Item,
            (ItemType::Unselected, true) => ChannelNameStyle::HoveredItem,
        };
        let hash = Element::Label {
            text: "#".to_owned(),
            style: Style::ChannelName(style, ChannelNamePart::HashText),
        };
        let label = Element::Label {
            text: name.clone(),
            style: Style::ChannelName(style, ChannelNamePart::Name),
        };
        let children: Vec<Element> = vec![
            contain(hash, Style::ChannelName(style, ChannelNamePart::HashContainer)),
            label,
        ];
        let row = Element::Row { children };
        proof {
            reveal_with_fuel(Element::tree, 2);
        }
        assert(row.tree()->Row_children =~= channel_name_tree(
            name@,
            style,
        )->Contained_child->Row_children);
        contain(row, Style::ChannelName(style, ChannelNamePart::Container))
    }

    /// The prompt to sign in.
    pub fn render_sign_in_prompt(&self) -> (element: Element)
        ensures
            element.tree() == sign_in_prompt_tree(),
    {
        let label = Element::Label {
            text: "Sign in to use chat".to_owned(),
            style: Style::SignInPrompt,
        };
        let area = Element::MouseArea {
            child: Box::new(label),
            region: 0,
            cursor: CursorStyle::PointingHand,
            on_left_click: Click::SignIn,
        };
        proof {
            reveal_with_fuel(Element::tree, 3);
        }
        Element::Aligned { child: Box::new(area) }
    }
}

} // verus!
