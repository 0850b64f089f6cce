//! What can be seen of the panel, in any of its elements.

use crate::calendar::CalendarDate;
use crate::element::{
    ChannelNamePart, ChannelNameStyle, Element, ElementTree, MessagePart, MessageStyle, Style,
};
use crate::moment::{day_at, Timestamp};
use crate::panel::ChatPanel;
use crate::reading_laws::{law_labels_can_be_read, reads_label};
use crate::render::{channel_name_tree, message_tree, panel_tree, ChannelMessage};
use crate::timestamp::local_label;
use vstd::prelude::*;

verus! {

/// A text that can be seen, with its style and that of the innermost container
/// round it.
pub struct SeenText {
    pub text: Seq<char>,
    pub style: Style,
    pub container: Option<Style>,
}

/// The texts that can be seen of an element, in their order, where it stands in
/// such a container.
pub open spec fn texts(tree: ElementTree, container: Option<Style>) -> Seq<SeenText>
    decreases tree, 0int,
{
    match tree {
        ElementTree::Column { children } => texts_of_all(children, container),
        ElementTree::Row { children } => texts_of_all(children, container),
        ElementTree::Label { text, style } => seq![SeenText { text, style, container }],
        ElementTree::Text { text, style } => seq![SeenText { text, style, container }],
        ElementTree::Contained { child, style } => texts(*child, Some(style)),
        ElementTree::Flex { child, .. } => texts(*child, container),
        ElementTree::MouseArea { child, .. } => texts(*child, container),
        ElementTree::Aligned { child } => texts(*child, container),
        ElementTree::Constrained { child, .. } => texts(*child, container),
        _ => seq![],
    }
}

/// The texts that can be seen of some elements, in their order.
pub open spec fn texts_of_all(trees: Seq<ElementTree>, container: Option<Style>) -> Seq<SeenText>
    decreases trees, 1int,
{
    if trees.len() == 0 {
        seq![]
    } else {
        texts_of_all(trees.drop_last(), container) + texts(trees.last(), container)
    }
}

proof fn lemma_texts_of_two(a: ElementTree, b: ElementTree, container: Option<Style>)
    ensures
        texts_of_all(seq![a, b], container) == texts(a, container) + texts(b, container),
{
    reveal_with_fuel(texts_of_all, 3);
    assert(seq![a, b].drop_last() =~= seq![a]);
    assert(seq![a].drop_last() =~= seq![]);
}

/// Of any message, its sender, its time and its body can be seen as they are, in
/// this order, each in its own style.
pub proof fn law_a_message_shows_sender_time_and_body(
    sender: Seq<char>,
    timestamp: Seq<char>,
    body: Seq<char>,
    style: MessageStyle,
)
    ensures
        texts(message_tree(sender, timestamp, body, style), None) == seq![
            SeenText {
                text: sender,
                style: Style::Message(style, MessagePart::SenderText),
                container: Some(Style::Message(style, MessagePart::SenderContainer)),
            },
            SeenText {
                text: timestamp,
                style: Style::Message(style, MessagePart::TimestampText),
                container: Some(Style::Message(style, MessagePart::TimestampContainer)),
            },
            SeenText {
                text: body,
                style: Style::Message(style, MessagePart::Body),
                container: Some(Style::Message(style, MessagePart::Container)),
            },
        ],
{
    reveal_with_fuel(texts, 4);
    let container = Some(Style::Message(style, MessagePart::Container));
    let column = *message_tree(sender, timestamp, body, style)->Contained_child;
    let parts = column->Column_children;
    let heading = parts[0]->Row_children;
    lemma_texts_of_two(parts[0], parts[1], container);
    lemma_texts_of_two(heading[0], heading[1], container);
    assert(parts =~= seq![parts[0], parts[1]]);
    assert(heading =~= seq![heading[0], heading[1]]);
}

/// Of any channel, a hash sign and its name as it is can be seen.
pub proof fn law_a_channel_shows_its_name(name: Seq<char>, style: ChannelNameStyle)
    ensures
        texts(channel_name_tree(name, style), None) == seq![
            SeenText {
                text: seq!['#'],
                style: Style::ChannelName(style, ChannelNamePart::HashText),
                container: Some(Style::ChannelName(style, ChannelNamePart::HashContainer)),
            },
            SeenText {
                text: name,
                style: Style::ChannelName(style, ChannelNamePart::Name),
                container: Some(Style::ChannelName(style, ChannelNamePart::Container)),
            },
        ],
{
    reveal_strlit("#");
    reveal_with_fuel(texts, 4);
    let parts = (*channel_name_tree(name, style)->Contained_child)->Row_children;
    lemma_texts_of_two(
        parts[0],
        parts[1],
        Some(Style::ChannelName(style, ChannelNamePart::Container)),
    );
    assert(parts =~= seq![parts[0], parts[1]]);
    assert("#"@ =~= seq!['#']);
}

/// Any message is laid out in one way: its sender and its time on one line, each
/// in a container, above its body, which wraps.
pub proof fn law_messages_are_laid_out_alike(
    sender: Seq<char>,
    timestamp: Seq<char>,
    body: Seq<char>,
    style: MessageStyle,
)
    ensures
        ({
            let tree = message_tree(sender, timestamp, body, style);
            let column = *tree->Contained_child;
            let parts = column->Column_children;
            let heading = parts[0]->Row_children;
            &&& tree is Contained && tree->Contained_style == Style::Message(
                style,
                MessagePart::Container,
            )
            &&& column is Column && parts.len() == 2 && parts[0] is Row && parts[1] is Text
            &&& heading.len() == 2 && heading[0] is Contained && heading[1] is Contained
            &&& *heading[0]->Contained_child is Label && *heading[1]->Contained_child is Label
        }),
{
}

/// Any channel's name is laid out in one way: on one line, behind the hash sign
/// in a container of its own.
pub proof fn law_channel_names_are_laid_out_alike(name: Seq<char>, style: ChannelNameStyle)
    ensures
        ({
            let tree = channel_name_tree(name, style);
            let row = *tree->Contained_child;
            let parts = row->Row_children;
            &&& tree is Contained && tree->Contained_style == Style::ChannelName(
                style,
                ChannelNamePart::Container,
            )
            &&& row is Row && parts.len() == 2 && parts[0] is Contained && parts[1] is Label
            &&& *parts[0]->Contained_child is Label
        }),
{
}

/// A user who has signed in sees no prompt to do so, and one who has not sees
/// nothing else.
pub proof fn law_the_prompt_is_for_those_not_signed_in(signed_in: bool, has_channel: bool)
    ensures
        texts(panel_tree(signed_in, has_channel), None) == if signed_in {
            seq![]
        } else {
            seq![
                SeenText {
                    text: "Sign in to use chat"@,
                    style: Style::SignInPrompt,
                    container: Some(Style::Panel),
                },
            ]
        },
{
    reveal_with_fuel(texts, 6);
    reveal_with_fuel(texts_of_all, 5);
    let seen = texts(panel_tree(signed_in, has_channel), None);
    if signed_in {
        let shown = *(*panel_tree(true, has_channel)->Constrained_child)->Contained_child;
        let parts = shown->Column_children;
        let container = Some(Style::Panel);
        assert(parts.drop_last() =~= seq![parts[0], parts[1]]);
        lemma_texts_of_two(parts[0], parts[1], container);
        assert(texts_of_all(parts, container) =~= seq![]);
    }
}

/// Any user who has signed in sees the same, and so does any that has not,
/// whichever chat is shown.
pub proof fn law_users_see_the_same<W>(
    panel: ChatPanel<W>,
    other: ChatPanel<W>,
    user_id: Option<u64>,
    other_id: Option<u64>,
)
    requires
        user_id is Some == other_id is Some,
        panel.active_channel is Some == other.active_channel is Some,
    ensures
        panel.seen_by(user_id) == other.seen_by(other_id),
        texts(panel.seen_by(user_id), None).len() == if user_id is Some {
            0int
        } else {
            1int
        },
{
    law_the_prompt_is_for_those_not_signed_in(user_id is Some, panel.active_channel is Some);
}

/// Of any message, the sender and the body can be seen as they are, and between
/// them the time, which reads as the reader's clock has it. The styles are those
/// of a pending message while it is one.
pub proof fn law_a_message_is_seen_as_it_is<W>(
    panel: ChatPanel<W>,
    message: ChannelMessage,
    now: Timestamp,
    date: CalendarDate,
)
    requires
        panel.wf(),
        message.timestamp.fits(panel.local_timezone),
        now.fits(panel.local_timezone),
        date.wf(),
        date.day_number() == day_at(
            message.timestamp.unix_seconds() + panel.local_timezone.seconds,
        ),
    ensures
        ({
            let seen = texts(panel.seen_of(message, now), None);
            let clock = message.timestamp.unix_seconds() + panel.local_timezone.seconds;
            let style = if message.pending {
                MessageStyle::Pending
            } else {
                MessageStyle::Sent
            };
            &&& seen.len() == 3
            &&& seen[0].text == message.sender@
            &&& reads_label(
                seen[1].text,
                date,
                clock % 86400 / 3600,
                clock % 3600 / 60,
                day_at(now.unix_seconds() + panel.local_timezone.seconds),
            )
            &&& seen[2].text == message.body@
            &&& seen[0].style == Style::Message(style, MessagePart::SenderText)
            &&& seen[1].style == Style::Message(style, MessagePart::TimestampText)
            &&& seen[2].style == Style::Message(style, MessagePart::Body)
        }),
{
    let style = if message.pending {
        MessageStyle::Pending
    } else {
        MessageStyle::Sent
    };
    let label = local_label(
        message.timestamp.at_offset(panel.local_timezone),
        now.at_offset(panel.local_timezone),
    );
    law_labels_can_be_read(message.timestamp, now, panel.local_timezone, date);
    law_a_message_shows_sender_time_and_body(message.sender@, label, message.body@, style);
}

/// An element that holds others shows them as they are, in their order.
pub proof fn law_elements_show_what_they_hold(element: Element)
    ensures
        element matches Element::Column { children } ==> {
            &&& element.tree() is Column
            &&& element.tree()->Column_children.len() == children@.len()
            &&& forall|i: int|
                0 <= i < children@.len() ==> #[trigger] element.tree()->Column_children[i]
                    == children@[i].tree()
        },
        element matches Element::Row { children } ==> {
            &&& element.tree() is Row
            &&& element.tree()->Row_children.len() == children@.len()
            &&& forall|i: int|
                0 <= i < children@.len() ==> #[trigger] element.tree()->Row_children[i]
                    == children@[i].tree()
        },
        element matches Element::Label { text, style } ==> element.tree() == (ElementTree::Label {
            text: text@,
            style,
        }),
        element matches Element::Text { text, style } ==> element.tree() == (ElementTree::Text {
            text: text@,
            style,
        }),
        element matches Element::View { view } ==> element.tree() == (ElementTree::View { view }),
        element is MessageList ==> element.tree() is MessageList,
        element is Empty ==> element.tree() is Empty,
        element matches Element::Contained { child, style } ==> element.tree() == (
        ElementTree::Contained { child: Box::new(child.tree()), style }),
        element matches Element::Flex { child, flex, expanded } ==> element.tree() == (
        ElementTree::Flex { child: Box::new(child.tree()), flex, expanded }),
        element matches Element::MouseArea { child, region, cursor, on_left_click } ==>
            element.tree() == (ElementTree::MouseArea {
            child: Box::new(child.tree()),
            region,
            cursor,
            on_left_click,
        }),
        element matches Element::Aligned { child } ==> element.tree() == (ElementTree::Aligned {
            child: Box::new(child.tree()),
        }),
        element matches Element::Constrained { child, min_width } ==> element.tree() == (
        ElementTree::Constrained { child: Box::new(child.tree()), min_width }),
{
    reveal_with_fuel(Element::tree, 2);
}

} // verus!
