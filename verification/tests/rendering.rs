use chat_panel::calendar::CalendarDate;
use chat_panel::element::{
    ChannelNamePart, ChannelNameStyle, ChildView, Click, CursorStyle, Element, ItemType,
    MessagePart, MessageStyle, Style,
};
use chat_panel::moment::{Timestamp, UtcOffset};
use chat_panel::render::ChannelMessage;
use chat_panel::ChatPanel;

fn contained(child: Element, style: Style) -> Element {
    Element::Contained { child: Box::new(child), style }
}

fn label(text: &str, style: Style) -> Element {
    Element::Label { text: text.to_string(), style }
}

fn panel(active_channel: Option<u64>) -> ChatPanel<f32> {
    ChatPanel {
        active_channel,
        local_timezone: UtcOffset { seconds: -18000 },
        width: None,
        has_focus: false,
    }
}

fn moment(day: u8, hour: u8) -> Timestamp {
    Timestamp {
        date: CalendarDate { year: 2023, month: 9, day },
        hour,
        minute: 5,
        second: 30,
        offset: UtcOffset { seconds: 0 },
    }
}

#[test]
fn a_message_shows_sender_time_and_body() {
    for (pending, style) in [(false, MessageStyle::Sent), (true, MessageStyle::Pending)] {
        let message = ChannelMessage {
            sender: "ada".to_string(),
            timestamp: moment(15, 3),
            body: "hello".to_string(),
            pending,
        };
        let heading = Element::Row {
            children: vec![
                contained(
                    label("ada", Style::Message(style, MessagePart::SenderText)),
                    Style::Message(style, MessagePart::SenderContainer),
                ),
                contained(
                    label(
                        "yesterday at 10:05pm",
                        Style::Message(style, MessagePart::TimestampText),
                    ),
                    Style::Message(style, MessagePart::TimestampContainer),
                ),
            ],
        };
        let body = Element::Text {
            text: "hello".to_string(),
            style: Style::Message(style, MessagePart::Body),
        };
        assert_eq!(
            panel(Some(1)).render_message(&message, moment(15, 12)),
            contained(
                Element::Column { children: vec![heading, body] },
                Style::Message(style, MessagePart::Container),
            )
        );
    }
}

#[test]
fn a_channel_name_follows_a_hash_sign() {
    let cases = [
        (ItemType::Header, false, ChannelNameStyle::Header),
        (ItemType::Header, true, ChannelNameStyle::Header),
        (ItemType::Selected, false, ChannelNameStyle::ActiveItem),
        (ItemType::Selected, true, ChannelNameStyle::HoveredActiveItem),
        (ItemType::Unselected, false, ChannelNameStyle::Item),
        (ItemType::Unselected, true, ChannelNameStyle::HoveredItem),
    ];
    for (item_type, is_hovered, style) in cases {
        let row = Element::Row {
            children: vec![
                contained(
                    label("#", Style::ChannelName(style, ChannelNamePart::HashText)),
                    Style::ChannelName(style, ChannelNamePart::HashContainer),
                ),
                label("zed", Style::ChannelName(style, ChannelNamePart::Name)),
            ],
        };
        assert_eq!(
            ChatPanel::<f32>::render_channel_name(&"zed".to_string(), item_type, is_hovered),
            contained(row, Style::ChannelName(style, ChannelNamePart::Container))
        );
    }
}

#[test]
fn a_user_who_has_signed_in_sees_the_chat() {
    for (active_channel, messages) in [(None, Element::Empty), (Some(4), Element::MessageList)] {
        let column = Element::Column {
            children: vec![
                contained(
                    Element::View { view: ChildView::ChannelSelect },
                    Style::ChannelSelect,
                ),
                Element::Flex { child: Box::new(messages), flex: 1, expanded: true },
                contained(
                    Element::View { view: ChildView::InputEditor },
                    Style::InputEditorContainer,
                ),
            ],
        };
        assert_eq!(
            panel(active_channel).render(Some(1)),
            Element::Constrained {
                child: Box::new(contained(column, Style::Panel)),
                min_width: 150,
            }
        );
    }
}

#[test]
fn others_see_a_prompt_to_sign_in() {
    for active_channel in [None, Some(4)] {
        let prompt = Element::Aligned {
            child: Box::new(Element::MouseArea {
                child: Box::new(label("Sign in to use chat", Style::SignInPrompt)),
                region: 0,
                cursor: CursorStyle::PointingHand,
                on_left_click: Click::SignIn,
            }),
        };
        assert_eq!(
            panel(active_channel).render(None),
            Element::Constrained {
                child: Box::new(contained(prompt, Style::Panel)),
                min_width: 150,
            }
        );
    }
}
