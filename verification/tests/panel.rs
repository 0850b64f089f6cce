use chat_panel::actions::{init, Action, Handler};
use chat_panel::dock::{CollaborationPanelDockPosition, DockPosition, Event};
use chat_panel::effect::{
    ChannelChat, ChannelChatEvent, Effect, Orientation, SerializedChatPanel, Signal, SoftWrap,
};
use chat_panel::element::Style;
use chat_panel::moment::UtcOffset;
use chat_panel::panel::{ChatPanel, LoadError, StoredPanel, Workspace};

const TIMEZONE: UtcOffset = UtcOffset { seconds: 7200 };

fn chat(id: u64, name: &str, message_count: usize) -> ChannelChat {
    ChannelChat { id, name: name.to_string(), message_count }
}

fn updated(old_start: usize, old_end: usize, new_count: usize) -> ChannelChatEvent {
    ChannelChatEvent::MessagesUpdated { old_start, old_end, new_count }
}

fn workspace(channel_count: usize) -> Workspace {
    Workspace { local_timezone: TIMEZONE, channel_count }
}

fn new_panel() -> ChatPanel<f32> {
    ChatPanel::new(workspace(0)).0
}

fn panel_with_chat() -> ChatPanel<f32> {
    let mut panel = new_panel();
    panel.react(Signal::ChatOpened { opened: Some(chat(7, "zed", 12)) });
    panel
}

fn opening_effects(channel_count: usize) -> Vec<Effect<f32>> {
    vec![
        Effect::CreateInputEditor {
            max_lines: 4,
            soft_wrap: SoftWrap::EditorWidth,
            style: Style::InputEditor,
        },
        Effect::CreateChannelSelect {
            item_count: 0,
            header: Style::ChannelSelectHeader,
            menu: Style::ChannelSelectMenu,
        },
        Effect::CreateMessageList {
            item_count: 0,
            orientation: Orientation::Bottom,
            overdraw: 1000,
        },
        Effect::ResetMessageList { count: 0 },
        Effect::SetChannelCount { count: channel_count },
        Effect::ObserveChannelStore,
        Effect::ObserveChannelSelect,
    ]
}

#[test]
fn init_binds_the_actions() {
    assert_eq!(
        init(),
        vec![
            (Action::Confirm, Handler::Send),
            (Action::LoadMoreMessages, Handler::LoadMoreMessages),
        ]
    );
}

#[test]
fn a_new_panel_shows_no_chat() {
    let (panel, effects) = ChatPanel::<f32>::new(workspace(3));
    assert_eq!(
        panel,
        ChatPanel { active_channel: None, local_timezone: TIMEZONE, width: None, has_focus: false }
    );
    assert_eq!(effects, opening_effects(3));
}

#[test]
fn nothing_to_load_gives_a_new_panel() {
    for stored in [StoredPanel::Missing, StoredPanel::Unreadable] {
        let (panel, effects) = ChatPanel::<f32>::load(stored, Some(workspace(2))).unwrap();
        assert_eq!(panel, new_panel());
        assert_eq!(effects, opening_effects(2));
    }
}

#[test]
fn a_stored_panel_has_its_width_again() {
    for width in [Some(321.5), None] {
        let stored = StoredPanel::Found(SerializedChatPanel { width });
        let (panel, effects) = ChatPanel::<f32>::load(stored, Some(workspace(2))).unwrap();
        assert_eq!(panel.width, width);
        assert_eq!(panel.active_channel, None);
        let mut expected = opening_effects(2);
        expected.push(Effect::Notify);
        assert_eq!(effects, expected);
    }
}

#[test]
fn a_malformed_panel_is_an_error() {
    let result = ChatPanel::<f32>::load(StoredPanel::Malformed, Some(workspace(2)));
    assert!(matches!(result, Err(LoadError::Malformed)));
}

#[test]
fn a_workspace_that_is_gone_is_an_error() {
    for stored in [
        StoredPanel::Missing,
        StoredPanel::Unreadable,
        StoredPanel::Found(SerializedChatPanel { width: Some(1.0) }),
    ] {
        let result = ChatPanel::<f32>::load(stored, None);
        assert!(matches!(result, Err(LoadError::WorkspaceGone)));
    }
    let result = ChatPanel::<f32>::load(StoredPanel::Malformed, None);
    assert!(matches!(result, Err(LoadError::Malformed)));
}

#[test]
fn a_row_shows_the_message_at_its_place() {
    for ix in [0, 5, usize::MAX] {
        assert_eq!(panel_with_chat().row_message(ix), Some((7, ix)));
        assert_eq!(new_panel().row_message(ix), None);
    }
}

#[test]
fn selecting_a_channel_opens_its_chat() {
    let mut panel = new_panel();
    assert_eq!(
        panel.react(Signal::ChannelSelected { channel: Some(9) }),
        vec![Effect::OpenChannelChat { channel: 9 }]
    );
    assert_eq!(panel.react(Signal::ChannelSelected { channel: None }), vec![]);
    assert_eq!(panel, new_panel());
}

#[test]
fn an_opened_chat_is_shown() {
    let mut panel = new_panel();
    let effects = panel.react(Signal::ChatOpened { opened: Some(chat(7, "zed", 12)) });
    assert_eq!(panel.active_channel, Some(7));
    assert_eq!(
        effects,
        vec![
            Effect::ResetMessageList { count: 12 },
            Effect::SetPlaceholder { text: "Message #zed".to_string() },
            Effect::Subscribe { chat: 7 },
        ]
    );
}

#[test]
fn a_chat_that_fails_to_open_changes_nothing() {
    let mut panel = panel_with_chat();
    assert_eq!(panel.react(Signal::ChatOpened { opened: None }), vec![]);
    assert_eq!(panel, panel_with_chat());
}

#[test]
fn another_chat_takes_the_place_of_the_first() {
    let mut panel = panel_with_chat();
    let effects = panel.set_active_channel(chat(8, "", 0));
    assert_eq!(panel.active_channel, Some(8));
    assert_eq!(
        effects,
        vec![
            Effect::ResetMessageList { count: 0 },
            Effect::SetPlaceholder { text: "Message #".to_string() },
            Effect::Subscribe { chat: 8 },
            Effect::Unsubscribe { chat: 7 },
        ]
    );
}

#[test]
fn opening_the_same_chat_again_changes_nothing() {
    let mut panel = panel_with_chat();
    assert_eq!(panel.set_active_channel(chat(7, "renamed", 40)), vec![]);
    assert_eq!(panel, panel_with_chat());
}

#[test]
fn a_change_of_the_channels_closes_the_chat() {
    let mut panel = panel_with_chat();
    let effects = panel.react(Signal::ChannelStoreChanged { channel_count: 5 });
    assert_eq!(panel, new_panel());
    assert_eq!(
        effects,
        vec![
            Effect::ResetMessageList { count: 0 },
            Effect::Unsubscribe { chat: 7 },
            Effect::SetChannelCount { count: 5 },
        ]
    );
    assert_eq!(
        panel.init_active_channel(6),
        vec![Effect::ResetMessageList { count: 0 }, Effect::SetChannelCount { count: 6 }]
    );
}

#[test]
fn changes_of_the_chat_shown_reach_the_list() {
    let mut panel = panel_with_chat();
    assert_eq!(
        panel.react(Signal::ChatChanged { chat: 7, event: updated(2, 5, 4) }),
        vec![Effect::SpliceMessageList { start: 2, end: 5, count: 4 }, Effect::Notify]
    );
    assert_eq!(panel.react(Signal::ChatChanged { chat: 8, event: updated(0, 0, 1) }), vec![]);
    let mut panel = new_panel();
    assert_eq!(panel.react(Signal::ChatChanged { chat: 7, event: updated(0, 0, 1) }), vec![]);
}

#[test]
fn scrolling_near_the_start_loads_more() {
    let mut panel = panel_with_chat();
    for first_visible in [0, 1, 49] {
        assert_eq!(
            panel.react(Signal::Scrolled { first_visible }),
            vec![Effect::LoadMoreMessages { chat: 7 }]
        );
    }
    for first_visible in [50, 51, usize::MAX] {
        assert_eq!(panel.react(Signal::Scrolled { first_visible }), vec![]);
    }
    assert_eq!(new_panel().react(Signal::Scrolled { first_visible: 0 }), vec![]);
}

#[test]
fn more_messages_are_loaded_on_demand() {
    assert_eq!(
        panel_with_chat().react(Signal::LoadMoreMessages),
        vec![Effect::LoadMoreMessages { chat: 7 }]
    );
    assert_eq!(new_panel().react(Signal::LoadMoreMessages), vec![]);
}

#[test]
fn a_message_is_sent_to_the_chat_shown() {
    for body in ["hello", "", "two\nlines"] {
        assert_eq!(
            panel_with_chat().react(Signal::Send { input: body.to_string() }),
            vec![Effect::ClearInput, Effect::SendMessage { chat: 7, body: body.to_string() }]
        );
    }
    assert_eq!(new_panel().react(Signal::Send { input: "hello".to_string() }), vec![]);
}

#[test]
fn signing_in_leads_to_the_input_editor() {
    let mut panel = new_panel();
    assert_eq!(
        panel.react(Signal::SignInClicked),
        vec![Effect::AuthenticateAndConnect { try_keychain: true }]
    );
    for connected in [false, true] {
        for panel_focused in [false, true] {
            let effects = panel.react(Signal::SignInFinished { connected, panel_focused });
            if connected && panel_focused {
                assert_eq!(effects, vec![Effect::FocusInput]);
            } else {
                assert_eq!(effects, vec![]);
            }
        }
    }
}

#[test]
fn focus_goes_to_the_input_editor_while_connected() {
    let mut panel = new_panel();
    assert_eq!(panel.react(Signal::FocusIn { connected: true }), vec![Effect::FocusInput]);
    assert_eq!(panel.react(Signal::FocusIn { connected: false }), vec![]);
    assert!(!panel.has_focus());
}

#[test]
fn a_width_is_kept_for_the_next_session() {
    let mut panel = panel_with_chat();
    let effects = panel.react(Signal::SizeSet { width: Some(240.25) });
    assert_eq!(
        effects,
        vec![
            Effect::Persist {
                key: "ChatPanel".to_string(),
                panel: SerializedChatPanel { width: Some(240.25) },
            },
            Effect::Notify,
        ]
    );
    assert_eq!(panel.size(100.0), 240.25);
    assert_eq!(panel.active_channel, Some(7));
    for effect in effects {
        if let Effect::Persist { panel: stored, .. } = effect {
            let (next, _) =
                ChatPanel::<f32>::load(StoredPanel::Found(stored), Some(workspace(0))).unwrap();
            assert_eq!(next.size(100.0), 240.25);
        }
    }
    panel.set_size(None);
    assert_eq!(panel.size(100.0), 100.0);
    assert_eq!(
        panel.serialize(),
        Effect::Persist {
            key: "ChatPanel".to_string(),
            panel: SerializedChatPanel { width: None },
        }
    );
}

/// The rows of the list and the subscriptions, as a host would keep them.
fn follow(effects: Vec<Effect<f32>>, rows: &mut usize, subscriptions: &mut Vec<u64>) {
    for effect in effects {
        match effect {
            Effect::CreateMessageList { item_count, .. } => *rows = item_count,
            Effect::ResetMessageList { count } => *rows = count,
            Effect::SpliceMessageList { start, end, count } => {
                *rows = *rows - (end - start) + count;
            }
            Effect::Subscribe { chat } => subscriptions.push(chat),
            Effect::Unsubscribe { chat } => subscriptions.retain(|other| *other != chat),
            _ => {}
        }
    }
}

#[test]
fn a_session_keeps_rows_and_subscriptions_in_step() {
    for stored in [
        StoredPanel::Missing,
        StoredPanel::Found(SerializedChatPanel { width: Some(300.0) }),
    ] {
        run_session(stored);
    }
}

fn run_session(stored: StoredPanel<f32>) {
    let (mut panel, effects) = ChatPanel::<f32>::load(stored, Some(workspace(2))).unwrap();
    let mut rows: usize = 99;
    let mut subscriptions: Vec<u64> = Vec::new();
    follow(effects, &mut rows, &mut subscriptions);
    assert_eq!(rows, 0);

    // Chat 1 has 10 messages, chat 2 has 3.
    let script: Vec<(Signal<f32>, usize, Vec<u64>)> = vec![
        (Signal::ChatOpened { opened: Some(chat(1, "one", 10)) }, 10, vec![1]),
        (Signal::ChatChanged { chat: 1, event: updated(10, 10, 2) }, 12, vec![1]),
        (Signal::ChatChanged { chat: 2, event: updated(0, 0, 50) }, 12, vec![1]),
        (Signal::ChatChanged { chat: 1, event: updated(3, 6, 1) }, 10, vec![1]),
        (Signal::ChatOpened { opened: Some(chat(2, "two", 53)) }, 53, vec![2]),
        (Signal::ChatChanged { chat: 1, event: updated(0, 10, 0) }, 53, vec![2]),
        (Signal::ChatChanged { chat: 2, event: updated(0, 53, 0) }, 0, vec![2]),
        (Signal::ChatOpened { opened: Some(chat(1, "one", 0)) }, 0, vec![1]),
        (Signal::ChannelStoreChanged { channel_count: 1 }, 0, vec![]),
        (Signal::ChatChanged { chat: 1, event: updated(0, 0, 5) }, 0, vec![]),
    ];
    for (signal, expected_rows, expected_subscriptions) in script {
        let effects = panel.react(signal);
        follow(effects, &mut rows, &mut subscriptions);
        assert_eq!(rows, expected_rows);
        assert_eq!(subscriptions, expected_subscriptions);
    }
    assert_eq!(panel.local_timezone, TIMEZONE);
    assert!(!panel.has_focus());
}

/// The channels on offer and the placeholder, as a host would keep them.
fn follow_texts(effects: Vec<Effect<f32>>, offered: &mut usize, placeholder: &mut String) {
    for effect in effects {
        match effect {
            Effect::CreateChannelSelect { item_count, .. } => *offered = item_count,
            Effect::SetChannelCount { count } => *offered = count,
            Effect::SetPlaceholder { text } => *placeholder = text,
            _ => {}
        }
    }
}

#[test]
fn a_session_offers_the_channels_and_names_the_chat() {
    for stored in [
        StoredPanel::Missing,
        StoredPanel::Found(SerializedChatPanel { width: Some(300.0) }),
    ] {
        let (mut panel, effects) = ChatPanel::<f32>::load(stored, Some(workspace(2))).unwrap();
        let mut offered: usize = 99;
        let mut placeholder = String::new();
        follow_texts(effects, &mut offered, &mut placeholder);
        assert_eq!(offered, 2);

        let script: Vec<(Signal<f32>, usize, &str)> = vec![
            (Signal::ChatOpened { opened: Some(chat(1, "one", 10)) }, 2, "Message #one"),
            (Signal::ChatOpened { opened: Some(chat(2, "two", 0)) }, 2, "Message #two"),
            (Signal::ChatOpened { opened: Some(chat(2, "renamed", 0)) }, 2, "Message #two"),
            (Signal::ChatOpened { opened: None }, 2, "Message #two"),
            (Signal::ChannelStoreChanged { channel_count: 5 }, 5, "Message #two"),
            (Signal::ChatOpened { opened: Some(chat(2, "renamed", 0)) }, 5, "Message #renamed"),
            (Signal::Scrolled { first_visible: 0 }, 5, "Message #renamed"),
            (Signal::ChannelStoreChanged { channel_count: 0 }, 0, "Message #renamed"),
        ];
        for (signal, expected_offered, expected_placeholder) in script {
            let effects = panel.react(signal);
            follow_texts(effects, &mut offered, &mut placeholder);
            assert_eq!(offered, expected_offered);
            assert_eq!(placeholder, expected_placeholder);
        }
    }
}

#[test]
fn the_panel_stands_left_or_right() {
    let panel = new_panel();
    assert_eq!(panel.position(CollaborationPanelDockPosition::Left), DockPosition::Left);
    assert_eq!(panel.position(CollaborationPanelDockPosition::Right), DockPosition::Right);
    assert!(panel.position_is_valid(DockPosition::Left));
    assert!(panel.position_is_valid(DockPosition::Right));
    assert!(!panel.position_is_valid(DockPosition::Bottom));
}

#[test]
fn moving_the_panel_writes_the_settings() {
    let panel = new_panel();
    let cases = [
        (DockPosition::Left, CollaborationPanelDockPosition::Left),
        (DockPosition::Bottom, CollaborationPanelDockPosition::Left),
        (DockPosition::Right, CollaborationPanelDockPosition::Right),
    ];
    for (position, dock) in cases {
        assert_eq!(panel.set_position(position), vec![Effect::SetDock { dock }]);
        if panel.position_is_valid(position) {
            assert_eq!(panel.position(dock), position);
        }
    }
}

#[test]
fn the_button_shows_an_icon_and_a_tooltip() {
    let panel = new_panel();
    assert_eq!(panel.icon_path(true), Some("icons/conversations.svg"));
    assert_eq!(panel.icon_path(false), None);
    assert_eq!(panel.icon_tooltip(), ("Chat Panel".to_string(), Some(Action::ToggleFocus)));
    assert_eq!(ChatPanel::<f32>::ui_name(), "ChatPanel");
}

#[test]
fn events_say_what_they_are() {
    let cases = [
        (Event::DockPositionChanged, true, false),
        (Event::Focus, false, true),
        (Event::Dismissed, false, false),
    ];
    for (event, changes_position, is_focus) in cases {
        assert_eq!(ChatPanel::<f32>::should_change_position_on_event(&event), changes_position);
        assert_eq!(ChatPanel::<f32>::is_focus_event(&event), is_focus);
    }
}
