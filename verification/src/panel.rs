//! The state of the panel, and how it answers to what happens.

use crate::effect::{
    views, ChannelChat, ChannelChatEvent, Effect, EffectView, Orientation, SerializedChatPanel,
    Signal, SoftWrap,
};
use crate::element::Style;
use crate::moment::UtcOffset;
use vstd::prelude::*;
use vstd::string::*;

verus! {

/// Earlier messages are loaded while the first message in sight is one of so
/// many first ones.
pub const MESSAGE_LOADING_THRESHOLD: usize = 50;

/// The key under which the panel is kept from one session to the next.
pub const CHAT_PANEL_KEY: &'static str = "ChatPanel";

/// The panel. `W` is the type of a width.
#[derive(Debug, PartialEq)]
pub struct ChatPanel<W> {
    /// The chat that is shown. The panel is subscribed to its changes.
    pub active_channel: Option<u64>,
    pub local_timezone: UtcOffset,
    /// The width that the user gave the panel.
    pub width: Option<W>,
    /// Whether the panel tells its dock that it has the focus.
    pub has_focus: bool,
}

/// A state of the panel, and what is asked of the world on the way to it, in
/// this order.
pub type Outcome<W> = (ChatPanel<W>, Seq<EffectView<W>>);

/// What reading the panel of an earlier session came to.
#[derive(Debug)]
pub enum StoredPanel<W> {
    /// The store could not be read.
    Unreadable,
    /// The store holds no panel.
    Missing,
    /// The store holds something that is no panel.
    Malformed,
    Found(SerializedChatPanel<W>),
}

/// What a panel takes from the workspace that it is made in.
#[derive(Clone, Copy, Debug, PartialEq, Eq, Structural)]
pub struct Workspace {
    pub local_timezone: UtcOffset,
    /// How many channels there are.
    pub channel_count: usize,
}

/// Why the panel could not be loaded.
#[derive(Clone, Copy, Debug, PartialEq, Eq, Structural)]
pub enum LoadError {
    /// What was kept of it is no panel.
    Malformed,
    /// The workspace is gone.
    WorkspaceGone,
}

/// What the states of the panel mean.
impl<W> ChatPanel<W> {
    pub open spec fn wf(self) -> bool {
        self.local_timezone.wf()
    }

    /// The state with no chat, and the way to it where there are so many
    /// channels.
    pub open spec fn with_no_channel(self, channel_count: usize) -> Outcome<W> {
        (
            ChatPanel { active_channel: None, ..self },
            seq![EffectView::ResetMessageList { count: 0 }] + self.end_subscription()
                + seq![EffectView::SetChannelCount { count: channel_count }],
        )
    }

    /// What ends the subscription to the chat that is shown.
    pub open spec fn end_subscription(self) -> Seq<EffectView<W>> {
        match self.active_channel {
            Some(chat) => seq![EffectView::Unsubscribe { chat }],
            None => seq![],
        }
    }

    /// The state with this chat, and the way to it. There is nothing to do where
    /// the chat is shown already.
    pub open spec fn with_channel(self, chat: ChannelChat) -> Outcome<W> {
        if self.active_channel == Some(chat.id) {
            (self, seq![])
        } else {
            (
                ChatPanel { active_channel: Some(chat.id), ..self },
                seq![
                    EffectView::ResetMessageList { count: chat.message_count },
                    EffectView::SetPlaceholder { text: "Message #"@ + chat.name@ },
                    EffectView::Subscribe { chat: chat.id },
                ] + self.end_subscription(),
            )
        }
    }

    /// What brings the list of messages up to a change in the chat.
    pub open spec fn changes_shown(event: ChannelChatEvent) -> Seq<EffectView<W>> {
        match event {
            ChannelChatEvent::MessagesUpdated { old_start, old_end, new_count } => seq![
                EffectView::SpliceMessageList { start: old_start, end: old_end, count: new_count },
                EffectView::Notify,
            ],
        }
    }

    /// What sends a message to the chat that is shown. With no chat the message
    /// stays in the input editor.
    pub open spec fn sending(self, input: Seq<char>) -> Seq<EffectView<W>> {
        match self.active_channel {
            Some(chat) => seq![
                EffectView::ClearInput,
                EffectView::SendMessage { chat, body: input },
            ],
            None => seq![],
        }
    }

    /// What loads earlier messages of the chat that is shown.
    pub open spec fn loading_more(self) -> Seq<EffectView<W>> {
        match self.active_channel {
            Some(chat) => seq![EffectView::LoadMoreMessages { chat }],
            None => seq![],
        }
    }

    /// What keeps the panel for the next session.
    pub open spec fn persisting(self) -> EffectView<W> {
        EffectView::Persist {
            key: CHAT_PANEL_KEY@,
            panel: SerializedChatPanel { width: self.width },
        }
    }

    /// The state with this width, and the way to it.
    pub open spec fn with_width(self, width: Option<W>) -> Outcome<W> {
        let panel = ChatPanel { width, ..self };
        (panel, seq![panel.persisting(), EffectView::Notify])
    }

    /// What gives the input editor the focus, if anything is to do so.
    pub open spec fn focusing_input(wanted: bool) -> Seq<EffectView<W>> {
        if wanted {
            seq![EffectView::FocusInput]
        } else {
            seq![]
        }
    }

    /// How a new panel is made.
    pub open spec fn fresh(workspace: Workspace) -> Outcome<W> {
        let panel = ChatPanel {
            active_channel: None,
            local_timezone: workspace.local_timezone,
            width: None,
            has_focus: false,
        };
        (
            panel,
            seq![
                EffectView::CreateInputEditor {
                    max_lines: 4,
                    soft_wrap: SoftWrap::EditorWidth,
                    style: Style::InputEditor,
                },
                EffectView::CreateChannelSelect {
                    item_count: 0,
                    header: Style::ChannelSelectHeader,
                    menu: Style::ChannelSelectMenu,
                },
                EffectView::CreateMessageList {
                    item_count: 0,
                    orientation: Orientation::Bottom,
                    overdraw: 1000,
                },
            ] + panel.with_no_channel(workspace.channel_count).1 + seq![
                EffectView::ObserveChannelStore,
                EffectView::ObserveChannelSelect,
            ],
        )
    }

    /// How a panel of an earlier session is made again.
    pub open spec fn restored(kept: SerializedChatPanel<W>, workspace: Workspace) -> Outcome<W> {
        let (panel, effects) = Self::fresh(workspace);
        (ChatPanel { width: kept.width, ..panel }, effects.push(EffectView::Notify))
    }

    /// How a session starts, with what was kept of an earlier one, if anything
    /// was.
    pub open spec fn started(
        kept: Option<SerializedChatPanel<W>>,
        workspace: Workspace,
    ) -> Outcome<W> {
        match kept {
            Some(kept) => Self::restored(kept, workspace),
            None => Self::fresh(workspace),
        }
    }

    /// How loading ends, with what reading the store came to and in this workspace,
    /// if it is still there.
    pub open spec fn loaded(
        stored: StoredPanel<W>,
        workspace: Option<Workspace>,
    ) -> Result<Outcome<W>, LoadError> {
        match (stored, workspace) {
            (StoredPanel::Malformed, _) => Err(LoadError::Malformed),
            (_, None) => Err(LoadError::WorkspaceGone),
            (StoredPanel::Found(kept), Some(workspace)) => Ok(
                Self::started(Some(kept), workspace),
            ),
            (_, Some(workspace)) => Ok(Self::started(None, workspace)),
        }
    }

    /// How the panel answers to a signal. It hears of changes in the chat that
    /// it is subscribed to only.
    pub open spec fn step(self, signal: Signal<W>) -> Outcome<W> {
        match signal {
            Signal::ChannelStoreChanged { channel_count } => self.with_no_channel(channel_count),
            Signal::ChannelSelected { channel: Some(channel) } => (
                self,
                seq![EffectView::OpenChannelChat { channel }],
            ),
            Signal::ChannelSelected { channel: None } => (self, seq![]),
            Signal::ChatOpened { opened: Some(chat) } => self.with_channel(chat),
            Signal::ChatOpened { opened: None } => (self, seq![]),
            Signal::ChatChanged { chat, event } => (
                self,
                if self.active_channel == Some(chat) {
                    Self::changes_shown(event)
                } else {
                    seq![]
                },
            ),
            Signal::Scrolled { first_visible } => (
                self,
                if first_visible < MESSAGE_LOADING_THRESHOLD {
                    self.loading_more()
                } else {
                    seq![]
                },
            ),
            Signal::Send { input } => (self, self.sending(input@)),
            Signal::LoadMoreMessages => (self, self.loading_more()),
            Signal::SignInClicked => (
                self,
                seq![EffectView::AuthenticateAndConnect { try_keychain: true }],
            ),
            Signal::SignInFinished { connected, panel_focused } => (
                self,
                Self::focusing_input(connected && panel_focused),
            ),
            Signal::FocusIn { connected } => (self, Self::focusing_input(connected)),
            Signal::SizeSet { width } => self.with_width(width),
        }
    }
}

impl<W: Copy> ChatPanel<W> {
    /// A panel that shows no chat.
    pub fn new(workspace: Workspace) -> (made: (ChatPanel<W>, Vec<Effect<W>>))
        ensures
            made.0 == Self::fresh(workspace).0,
            views(made.1@) == Self::fresh(workspace).1,
    {
        let mut panel = ChatPanel {
            active_channel: None,
            local_timezone: workspace.local_timezone,
            width: None,
            has_focus: false,
        };
        let mut effects: Vec<Effect<W>> = vec![
            Effect::CreateInputEditor {
                max_lines: 4,
                soft_wrap: SoftWrap::EditorWidth,
                style: Style::InputEditor,
            },
            Effect::CreateChannelSelect {
                item_count: 0,
                header: Style::ChannelSelectHeader,
                menu: Style::ChannelSelectMenu,
            },
            Effect::CreateMessageList {
                item_count: 0,
                orientation: Orientation::Bottom,
                overdraw: 1000,
            },
        ];
        let mut emptied = panel.init_active_channel(workspace.channel_count);
        effects.append(&mut emptied);
        effects.push(Effect::ObserveChannelStore);
        effects.push(Effect::ObserveChannelSelect);
        (panel, effects)
    }

    /// The panel of an earlier session, or a new one where nothing was kept or
    /// the store could not be read. What is no panel comes to light before the
    /// workspace is asked for.
    pub fn load(stored: StoredPanel<W>, workspace: Option<Workspace>) -> (loaded: Result<
        (ChatPanel<W>, Vec<Effect<W>>),
        LoadError,
    >)
        ensures
            match (stored, workspace) {
                (StoredPanel::Malformed, _) => {
                    &&& loaded matches Err(error)
                    &&& error == LoadError::Malformed
                },
                (_, None) => {
                    &&& loaded matches Err(error)
                    &&& error == LoadError::WorkspaceGone
                },
                (StoredPanel::Unreadable | StoredPanel::Missing, Some(workspace)) => {
                    &&& loaded matches Ok(made)
                    &&& made.0 == Self::started(None, workspace).0
                    &&& views(made.1@) == Self::started(None, workspace).1
                },
                (StoredPanel::Found(kept), Some(workspace)) => {
                    &&& loaded matches Ok(made)
                    &&& made.0 == Self::started(Some(kept), workspace).0
                    &&& views(made.1@) == Self::started(Some(kept), workspace).1
                },
            },
            match (loaded, Self::loaded(stored, workspace)) {
                (Ok(made), Ok(outcome)) => made.0 == outcome.0 && views(made.1@) == outcome.1,
                (Err(error), Err(expected)) => error == expected,
                _ => false,
            },
    {
        let serialized = match stored {
            StoredPanel::Unreadable => None,
            StoredPanel::Missing => None,
            StoredPanel::Malformed => {
                return Err(LoadError::Malformed);
            },
            StoredPanel::Found(serialized) => Some(serialized),
        };
        match workspace {
            Some(workspace) => {
                let (mut panel, mut effects) = ChatPanel::new(workspace);
                if let Some(serialized) = serialized {
                    panel.width = serialized.width;
                    effects.push(Effect::Notify);
                }
                Ok((panel, effects))
            },
            None => Err(LoadError::WorkspaceGone),
        }
    }

    /// Keeps the panel for the next session.
    pub fn serialize(&self) -> (effect: Effect<W>)
        ensures
            effect@ == self.persisting(),
    {
        Effect::Persist {
            key: CHAT_PANEL_KEY.to_owned(),
            panel: SerializedChatPanel { width: self.width },
        }
    }

    /// Shows no chat, and offers as many channels as there are.
    pub fn init_active_channel(&mut self, channel_count: usize) -> (effects: Vec<Effect<W>>)
        ensures
            *final(self) == old(self).with_no_channel(channel_count).0,
            views(effects@) == old(self).with_no_channel(channel_count).1,
    {
        let mut effects: Vec<Effect<W>> = vec![Effect::ResetMessageList { count: 0 }];
        if let Some(chat) = self.active_channel {
            effects.push(Effect::Unsubscribe { chat });
        }
        self.active_channel = None;
        effects.push(Effect::SetChannelCount { count: channel_count });
        effects
    }

    /// Shows this chat.
    pub fn set_active_channel(&mut self, chat: ChannelChat) -> (effects: Vec<Effect<W>>)
        ensures
            *final(self) == old(self).with_channel(chat).0,
            views(effects@) == old(self).with_channel(chat).1,
    {
        let mut effects: Vec<Effect<W>> = Vec::new();
        if self.active_channel != Some(chat.id) {
            effects.push(Effect::ResetMessageList { count: chat.message_count });
            let mut placeholder = "Message #".to_owned();
            placeholder.append(chat.name.as_str());
            effects.push(Effect::SetPlaceholder { text: placeholder });
            effects.push(Effect::Subscribe { chat: chat.id });
            if let Some(former) = self.active_channel {
                effects.push(Effect::Unsubscribe { chat: former });
            }
            self.active_channel = Some(chat.id);
        }
        effects
    }

    /// Brings the list of messages up to a change in the chat that is shown.
    pub fn channel_did_change(&self, event: ChannelChatEvent) -> (effects: Vec<Effect<W>>)
        ensures
            views(effects@) == Self::changes_shown(event),
    {
        match event {
            ChannelChatEvent::MessagesUpdated { old_start, old_end, new_count } => vec![
                Effect::SpliceMessageList { start: old_start, end: old_end, count: new_count },
                Effect::Notify,
            ],
        }
    }

    /// Sends what the input editor holds to the chat that is shown.
    pub fn send(&self, input: String) -> (effects: Vec<Effect<W>>)
        ensures
            views(effects@) == self.sending(input@),
    {
        match self.active_channel {
            Some(chat) => vec![Effect::ClearInput, Effect::SendMessage { chat, body: input }],
            None => Vec::new(),
        }
    }

    /// Loads earlier messages of the chat that is shown.
    pub fn load_more_messages(&self) -> (effects: Vec<Effect<W>>)
        ensures
            views(effects@) == self.loading_more(),
    {
        match self.active_channel {
            Some(chat) => vec![Effect::LoadMoreMessages { chat }],
            None => Vec::new(),
        }
    }

    /// Hands the focus on to the input editor, while there is a connection.
    pub fn focus_in(&self, connected: bool) -> (effects: Vec<Effect<W>>)
        ensures
            views(effects@) == Self::focusing_input(connected),
    {
        if connected {
            vec![Effect::FocusInput]
        } else {
            Vec::new()
        }
    }

    /// Gives the panel a width, and keeps that for the next session.
    pub fn set_size(&mut self, size: Option<W>) -> (effects: Vec<Effect<W>>)
        ensures
            *final(self) == old(self).with_width(size).0,
            views(effects@) == old(self).with_width(size).1,
    {
        self.width = size;
        vec![self.serialize(), Effect::Notify]
    }

    /// Answers to a signal.
    pub fn react(&mut self, signal: Signal<W>) -> (effects: Vec<Effect<W>>)
        ensures
            *final(self) == old(self).step(signal).0,
            views(effects@) == old(self).step(signal).1,
    {
        match signal {
            Signal::ChannelStoreChanged { channel_count } => self.init_active_channel(
                channel_count,
            ),
            Signal::ChannelSelected { channel: Some(channel) } => vec![
                Effect::OpenChannelChat { channel },
            ],
            Signal::ChannelSelected { channel: None } => Vec::new(),
            Signal::ChatOpened { opened: Some(chat) } => self.set_active_channel(chat),
            Signal::ChatOpened { opened: None } => Vec::new(),
            Signal::ChatChanged { chat, event } => {
                if self.active_channel == Some(chat) {
                    self.channel_did_change(event)
                } else {
                    Vec::new()
                }
            },
            Signal::Scrolled { first_visible } => {
                if first_visible < MESSAGE_LOADING_THRESHOLD {
                    self.load_more_messages()
                } else {
                    Vec::new()
                }
            },
            Signal::Send { input } => self.send(input),
            Signal::LoadMoreMessages => self.load_more_messages(),
            Signal::SignInClicked => vec![Effect::AuthenticateAndConnect { try_keychain: true }],
            Signal::SignInFinished { connected, panel_focused } => {
                if connected && panel_focused {
                    vec![Effect::FocusInput]
                } else {
                    Vec::new()
                }
            },
            Signal::FocusIn { connected } => self.focus_in(connected),
            Signal::SizeSet { width } => self.set_size(width),
        }
    }
}

} // verus!
