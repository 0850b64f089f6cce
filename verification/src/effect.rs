//! What the panel hears of the world, and what it asks of it.

use crate::dock::CollaborationPanelDockPosition;
use crate::element::Style;
use vstd::prelude::*;

verus! {

/// A channel's chat, once it is open.
#[derive(Debug, PartialEq)]
pub struct ChannelChat {
    /// Tells the open chats apart.
    pub id: u64,
    /// The name of its channel.
    pub name: String,
    /// How many messages of it are loaded.
    pub message_count: usize,
}

/// A change in the messages of an open chat.
#[derive(Clone, Copy, Debug, PartialEq, Eq, Structural)]
pub enum ChannelChatEvent {
    /// The messages from `old_start` on, up to but without `old_end`, have
    /// given way to `new_count` others.
    MessagesUpdated { old_start: usize, old_end: usize, new_count: usize },
}

/// What is kept of the panel from one session to the next.
#[derive(Debug, PartialEq)]
pub struct SerializedChatPanel<W> {
    pub width: Option<W>,
}

/// Something that has happened.
#[derive(Debug, PartialEq)]
pub enum Signal<W> {
    /// The channels have changed: there are now so many.
    ChannelStoreChanged { channel_count: usize },
    /// The channel selector has changed: this channel, if any, stands at the
    /// place that is selected.
    ChannelSelected { channel: Option<u64> },
    /// Opening a chat has come to an end, with nothing if it failed.
    ChatOpened { opened: Option<ChannelChat> },
    /// The messages of an open chat have changed.
    ChatChanged { chat: u64, event: ChannelChatEvent },
    /// The list of messages has been scrolled: this is the first one in sight.
    Scrolled { first_visible: usize },
    /// The user sends the message in the input editor.
    Send { input: String },
    /// The user asks for earlier messages.
    LoadMoreMessages,
    /// The user clicks the prompt to sign in.
    SignInClicked,
    /// Signing in has come to an end.
    SignInFinished { connected: bool, panel_focused: bool },
    /// The panel, or a view in it, has been given the focus.
    FocusIn { connected: bool },
    /// The panel has been given a width, or its default width.
    SizeSet { width: Option<W> },
}

/// How an editor breaks lines that are too long for it.
#[derive(Clone, Copy, Debug, PartialEq, Eq, Structural)]
pub enum SoftWrap {
    EditorWidth,
}

/// The end of a list that stays in sight as it grows.
#[derive(Clone, Copy, Debug, PartialEq, Eq, Structural)]
pub enum Orientation {
    Bottom,
}

/// Something to be done outside the panel.
#[derive(Debug, PartialEq)]
pub enum Effect<W> {
    /// Make the input editor, as high as its text up to so many lines.
    CreateInputEditor { max_lines: usize, soft_wrap: SoftWrap, style: Style },
    /// Make the channel selector.
    CreateChannelSelect { item_count: usize, header: Style, menu: Style },
    /// Make the list of messages, drawn so many pixels beyond what is in sight,
    /// and report when it is scrolled.
    CreateMessageList { item_count: usize, orientation: Orientation, overdraw: u32 },
    /// From now on, report changes of the channels.
    ObserveChannelStore,
    /// From now on, report changes of the channel selector.
    ObserveChannelSelect,
    /// Make the list of messages anew, with so many rows.
    ResetMessageList { count: usize },
    /// Replace the rows from `start` on, up to but without `end`, by `count`
    /// others.
    SpliceMessageList { start: usize, end: usize, count: usize },
    /// Let the channel selector offer so many channels.
    SetChannelCount { count: usize },
    /// Show this text in the input editor while it is empty.
    SetPlaceholder { text: String },
    /// From now on, report changes of this chat.
    Subscribe { chat: u64 },
    /// No longer report changes of this chat.
    Unsubscribe { chat: u64 },
    /// Draw the panel again.
    Notify,
    /// Open the chat of this channel, and report how that went.
    OpenChannelChat { channel: u64 },
    /// Empty the input editor.
    ClearInput,
    /// Send a message to this chat.
    SendMessage { chat: u64, body: String },
    /// Load earlier messages of this chat.
    LoadMoreMessages { chat: u64 },
    /// Give the input editor the focus.
    FocusInput,
    /// Sign in and connect, and report how that went.
    AuthenticateAndConnect { try_keychain: bool },
    /// Write this to the key-value store. It takes the place of a write that
    /// is not done yet.
    Persist { key: String, panel: SerializedChatPanel<W> },
    /// Write to the settings file on which side the panel stands.
    SetDock { dock: CollaborationPanelDockPosition },
}

/// An [`Effect`] with its texts as sequences of characters.
pub enum EffectView<W> {
    CreateInputEditor { max_lines: usize, soft_wrap: SoftWrap, style: Style },
    CreateChannelSelect { item_count: usize, header: Style, menu: Style },
    CreateMessageList { item_count: usize, orientation: Orientation, overdraw: u32 },
    ObserveChannelStore,
    ObserveChannelSelect,
    ResetMessageList { count: usize },
    SpliceMessageList { start: usize, end: usize, count: usize },
    SetChannelCount { count: usize },
    SetPlaceholder { text: Seq<char> },
    Subscribe { chat: u64 },
    Unsubscribe { chat: u64 },
    Notify,
    OpenChannelChat { channel: u64 },
    ClearInput,
    SendMessage { chat: u64, body: Seq<char> },
    LoadMoreMessages { chat: u64 },
    FocusInput,
    AuthenticateAndConnect { try_keychain: bool },
    Persist { key: Seq<char>, panel: SerializedChatPanel<W> },
    SetDock { dock: CollaborationPanelDockPosition },
}

impl<W> View for Effect<W> {
    type V = EffectView<W>;

    open spec fn view(&self) -> EffectView<W> {
        match *self {
            Effect::CreateInputEditor { max_lines, soft_wrap, style } =>
                EffectView::CreateInputEditor { max_lines, soft_wrap, style },
            Effect::CreateChannelSelect { item_count, header, menu } =>
                EffectView::CreateChannelSelect { item_count, header, menu },
            Effect::CreateMessageList { item_count, orientation, overdraw } =>
                EffectView::CreateMessageList { item_count, orientation, overdraw },
            Effect::ObserveChannelStore => EffectView::ObserveChannelStore,
            Effect::ObserveChannelSelect => EffectView::ObserveChannelSelect,
            Effect::ResetMessageList { count } => EffectView::ResetMessageList { count },
            Effect::SpliceMessageList { start, end, count } => EffectView::SpliceMessageList {
                start,
                end,
                count,
            },
            Effect::SetChannelCount { count } => EffectView::SetChannelCount { count },
            Effect::SetPlaceholder { text } => EffectView::SetPlaceholder { text: text@ },
            Effect::Subscribe { chat } => EffectView::Subscribe { chat },
            Effect::Unsubscribe { chat } => EffectView::Unsubscribe { chat },
            Effect::Notify => EffectView::Notify,
            Effect::OpenChannelChat { channel } => EffectView::OpenChannelChat { channel },
            Effect::ClearInput => EffectView::ClearInput,
            Effect::SendMessage { chat, body } => EffectView::SendMessage { chat, body: body@ },
            Effect::LoadMoreMessages { chat } => EffectView::LoadMoreMessages { chat },
            Effect::FocusInput => EffectView::FocusInput,
            Effect::AuthenticateAndConnect { try_keychain } =>
                EffectView::AuthenticateAndConnect { try_keychain },
            Effect::Persist { key, panel } => EffectView::Persist { key: key@, panel },
            Effect::SetDock { dock } => EffectView::SetDock { dock },
        }
    }
}

/// The views of effects, one for one.
pub open spec fn views<W>(effects: Seq<Effect<W>>) -> Seq<EffectView<W>> {
    effects.map_values(|effect: Effect<W>| effect@)
}

} // verus!
