//! What holds of the panel after any run of signals.

use crate::dock::{
    dock_position, dock_setting, is_panel_side, CollaborationPanelDockPosition, DockPosition,
};
use crate::effect::{ChannelChat, ChannelChatEvent, EffectView, SerializedChatPanel, Signal};
use crate::panel::{ChatPanel, Outcome, Workspace, CHAT_PANEL_KEY};
use vstd::prelude::*;

verus! {

/// Where a run of signals takes a panel, and all that it asks on the way.
pub open spec fn run<W>(panel: ChatPanel<W>, signals: Seq<Signal<W>>) -> Outcome<W>
    decreases signals.len(),
{
    if signals.len() == 0 {
        (panel, seq![])
    } else {
        let before = run(panel, signals.drop_last());
        let last = before.0.step(signals.last());
        (last.0, before.1 + last.1)
    }
}

/// Where a run of signals takes a panel from the start of a session, and all
/// that it asks from there. The session starts with what was kept of an earlier
/// one, if anything was.
pub open spec fn session<W>(
    kept: Option<SerializedChatPanel<W>>,
    workspace: Workspace,
    signals: Seq<Signal<W>>,
) -> Outcome<W> {
    let made = ChatPanel::<W>::started(kept, workspace);
    let ran = run(made.0, signals);
    (ran.0, made.1 + ran.1)
}

/// How many rows the list of messages has after these effects, where it had
/// `rows` before.
pub open spec fn rows_after<W>(effects: Seq<EffectView<W>>, rows: int) -> int
    decreases effects.len(),
{
    if effects.len() == 0 {
        rows
    } else {
        let before = rows_after(effects.drop_last(), rows);
        match effects.last() {
            EffectView::CreateMessageList { item_count, .. } => item_count as int,
            EffectView::ResetMessageList { count } => count as int,
            EffectView::SpliceMessageList { start, end, count } => before - (end - start) + count,
            _ => before,
        }
    }
}

/// To which chats the panel is subscribed after these effects.
pub open spec fn subscriptions_after<W>(effects: Seq<EffectView<W>>, chats: Set<u64>) -> Set<u64>
    decreases effects.len(),
{
    if effects.len() == 0 {
        chats
    } else {
        let before = subscriptions_after(effects.drop_last(), chats);
        match effects.last() {
            EffectView::Subscribe { chat } => before.insert(chat),
            EffectView::Unsubscribe { chat } => before.remove(chat),
            _ => before,
        }
    }
}

/// What the store holds under the panel's key after these effects.
pub open spec fn kept_after<W>(
    effects: Seq<EffectView<W>>,
    kept: Option<SerializedChatPanel<W>>,
) -> Option<SerializedChatPanel<W>>
    decreases effects.len(),
{
    if effects.len() == 0 {
        kept
    } else {
        match effects.last() {
            EffectView::Persist { key, panel } if key == CHAT_PANEL_KEY@ => Some(panel),
            _ => kept_after(effects.drop_last(), kept),
        }
    }
}

proof fn lemma_rows_after_concat<W>(a: Seq<EffectView<W>>, b: Seq<EffectView<W>>, rows: int)
    ensures
        rows_after(a + b, rows) == rows_after(b, rows_after(a, rows)),
    decreases b.len(),
{
    if b.len() == 0 {
        assert(a + b =~= a);
    } else {
        assert((a + b).drop_last() =~= a + b.drop_last());
        lemma_rows_after_concat(a, b.drop_last(), rows);
    }
}

proof fn lemma_subscriptions_after_concat<W>(
    a: Seq<EffectView<W>>,
    b: Seq<EffectView<W>>,
    chats: Set<u64>,
)
    ensures
        subscriptions_after(a + b, chats) == subscriptions_after(b, subscriptions_after(a, chats)),
    decreases b.len(),
{
    if b.len() == 0 {
        assert(a + b =~= a);
    } else {
        assert((a + b).drop_last() =~= a + b.drop_last());
        lemma_subscriptions_after_concat(a, b.drop_last(), chats);
    }
}

proof fn lemma_kept_after_concat<W>(
    a: Seq<EffectView<W>>,
    b: Seq<EffectView<W>>,
    kept: Option<SerializedChatPanel<W>>,
)
    ensures
        kept_after(a + b, kept) == kept_after(b, kept_after(a, kept)),
    decreases b.len(),
{
    if b.len() == 0 {
        assert(a + b =~= a);
    } else {
        assert((a + b).drop_last() =~= a + b.drop_last());
        lemma_kept_after_concat(a, b.drop_last(), kept);
    }
}

/// The subscriptions that go with a state.
pub open spec fn subscribed<W>(panel: ChatPanel<W>) -> Set<u64> {
    match panel.active_channel {
        Some(chat) => set![chat],
        None => set![],
    }
}

proof fn lemma_step_subscriptions<W>(panel: ChatPanel<W>, signal: Signal<W>)
    ensures
        subscriptions_after(panel.step(signal).1, subscribed(panel)) == subscribed(
            panel.step(signal).0,
        ),
{
    reveal_with_fuel(subscriptions_after, 6);
    let effects = panel.step(signal).1;
    assert(subscriptions_after(effects, subscribed(panel)) =~= subscribed(panel.step(signal).0));
}

/// In every session, of a new panel or of one kept from before, the panel is
/// subscribed to the chat that it shows, and to no other.
pub proof fn law_subscribed_to_the_chat_shown<W>(
    kept: Option<SerializedChatPanel<W>>,
    workspace: Workspace,
    signals: Seq<Signal<W>>,
)
    ensures
        ({
            let (panel, effects) = session(kept, workspace, signals);
            subscriptions_after(effects, set![]) == subscribed(panel)
        }),
    decreases signals.len(),
{
    let made = ChatPanel::<W>::started(kept, workspace);
    if signals.len() == 0 {
        reveal_with_fuel(subscriptions_after, 9);
        assert(session(kept, workspace, signals).1 =~= made.1);
    } else {
        law_subscribed_to_the_chat_shown(kept, workspace, signals.drop_last());
        let before = session(kept, workspace, signals.drop_last());
        let last = before.0.step(signals.last());
        lemma_step_subscriptions(before.0, signals.last());
        lemma_subscriptions_after_concat(before.1, last.1, set![]);
        assert(session(kept, workspace, signals).1 =~= before.1 + last.1);
    }
}

proof fn lemma_step_rows<W>(panel: ChatPanel<W>, signal: Signal<W>, rows: int)
    ensures
        ({
            let (after, effects) = panel.step(signal);
            let rows_then = rows_after(effects, rows);
            match signal {
                Signal::ChannelStoreChanged { .. } => rows_then == 0,
                Signal::ChatOpened { opened: Some(chat) } if panel.active_channel != Some(chat.id)
                    => rows_then == chat.message_count,
                Signal::ChatChanged {
                    chat,
                    event: ChannelChatEvent::MessagesUpdated { old_start, old_end, new_count },
                } if panel.active_channel == Some(chat) => rows_then == rows - (old_end - old_start)
                    + new_count,
                _ => rows_then == rows,
            }
        }),
{
    reveal_with_fuel(rows_after, 6);
}

/// In every session, of a new panel or of one kept from before, the list of
/// messages has rows only while a chat is shown: there is always a chat to take
/// the message of a row from.
pub proof fn law_rows_only_with_a_chat<W>(
    kept: Option<SerializedChatPanel<W>>,
    workspace: Workspace,
    signals: Seq<Signal<W>>,
)
    ensures
        ({
            let (panel, effects) = session(kept, workspace, signals);
            panel.active_channel is None ==> rows_after(effects, 0) == 0
        }),
    decreases signals.len(),
{
    let made = ChatPanel::<W>::started(kept, workspace);
    if signals.len() == 0 {
        reveal_with_fuel(rows_after, 9);
        assert(session(kept, workspace, signals).1 =~= made.1);
    } else {
        law_rows_only_with_a_chat(kept, workspace, signals.drop_last());
        let before = session(kept, workspace, signals.drop_last());
        let last = before.0.step(signals.last());
        lemma_step_rows(before.0, signals.last(), rows_after(before.1, 0));
        lemma_rows_after_concat(before.1, last.1, 0);
        assert(session(kept, workspace, signals).1 =~= before.1 + last.1);
    }
}

/// How many messages are loaded of each chat once a signal has come.
pub open spec fn messages_after<W>(chats: Map<u64, int>, signal: Signal<W>) -> Map<u64, int> {
    match signal {
        Signal::ChatChanged {
            chat,
            event: ChannelChatEvent::MessagesUpdated { old_start, old_end, new_count },
        } => chats.insert(chat, chats[chat] - (old_end - old_start) + new_count),
        _ => chats,
    }
}

/// Whether a signal says of a chat what is the case, where so many messages are
/// loaded of each.
pub open spec fn is_true<W>(chats: Map<u64, int>, signal: Signal<W>) -> bool {
    match signal {
        Signal::ChatOpened { opened: Some(chat) } => chats.contains_key(chat.id) && chats[chat.id]
            == chat.message_count,
        Signal::ChatChanged {
            chat,
            event: ChannelChatEvent::MessagesUpdated { old_start, old_end, .. },
        } => chats.contains_key(chat) && old_start <= old_end <= chats[chat],
        _ => true,
    }
}

/// How many messages are loaded of each chat after a run of signals.
pub open spec fn messages_after_all<W>(chats: Map<u64, int>, signals: Seq<Signal<W>>) -> Map<
    u64,
    int,
>
    decreases signals.len(),
{
    if signals.len() == 0 {
        chats
    } else {
        messages_after(messages_after_all(chats, signals.drop_last()), signals.last())
    }
}

/// Whether each signal of a run says what is the case when it comes.
pub open spec fn all_true<W>(chats: Map<u64, int>, signals: Seq<Signal<W>>) -> bool
    decreases signals.len(),
{
    signals.len() == 0 || {
        &&& all_true(chats, signals.drop_last())
        &&& is_true(messages_after_all(chats, signals.drop_last()), signals.last())
    }
}

/// In every session, of a new panel or of one kept from before, in which the
/// panel hears the truth of the chats, the list has a row for each message of
/// the chat shown: also where chats change while others are shown.
pub proof fn law_a_row_for_each_message<W>(
    kept: Option<SerializedChatPanel<W>>,
    workspace: Workspace,
    chats: Map<u64, int>,
    signals: Seq<Signal<W>>,
)
    requires
        all_true(chats, signals),
    ensures
        ({
            let (panel, effects) = session(kept, workspace, signals);
            panel.active_channel matches Some(chat) ==> {
                &&& messages_after_all(chats, signals).contains_key(chat)
                &&& rows_after(effects, 0) == messages_after_all(chats, signals)[chat]
            }
        }),
    decreases signals.len(),
{
    if signals.len() > 0 {
        law_a_row_for_each_message(kept, workspace, chats, signals.drop_last());
        let before = session(kept, workspace, signals.drop_last());
        let last = before.0.step(signals.last());
        lemma_step_rows(before.0, signals.last(), rows_after(before.1, 0));
        lemma_rows_after_concat(before.1, last.1, 0);
        assert(session(kept, workspace, signals).1 =~= before.1 + last.1);
    }
}

/// How many channels the selector offers after these effects, where it offered
/// `offered` before.
pub open spec fn offered_after<W>(effects: Seq<EffectView<W>>, offered: usize) -> usize
    decreases effects.len(),
{
    if effects.len() == 0 {
        offered
    } else {
        match effects.last() {
            EffectView::CreateChannelSelect { item_count, .. } => item_count,
            EffectView::SetChannelCount { count } => count,
            _ => offered_after(effects.drop_last(), offered),
        }
    }
}

/// How many channels there are after a run of signals, where there were
/// `channel_count` before: as many as the last signal that counts them says.
pub open spec fn channels_after<W>(signals: Seq<Signal<W>>, channel_count: usize) -> usize
    decreases signals.len(),
{
    if signals.len() == 0 {
        channel_count
    } else {
        match signals.last() {
            Signal::ChannelStoreChanged { channel_count: counted } => counted,
            _ => channels_after(signals.drop_last(), channel_count),
        }
    }
}

proof fn lemma_offered_after_concat<W>(
    a: Seq<EffectView<W>>,
    b: Seq<EffectView<W>>,
    offered: usize,
)
    ensures
        offered_after(a + b, offered) == offered_after(b, offered_after(a, offered)),
    decreases b.len(),
{
    if b.len() == 0 {
        assert(a + b =~= a);
    } else {
        assert((a + b).drop_last() =~= a + b.drop_last());
        lemma_offered_after_concat(a, b.drop_last(), offered);
    }
}

proof fn lemma_step_offered<W>(panel: ChatPanel<W>, signal: Signal<W>, offered: usize)
    ensures
        offered_after(panel.step(signal).1, offered) == (match signal {
            Signal::ChannelStoreChanged { channel_count } => channel_count,
            _ => offered,
        }),
{
    reveal_with_fuel(offered_after, 6);
}

/// In every session, of a new panel or of one kept from before, the selector
/// offers as many channels as there are: there is a channel at each place of
/// it.
pub proof fn law_the_channels_there_are_are_offered<W>(
    kept: Option<SerializedChatPanel<W>>,
    workspace: Workspace,
    signals: Seq<Signal<W>>,
    offered: usize,
)
    ensures
        offered_after(session(kept, workspace, signals).1, offered) == channels_after(
            signals,
            workspace.channel_count,
        ),
    decreases signals.len(),
{
    let made = ChatPanel::<W>::started(kept, workspace);
    if signals.len() == 0 {
        reveal_with_fuel(offered_after, 9);
        assert(session(kept, workspace, signals).1 =~= made.1);
    } else {
        law_the_channels_there_are_are_offered(kept, workspace, signals.drop_last(), offered);
        let before = session(kept, workspace, signals.drop_last());
        let last = before.0.step(signals.last());
        lemma_step_offered(before.0, signals.last(), offered_after(before.1, offered));
        lemma_offered_after_concat(before.1, last.1, offered);
        assert(session(kept, workspace, signals).1 =~= before.1 + last.1);
    }
}

/// What the input editor shows while it is empty, after these effects.
pub open spec fn placeholder_after<W>(effects: Seq<EffectView<W>>, shown: Seq<char>) -> Seq<char>
    decreases effects.len(),
{
    if effects.len() == 0 {
        shown
    } else {
        match effects.last() {
            EffectView::SetPlaceholder { text } => text,
            _ => placeholder_after(effects.drop_last(), shown),
        }
    }
}

proof fn lemma_placeholder_after_concat<W>(
    a: Seq<EffectView<W>>,
    b: Seq<EffectView<W>>,
    shown: Seq<char>,
)
    ensures
        placeholder_after(a + b, shown) == placeholder_after(b, placeholder_after(a, shown)),
    decreases b.len(),
{
    if b.len() == 0 {
        assert(a + b =~= a);
    } else {
        assert((a + b).drop_last() =~= a + b.drop_last());
        lemma_placeholder_after_concat(a, b.drop_last(), shown);
    }
}

proof fn lemma_step_placeholder<W>(panel: ChatPanel<W>, signal: Signal<W>, shown: Seq<char>)
    ensures
        placeholder_after(panel.step(signal).1, shown) == (match signal {
            Signal::ChatOpened { opened: Some(chat) } if panel.active_channel != Some(chat.id) =>
                "Message #"@ + chat.name@,
            _ => shown,
        }),
{
    reveal_with_fuel(placeholder_after, 6);
}

/// The name of its channel with which the chat that a panel shows after a run
/// of signals was opened: that in the last signal that brought a chat which was
/// not shown yet.
pub open spec fn name_opened<W>(panel: ChatPanel<W>, signals: Seq<Signal<W>>) -> Seq<char>
    decreases signals.len(),
{
    if signals.len() == 0 {
        seq![]
    } else {
        let before = run(panel, signals.drop_last()).0;
        match signals.last() {
            Signal::ChatOpened { opened: Some(chat) } if before.active_channel != Some(chat.id) =>
                chat.name@,
            _ => name_opened(panel, signals.drop_last()),
        }
    }
}

/// In every session, of a new panel or of one kept from before, the input editor
/// of a panel that shows a chat names the channel with which it was opened.
pub proof fn law_the_placeholder_names_the_chat_shown<W>(
    kept: Option<SerializedChatPanel<W>>,
    workspace: Workspace,
    signals: Seq<Signal<W>>,
    shown: Seq<char>,
)
    ensures
        ({
            let (panel, effects) = session(kept, workspace, signals);
            panel.active_channel is Some ==> placeholder_after(effects, shown) == "Message #"@
                + name_opened(ChatPanel::<W>::started(kept, workspace).0, signals)
        }),
    decreases signals.len(),
{
    if signals.len() > 0 {
        law_the_placeholder_names_the_chat_shown(kept, workspace, signals.drop_last(), shown);
        let before = session(kept, workspace, signals.drop_last());
        let last = before.0.step(signals.last());
        lemma_step_placeholder(before.0, signals.last(), placeholder_after(before.1, shown));
        lemma_placeholder_after_concat(before.1, last.1, shown);
        assert(session(kept, workspace, signals).1 =~= before.1 + last.1);
    }
}

/// To open the chat that was just opened does nothing more.
pub proof fn law_opening_again_changes_nothing<W>(
    panel: ChatPanel<W>,
    chat: ChannelChat,
    again: ChannelChat,
)
    requires
        again.id == chat.id,
    ensures
        panel.with_channel(chat).0.with_channel(again) == (
            panel.with_channel(chat).0,
            Seq::<EffectView<W>>::empty(),
        ),
{
}

/// The panel speaks to one chat only, the one that it shows: whatever comes,
/// messages are sent to it and loaded of it alone.
pub proof fn law_only_the_chat_shown_is_used<W>(panel: ChatPanel<W>, signal: Signal<W>, i: int)
    requires
        0 <= i < panel.step(signal).1.len(),
    ensures
        panel.step(signal).1[i] matches EffectView::SendMessage { chat, .. } ==>
            panel.active_channel == Some(chat),
        panel.step(signal).1[i] matches EffectView::LoadMoreMessages { chat } ==>
            panel.active_channel == Some(chat),
{
}

/// The input editor is emptied when the message in it is sent, and only then,
/// and the message goes out as it stood there.
pub proof fn law_input_is_cleared_when_sent<W>(panel: ChatPanel<W>, signal: Signal<W>, i: int)
    requires
        0 <= i < panel.step(signal).1.len(),
    ensures
        panel.step(signal).1[i] is ClearInput ==> i + 1 < panel.step(signal).1.len()
            && panel.step(signal).1[i + 1] is SendMessage,
        panel.step(signal).1[i] matches EffectView::SendMessage { body, .. } ==> {
            &&& i > 0
            &&& panel.step(signal).1[i - 1] is ClearInput
            &&& signal matches Signal::Send { input }
            &&& body == input@
        },
{
}

/// Signals change neither the time zone nor `has_focus`.
pub proof fn law_lasting_state<W>(panel: ChatPanel<W>, signals: Seq<Signal<W>>)
    ensures
        run(panel, signals).0.local_timezone == panel.local_timezone,
        run(panel, signals).0.has_focus == panel.has_focus,
    decreases signals.len(),
{
    if signals.len() > 0 {
        law_lasting_state(panel, signals.drop_last());
    }
}

proof fn lemma_step_kept<W>(
    panel: ChatPanel<W>,
    signal: Signal<W>,
    kept: Option<SerializedChatPanel<W>>,
)
    ensures
        ({
            let (after, effects) = panel.step(signal);
            match signal {
                Signal::SizeSet { width } => after.width == width && kept_after(effects, kept)
                    == Some(SerializedChatPanel { width }),
                _ => after.width == panel.width && kept_after(effects, kept) == kept,
            }
        }),
{
    reveal_with_fuel(kept_after, 6);
}

/// The next session starts with the width that this one ended with: whatever
/// came, the panel started with what the store then holds has that width.
pub proof fn law_width_is_kept<W>(
    kept: Option<SerializedChatPanel<W>>,
    workspace: Workspace,
    signals: Seq<Signal<W>>,
    next_workspace: Workspace,
)
    ensures
        ({
            let (panel, effects) = session(kept, workspace, signals);
            ChatPanel::started(kept_after(effects, kept), next_workspace).0.width == panel.width
        }),
    decreases signals.len(),
{
    let made = ChatPanel::<W>::started(kept, workspace);
    if signals.len() == 0 {
        reveal_with_fuel(kept_after, 9);
        assert(session(kept, workspace, signals).1 =~= made.1);
    } else {
        law_width_is_kept(kept, workspace, signals.drop_last(), next_workspace);
        let before = session(kept, workspace, signals.drop_last());
        let last = before.0.step(signals.last());
        lemma_step_kept(before.0, signals.last(), kept_after(before.1, kept));
        lemma_kept_after_concat(before.1, last.1, kept);
        assert(session(kept, workspace, signals).1 =~= before.1 + last.1);
    }
}

/// A side of the window that the panel can stand on is where it stands once it
/// is moved there, and it stands on no other.
pub proof fn law_position_follows_setting(
    position: DockPosition,
    dock: CollaborationPanelDockPosition,
)
    ensures
        is_panel_side(position) ==> dock_position(dock_setting(position)) == position,
        is_panel_side(position) <==> position != DockPosition::Bottom,
        dock_position(dock_setting(DockPosition::Bottom)) == DockPosition::Left,
        is_panel_side(dock_position(dock)),
        dock_setting(dock_position(dock)) == dock,
{
}

} // verus!
