//! What the panel asks of the world on each signal, taken one kind of request
//! at a time, in any state.

use crate::effect::{
    views, ChannelChat, ChannelChatEvent, Effect, EffectView, SerializedChatPanel, Signal,
};
use crate::panel::ChatPanel;
use vstd::prelude::*;

verus! {

/// The chat that a signal brings and that the panel does not show yet.
pub open spec fn brings<W>(panel: ChatPanel<W>, signal: Signal<W>) -> Option<ChannelChat> {
    match signal {
        Signal::ChatOpened { opened: Some(chat) } => if panel.active_channel == Some(chat.id) {
            None
        } else {
            Some(chat)
        },
        _ => None,
    }
}

/// The change in the chat shown that a signal tells of.
pub open spec fn tells_of<W>(panel: ChatPanel<W>, signal: Signal<W>) -> Option<ChannelChatEvent> {
    match signal {
        Signal::ChatChanged { chat, event } => if panel.active_channel == Some(chat) {
            Some(event)
        } else {
            None
        },
        _ => None,
    }
}

/// In every state, whether or not a chat is shown, selecting a place that holds
/// a channel asks once to open the chat of that very channel. Selecting a place
/// that holds none does not, and neither does any other signal.
pub proof fn law_selecting_opens_that_channel<W>(panel: ChatPanel<W>, signal: Signal<W>)
    ensures
        panel.step(signal).1.filter(|e: EffectView<W>| e is OpenChannelChat) == (match signal {
            Signal::ChannelSelected { channel: Some(channel) } => seq![
                EffectView::<W>::OpenChannelChat { channel },
            ],
            _ => seq![],
        }),
        signal is ChannelSelected ==> panel.step(signal).0 == panel,
{
    reveal_with_fuel(Seq::<_>::filter, 6);
}

/// While a chat is shown, sending any input asks exactly once to send it, to
/// that chat and with that input as the body, and exactly once to empty the
/// input editor, before. In any other case neither is asked.
pub proof fn law_any_input_is_sent_to_the_chat_shown<W>(panel: ChatPanel<W>, signal: Signal<W>)
    ensures
        panel.step(signal).1.filter(|e: EffectView<W>| e is SendMessage) == (match (
            signal,
            panel.active_channel,
        ) {
            (Signal::Send { input }, Some(chat)) => seq![
                EffectView::<W>::SendMessage { chat, body: input@ },
            ],
            _ => seq![],
        }),
        panel.step(signal).1.filter(|e: EffectView<W>| e is ClearInput) == (match (
            signal,
            panel.active_channel,
        ) {
            (Signal::Send { .. }, Some(_)) => seq![EffectView::<W>::ClearInput],
            _ => seq![],
        }),
{
    reveal_with_fuel(Seq::<_>::filter, 6);
}

/// Earlier messages are asked for once, of the chat shown, when the user asks
/// for them and when one of the first fifty messages comes in sight.
pub proof fn law_earlier_messages_are_loaded_on_demand<W>(panel: ChatPanel<W>, signal: Signal<W>)
    ensures
        panel.step(signal).1.filter(|e: EffectView<W>| e is LoadMoreMessages) == (match (
            signal,
            panel.active_channel,
        ) {
            (Signal::LoadMoreMessages, Some(chat)) => seq![
                EffectView::<W>::LoadMoreMessages { chat },
            ],
            (Signal::Scrolled { first_visible }, Some(chat)) => if first_visible <= 49 {
                seq![EffectView::<W>::LoadMoreMessages { chat }]
            } else {
                seq![]
            },
            _ => seq![],
        }),
{
    reveal_with_fuel(Seq::<_>::filter, 6);
}

/// When the chat shown replaces its messages of a range by so many others, the
/// list replaces exactly its rows of that range by as many, once. No other
/// signal replaces rows.
pub proof fn law_rows_are_replaced_where_messages_are<W>(panel: ChatPanel<W>, signal: Signal<W>)
    ensures
        panel.step(signal).1.filter(|e: EffectView<W>| e is SpliceMessageList) == (match tells_of(
            panel,
            signal,
        ) {
            Some(ChannelChatEvent::MessagesUpdated { old_start, old_end, new_count }) => seq![
                EffectView::<W>::SpliceMessageList {
                    start: old_start,
                    end: old_end,
                    count: new_count,
                },
            ],
            None => seq![],
        }),
{
    reveal_with_fuel(Seq::<_>::filter, 6);
}

/// The list is made anew with the messages of a chat that comes to be shown, and
/// with none when the channels change.
pub proof fn law_the_list_starts_with_the_messages_there_are<W>(
    panel: ChatPanel<W>,
    signal: Signal<W>,
)
    ensures
        panel.step(signal).1.filter(|e: EffectView<W>| e is ResetMessageList) == (match brings(
            panel,
            signal,
        ) {
            Some(chat) => seq![EffectView::<W>::ResetMessageList { count: chat.message_count }],
            None => if signal is ChannelStoreChanged {
                seq![EffectView::<W>::ResetMessageList { count: 0 }]
            } else {
                seq![]
            },
        }),
{
    reveal_with_fuel(Seq::<_>::filter, 6);
}

/// The selector is told of any count of channels, and of nothing else.
pub proof fn law_the_selector_hears_each_count<W>(panel: ChatPanel<W>, signal: Signal<W>)
    ensures
        panel.step(signal).1.filter(|e: EffectView<W>| e is SetChannelCount) == (match signal {
            Signal::ChannelStoreChanged { channel_count } => seq![
                EffectView::<W>::SetChannelCount { count: channel_count },
            ],
            _ => seq![],
        }),
{
    reveal_with_fuel(Seq::<_>::filter, 6);
}

/// The placeholder is set when a chat comes to be shown, whatever the name of
/// its channel, to that name behind "Message #".
pub proof fn law_the_placeholder_is_set_for_each_chat<W>(panel: ChatPanel<W>, signal: Signal<W>)
    ensures
        panel.step(signal).1.filter(|e: EffectView<W>| e is SetPlaceholder) == (match brings(
            panel,
            signal,
        ) {
            Some(chat) => seq![
                EffectView::<W>::SetPlaceholder { text: "Message #"@ + chat.name@ },
            ],
            None => seq![],
        }),
{
    reveal_with_fuel(Seq::<_>::filter, 6);
}

/// A chat that comes to be shown is subscribed to. The subscription to a chat
/// that is shown no longer ends.
pub proof fn law_subscriptions_come_and_go_with_chats<W>(panel: ChatPanel<W>, signal: Signal<W>)
    ensures
        panel.step(signal).1.filter(|e: EffectView<W>| e is Subscribe) == (match brings(
            panel,
            signal,
        ) {
            Some(chat) => seq![EffectView::<W>::Subscribe { chat: chat.id }],
            None => seq![],
        }),
        panel.step(signal).1.filter(|e: EffectView<W>| e is Unsubscribe) == (match (
            panel.active_channel,
            brings(panel, signal) is Some || signal is ChannelStoreChanged,
        ) {
            (Some(chat), true) => seq![EffectView::<W>::Unsubscribe { chat }],
            _ => seq![],
        }),
{
    reveal_with_fuel(Seq::<_>::filter, 6);
}

/// The input editor gets the focus when the panel does while there is a
/// connection, and when signing in has led to one while the panel has the focus.
/// A click on the prompt signs in.
pub proof fn law_focus_and_signing_in<W>(panel: ChatPanel<W>, signal: Signal<W>)
    ensures
        panel.step(signal).1.filter(|e: EffectView<W>| e is FocusInput) == (match signal {
            Signal::FocusIn { connected: true } => seq![EffectView::<W>::FocusInput],
            Signal::SignInFinished { connected: true, panel_focused: true } => seq![
                EffectView::<W>::FocusInput,
            ],
            _ => seq![],
        }),
        panel.step(signal).1.filter(|e: EffectView<W>| e is AuthenticateAndConnect) == (
        match signal {
            Signal::SignInClicked => seq![
                EffectView::<W>::AuthenticateAndConnect { try_keychain: true },
            ],
            _ => seq![],
        }),
{
    reveal_with_fuel(Seq::<_>::filter, 6);
}

/// Each width that the panel is given is written to the store under the panel's
/// key, and nothing else is.
pub proof fn law_each_width_is_written<W>(panel: ChatPanel<W>, signal: Signal<W>)
    ensures
        panel.step(signal).1.filter(|e: EffectView<W>| e is Persist) == (match signal {
            Signal::SizeSet { width } => seq![
                EffectView::<W>::Persist {
                    key: "ChatPanel"@,
                    panel: SerializedChatPanel { width },
                },
            ],
            _ => seq![],
        }),
{
    reveal_with_fuel(Seq::<_>::filter, 6);
}

/// The panel is drawn again once for a change in the chat shown and for a new
/// width.
pub proof fn law_the_panel_is_drawn_again<W>(panel: ChatPanel<W>, signal: Signal<W>)
    ensures
        panel.step(signal).1.filter(|e: EffectView<W>| e is Notify) == if tells_of(
            panel,
            signal,
        ) is Some || signal is SizeSet {
            seq![EffectView::<W>::Notify]
        } else {
            seq![]
        },
{
    reveal_with_fuel(Seq::<_>::filter, 6);
}

/// Whether a request is one that only the making of a panel or a move to another
/// side of the window calls for.
pub open spec fn is_for_other_times<W>(effect: EffectView<W>) -> bool {
    ||| effect is CreateInputEditor
    ||| effect is CreateChannelSelect
    ||| effect is CreateMessageList
    ||| effect is ObserveChannelStore
    ||| effect is ObserveChannelSelect
    ||| effect is SetDock
}

/// No signal makes a view, observes anything or moves the panel.
pub proof fn law_views_are_made_once<W>(panel: ChatPanel<W>, signal: Signal<W>, i: int)
    requires
        0 <= i < panel.step(signal).1.len(),
    ensures
        !is_for_other_times(panel.step(signal).1[i]),
{
}

/// The state after a signal: a chat that comes is shown, none is when the
/// channels change, a width given is the width, and all else stays.
pub proof fn law_state_after_a_signal<W>(panel: ChatPanel<W>, signal: Signal<W>)
    ensures
        ({
            let after = panel.step(signal).0;
            &&& signal is ChannelStoreChanged ==> after.active_channel is None
            &&& signal matches Signal::ChatOpened { opened: Some(chat) } ==> after.active_channel
                == Some(chat.id)
            &&& !(signal is ChannelStoreChanged) && !(signal matches Signal::ChatOpened {
                opened: Some(_),
            }) ==> after.active_channel == panel.active_channel
            &&& signal matches Signal::SizeSet { width } ==> after.width == width
            &&& !(signal is SizeSet) ==> after.width == panel.width
            &&& after.local_timezone == panel.local_timezone
            &&& after.has_focus == panel.has_focus
        }),
{
}

/// The turn at which a request comes among those of one answer.
pub open spec fn turn<W>(effect: EffectView<W>) -> int {
    match effect {
        EffectView::ResetMessageList { .. } => 1,
        EffectView::SpliceMessageList { .. } => 1,
        EffectView::ClearInput => 1,
        EffectView::Persist { .. } => 1,
        EffectView::SetPlaceholder { .. } => 2,
        EffectView::SendMessage { .. } => 2,
        EffectView::Subscribe { .. } => 3,
        EffectView::Unsubscribe { .. } => 4,
        EffectView::SetChannelCount { .. } => 5,
        EffectView::Notify => 6,
        _ => 0,
    }
}

/// The requests of one answer come in their turns: the input editor is emptied
/// before its text is sent, the list is brought up before the panel is drawn
/// again, and a new subscription starts before the former one ends.
pub proof fn law_requests_come_in_turn<W>(panel: ChatPanel<W>, signal: Signal<W>, i: int, j: int)
    requires
        0 <= i < j < panel.step(signal).1.len(),
    ensures
        turn(panel.step(signal).1[i]) < turn(panel.step(signal).1[j]),
{
    let effects = panel.step(signal).1;
    match signal {
        Signal::ChannelStoreChanged { .. } => {
            assert(turn(effects[0]) == 1 && turn(effects.last()) == 5);
            assert(effects.len() == 3 ==> turn(effects[1]) == 4);
            assert(effects.len() <= 3);
        },
        Signal::ChatOpened { .. } => {
            assert(effects.len() == 3 || effects.len() == 4);
            assert(turn(effects[0]) == 1 && turn(effects[1]) == 2 && turn(effects[2]) == 3);
            assert(effects.len() == 4 ==> turn(effects[3]) == 4);
        },
        _ => {
            assert(effects.len() == 2);
            assert(turn(effects[0]) < turn(effects[1]));
        },
    }
}

/// What the handlers do by themselves is what they do on a signal.
pub proof fn law_handlers_answer_as_signals_do<W>(
    panel: ChatPanel<W>,
    channel_count: usize,
    chat: ChannelChat,
    event: ChannelChatEvent,
    input: String,
    connected: bool,
    width: Option<W>,
)
    ensures
        panel.with_no_channel(channel_count) == panel.step(
            Signal::ChannelStoreChanged { channel_count },
        ),
        panel.with_channel(chat) == panel.step(Signal::ChatOpened { opened: Some(chat) }),
        panel.active_channel matches Some(shown) ==> ChatPanel::<W>::changes_shown(event)
            == panel.step(Signal::ChatChanged { chat: shown, event }).1,
        panel.sending(input@) == panel.step(Signal::Send { input }).1,
        panel.loading_more() == panel.step(Signal::LoadMoreMessages).1,
        ChatPanel::<W>::focusing_input(connected) == panel.step(Signal::FocusIn { connected }).1,
        panel.with_width(width) == panel.step(Signal::SizeSet { width }),
        panel.persisting() == (EffectView::<W>::Persist {
            key: "ChatPanel"@,
            panel: SerializedChatPanel { width: panel.width },
        }),
{
}

/// The view of an effect leaves nothing out: effects with one view ask for the
/// same, down to the characters of their texts.
pub proof fn law_a_view_leaves_nothing_out<W>(a: Effect<W>, b: Effect<W>)
    requires
        a@ == b@,
    ensures
        match a {
            Effect::SetPlaceholder { text } => b matches Effect::SetPlaceholder { text: other }
                && text@ == other@,
            Effect::SendMessage { chat, body } => b matches Effect::SendMessage {
                chat: other_chat,
                body: other,
            } && chat == other_chat && body@ == other@,
            Effect::Persist { key, panel } => b matches Effect::Persist {
                key: other_key,
                panel: other,
            } && key@ == other_key@ && panel == other,
            _ => a == b,
        },
{
}

/// An effect and its view are of one kind and hold the same.
pub proof fn law_a_view_is_of_the_effect<W>(effect: Effect<W>)
    ensures
        effect matches Effect::ResetMessageList { count } ==> effect@
            == (EffectView::<W>::ResetMessageList { count }),
        effect matches Effect::SpliceMessageList { start, end, count } ==> effect@
            == (EffectView::<W>::SpliceMessageList { start, end, count }),
        effect matches Effect::SetChannelCount { count } ==> effect@
            == (EffectView::<W>::SetChannelCount { count }),
        effect matches Effect::SetPlaceholder { text } ==> effect@
            == (EffectView::<W>::SetPlaceholder { text: text@ }),
        effect matches Effect::Subscribe { chat } ==> effect@ == (EffectView::<W>::Subscribe {
            chat,
        }),
        effect matches Effect::Unsubscribe { chat } ==> effect@ == (EffectView::<W>::Unsubscribe {
            chat,
        }),
        effect matches Effect::OpenChannelChat { channel } ==> effect@
            == (EffectView::<W>::OpenChannelChat { channel }),
        effect matches Effect::SendMessage { chat, body } ==> effect@
            == (EffectView::<W>::SendMessage { chat, body: body@ }),
        effect matches Effect::LoadMoreMessages { chat } ==> effect@
            == (EffectView::<W>::LoadMoreMessages { chat }),
        effect matches Effect::Persist { key, panel } ==> effect@ == (EffectView::<W>::Persist {
            key: key@,
            panel,
        }),
        effect matches Effect::SetDock { dock } ==> effect@ == (EffectView::<W>::SetDock { dock }),
        effect is Notify ==> effect@ is Notify,
        effect is ClearInput ==> effect@ is ClearInput,
        effect is FocusInput ==> effect@ is FocusInput,
        effect matches Effect::AuthenticateAndConnect { try_keychain } ==> effect@
            == (EffectView::<W>::AuthenticateAndConnect { try_keychain }),
        effect is ObserveChannelStore ==> effect@ is ObserveChannelStore,
        effect is ObserveChannelSelect ==> effect@ is ObserveChannelSelect,
        effect matches Effect::CreateInputEditor { max_lines, soft_wrap, style } ==> effect@
            == (EffectView::<W>::CreateInputEditor { max_lines, soft_wrap, style }),
        effect matches Effect::CreateChannelSelect { item_count, header, menu } ==> effect@
            == (EffectView::<W>::CreateChannelSelect { item_count, header, menu }),
        effect matches Effect::CreateMessageList { item_count, orientation, overdraw } ==> effect@
            == (EffectView::<W>::CreateMessageList { item_count, orientation, overdraw }),
{
}

/// The views of effects are as many, in the same order.
pub proof fn law_views_are_one_for_one<W>(effects: Seq<Effect<W>>)
    ensures
        views(effects).len() == effects.len(),
        forall|i: int| 0 <= i < effects.len() ==> #[trigger] views(effects)[i] == effects[i]@,
{
}

} // verus!
