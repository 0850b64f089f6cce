//! Which message each row of the list shows, through whole sessions.

use crate::effect::{ChannelChatEvent, EffectView, SerializedChatPanel, Signal};
use crate::panel::{ChatPanel, Workspace};
use crate::panel_laws::session;
use vstd::prelude::*;

verus! {

/// The rows of the list after these effects, each by the message that it was
/// made for, where the chat shown has these messages. A row that is made takes
/// the message at its own place; the rows that stay keep theirs.
pub open spec fn list_after<W, M>(
    effects: Seq<EffectView<W>>,
    rows: Seq<M>,
    messages: Seq<M>,
) -> Seq<M>
    decreases effects.len(),
{
    if effects.len() == 0 {
        rows
    } else {
        let before = list_after(effects.drop_last(), rows, messages);
        match effects.last() {
            EffectView::CreateMessageList { item_count, .. } => Seq::new(
                item_count as nat,
                |i: int| messages[i],
            ),
            EffectView::ResetMessageList { count } => Seq::new(count as nat, |i: int| messages[i]),
            EffectView::SpliceMessageList { start, end, count } => before.take(start as int)
                + Seq::new(count as nat, |i: int| messages[start + i]) + before.skip(end as int),
            _ => before,
        }
    }
}

/// Whether a signal tells the truth of how the messages of the chats went over
/// from `before` to `after`.
pub open spec fn tells_truth<W, M>(
    before: Map<u64, Seq<M>>,
    signal: Signal<W>,
    after: Map<u64, Seq<M>>,
) -> bool {
    match signal {
        Signal::ChatChanged {
            chat,
            event: ChannelChatEvent::MessagesUpdated { old_start, old_end, new_count },
        } => {
            let old = before[chat];
            let new = after[chat];
            &&& before.contains_key(chat)
            &&& after == before.insert(chat, new)
            &&& old_start <= old_end <= old.len()
            &&& new.len() == old.len() - (old_end - old_start) + new_count
            &&& new.take(old_start as int) == old.take(old_start as int)
            &&& new.skip(old_start + new_count) == old.skip(old_end as int)
        },
        Signal::ChatOpened { opened: Some(chat) } => {
            &&& after == before
            &&& before.contains_key(chat.id)
            &&& before[chat.id].len() == chat.message_count
        },
        _ => after == before,
    }
}

/// Whether each signal of a run tells the truth, where `history` holds the
/// messages of the chats before the run and after each signal of it.
pub open spec fn is_true_history<W, M>(
    history: Seq<Map<u64, Seq<M>>>,
    signals: Seq<Signal<W>>,
) -> bool {
    &&& history.len() == signals.len() + 1
    &&& forall|k: int|
        #![trigger signals[k]]
        0 <= k < signals.len() ==> tells_truth(history[k], signals[k], history[k + 1])
}

/// The messages of the chat that a panel shows.
pub open spec fn messages_shown<W, M>(
    panel: ChatPanel<W>,
    chats: Map<u64, Seq<M>>,
) -> Seq<M> {
    match panel.active_channel {
        Some(chat) => chats[chat],
        None => seq![],
    }
}

/// The rows of the list after a session.
pub open spec fn session_list<W, M>(
    kept: Option<SerializedChatPanel<W>>,
    workspace: Workspace,
    history: Seq<Map<u64, Seq<M>>>,
    signals: Seq<Signal<W>>,
) -> Seq<M>
    decreases signals.len(),
{
    if signals.len() == 0 {
        let made = ChatPanel::<W>::started(kept, workspace);
        list_after(made.1, seq![], messages_shown(made.0, history.last()))
    } else {
        let panel = session(kept, workspace, signals.drop_last()).0;
        let answer = panel.step(signals.last());
        list_after(
            answer.1,
            session_list(kept, workspace, history.drop_last(), signals.drop_last()),
            messages_shown(answer.0, history.last()),
        )
    }
}

/// In every session in which the panel hears the truth, of a new panel or of one
/// kept from before, each row of the list is the row of the message at the same
/// place of the chat shown, and there is a row for each message.
pub proof fn law_each_row_is_of_the_message_at_its_place<W, M>(
    kept: Option<SerializedChatPanel<W>>,
    workspace: Workspace,
    history: Seq<Map<u64, Seq<M>>>,
    signals: Seq<Signal<W>>,
)
    requires
        is_true_history(history, signals),
    ensures
        session_list(kept, workspace, history, signals) == messages_shown(
            session(kept, workspace, signals).0,
            history.last(),
        ),
        session(kept, workspace, signals).0.active_channel matches Some(chat)
            ==> history.last().contains_key(chat),
    decreases signals.len(),
{
    reveal_with_fuel(list_after, 9);
    if signals.len() == 0 {
        let made = ChatPanel::<W>::started(kept, workspace);
        assert(list_after(made.1, Seq::<M>::empty(), Seq::<M>::empty()) =~= seq![]);
    } else {
        let earlier = signals.drop_last();
        let past = history.drop_last();
        assert forall|k: int|
            #![trigger earlier[k]]
            0 <= k < earlier.len() implies tells_truth(past[k], earlier[k], past[k + 1]) by {
            assert(signals[k] == earlier[k]);
        }
        law_each_row_is_of_the_message_at_its_place(kept, workspace, past, earlier);
        let n = signals.len() - 1;
        assert(tells_truth(history[n], signals[n], history[n + 1]));
        assert(past.last() == history[n]);
        let panel = session(kept, workspace, earlier).0;
        let answer = panel.step(signals.last());
        assert(session(kept, workspace, signals).0 == answer.0);
        let rows = session_list(kept, workspace, past, earlier);
        let messages = messages_shown(answer.0, history.last());
        lemma_answer_keeps_list(panel, signals.last(), history[n], history[n + 1]);
        assert(list_after(answer.1, rows, messages) =~= messages);
    }
}

/// In every such session, the message that is looked up for a row is there, and
/// is the one that the row was made for.
pub proof fn law_rows_look_up_the_message_they_are_for<W, M>(
    kept: Option<SerializedChatPanel<W>>,
    workspace: Workspace,
    history: Seq<Map<u64, Seq<M>>>,
    signals: Seq<Signal<W>>,
    ix: usize,
)
    requires
        is_true_history(history, signals),
        ix < session_list(kept, workspace, history, signals).len(),
    ensures
        ({
            let panel = session(kept, workspace, signals).0;
            &&& panel.source_of_row(ix) matches Some((chat, place))
            &&& history.last().contains_key(chat)
            &&& place < history.last()[chat].len()
            &&& history.last()[chat][place as int] == session_list(
                kept,
                workspace,
                history,
                signals,
            )[ix as int]
        }),
{
    law_each_row_is_of_the_message_at_its_place(kept, workspace, history, signals);
}

/// An answer to a true signal keeps the list equal to the messages shown.
proof fn lemma_answer_keeps_list<W, M>(
    panel: ChatPanel<W>,
    signal: Signal<W>,
    before: Map<u64, Seq<M>>,
    after: Map<u64, Seq<M>>,
)
    requires
        tells_truth(before, signal, after),
    ensures
        ({
            let answer = panel.step(signal);
            let messages = messages_shown(answer.0, after);
            list_after(answer.1, messages_shown(panel, before), messages) == messages
        }),
{
    reveal_with_fuel(list_after, 6);
    let answer = panel.step(signal);
    let rows = messages_shown(panel, before);
    let messages = messages_shown(answer.0, after);
    let list = list_after(answer.1, rows, messages);
    match signal {
        Signal::ChatChanged {
            chat,
            event: ChannelChatEvent::MessagesUpdated { old_start, old_end, new_count },
        } => {
            if panel.active_channel == Some(chat) {
                let s = old_start as int;
                let n = new_count as int;
                assert(list =~= rows.take(s) + Seq::new(new_count as nat, |i: int| messages[s + i])
                    + rows.skip(old_end as int));
                assert(messages =~= messages.take(s) + Seq::new(
                    new_count as nat,
                    |i: int| messages[s + i],
                ) + messages.skip(s + n));
            } else {
                assert(list =~= messages);
            }
        },
        _ => {
            assert(list =~= messages);
        },
    }
}

} // verus!
