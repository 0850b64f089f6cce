//! How sessions start, in any workspace and with anything kept from before.

use crate::effect::{EffectView, Orientation, SerializedChatPanel, Signal, SoftWrap};
use crate::element::Style;
use crate::panel::{ChatPanel, LoadError, Outcome, StoredPanel, Workspace};
use crate::panel_laws::{law_lasting_state, session};
use vstd::prelude::*;

verus! {

/// A panel starts with the time zone of the workspace that it is made in and
/// with the width that was kept, if any was, shows no chat, and does not say
/// that it has the focus.
pub proof fn law_a_panel_starts_with_what_it_is_given<W>(
    kept: Option<SerializedChatPanel<W>>,
    workspace: Workspace,
)
    ensures
        ({
            let panel = ChatPanel::<W>::started(kept, workspace).0;
            &&& panel.local_timezone == workspace.local_timezone
            &&& panel.width == (match kept {
                Some(kept) => kept.width,
                None => None,
            })
            &&& panel.active_channel is None
            &&& !panel.has_focus
        }),
{
}

/// To make a new panel is to start with nothing kept, and to restore one is to
/// start with it.
pub proof fn law_panels_start_in_one_of_two_ways<W>(
    kept: SerializedChatPanel<W>,
    workspace: Workspace,
)
    ensures
        ChatPanel::<W>::fresh(workspace) == ChatPanel::<W>::started(None, workspace),
        ChatPanel::<W>::restored(kept, workspace) == ChatPanel::<W>::started(Some(kept), workspace),
{
}

/// Loading fails only where the store holds something that is no panel or where
/// the workspace is gone, and the former is told first. A panel that was kept
/// has its width again; where none was, or the store could not be read, loading
/// ends as the making of a new panel does. Every workspace will do.
pub proof fn law_loading_ends_with_a_panel<W>(
    stored: StoredPanel<W>,
    workspace: Workspace,
)
    ensures
        ChatPanel::loaded(stored, Some(workspace)) is Err <==> stored is Malformed,
        ChatPanel::loaded(stored, None) is Err,
        ChatPanel::loaded(stored, None)->Err_0 == LoadError::Malformed <==> stored is Malformed,
        stored is Malformed ==> ChatPanel::loaded(stored, Some(workspace))->Err_0
            == LoadError::Malformed,
        stored matches StoredPanel::Found(kept) ==> ChatPanel::loaded(
            stored,
            Some(workspace),
        )->Ok_0.0.width == kept.width,
        stored is Missing || stored is Unreadable ==> ChatPanel::loaded(stored, Some(workspace))
            == Ok::<Outcome<W>, LoadError>(ChatPanel::<W>::fresh(workspace)),
        stored is Found ==> ChatPanel::loaded(stored, Some(workspace))->Ok_0.1.len()
            == ChatPanel::<W>::fresh(workspace).1.len() + 1,
        !(stored is Malformed) ==> ChatPanel::loaded(
            stored,
            Some(workspace),
        )->Ok_0.0.local_timezone == workspace.local_timezone,
{
}

/// In every session, of a new panel or of one kept from before, the time zone is
/// that of the workspace, after any run of signals.
pub proof fn law_the_time_zone_is_that_of_the_workspace<W>(
    kept: Option<SerializedChatPanel<W>>,
    workspace: Workspace,
    signals: Seq<Signal<W>>,
)
    ensures
        session(kept, workspace, signals).0.local_timezone == workspace.local_timezone,
        !session(kept, workspace, signals).0.has_focus,
{
    law_lasting_state(ChatPanel::<W>::started(kept, workspace).0, signals);
}

/// The width after a run of signals, where it was `width` before: the last one
/// that was given.
pub open spec fn last_width<W>(signals: Seq<Signal<W>>, width: Option<W>) -> Option<W>
    decreases signals.len(),
{
    if signals.len() == 0 {
        width
    } else {
        match signals.last() {
            Signal::SizeSet { width: given } => given,
            _ => last_width(signals.drop_last(), width),
        }
    }
}

/// In every session the width is the last one that the panel was given, or else
/// the one that was kept.
pub proof fn law_the_width_is_the_last_one_given<W>(
    kept: Option<SerializedChatPanel<W>>,
    workspace: Workspace,
    signals: Seq<Signal<W>>,
)
    ensures
        session(kept, workspace, signals).0.width == last_width(
            signals,
            match kept {
                Some(kept) => kept.width,
                None => None,
            },
        ),
    decreases signals.len(),
{
    if signals.len() > 0 {
        law_the_width_is_the_last_one_given(kept, workspace, signals.drop_last());
    }
}

/// The turn at which a request comes in the making of a panel, 0 for one that
/// has no place there.
pub open spec fn making_turn<W>(effect: EffectView<W>) -> int {
    match effect {
        EffectView::CreateInputEditor { .. } => 1,
        EffectView::CreateChannelSelect { .. } => 2,
        EffectView::CreateMessageList { .. } => 3,
        EffectView::ResetMessageList { .. } => 4,
        EffectView::SetChannelCount { .. } => 5,
        EffectView::ObserveChannelStore => 6,
        EffectView::ObserveChannelSelect => 7,
        EffectView::Notify => 8,
        _ => 0,
    }
}

/// In the making of a panel, the views are made before they are used, and used
/// before they are observed, each of it once. A panel kept from before is then
/// drawn again. Nothing else is asked: nothing is sent, opened, loaded or
/// written.
pub proof fn law_a_panel_is_made_in_turn<W>(
    kept: Option<SerializedChatPanel<W>>,
    workspace: Workspace,
)
    ensures
        ({
            let effects = ChatPanel::<W>::started(kept, workspace).1;
            &&& effects.len() == if kept is Some {
                8int
            } else {
                7int
            }
            &&& forall|i: int|
                0 <= i < effects.len() ==> making_turn(#[trigger] effects[i]) == i + 1
        }),
{
}

/// What is asked in the making of a panel: an input editor of up to four lines
/// that wraps at its own width, a selector without channels that then offers
/// those that the workspace has, and a list without rows that grows at the
/// bottom. All but the number of channels is the same in every workspace.
pub proof fn law_a_panel_is_made_alike_everywhere<W>(
    kept: Option<SerializedChatPanel<W>>,
    workspace: Workspace,
    effect: EffectView<W>,
)
    requires
        ChatPanel::<W>::started(kept, workspace).1.contains(effect),
    ensures
        effect matches EffectView::CreateInputEditor { max_lines, soft_wrap, style } ==> max_lines
            == 4 && soft_wrap == SoftWrap::EditorWidth && style == Style::InputEditor,
        effect matches EffectView::CreateChannelSelect { item_count, header, menu } ==> item_count
            == 0 && header == Style::ChannelSelectHeader && menu == Style::ChannelSelectMenu,
        effect matches EffectView::CreateMessageList { item_count, orientation, overdraw } ==>
            item_count == 0 && orientation == Orientation::Bottom && overdraw == 1000,
        effect matches EffectView::ResetMessageList { count } ==> count == 0,
        effect matches EffectView::SetChannelCount { count } ==> count == workspace.channel_count,
{
}

} // verus!
