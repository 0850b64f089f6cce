//! How the panel stands in a dock at the side of the window.

use crate::actions::Action;
use crate::effect::{views, Effect, EffectView};
use crate::panel::ChatPanel;
use vstd::prelude::*;

verus! {

/// A side of the window.
#[derive(Clone, Copy, Debug, PartialEq, Eq, Structural)]
pub enum DockPosition {
    Left,
    Bottom,
    Right,
}

/// A side of the window that the settings can name for the panel.
#[derive(Clone, Copy, Debug, PartialEq, Eq, Structural)]
pub enum CollaborationPanelDockPosition {
    Left,
    Right,
}

/// What the panel tells the dock that it stands in.
#[derive(Debug)]
pub enum Event {
    DockPositionChanged,
    Focus,
    Dismissed,
}

/// The side of the window that the settings name.
pub open spec fn dock_position(dock: CollaborationPanelDockPosition) -> DockPosition {
    match dock {
        CollaborationPanelDockPosition::Left => DockPosition::Left,
        CollaborationPanelDockPosition::Right => DockPosition::Right,
    }
}

/// What the settings name for a side of the window. The panel never stands at
/// the bottom: the left side takes its place.
pub open spec fn dock_setting(position: DockPosition) -> CollaborationPanelDockPosition {
    match position {
        DockPosition::Left | DockPosition::Bottom => CollaborationPanelDockPosition::Left,
        DockPosition::Right => CollaborationPanelDockPosition::Right,
    }
}

/// Whether the panel can stand on a side of the window.
pub open spec fn is_panel_side(position: DockPosition) -> bool {
    position == DockPosition::Left || position == DockPosition::Right
}

impl<W: Copy> ChatPanel<W> {
    /// The name of the panel's kind.
    pub fn ui_name() -> (name: &'static str)
        ensures
            name@ == "ChatPanel"@,
    {
        "ChatPanel"
    }

    /// The side of the window on which the panel stands, by the settings.
    pub fn position(&self, dock: CollaborationPanelDockPosition) -> (position: DockPosition)
        ensures
            position == dock_position(dock),
    {
        match dock {
            CollaborationPanelDockPosition::Left => DockPosition::Left,
            CollaborationPanelDockPosition::Right => DockPosition::Right,
        }
    }

    /// Whether the panel can stand on this side of the window.
    pub fn position_is_valid(&self, position: DockPosition) -> (valid: bool)
        ensures
            valid == is_panel_side(position),
    {
        matches!(position, DockPosition::Left | DockPosition::Right)
    }

    /// Moves the panel to this side of the window, by way of the settings.
    pub fn set_position(&self, position: DockPosition) -> (effects: Vec<Effect<W>>)
        ensures
            views(effects@) == seq![EffectView::<W>::SetDock { dock: dock_setting(position) }],
    {
        let dock = match position {
            DockPosition::Left | DockPosition::Bottom => CollaborationPanelDockPosition::Left,
            DockPosition::Right => CollaborationPanelDockPosition::Right,
        };
        vec![Effect::SetDock { dock }]
    }

    /// The width of the panel: the one that it was given, or else the default.
    pub fn size(&self, default_width: W) -> (size: W)
        ensures
            size == (match self.width {
                Some(width) => width,
                None => default_width,
            }),
    {
        match self.width {
            Some(width) => width,
            None => default_width,
        }
    }

    /// The path of the panel's icon, if the settings ask for a button.
    pub fn icon_path(&self, button: bool) -> (path: Option<&'static str>)
        ensures
            path is Some == button,
            path matches Some(path) ==> path@ == "icons/conversations.svg"@,
    {
        if button {
            Some("icons/conversations.svg")
        } else {
            None
        }
    }

    /// What the tooltip of the panel's button says, and the action that it shows
    /// the keys for.
    pub fn icon_tooltip(&self) -> (tooltip: (String, Option<Action>))
        ensures
            tooltip.0@ == "Chat Panel"@,
            tooltip.1 == Some(Action::ToggleFocus),
    {
        ("Chat Panel".to_owned(), Some(Action::ToggleFocus))
    }

    /// Whether the dock is to ask the panel anew where it stands.
    pub fn should_change_position_on_event(event: &Event) -> (should: bool)
        ensures
            should == (*event is DockPositionChanged),
    {
        matches!(event, Event::DockPositionChanged)
    }

    pub fn has_focus(&self) -> (focused: bool)
        ensures
            focused == self.has_focus,
    {
        self.has_focus
    }

    /// Whether the event says that the panel has the focus.
    pub fn is_focus_event(event: &Event) -> (is_focus: bool)
        ensures
            is_focus == (*event is Focus),
    {
        matches!(event, Event::Focus)
    }
}

} // verus!
