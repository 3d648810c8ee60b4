//! What to do with the chat panel, given how it was found.

use vstd::prelude::*;

verus! {

/// How the chat panel was found.
#[derive(Debug, Clone, Copy, PartialEq, Eq, Structural)]
pub enum ChatPanel {
    /// No panel has been made yet.
    Absent,
    /// The panel exists. `visible` is what it answered when asked whether
    /// it is shown, or `None` where the question failed.
    Present { visible: Option<bool> },
}

/// What the windowing layer is asked to do with the chat panel.
#[derive(Debug, Clone, Copy, PartialEq, Eq, Structural)]
pub enum PanelAction {
    /// Make the panel, shown, and give it the focus.
    Create,
    /// Show the panel and give it the focus.
    ShowAndFocus,
    /// Hide the panel.
    Hide,
    /// Leave things as they are.
    Nothing,
}

/// The action that flips the panel's visibility.
pub open spec fn toggle_action(panel: ChatPanel) -> PanelAction {
    match panel {
        ChatPanel::Absent => PanelAction::Create,
        ChatPanel::Present { visible: Some(true) } => PanelAction::Hide,
        ChatPanel::Present { visible: _ } => PanelAction::ShowAndFocus,
    }
}

/// The action that puts the panel away.
pub open spec fn close_action(panel: ChatPanel) -> PanelAction {
    match panel {
        ChatPanel::Absent => PanelAction::Nothing,
        ChatPanel::Present { visible: _ } => PanelAction::Hide,
    }
}

/// Flips the chat panel: a panel that is shown gets hidden; one that is
/// hidden, or that could not say, gets shown and focused; where there is
/// none, one is made.
pub fn toggle_chat(panel: ChatPanel) -> (action: PanelAction)
    ensures
        action == toggle_action(panel),
{
    match panel {
        ChatPanel::Absent => PanelAction::Create,
        ChatPanel::Present { visible } => {
            let shown = match visible {
                Some(answer) => answer,
                None => false,
            };
            if shown {
                PanelAction::Hide
            } else {
                PanelAction::ShowAndFocus
            }
        },
    }
}

/// Puts the chat panel away: an existing panel gets hidden, shown or not.
pub fn close_chat(panel: ChatPanel) -> (action: PanelAction)
    ensures
        action == close_action(panel),
{
    match panel {
        ChatPanel::Absent => PanelAction::Nothing,
        ChatPanel::Present { visible: _ } => PanelAction::Hide,
    }
}

} // verus!
