//! The entries of the tray menu and what each of them asks for.

use vstd::prelude::*;
use vstd::string::*;
use crate::mode::InteractionMode;

verus! {

/// What choosing an entry of the tray menu asks for.
#[derive(Debug, Clone, Copy, PartialEq, Eq, Structural)]
pub enum MenuCommand {
    /// End the program.
    Quit,
    /// Show the character with this edge length, in pixels.
    SetSize(u32),
    /// Put the window into this mode.
    SetMode(InteractionMode),
    /// The entry is none of the menu's own: do nothing.
    Ignore,
}

/// The command behind the menu entry with identifier `id`.
pub open spec fn menu_command_of(id: Seq<char>) -> MenuCommand {
    if id == "quit"@ {
        MenuCommand::Quit
    } else if id == "size_100"@ {
        MenuCommand::SetSize(100)
    } else if id == "size_150"@ {
        MenuCommand::SetSize(150)
    } else if id == "size_200"@ {
        MenuCommand::SetSize(200)
    } else if id == "size_300"@ {
        MenuCommand::SetSize(300)
    } else if id == "size_400"@ {
        MenuCommand::SetSize(400)
    } else if id == "mode_interactive"@ {
        MenuCommand::SetMode(InteractionMode::Interactive)
    } else if id == "mode_passthrough"@ {
        MenuCommand::SetMode(InteractionMode::Passthrough)
    } else if id == "mode_ghost"@ {
        MenuCommand::SetMode(InteractionMode::Ghosted)
    } else {
        MenuCommand::Ignore
    }
}

/// Whether `id` reads exactly as `entry` does.
fn names_entry(id: &str, entry: &str) -> (same: bool)
    ensures
        same == (id@ == entry@),
{
    String::from_str(id) == String::from_str(entry)
}

/// Reads the identifier of a menu entry: `quit`, one of the five size
/// presets, one of the three modes, or something that the menu does not
/// know.
pub fn parse_menu_item(id: &str) -> (command: MenuCommand)
    ensures
        command == menu_command_of(id@),
{
    if names_entry(id, "quit") {
        MenuCommand::Quit
    } else if names_entry(id, "size_100") {
        MenuCommand::SetSize(100)
    } else if names_entry(id, "size_150") {
        MenuCommand::SetSize(150)
    } else if names_entry(id, "size_200") {
        MenuCommand::SetSize(200)
    } else if names_entry(id, "size_300") {
        MenuCommand::SetSize(300)
    } else if names_entry(id, "size_400") {
        MenuCommand::SetSize(400)
    } else if names_entry(id, "mode_interactive") {
        MenuCommand::SetMode(InteractionMode::Interactive)
    } else if names_entry(id, "mode_passthrough") {
        MenuCommand::SetMode(InteractionMode::Passthrough)
    } else if names_entry(id, "mode_ghost") {
        MenuCommand::SetMode(InteractionMode::Ghosted)
    } else {
        MenuCommand::Ignore
    }
}

} // verus!
