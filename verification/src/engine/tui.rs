//! The renderers of what the session shows without changing it.

use crate::engine::actions::{carried, carried_ids, names_of};
use crate::engine::state::{GameState, GameStateView};
use crate::utils::{join, joined};
use vstd::prelude::*;

verus! {

/// The help text.
pub const HELP: &'static str =
    "Try looking around, searching for items that might help you, taking a closer look at your surroundings. You'll get it!";

impl GameStateView {
    /// The listing of the inventory: the names of what is carried, folded to
    /// lower case and joined by commas, with a full stop; "nothing." for an
    /// empty inventory.
    pub open spec fn inventory_text(self) -> Seq<char> {
        let names = self.world.names_of(carried(self.inventory), true);
        "Your inventory contains:\n"@ + (if self.inventory.len() == 0 {
            "nothing.\n"@
        } else if names.len() > 0 {
            joined(names, ", "@) + "."@
        } else {
            Seq::empty()
        })
    }
}

/// Lists what the player carries.
pub fn inventory(game_state: &GameState) -> (text: String)
    ensures
        text@ == game_state@.inventory_text(),
{
    let mut listing = String::new();
    if game_state.inventory.len() == 0 {
        listing.append("nothing.\n");
    } else {
        let ids = carried_ids(&game_state.inventory);
        let names = names_of(&game_state.world, &ids, true);
        if names.len() > 0 {
            listing.append(join(&names, ", ").as_str());
            listing.append(".");
        }
    }
    let mut text = "Your inventory contains:\n".to_owned();
    text.append(listing.as_str());
    text
}

/// Tells the player how to go on.
pub fn help() -> (text: String)
    ensures
        text@ == HELP@,
{
    HELP.to_owned()
}

/// One line of the listing of commands: the command's name, what it is for,
/// and a line break.
pub open spec fn command_line(name: Seq<char>, purpose: Seq<char>) -> Seq<char> {
    name + ": "@ + purpose + "\n"@
}

/// The listing of every command with what it is for.
pub open spec fn command_listing() -> Seq<char> {
    "The available commands are:"@
        + command_line("Look"@, "Look around or look at a specific object"@)
        + command_line("Examine"@, "Examine something in detail"@)
        + command_line("Open"@, "Open a door or container"@)
        + command_line("Close"@, "Close a door or container"@)
        + command_line("Go"@, "Move in a specific direction"@)
        + command_line("Take"@, "Take an object"@)
        + command_line("Drop"@, "Drop an object"@)
        + command_line("TakeFrom"@, "Take an object from a container"@)
        + command_line("PutInto"@, "Put an object into a container"@)
        + command_line("Use"@, "Use an object"@)
        + command_line("Enter"@, "Enter a command or space"@)
        + command_line("Combine"@, "Combine two items"@)
        + command_line("Push"@, "Push something"@)
        + command_line("Pull"@, "Pull something"@)
        + command_line("Turn"@, "Turn something, like a knob or switch"@)
        + command_line("Read"@, "Read something, like a note"@)
        + command_line("Eat"@, "Eat something that is a food"@)
        + command_line("Inventory"@, "Check your inventory"@)
        + command_line("Status"@, "Check your status or health"@)
        + command_line("Help"@, "Show available commands"@)
        + command_line("Save"@, "Save the game"@)
        + command_line("Load"@, "Load the game"@)
        + command_line("DebugListAllCommands"@, "No description available"@)
}

fn line_of(name: &str, purpose: &str) -> (line: String)
    ensures
        line@ == command_line(name@, purpose@),
{
    let mut line = name.to_owned();
    line.append(": ");
    line.append(purpose);
    line.append("\n");
    line
}

/// Lists every command with what it is for.
pub fn list_all_commands() -> (text: String)
    ensures
        text@ == command_listing(),
{
    let mut text = "The available commands are:".to_owned();
    text.append(line_of("Look", "Look around or look at a specific object").as_str());
    text.append(line_of("Examine", "Examine something in detail").as_str());
    text.append(line_of("Open", "Open a door or container").as_str());
    text.append(line_of("Close", "Close a door or container").as_str());
    text.append(line_of("Go", "Move in a specific direction").as_str());
    text.append(line_of("Take", "Take an object").as_str());
    text.append(line_of("Drop", "Drop an object").as_str());
    text.append(line_of("TakeFrom", "Take an object from a container").as_str());
    text.append(line_of("PutInto", "Put an object into a container").as_str());
    text.append(line_of("Use", "Use an object").as_str());
    text.append(line_of("Enter", "Enter a command or space").as_str());
    text.append(line_of("Combine", "Combine two items").as_str());
    text.append(line_of("Push", "Push something").as_str());
    text.append(line_of("Pull", "Pull something").as_str());
    text.append(line_of("Turn", "Turn something, like a knob or switch").as_str());
    text.append(line_of("Read", "Read something, like a note").as_str());
    text.append(line_of("Eat", "Eat something that is a food").as_str());
    text.append(line_of("Inventory", "Check your inventory").as_str());
    text.append(line_of("Status", "Check your status or health").as_str());
    text.append(line_of("Help", "Show available commands").as_str());
    text.append(line_of("Save", "Save the game").as_str());
    text.append(line_of("Load", "Load the game").as_str());
    text.append(line_of("DebugListAllCommands", "No description available").as_str());
    text
}

} // verus!
