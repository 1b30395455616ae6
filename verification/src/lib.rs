//! The simulation core of a text adventure set on a drifting shuttle: a world
//! of rooms and entities, the player's verbs over it, and the shuttle's
//! control console.

pub mod engine;
pub mod entity;
pub mod parser;
pub mod utils;
pub mod world;

use crate::engine::actions;
use crate::engine::state::{GameState, GameStateView};
use crate::engine::tui;
use crate::parser::command::{Command, CommandView};
use crate::utils::{any_of, lowercase, one_of, texts};
use crate::world::room::{Direction, PassageType};
use vstd::prelude::*;

verus! {

/// What may be told when a door opens.
pub open spec fn door_openings() -> Seq<Seq<char>> {
    seq![
        "The door beeps with quiet acknowledgement and slides aside."@,
        "*Shhhhht* - the door slides open."@,
        "The door opens with no apparent effort from your side."@,
        "The door opened so fast as if it predicted your intention."@,
    ]
}

/// What may be told when a move does not take place.
pub open spec fn excuses(direction: Direction, error: Seq<char>) -> Seq<Seq<char>> {
    seq![
        "I can't go to "@ + direction.label_text() + ": "@ + error,
        "There's nowhere to go at "@ + direction.label_text() + ", I think?"@,
        "I could try, I remember walking through solid walls worked at a certain spaceport platform to get on a spacecruiser to the nanoscience school for gifted kids... or was it in a holoseries?.."@,
    ]
}

/// What may be told when a command is not understood.
pub open spec fn unknown_reactions() -> Seq<Seq<char>> {
    seq![
        "Erm, say that again?"@,
        "I am not sure I follow"@,
        "Put what where? Huh?"@,
        "I think I keep hearing voices, maybe I shouldn't have sent those vitnesses of Mandalor away after all."@,
    ]
}

fn door_opening_candidates() -> (candidates: Vec<String>)
    ensures
        texts(candidates@) == door_openings(),
{
    let candidates = vec![
        "The door beeps with quiet acknowledgement and slides aside.".to_owned(),
        "*Shhhhht* - the door slides open.".to_owned(),
        "The door opens with no apparent effort from your side.".to_owned(),
        "The door opened so fast as if it predicted your intention.".to_owned(),
    ];
    assert(texts(candidates@) =~= door_openings());
    candidates
}

fn excuse_candidates(direction: Direction, error: &str) -> (candidates: Vec<String>)
    ensures
        texts(candidates@) == excuses(direction, error@),
{
    let mut first = "I can't go to ".to_owned();
    first.append(direction.label());
    first.append(": ");
    first.append(error);
    let mut second = "There's nowhere to go at ".to_owned();
    second.append(direction.label());
    second.append(", I think?");
    let third =
        "I could try, I remember walking through solid walls worked at a certain spaceport platform to get on a spacecruiser to the nanoscience school for gifted kids... or was it in a holoseries?..".to_owned();
    let candidates = vec![first, second, third];
    assert(texts(candidates@) =~= excuses(direction, error@));
    candidates
}

/// The reaction to a command that was not understood: one of a few remarks,
/// picked at random.
pub fn unknown_command_reaction() -> (text: String)
    ensures
        one_of(unknown_reactions(), text@),
{
    let candidates = vec![
        "Erm, say that again?".to_owned(),
        "I am not sure I follow".to_owned(),
        "Put what where? Huh?".to_owned(),
        "I think I keep hearing voices, maybe I shouldn't have sent those vitnesses of Mandalor away after all.".to_owned(),
    ];
    assert(texts(candidates@) =~= unknown_reactions());
    any_of(&candidates, "Hrr")
}

impl GameStateView {
    /// Whether the text may be what is told of a move. A move that takes
    /// place is told by what the destination shows, after a remark on the
    /// door where the passage is one; a move that does not take place is
    /// told by one of the excuses.
    pub open spec fn move_told_by(self, direction: Direction, text: Seq<char>) -> bool {
        match self.move_answer(direction) {
            Ok(arrival) => if self.passage(direction) matches Some((_, PassageType::Door)) {
                exists|i: int|
                    0 <= i < door_openings().len() && text == #[trigger] door_openings()[i]
                        + "\n"@ + arrival
            } else {
                text == arrival
            },
            Err(error) => one_of(excuses(direction, error), text),
        }
    }

    /// The session after a command.
    pub open spec fn after_command(self, command: Option<CommandView>) -> GameStateView {
        match command {
            Some(CommandView::Go(direction)) => self.after_move(direction),
            Some(CommandView::Take(obj)) => self.after_pick_up(lowercase(obj)),
            Some(CommandView::Drop(obj)) => self.after_drop(lowercase(obj)),
            Some(CommandView::TakeFrom(obj, cont)) => self.after_take_from(
                lowercase(obj),
                lowercase(cont),
            ),
            Some(CommandView::PutInto(obj, cont)) => self.after_put_into(
                lowercase(obj),
                lowercase(cont),
            ),
            Some(CommandView::Enter(code)) => self.after_enter(code),
            Some(CommandView::Eat(obj)) => self.after_eat(lowercase(obj)),
            _ => self,
        }
    }

    /// Whether the text may be the answer to a command. Only the answers to
    /// a move and to what is not understood leave a choice.
    pub open spec fn answered_by(self, command: Option<CommandView>, text: Seq<char>) -> bool {
        match command {
            Some(CommandView::Look(None)) => text == self.look_text(),
            Some(CommandView::Look(Some(obj))) => text == self.look_at_text(lowercase(obj)),
            Some(CommandView::Open(obj)) => text == "You try to open the "@ + obj + "."@,
            Some(CommandView::Close(obj)) => text == "You try to close the "@ + obj + "."@,
            Some(CommandView::Go(direction)) => self.move_told_by(direction, text),
            Some(CommandView::Take(obj)) => text == self.pick_up_text(lowercase(obj)),
            Some(CommandView::Drop(obj)) => text == self.drop_text(lowercase(obj)),
            Some(CommandView::TakeFrom(obj, cont)) => text == self.take_from_text(
                lowercase(obj),
                lowercase(cont),
            ),
            Some(CommandView::PutInto(obj, cont)) => text == self.put_into_text(
                lowercase(obj),
                lowercase(cont),
            ),
            Some(CommandView::Use(obj)) => text == self.use_text(lowercase(obj)),
            Some(CommandView::Enter(code)) => text == self.enter_text(code),
            Some(CommandView::Read(obj)) => text == self.read_text(lowercase(obj)),
            Some(CommandView::Eat(obj)) => text == self.eat_text(lowercase(obj)),
            Some(CommandView::Inventory) => text == self.inventory_text(),
            Some(CommandView::Help) => text == tui::HELP@,
            Some(CommandView::DebugListAllCommands) => text == tui::command_listing(),
            _ => one_of(unknown_reactions(), text),
        }
    }
}

/// What a command is as a mathematical value, if there is one.
pub open spec fn command_view(command: Option<Command>) -> Option<CommandView> {
    match command {
        Some(c) => Some(c@),
        None => None,
    }
}

/// Carries out a move and tells of it.
pub fn handle_movement(game_state: &mut GameState, direction: Direction) -> (text: String)
    ensures
        final(game_state)@ == old(game_state)@.after_move(direction),
        old(game_state)@.move_told_by(direction, text@),
{
    let through_door = match game_state.world.get_adjacent_room(
        &game_state.current_room,
        direction,
    ) {
        Some((_, passage)) => *passage == PassageType::Door,
        None => false,
    };
    match actions::move_in_direction(game_state, direction) {
        Ok(arrival) => {
            if through_door {
                let candidates = door_opening_candidates();
                assert(texts(candidates@).len() == 4);
                let mut text = any_of(&candidates, "Hmhm");
                let ghost opening = text@;
                text.append("\n");
                text.append(arrival.as_str());
                proof {
                    let i = choose|i: int|
                        0 <= i < door_openings().len() && opening == #[trigger] door_openings()[i];
                    assert(text@ == door_openings()[i] + "\n"@ + arrival@);
                }
                text
            } else {
                arrival
            }
        },
        Err(error) => {
            let candidates = excuse_candidates(direction, error.as_str());
            assert(texts(candidates@).len() == 3);
            any_of(&candidates, "Hmhm")
        },
    }
}

/// Carries out one command and answers with what is to be shown.
pub fn process_input(game_state: &mut GameState, command: Option<Command>) -> (text: String)
    ensures
        final(game_state)@ == old(game_state)@.after_command(command_view(command)),
        old(game_state)@.answered_by(command_view(command), text@),
{
    match command {
        Some(Command::Look(None)) => actions::look(game_state),
        Some(Command::Look(Some(obj))) => actions::look_at(game_state, obj.as_str()),
        Some(Command::Open(obj)) => actions::open(game_state, obj.as_str()),
        Some(Command::Close(obj)) => actions::close(game_state, obj.as_str()),
        Some(Command::Go(direction)) => handle_movement(game_state, direction),
        Some(Command::Take(obj)) => actions::pick_up(game_state, obj.as_str()),
        Some(Command::Drop(obj)) => actions::drop(game_state, obj.as_str()),
        Some(Command::TakeFrom(obj, cont)) => actions::take_from_container(
            game_state,
            obj.as_str(),
            cont.as_str(),
        ),
        Some(Command::PutInto(obj, cont)) => actions::put_into(
            game_state,
            obj.as_str(),
            cont.as_str(),
        ),
        Some(Command::Use(obj)) => actions::use_object(game_state, obj.as_str()),
        Some(Command::Enter(code)) => actions::enter(game_state, code.as_str()),
        Some(Command::Read(obj)) => actions::read(game_state, obj.as_str()),
        Some(Command::Eat(obj)) => actions::eat(game_state, obj.as_str()),
        Some(Command::Inventory) => tui::inventory(game_state),
        Some(Command::Help) => tui::help(),
        Some(Command::DebugListAllCommands) => tui::list_all_commands(),
        _ => unknown_command_reaction(),
    }
}

} // verus!
