use voidlogue::engine::state::{GameState, RoomState};
use voidlogue::engine::tui::{help, inventory, list_all_commands};
use voidlogue::entity::item::ItemId;
use voidlogue::parser::command::Command;
use voidlogue::world::content::{ROOM_NORTH_MESS_FIRST, ROOM_NORTH_MESS_SHORT, ROOM_STORAGE_FIRST, ROOM_STORAGE_SHORT};
use voidlogue::world::room::{Direction, RoomIdentifier};
use voidlogue::{handle_movement, process_input, unknown_command_reaction};

const REACTIONS: [&str; 4] = [
    "Erm, say that again?",
    "I am not sure I follow",
    "Put what where? Huh?",
    "I think I keep hearing voices, maybe I shouldn't have sent those vitnesses of Mandalor away after all.",
];

const DOORS: [&str; 4] = [
    "The door beeps with quiet acknowledgement and slides aside.",
    "*Shhhhht* - the door slides open.",
    "The door opens with no apparent effort from your side.",
    "The door opened so fast as if it predicted your intention.",
];

fn s(text: &str) -> String {
    text.to_string()
}

#[test]
fn a_session_starts_at_rest() {
    let state = GameState::new(RoomIdentifier::Storage);
    assert_eq!(state.current_room, RoomIdentifier::Storage);
    assert_eq!(state.inventory, vec![ItemId::AssistantCard]);
    assert!(!state.lost);
    assert_eq!(state.room_states.len(), 20);
    for (i, id) in RoomIdentifier::all().into_iter().enumerate() {
        assert_eq!(state.room_states[i], (id, RoomState { is_explored: false }));
    }
    assert!(state.was_current_room_visited());
    assert_eq!(state.current_room_description(), ROOM_STORAGE_SHORT);
    assert_eq!(state.current_room_first_thoughts(), ROOM_STORAGE_FIRST);
    assert_eq!(state.current_room_entities().unwrap().len(), 3);
}

#[test]
fn the_current_room_may_be_unknown() {
    let mut state = GameState::new(RoomIdentifier::Storage);
    state.world.rooms.clear();
    assert!(!state.was_current_room_visited());
    assert_eq!(state.current_room_description(), "Unknown room");
    assert_eq!(state.current_room_first_thoughts(), "Unknown room");
    assert_eq!(state.current_room_entities(), None);
}

#[test]
fn inventory_lists_folded_names() {
    let mut state = GameState::new(RoomIdentifier::Storage);
    assert_eq!(inventory(&state), "Your inventory contains:\nassistant card.");
    state.inventory.push(ItemId::Bucket);
    state.inventory.push(ItemId::SpaceSuit);
    assert_eq!(inventory(&state), "Your inventory contains:\nassistant card, bucket, space suit.");
    state.inventory.clear();
    assert_eq!(inventory(&state), "Your inventory contains:\nnothing.\n");
}

#[test]
fn inventory_of_unregistered_items() {
    let mut state = GameState::new(RoomIdentifier::Storage);
    state.world.entities.clear();
    assert_eq!(inventory(&state), "Your inventory contains:\n");
}

#[test]
fn help_is_a_fixed_text() {
    assert_eq!(
        help(),
        "Try looking around, searching for items that might help you, taking a closer look at your surroundings. You'll get it!"
    );
}

#[test]
fn all_commands_are_listed() {
    let text = list_all_commands();
    assert!(text.starts_with("The available commands are:Look: Look around or look at a specific object\nExamine: Examine something in detail\n"));
    assert!(text.contains("TakeFrom: Take an object from a container\n"));
    assert!(text.ends_with("Load: Load the game\nDebugListAllCommands: No description available\n"));
    assert_eq!(text.matches('\n').count(), 23);
}

#[test]
fn unknown_commands_get_one_of_the_reactions() {
    for _ in 0..20 {
        let text = unknown_command_reaction();
        assert!(REACTIONS.contains(&text.as_str()));
    }
}

#[test]
fn process_input_dispatches_the_verbs() {
    let mut state = GameState::new(RoomIdentifier::Storage);
    assert!(process_input(&mut state, Some(Command::Look(None))).contains("You can see the following things"));
    assert!(process_input(&mut state, Some(Command::Look(Some(s("Bucket")))))
        .starts_with("You look at the Bucket:"));
    assert_eq!(process_input(&mut state, Some(Command::Open(s("door")))), "You try to open the door.");
    assert_eq!(process_input(&mut state, Some(Command::Close(s("door")))), "You try to close the door.");
    assert!(process_input(&mut state, Some(Command::Take(s("bucket")))).starts_with("You pick up the Bucket"));
    assert_eq!(
        process_input(&mut state, Some(Command::PutInto(s("card"), s("bucket")))),
        "You put card into bucket."
    );
    assert_eq!(
        process_input(&mut state, Some(Command::TakeFrom(s("card"), s("bucket")))),
        "You take card from bucket."
    );
    assert_eq!(process_input(&mut state, Some(Command::Drop(s("bucket")))), "You've dropped the bucket.");
    assert_eq!(process_input(&mut state, Some(Command::Eat(s("card")))), "You don't have any card to eat.");
    assert_eq!(process_input(&mut state, Some(Command::Read(s("card")))), "You don't see a card to read.");
    assert_eq!(process_input(&mut state, Some(Command::Use(s("card")))), "There is no card here to use.");
    assert_eq!(
        process_input(&mut state, Some(Command::Enter(s("07::09::00")))),
        "There is no terminal here to enter commands into."
    );
    assert_eq!(process_input(&mut state, Some(Command::Inventory)), "Your inventory contains:\nassistant card.");
    assert_eq!(process_input(&mut state, Some(Command::Help)), help());
    assert_eq!(process_input(&mut state, Some(Command::DebugListAllCommands)), list_all_commands());
}

#[test]
fn process_input_reacts_to_what_it_does_not_know() {
    let mut state = GameState::new(RoomIdentifier::Storage);
    let unknown = [
        None,
        Some(Command::Examine(None)),
        Some(Command::Combine(s("a"), s("b"))),
        Some(Command::Push(s("a"))),
        Some(Command::Pull(s("a"))),
        Some(Command::Turn(s("a"))),
        Some(Command::Status),
        Some(Command::Save),
        Some(Command::Load),
    ];
    for command in unknown {
        let text = process_input(&mut state, command);
        assert!(REACTIONS.contains(&text.as_str()));
    }
    assert_eq!(state.inventory, vec![ItemId::AssistantCard]);
    assert_eq!(state.current_room, RoomIdentifier::Storage);
}

#[test]
fn a_move_through_a_door_is_told_with_a_remark() {
    let mut state = GameState::new(RoomIdentifier::Storage);
    let text = process_input(&mut state, Some(Command::Go(Direction::East)));
    assert_eq!(state.current_room, RoomIdentifier::NorthMess);
    let arrival = format!("{}\n{}", ROOM_NORTH_MESS_FIRST, ROOM_NORTH_MESS_SHORT);
    assert!(DOORS.iter().any(|door| text == format!("{}\n{}", door, arrival)));
}

#[test]
fn a_move_through_a_free_passage_is_told_plainly() {
    let mut state = GameState::new(RoomIdentifier::NorthMess);
    let text = handle_movement(&mut state, Direction::South);
    assert_eq!(state.current_room, RoomIdentifier::Mess);
    assert!(text.starts_with("The smell is stronger! I think it's here.\n"));
}

#[test]
fn a_refused_move_is_told_with_an_excuse() {
    let mut state = GameState::new(RoomIdentifier::NorthMess);
    let excuses = [
        s("I can't go to North: The door beeps with an unsatisfied tone."),
        s("There's nowhere to go at North, I think?"),
        s("I could try, I remember walking through solid walls worked at a certain spaceport platform to get on a spacecruiser to the nanoscience school for gifted kids... or was it in a holoseries?.."),
    ];
    for _ in 0..10 {
        let text = handle_movement(&mut state, Direction::North);
        assert!(excuses.contains(&text));
        assert_eq!(state.current_room, RoomIdentifier::NorthMess);
    }
    let text = handle_movement(&mut state, Direction::Down);
    assert!(
        text == "I can't go to Down: Can't go in the direction of Down."
            || text == "There's nowhere to go at Down, I think?"
            || text == excuses[2]
    );
}
