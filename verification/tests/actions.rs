use voidlogue::engine::actions::{
    close, drop, eat, enter, find_containable_entity, get_article, get_player_access,
    in_fatal_environment, look, look_at, move_in_direction, open, pick_up, put_into, read,
    take_from_container, use_object,
};
use voidlogue::engine::state::GameState;
use voidlogue::entity::furniture::FurnId;
use voidlogue::entity::item::{Containable, ItemId};
use voidlogue::entity::{Entity, EntityId};
use voidlogue::world::content::{
    FURN_ILLUMINATOR_DESCRIPTION, ITEM_COUNTER_NOTE_TEXT, ROOM_NORTH_MESS_FIRST,
    ROOM_NORTH_MESS_SHORT, ROOM_STORAGE_SHORT,
};
use voidlogue::world::room::{Access, Direction, RoomIdentifier};

fn places(state: &GameState, id: EntityId) -> usize {
    let mut count = state.inventory.iter().filter(|item| EntityId::Item(**item) == id).count();
    for room in &state.world.rooms {
        count += room.entities.iter().filter(|e| **e == id).count();
    }
    for entity in &state.world.entities {
        if let Some(holder) = entity.as_containable() {
            count += holder.contains().iter().filter(|e| **e == id).count();
        }
    }
    count
}

#[test]
fn look_lists_entities_and_passages() {
    let state = GameState::new(RoomIdentifier::Storage);
    assert_eq!(
        look(&state),
        "Looks like it's used to store janitorial and other miscellaneous items. Mops, buckets, sanitizers and other janitorial equipment are haphazardly put together seemingly without any system.\nYou can see the following things: Illuminator, Shelves, Bucket.\nYou can get to: a door to the East."
    );
}

#[test]
fn look_words_passages_by_their_kind() {
    let state = GameState::new(RoomIdentifier::NorthMess);
    let text = look(&state);
    assert!(text.ends_with(
        "\nYou can see the following things: Tables, Space ration.\nYou can get to: a door to the West, a door to the North, continue to the South."
    ));
}

#[test]
fn look_in_an_empty_room_keeps_the_description() {
    let state = GameState::new(RoomIdentifier::AirlockCorridor);
    assert_eq!(
        look(&state),
        "This is a corridor that is used to enter and exit this vessel. It has two airlocks on the opposite ends of it.\nThere's no items here.\nYou can get to: a door to the North, a door to the West, a door to the East, a door to the Down, a door to the South."
    );
}

#[test]
fn look_in_a_room_without_passages() {
    let state = GameState::new(RoomIdentifier::StationAirlock);
    assert!(look(&state).ends_with("\nThere's no items here.\nYou can get to: ."));
}

#[test]
fn look_in_an_unknown_room() {
    let mut state = GameState::new(RoomIdentifier::Storage);
    state.world.rooms.clear();
    assert_eq!(look(&state), "Room not found in the world. Are you in space? Oh crap");
}

#[test]
fn look_at_folds_the_name() {
    let state = GameState::new(RoomIdentifier::Storage);
    assert_eq!(
        look_at(&state, "BUCKET"),
        "You look at the Bucket:\nA regular blue bucket with big letters SM on it."
    );
}

#[test]
fn look_at_matches_an_alias() {
    let state = GameState::new(RoomIdentifier::Storage);
    assert_eq!(
        look_at(&state, "Window"),
        format!("You look at the Illuminator:\n{}", FURN_ILLUMINATOR_DESCRIPTION)
    );
}

#[test]
fn look_at_searches_the_inventory_after_the_room() {
    let state = GameState::new(RoomIdentifier::Storage);
    assert!(look_at(&state, "card").starts_with("You look at the Assistant Card:\n"));
}

#[test]
fn look_at_nothing() {
    let state = GameState::new(RoomIdentifier::Storage);
    assert_eq!(look_at(&state, "Unicorn"), "There is no unicorn here to look at.");
}

#[test]
fn look_at_a_container_lists_its_contents() {
    let state = GameState::new(RoomIdentifier::Mess);
    assert!(look_at(&state, "counter").ends_with(
        "\nIt contains: Note, Biscuits, Plate, Coffee Machine, Food Printer, Sink"
    ));
}

#[test]
fn look_at_an_empty_container_lists_nothing() {
    let state = GameState::new(RoomIdentifier::Storage);
    assert!(!look_at(&state, "shelves").contains("It contains"));
}

#[test]
fn articles() {
    assert_eq!(get_article("bucket"), "the ");
    assert_eq!(get_article("biscuits"), "");
    assert_eq!(get_article(""), "the ");
}

#[test]
fn pick_up_moves_an_item_into_the_inventory() {
    let mut state = GameState::new(RoomIdentifier::Storage);
    assert_eq!(
        pick_up(&mut state, "Bucket"),
        "You pick up the Bucket and look at it: A regular blue bucket with big letters SM on it."
    );
    assert_eq!(state.inventory, vec![ItemId::AssistantCard, ItemId::Bucket]);
    assert_eq!(
        state.world.get_room_entities(&RoomIdentifier::Storage),
        Some(&vec![
            EntityId::Furniture(FurnId::Illuminator),
            EntityId::Furniture(FurnId::StorageShelf)
        ])
    );
    assert_eq!(places(&state, EntityId::Item(ItemId::Bucket)), 1);
}

#[test]
fn pick_up_refuses_furniture() {
    let mut state = GameState::new(RoomIdentifier::Storage);
    assert_eq!(pick_up(&mut state, "shelves"), "You can't pick up the shelves.");
    assert_eq!(state.inventory, vec![ItemId::AssistantCard]);
    assert_eq!(state.world.get_room_entities(&RoomIdentifier::Storage).unwrap().len(), 3);
}

#[test]
fn pick_up_nothing() {
    let mut state = GameState::new(RoomIdentifier::Storage);
    assert_eq!(pick_up(&mut state, "unicorn"), "There is no unicorn here.");
    assert_eq!(pick_up(&mut state, "card"), "There is no card here.");
}

#[test]
fn drop_moves_an_item_into_the_room() {
    let mut state = GameState::new(RoomIdentifier::Storage);
    assert_eq!(drop(&mut state, "Card"), "You've dropped the card.");
    assert!(state.inventory.is_empty());
    assert_eq!(
        state.world.get_room_entities(&RoomIdentifier::Storage).unwrap().last(),
        Some(&EntityId::Item(ItemId::AssistantCard))
    );
    assert_eq!(places(&state, EntityId::Item(ItemId::AssistantCard)), 1);
}

#[test]
fn drop_leaves_out_the_article_before_a_plural() {
    let mut state = GameState::new(RoomIdentifier::Storage);
    state.inventory.push(ItemId::Biscuits);
    assert_eq!(drop(&mut state, "biscuits"), "You've dropped biscuits.");
}

#[test]
fn drop_nothing() {
    let mut state = GameState::new(RoomIdentifier::Storage);
    assert_eq!(drop(&mut state, "bucket"), "You don't have a bucket to drop.");
    assert_eq!(state.inventory, vec![ItemId::AssistantCard]);
}

#[test]
fn put_then_take_restores_inventory_and_container() {
    let mut state = GameState::new(RoomIdentifier::Storage);
    pick_up(&mut state, "bucket");
    assert_eq!(put_into(&mut state, "Card", "Bucket"), "You put card into bucket.");
    assert_eq!(state.inventory, vec![ItemId::Bucket]);
    assert_eq!(
        state.world.get_containable(EntityId::Item(ItemId::Bucket)).unwrap().contains(),
        &vec![EntityId::Item(ItemId::AssistantCard)]
    );
    assert_eq!(places(&state, EntityId::Item(ItemId::AssistantCard)), 1);
    assert_eq!(take_from_container(&mut state, "card", "bucket"), "You take card from bucket.");
    assert_eq!(state.inventory, vec![ItemId::Bucket, ItemId::AssistantCard]);
    assert!(state
        .world
        .get_containable(EntityId::Item(ItemId::Bucket))
        .unwrap()
        .contains()
        .is_empty());
    assert_eq!(places(&state, EntityId::Item(ItemId::AssistantCard)), 1);
}

#[test]
fn put_into_a_container_of_the_room() {
    let mut state = GameState::new(RoomIdentifier::Storage);
    assert_eq!(put_into(&mut state, "card", "shelve"), "You put card into shelve.");
    assert!(state.inventory.is_empty());
    assert_eq!(
        state.world.get_containable(EntityId::Furniture(FurnId::StorageShelf)).unwrap().contains(),
        &vec![EntityId::Item(ItemId::AssistantCard)]
    );
}

#[test]
fn put_into_itself() {
    let mut state = GameState::new(RoomIdentifier::Storage);
    pick_up(&mut state, "bucket");
    drop(&mut state, "card");
    assert_eq!(put_into(&mut state, "bucket", "bucket"), "You can't put something into itself.");
    assert_eq!(state.inventory, vec![ItemId::Bucket]);
}

#[test]
fn put_into_failures() {
    let mut state = GameState::new(RoomIdentifier::Storage);
    assert_eq!(put_into(&mut state, "unicorn", "bucket"), "You don't have unicorn.");
    assert_eq!(put_into(&mut state, "card", "unicorn"), "There's no unicorn to put things into.");
    assert_eq!(put_into(&mut state, "card", "window"), "There's no window to put things into.");
    assert_eq!(state.inventory, vec![ItemId::AssistantCard]);
}

#[test]
fn put_into_a_container_that_holds_it_already() {
    let mut state = GameState::new(RoomIdentifier::Storage);
    state
        .world
        .get_containable_mut(EntityId::Item(ItemId::Bucket))
        .unwrap()
        .put(EntityId::Item(ItemId::AssistantCard))
        .unwrap();
    assert_eq!(put_into(&mut state, "card", "bucket"), "The bucket cannot contain card.");
    assert_eq!(state.inventory, vec![ItemId::AssistantCard]);
}

#[test]
fn find_containable_entity_looks_in_room_then_inventory() {
    let mut state = GameState::new(RoomIdentifier::Storage);
    let (holder, id) = find_containable_entity(&state, "bucket").unwrap();
    assert_eq!(id, EntityId::Item(ItemId::Bucket));
    assert_eq!(holder.get_id(), id);
    assert!(find_containable_entity(&state, "window").is_none());
    assert!(find_containable_entity(&state, "card").is_none());
    pick_up(&mut state, "bucket");
    let (holder, id) = find_containable_entity(&state, "blue bucket").unwrap();
    assert_eq!(id, EntityId::Item(ItemId::Bucket));
    assert_eq!(holder.name(), "Bucket");
}

#[test]
fn the_tables_of_the_two_mess_rooms_are_apart() {
    let mut state = GameState::new(RoomIdentifier::NorthMess);
    assert_eq!(
        state.world.get_room_entities(&RoomIdentifier::NorthMess),
        Some(&vec![
            EntityId::Furniture(FurnId::NorthMessTable),
            EntityId::Item(ItemId::SpaceRation)
        ])
    );
    assert_eq!(
        state.world.get_room_entities(&RoomIdentifier::Mess),
        Some(&vec![EntityId::Furniture(FurnId::MessTable), EntityId::Furniture(FurnId::Counter)])
    );
    assert_eq!(put_into(&mut state, "card", "table"), "You put card into table.");
    assert_eq!(
        state.world.get_containable(EntityId::Furniture(FurnId::NorthMessTable)).unwrap().contains(),
        &vec![EntityId::Item(ItemId::AssistantCard)]
    );
    move_in_direction(&mut state, Direction::South).unwrap();
    assert!(look_at(&state, "tables").starts_with("You look at the Tables:\n"));
    assert!(!look_at(&state, "tables").contains("It contains"));
    assert_eq!(take_from_container(&mut state, "card", "table"), "The card is not in the table.");
    move_in_direction(&mut state, Direction::North).unwrap();
    assert!(look_at(&state, "tables").ends_with("\nIt contains: Assistant Card"));
    assert_eq!(take_from_container(&mut state, "card", "table"), "You take card from table.");
    assert_eq!(state.inventory, vec![ItemId::AssistantCard]);
}

#[test]
fn each_airlock_has_a_warning_sign_of_its_own() {
    let state = GameState::new(RoomIdentifier::AirlockA);
    assert_eq!(
        state.world.get_room_entities(&RoomIdentifier::AirlockA),
        Some(&vec![EntityId::Furniture(FurnId::WarningSign)])
    );
    assert_eq!(
        state.world.get_room_entities(&RoomIdentifier::AirlockB),
        Some(&vec![EntityId::Furniture(FurnId::WarningSignB)])
    );
    let other = GameState::new(RoomIdentifier::AirlockB);
    assert_eq!(look_at(&state, "sign"), look_at(&other, "sign"));
    assert!(look_at(&state, "sign").starts_with("You look at the Warning sign:\n"));
}

#[test]
fn take_furniture_out_of_a_container_puts_it_on_the_floor() {
    let mut state = GameState::new(RoomIdentifier::Mess);
    assert_eq!(
        take_from_container(&mut state, "Sink", "Counter"),
        "You take sink from counter, but it's not an item you can carry."
    );
    assert_eq!(state.inventory, vec![ItemId::AssistantCard]);
    assert_eq!(
        state.world.get_room_entities(&RoomIdentifier::Mess).unwrap().last(),
        Some(&EntityId::Furniture(FurnId::Sink))
    );
    assert_eq!(places(&state, EntityId::Furniture(FurnId::Sink)), 1);
}

#[test]
fn take_from_failures() {
    let mut state = GameState::new(RoomIdentifier::Mess);
    assert_eq!(
        take_from_container(&mut state, "note", "unicorn"),
        "There is no unicorn here to take things from."
    );
    assert_eq!(
        take_from_container(&mut state, "unicorn", "counter"),
        "The unicorn is not in the counter."
    );
    assert_eq!(state.inventory, vec![ItemId::AssistantCard]);
}

#[test]
fn take_from_takes_the_first_that_answers() {
    let mut state = GameState::new(RoomIdentifier::Storage);
    {
        let bucket = state.world.get_containable_mut(EntityId::Item(ItemId::Bucket)).unwrap();
        bucket.put(EntityId::Item(ItemId::EmptyBottle)).unwrap();
    }
    state.inventory.push(ItemId::WaterBottle);
    assert_eq!(put_into(&mut state, "bottle", "bucket"), "You put bottle into bucket.");
    assert_eq!(take_from_container(&mut state, "bottle", "bucket"), "You take bottle from bucket.");
    assert_eq!(state.inventory, vec![ItemId::AssistantCard, ItemId::EmptyBottle]);
    assert_eq!(
        state.world.get_containable(EntityId::Item(ItemId::Bucket)).unwrap().contains(),
        &vec![EntityId::Item(ItemId::WaterBottle)]
    );
}

#[test]
fn eat_consumes_food() {
    let mut state = GameState::new(RoomIdentifier::NorthMess);
    pick_up(&mut state, "ration");
    assert!(!state.world.get_edible(EntityId::Item(ItemId::SpaceRation)).unwrap().eaten);
    assert_eq!(eat(&mut state, "Ration"), "You eat the ration. Yum!");
    assert_eq!(state.inventory, vec![ItemId::AssistantCard]);
    assert_eq!(places(&state, EntityId::Item(ItemId::SpaceRation)), 0);
    assert!(state.world.get_edible(EntityId::Item(ItemId::SpaceRation)).unwrap().eaten);
}

#[test]
fn every_entity_starts_in_at_most_one_place() {
    let state = GameState::new(RoomIdentifier::Storage);
    for item in ItemId::all() {
        assert!(places(&state, EntityId::Item(item)) <= 1);
    }
    for furniture in FurnId::all() {
        assert!(places(&state, EntityId::Furniture(furniture)) <= 1);
    }
    assert_eq!(places(&state, EntityId::Furniture(FurnId::MessTable)), 1);
    assert_eq!(places(&state, EntityId::Furniture(FurnId::NorthMessTable)), 1);
    assert_eq!(places(&state, EntityId::Furniture(FurnId::WarningSign)), 1);
    assert_eq!(places(&state, EntityId::Furniture(FurnId::WarningSignB)), 1);
    assert_eq!(places(&state, EntityId::Furniture(FurnId::Counter)), 1);
    assert_eq!(places(&state, EntityId::Furniture(FurnId::Sink)), 1);
    assert_eq!(places(&state, EntityId::Item(ItemId::AssistantCard)), 1);
    assert_eq!(places(&state, EntityId::Item(ItemId::SpaceSuit)), 1);
    assert_eq!(places(&state, EntityId::Dust), 0);
}

#[test]
fn the_world_starts_without_dangling_references() {
    let state = GameState::new(RoomIdentifier::Storage);
    for room in &state.world.rooms {
        for id in &room.entities {
            assert!(state.world.get_entity(*id).is_some());
        }
        for (i, first) in room.connected_rooms.iter().enumerate() {
            assert!(state.world.room_position(&first.2).is_some());
            for second in &room.connected_rooms[i + 1..] {
                assert_ne!(first.0, second.0);
            }
        }
    }
    for entity in &state.world.entities {
        if let Some(holder) = entity.as_containable() {
            for id in holder.contains() {
                assert!(state.world.get_entity(*id).is_some());
            }
        }
    }
}

#[test]
fn eat_only_what_is_edible_and_carried() {
    let mut state = GameState::new(RoomIdentifier::NorthMess);
    assert_eq!(eat(&mut state, "card"), "You don't have any card to eat.");
    assert_eq!(eat(&mut state, "ration"), "You don't have any ration to eat.");
    assert_eq!(state.inventory, vec![ItemId::AssistantCard]);
}

#[test]
fn read_gives_the_text() {
    let mut state = GameState::new(RoomIdentifier::Mess);
    assert_eq!(take_from_container(&mut state, "note", "counter"), "You take note from counter.");
    assert_eq!(
        read(&mut state, "Note"),
        "You read the note: Captain! We left some for you, hope you find them when you are less busy! -J"
    );
    assert_eq!(read(&mut state, "note"), format!("You read the note: {}", ITEM_COUNTER_NOTE_TEXT));
    assert_eq!(state.inventory, vec![ItemId::AssistantCard, ItemId::CounterNote]);
}

#[test]
fn read_only_what_is_readable_and_carried() {
    let mut state = GameState::new(RoomIdentifier::Mess);
    assert_eq!(read(&mut state, "card"), "You don't see a card to read.");
    assert_eq!(read(&mut state, "note"), "You don't see a note to read.");
}

#[test]
fn open_and_close_only_try() {
    let state = GameState::new(RoomIdentifier::Storage);
    assert_eq!(open(&state, "Door"), "You try to open the Door.");
    assert_eq!(close(&state, "door"), "You try to close the door.");
}

#[test]
fn player_access_is_the_highest_card() {
    let mut state = GameState::new(RoomIdentifier::Storage);
    assert_eq!(get_player_access(&state), Access::C);
    state.inventory.push(ItemId::CaptainCard);
    state.inventory.push(ItemId::BosunCard);
    assert_eq!(get_player_access(&state), Access::A);
    state.inventory = vec![ItemId::Bucket];
    assert_eq!(get_player_access(&state), Access::Unranked);
    state.inventory = vec![ItemId::BosunCard, ItemId::AssistantCard];
    assert_eq!(get_player_access(&state), Access::B);
}

#[test]
fn access_ranks_are_ordered() {
    let order = [Access::Unranked, Access::D, Access::C, Access::B, Access::A, Access::Broken];
    let values = [0, 2, 3, 4, 5, 6];
    for i in 0..order.len() {
        assert_eq!(order[i].value(), values[i]);
        for j in 0..order.len() {
            assert_eq!(order[i] < order[j], i < j);
            assert_eq!(order[i].value() < order[j].value(), i < j);
            assert_eq!(order[i].higher_of(order[j]), if i >= j { order[i] } else { order[j] });
        }
    }
}

#[test]
fn first_visit_is_told_once() {
    let mut state = GameState::new(RoomIdentifier::Storage);
    assert_eq!(
        move_in_direction(&mut state, Direction::East),
        Ok(format!("{}\n{}", ROOM_NORTH_MESS_FIRST, ROOM_NORTH_MESS_SHORT))
    );
    assert_eq!(state.current_room, RoomIdentifier::NorthMess);
    assert!(state.world.was_visited(&RoomIdentifier::NorthMess));
    assert_eq!(
        move_in_direction(&mut state, Direction::West),
        Ok(ROOM_STORAGE_SHORT.to_string())
    );
    assert_eq!(
        move_in_direction(&mut state, Direction::East),
        Ok(ROOM_NORTH_MESS_SHORT.to_string())
    );
    assert!(!state.lost);
}

#[test]
fn first_visit_text_is_exact() {
    let mut state = GameState::new(RoomIdentifier::Storage);
    assert_eq!(
        move_in_direction(&mut state, Direction::East),
        Ok("Smells of... biscuits? It feels like I haven't eaten anything for a century. Where is this smell coming from?\nYou enter a dimly lit medium-sized room, with some tables and a small counter. Looks like the lights are in the emergency power saving mode.".to_string())
    );
}

#[test]
fn a_door_stays_shut_to_low_access() {
    let mut state = GameState::new(RoomIdentifier::NorthMess);
    assert_eq!(
        move_in_direction(&mut state, Direction::North),
        Err("The door beeps with an unsatisfied tone.".to_string())
    );
    assert_eq!(state.current_room, RoomIdentifier::NorthMess);
    assert!(!state.world.was_visited(&RoomIdentifier::MeetingRoom));
    state.inventory.push(ItemId::BosunCard);
    assert!(move_in_direction(&mut state, Direction::North).is_ok());
    assert_eq!(state.current_room, RoomIdentifier::MeetingRoom);
}

#[test]
fn a_free_passage_asks_for_no_access() {
    let mut state = GameState::new(RoomIdentifier::NorthMess);
    state.inventory.clear();
    assert!(move_in_direction(&mut state, Direction::South).is_ok());
    assert_eq!(state.current_room, RoomIdentifier::Mess);
    assert_eq!(
        move_in_direction(&mut state, Direction::East),
        Err("The door beeps with an unsatisfied tone.".to_string())
    );
    assert_eq!(state.current_room, RoomIdentifier::Mess);
}

#[test]
fn no_passage_that_way() {
    let mut state = GameState::new(RoomIdentifier::Storage);
    assert_eq!(
        move_in_direction(&mut state, Direction::Up),
        Err("Can't go in the direction of Up.".to_string())
    );
    assert_eq!(state.current_room, RoomIdentifier::Storage);
}

#[test]
fn open_space_without_a_suit_is_fatal() {
    let mut state = GameState::new(RoomIdentifier::AirlockA);
    assert!(!in_fatal_environment(&state));
    assert!(move_in_direction(&mut state, Direction::West).is_ok());
    assert_eq!(state.current_room, RoomIdentifier::OpenSpaceAirlockA);
    assert!(state.lost);
    assert!(in_fatal_environment(&state));
}

#[test]
fn open_space_with_a_suit_is_safe() {
    let mut state = GameState::new(RoomIdentifier::AirlockB);
    state.inventory.push(ItemId::SpaceSuit);
    assert!(move_in_direction(&mut state, Direction::East).is_ok());
    assert_eq!(state.current_room, RoomIdentifier::OpenSpaceAirlockB);
    assert!(!state.lost);
    assert!(!in_fatal_environment(&state));
}

#[test]
fn the_navigation_computer_can_be_used() {
    let mut state = GameState::new(RoomIdentifier::MeetingRoom);
    assert_eq!(
        use_object(&mut state, "Computer"),
        "In a few clicks you are able to get the terminal to output the correct approach vector to dock the station: 'X344 Y351 P3 /END'."
    );
    assert_eq!(use_object(&mut state, "card"), "There is no card here to use.");
}

#[test]
fn commands_are_entered_at_the_terminal() {
    let mut state = GameState::new(RoomIdentifier::Bridge);
    assert_eq!(enter(&mut state, "07::09::00"), "Fuel tank: A. Fuel pump is off.");
    assert_eq!(enter(&mut state, "07::01::01"), "Switched to fuel tank B.");
    assert_eq!(enter(&mut state, "07::09::00"), "Fuel tank: B. Fuel pump is off.");
    assert_eq!(enter(&mut state, "nonsense"), "Invalid command");
    assert_eq!(enter(&mut state, "01::00::01"), "Main engine start failure: no fuel.");
    let mut elsewhere = GameState::new(RoomIdentifier::Storage);
    assert_eq!(
        enter(&mut elsewhere, "07::01::01"),
        "There is no terminal here to enter commands into."
    );
    assert_eq!(elsewhere.shuttle_state, voidlogue::engine::shuttle::ShuttleState::new());
}

#[test]
fn no_item_is_in_two_places_after_a_walk() {
    let mut state = GameState::new(RoomIdentifier::Storage);
    pick_up(&mut state, "bucket");
    move_in_direction(&mut state, Direction::East).unwrap();
    pick_up(&mut state, "ration");
    put_into(&mut state, "ration", "bucket");
    put_into(&mut state, "card", "table");
    move_in_direction(&mut state, Direction::South).unwrap();
    take_from_container(&mut state, "biscuits", "counter");
    take_from_container(&mut state, "plate", "counter");
    put_into(&mut state, "biscuits", "plate");
    drop(&mut state, "plate");
    drop(&mut state, "bucket");
    pick_up(&mut state, "plate");
    take_from_container(&mut state, "card", "table");
    eat(&mut state, "biscuits");
    for item in ItemId::all() {
        assert!(places(&state, EntityId::Item(item)) <= 1);
    }
}
