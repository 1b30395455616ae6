use voidlogue::engine::actions::{answers_to, carried_ids, find_in, names_of, remove_all, remove_all_items, Capability};
use voidlogue::entity::furniture::main_terminal::MainTerminal;
use voidlogue::entity::furniture::navigation_computer::NavigationComputer;
use voidlogue::entity::furniture::sink::Sink;
use voidlogue::entity::furniture::{FurnId, Furniture};
use voidlogue::entity::item::container::Container;
use voidlogue::entity::item::food::Food;
use voidlogue::entity::item::text_item::TextItem;
use voidlogue::entity::item::{
    list_holds, list_position, Containable, Drink, Drinkable, Edible, Item, ItemId, Liquid,
    LiquidContainable, LiquidContainer, Readable, SecretBottle, Size, Usable,
};
use voidlogue::entity::{AnyEntity, Entity, EntityId, Holder, PassiveEntity};
use voidlogue::world::content::create_room;
use voidlogue::world::data::World;
use voidlogue::world::room::{Access, Direction, PassageType, RoomAttributes, RoomIdentifier};

fn s(text: &str) -> String {
    text.to_string()
}

fn shelf(contains: Vec<EntityId>) -> Furniture {
    Furniture::new(
        EntityId::Furniture(FurnId::StorageShelf),
        s("Shelves"),
        vec![s("shelve")],
        s("Plain shelves."),
        contains,
    )
}

fn tiny_world() -> World {
    World {
        rooms: vec![RoomAttributes {
            room_identifier: RoomIdentifier::Mess,
            visited: false,
            access: Access::B,
            short_description: s("short"),
            full_description: s("full"),
            first_thoughts: s("first"),
            entities: vec![EntityId::Item(ItemId::Fork)],
            connected_rooms: vec![
                (Direction::North, PassageType::Door, RoomIdentifier::Bridge),
                (Direction::North, PassageType::Free, RoomIdentifier::Storage),
                (Direction::Up, PassageType::Free, RoomIdentifier::Storage),
            ],
        }],
        entities: vec![
            AnyEntity::Holder(Holder::Furniture(shelf(vec![]))),
            AnyEntity::Food(Food::new(EntityId::Item(ItemId::Biscuits), s("Biscuits"), vec![s("Cakes")], s("Dry."))),
            AnyEntity::TextItem(TextItem::new(
                EntityId::Item(ItemId::CounterNote),
                s("Note"),
                vec![],
                s("A note."),
                s("Hello"),
            )),
        ],
    }
}

#[test]
fn the_world_starts_with_every_room_and_entity() {
    let world = World::initialize();
    assert_eq!(world.rooms.len(), 20);
    assert_eq!(world.entities.len(), 21 + 17);
    for id in RoomIdentifier::all() {
        let i = world.room_position(&id).unwrap();
        assert_eq!(world.rooms[i].room_identifier, id);
        assert_eq!(world.was_visited(&id), id == RoomIdentifier::Storage);
    }
    for id in FurnId::all() {
        assert_eq!(world.get_entity(EntityId::Furniture(id)).unwrap().get_id(), EntityId::Furniture(id));
    }
    for id in ItemId::all() {
        assert_eq!(world.get_entity(EntityId::Item(id)).unwrap().get_id(), EntityId::Item(id));
    }
    assert!(world.get_entity(EntityId::Dust).is_none());
}

#[test]
fn the_world_starts_with_its_content() {
    let world = World::initialize();
    assert_eq!(*world.get_room_access(&RoomIdentifier::Storage), Access::Unranked);
    assert_eq!(*world.get_room_access(&RoomIdentifier::CaptainsRoom), Access::B);
    assert_eq!(*world.get_room_access(&RoomIdentifier::Bridge), Access::A);
    assert_eq!(
        world.get_adjacent_room(&RoomIdentifier::AirlockCorridor, Direction::Down),
        Some((RoomIdentifier::TechCorridor, &PassageType::Door))
    );
    assert_eq!(
        world.get_adjacent_room(&RoomIdentifier::TechCorridor, Direction::North),
        Some((RoomIdentifier::TechCorridorNorth, &PassageType::Free))
    );
    assert_eq!(world.get_adjacent_room(&RoomIdentifier::StationAirlock, Direction::North), None);
    assert_eq!(
        world.get_room_entities(&RoomIdentifier::Bridge),
        Some(&vec![EntityId::Furniture(FurnId::MainTerminal)])
    );
    let locker = world.get_containable(EntityId::Furniture(FurnId::EmergencyLocker)).unwrap();
    assert_eq!(locker.contains(), &vec![EntityId::Item(ItemId::SpaceSuit)]);
    assert_eq!(locker.name(), "Emergency locker");
    assert_eq!(locker.aliases(), &vec![s("locker")]);
    let manual = world.get_readable(EntityId::Item(ItemId::ShuttleManual)).unwrap();
    assert_eq!(manual.name(), "Shuttle manual");
    assert!(manual.contents.contains("- 02::05::<power> specify maneuvre thrust power from 0 to 7"));
    let suit = world.get_entity(EntityId::Item(ItemId::SpaceSuit)).unwrap();
    assert_eq!(suit.aliases(), &vec![s("suit"), s("spacesuit")]);
    assert_eq!(suit.description(), "A typical space suit to be safe on short space walks.");
    assert!(matches!(world.get_entity(EntityId::Furniture(FurnId::Sink)), Some(AnyEntity::Sink(_))));
    assert!(matches!(world.get_entity(EntityId::Item(ItemId::WaterBottle)), Some(AnyEntity::Drink(_))));
    assert!(matches!(world.get_entity(EntityId::Item(ItemId::Fork)), Some(AnyEntity::Item(_))));
    assert!(matches!(
        world.get_entity(EntityId::Furniture(FurnId::WarningSign)),
        Some(AnyEntity::Passive(_))
    ));
}

#[test]
fn rooms_and_entities_are_made_one_by_one() {
    let room = create_room(RoomIdentifier::Bridge);
    assert_eq!(room.room_identifier, RoomIdentifier::Bridge);
    assert!(!room.visited);
    assert_eq!(room.full_description, "");
    assert_eq!(room.first_thoughts, "I bet this room is the key to getting off this tincan!");
    assert_eq!(
        room.connected_rooms,
        vec![(Direction::South, PassageType::Door, RoomIdentifier::MeetingRoom)]
    );
    let counter = World::create_furniture(FurnId::Counter);
    assert_eq!(counter.name(), "Counter");
    assert_eq!(counter.as_containable().unwrap().contains().len(), 6);
    let plate = World::create_item(ItemId::Plate);
    assert_eq!(plate.name(), "Plate");
    assert_eq!(plate.aliases(), &vec![s("dish")]);
    assert_eq!(Container::as_container(&plate).unwrap().size, Size::Small);
    assert!(Container::as_container(&counter).is_none());
    let dust = World::create_item(ItemId::Dust);
    assert_eq!(dust.name(), "A layer of dust");
    assert!(dust.aliases().is_empty());
}

#[test]
fn lookups_in_a_small_world() {
    let mut world = tiny_world();
    assert_eq!(world.room_position(&RoomIdentifier::Mess), Some(0));
    assert_eq!(world.room_position(&RoomIdentifier::Bridge), None);
    assert_eq!(world.entity_position(EntityId::Item(ItemId::CounterNote)), Some(2));
    assert_eq!(world.entity_position(EntityId::Item(ItemId::Fork)), None);
    assert!(!world.was_visited(&RoomIdentifier::Mess));
    assert!(!world.was_visited(&RoomIdentifier::Bridge));
    world.set_visited(&RoomIdentifier::Bridge);
    world.set_visited(&RoomIdentifier::Mess);
    assert!(world.was_visited(&RoomIdentifier::Mess));
    assert_eq!(world.get_room_short_description(&RoomIdentifier::Mess), "short");
    assert_eq!(world.get_room_first_thoughts(&RoomIdentifier::Mess), "first");
    assert_eq!(world.get_room_short_description(&RoomIdentifier::Bridge), "Unknown room");
    assert_eq!(world.get_room_first_thoughts(&RoomIdentifier::Bridge), "Unknown room");
    assert_eq!(*world.get_room_access(&RoomIdentifier::Mess), Access::B);
    assert_eq!(*world.get_room_access(&RoomIdentifier::Bridge), Access::Unranked);
    assert_eq!(world.get_room_entities(&RoomIdentifier::Bridge), None);
    assert!(world.get_room_entities_mut(&RoomIdentifier::Bridge).is_none());
    world.get_room_entities_mut(&RoomIdentifier::Mess).unwrap().push(EntityId::Dust);
    assert_eq!(
        world.get_room_entities(&RoomIdentifier::Mess),
        Some(&vec![EntityId::Item(ItemId::Fork), EntityId::Dust])
    );
}

#[test]
fn the_first_passage_in_a_direction_counts() {
    let world = tiny_world();
    assert_eq!(
        world.get_adjacent_room(&RoomIdentifier::Mess, Direction::North),
        Some((RoomIdentifier::Bridge, &PassageType::Door))
    );
    assert_eq!(
        world.get_adjacent_room(&RoomIdentifier::Mess, Direction::Up),
        Some((RoomIdentifier::Storage, &PassageType::Free))
    );
    assert_eq!(world.get_adjacent_room(&RoomIdentifier::Mess, Direction::Down), None);
    assert_eq!(world.get_adjacent_room(&RoomIdentifier::Bridge, Direction::North), None);
    assert_eq!(world.rooms[0].adjacent(Direction::Stay), None);
}

#[test]
fn capabilities_go_by_kind() {
    let mut world = tiny_world();
    let shelf_id = EntityId::Furniture(FurnId::StorageShelf);
    let food_id = EntityId::Item(ItemId::Biscuits);
    let note_id = EntityId::Item(ItemId::CounterNote);
    assert!(world.get_containable(shelf_id).is_some());
    assert!(world.get_containable(food_id).is_none());
    assert!(world.get_containable(EntityId::Dust).is_none());
    assert!(world.get_containable_mut(note_id).is_none());
    assert!(world.get_edible(food_id).is_some());
    assert!(world.get_edible(shelf_id).is_none());
    assert!(world.get_edible_mut(food_id).unwrap().eat().is_ok());
    assert!(world.get_edible_mut(note_id).is_none());
    assert!(world.get_readable(note_id).is_some());
    assert!(world.get_readable(food_id).is_none());
    assert_eq!(world.get_readable_mut(note_id).unwrap().read(), Ok(s("Hello")));
    assert!(world.get_readable_mut(shelf_id).is_none());
    assert!(world.get_usable(shelf_id).is_none());
    assert!(world.get_usable_mut(food_id).is_none());
    world.get_containable_mut(shelf_id).unwrap().put(food_id).unwrap();
    assert_eq!(world.get_containable(shelf_id).unwrap().contains(), &vec![food_id]);
    let full = World::initialize();
    assert!(full.get_usable(EntityId::Furniture(FurnId::NavigationComputer)).is_some());
    assert!(full.get_usable(EntityId::Furniture(FurnId::MainTerminal)).is_none());
}

#[test]
fn capability_queries_on_entities() {
    let mut food = World::create_item(ItemId::Biscuits);
    assert!(food.as_edible().is_some());
    assert!(food.as_edible_mut().is_some());
    assert!(food.as_containable().is_none());
    assert!(food.as_containable_mut().is_none());
    assert!(food.as_readable().is_none());
    assert!(food.as_readable_mut().is_none());
    assert!(food.as_usable().is_none());
    assert!(food.as_usable_mut().is_none());
    assert!(food.has(Capability::Any));
    assert!(food.has(Capability::Edible));
    assert!(!food.has(Capability::Containable));
    let mut computer = World::create_furniture(FurnId::NavigationComputer);
    assert!(computer.has(Capability::Usable));
    assert!(computer.as_usable_mut().unwrap().use_it().unwrap().contains("X344 Y351 P3"));
    let mut bucket = World::create_item(ItemId::Bucket);
    assert!(bucket.has(Capability::Containable));
    assert!(!bucket.has(Capability::Readable));
    assert!(bucket.as_containable_mut().unwrap().put(EntityId::Dust).is_ok());
    assert_eq!(bucket.as_containable().unwrap().contains(), &vec![EntityId::Dust]);
    let mut manual = World::create_item(ItemId::ShuttleManual);
    assert!(manual.has(Capability::Readable));
    assert!(manual.as_readable_mut().unwrap().read().unwrap().starts_with("Page 86"));
}

#[test]
fn a_container_takes_what_it_does_not_hold() {
    let fork = EntityId::Item(ItemId::Fork);
    let coin = EntityId::Item(ItemId::LuckyCoin);
    let mut shelf = shelf(vec![fork]);
    assert!(!shelf.can_contain(fork));
    assert!(shelf.can_contain(coin));
    assert_eq!(shelf.put(fork), Err(s("The Shelves cannot contain any more items.")));
    assert_eq!(shelf.put(coin), Ok(()));
    assert_eq!(shelf.contains(), &vec![fork, coin]);
    assert_eq!(shelf.remove(fork), Ok(()));
    assert_eq!(shelf.contains(), &vec![coin]);
    assert_eq!(shelf.remove(fork), Err(s("Item is not in the Shelves.")));
    assert_eq!(
        shelf.remove(EntityId::Furniture(FurnId::Sink)),
        Err(s("Furniture is not in the Shelves."))
    );
    assert_eq!(shelf.remove(EntityId::Dust), Err(s("Dust is not in the Shelves.")));
    assert_eq!(shelf.contains(), &vec![coin]);
}

#[test]
fn a_carried_container_behaves_alike() {
    let fork = EntityId::Item(ItemId::Fork);
    let mut bucket = Container::new(
        EntityId::Item(ItemId::Bucket),
        s("Bucket"),
        vec![],
        s("Blue."),
        vec![fork, fork],
        Size::Medium,
    );
    assert_eq!(bucket.get_id(), EntityId::Item(ItemId::Bucket));
    assert_eq!(bucket.description(), "Blue.");
    assert!(!bucket.can_contain(fork));
    assert_eq!(bucket.put(fork), Err(s("The Bucket cannot contain any more items.")));
    assert_eq!(bucket.remove(fork), Ok(()));
    assert_eq!(bucket.contains(), &vec![fork]);
    assert_eq!(bucket.remove(EntityId::Dust), Err(s("Dust is not in the Bucket.")));
}

#[test]
fn lists_are_searched_from_the_front() {
    let fork = EntityId::Item(ItemId::Fork);
    let list = vec![EntityId::Dust, fork, EntityId::Dust, fork];
    assert_eq!(list_position(&list, fork), Some(1));
    assert_eq!(list_position(&list, EntityId::Dust), Some(0));
    assert_eq!(list_position(&list, EntityId::Item(ItemId::Plate)), None);
    assert!(list_holds(&list, fork));
    assert!(!list_holds(&Vec::new(), fork));
    let mut ids = list.clone();
    remove_all(&mut ids, fork);
    assert_eq!(ids, vec![EntityId::Dust, EntityId::Dust]);
    remove_all(&mut ids, fork);
    assert_eq!(ids, vec![EntityId::Dust, EntityId::Dust]);
    let mut items = vec![ItemId::Fork, ItemId::Plate, ItemId::Fork];
    remove_all_items(&mut items, ItemId::Fork);
    assert_eq!(items, vec![ItemId::Plate]);
    assert_eq!(
        carried_ids(&vec![ItemId::Fork, ItemId::Plate]),
        vec![EntityId::Item(ItemId::Fork), EntityId::Item(ItemId::Plate)]
    );
}

#[test]
fn names_and_aliases_are_folded_for_matching() {
    let world = tiny_world();
    let food = world.get_entity(EntityId::Item(ItemId::Biscuits)).unwrap();
    assert!(answers_to(food, "biscuits"));
    assert!(answers_to(food, "cakes"));
    assert!(!answers_to(food, "Biscuits"));
    assert!(!answers_to(food, "biscuit"));
    assert!(!answers_to(food, ""));
    let ids = vec![
        EntityId::Dust,
        EntityId::Item(ItemId::CounterNote),
        EntityId::Item(ItemId::Biscuits),
    ];
    assert_eq!(find_in(&world, &ids, "biscuits", Capability::Any), Some(EntityId::Item(ItemId::Biscuits)));
    assert_eq!(find_in(&world, &ids, "biscuits", Capability::Edible), Some(EntityId::Item(ItemId::Biscuits)));
    assert_eq!(find_in(&world, &ids, "biscuits", Capability::Readable), None);
    assert_eq!(find_in(&world, &ids, "note", Capability::Readable), Some(EntityId::Item(ItemId::CounterNote)));
    assert_eq!(names_of(&world, &ids, false), vec![s("Note"), s("Biscuits")]);
    assert_eq!(names_of(&world, &ids, true), vec![s("note"), s("biscuits")]);
}

#[test]
fn identifiers_have_labels_and_defaults() {
    assert_eq!(EntityId::Item(ItemId::Fork).label(), "Item");
    assert_eq!(EntityId::Furniture(FurnId::Sink).label(), "Furniture");
    assert_eq!(EntityId::Dust.label(), "Dust");
    assert_eq!(EntityId::default(), EntityId::Dust);
    assert_eq!(ItemId::default(), ItemId::Dust);
    assert_eq!(FurnId::default(), FurnId::Dust);
    assert_eq!(Direction::default(), Direction::Stay);
    assert_eq!(Direction::Down.label(), "Down");
    assert_eq!(Direction::Stay.label(), "Stay");
    assert_eq!(RoomIdentifier::all().len(), 20);
    assert_eq!(FurnId::all().len(), 21);
    assert_eq!(ItemId::all().len(), 17);
}

#[test]
fn plain_entities_show_themselves() {
    let passive = PassiveEntity::new(EntityId::Dust, s("Dust"), vec![s("dirt")], s("Grey."));
    assert_eq!(passive.get_id(), EntityId::Dust);
    assert_eq!(passive.name(), "Dust");
    assert_eq!(passive.aliases(), &vec![s("dirt")]);
    assert_eq!(passive.description(), "Grey.");
    let sink = Sink::new(EntityId::Furniture(FurnId::Sink), s("Sink"), vec![], s("Wet."), vec![]);
    assert!(!sink.tap_is_on);
    assert_eq!(sink.name(), "Sink");
    let terminal = MainTerminal::new(
        EntityId::Furniture(FurnId::MainTerminal),
        s("Main terminal"),
        vec![],
        s("Blinks."),
        vec![],
    );
    assert_eq!(terminal.description(), "Blinks.");
    let item = Item::new(EntityId::Item(ItemId::Fork), s("Fork"), vec![], s("Pointy."), Size::Small);
    assert_eq!(item.size, Size::Small);
    assert_eq!(item.name(), "Fork");
    let mut drink = Drink::new(EntityId::Item(ItemId::WaterBottle), s("Water"), vec![], s("Wet."));
    assert_eq!(drink.drink(), Ok(()));
    assert_eq!(drink.name(), "Water");
    let mut computer = NavigationComputer::new(
        EntityId::Furniture(FurnId::NavigationComputer),
        s("Navigation computer"),
        vec![],
        s("Blinks."),
        vec![],
    );
    assert!(computer.use_it().is_ok());
    assert_eq!(computer.get_id(), EntityId::Furniture(FurnId::NavigationComputer));
}

#[test]
fn a_vessel_is_filled_and_emptied() {
    let mut flask = LiquidContainer::new(EntityId::Dust, s("Flask"), vec![], s("Glass."), Liquid::Air);
    assert_eq!(flask.pour(), Err(s("The Flask is already empty")));
    assert_eq!(flask.drink(), Err(s("The Flask is empty")));
    assert_eq!(flask.fill(Liquid::Coffee), Ok(()));
    assert_eq!(flask.liquid, Liquid::Coffee);
    assert_eq!(flask.fill(Liquid::Water), Err(s("The Flask is already full")));
    assert_eq!(flask.liquid, Liquid::Coffee);
    assert_eq!(flask.drink(), Ok(()));
    assert_eq!(flask.liquid, Liquid::Air);
    assert_eq!(flask.fill(Liquid::Fuel), Ok(()));
    assert_eq!(flask.pour(), Ok(()));
    assert_eq!(flask.liquid, Liquid::Air);
}

#[test]
fn a_secret_bottle_gives_up_what_it_hides() {
    let mut bottle = SecretBottle {
        id: EntityId::Item(ItemId::SecretBottle),
        name: s("Secret Bottle"),
        aliases: vec![],
        description: s(""),
        contains: Some(EntityId::Item(ItemId::LuckyCoin)),
        liquid: Liquid::Air,
    };
    assert_eq!(bottle.remove(), Err(s("Can't get to it!")));
    assert_eq!(bottle.fill(Liquid::Water), Ok(()));
    assert_eq!(bottle.fill(Liquid::Water), Err(s("The Secret Bottle is already full")));
    assert_eq!(bottle.remove(), Ok(()));
    assert_eq!(bottle.liquid, Liquid::Air);
    assert_eq!(bottle.contains, Some(EntityId::Item(ItemId::LuckyCoin)));
    assert_eq!(bottle.pour(), Err(s("The Secret Bottle is already empty")));
    assert_eq!(bottle.drink(), Err(s("The Secret Bottle is empty")));
    bottle.contains = None;
    bottle.fill(Liquid::Coffee).unwrap();
    assert_eq!(bottle.remove(), Err(s("There's nothing there!")));
    assert_eq!(bottle.liquid, Liquid::Coffee);
    assert_eq!(bottle.drink(), Ok(()));
}
