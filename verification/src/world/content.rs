//! What the world holds when a session starts: the rooms of the shuttle,
//! the furniture and the items.

use crate::entity::furniture::main_terminal::MainTerminal;
use crate::entity::furniture::navigation_computer::NavigationComputer;
use crate::entity::furniture::sink::Sink;
use crate::entity::furniture::{FurnId, Furniture};
use crate::entity::item::container::Container;
use crate::entity::item::food::Food;
use crate::entity::item::text_item::TextItem;
use crate::entity::item::{Drink, Item, ItemId, Size};
use crate::entity::{AnyEntity, EntityId, EntityKind, EntityView, Holder, PassiveEntity};
use crate::utils::texts;
use crate::world::data::{
    entity_from, lemma_entity_from, lemma_room_from, room_from, World, WorldView,
};
use crate::world::room::{
    Access, Direction, PassageType, RoomAttributes, RoomIdentifier, RoomView,
};
use vstd::prelude::*;

verus! {

/// The description of the piece of furniture `Illuminator`.
pub const FURN_ILLUMINATOR_DESCRIPTION: &'static str =
    "Wow, the view is beautiful. You can see a dimply lit large station floating not so far away - the side turned towards you has letters 'Vo.. 9', the rest of the letters are undiscernable. Now it's clear that you are drifting in space on board of another vessel. Something must've happened.";

/// The description of the piece of furniture `StorageShelf`.
pub const FURN_STORAGE_SHELF_DESCRIPTION: &'static str =
    "Regular storage shelves that you'd find for your ship in SpaceMart™ - everything for your galactical travel needs!";

/// The description of the piece of furniture `MessTable`.
pub const FURN_MESS_TABLE_DESCRIPTION: &'static str =
    "There's nothing on the tables. The tabletops have this withered look of such heavily used and cleaned surfaces that they can never get fully clean anymore.";

/// The description of the piece of furniture `Counter`.
pub const FURN_COUNTER_DESCRIPTION: &'static str =
    "The counter is cluttered with various kitchen gadgets and utensils. A half-eaten plate of biscuits sits abandoned, as if the eater left in a hurry. A small, handwritten note peeks out from under the plate.";

/// The description of the piece of furniture `CoffeeMachine`.
pub const FURN_COFFEE_MACHINE_DESCRIPTION: &'static str =
    "It's quite an expensive coffee machine. Considering that everything else in this room is cheap, it probably means that the captain is a big fan of coffee";

/// The description of the piece of furniture `FoodPrinter`.
pub const FURN_FOOD_PRINTER_DESCRIPTION: &'static str =
    "All the food that this machine prints tastes pretty much the same. Makes sense, because it's all made of the same surrogate.";

/// The description of the piece of furniture `Sink`.
pub const FURN_SINK_DESCRIPTION: &'static str =
    "The water from the tap is supposed to be potable... mostly.";

/// The description of the piece of furniture `BosunDesk`.
pub const FURN_BOSUN_DESK_DESCRIPTION: &'static str =
    "A robust and no-nonsense piece of furniture, the Bosun's Desk stands as a testament to practicality over aesthetics. The surface is littered with charts, navigational tools, and the occasional personal memento. Each drawer looks to be meticulously labeled, and the desk's well-worn edges suggest years of service and countless hours of diligent work.";

/// The description of the piece of furniture `BookShelves`.
pub const FURN_BOOK_SHELVES_DESCRIPTION: &'static str =
    "In almost any captain's room you'd expect to see a bookshelf that's collection of knowledge and memories, filled with volumes of space navigation, astrophysics, and historical logs. Alas, this one contains mostly works of fiction and lewd love stories, with a scattering of random old, dusty technical manuals. (you'd be surprised if the captain actually read any of the dusty stuff). An... interesting choice of literature. Offers an insight into the captain's personal life, and it looks like he couldn't care less about what anyone would think.";

/// The description of the piece of furniture `CaptainsIlluminator`.
pub const FURN_CAPTAINS_ILLUMINATOR_DESCRIPTION: &'static str =
    "You are stunned by the breathtaking view of the stars. There's nothing else visible from this illuminator, only the infinite vastness of the universe.";

/// The description of the piece of furniture `CaptainsDesk`.
pub const FURN_CAPTAINS_DESK_DESCRIPTION: &'static str =
    "What used to be an elegant, yet functional desk for the most important person in the shuttle, now seems quite ordinary and unimportant. Maybe it would feel different with an actual captain behind it.";

/// The description of the piece of furniture `NavigationComputer`.
pub const FURN_NAVIGATION_COMPUTER_DESCRIPTION: &'static str =
    "This simple terminal blinks at you with a multitude of colorful lights as if in a friendly jest. From the flickering start charts and trajectory data, it is obvious that it's used to plot the routes of deep-space travel, as well as calculate the approach trajectories to dock various stations and spaceships, which is the primary use of a shuttle. The interface looks quite user-friendly, you are sure you'd be able to operate it.";

/// The description of the piece of furniture `MainTerminal`.
pub const FURN_MAIN_TERMINAL_DESCRIPTION: &'static str =
    "This is the main terminal of the shuttle. The message on the display says: \"There was a problem with your payment. Your subscription to the ShuttleControlOS has been suspended. Please top up your account to regain control of the {$$shuttle_name$$}.\"";

/// The description of the piece of furniture `MainEngine`.
pub const FURN_MAIN_ENGINE_DESCRIPTION: &'static str =
    "The Main Engine of the shuttle, a compact module of practical engineering, is bolted firmly to the rear compartment. You are pretty sure that at some point its surface was shiny, with bright yellow details. Now all of it has a uniform dirty-grey color, with smudges of soot and grease. It's not the clean, high-tech wonder you might find on larger or more expensive vessels, but it's the heart of this shuttle, dependable and resilient. It looks fully functional.";

/// The description of the piece of furniture `FuelTankA`.
pub const FURN_FUEL_TANK_A_DESCRIPTION: &'static str =
    "The screen says 'Active Tank. Low fuel. Please contact the Gerbertt support team in case you experience problems switching to the reserve tank.'.";

/// The description of the piece of furniture `FuelTankB`.
pub const FURN_FUEL_TANK_B_DESCRIPTION: &'static str =
    "The screen says 'Inactive. Full.";

/// The description of the piece of furniture `EmergencyLocker`.
pub const FURN_EMERGENCY_LOCKER_DESCRIPTION: &'static str =
    "The plaque here says 'Use in case of emergencies. Don't forget to help yourself first before helping your crewmate!'";

/// The description of the piece of furniture `WarningSign`.
pub const FURN_WARNING_SIGN_DESCRIPTION: &'static str =
    "A worn sign is bolted to the wall. On it you see a figure clutching hands at their neck, their face is blue. I wonder what could it mean?";

/// The description of the piece of furniture `Dust`.
pub const FURN_DUST_DESCRIPTION: &'static str =
    "Heavy dust in the corners of this room.";

/// The description of the item `Bucket`.
pub const ITEM_BUCKET_DESCRIPTION: &'static str =
    "A regular blue bucket with big letters SM on it.";

/// The description of the item `SpaceRation`.
pub const ITEM_SPACE_RATION_DESCRIPTION: &'static str =
    "The package looks as it's decades old. It's probably here since this vessel has been commissioned.";

/// The description of the item `WaterBottle`.
pub const ITEM_WATER_BOTTLE_DESCRIPTION: &'static str =
    "It's full of de-mineralized and almost de-nucleotized water, \"mined from the finest ice asteroids \"";

/// The description of the item `EmptyBottle`.
pub const ITEM_EMPTY_BOTTLE_DESCRIPTION: &'static str =
    "Just a regular transparent bottle that used to contain something.";

/// The description of the item `CounterNote`.
pub const ITEM_COUNTER_NOTE_DESCRIPTION: &'static str =
    "A small note, with some scribbles on it";

/// What is written on the item `CounterNote`.
pub const ITEM_COUNTER_NOTE_TEXT: &'static str =
    "Captain! We left some for you, hope you find them when you are less busy! -J";

/// The description of the item `Biscuits`.
pub const ITEM_BISCUITS_DESCRIPTION: &'static str =
    "A few small chocolate biscuits. They feel a bit dry already, but still smell good and appetizing.";

/// The description of the item `Plate`.
pub const ITEM_PLATE_DESCRIPTION: &'static str =
    "Just a regular plate. Did you expect something else?";

/// The description of the item `FoodSurrogateBottle`.
pub const ITEM_FOOD_SURROGATE_BOTTLE_DESCRIPTION: &'static str =
    "A large jug of greenish liquid. According to the label, contains all the vitamins, macro-, micro- and nano-elements a humanoid might need. Hmm.";

/// The description of the item `Fork`.
pub const ITEM_FORK_DESCRIPTION: &'static str =
    "It has three prongs. Technically, it probably should be called a small trident?";

/// The description of the item `AssistantCard`.
pub const ITEM_ASSISTANT_CARD_DESCRIPTION: &'static str =
    "This rectangle piece of light-grey plastic bears the name 'Alexis Jericho - Staff Assistant'. The text is printed directly over a stylized 'D', embossed in the background. It's clearly not yours, but you are pretty sure you won't get anywhere on the shuttle without some form of identification. The edges are worn smooth from handling, suggesting a history of frequent use.";

/// The description of the item `BosunCard`.
pub const ITEM_BOSUN_CARD_DESCRIPTION: &'static str =
    "The Bosun Card feels heavy with authority, a sturdy plastic keycard emblazoned with the title 'Bosun' in authoritative block letters. Below the title, a holographic strip winks with secure coding, promising access to the ship's vital operational areas. It's the kind of card that opens more doors than just the physical ones.";

/// The description of the item `CaptainCard`.
pub const ITEM_CAPTAIN_CARD_DESCRIPTION: &'static str =
    "This Captain Card is the pinnacle of any ship's hierarchy, with its crisp edges and the gilded 'Captain' inscription that seems to command respect on its own. A faint scent of leather clings to it, as if it has spent most of its time in the pocket of someone decisive. Its clearance is unmatched.";

/// The description of the item `SpaceSuit`.
pub const ITEM_SPACE_SUIT_DESCRIPTION: &'static str =
    "A typical space suit to be safe on short space walks.";

/// The description of the item `ShuttleManual`.
pub const ITEM_SHUTTLE_MANUAL_DESCRIPTION: &'static str =
    "A paperback instructional book. The cover is damaged, but you can discern 'XM-86 shuttle user manual'";

/// What is written on the item `ShuttleManual`.
pub const ITEM_SHUTTLE_MANUAL_TEXT: &'static str =
    "Page 86... Main terminal... Manual override commands... \n\n                    ...\n\n                    01. Main thrust engine commands:\n\n                    - 01::00::00 main engine shut down \n\n                    - 01::00::01 main engine start \n\n                    - 01::04::00 main engine thrust on\n\n                    - 01::04::01 main engine thrust off\n\n                    - 01::05::<power> specify thruster power level from 0 to 63\n\n                    - 01::09::00 main engine status\n\n                    02. Maneuvre engine commands:\n\n                    - 02::02::00::XXX specify x vector (0-360)\n\n                    - 02::02::01::YYY specify y vector (0-360)\n\n                    - 02::04::00 maneuvre engine thrust on\n\n                    - 02::04::01 maneuvre engine thrust off\n\n                    - 02::05::<power> specify maneuvre thrust power from 0 to 7\n\n                    - 02::09::00 maneuvre engine status\n\n                    07. Fuel system commands:\n\n                    - 07::00::00 turn the fuel pump off\n\n                    - 07::00::01 turn the fuel pump on\n\n                    - 07::01::00 switch to fuel tank A\n\n                    - 07::01::01 switch to fuel tank B\n\n                    - 07::09::00 fuel system status\n\n                ";

/// The description of the item `Dust`.
pub const ITEM_DUST_DESCRIPTION: &'static str =
    "Nothing much to say here";

/// The short description of the room `Storage`.
pub const ROOM_STORAGE_SHORT: &'static str =
    "It is quite a small room. One of the shorter walls has a door. There are storage shelves to the right. Opposite of the door is an illuminator.";

/// The full description of the room `Storage`.
pub const ROOM_STORAGE_FULL: &'static str =
    "Looks like it's used to store janitorial and other miscellaneous items. Mops, buckets, sanitizers and other janitorial equipment are haphazardly put together seemingly without any system.";

/// The first thoughts on entering the room `Storage`.
pub const ROOM_STORAGE_FIRST: &'static str =
    "You wake up on the steel floor. If you laid there any longer, you'd probably get arthritis, you think. Now, where are we? Let's stand up and see.";

/// The short description of the room `NorthMess`.
pub const ROOM_NORTH_MESS_SHORT: &'static str =
    "You enter a dimly lit medium-sized room, with some tables and a small counter. Looks like the lights are in the emergency power saving mode.";

/// The full description of the room `NorthMess`.
pub const ROOM_NORTH_MESS_FULL: &'static str =
    "This room has half a dozen tables with benches. This looks like the place where the crew would have their meals, and get together for some friendly banter.";

/// The first thoughts on entering the room `NorthMess`.
pub const ROOM_NORTH_MESS_FIRST: &'static str =
    "Smells of... biscuits? It feels like I haven't eaten anything for a century. Where is this smell coming from?";

/// The short description of the room `Mess`.
pub const ROOM_MESS_SHORT: &'static str =
    "You walk to the middle of the room. Now you stand near a small counter with various machines.";

/// The full description of the room `Mess`.
pub const ROOM_MESS_FULL: &'static str =
    "In front of you is a small counter with various machines, most likely used for cooking and other canteen-related activities.";

/// The first thoughts on entering the room `Mess`.
pub const ROOM_MESS_FIRST: &'static str =
    "The smell is stronger! I think it's here.";

/// The short description of the room `SouthMess`.
pub const ROOM_SOUTH_MESS_SHORT: &'static str =
    "You are at the southern wall of this room. There's a door farther south, and another one to the west.";

/// The short description of the room `MeetingRoom`.
pub const ROOM_MEETING_ROOM_SHORT: &'static str =
    "Meeting room";

/// The full description of the room `MeetingRoom`.
pub const ROOM_MEETING_ROOM_FULL: &'static str =
    "The walls of this compact room are lined with a few outdated screens and control panels. It's designed for quick, efficient meetings. There's no furniture due to the lack of space.";

/// The first thoughts on entering the room `MeetingRoom`.
pub const ROOM_MEETING_ROOM_FIRST: &'static str =
    "Ah, a meeting and navigation room. Looks like shuttles like this don't have any space on the bridge to accomodate this functionality. There's certainly something useful here to get me out and on the outpost.";

/// The short description of the room `Bridge`.
pub const ROOM_BRIDGE_SHORT: &'static str =
    "You are at the bridge. It's the brain of any ship, all the most important controls are here.";

/// The first thoughts on entering the room `Bridge`.
pub const ROOM_BRIDGE_FIRST: &'static str =
    "I bet this room is the key to getting off this tincan!";

/// The short description of the room `PassengersRoom`.
pub const ROOM_PASSENGERS_ROOM_SHORT: &'static str =
    "You enter quite a stylishly decorated and mostly clean room.";

/// The first thoughts on entering the room `PassengersRoom`.
pub const ROOM_PASSENGERS_ROOM_FIRST: &'static str =
    "It was probably reserved for passengers of status. Doesn't seem like it was used much... for a long time.";

/// The short description of the room `AirlockCorridor`.
pub const ROOM_AIRLOCK_CORRIDOR_SHORT: &'static str =
    "This is a tight corridor.";

/// The full description of the room `AirlockCorridor`.
pub const ROOM_AIRLOCK_CORRIDOR_FULL: &'static str =
    "This is a corridor that is used to enter and exit this vessel. It has two airlocks on the opposite ends of it.";

/// The first thoughts on entering the room `AirlockCorridor`.
pub const ROOM_AIRLOCK_CORRIDOR_FIRST: &'static str =
    "It feels kinda... fresh in here? Although I start to wonder where is everyone.";

/// The short description of the room `AirlockA`.
pub const ROOM_AIRLOCK_A_SHORT: &'static str =
    "You squeeze into a tiny square space used to get to and from the shuttle.";

/// The full description of the room `OpenSpaceAirlockA`.
pub const ROOM_OPEN_SPACE_AIRLOCK_A_FULL: &'static str =
    "You don't feel or hear anything except for your breath and the warm condensation on the space suit's mask.";

/// The first thoughts on entering the room `OpenSpaceAirlockA`.
pub const ROOM_OPEN_SPACE_AIRLOCK_A_FIRST: &'static str =
    "You tuck your legs and then straighten them with force to push yourself away from the shuttle. The station is so near. Just a few seconds of floating and you'll get there...";

/// The short description of the room `AirlockB`.
pub const ROOM_AIRLOCK_B_SHORT: &'static str =
    "You squeeze into a tiny square space used to get to and from the shuttle.";

/// The short description of the room `TechCorridor`.
pub const ROOM_TECH_CORRIDOR_SHORT: &'static str =
    "You enter a technical corridor in the lower deck of the shuttle.";

/// The full description of the room `TechCorridor`.
pub const ROOM_TECH_CORRIDOR_FULL: &'static str =
    "This space is apparently used to access various systems related to the shuttle drive, energy and life systems.";

/// The first thoughts on entering the room `TechCorridor`.
pub const ROOM_TECH_CORRIDOR_FIRST: &'static str =
    "I've never been in a tight cave, but I imagine it feels something like this.";

/// The short description of the room `TechCorridorNorth`.
pub const ROOM_TECH_CORRIDOR_NORTH_SHORT: &'static str =
    "The north section of the same technical corridor.";

/// The short description of the room `EngineRoom`.
pub const ROOM_ENGINE_ROOM_SHORT: &'static str =
    "You enter the heart of the shuttle: it's engine room.";

/// The full description of the room `EngineRoom`.
pub const ROOM_ENGINE_ROOM_FULL: &'static str =
    "The room is full of different mechanisms and machines, most of which are a mystery to you. But you are pretty sure that the biggest thing in the middle of the room is the main thrust engine.";

/// The first thoughts on entering the room `EngineRoom`.
pub const ROOM_ENGINE_ROOM_FIRST: &'static str =
    "It smells of grease and soot. One would think the engines would smell differently in the space age.";

/// The short description of the room `BosunsRoom`.
pub const ROOM_BOSUNS_ROOM_SHORT: &'static str =
    "Bosun's Command";

/// The full description of the room `BosunsRoom`.
pub const ROOM_BOSUNS_ROOM_FULL: &'static str =
    "This spartan room bears the mark of authority and order. A large, sturdy desk with neatly arranged tools and documents dominates the space. Personal effects are few but chosen with care, perhaps tokens of past voyages or loved ones afar.";

/// The first thoughts on entering the room `BosunsRoom`.
pub const ROOM_BOSUNS_ROOM_FIRST: &'static str =
    "Ah, an unmistacable spartan style of a bosun. You've met people like this before.";

/// The short description of the room `CaptainsRoom`.
pub const ROOM_CAPTAINS_ROOM_SHORT: &'static str =
    "Captain's Quarters";

/// The full description of the room `CaptainsRoom`.
pub const ROOM_CAPTAINS_ROOM_FULL: &'static str =
    "Even though the room is a bit shabby for a captain, it still exudes a sense of quiet authority. There's a desk with a personal terminal, bookshelves, a neatly made bed, and a regular illuminator that nonetheless offers a breathtaking view of the stars. This is a sanctuary, a place for leadership, and introspection... with a help of a cheap AstraKefali brendi.";

/// The first thoughts on entering the room `CaptainsRoom`.
pub const ROOM_CAPTAINS_ROOM_FIRST: &'static str =
    "Oh, a captain's room, cool! I'm sure there's something to steal here, he-he.";

/// The short description of the room `StorageHold`.
pub const ROOM_STORAGE_HOLD_SHORT: &'static str =
    "Spacious room filled with shelves with various crates, boxes and barrels. There's an emergency locker in the corner.";

/// The full description of the room `StorageHold`.
pub const ROOM_STORAGE_HOLD_FULL: &'static str =
    "This is a corridor that is used to enter and exit this vessel. It has two airlocks on the opposite ends of it.";

/// The first thoughts on entering the room `StorageHold`.
pub const ROOM_STORAGE_HOLD_FIRST: &'static str =
    "It feels kinda... fresh in here?";

/// The short description of the room `CrewCabins`.
pub const ROOM_CREW_CABINS_SHORT: &'static str =
    "Crew Cabins Corridor";

/// The full description of the room `CrewCabins`.
pub const ROOM_CREW_CABINS_FULL: &'static str =
    "A narrow hallway lined with personal quarters extends before you. The lighting is dim, flickering slightly, adding to the air of weary privacy that pervades this space.";

/// The first thoughts on entering the room `CrewCabins`.
pub const ROOM_CREW_CABINS_FIRST: &'static str =
    "You wonder how many people called this place home? Has the same crew operated this vessel from the beginning, or did many generations change? There are probably countless stories and memories embedded in these walls, which you probably won't ever know.\nOn a more pressing issue, it would seem that the shuttle is completely empty. You guess that your main task should be to try to off the shuttle and reach the space outpost nearby. How would you do that?";

/// The short description of the room `StationAirlock`.
pub const ROOM_STATION_AIRLOCK_SHORT: &'static str =
    "This is the Void Post 39 airlock.";

/// The full description of the room `StationAirlock`.
pub const ROOM_STATION_AIRLOCK_FULL: &'static str =
    "The airlock of the station stands before you, a circular door etched with the scars of space travel - micrometeorite impacts and the wear of countless entries and exits. Inside, you can see the faint glow of emergency lighting, offering a warm contrast to the cold, unfeeling vacuum outside. The airlock promises a return to a semblance of normalcy, a brief respite from the endless expanse outside.";

/// The first thoughts on entering the room `StationAirlock`.
pub const ROOM_STATION_AIRLOCK_FIRST: &'static str =
    "As you approach the station's airlock, a wave of relief washes over you. The mechanical hiss of the airlock operating breaks the silence, grounding you back in a world where sound exists. 'You are finally here,' you think to yourself, as the doors begin to open, welcoming you into the station's embrace. The thought of safety, warmth, and perhaps answers to the myriad questions swirling in your head fills you with renewed purpose.";

/// The name of each piece of furniture.
pub open spec fn furniture_name(id: FurnId) -> Seq<char> {
    match id {
        FurnId::Illuminator => "Illuminator"@,
        FurnId::StorageShelf => "Shelves"@,
        FurnId::MessTable => "Tables"@,
        FurnId::NorthMessTable => "Tables"@,
        FurnId::Counter => "Counter"@,
        FurnId::CoffeeMachine => "Coffee Machine"@,
        FurnId::FoodPrinter => "Food Printer"@,
        FurnId::Sink => "Sink"@,
        FurnId::BosunDesk => "Bosun's desk"@,
        FurnId::BookShelves => "Bookshelves"@,
        FurnId::CaptainsIlluminator => "Illuminator"@,
        FurnId::CaptainsDesk => "Captain's desk"@,
        FurnId::NavigationComputer => "Navigation computer"@,
        FurnId::MainTerminal => "Main terminal"@,
        FurnId::MainEngine => "Main engine"@,
        FurnId::FuelTankA => "Fuel tank A"@,
        FurnId::FuelTankB => "Fuel tank B"@,
        FurnId::EmergencyLocker => "Emergency locker"@,
        FurnId::WarningSign => "Warning sign"@,
        FurnId::WarningSignB => "Warning sign"@,
        FurnId::Dust => "Dust"@,
    }
}

/// The aliases of each piece of furniture.
pub open spec fn furniture_aliases(id: FurnId) -> Seq<Seq<char>> {
    match id {
        FurnId::Illuminator => seq!["window"@],
        FurnId::StorageShelf => seq!["shelve"@],
        FurnId::MessTable => seq!["table"@],
        FurnId::NorthMessTable => seq!["table"@],
        FurnId::Counter => seq!["countertop"@],
        FurnId::CoffeeMachine => seq!["coffemaker"@, "machine"@],
        FurnId::FoodPrinter => seq!["printer"@],
        FurnId::Sink => seq!["kitchen sink"@, "basin"@],
        FurnId::BosunDesk => seq!["desk"@, "bosun desk"@, "bosun's desk"@],
        FurnId::BookShelves => seq!["shelves"@, "book shelves"@],
        FurnId::CaptainsIlluminator => seq!["window"@],
        FurnId::CaptainsDesk => seq!["desk"@, "captain desk"@, "captain's desk"@],
        FurnId::NavigationComputer => seq!["terminal"@, "computer"@],
        FurnId::MainTerminal => seq!["terminal"@, "control terminal"@],
        FurnId::MainEngine => seq!["engine"@],
        FurnId::FuelTankA => seq!["tank"@, "tank a"@, "fuel tank"@],
        FurnId::FuelTankB => seq!["tank"@, "tank b"@, "fuel tank"@],
        FurnId::EmergencyLocker => seq!["locker"@],
        FurnId::WarningSign => seq!["sign"@],
        FurnId::WarningSignB => seq!["sign"@],
        FurnId::Dust => Seq::<Seq<char>>::empty(),
    }
}

/// The description of each piece of furniture.
pub open spec fn furniture_description(id: FurnId) -> Seq<char> {
    match id {
        FurnId::Illuminator => FURN_ILLUMINATOR_DESCRIPTION@,
        FurnId::StorageShelf => FURN_STORAGE_SHELF_DESCRIPTION@,
        FurnId::MessTable => FURN_MESS_TABLE_DESCRIPTION@,
        FurnId::NorthMessTable => FURN_MESS_TABLE_DESCRIPTION@,
        FurnId::Counter => FURN_COUNTER_DESCRIPTION@,
        FurnId::CoffeeMachine => FURN_COFFEE_MACHINE_DESCRIPTION@,
        FurnId::FoodPrinter => FURN_FOOD_PRINTER_DESCRIPTION@,
        FurnId::Sink => FURN_SINK_DESCRIPTION@,
        FurnId::BosunDesk => FURN_BOSUN_DESK_DESCRIPTION@,
        FurnId::BookShelves => FURN_BOOK_SHELVES_DESCRIPTION@,
        FurnId::CaptainsIlluminator => FURN_CAPTAINS_ILLUMINATOR_DESCRIPTION@,
        FurnId::CaptainsDesk => FURN_CAPTAINS_DESK_DESCRIPTION@,
        FurnId::NavigationComputer => FURN_NAVIGATION_COMPUTER_DESCRIPTION@,
        FurnId::MainTerminal => FURN_MAIN_TERMINAL_DESCRIPTION@,
        FurnId::MainEngine => FURN_MAIN_ENGINE_DESCRIPTION@,
        FurnId::FuelTankA => FURN_FUEL_TANK_A_DESCRIPTION@,
        FurnId::FuelTankB => FURN_FUEL_TANK_B_DESCRIPTION@,
        FurnId::EmergencyLocker => FURN_EMERGENCY_LOCKER_DESCRIPTION@,
        FurnId::WarningSign => FURN_WARNING_SIGN_DESCRIPTION@,
        FurnId::WarningSignB => FURN_WARNING_SIGN_DESCRIPTION@,
        FurnId::Dust => FURN_DUST_DESCRIPTION@,
    }
}

/// The kind of each piece of furniture.
pub open spec fn furniture_kind(id: FurnId) -> EntityKind {
    match id {
        FurnId::Illuminator => EntityKind::Passive,
        FurnId::StorageShelf => EntityKind::Furniture,
        FurnId::MessTable => EntityKind::Furniture,
        FurnId::NorthMessTable => EntityKind::Furniture,
        FurnId::Counter => EntityKind::Furniture,
        FurnId::CoffeeMachine => EntityKind::Furniture,
        FurnId::FoodPrinter => EntityKind::Furniture,
        FurnId::Sink => EntityKind::Sink,
        FurnId::BosunDesk => EntityKind::Furniture,
        FurnId::BookShelves => EntityKind::Furniture,
        FurnId::CaptainsIlluminator => EntityKind::Passive,
        FurnId::CaptainsDesk => EntityKind::Furniture,
        FurnId::NavigationComputer => EntityKind::NavigationComputer,
        FurnId::MainTerminal => EntityKind::MainTerminal,
        FurnId::MainEngine => EntityKind::Passive,
        FurnId::FuelTankA => EntityKind::Furniture,
        FurnId::FuelTankB => EntityKind::Furniture,
        FurnId::EmergencyLocker => EntityKind::Furniture,
        FurnId::WarningSign => EntityKind::Passive,
        FurnId::WarningSignB => EntityKind::Passive,
        FurnId::Dust => EntityKind::Furniture,
    }
}

/// What each piece of furniture holds at the start.
pub open spec fn furniture_contents(id: FurnId) -> Seq<EntityId> {
    match id {
        FurnId::Illuminator => Seq::<EntityId>::empty(),
        FurnId::StorageShelf => Seq::<EntityId>::empty(),
        FurnId::MessTable => Seq::<EntityId>::empty(),
        FurnId::NorthMessTable => Seq::<EntityId>::empty(),
        FurnId::Counter => seq![
            EntityId::Item(ItemId::CounterNote),
            EntityId::Item(ItemId::Biscuits),
            EntityId::Item(ItemId::Plate),
            EntityId::Furniture(FurnId::CoffeeMachine),
            EntityId::Furniture(FurnId::FoodPrinter),
            EntityId::Furniture(FurnId::Sink),
        ],
        FurnId::CoffeeMachine => Seq::<EntityId>::empty(),
        FurnId::FoodPrinter => seq![EntityId::Item(ItemId::FoodSurrogateBottle)],
        FurnId::Sink => seq![EntityId::Item(ItemId::Fork)],
        FurnId::BosunDesk => seq![EntityId::Item(ItemId::BosunCard)],
        FurnId::BookShelves => seq![EntityId::Item(ItemId::ShuttleManual)],
        FurnId::CaptainsIlluminator => Seq::<EntityId>::empty(),
        FurnId::CaptainsDesk => seq![EntityId::Item(ItemId::CaptainCard)],
        FurnId::NavigationComputer => Seq::<EntityId>::empty(),
        FurnId::MainTerminal => Seq::<EntityId>::empty(),
        FurnId::MainEngine => Seq::<EntityId>::empty(),
        FurnId::FuelTankA => Seq::<EntityId>::empty(),
        FurnId::FuelTankB => Seq::<EntityId>::empty(),
        FurnId::EmergencyLocker => seq![EntityId::Item(ItemId::SpaceSuit)],
        FurnId::WarningSign => Seq::<EntityId>::empty(),
        FurnId::WarningSignB => Seq::<EntityId>::empty(),
        FurnId::Dust => Seq::<EntityId>::empty(),
    }
}

/// Each piece of furniture as it is at the start.
pub open spec fn furniture_view(id: FurnId) -> EntityView {
    EntityView {
        id: EntityId::Furniture(id),
        name: furniture_name(id),
        aliases: furniture_aliases(id),
        description: furniture_description(id),
        kind: furniture_kind(id),
        contents: furniture_contents(id),
        text: Seq::empty(),
        eaten: false,
    }
}

fn furniture_name_of(id: FurnId) -> (made: &'static str)
    ensures
        made@ == furniture_name(id),
{
    match id {
        FurnId::Illuminator => "Illuminator",
        FurnId::StorageShelf => "Shelves",
        FurnId::MessTable => "Tables",
        FurnId::NorthMessTable => "Tables",
        FurnId::Counter => "Counter",
        FurnId::CoffeeMachine => "Coffee Machine",
        FurnId::FoodPrinter => "Food Printer",
        FurnId::Sink => "Sink",
        FurnId::BosunDesk => "Bosun's desk",
        FurnId::BookShelves => "Bookshelves",
        FurnId::CaptainsIlluminator => "Illuminator",
        FurnId::CaptainsDesk => "Captain's desk",
        FurnId::NavigationComputer => "Navigation computer",
        FurnId::MainTerminal => "Main terminal",
        FurnId::MainEngine => "Main engine",
        FurnId::FuelTankA => "Fuel tank A",
        FurnId::FuelTankB => "Fuel tank B",
        FurnId::EmergencyLocker => "Emergency locker",
        FurnId::WarningSign => "Warning sign",
        FurnId::WarningSignB => "Warning sign",
        FurnId::Dust => "Dust",
    }
}

fn furniture_aliases_of(id: FurnId) -> (made: Vec<String>)
    ensures
        texts(made@) == furniture_aliases(id),
{
    match id {
        FurnId::Illuminator => {
            let made = vec!["window".to_owned()];
            assert(texts(made@) =~= furniture_aliases(id));
            made
        },
        FurnId::StorageShelf => {
            let made = vec!["shelve".to_owned()];
            assert(texts(made@) =~= furniture_aliases(id));
            made
        },
        FurnId::MessTable => {
            let made = vec!["table".to_owned()];
            assert(texts(made@) =~= furniture_aliases(id));
            made
        },
        FurnId::NorthMessTable => {
            let made = vec!["table".to_owned()];
            assert(texts(made@) =~= furniture_aliases(id));
            made
        },
        FurnId::Counter => {
            let made = vec!["countertop".to_owned()];
            assert(texts(made@) =~= furniture_aliases(id));
            made
        },
        FurnId::CoffeeMachine => {
            let made = vec!["coffemaker".to_owned(), "machine".to_owned()];
            assert(texts(made@) =~= furniture_aliases(id));
            made
        },
        FurnId::FoodPrinter => {
            let made = vec!["printer".to_owned()];
            assert(texts(made@) =~= furniture_aliases(id));
            made
        },
        FurnId::Sink => {
            let made = vec!["kitchen sink".to_owned(), "basin".to_owned()];
            assert(texts(made@) =~= furniture_aliases(id));
            made
        },
        FurnId::BosunDesk => {
            let made = vec![
                "desk".to_owned(),
                "bosun desk".to_owned(),
                "bosun's desk".to_owned(),
            ];
            assert(texts(made@) =~= furniture_aliases(id));
            made
        },
        FurnId::BookShelves => {
            let made = vec![
                "shelves".to_owned(),
                "book shelves".to_owned(),
            ];
            assert(texts(made@) =~= furniture_aliases(id));
            made
        },
        FurnId::CaptainsIlluminator => {
            let made = vec!["window".to_owned()];
            assert(texts(made@) =~= furniture_aliases(id));
            made
        },
        FurnId::CaptainsDesk => {
            let made = vec![
                "desk".to_owned(),
                "captain desk".to_owned(),
                "captain's desk".to_owned(),
            ];
            assert(texts(made@) =~= furniture_aliases(id));
            made
        },
        FurnId::NavigationComputer => {
            let made = vec!["terminal".to_owned(), "computer".to_owned()];
            assert(texts(made@) =~= furniture_aliases(id));
            made
        },
        FurnId::MainTerminal => {
            let made = vec![
                "terminal".to_owned(),
                "control terminal".to_owned(),
            ];
            assert(texts(made@) =~= furniture_aliases(id));
            made
        },
        FurnId::MainEngine => {
            let made = vec!["engine".to_owned()];
            assert(texts(made@) =~= furniture_aliases(id));
            made
        },
        FurnId::FuelTankA => {
            let made = vec![
                "tank".to_owned(),
                "tank a".to_owned(),
                "fuel tank".to_owned(),
            ];
            assert(texts(made@) =~= furniture_aliases(id));
            made
        },
        FurnId::FuelTankB => {
            let made = vec![
                "tank".to_owned(),
                "tank b".to_owned(),
                "fuel tank".to_owned(),
            ];
            assert(texts(made@) =~= furniture_aliases(id));
            made
        },
        FurnId::EmergencyLocker => {
            let made = vec!["locker".to_owned()];
            assert(texts(made@) =~= furniture_aliases(id));
            made
        },
        FurnId::WarningSign => {
            let made = vec!["sign".to_owned()];
            assert(texts(made@) =~= furniture_aliases(id));
            made
        },
        FurnId::WarningSignB => {
            let made = vec!["sign".to_owned()];
            assert(texts(made@) =~= furniture_aliases(id));
            made
        },
        FurnId::Dust => {
            let made: Vec<String> = Vec::new();
            assert(texts(made@) =~= furniture_aliases(id));
            made
        },
    }
}

fn furniture_description_of(id: FurnId) -> (made: &'static str)
    ensures
        made@ == furniture_description(id),
{
    match id {
        FurnId::Illuminator => FURN_ILLUMINATOR_DESCRIPTION,
        FurnId::StorageShelf => FURN_STORAGE_SHELF_DESCRIPTION,
        FurnId::MessTable => FURN_MESS_TABLE_DESCRIPTION,
        FurnId::NorthMessTable => FURN_MESS_TABLE_DESCRIPTION,
        FurnId::Counter => FURN_COUNTER_DESCRIPTION,
        FurnId::CoffeeMachine => FURN_COFFEE_MACHINE_DESCRIPTION,
        FurnId::FoodPrinter => FURN_FOOD_PRINTER_DESCRIPTION,
        FurnId::Sink => FURN_SINK_DESCRIPTION,
        FurnId::BosunDesk => FURN_BOSUN_DESK_DESCRIPTION,
        FurnId::BookShelves => FURN_BOOK_SHELVES_DESCRIPTION,
        FurnId::CaptainsIlluminator => FURN_CAPTAINS_ILLUMINATOR_DESCRIPTION,
        FurnId::CaptainsDesk => FURN_CAPTAINS_DESK_DESCRIPTION,
        FurnId::NavigationComputer => FURN_NAVIGATION_COMPUTER_DESCRIPTION,
        FurnId::MainTerminal => FURN_MAIN_TERMINAL_DESCRIPTION,
        FurnId::MainEngine => FURN_MAIN_ENGINE_DESCRIPTION,
        FurnId::FuelTankA => FURN_FUEL_TANK_A_DESCRIPTION,
        FurnId::FuelTankB => FURN_FUEL_TANK_B_DESCRIPTION,
        FurnId::EmergencyLocker => FURN_EMERGENCY_LOCKER_DESCRIPTION,
        FurnId::WarningSign => FURN_WARNING_SIGN_DESCRIPTION,
        FurnId::WarningSignB => FURN_WARNING_SIGN_DESCRIPTION,
        FurnId::Dust => FURN_DUST_DESCRIPTION,
    }
}

fn furniture_contents_of(id: FurnId) -> (made: Vec<EntityId>)
    ensures
        made@ == furniture_contents(id),
{
    match id {
        FurnId::Illuminator => {
            let made: Vec<EntityId> = Vec::new();
            assert(made@ =~= furniture_contents(id));
            made
        },
        FurnId::StorageShelf => {
            let made: Vec<EntityId> = Vec::new();
            assert(made@ =~= furniture_contents(id));
            made
        },
        FurnId::MessTable => {
            let made: Vec<EntityId> = Vec::new();
            assert(made@ =~= furniture_contents(id));
            made
        },
        FurnId::NorthMessTable => {
            let made: Vec<EntityId> = Vec::new();
            assert(made@ =~= furniture_contents(id));
            made
        },
        FurnId::Counter => {
            let made = vec![
                EntityId::Item(ItemId::CounterNote),
                EntityId::Item(ItemId::Biscuits),
                EntityId::Item(ItemId::Plate),
                EntityId::Furniture(FurnId::CoffeeMachine),
                EntityId::Furniture(FurnId::FoodPrinter),
                EntityId::Furniture(FurnId::Sink),
            ];
            assert(made@ =~= furniture_contents(id));
            made
        },
        FurnId::CoffeeMachine => {
            let made: Vec<EntityId> = Vec::new();
            assert(made@ =~= furniture_contents(id));
            made
        },
        FurnId::FoodPrinter => {
            let made = vec![EntityId::Item(ItemId::FoodSurrogateBottle)];
            assert(made@ =~= furniture_contents(id));
            made
        },
        FurnId::Sink => {
            let made = vec![EntityId::Item(ItemId::Fork)];
            assert(made@ =~= furniture_contents(id));
            made
        },
        FurnId::BosunDesk => {
            let made = vec![EntityId::Item(ItemId::BosunCard)];
            assert(made@ =~= furniture_contents(id));
            made
        },
        FurnId::BookShelves => {
            let made = vec![EntityId::Item(ItemId::ShuttleManual)];
            assert(made@ =~= furniture_contents(id));
            made
        },
        FurnId::CaptainsIlluminator => {
            let made: Vec<EntityId> = Vec::new();
            assert(made@ =~= furniture_contents(id));
            made
        },
        FurnId::CaptainsDesk => {
            let made = vec![EntityId::Item(ItemId::CaptainCard)];
            assert(made@ =~= furniture_contents(id));
            made
        },
        FurnId::NavigationComputer => {
            let made: Vec<EntityId> = Vec::new();
            assert(made@ =~= furniture_contents(id));
            made
        },
        FurnId::MainTerminal => {
            let made: Vec<EntityId> = Vec::new();
            assert(made@ =~= furniture_contents(id));
            made
        },
        FurnId::MainEngine => {
            let made: Vec<EntityId> = Vec::new();
            assert(made@ =~= furniture_contents(id));
            made
        },
        FurnId::FuelTankA => {
            let made: Vec<EntityId> = Vec::new();
            assert(made@ =~= furniture_contents(id));
            made
        },
        FurnId::FuelTankB => {
            let made: Vec<EntityId> = Vec::new();
            assert(made@ =~= furniture_contents(id));
            made
        },
        FurnId::EmergencyLocker => {
            let made = vec![EntityId::Item(ItemId::SpaceSuit)];
            assert(made@ =~= furniture_contents(id));
            made
        },
        FurnId::WarningSign => {
            let made: Vec<EntityId> = Vec::new();
            assert(made@ =~= furniture_contents(id));
            made
        },
        FurnId::WarningSignB => {
            let made: Vec<EntityId> = Vec::new();
            assert(made@ =~= furniture_contents(id));
            made
        },
        FurnId::Dust => {
            let made: Vec<EntityId> = Vec::new();
            assert(made@ =~= furniture_contents(id));
            made
        },
    }
}

/// The name of each item.
pub open spec fn item_name(id: ItemId) -> Seq<char> {
    match id {
        ItemId::Bucket => "Bucket"@,
        ItemId::SpaceRation => "Space ration"@,
        ItemId::WaterBottle => "Bottle of water"@,
        ItemId::EmptyBottle => "Empty Bottle"@,
        ItemId::SecretBottle => "Secret Bottle"@,
        ItemId::CounterNote => "Note"@,
        ItemId::Biscuits => "Biscuits"@,
        ItemId::Plate => "Plate"@,
        ItemId::FoodSurrogateBottle => "Food surrogate bottle"@,
        ItemId::Fork => "Fork"@,
        ItemId::LuckyCoin => "Lucky Coin"@,
        ItemId::AssistantCard => "Assistant Card"@,
        ItemId::BosunCard => "Bosun Card"@,
        ItemId::CaptainCard => "Captain Card"@,
        ItemId::SpaceSuit => "Space Suit"@,
        ItemId::ShuttleManual => "Shuttle manual"@,
        ItemId::Dust => "A layer of dust"@,
    }
}

/// The aliases of each item.
pub open spec fn item_aliases(id: ItemId) -> Seq<Seq<char>> {
    match id {
        ItemId::Bucket => seq!["blue bucket"@],
        ItemId::SpaceRation => seq!["ration"@],
        ItemId::WaterBottle => seq!["bottle"@, "water"@],
        ItemId::EmptyBottle => seq!["bottle"@],
        ItemId::SecretBottle => seq!["bottle"@],
        ItemId::CounterNote => Seq::<Seq<char>>::empty(),
        ItemId::Biscuits => seq!["cupcakes"@, "cakes"@],
        ItemId::Plate => seq!["dish"@],
        ItemId::FoodSurrogateBottle => seq!["food surrogate"@, "surrogate"@, "bottle"@],
        ItemId::Fork => Seq::<Seq<char>>::empty(),
        ItemId::LuckyCoin => seq!["coin"@],
        ItemId::AssistantCard => seq!["card"@],
        ItemId::BosunCard => seq!["card"@, "access card"@, "bosun's card"@],
        ItemId::CaptainCard => seq!["card"@, "access card"@, "captain's card"@],
        ItemId::SpaceSuit => seq!["suit"@, "spacesuit"@],
        ItemId::ShuttleManual => seq!["manual"@],
        ItemId::Dust => Seq::<Seq<char>>::empty(),
    }
}

/// The description of each item.
pub open spec fn item_description(id: ItemId) -> Seq<char> {
    match id {
        ItemId::Bucket => ITEM_BUCKET_DESCRIPTION@,
        ItemId::SpaceRation => ITEM_SPACE_RATION_DESCRIPTION@,
        ItemId::WaterBottle => ITEM_WATER_BOTTLE_DESCRIPTION@,
        ItemId::EmptyBottle => ITEM_EMPTY_BOTTLE_DESCRIPTION@,
        ItemId::SecretBottle => ""@,
        ItemId::CounterNote => ITEM_COUNTER_NOTE_DESCRIPTION@,
        ItemId::Biscuits => ITEM_BISCUITS_DESCRIPTION@,
        ItemId::Plate => ITEM_PLATE_DESCRIPTION@,
        ItemId::FoodSurrogateBottle => ITEM_FOOD_SURROGATE_BOTTLE_DESCRIPTION@,
        ItemId::Fork => ITEM_FORK_DESCRIPTION@,
        ItemId::LuckyCoin => ""@,
        ItemId::AssistantCard => ITEM_ASSISTANT_CARD_DESCRIPTION@,
        ItemId::BosunCard => ITEM_BOSUN_CARD_DESCRIPTION@,
        ItemId::CaptainCard => ITEM_CAPTAIN_CARD_DESCRIPTION@,
        ItemId::SpaceSuit => ITEM_SPACE_SUIT_DESCRIPTION@,
        ItemId::ShuttleManual => ITEM_SHUTTLE_MANUAL_DESCRIPTION@,
        ItemId::Dust => ITEM_DUST_DESCRIPTION@,
    }
}

/// The kind of each item.
pub open spec fn item_kind(id: ItemId) -> EntityKind {
    match id {
        ItemId::Bucket => EntityKind::Container,
        ItemId::SpaceRation => EntityKind::Food,
        ItemId::WaterBottle => EntityKind::Drink,
        ItemId::EmptyBottle => EntityKind::Item,
        ItemId::SecretBottle => EntityKind::Item,
        ItemId::CounterNote => EntityKind::TextItem,
        ItemId::Biscuits => EntityKind::Food,
        ItemId::Plate => EntityKind::Container,
        ItemId::FoodSurrogateBottle => EntityKind::Food,
        ItemId::Fork => EntityKind::Item,
        ItemId::LuckyCoin => EntityKind::Item,
        ItemId::AssistantCard => EntityKind::Item,
        ItemId::BosunCard => EntityKind::Item,
        ItemId::CaptainCard => EntityKind::Item,
        ItemId::SpaceSuit => EntityKind::Item,
        ItemId::ShuttleManual => EntityKind::TextItem,
        ItemId::Dust => EntityKind::Item,
    }
}

/// What each item holds at the start.
pub open spec fn item_contents(id: ItemId) -> Seq<EntityId> {
    match id {
        ItemId::Bucket => Seq::<EntityId>::empty(),
        ItemId::SpaceRation => Seq::<EntityId>::empty(),
        ItemId::WaterBottle => Seq::<EntityId>::empty(),
        ItemId::EmptyBottle => Seq::<EntityId>::empty(),
        ItemId::SecretBottle => Seq::<EntityId>::empty(),
        ItemId::CounterNote => Seq::<EntityId>::empty(),
        ItemId::Biscuits => Seq::<EntityId>::empty(),
        ItemId::Plate => Seq::<EntityId>::empty(),
        ItemId::FoodSurrogateBottle => Seq::<EntityId>::empty(),
        ItemId::Fork => Seq::<EntityId>::empty(),
        ItemId::LuckyCoin => Seq::<EntityId>::empty(),
        ItemId::AssistantCard => Seq::<EntityId>::empty(),
        ItemId::BosunCard => Seq::<EntityId>::empty(),
        ItemId::CaptainCard => Seq::<EntityId>::empty(),
        ItemId::SpaceSuit => Seq::<EntityId>::empty(),
        ItemId::ShuttleManual => Seq::<EntityId>::empty(),
        ItemId::Dust => Seq::<EntityId>::empty(),
    }
}

/// What is written on each item.
pub open spec fn item_text(id: ItemId) -> Seq<char> {
    match id {
        ItemId::Bucket => Seq::<char>::empty(),
        ItemId::SpaceRation => Seq::<char>::empty(),
        ItemId::WaterBottle => Seq::<char>::empty(),
        ItemId::EmptyBottle => Seq::<char>::empty(),
        ItemId::SecretBottle => Seq::<char>::empty(),
        ItemId::CounterNote => ITEM_COUNTER_NOTE_TEXT@,
        ItemId::Biscuits => Seq::<char>::empty(),
        ItemId::Plate => Seq::<char>::empty(),
        ItemId::FoodSurrogateBottle => Seq::<char>::empty(),
        ItemId::Fork => Seq::<char>::empty(),
        ItemId::LuckyCoin => Seq::<char>::empty(),
        ItemId::AssistantCard => Seq::<char>::empty(),
        ItemId::BosunCard => Seq::<char>::empty(),
        ItemId::CaptainCard => Seq::<char>::empty(),
        ItemId::SpaceSuit => Seq::<char>::empty(),
        ItemId::ShuttleManual => ITEM_SHUTTLE_MANUAL_TEXT@,
        ItemId::Dust => Seq::<char>::empty(),
    }
}

/// Each item as it is at the start.
pub open spec fn item_view(id: ItemId) -> EntityView {
    EntityView {
        id: EntityId::Item(id),
        name: item_name(id),
        aliases: item_aliases(id),
        description: item_description(id),
        kind: item_kind(id),
        contents: item_contents(id),
        text: item_text(id),
        eaten: false,
    }
}

fn item_name_of(id: ItemId) -> (made: &'static str)
    ensures
        made@ == item_name(id),
{
    match id {
        ItemId::Bucket => "Bucket",
        ItemId::SpaceRation => "Space ration",
        ItemId::WaterBottle => "Bottle of water",
        ItemId::EmptyBottle => "Empty Bottle",
        ItemId::SecretBottle => "Secret Bottle",
        ItemId::CounterNote => "Note",
        ItemId::Biscuits => "Biscuits",
        ItemId::Plate => "Plate",
        ItemId::FoodSurrogateBottle => "Food surrogate bottle",
        ItemId::Fork => "Fork",
        ItemId::LuckyCoin => "Lucky Coin",
        ItemId::AssistantCard => "Assistant Card",
        ItemId::BosunCard => "Bosun Card",
        ItemId::CaptainCard => "Captain Card",
        ItemId::SpaceSuit => "Space Suit",
        ItemId::ShuttleManual => "Shuttle manual",
        ItemId::Dust => "A layer of dust",
    }
}

fn item_aliases_of(id: ItemId) -> (made: Vec<String>)
    ensures
        texts(made@) == item_aliases(id),
{
    match id {
        ItemId::Bucket => {
            let made = vec!["blue bucket".to_owned()];
            assert(texts(made@) =~= item_aliases(id));
            made
        },
        ItemId::SpaceRation => {
            let made = vec!["ration".to_owned()];
            assert(texts(made@) =~= item_aliases(id));
            made
        },
        ItemId::WaterBottle => {
            let made = vec!["bottle".to_owned(), "water".to_owned()];
            assert(texts(made@) =~= item_aliases(id));
            made
        },
        ItemId::EmptyBottle => {
            let made = vec!["bottle".to_owned()];
            assert(texts(made@) =~= item_aliases(id));
            made
        },
        ItemId::SecretBottle => {
            let made = vec!["bottle".to_owned()];
            assert(texts(made@) =~= item_aliases(id));
            made
        },
        ItemId::CounterNote => {
            let made: Vec<String> = Vec::new();
            assert(texts(made@) =~= item_aliases(id));
            made
        },
        ItemId::Biscuits => {
            let made = vec!["cupcakes".to_owned(), "cakes".to_owned()];
            assert(texts(made@) =~= item_aliases(id));
            made
        },
        ItemId::Plate => {
            let made = vec!["dish".to_owned()];
            assert(texts(made@) =~= item_aliases(id));
            made
        },
        ItemId::FoodSurrogateBottle => {
            let made = vec![
                "food surrogate".to_owned(),
                "surrogate".to_owned(),
                "bottle".to_owned(),
            ];
            assert(texts(made@) =~= item_aliases(id));
            made
        },
        ItemId::Fork => {
            let made: Vec<String> = Vec::new();
            assert(texts(made@) =~= item_aliases(id));
            made
        },
        ItemId::LuckyCoin => {
            let made = vec!["coin".to_owned()];
            assert(texts(made@) =~= item_aliases(id));
            made
        },
        ItemId::AssistantCard => {
            let made = vec!["card".to_owned()];
            assert(texts(made@) =~= item_aliases(id));
            made
        },
        ItemId::BosunCard => {
            let made = vec![
                "card".to_owned(),
                "access card".to_owned(),
                "bosun's card".to_owned(),
            ];
            assert(texts(made@) =~= item_aliases(id));
            made
        },
        ItemId::CaptainCard => {
            let made = vec![
                "card".to_owned(),
                "access card".to_owned(),
                "captain's card".to_owned(),
            ];
            assert(texts(made@) =~= item_aliases(id));
            made
        },
        ItemId::SpaceSuit => {
            let made = vec!["suit".to_owned(), "spacesuit".to_owned()];
            assert(texts(made@) =~= item_aliases(id));
            made
        },
        ItemId::ShuttleManual => {
            let made = vec!["manual".to_owned()];
            assert(texts(made@) =~= item_aliases(id));
            made
        },
        ItemId::Dust => {
            let made: Vec<String> = Vec::new();
            assert(texts(made@) =~= item_aliases(id));
            made
        },
    }
}

fn item_description_of(id: ItemId) -> (made: &'static str)
    ensures
        made@ == item_description(id),
{
    match id {
        ItemId::Bucket => ITEM_BUCKET_DESCRIPTION,
        ItemId::SpaceRation => ITEM_SPACE_RATION_DESCRIPTION,
        ItemId::WaterBottle => ITEM_WATER_BOTTLE_DESCRIPTION,
        ItemId::EmptyBottle => ITEM_EMPTY_BOTTLE_DESCRIPTION,
        ItemId::SecretBottle => "",
        ItemId::CounterNote => ITEM_COUNTER_NOTE_DESCRIPTION,
        ItemId::Biscuits => ITEM_BISCUITS_DESCRIPTION,
        ItemId::Plate => ITEM_PLATE_DESCRIPTION,
        ItemId::FoodSurrogateBottle => ITEM_FOOD_SURROGATE_BOTTLE_DESCRIPTION,
        ItemId::Fork => ITEM_FORK_DESCRIPTION,
        ItemId::LuckyCoin => "",
        ItemId::AssistantCard => ITEM_ASSISTANT_CARD_DESCRIPTION,
        ItemId::BosunCard => ITEM_BOSUN_CARD_DESCRIPTION,
        ItemId::CaptainCard => ITEM_CAPTAIN_CARD_DESCRIPTION,
        ItemId::SpaceSuit => ITEM_SPACE_SUIT_DESCRIPTION,
        ItemId::ShuttleManual => ITEM_SHUTTLE_MANUAL_DESCRIPTION,
        ItemId::Dust => ITEM_DUST_DESCRIPTION,
    }
}

fn item_contents_of(id: ItemId) -> (made: Vec<EntityId>)
    ensures
        made@ == item_contents(id),
{
    match id {
        ItemId::Bucket => {
            let made: Vec<EntityId> = Vec::new();
            assert(made@ =~= item_contents(id));
            made
        },
        ItemId::SpaceRation => {
            let made: Vec<EntityId> = Vec::new();
            assert(made@ =~= item_contents(id));
            made
        },
        ItemId::WaterBottle => {
            let made: Vec<EntityId> = Vec::new();
            assert(made@ =~= item_contents(id));
            made
        },
        ItemId::EmptyBottle => {
            let made: Vec<EntityId> = Vec::new();
            assert(made@ =~= item_contents(id));
            made
        },
        ItemId::SecretBottle => {
            let made: Vec<EntityId> = Vec::new();
            assert(made@ =~= item_contents(id));
            made
        },
        ItemId::CounterNote => {
            let made: Vec<EntityId> = Vec::new();
            assert(made@ =~= item_contents(id));
            made
        },
        ItemId::Biscuits => {
            let made: Vec<EntityId> = Vec::new();
            assert(made@ =~= item_contents(id));
            made
        },
        ItemId::Plate => {
            let made: Vec<EntityId> = Vec::new();
            assert(made@ =~= item_contents(id));
            made
        },
        ItemId::FoodSurrogateBottle => {
            let made: Vec<EntityId> = Vec::new();
            assert(made@ =~= item_contents(id));
            made
        },
        ItemId::Fork => {
            let made: Vec<EntityId> = Vec::new();
            assert(made@ =~= item_contents(id));
            made
        },
        ItemId::LuckyCoin => {
            let made: Vec<EntityId> = Vec::new();
            assert(made@ =~= item_contents(id));
            made
        },
        ItemId::AssistantCard => {
            let made: Vec<EntityId> = Vec::new();
            assert(made@ =~= item_contents(id));
            made
        },
        ItemId::BosunCard => {
            let made: Vec<EntityId> = Vec::new();
            assert(made@ =~= item_contents(id));
            made
        },
        ItemId::CaptainCard => {
            let made: Vec<EntityId> = Vec::new();
            assert(made@ =~= item_contents(id));
            made
        },
        ItemId::SpaceSuit => {
            let made: Vec<EntityId> = Vec::new();
            assert(made@ =~= item_contents(id));
            made
        },
        ItemId::ShuttleManual => {
            let made: Vec<EntityId> = Vec::new();
            assert(made@ =~= item_contents(id));
            made
        },
        ItemId::Dust => {
            let made: Vec<EntityId> = Vec::new();
            assert(made@ =~= item_contents(id));
            made
        },
    }
}

/// The size of each item that has one.
pub open spec fn item_size(id: ItemId) -> Option<Size> {
    match id {
        ItemId::Bucket => Some(Size::Medium),
        ItemId::SpaceRation => None,
        ItemId::WaterBottle => None,
        ItemId::EmptyBottle => Some(Size::Small),
        ItemId::SecretBottle => Some(Size::Small),
        ItemId::CounterNote => None,
        ItemId::Biscuits => None,
        ItemId::Plate => Some(Size::Small),
        ItemId::FoodSurrogateBottle => None,
        ItemId::Fork => Some(Size::Small),
        ItemId::LuckyCoin => Some(Size::Small),
        ItemId::AssistantCard => Some(Size::Small),
        ItemId::BosunCard => Some(Size::Small),
        ItemId::CaptainCard => Some(Size::Small),
        ItemId::SpaceSuit => Some(Size::Medium),
        ItemId::ShuttleManual => None,
        ItemId::Dust => Some(Size::Small),
    }
}

/// The size of an entity, if it is of a kind that has one.
pub open spec fn size_of(entity: AnyEntity) -> Option<Size> {
    match entity {
        AnyEntity::Item(item) => Some(item.size),
        AnyEntity::Holder(Holder::Container(container)) => Some(container.size),
        _ => None,
    }
}

/// The clearance that each room asks for.
pub open spec fn room_access(id: RoomIdentifier) -> Access {
    match id {
        RoomIdentifier::Storage => Access::Unranked,
        RoomIdentifier::NorthMess => Access::D,
        RoomIdentifier::Mess => Access::D,
        RoomIdentifier::SouthMess => Access::D,
        RoomIdentifier::MeetingRoom => Access::B,
        RoomIdentifier::Bridge => Access::A,
        RoomIdentifier::PassengersRoom => Access::D,
        RoomIdentifier::AirlockCorridor => Access::D,
        RoomIdentifier::AirlockA => Access::D,
        RoomIdentifier::OpenSpaceAirlockA => Access::D,
        RoomIdentifier::AirlockB => Access::D,
        RoomIdentifier::OpenSpaceAirlockB => Access::D,
        RoomIdentifier::TechCorridor => Access::D,
        RoomIdentifier::TechCorridorNorth => Access::D,
        RoomIdentifier::EngineRoom => Access::D,
        RoomIdentifier::BosunsRoom => Access::D,
        RoomIdentifier::CaptainsRoom => Access::B,
        RoomIdentifier::StorageHold => Access::A,
        RoomIdentifier::CrewCabins => Access::D,
        RoomIdentifier::StationAirlock => Access::D,
    }
}

/// The short description of each room.
pub open spec fn room_short(id: RoomIdentifier) -> Seq<char> {
    match id {
        RoomIdentifier::Storage => ROOM_STORAGE_SHORT@,
        RoomIdentifier::NorthMess => ROOM_NORTH_MESS_SHORT@,
        RoomIdentifier::Mess => ROOM_MESS_SHORT@,
        RoomIdentifier::SouthMess => ROOM_SOUTH_MESS_SHORT@,
        RoomIdentifier::MeetingRoom => ROOM_MEETING_ROOM_SHORT@,
        RoomIdentifier::Bridge => ROOM_BRIDGE_SHORT@,
        RoomIdentifier::PassengersRoom => ROOM_PASSENGERS_ROOM_SHORT@,
        RoomIdentifier::AirlockCorridor => ROOM_AIRLOCK_CORRIDOR_SHORT@,
        RoomIdentifier::AirlockA => ROOM_AIRLOCK_A_SHORT@,
        RoomIdentifier::OpenSpaceAirlockA => ""@,
        RoomIdentifier::AirlockB => ROOM_AIRLOCK_B_SHORT@,
        RoomIdentifier::OpenSpaceAirlockB => ""@,
        RoomIdentifier::TechCorridor => ROOM_TECH_CORRIDOR_SHORT@,
        RoomIdentifier::TechCorridorNorth => ROOM_TECH_CORRIDOR_NORTH_SHORT@,
        RoomIdentifier::EngineRoom => ROOM_ENGINE_ROOM_SHORT@,
        RoomIdentifier::BosunsRoom => ROOM_BOSUNS_ROOM_SHORT@,
        RoomIdentifier::CaptainsRoom => ROOM_CAPTAINS_ROOM_SHORT@,
        RoomIdentifier::StorageHold => ROOM_STORAGE_HOLD_SHORT@,
        RoomIdentifier::CrewCabins => ROOM_CREW_CABINS_SHORT@,
        RoomIdentifier::StationAirlock => ROOM_STATION_AIRLOCK_SHORT@,
    }
}

/// The full description of each room.
pub open spec fn room_full(id: RoomIdentifier) -> Seq<char> {
    match id {
        RoomIdentifier::Storage => ROOM_STORAGE_FULL@,
        RoomIdentifier::NorthMess => ROOM_NORTH_MESS_FULL@,
        RoomIdentifier::Mess => ROOM_MESS_FULL@,
        RoomIdentifier::SouthMess => ""@,
        RoomIdentifier::MeetingRoom => ROOM_MEETING_ROOM_FULL@,
        RoomIdentifier::Bridge => ""@,
        RoomIdentifier::PassengersRoom => ""@,
        RoomIdentifier::AirlockCorridor => ROOM_AIRLOCK_CORRIDOR_FULL@,
        RoomIdentifier::AirlockA => ""@,
        RoomIdentifier::OpenSpaceAirlockA => ROOM_OPEN_SPACE_AIRLOCK_A_FULL@,
        RoomIdentifier::AirlockB => ""@,
        RoomIdentifier::OpenSpaceAirlockB => ""@,
        RoomIdentifier::TechCorridor => ROOM_TECH_CORRIDOR_FULL@,
        RoomIdentifier::TechCorridorNorth => ""@,
        RoomIdentifier::EngineRoom => ROOM_ENGINE_ROOM_FULL@,
        RoomIdentifier::BosunsRoom => ROOM_BOSUNS_ROOM_FULL@,
        RoomIdentifier::CaptainsRoom => ROOM_CAPTAINS_ROOM_FULL@,
        RoomIdentifier::StorageHold => ROOM_STORAGE_HOLD_FULL@,
        RoomIdentifier::CrewCabins => ROOM_CREW_CABINS_FULL@,
        RoomIdentifier::StationAirlock => ROOM_STATION_AIRLOCK_FULL@,
    }
}

/// The first thoughts on entering each room.
pub open spec fn room_first(id: RoomIdentifier) -> Seq<char> {
    match id {
        RoomIdentifier::Storage => ROOM_STORAGE_FIRST@,
        RoomIdentifier::NorthMess => ROOM_NORTH_MESS_FIRST@,
        RoomIdentifier::Mess => ROOM_MESS_FIRST@,
        RoomIdentifier::SouthMess => ""@,
        RoomIdentifier::MeetingRoom => ROOM_MEETING_ROOM_FIRST@,
        RoomIdentifier::Bridge => ROOM_BRIDGE_FIRST@,
        RoomIdentifier::PassengersRoom => ROOM_PASSENGERS_ROOM_FIRST@,
        RoomIdentifier::AirlockCorridor => ROOM_AIRLOCK_CORRIDOR_FIRST@,
        RoomIdentifier::AirlockA => ""@,
        RoomIdentifier::OpenSpaceAirlockA => ROOM_OPEN_SPACE_AIRLOCK_A_FIRST@,
        RoomIdentifier::AirlockB => ""@,
        RoomIdentifier::OpenSpaceAirlockB => ""@,
        RoomIdentifier::TechCorridor => ROOM_TECH_CORRIDOR_FIRST@,
        RoomIdentifier::TechCorridorNorth => ""@,
        RoomIdentifier::EngineRoom => ROOM_ENGINE_ROOM_FIRST@,
        RoomIdentifier::BosunsRoom => ROOM_BOSUNS_ROOM_FIRST@,
        RoomIdentifier::CaptainsRoom => ROOM_CAPTAINS_ROOM_FIRST@,
        RoomIdentifier::StorageHold => ROOM_STORAGE_HOLD_FIRST@,
        RoomIdentifier::CrewCabins => ROOM_CREW_CABINS_FIRST@,
        RoomIdentifier::StationAirlock => ROOM_STATION_AIRLOCK_FIRST@,
    }
}

/// What lies in each room at the start.
pub open spec fn room_entities(id: RoomIdentifier) -> Seq<EntityId> {
    match id {
        RoomIdentifier::Storage => seq![
            EntityId::Furniture(FurnId::Illuminator),
            EntityId::Furniture(FurnId::StorageShelf),
            EntityId::Item(ItemId::Bucket),
        ],
        RoomIdentifier::NorthMess => seq![
            EntityId::Furniture(FurnId::NorthMessTable),
            EntityId::Item(ItemId::SpaceRation),
        ],
        RoomIdentifier::Mess => seq![
            EntityId::Furniture(FurnId::MessTable),
            EntityId::Furniture(FurnId::Counter),
        ],
        RoomIdentifier::SouthMess => Seq::<EntityId>::empty(),
        RoomIdentifier::MeetingRoom => seq![EntityId::Furniture(FurnId::NavigationComputer)],
        RoomIdentifier::Bridge => seq![EntityId::Furniture(FurnId::MainTerminal)],
        RoomIdentifier::PassengersRoom => Seq::<EntityId>::empty(),
        RoomIdentifier::AirlockCorridor => Seq::<EntityId>::empty(),
        RoomIdentifier::AirlockA => seq![EntityId::Furniture(FurnId::WarningSign)],
        RoomIdentifier::OpenSpaceAirlockA => Seq::<EntityId>::empty(),
        RoomIdentifier::AirlockB => seq![EntityId::Furniture(FurnId::WarningSignB)],
        RoomIdentifier::OpenSpaceAirlockB => Seq::<EntityId>::empty(),
        RoomIdentifier::TechCorridor => Seq::<EntityId>::empty(),
        RoomIdentifier::TechCorridorNorth => Seq::<EntityId>::empty(),
        RoomIdentifier::EngineRoom => seq![EntityId::Furniture(FurnId::MainEngine)],
        RoomIdentifier::BosunsRoom => seq![EntityId::Furniture(FurnId::BosunDesk)],
        RoomIdentifier::CaptainsRoom => seq![
            EntityId::Furniture(FurnId::BookShelves),
            EntityId::Furniture(FurnId::CaptainsDesk),
            EntityId::Furniture(FurnId::CaptainsIlluminator),
        ],
        RoomIdentifier::StorageHold => seq![EntityId::Furniture(FurnId::EmergencyLocker)],
        RoomIdentifier::CrewCabins => Seq::<EntityId>::empty(),
        RoomIdentifier::StationAirlock => Seq::<EntityId>::empty(),
    }
}

/// Where the passages of each room lead at the start.
pub open spec fn room_connections(id: RoomIdentifier) -> Seq<(Direction, PassageType, RoomIdentifier)> {
    match id {
        RoomIdentifier::Storage => seq![
            (Direction::East, PassageType::Door, RoomIdentifier::NorthMess),
        ],
        RoomIdentifier::NorthMess => seq![
            (Direction::West, PassageType::Door, RoomIdentifier::Storage),
            (Direction::North, PassageType::Door, RoomIdentifier::MeetingRoom),
            (Direction::South, PassageType::Free, RoomIdentifier::Mess),
        ],
        RoomIdentifier::Mess => seq![
            (Direction::North, PassageType::Free, RoomIdentifier::NorthMess),
            (Direction::East, PassageType::Door, RoomIdentifier::CrewCabins),
            (Direction::South, PassageType::Free, RoomIdentifier::SouthMess),
        ],
        RoomIdentifier::SouthMess => seq![
            (Direction::North, PassageType::Free, RoomIdentifier::Mess),
            (Direction::South, PassageType::Door, RoomIdentifier::AirlockCorridor),
            (Direction::West, PassageType::Door, RoomIdentifier::PassengersRoom),
        ],
        RoomIdentifier::MeetingRoom => seq![
            (Direction::North, PassageType::Door, RoomIdentifier::Bridge),
            (Direction::South, PassageType::Door, RoomIdentifier::NorthMess),
            (Direction::West, PassageType::Door, RoomIdentifier::CaptainsRoom),
        ],
        RoomIdentifier::Bridge => seq![
            (Direction::South, PassageType::Door, RoomIdentifier::MeetingRoom),
        ],
        RoomIdentifier::PassengersRoom => seq![
            (Direction::East, PassageType::Door, RoomIdentifier::Mess),
        ],
        RoomIdentifier::AirlockCorridor => seq![
            (Direction::North, PassageType::Door, RoomIdentifier::SouthMess),
            (Direction::West, PassageType::Door, RoomIdentifier::AirlockA),
            (Direction::East, PassageType::Door, RoomIdentifier::AirlockB),
            (Direction::Down, PassageType::Door, RoomIdentifier::TechCorridor),
            (Direction::South, PassageType::Door, RoomIdentifier::StorageHold),
        ],
        RoomIdentifier::AirlockA => seq![
            (Direction::West, PassageType::Door, RoomIdentifier::OpenSpaceAirlockA),
            (Direction::East, PassageType::Door, RoomIdentifier::AirlockCorridor),
        ],
        RoomIdentifier::OpenSpaceAirlockA => seq![
            (Direction::West, PassageType::Free, RoomIdentifier::StationAirlock),
        ],
        RoomIdentifier::AirlockB => seq![
            (Direction::East, PassageType::Door, RoomIdentifier::OpenSpaceAirlockB),
            (Direction::West, PassageType::Door, RoomIdentifier::AirlockCorridor),
        ],
        RoomIdentifier::OpenSpaceAirlockB => seq![
            (Direction::West, PassageType::Door, RoomIdentifier::AirlockB),
        ],
        RoomIdentifier::TechCorridor => seq![
            (Direction::Up, PassageType::Door, RoomIdentifier::AirlockCorridor),
            (Direction::South, PassageType::Door, RoomIdentifier::EngineRoom),
            (Direction::North, PassageType::Free, RoomIdentifier::TechCorridorNorth),
        ],
        RoomIdentifier::TechCorridorNorth => seq![
            (Direction::South, PassageType::Free, RoomIdentifier::TechCorridor),
        ],
        RoomIdentifier::EngineRoom => seq![
            (Direction::North, PassageType::Free, RoomIdentifier::TechCorridor),
        ],
        RoomIdentifier::BosunsRoom => seq![
            (Direction::South, PassageType::Door, RoomIdentifier::CrewCabins),
        ],
        RoomIdentifier::CaptainsRoom => seq![
            (Direction::East, PassageType::Door, RoomIdentifier::MeetingRoom),
        ],
        RoomIdentifier::StorageHold => seq![
            (Direction::North, PassageType::Door, RoomIdentifier::AirlockCorridor),
        ],
        RoomIdentifier::CrewCabins => seq![
            (Direction::West, PassageType::Door, RoomIdentifier::Mess),
            (Direction::North, PassageType::Door, RoomIdentifier::BosunsRoom),
        ],
        RoomIdentifier::StationAirlock => Seq::<(Direction, PassageType, RoomIdentifier)>::empty(),
    }
}

/// Each room as it is at the start. Only the storage room, where the player
/// wakes up, counts as visited.
pub open spec fn room_view(id: RoomIdentifier) -> RoomView {
    RoomView {
        room_identifier: id,
        visited: id == RoomIdentifier::Storage,
        access: room_access(id),
        short_description: room_short(id),
        full_description: room_full(id),
        first_thoughts: room_first(id),
        entities: room_entities(id),
        connected_rooms: room_connections(id),
    }
}

fn room_access_of(id: RoomIdentifier) -> (made: Access)
    ensures
        made == room_access(id),
{
    match id {
        RoomIdentifier::Storage => Access::Unranked,
        RoomIdentifier::NorthMess => Access::D,
        RoomIdentifier::Mess => Access::D,
        RoomIdentifier::SouthMess => Access::D,
        RoomIdentifier::MeetingRoom => Access::B,
        RoomIdentifier::Bridge => Access::A,
        RoomIdentifier::PassengersRoom => Access::D,
        RoomIdentifier::AirlockCorridor => Access::D,
        RoomIdentifier::AirlockA => Access::D,
        RoomIdentifier::OpenSpaceAirlockA => Access::D,
        RoomIdentifier::AirlockB => Access::D,
        RoomIdentifier::OpenSpaceAirlockB => Access::D,
        RoomIdentifier::TechCorridor => Access::D,
        RoomIdentifier::TechCorridorNorth => Access::D,
        RoomIdentifier::EngineRoom => Access::D,
        RoomIdentifier::BosunsRoom => Access::D,
        RoomIdentifier::CaptainsRoom => Access::B,
        RoomIdentifier::StorageHold => Access::A,
        RoomIdentifier::CrewCabins => Access::D,
        RoomIdentifier::StationAirlock => Access::D,
    }
}

fn room_short_of(id: RoomIdentifier) -> (made: &'static str)
    ensures
        made@ == room_short(id),
{
    match id {
        RoomIdentifier::Storage => ROOM_STORAGE_SHORT,
        RoomIdentifier::NorthMess => ROOM_NORTH_MESS_SHORT,
        RoomIdentifier::Mess => ROOM_MESS_SHORT,
        RoomIdentifier::SouthMess => ROOM_SOUTH_MESS_SHORT,
        RoomIdentifier::MeetingRoom => ROOM_MEETING_ROOM_SHORT,
        RoomIdentifier::Bridge => ROOM_BRIDGE_SHORT,
        RoomIdentifier::PassengersRoom => ROOM_PASSENGERS_ROOM_SHORT,
        RoomIdentifier::AirlockCorridor => ROOM_AIRLOCK_CORRIDOR_SHORT,
        RoomIdentifier::AirlockA => ROOM_AIRLOCK_A_SHORT,
        RoomIdentifier::OpenSpaceAirlockA => "",
        RoomIdentifier::AirlockB => ROOM_AIRLOCK_B_SHORT,
        RoomIdentifier::OpenSpaceAirlockB => "",
        RoomIdentifier::TechCorridor => ROOM_TECH_CORRIDOR_SHORT,
        RoomIdentifier::TechCorridorNorth => ROOM_TECH_CORRIDOR_NORTH_SHORT,
        RoomIdentifier::EngineRoom => ROOM_ENGINE_ROOM_SHORT,
        RoomIdentifier::BosunsRoom => ROOM_BOSUNS_ROOM_SHORT,
        RoomIdentifier::CaptainsRoom => ROOM_CAPTAINS_ROOM_SHORT,
        RoomIdentifier::StorageHold => ROOM_STORAGE_HOLD_SHORT,
        RoomIdentifier::CrewCabins => ROOM_CREW_CABINS_SHORT,
        RoomIdentifier::StationAirlock => ROOM_STATION_AIRLOCK_SHORT,
    }
}

fn room_full_of(id: RoomIdentifier) -> (made: &'static str)
    ensures
        made@ == room_full(id),
{
    match id {
        RoomIdentifier::Storage => ROOM_STORAGE_FULL,
        RoomIdentifier::NorthMess => ROOM_NORTH_MESS_FULL,
        RoomIdentifier::Mess => ROOM_MESS_FULL,
        RoomIdentifier::SouthMess => "",
        RoomIdentifier::MeetingRoom => ROOM_MEETING_ROOM_FULL,
        RoomIdentifier::Bridge => "",
        RoomIdentifier::PassengersRoom => "",
        RoomIdentifier::AirlockCorridor => ROOM_AIRLOCK_CORRIDOR_FULL,
        RoomIdentifier::AirlockA => "",
        RoomIdentifier::OpenSpaceAirlockA => ROOM_OPEN_SPACE_AIRLOCK_A_FULL,
        RoomIdentifier::AirlockB => "",
        RoomIdentifier::OpenSpaceAirlockB => "",
        RoomIdentifier::TechCorridor => ROOM_TECH_CORRIDOR_FULL,
        RoomIdentifier::TechCorridorNorth => "",
        RoomIdentifier::EngineRoom => ROOM_ENGINE_ROOM_FULL,
        RoomIdentifier::BosunsRoom => ROOM_BOSUNS_ROOM_FULL,
        RoomIdentifier::CaptainsRoom => ROOM_CAPTAINS_ROOM_FULL,
        RoomIdentifier::StorageHold => ROOM_STORAGE_HOLD_FULL,
        RoomIdentifier::CrewCabins => ROOM_CREW_CABINS_FULL,
        RoomIdentifier::StationAirlock => ROOM_STATION_AIRLOCK_FULL,
    }
}

fn room_first_of(id: RoomIdentifier) -> (made: &'static str)
    ensures
        made@ == room_first(id),
{
    match id {
        RoomIdentifier::Storage => ROOM_STORAGE_FIRST,
        RoomIdentifier::NorthMess => ROOM_NORTH_MESS_FIRST,
        RoomIdentifier::Mess => ROOM_MESS_FIRST,
        RoomIdentifier::SouthMess => "",
        RoomIdentifier::MeetingRoom => ROOM_MEETING_ROOM_FIRST,
        RoomIdentifier::Bridge => ROOM_BRIDGE_FIRST,
        RoomIdentifier::PassengersRoom => ROOM_PASSENGERS_ROOM_FIRST,
        RoomIdentifier::AirlockCorridor => ROOM_AIRLOCK_CORRIDOR_FIRST,
        RoomIdentifier::AirlockA => "",
        RoomIdentifier::OpenSpaceAirlockA => ROOM_OPEN_SPACE_AIRLOCK_A_FIRST,
        RoomIdentifier::AirlockB => "",
        RoomIdentifier::OpenSpaceAirlockB => "",
        RoomIdentifier::TechCorridor => ROOM_TECH_CORRIDOR_FIRST,
        RoomIdentifier::TechCorridorNorth => "",
        RoomIdentifier::EngineRoom => ROOM_ENGINE_ROOM_FIRST,
        RoomIdentifier::BosunsRoom => ROOM_BOSUNS_ROOM_FIRST,
        RoomIdentifier::CaptainsRoom => ROOM_CAPTAINS_ROOM_FIRST,
        RoomIdentifier::StorageHold => ROOM_STORAGE_HOLD_FIRST,
        RoomIdentifier::CrewCabins => ROOM_CREW_CABINS_FIRST,
        RoomIdentifier::StationAirlock => ROOM_STATION_AIRLOCK_FIRST,
    }
}

fn room_entities_of(id: RoomIdentifier) -> (made: Vec<EntityId>)
    ensures
        made@ == room_entities(id),
{
    match id {
        RoomIdentifier::Storage => {
            let made = vec![
                EntityId::Furniture(FurnId::Illuminator),
                EntityId::Furniture(FurnId::StorageShelf),
                EntityId::Item(ItemId::Bucket),
            ];
            assert(made@ =~= room_entities(id));
            made
        },
        RoomIdentifier::NorthMess => {
            let made = vec![
                EntityId::Furniture(FurnId::NorthMessTable),
                EntityId::Item(ItemId::SpaceRation),
            ];
            assert(made@ =~= room_entities(id));
            made
        },
        RoomIdentifier::Mess => {
            let made = vec![
                EntityId::Furniture(FurnId::MessTable),
                EntityId::Furniture(FurnId::Counter),
            ];
            assert(made@ =~= room_entities(id));
            made
        },
        RoomIdentifier::SouthMess => {
            let made: Vec<EntityId> = Vec::new();
            assert(made@ =~= room_entities(id));
            made
        },
        RoomIdentifier::MeetingRoom => {
            let made = vec![
                EntityId::Furniture(FurnId::NavigationComputer),
            ];
            assert(made@ =~= room_entities(id));
            made
        },
        RoomIdentifier::Bridge => {
            let made = vec![EntityId::Furniture(FurnId::MainTerminal)];
            assert(made@ =~= room_entities(id));
            made
        },
        RoomIdentifier::PassengersRoom => {
            let made: Vec<EntityId> = Vec::new();
            assert(made@ =~= room_entities(id));
            made
        },
        RoomIdentifier::AirlockCorridor => {
            let made: Vec<EntityId> = Vec::new();
            assert(made@ =~= room_entities(id));
            made
        },
        RoomIdentifier::AirlockA => {
            let made = vec![EntityId::Furniture(FurnId::WarningSign)];
            assert(made@ =~= room_entities(id));
            made
        },
        RoomIdentifier::OpenSpaceAirlockA => {
            let made: Vec<EntityId> = Vec::new();
            assert(made@ =~= room_entities(id));
            made
        },
        RoomIdentifier::AirlockB => {
            let made = vec![EntityId::Furniture(FurnId::WarningSignB)];
            assert(made@ =~= room_entities(id));
            made
        },
        RoomIdentifier::OpenSpaceAirlockB => {
            let made: Vec<EntityId> = Vec::new();
            assert(made@ =~= room_entities(id));
            made
        },
        RoomIdentifier::TechCorridor => {
            let made: Vec<EntityId> = Vec::new();
            assert(made@ =~= room_entities(id));
            made
        },
        RoomIdentifier::TechCorridorNorth => {
            let made: Vec<EntityId> = Vec::new();
            assert(made@ =~= room_entities(id));
            made
        },
        RoomIdentifier::EngineRoom => {
            let made = vec![EntityId::Furniture(FurnId::MainEngine)];
            assert(made@ =~= room_entities(id));
            made
        },
        RoomIdentifier::BosunsRoom => {
            let made = vec![EntityId::Furniture(FurnId::BosunDesk)];
            assert(made@ =~= room_entities(id));
            made
        },
        RoomIdentifier::CaptainsRoom => {
            let made = vec![
                EntityId::Furniture(FurnId::BookShelves),
                EntityId::Furniture(FurnId::CaptainsDesk),
                EntityId::Furniture(FurnId::CaptainsIlluminator),
            ];
            assert(made@ =~= room_entities(id));
            made
        },
        RoomIdentifier::StorageHold => {
            let made = vec![EntityId::Furniture(FurnId::EmergencyLocker)];
            assert(made@ =~= room_entities(id));
            made
        },
        RoomIdentifier::CrewCabins => {
            let made: Vec<EntityId> = Vec::new();
            assert(made@ =~= room_entities(id));
            made
        },
        RoomIdentifier::StationAirlock => {
            let made: Vec<EntityId> = Vec::new();
            assert(made@ =~= room_entities(id));
            made
        },
    }
}

fn room_connections_of(id: RoomIdentifier) -> (made: Vec<(Direction, PassageType, RoomIdentifier)>)
    ensures
        made@ == room_connections(id),
{
    match id {
        RoomIdentifier::Storage => {
            let made = vec![
                (Direction::East, PassageType::Door, RoomIdentifier::NorthMess),
            ];
            assert(made@ =~= room_connections(id));
            made
        },
        RoomIdentifier::NorthMess => {
            let made = vec![
                (Direction::West, PassageType::Door, RoomIdentifier::Storage),
                (Direction::North, PassageType::Door, RoomIdentifier::MeetingRoom),
                (Direction::South, PassageType::Free, RoomIdentifier::Mess),
            ];
            assert(made@ =~= room_connections(id));
            made
        },
        RoomIdentifier::Mess => {
            let made = vec![
                (Direction::North, PassageType::Free, RoomIdentifier::NorthMess),
                (Direction::East, PassageType::Door, RoomIdentifier::CrewCabins),
                (Direction::South, PassageType::Free, RoomIdentifier::SouthMess),
            ];
            assert(made@ =~= room_connections(id));
            made
        },
        RoomIdentifier::SouthMess => {
            let made = vec![
                (Direction::North, PassageType::Free, RoomIdentifier::Mess),
                (Direction::South, PassageType::Door, RoomIdentifier::AirlockCorridor),
                (Direction::West, PassageType::Door, RoomIdentifier::PassengersRoom),
            ];
            assert(made@ =~= room_connections(id));
            made
        },
        RoomIdentifier::MeetingRoom => {
            let made = vec![
                (Direction::North, PassageType::Door, RoomIdentifier::Bridge),
                (Direction::South, PassageType::Door, RoomIdentifier::NorthMess),
                (Direction::West, PassageType::Door, RoomIdentifier::CaptainsRoom),
            ];
            assert(made@ =~= room_connections(id));
            made
        },
        RoomIdentifier::Bridge => {
            let made = vec![
                (Direction::South, PassageType::Door, RoomIdentifier::MeetingRoom),
            ];
            assert(made@ =~= room_connections(id));
            made
        },
        RoomIdentifier::PassengersRoom => {
            let made = vec![
                (Direction::East, PassageType::Door, RoomIdentifier::Mess),
            ];
            assert(made@ =~= room_connections(id));
            made
        },
        RoomIdentifier::AirlockCorridor => {
            let made = vec![
                (Direction::North, PassageType::Door, RoomIdentifier::SouthMess),
                (Direction::West, PassageType::Door, RoomIdentifier::AirlockA),
                (Direction::East, PassageType::Door, RoomIdentifier::AirlockB),
                (Direction::Down, PassageType::Door, RoomIdentifier::TechCorridor),
                (Direction::South, PassageType::Door, RoomIdentifier::StorageHold),
            ];
            assert(made@ =~= room_connections(id));
            made
        },
        RoomIdentifier::AirlockA => {
            let made = vec![
                (Direction::West, PassageType::Door, RoomIdentifier::OpenSpaceAirlockA),
                (Direction::East, PassageType::Door, RoomIdentifier::AirlockCorridor),
            ];
            assert(made@ =~= room_connections(id));
            made
        },
        RoomIdentifier::OpenSpaceAirlockA => {
            let made = vec![
                (Direction::West, PassageType::Free, RoomIdentifier::StationAirlock),
            ];
            assert(made@ =~= room_connections(id));
            made
        },
        RoomIdentifier::AirlockB => {
            let made = vec![
                (Direction::East, PassageType::Door, RoomIdentifier::OpenSpaceAirlockB),
                (Direction::West, PassageType::Door, RoomIdentifier::AirlockCorridor),
            ];
            assert(made@ =~= room_connections(id));
            made
        },
        RoomIdentifier::OpenSpaceAirlockB => {
            let made = vec![
                (Direction::West, PassageType::Door, RoomIdentifier::AirlockB),
            ];
            assert(made@ =~= room_connections(id));
            made
        },
        RoomIdentifier::TechCorridor => {
            let made = vec![
                (Direction::Up, PassageType::Door, RoomIdentifier::AirlockCorridor),
                (Direction::South, PassageType::Door, RoomIdentifier::EngineRoom),
                (Direction::North, PassageType::Free, RoomIdentifier::TechCorridorNorth),
            ];
            assert(made@ =~= room_connections(id));
            made
        },
        RoomIdentifier::TechCorridorNorth => {
            let made = vec![
                (Direction::South, PassageType::Free, RoomIdentifier::TechCorridor),
            ];
            assert(made@ =~= room_connections(id));
            made
        },
        RoomIdentifier::EngineRoom => {
            let made = vec![
                (Direction::North, PassageType::Free, RoomIdentifier::TechCorridor),
            ];
            assert(made@ =~= room_connections(id));
            made
        },
        RoomIdentifier::BosunsRoom => {
            let made = vec![
                (Direction::South, PassageType::Door, RoomIdentifier::CrewCabins),
            ];
            assert(made@ =~= room_connections(id));
            made
        },
        RoomIdentifier::CaptainsRoom => {
            let made = vec![
                (Direction::East, PassageType::Door, RoomIdentifier::MeetingRoom),
            ];
            assert(made@ =~= room_connections(id));
            made
        },
        RoomIdentifier::StorageHold => {
            let made = vec![
                (Direction::North, PassageType::Door, RoomIdentifier::AirlockCorridor),
            ];
            assert(made@ =~= room_connections(id));
            made
        },
        RoomIdentifier::CrewCabins => {
            let made = vec![
                (Direction::West, PassageType::Door, RoomIdentifier::Mess),
                (Direction::North, PassageType::Door, RoomIdentifier::BosunsRoom),
            ];
            assert(made@ =~= room_connections(id));
            made
        },
        RoomIdentifier::StationAirlock => {
            let made: Vec<(Direction, PassageType, RoomIdentifier)> = Vec::new();
            assert(made@ =~= room_connections(id));
            made
        },
    }
}

/// The world as it is at the start: every room, then every piece of
/// furniture and every item, each once and in declaration order.
pub open spec fn initial_world() -> WorldView {
    WorldView {
        rooms: RoomIdentifier::every().map_values(|id: RoomIdentifier| room_view(id)),
        entities: FurnId::every().map_values(|id: FurnId| furniture_view(id))
            + ItemId::every().map_values(|id: ItemId| item_view(id)),
    }
}

/// The place of each room in declaration order.
pub open spec fn room_ordinal(id: RoomIdentifier) -> int {
    match id {
        RoomIdentifier::Storage => 0,
        RoomIdentifier::NorthMess => 1,
        RoomIdentifier::Mess => 2,
        RoomIdentifier::SouthMess => 3,
        RoomIdentifier::MeetingRoom => 4,
        RoomIdentifier::Bridge => 5,
        RoomIdentifier::PassengersRoom => 6,
        RoomIdentifier::AirlockCorridor => 7,
        RoomIdentifier::AirlockA => 8,
        RoomIdentifier::OpenSpaceAirlockA => 9,
        RoomIdentifier::AirlockB => 10,
        RoomIdentifier::OpenSpaceAirlockB => 11,
        RoomIdentifier::TechCorridor => 12,
        RoomIdentifier::TechCorridorNorth => 13,
        RoomIdentifier::EngineRoom => 14,
        RoomIdentifier::BosunsRoom => 15,
        RoomIdentifier::CaptainsRoom => 16,
        RoomIdentifier::StorageHold => 17,
        RoomIdentifier::CrewCabins => 18,
        RoomIdentifier::StationAirlock => 19,
    }
}

/// The place of each piece of furniture in declaration order.
pub open spec fn furniture_ordinal(id: FurnId) -> int {
    match id {
        FurnId::Illuminator => 0,
        FurnId::StorageShelf => 1,
        FurnId::MessTable => 2,
        FurnId::NorthMessTable => 3,
        FurnId::Counter => 4,
        FurnId::CoffeeMachine => 5,
        FurnId::FoodPrinter => 6,
        FurnId::Sink => 7,
        FurnId::BosunDesk => 8,
        FurnId::BookShelves => 9,
        FurnId::CaptainsIlluminator => 10,
        FurnId::CaptainsDesk => 11,
        FurnId::NavigationComputer => 12,
        FurnId::MainTerminal => 13,
        FurnId::MainEngine => 14,
        FurnId::FuelTankA => 15,
        FurnId::FuelTankB => 16,
        FurnId::EmergencyLocker => 17,
        FurnId::WarningSign => 18,
        FurnId::WarningSignB => 19,
        FurnId::Dust => 20,
    }
}

/// The place of each item in declaration order.
pub open spec fn item_ordinal(id: ItemId) -> int {
    match id {
        ItemId::Bucket => 0,
        ItemId::SpaceRation => 1,
        ItemId::WaterBottle => 2,
        ItemId::EmptyBottle => 3,
        ItemId::SecretBottle => 4,
        ItemId::CounterNote => 5,
        ItemId::Biscuits => 6,
        ItemId::Plate => 7,
        ItemId::FoodSurrogateBottle => 8,
        ItemId::Fork => 9,
        ItemId::LuckyCoin => 10,
        ItemId::AssistantCard => 11,
        ItemId::BosunCard => 12,
        ItemId::CaptainCard => 13,
        ItemId::SpaceSuit => 14,
        ItemId::ShuttleManual => 15,
        ItemId::Dust => 16,
    }
}

/// At the start every room is known under its identifier.
pub proof fn lemma_initial_room(id: RoomIdentifier)
    ensures
        initial_world().room(id) == Some(room_view(id)),
{
    let ids = RoomIdentifier::every();
    let rooms = initial_world().rooms;
    assert(ids.len() == 20);
    assert(ids[room_ordinal(id)] == id);
    assert forall|k: int| 0 <= k < ids.len() implies room_ordinal(#[trigger] ids[k]) == k by {}
    lemma_room_from(rooms, id, 0);
    assert(rooms[room_ordinal(id)].room_identifier == id);
    let found = room_from(rooms, id, 0)->0;
    assert(rooms[found].room_identifier == ids[found]);
}

/// At the start every piece of furniture is registered under its
/// identifier.
pub proof fn lemma_initial_furniture(id: FurnId)
    ensures
        initial_world().entity(EntityId::Furniture(id)) == Some(furniture_view(id)),
{
    let ids = FurnId::every();
    let entities = initial_world().entities;
    assert(ids.len() == 21);
    assert(ids[furniture_ordinal(id)] == id);
    assert forall|k: int| 0 <= k < ids.len() implies furniture_ordinal(#[trigger] ids[k]) == k by {}
    lemma_entity_from(entities, EntityId::Furniture(id), 0);
    assert(entities[furniture_ordinal(id)].id == EntityId::Furniture(id));
    let found = entity_from(entities, EntityId::Furniture(id), 0)->0;
    if found < 21 {
        assert(entities[found].id == EntityId::Furniture(ids[found]));
    }
}

/// At the start every item is registered under its identifier.
pub proof fn lemma_initial_item(id: ItemId)
    ensures
        initial_world().entity(EntityId::Item(id)) == Some(item_view(id)),
{
    let ids = ItemId::every();
    let entities = initial_world().entities;
    assert(ids.len() == 17);
    assert(FurnId::every().len() == 21);
    assert(ids[item_ordinal(id)] == id);
    assert forall|k: int| 0 <= k < ids.len() implies item_ordinal(#[trigger] ids[k]) == k by {}
    lemma_entity_from(entities, EntityId::Item(id), 0);
    assert(entities[21 + item_ordinal(id)].id == EntityId::Item(id));
    let found = entity_from(entities, EntityId::Item(id), 0)->0;
    if found >= 21 {
        assert(entities[found].id == EntityId::Item(ids[found - 21]));
    } else {
        assert(entities[found].id == EntityId::Furniture(FurnId::every()[found]));
    }
}

/// Where the world keeps an entity: in the list of a room, in the contents of
/// another entity, or nowhere.
pub enum Place {
    Room(RoomIdentifier),
    Inside(EntityId),
    Nowhere,
}

/// Where the world keeps each piece of furniture at the start.
pub open spec fn furniture_place(id: FurnId) -> Place {
    match id {
        FurnId::Illuminator => Place::Room(RoomIdentifier::Storage),
        FurnId::StorageShelf => Place::Room(RoomIdentifier::Storage),
        FurnId::MessTable => Place::Room(RoomIdentifier::Mess),
        FurnId::NorthMessTable => Place::Room(RoomIdentifier::NorthMess),
        FurnId::Counter => Place::Room(RoomIdentifier::Mess),
        FurnId::CoffeeMachine => Place::Inside(EntityId::Furniture(FurnId::Counter)),
        FurnId::FoodPrinter => Place::Inside(EntityId::Furniture(FurnId::Counter)),
        FurnId::Sink => Place::Inside(EntityId::Furniture(FurnId::Counter)),
        FurnId::BosunDesk => Place::Room(RoomIdentifier::BosunsRoom),
        FurnId::BookShelves => Place::Room(RoomIdentifier::CaptainsRoom),
        FurnId::CaptainsIlluminator => Place::Room(RoomIdentifier::CaptainsRoom),
        FurnId::CaptainsDesk => Place::Room(RoomIdentifier::CaptainsRoom),
        FurnId::NavigationComputer => Place::Room(RoomIdentifier::MeetingRoom),
        FurnId::MainTerminal => Place::Room(RoomIdentifier::Bridge),
        FurnId::MainEngine => Place::Room(RoomIdentifier::EngineRoom),
        FurnId::FuelTankA => Place::Nowhere,
        FurnId::FuelTankB => Place::Nowhere,
        FurnId::EmergencyLocker => Place::Room(RoomIdentifier::StorageHold),
        FurnId::WarningSign => Place::Room(RoomIdentifier::AirlockA),
        FurnId::WarningSignB => Place::Room(RoomIdentifier::AirlockB),
        FurnId::Dust => Place::Nowhere,
    }
}

/// Where the world keeps each item at the start.
pub open spec fn item_place(id: ItemId) -> Place {
    match id {
        ItemId::Bucket => Place::Room(RoomIdentifier::Storage),
        ItemId::SpaceRation => Place::Room(RoomIdentifier::NorthMess),
        ItemId::WaterBottle => Place::Nowhere,
        ItemId::EmptyBottle => Place::Nowhere,
        ItemId::SecretBottle => Place::Nowhere,
        ItemId::CounterNote => Place::Inside(EntityId::Furniture(FurnId::Counter)),
        ItemId::Biscuits => Place::Inside(EntityId::Furniture(FurnId::Counter)),
        ItemId::Plate => Place::Inside(EntityId::Furniture(FurnId::Counter)),
        ItemId::FoodSurrogateBottle => Place::Inside(EntityId::Furniture(FurnId::FoodPrinter)),
        ItemId::Fork => Place::Inside(EntityId::Furniture(FurnId::Sink)),
        ItemId::LuckyCoin => Place::Nowhere,
        ItemId::AssistantCard => Place::Nowhere,
        ItemId::BosunCard => Place::Inside(EntityId::Furniture(FurnId::BosunDesk)),
        ItemId::CaptainCard => Place::Inside(EntityId::Furniture(FurnId::CaptainsDesk)),
        ItemId::SpaceSuit => Place::Inside(EntityId::Furniture(FurnId::EmergencyLocker)),
        ItemId::ShuttleManual => Place::Inside(EntityId::Furniture(FurnId::BookShelves)),
        ItemId::Dust => Place::Nowhere,
    }
}

/// Where the world keeps each entity at the start. What the player carries
/// at the start the world keeps nowhere.
pub open spec fn initial_place(id: EntityId) -> Place {
    match id {
        EntityId::Furniture(furniture) => furniture_place(furniture),
        EntityId::Item(item) => item_place(item),
        EntityId::Dust => Place::Nowhere,
    }
}

/// At the start what lies in a room is kept in that room, and its list
/// names nothing twice.
pub proof fn lemma_room_list_places(room: RoomIdentifier)
    ensures
        forall|i: int|
            0 <= i < room_entities(room).len() ==> initial_place(
                #[trigger] room_entities(room)[i],
            ) == Place::Room(room),
        forall|i: int, j: int|
            #![trigger room_entities(room)[i], room_entities(room)[j]]
            0 <= i < j < room_entities(room).len() ==> room_entities(room)[i] != room_entities(
                room,
            )[j],
{
}

/// At the start what a piece of furniture holds is kept inside it, and its
/// contents name nothing twice.
pub proof fn lemma_furniture_contents_places(id: FurnId)
    ensures
        forall|i: int|
            0 <= i < furniture_contents(id).len() ==> initial_place(
                #[trigger] furniture_contents(id)[i],
            ) == Place::Inside(EntityId::Furniture(id)),
        forall|i: int, j: int|
            #![trigger furniture_contents(id)[i], furniture_contents(id)[j]]
            0 <= i < j < furniture_contents(id).len() ==> furniture_contents(id)[i]
                != furniture_contents(id)[j],
{
}

/// At the start what an item holds is kept inside it, and its contents name
/// nothing twice.
pub proof fn lemma_item_contents_places(id: ItemId)
    ensures
        forall|i: int|
            0 <= i < item_contents(id).len() ==> initial_place(#[trigger] item_contents(id)[i])
                == Place::Inside(EntityId::Item(id)),
        forall|i: int, j: int|
            #![trigger item_contents(id)[i], item_contents(id)[j]]
            0 <= i < j < item_contents(id).len() ==> item_contents(id)[i] != item_contents(id)[j],
{
}

/// The rooms and the entities of the start stand in declaration order.
pub proof fn lemma_initial_order()
    ensures
        initial_world().rooms.len() == RoomIdentifier::every().len(),
        initial_world().entities.len() == FurnId::every().len() + ItemId::every().len(),
        forall|k: int|
            0 <= k < RoomIdentifier::every().len() ==> #[trigger] initial_world().rooms[k]
                == room_view(RoomIdentifier::every()[k]) && room_ordinal(
                RoomIdentifier::every()[k],
            ) == k,
        forall|k: int|
            0 <= k < FurnId::every().len() ==> #[trigger] initial_world().entities[k]
                == furniture_view(FurnId::every()[k]) && furniture_ordinal(FurnId::every()[k])
                == k,
        forall|k: int|
            0 <= k < ItemId::every().len() ==> #[trigger] initial_world().entities[FurnId::every().len()
                + k] == item_view(ItemId::every()[k]) && item_ordinal(ItemId::every()[k]) == k,
{
}

/// Makes a room as it is at the start.
pub fn create_room(id: RoomIdentifier) -> (made: RoomAttributes)
    ensures
        made@ == room_view(id),
{
    RoomAttributes {
        room_identifier: id,
        visited: id == RoomIdentifier::Storage,
        access: room_access_of(id),
        short_description: room_short_of(id).to_owned(),
        full_description: room_full_of(id).to_owned(),
        first_thoughts: room_first_of(id).to_owned(),
        entities: room_entities_of(id),
        connected_rooms: room_connections_of(id),
    }
}

impl World {
    /// Builds the world as it is at the start.
    pub fn initialize() -> (world: Self)
        ensures
            world@ == initial_world(),
    {
        let mut rooms: Vec<RoomAttributes> = Vec::new();
        let room_ids = RoomIdentifier::all();
        let mut i: usize = 0;
        while i < room_ids.len()
            invariant
                i <= room_ids.len(),
                room_ids@ == RoomIdentifier::every(),
                rooms@.len() == i,
                forall|k: int| 0 <= k < i ==> (#[trigger] rooms@[k])@ == room_view(room_ids@[k]),
            decreases room_ids.len() - i,
        {
            rooms.push(create_room(room_ids[i]));
            i += 1;
        }
        let mut entities: Vec<AnyEntity> = Vec::new();
        let furniture_ids = FurnId::all();
        let mut j: usize = 0;
        while j < furniture_ids.len()
            invariant
                j <= furniture_ids.len(),
                furniture_ids@ == FurnId::every(),
                entities@.len() == j,
                forall|k: int|
                    0 <= k < j ==> (#[trigger] entities@[k])@ == furniture_view(furniture_ids@[k]),
            decreases furniture_ids.len() - j,
        {
            entities.push(World::create_furniture(furniture_ids[j]));
            j += 1;
        }
        let item_ids = ItemId::all();
        let mut k: usize = 0;
        while k < item_ids.len()
            invariant
                k <= item_ids.len(),
                item_ids@ == ItemId::every(),
                furniture_ids@ == FurnId::every(),
                entities@.len() == furniture_ids@.len() + k,
                forall|n: int|
                    0 <= n < furniture_ids@.len() ==> (#[trigger] entities@[n])@ == furniture_view(
                        furniture_ids@[n],
                    ),
                forall|n: int|
                    0 <= n < k ==> (#[trigger] entities@[furniture_ids@.len() + n])@ == item_view(
                        item_ids@[n],
                    ),
            decreases item_ids.len() - k,
        {
            entities.push(World::create_item(item_ids[k]));
            k += 1;
        }
        let world = World { rooms, entities };
        assert(world@.rooms =~= initial_world().rooms);
        assert forall|n: int| 0 <= n < world@.entities.len() implies world@.entities[n]
            == initial_world().entities[n] by {
            if n >= furniture_ids@.len() {
                let m = n - furniture_ids@.len();
                assert(entities@[furniture_ids@.len() + m]@ == item_view(item_ids@[m]));
            }
        }
        assert(world@.entities =~= initial_world().entities);
        world
    }

    /// Makes a piece of furniture as it is at the start. The tap of the
    /// sink is off.
    pub fn create_furniture(id: FurnId) -> (made: AnyEntity)
        ensures
            made@ == furniture_view(id),
            made matches AnyEntity::Sink(sink) ==> !sink.tap_is_on,
    {
        match id {
            FurnId::Illuminator => AnyEntity::Passive(
                PassiveEntity::new(
                    EntityId::Furniture(id),
                    furniture_name_of(id).to_owned(),
                    furniture_aliases_of(id),
                    furniture_description_of(id).to_owned(),
                ),
            ),
            FurnId::StorageShelf => AnyEntity::Holder(Holder::Furniture(
                Furniture::new(
                    EntityId::Furniture(id),
                    furniture_name_of(id).to_owned(),
                    furniture_aliases_of(id),
                    furniture_description_of(id).to_owned(),
                    furniture_contents_of(id),
                ),
            )),
            FurnId::MessTable => AnyEntity::Holder(Holder::Furniture(
                Furniture::new(
                    EntityId::Furniture(id),
                    furniture_name_of(id).to_owned(),
                    furniture_aliases_of(id),
                    furniture_description_of(id).to_owned(),
                    furniture_contents_of(id),
                ),
            )),
            FurnId::NorthMessTable => AnyEntity::Holder(Holder::Furniture(
                Furniture::new(
                    EntityId::Furniture(id),
                    furniture_name_of(id).to_owned(),
                    furniture_aliases_of(id),
                    furniture_description_of(id).to_owned(),
                    furniture_contents_of(id),
                ),
            )),
            FurnId::Counter => AnyEntity::Holder(Holder::Furniture(
                Furniture::new(
                    EntityId::Furniture(id),
                    furniture_name_of(id).to_owned(),
                    furniture_aliases_of(id),
                    furniture_description_of(id).to_owned(),
                    furniture_contents_of(id),
                ),
            )),
            FurnId::CoffeeMachine => AnyEntity::Holder(Holder::Furniture(
                Furniture::new(
                    EntityId::Furniture(id),
                    furniture_name_of(id).to_owned(),
                    furniture_aliases_of(id),
                    furniture_description_of(id).to_owned(),
                    furniture_contents_of(id),
                ),
            )),
            FurnId::FoodPrinter => AnyEntity::Holder(Holder::Furniture(
                Furniture::new(
                    EntityId::Furniture(id),
                    furniture_name_of(id).to_owned(),
                    furniture_aliases_of(id),
                    furniture_description_of(id).to_owned(),
                    furniture_contents_of(id),
                ),
            )),
            FurnId::Sink => AnyEntity::Sink(
                Sink::new(
                    EntityId::Furniture(id),
                    furniture_name_of(id).to_owned(),
                    furniture_aliases_of(id),
                    furniture_description_of(id).to_owned(),
                    furniture_contents_of(id),
                ),
            ),
            FurnId::BosunDesk => AnyEntity::Holder(Holder::Furniture(
                Furniture::new(
                    EntityId::Furniture(id),
                    furniture_name_of(id).to_owned(),
                    furniture_aliases_of(id),
                    furniture_description_of(id).to_owned(),
                    furniture_contents_of(id),
                ),
            )),
            FurnId::BookShelves => AnyEntity::Holder(Holder::Furniture(
                Furniture::new(
                    EntityId::Furniture(id),
                    furniture_name_of(id).to_owned(),
                    furniture_aliases_of(id),
                    furniture_description_of(id).to_owned(),
                    furniture_contents_of(id),
                ),
            )),
            FurnId::CaptainsIlluminator => AnyEntity::Passive(
                PassiveEntity::new(
                    EntityId::Furniture(id),
                    furniture_name_of(id).to_owned(),
                    furniture_aliases_of(id),
                    furniture_description_of(id).to_owned(),
                ),
            ),
            FurnId::CaptainsDesk => AnyEntity::Holder(Holder::Furniture(
                Furniture::new(
                    EntityId::Furniture(id),
                    furniture_name_of(id).to_owned(),
                    furniture_aliases_of(id),
                    furniture_description_of(id).to_owned(),
                    furniture_contents_of(id),
                ),
            )),
            FurnId::NavigationComputer => AnyEntity::NavigationComputer(
                NavigationComputer::new(
                    EntityId::Furniture(id),
                    furniture_name_of(id).to_owned(),
                    furniture_aliases_of(id),
                    furniture_description_of(id).to_owned(),
                    furniture_contents_of(id),
                ),
            ),
            FurnId::MainTerminal => AnyEntity::MainTerminal(
                MainTerminal::new(
                    EntityId::Furniture(id),
                    furniture_name_of(id).to_owned(),
                    furniture_aliases_of(id),
                    furniture_description_of(id).to_owned(),
                    furniture_contents_of(id),
                ),
            ),
            FurnId::MainEngine => AnyEntity::Passive(
                PassiveEntity::new(
                    EntityId::Furniture(id),
                    furniture_name_of(id).to_owned(),
                    furniture_aliases_of(id),
                    furniture_description_of(id).to_owned(),
                ),
            ),
            FurnId::FuelTankA => AnyEntity::Holder(Holder::Furniture(
                Furniture::new(
                    EntityId::Furniture(id),
                    furniture_name_of(id).to_owned(),
                    furniture_aliases_of(id),
                    furniture_description_of(id).to_owned(),
                    furniture_contents_of(id),
                ),
            )),
            FurnId::FuelTankB => AnyEntity::Holder(Holder::Furniture(
                Furniture::new(
                    EntityId::Furniture(id),
                    furniture_name_of(id).to_owned(),
                    furniture_aliases_of(id),
                    furniture_description_of(id).to_owned(),
                    furniture_contents_of(id),
                ),
            )),
            FurnId::EmergencyLocker => AnyEntity::Holder(Holder::Furniture(
                Furniture::new(
                    EntityId::Furniture(id),
                    furniture_name_of(id).to_owned(),
                    furniture_aliases_of(id),
                    furniture_description_of(id).to_owned(),
                    furniture_contents_of(id),
                ),
            )),
            FurnId::WarningSign => AnyEntity::Passive(
                PassiveEntity::new(
                    EntityId::Furniture(id),
                    furniture_name_of(id).to_owned(),
                    furniture_aliases_of(id),
                    furniture_description_of(id).to_owned(),
                ),
            ),
            FurnId::WarningSignB => AnyEntity::Passive(
                PassiveEntity::new(
                    EntityId::Furniture(id),
                    furniture_name_of(id).to_owned(),
                    furniture_aliases_of(id),
                    furniture_description_of(id).to_owned(),
                ),
            ),
            FurnId::Dust => AnyEntity::Holder(Holder::Furniture(
                Furniture::new(
                    EntityId::Furniture(id),
                    furniture_name_of(id).to_owned(),
                    furniture_aliases_of(id),
                    furniture_description_of(id).to_owned(),
                    furniture_contents_of(id),
                ),
            )),
        }
    }

    /// Makes an item as it is at the start.
    pub fn create_item(id: ItemId) -> (made: AnyEntity)
        ensures
            made@ == item_view(id),
            size_of(made) == item_size(id),
    {
        match id {
            ItemId::Bucket => AnyEntity::Holder(Holder::Container(
                Container::new(
                    EntityId::Item(id),
                    item_name_of(id).to_owned(),
                    item_aliases_of(id),
                    item_description_of(id).to_owned(),
                    item_contents_of(id),
                    Size::Medium,
                ),
            )),
            ItemId::SpaceRation => AnyEntity::Food(
                Food::new(
                    EntityId::Item(id),
                    item_name_of(id).to_owned(),
                    item_aliases_of(id),
                    item_description_of(id).to_owned(),
                ),
            ),
            ItemId::WaterBottle => AnyEntity::Drink(
                Drink::new(
                    EntityId::Item(id),
                    item_name_of(id).to_owned(),
                    item_aliases_of(id),
                    item_description_of(id).to_owned(),
                ),
            ),
            ItemId::EmptyBottle => AnyEntity::Item(
                Item::new(
                    EntityId::Item(id),
                    item_name_of(id).to_owned(),
                    item_aliases_of(id),
                    item_description_of(id).to_owned(),
                    Size::Small,
                ),
            ),
            ItemId::SecretBottle => AnyEntity::Item(
                Item::new(
                    EntityId::Item(id),
                    item_name_of(id).to_owned(),
                    item_aliases_of(id),
                    item_description_of(id).to_owned(),
                    Size::Small,
                ),
            ),
            ItemId::CounterNote => AnyEntity::TextItem(
                TextItem::new(
                    EntityId::Item(id),
                    item_name_of(id).to_owned(),
                    item_aliases_of(id),
                    item_description_of(id).to_owned(),
                    ITEM_COUNTER_NOTE_TEXT.to_owned(),
                ),
            ),
            ItemId::Biscuits => AnyEntity::Food(
                Food::new(
                    EntityId::Item(id),
                    item_name_of(id).to_owned(),
                    item_aliases_of(id),
                    item_description_of(id).to_owned(),
                ),
            ),
            ItemId::Plate => AnyEntity::Holder(Holder::Container(
                Container::new(
                    EntityId::Item(id),
                    item_name_of(id).to_owned(),
                    item_aliases_of(id),
                    item_description_of(id).to_owned(),
                    item_contents_of(id),
                    Size::Small,
                ),
            )),
            ItemId::FoodSurrogateBottle => AnyEntity::Food(
                Food::new(
                    EntityId::Item(id),
                    item_name_of(id).to_owned(),
                    item_aliases_of(id),
                    item_description_of(id).to_owned(),
                ),
            ),
            ItemId::Fork => AnyEntity::Item(
                Item::new(
                    EntityId::Item(id),
                    item_name_of(id).to_owned(),
                    item_aliases_of(id),
                    item_description_of(id).to_owned(),
                    Size::Small,
                ),
            ),
            ItemId::LuckyCoin => AnyEntity::Item(
                Item::new(
                    EntityId::Item(id),
                    item_name_of(id).to_owned(),
                    item_aliases_of(id),
                    item_description_of(id).to_owned(),
                    Size::Small,
                ),
            ),
            ItemId::AssistantCard => AnyEntity::Item(
                Item::new(
                    EntityId::Item(id),
                    item_name_of(id).to_owned(),
                    item_aliases_of(id),
                    item_description_of(id).to_owned(),
                    Size::Small,
                ),
            ),
            ItemId::BosunCard => AnyEntity::Item(
                Item::new(
                    EntityId::Item(id),
                    item_name_of(id).to_owned(),
                    item_aliases_of(id),
                    item_description_of(id).to_owned(),
                    Size::Small,
                ),
            ),
            ItemId::CaptainCard => AnyEntity::Item(
                Item::new(
                    EntityId::Item(id),
                    item_name_of(id).to_owned(),
                    item_aliases_of(id),
                    item_description_of(id).to_owned(),
                    Size::Small,
                ),
            ),
            ItemId::SpaceSuit => AnyEntity::Item(
                Item::new(
                    EntityId::Item(id),
                    item_name_of(id).to_owned(),
                    item_aliases_of(id),
                    item_description_of(id).to_owned(),
                    Size::Medium,
                ),
            ),
            ItemId::ShuttleManual => AnyEntity::TextItem(
                TextItem::new(
                    EntityId::Item(id),
                    item_name_of(id).to_owned(),
                    item_aliases_of(id),
                    item_description_of(id).to_owned(),
                    ITEM_SHUTTLE_MANUAL_TEXT.to_owned(),
                ),
            ),
            ItemId::Dust => AnyEntity::Item(
                Item::new(
                    EntityId::Item(id),
                    item_name_of(id).to_owned(),
                    item_aliases_of(id),
                    item_description_of(id).to_owned(),
                    Size::Small,
                ),
            ),
        }
    }
}

} // verus!
