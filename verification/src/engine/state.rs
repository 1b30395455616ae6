//! The state of one play session.

use crate::engine::shuttle::{answer_text, ShuttleState};
use crate::entity::furniture::main_terminal::{parsed_command, MainTerminalCommand};
use crate::entity::item::ItemId;
use crate::entity::EntityId;
use crate::world::content::initial_world;
use crate::world::data::{World, WorldView};
use crate::world::room::{Direction, PassageType, RoomIdentifier, RoomView};
use vstd::prelude::*;

verus! {

/// What changes about a room while the game is played.
#[derive(Debug, PartialEq, Eq, Clone, Copy, Structural)]
pub struct RoomState {
    pub is_explored: bool,
}

/// The state of one play session: where the player is, what the player
/// carries, the world, the shuttle and whether the game is lost.
pub struct GameState {
    pub current_room: RoomIdentifier,
    pub room_states: Vec<(RoomIdentifier, RoomState)>,
    pub world: World,
    pub inventory: Vec<ItemId>,
    pub shuttle_state: ShuttleState,
    pub lost: bool,
}

/// The state of a session as a mathematical value.
pub struct GameStateView {
    pub current_room: RoomIdentifier,
    pub room_states: Seq<(RoomIdentifier, RoomState)>,
    pub world: WorldView,
    pub inventory: Seq<ItemId>,
    pub shuttle_state: ShuttleState,
    pub lost: bool,
}

impl View for GameState {
    type V = GameStateView;

    open spec fn view(&self) -> GameStateView {
        GameStateView {
            current_room: self.current_room,
            room_states: self.room_states@,
            world: self.world@,
            inventory: self.inventory@,
            shuttle_state: self.shuttle_state,
            lost: self.lost,
        }
    }
}

/// The passage that a docked shuttle opens from its airlock.
pub open spec fn station_link() -> (Direction, PassageType, RoomIdentifier) {
    (Direction::North, PassageType::Free, RoomIdentifier::StationAirlock)
}

impl WorldView {
    /// The world after the shuttle has docked: airlock A has one more
    /// connection, which leads north into the station. Where the airlock has
    /// a connection to the north already, none is added: a room has at most
    /// one connection in each direction.
    pub open spec fn docked(self) -> WorldView {
        match self.room_index(RoomIdentifier::AirlockA) {
            Some(i) => if self.rooms[i].adjacent(Direction::North) is None {
                WorldView {
                    rooms: self.rooms.update(
                        i,
                        RoomView {
                            connected_rooms: self.rooms[i].connected_rooms.push(station_link()),
                            ..self.rooms[i]
                        },
                    ),
                    ..self
                }
            } else {
                self
            },
            None => self,
        }
    }
}

impl GameStateView {
    /// The room the player is in.
    pub open spec fn here(self) -> Option<RoomView> {
        self.world.room(self.current_room)
    }

    /// What the terminal answers to a coded command: the parse error in
    /// words, or what the shuttle answers.
    pub open spec fn shuttle_answer(self, code: Seq<char>) -> Result<Seq<char>, Seq<char>> {
        match parsed_command(code) {
            Ok(command) => self.shuttle_state.outcome(command).as_result(),
            Err(error) => Err(error.message_text()),
        }
    }

    /// The session after a coded command. A code that is not understood
    /// changes nothing. Otherwise the shuttle takes the command; if it docks,
    /// the world gets the passage to the station; if it is lost, so is the
    /// game.
    pub open spec fn after_shuttle_command(self, code: Seq<char>) -> GameStateView {
        match parsed_command(code) {
            Ok(command) => {
                let outcome = self.shuttle_state.outcome(command);
                GameStateView {
                    shuttle_state: self.shuttle_state.after(command),
                    lost: self.lost || outcome is Lost,
                    world: if outcome is Docked {
                        self.world.docked()
                    } else {
                        self.world
                    },
                    ..self
                }
            },
            Err(_) => self,
        }
    }
}

impl GameStateView {
    /// The session as it starts in the given room: nothing explored, the
    /// world as it is at the start, the assistant's card in the inventory,
    /// the shuttle at rest, the game not lost.
    pub open spec fn initial(starting_room: RoomIdentifier) -> GameStateView {
        GameStateView {
            current_room: starting_room,
            room_states: RoomIdentifier::every().map_values(
                |id: RoomIdentifier| (id, RoomState { is_explored: false }),
            ),
            world: initial_world(),
            inventory: seq![ItemId::AssistantCard],
            shuttle_state: ShuttleState::initial(),
            lost: false,
        }
    }
}

impl GameState {
    /// Starts a session in the given room.
    pub fn new(starting_room: RoomIdentifier) -> (state: Self)
        ensures
            state@ == GameStateView::initial(starting_room),
    {
        let world = World::initialize();
        let mut room_states: Vec<(RoomIdentifier, RoomState)> = Vec::new();
        let room_ids = RoomIdentifier::all();
        let mut i: usize = 0;
        while i < room_ids.len()
            invariant
                i <= room_ids.len(),
                room_ids@ == RoomIdentifier::every(),
                room_states@.len() == i,
                forall|k: int|
                    0 <= k < i ==> #[trigger] room_states@[k] == (
                        room_ids@[k],
                        RoomState { is_explored: false },
                    ),
            decreases room_ids.len() - i,
        {
            room_states.push((room_ids[i], RoomState { is_explored: false }));
            i += 1;
        }
        let inventory = vec![ItemId::AssistantCard];
        let state = GameState {
            current_room: starting_room,
            room_states,
            world,
            inventory,
            shuttle_state: ShuttleState::new(),
            lost: false,
        };
        assert(state@.room_states =~= GameStateView::initial(starting_room).room_states);
        assert(state@.inventory =~= GameStateView::initial(starting_room).inventory);
        state
    }

    /// Whether the player has been in the current room before.
    pub fn was_current_room_visited(&self) -> (visited: bool)
        ensures
            visited == (match self@.here() {
                Some(room) => room.visited,
                None => false,
            }),
    {
        self.world.was_visited(&self.current_room)
    }

    /// The short description of the current room.
    pub fn current_room_description(&self) -> (text: &str)
        ensures
            text@ == (match self@.here() {
                Some(room) => room.short_description,
                None => "Unknown room"@,
            }),
    {
        self.world.get_room_short_description(&self.current_room)
    }

    /// What the player thinks on entering the current room for the first
    /// time.
    pub fn current_room_first_thoughts(&self) -> (text: &str)
        ensures
            text@ == (match self@.here() {
                Some(room) => room.first_thoughts,
                None => "Unknown room"@,
            }),
    {
        self.world.get_room_first_thoughts(&self.current_room)
    }

    /// What lies in the current room.
    pub fn current_room_entities(&self) -> (found: Option<&Vec<EntityId>>)
        ensures
            match found {
                Some(list) => self@.here() matches Some(room) && room.entities == list@,
                None => self@.here() is None,
            },
    {
        self.world.get_room_entities(&self.current_room)
    }

    /// Hands a coded command to the shuttle and lets the session follow what
    /// it does: docking opens the passage to the station, a lost shuttle
    /// loses the game.
    pub fn enter_shuttle_command(&mut self, command: &str) -> (answer: Result<String, String>)
        ensures
            answer_text(answer) == old(self)@.shuttle_answer(command@),
            final(self)@ == old(self)@.after_shuttle_command(command@),
    {
        match MainTerminalCommand::from_string(command) {
            Ok(parsed) => {
                let docks = self.shuttle_state.docks(parsed);
                let loses = self.shuttle_state.loses(parsed);
                let answer = self.shuttle_state.handle_command(parsed);
                if docks {
                    match self.world.room_position(&RoomIdentifier::AirlockA) {
                        Some(i) => {
                            if self.world.rooms[i].adjacent(Direction::North).is_none() {
                                self.world.rooms[i].connected_rooms.push(
                                    (
                                        Direction::North,
                                        PassageType::Free,
                                        RoomIdentifier::StationAirlock,
                                    ),
                                );
                                assert(self.world@.rooms =~= old(self).world@.docked().rooms);
                                assert(self.world@.entities =~= old(self).world@.entities);
                            }
                        },
                        None => {},
                    }
                }
                if loses {
                    self.lost = true;
                }
                answer
            },
            Err(error) => Err(error.message().to_owned()),
        }
    }
}

} // verus!
