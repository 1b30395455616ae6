//! Rooms, directions, passages and access ranks.

use crate::entity::EntityId;
use vstd::prelude::*;

verus! {

/// The rooms of the shuttle and the station's airlock.
#[derive(Debug, Eq, PartialEq, Hash, Clone, Copy, Structural)]
pub enum RoomIdentifier {
    Storage,
    NorthMess,
    Mess,
    SouthMess,
    MeetingRoom,
    Bridge,
    PassengersRoom,
    AirlockCorridor,
    AirlockA,
    OpenSpaceAirlockA,
    AirlockB,
    OpenSpaceAirlockB,
    TechCorridor,
    TechCorridorNorth,
    EngineRoom,
    BosunsRoom,
    CaptainsRoom,
    StorageHold,
    CrewCabins,
    StationAirlock,
}

impl RoomIdentifier {
    /// Every room identifier, in declaration order.
    pub open spec fn every() -> Seq<RoomIdentifier> {
        seq![
            RoomIdentifier::Storage,
            RoomIdentifier::NorthMess,
            RoomIdentifier::Mess,
            RoomIdentifier::SouthMess,
            RoomIdentifier::MeetingRoom,
            RoomIdentifier::Bridge,
            RoomIdentifier::PassengersRoom,
            RoomIdentifier::AirlockCorridor,
            RoomIdentifier::AirlockA,
            RoomIdentifier::OpenSpaceAirlockA,
            RoomIdentifier::AirlockB,
            RoomIdentifier::OpenSpaceAirlockB,
            RoomIdentifier::TechCorridor,
            RoomIdentifier::TechCorridorNorth,
            RoomIdentifier::EngineRoom,
            RoomIdentifier::BosunsRoom,
            RoomIdentifier::CaptainsRoom,
            RoomIdentifier::StorageHold,
            RoomIdentifier::CrewCabins,
            RoomIdentifier::StationAirlock,
        ]
    }

    /// Every room identifier, in declaration order.
    pub fn all() -> (rooms: Vec<RoomIdentifier>)
        ensures
            rooms@ == Self::every(),
    {
        let rooms = vec![
            RoomIdentifier::Storage,
            RoomIdentifier::NorthMess,
            RoomIdentifier::Mess,
            RoomIdentifier::SouthMess,
            RoomIdentifier::MeetingRoom,
            RoomIdentifier::Bridge,
            RoomIdentifier::PassengersRoom,
            RoomIdentifier::AirlockCorridor,
            RoomIdentifier::AirlockA,
            RoomIdentifier::OpenSpaceAirlockA,
            RoomIdentifier::AirlockB,
            RoomIdentifier::OpenSpaceAirlockB,
            RoomIdentifier::TechCorridor,
            RoomIdentifier::TechCorridorNorth,
            RoomIdentifier::EngineRoom,
            RoomIdentifier::BosunsRoom,
            RoomIdentifier::CaptainsRoom,
            RoomIdentifier::StorageHold,
            RoomIdentifier::CrewCabins,
            RoomIdentifier::StationAirlock,
        ];
        assert(rooms@ =~= Self::every());
        rooms
    }

    /// Whether the room lies in open space, where nobody breathes.
    pub open spec fn is_vacuum(self) -> bool {
        self == RoomIdentifier::OpenSpaceAirlockA || self == RoomIdentifier::OpenSpaceAirlockB
    }
}

/// The directions a passage can lead in.
#[derive(Debug, PartialEq, Eq, Clone, Copy, Structural)]
pub enum Direction {
    Stay,
    North,
    East,
    South,
    West,
    Up,
    Down,
}

impl Default for Direction {
    fn default() -> (direction: Direction)
        ensures
            direction == Direction::Stay,
    {
        Direction::Stay
    }
}

impl Direction {
    /// The direction's name as it is shown to the player.
    pub open spec fn label_text(self) -> Seq<char> {
        match self {
            Direction::Stay => "Stay"@,
            Direction::North => "North"@,
            Direction::East => "East"@,
            Direction::South => "South"@,
            Direction::West => "West"@,
            Direction::Up => "Up"@,
            Direction::Down => "Down"@,
        }
    }

    /// The direction's name as it is shown to the player.
    pub fn label(&self) -> (text: &'static str)
        ensures
            text@ == self.label_text(),
    {
        match self {
            Direction::Stay => "Stay",
            Direction::North => "North",
            Direction::East => "East",
            Direction::South => "South",
            Direction::West => "West",
            Direction::Up => "Up",
            Direction::Down => "Down",
        }
    }
}

/// The clearance that a door asks for, or that a card grants. The variants
/// stand in rising order of rank.
#[derive(Debug, PartialEq, Eq, PartialOrd, Ord, Clone, Copy, Structural)]
pub enum Access {
    Unranked,
    D,
    C,
    B,
    A,
    Broken,
}

impl Access {
    /// The rank of a clearance: Unranked < D < C < B < A < Broken.
    pub open spec fn rank(self) -> int {
        match self {
            Access::Broken => 6,
            Access::A => 5,
            Access::B => 4,
            Access::C => 3,
            Access::D => 2,
            Access::Unranked => 0,
        }
    }

    /// The rank of a clearance as a number.
    pub fn value(&self) -> (v: i32)
        ensures
            v == self.rank(),
    {
        match self {
            Access::Broken => 6,
            Access::A => 5,
            Access::B => 4,
            Access::C => 3,
            Access::D => 2,
            Access::Unranked => 0,
        }
    }

    /// The higher of two clearances.
    pub open spec fn higher(self, other: Access) -> Access {
        if self.rank() >= other.rank() {
            self
        } else {
            other
        }
    }

    /// The higher of two clearances.
    pub fn higher_of(self, other: Access) -> (top: Access)
        ensures
            top == self.higher(other),
    {
        if self.value() >= other.value() {
            self
        } else {
            other
        }
    }
}

/// How two rooms are joined: by a door that checks clearance, or freely.
#[derive(Debug, PartialEq, Eq, Clone, Copy, Structural)]
pub enum PassageType {
    Door,
    Free,
}

/// One room: its texts, its required clearance, what lies in it and where its
/// passages lead.
pub struct RoomAttributes {
    pub room_identifier: RoomIdentifier,
    pub visited: bool,
    pub access: Access,
    pub short_description: String,
    pub full_description: String,
    pub first_thoughts: String,
    pub entities: Vec<EntityId>,
    pub connected_rooms: Vec<(Direction, PassageType, RoomIdentifier)>,
}

/// A room as a mathematical value.
pub struct RoomView {
    pub room_identifier: RoomIdentifier,
    pub visited: bool,
    pub access: Access,
    pub short_description: Seq<char>,
    pub full_description: Seq<char>,
    pub first_thoughts: Seq<char>,
    pub entities: Seq<EntityId>,
    pub connected_rooms: Seq<(Direction, PassageType, RoomIdentifier)>,
}

impl View for RoomAttributes {
    type V = RoomView;

    open spec fn view(&self) -> RoomView {
        RoomView {
            room_identifier: self.room_identifier,
            visited: self.visited,
            access: self.access,
            short_description: self.short_description@,
            full_description: self.full_description@,
            first_thoughts: self.first_thoughts@,
            entities: self.entities@,
            connected_rooms: self.connected_rooms@,
        }
    }
}

impl RoomView {
    /// The index of the first connection that leads in the given direction,
    /// looking from `start` on.
    pub open spec fn passage_from(self, direction: Direction, start: int) -> Option<int>
        decreases self.connected_rooms.len() - start,
    {
        if start < 0 || start >= self.connected_rooms.len() {
            None
        } else if self.connected_rooms[start].0 == direction {
            Some(start)
        } else {
            self.passage_from(direction, start + 1)
        }
    }

    /// Whether no two connections of the room lead in the same direction.
    pub open spec fn unique_passages(self) -> bool {
        forall|i: int, j: int|
            0 <= i < j < self.connected_rooms.len() ==> (#[trigger] self.connected_rooms[i]).0 != (
            #[trigger] self.connected_rooms[j]).0
    }

    /// Where the first connection in the given direction leads, and through
    /// what kind of passage.
    pub open spec fn adjacent(self, direction: Direction) -> Option<(RoomIdentifier, PassageType)> {
        match self.passage_from(direction, 0) {
            Some(i) => Some((self.connected_rooms[i].2, self.connected_rooms[i].1)),
            None => None,
        }
    }
}

/// What `passage_from` finds is a connection in the direction, and the first
/// one from `start` on; it finds none only where there is none.
pub proof fn lemma_passage_from(room: RoomView, direction: Direction, start: int)
    requires
        0 <= start,
    ensures
        room.passage_from(direction, start) matches Some(i) ==> start <= i
            < room.connected_rooms.len() && room.connected_rooms[i].0 == direction && forall|
            j: int,
        | start <= j < i ==> room.connected_rooms[j].0 != direction,
        room.passage_from(direction, start) is None ==> forall|j: int|
            start <= j < room.connected_rooms.len() ==> room.connected_rooms[j].0 != direction,
    decreases room.connected_rooms.len() - start,
{
    if start < room.connected_rooms.len() && room.connected_rooms[start].0 != direction {
        lemma_passage_from(room, direction, start + 1);
    }
}

impl RoomAttributes {
    /// Where the first connection in the given direction leads, and through
    /// what kind of passage.
    pub fn adjacent(&self, direction: Direction) -> (found: Option<(RoomIdentifier, &PassageType)>)
        ensures
            match found {
                Some((destination, passage)) => self@.adjacent(direction) == Some(
                    (destination, *passage),
                ),
                None => self@.adjacent(direction) is None,
            },
    {
        let mut i: usize = 0;
        while i < self.connected_rooms.len()
            invariant
                i <= self.connected_rooms.len(),
                self@.passage_from(direction, 0) == self@.passage_from(direction, i as int),
            decreases self.connected_rooms.len() - i,
        {
            let connection = &self.connected_rooms[i];
            if connection.0 == direction {
                return Some((connection.2, &connection.1));
            }
            i += 1;
        }
        None
    }
}

} // verus!
