//! The world: its rooms and the registry of its entities.

use crate::entity::furniture::navigation_computer::NavigationComputer;
use crate::entity::item::food::Food;
use crate::entity::item::text_item::TextItem;
use crate::entity::{AnyEntity, Entity, EntityId, EntityView, Holder};
use crate::world::room::{Access, Direction, PassageType, RoomAttributes, RoomIdentifier, RoomView};
use vstd::prelude::*;

verus! {

/// The rooms and the registry of entities. A room or an entity is looked up
/// by its identifier; where several carry the same one, the first counts.
pub struct World {
    pub rooms: Vec<RoomAttributes>,
    pub entities: Vec<AnyEntity>,
}

/// The world as a mathematical value.
pub struct WorldView {
    pub rooms: Seq<RoomView>,
    pub entities: Seq<EntityView>,
}

impl View for World {
    type V = WorldView;

    open spec fn view(&self) -> WorldView {
        WorldView {
            rooms: self.rooms@.map_values(|r: RoomAttributes| r@),
            entities: self.entities@.map_values(|e: AnyEntity| e@),
        }
    }
}

/// The index of the first room with the given identifier, looking from
/// `start` on.
pub open spec fn room_from(rooms: Seq<RoomView>, id: RoomIdentifier, start: int) -> Option<int>
    decreases rooms.len() - start,
{
    if start < 0 || start >= rooms.len() {
        None
    } else if rooms[start].room_identifier == id {
        Some(start)
    } else {
        room_from(rooms, id, start + 1)
    }
}

/// The index of the first entity with the given identifier, looking from
/// `start` on.
pub open spec fn entity_from(entities: Seq<EntityView>, id: EntityId, start: int) -> Option<int>
    decreases entities.len() - start,
{
    if start < 0 || start >= entities.len() {
        None
    } else if entities[start].id == id {
        Some(start)
    } else {
        entity_from(entities, id, start + 1)
    }
}

impl WorldView {
    /// The index of the room with the given identifier.
    pub open spec fn room_index(self, id: RoomIdentifier) -> Option<int> {
        room_from(self.rooms, id, 0)
    }

    /// The room with the given identifier.
    pub open spec fn room(self, id: RoomIdentifier) -> Option<RoomView> {
        match self.room_index(id) {
            Some(i) => Some(self.rooms[i]),
            None => None,
        }
    }

    /// The index of the entity with the given identifier.
    pub open spec fn entity_index(self, id: EntityId) -> Option<int> {
        entity_from(self.entities, id, 0)
    }

    /// The entity with the given identifier.
    pub open spec fn entity(self, id: EntityId) -> Option<EntityView> {
        match self.entity_index(id) {
            Some(i) => Some(self.entities[i]),
            None => None,
        }
    }

    /// The world with the entity list of one room replaced.
    pub open spec fn with_room_entities(self, i: int, entities: Seq<EntityId>) -> WorldView {
        WorldView {
            rooms: self.rooms.update(i, RoomView { entities, ..self.rooms[i] }),
            ..self
        }
    }

    /// The world with one entity replaced.
    pub open spec fn with_entity(self, i: int, entity: EntityView) -> WorldView {
        WorldView { entities: self.entities.update(i, entity), ..self }
    }
}

/// A room index that `room_from` finds lies within the rooms and names the
/// first room with that identifier.
pub proof fn lemma_room_from(rooms: Seq<RoomView>, id: RoomIdentifier, start: int)
    requires
        0 <= start,
    ensures
        room_from(rooms, id, start) matches Some(i) ==> start <= i < rooms.len()
            && rooms[i].room_identifier == id && forall|j: int|
            start <= j < i ==> rooms[j].room_identifier != id,
        room_from(rooms, id, start) is None ==> forall|j: int|
            start <= j < rooms.len() ==> rooms[j].room_identifier != id,
    decreases rooms.len() - start,
{
    if start < rooms.len() && rooms[start].room_identifier != id {
        lemma_room_from(rooms, id, start + 1);
    }
}

/// An entity index that `entity_from` finds lies within the registry and
/// names the first entity with that identifier.
pub proof fn lemma_entity_from(entities: Seq<EntityView>, id: EntityId, start: int)
    requires
        0 <= start,
    ensures
        entity_from(entities, id, start) matches Some(i) ==> start <= i < entities.len()
            && entities[i].id == id && forall|j: int| start <= j < i ==> entities[j].id != id,
        entity_from(entities, id, start) is None ==> forall|j: int|
            start <= j < entities.len() ==> entities[j].id != id,
    decreases entities.len() - start,
{
    if start < entities.len() && entities[start].id != id {
        lemma_entity_from(entities, id, start + 1);
    }
}

impl World {
    /// The index of the room with the given identifier.
    pub fn room_position(&self, room_id: &RoomIdentifier) -> (found: Option<usize>)
        ensures
            match found {
                Some(i) => self@.room_index(*room_id) == Some(i as int) && i < self.rooms.len(),
                None => self@.room_index(*room_id) is None,
            },
    {
        let mut i: usize = 0;
        while i < self.rooms.len()
            invariant
                i <= self.rooms.len(),
                room_from(self@.rooms, *room_id, 0) == room_from(self@.rooms, *room_id, i as int),
            decreases self.rooms.len() - i,
        {
            if self.rooms[i].room_identifier == *room_id {
                return Some(i);
            }
            i += 1;
        }
        None
    }

    /// The index of the entity with the given identifier.
    pub fn entity_position(&self, entity_id: EntityId) -> (found: Option<usize>)
        ensures
            match found {
                Some(i) => self@.entity_index(entity_id) == Some(i as int) && i
                    < self.entities.len(),
                None => self@.entity_index(entity_id) is None,
            },
    {
        let mut i: usize = 0;
        while i < self.entities.len()
            invariant
                i <= self.entities.len(),
                entity_from(self@.entities, entity_id, 0) == entity_from(
                    self@.entities,
                    entity_id,
                    i as int,
                ),
            decreases self.entities.len() - i,
        {
            if self.entities[i].get_id() == entity_id {
                return Some(i);
            }
            i += 1;
        }
        None
    }

    /// The entity with the given identifier.
    pub fn get_entity(&self, entity_id: EntityId) -> (found: Option<&AnyEntity>)
        ensures
            match found {
                Some(e) => self@.entity(entity_id) == Some(e@),
                None => self@.entity(entity_id) is None,
            },
    {
        match self.entity_position(entity_id) {
            Some(i) => Some(&self.entities[i]),
            None => None,
        }
    }

    /// Whether the room was visited; an unknown room was not.
    pub fn was_visited(&self, room_id: &RoomIdentifier) -> (visited: bool)
        ensures
            visited == (match self@.room(*room_id) {
                Some(room) => room.visited,
                None => false,
            }),
    {
        match self.room_position(room_id) {
            Some(i) => self.rooms[i].visited,
            None => false,
        }
    }

    /// Marks the room as visited; an unknown room changes nothing.
    pub fn set_visited(&mut self, room_id: &RoomIdentifier)
        ensures
            final(self)@ == (match old(self)@.room_index(*room_id) {
                Some(i) => WorldView {
                    rooms: old(self)@.rooms.update(
                        i,
                        RoomView { visited: true, ..old(self)@.rooms[i] },
                    ),
                    ..old(self)@
                },
                None => old(self)@,
            }),
    {
        match self.room_position(room_id) {
            Some(i) => {
                self.rooms[i].visited = true;
                assert(self@.rooms =~= old(self)@.rooms.update(
                    i as int,
                    RoomView { visited: true, ..old(self)@.rooms[i as int] },
                ));
                assert(self@.entities =~= old(self)@.entities);
            },
            None => {},
        }
    }

    /// The short description of the room.
    pub fn get_room_short_description(&self, room_id: &RoomIdentifier) -> (text: &str)
        ensures
            text@ == (match self@.room(*room_id) {
                Some(room) => room.short_description,
                None => "Unknown room"@,
            }),
    {
        match self.room_position(room_id) {
            Some(i) => self.rooms[i].short_description.as_str(),
            None => "Unknown room",
        }
    }

    /// What the player thinks on entering the room for the first time.
    pub fn get_room_first_thoughts(&self, room_id: &RoomIdentifier) -> (text: &str)
        ensures
            text@ == (match self@.room(*room_id) {
                Some(room) => room.first_thoughts,
                None => "Unknown room"@,
            }),
    {
        match self.room_position(room_id) {
            Some(i) => self.rooms[i].first_thoughts.as_str(),
            None => "Unknown room",
        }
    }

    /// What lies in the room.
    pub fn get_room_entities(&self, room_id: &RoomIdentifier) -> (found: Option<&Vec<EntityId>>)
        ensures
            match found {
                Some(list) => self@.room(*room_id) matches Some(room) && room.entities == list@,
                None => self@.room(*room_id) is None,
            },
    {
        match self.room_position(room_id) {
            Some(i) => Some(&self.rooms[i].entities),
            None => None,
        }
    }

    /// What lies in the room, to be changed in place.
    pub fn get_room_entities_mut(&mut self, room_id: &RoomIdentifier) -> (found: Option<
        &mut Vec<EntityId>,
    >)
        ensures
            match found {
                Some(list) => old(self)@.room_index(*room_id) matches Some(i) && list@ == old(
                    self,
                )@.rooms[i].entities && final(self)@ == old(self)@.with_room_entities(
                    i,
                    final(list)@,
                ),
                None => old(self)@.room_index(*room_id) is None && *final(self) == *old(self),
            },
    {
        match self.room_position(room_id) {
            Some(i) => {
                let list = &mut self.rooms[i].entities;
                proof {
                    let after = World { rooms: after_borrow(self.rooms), entities: self.entities };
                    assert(after@.rooms =~= old(self)@.with_room_entities(
                        i as int,
                        final(list)@,
                    ).rooms);
                    assert(after@.entities =~= old(self)@.entities);
                }
                Some(list)
            },
            None => None,
        }
    }

    /// The clearance that the room asks for; an unknown room asks for none.
    pub fn get_room_access(&self, room_id: &RoomIdentifier) -> (access: &Access)
        ensures
            *access == (match self@.room(*room_id) {
                Some(room) => room.access,
                None => Access::Unranked,
            }),
    {
        match self.room_position(room_id) {
            Some(i) => &self.rooms[i].access,
            None => &Access::Unranked,
        }
    }

    /// Where the first connection of the room in the given direction leads,
    /// and through what kind of passage.
    pub fn get_adjacent_room(&self, room_id: &RoomIdentifier, direction: Direction) -> (found:
        Option<(RoomIdentifier, &PassageType)>)
        ensures
            (match found {
                Some((destination, passage)) => Some((destination, *passage)),
                None => None,
            }) == (match self@.room(*room_id) {
                Some(room) => room.adjacent(direction),
                None => None,
            }),
    {
        match self.room_position(room_id) {
            Some(i) => self.rooms[i].adjacent(direction),
            None => None,
        }
    }

    /// The entity with the given identifier as a container, if it is registered
    /// and its kind contains.
    pub fn get_containable(&self, entity_id: EntityId) -> (facet: Option<&Holder>)
        ensures
            match facet {
                Some(inner) => self@.entity(entity_id) == Some(inner.model())
                    && inner.model().kind.is_containable(),
                None => !(self@.entity(entity_id) matches Some(e) && e.kind.is_containable()),
            },
    {
        match self.entity_position(entity_id) {
            Some(i) => self.entities[i].as_containable(),
            None => None,
        }
    }

    /// The entity with the given identifier as a container that can be changed,
    /// if it is registered and its kind contains. What is done to it
    /// is done to the registry's entity.
    pub fn get_containable_mut(&mut self, entity_id: EntityId) -> (facet: Option<&mut Holder>)
        ensures
            match facet {
                Some(inner) => old(self)@.entity_index(entity_id) matches Some(i) && old(
                    self,
                )@.entities[i] == inner.model() && inner.model().kind.is_containable() && final(self)@
                    == old(self)@.with_entity(i, final(inner).model()),
                None => !(old(self)@.entity(entity_id) matches Some(e) && e.kind.is_containable())
                    && *final(self) == *old(self),
            },
    {
        match self.entity_position(entity_id) {
            Some(i) => {
                if self.entities[i].as_containable().is_none() {
                    return None;
                }
                let facet = self.entities[i].as_containable_mut();
                proof {
                    let after = World { rooms: self.rooms, entities: after_borrow(self.entities) };
                    assert(after@.entities =~= old(self)@.entities.update(
                        i as int,
                        final(facet->0).model(),
                    ));
                    assert(after@.rooms =~= old(self)@.rooms);
                }
                facet
            },
            None => None,
        }
    }

    /// The entity with the given identifier as something to eat, if it is registered
    /// and its kind can be eaten.
    pub fn get_edible(&self, entity_id: EntityId) -> (facet: Option<&Food>)
        ensures
            match facet {
                Some(inner) => self@.entity(entity_id) == Some(inner.model())
                    && inner.model().kind.is_edible(),
                None => !(self@.entity(entity_id) matches Some(e) && e.kind.is_edible()),
            },
    {
        match self.entity_position(entity_id) {
            Some(i) => self.entities[i].as_edible(),
            None => None,
        }
    }

    /// The entity with the given identifier as something to eat that can be changed,
    /// if it is registered and its kind can be eaten. What is done to it
    /// is done to the registry's entity.
    pub fn get_edible_mut(&mut self, entity_id: EntityId) -> (facet: Option<&mut Food>)
        ensures
            match facet {
                Some(inner) => old(self)@.entity_index(entity_id) matches Some(i) && old(
                    self,
                )@.entities[i] == inner.model() && inner.model().kind.is_edible() && final(self)@
                    == old(self)@.with_entity(i, final(inner).model()),
                None => !(old(self)@.entity(entity_id) matches Some(e) && e.kind.is_edible())
                    && *final(self) == *old(self),
            },
    {
        match self.entity_position(entity_id) {
            Some(i) => {
                if self.entities[i].as_edible().is_none() {
                    return None;
                }
                let facet = self.entities[i].as_edible_mut();
                proof {
                    let after = World { rooms: self.rooms, entities: after_borrow(self.entities) };
                    assert(after@.entities =~= old(self)@.entities.update(
                        i as int,
                        final(facet->0).model(),
                    ));
                    assert(after@.rooms =~= old(self)@.rooms);
                }
                facet
            },
            None => None,
        }
    }

    /// The entity with the given identifier as something to read, if it is registered
    /// and its kind can be read.
    pub fn get_readable(&self, entity_id: EntityId) -> (facet: Option<&TextItem>)
        ensures
            match facet {
                Some(inner) => self@.entity(entity_id) == Some(inner.model())
                    && inner.model().kind.is_readable(),
                None => !(self@.entity(entity_id) matches Some(e) && e.kind.is_readable()),
            },
    {
        match self.entity_position(entity_id) {
            Some(i) => self.entities[i].as_readable(),
            None => None,
        }
    }

    /// The entity with the given identifier as something to read that can be changed,
    /// if it is registered and its kind can be read. What is done to it
    /// is done to the registry's entity.
    pub fn get_readable_mut(&mut self, entity_id: EntityId) -> (facet: Option<&mut TextItem>)
        ensures
            match facet {
                Some(inner) => old(self)@.entity_index(entity_id) matches Some(i) && old(
                    self,
                )@.entities[i] == inner.model() && inner.model().kind.is_readable() && final(self)@
                    == old(self)@.with_entity(i, final(inner).model()),
                None => !(old(self)@.entity(entity_id) matches Some(e) && e.kind.is_readable())
                    && *final(self) == *old(self),
            },
    {
        match self.entity_position(entity_id) {
            Some(i) => {
                if self.entities[i].as_readable().is_none() {
                    return None;
                }
                let facet = self.entities[i].as_readable_mut();
                proof {
                    let after = World { rooms: self.rooms, entities: after_borrow(self.entities) };
                    assert(after@.entities =~= old(self)@.entities.update(
                        i as int,
                        final(facet->0).model(),
                    ));
                    assert(after@.rooms =~= old(self)@.rooms);
                }
                facet
            },
            None => None,
        }
    }

    /// The entity with the given identifier as something to use, if it is registered
    /// and its kind can be used.
    pub fn get_usable(&self, entity_id: EntityId) -> (facet: Option<&NavigationComputer>)
        ensures
            match facet {
                Some(inner) => self@.entity(entity_id) == Some(inner.model())
                    && inner.model().kind.is_usable(),
                None => !(self@.entity(entity_id) matches Some(e) && e.kind.is_usable()),
            },
    {
        match self.entity_position(entity_id) {
            Some(i) => self.entities[i].as_usable(),
            None => None,
        }
    }

    /// The entity with the given identifier as something to use that can be changed,
    /// if it is registered and its kind can be used. What is done to it
    /// is done to the registry's entity.
    pub fn get_usable_mut(&mut self, entity_id: EntityId) -> (facet: Option<&mut NavigationComputer>)
        ensures
            match facet {
                Some(inner) => old(self)@.entity_index(entity_id) matches Some(i) && old(
                    self,
                )@.entities[i] == inner.model() && inner.model().kind.is_usable() && final(self)@
                    == old(self)@.with_entity(i, final(inner).model()),
                None => !(old(self)@.entity(entity_id) matches Some(e) && e.kind.is_usable())
                    && *final(self) == *old(self),
            },
    {
        match self.entity_position(entity_id) {
            Some(i) => {
                if self.entities[i].as_usable().is_none() {
                    return None;
                }
                let facet = self.entities[i].as_usable_mut();
                proof {
                    let after = World { rooms: self.rooms, entities: after_borrow(self.entities) };
                    assert(after@.entities =~= old(self)@.entities.update(
                        i as int,
                        final(facet->0).model(),
                    ));
                    assert(after@.rooms =~= old(self)@.rooms);
                }
                facet
            },
            None => None,
        }
    }
}

} // verus!
