//! Laws of the simulation: what holds of every session whatever the player
//! does.

use crate::engine::actions::{carried, clearance, lemma_find_from, lemma_found_nearby, Capability};
use crate::engine::shuttle::{
    Outcome, ShuttleState, ASTRAY_ENDING, CRUSHED_ENDING, DOCKED, DRIFT_ENDING, OVERSHOOT_ENDING,
};
use crate::engine::state::GameStateView;
use crate::entity::furniture::main_terminal::{
    parsed_command, MainTerminalCommand, ParseError,
};
use crate::entity::item::ItemId;
use crate::entity::furniture::FurnId;
use crate::entity::item::{after_put, after_remove};
use crate::world::content::{
    furniture_contents, furniture_view, initial_place, initial_world, item_contents, item_view,
    lemma_furniture_contents_places, lemma_initial_order, lemma_item_contents_places,
    lemma_room_list_places, room_entities, room_view, Place,
};
use crate::entity::{EntityId, EntityView};
use crate::parser::command::CommandView;
use crate::utils::{
    lemma_occurrences_push, lemma_occurrences_remove, lemma_occurrences_without,
    lemma_first_at, lemma_occurrences_zero, occurrences, without,
};
use crate::world::data::{entity_from, lemma_entity_from, lemma_room_from, room_from, WorldView};
use crate::world::room::{
    lemma_passage_from, Access, Direction, PassageType, RoomIdentifier, RoomView,
};
use vstd::prelude::*;

verus! {

/// The ranks of the clearances rise from none over D, C, B and A to broken.
pub proof fn law_rank_order()
    ensures
        Access::Unranked.rank() < Access::D.rank() < Access::C.rank() < Access::B.rank()
            < Access::A.rank() < Access::Broken.rank(),
{
}

/// A door stays shut to insufficient clearance: where the passage in the
/// direction is a door and the clearance of the inventory ranks strictly
/// below what the destination asks for, the move is refused with the door's
/// words and the session stays as it was, the current room with it.
pub proof fn law_access_gating(state: GameStateView, direction: Direction)
    requires
        state.passage(direction) matches Some((destination, passage)) && passage
            == PassageType::Door && clearance(state.inventory).rank() < state.world.access_of(
            destination,
        ).rank(),
    ensures
        state.after_move(direction) == state,
        state.after_move(direction).current_room == state.current_room,
        state.move_answer(direction) == Err::<Seq<char>, Seq<char>>(
            crate::engine::actions::door_refusal(),
        ),
{
}

/// The first visit is told once: a move that takes place into a known room
/// tells the first thoughts before the short description exactly if the
/// room was not visited before, and leaves the room visited.
pub proof fn law_first_visit(state: GameStateView, direction: Direction)
    requires
        state.destination(direction) is Some,
        state.world.room(state.destination(direction)->0) is Some,
    ensures
        ({
            let destination = state.destination(direction)->0;
            let room = state.world.room(destination)->0;
            let after = state.after_move(direction);
            &&& after.current_room == destination
            &&& room.visited ==> state.move_answer(direction) == Ok::<Seq<char>, Seq<char>>(
                room.short_description,
            )
            &&& !room.visited ==> state.move_answer(direction) == Ok::<Seq<char>, Seq<char>>(
                room.first_thoughts + "\n"@ + room.short_description,
            )
            &&& after.world.room(destination) matches Some(entered) && entered.visited
                && entered.short_description == room.short_description
                && entered.first_thoughts == room.first_thoughts
        }),
{
    let destination = state.destination(direction)->0;
    lemma_room_from(state.world.rooms, destination, 0);
    let i = state.world.room_index(destination)->0;
    lemma_same_identifiers(
        state.world.rooms,
        state.world.visiting(destination).rooms,
        destination,
        0,
    );
}

/// Rooms that carry the same identifiers at the same indices are found
/// under the same indices.
pub proof fn lemma_same_identifiers(
    before: Seq<RoomView>,
    after: Seq<RoomView>,
    id: RoomIdentifier,
    start: int,
)
    requires
        0 <= start,
        before.len() == after.len(),
        forall|k: int|
            0 <= k < before.len() ==> (#[trigger] before[k]).room_identifier
                == after[k].room_identifier,
    ensures
        room_from(before, id, start) == room_from(after, id, start),
    decreases before.len() - start,
{
    if start < before.len() {
        assert(before[start].room_identifier == after[start].room_identifier);
        if before[start].room_identifier != id {
            lemma_same_identifiers(before, after, id, start + 1);
        }
    }
}

/// Whether the rooms after keep what the rooms before knew of themselves:
/// there are as many, each index names the same room, and a room that was
/// visited is visited still.
pub open spec fn remembers(before: Seq<RoomView>, after: Seq<RoomView>) -> bool {
    &&& before.len() == after.len()
    &&& forall|k: int|
        0 <= k < before.len() ==> (#[trigger] before[k]).room_identifier
            == after[k].room_identifier && (before[k].visited ==> after[k].visited)
}

/// No command makes the rooms forget.
pub proof fn lemma_command_remembers(state: GameStateView, command: Option<CommandView>)
    ensures
        remembers(state.world.rooms, state.after_command(command).world.rooms),
{
    lemma_room_from(state.world.rooms, state.current_room, 0);
    lemma_room_from(state.world.rooms, RoomIdentifier::AirlockA, 0);
    match command {
        Some(CommandView::Go(direction)) => {
            if let Some(destination) = state.destination(direction) {
                lemma_room_from(state.world.rooms, destination, 0);
            }
        },
        _ => {},
    }
}

/// Visits are remembered: a room that was visited stays visited whatever
/// the player does next, so its first thoughts are not told again.
pub proof fn law_visits_are_remembered(
    state: GameStateView,
    command: Option<CommandView>,
    id: RoomIdentifier,
)
    requires
        state.world.room(id) matches Some(room) && room.visited,
    ensures
        state.after_command(command).world.room(id) matches Some(room) && room.visited,
{
    lemma_command_remembers(state, command);
    let after = state.after_command(command).world.rooms;
    lemma_same_identifiers(state.world.rooms, after, id, 0);
    lemma_room_from(state.world.rooms, id, 0);
}

/// How often an identifier lies in the rooms, all their lists taken
/// together.
pub open spec fn in_rooms(rooms: Seq<RoomView>, id: EntityId) -> nat
    decreases rooms.len(),
{
    if rooms.len() == 0 {
        0
    } else {
        in_rooms(rooms.drop_last(), id) + occurrences(rooms.last().entities, id)
    }
}

/// How often an identifier lies in the containers, all their contents taken
/// together.
pub open spec fn in_containers(entities: Seq<EntityView>, id: EntityId) -> nat
    decreases entities.len(),
{
    if entities.len() == 0 {
        0
    } else {
        in_containers(entities.drop_last(), id) + occurrences(entities.last().held(), id)
    }
}

impl GameStateView {
    /// In how many places an entity is: how often its identifier occurs in
    /// the inventory, in the lists of the rooms and in the contents of the
    /// containers, all taken together.
    pub open spec fn placements(self, id: EntityId) -> nat {
        occurrences(carried(self.inventory), id) + in_rooms(self.world.rooms, id) + in_containers(
            self.world.entities,
            id,
        )
    }
}

/// Counting over the rooms after one room was replaced.
pub proof fn lemma_in_rooms_update(rooms: Seq<RoomView>, i: int, room: RoomView, id: EntityId)
    requires
        0 <= i < rooms.len(),
    ensures
        in_rooms(rooms.update(i, room), id) + occurrences(rooms[i].entities, id) == in_rooms(
            rooms,
            id,
        ) + occurrences(room.entities, id),
    decreases rooms.len(),
{
    if i == rooms.len() - 1 {
        assert(rooms.update(i, room).drop_last() =~= rooms.drop_last());
    } else {
        lemma_in_rooms_update(rooms.drop_last(), i, room, id);
        assert(rooms.update(i, room).drop_last() =~= rooms.drop_last().update(i, room));
    }
}

/// Counting over the containers after one entity was replaced.
pub proof fn lemma_in_containers_update(
    entities: Seq<EntityView>,
    i: int,
    entity: EntityView,
    id: EntityId,
)
    requires
        0 <= i < entities.len(),
    ensures
        in_containers(entities.update(i, entity), id) + occurrences(entities[i].held(), id)
            == in_containers(entities, id) + occurrences(entity.held(), id),
    decreases entities.len(),
{
    if i == entities.len() - 1 {
        assert(entities.update(i, entity).drop_last() =~= entities.drop_last());
    } else {
        lemma_in_containers_update(entities.drop_last(), i, entity, id);
        assert(entities.update(i, entity).drop_last() =~= entities.drop_last().update(i, entity));
    }
}

/// The inventory as identifiers after one more item joined it.
pub proof fn lemma_carried_push(inventory: Seq<ItemId>, item: ItemId)
    ensures
        carried(inventory.push(item)) == carried(inventory).push(EntityId::Item(item)),
{
    assert(carried(inventory.push(item)) =~= carried(inventory).push(EntityId::Item(item)));
}

/// The inventory as identifiers after one item left it.
pub proof fn lemma_carried_without(inventory: Seq<ItemId>, item: ItemId)
    ensures
        carried(without(inventory, item)) == without(carried(inventory), EntityId::Item(item)),
    decreases inventory.len(),
{
    if inventory.len() == 0 {
        assert(carried(without(inventory, item)) =~= without(
            carried(inventory),
            EntityId::Item(item),
        ));
    } else {
        let rest = inventory.drop_last();
        lemma_carried_without(rest, item);
        assert(carried(inventory).drop_last() =~= carried(rest));
        assert(carried(inventory).last() == EntityId::Item(inventory.last()));
        if inventory.last() != item {
            lemma_carried_push(without(rest, item), inventory.last());
        }
    }
}

/// An identifier that occurs is counted at least once.
pub proof fn lemma_occurs(list: Seq<EntityId>, id: EntityId)
    requires
        list.contains(id),
    ensures
        occurrences(list, id) >= 1,
{
    lemma_occurrences_zero(list, id);
}

/// Counting over rooms that hold the same lists.
pub proof fn lemma_in_rooms_same_lists(before: Seq<RoomView>, after: Seq<RoomView>, id: EntityId)
    requires
        before.len() == after.len(),
        forall|k: int| 0 <= k < before.len() ==> (#[trigger] before[k]).entities == after[k].entities,
    ensures
        in_rooms(before, id) == in_rooms(after, id),
    decreases before.len(),
{
    if before.len() > 0 {
        assert(before[before.len() - 1].entities == after[after.len() - 1].entities);
        assert forall|k: int| 0 <= k < before.drop_last().len() implies (
        #[trigger] before.drop_last()[k]).entities == after.drop_last()[k].entities by {
            assert(before[k].entities == after[k].entities);
        }
        lemma_in_rooms_same_lists(before.drop_last(), after.drop_last(), id);
    }
}

/// Picking up puts no entity in more places than it was in.
pub proof fn lemma_pick_up_places(state: GameStateView, name: Seq<char>, id: EntityId)
    ensures
        state.after_pick_up(name).placements(id) <= state.placements(id),
{
    lemma_found_nearby(state, name, Capability::Any);
    if let Some(EntityId::Item(item)) = state.found_in_room(name, Capability::Any) {
        let taken = EntityId::Item(item);
        lemma_room_from(state.world.rooms, state.current_room, 0);
        let i = state.world.room_index(state.current_room)->0;
        let list = state.world.rooms[i].entities;
        lemma_carried_push(state.inventory, item);
        lemma_occurrences_push(carried(state.inventory), taken, id);
        lemma_occurrences_without(list, taken, id);
        lemma_occurs(list, taken);
        lemma_in_rooms_update(
            state.world.rooms,
            i,
            RoomView { entities: without(list, taken), ..state.world.rooms[i] },
            id,
        );
    }
}

/// Dropping puts no entity in more places than it was in.
pub proof fn lemma_drop_places(state: GameStateView, name: Seq<char>, id: EntityId)
    ensures
        state.after_drop(name).placements(id) <= state.placements(id),
{
    lemma_found_nearby(state, name, Capability::Any);
    if let Some(dropped) = state.found_in_inventory(name, Capability::Any) {
        let item = dropped->Item_0;
        lemma_carried_without(state.inventory, item);
        lemma_occurrences_without(carried(state.inventory), dropped, id);
        lemma_find_from(state.world, carried(state.inventory), name, Capability::Any, 0);
        let at = state.world.find_from(carried(state.inventory), name, Capability::Any, 0)->0;
        assert(carried(state.inventory)[at] == dropped);
        lemma_occurs(carried(state.inventory), dropped);
        lemma_room_from(state.world.rooms, state.current_room, 0);
        if let Some(i) = state.world.room_index(state.current_room) {
            let list = state.world.rooms[i].entities;
            lemma_occurrences_push(list, dropped, id);
            lemma_in_rooms_update(
                state.world.rooms,
                i,
                RoomView { entities: list.push(dropped), ..state.world.rooms[i] },
                id,
            );
        }
    }
}

/// Putting into a container puts no entity in more places than it was in.
pub proof fn lemma_put_into_places(
    state: GameStateView,
    obj: Seq<char>,
    cont: Seq<char>,
    id: EntityId,
)
    ensures
        state.after_put_into(obj, cont).placements(id) <= state.placements(id),
{
    lemma_found_nearby(state, obj, Capability::Any);
    lemma_found_nearby(state, cont, Capability::Containable);
    if let Some((obj_id, cont_id)) = state.put_pair(obj, cont) {
        let item = obj_id->Item_0;
        lemma_carried_without(state.inventory, item);
        lemma_occurrences_without(carried(state.inventory), obj_id, id);
        lemma_find_from(state.world, carried(state.inventory), obj, Capability::Any, 0);
        let at = state.world.find_from(carried(state.inventory), obj, Capability::Any, 0)->0;
        assert(carried(state.inventory)[at] == obj_id);
        lemma_occurs(carried(state.inventory), obj_id);
        lemma_entity_from(state.world.entities, cont_id, 0);
        let j = state.world.entity_index(cont_id)->0;
        let holder = state.world.entities[j];
        lemma_occurrences_push(holder.contents, obj_id, id);
        lemma_in_containers_update(state.world.entities, j, after_put(holder, obj_id), id);
    }
}

/// Taking out of a container puts no entity in more places than it was in.
pub proof fn lemma_take_from_places(
    state: GameStateView,
    item: Seq<char>,
    cont: Seq<char>,
    id: EntityId,
)
    ensures
        state.after_take_from(item, cont).placements(id) <= state.placements(id),
{
    lemma_found_nearby(state, cont, Capability::Containable);
    if let Some((cont_id, taken)) = state.take_pair(item, cont) {
        lemma_entity_from(state.world.entities, cont_id, 0);
        let j = state.world.entity_index(cont_id)->0;
        let holder = state.world.entities[j];
        lemma_find_from(state.world, holder.contents, item, Capability::Any, 0);
        let at = state.world.find_from(holder.contents, item, Capability::Any, 0)->0;
        assert(holder.contents[at] == taken);
        lemma_first_at(holder.contents, taken, 0);
        let first = crate::utils::first_at(holder.contents, taken, 0)->0;
        lemma_occurrences_remove(holder.contents, first, id);
        lemma_in_containers_update(state.world.entities, j, after_remove(holder, taken), id);
        let emptied = state.world.with_entity(j, after_remove(holder, taken));
        match taken {
            EntityId::Item(item_id) => {
                lemma_carried_push(state.inventory, item_id);
                lemma_occurrences_push(carried(state.inventory), taken, id);
            },
            _ => {
                lemma_room_from(state.world.rooms, state.current_room, 0);
                if let Some(i) = emptied.room_index(state.current_room) {
                    let list = emptied.rooms[i].entities;
                    lemma_occurrences_push(list, taken, id);
                    lemma_in_rooms_update(
                        emptied.rooms,
                        i,
                        RoomView { entities: list.push(taken), ..emptied.rooms[i] },
                        id,
                    );
                }
            },
        }
    }
}

/// Eating puts no entity in more places than it was in.
pub proof fn lemma_eat_places(state: GameStateView, name: Seq<char>, id: EntityId)
    ensures
        state.after_eat(name).placements(id) <= state.placements(id),
{
    lemma_found_nearby(state, name, Capability::Edible);
    if let Some(eaten) = state.found_in_inventory(name, Capability::Edible) {
        lemma_carried_without(state.inventory, eaten->Item_0);
        lemma_occurrences_without(carried(state.inventory), eaten, id);
        lemma_entity_from(state.world.entities, eaten, 0);
        let j = state.world.entity_index(eaten)->0;
        lemma_in_containers_update(
            state.world.entities,
            j,
            EntityView { eaten: true, ..state.world.entities[j] },
            id,
        );
    }
}

/// A list that names nothing twice counts nothing twice.
pub proof fn lemma_occurrences_distinct<T>(list: Seq<T>, x: T)
    requires
        forall|i: int, j: int|
            #![trigger list[i], list[j]]
            0 <= i < j < list.len() ==> list[i] != list[j],
    ensures
        occurrences(list, x) <= 1,
    decreases list.len(),
{
    if list.len() > 0 {
        let rest = list.drop_last();
        assert forall|i: int, j: int|
            #![trigger rest[i], rest[j]]
            0 <= i < j < rest.len() implies rest[i] != rest[j] by {
            assert(list[i] != list[j]);
        }
        lemma_occurrences_distinct(rest, x);
        if list.last() == x {
            lemma_occurrences_zero(rest, x);
            if rest.contains(x) {
                let at = choose|at: int| 0 <= at < rest.len() && rest[at] == x;
                assert(list[at] != list[list.len() - 1]);
            }
        }
    }
}

/// What no room lists is counted in no room.
pub proof fn lemma_in_rooms_none(rooms: Seq<RoomView>, id: EntityId)
    requires
        forall|k: int| 0 <= k < rooms.len() ==> !(#[trigger] rooms[k]).entities.contains(id),
    ensures
        in_rooms(rooms, id) == 0,
    decreases rooms.len(),
{
    if rooms.len() > 0 {
        assert forall|k: int| 0 <= k < rooms.drop_last().len() implies !(
        #[trigger] rooms.drop_last()[k]).entities.contains(id) by {
            assert(!rooms[k].entities.contains(id));
        }
        lemma_in_rooms_none(rooms.drop_last(), id);
        assert(!rooms[rooms.len() - 1].entities.contains(id));
        lemma_occurrences_zero(rooms.last().entities, id);
    }
}

/// What at most one room lists, and that room at most once, is counted at
/// most once over the rooms.
pub proof fn lemma_in_rooms_once(rooms: Seq<RoomView>, id: EntityId)
    requires
        forall|k: int|
            0 <= k < rooms.len() ==> occurrences((#[trigger] rooms[k]).entities, id) <= 1,
        forall|k: int, n: int|
            0 <= k < n < rooms.len() ==> !((#[trigger] rooms[k]).entities.contains(id) && (
            #[trigger] rooms[n]).entities.contains(id)),
    ensures
        in_rooms(rooms, id) <= 1,
    decreases rooms.len(),
{
    if rooms.len() > 0 {
        let rest = rooms.drop_last();
        let last = rooms.len() - 1;
        assert(occurrences(rooms[last].entities, id) <= 1);
        if rooms[last].entities.contains(id) {
            assert forall|k: int| 0 <= k < rest.len() implies !(#[trigger] rest[k]).entities.contains(
                id,
            ) by {
                assert(!(rooms[k].entities.contains(id) && rooms[last].entities.contains(id)));
            }
            lemma_in_rooms_none(rest, id);
        } else {
            lemma_occurrences_zero(rooms[last].entities, id);
            assert forall|k: int| 0 <= k < rest.len() implies occurrences(
                (#[trigger] rest[k]).entities,
                id,
            ) <= 1 by {
                assert(occurrences(rooms[k].entities, id) <= 1);
            }
            assert forall|k: int, n: int| 0 <= k < n < rest.len() implies !((
            #[trigger] rest[k]).entities.contains(id) && (#[trigger] rest[n]).entities.contains(
                id,
            )) by {
                assert(!(rooms[k].entities.contains(id) && rooms[n].entities.contains(id)));
            }
            lemma_in_rooms_once(rest, id);
        }
    }
}

/// What no container holds is counted in no container.
pub proof fn lemma_in_containers_none(entities: Seq<EntityView>, id: EntityId)
    requires
        forall|k: int| 0 <= k < entities.len() ==> !(#[trigger] entities[k]).held().contains(id),
    ensures
        in_containers(entities, id) == 0,
    decreases entities.len(),
{
    if entities.len() > 0 {
        assert forall|k: int| 0 <= k < entities.drop_last().len() implies !(
        #[trigger] entities.drop_last()[k]).held().contains(id) by {
            assert(!entities[k].held().contains(id));
        }
        lemma_in_containers_none(entities.drop_last(), id);
        assert(!entities[entities.len() - 1].held().contains(id));
        lemma_occurrences_zero(entities.last().held(), id);
    }
}

/// What at most one container holds, and that container at most once, is
/// counted at most once over the containers.
pub proof fn lemma_in_containers_once(entities: Seq<EntityView>, id: EntityId)
    requires
        forall|k: int|
            0 <= k < entities.len() ==> occurrences((#[trigger] entities[k]).held(), id) <= 1,
        forall|k: int, n: int|
            0 <= k < n < entities.len() ==> !((#[trigger] entities[k]).held().contains(id) && (
            #[trigger] entities[n]).held().contains(id)),
    ensures
        in_containers(entities, id) <= 1,
    decreases entities.len(),
{
    if entities.len() > 0 {
        let rest = entities.drop_last();
        let last = entities.len() - 1;
        assert(occurrences(entities[last].held(), id) <= 1);
        if entities[last].held().contains(id) {
            assert forall|k: int| 0 <= k < rest.len() implies !(#[trigger] rest[k]).held().contains(
                id,
            ) by {
                assert(!(entities[k].held().contains(id) && entities[last].held().contains(id)));
            }
            lemma_in_containers_none(rest, id);
        } else {
            lemma_occurrences_zero(entities[last].held(), id);
            assert forall|k: int| 0 <= k < rest.len() implies occurrences(
                (#[trigger] rest[k]).held(),
                id,
            ) <= 1 by {
                assert(occurrences(entities[k].held(), id) <= 1);
            }
            assert forall|k: int, n: int| 0 <= k < n < rest.len() implies !((
            #[trigger] rest[k]).held().contains(id) && (#[trigger] rest[n]).held().contains(id)) by {
                assert(!(entities[k].held().contains(id) && entities[n].held().contains(id)));
            }
            lemma_in_containers_once(rest, id);
        }
    }
}

/// At the start a room lists an entity at most once, and only the room in
/// which the world keeps it.
proof fn lemma_initial_room_list(k: int, id: EntityId)
    requires
        0 <= k < initial_world().rooms.len(),
    ensures
        occurrences(initial_world().rooms[k].entities, id) <= 1,
        initial_world().rooms[k].entities.contains(id) ==> initial_place(id) == Place::Room(
            RoomIdentifier::every()[k],
        ),
{
    lemma_initial_order();
    let room = RoomIdentifier::every()[k];
    let list = room_entities(room);
    assert(initial_world().rooms[k] == room_view(room));
    lemma_room_list_places(room);
    lemma_occurrences_distinct(list, id);
    if list.contains(id) {
        let at = choose|at: int| 0 <= at < list.len() && list[at] == id;
        assert(initial_place(list[at]) == Place::Room(room));
    }
}

/// At the start a container holds an entity at most once, and only the
/// container in which the world keeps it.
proof fn lemma_initial_container(k: int, id: EntityId)
    requires
        0 <= k < initial_world().entities.len(),
    ensures
        occurrences(initial_world().entities[k].held(), id) <= 1,
        initial_world().entities[k].held().contains(id) ==> initial_place(id) == Place::Inside(
            initial_world().entities[k].id,
        ),
{
    lemma_initial_order();
    let entity = initial_world().entities[k];
    let furniture = FurnId::every().len() as int;
    if k < furniture {
        let holder = FurnId::every()[k];
        assert(entity == furniture_view(holder));
        lemma_furniture_contents_places(holder);
        lemma_occurrences_distinct(furniture_contents(holder), id);
        if entity.held().contains(id) {
            let list = furniture_contents(holder);
            let at = choose|at: int| 0 <= at < list.len() && list[at] == id;
            assert(initial_place(list[at]) == Place::Inside(EntityId::Furniture(holder)));
        }
    } else {
        let holder = ItemId::every()[k - furniture];
        assert(initial_world().entities[furniture + (k - furniture)] == item_view(holder));
        lemma_item_contents_places(holder);
        lemma_occurrences_distinct(item_contents(holder), id);
        if entity.held().contains(id) {
            let list = item_contents(holder);
            let at = choose|at: int| 0 <= at < list.len() && list[at] == id;
            assert(initial_place(list[at]) == Place::Inside(EntityId::Item(holder)));
        }
    }
    if !entity.kind.is_containable() {
        assert(entity.held() =~= Seq::<EntityId>::empty());
    }
}

/// Containment is exclusive from the start: when a session starts, in
/// whichever room, every entity is in at most one of the rooms' lists, the
/// containers' contents and the inventory, and there at most once. With
/// `law_containment_exclusive` it is so at any time.
pub proof fn law_initial_exclusive(starting_room: RoomIdentifier, id: EntityId)
    ensures
        GameStateView::initial(starting_room).placements(id) <= 1,
{
    let state = GameStateView::initial(starting_room);
    let world = initial_world();
    lemma_initial_order();
    // What is carried: the assistant's card, once, which the world keeps nowhere.
    let card = EntityId::Item(ItemId::AssistantCard);
    assert(carried(state.inventory) =~= seq![card]);
    assert(seq![card].drop_last() =~= Seq::<EntityId>::empty());
    assert(occurrences(Seq::<EntityId>::empty(), id) == 0);
    assert(occurrences(carried(state.inventory), id) == if id == card {
        1nat
    } else {
        0nat
    });
    // The rooms.
    assert forall|k: int| 0 <= k < world.rooms.len() implies occurrences(
        (#[trigger] world.rooms[k]).entities,
        id,
    ) <= 1 by {
        lemma_initial_room_list(k, id);
    }
    assert forall|k: int, n: int| 0 <= k < n < world.rooms.len() implies !((
    #[trigger] world.rooms[k]).entities.contains(id) && (#[trigger] world.rooms[n]).entities.contains(
        id,
    )) by {
        lemma_initial_room_list(k, id);
        lemma_initial_room_list(n, id);
    }
    lemma_in_rooms_once(world.rooms, id);
    // The containers.
    assert forall|k: int| 0 <= k < world.entities.len() implies occurrences(
        (#[trigger] world.entities[k]).held(),
        id,
    ) <= 1 by {
        lemma_initial_container(k, id);
    }
    assert forall|k: int, n: int| 0 <= k < n < world.entities.len() implies !((
    #[trigger] world.entities[k]).held().contains(id) && (
    #[trigger] world.entities[n]).held().contains(id)) by {
        lemma_initial_container(k, id);
        lemma_initial_container(n, id);
        lemma_initial_ids_differ(k, n);
    }
    lemma_in_containers_once(world.entities, id);
    // No two of the three at once.
    if exists|k: int| 0 <= k < world.rooms.len() && (#[trigger] world.rooms[k]).entities.contains(id) {
        let k = choose|k: int|
            0 <= k < world.rooms.len() && (#[trigger] world.rooms[k]).entities.contains(id);
        lemma_initial_room_list(k, id);
        assert forall|n: int| 0 <= n < world.entities.len() implies !(
        #[trigger] world.entities[n]).held().contains(id) by {
            lemma_initial_container(n, id);
        }
        lemma_in_containers_none(world.entities, id);
        assert(id != card);
    } else {
        lemma_in_rooms_none(world.rooms, id);
        if exists|n: int|
            0 <= n < world.entities.len() && (#[trigger] world.entities[n]).held().contains(id) {
            let n = choose|n: int|
                0 <= n < world.entities.len() && (#[trigger] world.entities[n]).held().contains(
                    id,
                );
            lemma_initial_container(n, id);
            assert(id != card);
        } else {
            lemma_in_containers_none(world.entities, id);
        }
    }
}

/// At the start no two entities of the registry carry the same identifier.
pub proof fn lemma_initial_ids_differ(k: int, n: int)
    requires
        0 <= k < n < initial_world().entities.len(),
    ensures
        initial_world().entities[k].id != initial_world().entities[n].id,
{
    lemma_initial_order();
    let furniture = FurnId::every().len() as int;
    if n < furniture {
        assert(initial_world().entities[k] == furniture_view(FurnId::every()[k]));
        assert(initial_world().entities[n] == furniture_view(FurnId::every()[n]));
    } else if k >= furniture {
        assert(initial_world().entities[furniture + (k - furniture)] == item_view(
            ItemId::every()[k - furniture],
        ));
        assert(initial_world().entities[furniture + (n - furniture)] == item_view(
            ItemId::every()[n - furniture],
        ));
    } else {
        assert(initial_world().entities[k] == furniture_view(FurnId::every()[k]));
        assert(initial_world().entities[furniture + (n - furniture)] == item_view(
            ItemId::every()[n - furniture],
        ));
    }
}

/// Containment stays exclusive: no command puts an entity in more places
/// than it was in. So an entity that was in at most one of a room's list, a
/// container's contents and the inventory is so still after every take,
/// drop, put and whatever else the player does.
pub proof fn law_containment_exclusive(
    state: GameStateView,
    command: Option<CommandView>,
    id: EntityId,
)
    ensures
        state.after_command(command).placements(id) <= state.placements(id),
        state.placements(id) <= 1 ==> state.after_command(command).placements(id) <= 1,
{
    match command {
        Some(CommandView::Go(direction)) => {
            lemma_command_remembers(state, command);
            if let Some(destination) = state.destination(direction) {
                lemma_room_from(state.world.rooms, destination, 0);
            }
            lemma_in_rooms_same_lists(
                state.world.rooms,
                state.after_command(command).world.rooms,
                id,
            );
        },
        Some(CommandView::Enter(code)) => {
            lemma_command_remembers(state, command);
            lemma_room_from(state.world.rooms, RoomIdentifier::AirlockA, 0);
            lemma_in_rooms_same_lists(
                state.world.rooms,
                state.after_command(command).world.rooms,
                id,
            );
        },
        Some(CommandView::Take(obj)) => lemma_pick_up_places(
            state,
            crate::utils::lowercase(obj),
            id,
        ),
        Some(CommandView::Drop(obj)) => lemma_drop_places(
            state,
            crate::utils::lowercase(obj),
            id,
        ),
        Some(CommandView::PutInto(obj, cont)) => lemma_put_into_places(
            state,
            crate::utils::lowercase(obj),
            crate::utils::lowercase(cont),
            id,
        ),
        Some(CommandView::TakeFrom(obj, cont)) => lemma_take_from_places(
            state,
            crate::utils::lowercase(obj),
            crate::utils::lowercase(cont),
            id,
        ),
        Some(CommandView::Eat(obj)) => lemma_eat_places(state, crate::utils::lowercase(obj), id),
        _ => {},
    }
}

/// An index whose identifier resolves, with none before it from `start` on
/// that does, is what `find_from` finds.
pub proof fn lemma_find_is_first(
    world: WorldView,
    ids: Seq<EntityId>,
    name: Seq<char>,
    capability: Capability,
    k: int,
    start: int,
)
    requires
        0 <= start <= k < ids.len(),
        world.resolves(ids[k], name, capability),
        forall|j: int| start <= j < k ==> !world.resolves(#[trigger] ids[j], name, capability),
    ensures
        world.find_from(ids, name, capability, start) == Some(k),
    decreases k - start,
{
    if start < k {
        assert(!world.resolves(ids[start], name, capability));
        lemma_find_is_first(world, ids, name, capability, k, start + 1);
    }
}

/// Whether two registries tell the same of who is who: they are as long,
/// and at each index the entities agree in identifier, name, aliases and
/// kind.
pub open spec fn same_names(before: Seq<EntityView>, after: Seq<EntityView>) -> bool {
    &&& before.len() == after.len()
    &&& forall|k: int|
        0 <= k < before.len() ==> {
            &&& (#[trigger] before[k]).id == after[k].id
            &&& before[k].name == after[k].name
            &&& before[k].aliases == after[k].aliases
            &&& before[k].kind == after[k].kind
        }
}

/// Registries that tell the same of who is who find each identifier under
/// the same index.
pub proof fn lemma_same_entity_index(
    before: Seq<EntityView>,
    after: Seq<EntityView>,
    id: EntityId,
    start: int,
)
    requires
        0 <= start,
        same_names(before, after),
    ensures
        entity_from(before, id, start) == entity_from(after, id, start),
    decreases before.len() - start,
{
    if start < before.len() {
        assert(before[start].id == after[start].id);
        if before[start].id != id {
            lemma_same_entity_index(before, after, id, start + 1);
        }
    }
}

/// In worlds whose registries tell the same of who is who, the same
/// identifiers resolve.
pub proof fn lemma_same_resolves(
    before: WorldView,
    after: WorldView,
    id: EntityId,
    name: Seq<char>,
    capability: Capability,
)
    requires
        same_names(before.entities, after.entities),
    ensures
        before.resolves(id, name, capability) == after.resolves(id, name, capability),
{
    lemma_same_entity_index(before.entities, after.entities, id, 0);
    lemma_entity_from(before.entities, id, 0);
    if let Some(i) = before.entity_index(id) {
        assert(before.entities[i].name == after.entities[i].name);
    }
}

/// In worlds whose registries tell the same of who is who, a search finds
/// the same.
pub proof fn lemma_same_find(
    before: WorldView,
    after: WorldView,
    ids: Seq<EntityId>,
    name: Seq<char>,
    capability: Capability,
    start: int,
)
    requires
        0 <= start,
        same_names(before.entities, after.entities),
    ensures
        before.find_from(ids, name, capability, start) == after.find_from(
            ids,
            name,
            capability,
            start,
        ),
    decreases ids.len() - start,
{
    if start < ids.len() {
        lemma_same_resolves(before, after, ids[start], name, capability);
        if !before.resolves(ids[start], name, capability) {
            lemma_same_find(before, after, ids, name, capability, start + 1);
        }
    }
}

/// What is left after an element was taken out is part of what was there,
/// and the element is not in it.
pub proof fn lemma_without_members<T>(list: Seq<T>, gone: T)
    ensures
        forall|i: int|
            0 <= i < without(list, gone).len() ==> (#[trigger] without(list, gone)[i]) != gone
                && list.contains(without(list, gone)[i]),
    decreases list.len(),
{
    if list.len() > 0 {
        let rest = list.drop_last();
        lemma_without_members(rest, gone);
        assert forall|i: int| 0 <= i < without(list, gone).len() implies (#[trigger] without(
            list,
            gone,
        )[i]) != gone && list.contains(without(list, gone)[i]) by {
            if i < without(rest, gone).len() {
                let kept = without(rest, gone)[i];
                assert(rest.contains(kept));
                let at = choose|at: int| 0 <= at < rest.len() && rest[at] == kept;
                assert(list[at] == kept);
            } else {
                assert(list[list.len() - 1] == list.last());
            }
        }
    }
}

/// Taking an identifier out of a list does not change which other
/// identifier a search finds first.
pub proof fn lemma_find_without(
    world: WorldView,
    ids: Seq<EntityId>,
    name: Seq<char>,
    capability: Capability,
    gone: EntityId,
)
    requires
        world.find(ids, name, capability) matches Some(found) && found != gone,
    ensures
        world.find(without(ids, gone), name, capability) == world.find(ids, name, capability),
    decreases ids.len(),
{
    lemma_find_from(world, ids, name, capability, 0);
    let k = world.find_from(ids, name, capability, 0)->0;
    let found = ids[k];
    let rest = ids.drop_last();
    let kept = without(rest, gone);
    lemma_without_members(rest, gone);
    if k < rest.len() {
        assert forall|j: int| 0 <= j < k implies !world.resolves(
            #[trigger] rest[j],
            name,
            capability,
        ) by {
            assert(rest[j] == ids[j]);
        }
        assert(rest[k] == ids[k]);
        lemma_find_is_first(world, rest, name, capability, k, 0);
        lemma_find_without(world, rest, name, capability, gone);
        lemma_find_from(world, kept, name, capability, 0);
        let m = world.find_from(kept, name, capability, 0)->0;
        let longer = without(ids, gone);
        assert forall|j: int| 0 <= j < m implies !world.resolves(
            #[trigger] longer[j],
            name,
            capability,
        ) by {
            assert(longer[j] == kept[j]);
        }
        assert(longer[m] == kept[m]);
        lemma_find_is_first(world, longer, name, capability, m, 0);
    } else {
        let longer = without(ids, gone);
        assert(longer =~= kept.push(found));
        assert forall|j: int| 0 <= j < kept.len() implies !world.resolves(
            #[trigger] longer[j],
            name,
            capability,
        ) by {
            assert(longer[j] == kept[j]);
            assert(rest.contains(kept[j]));
            let at = choose|at: int| 0 <= at < rest.len() && rest[at] == kept[j];
            assert(ids[at] == kept[j]);
        }
        lemma_find_is_first(world, longer, name, capability, kept.len() as int, 0);
    }
}

/// What is left after an element was taken out holds the other elements
/// that were there and no others.
pub proof fn lemma_without_contains<T>(list: Seq<T>, gone: T, other: T)
    ensures
        without(list, gone).contains(other) <==> list.contains(other) && other != gone,
{
    lemma_occurrences_without(list, gone, other);
    lemma_occurrences_zero(list, other);
    lemma_occurrences_zero(without(list, gone), other);
}

/// Round trip: putting an object into a container and taking it out again
/// leaves the world as it was, the contents of the container with it, and
/// the object back in the inventory, which holds what it held before. This
/// is stated for a put that takes place into a container in which nothing
/// answers to the object's name yet: there the object itself is what is
/// taken out.
pub proof fn law_put_then_take(state: GameStateView, obj: Seq<char>, cont: Seq<char>)
    requires
        state.put_pair(obj, cont) matches Some((_, cont_id)) && state.world.find(
            state.world.entity(cont_id)->0.contents,
            obj,
            Capability::Any,
        ) is None,
    ensures
        state.put_pair(obj, cont) matches Some((obj_id, _)) && obj_id is Item && ({
            let item = obj_id->Item_0;
            let back = state.after_put_into(obj, cont).after_take_from(obj, cont);
            &&& back.world == state.world
            &&& back.inventory == without(state.inventory, item).push(item)
            &&& forall|other: ItemId|
                back.inventory.contains(other) <==> state.inventory.contains(other)
            &&& back == GameStateView { inventory: back.inventory, ..state }
            &&& state.after_put_into(obj, cont).take_from_text(obj, cont) == "You take "@ + obj
                + " from "@ + cont + "."@
        }),
{
    let (obj_id, cont_id) = state.put_pair(obj, cont)->0;
    let item = obj_id->Item_0;
    lemma_found_nearby(state, obj, Capability::Any);
    lemma_found_nearby(state, cont, Capability::Containable);
    lemma_entity_from(state.world.entities, cont_id, 0);
    let j = state.world.entity_index(cont_id)->0;
    let holder = state.world.entities[j];
    let filled = after_put(holder, obj_id);
    let mid = state.after_put_into(obj, cont);
    assert(same_names(state.world.entities, mid.world.entities));
    // The container is found again.
    lemma_same_find(state.world, mid.world, state.around(), cont, Capability::Containable, 0);
    lemma_carried_without(state.inventory, item);
    if state.found_in_room(cont, Capability::Containable) is None {
        lemma_find_without(
            state.world,
            carried(state.inventory),
            cont,
            Capability::Containable,
            obj_id,
        );
        lemma_same_find(
            state.world,
            mid.world,
            carried(mid.inventory),
            cont,
            Capability::Containable,
            0,
        );
    }
    assert(mid.found_nearby(cont, Capability::Containable) == Some(cont_id));
    // The object is the first in the container that answers to its name.
    lemma_same_entity_index(state.world.entities, mid.world.entities, cont_id, 0);
    assert(mid.world.entity(cont_id) == Some(filled));
    lemma_find_from(state.world, holder.contents, obj, Capability::Any, 0);
    lemma_same_resolves(state.world, mid.world, obj_id, obj, Capability::Any);
    assert forall|n: int| 0 <= n < holder.contents.len() implies !mid.world.resolves(
        #[trigger] filled.contents[n],
        obj,
        Capability::Any,
    ) by {
        assert(filled.contents[n] == holder.contents[n]);
        lemma_same_resolves(state.world, mid.world, holder.contents[n], obj, Capability::Any);
    }
    lemma_find_is_first(
        mid.world,
        filled.contents,
        obj,
        Capability::Any,
        holder.contents.len() as int,
        0,
    );
    assert(mid.take_pair(obj, cont) == Some((cont_id, obj_id)));
    // Taking it out restores the contents.
    lemma_first_at(filled.contents, obj_id, 0);
    let first = crate::utils::first_at(filled.contents, obj_id, 0)->0;
    if first < holder.contents.len() {
        assert(holder.contents[first] == obj_id);
    }
    assert(filled.contents.remove(first) =~= holder.contents);
    assert(after_remove(filled, obj_id) == holder);
    let back = mid.after_take_from(obj, cont);
    assert(back.world.entities =~= state.world.entities);
    assert(back.world == state.world);
    assert forall|other: ItemId|
        back.inventory.contains(other) <==> state.inventory.contains(other) by {
        lemma_without_contains(state.inventory, item, other);
        let kept = without(state.inventory, item);
        if kept.push(item).contains(other) {
            let at = choose|at: int| 0 <= at < kept.push(item).len() && kept.push(item)[at] == other;
            if at < kept.len() {
                assert(kept[at] == other);
            }
        }
        if other == item {
            assert(kept.push(item)[kept.len() as int] == item);
        } else if kept.contains(other) {
            let at = choose|at: int| 0 <= at < kept.len() && kept[at] == other;
            assert(kept.push(item)[at] == other);
        }
    }
}

/// Passages stay unique: a room in which no two connections lead in the
/// same direction is such a room still after whatever the player does, the
/// docking of the shuttle included.
pub proof fn law_passages_stay_unique(
    state: GameStateView,
    command: Option<CommandView>,
    k: int,
)
    requires
        0 <= k < state.world.rooms.len(),
        state.world.rooms[k].unique_passages(),
    ensures
        state.after_command(command).world.rooms.len() == state.world.rooms.len(),
        state.after_command(command).world.rooms[k].unique_passages(),
{
    lemma_room_from(state.world.rooms, state.current_room, 0);
    lemma_room_from(state.world.rooms, RoomIdentifier::AirlockA, 0);
    match command {
        Some(CommandView::Go(direction)) => {
            if let Some(destination) = state.destination(direction) {
                lemma_room_from(state.world.rooms, destination, 0);
            }
        },
        Some(CommandView::Enter(code)) => {
            if let Some(i) = state.world.room_index(RoomIdentifier::AirlockA) {
                let airlock = state.world.rooms[i];
                lemma_passage_from(airlock, Direction::North, 0);
                if i == k && airlock.adjacent(Direction::North) is None {
                    let longer = airlock.connected_rooms.push(
                        crate::engine::state::station_link(),
                    );
                    assert forall|a: int, b: int| 0 <= a < b < longer.len() implies (
                    #[trigger] longer[a]).0 != (#[trigger] longer[b]).0 by {
                        if b < airlock.connected_rooms.len() {
                            assert(airlock.connected_rooms[a].0 != airlock.connected_rooms[b].0);
                        } else {
                            assert(airlock.connected_rooms[a].0 != Direction::North);
                        }
                    }
                }
            }
        },
        _ => {},
    }
}

/// Docking opens the way: once the shuttle has docked, a passage leads
/// north out of airlock A, and it is the one into the station unless the
/// airlock had a passage to the north before.
pub proof fn law_docking_opens_the_station(world: WorldView)
    requires
        world.room(RoomIdentifier::AirlockA) is Some,
    ensures
        world.docked().room(RoomIdentifier::AirlockA) matches Some(airlock) && airlock.adjacent(
            Direction::North,
        ) is Some,
        world.room(RoomIdentifier::AirlockA)->0.adjacent(Direction::North) is None
            ==> world.docked().room(RoomIdentifier::AirlockA)->0.adjacent(Direction::North)
            == Some((RoomIdentifier::StationAirlock, PassageType::Free)),
{
    lemma_room_from(world.rooms, RoomIdentifier::AirlockA, 0);
    let i = world.room_index(RoomIdentifier::AirlockA)->0;
    let before = world.rooms[i];
    lemma_same_identifiers(world.rooms, world.docked().rooms, RoomIdentifier::AirlockA, 0);
    if before.adjacent(Direction::North) is None {
        let after = world.docked().rooms[i];
        lemma_passage_from(before, Direction::North, 0);
        lemma_passage_from(after, Direction::North, 0);
        let last = before.connected_rooms.len() as int;
        assert(after.connected_rooms[last] == crate::engine::state::station_link());
        if let Some(found) = after.passage_from(Direction::North, 0) {
            if found < last {
                assert(after.connected_rooms[found] == before.connected_rooms[found]);
            }
        }
    }
}

/// The main thrust is fatal: with the engine on and power set, switching
/// the main thrust on loses the shuttle whatever else its state is, with
/// the one ending up to power 10 and the other above, and the game is lost
/// with it.
pub proof fn law_main_thrust_is_fatal(state: GameStateView)
    requires
        state.shuttle_state.main_engine_on,
        state.shuttle_state.main_engine_power > 0,
    ensures
        state.shuttle_state.outcome(MainTerminalCommand::ActivateMainThrust) == (
        if state.shuttle_state.main_engine_power <= 10 {
            Outcome::Lost(DRIFT_ENDING@)
        } else {
            Outcome::Lost(OVERSHOOT_ENDING@)
        }),
        parsed_command("01::04::00"@) == Ok::<MainTerminalCommand, ParseError>(
            MainTerminalCommand::ActivateMainThrust,
        ),
        state.shuttle_answer("01::04::00"@) is Err,
        state.after_shuttle_command("01::04::00"@) == (GameStateView { lost: true, ..state }),
{
    reveal_strlit("01::04::00");
    reveal_strlit("01::00::00");
    reveal_strlit("01::00::01");
    assert("01::04::00"@[4] == '0');
    assert("01::00::00"@[5] == '0');
    assert("01::00::01"@[5] == '0');
    assert("01::04::00"@[5] == '4');
}

/// The docking attempt has three ends: with fuel, a vector in range and a
/// valid power, starting the maneuver engines docks the shuttle on a docking
/// approach and loses it on any other, steering astray or into the station.
pub proof fn law_docking_attempt(shuttle: ShuttleState)
    requires
        shuttle.has_fuel(),
        shuttle.vector_in_range(),
        shuttle.maneuver_power <= 7,
    ensures
        shuttle.maneuver_outcome() == (if shuttle.docking_approach() {
            Outcome::Docked(DOCKED@)
        } else if shuttle.steers_astray() {
            Outcome::Lost(ASTRAY_ENDING@)
        } else {
            Outcome::Lost(CRUSHED_ENDING@)
        }),
        shuttle.after(MainTerminalCommand::ActivateManeuverEngines) == shuttle,
{
}

} // verus!
