//! Referential integrity: every identifier that the session refers to names
//! something the world knows. The world is built with it, and no command
//! loses it, so the verbs' answers for unknown rooms and unregistered
//! entities are never given in play.

use crate::engine::actions::{carried, lemma_find_from, lemma_found_nearby, Capability};
use crate::engine::laws::{
    lemma_same_entity_index, lemma_same_identifiers,
    lemma_without_members, same_names,
};
use crate::engine::state::{station_link, GameStateView};
use crate::entity::furniture::FurnId;
use crate::entity::item::{after_put, after_remove, ItemId};
use crate::entity::{EntityId, EntityView};
use crate::parser::command::CommandView;
use crate::utils::{first_at, lemma_first_at, lowercase, without};
use crate::world::content::{
    furniture_contents, furniture_view, initial_world, item_contents, item_view,
    lemma_initial_furniture, lemma_initial_item, lemma_initial_room,
    room_entities, room_view,
};
use crate::world::data::{lemma_entity_from, lemma_room_from, WorldView};
use crate::world::room::{lemma_passage_from, Direction, RoomIdentifier, RoomView};
use vstd::prelude::*;

verus! {

impl WorldView {
    /// Whether every identifier in the list names a registered entity.
    pub open spec fn registers(self, ids: Seq<EntityId>) -> bool {
        forall|i: int| 0 <= i < ids.len() ==> self.entity(#[trigger] ids[i]) is Some
    }

    /// Whether every passage of the room leads to a known room.
    pub open spec fn leads_on(self, room: RoomView) -> bool {
        forall|i: int|
            0 <= i < room.connected_rooms.len() ==> self.room(
                (#[trigger] room.connected_rooms[i]).2,
            ) is Some
    }

    /// Whether the world refers to nothing it does not know: the station's
    /// airlock, to which docking opens a passage, is a known room; the
    /// passages of every room lead to known rooms; and what lies in the
    /// rooms and in the containers is registered.
    pub open spec fn integral(self) -> bool {
        &&& self.room(RoomIdentifier::StationAirlock) is Some
        &&& forall|k: int| 0 <= k < self.rooms.len() ==> self.leads_on(#[trigger] self.rooms[k])
        &&& forall|k: int|
            0 <= k < self.rooms.len() ==> self.registers((#[trigger] self.rooms[k]).entities)
        &&& forall|j: int|
            0 <= j < self.entities.len() ==> self.registers((#[trigger] self.entities[j]).held())
    }
}

impl GameStateView {
    /// Whether the session refers to nothing that the world does not know:
    /// the world is integral, the current room is known and what is carried
    /// is registered.
    pub open spec fn integral(self) -> bool {
        &&& self.world.integral()
        &&& self.here() is Some
        &&& self.world.registers(carried(self.inventory))
    }
}

/// Whether two worlds know the same: their rooms carry the same identifiers
/// at the same indices, and their registries tell the same of who is who.
pub open spec fn knows_the_same(before: WorldView, after: WorldView) -> bool {
    &&& before.rooms.len() == after.rooms.len()
    &&& forall|k: int|
        0 <= k < before.rooms.len() ==> (#[trigger] before.rooms[k]).room_identifier
            == after.rooms[k].room_identifier
    &&& same_names(before.entities, after.entities)
}

/// Worlds that know the same know the same rooms and entities.
pub proof fn lemma_knows_the_same(before: WorldView, after: WorldView)
    requires
        knows_the_same(before, after),
    ensures
        forall|id: RoomIdentifier| before.room(id) is Some <==> after.room(id) is Some,
        forall|id: EntityId| before.entity(id) is Some <==> after.entity(id) is Some,
        forall|ids: Seq<EntityId>| before.registers(ids) ==> after.registers(ids),
        forall|room: RoomView| before.leads_on(room) ==> after.leads_on(room),
{
    assert forall|id: RoomIdentifier| before.room(id) is Some <==> after.room(id) is Some by {
        lemma_same_identifiers(before.rooms, after.rooms, id, 0);
    }
    assert forall|id: EntityId| before.entity(id) is Some <==> after.entity(id) is Some by {
        lemma_same_entity_index(before.entities, after.entities, id, 0);
    }
    assert forall|ids: Seq<EntityId>| before.registers(ids) implies after.registers(ids) by {
        assert forall|i: int| 0 <= i < ids.len() implies after.entity(#[trigger] ids[i]) is Some by {
            assert(before.entity(ids[i]) is Some);
        }
    }
    assert forall|room: RoomView| before.leads_on(room) implies after.leads_on(room) by {
        assert forall|i: int| 0 <= i < room.connected_rooms.len() implies after.room(
            (#[trigger] room.connected_rooms[i]).2,
        ) is Some by {
            assert(before.room(room.connected_rooms[i].2) is Some);
        }
    }
}

/// A list stays registered when a registered identifier joins it.
pub proof fn lemma_registers_push(world: WorldView, ids: Seq<EntityId>, id: EntityId)
    requires
        world.registers(ids),
        world.entity(id) is Some,
    ensures
        world.registers(ids.push(id)),
{
    assert forall|i: int| 0 <= i < ids.push(id).len() implies world.entity(
        #[trigger] ids.push(id)[i],
    ) is Some by {
        if i < ids.len() {
            assert(ids.push(id)[i] == ids[i]);
        }
    }
}

/// A list stays registered when an identifier leaves it altogether.
pub proof fn lemma_registers_without(world: WorldView, ids: Seq<EntityId>, gone: EntityId)
    requires
        world.registers(ids),
    ensures
        world.registers(without(ids, gone)),
{
    lemma_without_members(ids, gone);
    assert forall|i: int| 0 <= i < without(ids, gone).len() implies world.entity(
        #[trigger] without(ids, gone)[i],
    ) is Some by {
        let kept = without(ids, gone)[i];
        assert(ids.contains(kept));
        let at = choose|at: int| 0 <= at < ids.len() && ids[at] == kept;
        assert(world.entity(ids[at]) is Some);
    }
}

/// A list stays registered when one of its elements is taken out.
pub proof fn lemma_registers_remove(world: WorldView, ids: Seq<EntityId>, at: int)
    requires
        world.registers(ids),
        0 <= at < ids.len(),
    ensures
        world.registers(ids.remove(at)),
{
    assert forall|i: int| 0 <= i < ids.remove(at).len() implies world.entity(
        #[trigger] ids.remove(at)[i],
    ) is Some by {
        if i < at {
            assert(ids.remove(at)[i] == ids[i]);
        } else {
            assert(ids.remove(at)[i] == ids[i + 1]);
        }
    }
}

/// The inventory as identifiers stays registered when an item leaves it.
proof fn lemma_carried_without_registered(world: WorldView, inventory: Seq<ItemId>, item: ItemId)
    requires
        world.registers(carried(inventory)),
    ensures
        world.registers(carried(without(inventory, item))),
{
    crate::engine::laws::lemma_carried_without(inventory, item);
    lemma_registers_without(world, carried(inventory), EntityId::Item(item));
}

/// A world stays integral when the list of one room is replaced by a
/// registered one.
proof fn lemma_room_list_integral(world: WorldView, i: int, list: Seq<EntityId>)
    requires
        world.integral(),
        0 <= i < world.rooms.len(),
        world.registers(list),
    ensures
        world.with_room_entities(i, list).integral(),
        knows_the_same(world, world.with_room_entities(i, list)),
{
    let after = world.with_room_entities(i, list);
    assert(knows_the_same(world, after));
    lemma_knows_the_same(world, after);
    assert forall|k: int| 0 <= k < after.rooms.len() implies after.leads_on(
        #[trigger] after.rooms[k],
    ) by {
        assert(world.leads_on(world.rooms[k]));
        assert(after.rooms[k].connected_rooms == world.rooms[k].connected_rooms);
        assert forall|c: int| 0 <= c < after.rooms[k].connected_rooms.len() implies after.room(
            (#[trigger] after.rooms[k].connected_rooms[c]).2,
        ) is Some by {
            assert(world.room(world.rooms[k].connected_rooms[c].2) is Some);
        }
    }
    assert forall|k: int| 0 <= k < after.rooms.len() implies after.registers(
        (#[trigger] after.rooms[k]).entities,
    ) by {
        if k != i {
            assert(world.registers(world.rooms[k].entities));
        }
    }
    assert forall|j: int| 0 <= j < after.entities.len() implies after.registers(
        (#[trigger] after.entities[j]).held(),
    ) by {
        assert(world.registers(world.entities[j].held()));
    }
}

/// A world stays integral when one entity is replaced by one of the same
/// identifier, name, aliases and kind that holds registered entities.
proof fn lemma_entity_integral(world: WorldView, j: int, entity: EntityView)
    requires
        world.integral(),
        0 <= j < world.entities.len(),
        entity.id == world.entities[j].id,
        entity.name == world.entities[j].name,
        entity.aliases == world.entities[j].aliases,
        entity.kind == world.entities[j].kind,
        world.registers(entity.held()),
    ensures
        world.with_entity(j, entity).integral(),
        knows_the_same(world, world.with_entity(j, entity)),
{
    let after = world.with_entity(j, entity);
    assert(knows_the_same(world, after));
    lemma_knows_the_same(world, after);
    assert forall|k: int| 0 <= k < after.rooms.len() implies after.leads_on(
        #[trigger] after.rooms[k],
    ) by {
        assert(world.leads_on(world.rooms[k]));
    }
    assert forall|k: int| 0 <= k < after.rooms.len() implies after.registers(
        (#[trigger] after.rooms[k]).entities,
    ) by {
        assert(world.registers(world.rooms[k].entities));
    }
    assert forall|n: int| 0 <= n < after.entities.len() implies after.registers(
        (#[trigger] after.entities[n]).held(),
    ) by {
        if n != j {
            assert(world.registers(world.entities[n].held()));
        }
    }
}

/// A world stays integral when a room is marked as visited.
proof fn lemma_visiting_integral(world: WorldView, id: RoomIdentifier)
    requires
        world.integral(),
    ensures
        world.visiting(id).integral(),
        knows_the_same(world, world.visiting(id)),
{
    lemma_room_from(world.rooms, id, 0);
    let after = world.visiting(id);
    assert(knows_the_same(world, after));
    lemma_knows_the_same(world, after);
    assert forall|k: int| 0 <= k < after.rooms.len() implies after.leads_on(
        #[trigger] after.rooms[k],
    ) by {
        assert(world.leads_on(world.rooms[k]));
    }
    assert forall|k: int| 0 <= k < after.rooms.len() implies after.registers(
        (#[trigger] after.rooms[k]).entities,
    ) by {
        assert(world.registers(world.rooms[k].entities));
    }
    assert forall|n: int| 0 <= n < after.entities.len() implies after.registers(
        (#[trigger] after.entities[n]).held(),
    ) by {
        assert(world.registers(world.entities[n].held()));
    }
}

/// A world stays integral when the shuttle docks.
proof fn lemma_docked_integral(world: WorldView)
    requires
        world.integral(),
    ensures
        world.docked().integral(),
        knows_the_same(world, world.docked()),
{
    lemma_room_from(world.rooms, RoomIdentifier::AirlockA, 0);
    let after = world.docked();
    assert(knows_the_same(world, after));
    lemma_knows_the_same(world, after);
    assert forall|k: int| 0 <= k < after.rooms.len() implies after.leads_on(
        #[trigger] after.rooms[k],
    ) by {
        assert(world.leads_on(world.rooms[k]));
        assert forall|c: int| 0 <= c < after.rooms[k].connected_rooms.len() implies after.room(
            (#[trigger] after.rooms[k].connected_rooms[c]).2,
        ) is Some by {
            if c < world.rooms[k].connected_rooms.len() {
                assert(after.rooms[k].connected_rooms[c] == world.rooms[k].connected_rooms[c]);
                assert(world.room(world.rooms[k].connected_rooms[c].2) is Some);
            } else {
                assert(after.rooms[k].connected_rooms[c] == station_link());
            }
        }
    }
    assert forall|k: int| 0 <= k < after.rooms.len() implies after.registers(
        (#[trigger] after.rooms[k]).entities,
    ) by {
        assert(world.registers(world.rooms[k].entities));
    }
    assert forall|n: int| 0 <= n < after.entities.len() implies after.registers(
        (#[trigger] after.entities[n]).held(),
    ) by {
        assert(world.registers(world.entities[n].held()));
    }
}

proof fn lemma_move_integral(state: GameStateView, direction: Direction)
    requires
        state.integral(),
    ensures
        state.after_move(direction).integral(),
{
    if let Some(destination) = state.destination(direction) {
        let here = state.here()->0;
        lemma_room_from(state.world.rooms, state.current_room, 0);
        lemma_passage_from(here, direction, 0);
        let c = here.passage_from(direction, 0)->0;
        assert(state.world.leads_on(here));
        assert(state.world.room(here.connected_rooms[c].2) is Some);
        lemma_visiting_integral(state.world, destination);
        lemma_knows_the_same(state.world, state.world.visiting(destination));
    }
}

proof fn lemma_pick_up_integral(state: GameStateView, name: Seq<char>)
    requires
        state.integral(),
    ensures
        state.after_pick_up(name).integral(),
{
    lemma_found_nearby(state, name, Capability::Any);
    if let Some(EntityId::Item(item)) = state.found_in_room(name, Capability::Any) {
        let taken = EntityId::Item(item);
        lemma_room_from(state.world.rooms, state.current_room, 0);
        let i = state.world.room_index(state.current_room)->0;
        let list = state.world.rooms[i].entities;
        assert(state.world.registers(list));
        lemma_registers_without(state.world, list, taken);
        lemma_room_list_integral(state.world, i, without(list, taken));
        let after = state.world.with_room_entities(i, without(list, taken));
        lemma_knows_the_same(state.world, after);
        crate::engine::laws::lemma_carried_push(state.inventory, item);
        lemma_registers_push(state.world, carried(state.inventory), taken);
    }
}

proof fn lemma_drop_integral(state: GameStateView, name: Seq<char>)
    requires
        state.integral(),
    ensures
        state.after_drop(name).integral(),
{
    lemma_found_nearby(state, name, Capability::Any);
    if let Some(dropped) = state.found_in_inventory(name, Capability::Any) {
        lemma_carried_without_registered(state.world, state.inventory, dropped->Item_0);
        lemma_room_from(state.world.rooms, state.current_room, 0);
        let i = state.world.room_index(state.current_room)->0;
        let list = state.world.rooms[i].entities;
        assert(state.world.registers(list));
        lemma_registers_push(state.world, list, dropped);
        lemma_room_list_integral(state.world, i, list.push(dropped));
        lemma_knows_the_same(state.world, state.world.with_room_entities(i, list.push(dropped)));
    }
}

proof fn lemma_put_into_integral(state: GameStateView, obj: Seq<char>, cont: Seq<char>)
    requires
        state.integral(),
    ensures
        state.after_put_into(obj, cont).integral(),
{
    lemma_found_nearby(state, obj, Capability::Any);
    lemma_found_nearby(state, cont, Capability::Containable);
    if let Some((obj_id, cont_id)) = state.put_pair(obj, cont) {
        lemma_carried_without_registered(state.world, state.inventory, obj_id->Item_0);
        lemma_entity_from(state.world.entities, cont_id, 0);
        let j = state.world.entity_index(cont_id)->0;
        let holder = state.world.entities[j];
        assert(state.world.registers(holder.held()));
        lemma_registers_push(state.world, holder.contents, obj_id);
        lemma_entity_integral(state.world, j, after_put(holder, obj_id));
        lemma_knows_the_same(state.world, state.world.with_entity(j, after_put(holder, obj_id)));
    }
}

proof fn lemma_take_from_integral(state: GameStateView, item: Seq<char>, cont: Seq<char>)
    requires
        state.integral(),
    ensures
        state.after_take_from(item, cont).integral(),
{
    lemma_found_nearby(state, cont, Capability::Containable);
    if let Some((cont_id, taken)) = state.take_pair(item, cont) {
        lemma_entity_from(state.world.entities, cont_id, 0);
        let j = state.world.entity_index(cont_id)->0;
        let holder = state.world.entities[j];
        lemma_find_from(state.world, holder.contents, item, Capability::Any, 0);
        let at = state.world.find_from(holder.contents, item, Capability::Any, 0)->0;
        assert(holder.contents[at] == taken);
        lemma_first_at(holder.contents, taken, 0);
        let first = first_at(holder.contents, taken, 0)->0;
        assert(state.world.registers(holder.held()));
        lemma_registers_remove(state.world, holder.contents, first);
        lemma_entity_integral(state.world, j, after_remove(holder, taken));
        let emptied = state.world.with_entity(j, after_remove(holder, taken));
        lemma_knows_the_same(state.world, emptied);
        match taken {
            EntityId::Item(item_id) => {
                crate::engine::laws::lemma_carried_push(state.inventory, item_id);
                lemma_registers_push(state.world, carried(state.inventory), taken);
            },
            _ => {
                lemma_room_from(emptied.rooms, state.current_room, 0);
                let i = emptied.room_index(state.current_room)->0;
                let list = emptied.rooms[i].entities;
                assert(emptied.registers(list));
                lemma_registers_push(emptied, list, taken);
                lemma_room_list_integral(emptied, i, list.push(taken));
                lemma_knows_the_same(emptied, emptied.with_room_entities(i, list.push(taken)));
            },
        }
    }
}

proof fn lemma_eat_integral(state: GameStateView, name: Seq<char>)
    requires
        state.integral(),
    ensures
        state.after_eat(name).integral(),
{
    lemma_found_nearby(state, name, Capability::Edible);
    if let Some(eaten) = state.found_in_inventory(name, Capability::Edible) {
        lemma_carried_without_registered(state.world, state.inventory, eaten->Item_0);
        lemma_entity_from(state.world.entities, eaten, 0);
        let j = state.world.entity_index(eaten)->0;
        let food = state.world.entities[j];
        assert(state.world.registers(food.held()));
        lemma_entity_integral(state.world, j, EntityView { eaten: true, ..food });
        lemma_knows_the_same(
            state.world,
            state.world.with_entity(j, EntityView { eaten: true, ..food }),
        );
    }
}

proof fn lemma_enter_integral(state: GameStateView, code: Seq<char>)
    requires
        state.integral(),
    ensures
        state.after_enter(code).integral(),
{
    lemma_docked_integral(state.world);
    lemma_knows_the_same(state.world, state.world.docked());
}

/// Integrity is kept: a session that refers to nothing unknown does so
/// still after whatever the player does.
pub proof fn law_integrity_is_kept(state: GameStateView, command: Option<CommandView>)
    requires
        state.integral(),
    ensures
        state.after_command(command).integral(),
{
    match command {
        Some(CommandView::Go(direction)) => lemma_move_integral(state, direction),
        Some(CommandView::Take(obj)) => lemma_pick_up_integral(state, lowercase(obj)),
        Some(CommandView::Drop(obj)) => lemma_drop_integral(state, lowercase(obj)),
        Some(CommandView::TakeFrom(obj, cont)) => lemma_take_from_integral(
            state,
            lowercase(obj),
            lowercase(cont),
        ),
        Some(CommandView::PutInto(obj, cont)) => lemma_put_into_integral(
            state,
            lowercase(obj),
            lowercase(cont),
        ),
        Some(CommandView::Enter(code)) => lemma_enter_integral(state, code),
        Some(CommandView::Eat(obj)) => lemma_eat_integral(state, lowercase(obj)),
        _ => {},
    }
}

/// In an integral session the answers for what is unknown are not given:
/// the player is in a known room, every passage out of it leads to a known
/// room, and what lies around and what is carried is registered.
pub proof fn law_integrity_rules_out_faults(state: GameStateView, direction: Direction)
    requires
        state.integral(),
    ensures
        state.here() is Some,
        state.passage(direction) matches Some((destination, _)) ==> state.world.room(
            destination,
        ) is Some,
        state.world.registers(state.around()),
        state.world.registers(carried(state.inventory)),
{
    let here = state.here()->0;
    lemma_room_from(state.world.rooms, state.current_room, 0);
    lemma_passage_from(here, direction, 0);
    assert(state.world.leads_on(here));
    assert(state.world.registers(here.entities));
    if let Some(c) = here.passage_from(direction, 0) {
        assert(state.world.room(here.connected_rooms[c].2) is Some);
    }
}

/// At the start every identifier but the one for dust is registered.
proof fn lemma_initial_registry(id: EntityId)
    requires
        id != EntityId::Dust,
    ensures
        initial_world().entity(id) is Some,
{
    match id {
        EntityId::Furniture(furniture) => lemma_initial_furniture(furniture),
        EntityId::Item(item) => lemma_initial_item(item),
        EntityId::Dust => {},
    }
}

/// At the start no list of a room holds the identifier for dust.
proof fn lemma_initial_room_lists(id: RoomIdentifier)
    ensures
        forall|i: int|
            0 <= i < room_entities(id).len() ==> (#[trigger] room_entities(id)[i]) != EntityId::Dust,
{
}

/// At the start no piece of furniture holds the identifier for dust.
proof fn lemma_initial_furniture_contents(id: FurnId)
    ensures
        forall|i: int|
            0 <= i < furniture_contents(id).len() ==> (#[trigger] furniture_contents(id)[i])
                != EntityId::Dust,
{
}

/// At the start no item holds the identifier for dust.
proof fn lemma_initial_item_contents(id: ItemId)
    ensures
        forall|i: int|
            0 <= i < item_contents(id).len() ==> (#[trigger] item_contents(id)[i])
                != EntityId::Dust,
{
}

/// The world is built integral.
pub proof fn law_initial_world_is_integral()
    ensures
        initial_world().integral(),
{
    let world = initial_world();
    assert forall|id: RoomIdentifier| world.room(id) is Some by {
        lemma_initial_room(id);
    }
    assert forall|id: EntityId| id != EntityId::Dust implies world.entity(id) is Some by {
        lemma_initial_registry(id);
    }
    assert forall|k: int| 0 <= k < world.rooms.len() implies world.leads_on(
        #[trigger] world.rooms[k],
    ) by {}
    assert forall|k: int| 0 <= k < world.rooms.len() implies world.registers(
        (#[trigger] world.rooms[k]).entities,
    ) by {
        let id = RoomIdentifier::every()[k];
        assert(world.rooms[k] == room_view(id));
        lemma_initial_room_lists(id);
    }
    assert forall|j: int| 0 <= j < world.entities.len() implies world.registers(
        (#[trigger] world.entities[j]).held(),
    ) by {
        let furniture = FurnId::every();
        if j < furniture.len() {
            assert(world.entities[j] == furniture_view(furniture[j]));
            lemma_initial_furniture_contents(furniture[j]);
        } else {
            let items = ItemId::every();
            assert(world.entities[j] == item_view(items[j - furniture.len()]));
            lemma_initial_item_contents(items[j - furniture.len()]);
        }
    }
}

/// A session starts integral, in whichever room it starts.
pub proof fn law_initial_integrity(starting_room: RoomIdentifier)
    ensures
        GameStateView::initial(starting_room).integral(),
{
    law_initial_world_is_integral();
    lemma_initial_room(starting_room);
    lemma_initial_item(ItemId::AssistantCard);
    let state = GameStateView::initial(starting_room);
    assert(carried(state.inventory).len() == 1);
    assert(carried(state.inventory)[0] == EntityId::Item(ItemId::AssistantCard));
}

} // verus!
