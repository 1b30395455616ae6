//! The player's verbs: each takes the session and the names the player gave
//! and answers with a text.

use crate::engine::shuttle::answer_text;
use crate::engine::state::{GameState, GameStateView};
use crate::entity::item::{after_put, after_remove, Containable, Edible, ItemId, Readable, Usable};
use crate::entity::{AnyEntity, Entity, EntityId, EntityKind, EntityView, Holder};
use crate::utils::{joined, lowercase, texts, to_lowercase, without};
use crate::world::data::{lemma_entity_from, lemma_room_from, World, WorldView};
use crate::world::room::{Access, Direction, PassageType, RoomIdentifier, RoomView};
use vstd::prelude::*;

verus! {

/// What a verb may ask of the entity it looks for.
#[derive(Debug, PartialEq, Eq, Clone, Copy, Structural)]
pub enum Capability {
    /// Nothing: any entity will do.
    Any,
    Containable,
    Edible,
    Readable,
    Usable,
}

impl EntityKind {
    /// Whether entities of this kind have the capability.
    pub open spec fn has(self, capability: Capability) -> bool {
        match capability {
            Capability::Any => true,
            Capability::Containable => self.is_containable(),
            Capability::Edible => self.is_edible(),
            Capability::Readable => self.is_readable(),
            Capability::Usable => self.is_usable(),
        }
    }
}

impl AnyEntity {
    /// Whether the entity has the capability.
    pub fn has(&self, capability: Capability) -> (yes: bool)
        ensures
            yes == self@.kind.has(capability),
    {
        match capability {
            Capability::Any => true,
            Capability::Containable => self.as_containable().is_some(),
            Capability::Edible => self.as_edible().is_some(),
            Capability::Readable => self.as_readable().is_some(),
            Capability::Usable => self.as_usable().is_some(),
        }
    }
}

impl EntityView {
    /// Whether the entity answers to the name: its own name or one of its
    /// aliases, folded to lower case, is the name exactly.
    pub open spec fn answers_to(self, name: Seq<char>) -> bool {
        lowercase(self.name) == name || exists|i: int|
            0 <= i < self.aliases.len() && lowercase(#[trigger] self.aliases[i]) == name
    }
}

/// Whether the entity answers to a name that is already folded to lower
/// case.
pub fn answers_to(entity: &AnyEntity, name: &str) -> (yes: bool)
    ensures
        yes == entity@.answers_to(name@),
{
    let own = to_lowercase(entity.name());
    if crate::utils::str_equal(own.as_str(), name) {
        return true;
    }
    let aliases = entity.aliases();
    let mut i: usize = 0;
    while i < aliases.len()
        invariant
            i <= aliases.len(),
            texts(aliases@) == entity@.aliases,
            lowercase(entity@.name) != name@,
            forall|k: int| 0 <= k < i ==> lowercase(#[trigger] entity@.aliases[k]) != name@,
        decreases aliases.len() - i,
    {
        assert(texts(aliases@)[i as int] == aliases@[i as int]@);
        let folded = to_lowercase(aliases[i].as_str());
        if crate::utils::str_equal(folded.as_str(), name) {
            assert(lowercase(entity@.aliases[i as int]) == name@);
            return true;
        }
        i += 1;
    }
    false
}

/// The inventory as entity identifiers.
pub open spec fn carried(inventory: Seq<ItemId>) -> Seq<EntityId> {
    inventory.map_values(|item: ItemId| EntityId::Item(item))
}

impl WorldView {
    /// Whether the identifier names a registered entity that answers to the
    /// name and has the capability.
    pub open spec fn resolves(self, id: EntityId, name: Seq<char>, capability: Capability) -> bool {
        self.entity(id) matches Some(entity) && entity.answers_to(name) && entity.kind.has(
            capability,
        )
    }

    /// The index in `ids` of the first identifier that resolves, looking from
    /// `start` on.
    pub open spec fn find_from(
        self,
        ids: Seq<EntityId>,
        name: Seq<char>,
        capability: Capability,
        start: int,
    ) -> Option<int>
        decreases ids.len() - start,
    {
        if start < 0 || start >= ids.len() {
            None
        } else if self.resolves(ids[start], name, capability) {
            Some(start)
        } else {
            self.find_from(ids, name, capability, start + 1)
        }
    }

    /// The first identifier in `ids` that resolves.
    pub open spec fn find(self, ids: Seq<EntityId>, name: Seq<char>, capability: Capability)
        -> Option<EntityId> {
        match self.find_from(ids, name, capability, 0) {
            Some(i) => Some(ids[i]),
            None => None,
        }
    }
}

/// What `find_from` finds is an index of `ids` whose identifier resolves, and
/// no earlier one from `start` on does.
pub proof fn lemma_find_from(
    world: WorldView,
    ids: Seq<EntityId>,
    name: Seq<char>,
    capability: Capability,
    start: int,
)
    requires
        0 <= start,
    ensures
        world.find_from(ids, name, capability, start) matches Some(i) ==> start <= i < ids.len()
            && world.resolves(ids[i], name, capability) && forall|j: int|
            start <= j < i ==> !world.resolves(#[trigger] ids[j], name, capability),
        world.find_from(ids, name, capability, start) is None ==> forall|j: int|
            start <= j < ids.len() ==> !world.resolves(#[trigger] ids[j], name, capability),
    decreases ids.len() - start,
{
    if start < ids.len() && !world.resolves(ids[start], name, capability) {
        lemma_find_from(world, ids, name, capability, start + 1);
    }
}

/// Looks through the identifiers for the first that names a registered
/// entity which answers to the name and has the capability.
pub fn find_in(world: &World, ids: &Vec<EntityId>, name: &str, capability: Capability) -> (found:
    Option<EntityId>)
    ensures
        found == world@.find(ids@, name@, capability),
{
    let mut i: usize = 0;
    while i < ids.len()
        invariant
            i <= ids.len(),
            world@.find_from(ids@, name@, capability, 0) == world@.find_from(
                ids@,
                name@,
                capability,
                i as int,
            ),
        decreases ids.len() - i,
    {
        if let Some(entity) = world.get_entity(ids[i]) {
            if answers_to(entity, name) && entity.has(capability) {
                return Some(ids[i]);
            }
        }
        i += 1;
    }
    None
}

/// The inventory as entity identifiers.
pub fn carried_ids(inventory: &Vec<ItemId>) -> (ids: Vec<EntityId>)
    ensures
        ids@ == carried(inventory@),
{
    let mut ids: Vec<EntityId> = Vec::new();
    let mut i: usize = 0;
    while i < inventory.len()
        invariant
            i <= inventory.len(),
            ids@ == carried(inventory@).subrange(0, i as int),
        decreases inventory.len() - i,
    {
        ids.push(EntityId::Item(inventory[i]));
        i += 1;
        assert(ids@ =~= carried(inventory@).subrange(0, i as int));
    }
    assert(carried(inventory@).subrange(0, inventory.len() as int) =~= carried(inventory@));
    ids
}

impl GameStateView {
    /// What lies in the current room; nothing if the room is unknown.
    pub open spec fn around(self) -> Seq<EntityId> {
        match self.here() {
            Some(room) => room.entities,
            None => Seq::empty(),
        }
    }

    /// The first entity in the current room that answers to the name and has
    /// the capability.
    pub open spec fn found_in_room(self, name: Seq<char>, capability: Capability) -> Option<
        EntityId,
    > {
        self.world.find(self.around(), name, capability)
    }

    /// The first entity in the inventory that answers to the name and has
    /// the capability.
    pub open spec fn found_in_inventory(self, name: Seq<char>, capability: Capability) -> Option<
        EntityId,
    > {
        self.world.find(carried(self.inventory), name, capability)
    }

    /// The first entity that answers to the name and has the capability,
    /// looking through the current room and then through the inventory.
    pub open spec fn found_nearby(self, name: Seq<char>, capability: Capability) -> Option<
        EntityId,
    > {
        match self.found_in_room(name, capability) {
            Some(id) => Some(id),
            None => self.found_in_inventory(name, capability),
        }
    }
}

/// The first entity in the current room that answers to the name and has the
/// capability. The name is taken as it stands: fold it first.
pub fn find_in_room(game_state: &GameState, name: &str, capability: Capability) -> (found: Option<
    EntityId,
>)
    ensures
        found == game_state@.found_in_room(name@, capability),
{
    match game_state.current_room_entities() {
        Some(ids) => find_in(&game_state.world, ids, name, capability),
        None => None,
    }
}

/// The first entity in the inventory that answers to the name and has the
/// capability. The name is taken as it stands: fold it first.
pub fn find_in_inventory(game_state: &GameState, name: &str, capability: Capability) -> (found:
    Option<EntityId>)
    ensures
        found == game_state@.found_in_inventory(name@, capability),
{
    let ids = carried_ids(&game_state.inventory);
    find_in(&game_state.world, &ids, name, capability)
}

/// The first entity that answers to the name and has the capability, looking
/// through the current room and then through the inventory.
pub fn find_nearby(game_state: &GameState, name: &str, capability: Capability) -> (found: Option<
    EntityId,
>)
    ensures
        found == game_state@.found_nearby(name@, capability),
{
    match find_in_room(game_state, name, capability) {
        Some(id) => Some(id),
        None => find_in_inventory(game_state, name, capability),
    }
}

impl WorldView {
    /// The names of the registered entities among `ids`, in order, folded to
    /// lower case where `folded`.
    pub open spec fn names_of(self, ids: Seq<EntityId>, folded: bool) -> Seq<Seq<char>>
        decreases ids.len(),
    {
        if ids.len() == 0 {
            Seq::empty()
        } else {
            let rest = self.names_of(ids.drop_last(), folded);
            match self.entity(ids.last()) {
                Some(entity) => rest.push(
                    if folded {
                        lowercase(entity.name)
                    } else {
                        entity.name
                    },
                ),
                None => rest,
            }
        }
    }
}

/// The names of the registered entities among the identifiers, in order,
/// folded to lower case where `folded`.
pub fn names_of(world: &World, ids: &Vec<EntityId>, folded: bool) -> (names: Vec<String>)
    ensures
        texts(names@) == world@.names_of(ids@, folded),
{
    let mut names: Vec<String> = Vec::new();
    let mut i: usize = 0;
    assert(texts(names@) =~= world@.names_of(ids@.subrange(0, 0), folded));
    while i < ids.len()
        invariant
            i <= ids.len(),
            texts(names@) == world@.names_of(ids@.subrange(0, i as int), folded),
        decreases ids.len() - i,
    {
        let ghost before = names@;
        assert(ids@.subrange(0, i + 1).drop_last() =~= ids@.subrange(0, i as int));
        if let Some(entity) = world.get_entity(ids[i]) {
            let name = if folded {
                to_lowercase(entity.name())
            } else {
                entity.name().to_owned()
            };
            names.push(name);
            assert(texts(names@) =~= texts(before).push(name@));
        }
        i += 1;
    }
    assert(ids@.subrange(0, ids.len() as int) =~= ids@);
    names
}

/// How a passage is worded in a listing.
pub open spec fn passage_phrase(passage: (Direction, PassageType, RoomIdentifier)) -> Seq<char> {
    (match passage.1 {
        PassageType::Door => "a door to the"@,
        PassageType::Free => "continue to the"@,
    }) + " "@ + passage.0.label_text()
}

/// The wordings of a room's passages, in order.
pub open spec fn passage_phrases(passages: Seq<(Direction, PassageType, RoomIdentifier)>) -> Seq<
    Seq<char>,
> {
    passages.map_values(|p: (Direction, PassageType, RoomIdentifier)| passage_phrase(p))
}

fn phrases_of(passages: &Vec<(Direction, PassageType, RoomIdentifier)>) -> (phrases: Vec<String>)
    ensures
        texts(phrases@) == passage_phrases(passages@),
{
    let mut phrases: Vec<String> = Vec::new();
    let mut i: usize = 0;
    while i < passages.len()
        invariant
            i <= passages.len(),
            texts(phrases@) == passage_phrases(passages@).subrange(0, i as int),
        decreases passages.len() - i,
    {
        let passage = passages[i];
        let mut phrase = match passage.1 {
            PassageType::Door => "a door to the".to_owned(),
            PassageType::Free => "continue to the".to_owned(),
        };
        phrase.append(" ");
        phrase.append(passage.0.label());
        assert(phrase@ == passage_phrase(passages@[i as int]));
        let ghost before = phrases@;
        phrases.push(phrase);
        i += 1;
        assert(texts(phrases@) =~= texts(before).push(phrase@));
        assert(texts(phrases@) =~= passage_phrases(passages@).subrange(0, i as int));
    }
    assert(passage_phrases(passages@).subrange(0, passages.len() as int) =~= passage_phrases(
        passages@,
    ));
    phrases
}

/// The listing of what can be seen, given the names: the names joined by
/// commas with one full stop, or the remark that nothing is there.
pub open spec fn sight_listing(names: Seq<Seq<char>>) -> Seq<char> {
    if names.len() > 0 {
        "\nYou can see the following things: "@ + joined(names, ", "@) + "."@
    } else {
        "\nThere's no items here."@
    }
}

/// The listing of where one can go, given the wordings of the passages.
pub open spec fn way_listing(phrases: Seq<Seq<char>>) -> Seq<char> {
    "\nYou can get to: "@ + joined(phrases, ", "@) + "."@
}

impl GameStateView {
    /// What looking around shows: the full description of the current room,
    /// what can be seen in it, and where its passages lead.
    pub open spec fn look_text(self) -> Seq<char> {
        match self.here() {
            Some(room) => room.full_description + sight_listing(
                self.world.names_of(room.entities, false),
            ) + way_listing(passage_phrases(room.connected_rooms)),
            None => "Room not found in the world. Are you in space? Oh crap"@,
        }
    }
}

/// Looks around the current room.
pub fn look(game_state: &GameState) -> (text: String)
    ensures
        text@ == game_state@.look_text(),
{
    match game_state.world.room_position(&game_state.current_room) {
        Some(i) => {
            let room = &game_state.world.rooms[i];
            let names = names_of(&game_state.world, &room.entities, false);
            let sights = if names.len() > 0 {
                let mut sights = "\nYou can see the following things: ".to_owned();
                sights.append(crate::utils::join(&names, ", ").as_str());
                sights.append(".");
                sights
            } else {
                "\nThere's no items here.".to_owned()
            };
            let phrases = phrases_of(&room.connected_rooms);
            let mut ways = "\nYou can get to: ".to_owned();
            ways.append(crate::utils::join(&phrases, ", ").as_str());
            ways.append(".");
            let mut text = room.full_description.clone();
            text.append(sights.as_str());
            text.append(ways.as_str());
            text
        },
        None => "Room not found in the world. Are you in space? Oh crap".to_owned(),
    }
}

impl WorldView {
    /// What a closer look at an entity shows: its name and description, and
    /// what it contains if it contains anything.
    pub open spec fn close_look(self, entity: EntityView) -> Seq<char> {
        "You look at the "@ + entity.name + ":\n"@ + entity.description + (if entity.held().len()
            > 0 {
            "\nIt contains: "@ + joined(self.names_of(entity.held(), false), ", "@)
        } else {
            Seq::empty()
        })
    }
}

impl GameStateView {
    /// What looking at something shows: the closer look at the first entity
    /// nearby that answers to the name, or the remark that there is none.
    pub open spec fn look_at_text(self, name: Seq<char>) -> Seq<char> {
        match self.found_nearby(name, Capability::Any) {
            Some(id) => self.world.close_look(self.world.entity(id)->0),
            None => "There is no "@ + name + " here to look at."@,
        }
    }
}

/// Describes an entity and lists what it contains.
pub fn look_at_helper(game_state: &GameState, entity: &AnyEntity) -> (text: String)
    ensures
        text@ == game_state@.world.close_look(entity@),
{
    let mut text = "You look at the ".to_owned();
    text.append(entity.name());
    text.append(":\n");
    text.append(entity.description());
    let mut listing = String::new();
    if let Some(holder) = entity.as_containable() {
        if holder.contains().len() > 0 {
            listing.append("\nIt contains: ");
            let names = names_of(&game_state.world, holder.contains(), false);
            listing.append(crate::utils::join(&names, ", ").as_str());
            assert(listing@ =~= "\nIt contains: "@ + joined(
                game_state@.world.names_of(entity@.held(), false),
                ", "@,
            ));
        }
    }
    text.append(listing.as_str());
    text
}

/// Looks at the first entity in the room, or else in the inventory, that
/// answers to the name once it is folded to lower case.
pub fn look_at(game_state: &GameState, obj_name: &str) -> (text: String)
    ensures
        text@ == game_state@.look_at_text(lowercase(obj_name@)),
{
    let obj_name = to_lowercase(obj_name);
    look_at_folded(game_state, obj_name.as_str())
}

/// Looks at the first entity in the room, or else in the inventory, that
/// answers to the name as it stands.
pub fn look_at_folded(game_state: &GameState, obj_name: &str) -> (text: String)
    ensures
        text@ == game_state@.look_at_text(obj_name@),
{
    proof {
        lemma_found_nearby(game_state@, obj_name@, Capability::Any);
    }
    let found = match find_nearby(game_state, obj_name, Capability::Any) {
        Some(id) => game_state.world.get_entity(id),
        None => None,
    };
    match found {
        Some(entity) => look_at_helper(game_state, entity),
        None => {
            let mut text = "There is no ".to_owned();
            text.append(obj_name);
            text.append(" here to look at.");
            text
        },
    }
}

/// What is found nearby is registered, answers to the name and has the
/// capability; what is found in the inventory is an item.
pub proof fn lemma_found_nearby(state: GameStateView, name: Seq<char>, capability: Capability)
    ensures
        state.found_in_room(name, capability) matches Some(id) ==> state.world.resolves(
            id,
            name,
            capability,
        ) && state.around().contains(id),
        state.found_in_inventory(name, capability) matches Some(id) ==> state.world.resolves(
            id,
            name,
            capability,
        ) && id is Item && state.inventory.contains(id->Item_0),
        state.found_nearby(name, capability) matches Some(id) ==> state.world.resolves(
            id,
            name,
            capability,
        ),
{
    lemma_find_from(state.world, state.around(), name, capability, 0);
    lemma_find_from(state.world, carried(state.inventory), name, capability, 0);
    if let Some(i) = state.world.find_from(carried(state.inventory), name, capability, 0) {
        assert(state.inventory[i] == carried(state.inventory)[i]->Item_0);
    }
}

/// Takes every occurrence of an identifier out of a list.
pub fn remove_all(list: &mut Vec<EntityId>, entity_id: EntityId)
    ensures
        final(list)@ == without(old(list)@, entity_id),
{
    let mut kept: Vec<EntityId> = Vec::new();
    let mut i: usize = 0;
    while i < list.len()
        invariant
            i <= list.len(),
            kept@ == without(list@.subrange(0, i as int), entity_id),
        decreases list.len() - i,
    {
        assert(list@.subrange(0, i + 1).drop_last() =~= list@.subrange(0, i as int));
        if list[i] != entity_id {
            kept.push(list[i]);
        }
        i += 1;
    }
    assert(list@.subrange(0, list.len() as int) =~= list@);
    *list = kept;
}

/// Takes every occurrence of an item out of an inventory.
pub fn remove_all_items(list: &mut Vec<ItemId>, item_id: ItemId)
    ensures
        final(list)@ == without(old(list)@, item_id),
{
    let mut kept: Vec<ItemId> = Vec::new();
    let mut i: usize = 0;
    while i < list.len()
        invariant
            i <= list.len(),
            kept@ == without(list@.subrange(0, i as int), item_id),
        decreases list.len() - i,
    {
        assert(list@.subrange(0, i + 1).drop_last() =~= list@.subrange(0, i as int));
        if list[i] != item_id {
            kept.push(list[i]);
        }
        i += 1;
    }
    assert(list@.subrange(0, list.len() as int) =~= list@);
    *list = kept;
}

/// The article that goes before a name: none before a name that ends in
/// `s`, else "the ".
pub open spec fn article(name: Seq<char>) -> Seq<char> {
    if name.len() > 0 && name.last() == 's' {
        Seq::empty()
    } else {
        "the "@
    }
}

/// The article that goes before a name.
pub fn get_article(obj_name: &str) -> (text: &'static str)
    ensures
        text@ == article(obj_name@),
{
    let n = obj_name.unicode_len();
    if n > 0 && obj_name.get_char(n - 1) == 's' {
        proof {
            reveal_strlit("");
        }
        assert(""@ =~= Seq::<char>::empty());
        ""
    } else {
        "the "
    }
}

impl GameStateView {
    /// What picking something up answers.
    pub open spec fn pick_up_text(self, name: Seq<char>) -> Seq<char> {
        match self.found_in_room(name, Capability::Any) {
            Some(EntityId::Item(item)) => {
                let entity = self.world.entity(EntityId::Item(item))->0;
                "You pick up "@ + article(name) + entity.name + " and look at it: "@
                    + entity.description
            },
            Some(_) => "You can't pick up the "@ + name + "."@,
            None => "There is no "@ + name + " here."@,
        }
    }

    /// The session after picking something up: an item found in the current
    /// room joins the inventory and leaves the room; anything else changes
    /// nothing.
    pub open spec fn after_pick_up(self, name: Seq<char>) -> GameStateView {
        match self.found_in_room(name, Capability::Any) {
            Some(EntityId::Item(item)) => {
                let i = self.world.room_index(self.current_room)->0;
                GameStateView {
                    inventory: self.inventory.push(item),
                    world: self.world.with_room_entities(
                        i,
                        without(self.world.rooms[i].entities, EntityId::Item(item)),
                    ),
                    ..self
                }
            },
            _ => self,
        }
    }

    /// What dropping something answers.
    pub open spec fn drop_text(self, name: Seq<char>) -> Seq<char> {
        match self.found_in_inventory(name, Capability::Any) {
            Some(_) => "You've dropped "@ + article(name) + name + "."@,
            None => "You don't have a "@ + name + " to drop."@,
        }
    }

    /// The session after dropping something: an item found in the inventory
    /// leaves it and is appended to what lies in the current room.
    pub open spec fn after_drop(self, name: Seq<char>) -> GameStateView {
        match self.found_in_inventory(name, Capability::Any) {
            Some(id) => GameStateView {
                inventory: without(self.inventory, id->Item_0),
                world: match self.world.room_index(self.current_room) {
                    Some(i) => self.world.with_room_entities(
                        i,
                        self.world.rooms[i].entities.push(id),
                    ),
                    None => self.world,
                },
                ..self
            },
            None => self,
        }
    }
}

/// Picks up the first entity in the room that answers to the name once it is
/// folded to lower case. Only items can be picked up.
pub fn pick_up(game_state: &mut GameState, obj_name: &str) -> (text: String)
    ensures
        text@ == old(game_state)@.pick_up_text(lowercase(obj_name@)),
        final(game_state)@ == old(game_state)@.after_pick_up(lowercase(obj_name@)),
{
    let obj_name = to_lowercase(obj_name);
    pick_up_folded(game_state, obj_name.as_str())
}

/// Picks up the first entity in the room that answers to the name as it
/// stands. Only items can be picked up.
pub fn pick_up_folded(game_state: &mut GameState, obj_name: &str) -> (text: String)
    ensures
        text@ == old(game_state)@.pick_up_text(obj_name@),
        final(game_state)@ == old(game_state)@.after_pick_up(obj_name@),
{
    let article = get_article(obj_name);
    proof {
        lemma_found_nearby(game_state@, obj_name@, Capability::Any);
    }
    match find_in_room(game_state, obj_name, Capability::Any) {
        Some(EntityId::Item(item_id)) => {
            let entity_id = EntityId::Item(item_id);
            game_state.inventory.push(item_id);
            let text = match game_state.world.get_entity(entity_id) {
                Some(entity) => {
                    let mut text = "You pick up ".to_owned();
                    text.append(article);
                    text.append(entity.name());
                    text.append(" and look at it: ");
                    text.append(entity.description());
                    text
                },
                None => {
                    let mut text = "There seems to be a problem picking up the ".to_owned();
                    text.append(obj_name);
                    text.append(".");
                    return text;
                },
            };
            if let Some(list) = game_state.world.get_room_entities_mut(&game_state.current_room) {
                remove_all(list, entity_id);
            }
            text
        },
        Some(_) => {
            let mut text = "You can't pick up the ".to_owned();
            text.append(obj_name);
            text.append(".");
            text
        },
        None => {
            let mut text = "There is no ".to_owned();
            text.append(obj_name);
            text.append(" here.");
            text
        },
    }
}

/// Drops the first item in the inventory that answers to the name once it is
/// folded to lower case.
pub fn drop(game_state: &mut GameState, obj_name: &str) -> (text: String)
    ensures
        text@ == old(game_state)@.drop_text(lowercase(obj_name@)),
        final(game_state)@ == old(game_state)@.after_drop(lowercase(obj_name@)),
{
    let obj_name = to_lowercase(obj_name);
    drop_folded(game_state, obj_name.as_str())
}

/// Drops the first item in the inventory that answers to the name as it
/// stands.
pub fn drop_folded(game_state: &mut GameState, obj_name: &str) -> (text: String)
    ensures
        text@ == old(game_state)@.drop_text(obj_name@),
        final(game_state)@ == old(game_state)@.after_drop(obj_name@),
{
    let article = get_article(obj_name);
    proof {
        lemma_found_nearby(game_state@, obj_name@, Capability::Any);
    }
    match find_in_inventory(game_state, obj_name, Capability::Any) {
        Some(EntityId::Item(item_id)) => {
            remove_all_items(&mut game_state.inventory, item_id);
            if let Some(list) = game_state.world.get_room_entities_mut(&game_state.current_room) {
                list.push(EntityId::Item(item_id));
            }
            let mut text = "You've dropped ".to_owned();
            text.append(article);
            text.append(obj_name);
            text.append(".");
            text
        },
        Some(_) => {
            let mut text = "You can't drop the ".to_owned();
            text.append(obj_name);
            text.append(".");
            text
        },
        None => {
            let mut text = "You don't have a ".to_owned();
            text.append(obj_name);
            text.append(" to drop.");
            text
        },
    }
}

impl GameStateView {
    /// The object and the container of a put that takes place: the object is
    /// found in the inventory, a container is found nearby, the two differ
    /// and the container does not hold the object yet.
    pub open spec fn put_pair(self, obj: Seq<char>, cont: Seq<char>) -> Option<
        (EntityId, EntityId),
    > {
        match (
            self.found_in_inventory(obj, Capability::Any),
            self.found_nearby(cont, Capability::Containable),
        ) {
            (Some(obj_id), Some(cont_id)) => if cont_id != obj_id && !self.world.entity(
                cont_id,
            )->0.contents.contains(obj_id) {
                Some((obj_id, cont_id))
            } else {
                None
            },
            _ => None,
        }
    }

    /// What putting something into a container answers.
    pub open spec fn put_into_text(self, obj: Seq<char>, cont: Seq<char>) -> Seq<char> {
        match self.found_in_inventory(obj, Capability::Any) {
            None => "You don't have "@ + obj + "."@,
            Some(obj_id) => match self.found_nearby(cont, Capability::Containable) {
                None => "There's no "@ + cont + " to put things into."@,
                Some(cont_id) => if cont_id == obj_id {
                    "You can't put something into itself."@
                } else if self.world.entity(cont_id)->0.contents.contains(obj_id) {
                    "The "@ + cont + " cannot contain "@ + obj + "."@
                } else {
                    "You put "@ + obj + " into "@ + cont + "."@
                },
            },
        }
    }

    /// The session after putting something into a container: where the put
    /// takes place the object leaves the inventory and is appended to the
    /// container's contents; else nothing changes.
    pub open spec fn after_put_into(self, obj: Seq<char>, cont: Seq<char>) -> GameStateView {
        match self.put_pair(obj, cont) {
            Some((obj_id, cont_id)) => {
                let j = self.world.entity_index(cont_id)->0;
                GameStateView {
                    inventory: without(self.inventory, obj_id->Item_0),
                    world: self.world.with_entity(j, after_put(self.world.entities[j], obj_id)),
                    ..self
                }
            },
            None => self,
        }
    }

    /// The container and the entity of a taking out that takes place: a
    /// container is found nearby, and the entity is the first in its contents
    /// that answers to the name.
    pub open spec fn take_pair(self, item: Seq<char>, cont: Seq<char>) -> Option<
        (EntityId, EntityId),
    > {
        match self.found_nearby(cont, Capability::Containable) {
            Some(cont_id) => match self.world.find(
                self.world.entity(cont_id)->0.contents,
                item,
                Capability::Any,
            ) {
                Some(id) => Some((cont_id, id)),
                None => None,
            },
            None => None,
        }
    }

    /// What taking something out of a container answers.
    pub open spec fn take_from_text(self, item: Seq<char>, cont: Seq<char>) -> Seq<char> {
        match self.found_nearby(cont, Capability::Containable) {
            None => "There is no "@ + cont + " here to take things from."@,
            Some(_) => match self.take_pair(item, cont) {
                None => "The "@ + item + " is not in the "@ + cont + "."@,
                Some((_, id)) => if id is Item {
                    "You take "@ + item + " from "@ + cont + "."@
                } else if self.here() is Some {
                    "You take "@ + item + " from "@ + cont
                        + ", but it's not an item you can carry."@
                } else {
                    "Could not find the current room to return the entity."@
                },
            },
        }
    }

    /// The session after taking something out of a container: where the
    /// taking takes place, the entity leaves the container; an item joins the
    /// inventory, anything else is put down in the current room.
    pub open spec fn after_take_from(self, item: Seq<char>, cont: Seq<char>) -> GameStateView {
        match self.take_pair(item, cont) {
            Some((cont_id, id)) => {
                let j = self.world.entity_index(cont_id)->0;
                let emptied = self.world.with_entity(j, after_remove(self.world.entities[j], id));
                match id {
                    EntityId::Item(item_id) => GameStateView {
                        inventory: self.inventory.push(item_id),
                        world: emptied,
                        ..self
                    },
                    _ => GameStateView {
                        world: match emptied.room_index(self.current_room) {
                            Some(i) => emptied.with_room_entities(
                                i,
                                emptied.rooms[i].entities.push(id),
                            ),
                            None => emptied,
                        },
                        ..self
                    },
                }
            },
            None => self,
        }
    }

    /// What eating something answers.
    pub open spec fn eat_text(self, name: Seq<char>) -> Seq<char> {
        match self.found_in_inventory(name, Capability::Edible) {
            Some(_) => "You eat the "@ + name + ". Yum!"@,
            None => "You don't have any "@ + name + " to eat."@,
        }
    }

    /// The session after eating something: what was eaten counts as eaten
    /// and has left the inventory.
    pub open spec fn after_eat(self, name: Seq<char>) -> GameStateView {
        match self.found_in_inventory(name, Capability::Edible) {
            Some(id) => {
                let j = self.world.entity_index(id)->0;
                GameStateView {
                    inventory: without(self.inventory, id->Item_0),
                    world: self.world.with_entity(
                        j,
                        EntityView { eaten: true, ..self.world.entities[j] },
                    ),
                    ..self
                }
            },
            None => self,
        }
    }

    /// What reading something answers.
    pub open spec fn read_text(self, name: Seq<char>) -> Seq<char> {
        match self.found_in_inventory(name, Capability::Readable) {
            Some(id) => "You read the "@ + name + ": "@ + self.world.entity(id)->0.text,
            None => "You don't see a "@ + name + " to read."@,
        }
    }
}

fn not_a_container(name: &str) -> (text: String)
    ensures
        text@ == name@ + " is not a container."@,
{
    let mut text = name.to_owned();
    text.append(" is not a container.");
    text
}

fn cannot_eat(name: &str) -> (text: String)
    ensures
        text@ == "You can't eat the "@ + name@ + "."@,
{
    let mut text = "You can't eat the ".to_owned();
    text.append(name);
    text.append(".");
    text
}

/// The first container in the room, or else in the inventory, that answers
/// to the name as it stands, with its identifier.
pub fn find_containable_entity<'a>(game_state: &'a GameState, name: &str) -> (found: Option<
    (&'a Holder, EntityId),
>)
    ensures
        match found {
            Some((holder, id)) => game_state@.found_nearby(name@, Capability::Containable) == Some(
                id,
            ) && game_state@.world.entity(id) == Some(holder.model()),
            None => game_state@.found_nearby(name@, Capability::Containable) is None,
        },
{
    proof {
        lemma_found_nearby(game_state@, name@, Capability::Containable);
    }
    match find_nearby(game_state, name, Capability::Containable) {
        Some(id) => match game_state.world.get_containable(id) {
            Some(holder) => Some((holder, id)),
            None => None,
        },
        None => None,
    }
}

/// Puts the object, an item of the inventory, into a container of the room
/// or the inventory. Both names are folded to lower case first.
pub fn put_into(game_state: &mut GameState, obj_name: &str, cont_name: &str) -> (text: String)
    ensures
        text@ == old(game_state)@.put_into_text(lowercase(obj_name@), lowercase(cont_name@)),
        final(game_state)@ == old(game_state)@.after_put_into(
            lowercase(obj_name@),
            lowercase(cont_name@),
        ),
{
    let obj_name = to_lowercase(obj_name);
    let cont_name = to_lowercase(cont_name);
    put_into_folded(game_state, obj_name.as_str(), cont_name.as_str())
}

/// Puts the object, an item of the inventory, into a container of the room
/// or the inventory. Both names are taken as they stand.
pub fn put_into_folded(game_state: &mut GameState, obj_name: &str, cont_name: &str) -> (text:
    String)
    ensures
        text@ == old(game_state)@.put_into_text(obj_name@, cont_name@),
        final(game_state)@ == old(game_state)@.after_put_into(obj_name@, cont_name@),
{
    proof {
        lemma_found_nearby(game_state@, obj_name@, Capability::Any);
        lemma_found_nearby(game_state@, cont_name@, Capability::Containable);
    }
    let obj_id = match find_in_inventory(game_state, obj_name, Capability::Any) {
        Some(id) => id,
        None => {
            let mut text = "You don't have ".to_owned();
            text.append(obj_name);
            text.append(".");
            return text;
        },
    };
    let cont_id = match find_containable_entity(game_state, cont_name) {
        Some((_, id)) => id,
        None => {
            let mut text = "There's no ".to_owned();
            text.append(cont_name);
            text.append(" to put things into.");
            return text;
        },
    };
    if cont_id == obj_id {
        return "You can't put something into itself.".to_owned();
    }
    proof {
        lemma_entity_from(game_state@.world.entities, cont_id, 0);
    }
    match game_state.world.get_containable_mut(cont_id) {
        Some(container) => {
            if container.can_contain(obj_id) {
                if let EntityId::Item(item_id) = obj_id {
                    remove_all_items(&mut game_state.inventory, item_id);
                }
                match container.put(obj_id) {
                    Ok(_) => {
                        let mut text = "You put ".to_owned();
                        text.append(obj_name);
                        text.append(" into ");
                        text.append(cont_name);
                        text.append(".");
                        text
                    },
                    Err(refusal) => refusal,
                }
            } else {
                assert(game_state.world@.entities =~= old(game_state).world@.entities);
                let mut text = "The ".to_owned();
                text.append(cont_name);
                text.append(" cannot contain ");
                text.append(obj_name);
                text.append(".");
                text
            }
        },
        None => not_a_container(cont_name),
    }
}

/// Takes an entity out of a container of the room or the inventory. Both
/// names are folded to lower case first.
pub fn take_from_container(game_state: &mut GameState, item_name: &str, container_name: &str)
    -> (text: String)
    ensures
        text@ == old(game_state)@.take_from_text(
            lowercase(item_name@),
            lowercase(container_name@),
        ),
        final(game_state)@ == old(game_state)@.after_take_from(
            lowercase(item_name@),
            lowercase(container_name@),
        ),
{
    let item_name = to_lowercase(item_name);
    let container_name = to_lowercase(container_name);
    take_from_container_folded(game_state, item_name.as_str(), container_name.as_str())
}

/// Takes an entity out of a container of the room or the inventory. Both
/// names are taken as they stand.
pub fn take_from_container_folded(
    game_state: &mut GameState,
    item_name: &str,
    container_name: &str,
) -> (text: String)
    ensures
        text@ == old(game_state)@.take_from_text(item_name@, container_name@),
        final(game_state)@ == old(game_state)@.after_take_from(item_name@, container_name@),
{
    proof {
        lemma_found_nearby(game_state@, container_name@, Capability::Containable);
    }
    let container_id = match find_containable_entity(game_state, container_name) {
        Some((_, id)) => id,
        None => {
            let mut text = "There is no ".to_owned();
            text.append(container_name);
            text.append(" here to take things from.");
            return text;
        },
    };
    let taken = match game_state.world.get_containable(container_id) {
        Some(container) => find_in(
            &game_state.world,
            container.contains(),
            item_name,
            Capability::Any,
        ),
        None => {
            return not_a_container(container_name);
        },
    };
    let entity_id = match taken {
        Some(id) => id,
        None => {
            let mut text = "The ".to_owned();
            text.append(item_name);
            text.append(" is not in the ");
            text.append(container_name);
            text.append(".");
            return text;
        },
    };
    proof {
        let contents = game_state@.world.entity(container_id)->0.contents;
        lemma_find_from(game_state@.world, contents, item_name@, Capability::Any, 0);
        let at = game_state@.world.find_from(contents, item_name@, Capability::Any, 0)->0;
        assert(contents[at] == entity_id);
        lemma_entity_from(game_state@.world.entities, container_id, 0);
    }
    let removed = match game_state.world.get_containable_mut(container_id) {
        Some(container) => container.remove(entity_id),
        None => {
            return not_a_container(container_name);
        },
    };
    match removed {
        Ok(_) => {
            if let EntityId::Item(item_id) = entity_id {
                game_state.inventory.push(item_id);
                let mut text = "You take ".to_owned();
                text.append(item_name);
                text.append(" from ");
                text.append(container_name);
                text.append(".");
                text
            } else {
                match game_state.world.get_room_entities_mut(&game_state.current_room) {
                    Some(entities) => {
                        entities.push(entity_id);
                        let mut text = "You take ".to_owned();
                        text.append(item_name);
                        text.append(" from ");
                        text.append(container_name);
                        text.append(", but it's not an item you can carry.");
                        text
                    },
                    None => "Could not find the current room to return the entity.".to_owned(),
                }
            }
        },
        Err(refusal) => refusal,
    }
}

/// Eats the first edible item in the inventory that answers to the name
/// once it is folded to lower case.
pub fn eat(game_state: &mut GameState, item_name: &str) -> (text: String)
    ensures
        text@ == old(game_state)@.eat_text(lowercase(item_name@)),
        final(game_state)@ == old(game_state)@.after_eat(lowercase(item_name@)),
{
    let item_name = to_lowercase(item_name);
    eat_folded(game_state, item_name.as_str())
}

/// Eats the first edible item in the inventory that answers to the name as
/// it stands.
pub fn eat_folded(game_state: &mut GameState, item_name: &str) -> (text: String)
    ensures
        text@ == old(game_state)@.eat_text(item_name@),
        final(game_state)@ == old(game_state)@.after_eat(item_name@),
{
    proof {
        lemma_found_nearby(game_state@, item_name@, Capability::Edible);
    }
    match find_in_inventory(game_state, item_name, Capability::Edible) {
        Some(food_id) => {
            proof {
                lemma_entity_from(game_state@.world.entities, food_id, 0);
            }
            let eaten = match game_state.world.get_edible_mut(food_id) {
                Some(food) => food.eat(),
                None => {
                    return cannot_eat(item_name);
                },
            };
            match eaten {
                Ok(_) => {
                    if let EntityId::Item(item_id) = food_id {
                        remove_all_items(&mut game_state.inventory, item_id);
                        let mut text = "You eat the ".to_owned();
                        text.append(item_name);
                        text.append(". Yum!");
                        text
                    } else {
                        cannot_eat(item_name)
                    }
                },
                Err(refusal) => refusal.to_owned(),
            }
        },
        None => {
            let mut text = "You don't have any ".to_owned();
            text.append(item_name);
            text.append(" to eat.");
            text
        },
    }
}

/// Reads the first readable item in the inventory that answers to the name
/// once it is folded to lower case.
pub fn read(game_state: &mut GameState, item_name: &str) -> (text: String)
    ensures
        text@ == old(game_state)@.read_text(lowercase(item_name@)),
        final(game_state)@ == old(game_state)@,
{
    let item_name = to_lowercase(item_name);
    read_folded(game_state, item_name.as_str())
}

/// Reads the first readable item in the inventory that answers to the name
/// as it stands.
pub fn read_folded(game_state: &mut GameState, item_name: &str) -> (text: String)
    ensures
        text@ == old(game_state)@.read_text(item_name@),
        final(game_state)@ == old(game_state)@,
{
    proof {
        lemma_found_nearby(game_state@, item_name@, Capability::Readable);
    }
    match find_in_inventory(game_state, item_name, Capability::Readable) {
        Some(readable_id) => {
            proof {
                lemma_entity_from(game_state@.world.entities, readable_id, 0);
            }
            let contents = match game_state.world.get_readable_mut(readable_id) {
                Some(readable) => readable.read(),
                None => {
                    let mut text = "There's nothing interesting written on the ".to_owned();
                    text.append(item_name);
                    text.append(".");
                    return text;
                },
            };
            assert(game_state.world@.entities =~= old(game_state).world@.entities);
            match contents {
                Ok(contents) => {
                    let mut text = "You read the ".to_owned();
                    text.append(item_name);
                    text.append(": ");
                    text.append(contents.as_str());
                    text
                },
                Err(refusal) => refusal.to_owned(),
            }
        },
        None => {
            let mut text = "You don't see a ".to_owned();
            text.append(item_name);
            text.append(" to read.");
            text
        },
    }
}

/// Tries to open something.
pub fn open(game_state: &GameState, obj: &str) -> (text: String)
    ensures
        text@ == "You try to open the "@ + obj@ + "."@,
{
    let mut text = "You try to open the ".to_owned();
    text.append(obj);
    text.append(".");
    text
}

/// Tries to close something.
pub fn close(game_state: &GameState, obj: &str) -> (text: String)
    ensures
        text@ == "You try to close the "@ + obj@ + "."@,
{
    let mut text = "You try to close the ".to_owned();
    text.append(obj);
    text.append(".");
    text
}

/// The highest clearance that any card in the inventory grants: the
/// captain's card outranks the bosun's, and that the assistant's.
pub open spec fn clearance(inventory: Seq<ItemId>) -> Access {
    if inventory.contains(ItemId::CaptainCard) {
        Access::A
    } else if inventory.contains(ItemId::BosunCard) {
        Access::B
    } else if inventory.contains(ItemId::AssistantCard) {
        Access::C
    } else {
        Access::Unranked
    }
}

/// The highest clearance that any card in the inventory grants.
pub fn get_player_access(game_state: &GameState) -> (access: Access)
    ensures
        access == clearance(game_state@.inventory),
{
    let mut highest_access = Access::Unranked;
    let mut i: usize = 0;
    while i < game_state.inventory.len()
        invariant
            i <= game_state.inventory.len(),
            highest_access == clearance(game_state.inventory@.subrange(0, i as int)),
        decreases game_state.inventory.len() - i,
    {
        proof {
            let before = game_state.inventory@.subrange(0, i as int);
            let after = game_state.inventory@.subrange(0, i + 1);
            assert(after =~= before.push(game_state.inventory@[i as int]));
            assert forall|card: ItemId| after.contains(card) <==> before.contains(card) || card
                == game_state.inventory@[i as int] by {
                if before.contains(card) {
                    let at = choose|at: int| 0 <= at < before.len() && before[at] == card;
                    assert(after[at] == card);
                }
                if card == game_state.inventory@[i as int] {
                    assert(after[i as int] == card);
                }
            }
        }
        highest_access = match game_state.inventory[i] {
            ItemId::CaptainCard => highest_access.higher_of(Access::A),
            ItemId::BosunCard => highest_access.higher_of(Access::B),
            ItemId::AssistantCard => highest_access.higher_of(Access::C),
            _ => highest_access,
        };
        i += 1;
    }
    assert(game_state.inventory@.subrange(0, game_state.inventory.len() as int)
        =~= game_state.inventory@);
    highest_access
}

/// Whether being in the room with the inventory is deadly: the room lies in
/// open space and no space suit is carried.
pub open spec fn fatal_environment(room: RoomIdentifier, inventory: Seq<ItemId>) -> bool {
    room.is_vacuum() && !inventory.contains(ItemId::SpaceSuit)
}

/// Whether the player is in open space without a space suit.
pub fn in_fatal_environment(game_state: &GameState) -> (fatal: bool)
    ensures
        fatal == fatal_environment(game_state@.current_room, game_state@.inventory),
{
    if game_state.current_room == RoomIdentifier::OpenSpaceAirlockA || game_state.current_room
        == RoomIdentifier::OpenSpaceAirlockB {
        let mut i: usize = 0;
        while i < game_state.inventory.len()
            invariant
                i <= game_state.inventory.len(),
                forall|k: int| 0 <= k < i ==> game_state.inventory@[k] != ItemId::SpaceSuit,
            decreases game_state.inventory.len() - i,
        {
            if game_state.inventory[i] == ItemId::SpaceSuit {
                return false;
            }
            i += 1;
        }
        true
    } else {
        false
    }
}

impl WorldView {
    /// The clearance that a room asks for; an unknown room asks for none.
    pub open spec fn access_of(self, id: RoomIdentifier) -> Access {
        match self.room(id) {
            Some(room) => room.access,
            None => Access::Unranked,
        }
    }

    /// The world with one room marked as visited.
    pub open spec fn visiting(self, id: RoomIdentifier) -> WorldView {
        match self.room_index(id) {
            Some(i) => WorldView {
                rooms: self.rooms.update(i, RoomView { visited: true, ..self.rooms[i] }),
                ..self
            },
            None => self,
        }
    }

    /// What is told on entering a room: on the first visit the first
    /// thoughts and then the short description, later the short description
    /// alone. An unknown room counts as never visited, and both its texts
    /// read "Unknown room".
    pub open spec fn arrival_text(self, id: RoomIdentifier) -> Seq<char> {
        match self.room(id) {
            Some(room) => if room.visited {
                room.short_description
            } else {
                room.first_thoughts + "\n"@ + room.short_description
            },
            None => "Unknown room"@ + "\n"@ + "Unknown room"@,
        }
    }
}

/// What the door says when the clearance does not suffice.
pub open spec fn door_refusal() -> Seq<char> {
    "The door beeps with an unsatisfied tone."@
}

impl GameStateView {
    /// The passage that a move in the direction would take: where it leads
    /// and of what kind it is.
    pub open spec fn passage(self, direction: Direction) -> Option<(RoomIdentifier, PassageType)> {
        match self.here() {
            Some(room) => room.adjacent(direction),
            None => None,
        }
    }

    /// Whether a door to the room stays shut: the clearance of the inventory
    /// ranks strictly below what the room asks for.
    pub open spec fn shut_out_of(self, destination: RoomIdentifier) -> bool {
        clearance(self.inventory).rank() < self.world.access_of(destination).rank()
    }

    /// Where a move in the direction takes the player, if it takes place:
    /// there is a passage, and if it is a door the clearance suffices.
    pub open spec fn destination(self, direction: Direction) -> Option<RoomIdentifier> {
        match self.passage(direction) {
            Some((destination, passage)) => if passage == PassageType::Door && self.shut_out_of(
                destination,
            ) {
                None
            } else {
                Some(destination)
            },
            None => None,
        }
    }

    /// What a move answers.
    pub open spec fn move_answer(self, direction: Direction) -> Result<Seq<char>, Seq<char>> {
        match self.passage(direction) {
            Some((destination, _)) => if self.destination(direction) is Some {
                Ok(self.world.arrival_text(destination))
            } else {
                Err(door_refusal())
            },
            None => Err("Can't go in the direction of "@ + direction.label_text() + "."@),
        }
    }

    /// The session after a move: where the move takes place the player is in
    /// the destination, which is marked as visited, and the game is lost if
    /// the destination is deadly with what the player carries; else nothing
    /// changes.
    pub open spec fn after_move(self, direction: Direction) -> GameStateView {
        match self.destination(direction) {
            Some(destination) => GameStateView {
                current_room: destination,
                world: self.world.visiting(destination),
                lost: self.lost || fatal_environment(destination, self.inventory),
                ..self
            },
            None => self,
        }
    }
}

/// Moves the player through the passage in the given direction. A door
/// opens only to sufficient clearance. Entering open space without a space
/// suit loses the game.
pub fn move_in_direction(game_state: &mut GameState, direction: Direction) -> (answer: Result<
    String,
    String,
>)
    ensures
        answer_text(answer) == old(game_state)@.move_answer(direction),
        final(game_state)@ == old(game_state)@.after_move(direction),
{
    match game_state.world.get_adjacent_room(&game_state.current_room, direction) {
        Some((destination, passage)) => {
            if *passage == PassageType::Door {
                if get_player_access(game_state).value() < game_state.world.get_room_access(
                    &destination,
                ).value() {
                    return Err("The door beeps with an unsatisfied tone.".to_owned());
                }
            }
            game_state.current_room = destination;
            let text = if !game_state.was_current_room_visited() {
                let mut text = game_state.current_room_first_thoughts().to_owned();
                text.append("\n");
                text.append(game_state.current_room_description());
                game_state.world.set_visited(&destination);
                text
            } else {
                proof {
                    lemma_room_from(game_state@.world.rooms, destination, 0);
                    let i = game_state@.world.room_index(destination)->0;
                    assert(game_state@.world.rooms =~= game_state@.world.visiting(
                        destination,
                    ).rooms);
                }
                game_state.current_room_description().to_owned()
            };
            if in_fatal_environment(game_state) {
                game_state.lost = true;
            }
            Ok(text)
        },
        None => {
            let mut text = "Can't go in the direction of ".to_owned();
            text.append(direction.label());
            text.append(".");
            Err(text)
        },
    }
}

impl GameStateView {
    /// What using something answers: what the first usable entity nearby
    /// that answers to the name gives out.
    pub open spec fn use_text(self, name: Seq<char>) -> Seq<char> {
        match self.found_nearby(name, Capability::Usable) {
            Some(_) => crate::entity::furniture::navigation_computer::approach_hint(),
            None => "There is no "@ + name + " here to use."@,
        }
    }

    /// Whether the identifier names the registered main terminal.
    pub open spec fn is_terminal(self, id: EntityId) -> bool {
        self.world.entity(id) matches Some(entity) && entity.kind == EntityKind::MainTerminal
    }

    /// Whether the main terminal stands in the current room.
    pub open spec fn at_terminal(self) -> bool {
        exists|i: int| 0 <= i < self.around().len() && self.is_terminal(#[trigger] self.around()[i])
    }

    /// What entering a coded command answers.
    pub open spec fn enter_text(self, code: Seq<char>) -> Seq<char> {
        if self.at_terminal() {
            match self.shuttle_answer(code) {
                Ok(text) => text,
                Err(text) => text,
            }
        } else {
            "There is no terminal here to enter commands into."@
        }
    }

    /// The session after entering a coded command: at the main terminal the
    /// shuttle takes the command, elsewhere nothing changes.
    pub open spec fn after_enter(self, code: Seq<char>) -> GameStateView {
        if self.at_terminal() {
            self.after_shuttle_command(code)
        } else {
            self
        }
    }
}

/// Uses the first usable entity in the room, or else in the inventory, that
/// answers to the name once it is folded to lower case.
pub fn use_object(game_state: &mut GameState, obj_name: &str) -> (text: String)
    ensures
        text@ == old(game_state)@.use_text(lowercase(obj_name@)),
        final(game_state)@ == old(game_state)@,
{
    let obj_name = to_lowercase(obj_name);
    use_object_folded(game_state, obj_name.as_str())
}

/// Uses the first usable entity in the room, or else in the inventory, that
/// answers to the name as it stands.
pub fn use_object_folded(game_state: &mut GameState, obj_name: &str) -> (text: String)
    ensures
        text@ == old(game_state)@.use_text(obj_name@),
        final(game_state)@ == old(game_state)@,
{
    proof {
        lemma_found_nearby(game_state@, obj_name@, Capability::Usable);
    }
    match find_nearby(game_state, obj_name, Capability::Usable) {
        Some(id) => {
            proof {
                lemma_entity_from(game_state@.world.entities, id, 0);
            }
            let answer = match game_state.world.get_usable_mut(id) {
                Some(device) => device.use_it(),
                None => {
                    let mut text = "You can't use the ".to_owned();
                    text.append(obj_name);
                    text.append(".");
                    return text;
                },
            };
            assert(game_state.world@.entities =~= old(game_state).world@.entities);
            match answer {
                Ok(text) => text,
                Err(refusal) => refusal.to_owned(),
            }
        },
        None => {
            let mut text = "There is no ".to_owned();
            text.append(obj_name);
            text.append(" here to use.");
            text
        },
    }
}

/// Whether the main terminal stands in the current room.
pub fn at_terminal(game_state: &GameState) -> (yes: bool)
    ensures
        yes == game_state@.at_terminal(),
{
    match game_state.current_room_entities() {
        Some(ids) => {
            let mut i: usize = 0;
            while i < ids.len()
                invariant
                    i <= ids.len(),
                    ids@ == game_state@.around(),
                    forall|k: int| 0 <= k < i ==> !game_state@.is_terminal(#[trigger] ids@[k]),
                decreases ids.len() - i,
            {
                if let Some(entity) = game_state.world.get_entity(ids[i]) {
                    if let AnyEntity::MainTerminal(_) = entity {
                        return true;
                    }
                }
                i += 1;
            }
            false
        },
        None => false,
    }
}

/// Enters a coded command into the main terminal, if it stands in the
/// current room.
pub fn enter(game_state: &mut GameState, command: &str) -> (text: String)
    ensures
        text@ == old(game_state)@.enter_text(command@),
        final(game_state)@ == old(game_state)@.after_enter(command@),
{
    if at_terminal(game_state) {
        match game_state.enter_shuttle_command(command) {
            Ok(text) => text,
            Err(text) => text,
        }
    } else {
        "There is no terminal here to enter commands into.".to_owned()
    }
}

} // verus!
