//! Items: what the player can carry, and the capabilities of entities.

pub mod container;
pub mod food;
pub mod text_item;

use crate::entity::{Entity, EntityId, EntityKind, EntityView};
use crate::utils::{first_at, lemma_first_at_contains, texts};
use vstd::prelude::*;

verus! {

/// The items.
#[derive(Debug, PartialEq, Eq, Hash, Clone, Copy, Structural)]
pub enum ItemId {
    Bucket,
    SpaceRation,
    WaterBottle,
    EmptyBottle,
    SecretBottle,
    CounterNote,
    Biscuits,
    Plate,
    FoodSurrogateBottle,
    Fork,
    LuckyCoin,
    AssistantCard,
    BosunCard,
    CaptainCard,
    SpaceSuit,
    ShuttleManual,
    Dust,
}

impl Default for ItemId {
    fn default() -> (id: ItemId)
        ensures
            id == ItemId::Dust,
    {
        ItemId::Dust
    }
}

impl ItemId {
    /// Every item, in declaration order.
    pub open spec fn every() -> Seq<ItemId> {
        seq![
            ItemId::Bucket,
            ItemId::SpaceRation,
            ItemId::WaterBottle,
            ItemId::EmptyBottle,
            ItemId::SecretBottle,
            ItemId::CounterNote,
            ItemId::Biscuits,
            ItemId::Plate,
            ItemId::FoodSurrogateBottle,
            ItemId::Fork,
            ItemId::LuckyCoin,
            ItemId::AssistantCard,
            ItemId::BosunCard,
            ItemId::CaptainCard,
            ItemId::SpaceSuit,
            ItemId::ShuttleManual,
            ItemId::Dust,
        ]
    }

    /// Every item, in declaration order.
    pub fn all() -> (ids: Vec<ItemId>)
        ensures
            ids@ == Self::every(),
    {
        let ids = vec![
            ItemId::Bucket,
            ItemId::SpaceRation,
            ItemId::WaterBottle,
            ItemId::EmptyBottle,
            ItemId::SecretBottle,
            ItemId::CounterNote,
            ItemId::Biscuits,
            ItemId::Plate,
            ItemId::FoodSurrogateBottle,
            ItemId::Fork,
            ItemId::LuckyCoin,
            ItemId::AssistantCard,
            ItemId::BosunCard,
            ItemId::CaptainCard,
            ItemId::SpaceSuit,
            ItemId::ShuttleManual,
            ItemId::Dust,
        ];
        assert(ids@ =~= Self::every());
        ids
    }
}

/// How large an item is.
#[derive(Debug, PartialEq, Eq, Clone, Copy, Structural)]
pub enum Size {
    Small,
    Medium,
    Large,
}

/// What a vessel can be filled with. Air stands for an empty vessel.
#[derive(Debug, PartialEq, Eq, Clone, Copy, Structural)]
pub enum Liquid {
    Water,
    Coffee,
    Fuel,
    Air,
}

/// A plain item.
pub struct Item {
    pub id: EntityId,
    pub name: String,
    pub aliases: Vec<String>,
    pub description: String,
    pub size: Size,
}

impl Item {
    pub fn new(
        id: EntityId,
        name: String,
        aliases: Vec<String>,
        description: String,
        size: Size,
    ) -> (made: Self)
        ensures
            made.id == id,
            made.name == name,
            made.aliases == aliases,
            made.description == description,
            made.size == size,
    {
        Item { id, name, aliases, description, size }
    }
}

impl Entity for Item {
    open spec fn model(&self) -> EntityView {
        EntityView {
            id: self.id,
            name: self.name@,
            aliases: texts(self.aliases@),
            description: self.description@,
            kind: EntityKind::Item,
            contents: Seq::empty(),
            text: Seq::empty(),
            eaten: false,
        }
    }

    fn get_id(&self) -> (id: EntityId) {
        self.id
    }

    fn name(&self) -> (name: &str) {
        self.name.as_str()
    }

    fn aliases(&self) -> (aliases: &Vec<String>) {
        &self.aliases
    }

    fn description(&self) -> (description: &str) {
        self.description.as_str()
    }
}

/// Something to drink.
pub struct Drink {
    pub id: EntityId,
    pub name: String,
    pub aliases: Vec<String>,
    pub description: String,
}

impl Drink {
    pub fn new(
        id: EntityId,
        name: String,
        aliases: Vec<String>,
        description: String,
    ) -> (made: Self)
        ensures
            made.id == id,
            made.name == name,
            made.aliases == aliases,
            made.description == description,
    {
        Drink { id, name, aliases, description }
    }
}

impl Entity for Drink {
    open spec fn model(&self) -> EntityView {
        EntityView {
            id: self.id,
            name: self.name@,
            aliases: texts(self.aliases@),
            description: self.description@,
            kind: EntityKind::Drink,
            contents: Seq::empty(),
            text: Seq::empty(),
            eaten: false,
        }
    }

    fn get_id(&self) -> (id: EntityId) {
        self.id
    }

    fn name(&self) -> (name: &str) {
        self.name.as_str()
    }

    fn aliases(&self) -> (aliases: &Vec<String>) {
        &self.aliases
    }

    fn description(&self) -> (description: &str) {
        self.description.as_str()
    }
}

/// The index of the first occurrence of an identifier in a list.
pub fn list_position(list: &Vec<EntityId>, entity_id: EntityId) -> (found: Option<usize>)
    ensures
        found is Some <==> list@.contains(entity_id),
        found matches Some(i) ==> i < list@.len() && list@[i as int] == entity_id,
        match found {
            Some(i) => first_at(list@, entity_id, 0) == Some(i as int),
            None => first_at(list@, entity_id, 0) is None,
        },
{
    proof {
        lemma_first_at_contains(list@, entity_id);
    }
    let mut i: usize = 0;
    while i < list.len()
        invariant
            i <= list.len(),
            first_at(list@, entity_id, 0) == first_at(list@, entity_id, i as int),
        decreases list.len() - i,
    {
        if list[i] == entity_id {
            return Some(i);
        }
        i += 1;
    }
    None
}

/// Whether an identifier occurs in a list.
pub fn list_holds(list: &Vec<EntityId>, entity_id: EntityId) -> (yes: bool)
    ensures
        yes == list@.contains(entity_id),
{
    list_position(list, entity_id).is_some()
}

/// What a container says when it refuses an entity.
pub open spec fn full_text(holder_name: Seq<char>) -> Seq<char> {
    "The "@ + holder_name + " cannot contain any more items."@
}

/// What a container says when asked for an entity that it does not hold.
pub open spec fn missing_text(entity_id: EntityId, holder_name: Seq<char>) -> Seq<char> {
    entity_id.label_text() + " is not in the "@ + holder_name + "."@
}

/// What a container says when it refuses an entity.
pub fn full_message(holder_name: &str) -> (text: String)
    ensures
        text@ == full_text(holder_name@),
{
    let mut text = "The ".to_owned();
    text.append(holder_name);
    text.append(" cannot contain any more items.");
    text
}

/// What a container says when asked for an entity that it does not hold.
pub fn missing_message(entity_id: EntityId, holder_name: &str) -> (text: String)
    ensures
        text@ == missing_text(entity_id, holder_name@),
{
    let mut text = entity_id.label().to_owned();
    text.append(" is not in the ");
    text.append(holder_name);
    text.append(".");
    text
}

/// The container after an attempt to put an entity into it: the entity is
/// appended unless the container holds it already.
pub open spec fn after_put(holder: EntityView, entity_id: EntityId) -> EntityView {
    if holder.contents.contains(entity_id) {
        holder
    } else {
        EntityView { contents: holder.contents.push(entity_id), ..holder }
    }
}

/// The container after an attempt to take an entity out of it: the first
/// occurrence of the entity leaves, if there is one.
pub open spec fn after_remove(holder: EntityView, entity_id: EntityId) -> EntityView {
    match first_at(holder.contents, entity_id, 0) {
        Some(i) => EntityView { contents: holder.contents.remove(i), ..holder },
        None => holder,
    }
}

/// The capability to hold other entities.
pub trait Containable: Entity {
    /// Whether the entity may be put in: a container takes what it does not
    /// hold yet.
    fn can_contain(&self, entity_id: EntityId) -> (yes: bool)
        ensures
            yes == !self.model().contents.contains(entity_id),
    ;

    /// Appends the entity to the contents, or refuses it.
    fn put(&mut self, entity_id: EntityId) -> (done: Result<(), String>)
        ensures
            final(self).model() == after_put(old(self).model(), entity_id),
            done is Ok <==> !old(self).model().contents.contains(entity_id),
            done matches Err(text) ==> text@ == full_text(old(self).model().name),
    ;

    /// Takes the first occurrence of the entity out of the contents, or
    /// reports that it is not there.
    fn remove(&mut self, entity_id: EntityId) -> (done: Result<(), String>)
        ensures
            final(self).model() == after_remove(old(self).model(), entity_id),
            done is Ok <==> old(self).model().contents.contains(entity_id),
            done matches Err(text) ==> text@ == missing_text(entity_id, old(self).model().name),
    ;

    /// The contents, in the order in which they were put in.
    fn contains(&self) -> (held: &Vec<EntityId>)
        ensures
            held@ == self.model().contents,
    ;
}

/// The capability to be eaten.
pub trait Edible: Entity {
    /// Eats the entity, which from then on counts as eaten.
    fn eat(&mut self) -> (done: Result<(), &'static str>)
        ensures
            done is Ok,
            final(self).model() == (EntityView { eaten: true, ..old(self).model() }),
    ;
}

/// The capability to be drunk.
pub trait Drinkable: Entity {
    /// Drinks the entity, which stays as it was.
    fn drink(&mut self) -> (done: Result<(), &'static str>)
        ensures
            done is Ok,
            final(self).model() == old(self).model(),
    ;
}

/// The capability to be read.
pub trait Readable: Entity {
    /// Reads the entity: hands out what is written on it and leaves it as it
    /// was.
    fn read(&mut self) -> (done: Result<String, &'static str>)
        ensures
            done matches Ok(text) && text@ == old(self).model().text,
            final(self).model() == old(self).model(),
    ;
}

/// The capability to be used.
pub trait Usable: Entity {
    /// Uses the entity and hands out what it answers; the entity stays as
    /// it was.
    fn use_it(&mut self) -> (done: Result<String, &'static str>)
        ensures
            final(self).model() == old(self).model(),
    ;
}

impl Drinkable for Drink {
    fn drink(&mut self) -> (done: Result<(), &'static str>) {
        Ok(())
    }
}

/// The capability to be opened and closed.
pub trait Openable {
    fn open(&mut self) -> Result<(), &'static str>;

    fn close(&mut self) -> Result<(), &'static str>;
}

/// The capability to burn.
pub trait Flammable {
    fn ignite(&mut self) -> Result<(), &'static str>;

    fn extinguish(&mut self) -> Result<(), &'static str>;
}

/// What a vessel says when it is filled though it is full.
pub open spec fn already_full_text(vessel_name: Seq<char>) -> Seq<char> {
    "The "@ + vessel_name + " is already full"@
}

/// What a vessel says when it is poured out though it is empty.
pub open spec fn already_empty_text(vessel_name: Seq<char>) -> Seq<char> {
    "The "@ + vessel_name + " is already empty"@
}

/// What a vessel says when one drinks from it though it is empty.
pub open spec fn empty_text(vessel_name: Seq<char>) -> Seq<char> {
    "The "@ + vessel_name + " is empty"@
}

fn vessel_message(vessel_name: &str, ending: &str) -> (text: String)
    ensures
        text@ == "The "@ + vessel_name@ + ending@,
{
    let mut text = "The ".to_owned();
    text.append(vessel_name);
    text.append(ending);
    text
}

/// The capability to hold a liquid. A vessel that holds air is empty.
pub trait LiquidContainable {
    /// What the vessel holds.
    spec fn liquid(&self) -> Liquid;

    /// The name of the vessel.
    spec fn vessel_name(&self) -> Seq<char>;

    /// Fills an empty vessel; a full one refuses.
    fn fill(&mut self, liquid: Liquid) -> (done: Result<(), String>)
        ensures
            final(self).vessel_name() == old(self).vessel_name(),
            old(self).liquid() == Liquid::Air ==> done is Ok && final(self).liquid() == liquid,
            old(self).liquid() != Liquid::Air ==> final(self).liquid() == old(self).liquid() && (
            done matches Err(text) && text@ == already_full_text(old(self).vessel_name())),
    ;

    /// Drinks what the vessel holds and leaves it empty; an empty one
    /// refuses.
    fn drink(&mut self) -> (done: Result<(), String>)
        ensures
            final(self).vessel_name() == old(self).vessel_name(),
            final(self).liquid() == Liquid::Air,
            old(self).liquid() != Liquid::Air ==> done is Ok,
            old(self).liquid() == Liquid::Air ==> (done matches Err(text) && text@ == empty_text(
                old(self).vessel_name(),
            )),
    ;

    /// Pours out what the vessel holds and leaves it empty; an empty one
    /// refuses.
    fn pour(&mut self) -> (done: Result<(), String>)
        ensures
            final(self).vessel_name() == old(self).vessel_name(),
            final(self).liquid() == Liquid::Air,
            old(self).liquid() != Liquid::Air ==> done is Ok,
            old(self).liquid() == Liquid::Air ==> (done matches Err(text) && text@
                == already_empty_text(old(self).vessel_name())),
    ;
}

/// A vessel for liquids.
pub struct LiquidContainer {
    pub id: EntityId,
    pub name: String,
    pub aliases: Vec<String>,
    pub description: String,
    pub liquid: Liquid,
}

impl LiquidContainer {
    pub fn new(
        id: EntityId,
        name: String,
        aliases: Vec<String>,
        description: String,
        liquid: Liquid,
    ) -> (made: Self)
        ensures
            made.id == id,
            made.name == name,
            made.aliases == aliases,
            made.description == description,
            made.liquid == liquid,
    {
        LiquidContainer { id, name, aliases, description, liquid }
    }
}

impl LiquidContainable for LiquidContainer {
    open spec fn liquid(&self) -> Liquid {
        self.liquid
    }

    open spec fn vessel_name(&self) -> Seq<char> {
        self.name@
    }

    fn fill(&mut self, liquid: Liquid) -> (done: Result<(), String>) {
        if self.liquid == Liquid::Air {
            self.liquid = liquid;
            Ok(())
        } else {
            Err(vessel_message(self.name.as_str(), " is already full"))
        }
    }

    fn drink(&mut self) -> (done: Result<(), String>) {
        if self.liquid == Liquid::Air {
            Err(vessel_message(self.name.as_str(), " is empty"))
        } else {
            self.liquid = Liquid::Air;
            Ok(())
        }
    }

    fn pour(&mut self) -> (done: Result<(), String>) {
        if self.liquid == Liquid::Air {
            Err(vessel_message(self.name.as_str(), " is already empty"))
        } else {
            self.liquid = Liquid::Air;
            Ok(())
        }
    }
}

/// A bottle that hides something in its liquid.
pub struct SecretBottle {
    pub id: EntityId,
    pub name: String,
    pub aliases: Vec<String>,
    pub description: String,
    pub contains: Option<EntityId>,
    pub liquid: Liquid,
}

impl SecretBottle {
    /// Gets what is hidden out of the bottle: the liquid goes, what was
    /// hidden stays in reach. An empty bottle gives nothing away, and there
    /// is nothing to get where nothing is hidden.
    pub fn remove(&mut self) -> (done: Result<(), String>)
        ensures
            final(self).id == old(self).id,
            final(self).name == old(self).name,
            final(self).aliases == old(self).aliases,
            final(self).description == old(self).description,
            final(self).contains == old(self).contains,
            old(self).liquid == Liquid::Air ==> final(self).liquid == Liquid::Air && (
            done matches Err(text) && text@ == "Can't get to it!"@),
            old(self).liquid != Liquid::Air && old(self).contains is Some ==> done is Ok
                && final(self).liquid == Liquid::Air,
            old(self).liquid != Liquid::Air && old(self).contains is None ==> final(self).liquid
                == old(self).liquid && (done matches Err(text) && text@
                == "There's nothing there!"@),
    {
        if self.liquid == Liquid::Air {
            Err("Can't get to it!".to_owned())
        } else {
            if self.contains.is_some() {
                self.liquid = Liquid::Air;
                Ok(())
            } else {
                Err("There's nothing there!".to_owned())
            }
        }
    }
}

impl LiquidContainable for SecretBottle {
    open spec fn liquid(&self) -> Liquid {
        self.liquid
    }

    open spec fn vessel_name(&self) -> Seq<char> {
        self.name@
    }

    fn fill(&mut self, liquid: Liquid) -> (done: Result<(), String>) {
        if self.liquid == Liquid::Air {
            self.liquid = liquid;
            Ok(())
        } else {
            Err(vessel_message(self.name.as_str(), " is already full"))
        }
    }

    fn drink(&mut self) -> (done: Result<(), String>) {
        if self.liquid == Liquid::Air {
            Err(vessel_message(self.name.as_str(), " is empty"))
        } else {
            self.liquid = Liquid::Air;
            Ok(())
        }
    }

    fn pour(&mut self) -> (done: Result<(), String>) {
        if self.liquid == Liquid::Air {
            Err(vessel_message(self.name.as_str(), " is already empty"))
        } else {
            self.liquid = Liquid::Air;
            Ok(())
        }
    }
}

} // verus!
