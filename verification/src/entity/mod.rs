//! Entities: the addressable things of the world and what they can do.

pub mod furniture;
pub mod item;

use crate::entity::furniture::navigation_computer::NavigationComputer;
use crate::entity::furniture::main_terminal::MainTerminal;
use crate::entity::furniture::sink::Sink;
use crate::entity::furniture::{FurnId, Furniture};
use crate::entity::item::container::Container;
use crate::entity::item::food::Food;
use crate::entity::item::text_item::TextItem;
use crate::entity::item::{Containable, Drink, Item, ItemId};
use crate::utils::texts;
use vstd::prelude::*;

verus! {

/// The key under which an entity is known to rooms, containers and the
/// registry.
#[derive(Debug, PartialEq, Eq, Hash, Clone, Copy, Structural)]
pub enum EntityId {
    Item(ItemId),
    Furniture(FurnId),
    Dust,
}

impl Default for EntityId {
    fn default() -> (id: EntityId)
        ensures
            id == EntityId::Dust,
    {
        EntityId::Dust
    }
}

impl EntityId {
    /// The name of the identifier's kind, as it is shown in messages.
    pub open spec fn label_text(self) -> Seq<char> {
        match self {
            EntityId::Item(_) => "Item"@,
            EntityId::Furniture(_) => "Furniture"@,
            EntityId::Dust => "Dust"@,
        }
    }

    /// The name of the identifier's kind, as it is shown in messages.
    pub fn label(&self) -> (text: &'static str)
        ensures
            text@ == self.label_text(),
    {
        match self {
            EntityId::Item(_) => "Item",
            EntityId::Furniture(_) => "Furniture",
            EntityId::Dust => "Dust",
        }
    }
}

/// The kinds of entity. The kind decides which capabilities an entity has.
#[derive(Debug, PartialEq, Eq, Clone, Copy, Structural)]
pub enum EntityKind {
    Passive,
    Furniture,
    Sink,
    MainTerminal,
    NavigationComputer,
    Item,
    Container,
    Food,
    TextItem,
    Drink,
}

impl EntityKind {
    /// Whether entities of this kind hold other entities.
    pub open spec fn is_containable(self) -> bool {
        self == EntityKind::Furniture || self == EntityKind::Container
    }

    /// Whether entities of this kind can be eaten.
    pub open spec fn is_edible(self) -> bool {
        self == EntityKind::Food
    }

    /// Whether entities of this kind can be read.
    pub open spec fn is_readable(self) -> bool {
        self == EntityKind::TextItem
    }

    /// Whether entities of this kind can be used.
    pub open spec fn is_usable(self) -> bool {
        self == EntityKind::NavigationComputer
    }
}

/// An entity as a mathematical value.
pub struct EntityView {
    pub id: EntityId,
    pub name: Seq<char>,
    pub aliases: Seq<Seq<char>>,
    pub description: Seq<char>,
    pub kind: EntityKind,
    /// The list of entities kept in it; empty for a kind that keeps none.
    pub contents: Seq<EntityId>,
    /// What is written on it; empty for a kind that carries no text.
    pub text: Seq<char>,
    /// Whether it was eaten; never so for a kind that cannot be eaten.
    pub eaten: bool,
}

impl EntityView {
    /// What the entity holds as a container: nothing unless its kind is one
    /// that contains.
    pub open spec fn held(self) -> Seq<EntityId> {
        if self.kind.is_containable() {
            self.contents
        } else {
            Seq::empty()
        }
    }
}

/// What every entity shows of itself.
pub trait Entity {
    /// The entity as a mathematical value.
    spec fn model(&self) -> EntityView;

    fn get_id(&self) -> (id: EntityId)
        ensures
            id == self.model().id,
    ;

    fn name(&self) -> (name: &str)
        ensures
            name@ == self.model().name,
    ;

    fn aliases(&self) -> (aliases: &Vec<String>)
        ensures
            texts(aliases@) == self.model().aliases,
    ;

    fn description(&self) -> (description: &str)
        ensures
            description@ == self.model().description,
    ;
}

/// An entity that can only be looked at.
pub struct PassiveEntity {
    pub id: EntityId,
    pub name: String,
    pub aliases: Vec<String>,
    pub description: String,
}

impl PassiveEntity {
    pub fn new(
        id: EntityId,
        name: String,
        aliases: Vec<String>,
        description: String,
    ) -> (made: Self)
        ensures
            made.id == id,
            made.name == name,
            made.aliases == aliases,
            made.description == description,
    {
        PassiveEntity { id, name, aliases, description }
    }
}

impl Entity for PassiveEntity {
    open spec fn model(&self) -> EntityView {
        EntityView {
            id: self.id,
            name: self.name@,
            aliases: texts(self.aliases@),
            description: self.description@,
            kind: EntityKind::Passive,
            contents: Seq::empty(),
            text: Seq::empty(),
            eaten: false,
        }
    }

    fn get_id(&self) -> (id: EntityId) {
        self.id
    }

    fn name(&self) -> (name: &str) {
        self.name.as_str()
    }

    fn aliases(&self) -> (aliases: &Vec<String>) {
        &self.aliases
    }

    fn description(&self) -> (description: &str) {
        self.description.as_str()
    }
}

/// An entity that holds other entities: a piece of furniture or a carried
/// container.
pub enum Holder {
    Furniture(Furniture),
    Container(Container),
}

impl Entity for Holder {
    open spec fn model(&self) -> EntityView {
        match self {
            Holder::Furniture(inner) => inner.model(),
            Holder::Container(inner) => inner.model(),
        }
    }

    fn get_id(&self) -> (id: EntityId) {
        match self {
            Holder::Furniture(inner) => inner.get_id(),
            Holder::Container(inner) => inner.get_id(),
        }
    }

    fn name(&self) -> (name: &str) {
        match self {
            Holder::Furniture(inner) => inner.name(),
            Holder::Container(inner) => inner.name(),
        }
    }

    fn aliases(&self) -> (aliases: &Vec<String>) {
        match self {
            Holder::Furniture(inner) => inner.aliases(),
            Holder::Container(inner) => inner.aliases(),
        }
    }

    fn description(&self) -> (description: &str) {
        match self {
            Holder::Furniture(inner) => inner.description(),
            Holder::Container(inner) => inner.description(),
        }
    }
}

impl Containable for Holder {
    fn can_contain(&self, entity_id: EntityId) -> (yes: bool) {
        match self {
            Holder::Furniture(inner) => inner.can_contain(entity_id),
            Holder::Container(inner) => inner.can_contain(entity_id),
        }
    }

    fn put(&mut self, entity_id: EntityId) -> (done: Result<(), String>) {
        match self {
            Holder::Furniture(inner) => inner.put(entity_id),
            Holder::Container(inner) => inner.put(entity_id),
        }
    }

    fn remove(&mut self, entity_id: EntityId) -> (done: Result<(), String>) {
        match self {
            Holder::Furniture(inner) => inner.remove(entity_id),
            Holder::Container(inner) => inner.remove(entity_id),
        }
    }

    fn contains(&self) -> (held: &Vec<EntityId>) {
        match self {
            Holder::Furniture(inner) => inner.contains(),
            Holder::Container(inner) => inner.contains(),
        }
    }
}

/// Any entity of the world: one variant for each group of kinds that share
/// their capabilities.
pub enum AnyEntity {
    Passive(PassiveEntity),
    Sink(Sink),
    MainTerminal(MainTerminal),
    Item(Item),
    Drink(Drink),
    /// What contains other entities.
    Holder(Holder),
    /// What can be eaten.
    Food(Food),
    /// What can be read.
    TextItem(TextItem),
    /// What can be used.
    NavigationComputer(NavigationComputer),
}

impl Entity for AnyEntity {
    open spec fn model(&self) -> EntityView {
        match self {
            AnyEntity::Passive(inner) => inner.model(),
            AnyEntity::Sink(inner) => inner.model(),
            AnyEntity::MainTerminal(inner) => inner.model(),
            AnyEntity::Item(inner) => inner.model(),
            AnyEntity::Drink(inner) => inner.model(),
            AnyEntity::Holder(inner) => inner.model(),
            AnyEntity::Food(inner) => inner.model(),
            AnyEntity::TextItem(inner) => inner.model(),
            AnyEntity::NavigationComputer(inner) => inner.model(),
        }
    }

    fn get_id(&self) -> (id: EntityId) {
        match self {
            AnyEntity::Passive(inner) => inner.get_id(),
            AnyEntity::Sink(inner) => inner.get_id(),
            AnyEntity::MainTerminal(inner) => inner.get_id(),
            AnyEntity::Item(inner) => inner.get_id(),
            AnyEntity::Drink(inner) => inner.get_id(),
            AnyEntity::Holder(inner) => inner.get_id(),
            AnyEntity::Food(inner) => inner.get_id(),
            AnyEntity::TextItem(inner) => inner.get_id(),
            AnyEntity::NavigationComputer(inner) => inner.get_id(),
        }
    }

    fn name(&self) -> (name: &str) {
        match self {
            AnyEntity::Passive(inner) => inner.name(),
            AnyEntity::Sink(inner) => inner.name(),
            AnyEntity::MainTerminal(inner) => inner.name(),
            AnyEntity::Item(inner) => inner.name(),
            AnyEntity::Drink(inner) => inner.name(),
            AnyEntity::Holder(inner) => inner.name(),
            AnyEntity::Food(inner) => inner.name(),
            AnyEntity::TextItem(inner) => inner.name(),
            AnyEntity::NavigationComputer(inner) => inner.name(),
        }
    }

    fn aliases(&self) -> (aliases: &Vec<String>) {
        match self {
            AnyEntity::Passive(inner) => inner.aliases(),
            AnyEntity::Sink(inner) => inner.aliases(),
            AnyEntity::MainTerminal(inner) => inner.aliases(),
            AnyEntity::Item(inner) => inner.aliases(),
            AnyEntity::Drink(inner) => inner.aliases(),
            AnyEntity::Holder(inner) => inner.aliases(),
            AnyEntity::Food(inner) => inner.aliases(),
            AnyEntity::TextItem(inner) => inner.aliases(),
            AnyEntity::NavigationComputer(inner) => inner.aliases(),
        }
    }

    fn description(&self) -> (description: &str) {
        match self {
            AnyEntity::Passive(inner) => inner.description(),
            AnyEntity::Sink(inner) => inner.description(),
            AnyEntity::MainTerminal(inner) => inner.description(),
            AnyEntity::Item(inner) => inner.description(),
            AnyEntity::Drink(inner) => inner.description(),
            AnyEntity::Holder(inner) => inner.description(),
            AnyEntity::Food(inner) => inner.description(),
            AnyEntity::TextItem(inner) => inner.description(),
            AnyEntity::NavigationComputer(inner) => inner.description(),
        }
    }
}

impl View for AnyEntity {
    type V = EntityView;

    open spec fn view(&self) -> EntityView {
        self.model()
    }
}

impl AnyEntity {
    /// The entity as a container, if its kind is one that contains.
    pub fn as_containable(&self) -> (facet: Option<&Holder>)
        ensures
            facet is Some <==> self@.kind.is_containable(),
            facet matches Some(holder) ==> *self == AnyEntity::Holder(*holder),
    {
        match self {
            AnyEntity::Holder(inner) => Some(inner),
            _ => None,
        }
    }

    /// The entity as a container that can be changed, if its kind is one
    /// that contains.
    pub fn as_containable_mut(&mut self) -> (facet: Option<&mut Holder>)
        ensures
            facet is Some <==> old(self)@.kind.is_containable(),
            facet matches Some(holder) ==> *old(self) == AnyEntity::Holder(*holder) && *final(self)
                == AnyEntity::Holder(*final(holder)),
            facet is None ==> *final(self) == *old(self),
    {
        match self {
            AnyEntity::Holder(inner) => Some(inner),
            _ => None,
        }
    }

    /// The entity as something to eat, if its kind can be eaten.
    pub fn as_edible(&self) -> (facet: Option<&Food>)
        ensures
            facet is Some <==> self@.kind.is_edible(),
            facet matches Some(food) ==> *self == AnyEntity::Food(*food),
    {
        match self {
            AnyEntity::Food(inner) => Some(inner),
            _ => None,
        }
    }

    /// The entity as something to eat that can be changed, if its kind can
    /// be eaten.
    pub fn as_edible_mut(&mut self) -> (facet: Option<&mut Food>)
        ensures
            facet is Some <==> old(self)@.kind.is_edible(),
            facet matches Some(food) ==> *old(self) == AnyEntity::Food(*food) && *final(self)
                == AnyEntity::Food(*final(food)),
            facet is None ==> *final(self) == *old(self),
    {
        match self {
            AnyEntity::Food(inner) => Some(inner),
            _ => None,
        }
    }

    /// The entity as something to read, if its kind can be read.
    pub fn as_readable(&self) -> (facet: Option<&TextItem>)
        ensures
            facet is Some <==> self@.kind.is_readable(),
            facet matches Some(note) ==> *self == AnyEntity::TextItem(*note),
    {
        match self {
            AnyEntity::TextItem(inner) => Some(inner),
            _ => None,
        }
    }

    /// The entity as something to read that can be changed, if its kind can
    /// be read.
    pub fn as_readable_mut(&mut self) -> (facet: Option<&mut TextItem>)
        ensures
            facet is Some <==> old(self)@.kind.is_readable(),
            facet matches Some(note) ==> *old(self) == AnyEntity::TextItem(*note) && *final(self)
                == AnyEntity::TextItem(*final(note)),
            facet is None ==> *final(self) == *old(self),
    {
        match self {
            AnyEntity::TextItem(inner) => Some(inner),
            _ => None,
        }
    }

    /// The entity as something to use, if its kind can be used.
    pub fn as_usable(&self) -> (facet: Option<&NavigationComputer>)
        ensures
            facet is Some <==> self@.kind.is_usable(),
            facet matches Some(device) ==> *self == AnyEntity::NavigationComputer(*device),
    {
        match self {
            AnyEntity::NavigationComputer(inner) => Some(inner),
            _ => None,
        }
    }

    /// The entity as something to use that can be changed, if its kind can
    /// be used.
    pub fn as_usable_mut(&mut self) -> (facet: Option<&mut NavigationComputer>)
        ensures
            facet is Some <==> old(self)@.kind.is_usable(),
            facet matches Some(device) ==> *old(self) == AnyEntity::NavigationComputer(*device)
                && *final(self) == AnyEntity::NavigationComputer(*final(device)),
            facet is None ==> *final(self) == *old(self),
    {
        match self {
            AnyEntity::NavigationComputer(inner) => Some(inner),
            _ => None,
        }
    }
}

} // verus!
