//! Furniture: what stands in a room and cannot be carried.

pub mod main_terminal;
pub mod navigation_computer;
pub mod sink;

use crate::entity::item::{full_message, list_holds, list_position, missing_message, Containable};
use crate::entity::{Entity, EntityId, EntityKind, EntityView};
use crate::utils::texts;
use vstd::prelude::*;

verus! {

/// The pieces of furniture. Each stands in one place: the tables of the two
/// mess rooms and the warning signs of the two airlocks are pieces of their
/// own.
#[derive(Debug, PartialEq, Eq, Hash, Clone, Copy, Structural)]
pub enum FurnId {
    Illuminator,
    StorageShelf,
    MessTable,
    NorthMessTable,
    Counter,
    CoffeeMachine,
    FoodPrinter,
    Sink,
    BosunDesk,
    BookShelves,
    CaptainsIlluminator,
    CaptainsDesk,
    NavigationComputer,
    MainTerminal,
    MainEngine,
    FuelTankA,
    FuelTankB,
    EmergencyLocker,
    WarningSign,
    WarningSignB,
    Dust,
}

impl Default for FurnId {
    fn default() -> (id: FurnId)
        ensures
            id == FurnId::Dust,
    {
        FurnId::Dust
    }
}

impl FurnId {
    /// Every piece of furniture, in declaration order.
    pub open spec fn every() -> Seq<FurnId> {
        seq![
            FurnId::Illuminator,
            FurnId::StorageShelf,
            FurnId::MessTable,
            FurnId::NorthMessTable,
            FurnId::Counter,
            FurnId::CoffeeMachine,
            FurnId::FoodPrinter,
            FurnId::Sink,
            FurnId::BosunDesk,
            FurnId::BookShelves,
            FurnId::CaptainsIlluminator,
            FurnId::CaptainsDesk,
            FurnId::NavigationComputer,
            FurnId::MainTerminal,
            FurnId::MainEngine,
            FurnId::FuelTankA,
            FurnId::FuelTankB,
            FurnId::EmergencyLocker,
            FurnId::WarningSign,
            FurnId::WarningSignB,
            FurnId::Dust,
        ]
    }

    /// Every piece of furniture, in declaration order.
    pub fn all() -> (ids: Vec<FurnId>)
        ensures
            ids@ == Self::every(),
    {
        let ids = vec![
            FurnId::Illuminator,
            FurnId::StorageShelf,
            FurnId::MessTable,
            FurnId::NorthMessTable,
            FurnId::Counter,
            FurnId::CoffeeMachine,
            FurnId::FoodPrinter,
            FurnId::Sink,
            FurnId::BosunDesk,
            FurnId::BookShelves,
            FurnId::CaptainsIlluminator,
            FurnId::CaptainsDesk,
            FurnId::NavigationComputer,
            FurnId::MainTerminal,
            FurnId::MainEngine,
            FurnId::FuelTankA,
            FurnId::FuelTankB,
            FurnId::EmergencyLocker,
            FurnId::WarningSign,
            FurnId::WarningSignB,
            FurnId::Dust,
        ];
        assert(ids@ =~= Self::every());
        ids
    }
}

/// A piece of furniture that things can be put into.
pub struct Furniture {
    pub id: EntityId,
    pub name: String,
    pub aliases: Vec<String>,
    pub description: String,
    pub contains: Vec<EntityId>,
}

impl Furniture {
    pub fn new(
        id: EntityId,
        name: String,
        aliases: Vec<String>,
        description: String,
        contains: Vec<EntityId>,
    ) -> (made: Self)
        ensures
            made.id == id,
            made.name == name,
            made.aliases == aliases,
            made.description == description,
            made.contains == contains,
    {
        Furniture { id, name, aliases, description, contains }
    }
}

impl Entity for Furniture {
    open spec fn model(&self) -> EntityView {
        EntityView {
            id: self.id,
            name: self.name@,
            aliases: texts(self.aliases@),
            description: self.description@,
            kind: EntityKind::Furniture,
            contents: self.contains@,
            text: Seq::empty(),
            eaten: false,
        }
    }

    fn get_id(&self) -> (id: EntityId) {
        self.id
    }

    fn name(&self) -> (name: &str) {
        self.name.as_str()
    }

    fn aliases(&self) -> (aliases: &Vec<String>) {
        &self.aliases
    }

    fn description(&self) -> (description: &str) {
        self.description.as_str()
    }
}

impl Containable for Furniture {
    fn can_contain(&self, entity_id: EntityId) -> (yes: bool) {
        !list_holds(&self.contains, entity_id)
    }

    fn put(&mut self, entity_id: EntityId) -> (done: Result<(), String>) {
        if self.can_contain(entity_id) {
            self.contains.push(entity_id);
            Ok(())
        } else {
            Err(full_message(self.name.as_str()))
        }
    }

    fn remove(&mut self, entity_id: EntityId) -> (done: Result<(), String>) {
        match list_position(&self.contains, entity_id) {
            Some(index) => {
                self.contains.remove(index);
                Ok(())
            },
            None => Err(missing_message(entity_id, self.name.as_str())),
        }
    }

    fn contains(&self) -> (held: &Vec<EntityId>) {
        &self.contains
    }
}

} // verus!
