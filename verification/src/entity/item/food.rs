//! Food.

use crate::entity::item::Edible;
use crate::entity::{Entity, EntityId, EntityKind, EntityView};
use crate::utils::texts;
use vstd::prelude::*;

verus! {

/// Something to eat.
pub struct Food {
    pub id: EntityId,
    pub name: String,
    pub aliases: Vec<String>,
    pub description: String,
    /// Whether it was eaten.
    pub eaten: bool,
}

impl Food {
    pub fn new(
        id: EntityId,
        name: String,
        aliases: Vec<String>,
        description: String,
    ) -> (made: Self)
        ensures
            made.id == id,
            made.name == name,
            made.aliases == aliases,
            made.description == description,
            !made.eaten,
    {
        Food { id, name, aliases, description, eaten: false }
    }
}

impl Entity for Food {
    open spec fn model(&self) -> EntityView {
        EntityView {
            id: self.id,
            name: self.name@,
            aliases: texts(self.aliases@),
            description: self.description@,
            kind: EntityKind::Food,
            contents: Seq::empty(),
            text: Seq::empty(),
            eaten: self.eaten,
        }
    }

    fn get_id(&self) -> (id: EntityId) {
        self.id
    }

    fn name(&self) -> (name: &str) {
        self.name.as_str()
    }

    fn aliases(&self) -> (aliases: &Vec<String>) {
        &self.aliases
    }

    fn description(&self) -> (description: &str) {
        self.description.as_str()
    }
}

impl Edible for Food {
    fn eat(&mut self) -> (done: Result<(), &'static str>) {
        self.eaten = true;
        Ok(())
    }
}

} // verus!
