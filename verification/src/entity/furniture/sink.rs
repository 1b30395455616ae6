//! The kitchen sink.

use crate::entity::{Entity, EntityId, EntityKind, EntityView};
use crate::utils::texts;
use vstd::prelude::*;

verus! {

/// A sink with a tap.
pub struct Sink {
    pub id: EntityId,
    pub name: String,
    pub aliases: Vec<String>,
    pub description: String,
    pub contains: Vec<EntityId>,
    pub tap_is_on: bool,
}

impl Sink {
    pub fn new(
        id: EntityId,
        name: String,
        aliases: Vec<String>,
        description: String,
        contains: Vec<EntityId>,
    ) -> (made: Self)
        ensures
            made.id == id,
            made.name == name,
            made.aliases == aliases,
            made.description == description,
            made.contains == contains,
            !made.tap_is_on,
    {
        Sink { id, name, aliases, description, contains, tap_is_on: false }
    }
}

impl Entity for Sink {
    open spec fn model(&self) -> EntityView {
        EntityView {
            id: self.id,
            name: self.name@,
            aliases: texts(self.aliases@),
            description: self.description@,
            kind: EntityKind::Sink,
            contents: self.contains@,
            text: Seq::empty(),
            eaten: false,
        }
    }

    fn get_id(&self) -> (id: EntityId) {
        self.id
    }

    fn name(&self) -> (name: &str) {
        self.name.as_str()
    }

    fn aliases(&self) -> (aliases: &Vec<String>) {
        &self.aliases
    }

    fn description(&self) -> (description: &str) {
        self.description.as_str()
    }
}

} // verus!
