//! Items with something written on them.

use crate::entity::item::Readable;
use crate::entity::{Entity, EntityId, EntityKind, EntityView};
use crate::utils::texts;
use vstd::prelude::*;

verus! {

/// An item that carries a text.
pub struct TextItem {
    pub id: EntityId,
    pub name: String,
    pub aliases: Vec<String>,
    pub description: String,
    pub contents: String,
}

impl TextItem {
    pub fn new(
        id: EntityId,
        name: String,
        aliases: Vec<String>,
        description: String,
        contents: String,
    ) -> (made: Self)
        ensures
            made.id == id,
            made.name == name,
            made.aliases == aliases,
            made.description == description,
            made.contents == contents,
    {
        TextItem { id, name, aliases, description, contents }
    }
}

impl Entity for TextItem {
    open spec fn model(&self) -> EntityView {
        EntityView {
            id: self.id,
            name: self.name@,
            aliases: texts(self.aliases@),
            description: self.description@,
            kind: EntityKind::TextItem,
            contents: Seq::empty(),
            text: self.contents@,
            eaten: false,
        }
    }

    fn get_id(&self) -> (id: EntityId) {
        self.id
    }

    fn name(&self) -> (name: &str) {
        self.name.as_str()
    }

    fn aliases(&self) -> (aliases: &Vec<String>) {
        &self.aliases
    }

    fn description(&self) -> (description: &str) {
        self.description.as_str()
    }
}

impl Readable for TextItem {
    fn read(&mut self) -> (done: Result<String, &'static str>) {
        Ok(self.contents.clone())
    }
}

} // verus!
