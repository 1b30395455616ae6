//! The navigation computer of the meeting room.

use crate::entity::item::Usable;
use crate::entity::{Entity, EntityId, EntityKind, EntityView};
use crate::utils::texts;
use vstd::prelude::*;

verus! {

/// The computer that plots approach vectors.
pub struct NavigationComputer {
    pub id: EntityId,
    pub name: String,
    pub aliases: Vec<String>,
    pub description: String,
    pub contains: Vec<EntityId>,
}

impl NavigationComputer {
    pub fn new(
        id: EntityId,
        name: String,
        aliases: Vec<String>,
        description: String,
        contains: Vec<EntityId>,
    ) -> (made: Self)
        ensures
            made.id == id,
            made.name == name,
            made.aliases == aliases,
            made.description == description,
            made.contains == contains,
    {
        NavigationComputer { id, name, aliases, description, contains }
    }
}

impl Entity for NavigationComputer {
    open spec fn model(&self) -> EntityView {
        EntityView {
            id: self.id,
            name: self.name@,
            aliases: texts(self.aliases@),
            description: self.description@,
            kind: EntityKind::NavigationComputer,
            contents: self.contains@,
            text: Seq::empty(),
            eaten: false,
        }
    }

    fn get_id(&self) -> (id: EntityId) {
        self.id
    }

    fn name(&self) -> (name: &str) {
        self.name.as_str()
    }

    fn aliases(&self) -> (aliases: &Vec<String>) {
        &self.aliases
    }

    fn description(&self) -> (description: &str) {
        self.description.as_str()
    }
}

/// What the navigation computer answers when it is used.
pub open spec fn approach_hint() -> Seq<char> {
    "In a few clicks you are able to get the terminal to output the correct approach vector to dock the station: 'X344 Y351 P3 /END'."@
}

impl Usable for NavigationComputer {
    fn use_it(&mut self) -> (done: Result<String, &'static str>)
        ensures
            done matches Ok(text) && text@ == approach_hint(),
    {
        Ok(
            "In a few clicks you are able to get the terminal to output the correct approach vector to dock the station: 'X344 Y351 P3 /END'.".to_owned(),
        )
    }
}

} // verus!
