//! Containers that can be carried.

use crate::entity::item::{
    full_message, list_holds, list_position, missing_message, Containable, Size,
};
use crate::entity::{AnyEntity, Entity, EntityId, EntityKind, EntityView, Holder};
use crate::utils::texts;
use vstd::prelude::*;

verus! {

/// An item that things can be put into.
pub struct Container {
    pub id: EntityId,
    pub name: String,
    pub aliases: Vec<String>,
    pub description: String,
    pub contains: Vec<EntityId>,
    pub size: Size,
}

impl Container {
    pub fn new(
        id: EntityId,
        name: String,
        aliases: Vec<String>,
        description: String,
        contains: Vec<EntityId>,
        size: Size,
    ) -> (made: Self)
        ensures
            made.id == id,
            made.name == name,
            made.aliases == aliases,
            made.description == description,
            made.contains == contains,
            made.size == size,
    {
        Container { id, name, aliases, description, contains, size }
    }

    /// The entity as a carried container, if it is one.
    pub fn as_container(entity: &AnyEntity) -> (found: Option<&Container>)
        ensures
            found is Some <==> entity@.kind == EntityKind::Container,
            found matches Some(container) ==> *entity == AnyEntity::Holder(
                Holder::Container(*container),
            ),
    {
        match entity {
            AnyEntity::Holder(Holder::Container(container)) => Some(container),
            _ => None,
        }
    }
}

impl Entity for Container {
    open spec fn model(&self) -> EntityView {
        EntityView {
            id: self.id,
            name: self.name@,
            aliases: texts(self.aliases@),
            description: self.description@,
            kind: EntityKind::Container,
            contents: self.contains@,
            text: Seq::empty(),
            eaten: false,
        }
    }

    fn get_id(&self) -> (id: EntityId) {
        self.id
    }

    fn name(&self) -> (name: &str) {
        self.name.as_str()
    }

    fn aliases(&self) -> (aliases: &Vec<String>) {
        &self.aliases
    }

    fn description(&self) -> (description: &str) {
        self.description.as_str()
    }
}

impl Containable for Container {
    fn can_contain(&self, entity_id: EntityId) -> (yes: bool) {
        !list_holds(&self.contains, entity_id)
    }

    fn put(&mut self, entity_id: EntityId) -> (done: Result<(), String>) {
        if self.can_contain(entity_id) {
            self.contains.push(entity_id);
            Ok(())
        } else {
            Err(full_message(self.name.as_str()))
        }
    }

    fn remove(&mut self, entity_id: EntityId) -> (done: Result<(), String>) {
        match list_position(&self.contains, entity_id) {
            Some(index) => {
                self.contains.remove(index);
                Ok(())
            },
            None => Err(missing_message(entity_id, self.name.as_str())),
        }
    }

    fn contains(&self) -> (held: &Vec<EntityId>) {
        &self.contains
    }
}

} // verus!
