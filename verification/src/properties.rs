//! Property inspector panel state: the entity whose components are shown.
use crate::ecs::Entity;
use vstd::prelude::*;

verus! {

/// The property inspector panel.
pub struct PropertyPanel {
    selected_entity: Option<Entity>,
}

impl Default for PropertyPanel {
    fn default() -> (p: Self)
        ensures
            p.spec_selected() is None,
    {
        PropertyPanel { selected_entity: None }
    }
}

impl PropertyPanel {
    /// The entity shown, if any.
    pub closed spec fn spec_selected(&self) -> Option<Entity> {
        self.selected_entity
    }

    /// A panel that shows no entity.
    pub fn new() -> (p: Self)
        ensures
            p.spec_selected() is None,
    {
        Self::default()
    }

    /// Show an entity, or none.
    pub fn set_selected_entity(&mut self, entity: Option<Entity>)
        ensures
            final(self).spec_selected() == entity,
    {
        self.selected_entity = entity;
    }

    /// The entity shown, if any.
    pub fn get_selected_entity(&self) -> (r: Option<Entity>)
        ensures
            r == self.spec_selected(),
    {
        self.selected_entity
    }
}

} // verus!
