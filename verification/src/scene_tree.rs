//! Scene tree panel state: the entities listed in the scene and the selected
//! one.
use crate::ecs::Entity;
use vstd::prelude::*;

verus! {

/// Messages the scene tree handles.
#[derive(Debug, Clone, Copy)]
pub enum Message {
    EntitySelected(Entity),
}

/// The scene tree panel: (entity, name) entries in order of addition.
pub struct SceneTree {
    entities: Vec<(Entity, String)>,
    selected: Option<Entity>,
}

impl Default for SceneTree {
    fn default() -> (t: Self)
        ensures
            t.spec_entries() == Seq::<(Entity, String)>::empty(),
            t.spec_selected() is None,
    {
        SceneTree { entities: Vec::new(), selected: None }
    }
}

impl SceneTree {
    /// The entries listed, in order of addition.
    pub closed spec fn spec_entries(&self) -> Seq<(Entity, String)> {
        self.entities@
    }

    /// The selected entity, if any.
    pub closed spec fn spec_selected(&self) -> Option<Entity> {
        self.selected
    }

    /// An empty scene tree.
    pub fn new() -> (t: Self)
        ensures
            t.spec_entries() == Seq::<(Entity, String)>::empty(),
            t.spec_selected() is None,
    {
        Self::default()
    }

    /// Handle a message: select an entity.
    pub fn update(&mut self, message: Message)
        ensures
            final(self).spec_entries() == old(self).spec_entries(),
            match message {
                Message::EntitySelected(e) => final(self).spec_selected() == Some(e),
            },
    {
        let Message::EntitySelected(entity) = message;
        self.selected = Some(entity);
    }

    /// The entries listed, in order of addition.
    pub fn entries(&self) -> (r: &[(Entity, String)])
        ensures
            r@ == self.spec_entries(),
    {
        self.entities.as_slice()
    }

    /// List an entity under a name, after the others.
    pub fn add_entity(&mut self, id: Entity, name: String)
        ensures
            final(self).spec_entries().len() == old(self).spec_entries().len() + 1,
            final(self).spec_entries().drop_last() == old(self).spec_entries(),
            final(self).spec_entries().last().0 == id,
            final(self).spec_entries().last().1@ == name@,
            final(self).spec_selected() == old(self).spec_selected(),
    {
        self.entities.push((id, name));
        assert(self.entities@.drop_last() =~= old(self).entities@);
    }

    /// Remove every entry of an entity, keeping the others in order; the
    /// entity is no longer selected.
    pub fn remove_entity(&mut self, id: Entity)
        ensures
            final(self).spec_entries() == old(self).spec_entries().filter(|p: (Entity, String)| p.0 != id),
            forall|i: int| 0 <= i < final(self).spec_entries().len() ==> #[trigger] final(self).spec_entries()[i].0 != id,
            final(self).spec_selected() == (if old(self).spec_selected() == Some(id) {
                None
            } else {
                old(self).spec_selected()
            }),
    {
        let ghost keep = |p: (Entity, String)| p.0 != id;
        let mut rest: Vec<(Entity, String)> = Vec::new();
        std::mem::swap(&mut rest, &mut self.entities);
        let mut kept: Vec<(Entity, String)> = Vec::new();
        let ghost all = rest@;
        let mut taken: usize = 0;
        let n = rest.len();
        while taken < n
            invariant
                n == all.len(),
                taken <= n,
                keep == (|p: (Entity, String)| p.0 != id),
                rest@ == all.subrange(taken as int, n as int),
                kept@ == all.take(taken as int).filter(keep),
            decreases n - taken,
        {
            let entry = rest.remove(0);
            let ghost e = entry;
            proof {
                assert(e == all[taken as int]);
                assert(rest@ =~= all.subrange(taken + 1, n as int));
            }
            if entry.0.0 != id.0 {
                kept.push(entry);
            }
            proof {
                let next = all.take(taken + 1);
                assert(next.drop_last() =~= all.take(taken as int));
                assert(next.last() == e);
                assert(next.filter(keep) == (if keep(next.last()) {
                    next.drop_last().filter(keep).push(next.last())
                } else {
                    next.drop_last().filter(keep)
                })) by {
                    reveal(Seq::filter);
                }
            }
            taken = taken + 1;
        }
        proof {
            assert(all.take(n as int) =~= all);
            broadcast use vstd::seq_lib::group_filter_ensures;
            assert(forall|i: int| 0 <= i < kept@.len() ==> keep(#[trigger] kept@[i]));
        }
        self.entities = kept;
        if self.selected == Some(id) {
            self.selected = None;
        }
    }

    /// Remove every entry and the selection.
    pub fn clear_entities(&mut self)
        ensures
            final(self).spec_entries() == Seq::<(Entity, String)>::empty(),
            final(self).spec_selected() is None,
    {
        self.entities.clear();
        self.selected = None;
    }

    /// The selected entity, if any.
    pub fn selected_entity(&self) -> (r: Option<Entity>)
        ensures
            r == self.spec_selected(),
    {
        self.selected
    }

    /// The number of entries listed.
    pub fn entity_count(&self) -> (n: usize)
        ensures
            n == self.spec_entries().len(),
    {
        self.entities.len()
    }
}

} // verus!
