//! Entity Component System: entities, per-kind component storages, queries.
//!
//! A component is stored under a *kind*, the key that stands for its type;
//! every kind has its own storage, which maps entity ids to component values.
use std::collections::HashMap;
use std::collections::hash_map::Entry;
use vstd::prelude::*;

verus! {

/// The key under which the components of one type are stored.
pub type ComponentKind = u64;

/// Unique identifier for an entity: the 128-bit value of a random
/// (version 4) UUID.
#[derive(Debug, Clone, Copy, PartialEq, Eq, Hash, Structural)]
pub struct Entity(pub u128);

/// A fresh identifier from `uuid::Uuid::new_v4`, given as its 128-bit value
/// (`Uuid::as_u128`).
///
/// The value is random; what holds of every outcome, by the crate's source
/// (`rng::u128() & 0xFFFFFFFFFFFF4FFFBFFFFFFFFFFFFFFF | 0x40008000000000000000`),
/// is that the version nibble (bits 76..80) is 4 and the two variant bits
/// (bits 62..64) are `0b10`. Nothing is claimed about freshness.
#[verifier::external_body]
fn random_v4_id() -> (id: u128)
    ensures
        is_v4_id(id),
{
    uuid::Uuid::new_v4().as_u128()
}

/// The version and variant bits that every random (version 4) UUID carries.
pub open spec fn is_v4_id(id: u128) -> bool {
    &&& (id >> 76u128) & 0xfu128 == 4u128
    &&& (id >> 62u128) & 0x3u128 == 2u128
}

impl Entity {
    /// Create a new entity with a unique (random) ID.
    pub fn new() -> (e: Entity)
        ensures
            is_v4_id(e.0),
    {
        Entity(random_v4_id())
    }
}

impl Default for Entity {
    fn default() -> (e: Entity)
        ensures
            is_v4_id(e.0),
    {
        Entity::new()
    }
}

/// The `n`-th spare id: a version-4 id whose free bits below the version
/// nibble hold `n` (the low 62 bits of `n` below the variant bits, the
/// next 12 above them).
pub open spec fn spare_id(n: u128) -> u128 {
    0x4000_8000_0000_0000_0000u128 | (n & 0x3fff_ffff_ffff_ffffu128) | ((n >> 62u128) << 64u128)
}

/// The `n`-th spare id.
fn spare_id_exec(n: u128) -> (r: u128)
    ensures
        r == spare_id(n),
{
    0x4000_8000_0000_0000_0000u128 | (n & 0x3fff_ffff_ffff_ffffu128) | ((n >> 62u128) << 64u128)
}

/// Spare ids of numbers below 2^74 are version-4 ids, and distinct numbers
/// give distinct ids.
proof fn lemma_spare_id(a: u128, b: u128)
    by (bit_vector)
    requires
        a < 0x400_0000_0000_0000_0000u128,
        b < 0x400_0000_0000_0000_0000u128,
    ensures
        is_v4_id(spare_id(a)),
        spare_id(a) == spare_id(b) ==> a == b,
{
}

/// The first `n` spare ids.
spec fn spare_ids(n: nat) -> Set<u128>
    decreases n,
{
    if n == 0 {
        Set::empty()
    } else {
        spare_ids((n - 1) as nat).insert(spare_id((n - 1) as u128))
    }
}

/// The first `n` spare ids are `n` distinct ids.
proof fn lemma_spare_ids(n: nat)
    requires
        n <= 0x400_0000_0000_0000_0000u128,
    ensures
        spare_ids(n).finite(),
        spare_ids(n).len() == n,
        forall|x: u128| #[trigger] spare_ids(n).contains(x) ==> exists|j: u128| j < n && x == #[trigger] spare_id(j),
    decreases n,
{
    if n > 0 {
        let m = (n - 1) as nat;
        lemma_spare_ids(m);
        if spare_ids(m).contains(spare_id(m as u128)) {
            let j = choose|j: u128| j < m && spare_id(m as u128) == #[trigger] spare_id(j);
            lemma_spare_id(m as u128, j);
        }
        assert forall|x: u128| #[trigger] spare_ids(n).contains(x) implies exists|j: u128| j < n && x == #[trigger] spare_id(j) by {
            if x != spare_id(m as u128) {
                let j = choose|j: u128| j < m && x == #[trigger] spare_id(j);
                assert(j < n && x == spare_id(j));
            } else {
                assert((m as u128) < n && x == spare_id(m as u128));
            }
        }
    }
}

/// The component stored for entity `e` under `kind`, if any.
pub open spec fn lookup<V>(comps: Map<ComponentKind, Map<u128, V>>, e: u128, kind: ComponentKind) -> Option<V> {
    if comps.contains_key(kind) && comps[kind].contains_key(e) {
        Some(comps[kind][e])
    } else {
        None
    }
}

/// The storages after `c` is attached to `e` under `kind`: the storage of
/// `kind` is created when missing, and maps `e` to `c`.
pub open spec fn attached<V>(
    comps: Map<ComponentKind, Map<u128, V>>,
    e: u128,
    kind: ComponentKind,
    c: V,
) -> Map<ComponentKind, Map<u128, V>> {
    let storage = if comps.contains_key(kind) {
        comps[kind]
    } else {
        Map::empty()
    };
    comps.insert(kind, storage.insert(e, c))
}

/// The storages after the component of `e` under `kind` is removed; a
/// storage, once created, stays (possibly empty).
pub open spec fn detached<V>(
    comps: Map<ComponentKind, Map<u128, V>>,
    e: u128,
    kind: ComponentKind,
) -> Map<ComponentKind, Map<u128, V>> {
    if comps.contains_key(kind) {
        comps.insert(kind, comps[kind].remove(e))
    } else {
        comps
    }
}

/// The storages after every component of `e` is removed.
pub open spec fn purged<V>(comps: Map<ComponentKind, Map<u128, V>>, e: u128) -> Map<
    ComponentKind,
    Map<u128, V>,
> {
    Map::new(|k: ComponentKind| comps.contains_key(k), |k: ComponentKind| comps[k].remove(e))
}

/// The kinds under which `e` has a component.
pub open spec fn kinds_of<V>(comps: Map<ComponentKind, Map<u128, V>>, e: u128) -> Set<ComponentKind> {
    Set::new(|k: ComponentKind| comps.contains_key(k) && comps[k].contains_key(e))
}

/// The value stored under `e`, for change in place.
fn storage_get_mut<V>(storage: &mut HashMap<u128, V>, e: u128) -> (r: Option<&mut V>)
    ensures
        match r {
            Some(c) => old(storage)@.contains_key(e) && old(storage)@[e] == *c
                && final(storage)@ == old(storage)@.insert(e, *final(c)),
            None => !old(storage)@.contains_key(e) && final(storage)@ == old(storage)@,
        },
{
    match storage.entry(e) {
        Entry::Occupied(o) => Some(o.into_mut()),
        Entry::Vacant(_) => None,
    }
}

/// The world containing all entities and their components.
pub struct World<V> {
    entities: HashMap<u128, bool>,
    storages: HashMap<ComponentKind, HashMap<u128, V>>,
}

impl<V> World<V> {
    /// The ids of the entities that exist.
    pub closed spec fn entity_ids(&self) -> Set<u128> {
        self.entities@.dom()
    }

    /// The component storages, kind by kind.
    pub closed spec fn components(&self) -> Map<ComponentKind, Map<u128, V>> {
        Map::new(
            |k: ComponentKind| self.storages@.contains_key(k),
            |k: ComponentKind| self.storages@[k]@,
        )
    }

    /// Create a new empty world.
    pub fn new() -> (w: Self)
        ensures
            w.entity_ids() == Set::<u128>::empty(),
            w.components() == Map::<ComponentKind, Map<u128, V>>::empty(),
    {
        let w = World { entities: HashMap::new(), storages: HashMap::new() };
        assert(w.components() =~= Map::<ComponentKind, Map<u128, V>>::empty());
        w
    }

    /// Create a new entity in the world, with a random id that no entity of
    /// the world has.
    pub fn create_entity(&mut self) -> (e: Entity)
        ensures
            is_v4_id(e.0),
            !old(self).entity_ids().contains(e.0),
            final(self).entity_ids() == old(self).entity_ids().insert(e.0),
            final(self).components() == old(self).components(),
    {
        let drawn = random_v4_id();
        let entity = Entity(self.fresh_entity_id(drawn));
        self.insert_entity(entity);
        entity
    }

    /// The id a new entity gets when `drawn` was drawn for it: `drawn` when
    /// no entity has it, else the first spare version-4 id that no entity
    /// has.
    pub fn fresh_entity_id(&self, drawn: u128) -> (id: u128)
        requires
            is_v4_id(drawn),
        ensures
            is_v4_id(id),
            !self.entity_ids().contains(id),
            !self.entity_ids().contains(drawn) ==> id == drawn,
            self.entity_ids().contains(drawn) ==> exists|n: u128| {
                &&& id == spare_id(n)
                &&& forall|j: u128| j < n ==> self.entity_ids().contains(#[trigger] spare_id(j))
            },
    {
        if !self.entities.contains_key(&drawn) {
            return drawn;
        }
        let ghost ids = self.entities@.dom();
        proof {
            vstd::std_specs::hash::axiom_hashmap_view_finite_dom(self.entities);
        }
        let count = self.entities.len();
        let mut n: u128 = 0;
        loop
            invariant
                ids == self.entities@.dom(),
                ids == self.entity_ids(),
                ids.finite(),
                ids.contains(drawn),
                count == ids.len(),
                n <= count,
                forall|j: u128| j < n ==> ids.contains(#[trigger] spare_id(j)),
            decreases count - n,
        {
            let candidate = spare_id_exec(n);
            if !self.entities.contains_key(&candidate) {
                proof {
                    lemma_spare_id(n, n);
                }
                return candidate;
            }
            proof {
                lemma_spare_ids((n + 1) as nat);
                assert(spare_ids((n + 1) as nat).subset_of(ids)) by {
                    assert forall|x: u128| spare_ids((n + 1) as nat).contains(x) implies ids.contains(x) by {
                        let j = choose|j: u128| j < n + 1 && x == #[trigger] spare_id(j);
                        if j < n {
                            assert(ids.contains(spare_id(j)));
                        }
                    }
                }
                vstd::set_lib::lemma_len_subset(spare_ids((n + 1) as nat), ids);
            }
            n = n + 1;
        }
    }

    /// Add an entity with a given id to the world (an entity already there
    /// stays, with its components).
    pub fn insert_entity(&mut self, entity: Entity)
        ensures
            final(self).entity_ids() == old(self).entity_ids().insert(entity.0),
            final(self).components() == old(self).components(),
    {
        self.entities.insert(entity.0, true);
    }

    /// Check if an entity exists.
    pub fn entity_exists(&self, entity: &Entity) -> (r: bool)
        ensures
            r == self.entity_ids().contains(entity.0),
    {
        self.entities.contains_key(&entity.0)
    }

    /// Destroy an entity and all its components.
    pub fn destroy_entity(&mut self, entity: Entity)
        ensures
            final(self).entity_ids() == old(self).entity_ids().remove(entity.0),
            final(self).components() == purged(old(self).components(), entity.0),
    {
        self.entities.remove(&entity.0);
        let kinds = self.storage_kinds();
        let ghost start = self.storages@;
        let mut i: usize = 0;
        while i < kinds.len()
            invariant
                i <= kinds.len(),
                kinds@.no_duplicates(),
                kinds@.to_set() == start.dom(),
                self.storages@.dom() == start.dom(),
                self.entities@.dom() == old(self).entities@.dom().remove(entity.0),
                forall|j: int| 0 <= j < i ==> #[trigger] self.storages@[kinds@[j]]@ == start[kinds@[j]]@.remove(entity.0),
                forall|k: ComponentKind| start.contains_key(k) && !kinds@.subrange(0, i as int).contains(k)
                    ==> #[trigger] self.storages@[k] == start[k],
            decreases kinds.len() - i,
        {
            let kind = kinds[i];
            let ghost pre = self.storages@;
            assert(kinds@.to_set().contains(kind));
            let mut storage = self.storages.remove(&kind).unwrap();
            storage.remove(&entity.0);
            self.storages.insert(kind, storage);
            proof {
                assert forall|k: ComponentKind| start.contains_key(k) && !kinds@.subrange(0, i + 1).contains(k)
                    implies #[trigger] self.storages@[k] == start[k] by {
                    assert(kinds@.subrange(0, i + 1) =~= kinds@.subrange(0, i as int).push(kind));
                    assert(kinds@.subrange(0, i + 1).contains(kind)) by {
                        assert(kinds@.subrange(0, i + 1)[i as int] == kind);
                    }
                    assert(k != kind);
                    assert(self.storages@[k] == pre[k]);
                }
                assert forall|j: int| 0 <= j < i + 1 implies #[trigger] self.storages@[kinds@[j]]@ == start[kinds@[j]]@.remove(entity.0) by {
                    if j < i {
                        assert(kinds@[j] != kind);
                    } else {
                        assert(!kinds@.subrange(0, i as int).contains(kind));
                    }
                }
            }
            i = i + 1;
        }
        proof {
            assert forall|k: ComponentKind| start.contains_key(k) implies #[trigger] self.storages@[k]@ == start[k]@.remove(entity.0) by {
                assert(kinds@.to_set().contains(k));
            }
            assert(self.components() =~= purged(old(self).components(), entity.0));
        }
    }

    /// Attach a component to an entity under `kind`, replacing any component
    /// the entity had under that kind.
    pub fn attach_component(&mut self, entity: Entity, kind: ComponentKind, component: V)
        ensures
            final(self).entity_ids() == old(self).entity_ids(),
            final(self).components() == attached(old(self).components(), entity.0, kind, component),
    {
        let mut storage = match self.storages.remove(&kind) {
            Some(s) => s,
            None => HashMap::new(),
        };
        storage.insert(entity.0, component);
        self.storages.insert(kind, storage);
        assert(self.components() =~= attached(old(self).components(), entity.0, kind, component));
    }

    /// Get the component of an entity under `kind`.
    pub fn get_component(&self, entity: &Entity, kind: ComponentKind) -> (r: Option<&V>)
        ensures
            match r {
                Some(c) => lookup(self.components(), entity.0, kind) == Some(*c),
                None => lookup(self.components(), entity.0, kind) is None,
            },
    {
        match self.storages.get(&kind) {
            Some(storage) => storage.get(&entity.0),
            None => None,
        }
    }

    /// Get the component of an entity under `kind`, for change in place.
    pub fn get_component_mut(&mut self, entity: &Entity, kind: ComponentKind) -> (r: Option<&mut V>)
        ensures
            final(self).entity_ids() == old(self).entity_ids(),
            match r {
                Some(c) => {
                    &&& lookup(old(self).components(), entity.0, kind) == Some(*c)
                    &&& final(self).components() == attached(old(self).components(), entity.0, kind, *final(c))
                },
                None => {
                    &&& lookup(old(self).components(), entity.0, kind) is None
                    &&& final(self).components() == old(self).components()
                },
            },
    {
        match self.storages.entry(kind) {
            Entry::Occupied(outer) => storage_get_mut(outer.into_mut(), entity.0),
            Entry::Vacant(_) => None,
        }
    }

    /// Check if an entity has a component under `kind`.
    pub fn has_component(&self, entity: &Entity, kind: ComponentKind) -> (r: bool)
        ensures
            r == lookup(self.components(), entity.0, kind) is Some,
    {
        match self.storages.get(&kind) {
            Some(storage) => storage.contains_key(&entity.0),
            None => false,
        }
    }

    /// Remove the component of an entity under `kind`, handing it back.
    pub fn remove_component(&mut self, entity: &Entity, kind: ComponentKind) -> (r: Option<V>)
        ensures
            r == lookup(old(self).components(), entity.0, kind),
            final(self).entity_ids() == old(self).entity_ids(),
            final(self).components() == detached(old(self).components(), entity.0, kind),
    {
        match self.storages.remove(&kind) {
            Some(mut storage) => {
                let r = storage.remove(&entity.0);
                self.storages.insert(kind, storage);
                assert(self.components() =~= detached(old(self).components(), entity.0, kind));
                r
            },
            None => None,
        }
    }

    /// Get all entities in the world, each once.
    pub fn get_entities(&self) -> (r: Vec<Entity>)
        ensures
            r@.no_duplicates(),
            r@.map_values(|e: Entity| e.0).to_set() == self.entity_ids(),
            r@.len() == self.entity_ids().len(),
    {
        let mut r: Vec<Entity> = Vec::new();
        for id in it: self.entities.keys()
            invariant
                r@.map_values(|e: Entity| e.0) == it.history().unref(),
                r@.len() == it.history().len(),
        {
            r.push(Entity(*id));
            assert(r@.map_values(|e: Entity| e.0) =~= it.history().unref().push(*id));
        }
        proof {
            let ks = vstd::std_specs::iter::IteratorSpec::remaining(&vstd::std_specs::hash::spec_keys_iter(&self.entities));
            assert(r@.map_values(|e: Entity| e.0) == ks.unref());
            assert(ks.unref().to_set() == self.entities@.dom());
            assert forall|i: int, j: int| 0 <= i < r@.len() && 0 <= j < r@.len() && i != j implies r@[i] != r@[j] by {
                assert(r@.map_values(|e: Entity| e.0)[i] != r@.map_values(|e: Entity| e.0)[j]);
            }
        }
        r
    }

    /// Get every kind under which a specific entity has a component, each once.
    pub fn get_entity_component_types(&self, entity: &Entity) -> (r: Vec<ComponentKind>)
        ensures
            r@.no_duplicates(),
            r@.to_set() == kinds_of(self.components(), entity.0),
    {
        let kinds = self.storage_kinds();
        let mut r: Vec<ComponentKind> = Vec::new();
        let mut i: usize = 0;
        while i < kinds.len()
            invariant
                i <= kinds.len(),
                kinds@.no_duplicates(),
                kinds@.to_set() == self.storages@.dom(),
                r@.no_duplicates(),
                forall|k: ComponentKind| r@.contains(k) <==> (kinds@.subrange(0, i as int).contains(k)
                    && kinds_of(self.components(), entity.0).contains(k)),
            decreases kinds.len() - i,
        {
            let kind = kinds[i];
            assert(kinds@.to_set().contains(kind));
            let has = self.has_component(entity, kind);
            proof {
                assert(kinds@.subrange(0, i + 1) =~= kinds@.subrange(0, i as int).push(kind));
                assert(!kinds@.subrange(0, i as int).contains(kind)) by {
                    if kinds@.subrange(0, i as int).contains(kind) {
                        let j = choose|j: int| 0 <= j < i && kinds@.subrange(0, i as int)[j] == kind;
                        assert(kinds@[j] == kinds@[i as int]);
                    }
                }
            }
            let ghost old_r = r@;
            if has {
                proof {
                    assert(!r@.contains(kind));
                }
                r.push(kind);
                proof {
                    assert forall|a: int, b: int| 0 <= a < b < r@.len() implies r@[a] != r@[b] by {
                        if b == old_r.len() {
                            assert(old_r.contains(old_r[a]));
                        } else {
                            assert(old_r[a] != old_r[b]);
                        }
                    }
                }
            }
            proof {
                let sub_next = kinds@.subrange(0, i + 1);
                assert forall|k: ComponentKind| r@.contains(k) <==> (sub_next.contains(k)
                    && kinds_of(self.components(), entity.0).contains(k)) by {
                    if has {
                        assert(r@ == old_r.push(kind));
                        if r@.contains(k) && k != kind {
                            let j = choose|j: int| 0 <= j < r@.len() && r@[j] == k;
                            assert(old_r[j] == k);
                        }
                        if old_r.contains(k) {
                            let j = choose|j: int| 0 <= j < old_r.len() && old_r[j] == k;
                            assert(r@[j] == k);
                        }
                        assert(r@[old_r.len() as int] == kind);
                    }
                    if sub_next.contains(k) && k != kind {
                        let j = choose|j: int| 0 <= j < sub_next.len() && sub_next[j] == k;
                        assert(kinds@.subrange(0, i as int)[j] == k);
                    }
                    if kinds@.subrange(0, i as int).contains(k) {
                        let j = choose|j: int| 0 <= j < i && kinds@.subrange(0, i as int)[j] == k;
                        assert(sub_next[j] == k);
                    }
                    assert(sub_next[i as int] == kind);
                }
            }
            i = i + 1;
        }
        proof {
            assert(kinds@.subrange(0, kinds@.len() as int) =~= kinds@);
            assert forall|k: ComponentKind| kinds_of(self.components(), entity.0).contains(k) implies kinds@.contains(k) by {
                assert(kinds@.to_set().contains(k));
            }
            assert(r@.to_set() =~= kinds_of(self.components(), entity.0));
        }
        r
    }

    /// The kinds that have a storage, each once.
    fn storage_kinds(&self) -> (r: Vec<ComponentKind>)
        ensures
            r@.no_duplicates(),
            r@.to_set() == self.storages@.dom(),
    {
        let mut r: Vec<ComponentKind> = Vec::new();
        for k in it: self.storages.keys()
            invariant
                r@ == it.history().unref(),
        {
            r.push(*k);
        }
        proof {
            let ks = vstd::std_specs::iter::IteratorSpec::remaining(&vstd::std_specs::hash::spec_keys_iter(&self.storages));
            assert(r@ == ks.unref());
            assert(ks.unref().to_set() == self.storages@.dom());
        }
        r
    }
}

impl<V> Default for World<V> {
    fn default() -> (w: Self)
        ensures
            w.entity_ids() == Set::<u128>::empty(),
            w.components() == Map::<ComponentKind, Map<u128, V>>::empty(),
    {
        World::new()
    }
}

/// A component read back after it was attached is the one attached.
pub proof fn law_get_after_attach<V>(comps: Map<ComponentKind, Map<u128, V>>, e: u128, kind: ComponentKind, c: V)
    ensures
        lookup(attached(comps, e, kind, c), e, kind) == Some(c),
{
}

/// Attaching a component under one entity and kind leaves every other
/// entity and kind as it was.
pub proof fn law_attach_keeps_others<V>(
    comps: Map<ComponentKind, Map<u128, V>>,
    e: u128,
    kind: ComponentKind,
    c: V,
    other_e: u128,
    other_kind: ComponentKind,
)
    requires
        other_e != e || other_kind != kind,
    ensures
        lookup(attached(comps, e, kind, c), other_e, other_kind) == lookup(comps, other_e, other_kind),
{
}

/// After a component is removed, the entity no longer has a component of
/// that kind; nothing else changes.
pub proof fn law_remove_component<V>(
    comps: Map<ComponentKind, Map<u128, V>>,
    e: u128,
    kind: ComponentKind,
    other_e: u128,
    other_kind: ComponentKind,
)
    ensures
        lookup(detached(comps, e, kind), e, kind) is None,
        (other_e != e || other_kind != kind) ==> lookup(detached(comps, e, kind), other_e, other_kind)
            == lookup(comps, other_e, other_kind),
{
}

/// Attaching then removing a component gives back the component attached.
pub proof fn law_remove_after_attach<V>(comps: Map<ComponentKind, Map<u128, V>>, e: u128, kind: ComponentKind, c: V)
    ensures
        lookup(attached(comps, e, kind, c), e, kind) == Some(c),
        lookup(detached(attached(comps, e, kind, c), e, kind), e, kind) is None,
{
}

/// Destroying an entity removes every component it had, and only those.
pub proof fn law_destroy_removes_components<V>(
    comps: Map<ComponentKind, Map<u128, V>>,
    e: u128,
    kind: ComponentKind,
    other_e: u128,
)
    ensures
        lookup(purged(comps, e), e, kind) is None,
        kinds_of(purged(comps, e), e) == Set::<ComponentKind>::empty(),
        other_e != e ==> lookup(purged(comps, e), other_e, kind) == lookup(comps, other_e, kind),
{
    assert(kinds_of(purged(comps, e), e) =~= Set::<ComponentKind>::empty());
}

/// After a component is attached under `kind`, the entity's kinds are the
/// ones it had plus `kind`.
pub proof fn law_kinds_after_attach<V>(comps: Map<ComponentKind, Map<u128, V>>, e: u128, kind: ComponentKind, c: V)
    ensures
        kinds_of(attached(comps, e, kind, c), e) == kinds_of(comps, e).insert(kind),
{
    assert(kinds_of(attached(comps, e, kind, c), e) =~= kinds_of(comps, e).insert(kind));
}

} // verus!
