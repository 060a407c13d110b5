//! Mesh storage: meshes by handle, with handles handed out in sequence.
//!
//! The mesh values themselves (vertices, indices, GPU buffers) are carried
//! as they are; the storage decides handles.
use std::collections::hash_map::Entry;
use std::collections::HashMap;
use vstd::prelude::*;

verus! {

/// Handle type for identifying meshes.
pub type MeshHandle = u32;

/// Storage for meshes, each under the handle it was given.
pub struct MeshStorage<M> {
    meshes: HashMap<MeshHandle, M>,
    next_handle: MeshHandle,
}

impl<M> MeshStorage<M> {
    /// Every stored mesh has a handle below the next one to be handed out.
    pub closed spec fn wf(&self) -> bool {
        forall|h: MeshHandle| #[trigger] self.meshes@.contains_key(h) ==> h < self.next_handle
    }

    /// The meshes, by handle.
    pub closed spec fn meshes(&self) -> Map<MeshHandle, M> {
        self.meshes@
    }

    /// The handle the next mesh gets.
    pub closed spec fn next(&self) -> MeshHandle {
        self.next_handle
    }

    /// An empty storage; the first mesh gets handle 0.
    pub fn new() -> (s: Self)
        ensures
            s.wf(),
            s.meshes() == Map::<MeshHandle, M>::empty(),
            s.next() == 0,
    {
        MeshStorage { meshes: HashMap::new(), next_handle: 0 }
    }

    /// The handle the next stored mesh will get.
    pub fn next_handle(&self) -> (h: MeshHandle)
        ensures
            h == self.next(),
    {
        self.next_handle
    }

    /// Store a mesh under the next handle, and hand the handle back.
    pub fn add_mesh(&mut self, mesh: M) -> (h: MeshHandle)
        requires
            old(self).wf(),
            old(self).next() < MeshHandle::MAX,
        ensures
            final(self).wf(),
            h == old(self).next(),
            !old(self).meshes().contains_key(h),
            final(self).next() == old(self).next() + 1,
            final(self).meshes() == old(self).meshes().insert(h, mesh),
    {
        let handle = self.next_handle;
        self.next_handle = self.next_handle + 1;
        self.meshes.insert(handle, mesh);
        handle
    }

    /// The mesh under a handle.
    pub fn get_mesh(&self, handle: MeshHandle) -> (r: Option<&M>)
        ensures
            match r {
                Some(m) => self.meshes().contains_key(handle) && self.meshes()[handle] == *m,
                None => !self.meshes().contains_key(handle),
            },
    {
        self.meshes.get(&handle)
    }

    /// The mesh under a handle, for change in place.
    pub fn get_mesh_mut(&mut self, handle: MeshHandle) -> (r: Option<&mut M>)
        requires
            old(self).wf(),
        ensures
            final(self).wf(),
            final(self).next() == old(self).next(),
            match r {
                Some(m) => old(self).meshes().contains_key(handle) && old(self).meshes()[handle] == *m
                    && final(self).meshes() == old(self).meshes().insert(handle, *final(m)),
                None => !old(self).meshes().contains_key(handle) && final(self).meshes() == old(self).meshes(),
            },
    {
        match self.meshes.entry(handle) {
            Entry::Occupied(o) => Some(o.into_mut()),
            Entry::Vacant(_) => None,
        }
    }

    /// The number of meshes stored.
    pub fn len(&self) -> (n: usize)
        ensures
            n == self.meshes().len(),
    {
        self.meshes.len()
    }

    /// Is no mesh stored?
    pub fn is_empty(&self) -> (r: bool)
        ensures
            r == (self.meshes().len() == 0),
    {
        self.meshes.is_empty()
    }

    /// The meshes stored, each once, in no particular order.
    pub fn iter(&self) -> (r: std::collections::hash_map::Values<'_, MeshHandle, M>)
        ensures
            vstd::std_specs::iter::IteratorSpec::remaining(&r).unref().to_set() == self.meshes().values(),
            vstd::std_specs::iter::IteratorSpec::remaining(&r).len() == self.meshes().len(),
    {
        self.meshes.values()
    }

    /// Remove the mesh under a handle, handing it back; its handle is not
    /// handed out again.
    pub fn remove_mesh(&mut self, handle: MeshHandle) -> (r: Option<M>)
        requires
            old(self).wf(),
        ensures
            final(self).wf(),
            final(self).next() == old(self).next(),
            final(self).meshes() == old(self).meshes().remove(handle),
            match r {
                Some(m) => old(self).meshes().contains_key(handle) && old(self).meshes()[handle] == m,
                None => !old(self).meshes().contains_key(handle),
            },
    {
        self.meshes.remove(&handle)
    }

    /// Remove every mesh; handles start again from 0.
    pub fn clear(&mut self)
        ensures
            final(self).wf(),
            final(self).meshes() == Map::<MeshHandle, M>::empty(),
            final(self).next() == 0,
    {
        self.meshes.clear();
        self.next_handle = 0;
    }
}

impl<M> Default for MeshStorage<M> {
    fn default() -> (s: Self)
        ensures
            s.wf(),
            s.meshes() == Map::<MeshHandle, M>::empty(),
            s.next() == 0,
    {
        MeshStorage::new()
    }
}

} // verus!
