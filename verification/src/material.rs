//! Material storage: materials by handle, handles by name.
//!
//! The material values themselves (colours and lighting coefficients) are
//! carried as they are; the managers decide handles and names.
use crate::slot::get_slot_mut;
use crate::table::NamedTable;
use vstd::prelude::*;

verus! {

/// Handle to a material in a manager: its position in the manager's list.
pub type MaterialHandle = u32;

/// Handle for GPU texture references.
pub type TextureHandle = u32;

/// Manager for storing and retrieving materials. The default material is
/// always available at handle 0, under the name "default".
pub struct MaterialManager<M> {
    materials: Vec<M>,
    name_map: NamedTable<MaterialHandle>,
}

impl<M> MaterialManager<M> {
    /// The name table is well formed and the default material is present.
    pub closed spec fn wf(&self) -> bool {
        &&& self.name_map.wf()
        &&& self.materials@.len() >= 1
    }

    /// The materials, by handle.
    pub closed spec fn materials(&self) -> Seq<M> {
        self.materials@
    }

    /// The handles, by name.
    pub closed spec fn names(&self) -> Map<Seq<char>, MaterialHandle> {
        self.name_map@
    }

    /// A manager that holds `default_material` at handle 0, named "default".
    pub fn new(default_material: M) -> (m: Self)
        ensures
            m.wf(),
            m.materials() == seq![default_material],
            m.names() == Map::<Seq<char>, MaterialHandle>::empty().insert("default"@, 0),
    {
        let mut materials: Vec<M> = Vec::new();
        materials.push(default_material);
        let mut name_map = NamedTable::new();
        name_map.insert("default", 0);
        let m = MaterialManager { materials, name_map };
        assert(m.materials() =~= seq![default_material]);
        m
    }

    /// Store a new material under `name` and hand back its handle: the next
    /// position in the list. A name already in use now names the new material.
    pub fn create_material(&mut self, name: &str, material: M) -> (h: MaterialHandle)
        requires
            old(self).wf(),
        ensures
            final(self).wf(),
            h == old(self).materials().len() as MaterialHandle,
            final(self).materials() == old(self).materials().push(material),
            final(self).names() == old(self).names().insert(name@, h),
    {
        let handle = self.materials.len() as MaterialHandle;
        self.materials.push(material);
        self.name_map.insert(name, handle);
        handle
    }

    /// The material at a handle.
    pub fn get(&self, handle: MaterialHandle) -> (r: Option<&M>)
        ensures
            match r {
                Some(m) => (handle as int) < self.materials().len() && *m == self.materials()[handle as int],
                None => (handle as int) >= self.materials().len(),
            },
    {
        let i = handle as usize;
        if i < self.materials.len() {
            Some(&self.materials[i])
        } else {
            None
        }
    }

    /// The material at a handle, for change in place.
    pub fn get_mut(&mut self, handle: MaterialHandle) -> (r: Option<&mut M>)
        requires
            old(self).wf(),
        ensures
            final(self).wf(),
            final(self).names() == old(self).names(),
            match r {
                Some(m) => (handle as int) < old(self).materials().len()
                    && *m == old(self).materials()[handle as int]
                    && final(self).materials() == old(self).materials().update(handle as int, *final(m)),
                None => (handle as int) >= old(self).materials().len()
                    && final(self).materials() == old(self).materials(),
            },
    {
        get_slot_mut(&mut self.materials, handle as usize)
    }

    /// The handle a name stands for.
    pub fn get_by_name(&self, name: &str) -> (r: Option<MaterialHandle>)
        requires
            self.wf(),
        ensures
            match r {
                Some(h) => self.names().contains_key(name@) && self.names()[name@] == h,
                None => !self.names().contains_key(name@),
            },
    {
        match self.name_map.get(name) {
            Some(h) => Some(*h),
            None => None,
        }
    }

    /// The handle of the default material.
    pub fn default_material_handle() -> (h: MaterialHandle)
        ensures
            h == 0,
    {
        0
    }

    /// The number of materials held.
    pub fn material_count(&self) -> (n: usize)
        ensures
            n == self.materials().len(),
    {
        self.materials.len()
    }
}

/// Manager for physically based materials. It starts with one material,
/// named "default_white", at handle 0.
pub struct PBRMaterialManager<M> {
    materials: Vec<M>,
    name_map: NamedTable<u32>,
}

impl<M> PBRMaterialManager<M> {
    /// The name table is well formed.
    pub closed spec fn wf(&self) -> bool {
        self.name_map.wf()
    }

    /// The materials, by handle.
    pub closed spec fn materials(&self) -> Seq<M> {
        self.materials@
    }

    /// The handles, by name.
    pub closed spec fn names(&self) -> Map<Seq<char>, u32> {
        self.name_map@
    }

    /// A manager that holds `default_material` at handle 0, named
    /// "default_white".
    pub fn new(default_material: M) -> (m: Self)
        ensures
            m.wf(),
            m.materials() == seq![default_material],
            m.names() == Map::<Seq<char>, u32>::empty().insert("default_white"@, 0),
    {
        let mut manager = PBRMaterialManager { materials: Vec::new(), name_map: NamedTable::new() };
        manager.create_material("default_white", default_material);
        assert(manager.materials() =~= seq![default_material]);
        manager
    }

    /// Store a new material under `name` and hand back its handle.
    pub fn create_material(&mut self, name: &str, material: M) -> (h: u32)
        requires
            old(self).wf(),
        ensures
            final(self).wf(),
            h == old(self).materials().len() as u32,
            final(self).materials() == old(self).materials().push(material),
            final(self).names() == old(self).names().insert(name@, h),
    {
        let handle = self.materials.len() as u32;
        self.materials.push(material);
        self.name_map.insert(name, handle);
        handle
    }

    /// The material at a handle.
    pub fn get(&self, handle: u32) -> (r: Option<&M>)
        ensures
            match r {
                Some(m) => (handle as int) < self.materials().len() && *m == self.materials()[handle as int],
                None => (handle as int) >= self.materials().len(),
            },
    {
        let i = handle as usize;
        if i < self.materials.len() {
            Some(&self.materials[i])
        } else {
            None
        }
    }

    /// The material at a handle, for change in place.
    pub fn get_mut(&mut self, handle: u32) -> (r: Option<&mut M>)
        requires
            old(self).wf(),
        ensures
            final(self).wf(),
            final(self).names() == old(self).names(),
            match r {
                Some(m) => (handle as int) < old(self).materials().len()
                    && *m == old(self).materials()[handle as int]
                    && final(self).materials() == old(self).materials().update(handle as int, *final(m)),
                None => (handle as int) >= old(self).materials().len()
                    && final(self).materials() == old(self).materials(),
            },
    {
        get_slot_mut(&mut self.materials, handle as usize)
    }

    /// The handle a name stands for.
    pub fn get_by_name(&self, name: &str) -> (r: Option<u32>)
        requires
            self.wf(),
        ensures
            match r {
                Some(h) => self.names().contains_key(name@) && self.names()[name@] == h,
                None => !self.names().contains_key(name@),
            },
    {
        match self.name_map.get(name) {
            Some(h) => Some(*h),
            None => None,
        }
    }

    /// The handle of the default material.
    pub fn default_handle() -> (h: u32)
        ensures
            h == 0,
    {
        0
    }

    /// The number of materials held.
    pub fn len(&self) -> (n: usize)
        ensures
            n == self.materials().len(),
    {
        self.materials.len()
    }

    /// Is no material held?
    pub fn is_empty(&self) -> (r: bool)
        ensures
            r == (self.materials().len() == 0),
    {
        self.materials.is_empty()
    }

    /// The materials, in handle order.
    pub fn iter(&self) -> (r: std::slice::Iter<'_, M>)
        ensures
            vstd::std_specs::iter::IteratorSpec::remaining(&r).unref() == self.materials(),
    {
        self.materials.iter()
    }
}

/// Set of textures for a physically based material.
#[derive(Debug, Clone, Copy, PartialEq, Eq, Structural)]
pub struct PBRTextureSet {
    pub albedo: Option<TextureHandle>,
    pub normal: Option<TextureHandle>,
    pub roughness: Option<TextureHandle>,
    pub metallic: Option<TextureHandle>,
    pub ao: Option<TextureHandle>,
}

impl Default for PBRTextureSet {
    fn default() -> (s: Self)
        ensures
            s.albedo is None,
            s.normal is None,
            s.roughness is None,
            s.metallic is None,
            s.ao is None,
    {
        PBRTextureSet { albedo: None, normal: None, roughness: None, metallic: None, ao: None }
    }
}

/// A material read back by the handle `create_material` gave is the one
/// stored, its name now stands for that handle, and every material stored
/// before keeps its handle.
pub proof fn law_material_read_back<M>(
    before: MaterialManager<M>,
    after: MaterialManager<M>,
    name: Seq<char>,
    material: M,
    h: MaterialHandle,
)
    requires
        before.wf(),
        before.materials().len() < u32::MAX,
        h == before.materials().len() as MaterialHandle,
        after.materials() == before.materials().push(material),
        after.names() == before.names().insert(name, h),
    ensures
        (h as int) < after.materials().len(),
        after.materials()[h as int] == material,
        after.names()[name] == h,
        forall|i: int| 0 <= i < before.materials().len() ==> after.materials()[i] == before.materials()[i],
{
}

/// The default material is always present: handle 0 is always valid.
pub proof fn law_default_material_present<M>(manager: MaterialManager<M>)
    requires
        manager.wf(),
    ensures
        manager.materials().len() >= 1,
{
}

} // verus!
