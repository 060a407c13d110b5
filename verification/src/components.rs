//! Core component types and their inspection in the editor.
use vstd::prelude::*;

verus! {

/// Display of a component's data in the editor: a type name and a list of
/// (label, value) pairs.
pub trait ComponentDisplay {
    /// Get the type name of this component.
    fn component_type_name(&self) -> &str;

    /// Get a human-readable display of this component's data.
    fn display_data(&self) -> Vec<(String, String)>;
}

/// Mesh component representing a renderable mesh.
#[derive(Debug, Clone)]
pub struct MeshComponent {
    pub mesh_name: String,
    pub material_name: String,
}

impl MeshComponent {
    /// Create a new mesh component.
    pub fn new(mesh_name: String, material_name: String) -> (c: Self)
        ensures
            c.mesh_name@ == mesh_name@,
            c.material_name@ == material_name@,
    {
        MeshComponent { mesh_name, material_name }
    }

    /// Create a mesh component with the default material.
    pub fn with_mesh(mesh_name: String) -> (c: Self)
        ensures
            c.mesh_name@ == mesh_name@,
            c.material_name@ == "default"@,
    {
        MeshComponent { mesh_name, material_name: "default".to_string() }
    }
}

impl Default for MeshComponent {
    fn default() -> (c: Self)
        ensures
            c.mesh_name@ == "cube"@,
            c.material_name@ == "default"@,
    {
        MeshComponent { mesh_name: "cube".to_string(), material_name: "default".to_string() }
    }
}

impl ComponentDisplay for MeshComponent {
    fn component_type_name(&self) -> (r: &str)
        ensures
            r@ == "MeshComponent"@,
    {
        "MeshComponent"
    }

    fn display_data(&self) -> (r: Vec<(String, String)>)
        ensures
            r@.len() == 2,
            r@[0].0@ == "Mesh"@,
            r@[0].1@ == self.mesh_name@,
            r@[1].0@ == "Material"@,
            r@[1].1@ == self.material_name@,
    {
        let mut r: Vec<(String, String)> = Vec::new();
        r.push(("Mesh".to_string(), self.mesh_name.clone()));
        r.push(("Material".to_string(), self.material_name.clone()));
        r
    }
}

/// Name component for identifying entities in the scene.
#[derive(Debug, Clone)]
pub struct Name {
    pub name: String,
}

impl Name {
    /// Create a new name component.
    pub fn new(name: String) -> (c: Self)
        ensures
            c.name@ == name@,
    {
        Name { name }
    }
}

impl Default for Name {
    fn default() -> (c: Self)
        ensures
            c.name@ == "Entity"@,
    {
        Name { name: "Entity".to_string() }
    }
}

impl ComponentDisplay for Name {
    fn component_type_name(&self) -> (r: &str)
        ensures
            r@ == "Name"@,
    {
        "Name"
    }

    fn display_data(&self) -> (r: Vec<(String, String)>)
        ensures
            r@.len() == 1,
            r@[0].0@ == "Name"@,
            r@[0].1@ == self.name@,
    {
        let mut r: Vec<(String, String)> = Vec::new();
        r.push(("Name".to_string(), self.name.clone()));
        r
    }
}

} // verus!
