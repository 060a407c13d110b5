use gn_engine::handles::string_to_handle;
use gn_engine::lighting::LightingConfig;
use gn_engine::material::{MaterialManager, PBRMaterialManager, PBRTextureSet};
use gn_engine::mesh_storage::MeshStorage;
use gn_engine::texture_catalog::{texture_load_from, TextureCatalog, TextureLoad};
use std::collections::hash_map::DefaultHasher;
use std::hash::{Hash, Hasher};

/// A Phong material as the renderer keeps it.
#[derive(Debug, Clone, Copy, PartialEq)]
struct Material {
    color: [f32; 3],
    ambient: f32,
    specular: [f32; 3],
    shininess: f32,
}

fn material(color: [f32; 3], ambient: f32, specular: [f32; 3], shininess: f32) -> Material {
    Material { color, ambient, specular, shininess }
}

fn default_material() -> Material {
    material([1.0, 1.0, 1.0], 0.2, [1.0, 1.0, 1.0], 32.0)
}

fn red_plastic() -> Material {
    material([1.0, 0.0, 0.0], 0.2, [0.3, 0.3, 0.3], 16.0)
}

fn blue_plastic() -> Material {
    material([0.0, 0.0, 1.0], 0.2, [0.3, 0.3, 0.3], 16.0)
}

#[test]
fn test_material_manager_creation() {
    let manager = MaterialManager::new(default_material());
    assert_eq!(manager.material_count(), 1);
    assert!(manager.get(0).is_some());
}

#[test]
fn test_create_material() {
    let mut manager = MaterialManager::new(default_material());
    let handle = manager.create_material("red", red_plastic());
    assert_eq!(handle, 1);
    assert!(manager.get(handle).is_some());
}

#[test]
fn test_get_material_by_name() {
    let mut manager = MaterialManager::new(default_material());
    let handle = manager.create_material("custom", blue_plastic());
    assert_eq!(manager.get_by_name("custom"), Some(handle));
    assert_eq!(manager.get_by_name("nonexistent"), None);
}

#[test]
fn test_get_mut_material() {
    let mut manager = MaterialManager::new(default_material());
    let handle = manager.create_material("mutable", material([1.0, 0.0, 0.0], 0.2, [1.0, 1.0, 1.0], 32.0));

    if let Some(mat) = manager.get_mut(handle) {
        mat.ambient = 0.5;
    }

    assert_eq!(manager.get(handle).unwrap().ambient, 0.5);
}

#[test]
fn test_default_material_handle() {
    assert_eq!(MaterialManager::<Material>::default_material_handle(), 0);
}

#[test]
fn test_material_manager_names() {
    let mut manager = MaterialManager::new(default_material());
    assert_eq!(manager.get_by_name("default"), Some(0));
    assert_eq!(manager.get(0), Some(&default_material()));
    assert_eq!(manager.get(1), None);
    let first = manager.create_material("shared", red_plastic());
    let second = manager.create_material("shared", blue_plastic());
    assert_eq!((first, second), (1, 2));
    assert_eq!(manager.get_by_name("shared"), Some(2));
    assert_eq!(manager.get(first), Some(&red_plastic()));
    assert!(manager.get_mut(7).is_none());
}

#[derive(Debug, Clone, Copy, PartialEq)]
struct PbrMaterial {
    albedo: [f32; 3],
    roughness: f32,
    metallic_factor: f32,
}

fn white_plastic() -> PbrMaterial {
    PbrMaterial { albedo: [1.0, 1.0, 1.0], roughness: 0.5, metallic_factor: 0.0 }
}

fn shiny_metal() -> PbrMaterial {
    PbrMaterial { albedo: [0.9, 0.9, 0.9], roughness: 0.1, metallic_factor: 1.0 }
}

#[test]
fn test_pbr_material_manager_creation() {
    let manager = PBRMaterialManager::new(white_plastic());
    assert_eq!(manager.len(), 1); // Default material
}

#[test]
fn test_pbr_material_manager_add_material() {
    let mut manager = PBRMaterialManager::new(white_plastic());
    let handle = manager.create_material("test_metal", shiny_metal());
    assert_eq!(handle, 1); // Second material (first is default)
    assert_eq!(manager.len(), 2);
}

#[test]
fn test_pbr_material_manager_lookup() {
    let mut manager = PBRMaterialManager::new(white_plastic());
    manager.create_material("test_material", shiny_metal());

    let handle = manager.get_by_name("test_material");
    assert!(handle.is_some());
    assert_eq!(handle.unwrap(), 1);
}

#[test]
fn test_pbr_material_manager_get() {
    let mut manager = PBRMaterialManager::new(white_plastic());
    let handle = manager.create_material("test", shiny_metal());

    let material = manager.get(handle);
    assert!(material.is_some());
}

#[test]
fn test_pbr_material_manager_details() {
    let mut manager = PBRMaterialManager::new(white_plastic());
    assert_eq!(manager.get_by_name("default_white"), Some(PBRMaterialManager::<PbrMaterial>::default_handle()));
    assert!(!manager.is_empty());
    manager.create_material("metal", shiny_metal());
    if let Some(m) = manager.get_mut(1) {
        m.roughness = 0.3;
    }
    assert_eq!(manager.get(1).unwrap().roughness, 0.3);
    let all: Vec<&PbrMaterial> = manager.iter().collect();
    assert_eq!(all.len(), 2);
    assert_eq!(*all[0], white_plastic());
}

#[test]
fn test_pbr_texture_set_default() {
    let set = PBRTextureSet::default();
    assert!(set.albedo.is_none());
    assert!(set.normal.is_none());
}

#[derive(Debug, Clone, Copy, PartialEq)]
struct Light {
    direction: [f32; 3],
    color: [f32; 3],
    intensity: f32,
}

fn directional(direction: [f32; 3], color: [f32; 3], intensity: f32) -> Light {
    Light { direction, color, intensity }
}

#[test]
fn test_lighting_config() {
    let mut config = LightingConfig::new(([1.0f32, 1.0, 1.0], 0.1f32));
    let light = directional([1.0, -1.0, 0.0], [1.0, 1.0, 1.0], 1.0);

    assert!(config.add_light(light));
    assert_eq!(config.light_count(), 1);

    let removed = config.remove_light(0);
    assert!(removed.is_some());
    assert_eq!(config.light_count(), 0);
}

#[test]
fn test_max_lights() {
    let mut config = LightingConfig::new(([1.0f32, 1.0, 1.0], 0.1f32));
    config.max_lights = 2;

    let light1 = directional([1.0, 0.0, 0.0], [1.0, 0.0, 0.0], 1.0);
    let light2 = directional([0.0, 1.0, 0.0], [0.0, 1.0, 0.0], 1.0);
    let light3 = directional([0.0, 0.0, 1.0], [0.0, 0.0, 1.0], 1.0);

    assert!(config.add_light(light1));
    assert!(config.add_light(light2));
    assert!(!config.add_light(light3)); // Should fail
    assert_eq!(config.light_count(), 2);
}

#[test]
fn test_lighting_remove_out_of_range() {
    let mut config: LightingConfig<f32, Light> = LightingConfig::new(0.1);
    assert_eq!(config.max_lights, 16);
    assert!(config.remove_light(0).is_none());
    let a = directional([1.0, 0.0, 0.0], [1.0, 0.0, 0.0], 1.0);
    let b = directional([0.0, 1.0, 0.0], [0.0, 1.0, 0.0], 2.0);
    config.add_light(a);
    config.add_light(b);
    assert_eq!(config.remove_light(0), Some(a));
    assert_eq!(config.lights, vec![b]);
}

/// A mesh as the renderer keeps it (without its GPU buffers).
#[derive(Debug, Clone, PartialEq)]
struct Mesh {
    name: String,
    indices: Vec<u32>,
}

fn cube() -> Mesh {
    Mesh { name: "Cube".to_string(), indices: vec![0, 1, 2, 2, 3, 0] }
}

#[test]
fn test_mesh_storage_creation() {
    let storage: MeshStorage<Mesh> = MeshStorage::new();
    assert_eq!(storage.len(), 0);
    assert!(storage.is_empty());
}

#[test]
fn test_mesh_storage_add_mesh() {
    let mut storage = MeshStorage::new();
    let mesh = cube();
    let handle = storage.add_mesh(mesh);
    assert_eq!(handle, 0);
    assert_eq!(storage.len(), 1);
}

#[test]
fn test_mesh_storage_get_mesh() {
    let mut storage = MeshStorage::new();
    let mesh = cube();
    let handle = storage.add_mesh(mesh);

    let retrieved = storage.get_mesh(handle);
    assert!(retrieved.is_some());
    assert_eq!(retrieved.unwrap().name, "Cube");
}

#[test]
fn test_mesh_storage_remove_mesh() {
    let mut storage = MeshStorage::new();
    let mesh = cube();
    let handle = storage.add_mesh(mesh);

    let removed = storage.remove_mesh(handle);
    assert!(removed.is_some());
    assert_eq!(storage.len(), 0);
}

#[test]
fn test_mesh_storage_clear() {
    let mut storage = MeshStorage::new();
    storage.add_mesh(cube());
    storage.add_mesh(cube());
    assert_eq!(storage.len(), 2);

    storage.clear();
    assert_eq!(storage.len(), 0);
    assert!(storage.is_empty());
}

#[test]
fn test_mesh_storage_iterator() {
    let mut storage = MeshStorage::new();
    storage.add_mesh(cube());
    storage.add_mesh(cube());

    let count = storage.iter().count();
    assert_eq!(count, 2);
}

#[test]
fn test_mesh_storage_multiple_handles() {
    let mut storage = MeshStorage::new();
    let h1 = storage.add_mesh(cube());
    let h2 = storage.add_mesh(cube());
    let h3 = storage.add_mesh(cube());

    assert_eq!(h1, 0);
    assert_eq!(h2, 1);
    assert_eq!(h3, 2);
    assert_eq!(storage.len(), 3);
}

#[test]
fn test_mesh_storage_default() {
    let storage: MeshStorage<Mesh> = MeshStorage::default();
    assert!(storage.is_empty());
}

#[test]
fn test_mesh_storage_handles_not_reused_until_clear() {
    let mut storage = MeshStorage::new();
    let h0 = storage.add_mesh(cube());
    storage.remove_mesh(h0);
    let h1 = storage.add_mesh(cube());
    assert_eq!(h1, 1);
    if let Some(m) = storage.get_mesh_mut(h1) {
        m.name = "Renamed".to_string();
    }
    assert_eq!(storage.get_mesh(h1).unwrap().name, "Renamed");
    assert!(storage.get_mesh_mut(h0).is_none());
    storage.clear();
    assert_eq!(storage.add_mesh(cube()), 0);
}

#[test]
fn test_texture_manager_creation() {
    let catalog: TextureCatalog<(u32, u32)> = TextureCatalog::new();
    assert!(catalog.is_empty());
    assert_eq!(catalog.len(), 0);
}

#[test]
fn test_texture_handle_generation() {
    let mut catalog: TextureCatalog<(u32, u32)> = TextureCatalog::new();
    assert_eq!(catalog.get_by_name("wood"), None);
    let wood = catalog.insert_loaded("wood", (64, 64));
    let brick = catalog.insert_loaded("brick", (128, 32));
    assert_eq!((wood, brick), (0, 1));
    assert_eq!(catalog.get_by_name("wood"), Some(0));
    assert_eq!(catalog.get_texture(brick), Some(&(128, 32)));
    let removed = catalog.remove_texture(wood).unwrap();
    assert_eq!(removed.0, "wood");
    assert_eq!(catalog.get_by_name("wood"), None);
    assert_eq!(catalog.len(), 1);
    assert_eq!(catalog.insert_loaded("wood", (1, 1)), 2);
    catalog.clear();
    assert!(catalog.is_empty());
    assert_eq!(catalog.get_by_name("brick"), None);
}

fn std_hash_handle(name: &str) -> u32 {
    let mut hasher = DefaultHasher::new();
    name.hash(&mut hasher);
    hasher.finish() as u32
}

#[test]
fn test_string_to_handle_matches_std_hash() {
    for name in ["cube", "default", "", "material_3", "ünïcödé"] {
        assert_eq!(string_to_handle(name), std_hash_handle(name));
    }
    assert_eq!(string_to_handle("cube"), string_to_handle("cube"));
    assert_ne!(string_to_handle("cube"), string_to_handle("default"));
}

/// A 2x1 PNG: a red pixel, then a half-transparent blue one.
fn tiny_png() -> Vec<u8> {
    let mut img = image::RgbaImage::new(2, 1);
    img.put_pixel(0, 0, image::Rgba([255, 0, 0, 255]));
    img.put_pixel(1, 0, image::Rgba([0, 0, 255, 128]));
    let mut bytes: Vec<u8> = Vec::new();
    img.write_to(&mut std::io::Cursor::new(&mut bytes), image::ImageOutputFormat::Png).unwrap();
    bytes
}

#[test]
fn test_prepare_load_decodes_new_texture() {
    let catalog: TextureCatalog<u32> = TextureCatalog::new();
    match catalog.prepare_load("tiny", "textures/tiny.png", Ok(tiny_png())) {
        TextureLoad::Decoded { width, height, pixels } => {
            assert_eq!((width, height), (2, 1));
            assert_eq!(pixels, vec![255, 0, 0, 255, 0, 0, 255, 128]);
        }
        other => panic!("expected a decoded image, got {:?}", other),
    }
}

#[test]
fn test_prepare_load_uses_cache() {
    let mut catalog: TextureCatalog<u32> = TextureCatalog::new();
    let h = catalog.insert_loaded("tiny", 7);
    assert_eq!(catalog.len(), 1);
    match catalog.prepare_load("tiny", "missing.png", Err("not found".to_string())) {
        TextureLoad::Cached(c) => assert_eq!(c, h),
        other => panic!("expected the cached handle, got {:?}", other),
    }
}

#[test]
fn test_prepare_load_failures() {
    let catalog: TextureCatalog<u32> = TextureCatalog::new();
    match catalog.prepare_load("t", "missing.png", Err("No such file or directory (os error 2)".to_string())) {
        TextureLoad::Failed(m) => {
            assert_eq!(m, "Failed to load image missing.png: No such file or directory (os error 2)")
        }
        other => panic!("expected a failure, got {:?}", other),
    }
    match catalog.prepare_load("t", "broken.png", Ok(vec![1, 2, 3])) {
        TextureLoad::Failed(m) => assert!(m.starts_with("Failed to load image broken.png: ")),
        other => panic!("expected a failure, got {:?}", other),
    }
    match catalog.prepare_load("t", "notes.txt", Ok(tiny_png())) {
        TextureLoad::Failed(m) => {
            assert!(m.starts_with("Failed to load image notes.txt: "));
            assert!(m.contains("was not recognized as an image format"));
        }
        other => panic!("expected a failure, got {:?}", other),
    }
}

#[test]
fn test_texture_load_from() {
    match texture_load_from("a.png", Ok((3, 4, vec![9; 48]))) {
        TextureLoad::Decoded { width, height, pixels } => {
            assert_eq!((width, height, pixels.len()), (3, 4, 48));
        }
        other => panic!("expected a decoded image, got {:?}", other),
    }
    match texture_load_from("a.png", Err("bad".to_string())) {
        TextureLoad::Failed(m) => assert_eq!(m, "Failed to load image a.png: bad"),
        other => panic!("expected a failure, got {:?}", other),
    }
}

#[test]
fn test_texture_catalog_iter() {
    let mut catalog: TextureCatalog<u32> = TextureCatalog::new();
    catalog.insert_loaded("a", 1);
    catalog.insert_loaded("b", 2);
    let mut seen: Vec<(String, u32)> = catalog.iter().cloned().collect();
    seen.sort();
    assert_eq!(seen, vec![("a".to_string(), 1), ("b".to_string(), 2)]);
}
