use gn_engine::asset::{Asset, AssetId, AssetLoader, AssetManager};
use gn_engine::components::{ComponentDisplay, MeshComponent, Name};
use gn_engine::ecs::{ComponentKind, Entity, World};
use gn_engine::error::EngineError;
use std::path::{Path, PathBuf};

struct MockAsset {
    id: AssetId,
}

impl Asset for MockAsset {
    fn id(&self) -> &AssetId {
        &self.id
    }
}

/// Loads an asset whose id is the file name part of the path.
struct MockLoader;

impl AssetLoader<MockAsset> for MockLoader {
    fn load(&self, path: &PathBuf) -> Result<MockAsset, EngineError> {
        let name = path.to_str().unwrap().to_string();
        Ok(MockAsset { id: AssetId::new(&name) })
    }
}

/// A loader that always fails.
struct FailingLoader;

impl AssetLoader<MockAsset> for FailingLoader {
    fn load(&self, _path: &PathBuf) -> Result<MockAsset, EngineError> {
        Err(EngineError::SerializationError)
    }
}

enum Loader {
    Mock(MockLoader),
    Failing(FailingLoader),
}

impl AssetLoader<MockAsset> for Loader {
    fn load(&self, path: &PathBuf) -> Result<MockAsset, EngineError> {
        match self {
            Loader::Mock(l) => l.load(path),
            Loader::Failing(l) => l.load(path),
        }
    }
}

#[test]
fn lib_it_works() {
    assert_eq!(2 + 2, 4);
}

#[test]
fn test_asset_id_creation() {
    let id = AssetId::new("models/cube.gltf");
    assert_eq!(id.0, "models/cube.gltf");
}

#[test]
fn test_asset_manager_creation() {
    let manager: AssetManager<MockAsset, Loader> = AssetManager::new(PathBuf::from("assets"));
    assert_eq!(manager.asset_root(), Path::new("assets"));
}

#[test]
fn test_asset_storage() {
    let mut manager: AssetManager<MockAsset, Loader> = AssetManager::new(PathBuf::from("assets"));
    manager.register_loader("asset".to_string(), Loader::Mock(MockLoader));
    let id = manager
        .load_asset_from(&PathBuf::from("test/asset"), Some("asset".to_string()))
        .unwrap();
    assert_eq!(id, AssetId::new("test/asset"));
    assert!(manager.has_asset(&id));
}

#[test]
fn test_load_asset_without_loader_is_not_found() {
    let mut manager: AssetManager<MockAsset, Loader> = AssetManager::new(PathBuf::from("assets"));
    let r = manager.load_asset("models/cube.gltf");
    assert_eq!(r, Err(EngineError::AssetNotFound));
    assert!(!manager.has_asset(&AssetId::new("assets/models/cube.gltf")));
}

#[test]
fn test_load_asset_uses_extension_loader() {
    let mut manager: AssetManager<MockAsset, Loader> = AssetManager::new(PathBuf::from("assets"));
    manager.register_loader("gltf".to_string(), Loader::Mock(MockLoader));
    let id = manager.load_asset("models/cube.gltf").unwrap();
    assert_eq!(id.0, "assets/models/cube.gltf");
    assert!(manager.has_asset(&id));
    assert_eq!(manager.get_asset(&id).unwrap().id(), &id);
    assert!(manager.unload_asset(&id));
    assert!(!manager.has_asset(&id));
    assert!(!manager.unload_asset(&id));
}

#[test]
fn test_load_asset_without_extension_uses_unknown_loader() {
    let mut manager: AssetManager<MockAsset, Loader> = AssetManager::new(PathBuf::from("assets"));
    manager.register_loader("unknown".to_string(), Loader::Mock(MockLoader));
    let id = manager.load_asset("README").unwrap();
    assert_eq!(id.as_str(), "assets/README");
}

#[test]
fn test_loader_error_is_passed_on() {
    let mut manager: AssetManager<MockAsset, Loader> = AssetManager::new(PathBuf::from("assets"));
    manager.register_loader("png".to_string(), Loader::Failing(FailingLoader));
    assert_eq!(manager.load_asset("a.png"), Err(EngineError::SerializationError));
    // A later registration replaces the loader.
    manager.register_loader("png".to_string(), Loader::Mock(MockLoader));
    assert!(manager.load_asset("a.png").is_ok());
}

#[test]
fn test_keep_loaded_keeps_asset_under_its_id() {
    let mut manager: AssetManager<MockAsset, Loader> = AssetManager::new(PathBuf::from("assets"));
    let r = manager.keep_loaded(Ok(MockAsset { id: AssetId::new("tex/brick.png") }));
    assert_eq!(r, Ok(AssetId::new("tex/brick.png")));
    assert!(manager.has_asset(&AssetId::new("tex/brick.png")));
    let e = manager.keep_loaded(Err(EngineError::InvalidComponent));
    assert_eq!(e, Err(EngineError::InvalidComponent));
    assert!(manager.has_asset(&AssetId::new("tex/brick.png")));
}

#[test]
fn test_engine_error_messages() {
    assert_eq!(EngineError::AssetNotFound.message(), "Asset not found");
    assert_eq!(EngineError::InvalidComponent.message(), "Invalid component");
    assert_eq!(EngineError::SerializationError.message(), "Serialization error");
}

#[test]
fn test_mesh_component_creation() {
    let mesh = MeshComponent::new("cube".to_string(), "default".to_string());
    assert_eq!(mesh.mesh_name, "cube");
    assert_eq!(mesh.material_name, "default");
}

#[test]
fn test_mesh_component_defaults() {
    let mesh = MeshComponent::with_mesh("sphere".to_string());
    assert_eq!(mesh.mesh_name, "sphere");
    assert_eq!(mesh.material_name, "default");
    let d = MeshComponent::default();
    assert_eq!(d.mesh_name, "cube");
    assert_eq!(d.material_name, "default");
}

#[test]
fn test_name_component() {
    let name = Name::new("Player".to_string());
    assert_eq!(name.name, "Player");
    assert_eq!(Name::default().name, "Entity");
}

#[test]
fn test_component_display() {
    let mesh = MeshComponent::new("cube".to_string(), "metal".to_string());
    assert_eq!(mesh.component_type_name(), "MeshComponent");
    assert_eq!(
        mesh.display_data(),
        vec![
            ("Mesh".to_string(), "cube".to_string()),
            ("Material".to_string(), "metal".to_string())
        ]
    );
    let name = Name::new("Player".to_string());
    assert_eq!(name.component_type_name(), "Name");
    assert_eq!(name.display_data(), vec![("Name".to_string(), "Player".to_string())]);
}

const POSITION: ComponentKind = 1;
const VELOCITY: ComponentKind = 2;

#[derive(Debug, Clone, PartialEq)]
enum TestComponent {
    Position(f32, f32, f32),
    Velocity(f32, f32, f32),
}

#[test]
fn test_entity_creation() {
    let mut world: World<TestComponent> = World::new();
    let entity = world.create_entity();
    assert!(world.entity_exists(&entity));
}

#[test]
fn test_entity_ids_are_version_4() {
    let e = Entity::new();
    assert_eq!((e.0 >> 76) & 0xf, 4);
    assert_eq!((e.0 >> 62) & 0x3, 2);
}

#[test]
fn test_entity_destruction() {
    let mut world: World<TestComponent> = World::new();
    let entity = world.create_entity();
    world.destroy_entity(entity);
    assert!(!world.entity_exists(&entity));
}

#[test]
fn test_component_attach_and_get() {
    let mut world: World<TestComponent> = World::new();
    let entity = world.create_entity();

    world.attach_component(entity, POSITION, TestComponent::Position(1.0, 2.0, 3.0));
    let pos = world.get_component(&entity, POSITION);

    assert!(pos.is_some());
    match pos.unwrap() {
        TestComponent::Position(x, _, _) => assert_eq!(*x, 1.0),
        _ => panic!("expected a position"),
    }
}

#[test]
fn test_has_component() {
    let mut world: World<TestComponent> = World::new();
    let entity = world.create_entity();

    assert!(!world.has_component(&entity, POSITION));
    world.attach_component(entity, POSITION, TestComponent::Position(0.0, 0.0, 0.0));
    assert!(world.has_component(&entity, POSITION));
}

#[test]
fn test_multiple_components() {
    let mut world: World<TestComponent> = World::new();
    let entity = world.create_entity();

    world.attach_component(entity, POSITION, TestComponent::Position(1.0, 2.0, 3.0));
    world.attach_component(entity, VELOCITY, TestComponent::Velocity(0.1, 0.2, 0.3));

    assert!(world.has_component(&entity, POSITION));
    assert!(world.has_component(&entity, VELOCITY));
}

#[test]
fn test_get_entities() {
    let mut world: World<TestComponent> = World::new();
    let e1 = world.create_entity();
    let e2 = world.create_entity();
    let e3 = world.create_entity();

    let entities = world.get_entities();
    assert_eq!(entities.len(), 3);
    assert!(entities.contains(&e1));
    assert!(entities.contains(&e2));
    assert!(entities.contains(&e3));
}

#[test]
fn test_attach_replaces_and_remove_returns() {
    let mut world: World<TestComponent> = World::new();
    let e = world.create_entity();
    world.attach_component(e, POSITION, TestComponent::Position(1.0, 1.0, 1.0));
    world.attach_component(e, POSITION, TestComponent::Position(2.0, 2.0, 2.0));
    assert_eq!(world.get_component(&e, POSITION), Some(&TestComponent::Position(2.0, 2.0, 2.0)));
    let removed = world.remove_component(&e, POSITION);
    assert_eq!(removed, Some(TestComponent::Position(2.0, 2.0, 2.0)));
    assert!(!world.has_component(&e, POSITION));
    assert_eq!(world.remove_component(&e, POSITION), None);
}

#[test]
fn test_get_component_mut_changes_in_place() {
    let mut world: World<TestComponent> = World::new();
    let e = world.create_entity();
    assert!(world.get_component_mut(&e, POSITION).is_none());
    world.attach_component(e, POSITION, TestComponent::Position(0.0, 0.0, 0.0));
    if let Some(c) = world.get_component_mut(&e, POSITION) {
        *c = TestComponent::Position(5.0, 0.0, 0.0);
    }
    assert_eq!(world.get_component(&e, POSITION), Some(&TestComponent::Position(5.0, 0.0, 0.0)));
}

#[test]
fn test_destroy_removes_only_that_entitys_components() {
    let mut world: World<TestComponent> = World::new();
    let a = world.create_entity();
    let b = world.create_entity();
    world.attach_component(a, POSITION, TestComponent::Position(1.0, 0.0, 0.0));
    world.attach_component(a, VELOCITY, TestComponent::Velocity(1.0, 0.0, 0.0));
    world.attach_component(b, POSITION, TestComponent::Position(2.0, 0.0, 0.0));
    world.destroy_entity(a);
    assert!(!world.has_component(&a, POSITION));
    assert!(!world.has_component(&a, VELOCITY));
    assert!(world.get_entity_component_types(&a).is_empty());
    assert!(world.has_component(&b, POSITION));
    assert_eq!(world.get_entities(), vec![b]);
}

#[test]
fn test_entity_component_types() {
    let mut world: World<TestComponent> = World::new();
    let a = world.create_entity();
    let b = world.create_entity();
    world.attach_component(a, POSITION, TestComponent::Position(1.0, 0.0, 0.0));
    world.attach_component(a, VELOCITY, TestComponent::Velocity(1.0, 0.0, 0.0));
    world.attach_component(b, VELOCITY, TestComponent::Velocity(1.0, 0.0, 0.0));
    let mut kinds = world.get_entity_component_types(&a);
    kinds.sort();
    assert_eq!(kinds, vec![POSITION, VELOCITY]);
    assert_eq!(world.get_entity_component_types(&b), vec![VELOCITY]);
}

#[test]
fn test_insert_entity_with_given_id() {
    let mut world: World<u32> = World::new();
    let e = Entity(0x1234);
    assert!(!world.entity_exists(&e));
    world.insert_entity(e);
    assert!(world.entity_exists(&e));
    assert_eq!(world.get_entities(), vec![e]);
}

#[test]
fn test_fresh_entity_id_keeps_unused_draw() {
    let world: World<u32> = World::new();
    let drawn = Entity::new().0;
    assert_eq!(world.fresh_entity_id(drawn), drawn);
}

#[test]
fn test_fresh_entity_id_avoids_taken_ids() {
    let mut world: World<u32> = World::new();
    let drawn: u128 = 0x1234_5678_9abc_4def_8123_4567_89ab_cdef;
    world.insert_entity(Entity(drawn));
    assert_eq!(world.fresh_entity_id(drawn), 0x4000_8000_0000_0000_0000);
    world.insert_entity(Entity(0x4000_8000_0000_0000_0000));
    assert_eq!(world.fresh_entity_id(drawn), 0x4000_8000_0000_0000_0001);
}

#[test]
fn test_created_entities_are_distinct() {
    let mut world: World<u32> = World::new();
    let a = world.create_entity();
    let b = world.create_entity();
    assert_ne!(a, b);
    assert_eq!(world.get_entities().len(), 2);
    assert!(world.get_entity_component_types(&a).is_empty());
}
