use gn_engine::asset_browser::{self, AssetBrowser, AssetType};
use gn_engine::backend::{
    backend_config, backend_summary, convert_backend, convert_backend_inverse, get_recommended_backend,
    parse_backend_config, BackendAvailability, BackendPreference,
};
use gn_engine::cli::{find_demo_request, DemoRequest};
use gn_engine::ecs::Entity;
use gn_engine::editor::{EditorMessage, EditorMode, EditorState};
use gn_engine::launcher::{self, DemoType, GraphicsBackend, Launcher, LauncherState};
use gn_engine::properties::PropertyPanel;
use gn_engine::scene_tree::{self, SceneTree};
use gn_engine::text::contains_text;
use gn_engine::viewport::{self, RuntimeStatus, ViewportRuntime};
use std::path::PathBuf;

fn both() -> BackendAvailability {
    BackendAvailability { vulkan_available: true, opengl_available: true }
}

fn none() -> BackendAvailability {
    BackendAvailability { vulkan_available: false, opengl_available: false }
}

fn gl_only() -> BackendAvailability {
    BackendAvailability { vulkan_available: false, opengl_available: true }
}

#[test]
fn test_runtime_status_has_details() {
    let runtime = ViewportRuntime::initialize(BackendPreference::Auto, &both());
    assert!(!runtime.status.details().is_empty());
}

#[test]
fn test_runtime_vulkan_requested() {
    let ok = ViewportRuntime::initialize(BackendPreference::Vulkan, &both());
    assert!(ok.is_ready());
    assert_eq!(ok.active_backend, BackendPreference::Vulkan);
    assert_eq!(
        ok.status.details(),
        "Vulkan backend initialized (Vulkan: available, OpenGL: available)"
    );
    let fallback = ViewportRuntime::initialize(BackendPreference::Vulkan, &gl_only());
    assert!(fallback.is_ready());
    assert_eq!(fallback.active_backend, BackendPreference::OpenGL);
    assert_eq!(
        fallback.status.details(),
        "Vulkan backend unavailable, fell back to OpenGL (Vulkan: unavailable, OpenGL: available)"
    );
    let err = ViewportRuntime::initialize(BackendPreference::Vulkan, &none());
    assert!(!err.is_ready());
    assert_eq!(err.active_backend, BackendPreference::Vulkan);
    assert_eq!(
        err.status.details(),
        "Vulkan backend requested but unavailable on this system (Vulkan: unavailable, OpenGL: unavailable)"
    );
}

#[test]
fn test_runtime_opengl_requested() {
    let ok = ViewportRuntime::initialize(BackendPreference::OpenGL, &gl_only());
    assert!(ok.is_ready());
    assert_eq!(ok.status.details(), "OpenGL backend initialized (Vulkan: unavailable, OpenGL: available)");
    let err = ViewportRuntime::initialize(BackendPreference::OpenGL, &none());
    assert!(matches!(err.status, RuntimeStatus::Error { .. }));
    assert_eq!(
        err.status.details(),
        "OpenGL backend requested but unavailable on this system (Vulkan: unavailable, OpenGL: unavailable)"
    );
}

#[test]
fn test_runtime_auto() {
    let picked = ViewportRuntime::initialize(BackendPreference::Auto, &gl_only());
    assert!(picked.is_ready());
    assert_eq!(picked.active_backend, BackendPreference::OpenGL);
    assert_eq!(
        picked.status.details(),
        "Auto-selected OpenGL backend (Vulkan: unavailable, OpenGL: available)"
    );
    let vk = ViewportRuntime::initialize(BackendPreference::Auto, &both());
    assert_eq!(vk.active_backend, BackendPreference::Vulkan);
    let nothing = ViewportRuntime::initialize(BackendPreference::Auto, &none());
    assert!(!nothing.is_ready());
    assert_eq!(nothing.active_backend, BackendPreference::Auto);
    assert_eq!(
        nothing.status.details(),
        "No compatible graphics backend detected (Vulkan/OpenGL unavailable)"
    );
}

#[test]
fn test_recommended_backend() {
    assert_eq!(get_recommended_backend(&both()), BackendPreference::Vulkan);
    assert_eq!(get_recommended_backend(&gl_only()), BackendPreference::OpenGL);
    assert_eq!(get_recommended_backend(&none()), BackendPreference::Auto);
    assert_eq!(backend_summary(&none()), "Vulkan: unavailable, OpenGL: unavailable");
}

#[test]
fn test_backend_conversions_round_trip() {
    for b in [GraphicsBackend::Vulkan, GraphicsBackend::OpenGL, GraphicsBackend::Auto] {
        assert_eq!(convert_backend_inverse(convert_backend(b)), b);
    }
    for p in [BackendPreference::Vulkan, BackendPreference::OpenGL, BackendPreference::Auto] {
        assert_eq!(convert_backend(convert_backend_inverse(p)), p);
    }
}

#[test]
fn test_backend_config_round_trip() {
    assert_eq!(backend_config(BackendPreference::Vulkan), r#"{"backend": "vulkan"}"#);
    assert_eq!(backend_config(BackendPreference::Auto), r#"{"backend": "auto"}"#);
    for p in [BackendPreference::Vulkan, BackendPreference::OpenGL, BackendPreference::Auto] {
        assert_eq!(parse_backend_config(&backend_config(p)), p);
    }
}

#[test]
fn test_parse_backend_config_forms() {
    assert_eq!(parse_backend_config(r#"{"backend":"vulkan"}"#), BackendPreference::Vulkan);
    assert_eq!(parse_backend_config(r#"{"backend": "opengl"}"#), BackendPreference::OpenGL);
    assert_eq!(parse_backend_config(r#"{"backend":  "vulkan"}"#), BackendPreference::Auto);
    assert_eq!(parse_backend_config(""), BackendPreference::Auto);
    assert_eq!(parse_backend_config("garbage"), BackendPreference::Auto);
}

#[test]
fn test_contains_text() {
    assert!(contains_text("hello world", "o w"));
    assert!(contains_text("abc", ""));
    assert!(!contains_text("abc", "abcd"));
    assert!(!contains_text("abc", "ac"));
}

#[test]
fn test_graphics_backend_labels() {
    assert_eq!(GraphicsBackend::Vulkan.label(), "Vulkan (recommended)");
    assert_eq!(GraphicsBackend::OpenGL.label(), "OpenGL (compatible)");
    assert_eq!(GraphicsBackend::Auto.label(), "Auto (system default)");
    assert_eq!(DemoType::RotatingCube.name(), "Rotating Cube");
    assert_eq!(DemoType::EditorDemo.description(), "Editor with sample entities");
}

#[test]
fn test_launcher_transitions() {
    let mut l = Launcher::new();
    assert_eq!(l.state(), LauncherState::MainMenu);
    assert_eq!(l.selected_backend(), GraphicsBackend::Auto);
    l.update(launcher::Message::RunDemo);
    assert_eq!(l.state(), LauncherState::SelectingDemo);
    l.update(launcher::Message::DemoSelected(DemoType::RotatingCube));
    assert_eq!(l.state(), LauncherState::SelectingDemo);
    l.update(launcher::Message::Back);
    assert_eq!(l.state(), LauncherState::MainMenu);
    l.update(launcher::Message::NewProject);
    assert_eq!(l.state(), LauncherState::SelectingFolder);
    l.update(launcher::Message::ProjectSelected(PathBuf::from("project")));
    assert_eq!(l.state(), LauncherState::SelectingFolder);
    l.update(launcher::Message::BackendSelected(GraphicsBackend::OpenGL));
    assert_eq!(l.selected_backend(), GraphicsBackend::OpenGL);
    l.set_selected_backend(GraphicsBackend::Vulkan);
    assert_eq!(l.selected_backend(), GraphicsBackend::Vulkan);
}

#[test]
fn test_asset_browser_selection() {
    let mut b = AssetBrowser::new(PathBuf::from("assets"));
    assert_eq!(b.asset_count(), 0);
    assert!(b.selected_asset().is_none());
    b.add_asset("cube".to_string(), PathBuf::from("assets/cube.gltf"), AssetType::Mesh);
    b.add_asset("wood".to_string(), PathBuf::from("assets/wood.png"), AssetType::Texture);
    b.add_asset("cube".to_string(), PathBuf::from("assets/cube2.gltf"), AssetType::Mesh);
    assert_eq!(b.asset_count(), 3);
    b.update(asset_browser::Message::AssetSelected("cube".to_string()));
    let selected = b.selected_asset().unwrap();
    assert_eq!(selected.path, PathBuf::from("assets/cube.gltf"));
    b.update(asset_browser::Message::RefreshAssets);
    assert_eq!(b.asset_count(), 3);
    assert_eq!(b.selected_asset().unwrap().name, "cube");
    b.update(asset_browser::Message::AssetSelected("missing".to_string()));
    assert!(b.selected_asset().is_none());
    assert_eq!(AssetType::Mesh.icon(), "📦");
    assert_eq!(AssetType::Other.icon(), "📄");
    assert_eq!(AssetBrowser::default().asset_count(), 0);
}

#[test]
fn test_scene_tree_add_remove() {
    let mut t = SceneTree::new();
    let a = Entity(1);
    let b = Entity(2);
    t.add_entity(a, "A".to_string());
    t.add_entity(b, "B".to_string());
    t.add_entity(a, "A again".to_string());
    assert_eq!(t.entity_count(), 3);
    t.update(scene_tree::Message::EntitySelected(a));
    assert_eq!(t.selected_entity(), Some(a));
    t.remove_entity(a);
    assert_eq!(t.entity_count(), 1);
    assert_eq!(t.entries()[0], (b, "B".to_string()));
    assert_eq!(t.selected_entity(), None);
    t.update(scene_tree::Message::EntitySelected(b));
    t.remove_entity(a);
    assert_eq!(t.selected_entity(), Some(b));
    t.clear_entities();
    assert_eq!(t.entity_count(), 0);
    assert_eq!(t.selected_entity(), None);
}

#[test]
fn test_property_panel_selection() {
    let mut p = PropertyPanel::new();
    assert_eq!(p.get_selected_entity(), None);
    p.set_selected_entity(Some(Entity(7)));
    assert_eq!(p.get_selected_entity(), Some(Entity(7)));
    p.set_selected_entity(None);
    assert_eq!(p.get_selected_entity(), None);
}

#[test]
fn test_editor_starts_in_launcher_with_saved_backend() {
    let e = EditorState::new(BackendPreference::OpenGL);
    assert_eq!(e.mode, EditorMode::Launcher);
    assert_eq!(e.title(), "G&N Engine - Project Launcher");
    assert_eq!(e.launcher.selected_backend(), GraphicsBackend::OpenGL);
    assert_eq!(e.selected_backend, BackendPreference::OpenGL);
}

#[test]
fn test_editor_demo_selection_opens_editor() {
    let mut e = EditorState::new(BackendPreference::Auto);
    let fx = e.update(EditorMessage::Launcher(launcher::Message::RunDemo));
    assert!(fx.rebuild_viewport.is_none());
    assert_eq!(e.mode, EditorMode::Launcher);
    let fx = e.update(EditorMessage::Launcher(launcher::Message::BackendSelected(GraphicsBackend::Vulkan)));
    assert_eq!(fx.rebuild_viewport, Some(BackendPreference::Vulkan));
    assert_eq!(fx.save_backend, Some(BackendPreference::Vulkan));
    assert_eq!(e.mode, EditorMode::Launcher);
    let fx = e.update(EditorMessage::Launcher(launcher::Message::DemoSelected(DemoType::EditorDemo)));
    assert_eq!(fx.rebuild_viewport, Some(BackendPreference::Vulkan));
    assert_eq!(fx.load_demo, Some(DemoType::EditorDemo));
    assert!(fx.save_backend.is_none());
    assert_eq!(e.mode, EditorMode::Editor);
    assert_eq!(e.title(), "G&N Engine Editor");
}

#[test]
fn test_editor_scene_selection_reaches_properties() {
    let mut e = EditorState::new(BackendPreference::Auto);
    let fx = e.update(EditorMessage::SceneTree(scene_tree::Message::EntitySelected(Entity(9))));
    assert!(fx.rebuild_viewport.is_none() && fx.load_demo.is_none() && fx.save_backend.is_none());
    assert_eq!(e.scene_tree.selected_entity(), Some(Entity(9)));
    assert_eq!(e.properties.get_selected_entity(), Some(Entity(9)));
    let fx = e.update(EditorMessage::Viewport(viewport::Message::CameraMove));
    assert!(fx.viewport_message.is_some());
    e.update(EditorMessage::AssetBrowser(asset_browser::Message::AssetSelected("x".to_string())));
    assert!(e.asset_browser.selected_asset().is_none());
}

#[test]
fn test_find_demo_request() {
    let args = vec!["editor".to_string(), "--demo=spinning_cube".to_string()];
    assert!(matches!(find_demo_request(&args), Some(DemoRequest::SpinningCube)));
    let args = vec!["editor".to_string(), "-v".to_string(), "--demo=teapot".to_string()];
    match find_demo_request(&args) {
        Some(DemoRequest::Unknown(name)) => assert_eq!(name, "teapot"),
        _ => panic!("expected an unknown demo"),
    }
    let args = vec!["--demo=spinning_cube".to_string()];
    assert!(find_demo_request(&args).is_none());
    let args = vec!["editor".to_string(), "--demo".to_string()];
    assert!(find_demo_request(&args).is_none());
}
