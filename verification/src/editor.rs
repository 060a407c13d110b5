//! The editor's decisions: which screen it shows, which backend it renders
//! with, and what it asks of the viewport when the user acts.
use crate::asset::path_from;
use crate::asset_browser::{self, AssetBrowser};
use crate::backend::{
    convert_backend, convert_backend_inverse, spec_convert_backend, spec_convert_backend_inverse,
    BackendPreference,
};
use crate::launcher::{self, next_backend, next_state, DemoType, Launcher};
use crate::properties::PropertyPanel;
use crate::scene_tree::{self, SceneTree};
use crate::viewport;
use vstd::prelude::*;

verus! {

/// The screen the editor shows.
#[derive(Debug, Clone, Copy, PartialEq, Eq, Structural)]
pub enum EditorMode {
    Launcher,
    Editor,
}

/// Messages the editor handles, by the panel they come from.
#[derive(Debug, Clone)]
pub enum EditorMessage {
    Launcher(launcher::Message),
    SceneTree(scene_tree::Message),
    Viewport(viewport::Message),
    AssetBrowser(asset_browser::Message),
}

/// What the editor asks of the parts it does not hold itself, in order:
/// rebuild the viewport with a backend, load a demo scene into it, pass a
/// message to it, save the backend preference.
#[derive(Debug, Clone, Copy)]
pub struct EditorEffects {
    pub rebuild_viewport: Option<BackendPreference>,
    pub load_demo: Option<DemoType>,
    pub viewport_message: Option<viewport::Message>,
    pub save_backend: Option<BackendPreference>,
}

/// The editor's state: mode, launcher, chosen backend and panels.
pub struct EditorState {
    pub mode: EditorMode,
    pub launcher: Launcher,
    pub selected_backend: BackendPreference,
    pub scene_tree: SceneTree,
    pub properties: PropertyPanel,
    pub asset_browser: AssetBrowser,
}

/// The effects of a launcher message: the viewport is rebuilt with the newly
/// chosen backend whenever the choice is made or confirmed; a chosen demo is
/// loaded; a backend picked in the launcher is saved.
pub open spec fn spec_launcher_effects(message: launcher::Message, backend: BackendPreference) -> EditorEffects {
    match message {
        launcher::Message::RunDemo => EditorEffects {
            rebuild_viewport: None,
            load_demo: None,
            viewport_message: None,
            save_backend: None,
        },
        launcher::Message::Back => EditorEffects {
            rebuild_viewport: None,
            load_demo: None,
            viewport_message: None,
            save_backend: None,
        },
        launcher::Message::DemoSelected(demo) => EditorEffects {
            rebuild_viewport: Some(backend),
            load_demo: Some(demo),
            viewport_message: None,
            save_backend: None,
        },
        launcher::Message::BackendSelected(_) => EditorEffects {
            rebuild_viewport: Some(backend),
            load_demo: None,
            viewport_message: None,
            save_backend: Some(backend),
        },
        _ => EditorEffects {
            rebuild_viewport: Some(backend),
            load_demo: None,
            viewport_message: None,
            save_backend: None,
        },
    }
}

/// The editor's screen after a launcher message: a project or demo choice
/// opens the editor.
pub open spec fn spec_mode_after(message: launcher::Message, mode: EditorMode) -> EditorMode {
    match message {
        launcher::Message::DemoSelected(_) => EditorMode::Editor,
        launcher::Message::NewProject => EditorMode::Editor,
        launcher::Message::OpenProject => EditorMode::Editor,
        launcher::Message::ProjectSelected(_) => EditorMode::Editor,
        _ => mode,
    }
}

/// The backend the editor renders with after a launcher message.
pub open spec fn spec_backend_after(message: launcher::Message, launcher_backend: launcher::GraphicsBackend, backend: BackendPreference) -> BackendPreference {
    match message {
        launcher::Message::RunDemo => backend,
        launcher::Message::Back => backend,
        _ => spec_convert_backend(next_backend(launcher_backend, message)),
    }
}

impl EditorState {
    /// The backend the editor renders with is the one the launcher shows.
    pub open spec fn backends_agree(&self) -> bool {
        self.selected_backend == spec_convert_backend(self.launcher.spec_backend())
    }

    /// The editor as it starts: the launcher is shown, with the saved
    /// backend preference picked.
    pub fn new(saved_backend: BackendPreference) -> (e: Self)
        ensures
            e.mode == EditorMode::Launcher,
            e.selected_backend == saved_backend,
            e.launcher.spec_backend() == spec_convert_backend_inverse(saved_backend),
            e.launcher.spec_state() == launcher::LauncherState::MainMenu,
            e.scene_tree.spec_entries().len() == 0,
            e.scene_tree.spec_selected() is None,
            e.properties.spec_selected() is None,
            e.asset_browser.assets().len() == 0,
            e.asset_browser.selected() is None,
            e.backends_agree(),
    {
        let mut launcher = Launcher::new();
        launcher.set_selected_backend(convert_backend_inverse(saved_backend));
        EditorState {
            mode: EditorMode::Launcher,
            launcher,
            selected_backend: saved_backend,
            scene_tree: SceneTree::new(),
            properties: PropertyPanel::new(),
            asset_browser: AssetBrowser::new(path_from("assets")),
        }
    }

    /// The window title.
    pub fn title(&self) -> (r: &'static str)
        ensures
            r@ == (match self.mode {
                EditorMode::Launcher => "G&N Engine - Project Launcher"@,
                EditorMode::Editor => "G&N Engine Editor"@,
            }),
    {
        match self.mode {
            EditorMode::Launcher => "G&N Engine - Project Launcher",
            EditorMode::Editor => "G&N Engine Editor",
        }
    }

    /// Handle a message from the launcher.
    pub fn handle_launcher(&mut self, message: launcher::Message) -> (fx: EditorEffects)
        ensures
            final(self).launcher.spec_state() == next_state(old(self).launcher.spec_state(), message),
            final(self).launcher.spec_backend() == next_backend(old(self).launcher.spec_backend(), message),
            final(self).selected_backend == spec_backend_after(message, old(self).launcher.spec_backend(), old(self).selected_backend),
            final(self).mode == spec_mode_after(message, old(self).mode),
            fx == spec_launcher_effects(message, final(self).selected_backend),
            final(self).scene_tree == old(self).scene_tree,
            final(self).properties == old(self).properties,
            final(self).asset_browser == old(self).asset_browser,
            match message {
                launcher::Message::DemoSelected(d) => fx.load_demo == Some(d),
                _ => fx.load_demo is None,
            },
    {
        match message {
            launcher::Message::RunDemo => {
                self.launcher.update(launcher::Message::RunDemo);
                EditorEffects { rebuild_viewport: None, load_demo: None, viewport_message: None, save_backend: None }
            },
            launcher::Message::Back => {
                self.launcher.update(launcher::Message::Back);
                EditorEffects { rebuild_viewport: None, load_demo: None, viewport_message: None, save_backend: None }
            },
            launcher::Message::DemoSelected(demo) => {
                self.launcher.update(launcher::Message::DemoSelected(demo));
                self.selected_backend = convert_backend(self.launcher.selected_backend());
                self.mode = EditorMode::Editor;
                EditorEffects {
                    rebuild_viewport: Some(self.selected_backend),
                    load_demo: Some(demo),
                    viewport_message: None,
                    save_backend: None,
                }
            },
            launcher::Message::NewProject => {
                self.launcher.update(launcher::Message::NewProject);
                self.selected_backend = convert_backend(self.launcher.selected_backend());
                self.mode = EditorMode::Editor;
                EditorEffects { rebuild_viewport: Some(self.selected_backend), load_demo: None, viewport_message: None, save_backend: None }
            },
            launcher::Message::OpenProject => {
                self.launcher.update(launcher::Message::OpenProject);
                self.selected_backend = convert_backend(self.launcher.selected_backend());
                self.mode = EditorMode::Editor;
                EditorEffects { rebuild_viewport: Some(self.selected_backend), load_demo: None, viewport_message: None, save_backend: None }
            },
            launcher::Message::ProjectSelected(path) => {
                self.launcher.update(launcher::Message::ProjectSelected(path));
                self.selected_backend = convert_backend(self.launcher.selected_backend());
                self.mode = EditorMode::Editor;
                EditorEffects { rebuild_viewport: Some(self.selected_backend), load_demo: None, viewport_message: None, save_backend: None }
            },
            launcher::Message::BackendSelected(backend) => {
                self.launcher.update(launcher::Message::BackendSelected(backend));
                self.selected_backend = convert_backend(backend);
                EditorEffects {
                    rebuild_viewport: Some(self.selected_backend),
                    load_demo: None,
                    viewport_message: None,
                    save_backend: Some(self.selected_backend),
                }
            },
        }
    }

    /// Handle a message: launcher messages as `handle_launcher` does; a
    /// scene-tree selection is shown in the property panel; viewport
    /// messages are passed on; asset-browser messages go to the browser.
    pub fn update(&mut self, message: EditorMessage) -> (fx: EditorEffects)
        ensures
            match message {
                EditorMessage::Launcher(m) => {
                    &&& final(self).launcher.spec_state() == next_state(old(self).launcher.spec_state(), m)
                    &&& final(self).launcher.spec_backend() == next_backend(old(self).launcher.spec_backend(), m)
                    &&& final(self).selected_backend == spec_backend_after(m, old(self).launcher.spec_backend(), old(self).selected_backend)
                    &&& final(self).mode == spec_mode_after(m, old(self).mode)
                    &&& fx == spec_launcher_effects(m, final(self).selected_backend)
                    &&& (match m {
                        launcher::Message::DemoSelected(d) => fx.load_demo == Some(d),
                        _ => fx.load_demo is None,
                    })
                    &&& final(self).scene_tree == old(self).scene_tree
                    &&& final(self).properties == old(self).properties
                    &&& final(self).asset_browser == old(self).asset_browser
                },
                EditorMessage::SceneTree(scene_tree::Message::EntitySelected(e)) => {
                    &&& final(self).scene_tree.spec_selected() == Some(e)
                    &&& final(self).scene_tree.spec_entries() == old(self).scene_tree.spec_entries()
                    &&& final(self).properties.spec_selected() == Some(e)
                    &&& final(self).unchanged_but_panels(*old(self))
                    &&& final(self).asset_browser == old(self).asset_browser
                    &&& fx == no_effects()
                },
                EditorMessage::Viewport(m) => {
                    &&& *final(self) == *old(self)
                    &&& fx == (EditorEffects { viewport_message: Some(m), ..no_effects() })
                },
                EditorMessage::AssetBrowser(m) => {
                    &&& final(self).asset_browser.assets() == old(self).asset_browser.assets()
                    &&& final(self).asset_browser.path() == old(self).asset_browser.path()
                    &&& match m {
                        asset_browser::Message::AssetSelected(name) => final(self).asset_browser.selected() == Some(name@),
                        asset_browser::Message::RefreshAssets => final(self).asset_browser.selected() == old(self).asset_browser.selected(),
                    }
                    &&& final(self).unchanged_but_panels(*old(self))
                    &&& final(self).scene_tree == old(self).scene_tree
                    &&& final(self).properties == old(self).properties
                    &&& fx == no_effects()
                },
            },
    {
        match message {
            EditorMessage::Launcher(m) => self.handle_launcher(m),
            EditorMessage::SceneTree(m) => {
                let scene_tree::Message::EntitySelected(entity) = m;
                self.scene_tree.update(scene_tree::Message::EntitySelected(entity));
                self.properties.set_selected_entity(Some(entity));
                EditorEffects { rebuild_viewport: None, load_demo: None, viewport_message: None, save_backend: None }
            },
            EditorMessage::Viewport(m) => {
                EditorEffects { rebuild_viewport: None, load_demo: None, viewport_message: Some(m), save_backend: None }
            },
            EditorMessage::AssetBrowser(m) => {
                self.asset_browser.update(m);
                EditorEffects { rebuild_viewport: None, load_demo: None, viewport_message: None, save_backend: None }
            },
        }
    }

    /// Mode, launcher and chosen backend are as in `other`.
    pub open spec fn unchanged_but_panels(&self, other: EditorState) -> bool {
        &&& self.mode == other.mode
        &&& self.launcher == other.launcher
        &&& self.selected_backend == other.selected_backend
    }
}

/// No effects at all.
pub open spec fn no_effects() -> EditorEffects {
    EditorEffects { rebuild_viewport: None, load_demo: None, viewport_message: None, save_backend: None }
}

/// Whatever the editor is told, the backend it renders with stays the one
/// the launcher shows, and a rebuilt viewport uses that backend.
pub proof fn law_backend_choice_consistent(before: EditorState, after: EditorState, message: launcher::Message)
    requires
        before.backends_agree(),
        after.launcher.spec_backend() == next_backend(before.launcher.spec_backend(), message),
        after.selected_backend == spec_backend_after(message, before.launcher.spec_backend(), before.selected_backend),
    ensures
        after.backends_agree(),
        spec_launcher_effects(message, after.selected_backend).rebuild_viewport matches Some(b) ==> b == after.selected_backend,
        spec_launcher_effects(message, after.selected_backend).save_backend matches Some(b) ==> b == after.selected_backend,
{
}

/// A launcher message asks for a demo to be loaded exactly when it selects
/// one, and then for that demo.
pub proof fn law_selected_demo_is_loaded(message: launcher::Message, backend: BackendPreference)
    ensures
        match message {
            launcher::Message::DemoSelected(d) => spec_launcher_effects(message, backend).load_demo == Some(d),
            _ => spec_launcher_effects(message, backend).load_demo is None,
        },
{
}

} // verus!
