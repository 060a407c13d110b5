//! Project launcher state: what the launcher shows, and the graphics backend
//! the user picked.
use std::path::PathBuf;
use vstd::prelude::*;

verus! {

/// Graphics backend offered in the launcher.
#[derive(Debug, Clone, Copy, PartialEq, Eq, Structural)]
pub enum GraphicsBackend {
    Vulkan,
    OpenGL,
    Auto,
}

impl GraphicsBackend {
    /// The label shown for this backend.
    pub open spec fn spec_label(self) -> Seq<char> {
        match self {
            GraphicsBackend::Vulkan => "Vulkan (recommended)"@,
            GraphicsBackend::OpenGL => "OpenGL (compatible)"@,
            GraphicsBackend::Auto => "Auto (system default)"@,
        }
    }

    /// The label shown for this backend.
    pub fn label(&self) -> (r: &str)
        ensures
            r@ == self.spec_label(),
    {
        match self {
            GraphicsBackend::Vulkan => "Vulkan (recommended)",
            GraphicsBackend::OpenGL => "OpenGL (compatible)",
            GraphicsBackend::Auto => "Auto (system default)",
        }
    }
}

/// Messages the launcher handles.
#[derive(Debug, Clone)]
pub enum Message {
    NewProject,
    OpenProject,
    RunDemo,
    ProjectSelected(PathBuf),
    DemoSelected(DemoType),
    BackendSelected(GraphicsBackend),
    Back,
}

/// The demo scenes the launcher offers.
#[derive(Debug, Clone, Copy, PartialEq, Eq, Structural)]
pub enum DemoType {
    RotatingCube,
    EditorDemo,
}

impl DemoType {
    /// The demo's name.
    pub fn name(&self) -> (r: &str)
        ensures
            r@ == (match self {
                DemoType::RotatingCube => "Rotating Cube"@,
                DemoType::EditorDemo => "Editor Demo"@,
            }),
    {
        match self {
            DemoType::RotatingCube => "Rotating Cube",
            DemoType::EditorDemo => "Editor Demo",
        }
    }

    /// What the demo shows.
    pub fn description(&self) -> (r: &str)
        ensures
            r@ == (match self {
                DemoType::RotatingCube => "A simple rotating cube with lighting"@,
                DemoType::EditorDemo => "Editor with sample entities"@,
            }),
    {
        match self {
            DemoType::RotatingCube => "A simple rotating cube with lighting",
            DemoType::EditorDemo => "Editor with sample entities",
        }
    }
}

/// The screen the launcher shows.
#[derive(Debug, Clone, Copy, PartialEq, Eq, Structural)]
pub enum LauncherState {
    MainMenu,
    SelectingDemo,
    SelectingFolder,
}

/// The launcher's screen after a message; a project or demo choice is
/// carried out by the editor, and leaves the screen as it is.
pub open spec fn next_state(state: LauncherState, message: Message) -> LauncherState {
    match message {
        Message::NewProject => LauncherState::SelectingFolder,
        Message::OpenProject => LauncherState::SelectingFolder,
        Message::RunDemo => LauncherState::SelectingDemo,
        Message::Back => LauncherState::MainMenu,
        _ => state,
    }
}

/// The backend picked after a message.
pub open spec fn next_backend(backend: GraphicsBackend, message: Message) -> GraphicsBackend {
    match message {
        Message::BackendSelected(b) => b,
        _ => backend,
    }
}

/// The project launcher.
pub struct Launcher {
    state: LauncherState,
    selected_backend: GraphicsBackend,
}

impl Default for Launcher {
    fn default() -> (l: Self)
        ensures
            l.spec_state() == LauncherState::MainMenu,
            l.spec_backend() == GraphicsBackend::Auto,
    {
        Launcher { state: LauncherState::MainMenu, selected_backend: GraphicsBackend::Auto }
    }
}

impl Launcher {
    /// The screen shown.
    pub closed spec fn spec_state(&self) -> LauncherState {
        self.state
    }

    /// The backend picked.
    pub closed spec fn spec_backend(&self) -> GraphicsBackend {
        self.selected_backend
    }

    /// A launcher on its main menu, with the backend chosen automatically.
    pub fn new() -> (l: Self)
        ensures
            l.spec_state() == LauncherState::MainMenu,
            l.spec_backend() == GraphicsBackend::Auto,
    {
        Self::default()
    }

    /// Handle a message.
    pub fn update(&mut self, message: Message)
        ensures
            final(self).spec_state() == next_state(old(self).spec_state(), message),
            final(self).spec_backend() == next_backend(old(self).spec_backend(), message),
    {
        match message {
            Message::NewProject => {
                self.state = LauncherState::SelectingFolder;
            },
            Message::OpenProject => {
                self.state = LauncherState::SelectingFolder;
            },
            Message::RunDemo => {
                self.state = LauncherState::SelectingDemo;
            },
            Message::Back => {
                self.state = LauncherState::MainMenu;
            },
            Message::ProjectSelected(_) => {},
            Message::DemoSelected(_) => {},
            Message::BackendSelected(backend) => {
                self.selected_backend = backend;
            },
        }
    }

    /// The screen shown.
    pub fn state(&self) -> (s: LauncherState)
        ensures
            s == self.spec_state(),
    {
        self.state
    }

    /// The backend picked.
    pub fn selected_backend(&self) -> (b: GraphicsBackend)
        ensures
            b == self.spec_backend(),
    {
        self.selected_backend
    }

    /// Pick a backend.
    pub fn set_selected_backend(&mut self, backend: GraphicsBackend)
        ensures
            final(self).spec_backend() == backend,
            final(self).spec_state() == old(self).spec_state(),
    {
        self.selected_backend = backend;
    }
}

/// The backend picked after a launcher with backend `start` handles
/// `messages`, in order.
pub open spec fn backend_after_all(start: GraphicsBackend, messages: Seq<Message>) -> GraphicsBackend
    decreases messages.len(),
{
    if messages.len() == 0 {
        start
    } else {
        next_backend(backend_after_all(start, messages.drop_last()), messages.last())
    }
}

/// The backend of the last `BackendSelected` among `messages`, if any.
pub open spec fn last_selected(messages: Seq<Message>) -> Option<GraphicsBackend>
    decreases messages.len(),
{
    if messages.len() == 0 {
        None
    } else {
        match messages.last() {
            Message::BackendSelected(b) => Some(b),
            _ => last_selected(messages.drop_last()),
        }
    }
}

/// The backend a launcher shows is the one last selected; with none
/// selected, the one it started with (for `Launcher::new`, `Auto`).
pub proof fn law_backend_is_last_selected(start: GraphicsBackend, messages: Seq<Message>)
    ensures
        backend_after_all(start, messages) == (match last_selected(messages) {
            Some(b) => b,
            None => start,
        }),
    decreases messages.len(),
{
    if messages.len() > 0 {
        law_backend_is_last_selected(start, messages.drop_last());
    }
}

} // verus!
