//! Viewport state outside rendering: the graphics runtime the viewport runs
//! on and the status it reports.
use crate::backend::{
    backend_summary, get_recommended_backend, preference_name, spec_backend_summary,
    spec_preference_name, spec_recommended_backend, BackendAvailability, BackendPreference,
};
use vstd::prelude::*;

verus! {

/// Messages the viewport handles.
#[derive(Debug, Clone, Copy)]
pub enum Message {
    CameraMove,
}

/// Status of the viewport's graphics runtime.
#[derive(Debug, Clone)]
pub enum RuntimeStatus {
    Ready { details: String },
    Error { details: String },
}

impl RuntimeStatus {
    /// The text that describes the status.
    pub open spec fn spec_details(self) -> Seq<char> {
        match self {
            RuntimeStatus::Ready { details } => details@,
            RuntimeStatus::Error { details } => details@,
        }
    }

    /// The text that describes the status.
    pub fn details(&self) -> (r: &str)
        ensures
            r@ == self.spec_details(),
    {
        match self {
            RuntimeStatus::Ready { details } => details.as_str(),
            RuntimeStatus::Error { details } => details.as_str(),
        }
    }
}

/// The backend the viewport runs on and the status it reports.
#[derive(Debug, Clone)]
pub struct ViewportRuntime {
    pub active_backend: BackendPreference,
    pub status: RuntimeStatus,
}

/// The runtime is ready exactly when the requested backend is available, or,
/// for Vulkan (which falls back to OpenGL) and for automatic choice, when any
/// backend is.
pub open spec fn spec_runtime_ready(requested: BackendPreference, availability: BackendAvailability) -> bool {
    match requested {
        BackendPreference::Vulkan => availability.vulkan_available || availability.opengl_available,
        BackendPreference::OpenGL => availability.opengl_available,
        BackendPreference::Auto => availability.vulkan_available || availability.opengl_available,
    }
}

/// The backend the runtime runs on: the one requested, except that Vulkan
/// falls back to OpenGL when only OpenGL is available; for automatic choice
/// the recommended one.
pub open spec fn spec_active_backend(requested: BackendPreference, availability: BackendAvailability) -> BackendPreference {
    match requested {
        BackendPreference::Auto => spec_recommended_backend(availability),
        BackendPreference::Vulkan => if !availability.vulkan_available && availability.opengl_available {
            BackendPreference::OpenGL
        } else {
            BackendPreference::Vulkan
        },
        _ => requested,
    }
}

/// The text the runtime's status carries.
pub open spec fn spec_runtime_details(requested: BackendPreference, availability: BackendAvailability) -> Seq<char> {
    let summary = spec_backend_summary(availability);
    match requested {
        BackendPreference::Vulkan => if availability.vulkan_available {
            "Vulkan backend initialized ("@ + summary + ")"@
        } else if availability.opengl_available {
            "Vulkan backend unavailable, fell back to OpenGL ("@ + summary + ")"@
        } else {
            "Vulkan backend requested but unavailable on this system ("@ + summary + ")"@
        },
        BackendPreference::OpenGL => if availability.opengl_available {
            "OpenGL backend initialized ("@ + summary + ")"@
        } else {
            "OpenGL backend requested but unavailable on this system ("@ + summary + ")"@
        },
        BackendPreference::Auto => if !availability.vulkan_available && !availability.opengl_available {
            "No compatible graphics backend detected (Vulkan/OpenGL unavailable)"@
        } else {
            "Auto-selected "@ + spec_preference_name(spec_recommended_backend(availability)) + " backend ("@
                + summary + ")"@
        },
    }
}

impl ViewportRuntime {
    /// Decide the runtime for a requested backend, given which backends the
    /// system offers.
    pub fn initialize(requested_backend: BackendPreference, availability: &BackendAvailability) -> (r: Self)
        ensures
            r.active_backend == spec_active_backend(requested_backend, *availability),
            (r.status is Ready) == spec_runtime_ready(requested_backend, *availability),
            r.status.spec_details() == spec_runtime_details(requested_backend, *availability),
            requested_backend != BackendPreference::Auto && backend_available(requested_backend, *availability)
                ==> r.active_backend == requested_backend && r.status is Ready,
            requested_backend == BackendPreference::OpenGL ==> r.active_backend == BackendPreference::OpenGL,
            r.status is Ready ==> backend_available(r.active_backend, *availability)
                && r.active_backend != BackendPreference::Auto,
            (r.status is Ready) == (if requested_backend == BackendPreference::OpenGL {
                availability.opengl_available
            } else {
                availability.vulkan_available || availability.opengl_available
            }),
    {
        let summary = backend_summary(availability);
        match requested_backend {
            BackendPreference::Vulkan => {
                if availability.vulkan_available {
                    let mut details = "Vulkan backend initialized (".to_string();
                    details.append(summary.as_str());
                    details.append(")");
                    ViewportRuntime { active_backend: BackendPreference::Vulkan, status: RuntimeStatus::Ready { details } }
                } else if availability.opengl_available {
                    let mut details = "Vulkan backend unavailable, fell back to OpenGL (".to_string();
                    details.append(summary.as_str());
                    details.append(")");
                    ViewportRuntime { active_backend: BackendPreference::OpenGL, status: RuntimeStatus::Ready { details } }
                } else {
                    let mut details = "Vulkan backend requested but unavailable on this system (".to_string();
                    details.append(summary.as_str());
                    details.append(")");
                    ViewportRuntime { active_backend: BackendPreference::Vulkan, status: RuntimeStatus::Error { details } }
                }
            },
            BackendPreference::OpenGL => {
                if availability.opengl_available {
                    let mut details = "OpenGL backend initialized (".to_string();
                    details.append(summary.as_str());
                    details.append(")");
                    ViewportRuntime { active_backend: BackendPreference::OpenGL, status: RuntimeStatus::Ready { details } }
                } else {
                    let mut details = "OpenGL backend requested but unavailable on this system (".to_string();
                    details.append(summary.as_str());
                    details.append(")");
                    ViewportRuntime { active_backend: BackendPreference::OpenGL, status: RuntimeStatus::Error { details } }
                }
            },
            BackendPreference::Auto => {
                if !availability.vulkan_available && !availability.opengl_available {
                    let details = "No compatible graphics backend detected (Vulkan/OpenGL unavailable)".to_string();
                    ViewportRuntime { active_backend: BackendPreference::Auto, status: RuntimeStatus::Error { details } }
                } else {
                    let active_backend = get_recommended_backend(availability);
                    let mut details = "Auto-selected ".to_string();
                    details.append(preference_name(active_backend));
                    details.append(" backend (");
                    details.append(summary.as_str());
                    details.append(")");
                    ViewportRuntime { active_backend, status: RuntimeStatus::Ready { details } }
                }
            },
        }
    }

    /// Is the runtime ready to render?
    pub fn is_ready(&self) -> (r: bool)
        ensures
            r == (self.status is Ready),
    {
        match self.status {
            RuntimeStatus::Ready { .. } => true,
            RuntimeStatus::Error { .. } => false,
        }
    }
}

/// When Vulkan is requested but only OpenGL is available, the runtime falls
/// back to OpenGL and is ready.
pub proof fn law_vulkan_falls_back_to_opengl(availability: BackendAvailability)
    requires
        !availability.vulkan_available,
        availability.opengl_available,
    ensures
        spec_active_backend(BackendPreference::Vulkan, availability) == BackendPreference::OpenGL,
        spec_runtime_ready(BackendPreference::Vulkan, availability),
{
}

/// Whether the system offers a backend (never, for automatic choice, which
/// is no backend of its own).
pub open spec fn backend_available(backend: BackendPreference, availability: BackendAvailability) -> bool {
    match backend {
        BackendPreference::Vulkan => availability.vulkan_available,
        BackendPreference::OpenGL => availability.opengl_available,
        BackendPreference::Auto => false,
    }
}

/// A backend that is requested and available is the one the runtime runs
/// on, and the runtime is ready.
pub proof fn law_available_request_is_honoured(requested: BackendPreference, availability: BackendAvailability)
    requires
        backend_available(requested, availability),
    ensures
        spec_active_backend(requested, availability) == requested,
        spec_runtime_ready(requested, availability),
{
}

/// A ready runtime runs on a backend the system offers; a runtime asked for
/// OpenGL runs on OpenGL; automatic choice prefers Vulkan, then OpenGL.
pub proof fn law_ready_runtime_runs_on_available_backend(requested: BackendPreference, availability: BackendAvailability)
    ensures
        spec_runtime_ready(requested, availability) ==> backend_available(
            spec_active_backend(requested, availability),
            availability,
        ),
        requested == BackendPreference::OpenGL ==> spec_active_backend(requested, availability)
            == BackendPreference::OpenGL,
        requested == BackendPreference::Auto && availability.vulkan_available ==> spec_active_backend(
            requested,
            availability,
        ) == BackendPreference::Vulkan,
        requested == BackendPreference::Auto && !availability.vulkan_available && availability.opengl_available
            ==> spec_active_backend(requested, availability) == BackendPreference::OpenGL,
{
}

} // verus!
