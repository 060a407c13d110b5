//! Graphics backend choice: which backend to run on given what the system
//! offers, the status the viewport reports, and the saved preference.
use crate::launcher::GraphicsBackend;
use crate::text::{contains_text, occurs_at, occurs_in};
use vstd::prelude::*;

verus! {

/// Backend preference for graphics rendering.
#[derive(Debug, Clone, Copy, PartialEq, Eq, Structural)]
pub enum BackendPreference {
    Vulkan,
    OpenGL,
    Auto,
}

/// Information about available graphics backends on the system.
#[derive(Debug, Clone, Copy, PartialEq, Eq, Structural)]
pub struct BackendAvailability {
    pub vulkan_available: bool,
    pub opengl_available: bool,
}

/// The recommended backend: Vulkan when available, else OpenGL when
/// available, else automatic choice.
pub open spec fn spec_recommended_backend(availability: BackendAvailability) -> BackendPreference {
    if availability.vulkan_available {
        BackendPreference::Vulkan
    } else if availability.opengl_available {
        BackendPreference::OpenGL
    } else {
        BackendPreference::Auto
    }
}

/// Get the recommended backend based on availability.
pub fn get_recommended_backend(availability: &BackendAvailability) -> (r: BackendPreference)
    ensures
        r == spec_recommended_backend(*availability),
{
    if availability.vulkan_available {
        BackendPreference::Vulkan
    } else if availability.opengl_available {
        BackendPreference::OpenGL
    } else {
        BackendPreference::Auto
    }
}

/// The rendering preference for a backend picked in the launcher.
pub open spec fn spec_convert_backend(backend: GraphicsBackend) -> BackendPreference {
    match backend {
        GraphicsBackend::Vulkan => BackendPreference::Vulkan,
        GraphicsBackend::OpenGL => BackendPreference::OpenGL,
        GraphicsBackend::Auto => BackendPreference::Auto,
    }
}

/// The launcher's backend for a rendering preference.
pub open spec fn spec_convert_backend_inverse(backend: BackendPreference) -> GraphicsBackend {
    match backend {
        BackendPreference::Vulkan => GraphicsBackend::Vulkan,
        BackendPreference::OpenGL => GraphicsBackend::OpenGL,
        BackendPreference::Auto => GraphicsBackend::Auto,
    }
}

/// The rendering preference for a backend picked in the launcher.
pub fn convert_backend(backend: GraphicsBackend) -> (r: BackendPreference)
    ensures
        r == spec_convert_backend(backend),
{
    match backend {
        GraphicsBackend::Vulkan => BackendPreference::Vulkan,
        GraphicsBackend::OpenGL => BackendPreference::OpenGL,
        GraphicsBackend::Auto => BackendPreference::Auto,
    }
}

/// The launcher's backend for a rendering preference.
pub fn convert_backend_inverse(backend: BackendPreference) -> (r: GraphicsBackend)
    ensures
        r == spec_convert_backend_inverse(backend),
{
    match backend {
        BackendPreference::Vulkan => GraphicsBackend::Vulkan,
        BackendPreference::OpenGL => GraphicsBackend::OpenGL,
        BackendPreference::Auto => GraphicsBackend::Auto,
    }
}

/// The two conversions between launcher backends and rendering preferences
/// undo each other.
pub proof fn law_convert_backend_round_trip(backend: GraphicsBackend, preference: BackendPreference)
    ensures
        spec_convert_backend_inverse(spec_convert_backend(backend)) == backend,
        spec_convert_backend(spec_convert_backend_inverse(preference)) == preference,
{
}

/// The name a preference is written with (its `Debug` form).
pub open spec fn spec_preference_name(backend: BackendPreference) -> Seq<char> {
    match backend {
        BackendPreference::Vulkan => "Vulkan"@,
        BackendPreference::OpenGL => "OpenGL"@,
        BackendPreference::Auto => "Auto"@,
    }
}

/// The name a preference is written with (its `Debug` form).
pub fn preference_name(backend: BackendPreference) -> (r: &'static str)
    ensures
        r@ == spec_preference_name(backend),
{
    match backend {
        BackendPreference::Vulkan => "Vulkan",
        BackendPreference::OpenGL => "OpenGL",
        BackendPreference::Auto => "Auto",
    }
}

/// "available" or "unavailable".
pub open spec fn availability_word(available: bool) -> Seq<char> {
    if available {
        "available"@
    } else {
        "unavailable"@
    }
}

/// "Vulkan: <available|unavailable>, OpenGL: <available|unavailable>".
pub open spec fn spec_backend_summary(availability: BackendAvailability) -> Seq<char> {
    "Vulkan: "@ + availability_word(availability.vulkan_available) + ", OpenGL: "@
        + availability_word(availability.opengl_available)
}

/// The summary of which backends the system offers.
pub fn backend_summary(availability: &BackendAvailability) -> (r: String)
    ensures
        r@ == spec_backend_summary(*availability),
{
    let mut r = "Vulkan: ".to_string();
    if availability.vulkan_available {
        r.append("available");
    } else {
        r.append("unavailable");
    }
    r.append(", OpenGL: ");
    if availability.opengl_available {
        r.append("available");
    } else {
        r.append("unavailable");
    }
    r
}

/// The word a preference is saved as.
pub open spec fn spec_config_word(backend: BackendPreference) -> Seq<char> {
    match backend {
        BackendPreference::Vulkan => "vulkan"@,
        BackendPreference::OpenGL => "opengl"@,
        BackendPreference::Auto => "auto"@,
    }
}

/// The saved preference file: `{"backend": "<word>"}`.
pub open spec fn spec_backend_config(backend: BackendPreference) -> Seq<char> {
    "{\"backend\": \""@ + spec_config_word(backend) + "\"}"@
}

/// The preference read from a saved file: Vulkan when it holds
/// `"backend":"vulkan` or `"backend": "vulkan`, else OpenGL when it holds
/// the same with `opengl`, else automatic choice.
pub open spec fn spec_parse_backend_config(content: Seq<char>) -> BackendPreference {
    if occurs_in(content, "\"backend\":\"vulkan"@) || occurs_in(content, "\"backend\": \"vulkan"@) {
        BackendPreference::Vulkan
    } else if occurs_in(content, "\"backend\":\"opengl"@) || occurs_in(content, "\"backend\": \"opengl"@) {
        BackendPreference::OpenGL
    } else {
        BackendPreference::Auto
    }
}

/// The text a preference is saved as.
pub fn backend_config(backend: BackendPreference) -> (r: String)
    ensures
        r@ == spec_backend_config(backend),
{
    let word = match backend {
        BackendPreference::Vulkan => "vulkan",
        BackendPreference::OpenGL => "opengl",
        BackendPreference::Auto => "auto",
    };
    let mut r = "{\"backend\": \"".to_string();
    r.append(word);
    r.append("\"}");
    r
}

/// The preference a saved file holds.
pub fn parse_backend_config(content: &str) -> (r: BackendPreference)
    ensures
        r == spec_parse_backend_config(content@),
        occurs_in(content@, "\"backend\":\"vulkan"@) || occurs_in(content@, "\"backend\": \"vulkan"@)
            ==> r == BackendPreference::Vulkan,
        !occurs_in(content@, "\"backend\":\"vulkan"@) && !occurs_in(content@, "\"backend\": \"vulkan"@)
            && (occurs_in(content@, "\"backend\":\"opengl"@) || occurs_in(content@, "\"backend\": \"opengl"@))
            ==> r == BackendPreference::OpenGL,
        !occurs_in(content@, "\"backend\":\"vulkan"@) && !occurs_in(content@, "\"backend\": \"vulkan"@)
            && !occurs_in(content@, "\"backend\":\"opengl"@) && !occurs_in(content@, "\"backend\": \"opengl"@)
            ==> r == BackendPreference::Auto,
{
    if contains_text(content, "\"backend\":\"vulkan") || contains_text(content, "\"backend\": \"vulkan") {
        BackendPreference::Vulkan
    } else if contains_text(content, "\"backend\":\"opengl") || contains_text(content, "\"backend\": \"opengl") {
        BackendPreference::OpenGL
    } else {
        BackendPreference::Auto
    }
}

/// `needle` does not occur at `i` when one of its characters differs from
/// the character of `haystack` it would stand on.
proof fn lemma_differs_at(haystack: Seq<char>, needle: Seq<char>, i: int, k: int)
    requires
        0 <= k < needle.len(),
        0 <= i && i + needle.len() <= haystack.len() ==> haystack[i + k] != needle[k],
    ensures
        !occurs_at(haystack, needle, i),
{
    if occurs_at(haystack, needle, i) {
        assert(haystack.subrange(i, i + needle.len())[k] == needle[k]);
    }
}

/// A saved preference is read back as the same preference.
pub proof fn law_backend_config_round_trip(backend: BackendPreference)
    ensures
        spec_parse_backend_config(spec_backend_config(backend)) == backend,
{
    reveal_strlit("{\"backend\": \"");
    reveal_strlit("\"}");
    reveal_strlit("vulkan");
    reveal_strlit("opengl");
    reveal_strlit("auto");
    reveal_strlit("\"backend\":\"vulkan");
    reveal_strlit("\"backend\": \"vulkan");
    reveal_strlit("\"backend\":\"opengl");
    reveal_strlit("\"backend\": \"opengl");
    let content = spec_backend_config(backend);
    let tight_vulkan = "\"backend\":\"vulkan"@;
    let spaced_vulkan = "\"backend\": \"vulkan"@;
    let tight_opengl = "\"backend\":\"opengl"@;
    let spaced_opengl = "\"backend\": \"opengl"@;
    match backend {
        BackendPreference::Vulkan => {
            assert(content.subrange(1, 19) =~= spaced_vulkan);
            assert(occurs_at(content, spaced_vulkan, 1));
        },
        BackendPreference::OpenGL => {
            assert forall|i: int| !occurs_at(content, tight_vulkan, i) by {
                if i == 1 {
                    lemma_differs_at(content, tight_vulkan, i, 10);
                } else {
                    lemma_differs_at(content, tight_vulkan, i, 0);
                }
            }
            assert forall|i: int| !occurs_at(content, spaced_vulkan, i) by {
                if i == 1 {
                    lemma_differs_at(content, spaced_vulkan, i, 12);
                } else {
                    lemma_differs_at(content, spaced_vulkan, i, 0);
                }
            }
            assert(content.subrange(1, 19) =~= spaced_opengl);
            assert(occurs_at(content, spaced_opengl, 1));
        },
        BackendPreference::Auto => {
            assert forall|i: int| !occurs_at(content, tight_vulkan, i) by {
                if i == 1 {
                    lemma_differs_at(content, tight_vulkan, i, 10);
                } else {
                    lemma_differs_at(content, tight_vulkan, i, 0);
                }
            }
            assert forall|i: int| !occurs_at(content, spaced_vulkan, i) by {
                if i == 1 {
                    lemma_differs_at(content, spaced_vulkan, i, 12);
                } else {
                    lemma_differs_at(content, spaced_vulkan, i, 0);
                }
            }
            assert forall|i: int| !occurs_at(content, tight_opengl, i) by {
                if i == 1 {
                    lemma_differs_at(content, tight_opengl, i, 10);
                } else {
                    lemma_differs_at(content, tight_opengl, i, 0);
                }
            }
            assert forall|i: int| !occurs_at(content, spaced_opengl, i) by {
                if i == 1 {
                    lemma_differs_at(content, spaced_opengl, i, 12);
                } else {
                    lemma_differs_at(content, spaced_opengl, i, 0);
                }
            }
        },
    }
}

/// A text occurs in any text that holds it between two others.
pub proof fn lemma_occurs_in_middle(before: Seq<char>, needle: Seq<char>, after: Seq<char>)
    ensures
        occurs_in(before + needle + after, needle),
{
    let text = before + needle + after;
    assert(text.subrange(before.len() as int, (before.len() + needle.len()) as int) =~= needle);
    assert(occurs_at(text, needle, before.len() as int));
}

/// A file that holds an OpenGL entry, in the compact (`"backend":"opengl`)
/// or the spaced (`"backend": "opengl`) form, and no Vulkan entry, is read
/// as OpenGL, whatever stands around the entry.
pub proof fn law_opengl_entry_is_read(before: Seq<char>, after: Seq<char>, spaced: bool)
    requires
        ({
            let entry = if spaced { "\"backend\": \"opengl"@ } else { "\"backend\":\"opengl"@ };
            let text = before + entry + after;
            !occurs_in(text, "\"backend\":\"vulkan"@) && !occurs_in(text, "\"backend\": \"vulkan"@)
        }),
    ensures
        ({
            let entry = if spaced { "\"backend\": \"opengl"@ } else { "\"backend\":\"opengl"@ };
            spec_parse_backend_config(before + entry + after) == BackendPreference::OpenGL
        }),
{
    let entry = if spaced { "\"backend\": \"opengl"@ } else { "\"backend\":\"opengl"@ };
    lemma_occurs_in_middle(before, entry, after);
}

/// A file that holds a Vulkan entry, in either form, is read as Vulkan,
/// whatever else it holds.
pub proof fn law_vulkan_entry_is_read(before: Seq<char>, after: Seq<char>, spaced: bool)
    ensures
        ({
            let entry = if spaced { "\"backend\": \"vulkan"@ } else { "\"backend\":\"vulkan"@ };
            spec_parse_backend_config(before + entry + after) == BackendPreference::Vulkan
        }),
{
    let entry = if spaced { "\"backend\": \"vulkan"@ } else { "\"backend\":\"vulkan"@ };
    lemma_occurs_in_middle(before, entry, after);
}

} // verus!
