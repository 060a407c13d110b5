//! The editor's command line: `--demo=<name>` asks for a demo to be run
//! instead of the editor.
use crate::text::chars_of;
use vstd::prelude::*;

verus! {

/// A demo asked for on the command line.
#[derive(Debug, Clone)]
pub enum DemoRequest {
    /// `--demo=spinning_cube`.
    SpinningCube,
    /// `--demo=<name>` for a name no demo has.
    Unknown(String),
}

/// `text` starts with `prefix`.
pub open spec fn has_prefix(text: Seq<char>, prefix: Seq<char>) -> bool {
    prefix.len() <= text.len() && text.subrange(0, prefix.len() as int) == prefix
}

/// The demo an argument asks for, if it is a `--demo=` argument.
pub open spec fn spec_demo_of(arg: Seq<char>) -> Option<Seq<char>> {
    if has_prefix(arg, "--demo="@) {
        Some(arg.subrange(7, arg.len() as int))
    } else {
        None
    }
}

/// `req` is the request for the demo named `name`.
pub open spec fn request_names(req: DemoRequest, name: Seq<char>) -> bool {
    match req {
        DemoRequest::SpinningCube => name == "spinning_cube"@,
        DemoRequest::Unknown(n) => n@ == name && name != "spinning_cube"@,
    }
}

/// Does `text` start with `prefix`?
fn starts_with(text: &str, prefix: &str) -> (r: bool)
    ensures
        r == has_prefix(text@, prefix@),
{
    let t = chars_of(text);
    let p = chars_of(prefix);
    if p.len() > t.len() {
        return false;
    }
    let mut i: usize = 0;
    while i < p.len()
        invariant
            t@ == text@,
            p@ == prefix@,
            p@.len() <= t@.len(),
            i <= p@.len(),
            forall|j: int| 0 <= j < i ==> t@[j] == p@[j],
        decreases p@.len() - i,
    {
        if t[i] != p[i] {
            proof {
                assert(text@.subrange(0, prefix@.len() as int)[i as int] != prefix@[i as int]);
            }
            return false;
        }
        i = i + 1;
    }
    assert(text@.subrange(0, prefix@.len() as int) =~= prefix@);
    true
}

/// The demo the command line asks for: the first argument after the
/// program name that starts with `--demo=` decides.
pub fn find_demo_request(args: &Vec<String>) -> (r: Option<DemoRequest>)
    ensures
        match r {
            None => forall|i: int| 1 <= i < args@.len() ==> spec_demo_of(#[trigger] args@[i]@) is None,
            Some(req) => exists|i: int| 1 <= i < args@.len()
                && (forall|j: int| 1 <= j < i ==> spec_demo_of(#[trigger] args@[j]@) is None)
                && spec_demo_of(args@[i]@) is Some
                && request_names(req, spec_demo_of(args@[i]@)->0),
        },
{
    let mut i: usize = 1;
    while i < args.len()
        invariant
            1 <= i,
            forall|j: int| 1 <= j < i ==> spec_demo_of(#[trigger] args@[j]@) is None,
        decreases args@.len() - i,
    {
        let arg = args[i].as_str();
        if starts_with(arg, "--demo=") {
            proof {
                reveal_strlit("--demo=");
            }
            let len = arg.unicode_len();
            let name = arg.substring_char(7, len).to_string();
            let spinning = "spinning_cube".to_string();
            let req = if name == spinning {
                DemoRequest::SpinningCube
            } else {
                DemoRequest::Unknown(name)
            };
            proof {
                assert(spec_demo_of(args@[i as int]@) is Some);
            }
            return Some(req);
        }
        i = i + 1;
    }
    None
}

} // verus!
