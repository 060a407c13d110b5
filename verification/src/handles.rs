//! Handles derived from mesh and material names.
use std::collections::hash_map::DefaultHasher;
use std::hash::Hasher;
use vstd::prelude::*;

verus! {

/// The handle a name stands for: the low 32 bits of the name's standard
/// hash (`DefaultHasher` fed the name's bytes and then the byte `0xff`, as
/// `str::hash` feeds it).
pub open spec fn spec_string_to_handle(name: Seq<char>) -> u32 {
    (<DefaultHasher as vstd::std_specs::hash::DefaultHasherAdditionalSpecFns>::spec_finish(
        seq![vstd::utf8::encode_utf8(name), seq![0xffu8]],
    )) as u32
}

/// Convert a name to a handle via hashing: the handle is a function of the
/// name alone, so the same name always stands for the same handle.
pub fn string_to_handle(name: &str) -> (h: u32)
    ensures
        h == spec_string_to_handle(name@),
{
    let mut hasher = DefaultHasher::new();
    hasher.write(name.as_bytes());
    let terminator: [u8; 1] = [0xffu8];
    assert(terminator@ =~= seq![0xffu8]);
    hasher.write(terminator.as_slice());
    proof {
        assert(hasher@ =~= seq![vstd::utf8::encode_utf8(name@), seq![0xffu8]]);
    }
    #[verifier::truncate] (hasher.finish() as u32)
}

} // verus!
