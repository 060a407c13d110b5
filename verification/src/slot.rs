//! In-place access to one element of a vector.
use vstd::prelude::*;

verus! {

/// The element at `i`, for change in place (`<[T]>::get_mut`).
pub fn get_slot_mut<T>(v: &mut Vec<T>, i: usize) -> (r: Option<&mut T>)
    ensures
        match r {
            Some(x) => i < old(v)@.len() && *x == old(v)@[i as int]
                && final(v)@ == old(v)@.update(i as int, *final(x)),
            None => i >= old(v)@.len() && final(v)@ == old(v)@,
        },
{
    if i < v.len() {
        let s = v.as_mut_slice();
        let (_head, tail) = s.split_at_mut(i);
        tail.first_mut()
    } else {
        None
    }
}

} // verus!
