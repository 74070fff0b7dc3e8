use vstd::prelude::*;

verus! {

/// The extension loader's success rule. `results` holds one entry per
/// extension symbol the graphics binding declares: whether the library's
/// address lookup resolved it to a function pointer. Loading succeeds exactly
/// when every required symbol resolved; a single missing symbol fails the
/// load, before any rendering call could reach a null pointer.
pub fn all_resolved(results: &Vec<bool>) -> (r: bool)
    ensures
        r <==> (forall|i: int| 0 <= i < results@.len() ==> results@[i]),
{
    let mut i: usize = 0;
    while i < results.len()
        invariant
            i <= results@.len(),
            forall|j: int| 0 <= j < i ==> results@[j],
        decreases results@.len() - i,
    {
        if !results[i] {
            return false;
        }
        i = i + 1;
    }
    true
}

} // verus!
