//! The pause switch shared by the compliance contracts: while a contract is
//! paused its mutating operations are refused; reads are never affected.
use vstd::prelude::*;

verus! {

/// Refuses with `err` while `paused` is set, and lets the caller go on
/// otherwise.
pub fn require_not_paused<E>(paused: bool, err: E) -> (r: Result<(), E>)
    ensures
        r == (if paused { Err(err) } else { Ok::<(), E>(()) }),
{
    if paused {
        Err(err)
    } else {
        Ok(())
    }
}

} // verus!
