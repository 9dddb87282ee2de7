//! Searches over what the stack reports: the visible peer list, searched
//! for the one target hardware address, and the resolved characteristic
//! list, searched for the one target identifier.
//!
//! A hardware address is carried as its 48 bits packed into a `u64`; a
//! characteristic identifier as its 128 bits in a `u128`.

use vstd::prelude::*;

verus! {

/// Finds the first position of the target address in the visible peer
/// list: the search succeeds exactly when the target appears, and returns
/// its earliest position.
pub fn find_peer_index(addrs: &Vec<u64>, target: u64) -> (r: Option<usize>)
    ensures
        (r matches Some(i) ==> 0 <= i < addrs@.len() && addrs@[i as int] == target && (
        forall|j: int| 0 <= j < i ==> addrs@[j] != target)),
        (r is None ==> (forall|j: int| 0 <= j < addrs@.len() ==> addrs@[j] != target)),
{
    let mut i: usize = 0;
    while i < addrs.len()
        invariant
            i <= addrs@.len(),
            forall|j: int| 0 <= j < i ==> addrs@[j] != target,
        decreases addrs@.len() - i,
    {
        if addrs[i] == target {
            return Some(i);
        }
        i += 1;
    }
    None
}

/// Finds the first position of the target identifier in the resolved
/// characteristic list: the search succeeds exactly when the target
/// appears, and returns its earliest position.
pub fn find_characteristic_index(uuids: &Vec<u128>, target: u128) -> (r: Option<usize>)
    ensures
        (r matches Some(i) ==> 0 <= i < uuids@.len() && uuids@[i as int] == target && (
        forall|j: int| 0 <= j < i ==> uuids@[j] != target)),
        (r is None ==> (forall|j: int| 0 <= j < uuids@.len() ==> uuids@[j] != target)),
{
    let mut i: usize = 0;
    while i < uuids.len()
        invariant
            i <= uuids@.len(),
            forall|j: int| 0 <= j < i ==> uuids@[j] != target,
        decreases uuids@.len() - i,
    {
        if uuids[i] == target {
            return Some(i);
        }
        i += 1;
    }
    None
}

} // verus!
