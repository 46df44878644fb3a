//! Handing the transactions a Sui authority schedules for the Scalar
//! consensus on to the node.
use vstd::prelude::*;

verus! {

/// The batch of scheduled transactions to pass on: none for an empty batch.
pub fn batch_to_forward<T>(batch: Vec<T>) -> (r: Option<Vec<T>>)
    ensures
        batch@.len() > 0 ==> r == Some(batch),
        batch@.len() == 0 ==> r is None,
{
    if batch.len() > 0 {
        Some(batch)
    } else {
        None
    }
}

} // verus!
