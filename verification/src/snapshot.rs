//! Restoring a node's state from a formal snapshot: the check of the
//! snapshot against the root state commitment of its epoch.
use vstd::prelude::*;

use crate::primary::digest_eq;

verus! {

/// Restores the state of an epoch from a formal snapshot.
#[derive(Debug)]
pub struct SnapshotRestorer {
    /// The epoch restored.
    pub epoch: u64,
}

/// The verdict on a downloaded snapshot.
#[derive(Debug, PartialEq, Eq, Structural)]
pub enum SnapshotVerdict {
    /// The snapshot matches the commitment; its state may be set up.
    Verified,
    /// The epoch's last checkpoint commits to no state: formal snapshots
    /// cannot be checked for it, and the restore stops.
    Unsupported,
    /// The snapshot's accumulator differs from the commitment: the download
    /// is aborted and the restore stops.
    Mismatch,
}

/// The verdict on a snapshot whose accumulator digest is `accumulator`,
/// given the epoch's checkpoint commitments.
pub open spec fn snapshot_verdict(accumulator: [u8; 32], commitments: Seq<[u8; 32]>) -> SnapshotVerdict {
    if commitments.len() == 0 {
        SnapshotVerdict::Unsupported
    } else if accumulator != commitments[0] {
        SnapshotVerdict::Mismatch
    } else {
        SnapshotVerdict::Verified
    }
}

impl SnapshotRestorer {
    /// A restorer of `epoch`.
    pub fn new(epoch: u64) -> (r: Self)
        ensures
            r.epoch == epoch,
    {
        SnapshotRestorer { epoch }
    }

    /// Checks the snapshot's accumulator digest against the first
    /// commitment of the epoch's last checkpoint, the root state digest.
    pub fn verify(&self, accumulator: &[u8; 32], commitments: &Vec<[u8; 32]>) -> (r: SnapshotVerdict)
        ensures
            r == snapshot_verdict(*accumulator, commitments@),
    {
        if commitments.len() == 0 {
            SnapshotVerdict::Unsupported
        } else if !digest_eq(accumulator, &commitments[0]) {
            SnapshotVerdict::Mismatch
        } else {
            SnapshotVerdict::Verified
        }
    }
}

} // verus!
