use vstd::prelude::*;

use crate::identity::LeaderId;

verus! {

/// What a store holds under the election key, as a candidate reads it.
#[derive(Clone, Copy, Debug, PartialEq, Eq, Structural)]
pub enum LeaderValue {
    /// The key holds something that is not a candidate's identity.
    Unknown,
    /// The key names a candidate.
    Found { id: LeaderId },
}

/// Why a store refused or failed a read or a write of the election key.
#[derive(Debug)]
pub enum BackendError {
    /// The key is not there (for Postgres: or its heartbeat is older than the TTL).
    KeyMissing,
    /// Another candidate holds the key.
    HeldByOther,
    /// The write went through, but the store answered a row that is not the one written.
    Conflict {
        expected_value: String,
        expected_revision: u64,
        found_value: String,
        found_revision: i64,
    },
    /// The store refused the write: the revision did not match and the holder is alive.
    Rejected,
    /// A compare-and-set write failed for another reason than a revision mismatch.
    UpdateFailed { detail: String },
    /// Creating the key failed for another reason than its being there.
    CreateFailed { detail: String },
    /// Creating the bucket failed, and the bucket is still not there.
    BucketUnavailable { detail: String },
    /// The store could not be reached, or answered with an error.
    Store { detail: String },
}

} // verus!
