use vstd::prelude::*;

use crate::identity::{uuid_bytes, LeaderId};
use crate::store::{BackendError, LeaderValue};

verus! {

/// The TTL with which the key is created, and the bucket's maximum age, in seconds.
pub const KEY_TTL_SECS: u64 = 60;

/// Reads what the bucket holds under the key. No entry is an error: the key
/// has expired and nobody holds the lock. Sixteen bytes name a candidate;
/// anything else is an unknown holder.
pub fn decode_entry(entry: Option<Vec<u8>>) -> (res: Result<LeaderValue, BackendError>)
    ensures
        entry is None ==> res matches Err(BackendError::KeyMissing),
        entry matches Some(b) ==> {
            &&& b@.len() != 16 ==> res == Ok::<LeaderValue, BackendError>(LeaderValue::Unknown)
            &&& b@.len() == 16 ==> (res matches Ok(LeaderValue::Found { id }) && uuid_bytes(id@)
                == b@)
            &&& forall|id: LeaderId| #[trigger] uuid_bytes(id@) == b@ ==> res == Ok::<
                LeaderValue,
                BackendError,
            >(LeaderValue::Found { id })
        },
{
    match entry {
        None => Err(BackendError::KeyMissing),
        Some(bytes) => match LeaderId::from_bytes(bytes.as_slice()) {
            Some(id) => Ok(LeaderValue::Found { id }),
            None => Ok(LeaderValue::Unknown),
        },
    }
}

/// How the bucket answered a compare-and-set update of the key.
pub enum UpdateReply {
    Updated { revision: u64 },
    WrongLastRevision,
    Failed { detail: String },
}

/// How the bucket answered the creation of the key with a TTL.
pub enum CreateReply {
    Created { revision: u64 },
    AlreadyExists,
    Failed { detail: String },
}

/// What a claim does after its compare-and-set update.
#[derive(Clone, Copy, Debug, PartialEq, Eq, Structural)]
pub enum ClaimStep {
    /// The claim is written.
    Done,
    /// The key is not at the expected revision: create it with a TTL.
    CreateWithTtl,
}

/// The revision of the key that this candidate last wrote, against which its
/// next compare-and-set update is made.
pub struct NatsRevision {
    revision: u64,
}

impl View for NatsRevision {
    type V = u64;

    closed spec fn view(&self) -> u64 {
        self.revision
    }
}

impl NatsRevision {
    /// Nothing written yet: revision 0.
    pub fn new() -> (res: Self)
        ensures
            res@ == 0,
    {
        NatsRevision { revision: 0 }
    }

    /// The revision that the next update expects the key to be at.
    pub fn expected(&self) -> (res: u64)
        ensures
            res == self@,
    {
        self.revision
    }

    /// Takes the answer to the update. A new revision is kept only when the
    /// update went through.
    pub fn after_update(&mut self, reply: UpdateReply) -> (res: Result<ClaimStep, BackendError>)
        ensures
            match reply {
                UpdateReply::Updated { revision } => final(self)@ == revision && res == Ok::<
                    ClaimStep,
                    BackendError,
                >(ClaimStep::Done),
                UpdateReply::WrongLastRevision => final(self)@ == old(self)@ && res == Ok::<
                    ClaimStep,
                    BackendError,
                >(ClaimStep::CreateWithTtl),
                UpdateReply::Failed { detail } => final(self)@ == old(self)@ && (res matches Err(
                    BackendError::UpdateFailed { detail: d },
                ) && d == detail),
            },
    {
        match reply {
            UpdateReply::Updated { revision } => {
                self.revision = revision;
                Ok(ClaimStep::Done)
            },
            UpdateReply::WrongLastRevision => Ok(ClaimStep::CreateWithTtl),
            UpdateReply::Failed { detail } => Err(BackendError::UpdateFailed { detail }),
        }
    }

    /// Takes the answer to the creation of the key. A key that is already
    /// there means that another candidate holds it.
    pub fn after_create(&mut self, reply: CreateReply) -> (res: Result<(), BackendError>)
        ensures
            match reply {
                CreateReply::Created { revision } => final(self)@ == revision && res is Ok,
                CreateReply::AlreadyExists => final(self)@ == old(self)@ && res matches Err(
                    BackendError::HeldByOther,
                ),
                CreateReply::Failed { detail } => final(self)@ == old(self)@ && (res matches Err(
                    BackendError::CreateFailed { detail: d },
                ) && d == detail),
            },
    {
        match reply {
            CreateReply::Created { revision } => {
                self.revision = revision;
                Ok(())
            },
            CreateReply::AlreadyExists => Err(BackendError::HeldByOther),
            CreateReply::Failed { detail } => Err(BackendError::CreateFailed { detail }),
        }
    }
}

/// What the bucket set-up does next.
#[derive(Clone, Copy, Debug, PartialEq, Eq, Structural)]
pub enum BucketStep {
    /// The bucket is there.
    Ready,
    /// Create the bucket.
    Create,
    /// Creating failed, perhaps because another candidate created it first: look again.
    LookAgain,
}

/// After the first look-up of the bucket.
pub fn bucket_after_lookup(found: bool) -> (res: BucketStep)
    ensures
        res == (if found {
            BucketStep::Ready
        } else {
            BucketStep::Create
        }),
{
    if found {
        BucketStep::Ready
    } else {
        BucketStep::Create
    }
}

/// After the attempt to create the bucket.
pub fn bucket_after_create(created: &Result<(), String>) -> (res: BucketStep)
    ensures
        res == (if created is Ok {
            BucketStep::Ready
        } else {
            BucketStep::LookAgain
        }),
{
    match created {
        Ok(()) => BucketStep::Ready,
        Err(_) => BucketStep::LookAgain,
    }
}

/// After the second look-up, which follows a failed creation: the bucket is
/// there, or the creation's failure is the answer.
pub fn bucket_after_second_lookup(found: bool, create_error: String) -> (res: Result<(), BackendError>)
    ensures
        found ==> res is Ok,
        !found ==> (res matches Err(BackendError::BucketUnavailable { detail }) && detail
            == create_error),
{
    if found {
        Ok(())
    } else {
        Err(BackendError::BucketUnavailable { detail: create_error })
    }
}

} // verus!
