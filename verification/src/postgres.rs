use vstd::prelude::*;

use crate::identity::{hyphenated_text, uuid_parse_text, LeaderId};
use crate::store::{BackendError, LeaderValue};

verus! {

/// A row of the leaders table: the holder's text and the row's revision.
pub struct PgRow {
    pub value: String,
    pub revision: i64,
}

/// The parameters of a write of the leaders table: the holder's text, the
/// revision to write and the revision the row is expected to be at.
pub struct PgWrite {
    pub value: String,
    pub revision: i64,
    pub expected_revision: i64,
}

/// The parameters of a release: the row is deleted only if it still holds
/// this text at this revision.
pub struct PgRelease {
    pub value: String,
    pub revision: i64,
}

/// How the database answered the conditional upsert of the key.
pub enum PgWriteReply {
    /// The statement ran; the row it returned, if the condition let it write.
    Row(Option<PgRow>),
    /// The insert collided with a row of another candidate.
    UniqueViolation,
    /// Any other failure.
    Failed { detail: String },
}

/// The revision of the key that this candidate last saw or wrote.
pub struct PgRevision {
    revision: u64,
}

impl View for PgRevision {
    type V = u64;

    closed spec fn view(&self) -> u64 {
        self.revision
    }
}

impl PgRevision {
    /// Nothing seen yet: revision 0.
    pub fn new() -> (res: Self)
        ensures
            res@ == 0,
    {
        PgRevision { revision: 0 }
    }

    /// The revision last seen or written.
    pub fn current(&self) -> (res: u64)
        ensures
            res == self@,
    {
        self.revision
    }

    /// Takes the row read for the key (only a row whose heartbeat is within
    /// the TTL is read). No row is an error. A row's revision is kept as
    /// seen; its text names a candidate if `uuid` parses it, and an unknown
    /// holder otherwise.
    pub fn read(&mut self, row: Option<PgRow>) -> (res: Result<LeaderValue, BackendError>)
        ensures
            row is None ==> final(self)@ == old(self)@ && res matches Err(BackendError::KeyMissing),
            row matches Some(r) ==> {
                &&& final(self)@ == r.revision as u64
                &&& uuid_parse_text(r.value@) is None ==> res == Ok::<LeaderValue, BackendError>(
                    LeaderValue::Unknown,
                )
                &&& uuid_parse_text(r.value@) matches Some(v) ==> (res matches Ok(
                    LeaderValue::Found { id },
                ) && id@ == v)
                &&& forall|id: LeaderId| #[trigger] hyphenated_text(id@) == r.value@ ==> res == Ok::<
                    LeaderValue,
                    BackendError,
                >(LeaderValue::Found { id })
            },
    {
        match row {
            None => Err(BackendError::KeyMissing),
            Some(r) => {
                self.revision = r.revision as u64;
                match LeaderId::parse(r.value.as_str()) {
                    Some(id) => Ok(LeaderValue::Found { id }),
                    None => Ok(LeaderValue::Unknown),
                }
            },
        }
    }

    /// The parameters of a claim by `id`: its text, the next revision, and the
    /// current one as the expected revision.
    pub fn claim(&self, id: &LeaderId) -> (res: PgWrite)
        requires
            self@ < u64::MAX,
        ensures
            res.value@ == hyphenated_text(id@),
            res.revision == (self@ + 1) as i64,
            res.expected_revision == self@ as i64,
    {
        let new_revision = self.revision + 1;
        PgWrite {
            value: id.hyphenated(),
            revision: new_revision as i64,
            expected_revision: self.revision as i64,
        }
    }

    /// Takes the answer to the claim `write`. The claim holds only when the
    /// returned row is the one written; then its revision is kept.
    pub fn after_claim(&mut self, write: &PgWrite, reply: PgWriteReply) -> (res: Result<
        (),
        BackendError,
    >)
        ensures
            reply is UniqueViolation ==> final(self)@ == old(self)@ && res matches Err(
                BackendError::HeldByOther,
            ),
            reply matches PgWriteReply::Failed { detail } ==> final(self)@ == old(self)@ && (
            res matches Err(BackendError::Store { detail: d }) && d == detail),
            reply matches PgWriteReply::Row(None) ==> final(self)@ == old(self)@ && res matches Err(
                BackendError::Rejected,
            ),
            reply matches PgWriteReply::Row(Some(r)) ==> {
                &&& (r.value@ == write.value@ && r.revision == write.revision) ==> final(self)@
                    == r.revision as u64 && res is Ok
                &&& !(r.value@ == write.value@ && r.revision == write.revision) ==> {
                    &&& final(self)@ == old(self)@
                    &&& res matches Err(
                        BackendError::Conflict {
                            expected_value,
                            expected_revision,
                            found_value,
                            found_revision,
                        },
                    )
                    &&& expected_value == write.value
                    &&& expected_revision == write.revision as u64
                    &&& found_value == r.value
                    &&& found_revision == r.revision
                }
            },
    {
        match reply {
            PgWriteReply::UniqueViolation => Err(BackendError::HeldByOther),
            PgWriteReply::Failed { detail } => Err(BackendError::Store { detail }),
            PgWriteReply::Row(None) => Err(BackendError::Rejected),
            PgWriteReply::Row(Some(r)) => {
                if r.value == write.value && r.revision == write.revision {
                    self.revision = r.revision as u64;
                    Ok(())
                } else {
                    Err(
                        BackendError::Conflict {
                            expected_value: write.value.clone(),
                            expected_revision: write.revision as u64,
                            found_value: r.value,
                            found_revision: r.revision,
                        },
                    )
                }
            },
        }
    }

    /// The parameters of a release by `id`: its text at the current revision.
    pub fn release(&self, id: &LeaderId) -> (res: PgRelease)
        ensures
            res.value@ == hyphenated_text(id@),
            res.revision == self@ as i64,
    {
        PgRelease { value: id.hyphenated(), revision: self.revision as i64 }
    }
}

} // verus!
