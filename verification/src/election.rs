use vstd::prelude::*;

use crate::identity::{Key, LeaderId};
use crate::store::LeaderValue;

verus! {

/// The interval, in seconds, between renewals, and the time a campaign waits
/// between writing its claim and reading it back.
pub const DEFAULT_INTERVAL_SECS: u64 = 10;

/// Where a candidate stands in the election.
#[derive(Clone, Copy, Debug, PartialEq, Eq, Structural)]
pub enum LeaderState {
    /// Nothing known: the next round campaigns.
    Unknown,
    /// The last round confirmed this candidate as the holder of the key.
    Leader,
    /// The candidate is trying to take the key.
    Campaigning,
}

impl Default for LeaderState {
    fn default() -> (res: Self)
        ensures
            res == LeaderState::Unknown,
    {
        LeaderState::Unknown
    }
}

/// Who holds the key, as read back after a claim.
#[derive(Clone, Copy, Debug, PartialEq, Eq, Structural)]
pub enum LeadershipState {
    NotFound,
    Allocated { id: LeaderId },
}

/// Whether `status` names the candidate `me`.
pub open spec fn names(status: LeadershipState, me: LeaderId) -> bool {
    status matches LeadershipState::Allocated { id } && id == me
}

/// The holder that a read of the key reports: a failed read, or a value that
/// is no identity, reports no holder.
pub open spec fn status_of(read: Result<LeaderValue, String>) -> LeadershipState {
    match read {
        Ok(LeaderValue::Found { id }) => LeadershipState::Allocated { id },
        _ => LeadershipState::NotFound,
    }
}

impl LeadershipState {
    /// Whether the key is held by `leader_id`.
    pub fn is_leader(&self, leader_id: &LeaderId) -> (res: bool)
        ensures
            res == names(*self, *leader_id),
    {
        match self {
            LeadershipState::Allocated { id } => *id == *leader_id,
            LeadershipState::NotFound => false,
        }
    }
}

/// Why a renewal of leadership failed.
#[derive(Debug)]
pub enum RenewalError {
    /// The key could not be read: leadership is lost.
    LookupFailed { detail: String },
    /// The key holds something that is no identity.
    HolderUnknown,
    /// The key names another candidate.
    HolderChanged,
    /// Writing the renewed claim failed.
    WriteFailed { detail: String },
}

/// Why a round of the election did not leave the candidate as the leader.
#[derive(Debug)]
pub enum ElectionError {
    /// Writing the claim failed.
    ClaimFailed { detail: String },
    /// The claim was written, but the key named someone else when read back.
    Churn,
    /// The candidate was the leader and could not renew.
    RenewalFailed { cause: RenewalError },
}

/// The point that a round has reached, and so the event it waits for.
#[derive(Clone, Copy, Debug, PartialEq, Eq, Structural)]
pub enum RoundPhase {
    /// No round under way.
    Idle,
    /// A campaign waits for its claim to be written.
    Claiming,
    /// A campaign waits out the settling interval.
    Settling,
    /// A campaign waits for the key to be read back.
    Confirming,
    /// A renewal waits for the key to be read.
    Checking,
    /// A renewal waits for its claim to be written again.
    Renewing,
}

/// What happened outside, handed back to the round.
pub enum RoundEvent {
    /// The claim was written, or the write failed.
    Written(Result<(), String>),
    /// The requested wait is over.
    Waited,
    /// The key was read, or the read failed.
    Read(Result<LeaderValue, String>),
}

/// What the round asks to be done next.
pub enum RoundAction {
    /// Write this candidate's identity under the key.
    WriteClaim,
    /// Wait this many seconds.
    Wait { secs: u64 },
    /// Read the key.
    ReadHolder,
    /// The round is over, with this outcome.
    Finished(Result<(), ElectionError>),
}

/// Whether a round at `phase` takes `event` next.
pub open spec fn accepts(phase: RoundPhase, event: RoundEvent) -> bool {
    match phase {
        RoundPhase::Claiming | RoundPhase::Renewing => event is Written,
        RoundPhase::Settling => event is Waited,
        RoundPhase::Confirming | RoundPhase::Checking => event is Read,
        RoundPhase::Idle => false,
    }
}

/// Whether `action` is what a round at `phase` asks for: a round that waits
/// for an event has asked for the matching piece of outside work, and a round
/// that is over is idle.
pub open spec fn asks(phase: RoundPhase, action: RoundAction) -> bool {
    match action {
        RoundAction::WriteClaim => phase == RoundPhase::Claiming || phase == RoundPhase::Renewing,
        RoundAction::Wait { .. } => phase == RoundPhase::Settling,
        RoundAction::ReadHolder => phase == RoundPhase::Confirming || phase
            == RoundPhase::Checking,
        RoundAction::Finished(_) => phase == RoundPhase::Idle,
    }
}

/// The state and phase go together: a campaign runs while campaigning, a
/// renewal while leader.
pub open spec fn consistent(state: LeaderState, phase: RoundPhase) -> bool {
    match phase {
        RoundPhase::Idle => true,
        RoundPhase::Claiming | RoundPhase::Settling | RoundPhase::Confirming => state
            == LeaderState::Campaigning,
        RoundPhase::Checking | RoundPhase::Renewing => state == LeaderState::Leader,
    }
}

/// The start of a round: a leader renews, anyone else campaigns.
pub open spec fn begin(state: LeaderState) -> (LeaderState, RoundPhase, RoundAction) {
    match state {
        LeaderState::Leader => (LeaderState::Leader, RoundPhase::Checking, RoundAction::ReadHolder),
        _ => (LeaderState::Campaigning, RoundPhase::Claiming, RoundAction::WriteClaim),
    }
}

/// The renewal's failure: the state drops to unknown and the round ends.
pub open spec fn renewal_lost(cause: RenewalError) -> (LeaderState, RoundPhase, RoundAction) {
    (
        LeaderState::Unknown,
        RoundPhase::Idle,
        RoundAction::Finished(Err(ElectionError::RenewalFailed { cause })),
    )
}

/// One step of a round: the state, phase and action after `event`.
pub open spec fn advance(state: LeaderState, phase: RoundPhase, me: LeaderId, event: RoundEvent) -> (
    LeaderState,
    RoundPhase,
    RoundAction,
) {
    match (phase, event) {
        (RoundPhase::Claiming, RoundEvent::Written(Err(detail))) => (
            state,
            RoundPhase::Idle,
            RoundAction::Finished(Err(ElectionError::ClaimFailed { detail })),
        ),
        (RoundPhase::Claiming, RoundEvent::Written(Ok(()))) => (
            state,
            RoundPhase::Settling,
            RoundAction::Wait { secs: DEFAULT_INTERVAL_SECS },
        ),
        (RoundPhase::Settling, RoundEvent::Waited) => (
            state,
            RoundPhase::Confirming,
            RoundAction::ReadHolder,
        ),
        (RoundPhase::Confirming, RoundEvent::Read(read)) => if names(status_of(read), me) {
            (LeaderState::Leader, RoundPhase::Idle, RoundAction::Finished(Ok(())))
        } else {
            (state, RoundPhase::Idle, RoundAction::Finished(Err(ElectionError::Churn)))
        },
        (RoundPhase::Checking, RoundEvent::Read(Err(detail))) => renewal_lost(
            RenewalError::LookupFailed { detail },
        ),
        (RoundPhase::Checking, RoundEvent::Read(Ok(LeaderValue::Unknown))) => renewal_lost(
            RenewalError::HolderUnknown,
        ),
        (RoundPhase::Checking, RoundEvent::Read(Ok(LeaderValue::Found { id }))) => if id == me {
            (state, RoundPhase::Renewing, RoundAction::WriteClaim)
        } else {
            renewal_lost(RenewalError::HolderChanged)
        },
        (RoundPhase::Renewing, RoundEvent::Written(Ok(()))) => (
            state,
            RoundPhase::Idle,
            RoundAction::Finished(Ok(())),
        ),
        (RoundPhase::Renewing, RoundEvent::Written(Err(detail))) => renewal_lost(
            RenewalError::WriteFailed { detail },
        ),
        (_, _) => (state, phase, RoundAction::Finished(Ok(()))),
    }
}

/// What the election logic of one candidate knows.
pub struct ElectionView {
    pub state: LeaderState,
    pub phase: RoundPhase,
    pub key: Seq<char>,
    pub leader_id: LeaderId,
    pub revision: u64,
}

/// One candidate's side of the election: its identity, the key it competes
/// for, and where it stands. The store's reads and writes and the waits are
/// done outside; each round is driven by `start`, then `resume` with the
/// outcome of each action until the round is `Finished`.
pub struct InnerLeader {
    state: LeaderState,
    phase: RoundPhase,
    key: Key,
    leader_id: LeaderId,
    revision: u64,
}

impl View for InnerLeader {
    type V = ElectionView;

    closed spec fn view(&self) -> ElectionView {
        ElectionView {
            state: self.state,
            phase: self.phase,
            key: self.key@,
            leader_id: self.leader_id,
            revision: self.revision,
        }
    }
}

impl InnerLeader {
    #[verifier::type_invariant]
    spec fn well_formed(self) -> bool {
        consistent(self.state, self.phase)
    }

    /// A new candidate for `key`, with a fresh version-7 identity, in state
    /// unknown and with no round under way.
    pub fn new(key: Key) -> (res: Self)
        ensures
            res@.state == LeaderState::Unknown,
            res@.phase == RoundPhase::Idle,
            res@.key == key@,
            res@.revision == 0,
            (res@.leader_id@ >> 76u128) & 0xf == 7,
            (res@.leader_id@ >> 62u128) & 0x3 == 2,
    {
        InnerLeader {
            state: LeaderState::Unknown,
            phase: RoundPhase::Idle,
            key,
            leader_id: LeaderId::new(),
            revision: 0,
        }
    }

    /// This candidate's identity.
    pub fn leader_id(&self) -> (res: LeaderId)
        ensures
            res == self@.leader_id,
    {
        self.leader_id
    }

    /// The key this candidate competes for.
    pub fn key(&self) -> (res: &Key)
        ensures
            res@ == self@.key,
    {
        &self.key
    }

    /// Where this candidate stands.
    pub fn state(&self) -> (res: LeaderState)
        ensures
            res == self@.state,
    {
        self.state
    }

    /// Whether the round under way takes `event` next.
    pub fn awaits(&self, event: &RoundEvent) -> (res: bool)
        ensures
            res == accepts(self@.phase, *event),
    {
        match self.phase {
            RoundPhase::Claiming | RoundPhase::Renewing => matches!(event, RoundEvent::Written(_)),
            RoundPhase::Settling => matches!(event, RoundEvent::Waited),
            RoundPhase::Confirming | RoundPhase::Checking => matches!(event, RoundEvent::Read(_)),
            RoundPhase::Idle => false,
        }
    }

    /// Starts a round: a leader goes to renew its claim, reading the key
    /// first; any other candidate campaigns, writing its claim first. A round
    /// left unfinished is abandoned.
    pub fn start(&mut self) -> (res: RoundAction)
        ensures
            (final(self)@.state, final(self)@.phase, res) == begin(old(self)@.state),
            final(self)@.key == old(self)@.key,
            final(self)@.leader_id == old(self)@.leader_id,
            final(self)@.revision == old(self)@.revision,
            asks(final(self)@.phase, res),
            res is WriteClaim ==> forall|w: Result<(), String>| #[trigger] accepts(
                final(self)@.phase,
                RoundEvent::Written(w),
            ),
            res is Wait ==> accepts(final(self)@.phase, RoundEvent::Waited),
            res is ReadHolder ==> forall|r: Result<LeaderValue, String>| #[trigger] accepts(
                final(self)@.phase,
                RoundEvent::Read(r),
            ),
    {
        proof {
            use_type_invariant(&*self);
        }
        self.phase = RoundPhase::Idle;
        match self.state {
            LeaderState::Leader => {
                self.phase = RoundPhase::Checking;
                RoundAction::ReadHolder
            },
            LeaderState::Unknown | LeaderState::Campaigning => {
                self.state = LeaderState::Campaigning;
                self.phase = RoundPhase::Claiming;
                RoundAction::WriteClaim
            },
        }
    }

    /// Who holds the key, as a read of it reports.
    pub fn leadership_status(read: &Result<LeaderValue, String>) -> (res: LeadershipState)
        ensures
            res == status_of(*read),
    {
        match read {
            Ok(LeaderValue::Found { id }) => LeadershipState::Allocated { id: *id },
            Ok(LeaderValue::Unknown) => LeadershipState::NotFound,
            Err(_) => LeadershipState::NotFound,
        }
    }

    /// Takes the outcome of the last action and takes the round one step on.
    pub fn resume(&mut self, event: RoundEvent) -> (res: RoundAction)
        requires
            accepts(old(self)@.phase, event),
        ensures
            (final(self)@.state, final(self)@.phase, res) == advance(
                old(self)@.state,
                old(self)@.phase,
                old(self)@.leader_id,
                event,
            ),
            final(self)@.key == old(self)@.key,
            final(self)@.leader_id == old(self)@.leader_id,
            final(self)@.revision == old(self)@.revision,
            asks(final(self)@.phase, res),
            res is WriteClaim ==> forall|w: Result<(), String>| #[trigger] accepts(
                final(self)@.phase,
                RoundEvent::Written(w),
            ),
            res is Wait ==> accepts(final(self)@.phase, RoundEvent::Waited),
            res is ReadHolder ==> forall|r: Result<LeaderValue, String>| #[trigger] accepts(
                final(self)@.phase,
                RoundEvent::Read(r),
            ),
    {
        proof {
            use_type_invariant(&*self);
        }
        match event {
            RoundEvent::Written(written) => {
                if self.phase == RoundPhase::Claiming {
                    match written {
                        Ok(()) => {
                            self.phase = RoundPhase::Settling;
                            RoundAction::Wait { secs: DEFAULT_INTERVAL_SECS }
                        },
                        Err(detail) => {
                            self.phase = RoundPhase::Idle;
                            RoundAction::Finished(Err(ElectionError::ClaimFailed { detail }))
                        },
                    }
                } else {
                    self.phase = RoundPhase::Idle;
                    match written {
                        Ok(()) => RoundAction::Finished(Ok(())),
                        Err(detail) => {
                            self.state = LeaderState::Unknown;
                            RoundAction::Finished(
                                Err(
                                    ElectionError::RenewalFailed {
                                        cause: RenewalError::WriteFailed { detail },
                                    },
                                ),
                            )
                        },
                    }
                }
            },
            RoundEvent::Waited => {
                self.phase = RoundPhase::Confirming;
                RoundAction::ReadHolder
            },
            RoundEvent::Read(read) => {
                if self.phase == RoundPhase::Confirming {
                    let status = Self::leadership_status(&read);
                    self.phase = RoundPhase::Idle;
                    if status.is_leader(&self.leader_id) {
                        self.state = LeaderState::Leader;
                        RoundAction::Finished(Ok(()))
                    } else {
                        RoundAction::Finished(Err(ElectionError::Churn))
                    }
                } else {
                    match read {
                        Ok(LeaderValue::Found { id }) => {
                            if id == self.leader_id {
                                self.phase = RoundPhase::Renewing;
                                RoundAction::WriteClaim
                            } else {
                                self.phase = RoundPhase::Idle;
                                self.state = LeaderState::Unknown;
                                RoundAction::Finished(
                                    Err(
                                        ElectionError::RenewalFailed {
                                            cause: RenewalError::HolderChanged,
                                        },
                                    ),
                                )
                            }
                        },
                        Ok(LeaderValue::Unknown) => {
                            self.phase = RoundPhase::Idle;
                            self.state = LeaderState::Unknown;
                            RoundAction::Finished(
                                Err(
                                    ElectionError::RenewalFailed {
                                        cause: RenewalError::HolderUnknown,
                                    },
                                ),
                            )
                        },
                        Err(detail) => {
                            self.phase = RoundPhase::Idle;
                            self.state = LeaderState::Unknown;
                            RoundAction::Finished(
                                Err(
                                    ElectionError::RenewalFailed {
                                        cause: RenewalError::LookupFailed { detail },
                                    },
                                ),
                            )
                        },
                    }
                }
            },
        }
    }
}


/// How many more events a round at `phase` takes at most before it is over.
pub open spec fn events_left(phase: RoundPhase) -> nat {
    match phase {
        RoundPhase::Idle => 0,
        RoundPhase::Claiming => 3,
        RoundPhase::Settling => 2,
        RoundPhase::Confirming => 1,
        RoundPhase::Checking => 2,
        RoundPhase::Renewing => 1,
    }
}

/// A campaign makes a candidate the leader exactly when its claim is written
/// and the key, read back after the settling interval, names it. A failed
/// write ends the campaign at once; a read-back that names anyone else, or
/// fails, ends it in churn. Either way the candidate is still campaigning.
pub proof fn lemma_campaign_round(
    state: LeaderState,
    me: LeaderId,
    written: Result<(), String>,
    read: Result<LeaderValue, String>,
)
    requires
        state != LeaderState::Leader,
    ensures
        ({
            let (s1, p1, a1) = begin(state);
            let (s2, p2, a2) = advance(s1, p1, me, RoundEvent::Written(written));
            let (s3, p3, a3) = advance(s2, p2, me, RoundEvent::Waited);
            let (s4, p4, a4) = advance(s3, p3, me, RoundEvent::Read(read));
            &&& s1 == LeaderState::Campaigning
            &&& a1 is WriteClaim
            &&& accepts(p1, RoundEvent::Written(written))
            &&& written is Ok ==> accepts(p2, RoundEvent::Waited) && accepts(
                p3,
                RoundEvent::Read(read),
            )
            &&& written matches Err(detail) ==> {
                &&& s2 == LeaderState::Campaigning
                &&& p2 == RoundPhase::Idle
                &&& a2 == RoundAction::Finished(Err(ElectionError::ClaimFailed { detail }))
            }
            &&& written is Ok ==> {
                &&& a2 == RoundAction::Wait { secs: DEFAULT_INTERVAL_SECS }
                &&& a3 is ReadHolder
                &&& p4 == RoundPhase::Idle
                &&& read == Ok::<LeaderValue, String>(LeaderValue::Found { id: me }) ==> {
                    &&& s4 == LeaderState::Leader
                    &&& a4 == RoundAction::Finished(Ok(()))
                }
                &&& read != Ok::<LeaderValue, String>(LeaderValue::Found { id: me }) ==> {
                    &&& s4 == LeaderState::Campaigning
                    &&& a4 == RoundAction::Finished(Err(ElectionError::Churn))
                }
            }
        }),
{
}

/// A leader keeps its leadership exactly when the key still names it and the
/// renewed claim is written; on any failure its state drops to unknown, so
/// that its next round campaigns afresh.
pub proof fn lemma_renewal_round(
    me: LeaderId,
    read: Result<LeaderValue, String>,
    written: Result<(), String>,
)
    ensures
        ({
            let (s1, p1, a1) = begin(LeaderState::Leader);
            let (s2, p2, a2) = advance(s1, p1, me, RoundEvent::Read(read));
            let (s3, p3, a3) = advance(s2, p2, me, RoundEvent::Written(written));
            &&& a1 is ReadHolder
            &&& accepts(p1, RoundEvent::Read(read))
            &&& read == Ok::<LeaderValue, String>(LeaderValue::Found { id: me }) ==> {
                &&& a2 is WriteClaim
                &&& accepts(p2, RoundEvent::Written(written))
                &&& p3 == RoundPhase::Idle
                &&& written is Ok ==> s3 == LeaderState::Leader && a3 == RoundAction::Finished(
                    Ok(()),
                )
                &&& written is Err ==> s3 == LeaderState::Unknown && a3 matches RoundAction::Finished(
                    Err(ElectionError::RenewalFailed { .. }),
                )
            }
            &&& read != Ok::<LeaderValue, String>(LeaderValue::Found { id: me }) ==> {
                &&& s2 == LeaderState::Unknown
                &&& p2 == RoundPhase::Idle
                &&& a2 matches RoundAction::Finished(Err(ElectionError::RenewalFailed { .. }))
            }
        }),
{
}

/// Nothing makes a candidate the leader but reading the key back during a
/// campaign and finding its own identity there: starting a round never does,
/// and no other step does.
pub proof fn lemma_leadership_only_by_confirmation(
    state: LeaderState,
    phase: RoundPhase,
    me: LeaderId,
    event: RoundEvent,
)
    requires
        state != LeaderState::Leader,
        consistent(state, phase),
        accepts(phase, event),
    ensures
        begin(state).0 != LeaderState::Leader,
        advance(state, phase, me, event).0 == LeaderState::Leader ==> phase == RoundPhase::Confirming
            && event == RoundEvent::Read(Ok(LeaderValue::Found { id: me })),
{
}

/// A round takes every outcome of the work it asked for: after asking for a
/// write it takes the write's success and each of its failures, after asking
/// for a wait it takes the end of the wait, after asking for a read it takes
/// every answer of the read and each of its failures, and once it is finished
/// it takes nothing more.
pub proof fn lemma_round_takes_every_outcome(
    phase: RoundPhase,
    action: RoundAction,
    written: Result<(), String>,
    read: Result<LeaderValue, String>,
)
    requires
        asks(phase, action),
    ensures
        action is WriteClaim ==> accepts(phase, RoundEvent::Written(written)),
        action is Wait ==> accepts(phase, RoundEvent::Waited),
        action is ReadHolder ==> accepts(phase, RoundEvent::Read(read)),
        action is Finished ==> !accepts(phase, RoundEvent::Written(written)) && !accepts(
            phase,
            RoundEvent::Waited,
        ) && !accepts(phase, RoundEvent::Read(read)),
        action is WriteClaim ==> !accepts(phase, RoundEvent::Read(read)) && !accepts(
            phase,
            RoundEvent::Waited,
        ),
        action is ReadHolder ==> !accepts(phase, RoundEvent::Written(written)) && !accepts(
            phase,
            RoundEvent::Waited,
        ),
        action is Wait ==> !accepts(phase, RoundEvent::Written(written)) && !accepts(
            phase,
            RoundEvent::Read(read),
        ),
{
}

/// One read of the key confirms at most one candidate: if the same read-back
/// would make both `a` and `b` the leader, they are the same candidate.
pub proof fn lemma_one_holder_per_read(
    read: Result<LeaderValue, String>,
    a: LeaderId,
    b: LeaderId,
)
    requires
        advance(LeaderState::Campaigning, RoundPhase::Confirming, a, RoundEvent::Read(read)).0
            == LeaderState::Leader,
        advance(LeaderState::Campaigning, RoundPhase::Confirming, b, RoundEvent::Read(read)).0
            == LeaderState::Leader,
    ensures
        a == b,
{
}

/// Every step of a round keeps the state and phase together, asks for the
/// outside work whose outcome it takes next, and brings the round closer to
/// its end: a round is over after at most three events, and it is over
/// exactly when it is idle.
pub proof fn lemma_round_progress(
    state: LeaderState,
    phase: RoundPhase,
    me: LeaderId,
    event: RoundEvent,
)
    requires
        consistent(state, phase),
        accepts(phase, event),
    ensures
        ({
            let (s0, p0, a0) = begin(state);
            &&& consistent(s0, p0)
            &&& asks(p0, a0)
            &&& events_left(p0) <= 3
        }),
        ({
            let (s, p, a) = advance(state, phase, me, event);
            &&& consistent(s, p)
            &&& asks(p, a)
            &&& events_left(p) < events_left(phase)
            &&& (a is Finished <==> p == RoundPhase::Idle)
        }),
{
}

} // verus!
