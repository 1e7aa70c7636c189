//! Leader election over a shared key-value store, with every decision that the
//! election takes stated and proved.

mod election;
mod identity;
mod nats;
mod postgres;
mod store;
mod supervisor;

pub use identity::{
    hyphenated_text, lemma_leader_id_view_injective, lemma_uuid_bytes_injective, uuid_bytes, uuid_parse_text, Key, LeaderId,
};
pub use nats::{
    bucket_after_create, bucket_after_lookup, bucket_after_second_lookup, decode_entry,
    BucketStep, ClaimStep, CreateReply, NatsRevision, UpdateReply, KEY_TTL_SECS,
};
pub use store::{BackendError, LeaderValue};
pub use election::{
    accepts, advance, asks, begin, consistent, events_left, lemma_campaign_round,
    lemma_leadership_only_by_confirmation, lemma_one_holder_per_read, lemma_renewal_round,
    lemma_round_takes_every_outcome,
    lemma_round_progress, names, renewal_lost, status_of, ElectionError, ElectionView,
    InnerLeader, LeaderState, LeadershipState, RenewalError, RoundAction, RoundEvent,
    RoundPhase, DEFAULT_INTERVAL_SECS,
};
pub use supervisor::{
    after_work, attempts_after_failures, guard_step, lemma_attempts_stay_bounded,
    lemma_backoff_saturates, lemma_success_resets, lemma_work_only_while_leader, next_attempts,
    next_guard_step, next_work_step, status_from,
    work_step, Backoff, GuardStep, Status, WorkStep, BACKOFF_CAP, GUARD_TICK_MILLIS,
    LEADERSHIP_POLL_MILLIS,
};
pub use postgres::{PgRelease, PgRevision, PgRow, PgWrite, PgWriteReply};
