use noleader::{
    bucket_after_create, bucket_after_lookup, bucket_after_second_lookup, decode_entry,
    BackendError, BucketStep, ClaimStep, CreateReply, LeaderId, LeaderValue, NatsRevision,
    PgRevision, PgRow, PgWriteReply, UpdateReply, KEY_TTL_SECS,
};

const SAMPLE: u128 = 0xa1a2a3a4b1b2c1c2d1d2d3d4d5d6d7d8;
const SAMPLE_TEXT: &str = "a1a2a3a4-b1b2-c1c2-d1d2-d3d4d5d6d7d8";

#[test]
fn nats_entry_missing_is_an_error() {
    assert!(matches!(decode_entry(None), Err(BackendError::KeyMissing)));
}

#[test]
fn nats_entry_with_written_bytes_names_the_writer() {
    let id = LeaderId::from(SAMPLE);
    let res = decode_entry(Some(id.as_bytes().to_vec()));
    assert_eq!(res.unwrap(), LeaderValue::Found { id });
}

#[test]
fn nats_entry_of_other_length_is_unknown() {
    assert_eq!(decode_entry(Some(b"leader".to_vec())).unwrap(), LeaderValue::Unknown);
    assert_eq!(decode_entry(Some(Vec::new())).unwrap(), LeaderValue::Unknown);
}

#[test]
fn nats_update_keeps_the_new_revision() {
    let mut rev = NatsRevision::new();
    assert_eq!(rev.expected(), 0);
    let step = rev.after_update(UpdateReply::Updated { revision: 42 });
    assert_eq!(step.unwrap(), ClaimStep::Done);
    assert_eq!(rev.expected(), 42);
}

#[test]
fn nats_wrong_revision_creates_the_key() {
    let mut rev = NatsRevision::new();
    let step = rev.after_update(UpdateReply::WrongLastRevision);
    assert_eq!(step.unwrap(), ClaimStep::CreateWithTtl);
    assert_eq!(rev.expected(), 0);
    assert!(rev.after_create(CreateReply::Created { revision: 7 }).is_ok());
    assert_eq!(rev.expected(), 7);
}

#[test]
fn nats_existing_key_is_held_by_another() {
    let mut rev = NatsRevision::new();
    rev.after_update(UpdateReply::Updated { revision: 3 }).unwrap();
    let res = rev.after_create(CreateReply::AlreadyExists);
    assert!(matches!(res, Err(BackendError::HeldByOther)));
    assert_eq!(rev.expected(), 3);
}

#[test]
fn nats_failures_keep_the_revision() {
    let mut rev = NatsRevision::new();
    rev.after_update(UpdateReply::Updated { revision: 5 }).unwrap();
    let res = rev.after_update(UpdateReply::Failed { detail: "timed out".to_string() });
    assert!(matches!(res, Err(BackendError::UpdateFailed { detail }) if detail == "timed out"));
    let res = rev.after_create(CreateReply::Failed { detail: "no ack".to_string() });
    assert!(matches!(res, Err(BackendError::CreateFailed { detail }) if detail == "no ack"));
    assert_eq!(rev.expected(), 5);
    assert_eq!(KEY_TTL_SECS, 60);
}

#[test]
fn bucket_setup_steps() {
    assert_eq!(bucket_after_lookup(true), BucketStep::Ready);
    assert_eq!(bucket_after_lookup(false), BucketStep::Create);
    assert_eq!(bucket_after_create(&Ok(())), BucketStep::Ready);
    assert_eq!(bucket_after_create(&Err("exists".to_string())), BucketStep::LookAgain);
    assert!(bucket_after_second_lookup(true, "exists".to_string()).is_ok());
    let res = bucket_after_second_lookup(false, "denied".to_string());
    assert!(matches!(res, Err(BackendError::BucketUnavailable { detail }) if detail == "denied"));
}

#[test]
fn pg_missing_row_is_an_error() {
    let mut rev = PgRevision::new();
    assert!(matches!(rev.read(None), Err(BackendError::KeyMissing)));
    assert_eq!(rev.release(&LeaderId::from(1u128)).revision, 0);
}

#[test]
fn pg_row_names_its_holder_and_sets_the_revision() {
    let mut rev = PgRevision::new();
    let res = rev.read(Some(PgRow { value: SAMPLE_TEXT.to_string(), revision: 9 }));
    assert_eq!(res.unwrap(), LeaderValue::Found { id: LeaderId::from(SAMPLE) });
    assert_eq!(rev.release(&LeaderId::from(SAMPLE)).revision, 9);
}

#[test]
fn pg_row_with_other_text_is_unknown() {
    let mut rev = PgRevision::new();
    let res = rev.read(Some(PgRow { value: "nobody".to_string(), revision: 4 }));
    assert_eq!(res.unwrap(), LeaderValue::Unknown);
    assert_eq!(rev.release(&LeaderId::from(SAMPLE)).revision, 4);
}

#[test]
fn pg_claim_writes_the_next_revision() {
    let rev = PgRevision::new();
    let id = LeaderId::from(SAMPLE);
    let write = rev.claim(&id);
    assert_eq!(write.value, SAMPLE_TEXT);
    assert_eq!(write.revision, 1);
    assert_eq!(write.expected_revision, 0);
}

#[test]
fn pg_claim_that_returns_its_row_holds() {
    let mut rev = PgRevision::new();
    let id = LeaderId::from(SAMPLE);
    let write = rev.claim(&id);
    let reply = PgWriteReply::Row(Some(PgRow { value: SAMPLE_TEXT.to_string(), revision: 1 }));
    assert!(rev.after_claim(&write, reply).is_ok());
    let next = rev.claim(&id);
    assert_eq!(next.revision, 2);
    assert_eq!(next.expected_revision, 1);
}

#[test]
fn pg_claim_that_returns_another_row_is_a_conflict() {
    let mut rev = PgRevision::new();
    let id = LeaderId::from(SAMPLE);
    let write = rev.claim(&id);
    let reply = PgWriteReply::Row(Some(PgRow { value: "someone".to_string(), revision: 1 }));
    let res = rev.after_claim(&write, reply);
    assert!(matches!(
        res,
        Err(BackendError::Conflict { expected_value, expected_revision: 1, found_value, found_revision: 1 })
            if expected_value == SAMPLE_TEXT && found_value == "someone"
    ));
    assert_eq!(rev.claim(&id).revision, 1);
}

#[test]
fn pg_claim_refusals() {
    let mut rev = PgRevision::new();
    let id = LeaderId::from(SAMPLE);
    let write = rev.claim(&id);
    assert!(matches!(rev.after_claim(&write, PgWriteReply::Row(None)), Err(BackendError::Rejected)));
    assert!(matches!(
        rev.after_claim(&write, PgWriteReply::UniqueViolation),
        Err(BackendError::HeldByOther)
    ));
    let res = rev.after_claim(&write, PgWriteReply::Failed { detail: "db down".to_string() });
    assert!(matches!(res, Err(BackendError::Store { detail }) if detail == "db down"));
    assert_eq!(rev.claim(&id).expected_revision, 0);
}

#[test]
fn pg_release_names_the_holder_at_its_revision() {
    let rev = PgRevision::new();
    let release = rev.release(&LeaderId::from(SAMPLE));
    assert_eq!(release.value, SAMPLE_TEXT);
    assert_eq!(release.revision, 0);
}
