use noleader::{
    ElectionError, InnerLeader, Key, LeaderId, LeaderState, LeaderValue, LeadershipState,
    RenewalError, RoundAction, RoundEvent, DEFAULT_INTERVAL_SECS,
};

fn candidate() -> InnerLeader {
    InnerLeader::new(Key::from("election"))
}

fn other() -> LeaderId {
    LeaderId::from(0x0123_4567_89ab_7def_8123_4567_89ab_cdefu128)
}

/// Runs a whole campaign with the given outcomes of the outside work.
fn campaign(
    leader: &mut InnerLeader,
    written: Result<(), String>,
    read: Result<LeaderValue, String>,
) -> Result<(), ElectionError> {
    assert!(matches!(leader.start(), RoundAction::WriteClaim));
    assert_eq!(leader.state(), LeaderState::Campaigning);
    match leader.resume(RoundEvent::Written(written)) {
        RoundAction::Finished(res) => return res,
        RoundAction::Wait { secs } => assert_eq!(secs, DEFAULT_INTERVAL_SECS),
        _ => panic!("a written claim is followed by a wait"),
    }
    assert!(matches!(leader.resume(RoundEvent::Waited), RoundAction::ReadHolder));
    match leader.resume(RoundEvent::Read(read)) {
        RoundAction::Finished(res) => res,
        _ => panic!("a campaign ends after the read-back"),
    }
}

fn win(leader: &mut InnerLeader) {
    let me = leader.leader_id();
    assert!(campaign(leader, Ok(()), Ok(LeaderValue::Found { id: me })).is_ok());
    assert_eq!(leader.state(), LeaderState::Leader);
}

#[test]
fn new_candidate_is_unknown() {
    let leader = candidate();
    assert_eq!(leader.state(), LeaderState::Unknown);
    assert_eq!(LeaderState::default(), LeaderState::Unknown);
    assert_eq!(String::from(leader.key()), "election");
}

#[test]
fn campaign_that_reads_itself_back_wins() {
    let mut leader = candidate();
    win(&mut leader);
}

#[test]
fn campaign_with_failed_write_keeps_campaigning() {
    let mut leader = candidate();
    let res = campaign(&mut leader, Err("no store".to_string()), Ok(LeaderValue::Unknown));
    assert!(matches!(res, Err(ElectionError::ClaimFailed { detail }) if detail == "no store"));
    assert_eq!(leader.state(), LeaderState::Campaigning);
}

#[test]
fn campaign_that_reads_another_holder_is_churn() {
    let mut leader = candidate();
    let res = campaign(&mut leader, Ok(()), Ok(LeaderValue::Found { id: other() }));
    assert!(matches!(res, Err(ElectionError::Churn)));
    assert_eq!(leader.state(), LeaderState::Campaigning);
}

#[test]
fn campaign_with_unknown_or_failed_read_back_is_churn() {
    let mut leader = candidate();
    let res = campaign(&mut leader, Ok(()), Ok(LeaderValue::Unknown));
    assert!(matches!(res, Err(ElectionError::Churn)));
    let res = campaign(&mut leader, Ok(()), Err("timeout".to_string()));
    assert!(matches!(res, Err(ElectionError::Churn)));
    assert_eq!(leader.state(), LeaderState::Campaigning);
}

#[test]
fn leader_renews_by_reading_then_writing() {
    let mut leader = candidate();
    win(&mut leader);
    let me = leader.leader_id();
    assert!(matches!(leader.start(), RoundAction::ReadHolder));
    assert!(matches!(
        leader.resume(RoundEvent::Read(Ok(LeaderValue::Found { id: me }))),
        RoundAction::WriteClaim
    ));
    assert!(matches!(leader.resume(RoundEvent::Written(Ok(()))), RoundAction::Finished(Ok(()))));
    assert_eq!(leader.state(), LeaderState::Leader);
}

fn renewal_after_read(read: Result<LeaderValue, String>) -> (RoundAction, LeaderState) {
    let mut leader = candidate();
    win(&mut leader);
    assert!(matches!(leader.start(), RoundAction::ReadHolder));
    let action = leader.resume(RoundEvent::Read(read));
    (action, leader.state())
}

#[test]
fn renewal_fails_when_holder_changed() {
    let (action, state) = renewal_after_read(Ok(LeaderValue::Found { id: other() }));
    assert!(matches!(
        action,
        RoundAction::Finished(Err(ElectionError::RenewalFailed { cause: RenewalError::HolderChanged }))
    ));
    assert_eq!(state, LeaderState::Unknown);
}

#[test]
fn renewal_fails_when_holder_unknown() {
    let (action, state) = renewal_after_read(Ok(LeaderValue::Unknown));
    assert!(matches!(
        action,
        RoundAction::Finished(Err(ElectionError::RenewalFailed { cause: RenewalError::HolderUnknown }))
    ));
    assert_eq!(state, LeaderState::Unknown);
}

#[test]
fn renewal_fails_when_key_cannot_be_read() {
    let (action, state) = renewal_after_read(Err("key gone".to_string()));
    assert!(matches!(
        action,
        RoundAction::Finished(Err(ElectionError::RenewalFailed {
            cause: RenewalError::LookupFailed { detail }
        })) if detail == "key gone"
    ));
    assert_eq!(state, LeaderState::Unknown);
}

#[test]
fn renewal_fails_when_write_fails() {
    let mut leader = candidate();
    win(&mut leader);
    let me = leader.leader_id();
    leader.start();
    leader.resume(RoundEvent::Read(Ok(LeaderValue::Found { id: me })));
    let action = leader.resume(RoundEvent::Written(Err("conflict".to_string())));
    assert!(matches!(
        action,
        RoundAction::Finished(Err(ElectionError::RenewalFailed {
            cause: RenewalError::WriteFailed { detail }
        })) if detail == "conflict"
    ));
    assert_eq!(leader.state(), LeaderState::Unknown);
    // The next round campaigns again.
    assert!(matches!(leader.start(), RoundAction::WriteClaim));
    assert_eq!(leader.state(), LeaderState::Campaigning);
}

#[test]
fn abandoned_round_is_restarted() {
    let mut leader = candidate();
    leader.start();
    assert!(matches!(leader.resume(RoundEvent::Written(Ok(()))), RoundAction::Wait { .. }));
    // The round is dropped before the wait is over; the next one starts afresh.
    assert!(matches!(leader.start(), RoundAction::WriteClaim));
    assert!(leader.awaits(&RoundEvent::Written(Ok(()))));
    assert!(!leader.awaits(&RoundEvent::Waited));
}

#[test]
fn awaits_follows_the_round() {
    let mut leader = candidate();
    assert!(!leader.awaits(&RoundEvent::Waited));
    leader.start();
    assert!(leader.awaits(&RoundEvent::Written(Ok(()))));
    assert!(!leader.awaits(&RoundEvent::Read(Ok(LeaderValue::Unknown))));
    leader.resume(RoundEvent::Written(Ok(())));
    assert!(leader.awaits(&RoundEvent::Waited));
    leader.resume(RoundEvent::Waited);
    assert!(leader.awaits(&RoundEvent::Read(Ok(LeaderValue::Unknown))));
}

#[test]
fn leadership_status_reads_holder() {
    let me = LeaderId::from(7u128);
    let found = InnerLeader::leadership_status(&Ok(LeaderValue::Found { id: me }));
    assert_eq!(found, LeadershipState::Allocated { id: me });
    assert!(found.is_leader(&me));
    assert!(!found.is_leader(&other()));
    let unknown = InnerLeader::leadership_status(&Ok(LeaderValue::Unknown));
    assert_eq!(unknown, LeadershipState::NotFound);
    assert!(!unknown.is_leader(&me));
    let failed = InnerLeader::leadership_status(&Err("down".to_string()));
    assert_eq!(failed, LeadershipState::NotFound);
}

#[test]
fn one_read_back_confirms_one_candidate() {
    let mut first = candidate();
    let mut second = candidate();
    let holder = first.leader_id();
    let read = || Ok(LeaderValue::Found { id: holder });
    assert!(campaign(&mut first, Ok(()), read()).is_ok());
    assert!(matches!(campaign(&mut second, Ok(()), read()), Err(ElectionError::Churn)));
    assert_eq!(first.state(), LeaderState::Leader);
    assert_eq!(second.state(), LeaderState::Campaigning);
}
