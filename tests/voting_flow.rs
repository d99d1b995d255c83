use voting::state::{CandidateResult, ErrorCode, InitializeCounter, InitializePoll, Ledger, Pubkey, PublishResults, RegisterVoter, Vote};
use voting::voting::{initialize_counter, initialize_poll, publish_results, register_voter, total_votes, vote};

const NOW: i64 = 1_700_000_000;

fn key(b: u8) -> Pubkey {
    Pubkey { bytes: [b; 32] }
}

fn admin() -> Pubkey {
    key(1)
}

fn names(list: &[&str]) -> Vec<String> {
    list.iter().map(|s| s.to_string()).collect()
}

fn ledger_with_counter() -> Ledger {
    let mut l = Ledger::new();
    initialize_counter(&mut l, &InitializeCounter { admin: admin() }).unwrap();
    l
}

fn create(l: &mut Ledger, now: i64, start: u64, end: u64, candidates: &[&str]) -> Result<u64, ErrorCode> {
    initialize_poll(
        l,
        &InitializePoll { admin: admin() },
        now,
        start,
        end,
        "Council".to_string(),
        "Pick one".to_string(),
        names(candidates),
        [9u8; 32],
    )
    .map(|e| e.poll_id)
}

fn start() -> u64 {
    (NOW + 10) as u64
}

fn end() -> u64 {
    start() + 3600
}

/// A ledger with poll 1 (candidates A, B, C) and voters 10 and 11 registered.
fn ledger_with_poll() -> Ledger {
    let mut l = ledger_with_counter();
    assert_eq!(create(&mut l, NOW, start(), end(), &["A", "B", "C"]), Ok(1));
    for v in [10u8, 11u8] {
        register_voter(&mut l, &RegisterVoter { admin: admin(), voter: key(v) }, 1).unwrap();
    }
    l
}

fn cast(l: &mut Ledger, voter: u8, now: i64, nullifier: u8, len: usize) -> Result<(), ErrorCode> {
    vote(l, &Vote { voter: key(voter) }, now, 1, [nullifier; 32], vec![7u8; len]).map(|_| ())
}

fn results(lines: &[(&str, u64)]) -> Vec<CandidateResult> {
    lines
        .iter()
        .map(|(n, c)| CandidateResult { candidate_name: n.to_string(), vote_count: *c })
        .collect()
}

#[test]
fn counter_starts_at_one_and_is_created_once() {
    let mut l = Ledger::new();
    assert!(initialize_counter(&mut l, &InitializeCounter { admin: admin() }).is_ok());
    assert_eq!(l.counter.unwrap().next_poll_id, 1);
    assert_eq!(
        initialize_counter(&mut l, &InitializeCounter { admin: admin() }),
        Err(ErrorCode::AlreadyExists)
    );
    assert_eq!(l.counter.unwrap().next_poll_id, 1);
}

#[test]
fn poll_needs_counter() {
    let mut l = Ledger::new();
    assert_eq!(create(&mut l, NOW, start(), end(), &["A"]), Err(ErrorCode::AccountNotInitialized));
}

#[test]
fn poll_ids_are_sequential() {
    let mut l = ledger_with_counter();
    assert_eq!(create(&mut l, NOW, start(), end(), &["A", "B", "C"]), Ok(1));
    assert_eq!(create(&mut l, NOW, start(), end(), &["A", "B", "C"]), Ok(2));
    assert_eq!(create(&mut l, NOW, start(), end(), &["X"]), Ok(3));
    assert_eq!(l.counter.unwrap().next_poll_id, 4);
    let ids: Vec<u64> = l.polls.iter().map(|p| p.poll_id).collect();
    assert_eq!(ids, vec![1, 2, 3]);
}

#[test]
fn created_poll_and_event_hold_the_arguments() {
    let mut l = ledger_with_counter();
    let e = initialize_poll(
        &mut l,
        &InitializePoll { admin: admin() },
        NOW,
        start(),
        end(),
        "Council".to_string(),
        "Pick one".to_string(),
        names(&["A", "B", "C"]),
        [9u8; 32],
    )
    .unwrap();
    assert_eq!(e.poll_id, 1);
    assert_eq!(e.admin.bytes, [1u8; 32]);
    assert_eq!(e.name, "Council");
    assert_eq!(e.description, "Pick one");
    assert_eq!(e.candidates, names(&["A", "B", "C"]));
    assert_eq!((e.start_time, e.end_time), (start(), end()));
    let p = &l.polls[0];
    assert_eq!(p.poll_name, "Council");
    assert_eq!(p.poll_description, "Pick one");
    assert_eq!(p.candidates, names(&["A", "B", "C"]));
    assert_eq!(p.tallier_pubkey, [9u8; 32]);
    assert_eq!((p.poll_voting_start, p.poll_voting_end), (start(), end()));
}

#[test]
fn poll_candidate_count_bounds() {
    let mut l = ledger_with_counter();
    let eleven = ["a", "b", "c", "d", "e", "f", "g", "h", "i", "j", "k"];
    assert_eq!(create(&mut l, NOW, start(), end(), &eleven), Err(ErrorCode::TooManyCandidates));
    assert_eq!(create(&mut l, NOW, start(), end(), &[]), Err(ErrorCode::NoCandidates));
    assert_eq!(create(&mut l, NOW, start(), end(), &eleven[..10]), Ok(1));
    assert_eq!(create(&mut l, NOW, start(), end(), &["solo"]), Ok(2));
}

#[test]
fn poll_time_checks() {
    let mut l = ledger_with_counter();
    let now = NOW as u64;
    assert_eq!(create(&mut l, NOW, now - 1, now + 100, &["A"]), Err(ErrorCode::InvalidStartTime));
    assert_eq!(create(&mut l, NOW, now + 5, now + 5, &["A"]), Err(ErrorCode::InvalidTimeRange));
    assert_eq!(create(&mut l, NOW, now + 5, now + 4, &["A"]), Err(ErrorCode::InvalidTimeRange));
    // Starting right now is allowed.
    assert_eq!(create(&mut l, NOW, now, now + 1, &["A"]), Ok(1));
    // A failed creation consumes no id.
    assert_eq!(l.counter.unwrap().next_poll_id, 2);
}

#[test]
fn poll_check_order() {
    let mut l = ledger_with_counter();
    let now = NOW as u64;
    assert_eq!(create(&mut l, NOW, now - 1, now - 2, &[]), Err(ErrorCode::NoCandidates));
    assert_eq!(create(&mut l, NOW, now - 1, now - 2, &["A"]), Err(ErrorCode::InvalidStartTime));
}

#[test]
fn register_twice_fails() {
    let mut l = ledger_with_counter();
    create(&mut l, NOW, start(), end(), &["A", "B", "C"]).unwrap();
    let ctx = RegisterVoter { admin: admin(), voter: key(10) };
    let e = register_voter(&mut l, &ctx, 1).unwrap();
    assert_eq!((e.poll_id, e.voter.bytes), (1, [10u8; 32]));
    assert_eq!(register_voter(&mut l, &ctx, 1).err(), Some(ErrorCode::AlreadyExists));
    assert_eq!(l.voters.len(), 1);
    assert!(l.voters[0].registry.registered);
    assert!(!l.voters[0].registry.has_voted);
}

#[test]
fn register_same_voter_in_two_polls() {
    let mut l = ledger_with_counter();
    create(&mut l, NOW, start(), end(), &["A"]).unwrap();
    create(&mut l, NOW, start(), end(), &["A"]).unwrap();
    let ctx = RegisterVoter { admin: admin(), voter: key(10) };
    assert!(register_voter(&mut l, &ctx, 1).is_ok());
    assert!(register_voter(&mut l, &ctx, 2).is_ok());
}

#[test]
fn register_needs_admin_and_poll() {
    let mut l = ledger_with_counter();
    create(&mut l, NOW, start(), end(), &["A"]).unwrap();
    let stranger = RegisterVoter { admin: key(2), voter: key(10) };
    assert_eq!(register_voter(&mut l, &stranger, 1).err(), Some(ErrorCode::PermissionDenied));
    let ctx = RegisterVoter { admin: admin(), voter: key(10) };
    assert_eq!(register_voter(&mut l, &ctx, 2).err(), Some(ErrorCode::AccountNotInitialized));
    assert_eq!(register_voter(&mut l, &ctx, 0).err(), Some(ErrorCode::AccountNotInitialized));
    assert!(l.voters.is_empty());
}

#[test]
fn vote_once_then_already_voted_and_nullifier_reuse() {
    let mut l = ledger_with_poll();
    let within = NOW + 100;
    let e = vote(&mut l, &Vote { voter: key(10) }, within, 1, [5u8; 32], vec![7u8; 100]).unwrap();
    assert_eq!((e.poll_id, e.voter.bytes, e.timestamp), (1, [10u8; 32], within));
    assert!(l.voters[0].registry.has_voted);
    assert!(!l.voters[1].registry.has_voted);
    assert_eq!(l.ballots.len(), 1);
    assert_eq!(l.ballots[0].nullifier, [5u8; 32]);
    assert_eq!(l.ballots[0].encrypted_vote.len(), 100);
    assert_eq!(cast(&mut l, 10, within, 6, 100), Err(ErrorCode::AlreadyVoted));
    assert_eq!(cast(&mut l, 11, within, 5, 100), Err(ErrorCode::AlreadyExists));
    // The failed attempt left voter 11 free to vote with a fresh nullifier.
    assert!(!l.voters[1].registry.has_voted);
    assert_eq!(cast(&mut l, 11, within, 6, 100), Ok(()));
    assert_eq!(l.ballots.len(), 2);
}

#[test]
fn vote_short_ballot_rejected() {
    let mut l = ledger_with_poll();
    assert_eq!(cast(&mut l, 10, NOW + 100, 5, 50), Err(ErrorCode::InvalidEncryptedVote));
    assert_eq!(cast(&mut l, 10, NOW + 100, 5, 72), Err(ErrorCode::InvalidEncryptedVote));
    assert_eq!(cast(&mut l, 10, NOW + 100, 5, 0), Err(ErrorCode::InvalidEncryptedVote));
    assert!(!l.voters[0].registry.has_voted);
    assert!(l.ballots.is_empty());
    assert_eq!(cast(&mut l, 10, NOW + 100, 5, 73), Ok(()));
}

#[test]
fn vote_window_is_inclusive() {
    let mut l = ledger_with_poll();
    let (s, e) = (start() as i64, end() as i64);
    assert_eq!(cast(&mut l, 10, s - 1, 1, 80), Err(ErrorCode::VotingNotStarted));
    assert_eq!(cast(&mut l, 10, e + 1, 1, 80), Err(ErrorCode::VotingEnded));
    assert_eq!(cast(&mut l, 10, -5, 1, 80), Err(ErrorCode::VotingNotStarted));
    assert_eq!(cast(&mut l, 10, s, 1, 80), Ok(()));
    assert_eq!(cast(&mut l, 11, e, 2, 80), Ok(()));
}

#[test]
fn vote_needs_registration_and_poll() {
    let mut l = ledger_with_poll();
    assert_eq!(cast(&mut l, 12, NOW + 100, 1, 80), Err(ErrorCode::VoterNotRegistered));
    let r = vote(&mut l, &Vote { voter: key(10) }, NOW + 100, 2, [1u8; 32], vec![0u8; 80]);
    assert_eq!(r.err(), Some(ErrorCode::AccountNotInitialized));
}

#[test]
fn publish_results_scenario() {
    let mut l = ledger_with_poll();
    let during = NOW + 100;
    let after = end() as i64 + 1;
    let good = [("A", 10), ("B", 5), ("C", 1)];
    let ctx = PublishResults { publisher: key(40) };
    assert_eq!(publish_results(&mut l, &ctx, during, 1, results(&good)).err(), Some(ErrorCode::VotingNotEnded));
    assert_eq!(
        publish_results(&mut l, &ctx, end() as i64, 1, results(&good)).err(),
        Some(ErrorCode::VotingNotEnded)
    );
    assert_eq!(
        publish_results(&mut l, &ctx, after, 1, results(&good[..2])).err(),
        Some(ErrorCode::InvalidTallyCount)
    );
    let e = publish_results(&mut l, &ctx, after, 1, results(&good)).unwrap();
    assert_eq!(e.poll_id, 1);
    assert_eq!(e.total_votes, 16);
    assert_eq!(e.results.len(), 3);
    assert_eq!(e.results[0].candidate_name, "A");
    assert_eq!(e.results[2].vote_count, 1);
    assert_eq!(l.tallies.len(), 1);
    assert_eq!(l.tallies[0].total_votes, 16);
    assert_eq!(l.tallies[0].results[1].candidate_name, "B");
    assert_eq!(
        publish_results(&mut l, &ctx, after, 1, results(&good)).err(),
        Some(ErrorCode::AlreadyExists)
    );
    assert_eq!(l.tallies.len(), 1);
}

#[test]
fn publish_for_missing_poll() {
    let mut l = ledger_with_poll();
    let r = publish_results(&mut l, &PublishResults { publisher: key(40) }, end() as i64 + 1, 7, results(&[("A", 1)]));
    assert_eq!(r.err(), Some(ErrorCode::AccountNotInitialized));
}

#[test]
fn total_votes_sums_counts() {
    assert_eq!(total_votes(&results(&[])), Some(0));
    assert_eq!(total_votes(&results(&[("A", 10), ("B", 5), ("C", 1)])), Some(16));
    assert_eq!(total_votes(&results(&[("A", u64::MAX - 1), ("B", 1)])), Some(u64::MAX));
    assert_eq!(total_votes(&results(&[("A", u64::MAX), ("B", 1)])), None);
}

#[test]
fn vote_long_ballot_rejected() {
    let mut l = ledger_with_poll();
    assert_eq!(cast(&mut l, 10, NOW + 100, 5, 151), Err(ErrorCode::InvalidEncryptedVote));
    assert_eq!(cast(&mut l, 10, NOW + 100, 5, 1000), Err(ErrorCode::InvalidEncryptedVote));
    assert!(l.ballots.is_empty());
    assert!(!l.voters[0].registry.has_voted);
    assert_eq!(cast(&mut l, 10, NOW + 100, 5, 150), Ok(()));
}

fn create_named(l: &mut Ledger, name: &str, description: &str, candidates: &[&str]) -> Result<u64, ErrorCode> {
    initialize_poll(
        l,
        &InitializePoll { admin: admin() },
        NOW,
        start(),
        end(),
        name.to_string(),
        description.to_string(),
        names(candidates),
        [9u8; 32],
    )
    .map(|e| e.poll_id)
}

#[test]
fn poll_field_lengths() {
    let mut l = ledger_with_counter();
    let n32 = "n".repeat(32);
    let n33 = "n".repeat(33);
    let d280 = "d".repeat(280);
    let d281 = "d".repeat(281);
    assert_eq!(create_named(&mut l, &n33, "d", &["A"]), Err(ErrorCode::FieldTooLong));
    assert_eq!(create_named(&mut l, "n", &d281, &["A"]), Err(ErrorCode::FieldTooLong));
    assert_eq!(create_named(&mut l, "n", "d", &["A", &n33]), Err(ErrorCode::FieldTooLong));
    assert!(l.polls.is_empty());
    assert_eq!(l.counter.unwrap().next_poll_id, 1);
    assert_eq!(create_named(&mut l, &n32, &d280, &["A", &n32]), Ok(1));
    // Lengths count characters, not bytes.
    let wide = "\u{e9}".repeat(32);
    assert_eq!(create_named(&mut l, &wide, "d", &[&wide]), Ok(2));
}

#[test]
fn publish_overflowing_tally_rejected() {
    let mut l = ledger_with_poll();
    let after = end() as i64 + 1;
    let ctx = PublishResults { publisher: key(40) };
    let big = [("A", u64::MAX), ("B", 1), ("C", 0)];
    assert_eq!(publish_results(&mut l, &ctx, after, 1, results(&big)).err(), Some(ErrorCode::TallyOverflow));
    assert!(l.tallies.is_empty());
    let max = [("A", u64::MAX - 1), ("B", 1), ("C", 0)];
    let e = publish_results(&mut l, &ctx, after, 1, results(&max)).unwrap();
    assert_eq!(e.total_votes, u64::MAX);
}

#[test]
fn publish_duplicate_overflowing_tally_is_already_exists() {
    let mut l = ledger_with_poll();
    let after = end() as i64 + 1;
    let ctx = PublishResults { publisher: key(40) };
    let good = [("A", 10), ("B", 5), ("C", 1)];
    assert!(publish_results(&mut l, &ctx, after, 1, results(&good)).is_ok());
    let big = [("A", u64::MAX), ("B", 1), ("C", 0)];
    assert_eq!(publish_results(&mut l, &ctx, after, 1, results(&big)).err(), Some(ErrorCode::AlreadyExists));
    assert_eq!(l.tallies.len(), 1);
    assert_eq!(l.tallies[0].total_votes, 16);
    assert_eq!(l.tallies[0].results[0].vote_count, 10);
}
