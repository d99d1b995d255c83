//! Properties of the voting program over all ledgers and over sequences of
//! operations, proved from the operations' contracts and the ledger invariant.
use vstd::prelude::*;
use crate::state::{
    poll_valid, sum_votes, CandidateResult, ErrorCode, GlobalPollCounter, Ledger, PollAccount, Pubkey, ResultsAccount, VoteAccount,
    MAX_ENCRYPTED_VOTE_LEN, MIN_ENCRYPTED_VOTE_LEN,
};
use crate::voting::{
    initialize_poll_error, poll_created,
    publish_results_error, register_voter_error, tally_published, vote_cast, vote_error,
    voter_registered,
};

verus! {

/// Every created poll lists between one and ten candidates and has a voting
/// window that ends after it starts.
pub proof fn lemma_polls_valid(l: Ledger)
    requires
        l.wf(),
    ensures
        forall|i: int| 0 <= i < l.polls@.len() ==> poll_valid(#[trigger] l.polls@[i]),
{
}

/// Poll ids are handed out as 1, 2, 3, ... in order of creation, with no gap
/// and no repeat, and the counter holds the id of the next poll.
pub proof fn lemma_poll_ids_sequential(l: Ledger)
    requires
        l.wf(),
    ensures
        forall|i: int| 0 <= i < l.polls@.len() ==> (#[trigger] l.polls@[i]).poll_id == i + 1,
        forall|i: int, j: int|
            0 <= i < j < l.polls@.len() ==> #[trigger] l.polls@[i].poll_id
                < #[trigger] l.polls@[j].poll_id,
        l.counter matches Some(c) ==> c.next_poll_id == l.polls@.len() + 1,
{
    assert forall|i: int, j: int|
        0 <= i < j < l.polls@.len() implies #[trigger] l.polls@[i].poll_id
        < #[trigger] l.polls@[j].poll_id by {
        assert(l.polls@[i].poll_id == i + 1);
        assert(l.polls@[j].poll_id == j + 1);
    }
}

/// Each poll creation takes the counter's id, which is one more than the
/// number of polls created before it, and leaves the counter one higher: the
/// `j`-th poll ever created gets id `j`. The other operations leave the polls
/// and the counter as they are.
pub proof fn lemma_creation_takes_next_id(
    l0: Ledger,
    l1: Ledger,
    now: i64,
    start_time: u64,
    end_time: u64,
    name: Seq<char>,
    description: Seq<char>,
    candidates: Seq<String>,
    p: PollAccount,
)
    requires
        l0.wf(),
        initialize_poll_error(l0, now, start_time, end_time, name, description, candidates) is None,
        poll_created(l0, l1, p),
        p.poll_id == l0.next_id(),
    ensures
        l0.counter == Some(GlobalPollCounter { next_poll_id: p.poll_id }),
        p.poll_id == l0.polls@.len() + 1,
        l1.polls@.len() == p.poll_id,
        l1.polls@.last() == p,
        l1.counter == Some(GlobalPollCounter { next_poll_id: (p.poll_id + 1) as u64 }),
        p.poll_id < u64::MAX,
        forall|i: int| 0 <= i < l0.polls@.len() ==> (#[trigger] l0.polls@[i]).poll_id < p.poll_id,
{
}

/// No two voter records share a poll and a voter.
pub proof fn lemma_voter_records_unique(l: Ledger)
    requires
        l.wf(),
    ensures
        forall|i: int, j: int|
            0 <= i < l.voters@.len() && 0 <= j < l.voters@.len() && i != j
                && #[trigger] l.voters@[i].poll_id == #[trigger] l.voters@[j].poll_id
                ==> l.voters@[i].voter@ != l.voters@[j].voter@,
{
    assert forall|i: int, j: int|
        0 <= i < l.voters@.len() && 0 <= j < l.voters@.len() && i != j
            && #[trigger] l.voters@[i].poll_id == #[trigger] l.voters@[j].poll_id implies
        l.voters@[i].voter@ != l.voters@[j].voter@ by {
        if j < i {
            assert(l.voters@[j].poll_id == l.voters@[i].poll_id);
        }
    }
}

/// Once a voter is registered for a poll, registering the same voter for the
/// same poll again fails with `AlreadyExists`.
pub proof fn lemma_register_twice_fails(
    l0: Ledger,
    l1: Ledger,
    admin: Pubkey,
    poll_id: u64,
    voter: Pubkey,
)
    requires
        l0.wf(),
        register_voter_error(l0, admin, poll_id, voter) is None,
        voter_registered(l0, l1, poll_id, voter),
    ensures
        register_voter_error(l1, admin, poll_id, voter) == Some(ErrorCode::AlreadyExists),
{
    assert(l1.voter_at(l0.voters@.len() as int, poll_id, voter@));
}

/// A vote flips its voter's `has_voted` from false to true, and any later vote
/// by that voter in that poll within the voting window fails with
/// `AlreadyVoted`, whatever its nullifier and ballot.
pub proof fn lemma_vote_twice_fails(
    l0: Ledger,
    l1: Ledger,
    voter: Pubkey,
    poll_id: u64,
    nullifier: [u8; 32],
    vote_len: int,
    now: i64,
    ballot: VoteAccount,
    nullifier2: [u8; 32],
    vote_len2: int,
    now2: i64,
)
    requires
        l0.wf(),
        vote_error(l0, voter, poll_id, nullifier, vote_len, now) is None,
        vote_cast(l0, l1, poll_id, voter, ballot),
        l0.poll(poll_id).poll_voting_start as int <= now2 as int <= l0.poll(
            poll_id,
        ).poll_voting_end as int,
    ensures
        !l0.voter_record(poll_id, voter@).has_voted,
        l1.has_voter(poll_id, voter@),
        l1.voter_record(poll_id, voter@).has_voted,
        vote_error(l1, voter, poll_id, nullifier2, vote_len2, now2) == Some(ErrorCode::AlreadyVoted),
{
    let i = l0.voter_index(poll_id, voter@);
    assert(l0.voter_at(i, poll_id, voter@));
    assert(l1.voter_at(i, poll_id, voter@));
    let k = l1.voter_index(poll_id, voter@);
    assert(l1.voter_at(k, poll_id, voter@));
    assert(l0.voter_at(k, poll_id, voter@));
    if k < i {
        assert(l0.voters@[k].poll_id == l0.voters@[i].poll_id);
    } else if i < k {
        assert(l0.voters@[i].poll_id == l0.voters@[k].poll_id);
    }
    assert(k == i);
}

/// No ballot is accepted when the clock lies outside the poll's voting window.
pub proof fn lemma_vote_outside_window_fails(
    l: Ledger,
    voter: Pubkey,
    poll_id: u64,
    nullifier: [u8; 32],
    vote_len: int,
    now: i64,
)
    requires
        l.poll_exists(poll_id),
        (now as int) < l.poll(poll_id).poll_voting_start as int || now as int > l.poll(
            poll_id,
        ).poll_voting_end as int,
    ensures
        vote_error(l, voter, poll_id, nullifier, vote_len, now) is Some,
{
}

/// A ballot shorter than 73 bytes, or longer than 150, is always rejected;
/// where a ballot of some length would be accepted, one of exactly 73 bytes is
/// accepted too.
pub proof fn lemma_ballot_length(
    l: Ledger,
    voter: Pubkey,
    poll_id: u64,
    nullifier: [u8; 32],
    vote_len: int,
    now: i64,
)
    ensures
        vote_len < MIN_ENCRYPTED_VOTE_LEN || vote_len > MAX_ENCRYPTED_VOTE_LEN ==> vote_error(
            l,
            voter,
            poll_id,
            nullifier,
            vote_len,
            now,
        ) is Some,
        vote_error(l, voter, poll_id, nullifier, vote_len, now) is None ==> vote_error(
            l,
            voter,
            poll_id,
            nullifier,
            MIN_ENCRYPTED_VOTE_LEN as int,
            now,
        ) is None,
{
}

/// No two ballots of one poll share a nullifier.
pub proof fn lemma_nullifiers_unique(l: Ledger)
    requires
        l.wf(),
    ensures
        forall|i: int, j: int|
            0 <= i < l.ballots@.len() && 0 <= j < l.ballots@.len() && i != j
                && #[trigger] l.ballots@[i].poll_id == #[trigger] l.ballots@[j].poll_id
                ==> l.ballots@[i].nullifier@ != l.ballots@[j].nullifier@,
{
    assert forall|i: int, j: int|
        0 <= i < l.ballots@.len() && 0 <= j < l.ballots@.len() && i != j
            && #[trigger] l.ballots@[i].poll_id == #[trigger] l.ballots@[j].poll_id implies
        l.ballots@[i].nullifier@ != l.ballots@[j].nullifier@ by {
        if j < i {
            assert(l.ballots@[j].poll_id == l.ballots@[i].poll_id);
        }
    }
}

/// Once a ballot is stored under a nullifier, no vote of any voter in the same
/// poll that reuses that nullifier is accepted.
pub proof fn lemma_nullifier_reuse_fails(
    l0: Ledger,
    l1: Ledger,
    voter: Pubkey,
    poll_id: u64,
    nullifier: [u8; 32],
    vote_len: int,
    now: i64,
    ballot: VoteAccount,
    voter2: Pubkey,
    vote_len2: int,
    now2: i64,
)
    requires
        l0.wf(),
        vote_error(l0, voter, poll_id, nullifier, vote_len, now) is None,
        vote_cast(l0, l1, poll_id, voter, ballot),
        ballot.poll_id == poll_id,
        ballot.nullifier == nullifier,
    ensures
        l1.has_ballot(poll_id, nullifier@),
        vote_error(l1, voter2, poll_id, nullifier, vote_len2, now2) is Some,
{
    assert(l1.ballot_at(l0.ballots@.len() as int, poll_id, nullifier@));
}

/// Every published tally's total is the sum of its per-candidate counts.
pub proof fn lemma_tally_totals(l: Ledger)
    requires
        l.wf(),
    ensures
        forall|i: int|
            0 <= i < l.tallies@.len() ==> (#[trigger] l.tallies@[i]).total_votes == sum_votes(
                l.tallies@[i].results@,
            ),
{
}

/// A poll has at most one tally: no two stored tallies share a poll, and once
/// one is published for a poll every later attempt for it fails, with
/// `AlreadyExists` once the window has ended and the tally has one line per
/// candidate.
pub proof fn lemma_one_tally_per_poll(
    l0: Ledger,
    l1: Ledger,
    poll_id: u64,
    results: Seq<CandidateResult>,
    now: i64,
    tally: ResultsAccount,
    results2: Seq<CandidateResult>,
    now2: i64,
)
    requires
        l0.wf(),
        publish_results_error(l0, poll_id, results, now) is None,
        tally_published(l0, l1, tally),
        tally.poll_id == poll_id,
    ensures
        forall|i: int, j: int|
            0 <= i < l1.tallies@.len() && 0 <= j < l1.tallies@.len() && i != j
                ==> #[trigger] l1.tallies@[i].poll_id != #[trigger] l1.tallies@[j].poll_id,
        publish_results_error(l1, poll_id, results2, now2) is Some,
        now2 as int > l1.poll(poll_id).poll_voting_end as int && results2.len() == l1.poll(
            poll_id,
        ).candidates@.len() ==> publish_results_error(l1, poll_id, results2, now2) == Some(
            ErrorCode::AlreadyExists,
        ),
{
    assert(l1.tally_at(l0.tallies@.len() as int, poll_id));
    let n = l0.tallies@.len() as int;
    assert forall|i: int, j: int|
        0 <= i < l1.tallies@.len() && 0 <= j < l1.tallies@.len() && i != j implies
        #[trigger] l1.tallies@[i].poll_id != #[trigger] l1.tallies@[j].poll_id by {
        if i == n {
            assert(!l0.tally_at(j, poll_id));
        } else if j == n {
            assert(!l0.tally_at(i, poll_id));
        } else if j < i {
            assert(l0.tallies@[j].poll_id != l0.tallies@[i].poll_id);
        } else {
            assert(l0.tallies@[i].poll_id != l0.tallies@[j].poll_id);
        }
    }
}

} // verus!
