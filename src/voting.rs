//! The five operations of the voting program. Each takes the authenticated
//! caller (its context) and, where time matters, the ledger clock `now`; on
//! success it commits its writes and returns the event it emits, on failure it
//! returns the error and leaves the ledger as it was.
use vstd::prelude::*;
use crate::laws::lemma_vote_twice_fails;
use crate::state::{
    bytes_equal, sum_votes, CandidateResult, ErrorCode, GlobalPollCounter, InitializeCounter,
    InitializePoll, Ledger, PollAccount, PollCreatedEvent, Pubkey, PublishResults, RegisterVoter,
    ResultsAccount, ResultsPublishedEvent, Vote, VoteAccount, VoteCastEvent, VoterRegisteredEvent,
    VoterRegistry, VoterSlot, fields_fit, MAX_CANDIDATES, MAX_DESCRIPTION_LEN, MAX_ENCRYPTED_VOTE_LEN,
    MAX_NAME_LEN, MIN_ENCRYPTED_VOTE_LEN,
};
use vstd::string::StrSliceExecFns;

verus! {

// ---------------------------------------------------------------------------
// What each operation decides, and what it writes.
// ---------------------------------------------------------------------------

/// The error of `initialize_poll`, checked in order; `None` where it succeeds.
pub open spec fn initialize_poll_error(
    l: Ledger,
    now: i64,
    start_time: u64,
    end_time: u64,
    name: Seq<char>,
    description: Seq<char>,
    candidates: Seq<String>,
) -> Option<ErrorCode> {
    if l.counter is None {
        Some(ErrorCode::AccountNotInitialized)
    } else if candidates.len() > MAX_CANDIDATES {
        Some(ErrorCode::TooManyCandidates)
    } else if candidates.len() == 0 {
        Some(ErrorCode::NoCandidates)
    } else if (start_time as int) < now as int {
        Some(ErrorCode::InvalidStartTime)
    } else if end_time <= start_time {
        Some(ErrorCode::InvalidTimeRange)
    } else if !fields_fit(name, description, candidates) {
        Some(ErrorCode::FieldTooLong)
    } else if l.next_id() >= u64::MAX {
        Some(ErrorCode::PollCounterOverflow)
    } else {
        None
    }
}

/// `new` is `old` with poll `p` created and the counter moved on by one.
pub open spec fn poll_created(old: Ledger, new: Ledger, p: PollAccount) -> bool {
    &&& new.polls@ == old.polls@.push(p)
    &&& new.counter == Some(GlobalPollCounter { next_poll_id: (old.next_id() + 1) as u64 })
    &&& new.voters == old.voters
    &&& new.ballots == old.ballots
    &&& new.tallies == old.tallies
}

/// The error of `register_voter`, checked in order; `None` where it succeeds.
pub open spec fn register_voter_error(
    l: Ledger,
    admin: Pubkey,
    poll_id: u64,
    voter: Pubkey,
) -> Option<ErrorCode> {
    if !l.poll_exists(poll_id) {
        Some(ErrorCode::AccountNotInitialized)
    } else if l.poll(poll_id).admin@ != admin@ {
        Some(ErrorCode::PermissionDenied)
    } else if l.has_voter(poll_id, voter@) {
        Some(ErrorCode::AlreadyExists)
    } else {
        None
    }
}

/// `new` is `old` with a fresh voter record for `(poll_id, voter)`.
pub open spec fn voter_registered(old: Ledger, new: Ledger, poll_id: u64, voter: Pubkey) -> bool {
    &&& new.voters@ == old.voters@.push(
        VoterSlot {
            poll_id,
            voter,
            registry: VoterRegistry { registered: true, has_voted: false },
        },
    )
    &&& new.counter == old.counter
    &&& new.polls == old.polls
    &&& new.ballots == old.ballots
    &&& new.tallies == old.tallies
}

/// The error of `vote`, checked in order; `None` where it succeeds.
pub open spec fn vote_error(
    l: Ledger,
    voter: Pubkey,
    poll_id: u64,
    nullifier: [u8; 32],
    vote_len: int,
    now: i64,
) -> Option<ErrorCode> {
    if !l.poll_exists(poll_id) {
        Some(ErrorCode::AccountNotInitialized)
    } else if (now as int) < l.poll(poll_id).poll_voting_start as int {
        Some(ErrorCode::VotingNotStarted)
    } else if (now as int) > l.poll(poll_id).poll_voting_end as int {
        Some(ErrorCode::VotingEnded)
    } else if !l.has_voter(poll_id, voter@) || !l.voter_record(poll_id, voter@).registered {
        Some(ErrorCode::VoterNotRegistered)
    } else if l.voter_record(poll_id, voter@).has_voted {
        Some(ErrorCode::AlreadyVoted)
    } else if vote_len < MIN_ENCRYPTED_VOTE_LEN || vote_len > MAX_ENCRYPTED_VOTE_LEN {
        Some(ErrorCode::InvalidEncryptedVote)
    } else if l.has_ballot(poll_id, nullifier@) {
        Some(ErrorCode::AlreadyExists)
    } else {
        None
    }
}

/// `new` is `old` with ballot `b` stored and the voter's record marked as voted.
pub open spec fn vote_cast(old: Ledger, new: Ledger, poll_id: u64, voter: Pubkey, b: VoteAccount) -> bool {
    let i = old.voter_index(poll_id, voter@);
    &&& new.voters@ == old.voters@.update(
        i,
        VoterSlot {
            poll_id: old.voters@[i].poll_id,
            voter: old.voters@[i].voter,
            registry: VoterRegistry { registered: true, has_voted: true },
        },
    )
    &&& new.ballots@ == old.ballots@.push(b)
    &&& new.counter == old.counter
    &&& new.polls == old.polls
    &&& new.tallies == old.tallies
}

/// The error of `publish_results`, checked in order; `None` where it succeeds.
pub open spec fn publish_results_error(
    l: Ledger,
    poll_id: u64,
    results: Seq<CandidateResult>,
    now: i64,
) -> Option<ErrorCode> {
    if !l.poll_exists(poll_id) {
        Some(ErrorCode::AccountNotInitialized)
    } else if now as int <= l.poll(poll_id).poll_voting_end as int {
        Some(ErrorCode::VotingNotEnded)
    } else if results.len() != l.poll(poll_id).candidates@.len() {
        Some(ErrorCode::InvalidTallyCount)
    } else if l.has_tally(poll_id) {
        Some(ErrorCode::AlreadyExists)
    } else if sum_votes(results) > u64::MAX {
        Some(ErrorCode::TallyOverflow)
    } else {
        None
    }
}

/// `new` is `old` with tally `t` stored.
pub open spec fn tally_published(old: Ledger, new: Ledger, t: ResultsAccount) -> bool {
    &&& new.tallies@ == old.tallies@.push(t)
    &&& new.counter == old.counter
    &&& new.polls == old.polls
    &&& new.voters == old.voters
    &&& new.ballots == old.ballots
}

// ---------------------------------------------------------------------------
// Helpers.
// ---------------------------------------------------------------------------

/// Whether the clock reads `t` or later.
fn reached(now: i64, t: u64) -> (r: bool)
    ensures
        r == (now as int >= t as int),
{
    now >= 0 && now as u64 >= t
}

/// Whether the clock reads later than `t`.
fn passed(now: i64, t: u64) -> (r: bool)
    ensures
        r == (now as int > t as int),
{
    now >= 0 && now as u64 > t
}

/// A copy of a list of strings.
fn copy_strings(v: &Vec<String>) -> (r: Vec<String>)
    ensures
        r@ == v@,
{
    let mut r: Vec<String> = Vec::new();
    let mut i: usize = 0;
    while i < v.len()
        invariant
            0 <= i <= v@.len(),
            r@ == v@.take(i as int),
        decreases v@.len() - i,
    {
        r.push(v[i].clone());
        i = i + 1;
        assert(r@ =~= v@.take(i as int));
    }
    assert(v@.take(v@.len() as int) =~= v@);
    r
}

/// A copy of a tally's lines.
fn copy_results(v: &Vec<CandidateResult>) -> (r: Vec<CandidateResult>)
    ensures
        r@ == v@,
{
    let mut r: Vec<CandidateResult> = Vec::new();
    let mut i: usize = 0;
    while i < v.len()
        invariant
            0 <= i <= v@.len(),
            r@ == v@.take(i as int),
        decreases v@.len() - i,
    {
        let line = CandidateResult {
            candidate_name: v[i].candidate_name.clone(),
            vote_count: v[i].vote_count,
        };
        r.push(line);
        i = i + 1;
        assert(r@ =~= v@.take(i as int));
    }
    assert(v@.take(v@.len() as int) =~= v@);
    r
}

/// A prefix of a tally counts no more votes than the whole.
proof fn lemma_sum_prefix_le(s: Seq<CandidateResult>, k: int)
    requires
        0 <= k <= s.len(),
    ensures
        sum_votes(s.take(k)) <= sum_votes(s),
    decreases s.len() - k,
{
    if k == s.len() {
        assert(s.take(k) =~= s);
    } else {
        lemma_sum_prefix_le(s, k + 1);
        assert(s.take(k + 1).drop_last() =~= s.take(k));
    }
}

/// The sum of the vote counts of `results`, or `None` where it exceeds the
/// largest `u64`.
pub fn total_votes(results: &Vec<CandidateResult>) -> (r: Option<u64>)
    ensures
        match r {
            Some(t) => t as int == sum_votes(results@),
            None => sum_votes(results@) > u64::MAX,
        },
{
    let mut total: u64 = 0;
    let mut i: usize = 0;
    while i < results.len()
        invariant
            0 <= i <= results@.len(),
            total as int == sum_votes(results@.take(i as int)),
        decreases results@.len() - i,
    {
        assert(results@.take(i + 1).drop_last() =~= results@.take(i as int));
        match total.checked_add(results[i].vote_count) {
            Some(t) => {
                total = t;
            },
            None => {
                proof {
                    lemma_sum_prefix_le(results@, i + 1);
                }
                return None;
            },
        }
        i = i + 1;
    }
    assert(results@.take(results@.len() as int) =~= results@);
    Some(total)
}

/// Whether a poll's name, description and candidate names fit their bounds.
fn fields_within_bounds(name: &String, description: &String, candidates: &Vec<String>) -> (r: bool)
    ensures
        r == fields_fit(name@, description@, candidates@),
{
    if name.as_str().unicode_len() > MAX_NAME_LEN {
        return false;
    }
    if description.as_str().unicode_len() > MAX_DESCRIPTION_LEN {
        return false;
    }
    let mut i: usize = 0;
    while i < candidates.len()
        invariant
            0 <= i <= candidates@.len(),
            name@.len() <= MAX_NAME_LEN,
            description@.len() <= MAX_DESCRIPTION_LEN,
            forall|j: int| 0 <= j < i ==> (#[trigger] candidates@[j])@.len() <= MAX_NAME_LEN,
        decreases candidates@.len() - i,
    {
        if candidates[i].as_str().unicode_len() > MAX_NAME_LEN {
            assert(candidates@[i as int]@.len() > MAX_NAME_LEN);
            return false;
        }
        i = i + 1;
    }
    true
}

impl Ledger {
    /// Where the record of `(poll_id, voter)` stands, if it exists.
    pub fn find_voter(&self, poll_id: u64, voter: &Pubkey) -> (r: Option<usize>)
        ensures
            match r {
                Some(i) => self.voter_at(i as int, poll_id, voter@),
                None => !self.has_voter(poll_id, voter@),
            },
    {
        let mut i: usize = 0;
        while i < self.voters.len()
            invariant
                0 <= i <= self.voters@.len(),
                forall|j: int| 0 <= j < i ==> !#[trigger] self.voter_at(j, poll_id, voter@),
            decreases self.voters@.len() - i,
        {
            if self.voters[i].poll_id == poll_id && self.voters[i].voter.same_as(voter) {
                return Some(i);
            }
            i = i + 1;
        }
        None
    }

    /// Whether a ballot of poll `poll_id` is stored under `nullifier`.
    pub fn ballot_exists(&self, poll_id: u64, nullifier: &[u8; 32]) -> (r: bool)
        ensures
            r == self.has_ballot(poll_id, nullifier@),
    {
        let mut i: usize = 0;
        while i < self.ballots.len()
            invariant
                0 <= i <= self.ballots@.len(),
                forall|j: int| 0 <= j < i ==> !#[trigger] self.ballot_at(j, poll_id, nullifier@),
            decreases self.ballots@.len() - i,
        {
            if self.ballots[i].poll_id == poll_id && bytes_equal(&self.ballots[i].nullifier, nullifier) {
                assert(self.ballot_at(i as int, poll_id, nullifier@));
                return true;
            }
            i = i + 1;
        }
        false
    }

    /// Whether the tally of poll `poll_id` was published.
    pub fn tally_exists(&self, poll_id: u64) -> (r: bool)
        ensures
            r == self.has_tally(poll_id),
    {
        let mut i: usize = 0;
        while i < self.tallies.len()
            invariant
                0 <= i <= self.tallies@.len(),
                forall|j: int| 0 <= j < i ==> !#[trigger] self.tally_at(j, poll_id),
            decreases self.tallies@.len() - i,
        {
            if self.tallies[i].poll_id == poll_id {
                assert(self.tally_at(i as int, poll_id));
                return true;
            }
            i = i + 1;
        }
        false
    }

    /// Where poll `poll_id` stands, if it was created.
    pub fn find_poll(&self, poll_id: u64) -> (r: Option<usize>)
        requires
            self.wf(),
        ensures
            match r {
                Some(i) => self.poll_exists(poll_id) && i == poll_id - 1,
                None => !self.poll_exists(poll_id),
            },
    {
        let mut i: usize = 0;
        while i < self.polls.len()
            invariant
                self.wf(),
                0 <= i <= self.polls@.len(),
                forall|j: int| 0 <= j < i ==> (#[trigger] self.polls@[j]).poll_id != poll_id,
            decreases self.polls@.len() - i,
        {
            if self.polls[i].poll_id == poll_id {
                return Some(i);
            }
            i = i + 1;
        }
        proof {
            if self.poll_exists(poll_id) {
                assert(self.polls@[poll_id - 1].poll_id == poll_id);
            }
        }
        None
    }
}

// ---------------------------------------------------------------------------
// The operations.
// ---------------------------------------------------------------------------

/// Creates the poll counter, with the next poll id 1. The counter is a
/// singleton: a second call fails with `AlreadyExists`.
pub fn initialize_counter(ledger: &mut Ledger, _ctx: &InitializeCounter) -> (r: Result<(), ErrorCode>)
    requires
        old(ledger).wf(),
    ensures
        final(ledger).wf(),
        match old(ledger).counter {
            Some(_) => r == Err::<(), ErrorCode>(ErrorCode::AlreadyExists) && *final(ledger)
                == *old(ledger),
            None => {
                &&& r is Ok
                &&& final(ledger).counter == Some(GlobalPollCounter { next_poll_id: 1 })
                &&& final(ledger).polls == old(ledger).polls
                &&& final(ledger).voters == old(ledger).voters
                &&& final(ledger).ballots == old(ledger).ballots
                &&& final(ledger).tallies == old(ledger).tallies
            },
        },
{
    if ledger.counter.is_some() {
        return Err(ErrorCode::AlreadyExists);
    }
    ledger.counter = Some(GlobalPollCounter { next_poll_id: 1 });
    Ok(())
}

/// Creates a poll administered by the caller, under the id that the counter
/// hands out, and moves the counter on by one. Fails, in this order, where the
/// counter does not exist (`AccountNotInitialized`), where there are more than
/// ten candidates or none, where the voting window starts before `now`, where
/// it does not end after it starts, where the name or a candidate's name is
/// longer than 32 characters or the description longer than 280
/// (`FieldTooLong`), or where the counter is at the largest `u64` and cannot
/// move on (`PollCounterOverflow`).
pub fn initialize_poll(
    ledger: &mut Ledger,
    ctx: &InitializePoll,
    now: i64,
    start_time: u64,
    end_time: u64,
    name: String,
    description: String,
    candidates: Vec<String>,
    tallier_pubkey: [u8; 32],
) -> (r: Result<PollCreatedEvent, ErrorCode>)
    requires
        old(ledger).wf(),
    ensures
        final(ledger).wf(),
        match initialize_poll_error(
            *old(ledger),
            now,
            start_time,
            end_time,
            name@,
            description@,
            candidates@,
        ) {
            Some(e) => r == Err::<PollCreatedEvent, ErrorCode>(e) && *final(ledger) == *old(ledger),
            None => {
                &&& r is Ok
                &&& poll_created(
                    *old(ledger),
                    *final(ledger),
                    (PollAccount {
                        poll_id: old(ledger).next_id() as u64,
                        admin: ctx.admin,
                        poll_name: name,
                        poll_description: description,
                        poll_voting_start: start_time,
                        poll_voting_end: end_time,
                        candidates,
                        tallier_pubkey,
                    }),
                )
                &&& r->Ok_0.poll_id == old(ledger).next_id()
                &&& r->Ok_0.admin == ctx.admin
                &&& r->Ok_0.name == name
                &&& r->Ok_0.description == description
                &&& r->Ok_0.candidates@ == candidates@
                &&& r->Ok_0.start_time == start_time
                &&& r->Ok_0.end_time == end_time
            },
        },
        r is Ok ==> {
            &&& 1 <= candidates@.len() <= MAX_CANDIDATES
            &&& start_time < end_time
            &&& now as int <= start_time as int
            &&& fields_fit(name@, description@, candidates@)
        },
{
    let next = match &ledger.counter {
        Some(c) => c.next_poll_id,
        None => {
            return Err(ErrorCode::AccountNotInitialized);
        },
    };
    if candidates.len() > MAX_CANDIDATES {
        return Err(ErrorCode::TooManyCandidates);
    }
    if candidates.len() == 0 {
        return Err(ErrorCode::NoCandidates);
    }
    if passed(now, start_time) {
        return Err(ErrorCode::InvalidStartTime);
    }
    if end_time <= start_time {
        return Err(ErrorCode::InvalidTimeRange);
    }
    if !fields_within_bounds(&name, &description, &candidates) {
        return Err(ErrorCode::FieldTooLong);
    }
    if next == u64::MAX {
        return Err(ErrorCode::PollCounterOverflow);
    }
    let event = PollCreatedEvent {
        poll_id: next,
        admin: ctx.admin,
        name: name.clone(),
        description: description.clone(),
        candidates: copy_strings(&candidates),
        start_time,
        end_time,
    };
    let poll = PollAccount {
        poll_id: next,
        admin: ctx.admin,
        poll_name: name,
        poll_description: description,
        poll_voting_start: start_time,
        poll_voting_end: end_time,
        candidates,
        tallier_pubkey,
    };
    ledger.polls.push(poll);
    ledger.counter = Some(GlobalPollCounter { next_poll_id: next + 1 });
    Ok(event)
}

/// Registers `ctx.voter` for poll `poll_id`. Only the poll's administrator may
/// do so. Fails, in this order, where the poll does not exist
/// (`AccountNotInitialized`), where the caller is not its administrator
/// (`PermissionDenied`), or where the voter is already registered for it
/// (`AlreadyExists`).
pub fn register_voter(ledger: &mut Ledger, ctx: &RegisterVoter, poll_id: u64) -> (r: Result<
    VoterRegisteredEvent,
    ErrorCode,
>)
    requires
        old(ledger).wf(),
    ensures
        final(ledger).wf(),
        match register_voter_error(*old(ledger), ctx.admin, poll_id, ctx.voter) {
            Some(e) => r == Err::<VoterRegisteredEvent, ErrorCode>(e) && *final(ledger) == *old(
                ledger,
            ),
            None => {
                &&& r == Ok::<VoterRegisteredEvent, ErrorCode>(
                    VoterRegisteredEvent { poll_id, voter: ctx.voter },
                )
                &&& voter_registered(*old(ledger), *final(ledger), poll_id, ctx.voter)
            },
        },
        r is Ok ==> {
            &&& final(ledger).has_voter(poll_id, ctx.voter@)
            &&& !final(ledger).voter_record(poll_id, ctx.voter@).has_voted
        },
{
    let idx = match ledger.find_poll(poll_id) {
        Some(i) => i,
        None => {
            return Err(ErrorCode::AccountNotInitialized);
        },
    };
    if !ledger.polls[idx].admin.same_as(&ctx.admin) {
        return Err(ErrorCode::PermissionDenied);
    }
    if ledger.find_voter(poll_id, &ctx.voter).is_some() {
        return Err(ErrorCode::AlreadyExists);
    }
    let slot = VoterSlot {
        poll_id,
        voter: ctx.voter,
        registry: VoterRegistry { registered: true, has_voted: false },
    };
    let ghost before = *ledger;
    ledger.voters.push(slot);
    proof {
        let l = *ledger;
        let n = before.voters@.len() as int;
        assert(l.voter_at(n, poll_id, ctx.voter@));
        let k = l.voter_index(poll_id, ctx.voter@);
        if k != n {
            assert(before.voter_at(k, poll_id, ctx.voter@));
        }
        assert forall|i: int, j: int|
            0 <= i < j < l.voters@.len() && #[trigger] l.voters@[i].poll_id
                == #[trigger] l.voters@[j].poll_id implies l.voters@[i].voter@
            != l.voters@[j].voter@ by {
            if j == l.voters@.len() - 1 {
                assert(!before.voter_at(i, poll_id, ctx.voter@));
            }
        }
    }
    Ok(VoterRegisteredEvent { poll_id, voter: ctx.voter })
}

/// Casts an anonymous ballot for poll `poll_id`: stores the encrypted ballot
/// under `nullifier` and marks the caller as having voted, both or neither.
/// Fails, in this order, where the poll does not exist, where `now` lies
/// before or after the voting window, where the caller is not registered or
/// has voted already, where the ballot is shorter than 73 bytes or longer than
/// 150 (`InvalidEncryptedVote`), or where the nullifier was used already in
/// this poll (`AlreadyExists`).
pub fn vote(
    ledger: &mut Ledger,
    ctx: &Vote,
    now: i64,
    poll_id: u64,
    nullifier: [u8; 32],
    encrypted_vote: Vec<u8>,
) -> (r: Result<VoteCastEvent, ErrorCode>)
    requires
        old(ledger).wf(),
    ensures
        final(ledger).wf(),
        match vote_error(*old(ledger), ctx.voter, poll_id, nullifier, encrypted_vote@.len() as int, now) {
            Some(e) => r == Err::<VoteCastEvent, ErrorCode>(e) && *final(ledger) == *old(ledger),
            None => {
                &&& r == Ok::<VoteCastEvent, ErrorCode>(
                    VoteCastEvent { poll_id, voter: ctx.voter, timestamp: now },
                )
                &&& vote_cast(
                    *old(ledger),
                    *final(ledger),
                    poll_id,
                    ctx.voter,
                    (VoteAccount { poll_id, encrypted_vote, nullifier }),
                )
            },
        },
        r is Ok ==> old(ledger).poll_exists(poll_id) && old(ledger).poll(
            poll_id,
        ).poll_voting_start as int <= now as int <= old(ledger).poll(poll_id).poll_voting_end as int,
        encrypted_vote@.len() < MIN_ENCRYPTED_VOTE_LEN || encrypted_vote@.len()
            > MAX_ENCRYPTED_VOTE_LEN ==> r is Err,
        r is Ok ==> {
            &&& !old(ledger).voter_record(poll_id, ctx.voter@).has_voted
            &&& final(ledger).has_voter(poll_id, ctx.voter@)
            &&& final(ledger).voter_record(poll_id, ctx.voter@).has_voted
            &&& final(ledger).has_ballot(poll_id, nullifier@)
        },
{
    let pidx = match ledger.find_poll(poll_id) {
        Some(i) => i,
        None => {
            return Err(ErrorCode::AccountNotInitialized);
        },
    };
    if !reached(now, ledger.polls[pidx].poll_voting_start) {
        return Err(ErrorCode::VotingNotStarted);
    }
    if passed(now, ledger.polls[pidx].poll_voting_end) {
        return Err(ErrorCode::VotingEnded);
    }
    let vidx = match ledger.find_voter(poll_id, &ctx.voter) {
        Some(i) => i,
        None => {
            return Err(ErrorCode::VoterNotRegistered);
        },
    };
    proof {
        let k = ledger.voter_index(poll_id, ctx.voter@);
        assert(ledger.voter_at(vidx as int, poll_id, ctx.voter@));
        assert(ledger.voter_at(k, poll_id, ctx.voter@));
        if k < vidx {
            assert(ledger.voters@[k].poll_id == ledger.voters@[vidx as int].poll_id);
        } else if vidx < k {
            assert(ledger.voters@[vidx as int].poll_id == ledger.voters@[k].poll_id);
        }
        assert(k == vidx);
    }
    let record = ledger.voters[vidx];
    if !record.registry.registered {
        return Err(ErrorCode::VoterNotRegistered);
    }
    if record.registry.has_voted {
        return Err(ErrorCode::AlreadyVoted);
    }
    if encrypted_vote.len() < MIN_ENCRYPTED_VOTE_LEN || encrypted_vote.len()
        > MAX_ENCRYPTED_VOTE_LEN {
        return Err(ErrorCode::InvalidEncryptedVote);
    }
    if ledger.ballot_exists(poll_id, &nullifier) {
        return Err(ErrorCode::AlreadyExists);
    }
    let ghost before = *ledger;
    let ghost stored = VoteAccount { poll_id, encrypted_vote, nullifier };
    let marked = VoterSlot {
        poll_id: record.poll_id,
        voter: record.voter,
        registry: VoterRegistry { registered: true, has_voted: true },
    };
    ledger.voters.set(vidx, marked);
    ledger.ballots.push(VoteAccount { poll_id, encrypted_vote, nullifier });
    proof {
        let l = *ledger;
        assert forall|i: int, j: int|
            0 <= i < j < l.voters@.len() && #[trigger] l.voters@[i].poll_id
                == #[trigger] l.voters@[j].poll_id implies l.voters@[i].voter@
            != l.voters@[j].voter@ by {
            assert(before.voters@[i].poll_id == before.voters@[j].poll_id);
        }
        assert forall|i: int, j: int|
            0 <= i < j < l.ballots@.len() && #[trigger] l.ballots@[i].poll_id
                == #[trigger] l.ballots@[j].poll_id implies l.ballots@[i].nullifier@
            != l.ballots@[j].nullifier@ by {
            if j == l.ballots@.len() - 1 {
                assert(!before.ballot_at(i, poll_id, nullifier@));
            }
        }
        assert(vote_cast(before, l, poll_id, ctx.voter, stored));
        lemma_vote_twice_fails(
            before,
            l,
            ctx.voter,
            poll_id,
            nullifier,
            stored.encrypted_vote@.len() as int,
            now,
            stored,
            nullifier,
            0,
            now,
        );
        assert(l.ballot_at(before.ballots@.len() as int, poll_id, nullifier@));
    }
    Ok(VoteCastEvent { poll_id, voter: ctx.voter, timestamp: now })
}

/// Publishes the tally of poll `poll_id`, as submitted; anyone may. Its total
/// is the sum of the per-candidate counts. Fails, in this order, where the poll
/// does not exist, where `now` is not past the end of its voting window
/// (`VotingNotEnded`), where the tally does not have one line per candidate
/// (`InvalidTallyCount`), where a tally of the poll was published already
/// (`AlreadyExists`), or where the counts sum past the largest `u64`
/// (`TallyOverflow`).
pub fn publish_results(
    ledger: &mut Ledger,
    _ctx: &PublishResults,
    now: i64,
    poll_id: u64,
    results: Vec<CandidateResult>,
) -> (r: Result<ResultsPublishedEvent, ErrorCode>)
    requires
        old(ledger).wf(),
    ensures
        final(ledger).wf(),
        match publish_results_error(*old(ledger), poll_id, results@, now) {
            Some(e) => r == Err::<ResultsPublishedEvent, ErrorCode>(e) && *final(ledger) == *old(
                ledger,
            ),
            None => {
                &&& r is Ok
                &&& tally_published(
                    *old(ledger),
                    *final(ledger),
                    (ResultsAccount {
                        poll_id,
                        results,
                        total_votes: sum_votes(results@) as u64,
                    }),
                )
                &&& r->Ok_0.poll_id == poll_id
                &&& r->Ok_0.results@ == results@
                &&& r->Ok_0.total_votes == sum_votes(results@)
            },
        },
        r is Ok ==> old(ledger).poll_exists(poll_id) && now as int > old(ledger).poll(
            poll_id,
        ).poll_voting_end as int && results@.len() == old(ledger).poll(poll_id).candidates@.len(),
{
    let pidx = match ledger.find_poll(poll_id) {
        Some(i) => i,
        None => {
            return Err(ErrorCode::AccountNotInitialized);
        },
    };
    if !passed(now, ledger.polls[pidx].poll_voting_end) {
        return Err(ErrorCode::VotingNotEnded);
    }
    if results.len() != ledger.polls[pidx].candidates.len() {
        return Err(ErrorCode::InvalidTallyCount);
    }
    if ledger.tally_exists(poll_id) {
        return Err(ErrorCode::AlreadyExists);
    }
    let total = match total_votes(&results) {
        Some(t) => t,
        None => {
            return Err(ErrorCode::TallyOverflow);
        },
    };
    let event = ResultsPublishedEvent { poll_id, results: copy_results(&results), total_votes: total };
    let ghost before = *ledger;
    ledger.tallies.push(ResultsAccount { poll_id, results, total_votes: total });
    proof {
        let l = *ledger;
        assert forall|i: int, j: int|
            0 <= i < j < l.tallies@.len() implies #[trigger] l.tallies@[i].poll_id
            != #[trigger] l.tallies@[j].poll_id by {
            if j == l.tallies@.len() - 1 {
                assert(!before.tally_at(i, poll_id));
            }
        }
    }
    Ok(event)
}

} // verus!
