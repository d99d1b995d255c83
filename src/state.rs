//! Accounts, events and errors of the voting program, and the ledger that
//! holds the accounts, with its well-formedness invariant.
use vstd::prelude::*;

verus! {

/// Most candidates a poll may list.
pub const MAX_CANDIDATES: usize = 10;

/// Fewest bytes of an encrypted ballot: an ephemeral key (32), a nonce (24),
/// an authentication tag (16) and at least one byte of plaintext.
pub const MIN_ENCRYPTED_VOTE_LEN: usize = 73;

/// Most bytes of an encrypted ballot that a ballot account holds.
pub const MAX_ENCRYPTED_VOTE_LEN: usize = 150;

/// Most characters of a poll's name, and of each candidate's name.
pub const MAX_NAME_LEN: usize = 32;

/// Most characters of a poll's description.
pub const MAX_DESCRIPTION_LEN: usize = 280;

/// An authenticated identity on the ledger (an account's public key).
#[derive(Clone, Copy, Debug)]
pub struct Pubkey {
    pub bytes: [u8; 32],
}

impl View for Pubkey {
    type V = Seq<u8>;

    open spec fn view(&self) -> Seq<u8> {
        self.bytes@
    }
}

impl Pubkey {
    /// Whether two keys hold the same bytes.
    pub fn same_as(&self, other: &Pubkey) -> (r: bool)
        ensures
            r == (self@ == other@),
    {
        bytes_equal(&self.bytes, &other.bytes)
    }
}

/// Whether two 32-byte arrays are equal.
pub fn bytes_equal(a: &[u8; 32], b: &[u8; 32]) -> (r: bool)
    ensures
        r == (a@ == b@),
{
    let mut i: usize = 0;
    while i < 32
        invariant
            0 <= i <= 32,
            a@.len() == 32,
            b@.len() == 32,
            forall|j: int| 0 <= j < i ==> a@[j] == b@[j],
        decreases 32 - i,
    {
        if a[i] != b[i] {
            assert(a@[i as int] != b@[i as int]);
            return false;
        }
        i = i + 1;
    }
    assert(a@ =~= b@);
    true
}

/// The errors of the voting program. Each rejects the whole transition.
#[derive(Clone, Copy, Debug, PartialEq, Eq, Structural)]
pub enum ErrorCode {
    VotingNotStarted,
    VotingEnded,
    VoterNotRegistered,
    AlreadyVoted,
    TooManyCandidates,
    NoCandidates,
    InvalidStartTime,
    InvalidTimeRange,
    VotingNotEnded,
    InvalidTallyCount,
    InvalidEncryptedVote,
    /// The storage slot to be created is already occupied.
    AlreadyExists,
    /// The caller is not the poll's administrator.
    PermissionDenied,
    /// An account that the operation reads (the counter, a poll) was never created.
    AccountNotInitialized,
    /// A poll's name, description or a candidate's name is longer than its
    /// account holds.
    FieldTooLong,
    /// The poll counter is at its largest value and cannot hand out another id.
    PollCounterOverflow,
    /// The vote counts of a tally sum past the largest `u64`.
    TallyOverflow,
}

/// The caller of `initialize_counter`, who pays for the counter.
#[derive(Clone, Copy, Debug)]
pub struct InitializeCounter {
    pub admin: Pubkey,
}

/// The caller of `initialize_poll`, who becomes the poll's administrator.
#[derive(Clone, Copy, Debug)]
pub struct InitializePoll {
    pub admin: Pubkey,
}

/// The caller of `register_voter` and the voter being registered.
#[derive(Clone, Copy, Debug)]
pub struct RegisterVoter {
    pub admin: Pubkey,
    pub voter: Pubkey,
}

/// The voter casting a ballot.
#[derive(Clone, Copy, Debug)]
pub struct Vote {
    pub voter: Pubkey,
}

/// Whoever publishes a tally; anyone may.
#[derive(Clone, Copy, Debug)]
pub struct PublishResults {
    pub publisher: Pubkey,
}

/// One line of a tally.
#[derive(Clone, Debug)]
pub struct CandidateResult {
    pub candidate_name: String,
    pub vote_count: u64,
}

/// The singleton counter that hands out poll ids.
#[derive(Clone, Copy, Debug)]
pub struct GlobalPollCounter {
    pub next_poll_id: u64,
}

/// A poll's metadata, immutable once created.
#[derive(Clone, Debug)]
pub struct PollAccount {
    pub poll_id: u64,
    pub admin: Pubkey,
    pub poll_name: String,
    pub poll_description: String,
    pub poll_voting_start: u64,
    pub poll_voting_end: u64,
    pub candidates: Vec<String>,
    pub tallier_pubkey: [u8; 32],
}

/// Registration and vote status of one voter in one poll.
#[derive(Clone, Copy, Debug)]
pub struct VoterRegistry {
    pub registered: bool,
    pub has_voted: bool,
}

/// The slot of a voter record: the poll and the voter it is keyed by.
#[derive(Clone, Copy, Debug)]
pub struct VoterSlot {
    pub poll_id: u64,
    pub voter: Pubkey,
    pub registry: VoterRegistry,
}

/// An anonymous ballot, keyed by its poll and nullifier; it names no voter.
#[derive(Clone, Debug)]
pub struct VoteAccount {
    pub poll_id: u64,
    pub encrypted_vote: Vec<u8>,
    pub nullifier: [u8; 32],
}

/// The published tally of a poll.
#[derive(Clone, Debug)]
pub struct ResultsAccount {
    pub poll_id: u64,
    pub results: Vec<CandidateResult>,
    pub total_votes: u64,
}

/// Emitted when a poll is created.
#[derive(Clone, Debug)]
pub struct PollCreatedEvent {
    pub poll_id: u64,
    pub admin: Pubkey,
    pub name: String,
    pub description: String,
    pub candidates: Vec<String>,
    pub start_time: u64,
    pub end_time: u64,
}

/// Emitted when a voter is registered for a poll.
#[derive(Clone, Copy, Debug)]
pub struct VoterRegisteredEvent {
    pub poll_id: u64,
    pub voter: Pubkey,
}

/// Emitted when a ballot is cast. It names the voter, though the stored
/// ballot does not.
#[derive(Clone, Copy, Debug)]
pub struct VoteCastEvent {
    pub poll_id: u64,
    pub voter: Pubkey,
    pub timestamp: i64,
}

/// Emitted when a tally is published.
#[derive(Clone, Debug)]
pub struct ResultsPublishedEvent {
    pub poll_id: u64,
    pub results: Vec<CandidateResult>,
    pub total_votes: u64,
}

/// Sum of the vote counts of a tally.
pub open spec fn sum_votes(s: Seq<CandidateResult>) -> int
    decreases s.len(),
{
    if s.len() == 0 {
        0
    } else {
        sum_votes(s.drop_last()) + s.last().vote_count as int
    }
}

/// What every poll satisfies from its creation on.
pub open spec fn poll_valid(p: PollAccount) -> bool {
    &&& 1 <= p.candidates@.len() <= MAX_CANDIDATES
    &&& p.poll_voting_start < p.poll_voting_end
    &&& fields_fit(p.poll_name@, p.poll_description@, p.candidates@)
}

/// Whether a poll's name, description and candidate names fit their bounds.
pub open spec fn fields_fit(name: Seq<char>, description: Seq<char>, candidates: Seq<String>) -> bool {
    &&& name.len() <= MAX_NAME_LEN
    &&& description.len() <= MAX_DESCRIPTION_LEN
    &&& forall|i: int| 0 <= i < candidates.len() ==> (#[trigger] candidates[i])@.len() <= MAX_NAME_LEN
}

/// The storage of the program. Each collection stands for the slots of one
/// kind of account; a slot's key is its poll id and, for voter records and
/// ballots, the voter's key or the nullifier.
pub struct Ledger {
    pub counter: Option<GlobalPollCounter>,
    /// Polls in order of creation; the poll with id `k` is at index `k - 1`.
    pub polls: Vec<PollAccount>,
    pub voters: Vec<VoterSlot>,
    pub ballots: Vec<VoteAccount>,
    pub tallies: Vec<ResultsAccount>,
}

impl Ledger {
    /// The id that the next created poll gets.
    pub open spec fn next_id(self) -> int {
        self.polls@.len() + 1int
    }

    pub open spec fn poll_exists(self, poll_id: u64) -> bool {
        1 <= poll_id <= self.polls@.len()
    }

    pub open spec fn poll(self, poll_id: u64) -> PollAccount {
        self.polls@[poll_id - 1]
    }

    pub open spec fn voter_at(self, i: int, poll_id: u64, voter: Seq<u8>) -> bool {
        0 <= i < self.voters@.len() && self.voters@[i].poll_id == poll_id
            && self.voters@[i].voter@ == voter
    }

    /// Whether the voter record of `(poll_id, voter)` exists.
    pub open spec fn has_voter(self, poll_id: u64, voter: Seq<u8>) -> bool {
        exists|i: int| #[trigger] self.voter_at(i, poll_id, voter)
    }

    /// The position of the voter record of `(poll_id, voter)`, where it exists.
    pub open spec fn voter_index(self, poll_id: u64, voter: Seq<u8>) -> int {
        choose|i: int| #[trigger] self.voter_at(i, poll_id, voter)
    }

    pub open spec fn voter_record(self, poll_id: u64, voter: Seq<u8>) -> VoterRegistry {
        self.voters@[self.voter_index(poll_id, voter)].registry
    }

    pub open spec fn ballot_at(self, i: int, poll_id: u64, nullifier: Seq<u8>) -> bool {
        0 <= i < self.ballots@.len() && self.ballots@[i].poll_id == poll_id
            && self.ballots@[i].nullifier@ == nullifier
    }

    /// Whether a ballot of poll `poll_id` is stored under `nullifier`.
    pub open spec fn has_ballot(self, poll_id: u64, nullifier: Seq<u8>) -> bool {
        exists|i: int| #[trigger] self.ballot_at(i, poll_id, nullifier)
    }

    pub open spec fn tally_at(self, i: int, poll_id: u64) -> bool {
        0 <= i < self.tallies@.len() && self.tallies@[i].poll_id == poll_id
    }

    /// Whether the tally of poll `poll_id` was published.
    pub open spec fn has_tally(self, poll_id: u64) -> bool {
        exists|i: int| #[trigger] self.tally_at(i, poll_id)
    }

    /// The invariant of the storage.
    pub open spec fn wf(self) -> bool {
        &&& match self.counter {
            Some(c) => c.next_poll_id as int == self.next_id(),
            None => self.polls@.len() == 0,
        }
        &&& forall|i: int| 0 <= i < self.polls@.len()
            ==> (#[trigger] self.polls@[i]).poll_id == i + 1 && poll_valid(self.polls@[i])
        &&& forall|i: int, j: int|
            0 <= i < j < self.voters@.len() && #[trigger] self.voters@[i].poll_id
                == #[trigger] self.voters@[j].poll_id
                ==> self.voters@[i].voter@ != self.voters@[j].voter@
        &&& forall|i: int| 0 <= i < self.voters@.len()
            ==> (#[trigger] self.voters@[i]).registry.registered
                && self.poll_exists(self.voters@[i].poll_id)
        &&& forall|i: int, j: int|
            0 <= i < j < self.ballots@.len() && #[trigger] self.ballots@[i].poll_id
                == #[trigger] self.ballots@[j].poll_id
                ==> self.ballots@[i].nullifier@ != self.ballots@[j].nullifier@
        &&& forall|i: int| 0 <= i < self.ballots@.len()
            ==> self.poll_exists((#[trigger] self.ballots@[i]).poll_id)
        &&& forall|i: int, j: int|
            0 <= i < j < self.tallies@.len() ==> #[trigger] self.tallies@[i].poll_id
                != #[trigger] self.tallies@[j].poll_id
        &&& forall|i: int| 0 <= i < self.tallies@.len()
            ==> (#[trigger] self.tallies@[i]).total_votes == sum_votes(self.tallies@[i].results@)
                && self.poll_exists(self.tallies@[i].poll_id)
    }

    /// A ledger with no accounts.
    pub fn new() -> (r: Ledger)
        ensures
            r.wf(),
            r.counter is None,
            r.polls@.len() == 0,
            r.voters@.len() == 0,
            r.ballots@.len() == 0,
            r.tallies@.len() == 0,
    {
        Ledger {
            counter: None,
            polls: Vec::new(),
            voters: Vec::new(),
            ballots: Vec::new(),
            tallies: Vec::new(),
        }
    }
}

} // verus!
