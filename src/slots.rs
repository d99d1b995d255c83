//! Storage addressing: the seeds from which each account's address is
//! derived. An account's slot is determined by a tag for its kind, the poll id
//! (little-endian) and, for voter records and ballots, the voter's key or the
//! nullifier. Clients compute the same seeds to find an account.
use vstd::prelude::*;
use vstd::bytes::{lemma_auto_spec_u64_to_from_le_bytes, spec_u64_to_le_bytes, u64_to_le_bytes};

verus! {

/// The kinds of account, each with a tag of its own.
#[derive(Clone, Copy, Debug, PartialEq, Eq, Structural)]
pub enum AccountKind {
    Counter,
    Poll,
    Voter,
    Vote,
    Results,
}

/// The tag of each kind of account, as bytes.
pub open spec fn tag_of(kind: AccountKind) -> Seq<u8> {
    match kind {
        // "global_counter"
        AccountKind::Counter => seq![
            103u8, 108u8, 111u8, 98u8, 97u8, 108u8, 95u8, 99u8, 111u8, 117u8, 110u8, 116u8, 101u8,
            114u8,
        ],
        // "poll"
        AccountKind::Poll => seq![112u8, 111u8, 108u8, 108u8],
        // "voter"
        AccountKind::Voter => seq![118u8, 111u8, 116u8, 101u8, 114u8],
        // "vote"
        AccountKind::Vote => seq![118u8, 111u8, 116u8, 101u8],
        // "results"
        AccountKind::Results => seq![114u8, 101u8, 115u8, 117u8, 108u8, 116u8, 115u8],
    }
}

/// The seeds of an account: its tag, then the poll id for all but the
/// counter, then the 32-byte secondary key for voter records and ballots.
pub open spec fn slot_seeds(kind: AccountKind, poll_id: u64, secondary: Seq<u8>) -> Seq<Seq<u8>> {
    match kind {
        AccountKind::Counter => seq![tag_of(kind)],
        AccountKind::Poll | AccountKind::Results => seq![tag_of(kind), spec_u64_to_le_bytes(poll_id)],
        AccountKind::Voter | AccountKind::Vote => seq![
            tag_of(kind),
            spec_u64_to_le_bytes(poll_id),
            secondary,
        ],
    }
}

/// Whether two sets of slot arguments name the same account: the same kind,
/// and, where the kind uses them, the same poll id and secondary key.
pub open spec fn same_slot(
    kind1: AccountKind,
    poll_id1: u64,
    secondary1: Seq<u8>,
    kind2: AccountKind,
    poll_id2: u64,
    secondary2: Seq<u8>,
) -> bool {
    &&& kind1 == kind2
    &&& kind1 != AccountKind::Counter ==> poll_id1 == poll_id2
    &&& (kind1 == AccountKind::Voter || kind1 == AccountKind::Vote) ==> secondary1 == secondary2
}

/// The tag of `kind`.
pub fn tag(kind: AccountKind) -> (r: Vec<u8>)
    ensures
        r@ == tag_of(kind),
{
    let r = match kind {
        AccountKind::Counter => vec![
            103u8, 108u8, 111u8, 98u8, 97u8, 108u8, 95u8, 99u8, 111u8, 117u8, 110u8, 116u8, 101u8,
            114u8,
        ],
        AccountKind::Poll => vec![112u8, 111u8, 108u8, 108u8],
        AccountKind::Voter => vec![118u8, 111u8, 116u8, 101u8, 114u8],
        AccountKind::Vote => vec![118u8, 111u8, 116u8, 101u8],
        AccountKind::Results => vec![114u8, 101u8, 115u8, 117u8, 108u8, 116u8, 115u8],
    };
    assert(r@ =~= tag_of(kind));
    r
}

/// The seeds of the account of `kind` for `poll_id` and `secondary` (a
/// voter's key or a nullifier; unused by the other kinds).
pub fn seeds(kind: AccountKind, poll_id: u64, secondary: &[u8; 32]) -> (r: Vec<Vec<u8>>)
    ensures
        r@.len() == slot_seeds(kind, poll_id, secondary@).len(),
        forall|i: int| 0 <= i < r@.len() ==> (#[trigger] r@[i])@ == slot_seeds(kind, poll_id, secondary@)[i],
{
    let mut r: Vec<Vec<u8>> = Vec::new();
    r.push(tag(kind));
    match kind {
        AccountKind::Counter => {},
        AccountKind::Poll | AccountKind::Results => {
            r.push(u64_to_le_bytes(poll_id));
        },
        AccountKind::Voter | AccountKind::Vote => {
            r.push(u64_to_le_bytes(poll_id));
            let mut s: Vec<u8> = Vec::new();
            let mut i: usize = 0;
            while i < 32
                invariant
                    0 <= i <= 32,
                    secondary@.len() == 32,
                    s@ == secondary@.take(i as int),
                decreases 32 - i,
            {
                s.push(secondary[i]);
                i = i + 1;
                assert(s@ =~= secondary@.take(i as int));
            }
            assert(secondary@.take(32) =~= secondary@);
            r.push(s);
        },
    }
    r
}

/// Slot derivation is collision-free: two sets of arguments give the same
/// seeds only where they name the same account.
pub proof fn lemma_seeds_injective(
    kind1: AccountKind,
    poll_id1: u64,
    secondary1: Seq<u8>,
    kind2: AccountKind,
    poll_id2: u64,
    secondary2: Seq<u8>,
)
    ensures
        slot_seeds(kind1, poll_id1, secondary1) == slot_seeds(kind2, poll_id2, secondary2)
            <==> same_slot(kind1, poll_id1, secondary1, kind2, poll_id2, secondary2),
{
    lemma_auto_spec_u64_to_from_le_bytes();
    let s1 = slot_seeds(kind1, poll_id1, secondary1);
    let s2 = slot_seeds(kind2, poll_id2, secondary2);
    if s1 == s2 {
        assert(s1.len() == s2.len());
        assert(s1[0] == s2[0]);
        let t1 = tag_of(kind1);
        let t2 = tag_of(kind2);
        assert(t1 == t2);
        if kind1 != kind2 {
            assert(t1.len() != t2.len() || t1[0] != t2[0]);
        }
        if kind1 != AccountKind::Counter {
            assert(s1[1] == s2[1]);
        }
        if kind1 == AccountKind::Voter || kind1 == AccountKind::Vote {
            assert(s1[2] == s2[2]);
        }
    } else if same_slot(kind1, poll_id1, secondary1, kind2, poll_id2, secondary2) {
        assert(s1 =~= s2);
    }
}

} // verus!
