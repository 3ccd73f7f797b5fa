//! Nearest-match search over a conversation's corpus.
//!
//! A query fingerprint is compared against every entry of one
//! conversation (optionally excluding a given message) by Hamming
//! distance, and the entry at minimum distance is selected.  Ties are
//! broken towards the earliest-inserted entry, anchoring duplicate
//! chains to their original source.  An optional hard threshold turns
//! the search into the automatic duplicate test.

use vstd::prelude::*;
use crate::corpus::{Corpus, EntryModel};
use crate::distance::{hamming, hamming_distance};

verus! {

/// The outcome of a search: the closest entry's message and its
/// distance from the query.
#[derive(Debug, Clone, Copy, PartialEq, Eq, Structural)]
pub struct SearchMatch {
    pub message_id: i32,
    pub distance: u32,
}

/// Whether `m` competes in a search scoped to `conversation_id` with
/// the given exclusion.
pub open spec fn scoped(m: EntryModel, conversation_id: i64, exclude: Option<i32>) -> bool {
    m.conversation_id == conversation_id && match exclude {
        Some(x) => m.message_id != x,
        None => true,
    }
}

/// The reference selection: the index and distance of the in-scope
/// entry closest to `query`, ties broken towards the lowest index
/// (the earliest-inserted entry).  `None` when nothing is in scope.
pub open spec fn best_idx(
    s: Seq<EntryModel>,
    conversation_id: i64,
    query: i64,
    exclude: Option<i32>,
) -> Option<(int, nat)>
    decreases s.len(),
{
    if s.len() == 0 {
        None
    } else {
        let prev = best_idx(s.drop_last(), conversation_id, query, exclude);
        let i = s.len() - 1;
        if !scoped(s[i], conversation_id, exclude) {
            prev
        } else {
            let d = hamming(query, s[i].fingerprint);
            match prev {
                None => Some((i, d)),
                Some(p) => if d < p.1 {
                    Some((i, d))
                } else {
                    prev
                },
            }
        }
    }
}

/// `d` is the least Hamming distance from the query among the in-scope
/// entries, and it is attained.
pub open spec fn is_min_scoped_distance(
    s: Seq<EntryModel>,
    conversation_id: i64,
    query: i64,
    exclude: Option<i32>,
    d: nat,
) -> bool {
    &&& exists|j: int|
        0 <= j < s.len() && scoped(#[trigger] s[j], conversation_id, exclude) && hamming(
            query,
            s[j].fingerprint,
        ) == d
    &&& forall|j: int|
        0 <= j < s.len() && scoped(#[trigger] s[j], conversation_id, exclude) ==> hamming(
            query,
            s[j].fingerprint,
        ) >= d
}

/// What the reference selection picks: an in-scope entry at the true
/// minimum distance, and the earliest one among those that attain it.
proof fn lemma_best_idx_characterises(
    s: Seq<EntryModel>,
    conversation_id: i64,
    query: i64,
    exclude: Option<i32>,
)
    ensures
        match best_idx(s, conversation_id, query, exclude) {
            None => forall|j: int|
                0 <= j < s.len() ==> !scoped(#[trigger] s[j], conversation_id, exclude),
            Some(p) => {
                &&& 0 <= p.0 < s.len()
                &&& scoped(s[p.0], conversation_id, exclude)
                &&& p.1 == hamming(query, s[p.0].fingerprint)
                &&& forall|j: int|
                    0 <= j < s.len() && scoped(#[trigger] s[j], conversation_id, exclude)
                        ==> hamming(query, s[j].fingerprint) >= p.1
                &&& forall|j: int|
                    0 <= j < p.0 && scoped(#[trigger] s[j], conversation_id, exclude) ==> hamming(
                        query,
                        s[j].fingerprint,
                    ) > p.1
            },
        },
    decreases s.len(),
{
    if s.len() > 0 {
        lemma_best_idx_characterises(s.drop_last(), conversation_id, query, exclude);
        assert(forall|j: int| 0 <= j < s.len() - 1 ==> s.drop_last()[j] == s[j]);
    }
}

impl Corpus {
    /// Scans the conversation's entries for the one whose fingerprint
    /// lies at minimum Hamming distance from `query`.  The entry with
    /// message id `exclude_message_id` (if any) does not compete.  With
    /// a `max_distance`, matches beyond it are suppressed; without one,
    /// the closest entry is always reported when anything is in scope.
    pub fn find_closest(
        &self,
        conversation_id: i64,
        query: i64,
        exclude_message_id: Option<i32>,
        max_distance: Option<u32>,
    ) -> (r: Option<SearchMatch>)
        ensures
            match best_idx(self@, conversation_id, query, exclude_message_id) {
                None => r is None,
                Some(p) => match max_distance {
                    Some(t) => if p.1 > t {
                        r is None
                    } else {
                        r matches Some(m) && m.distance == p.1 && m.message_id
                            == self@[p.0].message_id
                    },
                    None => r matches Some(m) && m.distance == p.1 && m.message_id
                        == self@[p.0].message_id,
                },
            },
    {
        let n = self.len();
        let mut best: Option<SearchMatch> = None;
        let ghost mut best_at: int = 0;
        let mut idx: usize = 0;
        while idx < n
            invariant
                n == self@.len(),
                idx <= n,
                match best_idx(self@.take(idx as int), conversation_id, query, exclude_message_id) {
                    None => best is None,
                    Some(p) => {
                        &&& best matches Some(m) && m.distance == p.1 && m.message_id
                            == self@[p.0].message_id
                        &&& best_at == p.0
                        &&& 0 <= p.0 < idx
                    },
                },
            decreases n - idx,
        {
            let e = self.entry_at(idx);
            let in_scope = e.conversation_id == conversation_id && (match exclude_message_id {
                Some(x) => e.message_id != x,
                None => true,
            });
            proof {
                assert(self@.take(idx + 1).drop_last() =~= self@.take(idx as int));
                assert(self@.take(idx + 1).last() == self@[idx as int]);
                assert(in_scope == scoped(self@[idx as int], conversation_id, exclude_message_id));
            }
            if in_scope {
                let d = hamming_distance(query, e.fingerprint);
                let replace = match &best {
                    None => true,
                    Some(m) => d < m.distance,
                };
                if replace {
                    best = Some(SearchMatch { message_id: e.message_id, distance: d });
                    proof {
                        best_at = idx as int;
                    }
                }
            }
            idx = idx + 1;
        }
        proof {
            assert(self@.take(n as int) =~= self@);
        }
        match best {
            Some(m) => match max_distance {
                Some(t) => if m.distance <= t {
                    Some(m)
                } else {
                    None
                },
                None => Some(m),
            },
            None => None,
        }
    }
}

/// Threshold correctness: whenever the selection reports a distance, it
/// is the true minimum over the in-scope entries, and it reports one
/// exactly when an in-scope entry exists.  Together with the contract
/// of `find_closest`, a thresholded search returns a match if and only
/// if the true minimum lies within the threshold, and then reports that
/// minimum.
pub proof fn lemma_threshold_correctness(
    s: Seq<EntryModel>,
    conversation_id: i64,
    query: i64,
    exclude: Option<i32>,
)
    ensures
        match best_idx(s, conversation_id, query, exclude) {
            None => forall|j: int|
                0 <= j < s.len() ==> !scoped(#[trigger] s[j], conversation_id, exclude),
            Some(p) => is_min_scoped_distance(s, conversation_id, query, exclude, p.1),
        },
{
    lemma_best_idx_characterises(s, conversation_id, query, exclude);
}

/// Tie-break determinism: every in-scope entry placed before the
/// selected one lies strictly further from the query, so among entries
/// tying for the minimum the earliest-inserted always wins.  The
/// selection is a function of the corpus and the query, so repeated
/// queries agree.
pub proof fn lemma_tie_break_earliest(
    s: Seq<EntryModel>,
    conversation_id: i64,
    query: i64,
    exclude: Option<i32>,
)
    ensures
        match best_idx(s, conversation_id, query, exclude) {
            None => true,
            Some(p) => forall|j: int|
                0 <= j < p.0 && scoped(#[trigger] s[j], conversation_id, exclude) ==> hamming(
                    query,
                    s[j].fingerprint,
                ) > p.1,
        },
{
    lemma_best_idx_characterises(s, conversation_id, query, exclude);
}

/// Conversation isolation: appending an entry of a different
/// conversation leaves every search scoped to `conversation_id`
/// unchanged.  The corpus is append-only, so entries of one
/// conversation never affect another's results.
pub proof fn lemma_conversation_isolation(
    s: Seq<EntryModel>,
    other: EntryModel,
    conversation_id: i64,
    query: i64,
    exclude: Option<i32>,
)
    requires
        other.conversation_id != conversation_id,
    ensures
        best_idx(s.push(other), conversation_id, query, exclude) == best_idx(
            s,
            conversation_id,
            query,
            exclude,
        ),
{
    assert(s.push(other).drop_last() =~= s);
    assert(s.push(other).last() == other);
}

} // verus!
