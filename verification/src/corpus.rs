//! The per-conversation fingerprint corpus.
//!
//! The corpus is an append-only record of `(conversation_id, message_id,
//! fingerprint, label)` entries, kept in insertion order.  An entry is
//! logically keyed by `(conversation_id, message_id)`: a second insert
//! under an existing key is rejected with a conflict and leaves the
//! corpus unchanged.  Entries are never updated or removed.

use vstd::prelude::*;

verus! {

/// Mathematical model of one corpus entry.
pub ghost struct EntryModel {
    pub conversation_id: i64,
    pub message_id: i32,
    pub fingerprint: i64,
    pub label: Seq<char>,
}

/// One record of the corpus: which conversation saw the image, the
/// message that introduced it, its 64-bit fingerprint, and the
/// conversation's human-readable label (diagnostics only, never used
/// for matching).
pub struct CorpusEntry {
    pub conversation_id: i64,
    pub message_id: i32,
    pub fingerprint: i64,
    pub label: String,
}

impl View for CorpusEntry {
    type V = EntryModel;

    open spec fn view(&self) -> EntryModel {
        EntryModel {
            conversation_id: self.conversation_id,
            message_id: self.message_id,
            fingerprint: self.fingerprint,
            label: self.label@,
        }
    }
}

impl Clone for CorpusEntry {
    fn clone(&self) -> (r: Self)
        ensures
            r@ == self@,
    {
        CorpusEntry {
            conversation_id: self.conversation_id,
            message_id: self.message_id,
            fingerprint: self.fingerprint,
            label: self.label.clone(),
        }
    }
}

/// Whether some entry of `s` already carries the key
/// `(conversation_id, message_id)`.
pub open spec fn has_key(s: Seq<EntryModel>, conversation_id: i64, message_id: i32) -> bool {
    exists|i: int|
        0 <= i < s.len() && s[i].conversation_id == conversation_id && s[i].message_id
            == message_id
}

/// Well-formedness of a corpus: no two entries share a key.
pub open spec fn corpus_wf(s: Seq<EntryModel>) -> bool {
    forall|i: int, j: int|
        0 <= i < j < s.len() ==> !(#[trigger] s[i].conversation_id == #[trigger] s[j].conversation_id
            && s[i].message_id == s[j].message_id)
}

/// Error raised by a direct insert under an already used key.
#[derive(Debug, Clone, Copy, PartialEq, Eq, Structural)]
pub enum CorpusError {
    Conflict,
}

/// The fingerprint corpus, in insertion order (earliest first).
pub struct Corpus {
    entries: Vec<CorpusEntry>,
}

impl View for Corpus {
    type V = Seq<EntryModel>;

    closed spec fn view(&self) -> Seq<EntryModel> {
        self.entries@.map_values(|e: CorpusEntry| e@)
    }
}

impl Corpus {
    /// An empty corpus.
    pub fn new() -> (c: Corpus)
        ensures
            c@ == Seq::<EntryModel>::empty(),
            corpus_wf(c@),
    {
        let c = Corpus { entries: Vec::new() };
        proof {
            assert(c@ =~= Seq::<EntryModel>::empty());
        }
        c
    }

    /// How many entries the corpus holds, over all conversations.
    pub fn len(&self) -> (n: usize)
        ensures
            n == self@.len(),
    {
        self.entries.len()
    }

    /// Borrows the entry at position `idx` of the insertion order.
    pub(crate) fn entry_at(&self, idx: usize) -> (e: &CorpusEntry)
        requires
            idx < self@.len(),
        ensures
            e@ == self@[idx as int],
    {
        &self.entries[idx]
    }

    /// Whether an entry with the key `(conversation_id, message_id)`
    /// exists.
    pub fn contains_key(&self, conversation_id: i64, message_id: i32) -> (r: bool)
        ensures
            r == has_key(self@, conversation_id, message_id),
    {
        let mut idx: usize = 0;
        while idx < self.entries.len()
            invariant
                idx <= self.entries.len(),
                forall|j: int|
                    0 <= j < idx ==> !(#[trigger] self@[j].conversation_id == conversation_id
                        && self@[j].message_id == message_id),
            decreases self.entries.len() - idx,
        {
            let e = &self.entries[idx];
            if e.conversation_id == conversation_id && e.message_id == message_id {
                assert(self@[idx as int].conversation_id == conversation_id);
                return true;
            }
            idx = idx + 1;
        }
        false
    }

    /// Appends `entry` unless its key is already taken; a conflict
    /// leaves the corpus untouched.  Keeping keys unique preserves
    /// well-formedness.
    pub fn insert(&mut self, entry: CorpusEntry) -> (r: Result<(), CorpusError>)
        ensures
            has_key(old(self)@, entry.conversation_id, entry.message_id) ==> r == Err::<
                (),
                CorpusError,
            >(CorpusError::Conflict) && final(self)@ == old(self)@,
            !has_key(old(self)@, entry.conversation_id, entry.message_id) ==> r == Ok::<
                (),
                CorpusError,
            >(()) && final(self)@ == old(self)@.push(entry@),
            corpus_wf(old(self)@) ==> corpus_wf(final(self)@),
    {
        if self.contains_key(entry.conversation_id, entry.message_id) {
            return Err(CorpusError::Conflict);
        }
        let ghost prior = self@;
        let ghost model = entry@;
        self.entries.push(entry);
        proof {
            assert(self@ =~= prior.push(model));
            if corpus_wf(prior) {
                assert forall|i: int, j: int| 0 <= i < j < self@.len() implies !(self@[i].conversation_id
                    == self@[j].conversation_id && self@[i].message_id == self@[j].message_id) by {
                    if j < prior.len() {
                        assert(!(prior[i].conversation_id == prior[j].conversation_id
                            && prior[i].message_id == prior[j].message_id));
                    } else {
                        assert(self@[j] == model);
                        assert(!(prior[i].conversation_id == model.conversation_id
                            && prior[i].message_id == model.message_id));
                    }
                }
            }
        }
        Ok(())
    }

    /// All entries of one conversation, in insertion order.
    pub fn scan(&self, conversation_id: i64) -> (r: Vec<CorpusEntry>)
        ensures
            r@.map_values(|e: CorpusEntry| e@) == self@.filter(
                |m: EntryModel| m.conversation_id == conversation_id,
            ),
    {
        let mut out: Vec<CorpusEntry> = Vec::new();
        let mut idx: usize = 0;
        proof {
            assert(out@.map_values(|e: CorpusEntry| e@) =~= self@.take(0).filter(
                |m: EntryModel| m.conversation_id == conversation_id,
            )) by {
                reveal(Seq::filter);
            }
        }
        while idx < self.entries.len()
            invariant
                idx <= self.entries.len(),
                out@.map_values(|e: CorpusEntry| e@) == self@.take(idx as int).filter(
                    |m: EntryModel| m.conversation_id == conversation_id,
                ),
            decreases self.entries.len() - idx,
        {
            let ghost pred = |m: EntryModel| m.conversation_id == conversation_id;
            let ghost before = out@.map_values(|e: CorpusEntry| e@);
            let e = &self.entries[idx];
            if e.conversation_id == conversation_id {
                out.push(e.clone());
            }
            proof {
                reveal(Seq::filter);
                let taken = self@.take(idx + 1);
                assert(taken.drop_last() =~= self@.take(idx as int));
                assert(taken.last() == self@[idx as int]);
                if pred(self@[idx as int]) {
                    assert(out@.map_values(|e: CorpusEntry| e@) =~= before.push(
                        self@[idx as int],
                    ));
                } else {
                    assert(out@.map_values(|e: CorpusEntry| e@) =~= before);
                }
            }
            idx = idx + 1;
        }
        proof {
            assert(self@.take(self.entries.len() as int) =~= self@);
        }
        out
    }
}

} // verus!
