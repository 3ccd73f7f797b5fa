//! Classification policy on top of the nearest-match search.
//!
//! Automatic mode judges every newly observed image: within the
//! configured threshold it is a duplicate of the closest earlier entry
//! and the corpus is left alone; otherwise it is new and recorded.
//! Manual mode answers an explicit closest-match query anchored at an
//! existing message, with no threshold and no corpus mutation.

use vstd::prelude::*;
use crate::corpus::{corpus_wf, has_key, Corpus, CorpusEntry, EntryModel};
use crate::fingerprint::{extract, phash_of};
use crate::search::best_idx;

verus! {

/// Verdict of automatic mode on one inbound image.
#[derive(Debug, Clone, Copy, PartialEq, Eq, Structural)]
pub enum Classification {
    /// Nothing close enough was on record; the image has been added.
    NewImage,
    /// A recorded entry lies within the threshold.
    Duplicate { distance: u32, message_id: i32 },
    /// The bytes decode as no recognised image; nothing was recorded.
    NotAnImage,
}

/// Verdict of a manual closest-match query.
#[derive(Debug, Clone, Copy, PartialEq, Eq, Structural)]
pub enum ManualOutcome {
    /// The closest other entry of the conversation, however far.
    ManualMatch { distance: u32, message_id: i32 },
    /// The conversation has no other entry to compare against.
    NoCorpus,
    /// The anchored message's bytes decode as no recognised image.
    NotAnImage,
}

/// The corpus after a new image was recorded: one entry appended,
/// unless its key was already taken, in which case the conflict is a
/// no-op and the corpus is unchanged.
pub open spec fn recorded_new(
    prior: Seq<EntryModel>,
    now: Seq<EntryModel>,
    conversation_id: i64,
    message_id: i32,
    fingerprint: i64,
    label: Seq<char>,
) -> bool {
    now == if has_key(prior, conversation_id, message_id) {
        prior
    } else {
        prior.push(
            EntryModel { conversation_id, message_id, fingerprint, label },
        )
    }
}

impl Corpus {
    /// Automatic mode.  Fingerprints `bytes`, searches the conversation
    /// with the threshold, and either reports the duplicate (corpus
    /// unchanged) or records the image as new.  Undecodable bytes
    /// change nothing.
    pub fn classify_new_image(
        &mut self,
        conversation_id: i64,
        message_id: i32,
        label: &str,
        bytes: &[u8],
        threshold: u32,
    ) -> (c: Classification)
        ensures
            phash_of(bytes@) is None ==> c == Classification::NotAnImage && final(self)@ == old(
                self,
            )@,
            phash_of(bytes@) matches Some(fp) ==> match best_idx(
                old(self)@,
                conversation_id,
                fp,
                None,
            ) {
                Some(p) => if p.1 <= threshold {
                    (c matches Classification::Duplicate { distance: d, message_id: m } && d == p.1
                        && m == old(self)@[p.0].message_id) && final(self)@ == old(self)@
                } else {
                    c == Classification::NewImage && recorded_new(
                        old(self)@,
                        final(self)@,
                        conversation_id,
                        message_id,
                        fp,
                        label@,
                    )
                },
                None => c == Classification::NewImage && recorded_new(
                    old(self)@,
                    final(self)@,
                    conversation_id,
                    message_id,
                    fp,
                    label@,
                ),
            },
            corpus_wf(old(self)@) ==> corpus_wf(final(self)@),
    {
        let fp = match extract(bytes) {
            Ok(f) => f,
            Err(_) => {
                return Classification::NotAnImage;
            },
        };
        match self.find_closest(conversation_id, fp, None, Some(threshold)) {
            Some(m) => Classification::Duplicate { distance: m.distance, message_id: m.message_id },
            None => {
                let entry = CorpusEntry {
                    conversation_id,
                    message_id,
                    fingerprint: fp,
                    label: label.to_owned(),
                };
                let _ = self.insert(entry);
                Classification::NewImage
            },
        }
    }

    /// Manual mode.  Fingerprints the anchored message's `bytes` and
    /// reports the closest other entry of the conversation, whatever
    /// its distance.  The corpus is never mutated.
    pub fn classify_manual(
        &self,
        conversation_id: i64,
        query_message_id: i32,
        bytes: &[u8],
    ) -> (c: ManualOutcome)
        ensures
            phash_of(bytes@) is None ==> c == ManualOutcome::NotAnImage,
            phash_of(bytes@) matches Some(fp) ==> match best_idx(
                self@,
                conversation_id,
                fp,
                Some(query_message_id),
            ) {
                None => c == ManualOutcome::NoCorpus,
                Some(p) => (c matches ManualOutcome::ManualMatch { distance: d, message_id: m }
                    && d == p.1 && m == self@[p.0].message_id),
            },
    {
        let fp = match extract(bytes) {
            Ok(f) => f,
            Err(_) => {
                return ManualOutcome::NotAnImage;
            },
        };
        match self.find_closest(conversation_id, fp, Some(query_message_id), None) {
            Some(m) => ManualOutcome::ManualMatch {
                distance: m.distance,
                message_id: m.message_id,
            },
            None => ManualOutcome::NoCorpus,
        }
    }
}

} // verus!
