use imgdedup::corpus::{Corpus, CorpusEntry, CorpusError};
use imgdedup::distance::hamming_distance;
use imgdedup::search::SearchMatch;

fn entry(conversation_id: i64, message_id: i32, fingerprint: i64) -> CorpusEntry {
    CorpusEntry {
        conversation_id,
        message_id,
        fingerprint,
        label: String::from("chat"),
    }
}

#[test]
fn empty_corpus_finds_nothing() {
    let c = Corpus::new();
    assert_eq!(c.find_closest(1, 0, None, None), None);
    assert_eq!(c.find_closest(1, 0, None, Some(64)), None);
}

#[test]
fn hamming_distance_counts_differing_bits() {
    assert_eq!(hamming_distance(0, 0), 0);
    assert_eq!(hamming_distance(0, -1), 64);
    assert_eq!(hamming_distance(0b1010, 0b0110), 2);
    assert_eq!(hamming_distance(i64::MIN, 0), 1);
}

#[test]
fn picks_minimum_distance() {
    let mut c = Corpus::new();
    c.insert(entry(1, 10, 0b1111)).unwrap();
    c.insert(entry(1, 20, 0b0011)).unwrap();
    c.insert(entry(1, 30, 0b0001)).unwrap();
    let m = c.find_closest(1, 0, None, None).unwrap();
    assert_eq!(m, SearchMatch { message_id: 30, distance: 1 });
}

#[test]
fn threshold_is_a_hard_cutoff() {
    let mut c = Corpus::new();
    c.insert(entry(1, 10, 0b0111)).unwrap();
    // Minimum distance from query 0 is 3.
    assert_eq!(c.find_closest(1, 0, None, Some(2)), None);
    let m = c.find_closest(1, 0, None, Some(3)).unwrap();
    assert_eq!(m, SearchMatch { message_id: 10, distance: 3 });
}

#[test]
fn tie_break_earliest_inserted_wins() {
    let mut c = Corpus::new();
    // Both entries lie at distance 1 from the query 0.
    c.insert(entry(1, 10, 0b0001)).unwrap();
    c.insert(entry(1, 20, 0b0010)).unwrap();
    for _ in 0..3 {
        let m = c.find_closest(1, 0, None, None).unwrap();
        assert_eq!(m, SearchMatch { message_id: 10, distance: 1 });
    }
}

#[test]
fn exclusion_hides_only_that_message() {
    let mut c = Corpus::new();
    c.insert(entry(1, 10, 0)).unwrap();
    c.insert(entry(1, 20, 0b1111_1111)).unwrap();
    let m = c.find_closest(1, 0, Some(10), None).unwrap();
    assert_eq!(m, SearchMatch { message_id: 20, distance: 8 });
    // Excluding the only entry leaves nothing.
    let mut solo = Corpus::new();
    solo.insert(entry(1, 10, 0)).unwrap();
    assert_eq!(solo.find_closest(1, 0, Some(10), None), None);
}

#[test]
fn conversations_are_isolated() {
    let mut c = Corpus::new();
    c.insert(entry(1, 10, 0b1111)).unwrap();
    // A byte-identical fingerprint in another conversation must not win.
    c.insert(entry(2, 50, 0)).unwrap();
    let m = c.find_closest(1, 0, None, None).unwrap();
    assert_eq!(m, SearchMatch { message_id: 10, distance: 4 });
    let m2 = c.find_closest(2, 0, None, None).unwrap();
    assert_eq!(m2, SearchMatch { message_id: 50, distance: 0 });
}

#[test]
fn duplicate_key_is_a_conflict() {
    let mut c = Corpus::new();
    c.insert(entry(1, 10, 7)).unwrap();
    assert_eq!(c.insert(entry(1, 10, 9)), Err(CorpusError::Conflict));
    assert_eq!(c.len(), 1);
    // The first write is the one that stays.
    let m = c.find_closest(1, 7, None, None).unwrap();
    assert_eq!(m, SearchMatch { message_id: 10, distance: 0 });
    // The same message id in another conversation is a different key.
    assert!(c.insert(entry(2, 10, 9)).is_ok());
    assert_eq!(c.len(), 2);
}

#[test]
fn scan_returns_one_conversation_in_order() {
    let mut c = Corpus::new();
    c.insert(entry(1, 10, 1)).unwrap();
    c.insert(entry(2, 20, 2)).unwrap();
    c.insert(entry(1, 30, 3)).unwrap();
    let scanned = c.scan(1);
    assert_eq!(scanned.len(), 2);
    assert_eq!(scanned[0].message_id, 10);
    assert_eq!(scanned[1].message_id, 30);
    assert!(c.scan(3).is_empty());
}

#[test]
fn contains_key_tracks_inserts() {
    let mut c = Corpus::new();
    assert!(!c.contains_key(1, 10));
    c.insert(entry(1, 10, 0)).unwrap();
    assert!(c.contains_key(1, 10));
    assert!(!c.contains_key(2, 10));
    assert!(!c.contains_key(1, 20));
}
