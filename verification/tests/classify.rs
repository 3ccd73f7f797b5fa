use imgdedup::classify::{Classification, ManualOutcome};
use imgdedup::config::default_similarity_threshold;
use imgdedup::corpus::{Corpus, CorpusEntry};
use imgdedup::distance::hamming_distance;
use imgdedup::fingerprint::{extract, ExtractionError};

/// A 64x64 left-to-right brightness ramp, PNG-encoded.
fn ramp_x_png() -> Vec<u8> {
    let img = image::RgbImage::from_fn(64, 64, |x, _y| {
        let v = (x * 4) as u8;
        image::Rgb([v, v, v])
    });
    let mut buf: Vec<u8> = Vec::new();
    image::DynamicImage::ImageRgb8(img)
        .write_to(&mut buf, image::ImageOutputFormat::Png)
        .unwrap();
    buf
}

/// The same scene as `ramp_x_png`, re-encoded smaller and as JPEG.
fn ramp_x_reencoded_jpeg() -> Vec<u8> {
    let img = image::RgbImage::from_fn(64, 64, |x, _y| {
        let v = (x * 4) as u8;
        image::Rgb([v, v, v])
    });
    let small = image::DynamicImage::ImageRgb8(img).resize(
        48,
        48,
        image::imageops::FilterType::Triangle,
    );
    let mut buf: Vec<u8> = Vec::new();
    small
        .write_to(&mut buf, image::ImageOutputFormat::Jpeg(80))
        .unwrap();
    buf
}

/// A visually different scene: a top-to-bottom ramp.
fn ramp_y_png() -> Vec<u8> {
    let img = image::RgbImage::from_fn(64, 64, |_x, y| {
        let v = (y * 4) as u8;
        image::Rgb([v, v, v])
    });
    let mut buf: Vec<u8> = Vec::new();
    image::DynamicImage::ImageRgb8(img)
        .write_to(&mut buf, image::ImageOutputFormat::Png)
        .unwrap();
    buf
}

#[test]
fn extract_is_deterministic() {
    let bytes = ramp_x_png();
    let first = extract(&bytes).unwrap();
    let second = extract(&bytes).unwrap();
    assert_eq!(first, second);
}

#[test]
fn extract_rejects_non_images() {
    assert_eq!(
        extract(b"definitely not an image"),
        Err(ExtractionError::UnsupportedOrCorrupt)
    );
    assert_eq!(extract(&[]), Err(ExtractionError::UnsupportedOrCorrupt));
}

#[test]
fn reencoding_stays_near() {
    let original = extract(&ramp_x_png()).unwrap();
    let reencoded = extract(&ramp_x_reencoded_jpeg()).unwrap();
    assert!(hamming_distance(original, reencoded) <= 5);
}

#[test]
fn different_scenes_differ() {
    let a = extract(&ramp_x_png()).unwrap();
    let b = extract(&ramp_y_png()).unwrap();
    assert_ne!(a, b);
}

#[test]
fn new_image_then_byte_identical_duplicate() {
    let bytes = ramp_x_png();
    let mut corpus = Corpus::new();
    let threshold = default_similarity_threshold() as u32;

    let first = corpus.classify_new_image(1, 10, "chat", &bytes, threshold);
    assert_eq!(first, Classification::NewImage);
    assert_eq!(corpus.len(), 1);

    let second = corpus.classify_new_image(1, 11, "chat", &bytes, threshold);
    assert_eq!(
        second,
        Classification::Duplicate {
            distance: 0,
            message_id: 10
        }
    );
    // The corpus still holds only the original message.
    assert_eq!(corpus.len(), 1);
    let scanned = corpus.scan(1);
    assert_eq!(scanned.len(), 1);
    assert_eq!(scanned[0].message_id, 10);
}

#[test]
fn undecodable_bytes_change_nothing() {
    let mut corpus = Corpus::new();
    let verdict = corpus.classify_new_image(1, 10, "chat", b"garbage", 5);
    assert_eq!(verdict, Classification::NotAnImage);
    assert_eq!(corpus.len(), 0);
}

#[test]
fn manual_query_reports_closest_regardless_of_distance() {
    let bytes_a = ramp_x_png();
    let bytes_b = ramp_y_png();
    let fp_a = extract(&bytes_a).unwrap();
    let fp_b = extract(&bytes_b).unwrap();

    let mut corpus = Corpus::new();
    corpus
        .insert(CorpusEntry {
            conversation_id: 1,
            message_id: 10,
            fingerprint: fp_a,
            label: String::from("chat"),
        })
        .unwrap();
    corpus
        .insert(CorpusEntry {
            conversation_id: 1,
            message_id: 20,
            fingerprint: fp_b,
            label: String::from("chat"),
        })
        .unwrap();

    let outcome = corpus.classify_manual(1, 10, &bytes_a);
    assert_eq!(
        outcome,
        ManualOutcome::ManualMatch {
            distance: hamming_distance(fp_a, fp_b),
            message_id: 20
        }
    );
    // Manual mode never writes.
    assert_eq!(corpus.len(), 2);
}

#[test]
fn manual_query_on_empty_scope() {
    let bytes = ramp_x_png();
    let mut corpus = Corpus::new();
    assert_eq!(corpus.classify_manual(1, 10, &bytes), ManualOutcome::NoCorpus);
    let fp = extract(&bytes).unwrap();
    corpus
        .insert(CorpusEntry {
            conversation_id: 1,
            message_id: 10,
            fingerprint: fp,
            label: String::from("chat"),
        })
        .unwrap();
    // Only the anchored message itself is on record: nothing to compare.
    assert_eq!(corpus.classify_manual(1, 10, &bytes), ManualOutcome::NoCorpus);
    assert_eq!(
        corpus.classify_manual(1, 10, b"garbage"),
        ManualOutcome::NotAnImage
    );
}
