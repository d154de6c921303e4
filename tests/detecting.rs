use lingua::Language;
use lingua_rs_rb::builder::DetectorBuilder;
use lingua_rs_rb::detector::Detector;

fn detector_for(names: &[&str]) -> Detector {
    let names: Vec<String> = names.iter().map(|s| s.to_string()).collect();
    DetectorBuilder::from_languages(&names).unwrap().build().unwrap()
}

#[test]
fn detects_english_text() {
    let detector = detector_for(&["English", "French", "German", "Spanish"]);
    assert_eq!(detector.detect_language("languages are awesome"), Some(Language::English));
}

#[test]
fn empty_or_blank_text_has_no_language() {
    let detector = detector_for(&["English", "French", "German"]);
    assert_eq!(detector.detect_language(""), None);
    assert_eq!(detector.detect_language("   "), None);
}

#[test]
fn batch_detection_matches_single_detection() {
    let detector = detector_for(&["English", "French", "German", "Spanish"]);
    let texts: Vec<String> = vec![
        "languages are awesome".to_string(),
        "Sprachen sind großartig".to_string(),
        "des langues sont géniales".to_string(),
    ];
    let batch = detector.detect_languages_in_parallel(&texts);
    assert_eq!(batch.len(), 3);
    for (i, text) in texts.iter().enumerate() {
        assert_eq!(batch[i], detector.detect_language(text));
    }
    assert_eq!(batch, vec![Some(Language::English), Some(Language::German), Some(Language::French)]);
}

#[test]
fn mixed_text_splits_into_ordered_spans() {
    let detector = detector_for(&["English", "French"]);
    let spans = detector.detect_multiple_languages("Hello world. Bonjour le monde.");
    assert_eq!(spans.len(), 2);
    assert_eq!(spans[0].language, Language::English);
    assert_eq!(spans[1].language, Language::French);
    assert!(spans[0].start < spans[0].end);
    assert!(spans[0].end <= spans[1].start);
    assert!(spans[1].start < spans[1].end);
}

#[test]
fn batch_multi_span_detection_keeps_input_order() {
    let detector = detector_for(&["English", "French"]);
    let texts: Vec<String> = vec![
        "Hello world. Bonjour le monde.".to_string(),
        "".to_string(),
    ];
    let batch = detector.detect_multiple_languages_in_parallel(&texts);
    assert_eq!(batch.len(), 2);
    assert_eq!(batch[0], detector.detect_multiple_languages(&texts[0]));
    assert!(batch[1].is_empty());
}

#[test]
fn unloading_models_keeps_detecting() {
    let detector = detector_for(&["English", "German"]);
    detector.unload_language_models();
    detector.unload_language_models();
    assert_eq!(detector.detect_language("languages are awesome"), Some(Language::English));
}

#[test]
fn span_offsets_count_characters() {
    let detector = detector_for(&["English", "German"]);
    let text = "Über die Brücke gehen wir später gemeinsam. This is a wonderful day for everyone here.";
    let spans = detector.detect_multiple_languages(text);
    assert!(!spans.is_empty());
    let chars = text.chars().count();
    assert!(chars < text.len());
    assert_eq!(spans.last().unwrap().end, chars);
    for pair in spans.windows(2) {
        assert!(pair[0].end <= pair[1].start);
    }
}

#[test]
fn empty_text_has_no_spans() {
    let detector = detector_for(&["English", "French"]);
    assert!(detector.detect_multiple_languages("").is_empty());
}
