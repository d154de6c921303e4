use lingua_rs_rb::builder::DetectorBuilder;
use lingua_rs_rb::error::{ErrorKind, LinguaError};

fn strings(items: &[&str]) -> Vec<String> {
    items.iter().map(|s| s.to_string()).collect()
}

#[test]
fn list_factories_reject_empty_lists() {
    let empty: Vec<String> = Vec::new();
    assert_eq!(DetectorBuilder::from_languages(&empty).err(), Some(LinguaError::EmptyLanguages));
    assert_eq!(
        DetectorBuilder::from_all_languages_without(&empty).err(),
        Some(LinguaError::EmptyLanguages)
    );
    assert_eq!(
        DetectorBuilder::from_iso_codes_639_1(&empty).err(),
        Some(LinguaError::EmptyIsoCodes639_1)
    );
    assert_eq!(
        DetectorBuilder::from_iso_codes_639_3(&empty).err(),
        Some(LinguaError::EmptyIsoCodes639_3)
    );
}

#[test]
fn list_factories_reject_unknown_tokens() {
    assert_eq!(
        DetectorBuilder::from_languages(&strings(&["English", "Nope"])).err(),
        Some(LinguaError::UnknownLanguage("Nope".to_string()))
    );
    assert_eq!(
        DetectorBuilder::from_iso_codes_639_1(&strings(&["xx"])).err(),
        Some(LinguaError::UnknownIsoCode639_1("xx".to_string()))
    );
}

#[test]
fn build_succeeds_once_then_fails() {
    let mut builder = DetectorBuilder::from_languages(&strings(&["English", "French"])).unwrap();
    assert!(builder.is_configured());
    assert!(builder.build().is_ok());
    assert!(!builder.is_configured());
    let err = builder.build().err().unwrap();
    assert_eq!(err, LinguaError::AlreadyConsumed);
    assert_eq!(err.kind(), ErrorKind::StateError);
}

#[test]
fn setters_keep_builder_configured() {
    let mut builder = DetectorBuilder::from_iso_codes_639_1(&strings(&["en", "de"])).unwrap();
    assert_eq!(builder.with_preloaded_language_models(), Ok(()));
    assert_eq!(builder.with_low_accuracy_mode(), Ok(()));
    assert!(builder.is_configured());
    assert!(builder.build().is_ok());
}

#[test]
fn setters_fail_after_build() {
    let mut builder = DetectorBuilder::from_all_languages_with_latin_script();
    assert!(builder.build().is_ok());
    assert_eq!(builder.with_preloaded_language_models(), Err(LinguaError::AlreadyConsumed));
    assert_eq!(builder.with_low_accuracy_mode(), Err(LinguaError::AlreadyConsumed));
    assert!(builder.take_builder().is_err());
    assert!(!builder.is_configured());
}

#[test]
fn take_and_restore_round_trip() {
    let mut builder = DetectorBuilder::from_iso_codes_639_3(&strings(&["eng", "fra"])).unwrap();
    let engine = builder.take_builder().unwrap();
    assert!(!builder.is_configured());
    builder.restore(engine);
    assert!(builder.is_configured());
}

#[test]
fn excluding_every_language_leaves_nothing() {
    let all = lingua_rs_rb::listing::languages();
    assert_eq!(
        DetectorBuilder::from_all_languages_without(&all).err(),
        Some(LinguaError::NoLanguageLeft)
    );
}

#[test]
fn excluding_some_languages_builds() {
    let mut builder = DetectorBuilder::from_all_languages_without(&strings(&["English"])).unwrap();
    assert!(builder.build().is_ok());
}

#[test]
fn whole_set_factories_build() {
    let mut builders = vec![
        DetectorBuilder::from_all_languages(),
        DetectorBuilder::from_all_spoken_languages(),
        DetectorBuilder::from_all_languages_with_arabic_script(),
        DetectorBuilder::from_all_languages_with_cyrillic_script(),
        DetectorBuilder::from_all_languages_with_devanagari_script(),
        DetectorBuilder::from_all_languages_with_latin_script(),
        DetectorBuilder::from_all_languages_with_single_unique_script().unwrap(),
    ];
    for builder in builders.iter_mut() {
        assert!(builder.is_configured());
        assert!(builder.build().is_ok());
    }
}
