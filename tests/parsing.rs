use lingua::{IsoCode639_1, IsoCode639_3, Language};
use lingua_rs_rb::error::{ErrorKind, LinguaError};
use lingua_rs_rb::parse::{
    parse_iso_codes_639_1, parse_iso_codes_639_3, parse_language_value, parse_languages,
};

fn strings(items: &[&str]) -> Vec<String> {
    items.iter().map(|s| s.to_string()).collect()
}

#[test]
fn parse_languages_keeps_order_and_duplicates() {
    let parsed = parse_languages(&strings(&["French", "English", "French"])).unwrap();
    assert_eq!(parsed, vec![Language::French, Language::English, Language::French]);
}

#[test]
fn parse_languages_rejects_empty_list() {
    let err = parse_languages(&Vec::new()).unwrap_err();
    assert_eq!(err, LinguaError::EmptyLanguages);
    assert_eq!(err.kind(), ErrorKind::InvalidArgument);
}

#[test]
fn parse_languages_reports_first_unknown_token() {
    let err = parse_languages(&strings(&["English", "Klingon", "Elvish"])).unwrap_err();
    assert_eq!(err, LinguaError::UnknownLanguage("Klingon".to_string()));
    assert_eq!(err.kind(), ErrorKind::InvalidArgument);
}

#[test]
fn parse_language_value_accepts_a_name() {
    assert_eq!(parse_language_value("German"), Ok(Language::German));
}

#[test]
fn parse_language_value_rejects_unknown_language() {
    let err = parse_language_value("unknown-lang-xyz").unwrap_err();
    assert_eq!(err, LinguaError::UnknownLanguage("unknown-lang-xyz".to_string()));
    assert_eq!(err.kind(), ErrorKind::InvalidArgument);
}

#[test]
fn canonical_names_round_trip() {
    for language in Language::all() {
        assert_eq!(parse_language_value(&language.to_string()), Ok(language));
    }
}

#[test]
fn parse_iso_codes_639_1_converts_in_order() {
    let parsed = parse_iso_codes_639_1(&strings(&["fr", "en"])).unwrap();
    assert_eq!(parsed, vec![IsoCode639_1::FR, IsoCode639_1::EN]);
}

#[test]
fn parse_iso_codes_639_1_rejects_empty_and_unknown() {
    assert_eq!(parse_iso_codes_639_1(&Vec::new()), Err(LinguaError::EmptyIsoCodes639_1));
    assert_eq!(
        parse_iso_codes_639_1(&strings(&["en", "zz"])),
        Err(LinguaError::UnknownIsoCode639_1("zz".to_string()))
    );
}

#[test]
fn parse_iso_codes_639_3_converts_in_order() {
    let parsed = parse_iso_codes_639_3(&strings(&["deu", "eng"])).unwrap();
    assert_eq!(parsed, vec![IsoCode639_3::DEU, IsoCode639_3::ENG]);
}

#[test]
fn parse_iso_codes_639_3_rejects_empty_and_unknown() {
    assert_eq!(parse_iso_codes_639_3(&Vec::new()), Err(LinguaError::EmptyIsoCodes639_3));
    assert_eq!(
        parse_iso_codes_639_3(&strings(&["xyz"])),
        Err(LinguaError::UnknownIsoCode639_3("xyz".to_string()))
    );
}
