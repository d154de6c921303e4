use lingua_rs_rb::listing::{
    languages, languages_with_arabic_script, languages_with_cyrillic_script,
    languages_with_devanagari_script, languages_with_latin_script,
    languages_with_single_unique_script, spoken_languages,
};

fn is_sorted(names: &[String]) -> bool {
    names.windows(2).all(|w| w[0] <= w[1])
}

#[test]
fn all_languages_are_listed_sorted() {
    let names = languages();
    assert!(is_sorted(&names));
    assert_eq!(names.len(), lingua::Language::all().len());
    assert!(names.contains(&"English".to_string()));
    assert!(names.contains(&"Latin".to_string()));
}

#[test]
fn spoken_languages_leave_out_latin() {
    let names = spoken_languages();
    assert!(is_sorted(&names));
    assert!(names.contains(&"English".to_string()));
    assert!(!names.contains(&"Latin".to_string()));
}

#[test]
fn script_lists_hold_their_languages() {
    let arabic = languages_with_arabic_script();
    assert!(is_sorted(&arabic) && arabic.contains(&"Arabic".to_string()));
    let cyrillic = languages_with_cyrillic_script();
    assert!(is_sorted(&cyrillic) && cyrillic.contains(&"Russian".to_string()));
    let devanagari = languages_with_devanagari_script();
    assert!(is_sorted(&devanagari) && devanagari.contains(&"Hindi".to_string()));
    let latin = languages_with_latin_script();
    assert!(is_sorted(&latin) && latin.contains(&"English".to_string()));
    assert!(!latin.contains(&"Russian".to_string()));
}

#[test]
fn single_unique_script_list_holds_greek() {
    let names = languages_with_single_unique_script();
    assert!(is_sorted(&names));
    assert!(names.contains(&"Greek".to_string()));
    assert!(!names.contains(&"English".to_string()));
}

#[test]
fn listed_names_parse_back() {
    let names = languages();
    for name in &names {
        let language = lingua_rs_rb::parse::parse_language_value(name).unwrap();
        assert_eq!(&language.to_string(), name);
    }
}
