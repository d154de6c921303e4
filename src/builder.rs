//! The consume-once detector builder.
//!
//! A `DetectorBuilder` holds at most one engine configuration. It is
//! *configured* while the slot holds one and *consumed* once `build` has moved
//! it out; every operation on a consumed builder fails with
//! `LinguaError::AlreadyConsumed` and leaves it consumed.

use lingua::{IsoCode639_1, IsoCode639_3, Language, LanguageDetector, LanguageDetectorBuilder};
use vstd::prelude::*;

use crate::detector::{detector_languages, detector_low_accuracy_mode, Detector};
use crate::error::{ErrorKind, LinguaError};
use crate::listing::{
    every_language, has_single_unique_script, is_spoken, with_single_unique_script, writes_arabic_script,
    writes_cyrillic_script, writes_devanagari_script, writes_latin_script,
};
use crate::parse::{
    all_known, is_first_unknown, iso_code_639_1_lookup, iso_code_639_3_lookup, language_lookup,
    looked_up, parse_iso_codes_639_1, parse_iso_codes_639_3, parse_languages,
};

verus! {

/// The languages that an engine configuration will choose among.
pub uninterp spec fn builder_languages(b: LanguageDetectorBuilder) -> Set<Language>;

/// Whether an engine configuration loads every language model at build time.
pub uninterp spec fn preloads_language_models(b: LanguageDetectorBuilder) -> bool;

/// Whether an engine configuration trades accuracy for memory and speed.
pub uninterp spec fn low_accuracy_mode_enabled(b: LanguageDetectorBuilder) -> bool;

/// The ISO 639-1 code of a language.
pub uninterp spec fn iso_code_639_1_of(l: Language) -> IsoCode639_1;

/// The ISO 639-3 code of a language.
pub uninterp spec fn iso_code_639_3_of(l: Language) -> IsoCode639_3;

/// The flags of a freshly created engine configuration.
pub open spec fn has_default_flags(b: LanguageDetectorBuilder) -> bool {
    !preloads_language_models(b) && !low_accuracy_mode_enabled(b)
}

/// Relies on the `PartialEq` that lingua derives for the field-less enum
/// `Language`.
#[verifier::external_body]
fn same_language(a: &Language, b: &Language) -> (r: bool)
    ensures
        r == (*a == *b),
{
    *a == *b
}

/// Relies on lingua's `LanguageDetectorBuilder::from_all_languages`.
#[verifier::external_body]
fn engine_from_all_languages() -> (r: LanguageDetectorBuilder)
    ensures
        builder_languages(r) == Set::<Language>::full(),
        has_default_flags(r),
{
    LanguageDetectorBuilder::from_all_languages()
}

/// Relies on lingua's `LanguageDetectorBuilder::from_all_spoken_languages`.
#[verifier::external_body]
fn engine_from_all_spoken_languages() -> (r: LanguageDetectorBuilder)
    ensures
        builder_languages(r) == Set::new(|l: Language| is_spoken(l)),
        has_default_flags(r),
{
    LanguageDetectorBuilder::from_all_spoken_languages()
}

/// Relies on lingua's `LanguageDetectorBuilder::from_all_languages_with_arabic_script`.
#[verifier::external_body]
fn engine_from_arabic_script() -> (r: LanguageDetectorBuilder)
    ensures
        builder_languages(r) == Set::new(|l: Language| writes_arabic_script(l)),
        has_default_flags(r),
{
    LanguageDetectorBuilder::from_all_languages_with_arabic_script()
}

/// Relies on lingua's `LanguageDetectorBuilder::from_all_languages_with_cyrillic_script`.
#[verifier::external_body]
fn engine_from_cyrillic_script() -> (r: LanguageDetectorBuilder)
    ensures
        builder_languages(r) == Set::new(|l: Language| writes_cyrillic_script(l)),
        has_default_flags(r),
{
    LanguageDetectorBuilder::from_all_languages_with_cyrillic_script()
}

/// Relies on lingua's `LanguageDetectorBuilder::from_all_languages_with_devanagari_script`.
#[verifier::external_body]
fn engine_from_devanagari_script() -> (r: LanguageDetectorBuilder)
    ensures
        builder_languages(r) == Set::new(|l: Language| writes_devanagari_script(l)),
        has_default_flags(r),
{
    LanguageDetectorBuilder::from_all_languages_with_devanagari_script()
}

/// Relies on lingua's `LanguageDetectorBuilder::from_all_languages_with_latin_script`.
#[verifier::external_body]
fn engine_from_latin_script() -> (r: LanguageDetectorBuilder)
    ensures
        builder_languages(r) == Set::new(|l: Language| writes_latin_script(l)),
        has_default_flags(r),
{
    LanguageDetectorBuilder::from_all_languages_with_latin_script()
}

/// Relies on lingua's `LanguageDetectorBuilder::from_languages`, which panics
/// on an empty slice and otherwise keeps the set of the given languages.
#[verifier::external_body]
fn engine_from_languages(languages: &Vec<Language>) -> (r: LanguageDetectorBuilder)
    requires
        languages@.len() > 0,
    ensures
        builder_languages(r) == languages@.to_set(),
        has_default_flags(r),
{
    LanguageDetectorBuilder::from_languages(languages)
}

/// Relies on lingua's `LanguageDetectorBuilder::from_all_languages_without`,
/// which panics when no language is left and otherwise keeps every language
/// not in the slice.
#[verifier::external_body]
fn engine_from_all_languages_without(languages: &Vec<Language>) -> (r: LanguageDetectorBuilder)
    requires
        exists|l: Language| !languages@.contains(l),
    ensures
        builder_languages(r) == Set::<Language>::full().difference(languages@.to_set()),
        has_default_flags(r),
{
    LanguageDetectorBuilder::from_all_languages_without(languages)
}

/// Relies on lingua's `LanguageDetectorBuilder::from_iso_codes_639_1`, which
/// panics on an empty slice and otherwise keeps, for each code, the language
/// whose `iso_code_639_1` it is (each language has its own code).
#[verifier::external_body]
fn engine_from_iso_codes_639_1(codes: &Vec<IsoCode639_1>) -> (r: LanguageDetectorBuilder)
    requires
        codes@.len() > 0,
    ensures
        builder_languages(r) == Set::new(|l: Language| codes@.contains(iso_code_639_1_of(l))),
        has_default_flags(r),
{
    LanguageDetectorBuilder::from_iso_codes_639_1(codes)
}

/// Relies on lingua's `LanguageDetectorBuilder::from_iso_codes_639_3`, which
/// panics on an empty slice and otherwise keeps, for each code, the language
/// whose `iso_code_639_3` it is (each language has its own code).
#[verifier::external_body]
fn engine_from_iso_codes_639_3(codes: &Vec<IsoCode639_3>) -> (r: LanguageDetectorBuilder)
    requires
        codes@.len() > 0,
    ensures
        builder_languages(r) == Set::new(|l: Language| codes@.contains(iso_code_639_3_of(l))),
        has_default_flags(r),
{
    LanguageDetectorBuilder::from_iso_codes_639_3(codes)
}

/// Relies on lingua's `LanguageDetectorBuilder::with_preloaded_language_models`,
/// which sets that one flag.
#[verifier::external_body]
fn engine_preload_language_models(b: &mut LanguageDetectorBuilder)
    ensures
        builder_languages(*final(b)) == builder_languages(*old(b)),
        preloads_language_models(*final(b)),
        low_accuracy_mode_enabled(*final(b)) == low_accuracy_mode_enabled(*old(b)),
{
    b.with_preloaded_language_models();
}

/// Relies on lingua's `LanguageDetectorBuilder::with_low_accuracy_mode`, which
/// sets that one flag.
#[verifier::external_body]
fn engine_low_accuracy_mode(b: &mut LanguageDetectorBuilder)
    ensures
        builder_languages(*final(b)) == builder_languages(*old(b)),
        preloads_language_models(*final(b)) == preloads_language_models(*old(b)),
        low_accuracy_mode_enabled(*final(b)),
{
    b.with_low_accuracy_mode();
}

/// Relies on lingua's `LanguageDetectorBuilder::build`, which hands the
/// configured languages and the low-accuracy flag to `LanguageDetector::from`,
/// where they are stored as they are.
#[verifier::external_body]
fn engine_build(b: LanguageDetectorBuilder) -> (r: LanguageDetector)
    ensures
        detector_languages(r) == builder_languages(b),
        detector_low_accuracy_mode(r) == low_accuracy_mode_enabled(b),
{
    let mut b = b;
    b.build()
}

/// Whether `build` succeeds on a builder whose slot is `slot`.
pub open spec fn build_succeeds(slot: Option<LanguageDetectorBuilder>) -> bool {
    slot is Some
}

/// Some language lies outside `excluded`.
pub open spec fn leaves_a_language(excluded: Seq<Language>) -> bool {
    exists|l: Language| !excluded.contains(l)
}

/// A one-shot accumulator of detector configuration.
pub struct DetectorBuilder {
    slot: Option<LanguageDetectorBuilder>,
}

impl View for DetectorBuilder {
    type V = Option<LanguageDetectorBuilder>;

    closed spec fn view(&self) -> Option<LanguageDetectorBuilder> {
        self.slot
    }
}

/// Whether some element of `v` equals `l`.
fn contains_language(v: &Vec<Language>, l: &Language) -> (r: bool)
    ensures
        r == v@.contains(*l),
{
    let mut i: usize = 0;
    while i < v.len()
        invariant
            i <= v@.len(),
            forall|j: int| 0 <= j < i ==> v@[j] != *l,
        decreases v@.len() - i,
    {
        if same_language(&v[i], l) {
            return true;
        }
        i += 1;
    }
    false
}

/// Whether some language lies outside `excluded`.
fn leaves_some_language(excluded: &Vec<Language>) -> (r: bool)
    ensures
        r == leaves_a_language(excluded@),
{
    let all = every_language();
    let mut i: usize = 0;
    while i < all.len()
        invariant
            i <= all@.len(),
            forall|l: Language| all@.contains(l),
            forall|j: int| 0 <= j < i ==> excluded@.contains(#[trigger] all@[j]),
        decreases all@.len() - i,
    {
        if !contains_language(excluded, &all[i]) {
            return true;
        }
        i += 1;
    }
    assert forall|l: Language| excluded@.contains(l) by {
        assert(all@.contains(l));
        let j = choose|j: int| 0 <= j < all@.len() && all@[j] == l;
    }
    false
}

impl DetectorBuilder {
    fn new(engine: LanguageDetectorBuilder) -> (r: DetectorBuilder)
        ensures
            r@ == Some(engine),
    {
        DetectorBuilder { slot: Some(engine) }
    }

    /// A builder for every known language.
    pub fn from_all_languages() -> (r: DetectorBuilder)
        ensures
            r@ is Some,
            builder_languages(r@->0) == Set::<Language>::full(),
            has_default_flags(r@->0),
    {
        DetectorBuilder::new(engine_from_all_languages())
    }

    /// A builder for every known spoken language.
    pub fn from_all_spoken_languages() -> (r: DetectorBuilder)
        ensures
            r@ is Some,
            builder_languages(r@->0) == Set::new(|l: Language| is_spoken(l)),
            has_default_flags(r@->0),
    {
        DetectorBuilder::new(engine_from_all_spoken_languages())
    }

    /// A builder for every known language written in the Arabic script.
    pub fn from_all_languages_with_arabic_script() -> (r: DetectorBuilder)
        ensures
            r@ is Some,
            builder_languages(r@->0) == Set::new(|l: Language| writes_arabic_script(l)),
            has_default_flags(r@->0),
    {
        DetectorBuilder::new(engine_from_arabic_script())
    }

    /// A builder for every known language written in the Cyrillic script.
    pub fn from_all_languages_with_cyrillic_script() -> (r: DetectorBuilder)
        ensures
            r@ is Some,
            builder_languages(r@->0) == Set::new(|l: Language| writes_cyrillic_script(l)),
            has_default_flags(r@->0),
    {
        DetectorBuilder::new(engine_from_cyrillic_script())
    }

    /// A builder for every known language written in the Devanagari script.
    pub fn from_all_languages_with_devanagari_script() -> (r: DetectorBuilder)
        ensures
            r@ is Some,
            builder_languages(r@->0) == Set::new(|l: Language| writes_devanagari_script(l)),
            has_default_flags(r@->0),
    {
        DetectorBuilder::new(engine_from_devanagari_script())
    }

    /// A builder for every known language written in the Latin script.
    pub fn from_all_languages_with_latin_script() -> (r: DetectorBuilder)
        ensures
            r@ is Some,
            builder_languages(r@->0) == Set::new(|l: Language| writes_latin_script(l)),
            has_default_flags(r@->0),
    {
        DetectorBuilder::new(engine_from_latin_script())
    }

    /// A builder for every known language whose script no other known
    /// language uses; `NoLanguageLeft` where there is no such language.
    pub fn from_all_languages_with_single_unique_script() -> (r: Result<DetectorBuilder, LinguaError>)
        ensures
            r is Ok <==> exists|l: Language| has_single_unique_script(l),
            r is Ok ==> r->Ok_0@ is Some
                && builder_languages(r->Ok_0@->0) == Set::new(|l: Language| has_single_unique_script(l))
                && has_default_flags(r->Ok_0@->0),
            r is Err ==> r->Err_0 == LinguaError::NoLanguageLeft,
    {
        let languages = with_single_unique_script();
        if languages.len() == 0 {
            assert forall|l: Language| !has_single_unique_script(l) by {
                if has_single_unique_script(l) {
                    assert(languages@.contains(l));
                }
            }
            return Err(LinguaError::NoLanguageLeft);
        }
        assert(languages@.contains(languages@[0]));
        assert(has_single_unique_script(languages@[0]));
        let r = DetectorBuilder::new(engine_from_languages(&languages));
        assert(languages@.to_set() =~= Set::new(|l: Language| has_single_unique_script(l)));
        Ok(r)
    }

    /// A builder for the named languages.
    pub fn from_languages(names: &Vec<String>) -> (r: Result<DetectorBuilder, LinguaError>)
        ensures
            names@.len() == 0 ==> r == Err::<DetectorBuilder, LinguaError>(LinguaError::EmptyLanguages),
            r is Ok <==> names@.len() > 0 && all_known(names@, language_lookup()),
            r is Ok ==> r->Ok_0@ is Some
                && builder_languages(r->Ok_0@->0) == looked_up(names@, language_lookup()).to_set()
                && has_default_flags(r->Ok_0@->0),
            names@.len() > 0 && !all_known(names@, language_lookup()) ==> exists|i: int|
                #[trigger] is_first_unknown(names@, language_lookup(), i) && (r->Err_0 matches LinguaError::UnknownLanguage(t) && t == names@[i]),
    {
        match parse_languages(names) {
            Ok(languages) => Ok(DetectorBuilder::new(engine_from_languages(&languages))),
            Err(e) => Err(e),
        }
    }

    /// A builder for every known language but the named ones; `NoLanguageLeft`
    /// where the named ones are all the known languages.
    pub fn from_all_languages_without(names: &Vec<String>) -> (r: Result<DetectorBuilder, LinguaError>)
        ensures
            names@.len() == 0 ==> r == Err::<DetectorBuilder, LinguaError>(LinguaError::EmptyLanguages),
            r is Ok <==> names@.len() > 0 && all_known(names@, language_lookup())
                && leaves_a_language(looked_up(names@, language_lookup())),
            r is Ok ==> r->Ok_0@ is Some
                && builder_languages(r->Ok_0@->0)
                    == Set::<Language>::full().difference(looked_up(names@, language_lookup()).to_set())
                && has_default_flags(r->Ok_0@->0),
            names@.len() > 0 && all_known(names@, language_lookup())
                && !leaves_a_language(looked_up(names@, language_lookup()))
                ==> r == Err::<DetectorBuilder, LinguaError>(LinguaError::NoLanguageLeft),
            names@.len() > 0 && !all_known(names@, language_lookup()) ==> exists|i: int|
                #[trigger] is_first_unknown(names@, language_lookup(), i) && (r->Err_0 matches LinguaError::UnknownLanguage(t) && t == names@[i]),
    {
        match parse_languages(names) {
            Ok(languages) => {
                if !leaves_some_language(&languages) {
                    return Err(LinguaError::NoLanguageLeft);
                }
                Ok(DetectorBuilder::new(engine_from_all_languages_without(&languages)))
            },
            Err(e) => Err(e),
        }
    }

    /// A builder for the languages of the given ISO 639-1 codes.
    pub fn from_iso_codes_639_1(codes: &Vec<String>) -> (r: Result<DetectorBuilder, LinguaError>)
        ensures
            codes@.len() == 0 ==> r == Err::<DetectorBuilder, LinguaError>(LinguaError::EmptyIsoCodes639_1),
            r is Ok <==> codes@.len() > 0 && all_known(codes@, iso_code_639_1_lookup()),
            r is Ok ==> r->Ok_0@ is Some && has_default_flags(r->Ok_0@->0)
                && builder_languages(r->Ok_0@->0) == Set::new(|l: Language|
                    looked_up(codes@, iso_code_639_1_lookup()).contains(iso_code_639_1_of(l))),
            codes@.len() > 0 && !all_known(codes@, iso_code_639_1_lookup()) ==> exists|i: int|
                #[trigger] is_first_unknown(codes@, iso_code_639_1_lookup(), i) && (r->Err_0 matches LinguaError::UnknownIsoCode639_1(t) && t == codes@[i]),
    {
        match parse_iso_codes_639_1(codes) {
            Ok(parsed) => Ok(DetectorBuilder::new(engine_from_iso_codes_639_1(&parsed))),
            Err(e) => Err(e),
        }
    }

    /// A builder for the languages of the given ISO 639-3 codes.
    pub fn from_iso_codes_639_3(codes: &Vec<String>) -> (r: Result<DetectorBuilder, LinguaError>)
        ensures
            codes@.len() == 0 ==> r == Err::<DetectorBuilder, LinguaError>(LinguaError::EmptyIsoCodes639_3),
            r is Ok <==> codes@.len() > 0 && all_known(codes@, iso_code_639_3_lookup()),
            r is Ok ==> r->Ok_0@ is Some && has_default_flags(r->Ok_0@->0)
                && builder_languages(r->Ok_0@->0) == Set::new(|l: Language|
                    looked_up(codes@, iso_code_639_3_lookup()).contains(iso_code_639_3_of(l))),
            codes@.len() > 0 && !all_known(codes@, iso_code_639_3_lookup()) ==> exists|i: int|
                #[trigger] is_first_unknown(codes@, iso_code_639_3_lookup(), i) && (r->Err_0 matches LinguaError::UnknownIsoCode639_3(t) && t == codes@[i]),
    {
        match parse_iso_codes_639_3(codes) {
            Ok(parsed) => Ok(DetectorBuilder::new(engine_from_iso_codes_639_3(&parsed))),
            Err(e) => Err(e),
        }
    }

    /// Whether the builder still holds its configuration.
    pub fn is_configured(&self) -> (r: bool)
        ensures
            r == self@ is Some,
    {
        self.slot.is_some()
    }

    /// Moves the configuration out, leaving the builder consumed; fails with
    /// `AlreadyConsumed` where it was consumed already.
    pub fn take_builder(&mut self) -> (r: Result<LanguageDetectorBuilder, LinguaError>)
        ensures
            final(self)@ is None,
            old(self)@ is Some ==> r == Ok::<LanguageDetectorBuilder, LinguaError>(old(self)@->0),
            old(self)@ is None ==> r == Err::<LanguageDetectorBuilder, LinguaError>(LinguaError::AlreadyConsumed),
    {
        match self.slot.take() {
            Some(engine) => Ok(engine),
            None => Err(LinguaError::AlreadyConsumed),
        }
    }

    /// Puts a configuration (back) into the builder.
    pub fn restore(&mut self, engine: LanguageDetectorBuilder)
        ensures
            final(self)@ == Some(engine),
    {
        self.slot = Some(engine);
    }

    /// Makes the built detector load every language model eagerly.
    pub fn with_preloaded_language_models(&mut self) -> (r: Result<(), LinguaError>)
        ensures
            old(self)@ is None ==> r == Err::<(), LinguaError>(LinguaError::AlreadyConsumed) && final(self)@ is None,
            old(self)@ is Some ==> r is Ok && final(self)@ is Some
                && builder_languages(final(self)@->0) == builder_languages(old(self)@->0)
                && preloads_language_models(final(self)@->0)
                && low_accuracy_mode_enabled(final(self)@->0) == low_accuracy_mode_enabled(old(self)@->0),
    {
        let mut engine = match self.take_builder() {
            Ok(engine) => engine,
            Err(e) => return Err(e),
        };
        engine_preload_language_models(&mut engine);
        self.restore(engine);
        Ok(())
    }

    /// Makes the built detector use the low-accuracy mode.
    pub fn with_low_accuracy_mode(&mut self) -> (r: Result<(), LinguaError>)
        ensures
            old(self)@ is None ==> r == Err::<(), LinguaError>(LinguaError::AlreadyConsumed) && final(self)@ is None,
            old(self)@ is Some ==> r is Ok && final(self)@ is Some
                && builder_languages(final(self)@->0) == builder_languages(old(self)@->0)
                && preloads_language_models(final(self)@->0) == preloads_language_models(old(self)@->0)
                && low_accuracy_mode_enabled(final(self)@->0),
    {
        let mut engine = match self.take_builder() {
            Ok(engine) => engine,
            Err(e) => return Err(e),
        };
        engine_low_accuracy_mode(&mut engine);
        self.restore(engine);
        Ok(())
    }

    /// Consumes the configuration into a detector; fails with
    /// `AlreadyConsumed` on a builder that has been built already.
    pub fn build(&mut self) -> (r: Result<Detector, LinguaError>)
        ensures
            final(self)@ is None,
            r is Ok <==> build_succeeds(old(self)@),
            r is Ok ==> detector_languages(r->Ok_0@) == builder_languages(old(self)@->0)
                && detector_low_accuracy_mode(r->Ok_0@) == low_accuracy_mode_enabled(old(self)@->0),
            r is Err ==> r->Err_0 == LinguaError::AlreadyConsumed,
    {
        match self.take_builder() {
            Ok(engine) => Ok(Detector::new(engine_build(engine))),
            Err(e) => Err(e),
        }
    }
}

/// Building twice from one builder: the first build succeeds and leaves the
/// builder consumed, so that the second one fails.
pub proof fn lemma_build_consumes_once(b: LanguageDetectorBuilder)
    ensures
        build_succeeds(Some(b)),
        !build_succeeds(None::<LanguageDetectorBuilder>),
{
}

/// The factories that take a list reject an empty one as an invalid
/// argument, whichever kind of identifier the list holds.
pub proof fn lemma_empty_lists_are_invalid_arguments()
    ensures
        LinguaError::EmptyLanguages.spec_kind() == ErrorKind::InvalidArgument,
        LinguaError::EmptyIsoCodes639_1.spec_kind() == ErrorKind::InvalidArgument,
        LinguaError::EmptyIsoCodes639_3.spec_kind() == ErrorKind::InvalidArgument,
{
}

} // verus!
