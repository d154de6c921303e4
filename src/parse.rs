//! Conversion of free-form identifiers (language names, ISO 639-1 codes and
//! ISO 639-3 codes) into the engine's typed identifiers.
//!
//! The accepted spellings are the engine's own vocabulary; the library adds
//! the list discipline: an empty list is rejected, the first unknown token is
//! reported, and otherwise every token is converted in input order.

use lingua::{IsoCode639_1, IsoCode639_3, Language};
use std::str::FromStr;
use vstd::prelude::*;

use crate::error::LinguaError;

verus! {

/// The language that the engine reads from a name, if any.
pub uninterp spec fn language_named(name: Seq<char>) -> Option<Language>;

/// The ISO 639-1 code that the engine reads from a token, if any.
pub uninterp spec fn iso_code_639_1_named(code: Seq<char>) -> Option<IsoCode639_1>;

/// The ISO 639-3 code that the engine reads from a token, if any.
pub uninterp spec fn iso_code_639_3_named(code: Seq<char>) -> Option<IsoCode639_3>;

/// Relies on lingua's `Language::from_str` (derived by strum's `EnumString`,
/// ASCII case-insensitive): a pure lookup of the name in a fixed table.
#[verifier::external_body]
fn language_from_name(name: &str) -> (r: Option<Language>)
    ensures
        r == language_named(name@),
{
    Language::from_str(name).ok()
}

/// Relies on lingua's `IsoCode639_1::from_str` (strum's `EnumString`, ASCII
/// case-insensitive): a pure lookup of the token in a fixed table.
#[verifier::external_body]
fn iso_code_639_1_from_token(code: &str) -> (r: Option<IsoCode639_1>)
    ensures
        r == iso_code_639_1_named(code@),
{
    IsoCode639_1::from_str(code).ok()
}

/// Relies on lingua's `IsoCode639_3::from_str` (strum's `EnumString`, ASCII
/// case-insensitive): a pure lookup of the token in a fixed table.
#[verifier::external_body]
fn iso_code_639_3_from_token(code: &str) -> (r: Option<IsoCode639_3>)
    ensures
        r == iso_code_639_3_named(code@),
{
    IsoCode639_3::from_str(code).ok()
}

/// Every token of `tokens` is recognised by `lookup`.
pub open spec fn all_known<T>(tokens: Seq<String>, lookup: spec_fn(Seq<char>) -> Option<T>) -> bool {
    forall|i: int| 0 <= i < tokens.len() ==> (#[trigger] lookup(tokens[i]@)) is Some
}

/// `i` is the position of the first token of `tokens` that `lookup` does not recognise.
pub open spec fn is_first_unknown<T>(
    tokens: Seq<String>,
    lookup: spec_fn(Seq<char>) -> Option<T>,
    i: int,
) -> bool {
    &&& 0 <= i < tokens.len()
    &&& lookup(tokens[i]@) is None
    &&& forall|j: int| 0 <= j < i ==> (#[trigger] lookup(tokens[j]@)) is Some
}

/// What `lookup` makes of each token, in order.
pub open spec fn looked_up<T>(tokens: Seq<String>, lookup: spec_fn(Seq<char>) -> Option<T>) -> Seq<T> {
    tokens.map_values(|t: String| lookup(t@)->0)
}

/// Language names, read by the engine.
pub open spec fn language_lookup() -> spec_fn(Seq<char>) -> Option<Language> {
    |s: Seq<char>| language_named(s)
}

/// ISO 639-1 codes, read by the engine.
pub open spec fn iso_code_639_1_lookup() -> spec_fn(Seq<char>) -> Option<IsoCode639_1> {
    |s: Seq<char>| iso_code_639_1_named(s)
}

/// ISO 639-3 codes, read by the engine.
pub open spec fn iso_code_639_3_lookup() -> spec_fn(Seq<char>) -> Option<IsoCode639_3> {
    |s: Seq<char>| iso_code_639_3_named(s)
}

/// Converts one language name.
pub fn parse_language_value(name: &str) -> (r: Result<Language, LinguaError>)
    ensures
        language_named(name@) is Some <==> r is Ok,
        r is Ok ==> language_named(name@) == Some(r->Ok_0),
        r is Err ==> (r->Err_0 matches LinguaError::UnknownLanguage(t) && t@ == name@),
{
    match language_from_name(name) {
        Some(language) => Ok(language),
        None => Err(LinguaError::UnknownLanguage(name.to_owned())),
    }
}

/// Converts a non-empty list of language names, in order and without
/// deduplication.
pub fn parse_languages(names: &Vec<String>) -> (r: Result<Vec<Language>, LinguaError>)
    ensures
        names@.len() == 0 ==> r == Err::<Vec<Language>, LinguaError>(LinguaError::EmptyLanguages),
        r is Ok <==> names@.len() > 0 && all_known(names@, language_lookup()),
        r is Ok ==> r->Ok_0@ == looked_up(names@, language_lookup()),
        names@.len() > 0 && !all_known(names@, language_lookup()) ==> exists|i: int|
            #[trigger] is_first_unknown(names@, language_lookup(), i) && (r->Err_0 matches LinguaError::UnknownLanguage(t) && t == names@[i]),
{
    if names.len() == 0 {
        return Err(LinguaError::EmptyLanguages);
    }
    let mut parsed: Vec<Language> = Vec::new();
    let mut i: usize = 0;
    while i < names.len()
        invariant
            i <= names@.len(),
            parsed@ == looked_up(names@.take(i as int), language_lookup()),
            all_known(names@.take(i as int), language_lookup()),
        decreases names@.len() - i,
    {
        match language_from_name(names[i].as_str()) {
            Some(language) => parsed.push(language),
            None => {
                assert(is_first_unknown(names@, language_lookup(), i as int)) by {
                    assert forall|j: int| 0 <= j < i implies (#[trigger] language_lookup()(names@[j]@)) is Some by {
                        assert(names@.take(i as int)[j] == names@[j]);
                    }
                }
                return Err(LinguaError::UnknownLanguage(names[i].clone()));
            },
        }
        proof {
            assert(names@.take(i as int + 1) == names@.take(i as int).push(names@[i as int]));
        }
        i += 1;
    }
    assert(names@.take(names@.len() as int) == names@);
    Ok(parsed)
}

/// Converts a non-empty list of ISO 639-1 codes, in order and without
/// deduplication.
pub fn parse_iso_codes_639_1(codes: &Vec<String>) -> (r: Result<Vec<IsoCode639_1>, LinguaError>)
    ensures
        codes@.len() == 0 ==> r == Err::<Vec<IsoCode639_1>, LinguaError>(LinguaError::EmptyIsoCodes639_1),
        r is Ok <==> codes@.len() > 0 && all_known(codes@, iso_code_639_1_lookup()),
        r is Ok ==> r->Ok_0@ == looked_up(codes@, iso_code_639_1_lookup()),
        codes@.len() > 0 && !all_known(codes@, iso_code_639_1_lookup()) ==> exists|i: int|
            #[trigger] is_first_unknown(codes@, iso_code_639_1_lookup(), i) && (r->Err_0 matches LinguaError::UnknownIsoCode639_1(t) && t == codes@[i]),
{
    if codes.len() == 0 {
        return Err(LinguaError::EmptyIsoCodes639_1);
    }
    let mut parsed: Vec<IsoCode639_1> = Vec::new();
    let mut i: usize = 0;
    while i < codes.len()
        invariant
            i <= codes@.len(),
            parsed@ == looked_up(codes@.take(i as int), iso_code_639_1_lookup()),
            all_known(codes@.take(i as int), iso_code_639_1_lookup()),
        decreases codes@.len() - i,
    {
        match iso_code_639_1_from_token(codes[i].as_str()) {
            Some(code) => parsed.push(code),
            None => {
                assert(is_first_unknown(codes@, iso_code_639_1_lookup(), i as int)) by {
                    assert forall|j: int| 0 <= j < i implies (#[trigger] iso_code_639_1_lookup()(codes@[j]@)) is Some by {
                        assert(codes@.take(i as int)[j] == codes@[j]);
                    }
                }
                return Err(LinguaError::UnknownIsoCode639_1(codes[i].clone()));
            },
        }
        proof {
            assert(codes@.take(i as int + 1) == codes@.take(i as int).push(codes@[i as int]));
        }
        i += 1;
    }
    assert(codes@.take(codes@.len() as int) == codes@);
    Ok(parsed)
}


/// Converts a non-empty list of ISO 639-3 codes, in order and without
/// deduplication.
pub fn parse_iso_codes_639_3(codes: &Vec<String>) -> (r: Result<Vec<IsoCode639_3>, LinguaError>)
    ensures
        codes@.len() == 0 ==> r == Err::<Vec<IsoCode639_3>, LinguaError>(LinguaError::EmptyIsoCodes639_3),
        r is Ok <==> codes@.len() > 0 && all_known(codes@, iso_code_639_3_lookup()),
        r is Ok ==> r->Ok_0@ == looked_up(codes@, iso_code_639_3_lookup()),
        codes@.len() > 0 && !all_known(codes@, iso_code_639_3_lookup()) ==> exists|i: int|
            #[trigger] is_first_unknown(codes@, iso_code_639_3_lookup(), i) && (r->Err_0 matches LinguaError::UnknownIsoCode639_3(t) && t == codes@[i]),
{
    if codes.len() == 0 {
        return Err(LinguaError::EmptyIsoCodes639_3);
    }
    let mut parsed: Vec<IsoCode639_3> = Vec::new();
    let mut i: usize = 0;
    while i < codes.len()
        invariant
            i <= codes@.len(),
            parsed@ == looked_up(codes@.take(i as int), iso_code_639_3_lookup()),
            all_known(codes@.take(i as int), iso_code_639_3_lookup()),
        decreases codes@.len() - i,
    {
        match iso_code_639_3_from_token(codes[i].as_str()) {
            Some(code) => parsed.push(code),
            None => {
                assert(is_first_unknown(codes@, iso_code_639_3_lookup(), i as int)) by {
                    assert forall|j: int| 0 <= j < i implies (#[trigger] iso_code_639_3_lookup()(codes@[j]@)) is Some by {
                        assert(codes@.take(i as int)[j] == codes@[j]);
                    }
                }
                return Err(LinguaError::UnknownIsoCode639_3(codes[i].clone()));
            },
        }
        proof {
            assert(codes@.take(i as int + 1) == codes@.take(i as int).push(codes@[i as int]));
        }
        i += 1;
    }
    assert(codes@.take(codes@.len() as int) == codes@);
    Ok(parsed)
}

} // verus!
