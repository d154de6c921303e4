//! Declarations of the `lingua` types that run through the library's logic.
//! Each is opaque: the library carries such values without looking inside.

use vstd::prelude::*;

verus! {

#[verifier::external_type_specification]
#[verifier::external_body]
pub struct ExLanguage(lingua::Language);

#[verifier::external_type_specification]
#[verifier::external_body]
pub struct ExIsoCode639_1(lingua::IsoCode639_1);

#[verifier::external_type_specification]
#[verifier::external_body]
pub struct ExIsoCode639_3(lingua::IsoCode639_3);

#[verifier::external_type_specification]
#[verifier::external_body]
pub struct ExLanguageDetectorBuilder(lingua::LanguageDetectorBuilder);

#[verifier::external_type_specification]
#[verifier::external_body]
pub struct ExLanguageDetector(lingua::LanguageDetector);

} // verus!
