//! The lists of supported languages, as canonical names in ascending order.

use lingua::Language;
use vstd::prelude::*;

use crate::parse::language_named;

verus! {

broadcast use vstd::seq_lib::group_to_multiset_ensures;

/// The canonical name under which the engine displays a language.
pub uninterp spec fn language_name(l: Language) -> Seq<char>;

/// Whether the engine counts a language as spoken: every language but Latin.
pub open spec fn is_spoken(l: Language) -> bool {
    language_named(seq!['L', 'a', 't', 'i', 'n']) != Some(l)
}

/// Whether the engine lists a language as written in the Arabic script.
pub uninterp spec fn writes_arabic_script(l: Language) -> bool;

/// Whether the engine lists a language as written in the Cyrillic script.
pub uninterp spec fn writes_cyrillic_script(l: Language) -> bool;

/// Whether the engine lists a language as written in the Devanagari script.
pub uninterp spec fn writes_devanagari_script(l: Language) -> bool;

/// Whether the engine lists a language as written in the Latin script.
pub uninterp spec fn writes_latin_script(l: Language) -> bool;

/// Whether the engine lists a language as written in one script that no
/// other language uses.
pub uninterp spec fn has_single_unique_script(l: Language) -> bool;

/// `a` comes no later than `b` in the lexicographic order of code points.
pub open spec fn name_le(a: Seq<char>, b: Seq<char>) -> bool
    decreases a.len(),
{
    if a.len() == 0 {
        true
    } else if b.len() == 0 {
        false
    } else if a[0] != b[0] {
        (a[0] as u32) < (b[0] as u32)
    } else {
        name_le(a.drop_first(), b.drop_first())
    }
}

/// The names stand in ascending order.
pub open spec fn names_sorted(names: Seq<String>) -> bool {
    forall|i: int, j: int| 0 <= i < j < names.len() ==> name_le(#[trigger] names[i]@, #[trigger] names[j]@)
}

/// `names` holds the name of `l`, and that name reads back as `l`.
pub open spec fn lists_language(names: Seq<String>, l: Language) -> bool {
    exists|i: int|
        0 <= i < names.len() && #[trigger] names[i]@ == language_name(l) && language_named(names[i]@) == Some(l)
}

/// Each of `names` is the name of a language of `languages`, and reads back
/// as that language.
pub open spec fn names_only_of(names: Seq<String>, languages: Seq<Language>) -> bool {
    forall|i: int| 0 <= i < names.len() ==> exists|j: int|
        0 <= j < languages.len() && #[trigger] names[i]@ == language_name(#[trigger] languages[j])
            && language_named(names[i]@) == Some(languages[j])
}

/// `names` lists, by name, every language of which `pred` holds and no other;
/// each listed name reads back as its language.
pub open spec fn lists_exactly(names: Seq<String>, pred: spec_fn(Language) -> bool) -> bool {
    &&& forall|l: Language| #[trigger] pred(l) ==> lists_language(names, l)
    &&& forall|i: int| 0 <= i < names.len() ==> names_a_language(#[trigger] names[i], pred)
}

/// `name` is the name of a language of which `pred` holds, and reads back as it.
pub open spec fn names_a_language(name: String, pred: spec_fn(Language) -> bool) -> bool {
    exists|l: Language| #[trigger] pred(l) && name@ == language_name(l) && language_named(name@) == Some(l)
}

proof fn lemma_lists_exactly(names: Seq<String>, languages: Seq<Language>, pred: spec_fn(Language) -> bool)
    requires
        forall|l: Language| languages.contains(l) <==> #[trigger] pred(l),
        forall|l: Language| languages.contains(l) ==> lists_language(names, l),
        names_only_of(names, languages),
    ensures
        lists_exactly(names, pred),
{
    assert forall|i: int| 0 <= i < names.len() implies names_a_language(#[trigger] names[i], pred) by {
        let j = choose|j: int| 0 <= j < languages.len() && #[trigger] names[i]@ == language_name(#[trigger] languages[j])
            && language_named(names[i]@) == Some(languages[j]);
        assert(languages.contains(languages[j]));
        assert(pred(languages[j]));
    }
}

/// Relies on lingua's `Display` for `Language`, which writes the variant's
/// identifier (its `Debug` form): the result depends on the language alone,
/// and `Language::from_str` (strum's `EnumString`, which reads the variant
/// identifiers) reads it back as the same language.
#[verifier::external_body]
fn name_of(l: &Language) -> (r: String)
    ensures
        r@ == language_name(*l),
        language_named(r@) == Some(*l),
{
    l.to_string()
}

/// Relies on std's `slice::sort` on `String`s, which sorts ascending in the
/// order of `str`: bytes compared lexicographically, which on UTF-8 is the
/// lexicographic order of code points.
#[verifier::external_body]
fn sort_names(names: &mut Vec<String>)
    ensures
        final(names)@.to_multiset() == old(names)@.to_multiset(),
        names_sorted(final(names)@),
{
    names.sort()
}

/// Relies on lingua's `Language::all`, the set of every `Language` variant
/// compiled in, collected in the set's iteration order.
#[verifier::external_body]
pub(crate) fn every_language() -> (r: Vec<Language>)
    ensures
        r@.no_duplicates(),
        forall|l: Language| r@.contains(l),
{
    Language::all().into_iter().collect()
}

/// Relies on lingua's `Language::all_spoken_ones`.
#[verifier::external_body]
fn spoken_ones() -> (r: Vec<Language>)
    ensures
        r@.no_duplicates(),
        forall|l: Language| r@.contains(l) <==> is_spoken(l),
{
    Language::all_spoken_ones().into_iter().collect()
}

/// Relies on lingua's `Language::all_with_arabic_script`.
#[verifier::external_body]
fn with_arabic_script() -> (r: Vec<Language>)
    ensures
        r@.no_duplicates(),
        forall|l: Language| r@.contains(l) <==> writes_arabic_script(l),
{
    Language::all_with_arabic_script().into_iter().collect()
}

/// Relies on lingua's `Language::all_with_cyrillic_script`.
#[verifier::external_body]
fn with_cyrillic_script() -> (r: Vec<Language>)
    ensures
        r@.no_duplicates(),
        forall|l: Language| r@.contains(l) <==> writes_cyrillic_script(l),
{
    Language::all_with_cyrillic_script().into_iter().collect()
}

/// Relies on lingua's `Language::all_with_devanagari_script`.
#[verifier::external_body]
fn with_devanagari_script() -> (r: Vec<Language>)
    ensures
        r@.no_duplicates(),
        forall|l: Language| r@.contains(l) <==> writes_devanagari_script(l),
{
    Language::all_with_devanagari_script().into_iter().collect()
}

/// Relies on lingua's `Language::all_with_latin_script`.
#[verifier::external_body]
fn with_latin_script() -> (r: Vec<Language>)
    ensures
        r@.no_duplicates(),
        forall|l: Language| r@.contains(l) <==> writes_latin_script(l),
{
    Language::all_with_latin_script().into_iter().collect()
}

/// Relies on lingua's `Language::all_with_single_unique_script`.
#[verifier::external_body]
pub(crate) fn with_single_unique_script() -> (r: Vec<Language>)
    ensures
        r@.no_duplicates(),
        forall|l: Language| r@.contains(l) <==> has_single_unique_script(l),
{
    Language::all_with_single_unique_script().into_iter().collect()
}

/// The names of `languages`, in ascending order.
pub fn sorted_names_of(languages: &Vec<Language>) -> (r: Vec<String>)
    ensures
        names_sorted(r@),
        r@.len() == languages@.len(),
        languages@.no_duplicates() ==> r@.no_duplicates(),
        forall|l: Language| languages@.contains(l) ==> lists_language(r@, l),
        names_only_of(r@, languages@),
{
    let mut names: Vec<String> = Vec::new();
    let mut i: usize = 0;
    while i < languages.len()
        invariant
            i <= languages@.len(),
            names@.len() == i,
            forall|j: int| 0 <= j < i ==> (#[trigger] names@[j])@ == language_name(languages@[j]),
            forall|j: int| 0 <= j < i ==> language_named((#[trigger] names@[j])@) == Some(languages@[j]),
        decreases languages@.len() - i,
    {
        names.push(name_of(&languages[i]));
        i += 1;
    }
    let ghost unsorted = names@;
    assert(forall|j: int| 0 <= j < unsorted.len() ==> (#[trigger] unsorted[j])@ == language_name(languages@[j]));
    assert(forall|j: int| 0 <= j < unsorted.len() ==> language_named((#[trigger] unsorted[j])@) == Some(languages@[j]));
    sort_names(&mut names);
    proof {
        assert(names@.to_multiset().len() == unsorted.to_multiset().len());
        assert forall|l: Language| languages@.contains(l) implies lists_language(names@, l) by {
            let j = choose|j: int| 0 <= j < languages@.len() && languages@[j] == l;
            assert(unsorted.contains(unsorted[j]));
            assert(unsorted.to_multiset().count(unsorted[j]) > 0);
            assert(names@.to_multiset().count(unsorted[j]) > 0);
            let k = choose|k: int| 0 <= k < names@.len() && names@[k] == unsorted[j];
            assert(names@[k]@ == language_name(l));
            assert(language_named(names@[k]@) == Some(l));
        }
        assert forall|k: int| 0 <= k < names@.len() implies exists|j: int|
            0 <= j < languages@.len() && #[trigger] names@[k]@ == language_name(#[trigger] languages@[j])
                && language_named(names@[k]@) == Some(languages@[j]) by {
            assert(names@.contains(names@[k]));
            assert(names@.to_multiset().count(names@[k]) > 0);
            assert(unsorted.to_multiset().count(names@[k]) > 0);
            let j = choose|j: int| 0 <= j < unsorted.len() && unsorted[j] == names@[k];
            assert(names@[k]@ == language_name(languages@[j]));
            assert(language_named(names@[k]@) == Some(languages@[j]));
        }
        assert(names_only_of(names@, languages@));
        if languages@.no_duplicates() {
            assert forall|i: int, j: int| 0 <= i < unsorted.len() && 0 <= j < unsorted.len() && i != j
                implies unsorted[i] != unsorted[j] by {
                if unsorted[i] == unsorted[j] {
                    assert(language_named(unsorted[i]@) == Some(languages@[i]));
                    assert(language_named(unsorted[j]@) == Some(languages@[j]));
                }
            }
            assert(unsorted.no_duplicates());
            unsorted.lemma_multiset_has_no_duplicates();
            names@.lemma_multiset_has_no_duplicates_conv();
        }
    }
    names
}

/// The names of every supported language, in ascending order.
pub fn languages() -> (r: Vec<String>)
    ensures
        names_sorted(r@),
        r@.no_duplicates(),
        lists_exactly(r@, |l: Language| true),
{
    let languages = every_language();
    let r = sorted_names_of(&languages);
    proof {
        lemma_lists_exactly(r@, languages@, |l: Language| true);
    }
    r
}

/// The names of the supported spoken languages, in ascending order.
pub fn spoken_languages() -> (r: Vec<String>)
    ensures
        names_sorted(r@),
        r@.no_duplicates(),
        lists_exactly(r@, |l: Language| is_spoken(l)),
{
    let languages = spoken_ones();
    let r = sorted_names_of(&languages);
    proof {
        lemma_lists_exactly(r@, languages@, |l: Language| is_spoken(l));
    }
    r
}

/// The names of the supported languages written in the Arabic script, in
/// ascending order.
pub fn languages_with_arabic_script() -> (r: Vec<String>)
    ensures
        names_sorted(r@),
        r@.no_duplicates(),
        lists_exactly(r@, |l: Language| writes_arabic_script(l)),
{
    let languages = with_arabic_script();
    let r = sorted_names_of(&languages);
    proof {
        lemma_lists_exactly(r@, languages@, |l: Language| writes_arabic_script(l));
    }
    r
}

/// The names of the supported languages written in the Cyrillic script, in
/// ascending order.
pub fn languages_with_cyrillic_script() -> (r: Vec<String>)
    ensures
        names_sorted(r@),
        r@.no_duplicates(),
        lists_exactly(r@, |l: Language| writes_cyrillic_script(l)),
{
    let languages = with_cyrillic_script();
    let r = sorted_names_of(&languages);
    proof {
        lemma_lists_exactly(r@, languages@, |l: Language| writes_cyrillic_script(l));
    }
    r
}

/// The names of the supported languages written in the Devanagari script, in
/// ascending order.
pub fn languages_with_devanagari_script() -> (r: Vec<String>)
    ensures
        names_sorted(r@),
        r@.no_duplicates(),
        lists_exactly(r@, |l: Language| writes_devanagari_script(l)),
{
    let languages = with_devanagari_script();
    let r = sorted_names_of(&languages);
    proof {
        lemma_lists_exactly(r@, languages@, |l: Language| writes_devanagari_script(l));
    }
    r
}

/// The names of the supported languages written in the Latin script, in
/// ascending order.
pub fn languages_with_latin_script() -> (r: Vec<String>)
    ensures
        names_sorted(r@),
        r@.no_duplicates(),
        lists_exactly(r@, |l: Language| writes_latin_script(l)),
{
    let languages = with_latin_script();
    let r = sorted_names_of(&languages);
    proof {
        lemma_lists_exactly(r@, languages@, |l: Language| writes_latin_script(l));
    }
    r
}

/// The names of the supported languages whose script no other supported
/// language uses, in ascending order.
pub fn languages_with_single_unique_script() -> (r: Vec<String>)
    ensures
        names_sorted(r@),
        r@.no_duplicates(),
        lists_exactly(r@, |l: Language| has_single_unique_script(l)),
{
    let languages = with_single_unique_script();
    let r = sorted_names_of(&languages);
    proof {
        lemma_lists_exactly(r@, languages@, |l: Language| has_single_unique_script(l));
    }
    r
}

} // verus!
