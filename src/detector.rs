//! The detector facade: single-text, multi-span and batch detection over an
//! immutable engine detector.

use lingua::{Language, LanguageDetector};
use vstd::prelude::*;
use vstd::string::StringSliceAdditionalSpecFns;
use vstd::utf8::{
    decode_utf8, decode_utf8_split, encode_utf8, encode_utf8_decode_utf8, encode_utf8_valid_utf8,
    is_char_boundary, is_char_boundary_iff_not_is_continuation_byte, is_char_boundary_start_end_of_seq,
    valid_utf8,
};

verus! {

/// A contiguous section of a text that the engine attributes to one language;
/// `start` and `end` are the section's character offsets into the text.
#[derive(Debug, Clone, Copy, PartialEq, Eq)]
pub struct DetectedSpan {
    pub language: Language,
    pub start: usize,
    pub end: usize,
}

/// The languages that an engine detector chooses among.
pub uninterp spec fn detector_languages(detector: LanguageDetector) -> Set<Language>;

/// Whether an engine detector runs in the low-accuracy mode.
pub uninterp spec fn detector_low_accuracy_mode(detector: LanguageDetector) -> bool;

/// What holds of every single-text detection result: an empty text has no
/// language, and a detected language is one the detector chooses among.
pub open spec fn detection_allowed(languages: Set<Language>, text: Seq<char>, r: Option<Language>) -> bool {
    &&& text.len() == 0 ==> r is None
    &&& r is Some ==> languages.contains(r->0)
}

/// What holds of every multi-section result over a text of `len` units: an
/// empty text has no sections; each section is non-empty, ends within the
/// text, is attributed to a language the detector chooses among, and ends
/// no later than the next one starts.
pub open spec fn spans_allowed(languages: Set<Language>, len: int, spans: Seq<DetectedSpan>) -> bool {
    &&& len == 0 ==> spans.len() == 0
    &&& forall|k: int| 0 <= k < spans.len() ==> {
        &&& (#[trigger] spans[k]).start < spans[k].end
        &&& spans[k].end <= len
        &&& languages.contains(spans[k].language)
    }
    &&& forall|k: int| 0 <= k < spans.len() - 1 ==> (#[trigger] spans[k]).end <= spans[k + 1].start
}

/// Sections as the engine reports them, in byte offsets of the UTF-8 text:
/// as `spans_allowed`, with every offset on a character boundary.
pub open spec fn byte_spans_allowed(languages: Set<Language>, text: Seq<char>, spans: Seq<DetectedSpan>) -> bool {
    &&& spans_allowed(languages, encode_utf8(text).len() as int, spans)
    &&& forall|k: int| 0 <= k < spans.len() ==> {
        &&& is_char_boundary(encode_utf8(text), (#[trigger] spans[k]).start as int)
        &&& is_char_boundary(encode_utf8(text), spans[k].end as int)
    }
}

/// The number of characters of `text` in its first `byte` bytes of UTF-8.
pub open spec fn char_offset(text: Seq<char>, byte: int) -> int {
    decode_utf8(encode_utf8(text).subrange(0, byte)).len() as int
}

/// Relies on lingua's `LanguageDetector::detect_language_of`: for an empty
/// text every confidence is zero, which gives `None`, and the result is
/// always taken from the confidence values of the detector's own languages.
#[verifier::external_body]
fn engine_detect_language(detector: &LanguageDetector, text: &str) -> (r: Option<Language>)
    ensures
        detection_allowed(detector_languages(*detector), text@, r),
{
    detector.detect_language_of(text)
}

/// Relies on lingua's `LanguageDetector::detect_languages_in_parallel_of`,
/// which maps `detect_language_of` over the texts and collects in input order.
#[verifier::external_body]
fn engine_detect_languages_in_parallel(detector: &LanguageDetector, texts: &Vec<String>) -> (r: Vec<Option<Language>>)
    ensures
        r@.len() == texts@.len(),
        forall|i: int| 0 <= i < texts@.len() ==> detection_allowed(detector_languages(*detector), texts@[i]@, #[trigger] r@[i]),
{
    detector.detect_languages_in_parallel_of(texts)
}

/// Relies on lingua's `LanguageDetector::detect_multiple_languages_of`: an
/// empty text gives no sections; sections are contiguous, non-empty, bounded
/// by token ends (character boundaries) or the text's byte length, and attributed to languages
/// detected among the detector's own. Offsets are byte offsets.
#[verifier::external_body]
fn engine_detect_multiple_languages(detector: &LanguageDetector, text: &str) -> (r: Vec<DetectedSpan>)
    ensures
        byte_spans_allowed(detector_languages(*detector), text@, r@),
{
    detector.detect_multiple_languages_of(text).into_iter().map(|d| DetectedSpan {
        language: d.language(),
        start: d.start_index(),
        end: d.end_index(),
    }).collect()
}

/// Relies on lingua's `LanguageDetector::detect_multiple_languages_in_parallel_of`,
/// which maps `detect_multiple_languages_of` over the texts in input order.
#[verifier::external_body]
fn engine_detect_multiple_languages_in_parallel(detector: &LanguageDetector, texts: &Vec<String>) -> (r: Vec<Vec<DetectedSpan>>)
    ensures
        r@.len() == texts@.len(),
        forall|i: int| 0 <= i < texts@.len()
            ==> byte_spans_allowed(detector_languages(*detector), texts@[i]@, (#[trigger] r@[i])@),
{
    detector.detect_multiple_languages_in_parallel_of(texts).into_iter().map(|spans| {
        spans.into_iter().map(|d| DetectedSpan {
            language: d.language(),
            start: d.start_index(),
            end: d.end_index(),
        }).collect()
    }).collect()
}

/// Relies on lingua's `LanguageDetector::unload_language_models`, which takes
/// the detector by shared reference and only drops cached model data.
#[verifier::external_body]
fn engine_unload_language_models(detector: &LanguageDetector) {
    detector.unload_language_models()
}

proof fn lemma_boundary_in_suffix(bytes: Seq<u8>, pos: int, index: int)
    requires
        valid_utf8(bytes),
        0 <= pos <= index <= bytes.len(),
        is_char_boundary(bytes, index),
        valid_utf8(bytes.subrange(pos, bytes.len() as int)),
    ensures
        is_char_boundary(bytes.subrange(pos, bytes.len() as int), index - pos),
{
    let rest = bytes.subrange(pos, bytes.len() as int);
    is_char_boundary_start_end_of_seq(rest);
    if index - pos > 0 && index < bytes.len() {
        is_char_boundary_iff_not_is_continuation_byte(bytes, index);
        is_char_boundary_iff_not_is_continuation_byte(rest, index - pos);
        assert(rest[index - pos] == bytes[index]);
    }
}

/// Splitting the rest of a text, which starts at byte `pos`, at byte `cut`
/// splits its characters.
proof fn lemma_split_chars(whole: Seq<char>, left: Seq<char>, right: Seq<char>, bytes: Seq<u8>, pos: int, cut: int)
    requires
        valid_utf8(bytes),
        0 <= pos <= cut <= bytes.len(),
        is_char_boundary(bytes, cut),
        encode_utf8(whole) == bytes.subrange(pos, bytes.len() as int),
        encode_utf8(left) == bytes.subrange(pos, cut),
        encode_utf8(right) == bytes.subrange(cut, bytes.len() as int),
    ensures
        whole == left + right,
{
    let rbytes = bytes.subrange(pos, bytes.len() as int);
    encode_utf8_valid_utf8(whole);
    lemma_boundary_in_suffix(bytes, pos, cut);
    decode_utf8_split(rbytes, cut - pos);
    assert(rbytes.subrange(0, cut - pos) =~= bytes.subrange(pos, cut));
    assert(rbytes.subrange(cut - pos, rbytes.len() as int) =~= bytes.subrange(cut, bytes.len() as int));
    encode_utf8_decode_utf8(whole);
    encode_utf8_decode_utf8(left);
    encode_utf8_decode_utf8(right);
}

/// The characters in the first `b` bytes are those in the first `a` bytes
/// followed by those between `a` and `b`, for boundaries `a <= b`.
proof fn lemma_prefix_chars(bytes: Seq<u8>, a: int, b: int)
    requires
        valid_utf8(bytes),
        0 <= a <= b <= bytes.len(),
        is_char_boundary(bytes, a),
        is_char_boundary(bytes, b),
    ensures
        decode_utf8(bytes.subrange(0, b)) == decode_utf8(bytes.subrange(0, a)) + decode_utf8(bytes.subrange(a, b)),
{
    let pre = bytes.subrange(0, b);
    vstd::utf8::valid_utf8_split(bytes, b);
    is_char_boundary_start_end_of_seq(pre);
    if 0 < a < b {
        is_char_boundary_iff_not_is_continuation_byte(bytes, a);
        is_char_boundary_iff_not_is_continuation_byte(pre, a);
    }
    decode_utf8_split(pre, a);
    assert(pre.subrange(0, a) =~= bytes.subrange(0, a));
    assert(pre.subrange(a, pre.len() as int) =~= bytes.subrange(a, b));
}

/// Turns sections in byte offsets of `text` into sections in character
/// offsets, keeping their languages and order.
#[verifier::rlimit(60)]
fn to_char_spans(text: &str, spans: &Vec<DetectedSpan>, languages: Ghost<Set<Language>>) -> (r: Vec<DetectedSpan>)
    requires
        byte_spans_allowed(languages@, text@, spans@),
    ensures
        spans_allowed(languages@, text@.len() as int, r@),
        r@.len() == spans@.len(),
        forall|k: int| 0 <= k < r@.len() ==> {
            &&& (#[trigger] r@[k]).language == spans@[k].language
            &&& r@[k].start as int == char_offset(text@, spans@[k].start as int)
            &&& r@[k].end as int == char_offset(text@, spans@[k].end as int)
        },
{
    let ghost bytes = encode_utf8(text@);
    let ghost blen = bytes.len() as int;
    proof {
        encode_utf8_valid_utf8(text@);
        is_char_boundary_start_end_of_seq(bytes);
        assert(bytes.subrange(0, blen) =~= bytes);
        assert(bytes.subrange(0, 0) =~= Seq::<u8>::empty());
    }
    let total: usize = text.unicode_len();
    let mut out: Vec<DetectedSpan> = Vec::new();
    let mut rest: &str = text;
    let mut pos: usize = 0;
    let mut cpos: usize = 0;
    let mut k: usize = 0;
    while k < spans.len()
        invariant
            byte_spans_allowed(languages@, text@, spans@),
            bytes == encode_utf8(text@),
            blen == bytes.len(),
            valid_utf8(bytes),
            0 <= pos <= blen,
            is_char_boundary(bytes, pos as int),
            encode_utf8(rest@) == bytes.subrange(pos as int, blen),
            cpos + rest@.len() == text@.len(),
            total == text@.len(),
            cpos as int == char_offset(text@, pos as int),
            k <= spans@.len(),
            k > 0 ==> pos == spans@[k - 1].end,
            k == 0 ==> pos == 0 && cpos == 0,
            out@.len() == k,
            forall|j: int| 0 <= j < k ==> {
                &&& (#[trigger] out@[j]).language == spans@[j].language
                &&& out@[j].start as int == char_offset(text@, spans@[j].start as int)
                &&& out@[j].end as int == char_offset(text@, spans@[j].end as int)
                &&& out@[j].start < out@[j].end
                &&& out@[j].end <= cpos
                &&& languages@.contains(out@[j].language)
            },
            forall|j: int| 0 <= j < k - 1 ==> (#[trigger] out@[j]).end <= out@[j + 1].start,
        decreases spans@.len() - k,
    {
        let span = spans[k];
        assert(spans@[k as int] == span);
        if k > 0 {
            let ghost prev: int = k - 1;
            assert(spans@[prev].end <= spans@[prev + 1].start);
        }
        assert(pos <= span.start);
        proof {
            encode_utf8_valid_utf8(rest@);
            lemma_boundary_in_suffix(bytes, pos as int, span.start as int);
        }
        let (gap, rest1) = rest.split_at(span.start - pos);
        proof {
            assert(gap.spec_bytes() =~= bytes.subrange(pos as int, span.start as int));
            assert(rest1.spec_bytes() =~= bytes.subrange(span.start as int, blen));
            lemma_split_chars(rest@, gap@, rest1@, bytes, pos as int, span.start as int);
            lemma_prefix_chars(bytes, pos as int, span.start as int);
            assert(gap@ == decode_utf8(bytes.subrange(pos as int, span.start as int))) by {
                encode_utf8_decode_utf8(gap@);
            }
            encode_utf8_valid_utf8(rest1@);
            lemma_boundary_in_suffix(bytes, span.start as int, span.end as int);
        }
        let cs = cpos + gap.unicode_len();
        let (mid, rest2) = rest1.split_at(span.end - span.start);
        proof {
            assert(mid.spec_bytes() =~= bytes.subrange(span.start as int, span.end as int));
            assert(rest2.spec_bytes() =~= bytes.subrange(span.end as int, blen));
            lemma_split_chars(rest1@, mid@, rest2@, bytes, span.start as int, span.end as int);
            lemma_prefix_chars(bytes, span.start as int, span.end as int);
            assert(mid@ == decode_utf8(bytes.subrange(span.start as int, span.end as int))) by {
                encode_utf8_decode_utf8(mid@);
            }
            if mid@.len() == 0 {
                assert(mid@ =~= Seq::<char>::empty());
                assert(encode_utf8(mid@).len() == 0);
            }
        }
        let ce = cs + mid.unicode_len();
        out.push(DetectedSpan { language: span.language, start: cs, end: ce });
        rest = rest2;
        pos = span.end;
        cpos = ce;
        k += 1;
    }
    out
}

/// An immutable detector, built once by a `DetectorBuilder`.
pub struct Detector {
    engine: LanguageDetector,
}

impl View for Detector {
    type V = LanguageDetector;

    closed spec fn view(&self) -> LanguageDetector {
        self.engine
    }
}

impl Detector {
    pub(crate) fn new(engine: LanguageDetector) -> (r: Detector)
        ensures
            r@ == engine,
    {
        Detector { engine }
    }

    /// The engine detector, for the engine's own operations.
    pub fn engine(&self) -> (r: &LanguageDetector)
        ensures
            *r == self@,
    {
        &self.engine
    }

    /// Releases the model data that the detector holds; later detections
    /// reload what they need. The detector's configuration is unchanged.
    pub fn unload_language_models(&self) {
        engine_unload_language_models(&self.engine)
    }

    /// The most likely language of the whole text, or `None` where no language
    /// can be reliably told.
    pub fn detect_language(&self, text: &str) -> (r: Option<Language>)
        ensures
            detection_allowed(detector_languages(self@), text@, r),
    {
        engine_detect_language(&self.engine, text)
    }

    /// Single-text detection of each text, with the results in input order.
    pub fn detect_languages_in_parallel(&self, texts: &Vec<String>) -> (r: Vec<Option<Language>>)
        ensures
            r@.len() == texts@.len(),
            forall|i: int| 0 <= i < texts@.len() ==> detection_allowed(detector_languages(self@), texts@[i]@, #[trigger] r@[i]),
    {
        engine_detect_languages_in_parallel(&self.engine, texts)
    }

    /// The single-language sections of a possibly mixed-language text, with
    /// offsets counted in characters.
    pub fn detect_multiple_languages(&self, text: &str) -> (r: Vec<DetectedSpan>)
        ensures
            spans_allowed(detector_languages(self@), text@.len() as int, r@),
    {
        let spans = engine_detect_multiple_languages(&self.engine, text);
        to_char_spans(text, &spans, Ghost(detector_languages(self@)))
    }

    /// Multi-section detection of each text, with the results in input order.
    pub fn detect_multiple_languages_in_parallel(&self, texts: &Vec<String>) -> (r: Vec<Vec<DetectedSpan>>)
        ensures
            r@.len() == texts@.len(),
            forall|i: int| 0 <= i < texts@.len()
                ==> spans_allowed(detector_languages(self@), texts@[i]@.len() as int, (#[trigger] r@[i])@),
    {
        let batches = engine_detect_multiple_languages_in_parallel(&self.engine, texts);
        let mut out: Vec<Vec<DetectedSpan>> = Vec::new();
        let mut i: usize = 0;
        while i < batches.len()
            invariant
                batches@.len() == texts@.len(),
                forall|j: int| 0 <= j < texts@.len()
                    ==> byte_spans_allowed(detector_languages(self@), texts@[j]@, (#[trigger] batches@[j])@),
                i <= batches@.len(),
                out@.len() == i,
                forall|j: int| 0 <= j < i
                    ==> spans_allowed(detector_languages(self@), texts@[j]@.len() as int, (#[trigger] out@[j])@),
            decreases batches@.len() - i,
        {
            assert(byte_spans_allowed(detector_languages(self@), texts@[i as int]@, batches@[i as int]@));
            let spans = to_char_spans(texts[i].as_str(), &batches[i], Ghost(detector_languages(self@)));
            out.push(spans);
            i += 1;
        }
        out
    }
}

} // verus!
