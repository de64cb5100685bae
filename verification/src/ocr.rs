//! The OCR side of the pipeline: the scanned-content classifier that
//! decides whether image-based recognition is worth attempting, and the
//! assembly of per-page recognition output into one text.
//!
//! The recognition engine itself is an external tool; this module holds
//! the decisions around it. The engine's presence is probed by the
//! caller and injected, so the logic can be exercised with either
//! answer.

use vstd::prelude::*;

use crate::errors::AppError;
use crate::scan::{contains_token, count_occurrences, count_token, has_token};
use crate::text::{chars_to_string, string_to_chars, trim_chars, trim_spec};

verus! {

/// The token `/Image`.
pub open spec fn tok_image() -> Seq<u8> {
    seq![0x2fu8, 0x49u8, 0x6du8, 0x61u8, 0x67u8, 0x65u8]
}

/// The token `/DCTDecode`.
pub open spec fn tok_dctdecode() -> Seq<u8> {
    seq![0x2fu8, 0x44u8, 0x43u8, 0x54u8, 0x44u8, 0x65u8, 0x63u8, 0x6fu8, 0x64u8, 0x65u8]
}

/// The token `/CCITTFaxDecode`.
pub open spec fn tok_ccittfax() -> Seq<u8> {
    seq![0x2fu8, 0x43u8, 0x43u8, 0x49u8, 0x54u8, 0x54u8, 0x46u8, 0x61u8, 0x78u8, 0x44u8, 0x65u8,
        0x63u8, 0x6fu8, 0x64u8, 0x65u8]
}

/// The token `/JBIG2Decode`.
pub open spec fn tok_jbig2() -> Seq<u8> {
    seq![0x2fu8, 0x4au8, 0x42u8, 0x49u8, 0x47u8, 0x32u8, 0x44u8, 0x65u8, 0x63u8, 0x6fu8, 0x64u8,
        0x65u8]
}

/// The token `/JPXDecode`.
pub open spec fn tok_jpx() -> Seq<u8> {
    seq![0x2fu8, 0x4au8, 0x50u8, 0x58u8, 0x44u8, 0x65u8, 0x63u8, 0x6fu8, 0x64u8, 0x65u8]
}

/// The token `/Font`.
pub open spec fn tok_font() -> Seq<u8> {
    seq![0x2fu8, 0x46u8, 0x6fu8, 0x6eu8, 0x74u8]
}

/// The token `/Text`.
pub open spec fn tok_text() -> Seq<u8> {
    seq![0x2fu8, 0x54u8, 0x65u8, 0x78u8, 0x74u8]
}

/// The text-object begin operator `BT`.
pub open spec fn tok_bt() -> Seq<u8> {
    seq![0x42u8, 0x54u8]
}

/// The text-object end operator `ET`.
pub open spec fn tok_et() -> Seq<u8> {
    seq![0x45u8, 0x54u8]
}

/// The signature `CamScanner`.
pub open spec fn tok_camscanner() -> Seq<u8> {
    seq![0x43u8, 0x61u8, 0x6du8, 0x53u8, 0x63u8, 0x61u8, 0x6eu8, 0x6eu8, 0x65u8, 0x72u8]
}

/// The signature `Adobe Scan`.
pub open spec fn tok_adobe_scan() -> Seq<u8> {
    seq![0x41u8, 0x64u8, 0x6fu8, 0x62u8, 0x65u8, 0x20u8, 0x53u8, 0x63u8, 0x61u8, 0x6eu8]
}

/// The signature `TinyScanner`.
pub open spec fn tok_tinyscanner() -> Seq<u8> {
    seq![0x54u8, 0x69u8, 0x6eu8, 0x79u8, 0x53u8, 0x63u8, 0x61u8, 0x6eu8, 0x6eu8, 0x65u8, 0x72u8]
}

/// The signature `Scanner Pro`.
pub open spec fn tok_scanner_pro() -> Seq<u8> {
    seq![0x53u8, 0x63u8, 0x61u8, 0x6eu8, 0x6eu8, 0x65u8, 0x72u8, 0x20u8, 0x50u8, 0x72u8, 0x6fu8]
}

/// The signature `Genius Scan`.
pub open spec fn tok_genius_scan() -> Seq<u8> {
    seq![0x47u8, 0x65u8, 0x6eu8, 0x69u8, 0x75u8, 0x73u8, 0x20u8, 0x53u8, 0x63u8, 0x61u8, 0x6eu8]
}

/// How many image-indicator tokens the buffer holds: generic image
/// objects plus the image compression filters common in scans.
pub open spec fn image_marker_count(b: Seq<u8>) -> nat {
    count_occurrences(b, tok_image()) + count_occurrences(b, tok_dctdecode()) + count_occurrences(
        b,
        tok_ccittfax(),
    ) + count_occurrences(b, tok_jbig2()) + count_occurrences(b, tok_jpx())
}

/// How many text-indicator tokens the buffer holds: font and text
/// objects plus the text begin/end operators.
pub open spec fn text_marker_count(b: Seq<u8>) -> nat {
    count_occurrences(b, tok_font()) + count_occurrences(b, tok_text()) + count_occurrences(
        b,
        tok_bt(),
    ) + count_occurrences(b, tok_et())
}

/// A known scanning application left its signature in the buffer.
pub open spec fn scan_app_present(b: Seq<u8>) -> bool {
    contains_token(b, tok_camscanner()) || contains_token(b, tok_adobe_scan()) || contains_token(
        b,
        tok_tinyscanner(),
    ) || contains_token(b, tok_scanner_pro()) || contains_token(b, tok_genius_scan())
}

/// The scanned-content heuristic: a scanning-app signature, images with
/// no text at all, many images outnumbering text, or images at more
/// than twice the text markers.
pub open spec fn likely_scanned(b: Seq<u8>) -> bool {
    scan_app_present(b) || (image_marker_count(b) > 0 && text_marker_count(b) == 0) || (
    image_marker_count(b) > 10 && image_marker_count(b) >= text_marker_count(b)) || (
    image_marker_count(b) > 2 * text_marker_count(b))
}

/// The OCR capability: whether the external recognition engine is
/// installed. The caller probes the system and injects the answer.
#[derive(Debug, Clone)]
pub struct OcrService {
    pub engine_available: bool,
}

impl OcrService {
    /// OCR needs an engine: construction fails when none is installed.
    pub fn new(engine_available: bool) -> (r: Result<OcrService, AppError>)
        ensures
            r is Ok <==> engine_available,
            r is Ok ==> r.unwrap().engine_available,
            r is Err ==> (r.unwrap_err() matches AppError::OcrError { message } && message@
                == "Tesseract OCR not available on this system"@),
    {
        if !engine_available {
            return Err(
                AppError::OcrError {
                    message: String::from_str("Tesseract OCR not available on this system"),
                },
            );
        }
        Ok(OcrService { engine_available })
    }

    pub fn is_available(&self) -> (r: bool)
        ensures
            r == self.engine_available,
    {
        self.engine_available
    }

    /// Judge whether the document is likely a scan from its raw bytes.
    pub fn is_likely_scanned_pdf(pdf_data: &[u8]) -> (r: bool)
        ensures
            r == likely_scanned(pdf_data@),
    {
        let h = pdf_data;
        let image_b: Vec<u8> = vec![0x2fu8, 0x49u8, 0x6du8, 0x61u8, 0x67u8, 0x65u8];
        assert(image_b@ == tok_image());
        let dctdecode_b: Vec<u8> = vec![0x2fu8, 0x44u8, 0x43u8, 0x54u8, 0x44u8, 0x65u8, 0x63u8,
            0x6fu8, 0x64u8, 0x65u8];
        assert(dctdecode_b@ == tok_dctdecode());
        let ccittfax_b: Vec<u8> = vec![0x2fu8, 0x43u8, 0x43u8, 0x49u8, 0x54u8, 0x54u8, 0x46u8,
            0x61u8, 0x78u8, 0x44u8, 0x65u8, 0x63u8, 0x6fu8, 0x64u8, 0x65u8];
        assert(ccittfax_b@ == tok_ccittfax());
        let jbig2_b: Vec<u8> = vec![0x2fu8, 0x4au8, 0x42u8, 0x49u8, 0x47u8, 0x32u8, 0x44u8, 0x65u8,
            0x63u8, 0x6fu8, 0x64u8, 0x65u8];
        assert(jbig2_b@ == tok_jbig2());
        let jpx_b: Vec<u8> = vec![0x2fu8, 0x4au8, 0x50u8, 0x58u8, 0x44u8, 0x65u8, 0x63u8, 0x6fu8,
            0x64u8, 0x65u8];
        assert(jpx_b@ == tok_jpx());
        let font_b: Vec<u8> = vec![0x2fu8, 0x46u8, 0x6fu8, 0x6eu8, 0x74u8];
        assert(font_b@ == tok_font());
        let text_b: Vec<u8> = vec![0x2fu8, 0x54u8, 0x65u8, 0x78u8, 0x74u8];
        assert(text_b@ == tok_text());
        let bt_b: Vec<u8> = vec![0x42u8, 0x54u8];
        assert(bt_b@ == tok_bt());
        let et_b: Vec<u8> = vec![0x45u8, 0x54u8];
        assert(et_b@ == tok_et());
        let camscanner_b: Vec<u8> = vec![0x43u8, 0x61u8, 0x6du8, 0x53u8, 0x63u8, 0x61u8, 0x6eu8,
            0x6eu8, 0x65u8, 0x72u8];
        assert(camscanner_b@ == tok_camscanner());
        let adobe_scan_b: Vec<u8> = vec![0x41u8, 0x64u8, 0x6fu8, 0x62u8, 0x65u8, 0x20u8, 0x53u8,
            0x63u8, 0x61u8, 0x6eu8];
        assert(adobe_scan_b@ == tok_adobe_scan());
        let tinyscanner_b: Vec<u8> = vec![0x54u8, 0x69u8, 0x6eu8, 0x79u8, 0x53u8, 0x63u8, 0x61u8,
            0x6eu8, 0x6eu8, 0x65u8, 0x72u8];
        assert(tinyscanner_b@ == tok_tinyscanner());
        let scanner_pro_b: Vec<u8> = vec![0x53u8, 0x63u8, 0x61u8, 0x6eu8, 0x6eu8, 0x65u8, 0x72u8,
            0x20u8, 0x50u8, 0x72u8, 0x6fu8];
        assert(scanner_pro_b@ == tok_scanner_pro());
        let genius_scan_b: Vec<u8> = vec![0x47u8, 0x65u8, 0x6eu8, 0x69u8, 0x75u8, 0x73u8, 0x20u8,
            0x53u8, 0x63u8, 0x61u8, 0x6eu8];
        assert(genius_scan_b@ == tok_genius_scan());
        let has_scan_app = has_token(h, camscanner_b.as_slice()) || has_token(
            h,
            adobe_scan_b.as_slice(),
        ) || has_token(h, tinyscanner_b.as_slice()) || has_token(h, scanner_pro_b.as_slice())
            || has_token(h, genius_scan_b.as_slice());
        let image_count: u128 = count_token(h, image_b.as_slice()) as u128 + count_token(
            h,
            dctdecode_b.as_slice(),
        ) as u128 + count_token(h, ccittfax_b.as_slice()) as u128 + count_token(
            h,
            jbig2_b.as_slice(),
        ) as u128 + count_token(h, jpx_b.as_slice()) as u128;
        let text_count: u128 = count_token(h, font_b.as_slice()) as u128 + count_token(
            h,
            text_b.as_slice(),
        ) as u128 + count_token(h, bt_b.as_slice()) as u128 + count_token(h, et_b.as_slice())
            as u128;
        assert(image_count == image_marker_count(h@));
        assert(text_count == text_marker_count(h@));
        has_scan_app || (image_count > 0 && text_count == 0) || (image_count > 10 && image_count
            >= text_count) || (image_count > 2 * text_count)
    }
}

/// What one run of the external OCR toolchain reports back: the
/// per-page recognition results (one entry per extracted page image, in
/// listing order, `None` where the engine process failed on that page),
/// or a failure to extract any images at all.
#[derive(Debug)]
pub enum OcrRun {
    Pages { page_texts: Vec<Option<String>> },
    Failed { message: String },
}

/// What one page contributes to the assembled text: its recognized
/// text followed by a blank line, or nothing when recognition failed.
pub open spec fn page_contribution(p: Option<String>) -> Seq<char> {
    match p {
        Some(t) => t@ + seq!['\n', '\n'],
        None => Seq::empty(),
    }
}

/// The concatenation of all page contributions, in page order.
pub open spec fn joined_pages(ps: Seq<Option<String>>) -> Seq<char>
    decreases ps.len(),
{
    if ps.len() == 0 {
        Seq::empty()
    } else {
        page_contribution(ps[0]) + joined_pages(ps.drop_first())
    }
}

/// The assembled OCR text: the joined page outputs, trimmed.
pub open spec fn ocr_pages_text(ps: Seq<Option<String>>) -> Seq<char> {
    trim_spec(joined_pages(ps))
}

proof fn lemma_joined_pages_concat(a: Seq<Option<String>>, b: Seq<Option<String>>)
    ensures
        joined_pages(a + b) == joined_pages(a) + joined_pages(b),
    decreases a.len(),
{
    if a.len() == 0 {
        assert(a + b =~= b);
        assert(joined_pages(a) + joined_pages(b) =~= joined_pages(b));
    } else {
        assert((a + b).drop_first() =~= a.drop_first() + b);
        lemma_joined_pages_concat(a.drop_first(), b);
        assert(joined_pages(a + b) =~= joined_pages(a) + joined_pages(b));
    }
}

proof fn lemma_joined_pages_single(p: Option<String>)
    ensures
        joined_pages(seq![p]) == page_contribution(p),
{
    assert(seq![p].drop_first() =~= Seq::<Option<String>>::empty());
    assert(joined_pages(Seq::<Option<String>>::empty()) =~= Seq::<char>::empty());
    assert(joined_pages(seq![p]) =~= page_contribution(p));
}

/// Assemble the per-page recognition results. No page images at all is
/// an error; otherwise the successful pages are joined with blank
/// lines, failed pages are skipped, and the whole is trimmed — an empty
/// overall result is a valid outcome.
pub fn collect_ocr_pages(page_texts: &Vec<Option<String>>) -> (r: Result<String, AppError>)
    ensures
        r is Ok <==> page_texts@.len() > 0,
        r is Ok ==> r.unwrap()@ == ocr_pages_text(page_texts@),
        r is Err ==> (r.unwrap_err() matches AppError::OcrError { message } && message@
            == "No images could be extracted from the PDF"@),
{
    if page_texts.len() == 0 {
        return Err(
            AppError::OcrError {
                message: String::from_str("No images could be extracted from the PDF"),
            },
        );
    }
    let mut acc = String::new();
    let mut i: usize = 0;
    proof {
        reveal_strlit("\n\n");
        assert("\n\n"@ =~= seq!['\n', '\n']);
    }
    while i < page_texts.len()
        invariant
            i <= page_texts@.len(),
            acc@ == joined_pages(page_texts@.take(i as int)),
            "\n\n"@ == seq!['\n', '\n'],
        decreases page_texts@.len() - i,
    {
        proof {
            assert(page_texts@.take(i as int + 1) =~= page_texts@.take(i as int) + seq![
                page_texts@[i as int],
            ]);
            lemma_joined_pages_concat(page_texts@.take(i as int), seq![page_texts@[i as int]]);
            lemma_joined_pages_single(page_texts@[i as int]);
        }
        match &page_texts[i] {
            Some(t) => {
                acc.append(t.as_str());
                acc.append("\n\n");
            },
            None => {
            },
        }
        i = i + 1;
    }
    proof {
        assert(page_texts@.take(page_texts@.len() as int) =~= page_texts@);
    }
    let chars = string_to_chars(acc.as_str());
    let trimmed = trim_chars(&chars);
    Ok(chars_to_string(&trimmed))
}

} // verus!
