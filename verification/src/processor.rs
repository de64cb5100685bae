//! The extraction orchestrator: judge the direct text-layer pass and
//! decide whether to finish, fail, or escalate to OCR.
//!
//! The external tools run outside the library, so the call proceeds in
//! pauses: `extract_text` validates the document and hands it back for
//! the direct pass (whose tool can abort on malformed input, so the
//! caller runs it under a panic guard); `resume_with_direct` judges the
//! outcome; and when OCR is needed, `resume_with_ocr` finishes the call
//! from the recognition toolchain's per-page report. Everything decided
//! here — validation, quality thresholds, escalation, merging, metadata
//! assembly — is verified.

use vstd::prelude::*;

use crate::errors::AppError;
use crate::metadata::{decode_metadata, decoded_metadata};
use crate::models::{is_pdf_spec, ExtractData, PdfMetadata, ProcessedFile};
use crate::ocr::{collect_ocr_pages, likely_scanned, ocr_pages_text, OcrRun, OcrService};
use crate::pdfio::{load_info_author, load_info_title, load_page_count};
use crate::text::{
    alpha_count, chars_to_string, count_alphabetic, string_to_chars, trim_chars, trim_spec,
};

verus! {

/// The PDF text-extraction pipeline.
pub struct PdfProcessor;

/// A finished extraction: text, page count, metadata, and the
/// caller-measured wall-clock time of the whole call.
#[derive(Debug)]
pub struct ExtractionResult {
    pub text: String,
    pub pages: usize,
    pub metadata: PdfMetadata,
    pub processing_time_ms: u64,
}

impl ExtractionResult {
    /// Attach the caller-measured elapsed time to a finished payload.
    pub fn from_data(data: ExtractData, processing_time_ms: u64) -> (r: ExtractionResult)
        ensures
            r.text == data.text,
            r.pages == data.pages,
            r.metadata == data.metadata,
            r.processing_time_ms == processing_time_ms,
    {
        ExtractionResult {
            text: data.text,
            pages: data.pages,
            metadata: data.metadata,
            processing_time_ms,
        }
    }
}

/// Why OCR is being run: to recover from a failed direct pass, to fill
/// in for an empty one, or to try improving a weak one.
#[derive(Debug)]
pub enum OcrMode {
    Recover { direct_error: String },
    Empty,
    Enhance { direct_text: String },
}

/// An extraction waiting on the OCR toolchain: the document bytes to
/// rasterize and the reason OCR was asked for.
#[derive(Debug)]
pub struct PendingOcr {
    pub mode: OcrMode,
    pub file_size: usize,
    pub content: Vec<u8>,
}

/// What `resume_with_direct` decided: the call is finished, or the
/// caller must run OCR and resume.
#[derive(Debug)]
pub enum ExtractStep {
    Finished(ExtractData),
    NeedOcr(PendingOcr),
}

/// A validated extraction waiting on the direct text-layer pass: the
/// document handed back so the caller can run the extraction tool over
/// it, and the engine availability to decide any later escalation.
#[derive(Debug)]
pub struct PendingDirect {
    pub file_size: usize,
    pub content: Vec<u8>,
    pub ocr_available: bool,
}

/// Estimated page count for a buffer whose structure could not be
/// parsed: one page per 50 KiB, and never less than one page.
pub open spec fn fallback_page_estimate(len: nat) -> nat {
    let pages = (len / 1024) / 50;
    if pages < 1 {
        1
    } else {
        pages
    }
}

/// The page count reported given what the structure parser returned:
/// the parsed page-tree size when it parsed (clamped to at least one
/// page), the size-based estimate on a buffer of `len` bytes otherwise.
pub open spec fn pages_from_parse(parsed: Option<usize>, len: nat) -> nat {
    match parsed {
        Some(n) => if n == 0 {
            1
        } else {
            n as nat
        },
        None => fallback_page_estimate(len),
    }
}

/// A finished extraction always reports at least one page, whether the
/// count was parsed or estimated.
pub proof fn lemma_pages_from_parse_positive(parsed: Option<usize>, len: nat)
    ensures
        pages_from_parse(parsed, len) >= 1,
{
}

/// What an Info entry that the structure parser returned decodes to.
pub open spec fn decoded_info(raw: Option<Seq<u8>>) -> Option<Seq<char>> {
    match raw {
        Some(b) => decoded_metadata(b),
        None => None,
    }
}

/// A decode of some raw byte string: all an Info lookup can promise,
/// since the parse of a crafted buffer is not a function of its bytes.
pub open spec fn is_decoded_info(o: Option<String>) -> bool {
    o matches Some(t) ==> exists|raw: Seq<u8>| decoded_metadata(raw) == Some(t@)
}

/// Text too thin to accept as-is: under 100 characters or under 50
/// alphabetic characters.
pub open spec fn weak_text(t: Seq<char>) -> bool {
    t.len() < 100 || alpha_count(t) < 50
}

/// An input the pipeline owes an answer for: it is a PDF and fits the
/// size ceiling.
pub open spec fn admissible_input(file: &ProcessedFile, max_file_size_mb: usize) -> bool {
    is_pdf_spec(file) && file.content@.len() <= max_file_size_mb * 1048576
}

/// An optional string equals an optional character sequence.
pub open spec fn opt_text_matches(o: Option<String>, s: Option<Seq<char>>) -> bool {
    match o {
        Some(a) => s is Some && a@ == s.unwrap(),
        None => s is None,
    }
}

/// A finished payload with the given text, at least one page, and
/// Title/Author that are decodes of whatever Info entries the parse
/// returned. The parse itself carries no contract, so the page count
/// and lookups are pinned one call down, where `finish_from_parse`
/// fixes them as functions of the parsed values.
pub open spec fn finished_assembled(d: ExtractData, size: usize, text: Seq<char>, ocr_used: bool) -> bool {
    &&& d.text@ == text
    &&& d.pages >= 1
    &&& is_decoded_info(d.metadata.title)
    &&& is_decoded_info(d.metadata.author)
    &&& d.metadata.creation_date is None
    &&& d.metadata.modification_date is None
    &&& d.metadata.file_size_bytes == size
    &&& d.metadata.ocr_used == ocr_used
}

/// A finished payload whose text came from OCR on an empty direct pass:
/// no Title/Author lookup, `ocr_used` set.
pub open spec fn finished_ocr_only(d: ExtractData, size: usize, text: Seq<char>) -> bool {
    &&& d.text@ == text
    &&& d.pages >= 1
    &&& d.metadata.title is None
    &&& d.metadata.author is None
    &&& d.metadata.creation_date is None
    &&& d.metadata.modification_date is None
    &&& d.metadata.file_size_bytes == size
    &&& d.metadata.ocr_used == true
}

/// The validated step carries the document it was made from.
pub open spec fn direct_pending_for(d: PendingDirect, file: ProcessedFile) -> bool {
    d.content@ == file.content@ && d.file_size == file.size
}

/// The OCR step carries the document of the step it came from.
pub open spec fn pending_for(p: PendingOcr, d: PendingDirect) -> bool {
    p.content@ == d.content@ && p.file_size == d.file_size
}

/// The OCR toolchain run produced text: images were extracted and the
/// per-page results assembled.
pub open spec fn ocr_run_ok(run: OcrRun) -> bool {
    run matches OcrRun::Pages { page_texts } && page_texts@.len() > 0
}

/// The assembled text of a successful OCR run.
pub open spec fn ocr_run_text(run: OcrRun) -> Seq<char> {
    match run {
        OcrRun::Pages { page_texts } => ocr_pages_text(page_texts@),
        OcrRun::Failed { .. } => Seq::empty(),
    }
}

/// The message of a failed OCR run.
pub open spec fn ocr_run_err(run: OcrRun) -> Seq<char> {
    match run {
        OcrRun::Failed { message } => message@,
        OcrRun::Pages { .. } => "No images could be extracted from the PDF"@,
    }
}

/// Turn an OCR toolchain report into assembled text or a failure
/// message.
fn run_outcome(run: OcrRun) -> (r: Result<String, String>)
    ensures
        r is Ok <==> ocr_run_ok(run),
        r is Ok ==> r.unwrap()@ == ocr_run_text(run),
        r is Err ==> r.unwrap_err()@ == ocr_run_err(run),
{
    match run {
        OcrRun::Pages { page_texts } => {
            match collect_ocr_pages(&page_texts) {
                Ok(text) => Ok(text),
                Err(e) => {
                    match e {
                        AppError::OcrError { message } => Err(message),
                        _ => {
                            // collect_ocr_pages only ever reports OcrError.
                            assert(false);
                            Err(String::new())
                        },
                    }
                },
            }
        },
        OcrRun::Failed { message } => Err(message),
    }
}

impl Default for PdfProcessor {
    fn default() -> (r: PdfProcessor)
        ensures
            r == (PdfProcessor),
    {
        PdfProcessor::new()
    }
}

impl PdfProcessor {
    pub fn new() -> (r: PdfProcessor)
        ensures
            r == (PdfProcessor),
    {
        PdfProcessor
    }

    /// The text-layer pipeline needs no external tool.
    pub fn is_available(&self) -> (r: bool)
        ensures
            r == true,
    {
        true
    }

    /// The page count that a parse outcome yields for a buffer of
    /// `len` bytes: the parsed page-tree size (at least one page), else
    /// one page per 50 KiB.
    pub fn pages_from_parsed(&self, parsed: Option<usize>, len: usize) -> (r: usize)
        ensures
            r as nat == pages_from_parse(parsed, len as nat),
            r >= 1,
    {
        match parsed {
            Some(n) => {
                if n == 0 {
                    1
                } else {
                    n
                }
            },
            None => {
                let kb: usize = len / 1024;
                let pages: usize = kb / 50;
                if pages < 1 {
                    1
                } else {
                    pages
                }
            },
        }
    }

    /// Page count for a buffer: run the structure parser and apply the
    /// estimation rule to whatever it returned.
    pub fn estimate_pages(&self, pdf_content: &[u8]) -> (r: usize)
        ensures
            r >= 1,
    {
        let parsed = load_page_count(pdf_content);
        self.pages_from_parsed(parsed, pdf_content.len())
    }

    /// Decode whatever raw Info entry the structure parser returned.
    fn decode_info_entry(&self, raw: Option<Vec<u8>>) -> (r: Option<String>)
        ensures
            opt_text_matches(r, decoded_info(match raw {
                Some(v) => Some(v@),
                None => None,
            })),
            is_decoded_info(r),
    {
        match raw {
            Some(bytes) => {
                let decoded = decode_metadata(bytes.as_slice());
                proof {
                    if decoded is Some {
                        assert(decoded_metadata(bytes@) == Some(decoded.unwrap()@));
                    }
                }
                decoded
            },
            None => None,
        }
    }

    /// The document title: the raw Info entry the parse returned,
    /// decoded and trimmed; absent when the structure does not parse,
    /// the entry is missing, or it decodes to nothing.
    pub fn extract_title(&self, pdf_content: &[u8]) -> (r: Option<String>)
        ensures
            is_decoded_info(r),
    {
        let raw = load_info_title(pdf_content);
        self.decode_info_entry(raw)
    }

    /// The document author, under the same rules as the title.
    pub fn extract_author(&self, pdf_content: &[u8]) -> (r: Option<String>)
        ensures
            is_decoded_info(r),
    {
        let raw = load_info_author(pdf_content);
        self.decode_info_entry(raw)
    }

    /// Assemble a finished payload from what the structure parser
    /// returned: the result is a function of those parsed values.
    fn finish_from_parse(
        &self,
        parsed_pages: Option<usize>,
        raw_title: Option<Vec<u8>>,
        raw_author: Option<Vec<u8>>,
        len: usize,
        size: usize,
        text: String,
        ocr_used: bool,
    ) -> (d: ExtractData)
        ensures
            d.text == text,
            d.pages as nat == pages_from_parse(parsed_pages, len as nat),
            opt_text_matches(d.metadata.title, decoded_info(match raw_title {
                Some(v) => Some(v@),
                None => None,
            })),
            opt_text_matches(d.metadata.author, decoded_info(match raw_author {
                Some(v) => Some(v@),
                None => None,
            })),
            is_decoded_info(d.metadata.title),
            is_decoded_info(d.metadata.author),
            d.metadata.creation_date is None,
            d.metadata.modification_date is None,
            d.metadata.file_size_bytes == size,
            d.metadata.ocr_used == ocr_used,
    {
        let pages = self.pages_from_parsed(parsed_pages, len);
        let title = self.decode_info_entry(raw_title);
        let author = self.decode_info_entry(raw_author);
        let mut metadata = PdfMetadata::new(size).with_title(title).with_author(author);
        if ocr_used {
            metadata = metadata.with_ocr();
        }
        ExtractData { text, pages, metadata }
    }

    /// Run the structure parser and assemble a finished payload from
    /// its outcome.
    fn finish_with_lookup(&self, content: &[u8], size: usize, text: String, ocr_used: bool) -> (d:
        ExtractData)
        ensures
            finished_assembled(d, size, text@, ocr_used),
    {
        let parsed_pages = load_page_count(content);
        let raw_title = load_info_title(content);
        let raw_author = load_info_author(content);
        self.finish_from_parse(
            parsed_pages,
            raw_title,
            raw_author,
            content.len(),
            size,
            text,
            ocr_used,
        )
    }

    /// Validate the document and hand it back for the direct text-layer
    /// pass. The extraction tool can abort on malformed input, so the
    /// caller runs it under a panic guard and resumes with its outcome.
    pub fn extract_text(&self, file: ProcessedFile, max_file_size_mb: usize, ocr_available: bool)
        -> (r: Result<PendingDirect, AppError>)
        requires
            max_file_size_mb * 1048576 <= usize::MAX,
        ensures
            !is_pdf_spec(&file) ==> (r is Err && (r.unwrap_err() matches AppError::InvalidFile {
                message,
            } && message@ == "File is not a valid PDF"@)),
            (is_pdf_spec(&file) && file.content@.len() > max_file_size_mb * 1048576) ==> (r is Err
                && (r.unwrap_err() matches AppError::FileTooLarge { size, limit } && size
                == file.content@.len() / 1048576 && limit == max_file_size_mb)),
            admissible_input(&file, max_file_size_mb) ==> (r is Ok && direct_pending_for(
                r.unwrap(),
                file,
            ) && r.unwrap().ocr_available == ocr_available),
    {
        if !file.is_pdf() {
            return Err(
                AppError::InvalidFile { message: String::from_str("File is not a valid PDF") },
            );
        }
        let max_size_bytes: usize = max_file_size_mb * 1024 * 1024;
        if file.content.len() > max_size_bytes {
            return Err(
                AppError::FileTooLarge {
                    size: file.content.len() / (1024 * 1024),
                    limit: max_file_size_mb,
                },
            );
        }
        Ok(PendingDirect { file_size: file.size, content: file.content, ocr_available })
    }

    /// Judge the outcome of the direct text-layer pass and decide how
    /// the call proceeds.
    ///
    /// - Text at least 100 characters long with at least 50 alphabetic
    ///   characters is accepted as-is; OCR is not consulted.
    /// - Empty text on a document the classifier does not call scanned
    ///   is a valid, empty result — not an error.
    /// - Empty text on a scanned document escalates to OCR, and is an
    ///   error when the engine is missing.
    /// - Weak text asks OCR for a possible improvement when the engine
    ///   is present and the document looks scanned.
    /// - A failure of the direct pass itself retries through OCR once,
    ///   and reports both causes when that path is closed.
    pub fn resume_with_direct(&self, pending: PendingDirect, direct: Result<String, String>) -> (r:
        Result<ExtractStep, AppError>)
        ensures
            direct matches Err(e) ==> (if pending.ocr_available && likely_scanned(
                pending.content@,
            ) {
                r is Ok && (r.unwrap() matches ExtractStep::NeedOcr(p) && pending_for(p, pending)
                    && (p.mode matches OcrMode::Recover { direct_error } && direct_error@ == e@))
            } else {
                r is Err && (r.unwrap_err() matches AppError::ProcessingError { message } && message@
                    == "PDF extraction failed: "@ + e@ + ", OCR failed: "@ + (
                if !pending.ocr_available {
                    "Tesseract OCR not available on this system"@
                } else {
                    "PDF does not appear to contain scanned content that requires OCR"@
                }))
            }),
            direct matches Ok(t) ==> ({
                let trimmed = trim_spec(t@);
                if trimmed.len() == 0 {
                    if !likely_scanned(pending.content@) {
                        r is Ok && (r.unwrap() matches ExtractStep::Finished(d)
                            && finished_assembled(d, pending.file_size, Seq::empty(), false))
                    } else if !pending.ocr_available {
                        r is Err && (r.unwrap_err() matches AppError::ProcessingError { message }
                            && message@
                            == "This PDF appears to be scanned and requires OCR. Tesseract OCR not available on this system"@)
                    } else {
                        r is Ok && (r.unwrap() matches ExtractStep::NeedOcr(p) && pending_for(
                            p,
                            pending,
                        ) && (p.mode matches OcrMode::Empty))
                    }
                } else if weak_text(trimmed) {
                    if pending.ocr_available && likely_scanned(pending.content@) {
                        r is Ok && (r.unwrap() matches ExtractStep::NeedOcr(p) && pending_for(
                            p,
                            pending,
                        ) && (p.mode matches OcrMode::Enhance { direct_text } && direct_text@
                            == trimmed))
                    } else {
                        r is Ok && (r.unwrap() matches ExtractStep::Finished(d)
                            && finished_assembled(d, pending.file_size, trimmed, false))
                    }
                } else {
                    r is Ok && (r.unwrap() matches ExtractStep::Finished(d)
                        && finished_assembled(d, pending.file_size, trimmed, false))
                }
            }),
    {
        match direct {
            Err(e) => {
                // The direct pass itself failed: attempt OCR once. The
                // engine must be present and the document must look
                // scanned; otherwise both causes are reported together.
                if pending.ocr_available && OcrService::is_likely_scanned_pdf(
                    pending.content.as_slice(),
                ) {
                    Ok(
                        ExtractStep::NeedOcr(
                            PendingOcr {
                                mode: OcrMode::Recover { direct_error: e },
                                file_size: pending.file_size,
                                content: pending.content,
                            },
                        ),
                    )
                } else {
                    let cause = if !pending.ocr_available {
                        "Tesseract OCR not available on this system"
                    } else {
                        "PDF does not appear to contain scanned content that requires OCR"
                    };
                    let message = String::from_str("PDF extraction failed: ").concat(
                        e.as_str(),
                    ).concat(", OCR failed: ").concat(cause);
                    Err(AppError::ProcessingError { message })
                }
            },
            Ok(text) => {
                let chars = string_to_chars(text.as_str());
                let trimmed = trim_chars(&chars);
                if trimmed.len() == 0 {
                    // Empty text layer: a scan needs OCR; anything else
                    // is a genuinely textless document.
                    if !OcrService::is_likely_scanned_pdf(pending.content.as_slice()) {
                        let data = self.finish_with_lookup(
                            pending.content.as_slice(),
                            pending.file_size,
                            String::new(),
                            false,
                        );
                        Ok(ExtractStep::Finished(data))
                    } else if !pending.ocr_available {
                        let message = String::from_str(
                            "This PDF appears to be scanned and requires OCR. ",
                        ).concat("Tesseract OCR not available on this system");
                        proof {
                            assert(message@
                                == "This PDF appears to be scanned and requires OCR. Tesseract OCR not available on this system"@)
                                by {
                                reveal_strlit(
                                    "This PDF appears to be scanned and requires OCR. ",
                                );
                                reveal_strlit("Tesseract OCR not available on this system");
                                reveal_strlit(
                                    "This PDF appears to be scanned and requires OCR. Tesseract OCR not available on this system",
                                );
                            }
                        }
                        Err(AppError::ProcessingError { message })
                    } else {
                        Ok(
                            ExtractStep::NeedOcr(
                                PendingOcr {
                                    mode: OcrMode::Empty,
                                    file_size: pending.file_size,
                                    content: pending.content,
                                },
                            ),
                        )
                    }
                } else {
                    let letters = count_alphabetic(&trimmed);
                    let weak = trimmed.len() < 100 || letters < 50;
                    if weak && pending.ocr_available && OcrService::is_likely_scanned_pdf(
                        pending.content.as_slice(),
                    ) {
                        let direct_text = chars_to_string(&trimmed);
                        Ok(
                            ExtractStep::NeedOcr(
                                PendingOcr {
                                    mode: OcrMode::Enhance { direct_text },
                                    file_size: pending.file_size,
                                    content: pending.content,
                                },
                            ),
                        )
                    } else {
                        let final_text = chars_to_string(&trimmed);
                        let data = self.finish_with_lookup(
                            pending.content.as_slice(),
                            pending.file_size,
                            final_text,
                            false,
                        );
                        Ok(ExtractStep::Finished(data))
                    }
                }
            },
        }
    }

    /// Finish a paused extraction from the OCR toolchain's report.
    ///
    /// - After an empty direct pass, successful OCR text becomes the
    ///   result with `ocr_used` set and no Title/Author lookup; an OCR
    ///   failure fails the call.
    /// - After a failed direct pass, successful OCR text becomes the
    ///   result; a failure reports both causes.
    /// - On the enhancement path, OCR text wins only when strictly
    ///   longer than the direct text, and `ocr_used` reflects which
    ///   source won; any OCR failure keeps the direct text.
    pub fn resume_with_ocr(&self, pending: PendingOcr, run: OcrRun) -> (r: Result<
        ExtractData,
        AppError,
    >)
        ensures
            pending.mode matches OcrMode::Empty ==> (if ocr_run_ok(run) {
                r is Ok && finished_ocr_only(r.unwrap(), pending.file_size, ocr_run_text(run))
            } else {
                r is Err && (r.unwrap_err() matches AppError::ProcessingError { message } && message@
                    == "No text found and OCR failed: "@ + ocr_run_err(run))
            }),
            pending.mode matches OcrMode::Recover { direct_error } ==> (if ocr_run_ok(run) {
                r is Ok && finished_assembled(
                    r.unwrap(),
                    pending.file_size,
                    ocr_run_text(run),
                    true,
                )
            } else {
                r is Err && (r.unwrap_err() matches AppError::ProcessingError { message } && message@
                    == "PDF extraction failed: "@ + direct_error@ + ", OCR failed: "@ + ocr_run_err(
                    run,
                ))
            }),
            pending.mode matches OcrMode::Enhance { direct_text } ==> (r is Ok && (if ocr_run_ok(
                run,
            ) && ocr_run_text(run).len() > direct_text@.len() {
                finished_assembled(r.unwrap(), pending.file_size, ocr_run_text(run), true)
            } else {
                finished_assembled(r.unwrap(), pending.file_size, direct_text@, false)
            })),
    {
        let outcome = run_outcome(run);
        match pending.mode {
            OcrMode::Empty => {
                match outcome {
                    Ok(ocr_text) => {
                        let pages = self.estimate_pages(pending.content.as_slice());
                        let metadata = PdfMetadata::new(pending.file_size).with_ocr();
                        Ok(ExtractData { text: ocr_text, pages, metadata })
                    },
                    Err(m) => {
                        let message = String::from_str("No text found and OCR failed: ").concat(
                            m.as_str(),
                        );
                        Err(AppError::ProcessingError { message })
                    },
                }
            },
            OcrMode::Recover { direct_error } => {
                match outcome {
                    Ok(ocr_text) => {
                        let data = self.finish_with_lookup(
                            pending.content.as_slice(),
                            pending.file_size,
                            ocr_text,
                            true,
                        );
                        Ok(data)
                    },
                    Err(m) => {
                        let message = String::from_str("PDF extraction failed: ").concat(
                            direct_error.as_str(),
                        ).concat(", OCR failed: ").concat(m.as_str());
                        Err(AppError::ProcessingError { message })
                    },
                }
            },
            OcrMode::Enhance { direct_text } => {
                match outcome {
                    Ok(ocr_text) => {
                        let ocr_len = ocr_text.as_str().unicode_len();
                        let direct_len = direct_text.as_str().unicode_len();
                        if ocr_len > direct_len {
                            let data = self.finish_with_lookup(
                                pending.content.as_slice(),
                                pending.file_size,
                                ocr_text,
                                true,
                            );
                            Ok(data)
                        } else {
                            let data = self.finish_with_lookup(
                                pending.content.as_slice(),
                                pending.file_size,
                                direct_text,
                                false,
                            );
                            Ok(data)
                        }
                    },
                    Err(_) => {
                        let data = self.finish_with_lookup(
                            pending.content.as_slice(),
                            pending.file_size,
                            direct_text,
                            false,
                        );
                        Ok(data)
                    },
                }
            },
        }
    }
}

} // verus!
