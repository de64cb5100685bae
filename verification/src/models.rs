//! The data model: the incoming document, the extraction result, and
//! the response shapes handed to the transport layer.

use vstd::prelude::*;

use crate::text::{chars_end_with, ends_with_spec, string_to_chars};

verus! {

/// A request body naming a file, as the transport layer reports it.
#[derive(Debug)]
pub struct ExtractRequest {
    pub file_name: Option<String>,
    pub file_size: Option<usize>,
}

/// A document handed in for extraction: raw bytes plus the declared
/// name and MIME type.
#[derive(Debug, Clone)]
pub struct ProcessedFile {
    pub name: String,
    pub size: usize,
    pub content: Vec<u8>,
    pub mime_type: Option<String>,
}

/// The name of what `str::to_lowercase` yields: the result depends on
/// the characters alone.
pub uninterp spec fn lower_of(s: Seq<char>) -> Seq<char>;

/// Relies on `str::to_lowercase` for case-insensitive filename checks.
#[verifier::external_body]
fn lowercase(s: &str) -> (r: String)
    ensures
        r@ == lower_of(s@),
{
    s.to_lowercase()
}

/// The `%PDF` content signature.
pub open spec fn pdf_signature() -> Seq<u8> {
    seq![0x25u8, 0x50u8, 0x44u8, 0x46u8]
}

/// Whether a file counts as a PDF: any one of the declared MIME type,
/// a `.pdf` filename (case-insensitive), or the `%PDF` content
/// signature suffices.
pub open spec fn is_pdf_spec(f: &ProcessedFile) -> bool {
    ||| (f.mime_type matches Some(m) && m@ == "application/pdf"@)
    ||| ends_with_spec(lower_of(f.name@), seq!['.', 'p', 'd', 'f'])
    ||| (f.content@.len() >= 4 && f.content@.subrange(0, 4) == pdf_signature())
}

impl ProcessedFile {
    pub fn new(name: String, content: Vec<u8>) -> (r: ProcessedFile)
        ensures
            r.name == name,
            r.content == content,
            r.size == content@.len(),
            r.mime_type is None,
    {
        let size = content.len();
        ProcessedFile { name, size, content, mime_type: None }
    }

    pub fn with_mime_type(self, mime_type: String) -> (r: ProcessedFile)
        ensures
            r.name == self.name,
            r.size == self.size,
            r.content == self.content,
            r.mime_type == Some(mime_type),
    {
        ProcessedFile { mime_type: Some(mime_type), ..self }
    }

    pub fn is_pdf(&self) -> (r: bool)
        ensures
            r == is_pdf_spec(self),
    {
        let mime_matches = match &self.mime_type {
            Some(m) => {
                let expected = String::from_str("application/pdf");
                *m == expected
            },
            None => false,
        };
        if mime_matches {
            return true;
        }
        let lower = lowercase(self.name.as_str());
        let lower_chars = string_to_chars(lower.as_str());
        let suffix: Vec<char> = vec!['.', 'p', 'd', 'f'];
        if chars_end_with(&lower_chars, &suffix) {
            return true;
        }
        let sig: Vec<u8> = vec![0x25u8, 0x50u8, 0x44u8, 0x46u8];
        crate::scan::starts_with(self.content.as_slice(), sig.as_slice())
    }
}

/// Document-level metadata assembled while an extraction call runs.
/// Timestamps are seconds since the Unix epoch. `ocr_used` is true
/// exactly when the returned text came from the OCR engine.
#[derive(Debug, Clone)]
pub struct PdfMetadata {
    pub title: Option<String>,
    pub author: Option<String>,
    pub creation_date: Option<i64>,
    pub modification_date: Option<i64>,
    pub file_size_bytes: usize,
    pub ocr_used: bool,
}

impl PdfMetadata {
    pub fn new(file_size_bytes: usize) -> (r: PdfMetadata)
        ensures
            r.title is None,
            r.author is None,
            r.creation_date is None,
            r.modification_date is None,
            r.file_size_bytes == file_size_bytes,
            r.ocr_used == false,
    {
        PdfMetadata {
            title: None,
            author: None,
            creation_date: None,
            modification_date: None,
            file_size_bytes,
            ocr_used: false,
        }
    }

    pub fn with_ocr(self) -> (r: PdfMetadata)
        ensures
            r == (PdfMetadata { ocr_used: true, ..self }),
    {
        PdfMetadata { ocr_used: true, ..self }
    }

    pub fn with_title(self, title: Option<String>) -> (r: PdfMetadata)
        ensures
            r == (PdfMetadata { title, ..self }),
    {
        PdfMetadata { title, ..self }
    }

    pub fn with_author(self, author: Option<String>) -> (r: PdfMetadata)
        ensures
            r == (PdfMetadata { author, ..self }),
    {
        PdfMetadata { author, ..self }
    }

    pub fn with_dates(self, creation_date: Option<i64>, modification_date: Option<i64>) -> (r:
        PdfMetadata)
        ensures
            r == (PdfMetadata { creation_date, modification_date, ..self }),
    {
        PdfMetadata { creation_date, modification_date, ..self }
    }
}

/// The payload of a successful extraction: text, page count, metadata.
#[derive(Debug)]
pub struct ExtractData {
    pub text: String,
    pub pages: usize,
    pub metadata: PdfMetadata,
}

/// A successful extraction response, as the transport layer serializes
/// it.
#[derive(Debug)]
pub struct ExtractResponse {
    pub success: bool,
    pub data: ExtractData,
    pub processing_time_ms: u64,
}

impl ExtractResponse {
    pub fn new(text: String, pages: usize, metadata: PdfMetadata, processing_time_ms: u64) -> (r:
        ExtractResponse)
        ensures
            r.success == true,
            r.data.text == text,
            r.data.pages == pages,
            r.data.metadata == metadata,
            r.processing_time_ms == processing_time_ms,
    {
        ExtractResponse { success: true, data: ExtractData { text, pages, metadata }, processing_time_ms }
    }
}

/// The health report shape.
#[derive(Debug)]
pub struct HealthResponse {
    pub status: String,
    pub version: String,
    pub service: String,
    pub uptime_seconds: Option<u64>,
}

/// The error response shape.
#[derive(Debug)]
pub struct ErrorResponse {
    pub success: bool,
    pub error: ErrorDetail,
}

#[derive(Debug)]
pub struct ErrorDetail {
    pub code: String,
    pub message: String,
}

} // verus!
