//! A document text-extraction pipeline: given raw PDF bytes, produce
//! best-effort plain text and structural metadata (page count, title,
//! author, whether OCR was used), tolerating malformed documents,
//! textless documents, and scanned-image documents.

pub mod config;
pub mod errors;
pub mod limits;
pub mod metadata;
pub mod models;
pub mod ocr;
pub mod pdfio;
pub mod processor;
pub mod scan;
pub mod text;
pub mod utf16;
pub mod waitlist;
