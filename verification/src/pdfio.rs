//! The calls into `lopdf`, the PDF structure parser, each behind a
//! trusted declaration: the page tree and the raw document-info
//! entries. The parser resolves duplicate object definitions in a
//! parallel merge whose order is not fixed by the buffer, so nothing is
//! assumed of these results: each caller takes what came back as a
//! value and the verified code states what follows from it.

use vstd::prelude::*;

verus! {

/// Relies on `lopdf::Document::load_mem` and `Document::get_pages` to
/// parse the page-tree size; `None` when the structure cannot be
/// parsed. No contract: on crafted duplicate-object input the parse can
/// resolve differently between runs.
#[verifier::external_body]
pub(crate) fn load_page_count(bytes: &[u8]) -> (r: Option<usize>) {
    match lopdf::Document::load_mem(bytes) {
        Ok(doc) => Some(doc.get_pages().len()),
        Err(_) => None,
    }
}

/// Relies on `lopdf::Document::load_mem`, the trailer dictionary, and
/// `Object::as_str` to read the raw (still encoded) Title entry of the
/// document Info dictionary; `None` when parsing fails or no such entry
/// exists. No contract, for the same reason as the page count.
#[verifier::external_body]
pub(crate) fn load_info_title(bytes: &[u8]) -> (r: Option<Vec<u8>>) {
    let doc = match lopdf::Document::load_mem(bytes) { Ok(d) => d, Err(_) => return None };
    let info_ref = match doc.trailer.get(b"Info") { Ok(o) => o, Err(_) => return None };
    let id = match info_ref.as_reference() { Ok(i) => i, Err(_) => return None };
    let info = match doc.get_object(id) { Ok(o) => o, Err(_) => return None };
    let dict = match info.as_dict() { Ok(d) => d, Err(_) => return None };
    let obj = match dict.get(b"Title") { Ok(o) => o, Err(_) => return None };
    match obj.as_str() { Ok(s) => Some(s.to_vec()), Err(_) => None }
}

/// Relies on the same `lopdf` call path to read the raw Author entry of
/// the document Info dictionary. No contract, as above.
#[verifier::external_body]
pub(crate) fn load_info_author(bytes: &[u8]) -> (r: Option<Vec<u8>>) {
    let doc = match lopdf::Document::load_mem(bytes) { Ok(d) => d, Err(_) => return None };
    let info_ref = match doc.trailer.get(b"Info") { Ok(o) => o, Err(_) => return None };
    let id = match info_ref.as_reference() { Ok(i) => i, Err(_) => return None };
    let info = match doc.get_object(id) { Ok(o) => o, Err(_) => return None };
    let dict = match info.as_dict() { Ok(d) => d, Err(_) => return None };
    let obj = match dict.get(b"Author") { Ok(o) => o, Err(_) => return None };
    match obj.as_str() { Ok(s) => Some(s.to_vec()), Err(_) => None }
}

} // verus!
