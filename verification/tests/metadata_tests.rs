//! Tests for the metadata decoder: UTF-16 (both endiannesses, with and
//! without byte-order marks), UTF-8, lossy fallback, and trimming.

use elicit::metadata::{decode_metadata, looks_like_utf16};
use elicit::utf16::{decode_utf16_be, decode_utf16_le};

#[test]
fn utf16_be_decodes_pairs() {
    let bytes = [0x00u8, 0x48, 0x00, 0x69];
    assert_eq!(decode_utf16_be(&bytes), "Hi");
}

#[test]
fn utf16_le_decodes_pairs() {
    let bytes = [0x48u8, 0x00, 0x69, 0x00];
    assert_eq!(decode_utf16_le(&bytes), "Hi");
}

#[test]
fn utf16_drops_null_units_and_odd_tail() {
    // "A", a null unit, "B", and a trailing odd byte.
    let bytes = [0x00u8, 0x41, 0x00, 0x00, 0x00, 0x42, 0x7F];
    assert_eq!(decode_utf16_be(&bytes), "AB");
}

#[test]
fn utf16_drops_unpaired_surrogates() {
    // A high surrogate unit not followed by a low one, and a lone low
    // surrogate unit: both dropped.
    let bytes = [0x00u8, 0x41, 0xD8, 0x00, 0x00, 0x42];
    assert_eq!(decode_utf16_be(&bytes), "AB");
    let lone_low = [0xDCu8, 0x00, 0x00, 0x43];
    assert_eq!(decode_utf16_be(&lone_low), "C");
}

#[test]
fn utf16_combines_surrogate_pairs() {
    // The surrogate pair D834 DD1E stands for U+1D11E.
    let be = [0xD8u8, 0x34, 0xDD, 0x1E];
    assert_eq!(decode_utf16_be(&be), "\u{1D11E}");
    let le = [0x34u8, 0xD8, 0x1E, 0xDD];
    assert_eq!(decode_utf16_le(&le), "\u{1D11E}");
}

#[test]
fn metadata_round_trip_supplementary_utf16_be_bom() {
    let bytes = [0xFEu8, 0xFF, 0xD8, 0x34, 0xDD, 0x1E, 0x00, 0x21];
    assert_eq!(decode_metadata(&bytes), Some("\u{1D11E}!".to_string()));
}

#[test]
fn utf16_be_non_ascii_character() {
    // U+00E9, Latin small letter e with acute.
    let bytes = [0x00u8, 0xE9];
    assert_eq!(decode_utf16_be(&bytes), "\u{e9}");
}

#[test]
fn metadata_round_trip_utf16_be_bom() {
    let bytes = [0xFEu8, 0xFF, 0x00, 0x48, 0x00, 0x69];
    assert_eq!(decode_metadata(&bytes), Some("Hi".to_string()));
}

#[test]
fn metadata_round_trip_utf16_le_bom() {
    let bytes = [0xFFu8, 0xFE, 0x48, 0x00, 0x69, 0x00];
    assert_eq!(decode_metadata(&bytes), Some("Hi".to_string()));
}

#[test]
fn metadata_round_trip_utf8() {
    let bytes = "caf\u{e9} au lait".as_bytes();
    assert_eq!(decode_metadata(bytes), Some("caf\u{e9} au lait".to_string()));
}

#[test]
fn metadata_utf16_without_bom_by_zero_heuristic() {
    // Big-endian UTF-16 "Title" with no byte-order mark: half the bytes
    // are zero, so the heuristic decodes it as UTF-16.
    let bytes = [0x00u8, 0x54, 0x00, 0x69, 0x00, 0x74, 0x00, 0x6C, 0x00, 0x65];
    assert!(looks_like_utf16(&bytes));
    assert_eq!(decode_metadata(&bytes), Some("Title".to_string()));
}

#[test]
fn metadata_lossy_decoding_of_invalid_utf8() {
    // 0xC3 starts a two-byte sequence but '(' cannot continue it, so the
    // lossy pass substitutes the replacement character.
    let bytes = [0xC3u8, 0x28];
    assert_eq!(decode_metadata(&bytes), Some("\u{FFFD}(".to_string()));
}

#[test]
fn metadata_trims_whitespace() {
    let bytes = "  hello  ".as_bytes();
    assert_eq!(decode_metadata(bytes), Some("hello".to_string()));
}

#[test]
fn metadata_trims_unicode_whitespace() {
    // No-break spaces around the text are trimmed like ASCII spaces.
    let bytes = "\u{a0}spaced\u{a0}".as_bytes();
    assert_eq!(decode_metadata(bytes), Some("spaced".to_string()));
}

#[test]
fn metadata_empty_after_trim_is_absent() {
    assert_eq!(decode_metadata("   ".as_bytes()), None);
    assert_eq!(decode_metadata(&[]), None);
}

#[test]
fn looks_like_utf16_needs_a_third_of_zeros() {
    assert!(!looks_like_utf16("plain ascii text".as_bytes()));
    assert!(looks_like_utf16(&[0x00u8, 0x41, 0x00, 0x42]));
    // Exactly one third of the bytes zero: not enough.
    let third = [0x00u8, 0x41, 0x42];
    assert!(!looks_like_utf16(&third));
}

#[test]
fn single_zero_byte_decodes_as_utf16_and_is_absent() {
    // One zero byte is all zeros, so the heuristic sends it down the
    // UTF-16 path, where it decodes to nothing.
    assert!(looks_like_utf16(&[0x00u8]));
    assert_eq!(decode_metadata(&[0x00u8]), None);
}
