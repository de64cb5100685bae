//! Decoding of raw document-info byte strings (Title/Author) into
//! readable text. A raw value may carry a UTF-16 byte-order mark, be
//! UTF-16 without a mark (betrayed by its many zero bytes), or be plain
//! UTF-8/ASCII. The decoded text is trimmed; an empty result counts as
//! absent.

use vstd::prelude::*;

use crate::text::{chars_to_string, string_to_chars, trim_chars, trim_spec};
use crate::utf16::{
    decode_utf16_be_spec, decode_utf16_le_spec, encode_utf16_be_spec, encode_utf16_le_spec,
    lemma_decode_encode_utf16_be, lemma_decode_encode_utf16_le,
};

verus! {

/// How many zero bytes a byte string holds.
pub open spec fn zero_count(b: Seq<u8>) -> nat
    decreases b.len(),
{
    if b.len() == 0 {
        0
    } else {
        zero_count(b.drop_last()) + (if b.last() == 0 {
            1nat
        } else {
            0nat
        })
    }
}

/// A byte string that is probably UTF-16 without a byte-order mark:
/// more than a third of its bytes are zero.
pub open spec fn looks_utf16_spec(b: Seq<u8>) -> bool {
    zero_count(b) > b.len() / 3
}

/// Does this byte string look like UTF-16 text without a byte-order
/// mark?
pub fn looks_like_utf16(bytes: &[u8]) -> (r: bool)
    ensures
        r == looks_utf16_spec(bytes@),
{
    let mut zeros: usize = 0;
    let mut i: usize = 0;
    while i < bytes.len()
        invariant
            i <= bytes@.len() == bytes.len(),
            zeros == zero_count(bytes@.take(i as int)),
            zeros <= i,
        decreases bytes@.len() - i,
    {
        proof {
            assert(bytes@.take(i as int + 1).drop_last() =~= bytes@.take(i as int));
            assert(bytes@.take(i as int + 1).last() == bytes@[i as int]);
        }
        if bytes[i] == 0 {
            zeros = zeros + 1;
        }
        i = i + 1;
    }
    proof {
        assert(bytes@.take(bytes@.len() as int) =~= bytes@);
    }
    zeros > bytes.len() / 3
}

/// The name of what `String::from_utf8_lossy` yields on a byte string.
pub uninterp spec fn utf8_lossy_of(b: Seq<u8>) -> Seq<char>;

/// Relies on `String::from_utf8_lossy`: the result depends on the bytes
/// alone, and valid UTF-8 decodes exactly.
#[verifier::external_body]
fn utf8_lossy(bytes: &[u8]) -> (r: String)
    ensures
        r@ == utf8_lossy_of(bytes@),
        vstd::utf8::valid_utf8(bytes@) ==> r@ == vstd::utf8::decode_utf8(bytes@),
{
    String::from_utf8_lossy(bytes).into_owned()
}

/// The bytes after the first two: what remains once a byte-order mark
/// is removed.
fn skip_bom(bytes: &[u8]) -> (r: Vec<u8>)
    requires
        bytes@.len() >= 2,
    ensures
        r@ == bytes@.skip(2),
{
    let mut r: Vec<u8> = Vec::new();
    let mut i: usize = 2;
    while i < bytes.len()
        invariant
            2 <= i <= bytes@.len() == bytes.len(),
            r@ == bytes@.subrange(2, i as int),
        decreases bytes@.len() - i,
    {
        r.push(bytes[i]);
        proof {
            assert(bytes@.subrange(2, i as int + 1) =~= bytes@.subrange(2, i as int).push(
                bytes@[i as int],
            ));
        }
        i = i + 1;
    }
    proof {
        assert(bytes@.subrange(2, bytes@.len() as int) =~= bytes@.skip(2));
    }
    r
}

/// The characters a raw metadata byte string decodes to, before
/// trimming: UTF-16 when a byte-order mark says so or the zero-byte
/// heuristic fires (big-endian in that case), UTF-8 with lossy decoding
/// otherwise.
pub open spec fn decoded_metadata_chars(b: Seq<u8>) -> Seq<char> {
    if b.len() >= 2 && b[0] == 0xFE && b[1] == 0xFF {
        decode_utf16_be_spec(b.skip(2))
    } else if b.len() >= 2 && b[0] == 0xFF && b[1] == 0xFE {
        decode_utf16_le_spec(b.skip(2))
    } else if looks_utf16_spec(b) {
        decode_utf16_be_spec(b)
    } else if vstd::utf8::valid_utf8(b) {
        vstd::utf8::decode_utf8(b)
    } else {
        utf8_lossy_of(b)
    }
}

/// What decoding a raw metadata byte string yields: the trimmed decoded
/// text, or nothing when the trimmed text is empty.
pub open spec fn decoded_metadata(b: Seq<u8>) -> Option<Seq<char>> {
    let t = trim_spec(decoded_metadata_chars(b));
    if t.len() == 0 {
        None
    } else {
        Some(t)
    }
}

/// Decode a raw document-info byte string into readable text; an empty
/// result after trimming counts as absent.
pub fn decode_metadata(bytes: &[u8]) -> (r: Option<String>)
    ensures
        r is Some <==> decoded_metadata(bytes@) is Some,
        r is Some ==> r.unwrap()@ == decoded_metadata(bytes@).unwrap(),
{
    let chars: Vec<char> = if bytes.len() >= 2 && bytes[0] == 0xFE && bytes[1] == 0xFF {
        let tail = skip_bom(bytes);
        crate::utf16::decode_utf16_be_chars(tail.as_slice())
    } else if bytes.len() >= 2 && bytes[0] == 0xFF && bytes[1] == 0xFE {
        let tail = skip_bom(bytes);
        crate::utf16::decode_utf16_le_chars(tail.as_slice())
    } else if looks_like_utf16(bytes) {
        crate::utf16::decode_utf16_be_chars(bytes)
    } else {
        let s = utf8_lossy(bytes);
        string_to_chars(s.as_str())
    };
    assert(chars@ == decoded_metadata_chars(bytes@));
    let t = trim_chars(&chars);
    if t.len() == 0 {
        None
    } else {
        Some(chars_to_string(&t))
    }
}

proof fn lemma_scalar_bytes_plain(scalar: u32)
    requires
        vstd::utf8::is_scalar(scalar),
        scalar != 0,
    ensures
        forall|j: int|
            0 <= j < vstd::utf8::encode_scalar(scalar).len() ==> {
                let byte = #[trigger] vstd::utf8::encode_scalar(scalar)[j];
                byte != 0 && byte != 0xFE && byte != 0xFF
            },
{
    if vstd::utf8::has_width_1_encoding(scalar) {
        assert(scalar <= 0x7F && scalar != 0 ==> ((scalar & 0x7F) as u8) != 0 && ((scalar
            & 0x7F) as u8) <= 0x7F) by (bit_vector);
    } else if vstd::utf8::has_width_2_encoding(scalar) {
        assert((0xC0u8 | (((scalar >> 6) & 0x1F) as u8)) >= 0xC0 && (0xC0u8 | (((scalar >> 6)
            & 0x1F) as u8)) <= 0xDF) by (bit_vector);
        assert((0x80u8 | ((scalar & 0x3F) as u8)) >= 0x80 && (0x80u8 | ((scalar & 0x3F) as u8))
            <= 0xBF) by (bit_vector);
    } else if vstd::utf8::has_width_3_encoding(scalar) {
        assert((0xE0u8 | (((scalar >> 12) & 0x0F) as u8)) >= 0xE0 && (0xE0u8 | (((scalar >> 12)
            & 0x0F) as u8)) <= 0xEF) by (bit_vector);
        assert((0x80u8 | (((scalar >> 6) & 0x3F) as u8)) >= 0x80 && (0x80u8 | (((scalar >> 6)
            & 0x3F) as u8)) <= 0xBF) by (bit_vector);
        assert((0x80u8 | ((scalar & 0x3F) as u8)) >= 0x80 && (0x80u8 | ((scalar & 0x3F) as u8))
            <= 0xBF) by (bit_vector);
    } else {
        assert((0xF0u8 | (((scalar >> 18) & 0x7) as u8)) >= 0xF0 && (0xF0u8 | (((scalar >> 18)
            & 0x7) as u8)) <= 0xF7) by (bit_vector);
        assert((0x80u8 | (((scalar >> 12) & 0x3F) as u8)) >= 0x80 && (0x80u8 | (((scalar >> 12)
            & 0x3F) as u8)) <= 0xBF) by (bit_vector);
        assert((0x80u8 | (((scalar >> 6) & 0x3F) as u8)) >= 0x80 && (0x80u8 | (((scalar >> 6)
            & 0x3F) as u8)) <= 0xBF) by (bit_vector);
        assert((0x80u8 | ((scalar & 0x3F) as u8)) >= 0x80 && (0x80u8 | ((scalar & 0x3F) as u8))
            <= 0xBF) by (bit_vector);
    }
}

/// Every byte of the UTF-8 encoding of a null-free character sequence
/// is neither zero nor a byte-order-mark byte.
proof fn lemma_encode_utf8_bytes_plain(s: Seq<char>)
    requires
        forall|i: int| 0 <= i < s.len() ==> #[trigger] s[i] != '\0',
    ensures
        forall|j: int|
            0 <= j < vstd::utf8::encode_utf8(s).len() ==> {
                let byte = #[trigger] vstd::utf8::encode_utf8(s)[j];
                byte != 0 && byte != 0xFE && byte != 0xFF
            },
    decreases s.len(),
{
    if s.len() > 0 {
        let c = s[0];
        let cp = c as u32;
        vstd::utf8::char_is_scalar(c);
        assert('\0' as u32 == 0);
        if cp == 0 {
            vstd::utf8::char_u32_cast(c, cp);
            vstd::utf8::char_u32_cast('\0', 0);
            assert(false);
        }
        lemma_scalar_bytes_plain(cp);
        lemma_encode_utf8_bytes_plain(s.drop_first());
        assert(vstd::utf8::encode_utf8(s) == vstd::utf8::encode_scalar(cp)
            + vstd::utf8::encode_utf8(s.drop_first()));
    }
}

proof fn lemma_zero_count_zero(b: Seq<u8>)
    requires
        forall|j: int| 0 <= j < b.len() ==> #[trigger] b[j] != 0,
    ensures
        zero_count(b) == 0,
    decreases b.len(),
{
    if b.len() > 0 {
        lemma_zero_count_zero(b.drop_last());
    }
}

/// Round trip: a sequence of non-null characters, encoded as
/// big-endian UTF-16 behind a byte-order mark, decodes back to its
/// trimmed self — absent when nothing but whitespace remains.
pub proof fn lemma_metadata_round_trip_utf16_be(s: Seq<char>)
    requires
        forall|i: int| 0 <= i < s.len() ==> #[trigger] s[i] != '\0',
    ensures
        decoded_metadata(seq![0xFEu8, 0xFFu8] + encode_utf16_be_spec(s)) == (if trim_spec(
            s,
        ).len() == 0 {
            None::<Seq<char>>
        } else {
            Some(trim_spec(s))
        }),
{
    let b = seq![0xFEu8, 0xFFu8] + encode_utf16_be_spec(s);
    assert(b[0] == 0xFE && b[1] == 0xFF);
    assert(b.skip(2) =~= encode_utf16_be_spec(s));
    lemma_decode_encode_utf16_be(s);
    assert(decoded_metadata_chars(b) == s);
}

/// Round trip, little-endian form.
pub proof fn lemma_metadata_round_trip_utf16_le(s: Seq<char>)
    requires
        forall|i: int| 0 <= i < s.len() ==> #[trigger] s[i] != '\0',
    ensures
        decoded_metadata(seq![0xFFu8, 0xFEu8] + encode_utf16_le_spec(s)) == (if trim_spec(
            s,
        ).len() == 0 {
            None::<Seq<char>>
        } else {
            Some(trim_spec(s))
        }),
{
    let b = seq![0xFFu8, 0xFEu8] + encode_utf16_le_spec(s);
    assert(b[0] == 0xFF && b[1] == 0xFE);
    assert(b.skip(2) =~= encode_utf16_le_spec(s));
    lemma_decode_encode_utf16_le(s);
    assert(decoded_metadata_chars(b) == s);
}

/// Round trip: a null-free character sequence, encoded as UTF-8,
/// decodes back to its trimmed self — absent when nothing but
/// whitespace remains.
pub proof fn lemma_metadata_round_trip_utf8(s: Seq<char>)
    requires
        forall|i: int| 0 <= i < s.len() ==> #[trigger] s[i] != '\0',
    ensures
        decoded_metadata(vstd::utf8::encode_utf8(s)) == (if trim_spec(s).len() == 0 {
            None::<Seq<char>>
        } else {
            Some(trim_spec(s))
        }),
{
    let b = vstd::utf8::encode_utf8(s);
    broadcast use vstd::utf8::encode_utf8_valid_utf8;
    broadcast use vstd::utf8::encode_utf8_decode_utf8;

    if s.len() == 0 {
        assert(b =~= Seq::<u8>::empty());
        assert(zero_count(b) == 0);
        assert(!looks_utf16_spec(b));
        assert(decoded_metadata_chars(b) == s);
    } else {
        lemma_encode_utf8_bytes_plain(s);
        vstd::utf8::char_is_scalar(s[0]);
        assert(vstd::utf8::encode_utf8(s) == vstd::utf8::encode_scalar(s[0] as u32)
            + vstd::utf8::encode_utf8(s.drop_first()));
        assert(vstd::utf8::encode_scalar(s[0] as u32).len() >= 1);
        assert(b.len() >= 1);
        assert(b[0] != 0xFE && b[0] != 0xFF);
        lemma_zero_count_zero(b);
        assert(!looks_utf16_spec(b));
        assert(vstd::utf8::valid_utf8(b));
        assert(decoded_metadata_chars(b) == s);
    }
}

} // verus!
