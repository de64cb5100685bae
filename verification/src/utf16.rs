//! UTF-16 decoding of raw metadata strings. PDF files commonly store
//! Title/Author entries as UTF-16 (big- or little-endian, with or
//! without a byte-order mark). The decoder turns two-byte units into
//! characters, combining surrogate pairs into supplementary characters
//! and dropping null units and unpaired surrogate units.

use vstd::prelude::*;

verus! {

/// A UTF-16 surrogate code unit, which does not stand for a character
/// by itself.
pub open spec fn is_surrogate(cp: u32) -> bool {
    0xD800 <= cp && cp <= 0xDFFF
}

/// A high (leading) surrogate code unit.
pub open spec fn is_high_surrogate(cp: u32) -> bool {
    0xD800 <= cp && cp <= 0xDBFF
}

/// A low (trailing) surrogate code unit.
pub open spec fn is_low_surrogate(cp: u32) -> bool {
    0xDC00 <= cp && cp <= 0xDFFF
}

/// The scalar value a high/low surrogate pair stands for.
pub open spec fn combine_surrogates(hi: u32, lo: u32) -> u32
    recommends
        is_high_surrogate(hi),
        is_low_surrogate(lo),
{
    (0x10000 + (hi - 0xD800) * 0x400 + (lo - 0xDC00)) as u32
}

/// The big-endian two-byte units of a byte string; a trailing odd byte
/// is ignored.
pub open spec fn be_units(b: Seq<u8>) -> Seq<u32>
    decreases b.len(),
{
    if b.len() < 2 {
        Seq::empty()
    } else {
        seq![((b[0] as u32) * 256 + (b[1] as u32)) as u32] + be_units(b.skip(2))
    }
}

/// The little-endian two-byte units of a byte string; a trailing odd
/// byte is ignored.
pub open spec fn le_units(b: Seq<u8>) -> Seq<u32>
    decreases b.len(),
{
    if b.len() < 2 {
        Seq::empty()
    } else {
        seq![((b[1] as u32) * 256 + (b[0] as u32)) as u32] + le_units(b.skip(2))
    }
}

/// The characters a unit sequence decodes to: a high surrogate followed
/// by a low one combines into the supplementary character they encode;
/// null units and unpaired surrogate units are dropped; every other
/// unit stands for itself.
pub open spec fn units_to_chars(us: Seq<u32>) -> Seq<char>
    decreases us.len(),
{
    if us.len() == 0 {
        Seq::empty()
    } else if us[0] == 0 {
        units_to_chars(us.drop_first())
    } else if is_high_surrogate(us[0]) && us.len() >= 2 && is_low_surrogate(us[1]) {
        seq![combine_surrogates(us[0], us[1]) as char] + units_to_chars(us.skip(2))
    } else if is_surrogate(us[0]) {
        units_to_chars(us.drop_first())
    } else {
        seq![us[0] as char] + units_to_chars(us.drop_first())
    }
}

/// What decoding a byte string as big-endian UTF-16 yields.
pub open spec fn decode_utf16_be_spec(b: Seq<u8>) -> Seq<char> {
    units_to_chars(be_units(b))
}

/// What decoding a byte string as little-endian UTF-16 yields.
pub open spec fn decode_utf16_le_spec(b: Seq<u8>) -> Seq<char> {
    units_to_chars(le_units(b))
}

/// Relies on `char::from_u32`: `Some` exactly on Unicode scalar values
/// (not a surrogate, at most 0x10FFFF), and the returned character has
/// the given scalar value.
#[verifier::external_body]
fn char_from_u32(v: u32) -> (r: Option<char>)
    ensures
        r is Some <==> (v < 0xD800 || (0xE000 <= v && v <= 0x10FFFF)),
        r is Some ==> r.unwrap() as u32 == v,
{
    char::from_u32(v)
}

proof fn lemma_be_units_suffix(b: Seq<u8>, i: int)
    requires
        0 <= i,
        i + 2 <= b.len(),
    ensures
        be_units(b.skip(i)) == seq![((b[i] as u32) * 256 + (b[i + 1] as u32)) as u32] + be_units(
            b.skip(i + 2),
        ),
{
    assert(b.skip(i)[0] == b[i]);
    assert(b.skip(i)[1] == b[i + 1]);
    assert(b.skip(i).skip(2) =~= b.skip(i + 2));
    assert(be_units(b.skip(i)) =~= seq![((b[i] as u32) * 256 + (b[i + 1] as u32)) as u32]
        + be_units(b.skip(i + 2)));
}

proof fn lemma_le_units_suffix(b: Seq<u8>, i: int)
    requires
        0 <= i,
        i + 2 <= b.len(),
    ensures
        le_units(b.skip(i)) == seq![((b[i + 1] as u32) * 256 + (b[i] as u32)) as u32] + le_units(
            b.skip(i + 2),
        ),
{
    assert(b.skip(i)[0] == b[i]);
    assert(b.skip(i)[1] == b[i + 1]);
    assert(b.skip(i).skip(2) =~= b.skip(i + 2));
    assert(le_units(b.skip(i)) =~= seq![((b[i + 1] as u32) * 256 + (b[i] as u32)) as u32]
        + le_units(b.skip(i + 2)));
}

proof fn lemma_utc_dropped(us: Seq<u32>, rest: Seq<u32>, u: u32)
    requires
        us == seq![u] + rest,
        u == 0 || (is_surrogate(u) && !(is_high_surrogate(u) && rest.len() >= 1
            && is_low_surrogate(rest[0]))),
    ensures
        units_to_chars(us) == units_to_chars(rest),
{
    assert(us.drop_first() =~= rest);
    assert(us.len() >= 2 ==> us[1] == rest[0]);
    assert(units_to_chars(us) =~= units_to_chars(rest));
}

proof fn lemma_utc_plain(us: Seq<u32>, rest: Seq<u32>, u: u32)
    requires
        us == seq![u] + rest,
        u != 0,
        !is_surrogate(u),
    ensures
        units_to_chars(us) == seq![u as char] + units_to_chars(rest),
{
    assert(us.drop_first() =~= rest);
    assert(units_to_chars(us) =~= seq![u as char] + units_to_chars(rest));
}

proof fn lemma_utc_pair(us: Seq<u32>, rest: Seq<u32>, hi: u32, lo: u32)
    requires
        us == seq![hi, lo] + rest,
        is_high_surrogate(hi),
        is_low_surrogate(lo),
    ensures
        units_to_chars(us) == seq![combine_surrogates(hi, lo) as char] + units_to_chars(rest),
{
    assert(us.skip(2) =~= rest);
    assert(us[0] == hi && us[1] == lo);
    assert(units_to_chars(us) =~= seq![combine_surrogates(hi, lo) as char] + units_to_chars(rest));
}

/// Decode a big-endian UTF-16 byte string into its characters.
pub(crate) fn decode_utf16_be_chars(bytes: &[u8]) -> (r: Vec<char>)
    ensures
        r@ == decode_utf16_be_spec(bytes@),
{
    let mut out: Vec<char> = Vec::new();
    let mut i: usize = 0;
    proof {
        assert(bytes@.skip(0) =~= bytes@);
    }
    while i + 1 < bytes.len()
        invariant
            i % 2 == 0,
            i <= bytes@.len() == bytes.len(),
            decode_utf16_be_spec(bytes@) == out@ + units_to_chars(be_units(bytes@.skip(i as int))),
        decreases bytes@.len() - i,
    {
        let cp: u32 = (bytes[i] as u32) * 256 + (bytes[i + 1] as u32);
        proof {
            lemma_be_units_suffix(bytes@, i as int);
        }
        let ghost us = be_units(bytes@.skip(i as int));
        let ghost rest2 = be_units(bytes@.skip(i as int + 2));
        if cp == 0 {
            proof {
                lemma_utc_dropped(us, rest2, cp);
            }
            i = i + 2;
        } else if 0xD800 <= cp && cp <= 0xDBFF {
            let mut paired = false;
            if i + 3 < bytes.len() {
                let lo: u32 = (bytes[i + 2] as u32) * 256 + (bytes[i + 3] as u32);
                proof {
                    lemma_be_units_suffix(bytes@, i as int + 2);
                }
                if 0xDC00 <= lo && lo <= 0xDFFF {
                    paired = true;
                    let combined: u32 = 0x10000 + (cp - 0xD800) * 0x400 + (lo - 0xDC00);
                    proof {
                        assert(us =~= seq![cp, lo] + be_units(bytes@.skip(i as int + 4)));
                        lemma_utc_pair(us, be_units(bytes@.skip(i as int + 4)), cp, lo);
                        assert(combined == combine_surrogates(cp, lo));
                    }
                    match char_from_u32(combined) {
                        Some(c) => {
                            proof {
                                vstd::utf8::char_u32_cast(c, combined);
                            }
                            out.push(c);
                        },
                        None => {
                            assert(false);
                        },
                    }
                    i = i + 4;
                }
            }
            if !paired {
                // An unpaired (or trailing) high surrogate: dropped.
                proof {
                    if i + 3 < bytes.len() as int {
                        assert(rest2.len() >= 1 && !is_low_surrogate(rest2[0]));
                    } else {
                        assert(bytes@.skip(i as int + 2).len() < 2);
                        assert(rest2 =~= Seq::<u32>::empty());
                    }
                    lemma_utc_dropped(us, rest2, cp);
                }
                i = i + 2;
            }
        } else if 0xDC00 <= cp && cp <= 0xDFFF {
            // An unpaired low surrogate: dropped.
            proof {
                lemma_utc_dropped(us, rest2, cp);
            }
            i = i + 2;
        } else {
            proof {
                lemma_utc_plain(us, rest2, cp);
            }
            match char_from_u32(cp) {
                Some(c) => {
                    proof {
                        vstd::utf8::char_u32_cast(c, cp);
                    }
                    out.push(c);
                },
                None => {
                    assert(false);
                },
            }
            i = i + 2;
        }
    }
    proof {
        assert(bytes@.skip(i as int).len() < 2);
        assert(be_units(bytes@.skip(i as int)) =~= Seq::<u32>::empty());
        assert(units_to_chars(Seq::<u32>::empty()) =~= Seq::<char>::empty());
        assert(out@ + Seq::<char>::empty() =~= out@);
    }
    out
}

/// Decode a little-endian UTF-16 byte string into its characters.
pub(crate) fn decode_utf16_le_chars(bytes: &[u8]) -> (r: Vec<char>)
    ensures
        r@ == decode_utf16_le_spec(bytes@),
{
    let mut out: Vec<char> = Vec::new();
    let mut i: usize = 0;
    proof {
        assert(bytes@.skip(0) =~= bytes@);
    }
    while i + 1 < bytes.len()
        invariant
            i % 2 == 0,
            i <= bytes@.len() == bytes.len(),
            decode_utf16_le_spec(bytes@) == out@ + units_to_chars(le_units(bytes@.skip(i as int))),
        decreases bytes@.len() - i,
    {
        let cp: u32 = (bytes[i + 1] as u32) * 256 + (bytes[i] as u32);
        proof {
            lemma_le_units_suffix(bytes@, i as int);
        }
        let ghost us = le_units(bytes@.skip(i as int));
        let ghost rest2 = le_units(bytes@.skip(i as int + 2));
        if cp == 0 {
            proof {
                lemma_utc_dropped(us, rest2, cp);
            }
            i = i + 2;
        } else if 0xD800 <= cp && cp <= 0xDBFF {
            let mut paired = false;
            if i + 3 < bytes.len() {
                let lo: u32 = (bytes[i + 3] as u32) * 256 + (bytes[i + 2] as u32);
                proof {
                    lemma_le_units_suffix(bytes@, i as int + 2);
                }
                if 0xDC00 <= lo && lo <= 0xDFFF {
                    paired = true;
                    let combined: u32 = 0x10000 + (cp - 0xD800) * 0x400 + (lo - 0xDC00);
                    proof {
                        assert(us =~= seq![cp, lo] + le_units(bytes@.skip(i as int + 4)));
                        lemma_utc_pair(us, le_units(bytes@.skip(i as int + 4)), cp, lo);
                        assert(combined == combine_surrogates(cp, lo));
                    }
                    match char_from_u32(combined) {
                        Some(c) => {
                            proof {
                                vstd::utf8::char_u32_cast(c, combined);
                            }
                            out.push(c);
                        },
                        None => {
                            assert(false);
                        },
                    }
                    i = i + 4;
                }
            }
            if !paired {
                // An unpaired (or trailing) high surrogate: dropped.
                proof {
                    if i + 3 < bytes.len() as int {
                        assert(rest2.len() >= 1 && !is_low_surrogate(rest2[0]));
                    } else {
                        assert(bytes@.skip(i as int + 2).len() < 2);
                        assert(rest2 =~= Seq::<u32>::empty());
                    }
                    lemma_utc_dropped(us, rest2, cp);
                }
                i = i + 2;
            }
        } else if 0xDC00 <= cp && cp <= 0xDFFF {
            // An unpaired low surrogate: dropped.
            proof {
                lemma_utc_dropped(us, rest2, cp);
            }
            i = i + 2;
        } else {
            proof {
                lemma_utc_plain(us, rest2, cp);
            }
            match char_from_u32(cp) {
                Some(c) => {
                    proof {
                        vstd::utf8::char_u32_cast(c, cp);
                    }
                    out.push(c);
                },
                None => {
                    assert(false);
                },
            }
            i = i + 2;
        }
    }
    proof {
        assert(bytes@.skip(i as int).len() < 2);
        assert(le_units(bytes@.skip(i as int)) =~= Seq::<u32>::empty());
        assert(units_to_chars(Seq::<u32>::empty()) =~= Seq::<char>::empty());
        assert(out@ + Seq::<char>::empty() =~= out@);
    }
    out
}

/// Decode a big-endian UTF-16 byte string, combining surrogate pairs
/// and dropping null and unpaired surrogate units.
pub fn decode_utf16_be(bytes: &[u8]) -> (r: String)
    ensures
        r@ == decode_utf16_be_spec(bytes@),
{
    let chars = decode_utf16_be_chars(bytes);
    crate::text::chars_to_string(&chars)
}

/// Decode a little-endian UTF-16 byte string, combining surrogate
/// pairs and dropping null and unpaired surrogate units.
pub fn decode_utf16_le(bytes: &[u8]) -> (r: String)
    ensures
        r@ == decode_utf16_le_spec(bytes@),
{
    let chars = decode_utf16_le_chars(bytes);
    crate::text::chars_to_string(&chars)
}

/// The big-endian UTF-16 encoding of a character sequence, without a
/// byte-order mark; supplementary characters become surrogate pairs.
pub open spec fn encode_utf16_be_spec(s: Seq<char>) -> Seq<u8>
    decreases s.len(),
{
    if s.len() == 0 {
        Seq::empty()
    } else {
        let cp = s[0] as u32;
        if cp < 0x10000 {
            seq![((cp / 256) as u8), ((cp % 256) as u8)] + encode_utf16_be_spec(s.drop_first())
        } else {
            let hi = (0xD800 + (cp - 0x10000) / 0x400) as u32;
            let lo = (0xDC00 + (cp - 0x10000) % 0x400) as u32;
            seq![((hi / 256) as u8), ((hi % 256) as u8), ((lo / 256) as u8), ((lo % 256) as u8)]
                + encode_utf16_be_spec(s.drop_first())
        }
    }
}

/// The little-endian UTF-16 encoding of a character sequence, without a
/// byte-order mark; supplementary characters become surrogate pairs.
pub open spec fn encode_utf16_le_spec(s: Seq<char>) -> Seq<u8>
    decreases s.len(),
{
    if s.len() == 0 {
        Seq::empty()
    } else {
        let cp = s[0] as u32;
        if cp < 0x10000 {
            seq![((cp % 256) as u8), ((cp / 256) as u8)] + encode_utf16_le_spec(s.drop_first())
        } else {
            let hi = (0xD800 + (cp - 0x10000) / 0x400) as u32;
            let lo = (0xDC00 + (cp - 0x10000) % 0x400) as u32;
            seq![((hi % 256) as u8), ((hi / 256) as u8), ((lo % 256) as u8), ((lo / 256) as u8)]
                + encode_utf16_le_spec(s.drop_first())
        }
    }
}

proof fn lemma_char_nonzero(c: char)
    requires
        c != '\0',
    ensures
        (c as u32) != 0,
{
    assert('\0' as u32 == 0);
    if c as u32 == 0 {
        vstd::utf8::char_u32_cast(c, 0);
        vstd::utf8::char_u32_cast('\0', 0);
        assert(false);
    }
}

proof fn lemma_u16_bytes(u: u32)
    requires
        u < 0x10000,
    ensures
        (((u / 256) as u8) as u32) * 256 + (((u % 256) as u8) as u32) == u,
{
    assert(u / 256 < 256);
    assert(((u / 256) as u8) as u32 == u / 256);
    assert(((u % 256) as u8) as u32 == u % 256);
    vstd::arithmetic::div_mod::lemma_fundamental_div_mod(u as int, 256);
}

proof fn lemma_surrogate_split(cp: u32)
    requires
        0x10000 <= cp <= 0x10FFFF,
    ensures
        is_high_surrogate((0xD800 + (cp - 0x10000) / 0x400) as u32),
        is_low_surrogate((0xDC00 + (cp - 0x10000) % 0x400) as u32),
        combine_surrogates(
            (0xD800 + (cp - 0x10000) / 0x400) as u32,
            (0xDC00 + (cp - 0x10000) % 0x400) as u32,
        ) == cp,
{
    let x = (cp - 0x10000) as int;
    vstd::arithmetic::div_mod::lemma_div_is_ordered(x, 0xFFFFF, 0x400);
    assert(0xFFFFF as int / 0x400 == 0x3FF);
    vstd::arithmetic::div_mod::lemma_fundamental_div_mod(x, 0x400);
}

/// Decoding inverts encoding: a sequence of non-null characters,
/// encoded as big-endian UTF-16, decodes back to itself.
pub proof fn lemma_decode_encode_utf16_be(s: Seq<char>)
    requires
        forall|i: int| 0 <= i < s.len() ==> #[trigger] s[i] != '\0',
    ensures
        decode_utf16_be_spec(encode_utf16_be_spec(s)) == s,
    decreases s.len(),
{
    if s.len() == 0 {
        assert(be_units(encode_utf16_be_spec(s)) =~= Seq::<u32>::empty());
        assert(decode_utf16_be_spec(encode_utf16_be_spec(s)) =~= s);
    } else {
        let c = s[0];
        let cp = c as u32;
        vstd::utf8::char_is_scalar(c);
        lemma_char_nonzero(c);
        let rest = encode_utf16_be_spec(s.drop_first());
        lemma_decode_encode_utf16_be(s.drop_first());
        if cp < 0x10000 {
            lemma_u16_bytes(cp);
            let b0 = (cp / 256) as u8;
            let b1 = (cp % 256) as u8;
            assert(encode_utf16_be_spec(s) == seq![b0, b1] + rest);
            assert((seq![b0, b1] + rest).skip(2) =~= rest);
            assert(be_units(seq![b0, b1] + rest) =~= seq![cp] + be_units(rest));
            lemma_utc_plain(seq![cp] + be_units(rest), be_units(rest), cp);
            vstd::utf8::char_u32_cast(c, cp);
            assert(decode_utf16_be_spec(encode_utf16_be_spec(s)) =~= s);
        } else {
            lemma_surrogate_split(cp);
            let hi = (0xD800 + (cp - 0x10000) / 0x400) as u32;
            let lo = (0xDC00 + (cp - 0x10000) % 0x400) as u32;
            lemma_u16_bytes(hi);
            lemma_u16_bytes(lo);
            let h0 = (hi / 256) as u8;
            let h1 = (hi % 256) as u8;
            let l0 = (lo / 256) as u8;
            let l1 = (lo % 256) as u8;
            assert(encode_utf16_be_spec(s) == seq![h0, h1, l0, l1] + rest);
            assert((seq![h0, h1, l0, l1] + rest).skip(2) =~= seq![l0, l1] + rest);
            assert(be_units(seq![h0, h1, l0, l1] + rest) =~= seq![hi] + be_units(
                seq![l0, l1] + rest,
            ));
            assert((seq![l0, l1] + rest).skip(2) =~= rest);
            assert(be_units(seq![l0, l1] + rest) =~= seq![lo] + be_units(rest));
            assert(seq![hi] + be_units(seq![l0, l1] + rest) =~= seq![hi, lo] + be_units(rest));
            lemma_utc_pair(seq![hi, lo] + be_units(rest), be_units(rest), hi, lo);
            vstd::utf8::char_u32_cast(c, cp);
            assert(decode_utf16_be_spec(encode_utf16_be_spec(s)) =~= s);
        }
    }
}

/// Decoding inverts encoding, little-endian form.
pub proof fn lemma_decode_encode_utf16_le(s: Seq<char>)
    requires
        forall|i: int| 0 <= i < s.len() ==> #[trigger] s[i] != '\0',
    ensures
        decode_utf16_le_spec(encode_utf16_le_spec(s)) == s,
    decreases s.len(),
{
    if s.len() == 0 {
        assert(le_units(encode_utf16_le_spec(s)) =~= Seq::<u32>::empty());
        assert(decode_utf16_le_spec(encode_utf16_le_spec(s)) =~= s);
    } else {
        let c = s[0];
        let cp = c as u32;
        vstd::utf8::char_is_scalar(c);
        lemma_char_nonzero(c);
        let rest = encode_utf16_le_spec(s.drop_first());
        lemma_decode_encode_utf16_le(s.drop_first());
        if cp < 0x10000 {
            lemma_u16_bytes(cp);
            let b0 = (cp % 256) as u8;
            let b1 = (cp / 256) as u8;
            assert(encode_utf16_le_spec(s) == seq![b0, b1] + rest);
            assert((seq![b0, b1] + rest).skip(2) =~= rest);
            assert(le_units(seq![b0, b1] + rest) =~= seq![cp] + le_units(rest));
            lemma_utc_plain(seq![cp] + le_units(rest), le_units(rest), cp);
            vstd::utf8::char_u32_cast(c, cp);
            assert(decode_utf16_le_spec(encode_utf16_le_spec(s)) =~= s);
        } else {
            lemma_surrogate_split(cp);
            let hi = (0xD800 + (cp - 0x10000) / 0x400) as u32;
            let lo = (0xDC00 + (cp - 0x10000) % 0x400) as u32;
            lemma_u16_bytes(hi);
            lemma_u16_bytes(lo);
            let h0 = (hi % 256) as u8;
            let h1 = (hi / 256) as u8;
            let l0 = (lo % 256) as u8;
            let l1 = (lo / 256) as u8;
            assert(encode_utf16_le_spec(s) == seq![h0, h1, l0, l1] + rest);
            assert((seq![h0, h1, l0, l1] + rest).skip(2) =~= seq![l0, l1] + rest);
            assert(le_units(seq![h0, h1, l0, l1] + rest) =~= seq![hi] + le_units(
                seq![l0, l1] + rest,
            ));
            assert((seq![l0, l1] + rest).skip(2) =~= rest);
            assert(le_units(seq![l0, l1] + rest) =~= seq![lo] + le_units(rest));
            assert(seq![hi] + le_units(seq![l0, l1] + rest) =~= seq![hi, lo] + le_units(rest));
            lemma_utc_pair(seq![hi, lo] + le_units(rest), le_units(rest), hi, lo);
            vstd::utf8::char_u32_cast(c, cp);
            assert(decode_utf16_le_spec(encode_utf16_le_spec(s)) =~= s);
        }
    }
}

} // verus!
