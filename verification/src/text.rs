//! UTF-8 decoding and UTF-16 encoding for wide-string conversion.
//!
//! The shell hands the platform wide (UTF-16) strings, for instance the
//! shader path.  The conversion core decodes one UTF-8-encoded scalar at
//! a time — rejecting truncated sequences, stray continuation bytes,
//! overlong encodings, surrogate code points and values beyond
//! U+10FFFF — and re-encodes each scalar as one UTF-16 code unit or a
//! surrogate pair.  Conversion stops at the first byte that starts no
//! valid sequence.

use vstd::prelude::*;

verus! {

/// The scalar value encoded at byte offset `pos` of `s`, and the offset
/// just past its encoding; `None` at the end of `s` and at any byte
/// sequence that is not the shortest valid encoding of a Unicode scalar
/// value.
pub open spec fn utf8_decode_at(s: Seq<u8>, pos: int) -> Option<(u32, int)> {
    if pos < 0 || s.len() <= pos {
        None
    } else {
        let ch = s[pos] as u32;
        if ch <= 0x7f {
            Some((ch, pos + 1))
        } else if ch & 0xe0 == 0xc0 {
            if s.len() - pos < 2 {
                None
            } else {
                let ch2 = s[pos + 1] as u32;
                if ch2 & 0xc0 != 0x80 {
                    None
                } else {
                    let v = ((ch & 0x1f) << 6) | (ch2 & 0x3f);
                    if v <= 0x7f {
                        None
                    } else {
                        Some((v, pos + 2))
                    }
                }
            }
        } else if ch & 0xf0 == 0xe0 {
            if s.len() - pos < 3 {
                None
            } else {
                let ch2 = s[pos + 1] as u32;
                let ch3 = s[pos + 2] as u32;
                if ch2 & 0xc0 != 0x80 || ch3 & 0xc0 != 0x80 {
                    None
                } else {
                    let v = ((ch & 0x0f) << 12) | ((ch2 & 0x3f) << 6) | (ch3 & 0x3f);
                    if v <= 0x7ff || (0xd800 <= v && v <= 0xdfff) {
                        None
                    } else {
                        Some((v, pos + 3))
                    }
                }
            }
        } else if ch & 0xf8 == 0xf0 {
            if s.len() - pos < 4 {
                None
            } else {
                let ch2 = s[pos + 1] as u32;
                let ch3 = s[pos + 2] as u32;
                let ch4 = s[pos + 3] as u32;
                if ch2 & 0xc0 != 0x80 || ch3 & 0xc0 != 0x80 || ch4 & 0xc0 != 0x80 {
                    None
                } else {
                    let v = ((ch & 0x07) << 18) | ((ch2 & 0x3f) << 12) | ((ch3 & 0x3f) << 6) | (
                    ch4 & 0x3f);
                    if v <= 0xffff || 0x10ffff < v {
                        None
                    } else {
                        Some((v, pos + 4))
                    }
                }
            }
        } else {
            None
        }
    }
}

/// Whatever decodes is a Unicode scalar value, encoded in one to four
/// bytes that lie inside `s`.
pub proof fn lemma_decode_is_scalar(s: Seq<u8>, pos: int)
    requires
        utf8_decode_at(s, pos).is_some(),
    ensures
        ({
            let (v, next) = utf8_decode_at(s, pos).unwrap();
            &&& 0 <= pos < next <= s.len()
            &&& next - pos <= 4
            &&& v <= 0x10ffff
            &&& !(0xd800 <= v <= 0xdfff)
        }),
{
    let ch = s[pos] as u32;
    if ch <= 0x7f {
    } else if ch & 0xe0 == 0xc0 {
        let ch2 = s[pos + 1] as u32;
        assert(((ch & 0x1f) << 6) | (ch2 & 0x3f) <= 0x7ff) by (bit_vector);
    } else if ch & 0xf0 == 0xe0 {
        let ch2 = s[pos + 1] as u32;
        let ch3 = s[pos + 2] as u32;
        assert(((ch & 0x0f) << 12) | ((ch2 & 0x3f) << 6) | (ch3 & 0x3f) <= 0xffff)
            by (bit_vector);
    } else {
    }
}

/// Decode the scalar value whose encoding starts at `pos`.
///
/// Returns the scalar and the offset just past its encoding, or `None`
/// at the end of the input and at any byte sequence that is not the
/// shortest valid encoding of a Unicode scalar value (truncated or stray
/// continuation bytes, overlong forms, surrogates, values past U+10FFFF).
pub fn decode_utf8_char(bytes: &[u8], pos: usize) -> (r: Option<(u32, usize)>)
    ensures
        match r {
            Some(p) => utf8_decode_at(bytes@, pos as int) == Some((p.0, p.1 as int)),
            None => utf8_decode_at(bytes@, pos as int).is_none(),
        },
{
    if pos >= bytes.len() {
        return None;
    }
    let ch: u32 = bytes[pos] as u32;
    if ch <= 0x7f {
        return Some((ch, pos + 1));
    }
    if ch & 0xe0 == 0xc0 {
        if bytes.len() - pos < 2 {
            return None;
        }
        let ch2: u32 = bytes[pos + 1] as u32;
        if ch2 & 0xc0 != 0x80 {
            return None;
        }
        let v: u32 = ((ch & 0x1f) << 6) | (ch2 & 0x3f);
        if v <= 0x7f {
            return None;
        }
        return Some((v, pos + 2));
    }
    if ch & 0xf0 == 0xe0 {
        if bytes.len() - pos < 3 {
            return None;
        }
        let ch2: u32 = bytes[pos + 1] as u32;
        let ch3: u32 = bytes[pos + 2] as u32;
        if ch2 & 0xc0 != 0x80 || ch3 & 0xc0 != 0x80 {
            return None;
        }
        let v: u32 = ((ch & 0x0f) << 12) | ((ch2 & 0x3f) << 6) | (ch3 & 0x3f);
        if v <= 0x7ff || (0xd800 <= v && v <= 0xdfff) {
            return None;
        }
        return Some((v, pos + 3));
    }
    if ch & 0xf8 == 0xf0 {
        if bytes.len() - pos < 4 {
            return None;
        }
        let ch2: u32 = bytes[pos + 1] as u32;
        let ch3: u32 = bytes[pos + 2] as u32;
        let ch4: u32 = bytes[pos + 3] as u32;
        if ch2 & 0xc0 != 0x80 || ch3 & 0xc0 != 0x80 || ch4 & 0xc0 != 0x80 {
            return None;
        }
        let v: u32 = ((ch & 0x07) << 18) | ((ch2 & 0x3f) << 12) | ((ch3 & 0x3f) << 6) | (ch4
            & 0x3f);
        if v <= 0xffff || 0x10ffff < v {
            return None;
        }
        return Some((v, pos + 4));
    }
    None
}

/// The UTF-16 code units of scalar `cp`: one unit on the basic plane, a
/// surrogate pair above it.
pub open spec fn utf16_units(cp: u32) -> Seq<u16> {
    if cp <= 0xffff {
        seq![cp as u16]
    } else {
        let v = (cp - 0x10000) as u32;
        seq![(0xd800 + (v >> 10)) as u16, (0xdc00 + (v & 0x3ff)) as u16]
    }
}

/// The UTF-16 encoding of the longest decodable prefix of `s` starting
/// at byte offset `pos`.
pub open spec fn utf16_encode_from(s: Seq<u8>, pos: int) -> Seq<u16>
    decreases s.len() - pos,
{
    match utf8_decode_at(s, pos) {
        None => Seq::empty(),
        Some(p) => if pos < p.1 <= s.len() {
            utf16_units(p.0) + utf16_encode_from(s, p.1)
        } else {
            Seq::empty()
        },
    }
}

/// Encode the longest decodable UTF-8 prefix of `bytes` as UTF-16 code
/// units, stopping at the first byte sequence that decodes to nothing.
pub fn utf8_to_utf16(bytes: &[u8]) -> (out: Vec<u16>)
    ensures
        out@ == utf16_encode_from(bytes@, 0),
{
    let mut out: Vec<u16> = Vec::new();
    let mut pos: usize = 0;
    loop
        invariant
            pos <= bytes@.len(),
            utf16_encode_from(bytes@, 0) == out@ + utf16_encode_from(bytes@, pos as int),
        ensures
            utf16_encode_from(bytes@, 0) == out@ + utf16_encode_from(bytes@, pos as int),
            utf8_decode_at(bytes@, pos as int).is_none(),
        decreases bytes@.len() - pos,
    {
        match decode_utf8_char(bytes, pos) {
            None => {
                break ;
            },
            Some((cp, next)) => {
                proof {
                    lemma_decode_is_scalar(bytes@, pos as int);
                }
                let ghost prefix = out@;
                if cp <= 0xffff {
                    out.push(cp as u16);
                } else {
                    let v: u32 = cp - 0x10000;
                    proof {
                        assert(v >> 10 <= 0x3ff && (v & 0x3ff) <= 0x3ff) by (bit_vector)
                            requires
                                v <= 0xfffff,
                        ;
                    }
                    out.push(0xd800u16 + (v >> 10) as u16);
                    out.push(0xdc00u16 + (v & 0x3ff) as u16);
                }
                proof {
                    assert(out@ =~= prefix + utf16_units(cp));
                    assert(prefix + utf16_units(cp) + utf16_encode_from(bytes@, next as int)
                        =~= prefix + utf16_encode_from(bytes@, pos as int));
                }
                pos = next;
            },
        }
    }
    out
}

} // verus!
