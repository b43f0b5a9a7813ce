use d3d12_core::text::{decode_utf8_char, utf8_to_utf16};

#[test]
fn decodes_ascii_in_one_byte() {
    let bytes = vec![0x41u8, 0x7fu8];
    assert_eq!(decode_utf8_char(&bytes, 0), Some((0x41, 1)));
    assert_eq!(decode_utf8_char(&bytes, 1), Some((0x7f, 2)));
    assert_eq!(decode_utf8_char(&bytes, 2), None);
}

#[test]
fn decodes_two_three_and_four_byte_sequences() {
    // U+00E9, U+20AC, U+1D11E
    let bytes = vec![0xc3u8, 0xa9, 0xe2, 0x82, 0xac, 0xf0, 0x9d, 0x84, 0x9e];
    assert_eq!(decode_utf8_char(&bytes, 0), Some((0xe9, 2)));
    assert_eq!(decode_utf8_char(&bytes, 2), Some((0x20ac, 5)));
    assert_eq!(decode_utf8_char(&bytes, 5), Some((0x1d11e, 9)));
}

#[test]
fn rejects_stray_continuation_and_truncated_sequences() {
    assert_eq!(decode_utf8_char(&[0x80u8], 0), None);
    assert_eq!(decode_utf8_char(&[0xc3u8], 0), None);
    assert_eq!(decode_utf8_char(&[0xe2u8, 0x82], 0), None);
    assert_eq!(decode_utf8_char(&[0xf0u8, 0x9d, 0x84], 0), None);
    // a continuation byte that is not one
    assert_eq!(decode_utf8_char(&[0xc3u8, 0x41], 0), None);
    assert_eq!(decode_utf8_char(&[0xe2u8, 0x82, 0x41], 0), None);
    assert_eq!(decode_utf8_char(&[0xf0u8, 0x9d, 0x84, 0x41], 0), None);
}

#[test]
fn rejects_overlong_encodings() {
    // U+0041 must not decode from two, three or four bytes
    assert_eq!(decode_utf8_char(&[0xc1u8, 0x81], 0), None);
    assert_eq!(decode_utf8_char(&[0xe0u8, 0x81, 0x81], 0), None);
    assert_eq!(decode_utf8_char(&[0xf0u8, 0x80, 0x81, 0x81], 0), None);
}

#[test]
fn rejects_surrogates_and_values_past_the_last_scalar() {
    // U+D800 encoded in three bytes
    assert_eq!(decode_utf8_char(&[0xedu8, 0xa0, 0x80], 0), None);
    // U+DFFF encoded in three bytes
    assert_eq!(decode_utf8_char(&[0xedu8, 0xbf, 0xbf], 0), None);
    // U+110000 encoded in four bytes
    assert_eq!(decode_utf8_char(&[0xf4u8, 0x90, 0x80, 0x80], 0), None);
    // U+10FFFF itself is fine
    assert_eq!(decode_utf8_char(&[0xf4u8, 0x8f, 0xbf, 0xbf], 0), Some((0x10ffff, 4)));
}

#[test]
fn encodes_basic_plane_scalars_as_single_units() {
    let units = utf8_to_utf16("Ab\u{e9}\u{20ac}".as_bytes());
    assert_eq!(units, vec![0x41, 0x62, 0xe9, 0x20ac]);
}

#[test]
fn encodes_supplementary_scalars_as_surrogate_pairs() {
    // U+1D11E -> D834 DD1E
    let units = utf8_to_utf16("\u{1d11e}".as_bytes());
    assert_eq!(units, vec![0xd834, 0xdd1e]);
    // U+10FFFF -> DBFF DFFF
    let units = utf8_to_utf16("\u{10ffff}".as_bytes());
    assert_eq!(units, vec![0xdbff, 0xdfff]);
}

#[test]
fn encoding_stops_at_the_first_invalid_sequence() {
    let bytes = vec![0x48u8, 0x69, 0xff, 0x41];
    assert_eq!(utf8_to_utf16(&bytes), vec![0x48, 0x69]);
    let empty: Vec<u8> = Vec::new();
    assert_eq!(utf8_to_utf16(&empty), Vec::<u16>::new());
}
