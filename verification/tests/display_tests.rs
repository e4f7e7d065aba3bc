use serial_bridge::display::{render_chunk, utf8_check};

#[test]
fn valid_ascii_prints_identically() {
    let chunk = b"hello, device\r\n";
    assert!(utf8_check(chunk));
    assert_eq!(render_chunk(chunk), chunk.to_vec());
}

#[test]
fn valid_multibyte_utf8_prints_identically() {
    // "héllo • 你好" in UTF-8, two-, three- and multi-byte sequences.
    let chunk = "h\u{E9}llo \u{2022} \u{4F60}\u{597D}".as_bytes();
    assert!(utf8_check(chunk));
    assert_eq!(render_chunk(chunk), chunk.to_vec());
    // A four-byte sequence.
    let chunk = "\u{1F600}".as_bytes();
    assert!(utf8_check(chunk));
    assert_eq!(render_chunk(chunk), chunk.to_vec());
}

#[test]
fn invalid_chunk_escapes_every_byte() {
    let chunk = [0xFFu8, 0x41u8];
    assert!(!utf8_check(&chunk));
    assert_eq!(render_chunk(&chunk), b"\\xFF\\x41".to_vec());
}

#[test]
fn escape_output_is_four_characters_per_byte_in_order() {
    let chunk = [0x00u8, 0x80u8, 0xC3u8, 0x28u8, 0xFEu8];
    assert!(!utf8_check(&chunk));
    let out = render_chunk(&chunk);
    assert_eq!(out.len(), 4 * chunk.len());
    assert_eq!(out, b"\\x00\\x80\\xC3\\x28\\xFE".to_vec());
}

#[test]
fn truncated_sequences_are_invalid() {
    assert!(!utf8_check(&[0xC3]));
    assert_eq!(render_chunk(&[0xC3]), b"\\xC3".to_vec());
    assert!(!utf8_check(&[0xE2, 0x82]));
    assert!(!utf8_check(&[0xF0, 0x9F, 0x98]));
}

#[test]
fn overlong_and_surrogate_forms_are_invalid() {
    // Overlong encodings of '/' and NUL.
    assert!(!utf8_check(&[0xC0, 0xAF]));
    assert!(!utf8_check(&[0xC1, 0x80]));
    assert!(!utf8_check(&[0xE0, 0x80, 0x80]));
    // An encoded surrogate half.
    assert!(!utf8_check(&[0xED, 0xA0, 0x80]));
    // Beyond the last code point.
    assert!(!utf8_check(&[0xF4, 0x90, 0x80, 0x80]));
    assert!(!utf8_check(&[0xF5, 0x80, 0x80, 0x80]));
}

#[test]
fn boundary_sequences_are_valid() {
    assert!(utf8_check(&[0x7F]));
    assert!(utf8_check(&[0xC2, 0x80]));
    assert!(utf8_check(&[0xDF, 0xBF]));
    assert!(utf8_check(&[0xE0, 0xA0, 0x80]));
    assert!(utf8_check(&[0xED, 0x9F, 0xBF]));
    assert!(utf8_check(&[0xEF, 0xBF, 0xBF]));
    assert!(utf8_check(&[0xF0, 0x90, 0x80, 0x80]));
    assert!(utf8_check(&[0xF4, 0x8F, 0xBF, 0xBF]));
    assert!(utf8_check(&[]));
}

#[test]
fn library_validity_agrees_with_std() {
    let samples: Vec<Vec<u8>> = vec![
        b"plain".to_vec(),
        vec![0xC3, 0xA9],
        vec![0xC3],
        vec![0xED, 0xA0, 0x80],
        vec![0xF0, 0x90, 0x80, 0x80],
        vec![0xF4, 0x90, 0x80, 0x80],
        vec![0x80],
        vec![0xC2, 0x41],
        vec![0xE0, 0x9F, 0x80],
    ];
    for s in samples {
        assert_eq!(utf8_check(&s), std::str::from_utf8(&s).is_ok());
    }
}
