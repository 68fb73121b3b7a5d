use consenzisk::digest::{parse_state_root_from_hex, to_hex, Digest32, DigestParseError};

fn counting_digest() -> Digest32 {
    let bytes: Vec<u8> = (0u8..32).collect();
    Digest32::new(bytes)
}

#[test]
fn hex_form_is_64_lowercase_characters() {
    let line = to_hex(&counting_digest());
    assert_eq!(
        line,
        b"000102030405060708090a0b0c0d0e0f101112131415161718191a1b1c1d1e1f".to_vec()
    );
}

#[test]
fn hex_line_parses_back_to_the_digest() {
    let d = counting_digest();
    let line = to_hex(&d);
    let parsed = parse_state_root_from_hex(&line).expect("a lone hex line must parse");
    assert!(parsed.equals(&d));
}

#[test]
fn parse_ignores_interleaved_diagnostic_text() {
    let d = counting_digest();
    let mut out = Vec::new();
    out.extend_from_slice(b"deserialize-pre-state-ssz:start\n");
    out.extend_from_slice(b"TIMING_START:process-operation\n");
    out.extend_from_slice(b"some !! arbitrary ?? noise with 1234 digits\n");
    out.extend_from_slice(&to_hex(&d));
    out.extend_from_slice(b"\n");
    out.extend_from_slice(b"TIMING_END:process-operation\n");
    let parsed = parse_state_root_from_hex(&out).expect("noise must not disturb the scan");
    assert!(parsed.equals(&d));
}

#[test]
fn parse_trims_surrounding_whitespace() {
    let d = counting_digest();
    let mut out = Vec::new();
    out.extend_from_slice(b"  \t");
    out.extend_from_slice(&to_hex(&d));
    out.extend_from_slice(b"\r\n");
    let parsed = parse_state_root_from_hex(&out).expect("a trimmed hex line must parse");
    assert!(parsed.equals(&d));
}

#[test]
fn parse_accepts_uppercase_digits() {
    let out = b"00102030405060708090A0B0C0D0E0F000102030405060708090A0B0C0D0E0F0\n";
    let parsed = parse_state_root_from_hex(out).expect("uppercase digits are hexadecimal");
    assert_eq!(parsed.as_bytes()[10], 0xA0);
}

#[test]
fn parse_fails_without_a_digest_line() {
    let out = b"only diagnostics here\nand a short hex line: abcdef\n";
    assert_eq!(
        parse_state_root_from_hex(out).unwrap_err(),
        DigestParseError::NoDigestLine
    );
}

#[test]
fn parse_fails_on_63_or_65_characters() {
    let mut line63 = to_hex(&counting_digest());
    line63.pop();
    assert_eq!(
        parse_state_root_from_hex(&line63).unwrap_err(),
        DigestParseError::NoDigestLine
    );
    let mut line65 = to_hex(&counting_digest());
    line65.push(b'0');
    assert_eq!(
        parse_state_root_from_hex(&line65).unwrap_err(),
        DigestParseError::NoDigestLine
    );
}

#[test]
fn parse_fails_on_a_non_hex_character() {
    let mut line = to_hex(&counting_digest());
    line[17] = b'g';
    assert_eq!(
        parse_state_root_from_hex(&line).unwrap_err(),
        DigestParseError::NoDigestLine
    );
}

#[test]
fn parse_fails_when_two_lines_qualify() {
    let d = counting_digest();
    let mut out = to_hex(&d);
    out.push(b'\n');
    out.extend_from_slice(&to_hex(&d));
    assert_eq!(
        parse_state_root_from_hex(&out).unwrap_err(),
        DigestParseError::MultipleDigestLines
    );
}

#[test]
fn parse_of_empty_output_fails() {
    assert_eq!(
        parse_state_root_from_hex(b"").unwrap_err(),
        DigestParseError::NoDigestLine
    );
}

#[test]
fn digest_equality_is_byte_for_byte() {
    let a = counting_digest();
    let b = counting_digest();
    assert!(a.equals(&b));
    let mut bytes: Vec<u8> = (0u8..32).collect();
    bytes[31] = 99;
    let c = Digest32::new(bytes);
    assert!(!a.equals(&c));
}
