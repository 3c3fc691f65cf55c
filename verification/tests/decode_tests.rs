use natsort::{DecodeEncoding, DecodeError, Decoder, UnsupportedEncodingError, decode_ascii_bytes, decode_latin1_bytes, decode_utf8_bytes, decoder};

#[test]
fn creates_ascii_decoder() {
    assert_eq!(decoder("ascii"), Ok(Decoder::ascii()),);
}

#[test]
fn creates_utf8_decoder() {
    assert_eq!(decoder("utf8"), Ok(Decoder::utf8()),);
}

#[test]
fn accepts_utf8_dash_alias() {
    assert_eq!(decoder("UTF-8"), Ok(Decoder::utf8()),);
}

#[test]
fn accepts_utf8_underscore_alias() {
    assert_eq!(decoder("utf_8"), Ok(Decoder::utf8()),);
}

#[test]
fn rejects_unknown_encoding() {
    assert_eq!(
        decoder("utf16"),
        Err(UnsupportedEncodingError {
            encoding: "utf16".to_string(),
        })
    );
}

#[test]
fn decodes_ascii_bytes() {
    assert_eq!(
        decode_ascii_bytes(b"natural10"),
        Ok("natural10".to_string()),
    );
}

#[test]
fn rejects_non_ascii_byte() {
    assert_eq!(
        decode_ascii_bytes(&[b'a', 0xFF]),
        Err(DecodeError::InvalidAscii {
            position: 1,
            byte: 0xFF,
        })
    );
}

#[test]
fn decodes_utf8_bytes() {
    assert_eq!(decode_utf8_bytes("café".as_bytes()), Ok("café".to_string()),);
}

#[test]
fn rejects_invalid_utf8() {
    assert!(matches!(
        decode_utf8_bytes(&[0xFF]),
        Err(DecodeError::InvalidUtf8 { valid_up_to: 0, .. })
    ));
}

    

    

    

    

    

    

    

    

    

    

    

    

    

    

#[test]
fn creates_latin1_decoder_and_common_aliases() {
    for alias in [
        "latin1",
        "latin-1",
        "latin_1",
        "ISO-8859-1",
        "iso_8859_1",
        "l1",
    ] {
        assert_eq!(decoder(alias), Ok(Decoder::latin1()), "alias={alias}");
    }

    assert_eq!(Decoder::latin1().encoding(), DecodeEncoding::Latin1);
}

#[test]
fn decodes_latin1_bytes_without_loss() {
    assert_eq!(
        decode_latin1_bytes(&[b'c', b'a', b'f', 0xE9]),
        "café".to_string(),
    );
    assert_eq!(decode_latin1_bytes(&[0xFF]), "ÿ".to_string());
}

    

    

#[test]
fn utf8_error_length_is_absent_only_for_a_truncated_sequence() {
    assert_eq!(
        decode_utf8_bytes(&[b'a', 0xE2, 0x82]),
        Err(DecodeError::InvalidUtf8 { valid_up_to: 1, error_length: None })
    );
    assert_eq!(
        decode_utf8_bytes(&[0xF0, 0x9F, 0xA6]),
        Err(DecodeError::InvalidUtf8 { valid_up_to: 0, error_length: None })
    );
    assert_eq!(
        decode_utf8_bytes(&[0xFF]),
        Err(DecodeError::InvalidUtf8 { valid_up_to: 0, error_length: Some(1) })
    );
    assert_eq!(
        decode_utf8_bytes(&[b'a', 0xE2, 0x28, 0xA1]),
        Err(DecodeError::InvalidUtf8 { valid_up_to: 1, error_length: Some(1) })
    );
}
