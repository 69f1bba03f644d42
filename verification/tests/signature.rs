use block_signer::hexadecimal::strip_prefixes;
use block_signer::signature::parse_signature;
use block_signer::{FromHexError, RemoteSignerError, Signature, SignatureError};

/// A text of 65 bytes: 32 of `r`, 32 of `s`, and the last one.
fn text(r: u8, s: u8, v: u8) -> String {
    let mut text = String::new();
    for _ in 0..32 {
        text.push_str(&format!("{:02x}", r));
    }
    for _ in 0..32 {
        text.push_str(&format!("{:02x}", s));
    }
    text.push_str(&format!("{:02x}", v));
    text
}

#[test]
fn signature_is_read_back() {
    let mut notation = String::new();
    let mut r = [0u8; 32];
    let mut s = [0u8; 32];
    for i in 0..32 {
        r[i] = 7 * i as u8 + 3;
        s[i] = 255 - 5 * i as u8;
    }
    for byte in r.iter().chain(s.iter()) {
        notation.push_str(&format!("{:02x}", byte));
    }
    notation.push_str("1c");
    assert_eq!(parse_signature(&notation).unwrap(), Signature { r, s, y_parity: true });
    assert_eq!(
        parse_signature(&notation.to_uppercase()).unwrap(),
        Signature { r, s, y_parity: true }
    );
}

#[test]
fn prefixes_make_no_difference() {
    let bare = text(0xab, 0x01, 27);
    let expected = Signature { r: [0xab; 32], s: [1; 32], y_parity: false };
    assert_eq!(parse_signature(&bare).unwrap(), expected);
    assert_eq!(parse_signature(&format!("0x{}", bare)).unwrap(), expected);
    assert_eq!(parse_signature(&format!("0x0x{}", bare)).unwrap(), expected);
}

#[test]
fn only_lower_case_prefixes_are_cut_off() {
    assert_eq!(strip_prefixes("0x0x12"), b"12");
    assert_eq!(strip_prefixes("0X12"), b"0X12");
    assert_eq!(strip_prefixes("120x"), b"120x");
    assert_eq!(strip_prefixes("00x1"), b"00x1");
    assert_eq!(strip_prefixes("0x0"), b"0");
    assert_eq!(strip_prefixes("0xé"), "é".as_bytes());
    assert_eq!(strip_prefixes(""), b"");
}

#[test]
fn every_parity_notation_is_read() {
    for (v, y_parity) in [(0, false), (1, true), (27, false), (28, true), (35, false), (36, true), (37, false), (255, false), (254, true)] {
        assert_eq!(
            parse_signature(&text(2, 3, v)).unwrap(),
            Signature { r: [2; 32], s: [3; 32], y_parity }
        );
    }
}

#[test]
fn other_last_bytes_stand_for_no_parity() {
    for v in [2u8, 3, 26, 29, 34] {
        match parse_signature(&text(2, 3, v)) {
            Err(RemoteSignerError::SignatureError(SignatureError::InvalidParity(found))) => {
                assert_eq!(found, v as u64)
            }
            other => panic!("{:?}", other),
        }
    }
}

#[test]
fn odd_number_of_digits_is_refused() {
    assert!(matches!(
        parse_signature("0x123"),
        Err(RemoteSignerError::InvalidSignatureHex(FromHexError::OddLength))
    ));
    // The length is looked at before the digits.
    assert!(matches!(
        parse_signature("zzz"),
        Err(RemoteSignerError::InvalidSignatureHex(FromHexError::OddLength))
    ));
}

#[test]
fn stray_character_is_refused_with_its_place() {
    assert!(matches!(
        parse_signature("0x12g4h6"),
        Err(RemoteSignerError::InvalidSignatureHex(FromHexError::InvalidHexCharacter {
            c: 'g',
            index: 2
        }))
    ));
    // A character of two bytes shows with its first byte.
    assert!(matches!(
        parse_signature("12é"),
        Err(RemoteSignerError::InvalidSignatureHex(FromHexError::InvalidHexCharacter {
            c: 'Ã',
            index: 2
        }))
    ));
}

#[test]
fn other_lengths_are_refused() {
    for n in [0usize, 1, 64, 66, 100] {
        match parse_signature(&"00".repeat(n)) {
            Err(RemoteSignerError::InvalidSignatureLength(found)) => assert_eq!(found, n),
            other => panic!("{:?}", other),
        }
    }
    assert!(matches!(
        parse_signature("0x"),
        Err(RemoteSignerError::InvalidSignatureLength(0))
    ));
}
