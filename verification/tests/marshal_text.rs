use wrapped_mono::error::MarshalError;
use wrapped_mono::marshal;

#[test]
fn ascii_bytes_decode_to_the_same_text() {
    let s = marshal::read_foreign_cstr(&b"someField".to_vec()).unwrap();
    assert_eq!(s, "someField");
}

#[test]
fn empty_bytes_decode_to_the_empty_string() {
    let s = marshal::read_foreign_cstr(&Vec::new()).unwrap();
    assert_eq!(s, "");
}

#[test]
fn multibyte_sequences_decode() {
    // "ó" is 0xC3 0xB3; a three-byte and a four-byte scalar follow.
    let s = marshal::read_foreign_cstr(&vec![0xC3, 0xB3]).unwrap();
    assert_eq!(s, "ó");
    let s = marshal::read_foreign_cstr(&vec![0xE2, 0x82, 0xAC]).unwrap();
    assert_eq!(s, "€");
    let s = marshal::read_foreign_cstr(&vec![0xF0, 0x9F, 0x8E, 0xB5]).unwrap();
    assert_eq!(s, "🎵");
}

#[test]
fn undecodable_bytes_are_a_marshal_error_not_a_crash() {
    // A stray continuation byte.
    assert_eq!(
        marshal::read_foreign_cstr(&vec![0x80]).unwrap_err(),
        MarshalError::InvalidUtf8
    );
    // A leading byte with its continuation cut off.
    assert_eq!(
        marshal::read_foreign_cstr(&vec![0xC3]).unwrap_err(),
        MarshalError::InvalidUtf8
    );
    // An overlong encoding of '/'.
    assert_eq!(
        marshal::read_foreign_cstr(&vec![0xC0, 0xAF]).unwrap_err(),
        MarshalError::InvalidUtf8
    );
    // A surrogate, encodable but not a scalar.
    assert_eq!(
        marshal::read_foreign_cstr(&vec![0xED, 0xA0, 0x80]).unwrap_err(),
        MarshalError::InvalidUtf8
    );
    // A codepoint beyond the last scalar.
    assert_eq!(
        marshal::read_foreign_cstr(&vec![0xF4, 0x90, 0x80, 0x80]).unwrap_err(),
        MarshalError::InvalidUtf8
    );
}

#[test]
fn outbound_text_gets_one_nul_terminator() {
    let b = marshal::to_cstring_bytes("Test").unwrap();
    assert_eq!(b, b"Test\0".to_vec());
    let b = marshal::to_cstring_bytes("").unwrap();
    assert_eq!(b, vec![0u8]);
    let b = marshal::to_cstring_bytes("ó").unwrap();
    assert_eq!(b, vec![0xC3, 0xB3, 0x00]);
}

#[test]
fn outbound_text_with_interior_nul_is_rejected() {
    assert_eq!(
        marshal::to_cstring_bytes("Te\0st").unwrap_err(),
        MarshalError::InteriorNul
    );
}

#[test]
fn text_round_trips_through_the_boundary() {
    // Out as a C string, back as borrowed bytes without the terminator.
    let cases = ["Test", "SomeNamespace", "PassDataArray", "zażółć", "名前"];
    for case in cases {
        let mut out = marshal::to_cstring_bytes(case).unwrap();
        assert_eq!(out.pop(), Some(0u8));
        let back = marshal::read_foreign_cstr(&out).unwrap();
        assert_eq!(back, case);
    }
}
