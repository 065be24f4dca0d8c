use sign_cmd::errors::Error;
use sign_cmd::hexcode::{hex_decode, hex_encode, hex_string};

#[test]
fn hex_encode_known_bytes() {
    assert_eq!(hex_encode(&[0xde, 0xad, 0xbe, 0xef]), b"deadbeef".to_vec());
    assert_eq!(hex_encode(&[0x00, 0x01, 0x0f, 0x10, 0xff]), b"00010f10ff".to_vec());
}

#[test]
fn hex_encode_empty() {
    assert_eq!(hex_encode(&[]), Vec::<u8>::new());
    assert_eq!(hex_string(&[]), "");
}

#[test]
fn hex_encode_matches_hex_crate() {
    let samples: Vec<Vec<u8>> = vec![
        vec![],
        vec![0],
        vec![255],
        vec![1, 2, 3, 4, 5],
        (0u8..=255).collect(),
    ];
    for bytes in samples {
        assert_eq!(hex_string(&bytes), hex::encode(&bytes));
    }
}

#[test]
fn hex_decode_round_trip_mixed_case() {
    let decoded = hex_decode(b"DeadBEEF").unwrap();
    assert_eq!(decoded, vec![0xde, 0xad, 0xbe, 0xef]);
    assert_eq!(hex_string(&decoded), "deadbeef");
}

#[test]
fn hex_decode_then_encode_is_identity_on_lowercase() {
    let s = b"00010f10ff";
    let decoded = hex_decode(s).unwrap();
    assert_eq!(hex_encode(&decoded), s.to_vec());
}

#[test]
fn hex_decode_rejects_odd_length() {
    assert_eq!(hex_decode(b"abc"), Err(Error::InvalidInput));
}

#[test]
fn hex_decode_rejects_non_digit() {
    assert_eq!(hex_decode(b"zz"), Err(Error::InvalidInput));
    assert_eq!(hex_decode(b"0g"), Err(Error::InvalidInput));
}

#[test]
fn hex_decode_empty_is_empty() {
    assert_eq!(hex_decode(b""), Ok(Vec::new()));
}
