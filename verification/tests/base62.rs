use labrinth::MalformedIdError;
use labrinth::decode_base62;
use labrinth::encode_base62;

#[test]
fn encode_zero() {
    assert_eq!(encode_base62(0), "0");
}

#[test]
fn encode_known_values() {
    assert_eq!(encode_base62(9), "9");
    assert_eq!(encode_base62(10), "A");
    assert_eq!(encode_base62(35), "Z");
    assert_eq!(encode_base62(36), "a");
    assert_eq!(encode_base62(61), "z");
    assert_eq!(encode_base62(62), "10");
    assert_eq!(encode_base62(11157), "2tx");
}

#[test]
fn decode_known_values() {
    assert_eq!(decode_base62("0"), Ok(0));
    assert_eq!(decode_base62("z"), Ok(61));
    assert_eq!(decode_base62("10"), Ok(62));
    assert_eq!(decode_base62("2tx"), Ok(11157));
}

#[test]
fn round_trip_many() {
    let values: Vec<u64> = vec![
        0,
        1,
        61,
        62,
        63,
        3843,
        3844,
        123456789,
        987654321098765,
        u64::MAX - 1,
        u64::MAX,
    ];
    for v in values {
        let s = encode_base62(v);
        assert_eq!(decode_base62(&s), Ok(v));
    }
}

#[test]
fn decode_empty_fails() {
    assert_eq!(decode_base62(""), Err(MalformedIdError::Empty));
}

#[test]
fn decode_invalid_character_fails() {
    assert_eq!(decode_base62("abc!"), Err(MalformedIdError::InvalidCharacter));
    assert_eq!(decode_base62("-1"), Err(MalformedIdError::InvalidCharacter));
    assert_eq!(decode_base62("\u{00e9}"), Err(MalformedIdError::InvalidCharacter));
}

#[test]
fn decode_overflow_fails() {
    // Eleven 'z' digits denote 62^11 - 1, which is above u64::MAX.
    assert_eq!(decode_base62("zzzzzzzzzzz"), Err(MalformedIdError::Overflow));
}
