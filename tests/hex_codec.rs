use aurora_identity::error::IdentityError;
use aurora_identity::hex::{decode, encode};

#[test]
fn encode_is_lowercase_two_digits_per_byte() {
    assert_eq!(encode(&[0x00, 0xff, 0x10, 0xab]), "00ff10ab");
    assert_eq!(encode(&[]), "");
    assert_eq!(encode(&[0x0f]), "0f");
}

#[test]
fn decode_reads_both_cases() {
    assert_eq!(decode("00ff10ab").unwrap(), vec![0x00, 0xff, 0x10, 0xab]);
    assert_eq!(decode("DEADbeef").unwrap(), vec![0xde, 0xad, 0xbe, 0xef]);
    assert_eq!(decode("").unwrap(), Vec::<u8>::new());
}

#[test]
fn decode_undoes_encode() {
    let all: Vec<u8> = (0..=255u8).collect();
    assert_eq!(decode(&encode(&all)).unwrap(), all);
    let some = vec![7u8, 0, 200, 31, 255, 128];
    assert_eq!(decode(&encode(&some)).unwrap(), some);
}

#[test]
fn decode_rejects_odd_length() {
    assert_eq!(decode("abc"), Err(IdentityError::SerializationError));
    assert_eq!(decode("0"), Err(IdentityError::SerializationError));
}

#[test]
fn decode_rejects_non_hex_characters() {
    assert_eq!(decode("zz"), Err(IdentityError::SerializationError));
    assert_eq!(decode("0g"), Err(IdentityError::SerializationError));
    assert_eq!(decode("+a"), Err(IdentityError::SerializationError));
    assert_eq!(decode("ab cd"), Err(IdentityError::SerializationError));
    assert_eq!(decode("aé"), Err(IdentityError::SerializationError));
    assert_eq!(decode("éé"), Err(IdentityError::SerializationError));
}

#[test]
fn decode_gives_no_partial_result() {
    assert_eq!(decode("00112x"), Err(IdentityError::SerializationError));
    assert_eq!(decode("0011223"), Err(IdentityError::SerializationError));
}
