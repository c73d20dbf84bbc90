use gems::codec::{decode_payload, into_payload};
use gems::error::{DecodeFailure, GemsError};
use gems::utils::{encode_image, try_encode_image};

#[test]
fn payload_is_decoded_from_standard_base64() {
    assert_eq!(decode_payload("aGVsbG8="), Ok(b"hello".to_vec()));
    assert_eq!(decode_payload(""), Ok(vec![]));
    assert_eq!(decode_payload("+/8="), Ok(vec![0xfb, 0xff]));
}

#[test]
fn decoding_is_not_the_identity() {
    assert_ne!(decode_payload("aGVsbG8="), Ok(b"aGVsbG8=".to_vec()));
}

#[test]
fn each_way_of_failing_is_told_apart() {
    assert_eq!(
        decode_payload("aGV$bG8="),
        Err(GemsError::PayloadDecode(DecodeFailure::InvalidByte(3, b'$')))
    );
    assert_eq!(
        decode_payload("-_8="),
        Err(GemsError::PayloadDecode(DecodeFailure::InvalidByte(0, b'-')))
    );
    assert_eq!(
        decode_payload("aGVsb"),
        Err(GemsError::PayloadDecode(DecodeFailure::InvalidLength(5)))
    );
    assert_eq!(
        decode_payload("aGVsbG9="),
        Err(GemsError::PayloadDecode(DecodeFailure::InvalidLastSymbol(
            6, b'9'
        )))
    );
    assert_eq!(
        decode_payload("aGVsbG8"),
        Err(GemsError::PayloadDecode(DecodeFailure::InvalidPadding))
    );
}

#[test]
fn decoding_result_becomes_payload_or_error() {
    assert_eq!(into_payload(Ok(vec![1, 2, 3])), Ok(vec![1, 2, 3]));
    assert_eq!(
        into_payload(Err(DecodeFailure::InvalidPadding)),
        Err(GemsError::PayloadDecode(DecodeFailure::InvalidPadding))
    );
}

#[test]
fn image_is_encoded_as_standard_base64() {
    assert_eq!(encode_image(b"hello"), "aGVsbG8=");
    assert_eq!(encode_image(&[]), "");
    assert_eq!(encode_image(&[0xfb, 0xff]), "+/8=");
    assert_eq!(encode_image(&[0x89, 0x50, 0x4e, 0x47]), "iVBORw==");
    assert_eq!(try_encode_image(b"hello"), Some("aGVsbG8=".to_string()));
}

#[test]
fn encoding_then_decoding_gives_the_bytes_back() {
    let bytes: Vec<u8> = (0..=255).collect();
    assert_eq!(decode_payload(&encode_image(&bytes)), Ok(bytes));
}
