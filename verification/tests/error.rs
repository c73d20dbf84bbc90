use gems::error::{push_decimal, DecodeFailure, GemsError};

fn decimal(n: usize) -> String {
    let mut text = String::new();
    push_decimal(&mut text, n);
    text
}

#[test]
fn numbers_are_written_in_base_ten() {
    assert_eq!(decimal(0), "0");
    assert_eq!(decimal(7), "7");
    assert_eq!(decimal(10), "10");
    assert_eq!(decimal(1234567890), "1234567890");
    assert_eq!(decimal(usize::MAX), usize::MAX.to_string());
    for n in [9, 11, 99, 100, 101, 255, 1000, 65535, 4294967295] {
        assert_eq!(decimal(n), n.to_string());
    }
}

#[test]
fn digits_are_appended_to_what_is_there() {
    let mut text = "offset ".to_string();
    push_decimal(&mut text, 42);
    assert_eq!(text, "offset 42");
}

#[test]
fn decode_failures_read_as_their_cause() {
    let read = |cause: DecodeFailure| {
        let mut text = String::new();
        cause.describe(&mut text);
        text
    };
    assert_eq!(
        read(DecodeFailure::InvalidByte(4, b'*')),
        "Invalid symbol 42, offset 4."
    );
    assert_eq!(
        read(DecodeFailure::InvalidLength(5)),
        "Invalid input length: 5"
    );
    assert_eq!(
        read(DecodeFailure::InvalidLastSymbol(6, b'9')),
        "Invalid last symbol 57, offset 6."
    );
    assert_eq!(read(DecodeFailure::InvalidPadding), "Invalid padding");
}

#[test]
fn each_error_has_its_message() {
    assert_eq!(
        GemsError::Network("connection reset".to_string()).message(),
        "Network error: connection reset"
    );
    assert_eq!(GemsError::MalformedChunk.message(), "Failed to parse chunk");
    assert_eq!(
        GemsError::MissingOperationHandle.message(),
        "Missing operation name"
    );
    assert_eq!(
        GemsError::OperationFailed("quota exceeded".to_string()).message(),
        "Operation failed: quota exceeded"
    );
    assert_eq!(
        GemsError::EmptyCompletion.message(),
        "Operation completed but no response found"
    );
    assert_eq!(
        GemsError::PayloadDecode(DecodeFailure::InvalidByte(12, b'!')).message(),
        "Failed to decode payload: Invalid symbol 33, offset 12."
    );
    assert_eq!(
        GemsError::ResponseDecode("expected value at line 1 column 1".to_string()).message(),
        "Failed to decode response: expected value at line 1 column 1"
    );
    assert_eq!(
        GemsError::Timeout.message(),
        "Timed out waiting for the operation"
    );
    assert_eq!(GemsError::Cancelled.message(), "Cancelled");
    assert_eq!(GemsError::ApiKeyNotSet.message(), "API key not set");
    assert_eq!(
        GemsError::InvalidAddress("::".to_string()).message(),
        "Invalid address: ::"
    );
    assert_eq!(
        GemsError::UnknownModel("gpt".to_string()).message(),
        "Unknown model: gpt"
    );
    assert_eq!(
        GemsError::PromptWithoutText.message(),
        "Prompt must contain text"
    );
    assert_eq!(GemsError::MissingCandidates.message(), "Missing candidates");
    assert_eq!(GemsError::NoCandidate.message(), "No candidate response");
    assert_eq!(GemsError::ExpectedText.message(), "Expected text response");
    assert_eq!(GemsError::NoAudio.message(), "No audio found in response");
    assert_eq!(GemsError::NoImage.message(), "No image found in response");
    assert_eq!(
        GemsError::UninitializedField("model".to_string()).message(),
        "`model` must be initialized"
    );
}

#[test]
fn only_a_malformed_chunk_is_not_fatal() {
    assert!(!GemsError::MalformedChunk.fatal());
    assert!(GemsError::Timeout.fatal());
    assert!(GemsError::Network(String::new()).fatal());
    assert!(GemsError::MissingOperationHandle.fatal());
    assert!(GemsError::OperationFailed(String::new()).fatal());
    assert!(GemsError::PayloadDecode(DecodeFailure::InvalidPadding).fatal());
    assert!(GemsError::EmptyCompletion.fatal());
}
