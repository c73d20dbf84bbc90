//! The errors that the library returns.

use vstd::prelude::*;
use vstd::string::StringExecFns;

verus! {

/// Why decoding a base64 text failed.
#[derive(Debug, Clone, Copy, PartialEq, Eq, Structural)]
pub enum DecodeFailure {
    /// A symbol outside the alphabet, or padding that is not at the end:
    /// its offset and the byte found there.
    InvalidByte(usize, u8),
    /// The number of symbols cannot be the length of an encoding.
    InvalidLength(usize),
    /// The last symbol holds bits that the decoded bytes would drop: its
    /// offset and the byte found there.
    InvalidLastSymbol(usize, u8),
    /// The padding is missing or not canonical.
    InvalidPadding,
}

/// An error of the library.
#[derive(Debug, Clone, PartialEq, Eq)]
pub enum GemsError {
    /// The transport failed; the call ends at once and nothing is retried.
    Network(String),
    /// A chunk of a stream was not UTF-8. The stream goes on without it.
    MalformedChunk,
    /// The answer to a submission names no operation.
    MissingOperationHandle,
    /// The server reported a failure, with its message.
    OperationFailed(String),
    /// The operation ended without a result and without an error.
    EmptyCompletion,
    /// The payload of a finished operation could not be decoded.
    PayloadDecode(DecodeFailure),
    /// An answer could not be read as the JSON it was expected to be.
    ResponseDecode(String),
    /// The operation did not end within the attempts allowed.
    Timeout,
    /// The caller called the operation off.
    Cancelled,
    /// A request needs an API key and the client has none.
    ApiKeyNotSet,
    /// This text cannot be read as the address of a request.
    InvalidAddress(String),
    /// No model goes by this name.
    UnknownModel(String),
    /// A prompt holds no text.
    PromptWithoutText,
    /// A response holds no candidates.
    MissingCandidates,
    /// A response holds an empty list of candidates.
    NoCandidate,
    /// The first part of a response is not text.
    ExpectedText,
    /// A response holds no audio.
    NoAudio,
    /// No part of the first candidate of a response carries inline data.
    NoImage,
    /// A builder was asked to build before this field was set.
    UninitializedField(String),
}

/// The mathematical value of a `GemsError`.
pub enum GemsErrorView {
    Network(Seq<char>),
    MalformedChunk,
    MissingOperationHandle,
    OperationFailed(Seq<char>),
    EmptyCompletion,
    PayloadDecode(DecodeFailure),
    ResponseDecode(Seq<char>),
    Timeout,
    Cancelled,
    ApiKeyNotSet,
    InvalidAddress(Seq<char>),
    UnknownModel(Seq<char>),
    PromptWithoutText,
    MissingCandidates,
    NoCandidate,
    ExpectedText,
    NoAudio,
    NoImage,
    UninitializedField(Seq<char>),
}

impl View for GemsError {
    type V = GemsErrorView;

    open spec fn view(&self) -> GemsErrorView {
        match self {
            GemsError::Network(message) => GemsErrorView::Network(message@),
            GemsError::MalformedChunk => GemsErrorView::MalformedChunk,
            GemsError::MissingOperationHandle => GemsErrorView::MissingOperationHandle,
            GemsError::OperationFailed(message) => GemsErrorView::OperationFailed(message@),
            GemsError::EmptyCompletion => GemsErrorView::EmptyCompletion,
            GemsError::PayloadDecode(cause) => GemsErrorView::PayloadDecode(*cause),
            GemsError::ResponseDecode(why) => GemsErrorView::ResponseDecode(why@),
            GemsError::Timeout => GemsErrorView::Timeout,
            GemsError::Cancelled => GemsErrorView::Cancelled,
            GemsError::ApiKeyNotSet => GemsErrorView::ApiKeyNotSet,
            GemsError::InvalidAddress(url) => GemsErrorView::InvalidAddress(url@),
            GemsError::UnknownModel(name) => GemsErrorView::UnknownModel(name@),
            GemsError::PromptWithoutText => GemsErrorView::PromptWithoutText,
            GemsError::MissingCandidates => GemsErrorView::MissingCandidates,
            GemsError::NoCandidate => GemsErrorView::NoCandidate,
            GemsError::ExpectedText => GemsErrorView::ExpectedText,
            GemsError::NoAudio => GemsErrorView::NoAudio,
            GemsError::NoImage => GemsErrorView::NoImage,
            GemsError::UninitializedField(field) => GemsErrorView::UninitializedField(field@),
        }
    }
}

impl GemsError {
    /// Whether the error ends the call it came from. Only a malformed chunk
    /// does not.
    pub open spec fn is_fatal(&self) -> bool {
        !(self is MalformedChunk)
    }

    /// Whether the error ends the call it came from.
    pub fn fatal(&self) -> (fatal: bool)
        ensures
            fatal == self.is_fatal(),
    {
        match self {
            GemsError::MalformedChunk => false,
            _ => true,
        }
    }
}

/// The character of a decimal digit.
pub open spec fn digit(d: nat) -> char {
    if d == 0 {
        '0'
    } else if d == 1 {
        '1'
    } else if d == 2 {
        '2'
    } else if d == 3 {
        '3'
    } else if d == 4 {
        '4'
    } else if d == 5 {
        '5'
    } else if d == 6 {
        '6'
    } else if d == 7 {
        '7'
    } else if d == 8 {
        '8'
    } else {
        '9'
    }
}

/// The digits of `n` in base ten, without leading zeros.
pub open spec fn decimal(n: nat) -> Seq<char>
    decreases n,
{
    if n < 10 {
        seq![digit(n)]
    } else {
        decimal(n / 10).push(digit(n % 10))
    }
}

fn digit_char(d: usize) -> (c: char)
    requires
        d < 10,
    ensures
        c == digit(d as nat),
{
    if d == 0 {
        '0'
    } else if d == 1 {
        '1'
    } else if d == 2 {
        '2'
    } else if d == 3 {
        '3'
    } else if d == 4 {
        '4'
    } else if d == 5 {
        '5'
    } else if d == 6 {
        '6'
    } else if d == 7 {
        '7'
    } else if d == 8 {
        '8'
    } else {
        '9'
    }
}

/// Appends the digits of `n` in base ten to `text`.
pub fn push_decimal(text: &mut String, n: usize)
    ensures
        final(text)@ == old(text)@ + decimal(n as nat),
    decreases n,
{
    if n >= 10 {
        push_decimal(text, n / 10);
    }
    text.push(digit_char(n % 10));
    assert(text@ =~= old(text)@ + decimal(n as nat));
}

impl DecodeFailure {
    /// What the failure reads as.
    pub open spec fn text(self) -> Seq<char> {
        match self {
            DecodeFailure::InvalidByte(at, byte) => "Invalid symbol "@ + decimal(byte as nat)
                + ", offset "@ + decimal(at as nat) + "."@,
            DecodeFailure::InvalidLength(len) => "Invalid input length: "@ + decimal(len as nat),
            DecodeFailure::InvalidLastSymbol(at, byte) => "Invalid last symbol "@ + decimal(
                byte as nat,
            ) + ", offset "@ + decimal(at as nat) + "."@,
            DecodeFailure::InvalidPadding => "Invalid padding"@,
        }
    }

    /// Appends what the failure reads as to `text`.
    pub fn describe(&self, text: &mut String)
        ensures
            final(text)@ == old(text)@ + self.text(),
    {
        match self {
            DecodeFailure::InvalidByte(at, byte) => {
                text.append("Invalid symbol ");
                push_decimal(text, *byte as usize);
                text.append(", offset ");
                push_decimal(text, *at);
                text.append(".");
            },
            DecodeFailure::InvalidLength(len) => {
                text.append("Invalid input length: ");
                push_decimal(text, *len);
            },
            DecodeFailure::InvalidLastSymbol(at, byte) => {
                text.append("Invalid last symbol ");
                push_decimal(text, *byte as usize);
                text.append(", offset ");
                push_decimal(text, *at);
                text.append(".");
            },
            DecodeFailure::InvalidPadding => {
                text.append("Invalid padding");
            },
        }
        assert(text@ =~= old(text)@ + self.text());
    }
}

impl GemsErrorView {
    /// What the error reads as.
    pub open spec fn text(self) -> Seq<char> {
        match self {
            GemsErrorView::Network(message) => "Network error: "@ + message,
            GemsErrorView::MalformedChunk => "Failed to parse chunk"@,
            GemsErrorView::MissingOperationHandle => "Missing operation name"@,
            GemsErrorView::OperationFailed(message) => "Operation failed: "@ + message,
            GemsErrorView::EmptyCompletion => "Operation completed but no response found"@,
            GemsErrorView::PayloadDecode(cause) => "Failed to decode payload: "@ + cause.text(),
            GemsErrorView::ResponseDecode(why) => "Failed to decode response: "@ + why,
            GemsErrorView::Timeout => "Timed out waiting for the operation"@,
            GemsErrorView::Cancelled => "Cancelled"@,
            GemsErrorView::ApiKeyNotSet => "API key not set"@,
            GemsErrorView::InvalidAddress(url) => "Invalid address: "@ + url,
            GemsErrorView::UnknownModel(name) => "Unknown model: "@ + name,
            GemsErrorView::PromptWithoutText => "Prompt must contain text"@,
            GemsErrorView::MissingCandidates => "Missing candidates"@,
            GemsErrorView::NoCandidate => "No candidate response"@,
            GemsErrorView::ExpectedText => "Expected text response"@,
            GemsErrorView::NoAudio => "No audio found in response"@,
            GemsErrorView::NoImage => "No image found in response"@,
            GemsErrorView::UninitializedField(field) => "`"@ + field + "` must be initialized"@,
        }
    }
}

impl GemsError {
    /// What the error reads as.
    pub fn message(&self) -> (text: String)
        ensures
            text@ == self@.text(),
    {
        match self {
            GemsError::Network(message) => "Network error: ".to_owned().concat(message.as_str()),
            GemsError::MalformedChunk => "Failed to parse chunk".to_owned(),
            GemsError::MissingOperationHandle => "Missing operation name".to_owned(),
            GemsError::OperationFailed(message) => "Operation failed: ".to_owned().concat(
                message.as_str(),
            ),
            GemsError::EmptyCompletion => "Operation completed but no response found".to_owned(),
            GemsError::PayloadDecode(cause) => {
                let mut text = "Failed to decode payload: ".to_owned();
                cause.describe(&mut text);
                text
            },
            GemsError::ResponseDecode(why) => "Failed to decode response: ".to_owned().concat(
                why.as_str(),
            ),
            GemsError::Timeout => "Timed out waiting for the operation".to_owned(),
            GemsError::Cancelled => "Cancelled".to_owned(),
            GemsError::ApiKeyNotSet => "API key not set".to_owned(),
            GemsError::InvalidAddress(url) => "Invalid address: ".to_owned().concat(url.as_str()),
            GemsError::UnknownModel(name) => "Unknown model: ".to_owned().concat(name.as_str()),
            GemsError::PromptWithoutText => "Prompt must contain text".to_owned(),
            GemsError::MissingCandidates => "Missing candidates".to_owned(),
            GemsError::NoCandidate => "No candidate response".to_owned(),
            GemsError::ExpectedText => "Expected text response".to_owned(),
            GemsError::NoAudio => "No audio found in response".to_owned(),
            GemsError::NoImage => "No image found in response".to_owned(),
            GemsError::UninitializedField(field) => "`".to_owned().concat(field.as_str()).concat(
                "` must be initialized",
            ),
        }
    }
}

} // verus!
