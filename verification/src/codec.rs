//! Base64, as the `base64` crate's standard engine reads and writes it.

use crate::error::{DecodeFailure, GemsError, GemsErrorView};
use base64::engine::general_purpose::STANDARD;
use base64::DecodeError;
use base64::Engine;
use vstd::prelude::*;

verus! {

/// What the standard engine makes of `text`: the bytes it stands for, or why
/// it stands for none.
pub uninterp spec fn standard_decoding(text: Seq<char>) -> Result<Seq<u8>, DecodeFailure>;

/// The text that the standard engine writes for `bytes`.
pub uninterp spec fn standard_encoding(bytes: Seq<u8>) -> Seq<char>;

/// Whether `len` bytes are few enough to encode: the length of their
/// encoding, padding included, is one that a buffer can have.
pub open spec fn encodable(len: nat) -> bool {
    (len / 3) * 4 + 4 <= isize::MAX
}

/// `Engine::decode` on `STANDARD`: the result depends on the text alone, and
/// is what `standard_decoding` names. The error is carried over variant by
/// variant.
#[verifier::external_body]
pub(crate) fn decode_standard(text: &str) -> (decoded: Result<Vec<u8>, DecodeFailure>)
    ensures
        match decoded {
            Ok(bytes) => standard_decoding(text@) == Ok::<Seq<u8>, DecodeFailure>(bytes@),
            Err(cause) => standard_decoding(text@) == Err::<Seq<u8>, DecodeFailure>(cause),
        },
{
    match STANDARD.decode(text) {
        Ok(bytes) => Ok(bytes),
        Err(DecodeError::InvalidByte(at, byte)) => Err(DecodeFailure::InvalidByte(at, byte)),
        Err(DecodeError::InvalidLength(len)) => Err(DecodeFailure::InvalidLength(len)),
        Err(DecodeError::InvalidLastSymbol(at, byte)) => Err(
            DecodeFailure::InvalidLastSymbol(at, byte),
        ),
        Err(DecodeError::InvalidPadding) => Err(DecodeFailure::InvalidPadding),
    }
}

/// `Engine::encode` on `STANDARD`: the result depends on the bytes alone, and
/// is what `standard_encoding` names. The call panics where the length of
/// the encoding overflows a `usize` or is more than a buffer can have, so
/// such inputs are left out.
#[verifier::external_body]
pub(crate) fn encode_standard(bytes: &[u8]) -> (text: String)
    requires
        encodable(bytes@.len()),
    ensures
        text@ == standard_encoding(bytes@),
{
    STANDARD.encode(bytes)
}

/// The payload that a decoding stands for: its bytes, or a decode error with
/// the cause.
pub open spec fn payload_of(decoded: Result<Seq<u8>, DecodeFailure>) -> Result<
    Seq<u8>,
    GemsErrorView,
> {
    match decoded {
        Ok(bytes) => Ok(bytes),
        Err(cause) => Err(GemsErrorView::PayloadDecode(cause)),
    }
}

/// The view of a payload or the error in its place.
pub open spec fn payload_view(payload: Result<Vec<u8>, GemsError>) -> Result<
    Seq<u8>,
    GemsErrorView,
> {
    match payload {
        Ok(bytes) => Ok(bytes@),
        Err(error) => Err(error@),
    }
}

/// Turns what decoding gave into the payload or the error of the library.
pub fn into_payload(decoded: Result<Vec<u8>, DecodeFailure>) -> (payload: Result<
    Vec<u8>,
    GemsError,
>)
    ensures
        match decoded {
            Ok(bytes) => payload matches Ok(same) && same@ == bytes@,
            Err(cause) => payload matches Err(error) && error@ == GemsErrorView::PayloadDecode(
                cause,
            ),
        },
{
    match decoded {
        Ok(bytes) => Ok(bytes),
        Err(cause) => Err(GemsError::PayloadDecode(cause)),
    }
}

/// The bytes that the base64 text of a payload stands for.
pub fn decode_payload(text: &str) -> (payload: Result<Vec<u8>, GemsError>)
    ensures
        payload_view(payload) == payload_of(standard_decoding(text@)),
{
    into_payload(decode_standard(text))
}

} // verus!
