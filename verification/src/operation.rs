//! The data of a long-running operation: its handle, the status that a poll
//! reports, and the policy that bounds the waiting.

use crate::codec::{decode_standard, standard_decoding};
use crate::error::{DecodeFailure, GemsError, GemsErrorView};
use crate::text::text_view;
use vstd::prelude::*;

verus! {

/// The server's name for a submitted job. It is set once, from the answer
/// to the submission, and only read afterwards.
#[derive(Debug, Clone, PartialEq, Eq)]
pub struct OperationHandle {
    name: String,
}

impl View for OperationHandle {
    type V = Seq<char>;

    closed spec fn view(&self) -> Seq<char> {
        self.name@
    }
}

impl OperationHandle {
    /// The handle of the operation that the server calls `name`.
    pub fn new(name: String) -> (handle: Self)
        ensures
            handle@ == name@,
    {
        OperationHandle { name }
    }

    /// The server's name for the operation.
    pub fn name(&self) -> (name: &String)
        ensures
            name@ == self@,
    {
        &self.name
    }
}

/// How long to wait between two polls, and how many polls to make at most.
/// The interval is constant: there is no backoff and no jitter.
#[derive(Debug, Clone, Copy, PartialEq, Eq, Structural)]
pub struct PollPolicy {
    pub interval_ms: u64,
    pub max_attempts: u32,
}

impl PollPolicy {
    /// The policy of the video endpoint: a poll every five seconds, thirty
    /// at most.
    pub fn standard() -> (policy: Self)
        ensures
            policy == (PollPolicy { interval_ms: 5000, max_attempts: 30 }),
    {
        PollPolicy { interval_ms: 5000, max_attempts: 30 }
    }
}

/// What one poll reports of the operation.
#[derive(Debug, Clone, PartialEq, Eq)]
pub enum OperationStatus {
    /// Not done yet.
    Pending,
    /// Done, with the bytes of its result.
    Done(Vec<u8>),
    /// Done, with the server's account of why it failed.
    Failed(String),
}

/// The mathematical value of an `OperationStatus`.
pub enum OperationStatusView {
    Pending,
    Done(Seq<u8>),
    Failed(Seq<char>),
}

impl View for OperationStatus {
    type V = OperationStatusView;

    open spec fn view(&self) -> OperationStatusView {
        match self {
            OperationStatus::Pending => OperationStatusView::Pending,
            OperationStatus::Done(bytes) => OperationStatusView::Done(bytes@),
            OperationStatus::Failed(message) => OperationStatusView::Failed(message@),
        }
    }
}

impl OperationStatusView {
    /// Whether the operation has ended, one way or the other.
    pub open spec fn is_terminal(self) -> bool {
        !(self is Pending)
    }
}

/// The body of an answer to a poll, as far as the poller reads it: the
/// `done` flag, the base64 text of the result and the message of the error,
/// each where the answer holds it.
#[derive(Debug, Clone, PartialEq, Eq)]
pub struct PollResponse {
    pub done: Option<bool>,
    pub payload: Option<String>,
    pub error: Option<String>,
}

/// The status that the fields of an answer stand for, given what decoding
/// its payload gave. An answer that is not flagged done stands for a pending
/// operation whatever else it holds. A done answer is read for its result
/// first, then for its error; with neither it is an empty completion, and
/// with a payload that cannot be decoded it is a decode error.
pub open spec fn status_of(
    done: Option<bool>,
    payload: Option<Result<Seq<u8>, DecodeFailure>>,
    error: Option<Seq<char>>,
) -> Result<OperationStatusView, GemsErrorView> {
    if done != Some(true) {
        Ok(OperationStatusView::Pending)
    } else {
        match payload {
            Some(Ok(bytes)) => Ok(OperationStatusView::Done(bytes)),
            Some(Err(cause)) => Err(GemsErrorView::PayloadDecode(cause)),
            None => match error {
                Some(message) => Ok(OperationStatusView::Failed(message)),
                None => Err(GemsErrorView::EmptyCompletion),
            },
        }
    }
}

/// The view of what decoding a payload gave.
pub open spec fn decoding_view(payload: Option<Result<Vec<u8>, DecodeFailure>>) -> Option<
    Result<Seq<u8>, DecodeFailure>,
> {
    match payload {
        Some(Ok(bytes)) => Some(Ok(bytes@)),
        Some(Err(cause)) => Some(Err(cause)),
        None => None,
    }
}

/// The view of a status or the error in its place.
pub open spec fn status_view(status: Result<OperationStatus, GemsError>) -> Result<
    OperationStatusView,
    GemsErrorView,
> {
    match status {
        Ok(value) => Ok(value@),
        Err(error) => Err(error@),
    }
}

/// The status that the fields of an answer stand for, given what decoding
/// its payload gave.
pub fn classify(
    done: Option<bool>,
    payload: Option<Result<Vec<u8>, DecodeFailure>>,
    error: Option<String>,
) -> (status: Result<OperationStatus, GemsError>)
    ensures
        status_view(status) == status_of(done, decoding_view(payload), text_view(error)),
{
    let finished = match done {
        Some(flag) => flag,
        None => false,
    };
    if !finished {
        return Ok(OperationStatus::Pending);
    }
    match payload {
        Some(Ok(bytes)) => Ok(OperationStatus::Done(bytes)),
        Some(Err(cause)) => Err(GemsError::PayloadDecode(cause)),
        None => match error {
            Some(message) => Ok(OperationStatus::Failed(message)),
            None => Err(GemsError::EmptyCompletion),
        },
    }
}

impl PollResponse {
    /// What decoding the payload of this answer gives, where it holds one.
    pub open spec fn decoding(&self) -> Option<Result<Seq<u8>, DecodeFailure>> {
        match self.payload {
            Some(text) => Some(standard_decoding(text@)),
            None => None,
        }
    }

    /// The status that this answer stands for. The payload is decoded from
    /// base64 only where the answer is flagged done.
    pub fn status(self) -> (status: Result<OperationStatus, GemsError>)
        ensures
            status_view(status) == status_of(self.done, self.decoding(), text_view(self.error)),
    {
        let finished = match self.done {
            Some(flag) => flag,
            None => false,
        };
        if !finished {
            return Ok(OperationStatus::Pending);
        }
        let decoded = match self.payload {
            Some(text) => Some(decode_standard(text.as_str())),
            None => None,
        };
        classify(self.done, decoded, self.error)
    }
}

} // verus!
