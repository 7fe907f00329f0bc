//! The provider's side of the named pipe: framing a request, checking the
//! length of the reply, and when to give up connecting.
use vstd::prelude::*;
use crate::text::{decimal, u32_to_decimal};
use crate::wire::{frame_message, framed, le_value, u32_from_le_bytes};

verus! {

/// Path of the service's named pipe.
pub const PIPE_PATH: &'static str = "\\\\.\\pipe\\winsla-auth-pipe";

/// Largest reply the provider accepts, in bytes.
pub const MAX_RESPONSE_LEN: u32 = 1_000_000;

/// Connection attempts before the provider gives up.
pub const MAX_CONNECT_ATTEMPTS: u32 = 3;

/// Pause between two connection attempts, in milliseconds.
pub const RETRY_DELAY_MS: u64 = 500;

/// What can go wrong talking to the service.
#[derive(Debug, Clone, PartialEq, Eq)]
pub enum PipeClientError {
    ConnectionError(String),
    IoError(String),
    SerializationError(String),
    InvalidResponse(String),
    Timeout,
}

pub enum PipeClientErrorView {
    ConnectionError(Seq<char>),
    IoError(Seq<char>),
    SerializationError(Seq<char>),
    InvalidResponse(Seq<char>),
    Timeout,
}

impl View for PipeClientError {
    type V = PipeClientErrorView;

    open spec fn view(&self) -> PipeClientErrorView {
        match self {
            PipeClientError::ConnectionError(s) => PipeClientErrorView::ConnectionError(s@),
            PipeClientError::IoError(s) => PipeClientErrorView::IoError(s@),
            PipeClientError::SerializationError(s) => PipeClientErrorView::SerializationError(s@),
            PipeClientError::InvalidResponse(s) => PipeClientErrorView::InvalidResponse(s@),
            PipeClientError::Timeout => PipeClientErrorView::Timeout,
        }
    }
}

/// The display text of an error.
pub open spec fn pipe_error_text(e: PipeClientErrorView) -> Seq<char> {
    match e {
        PipeClientErrorView::ConnectionError(s) => "Connection error: "@ + s,
        PipeClientErrorView::IoError(s) => "I/O error: "@ + s,
        PipeClientErrorView::SerializationError(s) => "Serialization error: "@ + s,
        PipeClientErrorView::InvalidResponse(s) => "Invalid response: "@ + s,
        PipeClientErrorView::Timeout => "Timeout"@,
    }
}

impl PipeClientError {
    /// The display text of the error.
    pub fn message(&self) -> (s: String)
        ensures
            s@ == pipe_error_text(self@),
    {
        match self {
            PipeClientError::ConnectionError(s) => String::from_str("Connection error: ").concat(s.as_str()),
            PipeClientError::IoError(s) => String::from_str("I/O error: ").concat(s.as_str()),
            PipeClientError::SerializationError(s) => String::from_str("Serialization error: ").concat(s.as_str()),
            PipeClientError::InvalidResponse(s) => String::from_str("Invalid response: ").concat(s.as_str()),
            PipeClientError::Timeout => String::from_str("Timeout"),
        }
    }
}

/// The bytes to write for a serialized request.
pub fn request_frame(request_bytes: &[u8]) -> (r: Vec<u8>)
    ensures
        r@ == framed(request_bytes@),
{
    frame_message(request_bytes)
}

/// The length of the reply announced by its four header bytes; a reply
/// over 1,000,000 bytes is refused.
pub fn response_length(header: &[u8]) -> (r: Result<usize, PipeClientError>)
    requires
        header.len() >= 4,
    ensures
        le_value(header@.take(4)) <= MAX_RESPONSE_LEN ==> r == Ok::<usize, PipeClientError>(le_value(header@.take(4)) as usize),
        le_value(header@.take(4)) > MAX_RESPONSE_LEN ==> (r matches Err(e)
            && e@ == PipeClientErrorView::InvalidResponse("Response too large"@)),
{
    let n = u32_from_le_bytes(header);
    if n > MAX_RESPONSE_LEN {
        Err(PipeClientError::InvalidResponse(String::from_str("Response too large")))
    } else {
        Ok(n as usize)
    }
}

/// What to do after a failed connection attempt.
#[derive(Debug, Clone, PartialEq, Eq)]
pub enum ConnectStep {
    /// Wait `RETRY_DELAY_MS` and try again.
    Retry,
    /// Give up with this error.
    GiveUp(PipeClientError),
}

pub open spec fn give_up_text(err: Seq<char>) -> Seq<char> {
    "Failed to connect after "@ + decimal(3) + " attempts: "@ + err
}

/// After attempt number `attempt` (counting from 0) failed with `err`:
/// retry while attempts are left, else give up with a connection error.
pub fn after_failed_attempt(attempt: u32, err: &str) -> (step: ConnectStep)
    ensures
        attempt + 1 < MAX_CONNECT_ATTEMPTS ==> step == ConnectStep::Retry,
        attempt + 1 >= MAX_CONNECT_ATTEMPTS ==> (step matches ConnectStep::GiveUp(e)
            && e@ == PipeClientErrorView::ConnectionError(give_up_text(err@))),
{
    if attempt < MAX_CONNECT_ATTEMPTS - 1 {
        ConnectStep::Retry
    } else {
        let msg = String::from_str("Failed to connect after ").concat(u32_to_decimal(MAX_CONNECT_ATTEMPTS).as_str()).concat(
            " attempts: ",
        ).concat(err);
        ConnectStep::GiveUp(PipeClientError::ConnectionError(msg))
    }
}

/// A reply that the service frames is accepted by the provider at exactly
/// its own length, whenever it is no longer than 1,000,000 bytes.
pub proof fn lemma_reply_frame_accepted(payload: Seq<u8>)
    requires
        payload.len() <= MAX_RESPONSE_LEN,
    ensures
        le_value(framed(payload).take(4)) == payload.len(),
        le_value(framed(payload).take(4)) <= MAX_RESPONSE_LEN,
        framed(payload).skip(4) == payload,
{
    crate::wire::lemma_frame_roundtrip(payload);
}

} // verus!
