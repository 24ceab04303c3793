//! The error taxonomy surfaced to callers of `send`: the connection failed,
//! the remote side answered with its reserved error payload, the remote side
//! answered with a payload of an unexpected shape, or the internal plumbing
//! was torn down before a result could be produced.

use vstd::prelude::*;

verus! {

#[verifier::external_type_specification]
#[verifier::external_body]
pub struct ExIoError(std::io::Error);

/// Why a request produced no successful response.
#[derive(Debug)]
pub enum RequestError {
    /// The underlying stream could not be used: opening it failed, or a
    /// write to it failed while this request was being sent.
    IoError(std::io::Error),
    /// The remote side explicitly answered this request with its error
    /// payload; carries the remote-supplied message.
    ResponseError(String),
    /// The remote side answered successfully, but not with the payload
    /// variant the caller expected for this request kind; carries the
    /// payload so the caller can handle or discard it.
    UnexpectedResponse(devcade_onboard_types::ResponseBody),
    /// The outbound queue or the completion handle was closed before a
    /// result was produced.
    ChannelClosed,
}

impl From<std::io::Error> for RequestError {
    fn from(error: std::io::Error) -> (r: RequestError) {
        RequestError::IoError(error)
    }
}

impl vstd::std_specs::convert::FromSpecImpl<std::io::Error> for RequestError {
    open spec fn obeys_from_spec() -> bool {
        true
    }

    open spec fn from_spec(error: std::io::Error) -> RequestError {
        RequestError::IoError(error)
    }
}

} // verus!
