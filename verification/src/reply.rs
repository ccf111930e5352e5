//! What goes back to the peer.
//!
//! A connection carries one request and at most one response. A request
//! that was never decoded gets none. A request that was refused gets an
//! error response without id. Encoding is not expected to fail; should a
//! response fail to encode all the same, it is replaced by an error response
//! that says so, without id, and if that cannot be encoded either, nothing
//! is sent.

use crate::dispatch::dispatch_error_text;
use crate::dispatch::DispatchError;
use crate::dispatch::DispatchErrorView;
use crate::protocol::err_response;
use crate::protocol::error_view;
use crate::protocol::Response;
use crate::protocol::ResponseView;
use crate::wire::response_wire;
use crate::wire::EncodeError;
use vstd::prelude::*;

verus! {

/// What to send.
#[derive(Debug, PartialEq, Eq)]
pub enum Reply {
    /// The response, encoded.
    Encoded(Vec<u8>),
    /// The response could not be encoded, for this reason; the bytes are an
    /// error response that says so.
    Substitute { reason: String, bytes: Vec<u8> },
    /// Nothing: the error response could not be encoded, for this reason.
    Nothing(String),
}

/// What the handling of a request came to, in contracts.
pub open spec fn handled_view(outcome: Result<Response, DispatchError>) -> Result<
    ResponseView,
    DispatchErrorView,
> {
    match outcome {
        Ok(response) => Ok(response@),
        Err(e) => Err(e@),
    }
}

/// The response that is owed: the one that was made, or, for a request that
/// was refused, the refusal as an error response without id.
pub open spec fn owed(outcome: Result<ResponseView, DispatchErrorView>) -> ResponseView {
    match outcome {
        Ok(response) => response,
        Err(e) => error_view(None, dispatch_error_text(e)),
    }
}

/// The response that stands in for one that could not be encoded.
pub fn substitute_for(failure: EncodeError) -> (response: Response)
    ensures
        response@ == error_view(None, failure.message@),
{
    err_response(None, failure.message)
}

/// The response that answers a request that was refused.
pub fn refusal_of(refused: &DispatchError) -> (response: Response)
    ensures
        response@ == error_view(None, dispatch_error_text(refused@)),
{
    err_response(None, refused.message())
}

/// Works out what to send, given what the handling of the request came to:
/// the response that is owed, encoded.
///
/// The encoder's type allows for a failure. Should the owed response fail
/// to encode, its substitute is tried, once, unless it was a refusal
/// already; should that fail too, nothing is sent.
pub fn reply_to(outcome: Result<Response, DispatchError>) -> (reply: Reply)
    ensures
        reply matches Reply::Encoded(bytes) && bytes@ == response_wire(
            owed(handled_view(outcome)),
        ),
{
    match outcome {
        Ok(response) => match response.to_bencode() {
            Ok(bytes) => Reply::Encoded(bytes),
            Err(failure) => {
                let reason = failure.message.clone();
                match substitute_for(failure).to_bencode() {
                    Ok(bytes) => Reply::Substitute { reason, bytes },
                    Err(again) => Reply::Nothing(again.message),
                }
            },
        },
        Err(refused) => match refusal_of(&refused).to_bencode() {
            Ok(bytes) => Reply::Encoded(bytes),
            Err(failure) => Reply::Nothing(failure.message),
        },
    }
}

} // verus!
