//! The one request that a refresh sends to the registry, and the ways in
//! which fetching the summary can fail.

use vstd::prelude::*;

verus! {

/// The JSON-RPC method that returns the latest system state.
pub const RPC_METHOD: &'static str = "sui_getLatestSuiSystemState";

/// The content type of the request.
pub const CONTENT_TYPE: &'static str = "application/json";

/// The request body: one call of [`RPC_METHOD`], with request id 1.
pub const REQUEST_BODY: &'static str =
    "{\"jsonrpc\":\"2.0\",\"method\":\"sui_getLatestSuiSystemState\",\"id\":1}";

/// The time, in seconds, after which a fetch is given up as a transport
/// failure, so that a registry that hangs cannot hold up the refresh.
pub const FETCH_TIMEOUT_SECS: u64 = 10;

/// Why a fetch yielded no summary. Each failure ends the refresh cycle it
/// occurred in and nothing else.
#[derive(Debug, Clone, Copy, PartialEq, Eq, Structural)]
pub enum FetchError {
    /// The registry could not be reached, or the reply could not be read.
    Transport,
    /// The registry answered with a status other than success.
    Status(u16),
    /// The reply's body is not JSON.
    MalformedJson,
    /// The reply's body is JSON of another shape than a summary's envelope.
    SchemaMismatch,
}

/// How the body of a reply failed to decode, in the classes that a JSON
/// decoder tells apart.
#[derive(Debug, Clone, Copy, PartialEq, Eq, Structural)]
pub enum DecodeFailure {
    /// The body is not well-formed JSON.
    Syntax,
    /// The body ends in the middle of a JSON value.
    UnexpectedEnd,
    /// The body could not be read through.
    Io,
    /// The body is JSON, but a field is missing or has another shape.
    Data,
}

/// An HTTP POST to be sent as it stands.
#[derive(Debug, PartialEq, Eq)]
pub struct RpcRequest {
    pub url: String,
    pub content_type: String,
    pub body: String,
}

/// The mathematical content of an [`RpcRequest`].
pub struct RpcRequestView {
    pub url: Seq<char>,
    pub content_type: Seq<char>,
    pub body: Seq<char>,
}

impl View for RpcRequest {
    type V = RpcRequestView;

    open spec fn view(&self) -> RpcRequestView {
        RpcRequestView { url: self.url@, content_type: self.content_type@, body: self.body@ }
    }
}

/// The request for the validator set, as sent to the endpoint `url`.
pub open spec fn validators_request_for(url: Seq<char>) -> RpcRequestView {
    RpcRequestView { url, content_type: CONTENT_TYPE@, body: REQUEST_BODY@ }
}

/// Builds the request for the validator set.
pub fn validators_request(url: &str) -> (request: RpcRequest)
    ensures
        request@ == validators_request_for(url@),
{
    RpcRequest {
        url: url.to_owned(),
        content_type: CONTENT_TYPE.to_owned(),
        body: REQUEST_BODY.to_owned(),
    }
}

/// The failure that a body which did not decode stands for: a mismatch of
/// the schema where the body is JSON of another shape, malformed JSON
/// otherwise.
pub open spec fn decode_error(failure: DecodeFailure) -> FetchError {
    match failure {
        DecodeFailure::Data => FetchError::SchemaMismatch,
        _ => FetchError::MalformedJson,
    }
}

/// Turns the way in which a body failed to decode into the failure of the
/// fetch.
pub fn classify_decode_failure(failure: DecodeFailure) -> (error: FetchError)
    ensures
        error == decode_error(failure),
{
    match failure {
        DecodeFailure::Data => FetchError::SchemaMismatch,
        DecodeFailure::Syntax => FetchError::MalformedJson,
        DecodeFailure::UnexpectedEnd => FetchError::MalformedJson,
        DecodeFailure::Io => FetchError::MalformedJson,
    }
}

/// Whether an HTTP status reports success.
pub open spec fn is_success(status: u16) -> bool {
    200 <= status <= 299
}

/// Accepts a successful status and turns any other into its failure.
pub fn check_status(status: u16) -> (checked: Result<(), FetchError>)
    ensures
        checked == if is_success(status) {
            Ok::<(), FetchError>(())
        } else {
            Err::<(), FetchError>(FetchError::Status(status))
        },
{
    if 200 <= status && status <= 299 {
        Ok(())
    } else {
        Err(FetchError::Status(status))
    }
}

} // verus!
