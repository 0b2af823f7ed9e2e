use vstd::prelude::*;

verus! {

/// Why a request to the explorer API failed.
#[derive(Debug, PartialEq, Eq)]
pub enum AppError {
    /// The request URL could not be parsed.
    ErrorInternalUrlParsing,
    /// The request could not be sent, or its reply could not be received.
    ErrorSendingHttpRequest,
    /// The server answered with an HTTP status other than 200.
    ErrorHttpStatus(u16),
    /// The API reported failure; carries the API's message.
    ErrorApiResponse(String),
    /// The API reported success with a failure-shaped result; carries that
    /// result's text, if any.
    ErrorUnexpectedResult(Option<String>),
    /// The reply body did not decode as the expected JSON envelope.
    ErrorJsonParsing,
}

} // verus!
