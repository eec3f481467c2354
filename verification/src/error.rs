//! The closed set of failures a request can end in, and the separate set of
//! caller mistakes.

use vstd::prelude::*;

use crate::json::{json_document, parse_value, text_member};
use vstd::string::StringExecFns;

verus! {

/// The body the API sends with a non-success status: one message.
#[derive(Clone, Debug)]
pub struct ApiError {
    pub text: String,
}

/// What the transport reported when a request could not be carried out.
#[derive(Clone, Debug)]
pub struct TransportError {
    pub message: String,
}

/// What a JSON decoder reported: the document was malformed, or was not of
/// the expected shape.
#[derive(Clone, Debug)]
pub struct JsonError {
    pub message: String,
}

/// An error that may occur when making API requests.
#[derive(Debug)]
pub enum Error {
    /// The server answered with a non-success status and a well-formed
    /// error body.
    Api(ApiError),
    /// The transport failed.
    Http(TransportError),
    /// A body was not valid JSON or did not have the expected shape.
    Json(JsonError),
    /// The endpoint requires authentication and no access token is set.
    NoAccessToken,
}

/// A mistake of the caller, as opposed to a failed request.
#[derive(Copy, Clone, Debug, PartialEq, Eq, Structural)]
pub enum UsageError {
    /// An argument the operation cannot work on, such as an empty id list.
    InvalidArgument,
    /// The event does not belong to what the response is waiting for.
    UnexpectedEvent,
    /// The response was polled after it had yielded its result.
    PolledAfterCompletion,
}

impl Error {
    /// Returns `true` if the server reported this error.
    pub fn is_api(&self) -> (r: bool)
        ensures
            r == (self is Api),
    {
        matches!(self, Error::Api(_))
    }

    /// Returns `true` if this error occured while making a HTTP request.
    pub fn is_http(&self) -> (r: bool)
        ensures
            r == (self is Http),
    {
        matches!(self, Error::Http(_))
    }

    /// Returns `true` if this error occured while deserializing json.
    pub fn is_json(&self) -> (r: bool)
        ensures
            r == (self is Json),
    {
        matches!(self, Error::Json(_))
    }

    /// Returns `true` if an access token was required and none was set.
    pub fn is_no_access_token(&self) -> (r: bool)
        ensures
            r == (self is NoAccessToken),
    {
        matches!(self, Error::NoAccessToken)
    }

    /// The message of the server, if the server reported this error.
    pub fn api_text(&self) -> (r: Option<String>)
        ensures
            match *self {
                Error::Api(api) => r matches Some(text) && text@ == api.text@,
                _ => r is None,
            },
    {
        match self {
            Error::Api(api) => Some(api.text.clone()),
            _ => None,
        }
    }
}

/// The message of an error body: the string member `text` of the JSON
/// object that `bytes` hold, if they hold one.
pub open spec fn error_body_text(bytes: Seq<u8>) -> Option<Seq<char>> {
    match json_document(bytes) {
        Some(members) => if members.contains_key("text"@) {
            Some(members["text"@])
        } else {
            None
        },
        None => None,
    }
}

/// The message of the `Json` error for a body that is a JSON document
/// without a string member `text`.
pub open spec fn missing_text() -> Seq<char> {
    "missing field `text`"@
}

/// Whether `error` is the error that the body of a non-success response
/// gives: the `Api` error with the body's message; for a JSON document
/// without such a message the `Json` error that says so; for anything else
/// a `Json` error with the parser's complaint.
pub open spec fn error_of_body(body: Seq<u8>, error: Error) -> bool {
    match error_body_text(body) {
        Some(text) => error matches Error::Api(api) && api.text@ == text,
        None => error matches Error::Json(json) && (json_document(body) is Some ==> json.message@
            == missing_text()),
    }
}

/// Decodes the body of a non-success response. A JSON object with a string
/// member `text` gives the `Api` error with that message; anything else
/// gives a `Json` error.
pub fn classify_error_body(bytes: &[u8]) -> (error: Error)
    ensures
        error_of_body(bytes@, error),
{
    match parse_value(bytes) {
        Err(err) => Error::Json(err),
        Ok(value) => match text_member(&value, "text") {
            Some(text) => Error::Api(ApiError { text }),
            None => Error::Json(JsonError { message: String::from_str("missing field `text`") }),
        },
    }
}

/// Turns the outcome of decoding a success body into the result of the
/// request: the value as it is, a decoder's error as a `Json` error.
pub fn classify_decoded<T>(decoded: Result<T, JsonError>) -> (r: Result<T, Error>)
    ensures
        r == decoded_outcome(decoded),
{
    match decoded {
        Ok(value) => Ok(value),
        Err(err) => Err(Error::Json(err)),
    }
}

/// See [`classify_decoded`].
pub open spec fn decoded_outcome<T>(decoded: Result<T, JsonError>) -> Result<T, Error> {
    match decoded {
        Ok(value) => Ok(value),
        Err(err) => Err(Error::Json(err)),
    }
}

} // verus!
