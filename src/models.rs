use vstd::prelude::*;

verus! {

/// The error envelope that every operation returns with a failure status:
/// `{status, message, code}`, each of them optional.
#[derive(Clone, Debug)]
pub struct HttpErrorResponse {
    pub status: Option<i32>,
    pub message: Option<String>,
    pub code: Option<String>,
}

/// A failure response: its HTTP status, its raw body text, and the typed
/// error decoded from that body, where it could be decoded.
#[derive(Debug)]
pub struct ResponseContent<T> {
    pub status: u16,
    pub content: String,
    pub entity: Option<T>,
}

/// The outcome of a call that did not produce a success payload.
#[derive(Debug)]
pub enum ClientError<T> {
    /// The request could not be built or sent, or the body not read.
    Reqwest(reqwest::Error),
    /// The body could not be turned into the expected typed shape.
    Serde(serde_json::Error),
    /// The server answered with a failure status and a JSON body.
    ResponseError(ResponseContent<T>),
}

impl<T> From<reqwest::Error> for ClientError<T> {
    fn from(e: reqwest::Error) -> (r: ClientError<T>) {
        ClientError::Reqwest(e)
    }
}

impl<T> vstd::std_specs::convert::FromSpecImpl<reqwest::Error> for ClientError<T> {
    open spec fn obeys_from_spec() -> bool {
        true
    }

    open spec fn from_spec(e: reqwest::Error) -> ClientError<T> {
        ClientError::Reqwest(e)
    }
}

impl<T> From<serde_json::Error> for ClientError<T> {
    fn from(value: serde_json::Error) -> (r: ClientError<T>) {
        ClientError::Serde(value)
    }
}

impl<T> vstd::std_specs::convert::FromSpecImpl<serde_json::Error> for ClientError<T> {
    open spec fn obeys_from_spec() -> bool {
        true
    }

    open spec fn from_spec(value: serde_json::Error) -> ClientError<T> {
        ClientError::Serde(value)
    }
}

} // verus!
