use vstd::prelude::*;

use crate::content_type::ContentType;
use crate::models::{ClientError, HttpErrorResponse, ResponseContent};
use crate::text::append;
use crate::variants::ErrorBody;

verus! {

/// What a received response calls for, decided from its status and media type
/// alone.
#[derive(Debug)]
pub enum Disposition {
    /// A success status with a JSON body: decode the body as the payload.
    Payload,
    /// A failure status with a JSON body: decode the body as an error envelope.
    Envelope,
    /// The body cannot be decoded; the text says why.
    Undecodable(String),
}

/// An HTTP status in the success class (`2xx`).
pub open spec fn is_success(status: u16) -> bool {
    200 <= status && status <= 299
}

/// Why a body of media type `ct` cannot be decoded.
pub open spec fn undecodable_text(ct: ContentType) -> Seq<char> {
    match ct {
        ContentType::Unsupported(t) => "Received `"@ + t@ + UNSUPPORTED_TAIL@,
        ContentType::Pdf => PDF_MESSAGE@,
        _ => ABSENT_MESSAGE@,
    }
}

/// The disposition that `status` and `ct` call for.
pub open spec fn disposes(status: u16, ct: ContentType, r: Disposition) -> bool {
    match r {
        Disposition::Payload => is_success(status) && ct is Json,
        Disposition::Envelope => !is_success(status) && ct is Json,
        Disposition::Undecodable(m) => !(ct is Json) && m@ == undecodable_text(ct),
    }
}

pub const PDF_MESSAGE: &'static str =
    "Received `application/pdf` content type response that cannot be converted to a model";

pub const ABSENT_MESSAGE: &'static str =
    "Received empty content type response that cannot be converted to a model";

pub const UNSUPPORTED_TAIL: &'static str = "` content type response that cannot be converted to a model";

/// Whether `status` is in the success class.
pub fn is_success_status(status: u16) -> (r: bool)
    ensures
        r == is_success(status),
{
    200 <= status && status <= 299
}

/// Explains why a body of media type `ct` cannot be decoded.
pub fn undecodable_message(ct: &ContentType) -> (r: String)
    ensures
        r@ == undecodable_text(*ct),
{
    match ct {
        ContentType::Unsupported(t) => {
            let mut m = "Received `".to_owned();
            append(&mut m, t.as_str());
            append(&mut m, UNSUPPORTED_TAIL);
            m
        },
        ContentType::Pdf => PDF_MESSAGE.to_owned(),
        _ => ABSENT_MESSAGE.to_owned(),
    }
}

/// Decides what a response with this status and media type calls for.
pub fn dispose(status: u16, ct: &ContentType) -> (r: Disposition)
    ensures
        disposes(status, *ct, r),
{
    match ct {
        ContentType::Json => {
            if is_success_status(status) {
                Disposition::Payload
            } else {
                Disposition::Envelope
            }
        },
        _ => Disposition::Undecodable(undecodable_message(ct)),
    }
}

/// Relies on `serde::de::Error::custom` as `serde_json::Error` implements it:
/// a decoding error whose message is `msg` (none of the messages built here
/// ends in the " at line N column M" suffix that it would read as a position).
#[verifier::external_body]
fn decode_error(msg: String) -> serde_json::Error {
    <serde_json::Error as serde::de::Error>::custom(msg)
}

/// Interprets a received response.
///
/// `envelope` is the body decoded as an error envelope and `raw` the body
/// decoded as untyped JSON, each `None` where that decoding failed. The result
/// is the body to decode as the payload, or exactly one failure: a decoding
/// failure, or a response error that keeps the status and the raw body text.
pub fn interpret_response<E: ErrorBody>(
    status: u16,
    ct: &ContentType,
    body: String,
    envelope: Option<HttpErrorResponse>,
    raw: Option<serde_json::Value>,
) -> (r: Result<String, ClientError<E>>)
    ensures
        is_success(status) && ct is Json ==> r == Ok::<String, ClientError<E>>(body),
        !is_success(status) && ct is Json ==> r == Err::<String, ClientError<E>>(
            ClientError::ResponseError(
                (ResponseContent {
                    status,
                    content: body,
                    entity: E::spec_from_body(envelope, raw),
                }),
            ),
        ),
        !(ct is Json) ==> r matches Err(ClientError::Serde(_)),
{
    match dispose(status, ct) {
        Disposition::Payload => Ok(body),
        Disposition::Envelope => {
            let entity = E::from_body(envelope, raw);
            Err(ClientError::ResponseError(ResponseContent { status, content: body, entity }))
        },
        Disposition::Undecodable(m) => Err(ClientError::Serde(decode_error(m))),
    }
}

} // verus!
