use vstd::prelude::*;

use crate::models::HttpErrorResponse;

verus! {

/// Typed failure of an operation, built from the body of a failure response.
///
/// `from_body` receives the body decoded as an error envelope, where it had
/// that shape, and decoded as an untyped JSON document, where it was JSON.
pub trait ErrorBody: Sized {
    spec fn spec_from_body(
        envelope: Option<HttpErrorResponse>,
        raw: Option<serde_json::Value>,
    ) -> Option<Self>;

    fn from_body(envelope: Option<HttpErrorResponse>, raw: Option<serde_json::Value>) -> (r:
        Option<Self>)
        ensures
            r == Self::spec_from_body(envelope, raw),
    ;
}

/// Failures documented for the shipping estimation operation.
#[derive(Debug, Clone)]
pub enum GetShippingsEstimatesError {
    Status400(HttpErrorResponse),
    Status403(HttpErrorResponse),
    Status500(HttpErrorResponse),
    StatusNonExpected(HttpErrorResponse),
    UnknownValue(serde_json::Value),
}

/// Failures documented for the estimate confirmation operation.
#[derive(Debug, Clone)]
pub enum ConfirmEstimateError {
    Status400(HttpErrorResponse),
    Status403(HttpErrorResponse),
    Status409(HttpErrorResponse),
    Status500(HttpErrorResponse),
    StatusNonExpected(HttpErrorResponse),
    UnknownValue(serde_json::Value),
}

/// Failures documented for reading the webhook configuration.
#[derive(Debug, Clone)]
pub enum WebhookGetConfigurationError {
    Status403(HttpErrorResponse),
}

/// Status codes that the estimation operation documents.
pub open spec fn estimate_documents(code: i32) -> bool {
    code == 400 || code == 403 || code == 500
}

/// Status codes that the confirmation operation documents.
pub open spec fn confirm_documents(code: i32) -> bool {
    code == 400 || code == 403 || code == 409 || code == 500
}

/// The estimation variant for an envelope: the one named after its status
/// where that status is documented, `StatusNonExpected` otherwise.
pub open spec fn estimate_variant(e: HttpErrorResponse) -> GetShippingsEstimatesError {
    match e.status {
        Some(400) => GetShippingsEstimatesError::Status400(e),
        Some(403) => GetShippingsEstimatesError::Status403(e),
        Some(500) => GetShippingsEstimatesError::Status500(e),
        _ => GetShippingsEstimatesError::StatusNonExpected(e),
    }
}

/// The confirmation variant for an envelope: the one named after its status
/// where that status is documented, `StatusNonExpected` otherwise.
pub open spec fn confirm_variant(e: HttpErrorResponse) -> ConfirmEstimateError {
    match e.status {
        Some(400) => ConfirmEstimateError::Status400(e),
        Some(403) => ConfirmEstimateError::Status403(e),
        Some(409) => ConfirmEstimateError::Status409(e),
        Some(500) => ConfirmEstimateError::Status500(e),
        _ => ConfirmEstimateError::StatusNonExpected(e),
    }
}

impl GetShippingsEstimatesError {
    /// The status code that names this variant; `None` for the fallbacks.
    pub open spec fn documented_code(self) -> Option<i32> {
        match self {
            GetShippingsEstimatesError::Status400(_) => Some(400),
            GetShippingsEstimatesError::Status403(_) => Some(403),
            GetShippingsEstimatesError::Status500(_) => Some(500),
            _ => None,
        }
    }

    /// The envelope that this variant carries, if it carries one.
    pub open spec fn envelope(self) -> Option<HttpErrorResponse> {
        match self {
            GetShippingsEstimatesError::Status400(e) => Some(e),
            GetShippingsEstimatesError::Status403(e) => Some(e),
            GetShippingsEstimatesError::Status500(e) => Some(e),
            GetShippingsEstimatesError::StatusNonExpected(e) => Some(e),
            GetShippingsEstimatesError::UnknownValue(_) => None,
        }
    }
}

impl ConfirmEstimateError {
    /// The status code that names this variant; `None` for the fallbacks.
    pub open spec fn documented_code(self) -> Option<i32> {
        match self {
            ConfirmEstimateError::Status400(_) => Some(400),
            ConfirmEstimateError::Status403(_) => Some(403),
            ConfirmEstimateError::Status409(_) => Some(409),
            ConfirmEstimateError::Status500(_) => Some(500),
            _ => None,
        }
    }

    /// The envelope that this variant carries, if it carries one.
    pub open spec fn envelope(self) -> Option<HttpErrorResponse> {
        match self {
            ConfirmEstimateError::Status400(e) => Some(e),
            ConfirmEstimateError::Status403(e) => Some(e),
            ConfirmEstimateError::Status409(e) => Some(e),
            ConfirmEstimateError::Status500(e) => Some(e),
            ConfirmEstimateError::StatusNonExpected(e) => Some(e),
            ConfirmEstimateError::UnknownValue(_) => None,
        }
    }
}

impl From<HttpErrorResponse> for GetShippingsEstimatesError {
    fn from(value: HttpErrorResponse) -> (r: GetShippingsEstimatesError) {
        match value.status {
            Some(400) => GetShippingsEstimatesError::Status400(value),
            Some(403) => GetShippingsEstimatesError::Status403(value),
            Some(500) => GetShippingsEstimatesError::Status500(value),
            Some(_) => GetShippingsEstimatesError::StatusNonExpected(value),
            None => GetShippingsEstimatesError::StatusNonExpected(value),
        }
    }
}

impl vstd::std_specs::convert::FromSpecImpl<HttpErrorResponse> for GetShippingsEstimatesError {
    open spec fn obeys_from_spec() -> bool {
        true
    }

    open spec fn from_spec(value: HttpErrorResponse) -> GetShippingsEstimatesError {
        estimate_variant(value)
    }
}

impl From<HttpErrorResponse> for ConfirmEstimateError {
    fn from(value: HttpErrorResponse) -> (r: ConfirmEstimateError) {
        match value.status {
            Some(400) => ConfirmEstimateError::Status400(value),
            Some(403) => ConfirmEstimateError::Status403(value),
            Some(409) => ConfirmEstimateError::Status409(value),
            Some(500) => ConfirmEstimateError::Status500(value),
            Some(_) => ConfirmEstimateError::StatusNonExpected(value),
            None => ConfirmEstimateError::StatusNonExpected(value),
        }
    }
}

impl vstd::std_specs::convert::FromSpecImpl<HttpErrorResponse> for ConfirmEstimateError {
    open spec fn obeys_from_spec() -> bool {
        true
    }

    open spec fn from_spec(value: HttpErrorResponse) -> ConfirmEstimateError {
        confirm_variant(value)
    }
}

impl ErrorBody for GetShippingsEstimatesError {
    /// The envelope's variant where the body had the envelope's shape, else
    /// the untyped document, else nothing.
    open spec fn spec_from_body(
        envelope: Option<HttpErrorResponse>,
        raw: Option<serde_json::Value>,
    ) -> Option<GetShippingsEstimatesError> {
        match envelope {
            Some(e) => Some(estimate_variant(e)),
            None => match raw {
                Some(v) => Some(GetShippingsEstimatesError::UnknownValue(v)),
                None => None,
            },
        }
    }

    fn from_body(envelope: Option<HttpErrorResponse>, raw: Option<serde_json::Value>) -> (r: Option<
        GetShippingsEstimatesError,
    >) {
        match envelope {
            Some(e) => Some(GetShippingsEstimatesError::from(e)),
            None => match raw {
                Some(v) => Some(GetShippingsEstimatesError::UnknownValue(v)),
                None => None,
            },
        }
    }
}

impl ErrorBody for ConfirmEstimateError {
    /// The envelope's variant where the body had the envelope's shape, else
    /// the untyped document, else nothing.
    open spec fn spec_from_body(
        envelope: Option<HttpErrorResponse>,
        raw: Option<serde_json::Value>,
    ) -> Option<ConfirmEstimateError> {
        match envelope {
            Some(e) => Some(confirm_variant(e)),
            None => match raw {
                Some(v) => Some(ConfirmEstimateError::UnknownValue(v)),
                None => None,
            },
        }
    }

    fn from_body(envelope: Option<HttpErrorResponse>, raw: Option<serde_json::Value>) -> (r: Option<
        ConfirmEstimateError,
    >) {
        match envelope {
            Some(e) => Some(ConfirmEstimateError::from(e)),
            None => match raw {
                Some(v) => Some(ConfirmEstimateError::UnknownValue(v)),
                None => None,
            },
        }
    }
}

/// An envelope whose status the estimation operation documents maps to the
/// variant named after that status, carrying the envelope, never to a fallback.
pub proof fn estimate_documented_status_is_named(e: HttpErrorResponse, code: i32)
    requires
        e.status == Some(code),
        estimate_documents(code),
    ensures
        estimate_variant(e).documented_code() == Some(code),
        estimate_variant(e).envelope() == Some(e),
        GetShippingsEstimatesError::spec_from_body(Some(e), None) == Some(estimate_variant(e)),
{
}

/// An envelope whose status the estimation operation does not document maps to
/// `StatusNonExpected`, which keeps every field of the envelope.
pub proof fn estimate_undocumented_status_is_unexpected(e: HttpErrorResponse, code: i32)
    requires
        e.status == Some(code),
        !estimate_documents(code),
    ensures
        estimate_variant(e) == GetShippingsEstimatesError::StatusNonExpected(e),
{
}

/// An envelope whose status the confirmation operation documents maps to the
/// variant named after that status, carrying the envelope, never to a fallback.
pub proof fn confirm_documented_status_is_named(e: HttpErrorResponse, code: i32)
    requires
        e.status == Some(code),
        confirm_documents(code),
    ensures
        confirm_variant(e).documented_code() == Some(code),
        confirm_variant(e).envelope() == Some(e),
        ConfirmEstimateError::spec_from_body(Some(e), None) == Some(confirm_variant(e)),
{
}

/// An envelope whose status the confirmation operation does not document maps
/// to `StatusNonExpected`, which keeps every field of the envelope.
pub proof fn confirm_undocumented_status_is_unexpected(e: HttpErrorResponse, code: i32)
    requires
        e.status == Some(code),
        !confirm_documents(code),
    ensures
        confirm_variant(e) == ConfirmEstimateError::StatusNonExpected(e),
{
}

/// A conflict envelope is named by the confirmation operation, which documents
/// that status, and is unexpected for the estimation operation, which does not.
pub proof fn conflict_is_named_only_by_confirmation(e: HttpErrorResponse)
    requires
        e.status == Some(409i32),
    ensures
        confirm_variant(e) == ConfirmEstimateError::Status409(e),
        estimate_variant(e) == GetShippingsEstimatesError::StatusNonExpected(e),
{
}

} // verus!
