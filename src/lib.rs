//! Client models and response interpretation for a last-mile courier REST API.
//!
//! The library decides, from an already received HTTP status, `Content-Type`
//! header and body text, which single outcome a call has: a body to decode as
//! the operation's payload, a decode failure, or a typed response error built
//! from the server's error envelope.

pub mod callback_request;
pub mod content_type;
pub mod dispatch;
mod foreign;
pub mod models;
pub mod routes;
pub mod shipping_response;
mod text;
pub mod variants;

pub use content_type::ContentType;
pub use models::{ClientError, HttpErrorResponse, ResponseContent};
pub use variants::{
    ConfirmEstimateError, ErrorBody, GetShippingsEstimatesError, WebhookGetConfigurationError,
};
pub use dispatch::{
    dispose, interpret_response, is_success_status, undecodable_message, Disposition,
};
pub use callback_request::{
    CallbackRequest, CallbackRequestData, CallbackShippingStatus, CancelCode, Topic,
};
pub use routes::{
    confirm_url, estimates_url, webhooks_configuration_url, BASE_URL, ESTIMATES_PATH,
    WEBHOOKS_CONFIGURATION_PATH,
};
pub use shipping_response::ShippingResponse;
