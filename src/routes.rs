use vstd::prelude::*;

use crate::text::append;

verus! {

/// Host that every operation is addressed to.
pub const BASE_URL: &'static str = "https://courier-api.pedidosya.com";

/// Path of the shipping estimation operation.
pub const ESTIMATES_PATH: &'static str = "/v3/shippings/estimates";

/// Path of the webhook configuration operations.
pub const WEBHOOKS_CONFIGURATION_PATH: &'static str = "/v3/webhooks-configuration";

/// Address of the shipping estimation operation under `base`.
pub fn estimates_url(base: &str) -> (r: String)
    ensures
        r@ == base@ + ESTIMATES_PATH@,
{
    let mut r = base.to_owned();
    append(&mut r, ESTIMATES_PATH);
    r
}

/// Address that confirms the estimate `estimate_id` under `base`.
pub fn confirm_url(base: &str, estimate_id: &str) -> (r: String)
    ensures
        r@ == base@ + ESTIMATES_PATH@ + "/"@ + estimate_id@ + "/confirm"@,
{
    let mut r = estimates_url(base);
    append(&mut r, "/");
    append(&mut r, estimate_id);
    append(&mut r, "/confirm");
    r
}

/// Address of the webhook configuration under `base`.
pub fn webhooks_configuration_url(base: &str) -> (r: String)
    ensures
        r@ == base@ + WEBHOOKS_CONFIGURATION_PATH@,
{
    let mut r = base.to_owned();
    append(&mut r, WEBHOOKS_CONFIGURATION_PATH);
    r
}

} // verus!
