use vstd::prelude::*;

verus! {

/// A shipping estimate order as the service returns it. Parts of it whose
/// schema this library does not model are kept as untyped JSON documents.
#[derive(Clone, Default, Debug, PartialEq)]
pub struct ShippingResponse {
    /// Shipping estimate identifier.
    pub shipping_id: Option<String>,
    /// The client's own reference for the shipping.
    pub reference_id: Option<String>,
    /// Whether this is a test shipping.
    pub is_test: Option<bool>,
    /// Items shipped in the package.
    pub items: Option<Vec<serde_json::Value>>,
    /// The pickup and drop-off points.
    pub waypoints: Option<Vec<serde_json::Value>>,
    /// Offers available for the estimate: delivery type, price and times.
    pub delivery_offers: Option<Vec<serde_json::Value>>,
    pub route: Option<Box<serde_json::Value>>,
    /// Address that confirmation and cancellation notices are sent to.
    pub notification_mail: Option<String>,
}

impl ShippingResponse {
    /// An estimate order with no field set.
    pub fn new() -> (r: ShippingResponse)
        ensures
            r.shipping_id is None,
            r.reference_id is None,
            r.is_test is None,
            r.items is None,
            r.waypoints is None,
            r.delivery_offers is None,
            r.route is None,
            r.notification_mail is None,
    {
        ShippingResponse {
            shipping_id: None,
            reference_id: None,
            is_test: None,
            items: None,
            waypoints: None,
            delivery_offers: None,
            route: None,
            notification_mail: None,
        }
    }
}

} // verus!
