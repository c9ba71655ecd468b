use vstd::prelude::*;

verus! {

/// A status notification pushed by the courier service to an integrator's
/// endpoint. More topics than `SHIPPING_STATUS` may be added later.
#[derive(Clone, Default, Debug, PartialEq)]
pub struct CallbackRequest {
    /// Topic the notification was subscribed under.
    pub topic: Option<Topic>,
    /// Shipping identifier.
    pub id: Option<String>,
    /// The client's own reference for the shipping.
    pub reference_id: Option<String>,
    /// When the message was generated, ISO 8601 in UTC (`2020-07-21T17:32:28Z`).
    pub generated: Option<String>,
    /// When the message was transmitted, ISO 8601 in UTC.
    pub transmitted: Option<String>,
    /// Details that depend on the topic.
    pub data: Option<Box<CallbackRequestData>>,
}

/// Subscription topic of a notification.
#[derive(Clone, Copy, Debug, PartialEq, Eq, PartialOrd, Ord, Hash)]
pub enum Topic {
    ShippingStatus,
}

impl Topic {
    /// The name of this topic on the wire.
    pub open spec fn wire_name(self) -> Seq<char> {
        "SHIPPING_STATUS"@
    }

    /// The name of this topic on the wire, as text.
    pub fn to_string(&self) -> (r: String)
        ensures
            r@ == self.wire_name(),
    {
        "SHIPPING_STATUS".to_owned()
    }
}

impl Default for Topic {
    fn default() -> (r: Topic)
        ensures
            r == Topic::ShippingStatus,
    {
        Topic::ShippingStatus
    }
}

/// Details of a `SHIPPING_STATUS` notification: the status, and for a
/// cancelled shipping its cancel code and reason.
#[derive(Clone, Default, Debug, PartialEq)]
pub struct CallbackRequestData {
    pub status: Option<CallbackShippingStatus>,
    pub cancel_code: Option<CancelCode>,
    /// Spanish text for the cancel code; set only for a cancelled shipping.
    pub cancel_reason: Option<String>,
    /// Estimated pickup time in UTC, updated as the shipping moves.
    pub estimated_pick_up_time: Option<String>,
    /// Estimated drop-off time in UTC, updated as the shipping moves.
    pub estimated_drop_off_time: Option<String>,
}

impl CallbackRequestData {
    /// Details with no field set.
    pub fn new() -> (r: CallbackRequestData)
        ensures
            r.status is None,
            r.cancel_code is None,
            r.cancel_reason is None,
            r.estimated_pick_up_time is None,
            r.estimated_drop_off_time is None,
    {
        CallbackRequestData {
            status: None,
            cancel_code: None,
            cancel_reason: None,
            estimated_pick_up_time: None,
            estimated_drop_off_time: None,
        }
    }
}

/// Shipping statuses that notifications report: confirmed, transport
/// assigned, near pickup, picked up, near drop-off, completed, cancelled.
#[derive(Clone, Copy, Debug, PartialEq, Eq, PartialOrd, Ord, Hash)]
pub enum CallbackShippingStatus {
    Confirmed,
    Cancelled,
    InProgress,
    NearPickup,
    PickedUp,
    NearDropoff,
    Completed,
}

impl CallbackShippingStatus {
    /// The name of this value on the wire.
    pub open spec fn wire_name(self) -> Seq<char> {
        match self {
            CallbackShippingStatus::Confirmed => "CONFIRMED"@,
            CallbackShippingStatus::Cancelled => "CANCELLED"@,
            CallbackShippingStatus::InProgress => "IN_PROGRESS"@,
            CallbackShippingStatus::NearPickup => "NEAR_PICKUP"@,
            CallbackShippingStatus::PickedUp => "PICKED_UP"@,
            CallbackShippingStatus::NearDropoff => "NEAR_DROPOFF"@,
            CallbackShippingStatus::Completed => "COMPLETED"@,
        }
    }

    /// The name of this value on the wire, as text.
    pub fn to_string(&self) -> (r: String)
        ensures
            r@ == self.wire_name(),
    {
        match self {
            CallbackShippingStatus::Confirmed => "CONFIRMED".to_owned(),
            CallbackShippingStatus::Cancelled => "CANCELLED".to_owned(),
            CallbackShippingStatus::InProgress => "IN_PROGRESS".to_owned(),
            CallbackShippingStatus::NearPickup => "NEAR_PICKUP".to_owned(),
            CallbackShippingStatus::PickedUp => "PICKED_UP".to_owned(),
            CallbackShippingStatus::NearDropoff => "NEAR_DROPOFF".to_owned(),
            CallbackShippingStatus::Completed => "COMPLETED".to_owned(),
        }
    }
}

impl Default for CallbackShippingStatus {
    fn default() -> (r: CallbackShippingStatus)
        ensures
            r == CallbackShippingStatus::Confirmed,
    {
        CallbackShippingStatus::Confirmed
    }
}

/// Why a shipping was cancelled; set only for a cancelled shipping.
#[derive(Clone, Copy, Debug, PartialEq, Eq, PartialOrd, Ord, Hash)]
pub enum CancelCode {
    AddressDataMissing,
    NoRiderAvailable,
    OutOfDeliveryZone,
    DelayedDeliverySchedule,
    CoordinateError,
    PackageDamageLoose,
    OrderNotDelivered,
    InappropriateConduct,
    UnreachableRider,
    TycPackageContradiction,
    PurchaseRequested,
    UserCannotPay,
    CouponNotApplied,
    DuplicatedOrder,
    UnreachableUserDropoff,
    SuspiciousClient,
    UserCancelled,
    TechnicalProblem,
    BadWeather,
    UnreachableUserPickup,
    ContentWrong,
    OrderModification,
    OutOfFleetTime,
    TestOrder,
    ContentWrongRider,
}

impl CancelCode {
    /// The name of this value on the wire.
    pub open spec fn wire_name(self) -> Seq<char> {
        match self {
            CancelCode::AddressDataMissing => "ADDRESS_DATA_MISSING"@,
            CancelCode::NoRiderAvailable => "NO_RIDER_AVAILABLE"@,
            CancelCode::OutOfDeliveryZone => "OUT_OF_DELIVERY_ZONE"@,
            CancelCode::DelayedDeliverySchedule => "DELAYED_DELIVERY_SCHEDULE"@,
            CancelCode::CoordinateError => "COORDINATE_ERROR"@,
            CancelCode::PackageDamageLoose => "PACKAGE_DAMAGE_LOOSE"@,
            CancelCode::OrderNotDelivered => "ORDER_NOT_DELIVERED"@,
            CancelCode::InappropriateConduct => "INAPPROPRIATE_CONDUCT"@,
            CancelCode::UnreachableRider => "UNREACHABLE_RIDER"@,
            CancelCode::TycPackageContradiction => "TYC_PACKAGE_CONTRADICTION"@,
            CancelCode::PurchaseRequested => "PURCHASE_REQUESTED"@,
            CancelCode::UserCannotPay => "USER_CANNOT_PAY"@,
            CancelCode::CouponNotApplied => "COUPON_NOT_APPLIED"@,
            CancelCode::DuplicatedOrder => "DUPLICATED_ORDER"@,
            CancelCode::UnreachableUserDropoff => "UNREACHABLE_USER_DROPOFF"@,
            CancelCode::SuspiciousClient => "SUSPICIOUS_CLIENT"@,
            CancelCode::UserCancelled => "USER_CANCELLED"@,
            CancelCode::TechnicalProblem => "TECHNICAL_PROBLEM"@,
            CancelCode::BadWeather => "BAD_WEATHER"@,
            CancelCode::UnreachableUserPickup => "UNREACHABLE_USER_PICKUP"@,
            CancelCode::ContentWrong => "CONTENT_WRONG"@,
            CancelCode::OrderModification => "ORDER_MODIFICATION"@,
            CancelCode::OutOfFleetTime => "OUT_OF_FLEET_TIME"@,
            CancelCode::TestOrder => "TEST_ORDER"@,
            CancelCode::ContentWrongRider => "CONTENT_WRONG_RIDER"@,
        }
    }

    /// The name of this value on the wire, as text.
    pub fn to_string(&self) -> (r: String)
        ensures
            r@ == self.wire_name(),
    {
        match self {
            CancelCode::AddressDataMissing => "ADDRESS_DATA_MISSING".to_owned(),
            CancelCode::NoRiderAvailable => "NO_RIDER_AVAILABLE".to_owned(),
            CancelCode::OutOfDeliveryZone => "OUT_OF_DELIVERY_ZONE".to_owned(),
            CancelCode::DelayedDeliverySchedule => "DELAYED_DELIVERY_SCHEDULE".to_owned(),
            CancelCode::CoordinateError => "COORDINATE_ERROR".to_owned(),
            CancelCode::PackageDamageLoose => "PACKAGE_DAMAGE_LOOSE".to_owned(),
            CancelCode::OrderNotDelivered => "ORDER_NOT_DELIVERED".to_owned(),
            CancelCode::InappropriateConduct => "INAPPROPRIATE_CONDUCT".to_owned(),
            CancelCode::UnreachableRider => "UNREACHABLE_RIDER".to_owned(),
            CancelCode::TycPackageContradiction => "TYC_PACKAGE_CONTRADICTION".to_owned(),
            CancelCode::PurchaseRequested => "PURCHASE_REQUESTED".to_owned(),
            CancelCode::UserCannotPay => "USER_CANNOT_PAY".to_owned(),
            CancelCode::CouponNotApplied => "COUPON_NOT_APPLIED".to_owned(),
            CancelCode::DuplicatedOrder => "DUPLICATED_ORDER".to_owned(),
            CancelCode::UnreachableUserDropoff => "UNREACHABLE_USER_DROPOFF".to_owned(),
            CancelCode::SuspiciousClient => "SUSPICIOUS_CLIENT".to_owned(),
            CancelCode::UserCancelled => "USER_CANCELLED".to_owned(),
            CancelCode::TechnicalProblem => "TECHNICAL_PROBLEM".to_owned(),
            CancelCode::BadWeather => "BAD_WEATHER".to_owned(),
            CancelCode::UnreachableUserPickup => "UNREACHABLE_USER_PICKUP".to_owned(),
            CancelCode::ContentWrong => "CONTENT_WRONG".to_owned(),
            CancelCode::OrderModification => "ORDER_MODIFICATION".to_owned(),
            CancelCode::OutOfFleetTime => "OUT_OF_FLEET_TIME".to_owned(),
            CancelCode::TestOrder => "TEST_ORDER".to_owned(),
            CancelCode::ContentWrongRider => "CONTENT_WRONG_RIDER".to_owned(),
        }
    }
}

impl Default for CancelCode {
    fn default() -> (r: CancelCode)
        ensures
            r == CancelCode::AddressDataMissing,
    {
        CancelCode::AddressDataMissing
    }
}

} // verus!
