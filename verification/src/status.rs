//! Lifecycle states of a delivery, parsed from the status strings the API
//! returns.
use vstd::prelude::*;
use crate::text::str_eq;
use crate::text::to_uppercase;
use crate::text::upper_of;

verus! {

/// The lifecycle state of a delivery.
#[derive(Clone, Debug, PartialEq, Eq, Structural)]
pub enum DeliveryStatus {
    AssigningDriver,
    Ongoing,
    PickedUp,
    Completed,
    Canceled,
    Rejected,
    Expired,
}

/// Failure to recognise a delivery status string.
#[derive(Clone, Debug, PartialEq, Eq, Structural)]
pub enum InvalidDeliveryStatus {
    NoDeliveryStatusFound,
}

impl DeliveryStatus {
    /// Which status a server string denotes: its Unicode upper-case form
    /// must be one of the seven state names.
    pub open spec fn spec_from_str(s: Seq<char>) -> Result<
        DeliveryStatus,
        InvalidDeliveryStatus,
    > {
        let u = upper_of(s);
        if u == "ASSIGNING_DRIVER"@ {
            Ok(DeliveryStatus::AssigningDriver)
        } else if u == "ON_GOING"@ {
            Ok(DeliveryStatus::Ongoing)
        } else if u == "PICKED_UP"@ {
            Ok(DeliveryStatus::PickedUp)
        } else if u == "COMPLETED"@ {
            Ok(DeliveryStatus::Completed)
        } else if u == "CANCELED"@ {
            Ok(DeliveryStatus::Canceled)
        } else if u == "REJECTED"@ {
            Ok(DeliveryStatus::Rejected)
        } else if u == "EXPIRED"@ {
            Ok(DeliveryStatus::Expired)
        } else {
            Err(InvalidDeliveryStatus::NoDeliveryStatusFound)
        }
    }

    /// Parses a status string, matching its Unicode upper-case form.
    pub fn from_str(delivery_status: &str) -> (r: Result<Self, InvalidDeliveryStatus>)
        ensures
            r == Self::spec_from_str(delivery_status@),
    {
        let upper = to_uppercase(delivery_status);
        if str_eq(upper.as_str(), "ASSIGNING_DRIVER") {
            Ok(DeliveryStatus::AssigningDriver)
        } else if str_eq(upper.as_str(), "ON_GOING") {
            Ok(DeliveryStatus::Ongoing)
        } else if str_eq(upper.as_str(), "PICKED_UP") {
            Ok(DeliveryStatus::PickedUp)
        } else if str_eq(upper.as_str(), "COMPLETED") {
            Ok(DeliveryStatus::Completed)
        } else if str_eq(upper.as_str(), "CANCELED") {
            Ok(DeliveryStatus::Canceled)
        } else if str_eq(upper.as_str(), "REJECTED") {
            Ok(DeliveryStatus::Rejected)
        } else if str_eq(upper.as_str(), "EXPIRED") {
            Ok(DeliveryStatus::Expired)
        } else {
            Err(InvalidDeliveryStatus::NoDeliveryStatusFound)
        }
    }
}

} // verus!
