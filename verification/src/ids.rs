//! Server-issued identifiers: opaque unsigned integers carried on the wire
//! as decimal strings.
use vstd::prelude::*;
use crate::text::parse_u64;
use crate::text::spec_parse_u64;
use crate::text::spec_u64_dec;
use crate::text::u64_to_string;

verus! {

/// Failure to read an identifier's decimal string.
#[derive(Clone, Debug, PartialEq, Eq, Structural)]
pub enum ParseIdError {
    NotADecimalInteger,
}

/// Identifier of a placed delivery (an order).
#[derive(Clone, Copy, Debug, PartialEq, Eq, Structural)]
pub struct DeliveryId(pub u64);

/// Identifier of a driver.
#[derive(Clone, Copy, Debug, PartialEq, Eq, Structural)]
pub struct DriverId(pub u64);

/// Identifier of a priced quotation.
#[derive(Clone, Copy, Debug, PartialEq, Eq, Structural)]
pub struct QuotationId(pub u64);

/// Identifier of a single stop within a quotation.
#[derive(Clone, Copy, Debug, PartialEq, Eq, Structural)]
pub struct StopId(pub u64);

impl DeliveryId {
    /// Reads the identifier from its decimal string; parse failure is an
    /// error, never a panic.
    pub fn from_str(delivery_id: &str) -> (r: Result<Self, ParseIdError>)
        ensures
            match spec_parse_u64(delivery_id@) {
                Some(v) => r == Ok::<DeliveryId, ParseIdError>(DeliveryId(v)),
                None => r == Err::<DeliveryId, ParseIdError>(ParseIdError::NotADecimalInteger),
            },
    {
        match parse_u64(delivery_id) {
            Some(v) => Ok(DeliveryId(v)),
            None => Err(ParseIdError::NotADecimalInteger),
        }
    }

    /// The identifier's decimal string, as requests carry it.
    pub fn to_decimal_string(&self) -> (r: String)
        ensures
            r@ == spec_u64_dec(self.0 as nat),
    {
        u64_to_string(self.0)
    }
}

impl QuotationId {
    /// Reads the identifier from its decimal string; parse failure is an
    /// error, never a panic.
    pub fn from_str(quotation_id: &str) -> (r: Result<Self, ParseIdError>)
        ensures
            match spec_parse_u64(quotation_id@) {
                Some(v) => r == Ok::<QuotationId, ParseIdError>(QuotationId(v)),
                None => r == Err::<QuotationId, ParseIdError>(ParseIdError::NotADecimalInteger),
            },
    {
        match parse_u64(quotation_id) {
            Some(v) => Ok(QuotationId(v)),
            None => Err(ParseIdError::NotADecimalInteger),
        }
    }

    /// The identifier's decimal string, as requests carry it.
    pub fn to_decimal_string(&self) -> (r: String)
        ensures
            r@ == spec_u64_dec(self.0 as nat),
    {
        u64_to_string(self.0)
    }
}

impl StopId {
    /// Reads the identifier from its decimal string; parse failure is an
    /// error, never a panic.
    pub fn from_str(stop_id: &str) -> (r: Result<Self, ParseIdError>)
        ensures
            match spec_parse_u64(stop_id@) {
                Some(v) => r == Ok::<StopId, ParseIdError>(StopId(v)),
                None => r == Err::<StopId, ParseIdError>(ParseIdError::NotADecimalInteger),
            },
    {
        match parse_u64(stop_id) {
            Some(v) => Ok(StopId(v)),
            None => Err(ParseIdError::NotADecimalInteger),
        }
    }

    /// The identifier's decimal string, as requests carry it.
    pub fn to_decimal_string(&self) -> (r: String)
        ensures
            r@ == spec_u64_dec(self.0 as nat),
    {
        u64_to_string(self.0)
    }
}

} // verus!
