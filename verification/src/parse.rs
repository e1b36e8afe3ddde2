//! Typed readers for the payloads under a response envelope's `data` key,
//! one per API operation, each proved to yield exactly what its payload
//! shape says.
use vstd::prelude::*;
use vstd::string::StringExecFns;
use crate::domain::QuotedRequest;
use crate::domain::Delivery;
use crate::domain::spec_valid_recipient_stop_count;
use crate::envelope::RequestError;
use crate::ids::DeliveryId;
use crate::ids::QuotationId;
use crate::ids::StopId;
use crate::json::lookup;
use crate::json::spec_lookup;
use crate::json::Json;
use crate::markets::Dimensions;
use crate::markets::Kilograms;
use crate::markets::MarketInfo;
use crate::markets::Meters;
use crate::markets::Region;
use crate::markets::RegionInfo;
use crate::markets::Service;
use crate::markets::ServiceType;
use crate::markets::SpecialRequest;
use crate::markets::SpecialRequestType;
use crate::money::decimal_numeral;
use crate::money::iso_currency_known;
use crate::money::iso_exponent_of;
use crate::money::parse_price;
use crate::money::spec_decimal_numeral;
use crate::money::spec_money_parts;
use crate::money::spec_plain_amount;
use crate::money::Quote;
use crate::money::QuoteError;
use crate::status::DeliveryStatus;
use crate::text::spec_parse_u64;
use crate::text::str_eq;

verus! {

/// A structural decode failure, described for the caller.
fn shape_error(message: &str) -> (r: RequestError)
    ensures
        r matches RequestError::SerdeJsonError(_),
{
    RequestError::SerdeJsonError(String::from_str(message))
}

/// The delivery status a payload carries: an object whose `status` field
/// is a string naming a known state.
pub open spec fn spec_status_of(tree: Json) -> Option<DeliveryStatus> {
    match tree {
        Json::Object(entries) => match spec_lookup(entries@, "status"@) {
            Some(Json::Text(t)) => match DeliveryStatus::spec_from_str(t@) {
                Ok(status) => Some(status),
                Err(_) => None,
            },
            _ => None,
        },
        _ => None,
    }
}

/// Reads the delivery status out of an order-details payload: exactly the
/// status `spec_status_of` names, or a structural decode error.
pub fn parse_status_response(data: &Json) -> (r: Result<DeliveryStatus, RequestError>)
    ensures
        match spec_status_of(*data) {
            Some(status) => r == Ok::<DeliveryStatus, RequestError>(status),
            None => r matches Err(e) && e matches RequestError::SerdeJsonError(_),
        },
{
    match data {
        Json::Object(entries) => match lookup(entries, "status") {
            Some(status_value) => match status_value {
                Json::Text(t) => match DeliveryStatus::from_str(t.as_str()) {
                    Ok(status) => Ok(status),
                    Err(_) => Err(shape_error("order status names no known state")),
                },
                _ => Err(shape_error("order status is not a string")),
            },
            None => Err(shape_error("order details have no status")),
        },
        _ => Err(shape_error("order details are not an object")),
    }
}

/// The delivery a payload carries: an object with a decimal `orderId`
/// string and a `shareLink` string.
pub open spec fn spec_delivery_of(tree: Json) -> Option<Delivery> {
    match tree {
        Json::Object(entries) => match (
            spec_lookup(entries@, "orderId"@),
            spec_lookup(entries@, "shareLink"@),
        ) {
            (Some(Json::Text(id_text)), Some(Json::Text(link))) => match spec_parse_u64(
                id_text@,
            ) {
                Some(v) => Some(Delivery { id: DeliveryId(v), share_link: link }),
                None => None,
            },
            _ => None,
        },
        _ => None,
    }
}

/// Reads a placed delivery out of an order payload: exactly the delivery
/// `spec_delivery_of` names, or a structural decode error.
pub fn parse_delivery_response(data: &Json) -> (r: Result<Delivery, RequestError>)
    ensures
        match spec_delivery_of(*data) {
            Some(delivery) => r == Ok::<Delivery, RequestError>(delivery),
            None => r matches Err(e) && e matches RequestError::SerdeJsonError(_),
        },
{
    match data {
        Json::Object(entries) => {
            let id_text = match lookup(entries, "orderId") {
                Some(id_value) => match id_value {
                    Json::Text(t) => t,
                    _ => {
                        return Err(shape_error("orderId is not a string"));
                    },
                },
                None => {
                    return Err(shape_error("order payload has no orderId"));
                },
            };
            let id = match DeliveryId::from_str(id_text.as_str()) {
                Ok(id) => id,
                Err(_) => {
                    return Err(shape_error("orderId is not a decimal integer"));
                },
            };
            let share_link = match lookup(entries, "shareLink") {
                Some(link_value) => match link_value {
                    Json::Text(t) => t.clone(),
                    _ => {
                        return Err(shape_error("shareLink is not a string"));
                    },
                },
                None => {
                    return Err(shape_error("order payload has no shareLink"));
                },
            };
            Ok(Delivery { id, share_link })
        },
        _ => Err(shape_error("order payload is not an object")),
    }
}

/// The numeral a measurement object carries, provided its `unit` field is
/// exactly the expected tag and its `value` field is a decimal numeral:
/// a mismatched unit or a non-numeric value reads as nothing.
pub open spec fn spec_measurement_of(tree: Json, expected_unit: Seq<char>) -> Option<String> {
    match tree {
        Json::Object(entries) => match (
            spec_lookup(entries@, "unit"@),
            spec_lookup(entries@, "value"@),
        ) {
            (Some(Json::Text(unit)), Some(Json::Text(value))) => {
                if unit@ == expected_unit && spec_decimal_numeral(value@) {
                    Some(value)
                } else {
                    None
                }
            },
            _ => None,
        },
        _ => None,
    }
}

/// Reads a measurement, checking its unit tag: exactly the numeral
/// `spec_measurement_of` names, and a hard validation failure on a
/// mismatched unit.
fn parse_measurement(value: &Json, expected_unit: &str) -> (r: Result<String, RequestError>)
    ensures
        match spec_measurement_of(*value, expected_unit@) {
            Some(numeral) => r == Ok::<String, RequestError>(numeral),
            None => r matches Err(e) && e matches RequestError::SerdeJsonError(_),
        },
{
    match value {
        Json::Object(entries) => {
            let unit = match lookup(entries, "unit") {
                Some(unit_value) => match unit_value {
                    Json::Text(t) => t,
                    _ => {
                        return Err(shape_error("measurement unit is not a string"));
                    },
                },
                None => {
                    return Err(shape_error("measurement has no unit"));
                },
            };
            let numeral = match lookup(entries, "value") {
                Some(number_value) => match number_value {
                    Json::Text(t) => t,
                    _ => {
                        return Err(shape_error("measurement value is not a string"));
                    },
                },
                None => {
                    return Err(shape_error("measurement has no value"));
                },
            };
            if !str_eq(unit.as_str(), expected_unit) {
                return Err(shape_error("measurement carries the wrong unit"));
            }
            if !decimal_numeral(numeral.as_str()) {
                return Err(shape_error("measurement value is not a numeral"));
            }
            Ok(numeral.clone())
        },
        _ => Err(shape_error("measurement is not an object")),
    }
}

/// The special request a payload element carries: a description and a
/// name, both strings.
pub open spec fn spec_special_of(tree: Json) -> Option<SpecialRequest> {
    match tree {
        Json::Object(entries) => match (
            spec_lookup(entries@, "description"@),
            spec_lookup(entries@, "name"@),
        ) {
            (Some(Json::Text(description)), Some(Json::Text(name))) => Some(
                SpecialRequest { description, special_request: SpecialRequestType(name) },
            ),
            _ => None,
        },
        _ => None,
    }
}

/// Reads one special request: exactly what `spec_special_of` names.
fn parse_special_request(value: &Json) -> (r: Result<SpecialRequest, RequestError>)
    ensures
        match spec_special_of(*value) {
            Some(special) => r == Ok::<SpecialRequest, RequestError>(special),
            None => r matches Err(e) && e matches RequestError::SerdeJsonError(_),
        },
{
    match value {
        Json::Object(entries) => {
            let description = match lookup(entries, "description") {
                Some(description_value) => match description_value {
                    Json::Text(t) => t.clone(),
                    _ => {
                        return Err(shape_error("special request description is not a string"));
                    },
                },
                None => {
                    return Err(shape_error("special request has no description"));
                },
            };
            let name = match lookup(entries, "name") {
                Some(name_value) => match name_value {
                    Json::Text(t) => t.clone(),
                    _ => {
                        return Err(shape_error("special request name is not a string"));
                    },
                },
                None => {
                    return Err(shape_error("special request has no name"));
                },
            };
            Ok(SpecialRequest { description, special_request: SpecialRequestType(name) })
        },
        _ => Err(shape_error("special request is not an object")),
    }
}

/// The dimensions a payload carries: width, height and length, each a
/// measurement in meters.
pub open spec fn spec_dimensions_of(tree: Json) -> Option<Dimensions> {
    match tree {
        Json::Object(entries) => match (
            spec_lookup(entries@, "width"@),
            spec_lookup(entries@, "height"@),
            spec_lookup(entries@, "length"@),
        ) {
            (Some(width), Some(height), Some(length)) => match (
                spec_measurement_of(width, "m"@),
                spec_measurement_of(height, "m"@),
                spec_measurement_of(length, "m"@),
            ) {
                (Some(w), Some(h), Some(l)) => Some(
                    Dimensions { width: Meters(w), height: Meters(h), length: Meters(l) },
                ),
                _ => None,
            },
            _ => None,
        },
        _ => None,
    }
}

/// Reads a service's dimensions: exactly what `spec_dimensions_of` names.
fn parse_dimensions(value: &Json) -> (r: Result<Dimensions, RequestError>)
    ensures
        match spec_dimensions_of(*value) {
            Some(dimensions) => r == Ok::<Dimensions, RequestError>(dimensions),
            None => r matches Err(e) && e matches RequestError::SerdeJsonError(_),
        },
{
    match value {
        Json::Object(entries) => {
            let width_value = match lookup(entries, "width") {
                Some(v) => v,
                None => {
                    return Err(shape_error("dimensions have no width"));
                },
            };
            let height_value = match lookup(entries, "height") {
                Some(v) => v,
                None => {
                    return Err(shape_error("dimensions have no height"));
                },
            };
            let length_value = match lookup(entries, "length") {
                Some(v) => v,
                None => {
                    return Err(shape_error("dimensions have no length"));
                },
            };
            let width = parse_measurement(width_value, "m")?;
            let height = parse_measurement(height_value, "m")?;
            let length = parse_measurement(length_value, "m")?;
            Ok(Dimensions { width: Meters(width), height: Meters(height), length: Meters(length) })
        },
        _ => Err(shape_error("service dimensions are not an object")),
    }
}

/// The special requests of a service's payload, read element by element:
/// the whole list when every element reads, and nothing when any fails.
pub open spec fn spec_specials_of(elems: Seq<Json>) -> Option<Seq<SpecialRequest>>
    decreases elems.len(),
{
    if elems.len() == 0 {
        Some(Seq::empty())
    } else {
        match (spec_specials_of(elems.drop_last()), spec_special_of(elems.last())) {
            (Some(rest), Some(x)) => Some(rest.push(x)),
            _ => None,
        }
    }
}

/// One unreadable special request makes the whole list unreadable.
proof fn lemma_specials_none(elems: Seq<Json>, i: int)
    requires
        0 <= i < elems.len(),
        spec_special_of(elems[i]) is None,
    ensures
        spec_specials_of(elems) is None,
    decreases elems.len(),
{
    if i < elems.len() - 1 {
        assert(elems.drop_last()[i] == elems[i]);
        lemma_specials_none(elems.drop_last(), i);
    }
}

/// The pieces of one service's payload: its key, description, dimensions
/// in meters, load in kilograms, and special requests.
pub open spec fn spec_service_of(tree: Json) -> Option<
    (ServiceType, String, Dimensions, Kilograms, Seq<SpecialRequest>),
> {
    match tree {
        Json::Object(entries) => match (
            spec_lookup(entries@, "key"@),
            spec_lookup(entries@, "description"@),
            spec_lookup(entries@, "dimensions"@),
            spec_lookup(entries@, "load"@),
            spec_lookup(entries@, "specialRequests"@),
        ) {
            (
                Some(Json::Text(key)),
                Some(Json::Text(description)),
                Some(dimensions_tree),
                Some(load_tree),
                Some(Json::Array(specials)),
            ) => match (
                spec_dimensions_of(dimensions_tree),
                spec_measurement_of(load_tree, "kg"@),
                spec_specials_of(specials@),
            ) {
                (Some(dimensions), Some(load), Some(special_requests)) => Some(
                    (ServiceType(key), description, dimensions, Kilograms(load), special_requests),
                ),
                _ => None,
            },
            _ => None,
        },
        _ => None,
    }
}

/// A read service mirrors its payload's pieces exactly.
pub open spec fn service_matches(
    s: Service,
    parts: (ServiceType, String, Dimensions, Kilograms, Seq<SpecialRequest>),
) -> bool {
    &&& s.service == parts.0
    &&& s.description == parts.1
    &&& s.dimensions == parts.2
    &&& s.load == parts.3
    &&& s.special_requests@ == parts.4
}

/// Reads one service: exactly the pieces `spec_service_of` names, every
/// dimension tagged in meters and the load in kilograms.
#[verifier::loop_isolation(false)]
fn parse_service(value: &Json) -> (r: Result<Service, RequestError>)
    ensures
        match spec_service_of(*value) {
            Some(parts) => r matches Ok(s) && service_matches(s, parts),
            None => r matches Err(e) && e matches RequestError::SerdeJsonError(_),
        },
{
    match value {
        Json::Object(entries) => {
            let key = match lookup(entries, "key") {
                Some(key_value) => match key_value {
                    Json::Text(t) => t.clone(),
                    _ => {
                        return Err(shape_error("service key is not a string"));
                    },
                },
                None => {
                    return Err(shape_error("service has no key"));
                },
            };
            let description = match lookup(entries, "description") {
                Some(description_value) => match description_value {
                    Json::Text(t) => t.clone(),
                    _ => {
                        return Err(shape_error("service description is not a string"));
                    },
                },
                None => {
                    return Err(shape_error("service has no description"));
                },
            };
            let dimensions_value = match lookup(entries, "dimensions") {
                Some(v) => v,
                None => {
                    return Err(shape_error("service has no dimensions"));
                },
            };
            let load_value = match lookup(entries, "load") {
                Some(v) => v,
                None => {
                    return Err(shape_error("service has no load"));
                },
            };
            let specials_values = match lookup(entries, "specialRequests") {
                Some(specials_value) => match specials_value {
                    Json::Array(elems) => elems,
                    _ => {
                        return Err(shape_error("specialRequests is not an array"));
                    },
                },
                None => {
                    return Err(shape_error("service has no specialRequests"));
                },
            };
            let dimensions = parse_dimensions(dimensions_value)?;
            let load = parse_measurement(load_value, "kg")?;
            let mut special_requests: Vec<SpecialRequest> = Vec::new();
            let n = specials_values.len();
            let mut i: usize = 0;
            proof {
                assert(specials_values@.take(0) =~= Seq::<Json>::empty());
            }
            while i < n
                invariant
                    0 <= i <= n,
                    n == specials_values@.len(),
                    spec_specials_of(specials_values@.take(i as int)) == Some(special_requests@),
                decreases n - i,
            {
                let special = match parse_special_request(&specials_values[i]) {
                    Ok(special) => special,
                    Err(e) => {
                        proof {
                            lemma_specials_none(specials_values@, i as int);
                        }
                        return Err(e);
                    },
                };
                special_requests.push(special);
                proof {
                    assert(specials_values@.take(i + 1).drop_last() =~= specials_values@.take(
                        i as int,
                    ));
                    assert(specials_values@.take(i + 1).last() == specials_values@[i as int]);
                }
                i = i + 1;
            }
            proof {
                assert(specials_values@.take(n as int) =~= specials_values@);
            }
            Ok(
                Service {
                    service: ServiceType(key),
                    description,
                    dimensions,
                    load: Kilograms(load),
                    special_requests,
                },
            )
        },
        _ => Err(shape_error("service is not an object")),
    }
}

/// The services of a region's payload, read element by element: the
/// whole list when every element reads, and nothing when any fails.
pub open spec fn spec_services_of(elems: Seq<Json>) -> Option<
    Seq<(ServiceType, String, Dimensions, Kilograms, Seq<SpecialRequest>)>,
>
    decreases elems.len(),
{
    if elems.len() == 0 {
        Some(Seq::empty())
    } else {
        match (spec_services_of(elems.drop_last()), spec_service_of(elems.last())) {
            (Some(rest), Some(x)) => Some(rest.push(x)),
            _ => None,
        }
    }
}

/// One unreadable service makes the whole list unreadable.
proof fn lemma_services_none(elems: Seq<Json>, i: int)
    requires
        0 <= i < elems.len(),
        spec_service_of(elems[i]) is None,
    ensures
        spec_services_of(elems) is None,
    decreases elems.len(),
{
    if i < elems.len() - 1 {
        assert(elems.drop_last()[i] == elems[i]);
        lemma_services_none(elems.drop_last(), i);
    }
}

/// The pieces of one region's payload: its parsed region code and its
/// services' pieces, in order.
pub open spec fn spec_region_of(tree: Json) -> Option<
    (Region, Seq<(ServiceType, String, Dimensions, Kilograms, Seq<SpecialRequest>)>),
> {
    match tree {
        Json::Object(entries) => match (
            spec_lookup(entries@, "region"@),
            spec_lookup(entries@, "services"@),
        ) {
            (Some(Json::Text(code)), Some(Json::Array(services))) => match (
                Region::spec_from_str(code@),
                spec_services_of(services@),
            ) {
                (Ok(region), Some(service_parts)) => Some((region, service_parts)),
                _ => None,
            },
            _ => None,
        },
        _ => None,
    }
}

/// A read region mirrors its payload's pieces exactly, service by
/// service, in order.
pub open spec fn region_matches(
    ri: RegionInfo,
    parts: (Region, Seq<(ServiceType, String, Dimensions, Kilograms, Seq<SpecialRequest>)>),
) -> bool {
    &&& ri.region == parts.0
    &&& ri.services@.len() == parts.1.len()
    &&& forall|j: int|
        0 <= j < parts.1.len() ==> service_matches(#[trigger] ri.services@[j], parts.1[j])
}

/// Reads one region entry: exactly the pieces `spec_region_of` names.
#[verifier::loop_isolation(false)]
fn parse_region_info(value: &Json) -> (r: Result<RegionInfo, RequestError>)
    ensures
        match spec_region_of(*value) {
            Some(parts) => r matches Ok(ri) && region_matches(ri, parts),
            None => r matches Err(e) && e matches RequestError::SerdeJsonError(_),
        },
{
    match value {
        Json::Object(entries) => {
            let code = match lookup(entries, "region") {
                Some(code_value) => match code_value {
                    Json::Text(t) => t,
                    _ => {
                        return Err(shape_error("region is not a string"));
                    },
                },
                None => {
                    return Err(shape_error("region entry has no region"));
                },
            };
            let region = match Region::from_str(code.as_str()) {
                Ok(region) => region,
                Err(_) => {
                    return Err(shape_error("region names no known region"));
                },
            };
            let service_values = match lookup(entries, "services") {
                Some(services_value) => match services_value {
                    Json::Array(elems) => elems,
                    _ => {
                        return Err(shape_error("services is not an array"));
                    },
                },
                None => {
                    return Err(shape_error("region entry has no services"));
                },
            };
            let mut services: Vec<Service> = Vec::new();
            let n = service_values.len();
            let mut i: usize = 0;
            proof {
                assert(service_values@.take(0) =~= Seq::<Json>::empty());
            }
            while i < n
                invariant
                    0 <= i <= n,
                    n == service_values@.len(),
                    spec_services_of(service_values@.take(i as int)) matches Some(parts)
                        && services@.len() == parts.len() && (forall|j: int|
                        0 <= j < parts.len() ==> service_matches(
                            #[trigger] services@[j],
                            parts[j],
                        )),
                decreases n - i,
            {
                let service = match parse_service(&service_values[i]) {
                    Ok(service) => service,
                    Err(e) => {
                        proof {
                            lemma_services_none(service_values@, i as int);
                        }
                        return Err(e);
                    },
                };
                services.push(service);
                proof {
                    assert(service_values@.take(i + 1).drop_last() =~= service_values@.take(
                        i as int,
                    ));
                    assert(service_values@.take(i + 1).last() == service_values@[i as int]);
                }
                i = i + 1;
            }
            proof {
                assert(service_values@.take(n as int) =~= service_values@);
            }
            Ok(RegionInfo { region, services })
        },
        _ => Err(shape_error("region entry is not an object")),
    }
}

/// The regions of the catalog payload, read element by element: the
/// whole list when every element reads, and nothing when any fails.
pub open spec fn spec_regions_of(elems: Seq<Json>) -> Option<
    Seq<(Region, Seq<(ServiceType, String, Dimensions, Kilograms, Seq<SpecialRequest>)>)>,
>
    decreases elems.len(),
{
    if elems.len() == 0 {
        Some(Seq::empty())
    } else {
        match (spec_regions_of(elems.drop_last()), spec_region_of(elems.last())) {
            (Some(rest), Some(x)) => Some(rest.push(x)),
            _ => None,
        }
    }
}

/// One unreadable region entry makes the whole list unreadable.
proof fn lemma_regions_none(elems: Seq<Json>, i: int)
    requires
        0 <= i < elems.len(),
        spec_region_of(elems[i]) is None,
    ensures
        spec_regions_of(elems) is None,
    decreases elems.len(),
{
    if i < elems.len() - 1 {
        assert(elems.drop_last()[i] == elems[i]);
        lemma_regions_none(elems.drop_last(), i);
    }
}

/// The pieces of the whole catalog payload: one entry per region, in
/// order.
pub open spec fn spec_market_of(tree: Json) -> Option<
    Seq<(Region, Seq<(ServiceType, String, Dimensions, Kilograms, Seq<SpecialRequest>)>)>,
> {
    match tree {
        Json::Array(regions) => spec_regions_of(regions@),
        _ => None,
    }
}

/// A read catalog mirrors its payload's pieces exactly, region by region,
/// in order.
pub open spec fn market_matches(
    mi: MarketInfo,
    parts: Seq<(Region, Seq<(ServiceType, String, Dimensions, Kilograms, Seq<SpecialRequest>)>)>,
) -> bool {
    &&& mi.regions@.len() == parts.len()
    &&& forall|i: int|
        0 <= i < parts.len() ==> region_matches(#[trigger] mi.regions@[i], parts[i])
}

/// Reads the whole market catalog: exactly the entries `spec_market_of`
/// names, in order; every dimension must be tagged in meters and every
/// load in kilograms, or reading fails.
#[verifier::loop_isolation(false)]
pub fn parse_market_info(data: &Json) -> (r: Result<MarketInfo, RequestError>)
    ensures
        match spec_market_of(*data) {
            Some(parts) => r matches Ok(mi) && market_matches(mi, parts),
            None => r matches Err(e) && e matches RequestError::SerdeJsonError(_),
        },
{
    match data {
        Json::Array(region_values) => {
            let mut regions: Vec<RegionInfo> = Vec::new();
            let n = region_values.len();
            let mut i: usize = 0;
            proof {
                assert(region_values@.take(0) =~= Seq::<Json>::empty());
            }
            while i < n
                invariant
                    0 <= i <= n,
                    n == region_values@.len(),
                    spec_regions_of(region_values@.take(i as int)) matches Some(parts)
                        && regions@.len() == parts.len() && (forall|j: int|
                        0 <= j < parts.len() ==> region_matches(#[trigger] regions@[j], parts[j])),
                decreases n - i,
            {
                let region = match parse_region_info(&region_values[i]) {
                    Ok(region) => region,
                    Err(e) => {
                        proof {
                            lemma_regions_none(region_values@, i as int);
                        }
                        return Err(e);
                    },
                };
                regions.push(region);
                proof {
                    assert(region_values@.take(i + 1).drop_last() =~= region_values@.take(
                        i as int,
                    ));
                    assert(region_values@.take(i + 1).last() == region_values@[i as int]);
                }
                i = i + 1;
            }
            proof {
                assert(region_values@.take(n as int) =~= region_values@);
            }
            Ok(MarketInfo { regions })
        },
        _ => Err(shape_error("market catalog is not an array")),
    }
}

/// The stop identifier a stops-array element carries: an object whose
/// `stopId` field is a decimal string.
pub open spec fn spec_stop_id_of(tree: Json) -> Option<StopId> {
    match tree {
        Json::Object(entries) => match spec_lookup(entries@, "stopId"@) {
            Some(Json::Text(t)) => match spec_parse_u64(t@) {
                Some(v) => Some(StopId(v)),
                None => None,
            },
            _ => None,
        },
        _ => None,
    }
}

/// The stop identifiers of a quote's payload, read element by element:
/// the whole list when every element reads, and nothing when any fails.
pub open spec fn spec_stops_of(elems: Seq<Json>) -> Option<Seq<StopId>>
    decreases elems.len(),
{
    if elems.len() == 0 {
        Some(Seq::empty())
    } else {
        match (spec_stops_of(elems.drop_last()), spec_stop_id_of(elems.last())) {
            (Some(rest), Some(x)) => Some(rest.push(x)),
            _ => None,
        }
    }
}

/// One unreadable stop makes the whole list unreadable.
proof fn lemma_stops_none(elems: Seq<Json>, i: int)
    requires
        0 <= i < elems.len(),
        spec_stop_id_of(elems[i]) is None,
    ensures
        spec_stops_of(elems) is None,
    decreases elems.len(),
{
    if i < elems.len() - 1 {
        assert(elems.drop_last()[i] == elems[i]);
        lemma_stops_none(elems.drop_last(), i);
    }
}

/// The pieces of a quote payload: the quotation identifier, the distance
/// numeral, the price breakdown's total and currency, and the stop
/// identifiers in response order.
pub open spec fn spec_quote_of(tree: Json) -> Option<
    (QuotationId, String, String, String, Seq<StopId>),
> {
    match tree {
        Json::Object(entries) => match (
            spec_lookup(entries@, "quotationId"@),
            spec_lookup(entries@, "distance"@),
            spec_lookup(entries@, "priceBreakdown"@),
            spec_lookup(entries@, "stops"@),
        ) {
            (
                Some(Json::Text(quotation_text)),
                Some(Json::Number(distance)),
                Some(Json::Object(breakdown)),
                Some(Json::Array(stops)),
            ) => match (
                spec_parse_u64(quotation_text@),
                spec_lookup(breakdown@, "total"@),
                spec_lookup(breakdown@, "currency"@),
                spec_stops_of(stops@),
            ) {
                (Some(q), Some(Json::Text(total)), Some(Json::Text(currency)), Some(stop_ids)) =>
                    Some((QuotationId(q), distance, total, currency, stop_ids)),
                _ => None,
            },
            _ => None,
        },
        _ => None,
    }
}

/// A structural decode failure inside a quote response.
fn quote_shape_error(message: &str) -> (r: QuoteError)
    ensures
        r matches QuoteError::RequestError(e) && e matches RequestError::SerdeJsonError(_),
{
    QuoteError::RequestError(shape_error(message))
}

/// Reads a quote response, given how many recipient stops were submitted.
///
/// A payload without the quote shape, or whose `stops` array does not
/// hold exactly one identifier more than the submitted count, is a
/// structural decode failure; a currency the ISO-4217 table lacks is
/// `CurrencyNotFound`; an amount the money parser rejects is
/// `MoneyError`; otherwise the quoted request echoes the response's stop
/// identifiers, pickup first and the recipients in response order, and
/// the quote carries the distance numeral and the parsed price.
#[verifier::loop_isolation(false)]
pub fn parse_quote_response(data: &Json, recipient_stop_count: usize) -> (r: Result<
    (QuotedRequest, Quote),
    QuoteError,
>)
    requires
        spec_valid_recipient_stop_count(recipient_stop_count),
    ensures
        match spec_quote_of(*data) {
            None => r matches Err(QuoteError::RequestError(re)) && re
                matches RequestError::SerdeJsonError(_),
            Some(parts) => {
                if parts.4.len() != recipient_stop_count + 1 {
                    r matches Err(QuoteError::RequestError(re)) && re
                        matches RequestError::SerdeJsonError(_)
                } else if !iso_currency_known(parts.3@) {
                    r == Err::<(QuotedRequest, Quote), QuoteError>(QuoteError::CurrencyNotFound)
                } else if !spec_plain_amount(parts.2@) {
                    r matches Err(e) && e matches QuoteError::MoneyError(a) && a@ == parts.2@
                } else {
                    r matches Ok(p) && p.0.spec_quotation_id() == parts.0
                        && p.0.spec_pick_up_stop_id() == parts.4[0] && p.0.spec_stop_ids()
                        == parts.4.skip(1) && p.1.distance == Meters(parts.1)
                        && p.1.price.mantissa as int == spec_money_parts(
                        parts.2@,
                        iso_exponent_of(parts.3@)->Some_0,
                    ).0 && p.1.price.scale as int == spec_money_parts(
                        parts.2@,
                        iso_exponent_of(parts.3@)->Some_0,
                    ).1 && p.1.price.currency@ == parts.3@
                }
            },
        },
{
    let entries = match data {
        Json::Object(entries) => entries,
        _ => {
            return Err(quote_shape_error("quote payload is not an object"));
        },
    };
    let quotation_text = match lookup(entries, "quotationId") {
        Some(quotation_value) => match quotation_value {
            Json::Text(t) => t,
            _ => {
                return Err(quote_shape_error("quotationId is not a string"));
            },
        },
        None => {
            return Err(quote_shape_error("quote payload has no quotationId"));
        },
    };
    let distance = match lookup(entries, "distance") {
        Some(distance_value) => match distance_value {
            Json::Number(t) => t.clone(),
            _ => {
                return Err(quote_shape_error("distance is not a number"));
            },
        },
        None => {
            return Err(quote_shape_error("quote payload has no distance"));
        },
    };
    let breakdown = match lookup(entries, "priceBreakdown") {
        Some(breakdown_value) => match breakdown_value {
            Json::Object(breakdown) => breakdown,
            _ => {
                return Err(quote_shape_error("priceBreakdown is not an object"));
            },
        },
        None => {
            return Err(quote_shape_error("quote payload has no priceBreakdown"));
        },
    };
    let stop_values = match lookup(entries, "stops") {
        Some(stops_value) => match stops_value {
            Json::Array(elems) => elems,
            _ => {
                return Err(quote_shape_error("stops is not an array"));
            },
        },
        None => {
            return Err(quote_shape_error("quote payload has no stops"));
        },
    };
    let quotation_id = match QuotationId::from_str(quotation_text.as_str()) {
        Ok(id) => id,
        Err(_) => {
            return Err(quote_shape_error("quotationId is not a decimal integer"));
        },
    };
    let total = match lookup(breakdown, "total") {
        Some(total_value) => match total_value {
            Json::Text(t) => t,
            _ => {
                return Err(quote_shape_error("priceBreakdown total is not a string"));
            },
        },
        None => {
            return Err(quote_shape_error("priceBreakdown has no total"));
        },
    };
    let currency = match lookup(breakdown, "currency") {
        Some(currency_value) => match currency_value {
            Json::Text(t) => t,
            _ => {
                return Err(quote_shape_error("priceBreakdown currency is not a string"));
            },
        },
        None => {
            return Err(quote_shape_error("priceBreakdown has no currency"));
        },
    };
    let mut stop_ids: Vec<StopId> = Vec::new();
    let n = stop_values.len();
    let mut i: usize = 0;
    proof {
        assert(stop_values@.take(0) =~= Seq::<Json>::empty());
    }
    while i < n
        invariant
            0 <= i <= n,
            n == stop_values@.len(),
            spec_stops_of(stop_values@.take(i as int)) == Some(stop_ids@),
        decreases n - i,
    {
        let stop_entries = match &stop_values[i] {
            Json::Object(stop_entries) => stop_entries,
            _ => {
                proof {
                    lemma_stops_none(stop_values@, i as int);
                }
                return Err(quote_shape_error("stop is not an object"));
            },
        };
        let stop_id = match lookup(stop_entries, "stopId") {
            Some(id_value) => match id_value {
                Json::Text(t) => match StopId::from_str(t.as_str()) {
                    Ok(id) => id,
                    Err(_) => {
                        proof {
                            lemma_stops_none(stop_values@, i as int);
                        }
                        return Err(quote_shape_error("stopId is not a decimal integer"));
                    },
                },
                _ => {
                    proof {
                        lemma_stops_none(stop_values@, i as int);
                    }
                    return Err(quote_shape_error("stopId is not a string"));
                },
            },
            None => {
                proof {
                    lemma_stops_none(stop_values@, i as int);
                }
                return Err(quote_shape_error("stop has no stopId"));
            },
        };
        stop_ids.push(stop_id);
        proof {
            assert(stop_values@.take(i + 1).drop_last() =~= stop_values@.take(i as int));
            assert(stop_values@.take(i + 1).last() == stop_values@[i as int]);
        }
        i = i + 1;
    }
    proof {
        assert(stop_values@.take(n as int) =~= stop_values@);
    }
    if stop_ids.len() != recipient_stop_count + 1 {
        return Err(quote_shape_error("stops do not match the submitted count"));
    }
    let price = match parse_price(total.as_str(), currency.as_str()) {
        Ok(price) => price,
        Err(e) => {
            return Err(e);
        },
    };
    let quoted = match QuotedRequest::from_stops(quotation_id, stop_ids) {
        Ok(quoted) => quoted,
        Err(_) => {
            return Err(quote_shape_error("stops do not match the submitted count"));
        },
    };
    Ok((quoted, Quote { distance: Meters(distance), price }))
}

} // verus!
