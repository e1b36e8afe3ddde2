use std::cell::RefCell;
use std::rc::Rc;

use hmac::Hmac;
use hmac::KeyInit;
use hmac::Mac;
use sha2::Sha256;

use lalamove::ApiRequest;
use lalamove::Config;
use lalamove::DeliveryRequest;
use lalamove::DeliveryStatus;
use lalamove::Header;
use lalamove::HttpClient;
use lalamove::HttpResponse;
use lalamove::Lalamove;
use lalamove::Location;
use lalamove::PersonInfo;
use lalamove::PhilippineLanguages;
use lalamove::PhilippineMarket;
use lalamove::QuotationId;
use lalamove::QuotationRequest;
use lalamove::QuotedRequest;
use lalamove::RequestError;
use lalamove::Region;
use lalamove::PhilippineRegions;
use lalamove::ServiceType;
use lalamove::StopId;
use lalamove::TransportError;

struct SeenRequest {
    method: String,
    url: String,
    headers: Vec<Header>,
    body: String,
}

struct CannedTransport {
    status: u16,
    body: &'static str,
    seen: Rc<RefCell<Option<SeenRequest>>>,
}

impl CannedTransport {
    fn returning(body: &'static str) -> (Self, Rc<RefCell<Option<SeenRequest>>>) {
        let seen = Rc::new(RefCell::new(None));
        let transport = CannedTransport {
            status: 200,
            body,
            seen: Rc::clone(&seen),
        };
        (transport, seen)
    }
}

impl HttpClient for CannedTransport {
    fn request(&self, request: &ApiRequest) -> Result<HttpResponse, TransportError> {
        *self.seen.borrow_mut() = Some(SeenRequest {
            method: request.method.name().to_string(),
            url: request.url.clone(),
            headers: request.headers.clone(),
            body: request.body.clone(),
        });
        Ok(HttpResponse {
            status: self.status,
            bytes: self.body.as_bytes().to_vec(),
        })
    }
}

struct FailingTransport;

impl HttpClient for FailingTransport {
    fn request(&self, _request: &ApiRequest) -> Result<HttpResponse, TransportError> {
        Err(TransportError {
            message: "connection refused".to_string(),
        })
    }
}

fn sandbox_client<C: HttpClient>(client: C) -> Lalamove<PhilippineMarket, C> {
    let config = Config::new(
        "abctest_key".to_string(),
        "abctest_secret".to_string(),
        PhilippineLanguages::English,
    )
    .unwrap();
    Lalamove::new(config, client)
}

const MARKET_BODY: &str = "{\"data\": [{\
        \"region\": \"PH MNL\",\
        \"services\": [{\
            \"key\": \"MOTORCYCLE\",\
            \"description\": \"Up to 20kg\",\
            \"dimensions\": {\
                \"width\": {\"unit\": \"m\", \"value\": \"0.5\"},\
                \"height\": {\"unit\": \"m\", \"value\": \"0.5\"},\
                \"length\": {\"unit\": \"m\", \"value\": \"0.5\"}\
            },\
            \"load\": {\"unit\": \"kg\", \"value\": \"20\"},\
            \"specialRequests\": [{\"description\": \"Bring a pouch\", \"name\": \"THERMAL_BAG\"}]\
        }]\
    }]}";

#[test]
fn market_info_reads_catalog_with_validated_units() {
    let (transport, _seen) = CannedTransport::returning(MARKET_BODY);
    let client = sandbox_client(transport);
    let info = client.market_info(1_700_000_000_000).unwrap();
    assert_eq!(info.regions.len(), 1);
    let region = &info.regions[0];
    assert_eq!(region.region, Region::Philippines(PhilippineRegions::Manila));
    let service = &region.services[0];
    assert_eq!(service.service.0, "MOTORCYCLE");
    assert_eq!(service.dimensions.width.0, "0.5");
    assert_eq!(service.dimensions.height.0, "0.5");
    assert_eq!(service.dimensions.length.0, "0.5");
    assert_eq!(service.load.0, "20");
    assert_eq!(service.special_requests[0].special_request.0, "THERMAL_BAG");
}

#[test]
fn market_info_rejects_a_foreign_unit() {
    let body: &'static str = Box::leak(
        MARKET_BODY
            .replacen("{\"unit\": \"m\", \"value\": \"0.5\"}", "{\"unit\": \"ft\", \"value\": \"1.6\"}", 1)
            .into_boxed_str(),
    );
    let (transport, _seen) = CannedTransport::returning(body);
    let client = sandbox_client(transport);
    let failed = client.market_info(1_700_000_000_000);
    assert!(matches!(failed, Err(RequestError::SerdeJsonError(_))));
}

#[test]
fn market_info_rejects_a_non_numeric_measurement() {
    let body: &'static str = Box::leak(
        MARKET_BODY
            .replacen("{\"unit\": \"m\", \"value\": \"0.5\"}", "{\"unit\": \"m\", \"value\": \"abc\"}", 1)
            .into_boxed_str(),
    );
    let (transport, _seen) = CannedTransport::returning(body);
    let client = sandbox_client(transport);
    let failed = client.market_info(1_700_000_000_000);
    assert!(matches!(failed, Err(RequestError::SerdeJsonError(_))));
}

#[test]
fn market_info_requests_the_cities_path() {
    let (transport, seen) = CannedTransport::returning(MARKET_BODY);
    let client = sandbox_client(transport);
    client.market_info(42).unwrap();
    let seen = seen.borrow();
    let seen = seen.as_ref().unwrap();
    assert_eq!(seen.method, "GET");
    assert_eq!(seen.url, "https://rest.sandbox.lalamove.com/v3/cities");
    assert_eq!(seen.body, "");
}

const QUOTE_BODY: &str = "{\"data\": {\
        \"quotationId\": \"2048\",\
        \"distance\": 10871,\
        \"priceBreakdown\": {\"total\": \"123.45\", \"currency\": \"PHP\"},\
        \"stops\": [{\"stopId\": \"10\"}, {\"stopId\": \"20\"}]\
    }}";

fn one_stop_request() -> QuotationRequest {
    QuotationRequest::new(
        ServiceType("MOTORCYCLE".to_string()),
        Location {
            latitude: "14.535372967557564".to_string(),
            longitude: "120.98197538196277".to_string(),
            address: "SM Mall of Asia, Seaside Boulevard, 123, Pasay, Metro Manila".to_string(),
        },
        vec![Location {
            latitude: "14.586164229973143".to_string(),
            longitude: "121.05665251264826".to_string(),
            address: "SM Megamall, Ortigas Center, Mandaluyong, Metro Manila".to_string(),
        }],
    )
    .unwrap()
}

#[test]
fn quote_sends_signed_request_and_reads_response() {
    let (transport, seen) = CannedTransport::returning(QUOTE_BODY);
    let client = sandbox_client(transport);
    let request = one_stop_request();
    let time_ms: u64 = 1_700_000_000_000;
    let (quoted, quote) = client.quote(&request, time_ms).unwrap();

    assert_eq!(quoted.quotation_id().0, 2048);
    assert_eq!(quoted.pick_up_stop_id().0, 10);
    assert_eq!(quoted.stop_ids().len(), 1);
    assert_eq!(quoted.stop_ids()[0].0, 20);
    assert_eq!(quote.price.mantissa, 12345);
    assert_eq!(quote.price.scale, 2);
    assert_eq!(quote.price.currency, "PHP");
    assert_eq!(quote.distance.0, "10871");

    let seen = seen.borrow();
    let seen = seen.as_ref().unwrap();
    assert_eq!(seen.method, "POST");
    assert_eq!(seen.url, "https://rest.sandbox.lalamove.com/v3/quotations");

    let expected_inner = "{\"serviceType\":\"MOTORCYCLE\",\"stops\":[\
        {\"coordinates\":{\"lat\":\"14.535372967557564\",\"lng\":\"120.98197538196277\"},\
        \"address\":\"SM Mall of Asia, Seaside Boulevard, 123, Pasay, Metro Manila\"},\
        {\"coordinates\":{\"lat\":\"14.586164229973143\",\"lng\":\"121.05665251264826\"},\
        \"address\":\"SM Megamall, Ortigas Center, Mandaluyong, Metro Manila\"}],\
        \"language\":\"en_PH\"}";
    let expected_body = format!("{{\"data\":{expected_inner}}}");
    assert_eq!(seen.body, expected_body);

    let canonical = format!("{time_ms}\r\nPOST\r\n/v3/quotations\r\n\r\n{expected_body}");
    let mut mac = Hmac::<Sha256>::new_from_slice(b"abctest_secret").unwrap();
    mac.update(canonical.as_bytes());
    let signature = hex::encode(mac.finalize().into_bytes());
    let expected_authorization = format!("hmac abctest_key:{time_ms}:{signature}");

    let mut headers = seen.headers.iter();
    let accept = headers.next().unwrap();
    assert_eq!((accept.name.as_str(), accept.value.as_str()), ("Accept", "application/json"));
    let content_type = headers.next().unwrap();
    assert_eq!(
        (content_type.name.as_str(), content_type.value.as_str()),
        ("Content-Type", "application/json")
    );
    let authorization = headers.next().unwrap();
    assert_eq!(authorization.name, "Authorization");
    assert_eq!(authorization.value, expected_authorization);
    let market = headers.next().unwrap();
    assert_eq!((market.name.as_str(), market.value.as_str()), ("Market", "PH"));
    assert!(headers.next().is_none());
}

const ORDER_BODY: &str = "{\"data\": {\
        \"orderId\": \"3141\",\
        \"shareLink\": \"https://share.sandbox.lalamove.com/x\"\
    }}";

#[test]
fn place_order_maps_people_to_quoted_stops() {
    let (transport, seen) = CannedTransport::returning(ORDER_BODY);
    let client = sandbox_client(transport);
    let quoted = QuotedRequest::from_stops(QuotationId(2048), vec![StopId(10), StopId(20)]).unwrap();
    let request = DeliveryRequest::new(
        quoted,
        PersonInfo {
            name: "Alice".to_string(),
            phone_number: "+639000001024".to_string(),
        },
        vec![PersonInfo {
            name: "Bob".to_string(),
            phone_number: "+639000000512".to_string(),
        }],
    )
    .unwrap();
    let delivery = client.place_order(&request, 7).unwrap();
    assert_eq!(delivery.id.0, 3141);
    assert_eq!(delivery.share_link, "https://share.sandbox.lalamove.com/x");

    let seen = seen.borrow();
    let seen = seen.as_ref().unwrap();
    assert_eq!(seen.url, "https://rest.sandbox.lalamove.com/v3/orders");
    let expected_body = "{\"data\":{\"quotationId\":\"2048\",\
        \"sender\":{\"stopId\":\"10\",\"name\":\"Alice\",\"phone\":\"+639000001024\"},\
        \"recipients\":[{\"stopId\":\"20\",\"name\":\"Bob\",\"phone\":\"+639000000512\"}]}}";
    assert_eq!(seen.body, expected_body);
}

#[test]
fn delivery_status_reads_the_per_order_path() {
    let (transport, seen) = CannedTransport::returning("{\"data\": {\"status\": \"PICKED_UP\"}}");
    let client = sandbox_client(transport);
    let status = client.delivery_status(lalamove::DeliveryId(3141), 7).unwrap();
    assert_eq!(status, DeliveryStatus::PickedUp);

    let seen = seen.borrow();
    let seen = seen.as_ref().unwrap();
    assert_eq!(seen.method, "GET");
    assert_eq!(seen.url, "https://rest.sandbox.lalamove.com/v3/orders/3141");
    assert_eq!(seen.body, "");
}

#[test]
fn transport_failure_surfaces_as_http_client_error() {
    let client = sandbox_client(FailingTransport);
    let failed = client.market_info(7);
    match failed {
        Err(RequestError::HttpClientError(e)) => assert_eq!(e.message, "connection refused"),
        other => panic!("expected the transport failure, got {other:?}"),
    }
}
