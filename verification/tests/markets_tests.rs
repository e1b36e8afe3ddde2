use lalamove::Country;
use lalamove::DeliveryId;
use lalamove::DeliveryStatus;
use lalamove::InvalidDeliveryStatus;
use lalamove::InvalidPhilippineLanguage;
use lalamove::Language;
use lalamove::Market;
use lalamove::ParseIdError;
use lalamove::PhilippineLanguages;
use lalamove::PhilippineMarket;
use lalamove::PhilippineRegions;
use lalamove::QuotationId;
use lalamove::Region;
use lalamove::RegionError;
use lalamove::StopId;

use lalamove::bodies::quote_request_body;
use lalamove::Location;
use lalamove::QuotationRequest;
use lalamove::ServiceType;

#[test]
fn delivery_status_parses_all_states_case_insensitively() {
    let cases = [
        ("ASSIGNING_DRIVER", DeliveryStatus::AssigningDriver),
        ("ON_GOING", DeliveryStatus::Ongoing),
        ("PICKED_UP", DeliveryStatus::PickedUp),
        ("COMPLETED", DeliveryStatus::Completed),
        ("CANCELED", DeliveryStatus::Canceled),
        ("REJECTED", DeliveryStatus::Rejected),
        ("EXPIRED", DeliveryStatus::Expired),
    ];
    for (text, expected) in cases {
        assert_eq!(DeliveryStatus::from_str(text), Ok(expected.clone()), "{text}");
        assert_eq!(
            DeliveryStatus::from_str(&text.to_lowercase()),
            Ok(expected),
            "{text}"
        );
    }
    assert_eq!(
        DeliveryStatus::from_str("IN_TRANSIT"),
        Err(InvalidDeliveryStatus::NoDeliveryStatusFound)
    );
    assert_eq!(
        DeliveryStatus::from_str(""),
        Err(InvalidDeliveryStatus::NoDeliveryStatusFound)
    );
}

#[test]
fn regions_parse_and_print_their_codes() {
    let cases = [
        ("PH CEB", PhilippineRegions::Cebu),
        ("PH MNL", PhilippineRegions::Manila),
        ("PH PAM", PhilippineRegions::Pampanga),
    ];
    for (code, region) in cases {
        let parsed = Region::from_str(code).unwrap();
        assert_eq!(parsed, Region::Philippines(region));
        assert_eq!(parsed.location_code(), code);
        assert_eq!(Region::from_str(&code.to_lowercase()).unwrap(), parsed);
    }
    assert_eq!(Region::from_str("PH XXX"), Err(RegionError::InvalidString));
}

#[test]
fn philippine_market_constants() {
    let country = PhilippineMarket::country();
    assert_eq!(country, Country::Philippines);
    assert_eq!(country.country_code(), "PH");
    assert_eq!(PhilippineLanguages::English.language_code(), "en_PH");
    assert_eq!(
        PhilippineLanguages::from_str("EN_ph"),
        Ok(PhilippineLanguages::English)
    );
    assert_eq!(
        PhilippineLanguages::from_str("tl_PH"),
        Err(InvalidPhilippineLanguage::NoLanguageCodeFound)
    );
}

#[test]
fn identifiers_parse_and_print_decimal_strings() {
    assert_eq!(DeliveryId::from_str("3141"), Ok(DeliveryId(3141)));
    assert_eq!(QuotationId::from_str("+7"), Ok(QuotationId(7)));
    assert_eq!(StopId::from_str("0"), Ok(StopId(0)));
    assert_eq!(
        DeliveryId::from_str("31x"),
        Err(ParseIdError::NotADecimalInteger)
    );
    assert_eq!(
        StopId::from_str("-1"),
        Err(ParseIdError::NotADecimalInteger)
    );
    assert_eq!(
        QuotationId::from_str("18446744073709551616"),
        Err(ParseIdError::NotADecimalInteger)
    );
    assert_eq!(DeliveryId(3141).to_decimal_string(), "3141");
    assert_eq!(StopId(u64::MAX).to_decimal_string(), "18446744073709551615");
}

#[test]
fn quote_body_escapes_json_specials() {
    let request = QuotationRequest::new(
        ServiceType("VAN\"1\"".to_string()),
        Location {
            latitude: "1".to_string(),
            longitude: "2".to_string(),
            address: "Line\nBreak \\ \"Quote\"".to_string(),
        },
        vec![Location {
            latitude: "3".to_string(),
            longitude: "4".to_string(),
            address: "Plain".to_string(),
        }],
    )
    .unwrap();
    let body = quote_request_body(&request, "en_PH");
    let expected = "{\"serviceType\":\"VAN\\\"1\\\"\",\"stops\":[\
        {\"coordinates\":{\"lat\":\"1\",\"lng\":\"2\"},\
        \"address\":\"Line\\u000aBreak \\\\ \\\"Quote\\\"\"},\
        {\"coordinates\":{\"lat\":\"3\",\"lng\":\"4\"},\"address\":\"Plain\"}],\
        \"language\":\"en_PH\"}";
    assert_eq!(body, expected);
    let parsed: serde_json::Value = serde_json::from_str(&body).unwrap();
    assert_eq!(
        parsed["stops"][0]["address"].as_str(),
        Some("Line\nBreak \\ \"Quote\"")
    );
}
