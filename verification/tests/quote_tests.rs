use lalamove::json::json_of_text;
use lalamove::money::parse_price;
use lalamove::parse::parse_quote_response;
use lalamove::Json;
use lalamove::QuoteError;
use lalamove::RequestError;

fn value(text: &str) -> Json {
    json_of_text(text).unwrap()
}

const QUOTE_PAYLOAD: &str = "{\
        \"quotationId\": \"2048\",\
        \"distance\": 10871,\
        \"priceBreakdown\": {\"total\": \"123.45\", \"currency\": \"PHP\"},\
        \"stops\": [{\"stopId\": \"10\"}, {\"stopId\": \"20\"}, {\"stopId\": \"30\"}]\
    }";

#[test]
fn quote_response_round_trips_stop_ids_in_order() {
    let (quoted, quote) = parse_quote_response(&value(QUOTE_PAYLOAD), 2).unwrap();
    assert_eq!(quoted.quotation_id().0, 2048);
    assert_eq!(quoted.pick_up_stop_id().0, 10);
    let ids: Vec<u64> = quoted.stop_ids().iter().map(|s| s.0).collect();
    assert_eq!(ids, vec![20, 30]);
    assert_eq!(quote.distance.0, "10871");
    assert_eq!(quote.price.currency, "PHP");
}

#[test]
fn quote_response_with_wrong_stop_count_fails() {
    let failed = parse_quote_response(&value(QUOTE_PAYLOAD), 5);
    assert!(matches!(
        failed,
        Err(QuoteError::RequestError(RequestError::SerdeJsonError(_)))
    ));
}

#[test]
fn quote_response_with_unknown_currency_fails() {
    let payload = QUOTE_PAYLOAD.replace("PHP", "XXX");
    let failed = parse_quote_response(&value(&payload), 2);
    assert!(matches!(failed, Err(QuoteError::CurrencyNotFound)));
}

#[test]
fn currency_resolution_and_amount_parsing() {
    let price = parse_price("123.45", "PHP").unwrap();
    assert_eq!(price.mantissa, 12345);
    assert_eq!(price.scale, 2);
    assert_eq!(price.currency, "PHP");

    assert!(matches!(
        parse_price("123.45", "XXX"),
        Err(QuoteError::CurrencyNotFound)
    ));
    assert!(matches!(parse_price("abc", "PHP"), Err(QuoteError::MoneyError(a)) if a == "abc"));
    assert!(matches!(parse_price("", "PHP"), Err(QuoteError::MoneyError(_))));
    assert!(matches!(parse_price("1.2.3", "PHP"), Err(QuoteError::MoneyError(_))));
}

#[test]
fn amounts_parse_uniformly_across_locales() {
    for code in ["BYN", "PLN", "EUR", "PHP"] {
        let price = parse_price("123.45", code).unwrap();
        assert_eq!(price.mantissa, 12345, "{code}");
        assert_eq!(price.scale, 2, "{code}");
        assert_eq!(price.currency, code);
    }
}

#[test]
fn whole_and_negative_amounts_parse() {
    let price = parse_price("200", "PHP").unwrap();
    assert_eq!(price.mantissa, 20000);
    assert_eq!(price.scale, 2);

    let price = parse_price("-15.5", "PHP").unwrap();
    assert_eq!(price.mantissa, -155);
    assert_eq!(price.scale, 1);
}
