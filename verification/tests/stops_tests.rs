use lalamove::Location;
use lalamove::PersonInfo;
use lalamove::QuotationRequest;
use lalamove::QuotedRequest;
use lalamove::QuotationId;
use lalamove::ServiceType;
use lalamove::StopCountError;
use lalamove::StopId;
use lalamove::valid_recipient_stop_count;

fn location(n: usize) -> Location {
    Location {
        latitude: format!("14.{n}"),
        longitude: format!("121.{n}"),
        address: format!("Stop {n}"),
    }
}

fn person(name: &str) -> PersonInfo {
    PersonInfo {
        name: name.to_string(),
        phone_number: "+639000001024".to_string(),
    }
}

#[test]
fn stop_count_bounds() {
    assert!(!valid_recipient_stop_count(0));
    for n in 1..=15 {
        assert!(valid_recipient_stop_count(n));
    }
    assert!(!valid_recipient_stop_count(16));
}

#[test]
fn quotation_request_accepts_one_to_fifteen_stops() {
    for n in 1..=15 {
        let stops: Vec<Location> = (0..n).map(location).collect();
        let made = QuotationRequest::new(
            ServiceType("MOTORCYCLE".to_string()),
            location(99),
            stops,
        );
        let request = made.expect("a stop count inside the bound must be accepted");
        assert_eq!(request.stops().len(), n);
        assert_eq!(request.recipient_stop_count(), n);
    }
}

#[test]
fn quotation_request_rejects_zero_and_sixteen_stops() {
    for n in [0usize, 16] {
        let stops: Vec<Location> = (0..n).map(location).collect();
        let made = QuotationRequest::new(
            ServiceType("MOTORCYCLE".to_string()),
            location(99),
            stops,
        );
        assert!(matches!(made, Err(StopCountError::OutOfRange)));
    }
}

#[test]
fn quoted_request_splits_stops_pickup_first() {
    let stops = vec![StopId(11), StopId(22), StopId(33)];
    let quoted = QuotedRequest::from_stops(QuotationId(7), stops).unwrap();
    assert_eq!(quoted.quotation_id().0, 7);
    assert_eq!(quoted.pick_up_stop_id().0, 11);
    let ids: Vec<u64> = quoted.stop_ids().iter().map(|s| s.0).collect();
    assert_eq!(ids, vec![22, 33]);
}

#[test]
fn quoted_request_rejects_too_few_or_too_many_stops() {
    assert!(matches!(
        QuotedRequest::from_stops(QuotationId(1), vec![StopId(1)]),
        Err(StopCountError::OutOfRange)
    ));
    let seventeen: Vec<StopId> = (0..17).map(StopId).collect();
    assert!(matches!(
        QuotedRequest::from_stops(QuotationId(1), seventeen),
        Err(StopCountError::OutOfRange)
    ));
    let sixteen: Vec<StopId> = (0..16).map(StopId).collect();
    let quoted = QuotedRequest::from_stops(QuotationId(1), sixteen).unwrap();
    assert_eq!(quoted.stop_ids().len(), 15);
}

#[test]
fn delivery_request_wants_one_recipient_per_stop() {
    let quoted = QuotedRequest::from_stops(
        QuotationId(5),
        vec![StopId(1), StopId(2), StopId(3)],
    )
    .unwrap();
    let wrong = lalamove::DeliveryRequest::new(quoted, person("Alice"), vec![person("Bob")]);
    assert!(matches!(wrong, Err(StopCountError::RecipientCountMismatch)));

    let quoted = QuotedRequest::from_stops(
        QuotationId(5),
        vec![StopId(1), StopId(2), StopId(3)],
    )
    .unwrap();
    let right = lalamove::DeliveryRequest::new(
        quoted,
        person("Alice"),
        vec![person("Bob"), person("Carol")],
    )
    .unwrap();
    assert_eq!(right.recipients_info().len(), 2);
    assert_eq!(right.recipient_count(), 2);
}
