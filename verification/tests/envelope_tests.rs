use lalamove::envelope::decode_envelope;
use lalamove::ApiError;
use lalamove::Json;
use lalamove::RequestError;

fn entry<'a>(entries: &'a [(String, Json)], key: &str) -> Option<&'a Json> {
    entries.iter().find(|e| e.0 == key).map(|e| &e.1)
}

#[test]
fn data_payload_is_taken_out() {
    let data = decode_envelope(b"{\"data\": {\"x\":1}}".to_vec()).unwrap();
    match data {
        Json::Object(entries) => {
            assert_eq!(entry(&entries, "x"), Some(&Json::Number("1".to_string())));
        }
        other => panic!("expected the payload object, got {other:?}"),
    }
}

#[test]
fn errors_key_becomes_structured_api_error() {
    let decoded = decode_envelope(b"{\"errors\": [{\"id\": 1}]}".to_vec());
    match decoded {
        Err(RequestError::ApiError(ApiError::Json(Json::Object(entries)))) => {
            match entry(&entries, "errors") {
                Some(Json::Array(elements)) => {
                    assert_eq!(elements.len(), 1);
                    match &elements[0] {
                        Json::Object(error_entries) => {
                            assert_eq!(
                                entry(error_entries, "id"),
                                Some(&Json::Number("1".to_string()))
                            );
                        }
                        other => panic!("expected an error object, got {other:?}"),
                    }
                }
                other => panic!("expected the errors array, got {other:?}"),
            }
        }
        other => panic!("expected a structured API error, got {other:?}"),
    }
}

#[test]
fn bare_object_yields_no_data() {
    let decoded = decode_envelope(b"{}".to_vec());
    assert!(matches!(decoded, Err(RequestError::NoData)));
}

#[test]
fn non_object_yields_no_data() {
    let decoded = decode_envelope(b"[1,2,3]".to_vec());
    assert!(matches!(decoded, Err(RequestError::NoData)));
    let decoded = decode_envelope(b"42".to_vec());
    assert!(matches!(decoded, Err(RequestError::NoData)));
    let decoded = decode_envelope(b"null".to_vec());
    assert!(matches!(decoded, Err(RequestError::NoData)));
}

#[test]
fn non_json_text_is_carried_back_verbatim() {
    let decoded = decode_envelope(b"not json".to_vec());
    match decoded {
        Err(RequestError::ApiError(ApiError::InvalidJson(text))) => {
            assert_eq!(text, "not json");
        }
        other => panic!("expected the invalid-json error, got {other:?}"),
    }
}

#[test]
fn truncated_json_is_a_generic_decode_failure() {
    let decoded = decode_envelope(b"{\"data\":".to_vec());
    assert!(matches!(decoded, Err(RequestError::SerdeJsonError(_))));
}

#[test]
fn invalid_utf8_is_its_own_error() {
    let decoded = decode_envelope(vec![0xff, 0xfe, b'{']);
    assert!(matches!(decoded, Err(RequestError::FromUtf8Error)));
}

#[test]
fn data_wins_over_errors_when_both_are_there() {
    let data = decode_envelope(b"{\"errors\": [1], \"data\": {\"x\": 2}}".to_vec()).unwrap();
    match data {
        Json::Object(entries) => {
            assert_eq!(entry(&entries, "x"), Some(&Json::Number("2".to_string())));
        }
        other => panic!("expected the payload object, got {other:?}"),
    }
}

#[test]
fn null_data_counts_as_data() {
    let data = decode_envelope(b"{\"data\": null}".to_vec()).unwrap();
    assert_eq!(data, Json::Null);
}
