use energiapro::{ApiErrorCode, EnergiaProError, JsonValue};

fn obj(fields: Vec<(&str, JsonValue)>) -> JsonValue {
    JsonValue::Object(fields.into_iter().map(|(k, v)| (k.to_owned(), v)).collect())
}

fn text(v: &str) -> JsonValue {
    JsonValue::String(v.to_owned())
}

#[test]
fn maps_known_api_error_codes() {
    assert_eq!(ApiErrorCode::from_api_code("220"), ApiErrorCode::TokenInvalid);
    assert_eq!(ApiErrorCode::from_api_code("110"), ApiErrorCode::NoInstallations);
}

#[test]
fn keeps_unknown_codes() {
    assert_eq!(ApiErrorCode::from_api_code("999"), ApiErrorCode::Unknown("999".to_owned()));
}

#[test]
fn round_trips_every_known_code() {
    for raw in ["1", "2", "3", "4", "5", "6", "10", "11", "12", "15", "100", "110", "210", "220"] {
        assert_eq!(ApiErrorCode::from_api_code(raw).as_str(), raw);
    }
}

#[test]
fn token_errors_are_exactly_the_two_token_codes() {
    assert!(ApiErrorCode::from_api_code("210").is_token_error());
    assert!(ApiErrorCode::from_api_code("220").is_token_error());
    assert!(!ApiErrorCode::from_api_code("110").is_token_error());
    assert!(!ApiErrorCode::from_api_code("999").is_token_error());
}

#[test]
fn maps_api_error_code_from_payload() {
    let payload = obj(vec![("error", text("Not allowed.")), ("errorCode", text("220"))]);

    let err = EnergiaProError::from_api_payload(&payload);
    assert!(matches!(
        err,
        Some(EnergiaProError::Api { code: ApiErrorCode::TokenInvalid, .. })
    ));
}

#[test]
fn ignores_success_payload() {
    let payload = obj(vec![("errorCode", text("0"))]);
    assert!(EnergiaProError::from_api_payload(&payload).is_none());
}

#[test]
fn classifies_numeric_error_codes() {
    let payload = obj(vec![("errorCode", JsonValue::Number("110".to_owned()))]);
    let err = EnergiaProError::from_api_payload(&payload);
    assert!(matches!(
        err,
        Some(EnergiaProError::Api { code: ApiErrorCode::NoInstallations, message }) if message == "Not allowed."
    ));
}

#[test]
fn payload_without_error_code_is_not_an_error() {
    let payload = obj(vec![("token", text("abc123"))]);
    assert!(EnergiaProError::from_api_payload(&payload).is_none());

    let array = JsonValue::Array(vec![obj(vec![("errorCode", text("220"))])]);
    assert!(EnergiaProError::from_api_payload(&array).is_none());
}
