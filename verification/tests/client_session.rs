use energiapro::{
    begin_send_measurements, endpoint_url, map_non_success_response, normalize_base_url,
    strip_utf8_bom, validate_credentials, ApiErrorCode, AttemptOutcome, ClientOptions,
    EnergiaProError, JsonValue, MeasurementsRequest, SendFlow, ERROR_BODY_SNIPPET_LIMIT,
};

fn obj(fields: Vec<(&str, JsonValue)>) -> JsonValue {
    JsonValue::Object(fields.into_iter().map(|(k, v)| (k.to_owned(), v)).collect())
}

fn text(v: &str) -> JsonValue {
    JsonValue::String(v.to_owned())
}

#[test]
fn client_normalizes_base_url_and_builds_endpoints() {
    let normalized = normalize_base_url("https://example.com/api/").unwrap();
    assert_eq!(normalized, "https://example.com/api");
    assert_eq!(
        endpoint_url(&normalized, "authenticate.php"),
        "https://example.com/api/authenticate.php"
    );
    assert_eq!(endpoint_url(&normalized, "index.php"), "https://example.com/api/index.php");
}

#[test]
fn mod_normalizes_base_url_and_builds_endpoints() {
    let normalized = normalize_base_url("https://example.com/api/").unwrap();
    assert_eq!(normalized, "https://example.com/api");
    assert_eq!(
        format!("{normalized}/authenticate.php"),
        "https://example.com/api/authenticate.php"
    );
    assert_eq!(format!("{normalized}/index.php"), "https://example.com/api/index.php");
}

#[test]
fn rejects_non_https_base_url() {
    let err = normalize_base_url("http://example.com/api");
    assert!(matches!(
        err,
        Err(EnergiaProError::InvalidArgument(message)) if message == "base_url must use https"
    ));
}

#[test]
fn rejects_non_absolute_base_url() {
    let err = normalize_base_url("example.com/api");
    assert!(matches!(
        err,
        Err(EnergiaProError::InvalidArgument(message)) if message == "base_url must be a valid absolute URL"
    ));
}

#[test]
fn rejects_empty_base_url() {
    let err = normalize_base_url("   ");
    assert!(matches!(
        err,
        Err(EnergiaProError::InvalidArgument(message)) if message == "base_url cannot be empty"
    ));
}

#[test]
fn maps_non_success_json_api_error_payload() {
    let payload_text = r#"{"error":"Not allowed.","errorCode":"220"}"#;
    let parsed = obj(vec![("error", text("Not allowed.")), ("errorCode", text("220"))]);
    let err = map_non_success_response(
        401,
        "https://example.com/api/index.php".to_owned(),
        payload_text,
        Some(&parsed),
    );

    assert!(matches!(
        err,
        EnergiaProError::Api { code: ApiErrorCode::TokenInvalid, message } if message == "Not allowed."
    ));
}

#[test]
fn maps_non_success_non_json_payload_to_http_status_error() {
    let endpoint = "https://example.com/api/index.php";
    let err = map_non_success_response(500, endpoint.to_owned(), "<html>oops</html>", None);

    assert!(matches!(
        err,
        EnergiaProError::HttpStatus { status, endpoint: actual_endpoint, body_snippet }
            if status == 500 && actual_endpoint == endpoint && body_snippet == "<html>oops</html>"
    ));
}

#[test]
fn truncates_non_success_body_snippet() {
    let body = "x".repeat(ERROR_BODY_SNIPPET_LIMIT + 10);
    let err = map_non_success_response(
        502,
        "https://example.com/api/index.php".to_owned(),
        &body,
        None,
    );

    assert!(matches!(
        err,
        EnergiaProError::HttpStatus { body_snippet, .. }
            if body_snippet.len() == ERROR_BODY_SNIPPET_LIMIT + 3 && body_snippet.ends_with("...")
    ));
}

#[test]
fn strips_utf8_bom_in_json_payload() {
    let payload = "\u{feff}\u{feff}{\"errorCode\":\"0\"}";
    let value: serde_json::Value = serde_json::from_str(strip_utf8_bom(payload)).unwrap();
    assert_eq!(value.get("errorCode").unwrap(), "0");
}

#[test]
fn validates_client_credentials() {
    assert!(validate_credentials("user", "secret").is_ok());
    assert!(matches!(
        validate_credentials("  ", "secret"),
        Err(EnergiaProError::InvalidArgument(message)) if message == "username cannot be empty"
    ));
    assert!(matches!(
        validate_credentials("user", ""),
        Err(EnergiaProError::InvalidArgument(message)) if message == "secret_key cannot be empty"
    ));
}

#[test]
fn default_options_use_vendor_endpoint() {
    let options = ClientOptions::default();
    assert_eq!(options.base_url, "https://web2.holdigaz.ch/espace-client-api/api");
    assert_eq!(options.timeout_secs, 30);

    let options = options.with_base_url("https://example.com/api").with_timeout(5);
    assert_eq!(options.base_url, "https://example.com/api");
    assert_eq!(options.timeout_secs, 5);
}

#[test]
fn begin_send_rejects_invalid_request_without_flow() {
    let request = MeasurementsRequest::new("", "5806.000");
    let err = begin_send_measurements(&request);
    assert!(matches!(
        err,
        Err(EnergiaProError::InvalidArgument(message)) if message == "client_id cannot be empty"
    ));

    let request = MeasurementsRequest::new("507167", "5806.000");
    assert!(begin_send_measurements(&request).is_ok());
}

#[test]
fn token_rejection_then_success_surfaces_no_error() {
    let endpoint = "https://example.com/api/index.php";
    let mut flow = SendFlow::new();

    let first_body = r#"{"errorCode":"220","error":"Not allowed."}"#;
    let first = obj(vec![("errorCode", text("220")), ("error", text("Not allowed."))]);
    let outcome = flow.judge(401, endpoint, first_body, Some(first));
    assert_eq!(outcome, AttemptOutcome::Retry);

    let second = JsonValue::Array(vec![obj(vec![("client_id", text("507167"))])]);
    let outcome = flow.judge(200, endpoint, "[]", Some(second));
    assert!(matches!(outcome, AttemptOutcome::Payload(JsonValue::Array(_))));
}

#[test]
fn second_token_rejection_is_returned_to_caller() {
    let endpoint = "https://example.com/api/index.php";
    let mut flow = SendFlow::new();

    let first = obj(vec![("errorCode", text("210"))]);
    let outcome = flow.judge(200, endpoint, "{}", Some(first));
    assert_eq!(outcome, AttemptOutcome::Retry);

    let second = obj(vec![("errorCode", text("220")), ("error", text("Still not allowed."))]);
    let outcome = flow.judge(200, endpoint, "{}", Some(second));
    assert!(matches!(
        outcome,
        AttemptOutcome::Fail(EnergiaProError::Api { code: ApiErrorCode::TokenInvalid, message })
            if message == "Still not allowed."
    ));
}

#[test]
fn non_token_error_is_not_retried() {
    let mut flow = SendFlow::new();
    let payload = obj(vec![("errorCode", text("110"))]);
    let outcome = flow.judge(200, "https://example.com/api/index.php", "{}", Some(payload));
    assert!(matches!(
        outcome,
        AttemptOutcome::Fail(EnergiaProError::Api { code: ApiErrorCode::NoInstallations, .. })
    ));
}

#[test]
fn invalid_json_on_success_is_a_decode_failure() {
    let mut flow = SendFlow::new();
    let outcome = flow.judge(200, "https://example.com/api/index.php", "<html>oops</html>", None);
    assert!(matches!(outcome, AttemptOutcome::Fail(EnergiaProError::Json(_))));
}

#[test]
fn blank_error_body_gets_placeholder_snippet() {
    let err = map_non_success_response(500, "https://example.com/api/index.php".to_owned(), "  ", None);
    assert!(matches!(
        err,
        EnergiaProError::HttpStatus { body_snippet, .. } if body_snippet == "<empty response body>"
    ));
}
