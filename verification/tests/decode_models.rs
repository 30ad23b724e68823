use energiapro::{
    ensure_installation_id_on_rows, AuthenticateResponse, EnergiaProError, InstallationsResponse,
    JsonValue, MeasurementsResponse,
};

fn obj(fields: Vec<(&str, JsonValue)>) -> JsonValue {
    JsonValue::Object(fields.into_iter().map(|(k, v)| (k.to_owned(), v)).collect())
}

fn text(v: &str) -> JsonValue {
    JsonValue::String(v.to_owned())
}

fn num(v: &str) -> JsonValue {
    JsonValue::Number(v.to_owned())
}

fn get<'a>(row: &'a JsonValue, key: &str) -> Option<&'a JsonValue> {
    row.get(key)
}

fn first_row(payload: &JsonValue) -> &JsonValue {
    match payload {
        JsonValue::Array(rows) => &rows[0],
        _ => panic!("payload is not an array"),
    }
}

#[test]
fn deserializes_french_installation_sample() {
    let payload = JsonValue::Array(vec![obj(vec![
        ("insID", text("INSTALLATION_ID_1")),
        ("adrNomRueC", text("STREET_NAME_1")),
        ("adrRueC", text("STREET_ADDRESS_1")),
        ("adrNumImm", num("3")),
        ("adrCPC", text("POSTAL_CODE_1")),
        ("adrLocaliteC", text("CITY_1")),
    ])]);

    let data = InstallationsResponse::new(payload).into_model().unwrap();
    assert_eq!(data[0].id, "INSTALLATION_ID_1");
    assert_eq!(data[0].postal_code, "POSTAL_CODE_1");
}

#[test]
fn parses_installations_payload() {
    let payload = JsonValue::Array(vec![obj(vec![
        ("insID", text("INSTALLATION_ID_1")),
        ("adrNomRueC", text("STREET_NAME_1")),
        ("adrRueC", text("STREET_ADDRESS_1")),
        ("adrNumImm", num("3")),
        ("adrCPC", text("POSTAL_CODE_1")),
        ("adrLocaliteC", text("CITY_1")),
    ])]);

    let installations = InstallationsResponse::new(payload).into_model().unwrap();
    assert_eq!(installations[0].id, "INSTALLATION_ID_1");
    assert_eq!(installations[0].street_name, "STREET_NAME_1");
    assert_eq!(installations[0].street_address, "STREET_ADDRESS_1");
    assert_eq!(installations[0].building_number, 3);
    assert_eq!(installations[0].city, "CITY_1");
}

#[test]
fn deserializes_french_measurements_sample() {
    let payload = JsonValue::Array(vec![obj(vec![
        ("client_id", num("507167")),
        ("num_inst", text("5806.000")),
        ("date", text("2024-04-01 15:00:00")),
        ("quantite_m3", num("77.1")),
        ("index_m3", num("145506.0")),
        ("consommation_kw_h", num("798.45")),
    ])]);

    let data = MeasurementsResponse::new(payload, "5806.000").into_model().unwrap();
    assert_eq!(data[0].client_id, 507167);
    assert_eq!(data[0].installation_id, "5806.000");
    assert_eq!(data[0].timestamp, "2024-04-01 15:00:00");
    assert_eq!(data[0].index_m3.parse::<f64>().unwrap(), 145506.0);
    assert_eq!(data[0].consumption_m3.parse::<f64>().unwrap(), 77.1);
    assert_eq!(data[0].consumption_kwh.parse::<f64>().unwrap(), 798.45);
}

#[test]
fn parses_payload_and_injects_installation_id_when_missing() {
    let payload = JsonValue::Array(vec![obj(vec![
        ("client_id", num("507167")),
        ("date", text("2024-04-01 15:00:00")),
        ("quantite_m3", text("77.10")),
        ("index_m3", text("145506.00")),
        ("consommation_kw_h", text("798.45")),
    ])]);

    let measurements = MeasurementsResponse::new(payload, "5806.000").into_model().unwrap();

    assert_eq!(measurements[0].client_id, 507167);
    assert_eq!(measurements[0].installation_id, "5806.000");
    assert_eq!(measurements[0].consumption_m3.parse::<f64>().unwrap(), 77.10);
}

#[test]
fn measurements_injects_num_inst_when_missing_from_response() {
    let payload = JsonValue::Array(vec![obj(vec![
        ("client_id", num("507167")),
        ("date", text("2024-04-01 15:00:00")),
        ("quantite_m3", num("77.1")),
    ])]);

    let transformed = MeasurementsResponse::new(payload, "5806.000").transform().unwrap();
    let first = first_row(transformed.payload());

    assert_eq!(get(first, "num_inst").unwrap(), &text("5806.000"));
}

#[test]
fn measurements_keeps_num_inst_from_response_when_present() {
    let payload = JsonValue::Array(vec![obj(vec![
        ("client_id", num("507167")),
        ("num_inst", text("9999.000")),
        ("quantite_m3", num("77.1")),
    ])]);

    let transformed = MeasurementsResponse::new(payload, "5806.000").transform().unwrap();
    let first = first_row(transformed.payload());

    assert_eq!(get(first, "num_inst").unwrap(), &text("9999.000"));
}

#[test]
fn measurements_keeps_installation_id_from_response_when_present() {
    let payload = JsonValue::Array(vec![obj(vec![
        ("client_id", num("507167")),
        ("installation_id", text("9999.000")),
        ("quantite_m3", num("77.1")),
    ])]);

    let transformed = MeasurementsResponse::new(payload, "5806.000").transform().unwrap();
    let first = first_row(transformed.payload());

    assert_eq!(get(first, "installation_id").unwrap(), &text("9999.000"));
    assert!(get(first, "num_inst").is_none());
}

#[test]
fn maps_mixed_string_and_numeric_field_formats() {
    let payload = JsonValue::Array(vec![obj(vec![
        ("client_id", text("507167")),
        ("num_inst", text("5806.000")),
        ("date", text("2024-04-01 15:00:00")),
        ("quantite_m3", num("77.1")),
        ("index_m3", text("145506.00")),
        ("consommation_kw_h", num("798.45")),
    ])]);

    let measurements = MeasurementsResponse::new(payload, "5806.000").into_model().unwrap();

    assert_eq!(measurements[0].client_id, 507167);
    assert_eq!(measurements[0].installation_id, "5806.000");
    assert_eq!(measurements[0].index_m3.parse::<f64>().unwrap(), 145506.00);
    assert_eq!(measurements[0].consumption_m3.parse::<f64>().unwrap(), 77.10);
    assert_eq!(measurements[0].consumption_kwh.parse::<f64>().unwrap(), 798.45);
}

#[test]
fn client_injects_num_inst_when_missing_from_response() {
    let payload = JsonValue::Array(vec![obj(vec![
        ("client_id", num("507167")),
        ("date", text("2024-04-01 15:00:00")),
        ("quantite_m3", text("77.10")),
    ])]);

    let enriched = ensure_installation_id_on_rows(payload, "5806.000");
    let first = first_row(&enriched);

    assert_eq!(get(first, "num_inst").unwrap(), &text("5806.000"));
}

#[test]
fn client_keeps_num_inst_from_response_when_present() {
    let payload = JsonValue::Array(vec![obj(vec![
        ("client_id", num("507167")),
        ("num_inst", text("9999.000")),
        ("quantite_m3", text("77.10")),
    ])]);

    let enriched = ensure_installation_id_on_rows(payload, "5806.000");
    let first = first_row(&enriched);

    assert_eq!(get(first, "num_inst").unwrap(), &text("9999.000"));
}

#[test]
fn client_keeps_installation_id_from_response_when_present() {
    let payload = JsonValue::Array(vec![obj(vec![
        ("client_id", num("507167")),
        ("installation_id", text("9999.000")),
        ("quantite_m3", text("77.10")),
    ])]);

    let enriched = ensure_installation_id_on_rows(payload, "5806.000");
    let first = first_row(&enriched);

    assert_eq!(get(first, "installation_id").unwrap(), &text("9999.000"));
    assert!(get(first, "num_inst").is_none());
}

#[test]
fn transform_twice_is_the_same_as_once() {
    let payload = JsonValue::Array(vec![
        obj(vec![("client_id", num("507167")), ("quantite_m3", text("77.10"))]),
        obj(vec![("num_inst", text("9999.000"))]),
        text("not an object"),
    ]);

    let once = ensure_installation_id_on_rows(payload, "5806.000");
    let expected: Vec<JsonValue> = match &once {
        JsonValue::Array(rows) => rows.iter().map(clone_value).collect(),
        _ => panic!("transform changed the payload shape"),
    };
    let twice = ensure_installation_id_on_rows(once, "5806.000");
    match twice {
        JsonValue::Array(rows) => assert_eq!(rows, expected),
        _ => panic!("transform changed the payload shape"),
    }
}

fn clone_value(v: &JsonValue) -> JsonValue {
    match v {
        JsonValue::Null => JsonValue::Null,
        JsonValue::Bool(b) => JsonValue::Bool(*b),
        JsonValue::Number(t) => JsonValue::Number(t.clone()),
        JsonValue::String(t) => JsonValue::String(t.clone()),
        JsonValue::Array(items) => JsonValue::Array(items.iter().map(clone_value).collect()),
        JsonValue::Object(fields) => JsonValue::Object(
            fields.iter().map(|(k, v)| (k.clone(), clone_value(v))).collect(),
        ),
    }
}

#[test]
fn maps_payload_token() {
    let response = AuthenticateResponse::new(obj(vec![("token", text("abc123"))]));
    let token = response.into_model().unwrap();

    assert_eq!(token, "abc123");
}

#[test]
fn errors_when_token_is_missing() {
    let response = AuthenticateResponse::new(obj(vec![("errorCode", text("0"))]));
    let err = response.into_model();

    assert!(matches!(err, Err(EnergiaProError::MissingToken)));
}

#[test]
fn rejects_invalid_decimal_measurement_values() {
    let payload = JsonValue::Array(vec![obj(vec![
        ("client_id", num("507167")),
        ("num_inst", text("5806.000")),
        ("date", text("2024-04-01 15:00:00")),
        ("quantite_m3", text("77.10")),
        ("index_m3", text("abc")),
        ("consommation_kw_h", text("798.45")),
    ])]);

    let err = MeasurementsResponse::new(payload, "5806.000").into_model();
    assert!(matches!(err, Err(EnergiaProError::Json(_))));
}

#[test]
fn rejects_non_array_measurement_payload() {
    let payload = obj(vec![("client_id", num("507167"))]);
    let err = MeasurementsResponse::new(payload, "5806.000").into_model();
    assert!(matches!(err, Err(EnergiaProError::Json(_))));
}

#[test]
fn duplicate_keys_use_first_occurrence() {
    let row = obj(vec![("token", text("first")), ("token", text("second"))]);
    let token = AuthenticateResponse::new(row).into_model().unwrap();
    assert_eq!(token, "first");
}

#[test]
fn empty_array_decodes_to_no_measurements() {
    let payload = JsonValue::Array(vec![]);
    let measurements = MeasurementsResponse::new(payload, "5806.000").into_model().unwrap();
    assert!(measurements.is_empty());
}
