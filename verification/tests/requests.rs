use energiapro::{
    AuthenticateRequest, Date, DateInput, EnergiaProError, InstallationsRequest,
    MeasurementScope, MeasurementsRequest,
};

#[test]
fn validates_required_authentication_arguments() {
    let err = AuthenticateRequest::new("", "secret").validate_request();
    assert!(matches!(err, Err(EnergiaProError::InvalidArgument(_))));

    let err = AuthenticateRequest::new("username", "").validate_request();
    assert!(matches!(err, Err(EnergiaProError::InvalidArgument(_))));
}

#[test]
fn validates_required_installations_arguments() {
    let err = InstallationsRequest::new("").validate();
    assert!(matches!(err, Err(EnergiaProError::InvalidArgument(_))));
}

#[test]
fn builds_installations_form_data() {
    let request = InstallationsRequest::new("507167");

    assert_eq!(
        request.form_data(),
        vec![
            ("scope", "installation-lpn-list".to_owned()),
            ("client_id", "507167".to_owned()),
            ("num_inst", "0".to_owned()),
        ]
    );
}

#[test]
fn validates_required_measurements_arguments() {
    let err = MeasurementsRequest::new("507167", "5806.000").scope("").validate();
    assert!(matches!(err, Err(EnergiaProError::InvalidArgument(_))));

    let err = MeasurementsRequest::new("507167", "").validate();
    assert!(matches!(err, Err(EnergiaProError::InvalidArgument(_))));

    let err = MeasurementsRequest::new("", "5806.000").validate();
    assert!(matches!(err, Err(EnergiaProError::InvalidArgument(_))));
}

#[test]
fn builds_measurements_form_data_with_naive_dates() {
    let request = MeasurementsRequest::new("507167", "5806.000")
        .from(Date::new(2024, 4, 1).unwrap())
        .to(Date::new(2024, 4, 2).unwrap());

    assert_eq!(
        request.form_data(),
        vec![
            ("scope", "lpn-json".to_owned()),
            ("client_id", "507167".to_owned()),
            ("num_inst", "5806.000".to_owned()),
            ("date_debut", "2024-04-01".to_owned()),
            ("date_fin", "2024-04-02".to_owned()),
        ]
    );
}

#[test]
fn builds_measurements_form_data_with_string_dates() {
    let request = MeasurementsRequest::new("507167", "5806.000")
        .from("2024-04-01")
        .to("2024-04-30".to_owned());

    assert_eq!(
        request.form_data(),
        vec![
            ("scope", "lpn-json".to_owned()),
            ("client_id", "507167".to_owned()),
            ("num_inst", "5806.000".to_owned()),
            ("date_debut", "2024-04-01".to_owned()),
            ("date_fin", "2024-04-30".to_owned()),
        ]
    );
}

#[test]
fn rejects_invalid_date_format_strings() {
    let err = MeasurementsRequest::new("507167", "5806.000").from("2024/04/01").validate();
    assert!(matches!(
        err,
        Err(EnergiaProError::InvalidArgument(message)) if message == "from must be in YYYY-MM-DD format"
    ));

    let err = MeasurementsRequest::new("507167", "5806.000").to("2024-4-1").validate();
    assert!(matches!(
        err,
        Err(EnergiaProError::InvalidArgument(message)) if message == "to must be in YYYY-MM-DD format"
    ));
}

#[test]
fn rejects_inverted_date_range() {
    let err = MeasurementsRequest::new("507167", "5806.000")
        .from("2024-04-30")
        .to("2024-04-01")
        .validate();
    assert!(matches!(
        err,
        Err(EnergiaProError::InvalidArgument(message))
            if message == "from must be less than or equal to to"
    ));
}

#[test]
fn accepts_equal_date_range_bounds() {
    let err = MeasurementsRequest::new("507167", "5806.000")
        .from("2024-04-01")
        .to("2024-04-01")
        .validate();
    assert!(err.is_ok());
}

#[test]
fn accepts_known_scope_variant() {
    let request = MeasurementsRequest::new("507167", "5806.000").scope(MeasurementScope::GcPlusJson);

    assert_eq!(
        request.form_data(),
        vec![
            ("scope", "gc-plus-json".to_owned()),
            ("client_id", "507167".to_owned()),
            ("num_inst", "5806.000".to_owned()),
        ]
    );
}

#[test]
fn accepts_custom_scope_string() {
    let request = MeasurementsRequest::new("507167", "5806.000").scope("custom-scope");

    assert_eq!(
        request.form_data(),
        vec![
            ("scope", "custom-scope".to_owned()),
            ("client_id", "507167".to_owned()),
            ("num_inst", "5806.000".to_owned()),
        ]
    );
}

#[test]
fn maps_known_scopes() {
    assert_eq!(MeasurementScope::from("lpn-json"), MeasurementScope::LpnJson);
    assert_eq!(MeasurementScope::from("gc-plus-json"), MeasurementScope::GcPlusJson);
}

#[test]
fn keeps_custom_scope() {
    assert_eq!(
        MeasurementScope::from("custom-scope"),
        MeasurementScope::Custom("custom-scope".to_owned())
    );
}

#[test]
fn default_scope_is_lpn_json() {
    assert_eq!(MeasurementScope::default(), MeasurementScope::LpnJson);
    assert_eq!(MeasurementScope::default().as_str(), "lpn-json");
}

#[test]
fn formats_naive_date() {
    let date = Date::new(2024, 4, 1).unwrap();
    assert_eq!(date.into_date_string(), "2024-04-01");
}

#[test]
fn keeps_string_input() {
    assert_eq!("2024-04-01".into_date_string(), "2024-04-01");
    assert_eq!("2024-04-01".to_owned().into_date_string(), "2024-04-01");
}

#[test]
fn rejects_whitespace_only_fields() {
    let err = MeasurementsRequest::new(" \t\n", "5806.000").validate();
    assert!(matches!(
        err,
        Err(EnergiaProError::InvalidArgument(message)) if message == "client_id cannot be empty"
    ));

    let err = MeasurementsRequest::new("507167", "\u{a0} ").validate();
    assert!(matches!(
        err,
        Err(EnergiaProError::InvalidArgument(message))
            if message == "installation_id cannot be empty"
    ));
}

#[test]
fn accepts_leap_day_in_leap_year() {
    let req = MeasurementsRequest::new("507167", "5806.000").from("2024-02-29");
    assert!(req.validate().is_ok());
}

#[test]
fn rejects_leap_day_outside_leap_year() {
    let err = MeasurementsRequest::new("507167", "5806.000").from("2023-02-29").validate();
    assert!(matches!(
        err,
        Err(EnergiaProError::InvalidArgument(message))
            if message == "from must be in YYYY-MM-DD format"
    ));
}

#[test]
fn rejects_calendar_overflow_dates() {
    assert!(Date::new(2024, 4, 31).is_none());
    assert!(Date::new(2024, 13, 1).is_none());
    assert!(Date::new(2024, 0, 5).is_none());
    assert!(Date::new(2024, 2, 30).is_none());
    assert!(Date::new(2000, 2, 29).is_some());
    assert!(Date::new(1900, 2, 29).is_none());
}
