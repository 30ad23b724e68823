use vstd::prelude::*;

use crate::dates::{date_after, date_ok, parse_date, spec_date_after, spec_day, spec_month,
    spec_year, Date, DateInput};
use crate::errors::EnergiaProError;
use crate::scope::{spec_scope_str, MeasurementScope, ScopeInput};
use crate::text::{is_blank, spec_is_blank};

verus! {

/// The date a canonical date string denotes.
pub open spec fn spec_date_of(s: Seq<char>) -> Date {
    Date { year: spec_year(s) as u32, month: spec_month(s) as u32, day: spec_day(s) as u32 }
}

/// One key/value pair of a form body has the given key and value text.
pub open spec fn form_entry_is(e: (&str, String), k: Seq<char>, v: Seq<char>) -> bool {
    e.0@ == k && e.1@ == v
}

/// A request for exchanging credentials for a token.
#[derive(Debug, Clone, PartialEq, Eq)]
pub struct AuthenticateRequest {
    /// The account username.
    username: String,
    /// The salted hash of the secret key, computed fresh for this attempt.
    one_time_secret_key: String,
}

impl AuthenticateRequest {
    /// The username the request carries.
    pub closed spec fn spec_username(self) -> Seq<char> {
        self.username@
    }

    /// The hashed one-time secret the request carries.
    pub closed spec fn spec_secret(self) -> Seq<char> {
        self.one_time_secret_key@
    }
}

/// The validation outcome for an authentication request: the message of
/// the first failing check, or nothing when all pass.
pub open spec fn spec_validate_authenticate(r: AuthenticateRequest) -> Option<Seq<char>> {
    if spec_is_blank(r.spec_username()) {
        Some("username cannot be empty"@)
    } else if spec_is_blank(r.spec_secret()) {
        Some("secret_key cannot be empty"@)
    } else {
        None
    }
}

impl AuthenticateRequest {
    /// Build an authentication request from its two fields.
    pub fn new(username: &str, one_time_secret_key: &str) -> (r: Self)
        ensures
            r.spec_username() == username@,
            r.spec_secret() == one_time_secret_key@,
    {
        Self { username: username.to_owned(), one_time_secret_key: one_time_secret_key.to_owned() }
    }

    /// Check the request: both fields must be non-blank. Returns the
    /// first failing check's message, exactly as
    /// [`spec_validate_authenticate`] states it.
    pub fn validate_request(&self) -> (r: Result<(), EnergiaProError>)
        ensures
            match r {
                Ok(_) => spec_validate_authenticate(*self) is None,
                Err(e) => e matches EnergiaProError::InvalidArgument(m) && Some(m@)
                    == spec_validate_authenticate(*self),
            },
    {
        if is_blank(self.username.as_str()) {
            return Err(EnergiaProError::InvalidArgument("username cannot be empty".to_owned()));
        }
        if is_blank(self.one_time_secret_key.as_str()) {
            return Err(EnergiaProError::InvalidArgument("secret_key cannot be empty".to_owned()));
        }
        Ok(())
    }

    /// The form body of the authentication call: the username and the
    /// hashed secret, in this order.
    pub fn form_data(&self) -> (r: Vec<(&'static str, String)>)
        ensures
            r@.len() == 2,
            form_entry_is(r@[0], "username"@, self.spec_username()),
            form_entry_is(r@[1], "secret_key"@, self.spec_secret()),
    {
        let mut form: Vec<(&'static str, String)> = Vec::new();
        form.push(("username", self.username.clone()));
        form.push(("secret_key", self.one_time_secret_key.clone()));
        form
    }
}

/// A request for fetching available installations.
#[derive(Debug, Clone, PartialEq, Eq)]
pub struct InstallationsRequest {
    /// Client ID associated with the installations.
    client_id: String,
}

/// The validation outcome for an installations request.
pub open spec fn spec_validate_installations(r: InstallationsRequest) -> Option<Seq<char>> {
    if spec_is_blank(r.spec_client_id()) {
        Some("client_id cannot be empty"@)
    } else {
        None
    }
}

impl InstallationsRequest {
    /// The client id the request was built with.
    pub closed spec fn spec_client_id(self) -> Seq<char> {
        self.client_id@
    }

    /// Create request for fetching installations.
    pub fn new(client_id: &str) -> (r: Self)
        ensures
            r.spec_client_id() == client_id@,
    {
        Self { client_id: client_id.to_owned() }
    }

    /// Check the request: the client id must be non-blank.
    pub fn validate(&self) -> (r: Result<(), EnergiaProError>)
        ensures
            match r {
                Ok(_) => spec_validate_installations(*self) is None,
                Err(e) => e matches EnergiaProError::InvalidArgument(m) && Some(m@)
                    == spec_validate_installations(*self),
            },
    {
        if is_blank(self.client_id.as_str()) {
            return Err(EnergiaProError::InvalidArgument("client_id cannot be empty".to_owned()));
        }
        Ok(())
    }

    /// The form body of the installations call: the fixed listing scope,
    /// the client id, and the placeholder installation number.
    pub fn form_data(&self) -> (r: Vec<(&'static str, String)>)
        ensures
            r@.len() == 3,
            form_entry_is(r@[0], "scope"@, "installation-lpn-list"@),
            form_entry_is(r@[1], "client_id"@, self.spec_client_id()),
            form_entry_is(r@[2], "num_inst"@, "0"@),
    {
        let mut form: Vec<(&'static str, String)> = Vec::new();
        form.push(("scope", "installation-lpn-list".to_owned()));
        form.push(("client_id", self.client_id.clone()));
        form.push(("num_inst", "0".to_owned()));
        form
    }
}

/// A request for fetching measurements.
#[derive(Debug, Clone, PartialEq, Eq)]
pub struct MeasurementsRequest {
    /// Scope of the measurements to fetch.
    scope: MeasurementScope,
    /// Client ID associated with the measurements.
    client_id: String,
    /// Installation ID for which to fetch measurements.
    installation_id: String,
    /// Optional start date filter (format: YYYY-MM-DD).
    from: Option<String>,
    /// Optional end date filter (format: YYYY-MM-DD).
    to: Option<String>,
}

/// The validation outcome for a measurements request: the message of
/// the first failing check in the fixed order — blank scope, blank
/// installation id, blank client id, ill-formed `from`, ill-formed
/// `to`, inverted range — or nothing when all pass. Equal date bounds
/// pass.
pub open spec fn spec_validate_measurements(r: MeasurementsRequest) -> Option<Seq<char>> {
    if spec_is_blank(spec_scope_str(r.spec_scope())) {
        Some("scope cannot be empty"@)
    } else if spec_is_blank(r.spec_installation_id()) {
        Some("installation_id cannot be empty"@)
    } else if spec_is_blank(r.spec_client_id()) {
        Some("client_id cannot be empty"@)
    } else if r.spec_from() matches Some(f) && !date_ok(f@) {
        Some("from must be in YYYY-MM-DD format"@)
    } else if r.spec_to() matches Some(t) && !date_ok(t@) {
        Some("to must be in YYYY-MM-DD format"@)
    } else if r.spec_from() matches Some(f) && r.spec_to() matches Some(t) && spec_date_after(
        spec_date_of(f@),
        spec_date_of(t@),
    ) {
        Some("from must be less than or equal to to"@)
    } else {
        None
    }
}

impl MeasurementsRequest {
    /// The scope the request will send.
    pub closed spec fn spec_scope(self) -> MeasurementScope {
        self.scope
    }

    /// The client id the request was built with.
    pub closed spec fn spec_client_id(self) -> Seq<char> {
        self.client_id@
    }

    /// The installation id the request was built with.
    pub closed spec fn spec_installation_id(self) -> Seq<char> {
        self.installation_id@
    }

    /// The start date filter, if one was set.
    pub closed spec fn spec_from(self) -> Option<String> {
        self.from
    }

    /// The end date filter, if one was set.
    pub closed spec fn spec_to(self) -> Option<String> {
        self.to
    }

    /// Create request for fetching measurements, with the default scope
    /// and no date filters.
    pub fn new(client_id: &str, installation_id: &str) -> (r: Self)
        ensures
            r.spec_scope() is LpnJson,
            r.spec_client_id() == client_id@,
            r.spec_installation_id() == installation_id@,
            r.spec_from() is None,
            r.spec_to() is None,
    {
        Self {
            scope: MeasurementScope::LpnJson,
            client_id: client_id.to_owned(),
            installation_id: installation_id.to_owned(),
            from: None,
            to: None,
        }
    }

    /// Replace the scope; a raw string maps as [`MeasurementScope::from`]
    /// does.
    pub fn scope<S: ScopeInput>(self, scope: S) -> (r: Self)
        ensures
            scope.scope_result(r.spec_scope()),
            r.spec_client_id() == self.spec_client_id(),
            r.spec_installation_id() == self.spec_installation_id(),
            r.spec_from() == self.spec_from(),
            r.spec_to() == self.spec_to(),
    {
        Self { scope: scope.into_scope(), ..self }
    }

    /// Set the start date filter. Accepts [`Date`], `String`, or `&str`.
    pub fn from<D: DateInput>(self, from: D) -> (r: Self)
        ensures
            r.spec_from() matches Some(f) && f@ == from.date_text(),
            r.spec_scope() == self.spec_scope(),
            r.spec_client_id() == self.spec_client_id(),
            r.spec_installation_id() == self.spec_installation_id(),
            r.spec_to() == self.spec_to(),
    {
        Self { from: Some(from.into_date_string()), ..self }
    }

    /// Set the end date filter. Accepts [`Date`], `String`, or `&str`.
    pub fn to<D: DateInput>(self, to: D) -> (r: Self)
        ensures
            r.spec_to() matches Some(t) && t@ == to.date_text(),
            r.spec_scope() == self.spec_scope(),
            r.spec_client_id() == self.spec_client_id(),
            r.spec_installation_id() == self.spec_installation_id(),
            r.spec_from() == self.spec_from(),
    {
        Self { to: Some(to.into_date_string()), ..self }
    }

    /// The installation id, as the response fix-up needs it.
    pub fn installation_id(&self) -> (r: &str)
        ensures
            r@ == self.spec_installation_id(),
    {
        self.installation_id.as_str()
    }

    /// Check the request: non-blank scope, installation id and client
    /// id; each date filter, if present, a canonical `YYYY-MM-DD` date;
    /// and `from` not after `to` when both are present. Returns the
    /// first failing check's message, exactly as
    /// [`spec_validate_measurements`] states it.
    pub fn validate(&self) -> (r: Result<(), EnergiaProError>)
        ensures
            match r {
                Ok(_) => spec_validate_measurements(*self) is None,
                Err(e) => e matches EnergiaProError::InvalidArgument(m) && Some(m@)
                    == spec_validate_measurements(*self),
            },
    {
        if is_blank(self.scope.as_str()) {
            return Err(EnergiaProError::InvalidArgument("scope cannot be empty".to_owned()));
        }
        if is_blank(self.installation_id.as_str()) {
            return Err(EnergiaProError::InvalidArgument(
                "installation_id cannot be empty".to_owned(),
            ));
        }
        if is_blank(self.client_id.as_str()) {
            return Err(EnergiaProError::InvalidArgument("client_id cannot be empty".to_owned()));
        }
        let from_date: Option<Date> = match &self.from {
            Some(f) => match parse_date(f.as_str()) {
                Some(d) => Some(d),
                None => {
                    return Err(EnergiaProError::InvalidArgument(
                        "from must be in YYYY-MM-DD format".to_owned(),
                    ));
                },
            },
            None => None,
        };
        let to_date: Option<Date> = match &self.to {
            Some(t) => match parse_date(t.as_str()) {
                Some(d) => Some(d),
                None => {
                    return Err(EnergiaProError::InvalidArgument(
                        "to must be in YYYY-MM-DD format".to_owned(),
                    ));
                },
            },
            None => None,
        };
        if let (Some(f), Some(t)) = (&from_date, &to_date) {
            if date_after(f, t) {
                return Err(EnergiaProError::InvalidArgument(
                    "from must be less than or equal to to".to_owned(),
                ));
            }
        }
        Ok(())
    }

    /// The form body of the measurements call: scope, client id and
    /// installation number, then `date_debut` and `date_fin` for
    /// whichever date filters are present.
    pub fn form_data(&self) -> (r: Vec<(&'static str, String)>)
        ensures
            r@.len() == 3 + (if self.spec_from() is Some {
                1int
            } else {
                0int
            }) + (if self.spec_to() is Some {
                1int
            } else {
                0int
            }),
            form_entry_is(r@[0], "scope"@, spec_scope_str(self.spec_scope())),
            form_entry_is(r@[1], "client_id"@, self.spec_client_id()),
            form_entry_is(r@[2], "num_inst"@, self.spec_installation_id()),
            self.spec_from() matches Some(f) ==> form_entry_is(r@[3], "date_debut"@, f@),
            self.spec_to() matches Some(t) ==> form_entry_is(
                r@[r@.len() - 1],
                "date_fin"@,
                t@,
            ),
    {
        let mut form: Vec<(&'static str, String)> = Vec::new();
        form.push(("scope", self.scope.as_str().to_owned()));
        form.push(("client_id", self.client_id.clone()));
        form.push(("num_inst", self.installation_id.clone()));
        if let Some(f) = &self.from {
            form.push(("date_debut", f.clone()));
        }
        if let Some(t) = &self.to {
            form.push(("date_fin", t.clone()));
        }
        form
    }
}

} // verus!
