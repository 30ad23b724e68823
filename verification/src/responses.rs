use vstd::prelude::*;

use crate::errors::EnergiaProError;
use crate::json::{spec_obj_get, JsonValue};
use crate::models::{
    fixed_measurement_matches, fixed_measurement_ok, installation_from_row, installation_matches,
    installation_row_ok, lemma_fix_preserves_decode, measurement_from_row, measurement_matches,
    measurement_row_ok, Installation, Measurement,
};
use crate::transform::{ensure_installation_id_on_rows, rows_fixed};

verus! {

/// The token text of an authentication payload: the `token` field when
/// it is a string, absent otherwise.
pub open spec fn spec_token_of(p: JsonValue) -> Option<Seq<char>> {
    match p {
        JsonValue::Object(fs) => match spec_obj_get(fs@, "token"@) {
            Some(JsonValue::String(t)) => Some(t@),
            _ => None,
        },
        _ => None,
    }
}

/// The decoded payload of an authentication call.
#[derive(Debug, PartialEq)]
pub struct AuthenticateResponse {
    payload: JsonValue,
}

impl AuthenticateResponse {
    /// The payload the response was built from.
    pub closed spec fn spec_payload(self) -> JsonValue {
        self.payload
    }

    /// Wrap a decoded authentication payload.
    pub fn new(payload: JsonValue) -> (r: Self)
        ensures
            r.spec_payload() == payload,
    {
        Self { payload }
    }

    /// Extract the token: the string under the `token` field. Its
    /// absence is a distinct `MissingToken` failure.
    pub fn map(self) -> (r: Result<String, EnergiaProError>)
        ensures
            match r {
                Ok(t) => spec_token_of(self.spec_payload()) == Some(t@),
                Err(e) => e is MissingToken && spec_token_of(self.spec_payload()) is None,
            },
    {
        match self.payload.get("token") {
            Some(JsonValue::String(t)) => Ok(t.clone()),
            _ => Err(EnergiaProError::MissingToken),
        }
    }

    /// Extract the token; authentication payloads need no transform.
    pub fn into_model(self) -> (r: Result<String, EnergiaProError>)
        ensures
            match r {
                Ok(t) => spec_token_of(self.spec_payload()) == Some(t@),
                Err(e) => e is MissingToken && spec_token_of(self.spec_payload()) is None,
            },
    {
        self.map()
    }
}

/// True when the payload is an array whose rows all decode as
/// installations.
pub open spec fn installations_payload_ok(p: JsonValue) -> bool {
    match p {
        JsonValue::Array(rows) => forall|k: int|
            0 <= k < rows@.len() ==> installation_row_ok(#[trigger] rows@[k]),
        _ => false,
    }
}

/// The decoded payload of an installations listing call.
#[derive(Debug, PartialEq)]
pub struct InstallationsResponse {
    payload: JsonValue,
}

impl InstallationsResponse {
    /// The payload the response was built from.
    pub closed spec fn spec_payload(self) -> JsonValue {
        self.payload
    }

    /// Wrap a decoded installations payload.
    pub fn new(payload: JsonValue) -> (r: Self)
        ensures
            r.spec_payload() == payload,
    {
        Self { payload }
    }

    /// Decode the payload into installations: it must be an array, and
    /// every row must decode.
    pub fn map(self) -> (r: Result<Vec<Installation>, EnergiaProError>)
        ensures
            match r {
                Ok(list) => {
                    &&& self.spec_payload() matches JsonValue::Array(rows)
                    &&& list@.len() == rows@.len()
                    &&& forall|k: int|
                        0 <= k < rows@.len() ==> installation_matches(
                            rows@[k],
                            #[trigger] list@[k],
                        )
                },
                Err(e) => e is Json && !installations_payload_ok(self.spec_payload()),
            },
    {
        let rows = match self.payload {
            JsonValue::Array(rows) => rows,
            _ => {
                return Err(EnergiaProError::Json("payload is not a JSON array".to_owned()));
            },
        };
        let mut list: Vec<Installation> = Vec::new();
        let n: usize = rows.len();
        let mut i: usize = 0;
        while i < n
            invariant
                0 <= i <= n,
                n == rows@.len(),
                self.spec_payload() == JsonValue::Array(rows),
                list@.len() == i,
                forall|k: int|
                    0 <= k < i ==> installation_matches(rows@[k], #[trigger] list@[k]),
            decreases n - i,
        {
            match installation_from_row(&rows[i]) {
                Ok(item) => {
                    list.push(item);
                },
                Err(e) => {
                    proof {
                        let rs = self.spec_payload()->Array_0;
                        assert(rs == rows);
                        assert(!installation_row_ok(rs@[i as int]));
                    }
                    return Err(e);
                },
            }
            i += 1;
        }
        Ok(list)
    }

    /// Decode the payload; installation listings need no transform.
    pub fn into_model(self) -> (r: Result<Vec<Installation>, EnergiaProError>)
        ensures
            match r {
                Ok(list) => {
                    &&& self.spec_payload() matches JsonValue::Array(rows)
                    &&& list@.len() == rows@.len()
                    &&& forall|k: int|
                        0 <= k < rows@.len() ==> installation_matches(
                            rows@[k],
                            #[trigger] list@[k],
                        )
                },
                Err(e) => e is Json && !installations_payload_ok(self.spec_payload()),
            },
    {
        self.map()
    }
}

/// True when the payload is an array whose rows all decode as
/// measurements.
pub open spec fn measurements_payload_ok(p: JsonValue) -> bool {
    match p {
        JsonValue::Array(rows) => forall|k: int|
            0 <= k < rows@.len() ==> measurement_row_ok(#[trigger] rows@[k]),
        _ => false,
    }
}

/// True when the payload is an array whose rows all decode as
/// measurements once the installation-id fix-up with `id` has run.
pub open spec fn fixed_measurements_ok(p: JsonValue, id: Seq<char>) -> bool {
    match p {
        JsonValue::Array(rows) => forall|k: int|
            0 <= k < rows@.len() ==> fixed_measurement_ok(#[trigger] rows@[k], id),
        _ => false,
    }
}

/// The decoded payload of a measurements call, with the installation id
/// the request was built with, for the fix-up.
#[derive(Debug, PartialEq)]
pub struct MeasurementsResponse {
    payload: JsonValue,
    installation_id: String,
}

impl MeasurementsResponse {
    /// The payload the response was built from.
    pub closed spec fn spec_payload(self) -> JsonValue {
        self.payload
    }

    /// The installation id the fix-up injects.
    pub closed spec fn spec_installation_id(self) -> Seq<char> {
        self.installation_id@
    }

    /// The payload as it currently stands, for callers that inspect the
    /// transform's work.
    pub fn payload(&self) -> (r: &JsonValue)
        ensures
            *r == self.spec_payload(),
    {
        &self.payload
    }

    /// Wrap a decoded measurements payload with its request's
    /// installation id.
    pub fn new(payload: JsonValue, installation_id: &str) -> (r: Self)
        ensures
            r.spec_payload() == payload,
            r.spec_installation_id() == installation_id@,
    {
        Self { payload, installation_id: installation_id.to_owned() }
    }

    /// Run the installation-id fix-up over the payload rows.
    pub fn transform(self) -> (r: Result<Self, EnergiaProError>)
        ensures
            r matches Ok(t) && rows_fixed(
                self.spec_payload(),
                t.spec_payload(),
                self.spec_installation_id(),
            ) && t.spec_installation_id() == self.spec_installation_id(),
    {
        let id = self.installation_id;
        let payload = ensure_installation_id_on_rows(self.payload, id.as_str());
        Ok(Self { payload, installation_id: id })
    }

    /// Decode the payload into measurements: it must be an array, and
    /// every row must decode.
    pub fn map(self) -> (r: Result<Vec<Measurement>, EnergiaProError>)
        ensures
            match r {
                Ok(list) => {
                    &&& self.spec_payload() matches JsonValue::Array(rows)
                    &&& list@.len() == rows@.len()
                    &&& forall|k: int|
                        0 <= k < rows@.len() ==> measurement_matches(
                            rows@[k],
                            #[trigger] list@[k],
                        )
                },
                Err(e) => e is Json && !measurements_payload_ok(self.spec_payload()),
            },
    {
        let rows = match self.payload {
            JsonValue::Array(rows) => rows,
            _ => {
                return Err(EnergiaProError::Json("payload is not a JSON array".to_owned()));
            },
        };
        let mut list: Vec<Measurement> = Vec::new();
        let n: usize = rows.len();
        let mut i: usize = 0;
        while i < n
            invariant
                0 <= i <= n,
                n == rows@.len(),
                self.spec_payload() == JsonValue::Array(rows),
                list@.len() == i,
                forall|k: int|
                    0 <= k < i ==> measurement_matches(rows@[k], #[trigger] list@[k]),
            decreases n - i,
        {
            match measurement_from_row(&rows[i]) {
                Ok(item) => {
                    list.push(item);
                },
                Err(e) => {
                    proof {
                        let rs = self.spec_payload()->Array_0;
                        assert(rs == rows);
                        assert(!measurement_row_ok(rs@[i as int]));
                    }
                    return Err(e);
                },
            }
            i += 1;
        }
        Ok(list)
    }

    /// Run the fix-up, then decode: the measurement model of the
    /// payload, each row completed with the request's installation id
    /// where the response omitted it.
    pub fn into_model(self) -> (r: Result<Vec<Measurement>, EnergiaProError>)
        ensures
            match r {
                Ok(list) => {
                    &&& self.spec_payload() matches JsonValue::Array(rows)
                    &&& list@.len() == rows@.len()
                    &&& forall|k: int|
                        0 <= k < rows@.len() ==> fixed_measurement_matches(
                            rows@[k],
                            self.spec_installation_id(),
                            #[trigger] list@[k],
                        )
                },
                Err(e) => e is Json && !fixed_measurements_ok(
                    self.spec_payload(),
                    self.spec_installation_id(),
                ),
            },
    {
        let ghost original = self.spec_payload();
        let ghost id = self.spec_installation_id();
        let transformed = match self.transform() {
            Ok(t) => t,
            Err(e) => {
                return Err(e);
            },
        };
        let ghost fixed = transformed.spec_payload();
        let r = transformed.map();
        proof {
            match original {
                JsonValue::Array(rows) => {
                    let out = fixed->Array_0;
                    assert(fixed is Array);
                    assert forall|k: int| 0 <= k < rows@.len() implies (measurement_row_ok(
                        #[trigger] out@[k],
                    ) == fixed_measurement_ok(rows@[k], id) && forall|m: Measurement|
                        measurement_matches(out@[k], m) == #[trigger] fixed_measurement_matches(
                            rows@[k],
                            id,
                            m,
                        )) by {
                        lemma_fix_preserves_decode(rows@[k], out@[k], id);
                    }
                },
                _ => {
                    assert(fixed == original);
                },
            }
        }
        r
    }
}

} // verus!
