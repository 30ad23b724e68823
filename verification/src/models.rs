use vstd::prelude::*;

use crate::errors::EnergiaProError;
use crate::json::{obj_get, spec_obj_get, JsonValue};
use crate::text::{
    check_decimal, digits_val, is_decimal_literal, parse_i64_text, parse_u64_digits,
    parse_u64_text, u64_string_ok, u64_text_ok, u64_text_val, i64_string_ok, i64_string_val,
};

verus! {

/// An installation, which includes details about the location and
/// address of the installation.
#[derive(Debug, Clone, PartialEq, Eq)]
pub struct Installation {
    /// Installation identifier (`insID` in API payloads).
    pub id: String,
    /// Street name (`adrNomRueC`).
    pub street_name: String,
    /// Street address (`adrRueC`).
    pub street_address: String,
    /// Building number (`adrNumImm`).
    pub building_number: i64,
    /// Postal code (`adrCPC`).
    pub postal_code: String,
    /// City (`adrLocaliteC`).
    pub city: String,
}

/// A single measurement row returned by the API.
///
/// The three metered quantities keep the literal text of the wire value;
/// the text is checked to be a plain decimal literal, so callers can
/// turn it into their numeric type of choice without a further check.
#[derive(Debug, Clone, PartialEq, Eq)]
pub struct Measurement {
    /// Numeric client identifier.
    pub client_id: u64,
    /// Installation identifier (`num_inst` in API payloads).
    pub installation_id: String,
    /// Measurement timestamp as returned by the API.
    pub timestamp: String,
    /// Meter index in cubic meters, as decimal text.
    pub index_m3: String,
    /// Consumed volume in cubic meters for the interval, as decimal text.
    pub consumption_m3: String,
    /// Consumed energy in kilowatt-hours for the interval, as decimal text.
    pub consumption_kwh: String,
}

/// The field under `primary`, or under `alias` when `primary` is absent.
pub open spec fn spec_get_aliased(
    fs: Seq<(String, JsonValue)>,
    primary: Seq<char>,
    alias: Seq<char>,
) -> Option<JsonValue> {
    if spec_obj_get(fs, primary) is Some {
        spec_obj_get(fs, primary)
    } else {
        spec_obj_get(fs, alias)
    }
}

/// Look up a field under its primary name, falling back to its alias.
fn get_aliased<'a>(
    fields: &'a Vec<(String, JsonValue)>,
    primary: &str,
    alias: &str,
) -> (r: Option<&'a JsonValue>)
    ensures
        match r {
            Some(v) => spec_get_aliased(fields@, primary@, alias@) == Some(*v),
            None => spec_get_aliased(fields@, primary@, alias@) is None,
        },
{
    match obj_get(fields, primary) {
        Some(v) => Some(v),
        None => obj_get(fields, alias),
    }
}

/// True when `v` is a wire value for an unsigned integer: an integral
/// JSON number, or a JSON string that `u64::from_str` accepts.
pub open spec fn u64_value_ok(v: JsonValue) -> bool {
    match v {
        JsonValue::Number(t) => u64_string_ok(t@),
        JsonValue::String(t) => u64_text_ok(t@),
        _ => false,
    }
}

/// The unsigned integer a wire value denotes.
pub open spec fn u64_value_of(v: JsonValue) -> nat {
    match v {
        JsonValue::Number(t) => digits_val(t@),
        JsonValue::String(t) => u64_text_val(t@),
        _ => 0,
    }
}

/// True when `v` is a wire value for a decimal quantity: a JSON number
/// or a JSON string, in either case holding a plain decimal literal.
pub open spec fn decimal_value_ok(v: JsonValue) -> bool {
    match v {
        JsonValue::Number(t) => is_decimal_literal(t@),
        JsonValue::String(t) => is_decimal_literal(t@),
        _ => false,
    }
}

/// The decimal text a wire value carries.
pub open spec fn decimal_value_of(v: JsonValue) -> Seq<char> {
    match v {
        JsonValue::Number(t) => t@,
        JsonValue::String(t) => t@,
        _ => Seq::empty(),
    }
}

/// The characters of a JSON string value.
pub open spec fn string_value_of(v: JsonValue) -> Seq<char> {
    match v {
        JsonValue::String(t) => t@,
        _ => Seq::empty(),
    }
}

/// Read a wire value as `u64`, from a number or a numeric string.
fn read_u64_value(v: &JsonValue) -> (r: Option<u64>)
    ensures
        match r {
            Some(n) => u64_value_ok(*v) && n as nat == u64_value_of(*v),
            None => !u64_value_ok(*v),
        },
{
    match v {
        JsonValue::Number(t) => parse_u64_digits(t.as_str()),
        JsonValue::String(t) => parse_u64_text(t.as_str()),
        _ => None,
    }
}

/// Read a wire value as decimal text, from a number or a numeric string.
fn read_decimal_value(v: &JsonValue) -> (r: Option<String>)
    ensures
        match r {
            Some(t) => decimal_value_ok(*v) && t@ == decimal_value_of(*v),
            None => !decimal_value_ok(*v),
        },
{
    match v {
        JsonValue::Number(t) => {
            if check_decimal(t.as_str()) {
                Some(t.clone())
            } else {
                None
            }
        },
        JsonValue::String(t) => {
            if check_decimal(t.as_str()) {
                Some(t.clone())
            } else {
                None
            }
        },
        _ => None,
    }
}

/// Read a wire value as the characters of a JSON string.
fn read_string_value(v: &JsonValue) -> (r: Option<String>)
    ensures
        match r {
            Some(t) => *v is String && t@ == string_value_of(*v),
            None => !(*v is String),
        },
{
    match v {
        JsonValue::String(t) => Some(t.clone()),
        _ => None,
    }
}

/// True when the field list carries every measurement field other than
/// the installation id in an accepted shape: `client_id` integral, the
/// timestamp under `timestamp` or `date`, and the three quantities as
/// decimal numbers or numeric strings under their English or vendor
/// names.
pub open spec fn measurement_core_ok(fs: Seq<(String, JsonValue)>) -> bool {
    &&& spec_obj_get(fs, "client_id"@) matches Some(v) && u64_value_ok(v)
    &&& spec_get_aliased(fs, "timestamp"@, "date"@) matches Some(v) && v is String
    &&& spec_obj_get(fs, "index_m3"@) matches Some(v) && decimal_value_ok(v)
    &&& spec_get_aliased(fs, "consumption_m3"@, "quantite_m3"@) matches Some(v)
        && decimal_value_ok(v)
    &&& spec_get_aliased(fs, "consumption_kwh"@, "consommation_kw_h"@) matches Some(v)
        && decimal_value_ok(v)
}

/// True when `m` holds exactly the non-installation values of the field
/// list.
pub open spec fn measurement_core_matches(fs: Seq<(String, JsonValue)>, m: Measurement) -> bool {
    &&& m.client_id as nat == u64_value_of(spec_obj_get(fs, "client_id"@).unwrap())
    &&& m.timestamp@ == string_value_of(spec_get_aliased(fs, "timestamp"@, "date"@).unwrap())
    &&& m.index_m3@ == decimal_value_of(spec_obj_get(fs, "index_m3"@).unwrap())
    &&& m.consumption_m3@ == decimal_value_of(
        spec_get_aliased(fs, "consumption_m3"@, "quantite_m3"@).unwrap(),
    )
    &&& m.consumption_kwh@ == decimal_value_of(
        spec_get_aliased(fs, "consumption_kwh"@, "consommation_kw_h"@).unwrap(),
    )
}

/// True when `row` is an object carrying every measurement field in an
/// accepted shape, the installation id under `installation_id` or
/// `num_inst` among them.
pub open spec fn measurement_row_ok(row: JsonValue) -> bool {
    match row {
        JsonValue::Object(fs) => {
            &&& measurement_core_ok(fs@)
            &&& spec_get_aliased(fs@, "installation_id"@, "num_inst"@) matches Some(v) && v
                is String
        },
        _ => false,
    }
}

/// True when `m` holds exactly the values that `row` carries.
pub open spec fn measurement_matches(row: JsonValue, m: Measurement) -> bool {
    &&& measurement_row_ok(row)
    &&& match row {
        JsonValue::Object(fs) => {
            &&& measurement_core_matches(fs@, m)
            &&& m.installation_id@ == string_value_of(
                spec_get_aliased(fs@, "installation_id"@, "num_inst"@).unwrap(),
            )
        },
        _ => false,
    }
}

/// True when `row` decodes as a measurement after the installation-id
/// fix-up with `id`: a row already naming its installation decodes as it
/// stands, and a row without either installation field needs only its
/// core fields, the fix-up supplying the id.
pub open spec fn fixed_measurement_ok(row: JsonValue, id: Seq<char>) -> bool {
    match row {
        JsonValue::Object(fs) => {
            if spec_obj_get(fs@, "installation_id"@) is Some || spec_obj_get(fs@, "num_inst"@)
                is Some {
                measurement_row_ok(row)
            } else {
                measurement_core_ok(fs@)
            }
        },
        _ => false,
    }
}

/// True when `m` holds exactly what `row` carries after the
/// installation-id fix-up with `id`.
pub open spec fn fixed_measurement_matches(row: JsonValue, id: Seq<char>, m: Measurement) -> bool {
    match row {
        JsonValue::Object(fs) => {
            if spec_obj_get(fs@, "installation_id"@) is Some || spec_obj_get(fs@, "num_inst"@)
                is Some {
                measurement_matches(row, m)
            } else {
                measurement_core_ok(fs@) && measurement_core_matches(fs@, m)
                    && m.installation_id@ == id
            }
        },
        _ => false,
    }
}

/// Decoding after the installation-id fix-up sees exactly what
/// [`fixed_measurement_ok`] and [`fixed_measurement_matches`] state of
/// the row before the fix-up: the injected `num_inst` field supplies the
/// installation id and leaves every other field's lookup unchanged.
#[verifier::rlimit(100)]
pub(crate) proof fn lemma_fix_preserves_decode(orig: JsonValue, fixed: JsonValue, id: Seq<char>)
    requires
        crate::transform::row_fixed(orig, fixed, id),
    ensures
        measurement_row_ok(fixed) == fixed_measurement_ok(orig, id),
        forall|m: Measurement|
            measurement_matches(fixed, m) == #[trigger] fixed_measurement_matches(orig, id, m),
{
    reveal_strlit("num_inst");
    reveal_strlit("installation_id");
    reveal_strlit("client_id");
    reveal_strlit("timestamp");
    reveal_strlit("date");
    reveal_strlit("index_m3");
    reveal_strlit("consumption_m3");
    reveal_strlit("quantite_m3");
    reveal_strlit("consumption_kwh");
    reveal_strlit("consommation_kw_h");
    assert("num_inst"@.len() == 8);
    assert("installation_id"@.len() == 15);
    assert("client_id"@.len() == 9);
    assert("timestamp"@.len() == 9);
    assert("date"@.len() == 4);
    assert("index_m3"@.len() == 8);
    assert("consumption_m3"@.len() == 14);
    assert("quantite_m3"@.len() == 11);
    assert("consumption_kwh"@.len() == 15);
    assert("consommation_kw_h"@.len() == 17);
    assert("num_inst"@[0] == 'n');
    assert("index_m3"@[0] == 'i');
    match orig {
        JsonValue::Object(fs) => {
            if spec_obj_get(fs@, "installation_id"@) is Some || spec_obj_get(fs@, "num_inst"@)
                is Some {
            } else {
                match fixed {
                    JsonValue::Object(gs) => {
                        let e = gs@.last();
                        assert(gs@ =~= fs@.push(e));
                        crate::json::lemma_obj_get_push(fs@, e, "client_id"@);
                        crate::json::lemma_obj_get_push(fs@, e, "installation_id"@);
                        crate::json::lemma_obj_get_push(fs@, e, "num_inst"@);
                        crate::json::lemma_obj_get_push(fs@, e, "timestamp"@);
                        crate::json::lemma_obj_get_push(fs@, e, "date"@);
                        crate::json::lemma_obj_get_push(fs@, e, "index_m3"@);
                        crate::json::lemma_obj_get_push(fs@, e, "consumption_m3"@);
                        crate::json::lemma_obj_get_push(fs@, e, "quantite_m3"@);
                        crate::json::lemma_obj_get_push(fs@, e, "consumption_kwh"@);
                        crate::json::lemma_obj_get_push(fs@, e, "consommation_kw_h"@);
                        assert(spec_get_aliased(gs@, "installation_id"@, "num_inst"@) == Some(
                            e.1,
                        ));
                        assert(measurement_row_ok(fixed) == fixed_measurement_ok(orig, id));
                        assert forall|m: Measurement|
                            measurement_matches(fixed, m) == #[trigger] fixed_measurement_matches(
                                orig,
                                id,
                                m,
                            ) by {
                            assert(measurement_core_ok(gs@) == measurement_core_ok(fs@));
                        }
                    },
                    _ => {},
                }
            }
        },
        _ => {},
    }
}

/// Decode one measurement row.
pub fn measurement_from_row(row: &JsonValue) -> (r: Result<Measurement, EnergiaProError>)
    ensures
        match r {
            Ok(m) => measurement_matches(*row, m),
            Err(e) => !measurement_row_ok(*row) && e is Json,
        },
{
    let fields = match row {
        JsonValue::Object(fields) => fields,
        _ => {
            return Err(EnergiaProError::Json("measurement row is not a JSON object".to_owned()));
        },
    };
    let client_id: u64 = match obj_get(fields, "client_id") {
        Some(v) => match read_u64_value(v) {
            Some(n) => n,
            None => {
                return Err(measurement_field_error());
            },
        },
        None => {
            return Err(measurement_field_error());
        },
    };
    let installation_id: String = match get_aliased(fields, "installation_id", "num_inst") {
        Some(v) => match read_string_value(v) {
            Some(t) => t,
            None => {
                return Err(measurement_field_error());
            },
        },
        None => {
            return Err(measurement_field_error());
        },
    };
    let timestamp: String = match get_aliased(fields, "timestamp", "date") {
        Some(v) => match read_string_value(v) {
            Some(t) => t,
            None => {
                return Err(measurement_field_error());
            },
        },
        None => {
            return Err(measurement_field_error());
        },
    };
    let index_m3: String = match obj_get(fields, "index_m3") {
        Some(v) => match read_decimal_value(v) {
            Some(t) => t,
            None => {
                return Err(measurement_field_error());
            },
        },
        None => {
            return Err(measurement_field_error());
        },
    };
    let consumption_m3: String = match get_aliased(fields, "consumption_m3", "quantite_m3") {
        Some(v) => match read_decimal_value(v) {
            Some(t) => t,
            None => {
                return Err(measurement_field_error());
            },
        },
        None => {
            return Err(measurement_field_error());
        },
    };
    let consumption_kwh: String = match get_aliased(fields, "consumption_kwh", "consommation_kw_h")
        {
        Some(v) => match read_decimal_value(v) {
            Some(t) => t,
            None => {
                return Err(measurement_field_error());
            },
        },
        None => {
            return Err(measurement_field_error());
        },
    };
    Ok(Measurement {
        client_id,
        installation_id,
        timestamp,
        index_m3,
        consumption_m3,
        consumption_kwh,
    })
}

/// The decode error for a missing or ill-shaped measurement field.
fn measurement_field_error() -> (r: EnergiaProError)
    ensures
        r is Json,
{
    EnergiaProError::Json("measurement row has a missing or invalid field".to_owned())
}

/// True when `row` is an object carrying every installation field in an
/// accepted shape, under its English or vendor name.
pub open spec fn installation_row_ok(row: JsonValue) -> bool {
    match row {
        JsonValue::Object(fs) => {
            &&& spec_get_aliased(fs@, "id"@, "insID"@) matches Some(v) && v is String
            &&& spec_get_aliased(fs@, "street_name"@, "adrNomRueC"@) matches Some(v) && v
                is String
            &&& spec_get_aliased(fs@, "street_address"@, "adrRueC"@) matches Some(v) && v
                is String
            &&& spec_get_aliased(fs@, "building_number"@, "adrNumImm"@) matches Some(v) && (
            v matches JsonValue::Number(t) && i64_string_ok(t@))
            &&& spec_get_aliased(fs@, "postal_code"@, "adrCPC"@) matches Some(v) && v is String
            &&& spec_get_aliased(fs@, "city"@, "adrLocaliteC"@) matches Some(v) && v is String
        },
        _ => false,
    }
}

/// The number text of an integral JSON number value.
pub open spec fn number_text_of(v: JsonValue) -> Seq<char> {
    match v {
        JsonValue::Number(t) => t@,
        _ => Seq::empty(),
    }
}

/// True when `i` holds exactly the values that `row` carries.
pub open spec fn installation_matches(row: JsonValue, i: Installation) -> bool {
    &&& installation_row_ok(row)
    &&& match row {
        JsonValue::Object(fs) => {
            &&& i.id@ == string_value_of(spec_get_aliased(fs@, "id"@, "insID"@).unwrap())
            &&& i.street_name@ == string_value_of(
                spec_get_aliased(fs@, "street_name"@, "adrNomRueC"@).unwrap(),
            )
            &&& i.street_address@ == string_value_of(
                spec_get_aliased(fs@, "street_address"@, "adrRueC"@).unwrap(),
            )
            &&& i.building_number as int == i64_string_val(
                number_text_of(spec_get_aliased(fs@, "building_number"@, "adrNumImm"@).unwrap()),
            )
            &&& i.postal_code@ == string_value_of(
                spec_get_aliased(fs@, "postal_code"@, "adrCPC"@).unwrap(),
            )
            &&& i.city@ == string_value_of(spec_get_aliased(fs@, "city"@, "adrLocaliteC"@).unwrap())
        },
        _ => false,
    }
}

/// Decode one installation row.
pub fn installation_from_row(row: &JsonValue) -> (r: Result<Installation, EnergiaProError>)
    ensures
        match r {
            Ok(i) => installation_matches(*row, i),
            Err(e) => !installation_row_ok(*row) && e is Json,
        },
{
    let fields = match row {
        JsonValue::Object(fields) => fields,
        _ => {
            return Err(EnergiaProError::Json("installation row is not a JSON object".to_owned()));
        },
    };
    let id: String = match get_aliased(fields, "id", "insID") {
        Some(v) => match read_string_value(v) {
            Some(t) => t,
            None => {
                return Err(installation_field_error());
            },
        },
        None => {
            return Err(installation_field_error());
        },
    };
    let street_name: String = match get_aliased(fields, "street_name", "adrNomRueC") {
        Some(v) => match read_string_value(v) {
            Some(t) => t,
            None => {
                return Err(installation_field_error());
            },
        },
        None => {
            return Err(installation_field_error());
        },
    };
    let street_address: String = match get_aliased(fields, "street_address", "adrRueC") {
        Some(v) => match read_string_value(v) {
            Some(t) => t,
            None => {
                return Err(installation_field_error());
            },
        },
        None => {
            return Err(installation_field_error());
        },
    };
    let building_number: i64 = match get_aliased(fields, "building_number", "adrNumImm") {
        Some(JsonValue::Number(t)) => match parse_i64_text(t.as_str()) {
            Some(n) => n,
            None => {
                return Err(installation_field_error());
            },
        },
        _ => {
            return Err(installation_field_error());
        },
    };
    let postal_code: String = match get_aliased(fields, "postal_code", "adrCPC") {
        Some(v) => match read_string_value(v) {
            Some(t) => t,
            None => {
                return Err(installation_field_error());
            },
        },
        None => {
            return Err(installation_field_error());
        },
    };
    let city: String = match get_aliased(fields, "city", "adrLocaliteC") {
        Some(v) => match read_string_value(v) {
            Some(t) => t,
            None => {
                return Err(installation_field_error());
            },
        },
        None => {
            return Err(installation_field_error());
        },
    };
    Ok(Installation { id, street_name, street_address, building_number, postal_code, city })
}

/// The decode error for a missing or ill-shaped installation field.
fn installation_field_error() -> (r: EnergiaProError)
    ensures
        r is Json,
{
    EnergiaProError::Json("installation row has a missing or invalid field".to_owned())
}

} // verus!
