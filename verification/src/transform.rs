use vstd::prelude::*;

use crate::json::{obj_contains, spec_obj_get, JsonValue};

verus! {

/// How one response row relates to its fixed-up form: a row that already
/// names its installation (`installation_id` or `num_inst`), and any
/// non-object row, stays as it is; any other object gains one trailing
/// `num_inst` field carrying `id`.
pub open spec fn row_fixed(old_row: JsonValue, new_row: JsonValue, id: Seq<char>) -> bool {
    match old_row {
        JsonValue::Object(fs) => {
            if spec_obj_get(fs@, "installation_id"@) is Some || spec_obj_get(fs@, "num_inst"@)
                is Some {
                new_row == old_row
            } else {
                match new_row {
                    JsonValue::Object(gs) => {
                        &&& gs@.len() == fs@.len() + 1
                        &&& gs@.subrange(0, fs@.len() as int) == fs@
                        &&& gs@.last().0@ == "num_inst"@
                        &&& gs@.last().1 matches JsonValue::String(s) && s@ == id
                    },
                    _ => false,
                }
            }
        },
        _ => new_row == old_row,
    }
}

/// How a whole payload relates to its fixed-up form: every row of an
/// array is fixed in place, and any non-array payload stays as it is.
pub open spec fn rows_fixed(payload: JsonValue, result: JsonValue, id: Seq<char>) -> bool {
    match payload {
        JsonValue::Array(rows) => match result {
            JsonValue::Array(out) => {
                &&& out@.len() == rows@.len()
                &&& forall|k: int|
                    0 <= k < rows@.len() ==> row_fixed(rows@[k], #[trigger] out@[k], id)
            },
            _ => false,
        },
        _ => result == payload,
    }
}

/// Inject the request's installation id into one row that lacks it.
fn ensure_installation_id_on_row(row: JsonValue, installation_id: &str) -> (r: JsonValue)
    ensures
        row_fixed(row, r, installation_id@),
{
    match row {
        JsonValue::Object(mut fields) => {
            let ghost fs0 = fields@;
            if !obj_contains(&fields, "installation_id") && !obj_contains(&fields, "num_inst") {
                fields.push(("num_inst".to_owned(), JsonValue::String(
                    installation_id.to_owned(),
                )));
                proof {
                    assert(fields@.subrange(0, fs0.len() as int) =~= fs0);
                }
            }
            JsonValue::Object(fields)
        },
        other => other,
    }
}

/// Apply the installation-id fix-up to every row of an array payload,
/// leaving any other payload shape untouched.
pub fn ensure_installation_id_on_rows(payload: JsonValue, installation_id: &str) -> (r: JsonValue)
    ensures
        rows_fixed(payload, r, installation_id@),
{
    match payload {
        JsonValue::Array(mut rows) => {
            let ghost rows0 = rows@;
            let mut rev: Vec<JsonValue> = Vec::new();
            while rows.len() > 0
                invariant
                    rows@.len() + rev@.len() == rows0.len(),
                    rows@ == rows0.subrange(0, rows@.len() as int),
                    forall|k: int|
                        0 <= k < rev@.len() ==> #[trigger] rev@[k] == rows0[rows0.len() - 1 - k],
                decreases rows.len(),
            {
                let row = rows.pop().unwrap();
                proof {
                    assert(rows@ =~= rows0.subrange(0, rows@.len() as int));
                }
                rev.push(row);
            }
            let mut out: Vec<JsonValue> = Vec::new();
            while rev.len() > 0
                invariant
                    rev@.len() + out@.len() == rows0.len(),
                    forall|k: int|
                        0 <= k < rev@.len() ==> #[trigger] rev@[k] == rows0[rows0.len() - 1 - k],
                    forall|k: int|
                        0 <= k < out@.len() ==> row_fixed(
                            rows0[k],
                            #[trigger] out@[k],
                            installation_id@,
                        ),
                decreases rev.len(),
            {
                let row = rev.pop().unwrap();
                out.push(ensure_installation_id_on_row(row, installation_id));
            }
            JsonValue::Array(out)
        },
        other => other,
    }
}

/// One fixed-up row is already fixed: fixing it again changes nothing.
proof fn lemma_row_fix_idempotent(a: JsonValue, b: JsonValue, c: JsonValue, id: Seq<char>)
    requires
        row_fixed(a, b, id),
        row_fixed(b, c, id),
    ensures
        c == b,
{
    match a {
        JsonValue::Object(fs) => {
            if spec_obj_get(fs@, "installation_id"@) is Some || spec_obj_get(fs@, "num_inst"@)
                is Some {
            } else {
                match b {
                    JsonValue::Object(gs) => {
                        crate::json::lemma_obj_get_exists(gs@, "num_inst"@);
                        assert(gs@[gs@.len() - 1].0@ == "num_inst"@);
                    },
                    _ => {},
                }
            }
        },
        _ => {},
    }
}

/// The installation-id fix-up is idempotent: applying it to an already
/// fixed payload returns that payload's rows unchanged, and rows that
/// already carry `installation_id` or `num_inst` are never altered by
/// either application.
pub proof fn lemma_transform_idempotent(
    payload: JsonValue,
    once: JsonValue,
    twice: JsonValue,
    id: Seq<char>,
)
    requires
        rows_fixed(payload, once, id),
        rows_fixed(once, twice, id),
    ensures
        match once {
            JsonValue::Array(out1) => twice matches JsonValue::Array(out2) && out2@ == out1@,
            _ => twice == once,
        },
{
    match payload {
        JsonValue::Array(rows) => {
            match once {
                JsonValue::Array(out1) => {
                    match twice {
                        JsonValue::Array(out2) => {
                            assert forall|k: int| 0 <= k < out1@.len() implies out2@[k]
                                == out1@[k] by {
                                lemma_row_fix_idempotent(rows@[k], out1@[k], out2@[k], id);
                            }
                            assert(out2@ =~= out1@);
                        },
                        _ => {},
                    }
                },
                _ => {},
            }
        },
        _ => {},
    }
}

} // verus!
