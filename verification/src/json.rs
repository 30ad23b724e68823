use vstd::prelude::*;

use crate::text::str_eq;

verus! {

/// A JSON document, as the vendor API returns it, with numbers kept as
/// their literal text so that no information is lost before the caller
/// chooses a numeric type.
#[derive(Debug, PartialEq)]
pub enum JsonValue {
    /// JSON `null`.
    Null,
    /// JSON `true` or `false`.
    Bool(bool),
    /// A JSON number, held as its literal text.
    Number(String),
    /// A JSON string.
    String(String),
    /// A JSON array.
    Array(Vec<JsonValue>),
    /// A JSON object as an ordered field list.
    Object(Vec<(String, JsonValue)>),
}

/// The value under the first field named `key`, if any.
pub open spec fn spec_obj_get(fs: Seq<(String, JsonValue)>, key: Seq<char>) -> Option<JsonValue>
    decreases fs.len(),
{
    if fs.len() == 0 {
        None
    } else if fs[0].0@ == key {
        Some(fs[0].1)
    } else {
        spec_obj_get(fs.drop_first(), key)
    }
}

/// Object lookup succeeds exactly when some field carries the key.
pub(crate) proof fn lemma_obj_get_exists(fs: Seq<(String, JsonValue)>, key: Seq<char>)
    ensures
        (spec_obj_get(fs, key) is Some) == exists|i: int|
            0 <= i < fs.len() && #[trigger] fs[i].0@ == key,
    decreases fs.len(),
{
    if fs.len() > 0 {
        lemma_obj_get_exists(fs.drop_first(), key);
        if fs[0].0@ == key {
        } else {
            assert forall|i: int| 0 <= i < fs.len() && #[trigger] fs[i].0@ == key implies
                spec_obj_get(fs, key) is Some by {
                assert(fs.drop_first()[i - 1].0@ == key);
            }
            if spec_obj_get(fs, key) is Some {
                let i = choose|i: int|
                    0 <= i < fs.drop_first().len() && #[trigger] fs.drop_first()[i].0@ == key;
                assert(fs[i + 1].0@ == key);
            }
        }
    }
}

/// Appending a field changes lookups only for a key that was absent and
/// matches the new field.
#[verifier::rlimit(50)]
pub(crate) proof fn lemma_obj_get_push(fs: Seq<(String, JsonValue)>, e: (String, JsonValue), key: Seq<char>)
    ensures
        spec_obj_get(fs.push(e), key) == (match spec_obj_get(fs, key) {
            Some(v) => Some(v),
            None => if e.0@ == key {
                Some(e.1)
            } else {
                None
            },
        }),
    decreases fs.len(),
{
    assert(fs.push(e).len() == fs.len() + 1);
    if fs.len() == 0 {
        assert(fs.push(e)[0] == e);
        assert(fs.push(e).drop_first() =~= Seq::<(String, JsonValue)>::empty());
        if e.0@ == key {
            assert(spec_obj_get(fs.push(e), key) == Some(e.1));
        } else {
            assert(spec_obj_get(fs.push(e), key) == spec_obj_get(fs.push(e).drop_first(), key));
            assert(spec_obj_get(fs.push(e), key) is None);
        }
        assert(spec_obj_get(fs, key) is None);
    } else {
        assert(fs.push(e)[0] == fs[0]);
        if fs[0].0@ == key {
            assert(spec_obj_get(fs, key) == Some(fs[0].1));
            assert(spec_obj_get(fs.push(e), key) == Some(fs[0].1));
        } else {
            assert(fs.push(e).drop_first() =~= fs.drop_first().push(e));
            lemma_obj_get_push(fs.drop_first(), e, key);
            assert(spec_obj_get(fs.push(e), key) == spec_obj_get(fs.drop_first().push(e), key));
        }
    }
}

proof fn lemma_obj_get_step(fs: Seq<(String, JsonValue)>, key: Seq<char>, i: int)
    requires
        0 <= i < fs.len(),
        fs[i].0@ != key,
    ensures
        spec_obj_get(fs.subrange(i, fs.len() as int), key) == spec_obj_get(
            fs.subrange(i + 1, fs.len() as int),
            key,
        ),
{
    let tail = fs.subrange(i, fs.len() as int);
    assert(tail.drop_first() =~= fs.subrange(i + 1, fs.len() as int));
}

/// Look up the first field named `key` of an object field list.
pub fn obj_get<'a>(fields: &'a Vec<(String, JsonValue)>, key: &str) -> (r: Option<
    &'a JsonValue,
>)
    ensures
        match r {
            Some(v) => spec_obj_get(fields@, key@) == Some(*v),
            None => spec_obj_get(fields@, key@) is None,
        },
{
    proof {
        assert(fields@.subrange(0, fields@.len() as int) =~= fields@);
    }
    let n: usize = fields.len();
    let mut i: usize = 0;
    while i < n
        invariant
            0 <= i <= n,
            n == fields@.len(),
            spec_obj_get(fields@, key@) == spec_obj_get(
                fields@.subrange(i as int, n as int),
                key@,
            ),
        decreases n - i,
    {
        if str_eq(fields[i].0.as_str(), key) {
            proof {
                let tail = fields@.subrange(i as int, n as int);
                assert(tail[0] == fields@[i as int]);
            }
            return Some(&fields[i].1);
        }
        proof {
            lemma_obj_get_step(fields@, key@, i as int);
        }
        i += 1;
    }
    None
}

/// Decide whether an object field list carries a field named `key`.
pub fn obj_contains(fields: &Vec<(String, JsonValue)>, key: &str) -> (r: bool)
    ensures
        r == (spec_obj_get(fields@, key@) is Some),
{
    match obj_get(fields, key) {
        Some(_) => true,
        None => false,
    }
}

impl JsonValue {
    /// Look up a field of a JSON object; `None` on any other shape.
    pub fn get<'a>(&'a self, key: &str) -> (r: Option<&'a JsonValue>)
        ensures
            match *self {
                JsonValue::Object(fs) => match r {
                    Some(v) => spec_obj_get(fs@, key@) == Some(*v),
                    None => spec_obj_get(fs@, key@) is None,
                },
                _ => r is None,
            },
    {
        match self {
            JsonValue::Object(fields) => obj_get(fields, key),
            _ => None,
        }
    }

    /// The characters of a JSON string; `None` on any other shape.
    pub fn as_str<'a>(&'a self) -> (r: Option<&'a str>)
        ensures
            match *self {
                JsonValue::String(s) => r matches Some(v) && v@ == s@,
                _ => r is None,
            },
    {
        match self {
            JsonValue::String(s) => Some(s.as_str()),
            _ => None,
        }
    }
}

} // verus!
