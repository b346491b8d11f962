//! A model of the JSON configuration values the gateway's submission API
//! moves around, and the merge rule applied to them: caller-supplied overrides
//! are folded into the stored defaults, key by key. Numbers are carried as
//! their literal text, which this gateway never does arithmetic on.

use vstd::prelude::*;

verus! {

broadcast use vstd::std_specs::vec::group_vec_axioms;

/// One key/value pair of a JSON object.
#[derive(Debug, PartialEq)]
pub struct JsonField {
    pub key: String,
    pub value: JsonValue,
}

/// A JSON value. A number keeps its literal text.
#[derive(Debug, PartialEq)]
pub enum JsonValue {
    Null,
    Bool(bool),
    Num(String),
    Str(String),
    Arr(Vec<JsonValue>),
    Obj(Vec<JsonField>),
}

/// Structural equality of two JSON values: same shape, same keys in the same
/// order, same text.
pub open spec fn json_eq(a: JsonValue, b: JsonValue) -> bool
    decreases a,
{
    match (a, b) {
        (JsonValue::Null, JsonValue::Null) => true,
        (JsonValue::Bool(x), JsonValue::Bool(y)) => x == y,
        (JsonValue::Num(x), JsonValue::Num(y)) => x@ == y@,
        (JsonValue::Str(x), JsonValue::Str(y)) => x@ == y@,
        (JsonValue::Arr(x), JsonValue::Arr(y)) => x@.len() == y@.len() && (forall|i: int|
            0 <= i < x@.len() ==> json_eq(#[trigger] x@[i], y@[i])),
        (JsonValue::Obj(x), JsonValue::Obj(y)) => x@.len() == y@.len() && (forall|i: int|
            0 <= i < x@.len() ==> (#[trigger] x@[i]).key@ == y@[i].key@ && json_eq(
                x@[i].value,
                y@[i].value,
            )),
        _ => false,
    }
}

/// The value of the first field named `k`, if any.
pub open spec fn lookup(fs: Seq<JsonField>, k: Seq<char>) -> Option<JsonValue>
    decreases fs.len(),
{
    if fs.len() == 0 {
        None
    } else if fs[0].key@ == k {
        Some(fs[0].value)
    } else {
        lookup(fs.skip(1), k)
    }
}

/// The merge rule, as a relation between the defaults `t`, the overrides `s`,
/// and the outcome `r`. When both are objects, `r` has exactly `t`'s keys in
/// `t`'s order; a key absent from `s` keeps `t`'s value, a key present in both
/// merges recursively when both values are objects and otherwise takes `s`'s
/// value; keys only in `s` are dropped. When either side is not an object the
/// outcome is `t` unchanged.
pub open spec fn merged(t: JsonValue, s: JsonValue, r: JsonValue) -> bool
    decreases t,
{
    match (t, s) {
        (JsonValue::Obj(tf), JsonValue::Obj(sf)) => match r {
            JsonValue::Obj(rf) => rf@.len() == tf@.len() && (forall|i: int|
                0 <= i < tf@.len() ==> (#[trigger] rf@[i]).key@ == tf@[i].key@ && (match lookup(
                    sf@,
                    tf@[i].key@,
                ) {
                    Option::None => json_eq(rf@[i].value, tf@[i].value),
                    Option::Some(sv) => if tf@[i].value is Obj && sv is Obj {
                        merged(tf@[i].value, sv, rf@[i].value)
                    } else {
                        json_eq(rf@[i].value, sv)
                    },
                })),
            _ => false,
        },
        _ => json_eq(r, t),
    }
}

/// An exact copy of a JSON value.
#[verifier::loop_isolation(false)]
pub fn deep_clone(v: &JsonValue) -> (r: JsonValue)
    ensures
        json_eq(r, *v),
    decreases *v,
{
    match v {
        JsonValue::Null => JsonValue::Null,
        JsonValue::Bool(b) => JsonValue::Bool(*b),
        JsonValue::Num(s) => JsonValue::Num(s.clone()),
        JsonValue::Str(s) => JsonValue::Str(s.clone()),
        JsonValue::Arr(items) => {
            let n = items.len();
            let mut out: Vec<JsonValue> = Vec::new();
            let mut i: usize = 0;
            while i < n
                invariant
                    n == items@.len(),
                    0 <= i <= n,
                    out@.len() == i,
                    forall|j: int| 0 <= j < i ==> json_eq(#[trigger] out@[j], items@[j]),
                decreases n - i,
            {
                out.push(deep_clone(&items[i]));
                i += 1;
            }
            JsonValue::Arr(out)
        },
        JsonValue::Obj(fields) => {
            let n = fields.len();
            let mut out: Vec<JsonField> = Vec::new();
            let mut i: usize = 0;
            while i < n
                invariant
                    n == fields@.len(),
                    0 <= i <= n,
                    out@.len() == i,
                    forall|j: int|
                        0 <= j < i ==> (#[trigger] out@[j]).key@ == fields@[j].key@ && json_eq(
                            out@[j].value,
                            fields@[j].value,
                        ),
                decreases n - i,
            {
                out.push(
                    JsonField { key: fields[i].key.clone(), value: deep_clone(&fields[i].value) },
                );
                i += 1;
            }
            JsonValue::Obj(out)
        },
    }
}

/// The value of the first field named `k`, if any.
fn find_value<'a>(fs: &'a Vec<JsonField>, k: &String) -> (r: Option<&'a JsonValue>)
    ensures
        r matches Some(v) ==> lookup(fs@, k@) == Some(*v),
        r is None ==> lookup(fs@, k@) is None,
{
    let n = fs.len();
    let mut j: usize = 0;
    proof {
        assert(fs@.skip(0) =~= fs@);
    }
    while j < n
        invariant
            n == fs@.len(),
            0 <= j <= n,
            lookup(fs@, k@) == lookup(fs@.skip(j as int), k@),
        decreases n - j,
    {
        proof {
            assert(fs@.skip(j as int)[0] == fs@[j as int]);
            assert(fs@.skip(j as int).skip(1) =~= fs@.skip(j as int + 1));
        }
        if fs[j].key == *k {
            return Some(&fs[j].value);
        }
        j += 1;
    }
    proof {
        assert(fs@.skip(n as int).len() == 0);
    }
    None
}

/// Whether a value is an object.
fn is_obj(v: &JsonValue) -> (r: bool)
    ensures
        r == (*v is Obj),
{
    match v {
        JsonValue::Obj(_) => true,
        _ => false,
    }
}

/// Merge caller overrides into default configuration: only keys already
/// present in the defaults are overridden, nested objects merge recursively,
/// and keys only in the overrides are dropped.
#[verifier::loop_isolation(false)]
pub fn merge_json(target: &JsonValue, source: &JsonValue) -> (r: JsonValue)
    ensures
        merged(*target, *source, r),
    decreases *target,
{
    match (target, source) {
        (JsonValue::Obj(tf), JsonValue::Obj(sf)) => {
            let n = tf.len();
            let mut out: Vec<JsonField> = Vec::new();
            let mut i: usize = 0;
            while i < n
                invariant
                    n == tf@.len(),
                    0 <= i <= n,
                    out@.len() == i,
                    forall|j: int|
                        0 <= j < i ==> (#[trigger] out@[j]).key@ == tf@[j].key@ && (match lookup(
                            sf@,
                            tf@[j].key@,
                        ) {
                            Option::None => json_eq(out@[j].value, tf@[j].value),
                            Option::Some(sv) => if tf@[j].value is Obj && sv is Obj {
                                merged(tf@[j].value, sv, out@[j].value)
                            } else {
                                json_eq(out@[j].value, sv)
                            },
                        }),
                decreases n - i,
            {
                let value = match find_value(sf, &tf[i].key) {
                    None => deep_clone(&tf[i].value),
                    Some(sv) => {
                        if is_obj(&tf[i].value) && is_obj(sv) {
                            merge_json(&tf[i].value, sv)
                        } else {
                            deep_clone(sv)
                        }
                    },
                };
                out.push(JsonField { key: tf[i].key.clone(), value });
                i += 1;
            }
            JsonValue::Obj(out)
        },
        _ => deep_clone(target),
    }
}

/// The string value of `field` in `raw` read as JSON, if `raw` parses and the
/// field holds a string; the outcome is a function of the two arguments alone.
pub uninterp spec fn string_field_of(raw: Seq<char>, field: Seq<char>) -> Option<Seq<char>>;

/// Relies on `serde_json::from_str`, `serde_json::Value::get` and
/// `serde_json::Value::as_str`: parses `raw` as JSON and hands back the value
/// of `field` when that value is a string, and nothing otherwise.
#[verifier::external_body]
pub(crate) fn string_field(raw: &str, field: &str) -> (r: Option<String>)
    ensures
        (r is Some) == (string_field_of(raw@, field@) is Some),
        r matches Some(t) ==> string_field_of(raw@, field@) == Some(t@),
{
    match serde_json::from_str::<serde_json::Value>(raw) {
        Ok(v) => v.get(field).and_then(|f| f.as_str()).map(|t| t.to_string()),
        Err(_) => None,
    }
}

} // verus!
