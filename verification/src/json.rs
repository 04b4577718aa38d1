//! The library's own model of a parsed JSON document.
//!
//! The service's JSON generation is decoded into this tree once, by a single
//! trusted call into the `serde_json` crate; everything that reads fields out
//! of the tree is verified against the mathematical view `JsonV`.
//!
//! Numbers that fit in `u64` are kept numeric; any other number (negative or
//! fractional) is kept as its decimal text, since the library reads only
//! unsigned integers and passes other numbers through untouched.

use vstd::prelude::*;

use crate::error::{TvdbError, TvdbResult};

verus! {

/// One parsed JSON value.
#[derive(Debug)]
pub enum Json {
    Null,
    Bool(bool),
    UInt(u64),
    NumText(String),
    Str(String),
    Arr(Vec<Json>),
    Obj(Vec<(String, Json)>),
}

/// The mathematical value of a `Json` tree: the same shape over `Seq`.
pub ghost enum JsonV {
    Null,
    Bool(bool),
    UInt(u64),
    NumText(Seq<char>),
    Str(Seq<char>),
    Arr(Seq<JsonV>),
    Obj(Seq<(Seq<char>, JsonV)>),
}

/// The view of a `Json` tree.
pub open spec fn jv(j: Json) -> JsonV
    decreases j,
{
    match j {
        Json::Null => JsonV::Null,
        Json::Bool(b) => JsonV::Bool(b),
        Json::UInt(u) => JsonV::UInt(u),
        Json::NumText(s) => JsonV::NumText(s@),
        Json::Str(s) => JsonV::Str(s@),
        Json::Arr(v) => JsonV::Arr(jv_seq(v@)),
        Json::Obj(v) => JsonV::Obj(jv_entries(v@)),
    }
}

/// The views of the elements of a JSON array.
pub open spec fn jv_seq(s: Seq<Json>) -> Seq<JsonV>
    decreases s,
{
    if s.len() == 0 {
        Seq::empty()
    } else {
        seq![jv(s[0])] + jv_seq(s.drop_first())
    }
}

/// The views of the key/value entries of a JSON object.
pub open spec fn jv_entries(s: Seq<(String, Json)>) -> Seq<(Seq<char>, JsonV)>
    decreases s,
{
    if s.len() == 0 {
        Seq::empty()
    } else {
        seq![(s[0].0@, jv(s[0].1))] + jv_entries(s.drop_first())
    }
}

pub proof fn lemma_jv_seq_index(s: Seq<Json>)
    ensures
        jv_seq(s).len() == s.len(),
        forall|i: int| 0 <= i < s.len() ==> jv_seq(s)[i] == jv(#[trigger] s[i]),
    decreases s.len(),
{
    if s.len() > 0 {
        lemma_jv_seq_index(s.drop_first());
        assert forall|i: int| 0 <= i < s.len() implies jv_seq(s)[i] == jv(#[trigger] s[i]) by {
            if i > 0 {
                assert(s.drop_first()[i - 1] == s[i]);
            }
        }
    }
}

pub proof fn lemma_jv_entries_index(s: Seq<(String, Json)>)
    ensures
        jv_entries(s).len() == s.len(),
        forall|i: int| 0 <= i < s.len()
            ==> jv_entries(s)[i] == ((#[trigger] s[i]).0@, jv(s[i].1)),
    decreases s.len(),
{
    if s.len() > 0 {
        lemma_jv_entries_index(s.drop_first());
        assert forall|i: int| 0 <= i < s.len()
            implies jv_entries(s)[i] == ((#[trigger] s[i]).0@, jv(s[i].1)) by {
            if i > 0 {
                assert(s.drop_first()[i - 1] == s[i]);
            }
        }
    }
}

/// The value under the first entry of `es` whose key is `key`.
pub open spec fn entries_lookup(es: Seq<(Seq<char>, JsonV)>, key: Seq<char>) -> Option<JsonV>
    decreases es.len(),
{
    if es.len() == 0 {
        None
    } else if es[0].0 == key {
        Some(es[0].1)
    } else {
        entries_lookup(es.drop_first(), key)
    }
}

/// The value under `key` if `v` is an object holding that key.
pub open spec fn obj_get(v: JsonV, key: Seq<char>) -> Option<JsonV> {
    match v {
        JsonV::Obj(es) => entries_lookup(es, key),
        _ => None,
    }
}

proof fn lemma_entries_lookup_at(es: Seq<(Seq<char>, JsonV)>, key: Seq<char>, i: int)
    requires
        0 <= i < es.len(),
        es[i].0 == key,
        forall|m: int| 0 <= m < i ==> (#[trigger] es[m]).0 != key,
    ensures
        entries_lookup(es, key) == Some(es[i].1),
    decreases i,
{
    if i > 0 {
        lemma_entries_lookup_at(es.drop_first(), key, i - 1);
    }
}

proof fn lemma_entries_lookup_none(es: Seq<(Seq<char>, JsonV)>, key: Seq<char>)
    requires
        forall|m: int| 0 <= m < es.len() ==> (#[trigger] es[m]).0 != key,
    ensures
        entries_lookup(es, key) is None,
    decreases es.len(),
{
    if es.len() > 0 {
        lemma_entries_lookup_none(es.drop_first(), key);
    }
}

/// A JSON number as received: numeric when it fits in `u64`, otherwise its
/// decimal text.
#[derive(Debug, Clone)]
pub enum Number {
    UInt(u64),
    Text(String),
}

/// The mathematical value of a `Number`.
pub ghost enum NumberV {
    UInt(u64),
    Text(Seq<char>),
}

/// The view of a `Number`.
pub open spec fn num_view(n: Number) -> NumberV {
    match n {
        Number::UInt(u) => NumberV::UInt(u),
        Number::Text(s) => NumberV::Text(s@),
    }
}

impl Json {
    /// Look up a key in a JSON object; `None` when this value is not an
    /// object or the key is absent.
    pub fn get<'a>(&'a self, key: &str) -> (r: Option<&'a Json>)
        ensures
            match r {
                Some(x) => obj_get(jv(*self), key@) == Some(jv(*x)),
                None => obj_get(jv(*self), key@) is None,
            },
    {
        match self {
            Json::Obj(es) => {
                let k: String = key.to_owned();
                let ghost ges = jv_entries(es@);
                proof {
                    lemma_jv_entries_index(es@);
                }
                let mut i: usize = 0;
                while i < es.len()
                    invariant
                        0 <= i <= es@.len(),
                        ges == jv_entries(es@),
                        jv(*self) == JsonV::Obj(ges),
                        ges.len() == es@.len(),
                        forall|m: int| 0 <= m < es@.len()
                            ==> #[trigger] ges[m] == (es@[m].0@, jv(es@[m].1)),
                        forall|m: int| 0 <= m < i ==> (#[trigger] ges[m]).0 != key@,
                        k@ == key@,
                    decreases es@.len() - i,
                {
                    if es[i].0.eq(&k) {
                        proof {
                            lemma_entries_lookup_at(ges, key@, i as int);
                        }
                        return Some(&es[i].1);
                    }
                    i = i + 1;
                }
                proof {
                    lemma_entries_lookup_none(ges, key@);
                }
                None
            },
            _ => None,
        }
    }
}

/// An optional text field: absent or `null` is `None`; any other shape than
/// a string is a malformed field (the outer `None`).
pub open spec fn spec_opt_str(v: JsonV, key: Seq<char>) -> Option<Option<Seq<char>>> {
    match obj_get(v, key) {
        Option::None => Some(None),
        Option::Some(JsonV::Null) => Some(None),
        Option::Some(JsonV::Str(s)) => Some(Some(s)),
        Option::Some(_) => None,
    }
}

/// An optional unsigned integer field that must fit in `u32`.
pub open spec fn spec_opt_u32(v: JsonV, key: Seq<char>) -> Option<Option<u32>> {
    match obj_get(v, key) {
        Option::None => Some(None),
        Option::Some(JsonV::Null) => Some(None),
        Option::Some(JsonV::UInt(u)) => if u <= u32::MAX {
            Some(Some(u as u32))
        } else {
            None
        },
        Option::Some(_) => None,
    }
}

/// An optional numeric field, kept as received.
pub open spec fn spec_opt_num(v: JsonV, key: Seq<char>) -> Option<Option<NumberV>> {
    match obj_get(v, key) {
        Option::None => Some(None),
        Option::Some(JsonV::Null) => Some(None),
        Option::Some(JsonV::UInt(u)) => Some(Some(NumberV::UInt(u))),
        Option::Some(JsonV::NumText(s)) => Some(Some(NumberV::Text(s))),
        Option::Some(_) => None,
    }
}

/// The texts of an array of JSON strings; `None` if any element is not a
/// string.
pub open spec fn spec_str_seq(es: Seq<JsonV>) -> Option<Seq<Seq<char>>>
    decreases es.len(),
{
    if es.len() == 0 {
        Some(Seq::empty())
    } else {
        match (es[0], spec_str_seq(es.drop_first())) {
            (JsonV::Str(s), Option::Some(rest)) => Some(seq![s] + rest),
            _ => None,
        }
    }
}

/// An optional list-of-texts field.
pub open spec fn spec_opt_str_list(v: JsonV, key: Seq<char>) -> Option<Option<Seq<Seq<char>>>> {
    match obj_get(v, key) {
        Option::None => Some(None),
        Option::Some(JsonV::Null) => Some(None),
        Option::Some(JsonV::Arr(es)) => match spec_str_seq(es) {
            Option::Some(l) => Some(Some(l)),
            Option::None => None,
        },
        Option::Some(_) => None,
    }
}

/// A required text field: anything but a string under the key is a failure.
pub open spec fn spec_req_str(v: JsonV, key: Seq<char>) -> Option<Seq<char>> {
    match obj_get(v, key) {
        Option::Some(JsonV::Str(s)) => Some(s),
        _ => None,
    }
}

/// The view of an optional owned string.
pub open spec fn opt_str_view(o: Option<String>) -> Option<Seq<char>> {
    match o {
        Option::None => None,
        Option::Some(s) => Some(s@),
    }
}

/// The view of an optional list of owned strings.
pub open spec fn opt_str_list_view(o: Option<Vec<String>>) -> Option<Seq<Seq<char>>> {
    match o {
        Option::None => None,
        Option::Some(v) => Some(v.deep_view()),
    }
}

/// The view of an optional number.
pub open spec fn opt_num_view(o: Option<Number>) -> Option<NumberV> {
    match o {
        Option::None => None,
        Option::Some(n) => Some(num_view(n)),
    }
}

/// Only the reason text is pinned here; `String` values themselves are
/// opaque, so the error is characterised through the reason's view.
pub open spec fn is_field_error(e: TvdbError, key: Seq<char>) -> bool {
    e matches TvdbError::DataError { reason } && reason@ == field_error_reason(key)
}

pub open spec fn field_error_reason(key: Seq<char>) -> Seq<char> {
    "Malformed or missing field: "@ + key
}

fn field_error(key: &str) -> (r: TvdbError)
    ensures
        is_field_error(r, key@),
{
    let mut reason = "Malformed or missing field: ".to_owned();
    reason.append(key);
    TvdbError::DataError { reason }
}

/// Read an optional text field out of a JSON object.
pub fn opt_str_field(j: &Json, key: &str) -> (r: TvdbResult<Option<String>>)
    ensures
        match spec_opt_str(jv(*j), key@) {
            Option::Some(o) => r matches Ok(ro) && opt_str_view(ro) == o,
            Option::None => r matches Err(e) && is_field_error(e, key@),
        },
{
    match j.get(key) {
        Option::None => Ok(None),
        Option::Some(Json::Null) => Ok(None),
        Option::Some(Json::Str(s)) => Ok(Some(s.clone())),
        Option::Some(_) => Err(field_error(key)),
    }
}

/// Read an optional unsigned-integer field out of a JSON object.
pub fn opt_u32_field(j: &Json, key: &str) -> (r: TvdbResult<Option<u32>>)
    ensures
        match spec_opt_u32(jv(*j), key@) {
            Option::Some(o) => r matches Ok(ro) && ro == o,
            Option::None => r matches Err(e) && is_field_error(e, key@),
        },
{
    match j.get(key) {
        Option::None => Ok(None),
        Option::Some(Json::Null) => Ok(None),
        Option::Some(Json::UInt(u)) => {
            if *u <= u32::MAX as u64 {
                Ok(Some(*u as u32))
            } else {
                Err(field_error(key))
            }
        },
        Option::Some(_) => Err(field_error(key)),
    }
}

/// Read an optional numeric field out of a JSON object, kept as received.
pub fn opt_num_field(j: &Json, key: &str) -> (r: TvdbResult<Option<Number>>)
    ensures
        match spec_opt_num(jv(*j), key@) {
            Option::Some(o) => r matches Ok(ro) && opt_num_view(ro) == o,
            Option::None => r matches Err(e) && is_field_error(e, key@),
        },
{
    match j.get(key) {
        Option::None => Ok(None),
        Option::Some(Json::Null) => Ok(None),
        Option::Some(Json::UInt(u)) => Ok(Some(Number::UInt(*u))),
        Option::Some(Json::NumText(s)) => Ok(Some(Number::Text(s.clone()))),
        Option::Some(_) => Err(field_error(key)),
    }
}

proof fn lemma_str_seq_some(es: Seq<JsonV>, out: Seq<Seq<char>>)
    requires
        es.len() == out.len(),
        forall|m: int| 0 <= m < es.len()
            ==> (#[trigger] es[m] matches JsonV::Str(s) && out[m] == s),
    ensures
        spec_str_seq(es) == Some(out),
    decreases es.len(),
{
    if es.len() > 0 {
        lemma_str_seq_some(es.drop_first(), out.drop_first());
        assert(es[0] matches JsonV::Str(s) && out[0] == s);
        assert(seq![out[0]] + out.drop_first() =~= out);
    } else {
        assert(out =~= Seq::<Seq<char>>::empty());
    }
}

proof fn lemma_str_seq_none(es: Seq<JsonV>, i: int)
    requires
        0 <= i < es.len(),
        !(es[i] is Str),
    ensures
        spec_str_seq(es) is None,
    decreases i,
{
    if i > 0 {
        lemma_str_seq_none(es.drop_first(), i - 1);
    }
}

/// Read an optional list-of-texts field out of a JSON object.
pub fn opt_str_list_field(j: &Json, key: &str) -> (r: TvdbResult<Option<Vec<String>>>)
    ensures
        match spec_opt_str_list(jv(*j), key@) {
            Option::Some(o) => r matches Ok(ro) && opt_str_list_view(ro) == o,
            Option::None => r matches Err(e) && is_field_error(e, key@),
        },
{
    match j.get(key) {
        Option::None => Ok(None),
        Option::Some(Json::Null) => Ok(None),
        Option::Some(Json::Arr(es)) => {
            let ghost ges = jv_seq(es@);
            proof {
                lemma_jv_seq_index(es@);
            }
            let mut out: Vec<String> = Vec::new();
            let mut i: usize = 0;
            while i < es.len()
                invariant
                    0 <= i <= es@.len(),
                    ges == jv_seq(es@),
                    obj_get(jv(*j), key@) == Some(JsonV::Arr(ges)),
                    ges.len() == es@.len(),
                    forall|m: int| 0 <= m < es@.len() ==> #[trigger] ges[m] == jv(es@[m]),
                    out@.len() == i,
                    forall|m: int| 0 <= m < i
                        ==> (#[trigger] ges[m] matches JsonV::Str(s) && out.deep_view()[m] == s),
                decreases es@.len() - i,
            {
                match &es[i] {
                    Json::Str(s) => {
                        out.push(s.clone());
                    },
                    _ => {
                        proof {
                            lemma_str_seq_none(ges, i as int);
                        }
                        return Err(field_error(key));
                    },
                }
                i = i + 1;
            }
            proof {
                lemma_str_seq_some(ges, out.deep_view());
            }
            Ok(Some(out))
        },
        Option::Some(_) => Err(field_error(key)),
    }
}

/// Read a required text field out of a JSON object; fails with a `DataError`
/// naming the field when it is absent or not a string.
pub fn req_str_field(j: &Json, key: &str) -> (r: TvdbResult<String>)
    ensures
        match spec_req_str(jv(*j), key@) {
            Option::Some(s) => r matches Ok(rs) && rs@ == s,
            Option::None => r matches Err(e) && is_field_error(e, key@),
        },
{
    match j.get(key) {
        Option::Some(Json::Str(s)) => Ok(s.clone()),
        _ => Err(field_error(key)),
    }
}


/// Declares `serde_json::Value` so that the decode wrappers below may take
/// and return it.
#[verifier::external_type_specification]
#[verifier::external_body]
pub struct ExValue(serde_json::Value);

/// The JSON tree that a text decodes to, `None` when the text is not valid
/// JSON.  This names the result of `serde_json::from_str`, which is a
/// function of the text alone; nothing here says what the tree is for a
/// given text, so concrete decodes are checked only through the verified
/// readers above.
pub uninterp spec fn json_of(s: Seq<char>) -> Option<JsonV>;

/// Relies on `serde_json::from_str::<Value>`: decoding is deterministic in
/// the input text, and fails exactly when the text is not valid JSON.  The
/// body only makes the call and rebuilds the result as the library's tree.
#[verifier::external_body]
pub(crate) fn decode_json(s: &str) -> (r: Result<Json, String>)
    ensures
        r matches Ok(j) ==> json_of(s@) == Some(jv(j)),
        r is Ok <==> json_of(s@) is Some,
{
    match serde_json::from_str::<serde_json::Value>(s) {
        Ok(v) => Ok(lift_value(&v)),
        Err(e) => Err(e.to_string()),
    }
}

/// Relies on the public variants of `serde_json::Value`: converts a decoded
/// value into the library's own tree, one arm per variant, keeping numbers
/// that fit `u64` numeric and any other number as its decimal text.
#[verifier::external_body]
fn lift_value(v: &serde_json::Value) -> Json {
    match v {
        serde_json::Value::Null => Json::Null,
        serde_json::Value::Bool(b) => Json::Bool(*b),
        serde_json::Value::Number(n) => match n.as_u64() {
            Some(u) => Json::UInt(u),
            None => Json::NumText(n.to_string()),
        },
        serde_json::Value::String(s) => Json::Str(s.clone()),
        serde_json::Value::Array(a) => Json::Arr(a.iter().map(lift_value).collect()),
        serde_json::Value::Object(m) => {
            Json::Obj(m.iter().map(|(k, x)| (k.clone(), lift_value(x))).collect())
        },
    }
}

} // verus!
