//! JSON documents as plain values, with exact lookups, and the calls into
//! `serde_json` that read and write JSON text.
use vstd::prelude::*;
use crate::text::str_eq;
use serde_json::Value;

verus! {

/// A JSON number, as `serde_json` distinguishes them: a non-negative integer, a
/// negative integer, or a floating-point value held as the decimal text that
/// `serde_json` prints for it.
#[derive(Debug, Clone, PartialEq, Eq)]
pub enum JsonNumber {
    PosInt(u64),
    NegInt(i64),
    Float(String),
}

/// A JSON document held as plain values. Object members keep their order.
#[derive(Debug, PartialEq, Eq)]
pub enum Json {
    Null,
    Bool(bool),
    Number(JsonNumber),
    Str(String),
    Array(Vec<Json>),
    Object(Vec<(String, Json)>),
}

/// The mathematical model of a JSON number.
pub enum JsonNumberV {
    PosInt(u64),
    NegInt(i64),
    Float(Seq<char>),
}

/// The mathematical model of a JSON document.
pub enum JsonV {
    Null,
    Bool(bool),
    Number(JsonNumberV),
    Str(Seq<char>),
    Array(Seq<JsonV>),
    Object(Seq<(Seq<char>, JsonV)>),
}

impl JsonNumber {
    pub open spec fn model(self) -> JsonNumberV {
        match self {
            JsonNumber::PosInt(u) => JsonNumberV::PosInt(u),
            JsonNumber::NegInt(i) => JsonNumberV::NegInt(i),
            JsonNumber::Float(t) => JsonNumberV::Float(t@),
        }
    }
}

/// Documents that writing as JSON and parsing give back unchanged: no floating-point
/// numbers, `NegInt` only for negative integers (a non-negative one is read back as
/// `PosInt`), and distinct member names in every object.
pub open spec fn plain_json(j: JsonV) -> bool
    decreases j,
{
    match j {
        JsonV::Number(JsonNumberV::Float(_)) => false,
        JsonV::Number(JsonNumberV::NegInt(i)) => i < 0,
        JsonV::Array(a) => forall|i: int| 0 <= i < a.len() ==> plain_json(#[trigger] a[i]),
        JsonV::Object(es) => {
            &&& forall|i: int, k: int| 0 <= i < k < es.len() ==> #[trigger] es[i].0 != #[trigger] es[k].0
            &&& forall|i: int| 0 <= i < es.len() ==> plain_json(#[trigger] es[i].1)
        },
        _ => true,
    }
}

/// Documents whose arrays and objects nest at most `n` deep.
pub open spec fn within_depth(j: JsonV, n: nat) -> bool
    decreases j,
{
    match j {
        JsonV::Array(a) => n > 0 && forall|i: int| 0 <= i < a.len() ==> within_depth(#[trigger] a[i], (n - 1) as nat),
        JsonV::Object(es) => n > 0 && forall|i: int| 0 <= i < es.len() ==> within_depth(#[trigger] es[i].1, (n - 1) as nat),
        _ => true,
    }
}

/// The deepest nesting of arrays and objects that `serde_json` parses: it refuses a 128th
/// level.
pub const MAX_PARSE_DEPTH: u64 = 127;

impl Json {
    pub open spec fn model(self) -> JsonV
        decreases self,
    {
        match self {
            Json::Null => JsonV::Null,
            Json::Bool(b) => JsonV::Bool(b),
            Json::Number(n) => JsonV::Number(n.model()),
            Json::Str(s) => JsonV::Str(s@),
            Json::Array(v) => JsonV::Array(
                Seq::new(
                    v@.len(),
                    |i: int|
                        if 0 <= i < v@.len() {
                            v@[i].model()
                        } else {
                            JsonV::Null
                        },
                ),
            ),
            Json::Object(v) => JsonV::Object(
                Seq::new(
                    v@.len(),
                    |i: int|
                        if 0 <= i < v@.len() {
                            (v@[i].0@, v@[i].1.model())
                        } else {
                            (Seq::empty(), JsonV::Null)
                        },
                ),
            ),
        }
    }
}

/// The model of an optional document.
pub open spec fn opt_model(o: Option<&Json>) -> Option<JsonV> {
    match o {
        Some(j) => Some(j.model()),
        None => None,
    }
}

/// The value of the first member named `key`, if any.
pub open spec fn entries_lookup(es: Seq<(Seq<char>, JsonV)>, key: Seq<char>) -> Option<JsonV>
    decreases es.len(),
{
    if es.len() == 0 {
        None
    } else if es[0].0 == key {
        Some(es[0].1)
    } else {
        entries_lookup(es.drop_first(), key)
    }
}

/// What `Value::get(key)` gives: the member `key` of an object, nothing for any other value.
pub open spec fn field(j: JsonV, key: Seq<char>) -> Option<JsonV> {
    match j {
        JsonV::Object(es) => entries_lookup(es, key),
        _ => None,
    }
}

/// `field` through an optional document.
pub open spec fn opt_field(o: Option<JsonV>, key: Seq<char>) -> Option<JsonV> {
    match o {
        Some(j) => field(j, key),
        None => None,
    }
}

/// The text of a string value, through an optional document.
pub open spec fn opt_str(o: Option<JsonV>) -> Option<Seq<char>> {
    match o {
        Some(JsonV::Str(s)) => Some(s),
        _ => None,
    }
}

/// The truth value of a boolean value, through an optional document.
pub open spec fn opt_bool(o: Option<JsonV>) -> Option<bool> {
    match o {
        Some(JsonV::Bool(b)) => Some(b),
        _ => None,
    }
}

/// The elements of an array value, through an optional document.
pub open spec fn opt_array(o: Option<JsonV>) -> Option<Seq<JsonV>> {
    match o {
        Some(JsonV::Array(a)) => Some(a),
        _ => None,
    }
}

/// `o.unwrap_or(d)` on optional text.
pub open spec fn text_or(o: Option<Seq<char>>, d: Seq<char>) -> Seq<char> {
    match o {
        Some(s) => s,
        None => d,
    }
}

/// A decimal literal in JSON's number grammar whose value is finite: one to eight
/// digits without a superfluous leading zero, a point, one to eight digits.
pub open spec fn short_decimal(t: Seq<char>) -> bool {
    exists|p: int|
        #![trigger t[p]]
        1 <= p <= 8 && p + 1 < t.len() <= p + 9 && t[p] == '.' && (p > 1 ==> t[0] != '0') && (forall|i: int|
            0 <= i < t.len() && i != p ==> '0' <= #[trigger] t[i] <= '9')
}

/// Documents that can be written as JSON text: every floating-point number is a short decimal.
pub open spec fn writable(j: JsonV) -> bool
    decreases j,
{
    match j {
        JsonV::Number(JsonNumberV::Float(t)) => short_decimal(t),
        JsonV::Array(a) => forall|i: int| 0 <= i < a.len() ==> writable(#[trigger] a[i]),
        JsonV::Object(es) => forall|i: int| 0 <= i < es.len() ==> writable(#[trigger] es[i].1),
        _ => true,
    }
}

impl Json {
    /// `Value::get`: the member named `key` of an object.
    pub fn get<'a>(&'a self, key: &str) -> (r: Option<&'a Json>)
        ensures
            opt_model(r) == field(self.model(), key@),
    {
        match self {
            Json::Object(es) => {
                let ghost ms = match self.model() {
                    JsonV::Object(ms) => ms,
                    _ => Seq::empty(),
                };
                assert(ms.len() == es@.len());
                assert(ms.skip(0) =~= ms);
                assert(self.model() == JsonV::Object(ms));
                let mut i: usize = 0;
                while i < es.len()
                    invariant
                        i <= es@.len(),
                        self.model() == JsonV::Object(ms),
                        ms.len() == es@.len(),
                        forall|k: int| 0 <= k < es@.len() ==> #[trigger] ms[k] == (es@[k].0@, es@[k].1.model()),
                        entries_lookup(ms, key@) == entries_lookup(ms.skip(i as int), key@),
                    decreases es@.len() - i,
                {
                    let ghost rest = ms.skip(i as int);
                    assert(rest[0] == ms[i as int]);
                    assert(rest.drop_first() =~= ms.skip(i + 1));
                    if str_eq(es[i].0.as_str(), key) {
                        assert(ms[i as int] == (es@[i as int].0@, es@[i as int].1.model()));
                        assert(entries_lookup(rest, key@) == Some(rest[0].1));
                        return Some(&es[i].1);
                    }
                    i = i + 1;
                }
                assert(ms.skip(i as int).len() == 0);
                None
            },
            _ => None,
        }
    }

    /// `Value::as_str`: the text of a string value.
    pub fn as_str(&self) -> (r: Option<&str>)
        ensures
            match r {
                Some(s) => opt_str(Some(self.model())) == Some(s@),
                None => opt_str(Some(self.model())) is None,
            },
    {
        match self {
            Json::Str(s) => Some(s.as_str()),
            _ => None,
        }
    }

    /// `Value::as_bool`: the truth value of a boolean value.
    pub fn as_bool(&self) -> (r: Option<bool>)
        ensures
            r == opt_bool(Some(self.model())),
    {
        match self {
            Json::Bool(b) => Some(*b),
            _ => None,
        }
    }

    /// `Value::as_array`: the elements of an array value.
    pub fn as_array(&self) -> (r: Option<&Vec<Json>>)
        ensures
            match r {
                Some(v) => opt_array(Some(self.model())) == Some(
                    Seq::new(v@.len(), |i: int| v@[i].model()),
                ),
                None => opt_array(Some(self.model())) is None,
            },
    {
        match self {
            Json::Array(v) => {
                proof {
                    let a = Seq::new(
                        v@.len(),
                        |i: int|
                            if 0 <= i < v@.len() {
                                v@[i].model()
                            } else {
                                JsonV::Null
                            },
                    );
                    assert(a =~= Seq::new(v@.len(), |i: int| v@[i].model()));
                }
                Some(v)
            },
            _ => None,
        }
    }
}

/// `and_then(|x| x.get(key))` on an optional document.
pub fn opt_get<'a>(o: Option<&'a Json>, key: &str) -> (r: Option<&'a Json>)
    ensures
        opt_model(r) == opt_field(opt_model(o), key@),
{
    match o {
        Some(j) => j.get(key),
        None => None,
    }
}

/// `and_then(|x| x.as_str())` on an optional document.
pub fn opt_as_str<'a>(o: Option<&'a Json>) -> (r: Option<&'a str>)
    ensures
        match r {
            Some(s) => opt_str(opt_model(o)) == Some(s@),
            None => opt_str(opt_model(o)) is None,
        },
{
    match o {
        Some(j) => j.as_str(),
        None => None,
    }
}

/// `and_then(|x| x.as_bool())` on an optional document.
pub fn opt_as_bool(o: Option<&Json>) -> (r: Option<bool>)
    ensures
        r == opt_bool(opt_model(o)),
{
    match o {
        Some(j) => j.as_bool(),
        None => None,
    }
}

/// The model of a parse outcome.
pub open spec fn parsed_model(r: Result<Json, String>) -> Result<JsonV, Seq<char>> {
    match r {
        Ok(j) => Ok(j.model()),
        Err(e) => Err(e@),
    }
}

/// The model of a write outcome to bytes.
pub open spec fn bytes_model(r: Result<Vec<u8>, String>) -> Result<Seq<u8>, Seq<char>> {
    match r {
        Ok(b) => Ok(b@),
        Err(e) => Err(e@),
    }
}

/// The UTF-8 bytes of written text.
pub open spec fn bytes_after_text(r: Result<String, String>) -> Result<Seq<u8>, Seq<char>> {
    match r {
        Ok(t) => Ok(vstd::utf8::encode_utf8(t@)),
        Err(e) => Err(e@),
    }
}

/// The model of a write outcome to text.
pub open spec fn text_model(r: Result<String, String>) -> Result<Seq<char>, Seq<char>> {
    match r {
        Ok(t) => Ok(t@),
        Err(e) => Err(e@),
    }
}

/// What `serde_json::from_slice::<Value>` gives for these bytes: the document, or the
/// text of the error it reports.
pub uninterp spec fn json_decoded(bytes: Seq<u8>) -> Result<JsonV, Seq<char>>;

/// What `serde_json::to_vec` gives for this document: its JSON text as bytes, or the
/// text of the error it reports.
pub uninterp spec fn json_encoded(doc: JsonV) -> Result<Seq<u8>, Seq<char>>;

/// What `serde_json::to_string` gives for this document: its JSON text, or the text of
/// the error it reports.
pub uninterp spec fn json_rendered(doc: JsonV) -> Result<Seq<char>, Seq<char>>;

/// Parses JSON text.
/// Trusted: `serde_json::from_slice::<serde_json::Value>`, whose outcome is a function of
/// the bytes (`json_decoded`). It reads back what `serde_json::to_vec` wrote for a plain
/// document: strings and integers are written so that the parser reads the same value,
/// objects keep their member order (the `preserve_order` feature), and nesting up to the
/// parser's recursion limit of 127 levels is accepted (serde_json's `de.rs`,
/// `remaining_depth: 128`). The `Value` is converted member by member into a `Json`.
#[verifier::external_body]
pub(crate) fn parse_json(bytes: &[u8]) -> (r: Result<Json, String>)
    ensures
        parsed_model(r) == json_decoded(bytes@),
        forall|j: JsonV| (parsed_model(r) == Ok::<JsonV, Seq<char>>(j)) <== (#[trigger] json_encoded(j) == Ok::<Seq<u8>, Seq<char>>(bytes@) && plain_json(j) && within_depth(j, MAX_PARSE_DEPTH as nat)),
{
    match serde_json::from_slice::<Value>(bytes) {
        Ok(v) => Ok(json_from_value(v)),
        Err(e) => Err(e.to_string()),
    }
}

/// Writes a document as JSON bytes.
/// Trusted: `serde_json::to_vec` on the `Value` that the document converts to, whose
/// outcome is a function of the document (`json_encoded`); writing a `Value` into a
/// `Vec<u8>` never fails (its map keys are strings and the vector takes every write).
#[verifier::external_body]
pub(crate) fn json_to_vec(doc: &Json) -> (r: Result<Vec<u8>, String>)
    requires
        writable(doc.model()),
    ensures
        bytes_model(r) == json_encoded(doc.model()),
        r is Ok,
{
    serde_json::to_vec(&json_into_value(doc)).map_err(|e| e.to_string())
}

/// Writes a document as JSON text.
/// Trusted: `serde_json::to_string` on the `Value` that the document converts to, whose
/// outcome is a function of the document (`json_rendered`). It is `to_vec` followed by
/// taking the bytes as UTF-8 (serde_json's `ser.rs`), so it does not fail and its text
/// is what `to_vec` writes.
#[verifier::external_body]
pub(crate) fn json_to_string(doc: &Json) -> (r: Result<String, String>)
    requires
        writable(doc.model()),
    ensures
        text_model(r) == json_rendered(doc.model()),
        r is Ok,
        json_encoded(doc.model()) == bytes_after_text(r),
{
    serde_json::to_string(&json_into_value(doc)).map_err(|e| e.to_string())
}

/// `serde_json::Value`, which the JSON calls produce and consume; opaque here.
#[verifier::external_type_specification]
#[verifier::external_body]
pub struct ExJsonValue(serde_json::Value);

/// Converts a `serde_json::Value` into a `Json`, variant by variant (part of `parse_json`).
#[verifier::external_body]
fn json_from_value(v: Value) -> Json {
    match v {
        Value::Null => Json::Null,
        Value::Bool(b) => Json::Bool(b),
        Value::Number(n) => Json::Number(match (n.as_u64(), n.as_i64()) {
            (Some(u), _) => JsonNumber::PosInt(u),
            (None, Some(i)) => JsonNumber::NegInt(i),
            (None, None) => JsonNumber::Float(n.to_string()),
        }),
        Value::String(s) => Json::Str(s),
        Value::Array(a) => Json::Array(a.into_iter().map(json_from_value).collect()),
        Value::Object(m) => Json::Object(m.into_iter().map(|(k, x)| (k, json_from_value(x))).collect()),
    }
}

/// Converts a `Json` into a `serde_json::Value`, variant by variant (part of the writers).
#[verifier::external_body]
fn json_into_value(j: &Json) -> Value {
    match j {
        Json::Null => Value::Null,
        Json::Bool(b) => Value::Bool(*b),
        Json::Number(JsonNumber::PosInt(u)) => Value::from(*u),
        Json::Number(JsonNumber::NegInt(i)) => Value::from(*i),
        Json::Number(JsonNumber::Float(t)) => t.parse::<serde_json::Number>().map_or(Value::Null, Value::Number),
        Json::Str(s) => Value::String(s.clone()),
        Json::Array(a) => Value::Array(a.iter().map(json_into_value).collect()),
        Json::Object(m) => Value::Object(m.iter().map(|(k, x)| (k.clone(), json_into_value(x))).collect()),
    }
}

/// The model of object members.
pub open spec fn members_model(ms: Seq<(String, Json)>) -> Seq<(Seq<char>, JsonV)> {
    Seq::new(ms.len(), |i: int| (ms[i].0@, ms[i].1.model()))
}

/// The model of array elements.
pub open spec fn elements_model(es: Seq<Json>) -> Seq<JsonV> {
    Seq::new(es.len(), |i: int| es[i].model())
}

/// The model of an object is the model of its members.
pub proof fn lemma_object_model(ms: Vec<(String, Json)>)
    ensures
        Json::Object(ms).model() == JsonV::Object(members_model(ms@)),
{
    let j = Json::Object(ms);
    let x = match j.model() {
        JsonV::Object(x) => x,
        _ => Seq::empty(),
    };
    assert(j.model() == JsonV::Object(x));
    assert(x =~= members_model(ms@));
}

/// The model of an array is the model of its elements.
pub proof fn lemma_array_model(es: Vec<Json>)
    ensures
        Json::Array(es).model() == JsonV::Array(elements_model(es@)),
{
    let j = Json::Array(es);
    let x = match j.model() {
        JsonV::Array(x) => x,
        _ => Seq::empty(),
    };
    assert(j.model() == JsonV::Array(x));
    assert(x =~= elements_model(es@));
}

/// A string value.
pub fn json_str(s: &str) -> (j: Json)
    ensures
        j.model() == JsonV::Str(s@),
{
    Json::Str(s.to_owned())
}

/// A non-negative integer value.
pub fn json_uint(u: u64) -> (j: Json)
    ensures
        j.model() == JsonV::Number(JsonNumberV::PosInt(u)),
{
    Json::Number(JsonNumber::PosInt(u))
}

/// An object member.
pub fn member(key: &str, value: Json) -> (m: (String, Json))
    ensures
        m.0@ == key@,
        m.1 == value,
{
    (key.to_owned(), value)
}

} // verus!
