use vstd::prelude::*;

use crate::json::{json_view, Json, JsonValue};
use crate::float::{f64_text, parse_f64_text};
use crate::number::{int_text, int_to_string, parse_int, parsed_int};
use crate::text::{push_char, push_str};

verus! {

#[verifier::external_type_specification]
#[verifier::external_body]
pub struct ExSerdeJsonValue(serde_json::Value);

/// A JSON document as `serde_json` hands it over: each number kept as the text that
/// `serde_json::Number` writes for it, or as an `i64` where this library wrote one.
pub enum JsonDoc {
    Null,
    Bool(bool),
    Int(i64),
    Number(String),
    Str(String),
    Array(Vec<JsonDoc>),
    Object(Vec<(String, JsonDoc)>),
}

/// The mathematical value of a `JsonDoc`.
#[verifier::ext_equal]
pub enum JsonDocModel {
    Null,
    Bool(bool),
    Int(int),
    Number(Seq<char>),
    Str(Seq<char>),
    Array(Seq<JsonDocModel>),
    Object(Seq<(Seq<char>, JsonDocModel)>),
}

pub open spec fn doc_view(d: JsonDoc) -> JsonDocModel
    decreases d,
{
    match d {
        JsonDoc::Null => JsonDocModel::Null,
        JsonDoc::Bool(b) => JsonDocModel::Bool(b),
        JsonDoc::Int(i) => JsonDocModel::Int(i as int),
        JsonDoc::Number(t) => JsonDocModel::Number(t@),
        JsonDoc::Str(s) => JsonDocModel::Str(s@),
        JsonDoc::Array(items) => JsonDocModel::Array(
            Seq::new(items@.len(), |i: int| if 0 <= i < items@.len() { doc_view(items@[i]) } else { JsonDocModel::Null }),
        ),
        JsonDoc::Object(fields) => JsonDocModel::Object(
            Seq::new(fields@.len(), |i: int| if 0 <= i < fields@.len() { (fields@[i].0@, doc_view(fields@[i].1)) } else { (Seq::empty(), JsonDocModel::Null) }),
        ),
    }
}

impl View for JsonDoc {
    type V = JsonDocModel;

    open spec fn view(&self) -> JsonDocModel {
        doc_view(*self)
    }
}

/// A number text read into this library's JSON model: an `i64` where the text is one, else
/// the decimal that `f64_text` reads (its mantissa cut to its first significant digits).
pub open spec fn number_json(t: Seq<char>) -> Json {
    match parsed_int(t) {
        Some(i) => Json::Int(i),
        None => match f64_text(t) {
            Some(j) => j,
            None => Json::Null,
        },
    }
}

/// A document as this library's JSON model.
pub open spec fn doc_json(d: JsonDocModel) -> Json
    decreases d,
{
    match d {
        JsonDocModel::Null => Json::Null,
        JsonDocModel::Bool(b) => Json::Bool(b),
        JsonDocModel::Int(i) => Json::Int(i),
        JsonDocModel::Number(t) => number_json(t),
        JsonDocModel::Str(s) => Json::Str(s),
        JsonDocModel::Array(items) => Json::Array(
            Seq::new(items.len(), |i: int| if 0 <= i < items.len() { doc_json(items[i]) } else { Json::Null }),
        ),
        JsonDocModel::Object(fields) => Json::Object(
            Seq::new(fields.len(), |i: int| if 0 <= i < fields.len() { (fields[i].0, doc_json(fields[i].1)) } else { (Seq::empty(), Json::Null) }),
        ),
    }
}

/// The text this library writes for `mantissa * 10^exponent`.
pub open spec fn decimal_text(m: int, e: int) -> Seq<char> {
    int_text(m) + seq!['e'] + int_text(e)
}

/// A value of this library's JSON model as a document to hand to `serde_json`.
pub open spec fn json_doc(v: Json) -> JsonDocModel
    decreases v,
{
    match v {
        Json::Null => JsonDocModel::Null,
        Json::Bool(b) => JsonDocModel::Bool(b),
        Json::Int(i) => JsonDocModel::Int(i),
        Json::Decimal(m, e) => JsonDocModel::Number(decimal_text(m, e)),
        Json::Str(s) => JsonDocModel::Str(s),
        Json::Array(items) => JsonDocModel::Array(
            Seq::new(items.len(), |i: int| if 0 <= i < items.len() { json_doc(items[i]) } else { JsonDocModel::Null }),
        ),
        Json::Object(fields) => JsonDocModel::Object(
            Seq::new(fields.len(), |i: int| if 0 <= i < fields.len() { (fields[i].0, json_doc(fields[i].1)) } else { (Seq::empty(), JsonDocModel::Null) }),
        ),
    }
}

/// The document that `serde_json::from_str::<serde_json::Value>` reads from `text`
/// (None where the text is not JSON).
pub uninterp spec fn json_text_doc(text: Seq<char>) -> Option<JsonDocModel>;

/// The text that `serde_json::Value::to_string` writes for a document.
pub uninterp spec fn json_doc_text(d: JsonDocModel) -> Seq<char>;

/// Takes a `serde_json::Value` over, one variant for one, each number as its text
/// (`Display` of `serde_json::Number`).
#[verifier::external_body]
fn doc_of_serde(v: &serde_json::Value) -> JsonDoc {
    match v {
        serde_json::Value::Null => JsonDoc::Null,
        serde_json::Value::Bool(b) => JsonDoc::Bool(*b),
        serde_json::Value::Number(n) => JsonDoc::Number(n.to_string()),
        serde_json::Value::String(s) => JsonDoc::Str(s.clone()),
        serde_json::Value::Array(a) => JsonDoc::Array(a.iter().map(doc_of_serde).collect()),
        serde_json::Value::Object(o) => JsonDoc::Object(o.iter().map(|(k, x)| (k.clone(), doc_of_serde(x))).collect()),
    }
}

/// Parses JSON text with `serde_json::from_str`.
#[verifier::external_body]
fn parse_json_doc(text: &str) -> (r: Option<JsonDoc>)
    ensures
        match r {
            Some(d) => json_text_doc(text@) == Some(d@),
            None => json_text_doc(text@) is None,
        },
{
    serde_json::from_str::<serde_json::Value>(text).ok().map(|v| doc_of_serde(&v))
}

/// Hands a document to `serde_json`, one variant for one: an `i64` as itself, a number text
/// as the `serde_json::Number` that its `FromStr` reads (null where it reads none).
#[verifier::external_body]
fn serde_of_doc(d: &JsonDoc) -> serde_json::Value {
    match d {
        JsonDoc::Null => serde_json::Value::Null,
        JsonDoc::Bool(b) => serde_json::Value::Bool(*b),
        JsonDoc::Int(i) => serde_json::Value::from(*i),
        JsonDoc::Number(t) => serde_json::Value::from(t.parse::<serde_json::Number>().ok()),
        JsonDoc::Str(s) => serde_json::Value::String(s.clone()),
        JsonDoc::Array(a) => serde_json::Value::Array(a.iter().map(serde_of_doc).collect()),
        JsonDoc::Object(o) => serde_json::Value::Object(o.iter().map(|(k, x)| (k.clone(), serde_of_doc(x))).collect()),
    }
}

/// Writes a document as JSON text with `serde_json::Value::to_string`.
#[verifier::external_body]
fn doc_to_text(d: &JsonDoc) -> (r: String)
    ensures
        r@ == json_doc_text(d@),
{
    serde_of_doc(d).to_string()
}

/// A number text read into this library's JSON model.
fn number_value(t: &str) -> (r: JsonValue)
    ensures
        r@ == number_json(t@),
{
    match parse_int(t) {
        Some(i) => JsonValue::Int(i),
        None => match parse_f64_text(t) {
            Some(v) => v,
            None => JsonValue::Null,
        },
    }
}

/// A document read into this library's JSON model.
fn doc_value(d: &JsonDoc) -> (r: JsonValue)
    ensures
        r@ == doc_json(d@),
    decreases d,
{
    match d {
        JsonDoc::Null => JsonValue::Null,
        JsonDoc::Bool(b) => JsonValue::Bool(*b),
        JsonDoc::Int(i) => JsonValue::Int(*i),
        JsonDoc::Number(t) => number_value(t.as_str()),
        JsonDoc::Str(s) => JsonValue::Str(s.clone()),
        JsonDoc::Array(items) => {
            let mut out: Vec<JsonValue> = Vec::new();
            let mut i: usize = 0;
            while i < items.len()
                invariant
                    *d == JsonDoc::Array(*items),
                    i <= items.len(),
                    out@.len() == i,
                    forall|j: int| 0 <= j < i ==> json_view(#[trigger] out@[j]) == doc_json(doc_view(items@[j])),
                decreases items.len() - i,
            {
                proof {
                    vstd::std_specs::vec::axiom_vec_index_decreases(*items, i as int);
                    assert(decreases_to!(*d => (*d)->Array_0));
                    assert(decreases_to!(*d => items[i as int]));
                }
                let c = doc_value(&items[i]);
                out.push(c);
                i = i + 1;
            }
            let r = JsonValue::Array(out);
            assert(json_view(r)->Array_0 =~= doc_json(doc_view(*d))->Array_0);
            r
        },
        JsonDoc::Object(fields) => {
            let mut out: Vec<(String, JsonValue)> = Vec::new();
            let mut i: usize = 0;
            while i < fields.len()
                invariant
                    *d == JsonDoc::Object(*fields),
                    i <= fields.len(),
                    out@.len() == i,
                    forall|j: int| 0 <= j < i ==> (#[trigger] out@[j]).0@ == fields@[j].0@
                        && json_view(out@[j].1) == doc_json(doc_view(fields@[j].1)),
                decreases fields.len() - i,
            {
                let k = fields[i].0.clone();
                proof {
                    vstd::std_specs::vec::axiom_vec_index_decreases(*fields, i as int);
                    assert(decreases_to!(*d => (*d)->Object_0));
                    assert(decreases_to!(fields[i as int] => fields[i as int].1));
                    assert(decreases_to!(*d => fields[i as int].1));
                }
                let c = doc_value(&fields[i].1);
                out.push((k, c));
                i = i + 1;
            }
            let r = JsonValue::Object(out);
            assert(json_view(r)->Object_0 =~= doc_json(doc_view(*d))->Object_0);
            r
        },
    }
}

/// A value of this library's JSON model as a document for `serde_json`.
fn value_doc(v: &JsonValue) -> (r: JsonDoc)
    ensures
        r@ == json_doc(v@),
    decreases v,
{
    match v {
        JsonValue::Null => JsonDoc::Null,
        JsonValue::Bool(b) => JsonDoc::Bool(*b),
        JsonValue::Int(i) => JsonDoc::Int(*i),
        JsonValue::Decimal(m, e) => {
            let mut t = int_to_string(*m);
            push_char(&mut t, 'e');
            push_str(&mut t, int_to_string(*e as i64).as_str());
            JsonDoc::Number(t)
        },
        JsonValue::Str(s) => JsonDoc::Str(s.clone()),
        JsonValue::Array(items) => {
            let mut out: Vec<JsonDoc> = Vec::new();
            let mut i: usize = 0;
            while i < items.len()
                invariant
                    *v == JsonValue::Array(*items),
                    i <= items.len(),
                    out@.len() == i,
                    forall|j: int| 0 <= j < i ==> doc_view(#[trigger] out@[j]) == json_doc(json_view(items@[j])),
                decreases items.len() - i,
            {
                proof {
                    vstd::std_specs::vec::axiom_vec_index_decreases(*items, i as int);
                    assert(decreases_to!(*v => (*v)->Array_0));
                    assert(decreases_to!(*v => items[i as int]));
                }
                let c = value_doc(&items[i]);
                out.push(c);
                i = i + 1;
            }
            let r = JsonDoc::Array(out);
            assert(doc_view(r)->Array_0 =~= json_doc(json_view(*v))->Array_0);
            r
        },
        JsonValue::Object(fields) => {
            let mut out: Vec<(String, JsonDoc)> = Vec::new();
            let mut i: usize = 0;
            while i < fields.len()
                invariant
                    *v == JsonValue::Object(*fields),
                    i <= fields.len(),
                    out@.len() == i,
                    forall|j: int| 0 <= j < i ==> (#[trigger] out@[j]).0@ == fields@[j].0@
                        && doc_view(out@[j].1) == json_doc(json_view(fields@[j].1)),
                decreases fields.len() - i,
            {
                let k = fields[i].0.clone();
                proof {
                    vstd::std_specs::vec::axiom_vec_index_decreases(*fields, i as int);
                    assert(decreases_to!(*v => (*v)->Object_0));
                    assert(decreases_to!(fields[i as int] => fields[i as int].1));
                    assert(decreases_to!(*v => fields[i as int].1));
                }
                let c = value_doc(&fields[i].1);
                out.push((k, c));
                i = i + 1;
            }
            let r = JsonDoc::Object(out);
            assert(doc_view(r)->Object_0 =~= json_doc(json_view(*v))->Object_0);
            r
        },
    }
}

/// The document that `serde_json` reads from `text`, in this library's JSON model.
pub open spec fn json_text_value(text: Seq<char>) -> Option<Json> {
    match json_text_doc(text) {
        Some(d) => Some(doc_json(d)),
        None => None,
    }
}

/// Parses JSON text with `serde_json::from_str` and reads its numbers.
pub fn parse_json_text(text: &str) -> (r: Option<JsonValue>)
    ensures
        match r {
            Some(v) => json_text_value(text@) == Some(v@),
            None => json_text_value(text@) is None,
        },
{
    match parse_json_doc(text) {
        Some(d) => Some(doc_value(&d)),
        None => None,
    }
}

/// The text that `serde_json` writes for a value of this library's JSON model.
pub open spec fn json_serialized(v: Json) -> Seq<char> {
    json_doc_text(json_doc(v))
}

/// Writes a value as JSON text with `serde_json`.
pub fn json_to_text(v: &JsonValue) -> (r: String)
    ensures
        r@ == json_serialized(v@),
{
    let d = value_doc(v);
    doc_to_text(&d)
}

/// `json_value_string`: a string as itself, an integer in decimal, anything else as JSON text.
pub open spec fn value_text(v: Json) -> Seq<char> {
    match v {
        Json::Str(s) => s,
        Json::Int(i) => crate::number::int_text(i),
        _ => json_serialized(v),
    }
}

/// The text of a JSON value, when there is one.
pub fn json_value_string(v: Option<&JsonValue>) -> (r: Option<String>)
    ensures
        match v {
            Some(x) => r matches Some(s) && s@ == value_text(x@),
            None => r is None,
        },
{
    match v {
        Some(JsonValue::Str(s)) => Some(s.clone()),
        Some(JsonValue::Int(i)) => Some(crate::number::int_to_string(*i)),
        Some(x) => Some(json_to_text(x)),
        None => None,
    }
}

} // verus!
