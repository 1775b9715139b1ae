//! The body encoder: a request body as one document or as a sequence of
//! newline-delimited entries, in canonical JSON text.
use vstd::prelude::*;
use crate::raw::RawValue;
use crate::schema::BodyContract;

verus! {

#[verifier::external_type_specification]
#[verifier::external_body]
pub struct ExJsonValue(serde_json::Value);

/// The JSON string holding this text.
pub uninterp spec fn json_of_string(s: Seq<char>) -> serde_json::Value;

/// The JSON boolean.
pub uninterp spec fn json_of_bool(b: bool) -> serde_json::Value;

/// The JSON number holding this integer.
pub uninterp spec fn json_of_int(i: int) -> serde_json::Value;

/// The JSON array of these items, in order.
pub uninterp spec fn json_of_array(items: Seq<serde_json::Value>) -> serde_json::Value;

/// The JSON object collected from these entries, in order.
pub uninterp spec fn json_of_object(entries: Seq<(Seq<char>, serde_json::Value)>) -> serde_json::Value;

/// The compact JSON text of a value.
pub uninterp spec fn json_text(v: serde_json::Value) -> Seq<char>;

/// Relies on `From<String> for serde_json::Value`, which makes a JSON string
/// of the text.
#[verifier::external_body]
fn json_string(s: String) -> (r: serde_json::Value)
    ensures
        r == json_of_string(s@),
{
    serde_json::Value::from(s)
}

/// Relies on `From<bool> for serde_json::Value`.
#[verifier::external_body]
fn json_bool(b: bool) -> (r: serde_json::Value)
    ensures
        r == json_of_bool(b),
{
    serde_json::Value::from(b)
}

/// Relies on `From<i64> for serde_json::Value`, which makes a JSON number.
#[verifier::external_body]
fn json_int(i: i64) -> (r: serde_json::Value)
    ensures
        r == json_of_int(i as int),
{
    serde_json::Value::from(i)
}

/// Relies on `From<Vec<Value>> for serde_json::Value`, which makes a JSON
/// array of the items in order.
#[verifier::external_body]
fn json_array(items: Vec<serde_json::Value>) -> (r: serde_json::Value)
    ensures
        r == json_of_array(items@),
{
    serde_json::Value::from(items)
}

/// Relies on `FromIterator<(String, Value)> for serde_json::Value`, which
/// collects the entries into a JSON object.
#[verifier::external_body]
fn json_object(entries: Vec<(String, serde_json::Value)>) -> (r: serde_json::Value)
    ensures
        r == json_of_object(entries@.map_values(|e: (String, serde_json::Value)| (e.0@, e.1))),
{
    entries.into_iter().collect()
}

/// Relies on `Display for serde_json::Value`, which writes compact JSON text.
#[verifier::external_body]
fn json_to_text(v: &serde_json::Value) -> (r: String)
    ensures
        r@ == json_text(*v),
{
    v.to_string()
}

/// The JSON document that a raw value stands for.
pub open spec fn json_value_of(r: RawValue) -> serde_json::Value
    decreases r,
{
    match r {
        RawValue::Str(s) => json_of_string(s@),
        RawValue::Bool(b) => json_of_bool(b),
        RawValue::Int(i) => json_of_int(i as int),
        RawValue::Array(items) => json_of_array(json_items(items)),
        RawValue::Hash(entries) => json_of_object(json_entries(entries)),
    }
}

/// The documents of a sequence's items, in order.
pub open spec fn json_items(items: Vec<RawValue>) -> Seq<serde_json::Value>
    decreases items,
{
    Seq::new(
        items@.len(),
        |k: int|
            if 0 <= k < items@.len() {
                json_value_of(items[k])
            } else {
                json_of_bool(false)
            },
    )
}

/// The keys and documents of a mapping's entries, in order.
pub open spec fn json_entries(entries: Vec<(String, RawValue)>) -> Seq<(Seq<char>, serde_json::Value)>
    decreases entries,
{
    Seq::new(
        entries@.len(),
        |k: int|
            if 0 <= k < entries@.len() {
                (entries[k].0@, json_value_of(entries[k].1))
            } else {
                (Seq::empty(), json_of_bool(false))
            },
    )
}

/// The canonical text of the document that a raw value stands for.
pub open spec fn document_text(r: RawValue) -> Seq<char> {
    json_text(json_value_of(r))
}

/// Builds the JSON document that a raw value stands for.
pub fn to_json(r: &RawValue) -> (v: serde_json::Value)
    ensures
        v == json_value_of(*r),
    decreases r,
{
    match r {
        RawValue::Str(s) => {
            let c = s.clone();
            json_string(c)
        },
        RawValue::Bool(b) => json_bool(*b),
        RawValue::Int(i) => json_int(*i),
        RawValue::Array(items) => {
            let mut out: Vec<serde_json::Value> = Vec::new();
            let mut i: usize = 0;
            while i < items.len()
                invariant
                    *r == RawValue::Array(*items),
                    i <= items@.len(),
                    out@.len() == i,
                    forall|k: int| 0 <= k < i ==> out@[k] == json_value_of(#[trigger] items[k]),
                decreases items@.len() - i,
            {
                proof {
                    assert(decreases_to!(*r => r->Array_0));
                    assert(decreases_to!(r->Array_0 => r->Array_0[i as int]));
                }
                out.push(to_json(&items[i]));
                i = i + 1;
            }
            assert(out@ =~= json_items(*items));
            json_array(out)
        },
        RawValue::Hash(entries) => {
            let mut out: Vec<(String, serde_json::Value)> = Vec::new();
            let mut i: usize = 0;
            while i < entries.len()
                invariant
                    *r == RawValue::Hash(*entries),
                    i <= entries@.len(),
                    out@.len() == i,
                    forall|k: int|
                        0 <= k < i ==> (#[trigger] out@[k]).0@ == entries[k].0@ && out@[k].1
                            == json_value_of(entries[k].1),
                decreases entries@.len() - i,
            {
                proof {
                    assert(decreases_to!(*r => r->Hash_0));
                    assert(decreases_to!(r->Hash_0 => r->Hash_0[i as int]));
                    assert(decreases_to!(r->Hash_0[i as int] => r->Hash_0[i as int].1));
                }
                let v = to_json(&entries[i].1);
                out.push((entries[i].0.clone(), v));
                i = i + 1;
            }
            assert(out@.map_values(|e: (String, serde_json::Value)| (e.0@, e.1)) =~= json_entries(
                *entries,
            ));
            json_object(out)
        },
    }
}

/// The canonical JSON text of the document that a raw value stands for.
pub fn encode_document(r: &RawValue) -> (t: String)
    ensures
        t@ == document_text(*r),
{
    let v = to_json(r);
    json_to_text(&v)
}


/// One entry of a newline-delimited body.
#[derive(Debug, Clone, PartialEq)]
pub enum BodyLine {
    /// A string entry, handed over as written.
    Text(String),
    /// A structured entry, as canonical JSON text.
    Document(String),
}

/// The encoded request body.
#[derive(Debug, Clone, PartialEq)]
pub enum BodyLiteral {
    /// A string body, handed over as written.
    Text(String),
    /// One structured document, as canonical JSON text.
    Document(String),
    /// A newline-delimited sequence of entries, in order.
    Lines(Vec<BodyLine>),
}

pub enum LineView {
    Text(Seq<char>),
    Document(Seq<char>),
}

pub enum BodyView {
    Text(Seq<char>),
    Document(Seq<char>),
    Lines(Seq<LineView>),
}

impl View for BodyLine {
    type V = LineView;

    open spec fn view(&self) -> LineView {
        match self {
            BodyLine::Text(s) => LineView::Text(s@),
            BodyLine::Document(s) => LineView::Document(s@),
        }
    }
}

impl View for BodyLiteral {
    type V = BodyView;

    open spec fn view(&self) -> BodyView {
        match self {
            BodyLiteral::Text(s) => BodyView::Text(s@),
            BodyLiteral::Document(s) => BodyView::Document(s@),
            BodyLiteral::Lines(v) => BodyView::Lines(v@.map_values(|l: BodyLine| l@)),
        }
    }
}

/// One entry of a newline-delimited body: strings pass unchanged, anything
/// else becomes a document.
pub open spec fn line_spec(r: RawValue) -> LineView {
    match r {
        RawValue::Str(s) => LineView::Text(s@),
        _ => LineView::Document(document_text(r)),
    }
}

/// The encoded body. A body without a contract is taken as one document.
pub open spec fn body_spec(contract: Option<BodyContract>, raw: RawValue) -> BodyView {
    if contract == Some(BodyContract::Multi) {
        match raw {
            RawValue::Array(items) => BodyView::Lines(items@.map_values(|x: RawValue| line_spec(x))),
            _ => BodyView::Lines(seq![line_spec(raw)]),
        }
    } else {
        match raw {
            RawValue::Str(s) => BodyView::Text(s@),
            _ => BodyView::Document(document_text(raw)),
        }
    }
}

fn encode_line(r: &RawValue) -> (l: BodyLine)
    ensures
        l@ == line_spec(*r),
{
    match r {
        RawValue::Str(s) => BodyLine::Text(s.clone()),
        _ => BodyLine::Document(encode_document(r)),
    }
}

/// Encodes a body for the endpoint's contract.
pub fn encode_body(contract: Option<BodyContract>, raw: &RawValue) -> (b: BodyLiteral)
    ensures
        b@ == body_spec(contract, *raw),
{
    let multi = match contract {
        Some(BodyContract::Multi) => true,
        _ => false,
    };
    if multi {
        match raw {
            RawValue::Array(items) => {
                let mut out: Vec<BodyLine> = Vec::new();
                let mut i: usize = 0;
                while i < items.len()
                    invariant
                        i <= items@.len(),
                        out@.len() == i,
                        forall|k: int| 0 <= k < i ==> (#[trigger] out@[k])@ == line_spec(items@[k]),
                    decreases items@.len() - i,
                {
                    out.push(encode_line(&items[i]));
                    i = i + 1;
                }
                assert(out@.map_values(|l: BodyLine| l@) =~= items@.map_values(
                    |x: RawValue| line_spec(x),
                ));
                BodyLiteral::Lines(out)
            },
            _ => {
                let v = vec![encode_line(raw)];
                assert(v@.map_values(|l: BodyLine| l@) =~= seq![line_spec(*raw)]);
                BodyLiteral::Lines(v)
            },
        }
    } else {
        match raw {
            RawValue::Str(s) => BodyLiteral::Text(s.clone()),
            _ => BodyLiteral::Document(encode_document(raw)),
        }
    }
}

} // verus!
