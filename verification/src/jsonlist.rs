//! JSON text stored by the service: lists of strings, and option objects.

use vstd::prelude::*;
use serde_json::Value;
use crate::text::decimal;

verus! {

/// `serde_json::from_str::<Vec<String>>`: the list of strings that the
/// text spells, or the text of the parse error.
pub uninterp spec fn string_list_json(raw: Seq<char>) -> Result<Seq<Seq<char>>, Seq<char>>;

/// Reads a JSON list of strings (`serde_json::from_str::<Vec<String>>`).
/// The result, and the error's message, are named `string_list_json` of
/// the text.
#[verifier::external_body]
pub(crate) fn read_string_list(raw: &str) -> (r: Result<Vec<String>, String>)
    ensures
        match string_list_json(raw@) {
            Ok(l) => r matches Ok(v) && v@.map_values(|x: String| x@) == l,
            Err(e) => r matches Err(m) && m@ == e,
        },
{
    serde_json::from_str::<Vec<String>>(raw).map_err(|e| e.to_string())
}

/// The strings of a stored list, or none when the text does not read as a
/// list (`unwrap_or_default`).
pub open spec fn stored_list(raw: Seq<char>) -> Seq<Seq<char>> {
    match string_list_json(raw) {
        Ok(l) => l,
        Err(_) => Seq::empty(),
    }
}

/// The strings of a stored list, or none.
pub fn stored_strings(raw: &str) -> (r: Vec<String>)
    ensures
        r@.map_values(|x: String| x@) == stored_list(raw@),
{
    match read_string_list(raw) {
        Ok(v) => v,
        Err(_) => {
            let v: Vec<String> = Vec::new();
            assert(v@.map_values(|x: String| x@) =~= Seq::<Seq<char>>::empty());
            v
        },
    }
}

/// What the top of a JSON text is: an object (its members, each with its
/// value written back as compact JSON), null, an array, a string, a
/// number, a boolean, or text that does not parse.
pub enum JsonTop {
    Object(Seq<(Seq<char>, Seq<char>)>),
    Null,
    Array,
    Str,
    Number,
    Bool,
    Invalid,
}

/// `serde_json::from_str::<Value>`, read as `JsonTop`: an object gives its
/// members in `serde_json`'s order with each value written by
/// `Value::to_string`; every other `Value` variant, and a parse error,
/// gives its own variant.
pub uninterp spec fn json_top(text: Seq<char>) -> JsonTop;

/// A JSON string literal for the text (`Value::String(..).to_string()`).
pub uninterp spec fn json_string_text(s: Seq<char>) -> Seq<char>;

/// The top of a JSON text, with strings.
pub enum JsonTopRead {
    Object(Vec<(String, String)>),
    Null,
    Array,
    Str,
    Number,
    Bool,
    Invalid,
}

/// The members of an object, as texts.
pub open spec fn member_texts(v: Seq<(String, String)>) -> Seq<(Seq<char>, Seq<char>)> {
    v.map_values(|p: (String, String)| (p.0@, p.1@))
}

impl View for JsonTopRead {
    type V = JsonTop;

    open spec fn view(&self) -> JsonTop {
        match self {
            JsonTopRead::Object(v) => JsonTop::Object(member_texts(v@)),
            JsonTopRead::Null => JsonTop::Null,
            JsonTopRead::Array => JsonTop::Array,
            JsonTopRead::Str => JsonTop::Str,
            JsonTopRead::Number => JsonTop::Number,
            JsonTopRead::Bool => JsonTop::Bool,
            JsonTopRead::Invalid => JsonTop::Invalid,
        }
    }
}

/// Parses a JSON text with `serde_json::from_str::<Value>` and reports its
/// top; the result is named `json_top`. The value texts of an object's
/// members are written by `to_string`, so they read back as JSON.
#[verifier::external_body]
pub(crate) fn read_json_top(text: &str) -> (r: JsonTopRead)
    ensures
        r@ == json_top(text@),
        r@ matches JsonTop::Object(m) ==> values_read(m),
{
    match serde_json::from_str::<Value>(text) {
        Ok(Value::Object(m)) => JsonTopRead::Object(m.into_iter().map(|(k, v)| (k, v.to_string())).collect()),
        Ok(Value::Null) => JsonTopRead::Null,
        Ok(Value::Array(_)) => JsonTopRead::Array,
        Ok(Value::String(_)) => JsonTopRead::Str,
        Ok(Value::Number(_)) => JsonTopRead::Number,
        Ok(Value::Bool(_)) => JsonTopRead::Bool,
        Err(_) => JsonTopRead::Invalid,
    }
}

/// Writes a text as a JSON string literal with `serde_json`; the result
/// is named `json_string_text`, and reads back as JSON.
#[verifier::external_body]
pub(crate) fn json_string(s: &str) -> (r: String)
    ensures
        r@ == json_string_text(s@),
        reads_as_json(r@),
{
    Value::String(s.to_string()).to_string()
}

/// The text reads as JSON (`serde_json::from_str::<Value>` succeeds).
pub open spec fn reads_as_json(text: Seq<char>) -> bool {
    !(json_top(text) is Invalid)
}

/// Every member's value reads as JSON.
pub open spec fn values_read(members: Seq<(Seq<char>, Seq<char>)>) -> bool {
    forall|i: int| 0 <= i < members.len() ==> reads_as_json(#[trigger] members[i].1)
}

/// An integer as JSON writes it: its decimal digits, after a minus sign
/// when it is negative.
pub open spec fn int_text(x: int) -> Seq<char> {
    if x < 0 {
        seq!['-'] + decimal((-x) as nat)
    } else {
        decimal(x as nat)
    }
}

/// Writes an integer as JSON with `serde_json` (`Value::from(x).to_string()`):
/// its decimal digits, which read back as JSON.
#[verifier::external_body]
pub(crate) fn json_int(x: i32) -> (r: String)
    ensures
        r@ == int_text(x as int),
        reads_as_json(r@),
{
    Value::from(x).to_string()
}

/// Writes JSON `null` with `serde_json` (`Value::Null.to_string()`).
#[verifier::external_body]
pub(crate) fn json_null() -> (r: String)
    ensures
        r@ == "null"@,
        reads_as_json(r@),
{
    Value::Null.to_string()
}

/// What `serde_json` writes for the object with these members, each value
/// given as JSON text; none when a value does not read as JSON.
pub uninterp spec fn json_object(members: Seq<(Seq<char>, Seq<char>)>) -> Option<Seq<char>>;

/// Writes the JSON object with the given members with `serde_json`: each
/// value is read with `serde_json::from_str::<Value>` and put into a
/// `Map` under its key, and the object is written with `to_string`. The
/// result is named `json_object` of the members; it is there whenever
/// every value reads as JSON.
#[verifier::external_body]
pub(crate) fn write_object(entries: &Vec<(String, String)>) -> (r: Option<String>)
    ensures
        match json_object(member_texts(entries@)) {
            Some(t) => r matches Some(s) && s@ == t,
            None => r is None,
        },
        values_read(member_texts(entries@)) ==> r is Some,
{
    let mut m = serde_json::Map::new();
    for (k, v) in entries {
        m.insert(k.clone(), serde_json::from_str::<Value>(v).ok()?);
    }
    Some(Value::Object(m).to_string())
}

} // verus!
