//! JSON values and texts, through serde_json.
//!
//! A JSON value is carried through this library unchanged; what serde_json
//! makes of a text, and the text it prints for a value, are named here.

use vstd::prelude::*;

verus! {

#[verifier::external_type_specification]
#[verifier::external_body]
pub struct ExJsonValue(serde_json::Value);

/// What serde_json reads from a text: the value, or the message of its error
/// where the text is not one JSON document.
pub uninterp spec fn read_json(text: Seq<char>) -> Result<serde_json::Value, Seq<char>>;

/// The multi-line, indented text that serde_json prints for a value.
pub uninterp spec fn pretty_json(v: serde_json::Value) -> Seq<char>;

/// The text `null`.
pub open spec fn null_text() -> Seq<char> {
    seq!['n', 'u', 'l', 'l']
}

/// The JSON `null` value: what the text `null` reads as.
pub open spec fn json_null() -> serde_json::Value {
    match read_json(null_text()) {
        Ok(v) => v,
        Err(_) => arbitrary(),
    }
}

/// Relies on serde_json::from_str::<serde_json::Value>, with its error shown
/// through `Display`: it accepts exactly the texts that hold one JSON
/// document, and both the value and the message depend on the text alone.
#[verifier::external_body]
pub(crate) fn parse_json(text: &str) -> (r: Result<serde_json::Value, String>)
    ensures
        match r {
            Ok(v) => read_json(text@) == Ok::<serde_json::Value, Seq<char>>(v),
            Err(m) => read_json(text@) == Err::<serde_json::Value, Seq<char>>(m@),
        },
{
    match serde_json::from_str(text) {
        Ok(v) => Ok(v),
        Err(e) => Err(e.to_string()),
    }
}

/// Relies on serde_json::to_string_pretty on a serde_json::Value: it never
/// fails (map keys are strings, numbers are finite, the output is a `Vec`),
/// and the printed text depends on the value alone.
#[verifier::external_body]
pub(crate) fn print_json_pretty(v: &serde_json::Value) -> (r: Result<String, String>)
    ensures
        match r {
            Ok(s) => s@ == pretty_json(*v),
            Err(_) => false,
        },
{
    match serde_json::to_string_pretty(v) {
        Ok(s) => Ok(s),
        Err(e) => Err(e.to_string()),
    }
}

/// Relies on serde_json::Value::Null, the value that serde_json::from_str
/// reads from the text `null`.
#[verifier::external_body]
pub(crate) fn null_json() -> (r: serde_json::Value)
    ensures
        match read_json(null_text()) {
            Ok(n) => n == r,
            Err(_) => false,
        },
{
    serde_json::Value::Null
}

} // verus!
