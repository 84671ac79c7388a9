//! The two places where JSON text is read or written, both through serde_json.
use vstd::prelude::*;

verus! {

/// The string member `key` of the JSON object written in `text`, as serde_json
/// reads it; `None` where the text is not JSON, not an object, has no such
/// member, or the member is not a string.
pub uninterp spec fn json_member_string(text: Seq<char>, key: Seq<char>) -> Option<Seq<char>>;

/// The JSON string literal that serde_json writes for `s`, quotes included.
pub uninterp spec fn json_quoted(s: Seq<char>) -> Seq<char>;

/// A character that JSON writes inside a string literal as it is.
pub open spec fn is_unescaped_json_char(c: char) -> bool {
    c != '"' && c != '\\' && (c as u32) >= 0x20
}

/// Relies on `serde_json::from_str` into a `serde_json::Value` and on
/// `Value::get`: parse `text`, look up the member `key`, keep it if it holds a
/// string.
#[verifier::external_body]
pub(crate) fn string_member(text: &str, key: &str) -> (r: Option<String>)
    ensures
        match r {
            Some(s) => json_member_string(text@, key@) == Some(s@),
            None => json_member_string(text@, key@).is_none(),
        },
{
    let v: serde_json::Value = match serde_json::from_str(text) {
        Ok(v) => v,
        Err(_) => return None,
    };
    match v.get(key) {
        Some(serde_json::Value::String(s)) => Some(s.clone()),
        _ => None,
    }
}

/// Relies on `serde_json::to_string` on a `str`: the text between double
/// quotes, where only `"`, `\` and control characters are escaped.
#[verifier::external_body]
pub(crate) fn quote_json(s: &str) -> (r: String)
    ensures
        r@ == json_quoted(s@),
        (forall|i: int| 0 <= i < s@.len() ==> is_unescaped_json_char(#[trigger] s@[i]))
            ==> r@ == seq!['"'] + s@ + seq!['"'],
{
    match serde_json::to_string(s) {
        Ok(t) => t,
        Err(_) => String::new(),
    }
}

} // verus!
