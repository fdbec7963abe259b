//! JSON field extraction, delegated to serde_json.

use vstd::prelude::*;

verus! {

/// The error message that a JSON body carries under
/// `{"error":{"message":...}}`, if the body parses and the field is a
/// string.
pub uninterp spec fn error_message_of(body: Seq<char>) -> Option<Seq<char>>;

/// Relies on serde_json::from_str (to a serde_json::Value) and
/// serde_json::Value::get / Value::as_str: whether the body parses and
/// what its `error.message` field holds depend on the body text alone.
#[verifier::external_body]
pub(crate) fn parse_error_message(body: &str) -> (r: Option<String>)
    ensures
        (match r {
            Some(m) => error_message_of(body@) == Some(m@),
            None => error_message_of(body@) is None,
        }),
{
    let v: serde_json::Value = match serde_json::from_str(body) {
        Ok(v) => v,
        Err(_) => return None,
    };
    match v.get("error") {
        Some(e) => match e.get("message") {
            Some(m) => m.as_str().map(|s| s.to_string()),
            None => None,
        },
        None => None,
    }
}

} // verus!
