use vstd::prelude::*;

verus! {

/// The string held by member `key` of the JSON object written in `body`;
/// `None` when `body` is no JSON object or that member is absent or not a
/// string.
pub uninterp spec fn json_member_str(body: Seq<char>, key: Seq<char>) -> Option<Seq<char>>;

/// Relies on `serde_json::from_str::<serde_json::Value>` to parse `body`,
/// then on `Value::get` and `Value::as_str` to read member `key` as a string.
#[verifier::external_body]
pub(crate) fn member_str(body: &str, key: &str) -> (r: Option<String>)
    ensures
        match r {
            Some(s) => json_member_str(body@, key@) == Some(s@),
            None => json_member_str(body@, key@) == None::<Seq<char>>,
        },
{
    let value = serde_json::from_str::<serde_json::Value>(body).ok()?;
    value.get(key)?.as_str().map(|s| s.to_string())
}

} // verus!
