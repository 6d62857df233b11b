use vstd::prelude::*;

verus! {

/// A JSON document, as stored in a job's payload and result.
#[verifier::external_type_specification]
#[verifier::external_body]
pub struct ExJsonValue(serde_json::Value);

/// The text of the member `key` of a JSON document, when the document is
/// an object whose member `key` is a JSON string; `None` otherwise.
pub uninterp spec fn json_str_member_of(value: serde_json::Value, key: Seq<char>) -> Option<Seq<char>>;

/// The member `key` of a JSON document, or JSON `null` when there is none.
pub uninterp spec fn json_member_of(value: serde_json::Value, key: Seq<char>) -> serde_json::Value;

/// The string stored under `key` when `value` is an object whose member
/// `key` is a JSON string; `None` otherwise.
///
/// Calls `serde_json::Value`'s indexing by `&str` followed by `as_str`.
/// Claimed: the result is `json_str_member_of` of the document and the key;
/// it depends on them alone (indexing a non-object gives `null`, whose
/// `as_str` is `None`).
#[verifier::external_body]
pub(crate) fn json_str_member(value: &serde_json::Value, key: &str) -> (r: Option<String>)
    ensures
        match r {
            Some(s) => json_str_member_of(*value, key@) == Some(s@),
            None => json_str_member_of(*value, key@) is None,
        },
{
    value[key].as_str().map(|s| s.to_string())
}

/// A copy of the member `key` of `value`, or JSON `null` when there is none.
///
/// Calls `serde_json::Value`'s indexing by `&str` and clones the member.
/// Claimed: the result is `json_member_of` of the document and the key; it
/// depends on them alone.
#[verifier::external_body]
pub(crate) fn json_member(value: &serde_json::Value, key: &str) -> (r: serde_json::Value)
    ensures
        r == json_member_of(*value, key@),
{
    value[key].clone()
}

} // verus!
