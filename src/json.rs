//! The readings of the disk utility's JSON answer that rest on serde_json.
//! Each reading is a function of the text alone, and is named here.
use vstd::prelude::*;

verus! {

/// The string content of the "MediaName" member of the JSON object that
/// the text holds; nothing where the text is no JSON, or the member is
/// missing or no string.
pub uninterp spec fn disk_media_name(json: Seq<char>) -> Option<Seq<char>>;

/// The "Size" member of the JSON object that the text holds, as an unsigned
/// 64-bit integer; nothing where the text is no JSON, or the member is
/// missing or no such integer.
pub uninterp spec fn disk_size(json: Seq<char>) -> Option<u64>;

/// Relies on serde_json::from_str, serde_json::Value::get and
/// serde_json::Value::as_str: parses the text and reads "MediaName".
#[verifier::external_body]
pub(crate) fn read_media_name(json: &str) -> (r: Option<String>)
    ensures
        r is None <==> disk_media_name(json@) is None,
        r is Some ==> disk_media_name(json@) == Some(r->Some_0@),
{
    let value: serde_json::Value = serde_json::from_str(json).ok()?;
    value.get("MediaName")?.as_str().map(|s| s.to_string())
}

/// Relies on serde_json::from_str, serde_json::Value::get and
/// serde_json::Value::as_u64: parses the text and reads "Size".
#[verifier::external_body]
pub(crate) fn read_size(json: &str) -> (r: Option<u64>)
    ensures
        r == disk_size(json@),
{
    let value: serde_json::Value = serde_json::from_str(json).ok()?;
    value.get("Size")?.as_u64()
}

} // verus!
