//! Reading the JSON bodies of requests, with serde_json.

use vstd::prelude::*;

verus! {

#[verifier::external_type_specification]
#[verifier::external_body]
pub struct ExJsonError(serde_json::Error);

/// The string that serde_json reads from `bytes` as a JSON string, if it reads one.
pub uninterp spec fn json_string(bytes: Seq<u8>) -> Option<Seq<char>>;

/// The (node id, API address, RPC address) triple that serde_json reads from
/// `bytes` as a JSON array of a number and two strings, if it reads one.
pub uninterp spec fn json_learner(bytes: Seq<u8>) -> Option<(u64, Seq<char>, Seq<char>)>;

/// Calls `serde_json::from_slice::<String>`: succeeds exactly when the bytes
/// hold one JSON string, and gives back that string.  What serde_json accepts
/// is left to the name `json_string`.
#[verifier::external_body]
pub(crate) fn parse_json_string(bytes: &[u8]) -> (res: Result<String, serde_json::Error>)
    ensures
        match res {
            Ok(s) => json_string(bytes@) == Some(s@),
            Err(_) => json_string(bytes@) is None,
        },
{
    serde_json::from_slice::<String>(bytes)
}

/// Calls `serde_json::from_slice::<(u64, String, String)>`: succeeds exactly
/// when the bytes hold one JSON array of an unsigned number and two strings,
/// and gives back the three.  What serde_json accepts is left to the name
/// `json_learner`.
#[verifier::external_body]
pub(crate) fn parse_json_learner(bytes: &[u8]) -> (res: Result<(u64, String, String), serde_json::Error>)
    ensures
        match res {
            Ok((id, api, rpc)) => json_learner(bytes@) == Some((id, api@, rpc@)),
            Err(_) => json_learner(bytes@) is None,
        },
{
    serde_json::from_slice::<(u64, String, String)>(bytes)
}

/// Calls `ToString::to_string` on a serde_json error, through its `Display`
/// impl: the error's text.  Nothing is stated of the text: it is made of the
/// reader's message and the line and column where reading stopped, which no
/// name here describes.
#[verifier::external_body]
pub(crate) fn json_error_text(e: &serde_json::Error) -> (text: String) {
    e.to_string()
}

} // verus!
