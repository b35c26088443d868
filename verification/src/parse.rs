//! Incoming control-protocol messages.  The peer's frames are JSON; each
//! reader here parses one frame with serde_json and hands back the plain
//! values the rest of the library works on.  What a reader extracts is a
//! function of the frame text alone, so each extraction carries a name that
//! the session's contracts speak of: whether the frame parses, whether a
//! greeting demands authentication and with which challenge and salt, and
//! which candidate strings an enumerate response lists.

use vstd::prelude::*;

verus! {

#[verifier::external_type_specification]
#[verifier::external_body]
pub struct ExJsonError(serde_json::Error);

/// Whether the frame text parses as one JSON document.
pub uninterp spec fn greeting_parses(frame: Seq<char>) -> bool;

/// Whether a greeting's `d.authentication` member is an object, demanding
/// the challenge-response handshake.
pub uninterp spec fn greeting_demands_auth(frame: Seq<char>) -> bool;

/// The greeting's `d.authentication.challenge` string; empty when absent or
/// not a string.
pub uninterp spec fn greeting_challenge(frame: Seq<char>) -> Seq<char>;

/// The greeting's `d.authentication.salt` string; empty when absent or not
/// a string.
pub uninterp spec fn greeting_salt(frame: Seq<char>) -> Seq<char>;

/// Whether the frame text parses as one JSON document (an enumerate
/// response).
pub uninterp spec fn response_parses(frame: Seq<char>) -> bool;

/// The candidate strings an enumerate response lists: the `value` member of
/// each element of `d.responseData.items`, in order, elements without a
/// string `value` skipped; empty when the items array is absent.
pub uninterp spec fn response_candidates(frame: Seq<char>) -> Seq<Seq<char>>;

/// The authentication parameters of a greeting, when it carries any.
pub struct AuthChallenge {
    pub challenge: String,
    pub salt: String,
}

/// Relies on `serde_json::from_str` and `serde_json::Value`'s accessors
/// (`as_object`, `get`, `as_str`): parses a greeting frame and hands back
/// its authentication parameters, all functions of the frame text alone.
/// `Err` exactly when the frame is not JSON; `None` when `d.authentication`
/// is absent or not an object; a missing or non-string challenge or salt
/// reads as the empty string.
#[verifier::external_body]
fn read_greeting(frame: &str) -> (greeting: Result<Option<AuthChallenge>, serde_json::Error>)
    ensures
        greeting is Ok <==> greeting_parses(frame@),
        greeting matches Ok(auth) ==> (auth is Some <==> greeting_demands_auth(frame@)),
        greeting matches Ok(Some(params)) ==> params.challenge@ == greeting_challenge(frame@)
            && params.salt@ == greeting_salt(frame@),
{
    let parsed: serde_json::Value = match serde_json::from_str(frame) {
        Ok(value) => value,
        Err(error) => return Err(error),
    };
    let auth = parsed["d"]["authentication"].as_object().map(|params| AuthChallenge {
        challenge: params.get("challenge").and_then(|v| v.as_str()).unwrap_or("").to_string(),
        salt: params.get("salt").and_then(|v| v.as_str()).unwrap_or("").to_string(),
    });
    Ok(auth)
}

/// Relies on `serde_json::from_str` and `serde_json::Value`'s accessors
/// (`as_array`, `get`, `as_str`): parses an enumerate-response frame and
/// hands back the candidate strings it lists, a function of the frame text
/// alone.  `Err` exactly when the frame is not JSON; entries without a
/// string `value` are skipped; no items array reads as no candidates.
#[verifier::external_body]
fn read_enumerate_response(frame: &str) -> (response: Result<Vec<String>, serde_json::Error>)
    ensures
        response is Ok <==> response_parses(frame@),
        response matches Ok(items) ==> items.deep_view() == response_candidates(frame@),
{
    let parsed: serde_json::Value = match serde_json::from_str(frame) {
        Ok(value) => value,
        Err(error) => return Err(error),
    };
    let items = match parsed["d"]["responseData"]["items"].as_array() {
        Some(entries) => entries
            .iter()
            .filter_map(|e| e.get("value").and_then(|v| v.as_str()).map(|s| s.to_string()))
            .collect(),
        None => Vec::new(),
    };
    Ok(items)
}

/// Relies on the `Display` impl of `serde_json::Error`, for the operator
/// log.
#[verifier::external_body]
pub(crate) fn json_error_text(error: &serde_json::Error) -> (text: String) {
    format!("{}", error)
}

/// Reads a greeting frame: its authentication parameters, or the parse
/// error's description.
pub fn greeting_auth(frame: &str) -> (greeting: Result<Option<AuthChallenge>, String>)
    ensures
        greeting is Ok <==> greeting_parses(frame@),
        greeting matches Ok(auth) ==> (auth is Some <==> greeting_demands_auth(frame@)),
        greeting matches Ok(Some(params)) ==> params.challenge@ == greeting_challenge(frame@)
            && params.salt@ == greeting_salt(frame@),
{
    match read_greeting(frame) {
        Ok(auth) => Ok(auth),
        Err(error) => Err(json_error_text(&error)),
    }
}

/// Reads an enumerate-response frame: the candidate strings it lists, or
/// the parse error's description.
pub fn response_items(frame: &str) -> (response: Result<Vec<String>, String>)
    ensures
        response is Ok <==> response_parses(frame@),
        response matches Ok(items) ==> items.deep_view() == response_candidates(frame@),
{
    match read_enumerate_response(frame) {
        Ok(items) => Ok(items),
        Err(error) => Err(json_error_text(&error)),
    }
}

} // verus!
