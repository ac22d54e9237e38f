//! Trusted boundary to the JSON codec. Each reading the supervisor makes
//! of a JSON document is named as a spec-level function of the input text
//! alone; the verified logic is stated over those names.

use vstd::prelude::*;

verus! {

/// Whether a byte sequence is a well-formed JSON document.
pub uninterp spec fn is_json(s: Seq<u8>) -> bool;

/// The unsigned `port` field of a JSON document, if the document parses
/// and carries one.
pub uninterp spec fn json_port_field(s: Seq<u8>) -> Option<u64>;

/// The boolean `closeToTray` field of a JSON document, if the document
/// parses and carries one.
pub uninterp spec fn json_close_to_tray_field(s: Seq<char>) -> Option<bool>;

/// Relies on serde_json::from_slice: whether bytes parse as JSON is a
/// function of the bytes alone.
#[verifier::external_body]
pub(crate) fn json_valid(s: &[u8]) -> (r: bool)
    ensures
        r == is_json(s@),
{
    serde_json::from_slice::<serde_json::Value>(s).is_ok()
}

/// Relies on serde_json::from_slice and serde_json::Value::{get, as_u64}:
/// the `port` field read from a JSON document is a function of the bytes
/// alone.
#[verifier::external_body]
pub(crate) fn port_field(s: &[u8]) -> (r: Option<u64>)
    ensures
        r == json_port_field(s@),
{
    match serde_json::from_slice::<serde_json::Value>(s) {
        Ok(v) => match v.get("port") {
            Some(p) => p.as_u64(),
            None => None,
        },
        Err(_) => None,
    }
}

/// Relies on serde_json::from_str and serde_json::Value::{get, as_bool}:
/// the `closeToTray` field read from a JSON document is a function of the
/// text alone.
#[verifier::external_body]
pub(crate) fn close_to_tray_field(s: &str) -> (r: Option<bool>)
    ensures
        r == json_close_to_tray_field(s@),
{
    match serde_json::from_str::<serde_json::Value>(s) {
        Ok(v) => match v.get("closeToTray") {
            Some(b) => b.as_bool(),
            None => None,
        },
        Err(_) => None,
    }
}

} // verus!
