//! The app settings file (`settings.json`): which port the MCP server uses.
use vstd::prelude::*;

use crate::operations::{mcp_port_from_setting, DEFAULT_MCP_PORT};

verus! {

#[verifier::external_type_specification]
#[verifier::external_body]
pub struct ExJsonValue(serde_json::Value);

/// The value `serde_json::from_str::<Value>` builds from a text, or `None`
/// when the text is not JSON. Parsing is deterministic: the same text always
/// gives the same value.
pub uninterp spec fn json_parse(text: Seq<char>) -> Option<serde_json::Value>;

/// What `Value::get` finds under `key`: the member of that name when the
/// value is an object that has one, otherwise `None`.
pub uninterp spec fn json_member(value: serde_json::Value, key: Seq<char>) -> Option<serde_json::Value>;

/// What `Value::as_u64` gives: the number when the value is a JSON number
/// that fits in a `u64`, otherwise `None`.
pub uninterp spec fn json_as_u64(value: serde_json::Value) -> Option<u64>;

/// The `u64` stored under `key` at the top level of the JSON text, if any.
pub open spec fn json_member_u64(text: Seq<char>, key: Seq<char>) -> Option<u64> {
    match json_parse(text) {
        Some(v) => match json_member(v, key) {
            Some(m) => json_as_u64(m),
            None => None,
        },
        None => None,
    }
}

/// Calls `serde_json::from_str::<serde_json::Value>`. Trusted: the result
/// is the parsed value, a function of the text alone.
#[verifier::external_body]
fn parse_json(text: &str) -> (r: Option<serde_json::Value>)
    ensures
        r == json_parse(text@),
{
    serde_json::from_str::<serde_json::Value>(text).ok()
}

/// Calls `serde_json::Value::get` with a string key. Trusted: the result is
/// the member of that name, a function of the value and the key.
#[verifier::external_body]
fn json_get<'a>(value: &'a serde_json::Value, key: &str) -> (r: Option<&'a serde_json::Value>)
    ensures
        match r {
            Some(m) => json_member(*value, key@) == Some(*m),
            None => json_member(*value, key@) is None,
        },
{
    value.get(key)
}

/// Calls `serde_json::Value::as_u64`. Trusted: the result is a function of
/// the value alone.
#[verifier::external_body]
fn json_u64(value: &serde_json::Value) -> (r: Option<u64>)
    ensures
        r == json_as_u64(*value),
{
    value.as_u64()
}

/// The `u64` under `key` at the top level of a JSON text, if there is one.
pub fn json_member_u64_of(text: &str, key: &str) -> (r: Option<u64>)
    ensures
        r == json_member_u64(text@, key@),
{
    match parse_json(text) {
        None => None,
        Some(v) => match json_get(&v, key) {
            None => None,
            Some(m) => json_u64(m),
        },
    }
}

/// The MCP port from the settings file's text, if the file could be read:
/// its top-level `mcp_port` number cut to 16 bits, or the default port when
/// there is no file, the text is not JSON, or it holds no such number.
pub fn mcp_port_from_settings(text: Option<&str>) -> (port: u16)
    ensures
        port == match text {
            Some(t) => match json_member_u64(t@, "mcp_port"@) {
                Some(v) => (v % 65536) as u16,
                None => DEFAULT_MCP_PORT,
            },
            None => DEFAULT_MCP_PORT,
        },
{
    match text {
        None => DEFAULT_MCP_PORT,
        Some(t) => mcp_port_from_setting(json_member_u64_of(t, "mcp_port")),
    }
}

} // verus!
