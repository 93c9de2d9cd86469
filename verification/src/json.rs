//! Trusted boundary to the JSON library: three queries on raw response text.
//! Each result is a pure function of the text, named by an uninterpreted spec
//! function; the verified routing and decoding logic is stated over those
//! names.

use vstd::prelude::*;

verus! {

/// The correlation id a JSON text carries under the reserved correlation key,
/// when it parses as an object holding that key with an unsigned value.
pub uninterp spec fn extra_of(s: Seq<char>) -> Option<u64>;

/// The client identifier a JSON text carries under the reserved client key,
/// when it parses as an object holding that key with a signed value.
pub uninterp spec fn client_id_of(s: Seq<char>) -> Option<i64>;

/// The API-error code and message a JSON text decodes to, when it matches the
/// engine's error shape (an object with an integral `code` and a textual
/// `message`).
pub uninterp spec fn api_error_of(s: Seq<char>) -> Option<(i32, Seq<char>)>;

/// Relies on serde_json::from_str::<Value>, Value::get and Value::as_u64:
/// what the text parses to depends on the text alone.
#[verifier::external_body]
pub fn parse_extra(s: &str) -> (r: Option<u64>)
    ensures
        r == extra_of(s@),
{
    let v: serde_json::Value = serde_json::from_str(s).ok()?;
    v.get("@extra")?.as_u64()
}

/// Relies on serde_json::from_str::<Value>, Value::get and Value::as_i64:
/// what the text parses to depends on the text alone.
#[verifier::external_body]
pub fn parse_client_id(s: &str) -> (r: Option<i64>)
    ensures
        r == client_id_of(s@),
{
    let v: serde_json::Value = serde_json::from_str(s).ok()?;
    v.get("@client_id")?.as_i64()
}

/// Relies on serde_json::from_str::<Value>, Value::get, Value::as_i64 and
/// Value::as_str: whether the text matches the error shape depends on the
/// text alone.
#[verifier::external_body]
pub fn parse_api_error(s: &str) -> (r: Option<(i32, String)>)
    ensures
        match r {
            Some(p) => api_error_of(s@) == Some((p.0, p.1@)),
            None => api_error_of(s@) is None,
        },
{
    let v: serde_json::Value = serde_json::from_str(s).ok()?;
    let code = i32::try_from(v.get("code")?.as_i64()?).ok()?;
    let message = v.get("message")?.as_str()?.to_string();
    Some((code, message))
}

} // verus!
