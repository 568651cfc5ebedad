use vstd::prelude::*;

use soroban_sdk::xdr::{Limits, ReadXdr, WriteXdr};

verus! {

/// The nesting depth up to which XDR is read or written. Deeper input is
/// refused rather than read recursively, which keeps the reader, and the JSON
/// written from what it read, within the stack; it matches the depth to which
/// `serde_json` reads JSON back, so nothing readable here is lost later.
pub const XDR_DEPTH_LIMIT: u32 = 128;

/// The JSON form, as `stellar-xdr` serialises it, of the
/// `SorobanTransactionData` whose base64 XDR is `b64`; none when `b64` is not
/// such XDR or nests deeper than `XDR_DEPTH_LIMIT`.
pub uninterp spec fn soroban_data_json(b64: Seq<char>) -> Option<Seq<char>>;

/// The JSON form, as `stellar-xdr` serialises it, of the
/// `SorobanAuthorizationEntry` whose base64 XDR is `b64`; none when `b64` is
/// not such XDR or nests deeper than `XDR_DEPTH_LIMIT`.
pub uninterp spec fn auth_entry_json(b64: Seq<char>) -> Option<Seq<char>>;

/// The base64 XDR of the `TransactionEnvelope` whose JSON form, as
/// `stellar-xdr` reads it, is `json`; none when `json` is not such a form.
pub uninterp spec fn envelope_xdr(json: Seq<char>) -> Option<Seq<char>>;

/// Whether `b64` is base64 XDR of a `SorobanTransactionData`.
pub open spec fn soroban_data_xdr_ok(b64: Seq<char>) -> bool {
    soroban_data_json(b64) is Some
}

/// Whether `b64` is base64 XDR of a `SorobanAuthorizationEntry`.
pub open spec fn auth_entry_xdr_ok(b64: Seq<char>) -> bool {
    auth_entry_json(b64) is Some
}

/// Calls `SorobanTransactionData::from_xdr_base64` of `stellar-xdr` on `b64`,
/// with a depth limit of `XDR_DEPTH_LIMIT`, and serialises the result with `serde_json::to_string`. Trusted to give
/// the JSON form named by `soroban_data_json`.
#[verifier::external_body]
pub(crate) fn soroban_data_to_json(b64: &str) -> (r: Option<String>)
    ensures
        r is Some <==> soroban_data_json(b64@) is Some,
        r matches Some(j) ==> soroban_data_json(b64@) == Some(j@),
{
    let data = soroban_sdk::xdr::SorobanTransactionData::from_xdr_base64(b64, Limits::depth(XDR_DEPTH_LIMIT)).ok()?;
    serde_json::to_string(&data).ok()
}

/// Calls `SorobanAuthorizationEntry::from_xdr_base64` of `stellar-xdr` on
/// `b64`, with a depth limit of `XDR_DEPTH_LIMIT`, and serialises the result with `serde_json::to_string`. Trusted to
/// give the JSON form named by `auth_entry_json`.
#[verifier::external_body]
pub(crate) fn auth_entry_to_json(b64: &str) -> (r: Option<String>)
    ensures
        r is Some <==> auth_entry_json(b64@) is Some,
        r matches Some(j) ==> auth_entry_json(b64@) == Some(j@),
{
    let entry = soroban_sdk::xdr::SorobanAuthorizationEntry::from_xdr_base64(b64, Limits::depth(XDR_DEPTH_LIMIT)).ok()?;
    serde_json::to_string(&entry).ok()
}

/// Reads `json` with `serde_json::from_str` as a `stellar-xdr`
/// `TransactionEnvelope` (`serde_json` refuses nesting past 128 levels) and
/// encodes it with `to_xdr_base64`, with a depth limit of `XDR_DEPTH_LIMIT`. Trusted to give
/// the text named by `envelope_xdr`.
#[verifier::external_body]
pub(crate) fn envelope_json_to_xdr(json: &str) -> (r: Option<String>)
    ensures
        r is Some <==> envelope_xdr(json@) is Some,
        r matches Some(b) ==> envelope_xdr(json@) == Some(b@),
{
    let envelope: soroban_sdk::xdr::TransactionEnvelope = serde_json::from_str(json).ok()?;
    envelope.to_xdr_base64(Limits::depth(XDR_DEPTH_LIMIT)).ok()
}

} // verus!
