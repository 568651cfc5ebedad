use vstd::prelude::*;

use crate::json::{json_get, json_get_str, json_i64, json_u64, JsonValue};
use crate::text::{decimal, i128_to_decimal, is_blank, is_blank_text, signed_decimal, u64_to_decimal};

verus! {

/// Result of a transaction verification attempt.
#[derive(Debug, Clone, PartialEq, Eq)]
pub enum VerificationResult {
    /// The transaction is a valid `donate` call matching the expected details.
    Valid,
    /// The transaction was fetched but did not match the expected details.
    Invalid(String),
}

/// The contract invocation a transaction record describes.
#[derive(Debug, Clone, PartialEq, Eq)]
pub struct ParsedInvocation {
    pub function_name: String,
    pub campaign_id: u64,
    pub amount: i128,
}

/// `None` for `Valid`, the message for `Invalid`.
pub open spec fn verdict_view(r: VerificationResult) -> Option<Seq<char>> {
    match r {
        VerificationResult::Valid => None,
        VerificationResult::Invalid(msg) => Some(msg@),
    }
}

pub open spec fn invocation_view(p: ParsedInvocation) -> (Seq<char>, u64, i128) {
    (p.function_name@, p.campaign_id, p.amount)
}

/// The invocation described under `_parsed_invocation` in a transaction
/// record's extra fields: its function name (empty when absent or not a
/// string), its campaign id (a non-negative integer) and its amount (an
/// integer that fits an `i64`); nothing when either number is missing.
pub open spec fn spec_parse_invocation(extra: JsonValue) -> Option<(Seq<char>, u64, i128)> {
    match json_get(extra, "_parsed_invocation"@) {
        None => None,
        Some(inv) => {
            let name = match json_get_str(inv, "function_name"@) {
                Some(n) => n,
                None => Seq::empty(),
            };
            let cid = match json_get(inv, "campaign_id"@) {
                Some(v) => json_u64(v),
                None => None,
            };
            let amount = match json_get(inv, "amount"@) {
                Some(v) => json_i64(v),
                None => None,
            };
            match (cid, amount) {
                (Some(c), Some(a)) => Some((name, c, a as i128)),
                _ => None,
            }
        },
    }
}

/// What a fetched invocation is judged against the expected campaign and
/// amount: `None` when valid, otherwise the reason.
pub open spec fn spec_judge(parsed: Option<(Seq<char>, u64, i128)>, campaign_id: u64, expected_amount: i128) -> Option<Seq<char>> {
    match parsed {
        None => Some("could not parse Soroban invocation from transaction envelope"@),
        Some((name, cid, amount)) => if name != "donate"@ {
            Some("expected function `donate`, found `"@ + name + "`"@)
        } else if cid != campaign_id {
            Some("expected campaign_id "@ + decimal(campaign_id as nat) + ", found "@ + decimal(cid as nat))
        } else if amount != expected_amount {
            Some("expected amount "@ + signed_decimal(expected_amount as int) + ", found "@ + signed_decimal(amount as int))
        } else {
            None
        },
    }
}

/// A transaction is judged valid exactly when it invokes `donate` on the
/// expected campaign for exactly the expected amount.
pub proof fn law_valid_exactly_when_matching(parsed: Option<(Seq<char>, u64, i128)>, campaign_id: u64, expected_amount: i128)
    ensures
        spec_judge(parsed, campaign_id, expected_amount) is None <==> parsed == Some(
            ("donate"@, campaign_id, expected_amount),
        ),
{
}

/// Reads the invocation a transaction record describes from its extra fields.
pub fn parse_soroban_invocation(_envelope_xdr: &str, extra: &JsonValue) -> (r: Option<ParsedInvocation>)
    ensures
        r is Some <==> spec_parse_invocation(*extra) is Some,
        r matches Some(p) ==> invocation_view(p) == spec_parse_invocation(*extra)->0,
{
    let invocation = match extra.get("_parsed_invocation") {
        Some(v) => v,
        None => {
            return None;
        },
    };
    let function_name = match invocation.get("function_name") {
        Some(v) => match v.as_str() {
            Some(s) => s.to_string(),
            None => "".to_string(),
        },
        None => "".to_string(),
    };
    proof {
        reveal_strlit("");
    }
    let campaign_id = match invocation.get("campaign_id") {
        Some(v) => match v.as_u64() {
            Some(c) => c,
            None => {
                return None;
            },
        },
        None => {
            return None;
        },
    };
    let amount = match invocation.get("amount") {
        Some(v) => match v.as_i64() {
            Some(a) => a as i128,
            None => {
                return None;
            },
        },
        None => {
            return None;
        },
    };
    Some(ParsedInvocation { function_name, campaign_id, amount })
}

/// Judges a parsed invocation against the expected campaign and amount.
pub fn judge_invocation(
    parsed: Option<ParsedInvocation>,
    campaign_id: u64,
    expected_amount: i128,
) -> (r: VerificationResult)
    ensures
        verdict_view(r) == spec_judge(
            match parsed {
                Some(p) => Some(invocation_view(p)),
                None => None,
            },
            campaign_id,
            expected_amount,
        ),
{
    match parsed {
        None => VerificationResult::Invalid(
            "could not parse Soroban invocation from transaction envelope".to_string(),
        ),
        Some(inv) => {
            if inv.function_name != "donate".to_string() {
                let mut msg = "expected function `donate`, found `".to_string();
                msg.append(inv.function_name.as_str());
                msg.append("`");
                return VerificationResult::Invalid(msg);
            }
            if inv.campaign_id != campaign_id {
                let mut msg = "expected campaign_id ".to_string();
                msg.append(u64_to_decimal(campaign_id).as_str());
                msg.append(", found ");
                msg.append(u64_to_decimal(inv.campaign_id).as_str());
                return VerificationResult::Invalid(msg);
            }
            if inv.amount != expected_amount {
                let mut msg = "expected amount ".to_string();
                msg.append(i128_to_decimal(expected_amount).as_str());
                msg.append(", found ");
                msg.append(i128_to_decimal(inv.amount).as_str());
                return VerificationResult::Invalid(msg);
            }
            VerificationResult::Valid
        },
    }
}

/// The verdict owed before any fetch: a blank transaction hash is invalid.
pub fn check_tx_hash(tx_hash: &str) -> (r: Option<VerificationResult>)
    ensures
        r is Some <==> is_blank_text(tx_hash@),
        r matches Some(v) ==> verdict_view(v) == Some("tx_hash must not be empty"@),
{
    if is_blank(tx_hash) {
        Some(VerificationResult::Invalid("tx_hash must not be empty".to_string()))
    } else {
        None
    }
}

/// Judges a fetched transaction record (its extra fields) as a `donate`
/// call on `campaign_id` for `expected_amount`.
pub fn verify_fetched_transaction(extra: &JsonValue, campaign_id: u64, expected_amount: i128) -> (r: VerificationResult)
    ensures
        verdict_view(r) == spec_judge(spec_parse_invocation(*extra), campaign_id, expected_amount),
{
    let envelope_xdr = match extra.get("envelope_xdr") {
        Some(v) => match v.as_str() {
            Some(s) => s,
            None => "",
        },
        None => "",
    };
    let parsed = parse_soroban_invocation(envelope_xdr, extra);
    judge_invocation(parsed, campaign_id, expected_amount)
}

} // verus!
