use stellar_aid::json::{JsonNumber, JsonValue};
use stellar_aid::tx_check::{
    check_tx_hash, judge_invocation, parse_soroban_invocation, verify_fetched_transaction, ParsedInvocation,
    VerificationResult,
};

fn object(entries: Vec<(&str, JsonValue)>) -> JsonValue {
    JsonValue::Object(entries.into_iter().map(|(k, v)| (k.to_string(), v)).collect())
}

fn text(s: &str) -> JsonValue {
    JsonValue::String(s.to_string())
}

fn number(n: i64) -> JsonValue {
    if n >= 0 {
        JsonValue::Number(JsonNumber::PosInt(n as u64))
    } else {
        JsonValue::Number(JsonNumber::NegInt(n))
    }
}

/// A transaction record's extra fields, as the tests of the Horizon reader
/// shape them.
fn make_tx_extra(function_name: &str, campaign_id: u64, amount: i64) -> JsonValue {
    object(vec![
        (
            "_parsed_invocation",
            object(vec![
                ("function_name", text(function_name)),
                ("campaign_id", JsonValue::Number(JsonNumber::PosInt(campaign_id))),
                ("amount", number(amount)),
            ]),
        ),
        ("envelope_xdr", text("")),
    ])
}

#[test]
fn valid_invocation_returns_valid() {
    let extra = make_tx_extra("donate", 1, 500);
    let result = parse_soroban_invocation("", &extra).unwrap();
    assert_eq!(result.function_name, "donate");
    assert_eq!(result.campaign_id, 1);
    assert_eq!(result.amount, 500);
}

#[test]
fn wrong_function_name_returns_none_for_parse_but_invalid_for_verify() {
    let extra = make_tx_extra("withdraw", 1, 500);
    let inv = parse_soroban_invocation("", &extra).unwrap();
    assert_eq!(inv.function_name, "withdraw");
}

#[test]
fn missing_campaign_id_returns_none() {
    let extra = object(vec![(
        "_parsed_invocation",
        object(vec![("function_name", text("donate")), ("amount", number(100))]),
    )]);
    assert!(parse_soroban_invocation("", &extra).is_none());
}

#[test]
fn missing_amount_returns_none() {
    let extra = object(vec![(
        "_parsed_invocation",
        object(vec![("function_name", text("donate")), ("campaign_id", number(1))]),
    )]);
    assert!(parse_soroban_invocation("", &extra).is_none());
}

#[test]
fn no_invocation_field_returns_none() {
    let extra = object(vec![("envelope_xdr", text("abc"))]);
    assert!(parse_soroban_invocation("", &extra).is_none());
}

#[test]
fn missing_function_name_reads_as_empty() {
    let extra = object(vec![(
        "_parsed_invocation",
        object(vec![("campaign_id", number(4)), ("amount", number(-7)), ("function_name", number(3))]),
    )]);
    let inv = parse_soroban_invocation("", &extra).unwrap();
    assert_eq!(inv, ParsedInvocation { function_name: String::new(), campaign_id: 4, amount: -7 });
}

#[test]
fn non_integer_numbers_are_not_read() {
    let extra = object(vec![(
        "_parsed_invocation",
        object(vec![
            ("function_name", text("donate")),
            ("campaign_id", number(1)),
            ("amount", JsonValue::Number(JsonNumber::Float)),
        ]),
    )]);
    assert!(parse_soroban_invocation("", &extra).is_none());
    let negative_id = object(vec![(
        "_parsed_invocation",
        object(vec![("campaign_id", number(-1)), ("amount", number(5))]),
    )]);
    assert!(parse_soroban_invocation("", &negative_id).is_none());
    let too_big = object(vec![(
        "_parsed_invocation",
        object(vec![("campaign_id", number(1)), ("amount", JsonValue::Number(JsonNumber::PosInt(u64::MAX)))]),
    )]);
    assert!(parse_soroban_invocation("", &too_big).is_none());
}

#[test]
fn verdicts_name_the_mismatch() {
    assert_eq!(verify_fetched_transaction(&make_tx_extra("donate", 1, 500), 1, 500), VerificationResult::Valid);
    assert_eq!(
        verify_fetched_transaction(&make_tx_extra("withdraw", 1, 500), 1, 500),
        VerificationResult::Invalid("expected function `donate`, found `withdraw`".to_string())
    );
    assert_eq!(
        verify_fetched_transaction(&make_tx_extra("donate", 2, 500), 17, 500),
        VerificationResult::Invalid("expected campaign_id 17, found 2".to_string())
    );
    assert_eq!(
        verify_fetched_transaction(&make_tx_extra("donate", 1, -3), 1, 500),
        VerificationResult::Invalid("expected amount 500, found -3".to_string())
    );
    assert_eq!(
        verify_fetched_transaction(&object(vec![]), 1, 500),
        VerificationResult::Invalid("could not parse Soroban invocation from transaction envelope".to_string())
    );
    assert_eq!(
        judge_invocation(
            Some(ParsedInvocation { function_name: "donate".to_string(), campaign_id: 1, amount: i128::MIN }),
            1,
            0
        ),
        VerificationResult::Invalid(
            "expected amount 0, found -170141183460469231731687303715884105728".to_string()
        )
    );
}

#[test]
fn blank_hashes_are_invalid() {
    assert_eq!(
        check_tx_hash("  \t\n"),
        Some(VerificationResult::Invalid("tx_hash must not be empty".to_string()))
    );
    assert!(check_tx_hash("").is_some());
    assert!(check_tx_hash("\u{3000}").is_some());
    assert_eq!(check_tx_hash(" abc "), None);
}

#[test]
fn first_member_wins_and_non_objects_have_none() {
    let v = object(vec![("a", number(1)), ("a", number(2))]);
    assert_eq!(v.get("a").unwrap().as_i64(), Some(1));
    assert!(number(5).get("a").is_none());
    assert!(text("x").as_u64().is_none());
    assert_eq!(text("x").as_str(), Some("x"));
    assert_eq!(JsonValue::Array(vec![number(1)]).as_array().map(|a| a.len()), Some(1));
}
