use stellar_aid::json::{JsonNumber, JsonValue};
use soroban_sdk::xdr::{
    AccountId, ExtensionPoint, HostFunction, Int128Parts, InvokeContractArgs, InvokeHostFunctionOp,
    LedgerFootprint, Limits, Memo, MuxedAccount, Operation, OperationBody, Preconditions, PublicKey, ReadXdr,
    ScAddress, ScSymbol, ScVal, SequenceNumber, SorobanAuthorizationEntry, SorobanAuthorizedFunction,
    SorobanAuthorizedInvocation, SorobanCredentials, SorobanResources, SorobanTransactionData, Transaction,
    TransactionEnvelope, TransactionExt, TransactionV1Envelope, Uint256, VecM, WriteXdr,
};
use stellar_aid::envelope::donate_transaction_xdr;
use stellar_aid::sdk::{
    accounts_url, apply_simulation, build_donate_operation, contract_id_or_zero, i128_parts, interpret_simulation,
    parse_account_id, parse_i64, parse_sequence_number, prepare_donate_transaction, rejection_message, IntParseError,
    ScArg, SimulationRejection, StellarAidError,
};

const ZERO_ACCOUNT: &str = "GAAAAAAAAAAAAAAAAAAAAAAAAAAAAAAAAAAAAAAAAAAAAAAAAAAAAWHF";
const COUNTING_ACCOUNT: &str = "GAAACAQDAQCQMBYIBEFAWDANBYHRAEISCMKBKFQXDAMRUGY4DUPB7JZX";
const ZERO_CONTRACT: &str = "CAAAAAAAAAAAAAAAAAAAAAAAAAAAAAAAAAAAAAAAAAAAAAAAAAAABSC4";

fn object(entries: Vec<(&str, JsonValue)>) -> JsonValue {
    JsonValue::Object(entries.into_iter().map(|(k, v)| (k.to_string(), v)).collect())
}

fn text(s: &str) -> JsonValue {
    JsonValue::String(s.to_string())
}

#[test]
fn account_strkeys_decode_to_their_keys() {
    assert_eq!(parse_account_id(ZERO_ACCOUNT).unwrap(), vec![0u8; 32]);
    assert_eq!(parse_account_id(COUNTING_ACCOUNT).unwrap(), (0u8..32).collect::<Vec<u8>>());
    assert_eq!(
        parse_account_id("GBAD").unwrap_err(),
        "Invalid address GBAD: the strkey is invalid"
    );
    // A contract strkey is not an account.
    assert!(parse_account_id(ZERO_CONTRACT).is_err());
}

#[test]
fn contract_ids_fall_back_to_zero() {
    assert_eq!(contract_id_or_zero(ZERO_CONTRACT), vec![0u8; 32]);
    assert_eq!(contract_id_or_zero("not a strkey"), vec![0u8; 32]);
    assert_eq!(contract_id_or_zero(COUNTING_ACCOUNT), vec![0u8; 32]);
}

#[test]
fn amounts_split_into_halves() {
    assert_eq!(i128_parts(5), (0, 5));
    assert_eq!(i128_parts(-1), (-1, u64::MAX));
    assert_eq!(i128_parts(1i128 << 64), (1, 0));
    assert_eq!(i128_parts(i128::MIN), (i64::MIN, 0));
    let (hi, lo) = i128_parts(123_456_789_012_345_678_901_234_567i128);
    assert_eq!((hi as i128) * (1i128 << 64) + lo as i128, 123_456_789_012_345_678_901_234_567i128);
}

fn resource_data_xdr() -> String {
    SorobanTransactionData {
        ext: ExtensionPoint::V0,
        resources: SorobanResources {
            footprint: LedgerFootprint { read_only: VecM::default(), read_write: VecM::default() },
            instructions: 1000,
            read_bytes: 20,
            write_bytes: 30,
        },
        resource_fee: 5000,
    }
    .to_xdr_base64(Limits::none())
    .unwrap()
}

fn contract_call(contract: [u8; 32]) -> InvokeContractArgs {
    InvokeContractArgs {
        contract_address: ScAddress::Contract(soroban_sdk::xdr::Hash(contract)),
        function_name: ScSymbol("donate".try_into().unwrap()),
        args: VecM::default(),
    }
}

fn auth_entry_xdr() -> String {
    SorobanAuthorizationEntry {
        credentials: SorobanCredentials::SourceAccount,
        root_invocation: SorobanAuthorizedInvocation {
            function: SorobanAuthorizedFunction::ContractFn(contract_call([9u8; 32])),
            sub_invocations: VecM::default(),
        },
    }
    .to_xdr_base64(Limits::none())
    .unwrap()
}

fn simulation_answer(data: &str, auth: Vec<JsonValue>) -> JsonValue {
    object(vec![(
        "result",
        object(vec![
            ("minResourceFee", text("5000")),
            ("transactionData", text(data)),
            ("results", JsonValue::Array(vec![object(vec![("auth", JsonValue::Array(auth))])])),
        ]),
    )])
}

#[test]
fn donate_operation_and_transaction() {
    let op = build_donate_operation(COUNTING_ACCOUNT, 7, 1000, vec![9u8; 32]).unwrap();
    assert_eq!(op.function_name, "donate");
    assert!(op.source_account.is_none());
    assert_eq!(
        op.args,
        vec![ScArg::U64(7), ScArg::I128 { hi: 0, lo: 1000 }, ScArg::Account((0u8..32).collect::<Vec<u8>>())]
    );
    assert!(op.auth.is_empty());
    assert_eq!(op.contract_id, vec![9u8; 32]);

    let tx = prepare_donate_transaction(ZERO_ACCOUNT, 7, 1000, vec![0u8; 32], 41).unwrap();
    assert_eq!(tx.fee, 100);
    assert_eq!(tx.seq_num, 42);
    assert!(tx.soroban_data.is_none());
    assert!(tx.memo_id.is_none());
    assert!(tx.time_bounds.is_none());

    let data = resource_data_xdr();
    let entry = auth_entry_xdr();
    let answer = simulation_answer(&data, vec![text(&entry), JsonValue::Null, text(&entry)]);
    let sim = interpret_simulation(&answer).unwrap();
    assert_eq!(sim.min_fee, 5000);
    assert_eq!(sim.transaction_data, data);
    assert_eq!(sim.auth, vec![entry.clone(), entry.clone()]);
    let done = apply_simulation(tx, sim);
    assert_eq!(done.fee, 5100);
    assert_eq!(done.seq_num, 42);
    assert_eq!(done.soroban_data, Some(data));
    assert_eq!(done.operation.auth.len(), 2);

    assert_eq!(
        prepare_donate_transaction("bad", 1, 1, vec![0u8; 32], 0).unwrap_err(),
        StellarAidError::ValidationError("Invalid address bad: the strkey is invalid".to_string())
    );
}

#[test]
fn unsimulated_transaction_encodes_to_the_expected_envelope() {
    let tx = prepare_donate_transaction(COUNTING_ACCOUNT, 7, -5, vec![9u8; 32], 41).unwrap();
    let b64 = donate_transaction_xdr(&tx).unwrap();
    let envelope = TransactionEnvelope::from_xdr_base64(b64, Limits::none()).unwrap();
    let key: [u8; 32] = (0u8..32).collect::<Vec<u8>>().try_into().unwrap();
    let expected = TransactionEnvelope::Tx(TransactionV1Envelope {
        tx: Transaction {
            source_account: MuxedAccount::Ed25519(Uint256(key)),
            fee: 100,
            seq_num: SequenceNumber(42),
            cond: Preconditions::None,
            memo: Memo::None,
            operations: vec![Operation {
                source_account: None,
                body: OperationBody::InvokeHostFunction(InvokeHostFunctionOp {
                    host_function: HostFunction::InvokeContract(InvokeContractArgs {
                        args: vec![
                            ScVal::U64(7),
                            ScVal::I128(Int128Parts { hi: -1, lo: u64::MAX - 4 }),
                            ScVal::Address(ScAddress::Account(AccountId(PublicKey::PublicKeyTypeEd25519(Uint256(key))))),
                        ]
                        .try_into()
                        .unwrap(),
                        ..contract_call([9u8; 32])
                    }),
                    auth: VecM::default(),
                }),
            }]
            .try_into()
            .unwrap(),
            ext: TransactionExt::V0,
        },
        signatures: VecM::default(),
    });
    assert_eq!(envelope, expected);
}

#[test]
fn simulated_transaction_carries_data_and_auth() {
    let tx = prepare_donate_transaction(ZERO_ACCOUNT, 3, 250, vec![0u8; 32], 0).unwrap();
    let data = resource_data_xdr();
    let entry = auth_entry_xdr();
    let sim = interpret_simulation(&simulation_answer(&data, vec![text(&entry)])).unwrap();
    let done = apply_simulation(tx, sim);
    let b64 = donate_transaction_xdr(&done).unwrap();
    let envelope = TransactionEnvelope::from_xdr_base64(b64, Limits::none()).unwrap();
    let TransactionEnvelope::Tx(v1) = envelope else { panic!("not a v1 envelope") };
    assert_eq!(v1.tx.fee, 5100);
    assert_eq!(v1.tx.seq_num, SequenceNumber(1));
    assert_eq!(
        v1.tx.ext,
        TransactionExt::V1(SorobanTransactionData::from_xdr_base64(resource_data_xdr(), Limits::none()).unwrap())
    );
    let OperationBody::InvokeHostFunction(op) = &v1.tx.operations[0].body else { panic!("not a contract call") };
    assert_eq!(
        op.auth.to_vec(),
        vec![SorobanAuthorizationEntry::from_xdr_base64(auth_entry_xdr(), Limits::none()).unwrap()]
    );
}

#[test]
fn transactions_with_bad_parts_do_not_encode() {
    let mut tx = prepare_donate_transaction(ZERO_ACCOUNT, 3, 250, vec![0u8; 32], 0).unwrap();
    tx.soroban_data = Some("AAAA".to_string());
    assert!(donate_transaction_xdr(&tx).is_none());
    let mut short = prepare_donate_transaction(ZERO_ACCOUNT, 3, 250, vec![0u8; 31], 0).unwrap();
    assert!(donate_transaction_xdr(&short).is_none());
    short.operation.contract_id = vec![0u8; 32];
    assert!(donate_transaction_xdr(&short).is_some());
}

#[test]
fn simulation_answers_that_are_refused() {
    assert_eq!(interpret_simulation(&object(vec![("error", text("x"))])).unwrap_err(), SimulationRejection::RpcError);
    assert_eq!(interpret_simulation(&object(vec![])).unwrap_err(), SimulationRejection::MissingResult);
    assert_eq!(
        interpret_simulation(&object(vec![("result", object(vec![("error", text("boom"))]))])).unwrap_err(),
        SimulationRejection::SimulationFailed
    );
    assert_eq!(
        interpret_simulation(&object(vec![("result", object(vec![]))])).unwrap_err(),
        SimulationRejection::MissingTransactionData
    );
    assert_eq!(
        interpret_simulation(&simulation_answer("AAAA", vec![])).unwrap_err(),
        SimulationRejection::InvalidTransactionData
    );
    assert_eq!(
        interpret_simulation(&simulation_answer(&resource_data_xdr(), vec![text(&auth_entry_xdr()), text("e2")]))
            .unwrap_err(),
        SimulationRejection::InvalidAuthEntry
    );
    let no_fee = interpret_simulation(&object(vec![(
        "result",
        object(vec![("transactionData", text(&resource_data_xdr())), ("minResourceFee", text("12x"))]),
    )]))
    .unwrap();
    assert_eq!(no_fee.min_fee, 0);
    assert!(no_fee.auth.is_empty());
}

#[test]
fn rejection_messages() {
    assert_eq!(rejection_message(SimulationRejection::RpcError, "{\"code\":-32600}"), "{\"code\":-32600}");
    assert_eq!(rejection_message(SimulationRejection::MissingResult, ""), "Missing result in RPC response");
    assert_eq!(rejection_message(SimulationRejection::SimulationFailed, "\"boom\""), "Simulation failed: \"boom\"");
    assert_eq!(
        rejection_message(SimulationRejection::MissingTransactionData, ""),
        "Missing transactionData in simulation result"
    );
    assert_eq!(rejection_message(SimulationRejection::InvalidTransactionData, ""), "Failed to parse transactionData XDR");
    assert_eq!(rejection_message(SimulationRejection::InvalidAuthEntry, ""), "Failed to parse auth entry XDR");
}

#[test]
fn decimal_i64_parsing() {
    assert_eq!(parse_i64("0"), Ok(0));
    assert_eq!(parse_i64("+17"), Ok(17));
    assert_eq!(parse_i64("-9223372036854775808"), Ok(i64::MIN));
    assert_eq!(parse_i64("9223372036854775807"), Ok(i64::MAX));
    assert_eq!(parse_i64("9223372036854775808"), Err(IntParseError::PosOverflow));
    assert_eq!(parse_i64("-9223372036854775809"), Err(IntParseError::NegOverflow));
    assert_eq!(parse_i64(""), Err(IntParseError::Empty));
    assert_eq!(parse_i64("-"), Err(IntParseError::InvalidDigit));
    assert_eq!(parse_i64(" 1"), Err(IntParseError::InvalidDigit));
    assert_eq!(parse_i64("99999999999999999999x"), Err(IntParseError::PosOverflow));
    for s in ["", "-", "+", "12", "-12", "1a", "92233720368547758070", "-0", "٣"] {
        assert_eq!(parse_i64(s).ok(), s.parse::<i64>().ok(), "{s}");
        if let (Err(mine), Err(std)) = (parse_i64(s), s.parse::<i64>()) {
            assert_eq!(mine.message(), std.to_string(), "{s}");
        }
    }
}

#[test]
fn sequence_numbers_from_account_records() {
    assert_eq!(parse_sequence_number(&object(vec![("sequence", text("103"))])), Ok(103));
    assert_eq!(
        parse_sequence_number(&object(vec![("sequence", JsonValue::Number(JsonNumber::PosInt(3)))])),
        Err("Missing sequence field".to_string())
    );
    assert_eq!(
        parse_sequence_number(&object(vec![("sequence", text("x"))])),
        Err("invalid digit found in string".to_string())
    );
}

#[test]
fn account_urls_drop_trailing_slashes() {
    assert_eq!(accounts_url("https://horizon/", "GA"), "https://horizon/accounts/GA");
    assert_eq!(accounts_url("https://horizon///", "GA"), "https://horizon/accounts/GA");
    assert_eq!(accounts_url("https://horizon", "GA"), "https://horizon/accounts/GA");
    assert_eq!(accounts_url("", "GA"), "/accounts/GA");
}

#[test]
fn sdk_error_messages() {
    assert_eq!(
        StellarAidError::SorobanError { code: -1, message: "boom".to_string() }.message(),
        "Soroban RPC error (code -1): boom"
    );
    assert_eq!(StellarAidError::NetworkError("x".to_string()).message(), "Network error: x");
    assert_eq!(StellarAidError::ValidationError("x".to_string()).message(), "Validation error: x");
    assert_eq!(StellarAidError::TransactionFailed("x".to_string()).message(), "Transaction failed: x");
}

#[test]
fn too_deeply_nested_auth_entries_are_refused() {
    let mut invocation = SorobanAuthorizedInvocation {
        function: SorobanAuthorizedFunction::ContractFn(contract_call([9u8; 32])),
        sub_invocations: VecM::default(),
    };
    for _ in 0..200 {
        invocation = SorobanAuthorizedInvocation {
            function: SorobanAuthorizedFunction::ContractFn(contract_call([9u8; 32])),
            sub_invocations: vec![invocation].try_into().unwrap(),
        };
    }
    let deep = SorobanAuthorizationEntry { credentials: SorobanCredentials::SourceAccount, root_invocation: invocation }
        .to_xdr_base64(Limits::none())
        .unwrap();
    assert_eq!(
        interpret_simulation(&simulation_answer(&resource_data_xdr(), vec![text(&deep)])).unwrap_err(),
        SimulationRejection::InvalidAuthEntry
    );
}
