use vstd::prelude::*;

use crate::json::{json_array, json_get, json_get_str, json_str, JsonValue};
use crate::strkey::{decode_account_strkey, decode_contract_strkey, strkey_account_key, strkey_contract_key, strkey_error_text};
use crate::text::{signed_decimal, i64_to_decimal};
use crate::xdr::{auth_entry_to_json, auth_entry_xdr_ok, soroban_data_to_json, soroban_data_xdr_ok};

verus! {

/// Network endpoints used by the SDK transaction builder.
#[derive(Debug, Clone)]
pub struct NetworkConfig {
    pub horizon_url: String,
    pub soroban_rpc_url: String,
}

/// Errors returned by the SDK.
#[derive(Debug, Clone, PartialEq, Eq)]
pub enum StellarAidError {
    NetworkError(String),
    ValidationError(String),
    SorobanError { code: i64, message: String },
    TransactionFailed(String),
}

pub open spec fn sdk_error_text(e: StellarAidError) -> Seq<char> {
    match e {
        StellarAidError::NetworkError(m) => "Network error: "@ + m@,
        StellarAidError::ValidationError(m) => "Validation error: "@ + m@,
        StellarAidError::SorobanError { code, message } =>
            "Soroban RPC error (code "@ + signed_decimal(code as int) + "): "@ + message@,
        StellarAidError::TransactionFailed(m) => "Transaction failed: "@ + m@,
    }
}

impl StellarAidError {
    /// The error's message.
    pub fn message(&self) -> (r: String)
        ensures
            r@ == sdk_error_text(*self),
    {
        match self {
            StellarAidError::NetworkError(m) => {
                let mut s = "Network error: ".to_string();
                s.append(m.as_str());
                s
            },
            StellarAidError::ValidationError(m) => {
                let mut s = "Validation error: ".to_string();
                s.append(m.as_str());
                s
            },
            StellarAidError::SorobanError { code, message } => {
                let mut s = "Soroban RPC error (code ".to_string();
                s.append(i64_to_decimal(*code).as_str());
                s.append("): ");
                s.append(message.as_str());
                s
            },
            StellarAidError::TransactionFailed(m) => {
                let mut s = "Transaction failed: ".to_string();
                s.append(m.as_str());
                s
            },
        }
    }
}

// ---------------------------------------------------------------------------
// Decimal integers
// ---------------------------------------------------------------------------

/// Why a text is not a decimal `i64`.
#[derive(Debug, Clone, Copy, PartialEq, Eq, Structural)]
pub enum IntParseError {
    Empty,
    InvalidDigit,
    PosOverflow,
    NegOverflow,
}

pub open spec fn int_parse_error_text(e: IntParseError) -> Seq<char> {
    match e {
        IntParseError::Empty => "cannot parse integer from empty string"@,
        IntParseError::InvalidDigit => "invalid digit found in string"@,
        IntParseError::PosOverflow => "number too large to fit in target type"@,
        IntParseError::NegOverflow => "number too small to fit in target type"@,
    }
}

impl IntParseError {
    /// The error's message.
    pub fn message(&self) -> (r: &'static str)
        ensures
            r@ == int_parse_error_text(*self),
    {
        match self {
            IntParseError::Empty => "cannot parse integer from empty string",
            IntParseError::InvalidDigit => "invalid digit found in string",
            IntParseError::PosOverflow => "number too large to fit in target type",
            IntParseError::NegOverflow => "number too small to fit in target type",
        }
    }
}

pub open spec fn is_ascii_digit(c: char) -> bool {
    '0' <= c <= '9'
}

/// Reads the digits `ds` left to right onto `acc`, away from zero in the
/// direction `negative` says; the first non-digit or the first step out of
/// range decides the error.
pub open spec fn scan_digits(ds: Seq<char>, acc: int, negative: bool) -> Result<int, IntParseError>
    decreases ds.len(),
{
    if ds.len() == 0 {
        Ok(acc)
    } else if !is_ascii_digit(ds[0]) {
        Err(IntParseError::InvalidDigit)
    } else {
        let d = ds[0] as int - '0' as int;
        let next = if negative {
            acc * 10 - d
        } else {
            acc * 10 + d
        };
        if next > i64::MAX {
            Err(IntParseError::PosOverflow)
        } else if next < i64::MIN {
            Err(IntParseError::NegOverflow)
        } else {
            scan_digits(ds.drop_first(), next, negative)
        }
    }
}

/// A decimal `i64`: an optional `+` or `-` followed by ASCII digits.
pub open spec fn spec_parse_i64(s: Seq<char>) -> Result<i64, IntParseError> {
    if s.len() == 0 {
        Err(IntParseError::Empty)
    } else if (s[0] == '+' || s[0] == '-') && s.len() == 1 {
        Err(IntParseError::InvalidDigit)
    } else {
        let negative = s[0] == '-';
        let digits = if s[0] == '+' || s[0] == '-' {
            s.drop_first()
        } else {
            s
        };
        match scan_digits(digits, 0, negative) {
            Ok(v) => Ok(v as i64),
            Err(e) => Err(e),
        }
    }
}

proof fn lemma_scan_in_range(ds: Seq<char>, acc: int, negative: bool)
    requires
        i64::MIN <= acc <= i64::MAX,
    ensures
        scan_digits(ds, acc, negative) matches Ok(v) ==> i64::MIN <= v <= i64::MAX,
    decreases ds.len(),
{
    if ds.len() > 0 && is_ascii_digit(ds[0]) {
        let d = ds[0] as int - '0' as int;
        let next = if negative {
            acc * 10 - d
        } else {
            acc * 10 + d
        };
        if i64::MIN <= next <= i64::MAX {
            lemma_scan_in_range(ds.drop_first(), next, negative);
        }
    }
}

/// Parses `s` as a decimal `i64`, as `str::parse::<i64>` does.
pub fn parse_i64(s: &str) -> (r: Result<i64, IntParseError>)
    ensures
        r == spec_parse_i64(s@),
{
    let n = s.unicode_len();
    if n == 0 {
        return Err(IntParseError::Empty);
    }
    let first = s.get_char(0);
    if (first == '+' || first == '-') && n == 1 {
        return Err(IntParseError::InvalidDigit);
    }
    let negative = first == '-';
    let start: usize = if first == '+' || first == '-' {
        1
    } else {
        0
    };
    let ghost digits = s@.subrange(start as int, n as int);
    assert(digits =~= if first == '+' || first == '-' { s@.drop_first() } else { s@ });
    let mut acc: i64 = 0;
    let mut i: usize = start;
    while i < n
        invariant
            start <= i <= n,
            n == s@.len(),
            digits == s@.subrange(start as int, n as int),
            scan_digits(digits, 0, negative) == scan_digits(s@.subrange(i as int, n as int), acc as int, negative),
            spec_parse_i64(s@) == (match scan_digits(digits, 0, negative) {
                Ok(v) => Ok(v as i64),
                Err(e) => Err(e),
            }),
        decreases n - i,
    {
        let c = s.get_char(i);
        let ghost rest = s@.subrange(i as int, n as int);
        assert(rest.len() > 0);
        assert(rest[0] == c);
        assert(rest.drop_first() =~= s@.subrange(i + 1, n as int));
        if !('0' <= c && c <= '9') {
            return Err(IntParseError::InvalidDigit);
        }
        let d = (c as u32 - '0' as u32) as i128;
        let next: i128 = if negative {
            acc as i128 * 10 - d
        } else {
            acc as i128 * 10 + d
        };
        if next > i64::MAX as i128 {
            return Err(IntParseError::PosOverflow);
        }
        if next < i64::MIN as i128 {
            return Err(IntParseError::NegOverflow);
        }
        acc = next as i64;
        i = i + 1;
    }
    assert(s@.subrange(n as int, n as int) =~= Seq::<char>::empty());
    Ok(acc)
}

// ---------------------------------------------------------------------------
// Transaction building
// ---------------------------------------------------------------------------

/// The high 64 bits of `amount`, as a signed number.
pub open spec fn i128_hi(amount: i128) -> i64 {
    (amount >> 64u32) as i64
}

/// The low 64 bits of `amount`.
pub open spec fn i128_lo(amount: i128) -> u64 {
    (amount & 0xFFFF_FFFF_FFFF_FFFFi128) as u64
}

/// Splits `amount` into the two halves a contract argument carries it in:
/// `amount == hi * 2^64 + lo`.
pub fn i128_parts(amount: i128) -> (parts: (i64, u64))
    ensures
        parts == (i128_hi(amount), i128_lo(amount)),
        parts.0 as int * 0x1_0000_0000_0000_0000 + parts.1 as int == amount as int,
{
    let hi = (amount >> 64u32) as i64;
    let lo = (amount & 0xFFFF_FFFF_FFFF_FFFFi128) as u64;
    assert(((amount >> 64u32) as i64) as int * 0x1_0000_0000_0000_0000 + ((amount & 0xFFFF_FFFF_FFFF_FFFFi128) as u64) as int
        == amount as int) by (bit_vector);
    (hi, lo)
}

/// Decodes an account strkey (`G...`) into its 32-byte public key, or says
/// why it is not one.
pub fn parse_account_id(address: &str) -> (r: Result<Vec<u8>, String>)
    ensures
        r is Ok <==> strkey_account_key(address@) is Some,
        r matches Ok(k) ==> k@ == strkey_account_key(address@)->0 && k@.len() == 32,
        r matches Err(e) ==> e@ == "Invalid address "@ + address@ + ": "@ + strkey_error_text(),
{
    match decode_account_strkey(address) {
        Ok(key) => Ok(key),
        Err(e) => {
            let mut msg = "Invalid address ".to_string();
            msg.append(address);
            msg.append(": ");
            msg.append(e.as_str());
            Err(msg)
        },
    }
}

/// The 32-byte hash of a contract strkey (`C...`), or 32 zero bytes when
/// the text is not one.
pub fn contract_id_or_zero(contract_id: &str) -> (r: Vec<u8>)
    ensures
        strkey_contract_key(contract_id@) matches Some(k) ==> r@ == k,
        strkey_contract_key(contract_id@) is None ==> r@ == Seq::new(32, |i: int| 0u8),
        r@.len() == 32,
{
    match decode_contract_strkey(contract_id) {
        Ok(key) => key,
        Err(_) => {
            let mut zeros: Vec<u8> = Vec::new();
            let mut i: usize = 0;
            while i < 32
                invariant
                    0 <= i <= 32,
                    zeros@ =~= Seq::new(i as nat, |j: int| 0u8),
                decreases 32 - i,
            {
                zeros.push(0u8);
                i = i + 1;
            }
            zeros
        },
    }
}

/// An argument of a contract call.
#[derive(Debug, Clone, PartialEq, Eq)]
pub enum ScArg {
    U64(u64),
    /// A 128-bit integer as its signed high and unsigned low halves.
    I128 { hi: i64, lo: u64 },
    /// The address of the account with this ed25519 key.
    Account(Vec<u8>),
}

/// An `InvokeHostFunction` operation calling `function_name` on the contract
/// with hash `contract_id` with the arguments `args`, its authorisation
/// entries `auth` (base64 XDR) and its own source account, if any.
#[derive(Debug, Clone)]
pub struct DonateOperation {
    pub source_account: Option<Vec<u8>>,
    pub contract_id: Vec<u8>,
    pub function_name: &'static str,
    pub args: Vec<ScArg>,
    pub auth: Vec<String>,
}

/// A transaction of one operation: its source account's key, fee, sequence
/// number, time bounds (`None`: no preconditions), memo id (`None`: no
/// memo), operation, and, once simulated, its Soroban resource data (base64
/// XDR).
#[derive(Debug, Clone)]
pub struct DonateTransaction {
    pub source_key: Vec<u8>,
    pub fee: u32,
    pub seq_num: i64,
    pub time_bounds: Option<(u64, u64)>,
    pub memo_id: Option<u64>,
    pub operation: DonateOperation,
    pub soroban_data: Option<String>,
}

/// Fee of the unsimulated transaction, and base fee added to the simulated
/// resource fee.
pub const BASE_FEE: u32 = 100;

/// `args` are those of `donate`: `(campaign_id: u64, amount: i128 as hi and
/// lo, donor: the account with key `donor_key`)`, in that order.
pub open spec fn donate_args(args: Seq<ScArg>, campaign_id: u64, hi: i64, lo: u64, donor_key: Seq<u8>) -> bool {
    &&& args.len() == 3
    &&& args[0] == ScArg::U64(campaign_id)
    &&& args[1] == (ScArg::I128 { hi, lo })
    &&& args[2] matches ScArg::Account(k) && k@ == donor_key
}

/// The `donate` call of `donor` for `amount` to campaign `campaign_id` on the
/// contract `contract_id`: no source account of its own, no authorisation
/// entries yet.
pub fn build_donate_operation(donor: &str, campaign_id: u64, amount: i128, contract_id: Vec<u8>) -> (r: Result<DonateOperation, String>)
    ensures
        r is Ok <==> strkey_account_key(donor@) is Some,
        r matches Ok(op) ==> {
            &&& op.source_account is None
            &&& op.contract_id@ == contract_id@
            &&& op.function_name@ == "donate"@
            &&& donate_args(op.args@, campaign_id, i128_hi(amount), i128_lo(amount), strkey_account_key(donor@)->0)
            &&& op.auth@.len() == 0
        },
        r matches Err(e) ==> e@ == "Invalid address "@ + donor@ + ": "@ + strkey_error_text(),
{
    let donor_key = match parse_account_id(donor) {
        Ok(k) => k,
        Err(e) => {
            return Err(e);
        },
    };
    let (hi, lo) = i128_parts(amount);
    let mut args: Vec<ScArg> = Vec::new();
    args.push(ScArg::U64(campaign_id));
    args.push(ScArg::I128 { hi, lo });
    args.push(ScArg::Account(donor_key));
    Ok(DonateOperation { source_account: None, contract_id, function_name: "donate", args, auth: Vec::new() })
}

/// The unsimulated `donate` transaction of `donor`, whose account's current
/// sequence number is `seq_num`: fee 100, the next sequence number, no
/// preconditions, no memo, no resource data or authorisation yet.
pub fn prepare_donate_transaction(
    donor: &str,
    campaign_id: u64,
    amount: i128,
    contract_id: Vec<u8>,
    seq_num: i64,
) -> (r: Result<DonateTransaction, StellarAidError>)
    requires
        seq_num < i64::MAX,
    ensures
        r is Ok <==> strkey_account_key(donor@) is Some,
        r matches Ok(tx) ==> {
            &&& tx.source_key@ == strkey_account_key(donor@)->0
            &&& tx.fee == BASE_FEE
            &&& tx.seq_num == seq_num + 1
            &&& tx.time_bounds is None
            &&& tx.memo_id is None
            &&& tx.operation.source_account is None
            &&& tx.operation.contract_id@ == contract_id@
            &&& tx.operation.function_name@ == "donate"@
            &&& donate_args(tx.operation.args@, campaign_id, i128_hi(amount), i128_lo(amount), strkey_account_key(donor@)->0)
            &&& tx.operation.auth@.len() == 0
            &&& tx.soroban_data is None
        },
        r matches Err(StellarAidError::ValidationError(e)) ==> e@ == "Invalid address "@ + donor@ + ": "@
            + strkey_error_text(),
        r is Err ==> r->Err_0 is ValidationError,
{
    let operation = match build_donate_operation(donor, campaign_id, amount, contract_id) {
        Ok(op) => op,
        Err(e) => {
            return Err(StellarAidError::ValidationError(e));
        },
    };
    let source_key = match parse_account_id(donor) {
        Ok(k) => k,
        Err(e) => {
            return Err(StellarAidError::ValidationError(e));
        },
    };
    Ok(
        DonateTransaction {
            source_key,
            fee: BASE_FEE,
            seq_num: seq_num + 1,
            time_bounds: None,
            memo_id: None,
            operation,
            soroban_data: None,
        },
    )
}

/// What a successful simulation reports: the minimum resource fee, the
/// resource data and the authorisation entries the call needs.
#[derive(Debug, Clone)]
pub struct SimulationResult {
    pub min_fee: i64,
    pub transaction_data: String,
    pub auth: Vec<String>,
}

/// The transaction with the simulation applied: its fee is the resource fee
/// (its low 32 bits) plus the base fee, it carries the resource data, and
/// its operation the authorisation entries; all else is kept.
pub fn apply_simulation(tx: DonateTransaction, sim: SimulationResult) -> (r: DonateTransaction)
    requires
        (sim.min_fee as u32) + BASE_FEE <= u32::MAX,
    ensures
        r.fee == (sim.min_fee as u32) + BASE_FEE,
        r.soroban_data == Some(sim.transaction_data),
        r.operation.auth@ == sim.auth@,
        r.source_key@ == tx.source_key@,
        r.seq_num == tx.seq_num,
        r.time_bounds == tx.time_bounds,
        r.memo_id == tx.memo_id,
        r.operation.source_account == tx.operation.source_account,
        r.operation.contract_id@ == tx.operation.contract_id@,
        r.operation.function_name == tx.operation.function_name,
        r.operation.args@ == tx.operation.args@,
{
    let fee = (sim.min_fee as u32) + BASE_FEE;
    let operation = DonateOperation {
        source_account: tx.operation.source_account,
        contract_id: tx.operation.contract_id,
        function_name: tx.operation.function_name,
        args: tx.operation.args,
        auth: sim.auth,
    };
    DonateTransaction {
        source_key: tx.source_key,
        fee,
        seq_num: tx.seq_num,
        time_bounds: tx.time_bounds,
        memo_id: tx.memo_id,
        operation,
        soroban_data: Some(sim.transaction_data),
    }
}

// ---------------------------------------------------------------------------
// Reading Horizon and Soroban RPC answers
// ---------------------------------------------------------------------------

/// The length of `s` once trailing `/` characters are removed.
pub open spec fn trimmed_len(s: Seq<char>) -> nat
    decreases s.len(),
{
    if s.len() > 0 && s.last() == '/' {
        trimmed_len(s.drop_last())
    } else {
        s.len()
    }
}

proof fn lemma_trimmed_len_bound(s: Seq<char>)
    ensures
        trimmed_len(s) <= s.len(),
    decreases s.len(),
{
    if s.len() > 0 && s.last() == '/' {
        lemma_trimmed_len_bound(s.drop_last());
    }
}

/// `{horizon_url without trailing slashes}/accounts/{address}`.
pub fn accounts_url(horizon_url: &str, address: &str) -> (url: String)
    ensures
        url@ == horizon_url@.subrange(0, trimmed_len(horizon_url@) as int) + "/accounts/"@ + address@,
{
    let n = horizon_url.unicode_len();
    let mut k: usize = n;
    proof {
        lemma_trimmed_len_bound(horizon_url@);
    }
    assert(horizon_url@.subrange(0, n as int) =~= horizon_url@);
    while k > 0 && horizon_url.get_char(k - 1) == '/'
        invariant
            0 <= k <= n,
            n == horizon_url@.len(),
            trimmed_len(horizon_url@) == trimmed_len(horizon_url@.subrange(0, k as int)),
        decreases k,
    {
        let ghost prefix = horizon_url@.subrange(0, k as int);
        assert(prefix.last() == '/');
        assert(prefix.drop_last() =~= horizon_url@.subrange(0, k - 1));
        k = k - 1;
    }
    proof {
        let prefix = horizon_url@.subrange(0, k as int);
        assert(trimmed_len(prefix) == k);
    }
    let mut url = horizon_url.substring_char(0, k).to_string();
    url.append("/accounts/");
    url.append(address);
    url
}

/// The account sequence number in a Horizon account record: its `sequence`
/// member, a decimal string.
pub open spec fn spec_sequence_number(account: JsonValue) -> Result<i64, Seq<char>> {
    match json_get_str(account, "sequence"@) {
        None => Err("Missing sequence field"@),
        Some(text) => match spec_parse_i64(text) {
            Ok(v) => Ok(v),
            Err(e) => Err(int_parse_error_text(e)),
        },
    }
}

/// Reads the sequence number out of a Horizon account record.
pub fn parse_sequence_number(account: &JsonValue) -> (r: Result<i64, String>)
    ensures
        r is Ok <==> spec_sequence_number(*account) is Ok,
        r matches Ok(v) ==> spec_sequence_number(*account) == Ok::<i64, Seq<char>>(v),
        r matches Err(e) ==> spec_sequence_number(*account) == Err::<i64, Seq<char>>(e@),
{
    let text = match account.get("sequence") {
        Some(v) => match v.as_str() {
            Some(s) => s,
            None => {
                return Err("Missing sequence field".to_string());
            },
        },
        None => {
            return Err("Missing sequence field".to_string());
        },
    };
    match parse_i64(text) {
        Ok(v) => Ok(v),
        Err(e) => Err(e.message().to_string()),
    }
}

/// Why a simulation answer is refused.
#[derive(Debug, Clone, Copy, PartialEq, Eq, Structural)]
pub enum SimulationRejection {
    /// The answer has an `error` member: the RPC call failed.
    RpcError,
    /// The answer has no `result` member.
    MissingResult,
    /// The result has an `error` member: the simulation failed.
    SimulationFailed,
    /// The result has no `transactionData` string.
    MissingTransactionData,
    /// The `transactionData` string is not base64 XDR of Soroban resource data.
    InvalidTransactionData,
    /// An authorisation entry is not base64 XDR of one.
    InvalidAuthEntry,
}

/// The message a refused simulation is reported with. `detail` is the JSON
/// text of the `error` member for `RpcError` and `SimulationFailed`.
pub open spec fn rejection_text(r: SimulationRejection, detail: Seq<char>) -> Seq<char> {
    match r {
        SimulationRejection::RpcError => detail,
        SimulationRejection::MissingResult => "Missing result in RPC response"@,
        SimulationRejection::SimulationFailed => "Simulation failed: "@ + detail,
        SimulationRejection::MissingTransactionData => "Missing transactionData in simulation result"@,
        SimulationRejection::InvalidTransactionData => "Failed to parse transactionData XDR"@,
        SimulationRejection::InvalidAuthEntry => "Failed to parse auth entry XDR"@,
    }
}

/// The message of rejection `r`; `detail` is the JSON text of the answer's
/// (`RpcError`) or the result's (`SimulationFailed`) `error` member.
pub fn rejection_message(r: SimulationRejection, detail: &str) -> (m: String)
    ensures
        m@ == rejection_text(r, detail@),
{
    match r {
        SimulationRejection::RpcError => detail.to_string(),
        SimulationRejection::MissingResult => "Missing result in RPC response".to_string(),
        SimulationRejection::SimulationFailed => {
            let mut m = "Simulation failed: ".to_string();
            m.append(detail);
            m
        },
        SimulationRejection::MissingTransactionData => "Missing transactionData in simulation result".to_string(),
        SimulationRejection::InvalidTransactionData => "Failed to parse transactionData XDR".to_string(),
        SimulationRejection::InvalidAuthEntry => "Failed to parse auth entry XDR".to_string(),
    }
}

/// The string items of a JSON array, in order.
pub open spec fn string_items(items: Seq<JsonValue>) -> Seq<Seq<char>>
    decreases items.len(),
{
    if items.len() == 0 {
        seq![]
    } else {
        string_items(items.drop_last()) + match json_str(items.last()) {
            Some(s) => seq![s],
            None => seq![],
        }
    }
}

/// The authorisation entries of a simulation result: the strings in the
/// `auth` array of the first element of its `results` array.
pub open spec fn spec_auth_entries(result: JsonValue) -> Seq<Seq<char>> {
    match json_get(result, "results"@) {
        Some(rs) => match json_array(rs) {
            Some(items) => if items.len() > 0 {
                match json_get(items[0], "auth"@) {
                    Some(a) => match json_array(a) {
                        Some(entries) => string_items(entries),
                        None => seq![],
                    },
                    None => seq![],
                }
            } else {
                seq![]
            },
            None => seq![],
        },
        None => seq![],
    }
}

/// The minimum resource fee of a simulation result: its `minResourceFee`
/// string as a decimal, 0 when absent or not a number.
pub open spec fn spec_min_fee(result: JsonValue) -> i64 {
    let text = match json_get_str(result, "minResourceFee"@) {
        Some(t) => t,
        None => "0"@,
    };
    match spec_parse_i64(text) {
        Ok(v) => v,
        Err(_) => 0,
    }
}

/// Every entry is base64 XDR of an authorisation entry.
pub open spec fn all_auth_ok(entries: Seq<Seq<char>>) -> bool {
    forall|i: int| 0 <= i < entries.len() ==> #[trigger] auth_entry_xdr_ok(entries[i])
}

/// The answer of a `simulateTransaction` call, read.
pub open spec fn spec_simulation(answer: JsonValue) -> Result<(i64, Seq<char>, Seq<Seq<char>>), SimulationRejection> {
    if json_get(answer, "error"@) is Some {
        Err(SimulationRejection::RpcError)
    } else {
        match json_get(answer, "result"@) {
            None => Err(SimulationRejection::MissingResult),
            Some(result) => if json_get(result, "error"@) is Some {
                Err(SimulationRejection::SimulationFailed)
            } else {
                match json_get_str(result, "transactionData"@) {
                    None => Err(SimulationRejection::MissingTransactionData),
                    Some(data) => if !soroban_data_xdr_ok(data) {
                        Err(SimulationRejection::InvalidTransactionData)
                    } else if !all_auth_ok(spec_auth_entries(result)) {
                        Err(SimulationRejection::InvalidAuthEntry)
                    } else {
                        Ok((spec_min_fee(result), data, spec_auth_entries(result)))
                    },
                }
            },
        }
    }
}

pub open spec fn simulation_view(s: SimulationResult) -> (i64, Seq<char>, Seq<Seq<char>>) {
    (s.min_fee, s.transaction_data@, s.auth@.map_values(|a: String| a@))
}

/// Collects the string items of `items`.
fn collect_strings(items: &Vec<JsonValue>) -> (r: Vec<String>)
    ensures
        r@.map_values(|a: String| a@) =~= string_items(items@),
{
    let mut out: Vec<String> = Vec::new();
    let n = items.len();
    let mut i: usize = 0;
    while i < n
        invariant
            0 <= i <= n,
            n == items@.len(),
            out@.map_values(|a: String| a@) =~= string_items(items@.take(i as int)),
        decreases n - i,
    {
        assert(items@.take(i + 1).drop_last() =~= items@.take(i as int));
        assert(items@.take(i + 1).last() == items@[i as int]);
        let ghost before = out@;
        match items[i].as_str() {
            Some(s) => {
                let t = s.to_string();
                out.push(t);
                assert(out@.map_values(|a: String| a@) =~= before.map_values(|a: String| a@).push(t@));
            },
            None => {},
        }
        i = i + 1;
    }
    assert(items@.take(n as int) =~= items@);
    out
}

/// Whether every entry of `auth` is base64 XDR of an authorisation entry.
fn all_auth_valid(auth: &Vec<String>) -> (ok: bool)
    ensures
        ok == all_auth_ok(auth@.map_values(|a: String| a@)),
{
    let n = auth.len();
    let mut i: usize = 0;
    while i < n
        invariant
            0 <= i <= n,
            n == auth@.len(),
            forall|j: int| 0 <= j < i ==> #[trigger] auth_entry_xdr_ok(auth@[j]@),
        decreases n - i,
    {
        if auth_entry_to_json(auth[i].as_str()).is_none() {
            assert(!auth_entry_xdr_ok(auth@.map_values(|a: String| a@)[i as int]));
            return false;
        }
        i = i + 1;
    }
    let ghost views = auth@.map_values(|a: String| a@);
    assert forall|j: int| 0 <= j < n implies #[trigger] auth_entry_xdr_ok(views[j]) by {
        assert(views[j] == auth@[j]@);
    }
    true
}

/// Reads the answer of a `simulateTransaction` call.
pub fn interpret_simulation(answer: &JsonValue) -> (r: Result<SimulationResult, SimulationRejection>)
    ensures
        r is Ok <==> spec_simulation(*answer) is Ok,
        r matches Ok(sim) ==> spec_simulation(*answer) == Ok::<(i64, Seq<char>, Seq<Seq<char>>), SimulationRejection>(
            simulation_view(sim),
        ),
        r matches Err(e) ==> spec_simulation(*answer) == Err::<(i64, Seq<char>, Seq<Seq<char>>), SimulationRejection>(e),
{
    if answer.get("error").is_some() {
        return Err(SimulationRejection::RpcError);
    }
    let result = match answer.get("result") {
        Some(r) => r,
        None => {
            return Err(SimulationRejection::MissingResult);
        },
    };
    if result.get("error").is_some() {
        return Err(SimulationRejection::SimulationFailed);
    }
    let fee_text = match result.get("minResourceFee") {
        Some(v) => match v.as_str() {
            Some(t) => t,
            None => "0",
        },
        None => "0",
    };
    let min_fee = match parse_i64(fee_text) {
        Ok(v) => v,
        Err(_) => 0,
    };
    let transaction_data = match result.get("transactionData") {
        Some(v) => match v.as_str() {
            Some(t) => t.to_string(),
            None => {
                return Err(SimulationRejection::MissingTransactionData);
            },
        },
        None => {
            return Err(SimulationRejection::MissingTransactionData);
        },
    };
    let mut auth: Vec<String> = Vec::new();
    assert(auth@.map_values(|a: String| a@) =~= Seq::<Seq<char>>::empty());
    if let Some(results) = result.get("results") {
        if let Some(items) = results.as_array() {
            if items.len() > 0 {
                if let Some(entries) = items[0].get("auth") {
                    if let Some(arr) = entries.as_array() {
                        auth = collect_strings(arr);
                    }
                }
            }
        }
    }
    if soroban_data_to_json(transaction_data.as_str()).is_none() {
        return Err(SimulationRejection::InvalidTransactionData);
    }
    if !all_auth_valid(&auth) {
        return Err(SimulationRejection::InvalidAuthEntry);
    }
    Ok(SimulationResult { min_fee, transaction_data, auth })
}

} // verus!
