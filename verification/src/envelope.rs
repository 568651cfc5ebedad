use vstd::prelude::*;

use crate::sdk::{DonateOperation, DonateTransaction, ScArg};
use crate::strkey::{account_strkey, contract_strkey, encode_account_strkey, encode_contract_strkey};
use crate::text::{decimal, i64_to_decimal, signed_decimal, u64_to_decimal};
use crate::xdr::{auth_entry_json, auth_entry_to_json, envelope_json_to_xdr, envelope_xdr, soroban_data_json, soroban_data_to_json};

verus! {

// The transaction is written in the JSON form that `stellar-xdr` reads a
// `TransactionEnvelope` from, then encoded by it to base64 XDR.

pub open spec fn quoted(t: Seq<char>) -> Seq<char> {
    "\""@ + t + "\""@
}

/// `items` separated by commas.
pub open spec fn joined(items: Seq<Seq<char>>) -> Seq<char>
    decreases items.len(),
{
    if items.len() == 0 {
        Seq::empty()
    } else if items.len() == 1 {
        items[0]
    } else {
        joined(items.drop_last()) + ","@ + items.last()
    }
}

/// An argument as an `ScVal`.
pub open spec fn arg_json(a: ScArg) -> Seq<char> {
    match a {
        ScArg::U64(v) => "{\"u64\":"@ + decimal(v as nat) + "}"@,
        ScArg::I128 { hi, lo } => "{\"i128\":{\"hi\":"@ + signed_decimal(hi as int) + ",\"lo\":"@ + decimal(lo as nat)
            + "}}"@,
        ScArg::Account(k) => "{\"address\":"@ + quoted(account_strkey(k@)) + "}"@,
    }
}

pub open spec fn args_json(args: Seq<ScArg>) -> Seq<char> {
    "["@ + joined(args.map_values(|a: ScArg| arg_json(a))) + "]"@
}

/// The JSON forms of the authorisation entries, when each is valid XDR.
pub open spec fn auth_jsons(auth: Seq<Seq<char>>) -> Option<Seq<Seq<char>>> {
    if forall|i: int| 0 <= i < auth.len() ==> #[trigger] auth_entry_json(auth[i]) is Some {
        Some(Seq::new(auth.len(), |i: int| auth_entry_json(auth[i])->0))
    } else {
        None
    }
}

/// An optional account: `null`, or its strkey.
pub open spec fn account_json(k: Option<Seq<u8>>) -> Seq<char> {
    match k {
        None => "null"@,
        Some(k) => quoted(account_strkey(k)),
    }
}

/// The preconditions: none, or time bounds.
pub open spec fn cond_json(time_bounds: Option<(u64, u64)>) -> Seq<char> {
    match time_bounds {
        None => "\"none\""@,
        Some((min, max)) => "{\"time\":{\"min_time\":"@ + decimal(min as nat) + ",\"max_time\":"@ + decimal(max as nat)
            + "}}"@,
    }
}

/// The memo: none, or an id.
pub open spec fn memo_json(memo_id: Option<u64>) -> Seq<char> {
    match memo_id {
        None => "\"none\""@,
        Some(id) => "{\"id\":"@ + decimal(id as nat) + "}"@,
    }
}

/// The transaction extension: `v0`, or `v1` with the resource data.
pub open spec fn ext_json(data: Option<Seq<char>>) -> Seq<char> {
    match data {
        None => "\"v0\""@,
        Some(d) => "{\"v1\":"@ + d + "}"@,
    }
}

/// The operation, as an `InvokeHostFunction` of an `InvokeContract` call,
/// with the JSON forms `auth` of its authorisation entries.
pub open spec fn op_json(op: DonateOperation, auth: Seq<Seq<char>>) -> Seq<char> {
    "{\"source_account\":"@ + account_json(match op.source_account {
        None => None,
        Some(k) => Some(k@),
    }) + ",\"body\":{\"invoke_host_function\":{\"host_function\":{\"invoke_contract\":{\"contract_address\":"@
        + quoted(contract_strkey(op.contract_id@)) + ",\"function_name\":"@ + quoted(op.function_name@) + ",\"args\":"@
        + args_json(op.args@) + "}},\"auth\":["@ + joined(auth) + "]}}}"@
}

/// The unsigned envelope of `tx`: a `tx` (v1) envelope of the transaction,
/// with no signatures. `auth` and `data` are the JSON forms of its
/// authorisation entries and resource data.
pub open spec fn tx_json(tx: DonateTransaction, auth: Seq<Seq<char>>, data: Option<Seq<char>>) -> Seq<char> {
    "{\"tx\":{\"tx\":{\"source_account\":"@ + quoted(account_strkey(tx.source_key@)) + ",\"fee\":"@ + decimal(
        tx.fee as nat,
    ) + ",\"seq_num\":"@ + signed_decimal(tx.seq_num as int) + ",\"cond\":"@ + cond_json(tx.time_bounds)
        + ",\"memo\":"@ + memo_json(tx.memo_id) + ",\"operations\":["@ + op_json(tx.operation, auth)
        + "],\"ext\":"@ + ext_json(data) + "},\"signatures\":[]}}"@
}

/// The JSON form of `tx`'s envelope, when its resource data and
/// authorisation entries are valid XDR.
pub open spec fn envelope_json(tx: DonateTransaction) -> Option<Seq<char>> {
    let data: Option<Option<Seq<char>>> = match tx.soroban_data {
        None => Some(None),
        Some(d) => match soroban_data_json(d@) {
            None => None,
            Some(j) => Some(Some(j)),
        },
    };
    match (auth_jsons(tx.operation.auth@.map_values(|a: String| a@)), data) {
        (Some(auth), Some(data)) => Some(tx_json(tx, auth, data)),
        _ => None,
    }
}

/// Every key in `tx` is 32 bytes long.
pub open spec fn keys_ok(tx: DonateTransaction) -> bool {
    &&& tx.source_key@.len() == 32
    &&& tx.operation.contract_id@.len() == 32
    &&& (tx.operation.source_account matches Some(k) ==> k@.len() == 32)
    &&& forall|i: int| 0 <= i < tx.operation.args@.len() ==> (#[trigger] tx.operation.args@[i] matches ScArg::Account(
        k,
    ) ==> k@.len() == 32)
}

/// The base64 XDR of `tx`'s unsigned envelope, when its keys are 32 bytes
/// long and its resource data and authorisation entries are valid XDR.
pub open spec fn donate_envelope_xdr(tx: DonateTransaction) -> Option<Seq<char>> {
    if keys_ok(tx) {
        match envelope_json(tx) {
            Some(j) => envelope_xdr(j),
            None => None,
        }
    } else {
        None
    }
}

fn join_strings(items: &Vec<String>) -> (r: String)
    ensures
        r@ == joined(items@.map_values(|s: String| s@)),
{
    let ghost views = items@.map_values(|s: String| s@);
    let mut out = String::new();
    let n = items.len();
    let mut i: usize = 0;
    while i < n
        invariant
            0 <= i <= n,
            n == items@.len(),
            views == items@.map_values(|s: String| s@),
            out@ == joined(views.take(i as int)),
        decreases n - i,
    {
        assert(views.take(i + 1).drop_last() =~= views.take(i as int));
        assert(views.take(i + 1).last() == items@[i as int]@);
        if i > 0 {
            out.append(",");
        }
        out.append(items[i].as_str());
        proof {
            if i == 0 {
                assert(views.take(1)[0] == items@[0]@);
                assert(out@ =~= joined(views.take(1)));
            } else {
                assert(out@ =~= joined(views.take(i + 1)));
            }
        }
        i = i + 1;
    }
    assert(views.take(n as int) =~= views);
    out
}

fn arg_to_json(a: &ScArg) -> (r: String)
    requires
        a matches ScArg::Account(k) ==> k@.len() == 32,
    ensures
        r@ == arg_json(*a),
{
    match a {
        ScArg::U64(v) => {
            let mut s = "{\"u64\":".to_string();
            s.append(u64_to_decimal(*v).as_str());
            s.append("}");
            s
        },
        ScArg::I128 { hi, lo } => {
            let mut s = "{\"i128\":{\"hi\":".to_string();
            s.append(i64_to_decimal(*hi).as_str());
            s.append(",\"lo\":");
            s.append(u64_to_decimal(*lo).as_str());
            s.append("}}");
            s
        },
        ScArg::Account(k) => {
            let mut s = "{\"address\":".to_string();
            s.append("\"");
            s.append(encode_account_strkey(k).as_str());
            s.append("\"");
            s.append("}");
            s
        },
    }
}

fn args_to_json(args: &Vec<ScArg>) -> (r: String)
    requires
        forall|i: int| 0 <= i < args@.len() ==> (#[trigger] args@[i] matches ScArg::Account(k) ==> k@.len() == 32),
    ensures
        r@ == args_json(args@),
{
    let mut items: Vec<String> = Vec::new();
    let n = args.len();
    let mut i: usize = 0;
    while i < n
        invariant
            0 <= i <= n,
            n == args@.len(),
            forall|j: int| 0 <= j < args@.len() ==> (#[trigger] args@[j] matches ScArg::Account(k) ==> k@.len() == 32),
            items@.map_values(|s: String| s@) =~= args@.take(i as int).map_values(|a: ScArg| arg_json(a)),
        decreases n - i,
    {
        assert(args@.take(i + 1) =~= args@.take(i as int).push(args@[i as int]));
        let j = arg_to_json(&args[i]);
        let ghost before = items@;
        let ghost jv = j@;
        items.push(j);
        assert(items@ =~= before.push(j));
        assert(items@.map_values(|s: String| s@) =~= before.map_values(|s: String| s@).push(jv));
        assert(args@.take(i + 1).map_values(|a: ScArg| arg_json(a)) =~= args@.take(i as int).map_values(
            |a: ScArg| arg_json(a),
        ).push(arg_json(args@[i as int])));
        i = i + 1;
    }
    assert(args@.take(n as int) =~= args@);
    let mut s = "[".to_string();
    s.append(join_strings(&items).as_str());
    s.append("]");
    s
}

/// The JSON forms of the authorisation entries `auth`.
fn auth_to_json(auth: &Vec<String>) -> (r: Option<Vec<String>>)
    ensures
        r is Some <==> auth_jsons(auth@.map_values(|a: String| a@)) is Some,
        r matches Some(v) ==> auth_jsons(auth@.map_values(|a: String| a@)) == Some(v@.map_values(|s: String| s@)),
{
    let ghost views = auth@.map_values(|a: String| a@);
    let mut out: Vec<String> = Vec::new();
    let n = auth.len();
    let mut i: usize = 0;
    while i < n
        invariant
            0 <= i <= n,
            n == views.len(),
            views == auth@.map_values(|a: String| a@),
            out@.len() == i,
            forall|j: int| 0 <= j < i ==> #[trigger] auth_entry_json(views[j]) == Some(out@[j]@),
        decreases n - i,
    {
        match auth_entry_to_json(auth[i].as_str()) {
            None => {
                assert(!(auth_entry_json(views[i as int]) is Some));
                return None;
            },
            Some(j) => {
                out.push(j);
            },
        }
        i = i + 1;
    }
    assert(forall|j: int| 0 <= j < views.len() ==> #[trigger] auth_entry_json(views[j]) is Some);
    assert(out@.map_values(|s: String| s@) =~= Seq::new(views.len(), |k: int| auth_entry_json(views[k])->0));
    Some(out)
}

fn keys_are_32_bytes(tx: &DonateTransaction) -> (ok: bool)
    ensures
        ok == keys_ok(*tx),
{
    if tx.source_key.len() != 32 || tx.operation.contract_id.len() != 32 {
        return false;
    }
    match &tx.operation.source_account {
        Some(k) => {
            if k.len() != 32 {
                return false;
            }
        },
        None => {},
    }
    let args = &tx.operation.args;
    let n = args.len();
    let mut i: usize = 0;
    while i < n
        invariant
            0 <= i <= n,
            n == args@.len(),
            args == &tx.operation.args,
            forall|j: int| 0 <= j < i ==> (#[trigger] args@[j] matches ScArg::Account(k) ==> k@.len() == 32),
        decreases n - i,
    {
        match &args[i] {
            ScArg::Account(k) => {
                if k.len() != 32 {
                    return false;
                }
            },
            _ => {},
        }
        i = i + 1;
    }
    true
}

fn op_to_json(op: &DonateOperation, auth: &Vec<String>) -> (r: String)
    requires
        op.contract_id@.len() == 32,
        op.source_account matches Some(k) ==> k@.len() == 32,
        forall|i: int| 0 <= i < op.args@.len() ==> (#[trigger] op.args@[i] matches ScArg::Account(k) ==> k@.len() == 32),
    ensures
        r@ == op_json(*op, auth@.map_values(|s: String| s@)),
{
    let mut s = "{\"source_account\":".to_string();
    match &op.source_account {
        None => {
            s.append("null");
        },
        Some(k) => {
            s.append("\"");
            s.append(encode_account_strkey(k).as_str());
            s.append("\"");
        },
    }
    s.append(
        ",\"body\":{\"invoke_host_function\":{\"host_function\":{\"invoke_contract\":{\"contract_address\":",
    );
    s.append("\"");
    s.append(encode_contract_strkey(&op.contract_id).as_str());
    s.append("\"");
    s.append(",\"function_name\":");
    s.append("\"");
    s.append(op.function_name);
    s.append("\"");
    s.append(",\"args\":");
    s.append(args_to_json(&op.args).as_str());
    s.append("}},\"auth\":[");
    s.append(join_strings(auth).as_str());
    s.append("]}}}");
    s
}

fn cond_to_json(time_bounds: Option<(u64, u64)>) -> (r: String)
    ensures
        r@ == cond_json(time_bounds),
{
    match time_bounds {
        None => "\"none\"".to_string(),
        Some((min, max)) => {
            let mut s = "{\"time\":{\"min_time\":".to_string();
            s.append(u64_to_decimal(min).as_str());
            s.append(",\"max_time\":");
            s.append(u64_to_decimal(max).as_str());
            s.append("}}");
            s
        },
    }
}

fn memo_to_json(memo_id: Option<u64>) -> (r: String)
    ensures
        r@ == memo_json(memo_id),
{
    match memo_id {
        None => "\"none\"".to_string(),
        Some(id) => {
            let mut s = "{\"id\":".to_string();
            s.append(u64_to_decimal(id).as_str());
            s.append("}");
            s
        },
    }
}

fn ext_to_json(data: &Option<String>) -> (r: String)
    ensures
        r@ == ext_json(
            match data {
                None => None,
                Some(d) => Some(d@),
            },
        ),
{
    match data {
        None => "\"v0\"".to_string(),
        Some(d) => {
            let mut s = "{\"v1\":".to_string();
            s.append(d.as_str());
            s.append("}");
            s
        },
    }
}

#[verifier::rlimit(40)]
fn tx_to_json(tx: &DonateTransaction, auth: &Vec<String>, data: Option<String>) -> (r: String)
    requires
        keys_ok(*tx),
    ensures
        r@ == tx_json(
            *tx,
            auth@.map_values(|s: String| s@),
            match data {
                None => None,
                Some(d) => Some(d@),
            },
        ),
{
    let source = encode_account_strkey(&tx.source_key);
    let fee = u64_to_decimal(tx.fee as u64);
    let seq = i64_to_decimal(tx.seq_num);
    let cond = cond_to_json(tx.time_bounds);
    let memo = memo_to_json(tx.memo_id);
    let op = op_to_json(&tx.operation, auth);
    let ext = ext_to_json(&data);
    let mut s = "{\"tx\":{\"tx\":{\"source_account\":".to_string();
    s.append("\"");
    s.append(source.as_str());
    s.append("\"");
    s.append(",\"fee\":");
    s.append(fee.as_str());
    s.append(",\"seq_num\":");
    s.append(seq.as_str());
    s.append(",\"cond\":");
    s.append(cond.as_str());
    s.append(",\"memo\":");
    s.append(memo.as_str());
    s.append(",\"operations\":[");
    s.append(op.as_str());
    s.append("],\"ext\":");
    s.append(ext.as_str());
    s.append("},\"signatures\":[]}}");
    s
}

/// The base64 XDR of `tx`'s unsigned transaction envelope; `None` when a key
/// is not 32 bytes long, or the resource data or an authorisation entry is
/// not valid XDR.
pub fn donate_transaction_xdr(tx: &DonateTransaction) -> (r: Option<String>)
    ensures
        r is Some <==> donate_envelope_xdr(*tx) is Some,
        r matches Some(b) ==> donate_envelope_xdr(*tx) == Some(b@),
{
    if !keys_are_32_bytes(tx) {
        return None;
    }
    let auth = match auth_to_json(&tx.operation.auth) {
        None => {
            return None;
        },
        Some(a) => a,
    };
    let data: Option<String> = match &tx.soroban_data {
        None => None,
        Some(d) => match soroban_data_to_json(d.as_str()) {
            None => {
                return None;
            },
            Some(j) => Some(j),
        },
    };
    let json = tx_to_json(tx, &auth, data);
    envelope_json_to_xdr(json.as_str())
}

} // verus!
