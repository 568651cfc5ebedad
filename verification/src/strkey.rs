use vstd::prelude::*;

verus! {

/// The 32-byte ed25519 public key that the strkey text `s` (`G...`) encodes,
/// if it is a valid account strkey.
pub uninterp spec fn strkey_account_key(s: Seq<char>) -> Option<Seq<u8>>;

/// The 32-byte contract hash that the strkey text `s` (`C...`) encodes, if it
/// is a valid contract strkey.
pub uninterp spec fn strkey_contract_key(s: Seq<char>) -> Option<Seq<u8>>;

/// The account strkey text (`G...`) of the 32-byte ed25519 key `key`.
pub uninterp spec fn account_strkey(key: Seq<u8>) -> Seq<char>;

/// The contract strkey text (`C...`) of the 32-byte contract hash `hash`.
pub uninterp spec fn contract_strkey(hash: Seq<u8>) -> Seq<char>;

/// The text `stellar_strkey::DecodeError` displays; its only variant is
/// `Invalid`.
pub open spec fn strkey_error_text() -> Seq<char> {
    "the strkey is invalid"@
}

/// Calls `stellar_strkey::ed25519::PublicKey::from_string`. Trusted to give
/// the decoded key, 32 bytes long, exactly when the text is a valid account
/// strkey, and otherwise the error's text, `the strkey is invalid`.
#[verifier::external_body]
pub(crate) fn decode_account_strkey(s: &str) -> (r: Result<Vec<u8>, String>)
    ensures
        r is Ok <==> strkey_account_key(s@) is Some,
        r matches Ok(k) ==> k@ == strkey_account_key(s@)->0 && k@.len() == 32,
        r matches Err(e) ==> e@ == strkey_error_text(),
{
    match stellar_strkey::ed25519::PublicKey::from_string(s) {
        Ok(pk) => Ok(pk.0.to_vec()),
        Err(e) => Err(e.to_string()),
    }
}

/// Calls `stellar_strkey::Contract::from_string`. Trusted to give the decoded
/// hash, 32 bytes long, exactly when the text is a valid contract strkey,
/// and otherwise the error's text, `the strkey is invalid`.
#[verifier::external_body]
pub(crate) fn decode_contract_strkey(s: &str) -> (r: Result<Vec<u8>, String>)
    ensures
        r is Ok <==> strkey_contract_key(s@) is Some,
        r matches Ok(k) ==> k@ == strkey_contract_key(s@)->0 && k@.len() == 32,
        r matches Err(e) ==> e@ == strkey_error_text(),
{
    match stellar_strkey::Contract::from_string(s) {
        Ok(c) => Ok(c.0.to_vec()),
        Err(e) => Err(e.to_string()),
    }
}

/// Calls `stellar_strkey::ed25519::PublicKey::to_string` on the key `key`.
/// Trusted to give the account strkey text of the key.
#[verifier::external_body]
pub(crate) fn encode_account_strkey(key: &Vec<u8>) -> (r: String)
    requires
        key@.len() == 32,
    ensures
        r@ == account_strkey(key@),
{
    match stellar_strkey::ed25519::PublicKey::from_payload(key.as_slice()) {
        Ok(pk) => pk.to_string(),
        Err(_) => String::new(),
    }
}

/// Calls `stellar_strkey::Contract::to_string` on the hash `hash`. Trusted to
/// give the contract strkey text of the hash.
#[verifier::external_body]
pub(crate) fn encode_contract_strkey(hash: &Vec<u8>) -> (r: String)
    requires
        hash@.len() == 32,
    ensures
        r@ == contract_strkey(hash@),
{
    let bytes: [u8; 32] = hash.as_slice().try_into().unwrap_or([0u8; 32]);
    stellar_strkey::Contract(bytes).to_string()
}

} // verus!
