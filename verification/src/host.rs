use vstd::prelude::*;

use crate::shared::CampaignStatus;

verus! {

/// Which kind of ledger entity an address names.
#[derive(Debug, Clone, Copy, PartialEq, Eq, Hash, Structural)]
pub enum AddressKind {
    /// A Stellar account, named by its ed25519 public key (`G...`).
    Account,
    /// A deployed contract, named by its 32-byte contract hash (`C...`).
    Contract,
}

/// An address on the ledger: its kind and its 32-byte key, held as the
/// big-endian halves of the key (`hi` is bytes 0..16, `lo` bytes 16..32).
#[derive(Debug, Clone, Copy, PartialEq, Eq, Hash, Structural)]
pub struct Address {
    pub kind: AddressKind,
    pub hi: u128,
    pub lo: u128,
}

/// The big-endian value of a byte sequence.
pub open spec fn be_value(bytes: Seq<u8>) -> nat
    decreases bytes.len(),
{
    if bytes.len() == 0 {
        0
    } else {
        be_value(bytes.drop_last()) * 256 + bytes.last() as nat
    }
}

/// `256^n`.
pub open spec fn pow256(n: nat) -> nat
    decreases n,
{
    if n == 0 {
        1
    } else {
        256 * pow256((n - 1) as nat)
    }
}

proof fn lemma_be_value_bound(bytes: Seq<u8>)
    ensures
        be_value(bytes) < pow256(bytes.len()),
    decreases bytes.len(),
{
    if bytes.len() > 0 {
        let init = bytes.drop_last();
        lemma_be_value_bound(init);
        assert(pow256(bytes.len()) == 256 * pow256(init.len()));
        assert(be_value(init) * 256 + 256 <= pow256(init.len()) * 256) by (nonlinear_arith)
            requires
                be_value(init) + 1 <= pow256(init.len()),
        ;
    }
}

proof fn lemma_pow256_monotone(a: nat, b: nat)
    requires
        a <= b,
    ensures
        pow256(a) <= pow256(b),
    decreases b,
{
    if a < b {
        lemma_pow256_monotone(a, (b - 1) as nat);
    }
}

/// Reads 16 bytes of `bytes` from `start` as a big-endian number.
fn be_u128(bytes: &[u8], start: usize) -> (v: u128)
    requires
        start + 16 <= bytes@.len(),
    ensures
        v == be_value(bytes@.subrange(start as int, start + 16)),
{
    let n = bytes.len();
    assert(start + 16 <= n);
    let end = start + 16;
    let mut v: u128 = 0;
    let mut i: usize = start;
    assert(pow256(15) == 0x1_0000_0000_0000_0000_0000_0000_0000_00) by {
        reveal_with_fuel(pow256, 16);
    }
    while i < end
        invariant
            start <= i <= end,
            end == start + 16,
            end <= bytes@.len(),
            v == be_value(bytes@.subrange(start as int, i as int)),
            pow256(15) == 0x1_0000_0000_0000_0000_0000_0000_0000_00,
        decreases end - i,
    {
        let ghost prefix = bytes@.subrange(start as int, i as int);
        let ghost next = bytes@.subrange(start as int, i + 1);
        assert(next.drop_last() =~= prefix);
        assert(next.last() == bytes@[i as int]);
        proof {
            lemma_be_value_bound(prefix);
            lemma_pow256_monotone(prefix.len(), 15);
        }
        v = v * 256 + bytes[i] as u128;
        i = i + 1;
    }
    v
}

impl Address {
    /// The address of the given kind whose key is the 32 bytes `key`.
    pub fn from_key(kind: AddressKind, key: &[u8]) -> (a: Address)
        requires
            key@.len() == 32,
        ensures
            a.kind == kind,
            a.hi == be_value(key@.subrange(0, 16)),
            a.lo == be_value(key@.subrange(16, 32)),
    {
        Address { kind, hi: be_u128(key, 0), lo: be_u128(key, 16) }
    }
}

/// The persistent keys of the campaign contract whose lifetime is extended.
#[derive(Debug, Clone, Copy, PartialEq, Eq, Structural)]
pub enum StorageKey {
    /// The campaign counter.
    CampaignCount,
    /// A campaign's record.
    Campaign(u64),
    /// A campaign's raised total.
    Raised(u64),
}

/// Published when a campaign is registered.
#[derive(Debug, Clone, Copy, PartialEq, Eq, Structural)]
pub struct CampaignRegisteredEvent {
    pub campaign_id: u64,
    pub owner: Address,
    pub goal: i128,
    pub deadline: u64,
    pub asset_contract_id: Option<Address>,
}

/// Published when a campaign's status is set.
#[derive(Debug, Clone, Copy, PartialEq, Eq, Structural)]
pub struct CampaignStatusChangedEvent {
    pub campaign_id: u64,
    pub old_status: CampaignStatus,
    pub new_status: CampaignStatus,
}

/// Published when the admin pauses a contract.
#[derive(Debug, Clone, Copy, PartialEq, Eq, Structural)]
pub struct ContractPausedEvent {
    pub admin: Address,
}

/// Published when the admin lifts a pause.
#[derive(Debug, Clone, Copy, PartialEq, Eq, Structural)]
pub struct ContractUnpausedEvent {
    pub admin: Address,
}

/// Published for every accepted donation.
#[derive(Debug, Clone, Copy, PartialEq, Eq, Structural)]
pub struct DonationMadeEvent {
    pub campaign_id: u64,
    pub donor: Address,
    pub amount: i128,
    pub token_id: Address,
}

/// Published when a withdrawal is requested.
#[derive(Debug, Clone, Copy, PartialEq, Eq, Structural)]
pub struct WithdrawalRequestedEvent {
    pub campaign_id: u64,
    pub withdrawal_id: u64,
    pub amount: i128,
}

/// Published when the admin approves a withdrawal.
#[derive(Debug, Clone, PartialEq, Eq)]
pub struct WithdrawalApprovedEvent {
    pub withdrawal_id: u64,
    pub tx_hash: String,
}

/// The events the contracts publish, one variant per topic name.
#[derive(Debug, Clone, PartialEq, Eq)]
pub enum ContractEvent {
    /// Topic `CampaignRegistered`.
    CampaignRegistered(CampaignRegisteredEvent),
    /// Topics `CampaignStatusUpdated`, campaign id.
    CampaignStatusUpdated(CampaignStatusChangedEvent),
    /// Topic `ContractPaused`.
    ContractPaused(ContractPausedEvent),
    /// Topic `ContractUnpaused`.
    ContractUnpaused(ContractUnpausedEvent),
    /// Topics `DonationMade`, campaign id.
    DonationMade(DonationMadeEvent),
    /// Topics `with_req`, campaign id.
    WithdrawalRequested(WithdrawalRequestedEvent),
    /// Topics `with_app`, withdrawal id.
    WithdrawalApproved(WithdrawalApprovedEvent),
}

/// What a contract invocation asks of the ledger host, in the order asked.
#[derive(Debug, Clone, PartialEq, Eq)]
pub enum HostEffect {
    /// The invocation needs `address` to have authorised it.
    RequireAuth(Address),
    /// Extend the time-to-live of a persistent entry: when fewer than
    /// `threshold` ledgers remain, raise it to `extend_to` ledgers.
    ExtendTtl { key: StorageKey, threshold: u32, extend_to: u32 },
    /// Publish `event` from `contract`.
    Publish { contract: Address, event: ContractEvent },
    /// Move `amount` of the token `token` from `from` to `to`.
    Transfer { token: Address, from: Address, to: Address, amount: i128 },
}

/// The ledger host as an invocation sees it: the current ledger, the
/// lifetime in ledgers the network gives a newly written temporary entry
/// (its minimum temporary TTL), and the effects the invocation has asked for
/// so far.
#[derive(Debug)]
pub struct Env {
    pub ledger_sequence: u32,
    pub ledger_timestamp: u64,
    pub temp_entry_ttl: u32,
    pub effects: Vec<HostEffect>,
}

/// The current ledger and the lifetime of a new temporary entry.
#[derive(Debug, Clone, Copy, PartialEq, Eq, Structural)]
pub struct Clock {
    pub sequence: u32,
    pub temp_entry_ttl: u32,
}

pub open spec fn clock_of(env: Env) -> Clock {
    Clock { sequence: env.ledger_sequence, temp_entry_ttl: env.temp_entry_ttl }
}

/// `after` is `before` with `extra` appended to the effects, on the same ledger.
pub open spec fn env_extended(before: Env, after: Env, extra: Seq<HostEffect>) -> bool {
    &&& after.ledger_sequence == before.ledger_sequence
    &&& after.ledger_timestamp == before.ledger_timestamp
    &&& after.temp_entry_ttl == before.temp_entry_ttl
    &&& after.effects@ =~= before.effects@ + extra
}

impl Env {
    /// A host at the given ledger, with no effects asked yet.
    pub fn new(ledger_sequence: u32, ledger_timestamp: u64, temp_entry_ttl: u32) -> (env: Env)
        ensures
            env.ledger_sequence == ledger_sequence,
            env.ledger_timestamp == ledger_timestamp,
            env.temp_entry_ttl == temp_entry_ttl,
            env.effects@ == Seq::<HostEffect>::empty(),
    {
        Env { ledger_sequence, ledger_timestamp, temp_entry_ttl, effects: Vec::new() }
    }
}

/// Why a contract invocation is refused. A refused invocation changes no
/// contract state and asks nothing of the host.
#[derive(Debug, Clone, Copy, PartialEq, Eq, Structural)]
pub enum ContractError {
    Paused,
    AlreadyInitialized,
    DonationAlreadyInitialized,
    NotInitialized,
    NotAdmin,
    CampaignNotFound,
    AmountNotPositive,
    MemoTooLong,
    CampaignContractNotSet,
    CampaignNotActive,
    TokenMismatch,
    WithdrawalAmountNotPositive,
    NotOwnerOrAdmin,
    WithdrawalNotInitialized,
    TokenNotSet,
    Overflow,
    /// The token contract refuses to transfer a negative amount.
    NegativeTransfer,
}

pub open spec fn contract_error_text(e: ContractError) -> Seq<char> {
    match e {
        ContractError::Paused => "Contract is paused"@,
        ContractError::AlreadyInitialized => "Contract is already initialized"@,
        ContractError::DonationAlreadyInitialized => "Donation contract instance is already initialized"@,
        ContractError::NotInitialized => "Contract not initialized"@,
        ContractError::NotAdmin => "Unauthorized: caller is not admin"@,
        ContractError::CampaignNotFound => "Campaign not found"@,
        ContractError::AmountNotPositive => "Amount must be positive"@,
        ContractError::MemoTooLong => "Memo must not exceed 28 bytes"@,
        ContractError::CampaignContractNotSet => "Campaign contract ID not set. Call initialize() first."@,
        ContractError::CampaignNotActive => "Campaign is not active"@,
        ContractError::TokenMismatch => "Token does not match campaign's accepted asset"@,
        ContractError::WithdrawalAmountNotPositive => "Withdrawal request amount must be positive"@,
        ContractError::NotOwnerOrAdmin => "Unauthorized: caller is not campaign owner or admin"@,
        ContractError::WithdrawalNotInitialized => "withdrawal not initialized"@,
        ContractError::TokenNotSet => "Token ID not set. Call initialize() first."@,
        ContractError::Overflow => "attempt to add with overflow"@,
        ContractError::NegativeTransfer => "negative amount is not allowed"@,
    }
}

impl ContractError {
    /// The message the contract aborts with.
    pub fn message(&self) -> (r: &'static str)
        ensures
            r@ == contract_error_text(*self),
    {
        match self {
            ContractError::Paused => "Contract is paused",
            ContractError::AlreadyInitialized => "Contract is already initialized",
            ContractError::DonationAlreadyInitialized => "Donation contract instance is already initialized",
            ContractError::NotInitialized => "Contract not initialized",
            ContractError::NotAdmin => "Unauthorized: caller is not admin",
            ContractError::CampaignNotFound => "Campaign not found",
            ContractError::AmountNotPositive => "Amount must be positive",
            ContractError::MemoTooLong => "Memo must not exceed 28 bytes",
            ContractError::CampaignContractNotSet => "Campaign contract ID not set. Call initialize() first.",
            ContractError::CampaignNotActive => "Campaign is not active",
            ContractError::TokenMismatch => "Token does not match campaign's accepted asset",
            ContractError::WithdrawalAmountNotPositive => "Withdrawal request amount must be positive",
            ContractError::NotOwnerOrAdmin => "Unauthorized: caller is not campaign owner or admin",
            ContractError::WithdrawalNotInitialized => "withdrawal not initialized",
            ContractError::TokenNotSet => "Token ID not set. Call initialize() first.",
            ContractError::Overflow => "attempt to add with overflow",
            ContractError::NegativeTransfer => "negative amount is not allowed",
        }
    }
}

} // verus!
