use vstd::prelude::*;

use crate::campaign::{spec_get_campaign, spec_update_raised_amount, CampaignContract, CampaignStorage};
use crate::host::{
    clock_of, env_extended, Address, Clock, ContractError, ContractEvent, ContractPausedEvent, ContractUnpausedEvent,
    DonationMadeEvent, Env, HostEffect, WithdrawalApprovedEvent, WithdrawalRequestedEvent,
};
use crate::shared::{Campaign, CampaignStatus};

verus! {

/// Longest memo, in bytes, a donation may carry (the Stellar memo limit).
pub const MAX_MEMO_BYTES: usize = 28;

/// A stored donation: (donor, campaign id, amount, ledger timestamp, memo).
pub type Donation = (Address, u64, i128, u64, Option<Vec<u8>>);

/// A donation as a mathematical value.
pub type DonationView = (Address, u64, i128, u64, Option<Seq<u8>>);

pub open spec fn memo_view(memo: Option<Vec<u8>>) -> Option<Seq<u8>> {
    match memo {
        Some(m) => Some(m@),
        None => None,
    }
}

pub open spec fn donation_view(d: Donation) -> DonationView {
    (d.0, d.1, d.2, d.3, memo_view(d.4))
}

pub open spec fn donation_views(ds: Seq<Donation>) -> Seq<DonationView> {
    ds.map_values(|d: Donation| donation_view(d))
}

/// Sum of the amounts given to campaign `cid`.
pub open spec fn sum_for(ds: Seq<DonationView>, cid: u64) -> int
    decreases ds.len(),
{
    if ds.len() == 0 {
        0
    } else {
        sum_for(ds.drop_last(), cid) + if ds.last().1 == cid {
            ds.last().2 as int
        } else {
            0
        }
    }
}

/// Ids (positions counted from 1) of the donations made by `donor`, in order.
pub open spec fn ids_for(ds: Seq<DonationView>, donor: Address) -> Seq<u64>
    decreases ds.len(),
{
    if ds.len() == 0 {
        seq![]
    } else {
        ids_for(ds.drop_last(), donor) + if ds.last().0 == donor {
            seq![ds.len() as u64]
        } else {
            seq![]
        }
    }
}

/// The donations to campaign `cid`, in id order.
pub open spec fn of_campaign(ds: Seq<DonationView>, cid: u64) -> Seq<DonationView>
    decreases ds.len(),
{
    if ds.len() == 0 {
        seq![]
    } else {
        of_campaign(ds.drop_last(), cid) + if ds.last().1 == cid {
            seq![ds.last()]
        } else {
            seq![]
        }
    }
}

/// The donations made by `donor`, in id order.
pub open spec fn of_donor(ds: Seq<DonationView>, donor: Address) -> Seq<DonationView>
    decreases ds.len(),
{
    if ds.len() == 0 {
        seq![]
    } else {
        of_donor(ds.drop_last(), donor) + if ds.last().0 == donor {
            seq![ds.last()]
        } else {
            seq![]
        }
    }
}

/// No key occurs twice among `entries`.
pub open spec fn unique_keys<K, V>(entries: Seq<(K, V)>) -> bool {
    forall|i: int, j: int|
        0 <= i < entries.len() && 0 <= j < entries.len() && #[trigger] entries[i].0 == #[trigger] entries[j].0
            ==> i == j
}

pub open spec fn has_key<K, V>(entries: Seq<(K, V)>, key: K) -> bool {
    exists|i: int| 0 <= i < entries.len() && #[trigger] entries[i].0 == key
}

pub open spec fn key_index<K, V>(entries: Seq<(K, V)>, key: K) -> int {
    choose|i: int| 0 <= i < entries.len() && #[trigger] entries[i].0 == key
}

/// The stored total of campaign `cid`, 0 when none is stored.
pub open spec fn total_of(totals: Seq<(u64, i128)>, cid: u64) -> int {
    if has_key(totals, cid) {
        totals[key_index(totals, cid)].1 as int
    } else {
        0
    }
}

/// The stored donation ids of `donor`, empty when none are stored.
pub open spec fn history_of(history: Seq<(Address, Seq<u64>)>, donor: Address) -> Seq<u64> {
    if has_key(history, donor) {
        history[key_index(history, donor)].1
    } else {
        seq![]
    }
}

#[verifier::ext_equal]
/// The storage of the donation contract.
///
/// The donation with id `i` sits at `donations[i - 1]`; the number of
/// donations is the donation counter. `totals` maps a campaign to the sum
/// given to it and `history` a donor to the ids of its donations.
pub struct DonationStorage {
    pub address: Address,
    pub campaign_contract_id: Option<Address>,
    pub admin: Option<Address>,
    pub paused: bool,
    pub donations: Seq<DonationView>,
    pub totals: Seq<(u64, i128)>,
    pub history: Seq<(Address, Seq<u64>)>,
}

impl DonationStorage {
    /// The storage's indexes agree with its donations: each campaign's total
    /// is the sum given to it, and each donor's history lists its donations.
    pub open spec fn well_formed(self) -> bool {
        &&& self.donations.len() <= u64::MAX
        &&& unique_keys(self.totals)
        &&& unique_keys(self.history)
        &&& forall|cid: u64| #[trigger] total_of(self.totals, cid) == sum_for(self.donations, cid)
        &&& forall|donor: Address| #[trigger] history_of(self.history, donor) == ids_for(self.donations, donor)
    }

    pub open spec fn count(self) -> nat {
        self.donations.len()
    }
}

/// The outcome of one donation-contract invocation that may also call the
/// campaign contract.
pub struct DonationStep<T> {
    pub state: DonationStorage,
    pub campaign: CampaignStorage,
    pub result: Result<T, ContractError>,
    pub effects: Seq<HostEffect>,
}

pub open spec fn refused<T>(s: DonationStorage, c: CampaignStorage, e: ContractError) -> DonationStep<T> {
    DonationStep { state: s, campaign: c, result: Err(e), effects: seq![] }
}

pub open spec fn publish(s: DonationStorage, event: ContractEvent) -> HostEffect {
    HostEffect::Publish { contract: s.address, event }
}

pub open spec fn spec_initialize(s: DonationStorage, campaign_contract_id: Address, admin: Address) -> DonationStorage {
    if s.campaign_contract_id is Some {
        s
    } else {
        DonationStorage { campaign_contract_id: Some(campaign_contract_id), admin: Some(admin), ..s }
    }
}

pub open spec fn spec_set_paused(s: DonationStorage, admin: Address, paused: bool) -> (DonationStorage, Result<(), ContractError>, Seq<HostEffect>) {
    match s.admin {
        None => (s, Err(ContractError::NotInitialized), seq![]),
        Some(stored) => if admin != stored {
            (s, Err(ContractError::NotAdmin), seq![])
        } else {
            (
                DonationStorage { paused, ..s },
                Ok(()),
                seq![
                    HostEffect::RequireAuth(admin),
                    publish(s, if paused {
                        ContractEvent::ContractPaused(ContractPausedEvent { admin })
                    } else {
                        ContractEvent::ContractUnpaused(ContractUnpausedEvent { admin })
                    }),
                ],
            )
        },
    }
}

/// The totals after adding `amount` to campaign `cid`.
pub open spec fn add_to_total(totals: Seq<(u64, i128)>, cid: u64, amount: i128) -> Seq<(u64, i128)> {
    if has_key(totals, cid) {
        totals.update(key_index(totals, cid), (cid, (total_of(totals, cid) + amount) as i128))
    } else {
        totals.push((cid, amount))
    }
}

/// The history after recording donation `id` for `donor`.
pub open spec fn add_to_history(history: Seq<(Address, Seq<u64>)>, donor: Address, id: u64) -> Seq<(Address, Seq<u64>)> {
    if has_key(history, donor) {
        history.update(key_index(history, donor), (donor, history_of(history, donor).push(id)))
    } else {
        history.push((donor, seq![id]))
    }
}

/// Donating `amount` of token `token_id` from `donor` to campaign `cid`, held
/// by the campaign contract `c`, at ledger `now` with timestamp `timestamp`.
pub open spec fn spec_donate(
    s: DonationStorage,
    c: CampaignStorage,
    now: Clock,
    timestamp: u64,
    donor: Address,
    cid: u64,
    token_id: Address,
    amount: i128,
    memo: Option<Seq<u8>>,
) -> DonationStep<()> {
    if s.paused {
        refused(s, c, ContractError::Paused)
    } else if amount <= 0 {
        refused(s, c, ContractError::AmountNotPositive)
    } else if memo matches Some(m) && m.len() > MAX_MEMO_BYTES {
        refused(s, c, ContractError::MemoTooLong)
    } else if s.campaign_contract_id is None {
        refused(s, c, ContractError::CampaignContractNotSet)
    } else {
        let fetched = spec_get_campaign(c, cid, now);
        match fetched.result {
            Err(e) => refused(s, c, e),
            Ok(campaign) => if campaign.status != CampaignStatus::Active {
                refused(s, c, ContractError::CampaignNotActive)
            } else if campaign.asset_contract_id matches Some(accepted) && token_id != accepted {
                refused(s, c, ContractError::TokenMismatch)
            } else if s.count() >= u64::MAX || total_of(s.totals, cid) + amount > i128::MAX {
                refused(s, c, ContractError::Overflow)
            } else {
                let raised = spec_update_raised_amount(fetched.state, cid, amount, now);
                match raised.result {
                    Err(e) => refused(s, c, e),
                    Ok(_) => {
                        let id = (s.count() + 1) as u64;
                        DonationStep {
                            state: DonationStorage {
                                donations: s.donations.push((donor, cid, amount, timestamp, memo)),
                                totals: add_to_total(s.totals, cid, amount),
                                history: add_to_history(s.history, donor, id),
                                ..s
                            },
                            campaign: raised.state,
                            result: Ok(()),
                            effects: seq![HostEffect::RequireAuth(donor)] + fetched.effects + seq![
                                HostEffect::Transfer { token: token_id, from: donor, to: s.address, amount },
                                publish(s, ContractEvent::DonationMade(
                                    DonationMadeEvent { campaign_id: cid, donor, amount, token_id },
                                )),
                            ] + raised.effects,
                        }
                    },
                }
            },
        }
    }
}

pub open spec fn spec_request_withdrawal(
    s: DonationStorage,
    c: CampaignStorage,
    now: Clock,
    caller: Address,
    cid: u64,
    withdrawal_id: u64,
    amount: i128,
) -> DonationStep<()> {
    if s.paused {
        refused(s, c, ContractError::Paused)
    } else if amount <= 0 {
        refused(s, c, ContractError::WithdrawalAmountNotPositive)
    } else if s.campaign_contract_id is None {
        refused(s, c, ContractError::CampaignContractNotSet)
    } else {
        match s.admin {
            None => refused(s, c, ContractError::NotInitialized),
            Some(admin) => {
                let fetched = spec_get_campaign(c, cid, now);
                match fetched.result {
                    Err(e) => refused(s, c, e),
                    Ok(campaign) => if caller != campaign.owner && caller != admin {
                        refused(s, c, ContractError::NotOwnerOrAdmin)
                    } else {
                        DonationStep {
                            state: s,
                            campaign: fetched.state,
                            result: Ok(()),
                            effects: seq![HostEffect::RequireAuth(caller)] + fetched.effects + seq![
                                publish(s, ContractEvent::WithdrawalRequested(
                                    WithdrawalRequestedEvent { campaign_id: cid, withdrawal_id, amount },
                                )),
                            ],
                        }
                    },
                }
            },
        }
    }
}

/// Refusal of `approve_withdrawal`, if any.
pub open spec fn approve_refusal(s: DonationStorage, caller: Address) -> Option<ContractError> {
    if s.paused {
        Some(ContractError::Paused)
    } else {
        match s.admin {
            None => Some(ContractError::NotInitialized),
            Some(admin) => if caller != admin {
                Some(ContractError::NotAdmin)
            } else {
                None
            },
        }
    }
}

/// Replacing the value stored under an existing key.
proof fn lemma_assoc_update<K, V>(e: Seq<(K, V)>, key: K, v: V)
    requires
        unique_keys(e),
        has_key(e, key),
    ensures
        unique_keys(e.update(key_index(e, key), (key, v))),
        forall|c: K| #[trigger] has_key(e.update(key_index(e, key), (key, v)), c) == has_key(e, c),
        has_key(e.update(key_index(e, key), (key, v)), key),
        e.update(key_index(e, key), (key, v))[key_index(e.update(key_index(e, key), (key, v)), key)] == (key, v),
        forall|c: K|
            c != key && #[trigger] has_key(e, c) ==> e.update(key_index(e, key), (key, v))[key_index(
                e.update(key_index(e, key), (key, v)),
                c,
            )] == e[key_index(e, c)],
{
    let k = key_index(e, key);
    let e2 = e.update(k, (key, v));
    assert(e[k].0 == key);
    assert forall|i: int, j: int|
        0 <= i < e2.len() && 0 <= j < e2.len() && #[trigger] e2[i].0 == #[trigger] e2[j].0 implies i == j by {
        assert(e2[i].0 == e[i].0);
        assert(e2[j].0 == e[j].0);
    }
    assert forall|c: K| #[trigger] has_key(e2, c) == has_key(e, c) by {
        if has_key(e, c) {
            let j = key_index(e, c);
            assert(e2[j].0 == c);
        }
        if has_key(e2, c) {
            let j = key_index(e2, c);
            assert(e[j].0 == c);
        }
    }
    assert(e2[k].0 == key);
    assert(has_key(e2, key));
    let kk = key_index(e2, key);
    assert(e2[kk].0 == e2[k].0);
    assert forall|c: K| c != key && #[trigger] has_key(e, c) implies e2[key_index(e2, c)] == e[key_index(e, c)] by {
        let j = key_index(e, c);
        assert(e2[j].0 == c);
        assert(has_key(e2, c));
        let j2 = key_index(e2, c);
        assert(e2[j2].0 == e2[j].0);
    }
}

/// Adding an entry under a new key.
proof fn lemma_assoc_push<K, V>(e: Seq<(K, V)>, key: K, v: V)
    requires
        unique_keys(e),
        !has_key(e, key),
    ensures
        unique_keys(e.push((key, v))),
        has_key(e.push((key, v)), key),
        e.push((key, v))[key_index(e.push((key, v)), key)] == (key, v),
        forall|c: K| c != key ==> #[trigger] has_key(e.push((key, v)), c) == has_key(e, c),
        forall|c: K|
            c != key && #[trigger] has_key(e, c) ==> e.push((key, v))[key_index(e.push((key, v)), c)] == e[key_index(e, c)],
{
    let n = e.len() as int;
    let e2 = e.push((key, v));
    assert forall|i: int, j: int|
        0 <= i < e2.len() && 0 <= j < e2.len() && #[trigger] e2[i].0 == #[trigger] e2[j].0 implies i == j by {
        if i < n && j < n {
            assert(e2[i].0 == e[i].0);
            assert(e2[j].0 == e[j].0);
        } else if i < n {
            assert(e[i].0 == key);
        } else if j < n {
            assert(e[j].0 == key);
        }
    }
    assert(e2[n].0 == key);
    assert(has_key(e2, key));
    let kk = key_index(e2, key);
    assert(e2[kk].0 == e2[n].0);
    assert forall|c: K| c != key implies #[trigger] has_key(e2, c) == has_key(e, c) by {
        if has_key(e, c) {
            let j = key_index(e, c);
            assert(e2[j].0 == c);
        }
        if has_key(e2, c) {
            let j = key_index(e2, c);
            assert(j != n);
            assert(e[j].0 == c);
        }
    }
    assert forall|c: K| c != key && #[trigger] has_key(e, c) implies e2[key_index(e2, c)] == e[key_index(e, c)] by {
        let j = key_index(e, c);
        assert(e2[j].0 == c);
        assert(has_key(e2, c));
        let j2 = key_index(e2, c);
        assert(e2[j2].0 == e2[j].0);
    }
}

/// Recording one more donation keeps the storage's indexes in agreement.
proof fn lemma_record_keeps_well_formed(s: DonationStorage, d: DonationView)
    requires
        s.well_formed(),
        s.count() < u64::MAX,
        d.2 > 0,
        total_of(s.totals, d.1) + d.2 <= i128::MAX,
    ensures
        (DonationStorage {
            donations: s.donations.push(d),
            totals: add_to_total(s.totals, d.1, d.2),
            history: add_to_history(s.history, d.0, (s.count() + 1) as u64),
            ..s
        }).well_formed(),
{
    let ds = s.donations.push(d);
    assert(ds.drop_last() =~= s.donations);
    let cid = d.1;
    let donor = d.0;
    let id = (s.count() + 1) as u64;
    let t2 = add_to_total(s.totals, cid, d.2);
    let h2 = add_to_history(s.history, donor, id);
    if has_key(s.totals, cid) {
        lemma_assoc_update(s.totals, cid, (total_of(s.totals, cid) + d.2) as i128);
    } else {
        lemma_assoc_push(s.totals, cid, d.2);
    }
    assert forall|c: u64| #[trigger] total_of(t2, c) == sum_for(ds, c) by {
        assert(sum_for(ds, c) == sum_for(s.donations, c) + if d.1 == c { d.2 as int } else { 0 });
        assert(total_of(s.totals, c) == sum_for(s.donations, c));
        if c != cid && has_key(s.totals, c) {
            assert(has_key(t2, c));
        }
    }
    if has_key(s.history, donor) {
        lemma_assoc_update(s.history, donor, history_of(s.history, donor).push(id));
    } else {
        lemma_assoc_push(s.history, donor, seq![id]);
    }
    assert forall|a: Address| #[trigger] history_of(h2, a) == ids_for(ds, a) by {
        assert(ids_for(ds, a) == ids_for(s.donations, a) + if d.0 == a { seq![ds.len() as u64] } else { seq![] });
        assert(history_of(s.history, a) == ids_for(s.donations, a));
        if a == donor {
            assert(history_of(h2, a) =~= ids_for(ds, a));
        } else {
            if has_key(s.history, a) {
                assert(has_key(h2, a));
            }
            assert(history_of(h2, a) =~= ids_for(ds, a));
        }
    }
}

/// The ids a donor's history lists name exactly that donor's donations.
proof fn lemma_history_picks(ds: Seq<DonationView>, donor: Address)
    requires
        ds.len() <= u64::MAX,
    ensures
        forall|j: int| 0 <= j < ids_for(ds, donor).len() ==> 1 <= #[trigger] ids_for(ds, donor)[j] <= ds.len(),
        Seq::new(ids_for(ds, donor).len(), |j: int| ds[ids_for(ds, donor)[j] - 1]) =~= of_donor(ds, donor),
    decreases ds.len(),
{
    if ds.len() > 0 {
        let init = ds.drop_last();
        lemma_history_picks(init, donor);
        let ids0 = ids_for(init, donor);
        let ids = ids_for(ds, donor);
        assert(ids == ids0 + if ds.last().0 == donor { seq![ds.len() as u64] } else { seq![] });
        assert(of_donor(ds, donor) == of_donor(init, donor) + if ds.last().0 == donor {
            seq![ds.last()]
        } else {
            seq![]
        });
        assert forall|j: int| 0 <= j < ids.len() implies 1 <= #[trigger] ids[j] <= ds.len() by {
            if j < ids0.len() {
                assert(ids[j] == ids0[j]);
                assert(1 <= ids0[j] <= init.len());
            } else {
                assert(ids[j] == ds.len());
            }
        }
        let picked = Seq::new(ids.len(), |j: int| ds[ids[j] - 1]);
        let picked0 = Seq::new(ids0.len(), |j: int| init[ids0[j] - 1]);
        assert forall|j: int| 0 <= j < ids0.len() implies picked[j] == picked0[j] by {
            assert(ids[j] == ids0[j]);
            assert(1 <= ids0[j] <= init.len());
        }
        if ds.last().0 == donor {
            assert(ids[ids0.len() as int] == ds.len());
            assert(picked[ids0.len() as int] == ds.last());
            assert(picked =~= picked0.push(ds.last()));
        } else {
            assert(picked =~= picked0);
        }
    }
}

/// Each campaign's stored total is the sum of the donations made to it.
pub proof fn law_total_is_sum(s: DonationStorage, cid: u64)
    requires
        s.well_formed(),
    ensures
        total_of(s.totals, cid) == sum_for(s.donations, cid),
{
}

/// An accepted donation is recorded under the next id, raises the campaign's
/// total in this contract and its raised amount in the campaign contract by
/// the donated amount, and moves that amount from the donor to this contract.
pub proof fn law_donation_moves_totals(
    s: DonationStorage,
    c: CampaignStorage,
    now: Clock,
    timestamp: u64,
    donor: Address,
    cid: u64,
    token_id: Address,
    amount: i128,
    memo: Option<Seq<u8>>,
)
    requires
        s.well_formed(),
        c.well_formed(),
        spec_donate(s, c, now, timestamp, donor, cid, token_id, amount, memo).result is Ok,
    ensures
        ({
            let step = spec_donate(s, c, now, timestamp, donor, cid, token_id, amount, memo);
            &&& step.state.count() == s.count() + 1
            &&& step.state.donations.last() == (donor, cid, amount, timestamp, memo)
            &&& total_of(step.state.totals, cid) == total_of(s.totals, cid) + amount
            &&& step.campaign.lookup(cid) matches Some(after) && c.lookup(cid) matches Some(before)
                && after.raised == before.raised + amount
            &&& step.effects.contains(HostEffect::Transfer { token: token_id, from: donor, to: s.address, amount })
        }),
{
    let step = spec_donate(s, c, now, timestamp, donor, cid, token_id, amount, memo);
    lemma_record_keeps_well_formed(s, (donor, cid, amount, timestamp, memo));
    let ds = s.donations.push((donor, cid, amount, timestamp, memo));
    assert(ds.drop_last() =~= s.donations);
    assert(sum_for(ds, cid) == sum_for(s.donations, cid) + amount);
    let fetched = spec_get_campaign(c, cid, now);
    let n = (1 + fetched.effects.len()) as int;
    assert(step.effects[n] == HostEffect::Transfer { token: token_id, from: donor, to: s.address, amount });
}

/// A refused donation changes neither contract and asks nothing of the host.
pub proof fn law_refused_donation_changes_nothing(
    s: DonationStorage,
    c: CampaignStorage,
    now: Clock,
    timestamp: u64,
    donor: Address,
    cid: u64,
    token_id: Address,
    amount: i128,
    memo: Option<Seq<u8>>,
)
    requires
        spec_donate(s, c, now, timestamp, donor, cid, token_id, amount, memo).result is Err,
    ensures
        spec_donate(s, c, now, timestamp, donor, cid, token_id, amount, memo).state == s,
        spec_donate(s, c, now, timestamp, donor, cid, token_id, amount, memo).campaign == c,
        spec_donate(s, c, now, timestamp, donor, cid, token_id, amount, memo).effects == Seq::<HostEffect>::empty(),
{
}

/// Only positive amounts are ever recorded.
pub proof fn law_only_positive_donations(
    s: DonationStorage,
    c: CampaignStorage,
    now: Clock,
    timestamp: u64,
    donor: Address,
    cid: u64,
    token_id: Address,
    amount: i128,
    memo: Option<Seq<u8>>,
)
    requires
        amount <= 0,
    ensures
        spec_donate(s, c, now, timestamp, donor, cid, token_id, amount, memo).result
            == Err::<(), ContractError>(if s.paused { ContractError::Paused } else { ContractError::AmountNotPositive }),
{
}

/// A donation is accepted only for a campaign that exists in the campaign
/// contract and is active there; a campaign that is not active refuses it
/// with `CampaignNotActive` once the earlier checks pass.
pub proof fn law_donation_needs_active_campaign(
    s: DonationStorage,
    c: CampaignStorage,
    now: Clock,
    timestamp: u64,
    donor: Address,
    cid: u64,
    token_id: Address,
    amount: i128,
    memo: Option<Seq<u8>>,
)
    requires
        c.well_formed(),
    ensures
        spec_donate(s, c, now, timestamp, donor, cid, token_id, amount, memo).result is Ok ==> (c.lookup(cid) matches Some(
            camp,
        ) && camp.status == CampaignStatus::Active),
        !s.paused && amount > 0 && !(memo matches Some(m) && m.len() > MAX_MEMO_BYTES) && s.campaign_contract_id is Some
            && (c.lookup(cid) matches Some(camp) && camp.status != CampaignStatus::Active) ==> spec_donate(
            s,
            c,
            now,
            timestamp,
            donor,
            cid,
            token_id,
            amount,
            memo,
        ).result == Err::<(), ContractError>(ContractError::CampaignNotActive),
{
}

/// While the donation contract is paused, donations, withdrawal requests and
/// approvals are all refused with `Paused`, and nothing changes.
pub proof fn law_paused_donation_contract_refuses(
    s: DonationStorage,
    c: CampaignStorage,
    now: Clock,
    timestamp: u64,
    donor: Address,
    cid: u64,
    token_id: Address,
    amount: i128,
    memo: Option<Seq<u8>>,
    withdrawal_id: u64,
    caller: Address,
)
    requires
        s.paused,
    ensures
        spec_donate(s, c, now, timestamp, donor, cid, token_id, amount, memo).result == Err::<(), ContractError>(
            ContractError::Paused,
        ),
        spec_donate(s, c, now, timestamp, donor, cid, token_id, amount, memo).state == s,
        spec_donate(s, c, now, timestamp, donor, cid, token_id, amount, memo).campaign == c,
        spec_donate(s, c, now, timestamp, donor, cid, token_id, amount, memo).effects.len() == 0,
        spec_request_withdrawal(s, c, now, caller, cid, withdrawal_id, amount).result == Err::<(), ContractError>(
            ContractError::Paused,
        ),
        spec_request_withdrawal(s, c, now, caller, cid, withdrawal_id, amount).effects.len() == 0,
        approve_refusal(s, caller) == Some(ContractError::Paused),
{
}

/// An approval is accepted exactly from the recorded admin of an unpaused
/// contract.
pub proof fn law_approval_only_by_admin_when_running(s: DonationStorage, caller: Address)
    ensures
        approve_refusal(s, caller) is None <==> (!s.paused && s.admin == Some(caller)),
{
}

/// An accepted donation leaves every other campaign's total and every other
/// donor's history as they were, and adds the new donation's id to the
/// donor's history.
pub proof fn law_donation_touches_only_its_campaign_and_donor(
    s: DonationStorage,
    c: CampaignStorage,
    now: Clock,
    timestamp: u64,
    donor: Address,
    cid: u64,
    token_id: Address,
    amount: i128,
    memo: Option<Seq<u8>>,
    other_cid: u64,
    other_donor: Address,
)
    requires
        s.well_formed(),
        c.well_formed(),
        spec_donate(s, c, now, timestamp, donor, cid, token_id, amount, memo).result is Ok,
    ensures
        ({
            let t = spec_donate(s, c, now, timestamp, donor, cid, token_id, amount, memo).state;
            &&& other_cid != cid ==> total_of(t.totals, other_cid) == total_of(s.totals, other_cid)
            &&& other_donor != donor ==> history_of(t.history, other_donor) == history_of(s.history, other_donor)
            &&& history_of(t.history, donor) == history_of(s.history, donor).push((s.count() + 1) as u64)
            &&& t.donations.drop_last() == s.donations
        }),
{
    let t = spec_donate(s, c, now, timestamp, donor, cid, token_id, amount, memo).state;
    lemma_record_keeps_well_formed(s, (donor, cid, amount, timestamp, memo));
    let ds = s.donations.push((donor, cid, amount, timestamp, memo));
    assert(ds.drop_last() =~= s.donations);
    assert(t.donations == ds);
    assert(total_of(t.totals, other_cid) == sum_for(ds, other_cid));
    assert(history_of(t.history, other_donor) == ids_for(ds, other_donor));
    assert(history_of(t.history, donor) == ids_for(ds, donor));
    assert(total_of(s.totals, other_cid) == sum_for(s.donations, other_cid));
    assert(history_of(s.history, other_donor) == ids_for(s.donations, other_donor));
    assert(history_of(s.history, donor) == ids_for(s.donations, donor));
}

/// A withdrawal request is accepted only from the campaign's owner or the admin.
pub proof fn law_withdrawal_request_authorised(
    s: DonationStorage,
    c: CampaignStorage,
    now: Clock,
    caller: Address,
    cid: u64,
    withdrawal_id: u64,
    amount: i128,
)
    requires
        c.well_formed(),
        spec_request_withdrawal(s, c, now, caller, cid, withdrawal_id, amount).result is Ok,
    ensures
        c.lookup(cid) matches Some(campaign) && (caller == campaign.owner || s.admin == Some(caller)),
        amount > 0,
{
}

/// The contract's storage, which `DonationContract` keeps well formed.
struct DonationState {
    address: Address,
    campaign_contract_id: Option<Address>,
    admin: Option<Address>,
    paused: bool,
    donations: Vec<Donation>,
    totals: Vec<(u64, i128)>,
    history: Vec<(Address, Vec<u64>)>,
}

pub open spec fn history_view(h: Seq<(Address, Vec<u64>)>) -> Seq<(Address, Seq<u64>)> {
    h.map_values(|e: (Address, Vec<u64>)| (e.0, e.1@))
}

impl View for DonationState {
    type V = DonationStorage;

    closed spec fn view(&self) -> DonationStorage {
        DonationStorage {
            address: self.address,
            campaign_contract_id: self.campaign_contract_id,
            admin: self.admin,
            paused: self.paused,
            donations: donation_views(self.donations@),
            totals: self.totals@,
            history: history_view(self.history@),
        }
    }
}

/// A copy of `d`.
fn copy_donation(d: &Donation) -> (r: Donation)
    ensures
        donation_view(r) == donation_view(*d),
{
    let memo = match &d.4 {
        Some(m) => Some(m.clone()),
        None => None,
    };
    assert(memo_view(memo) =~~= memo_view(d.4));
    (d.0, d.1, d.2, d.3, memo)
}

impl DonationState {
    /// A freshly deployed donation contract at `address`, with empty storage.
    fn new(address: Address) -> (c: DonationState)
        ensures
            c@.well_formed(),
            c@ =~= (DonationStorage {
                address,
                campaign_contract_id: None,
                admin: None,
                paused: false,
                donations: Seq::empty(),
                totals: Seq::empty(),
                history: Seq::empty(),
            }),
    {
        let c = DonationState {
            address,
            campaign_contract_id: None,
            admin: None,
            paused: false,
            donations: Vec::new(),
            totals: Vec::new(),
            history: Vec::new(),
        };
        assert(c@.donations =~= Seq::<DonationView>::empty());
        assert(c@.history =~= Seq::<(Address, Seq<u64>)>::empty());
        c
    }

    /// The contract's own address.
    fn address(&self) -> (a: Address)
        ensures
            a == self@.address,
    {
        self.address
    }

    /// Records the campaign contract to consult and the administrator;
    /// refused once a campaign contract is recorded.
    fn initialize(&mut self, campaign_contract_id: Address, admin: Address) -> (r: Result<(), ContractError>)
        requires
            old(self)@.well_formed(),
        ensures
            final(self)@.well_formed(),
            r is Err <==> old(self)@.campaign_contract_id is Some,
            r is Err ==> r == Err::<(), ContractError>(ContractError::DonationAlreadyInitialized),
            final(self)@ =~= spec_initialize(old(self)@, campaign_contract_id, admin),
    {
        if self.campaign_contract_id.is_some() {
            return Err(ContractError::DonationAlreadyInitialized);
        }
        self.campaign_contract_id = Some(campaign_contract_id);
        self.admin = Some(admin);
        Ok(())
    }

    /// Pauses the contract; only the recorded admin may, with its authorisation.
    fn pause(&mut self, env: &mut Env, admin: Address) -> (r: Result<(), ContractError>)
        requires
            old(self)@.well_formed(),
        ensures
            final(self)@.well_formed(),
            final(self)@ =~= spec_set_paused(old(self)@, admin, true).0,
            r == spec_set_paused(old(self)@, admin, true).1,
            env_extended(*old(env), *final(env), spec_set_paused(old(self)@, admin, true).2),
    {
        match self.admin {
            None => Err(ContractError::NotInitialized),
            Some(stored_admin) => {
                if admin != stored_admin {
                    return Err(ContractError::NotAdmin);
                }
                env.effects.push(HostEffect::RequireAuth(admin));
                self.paused = true;
                env.effects.push(
                    HostEffect::Publish {
                        contract: self.address,
                        event: ContractEvent::ContractPaused(ContractPausedEvent { admin }),
                    },
                );
                Ok(())
            },
        }
    }

    /// Lifts a pause; only the recorded admin may, with its authorisation.
    fn unpause(&mut self, env: &mut Env, admin: Address) -> (r: Result<(), ContractError>)
        requires
            old(self)@.well_formed(),
        ensures
            final(self)@.well_formed(),
            final(self)@ =~= spec_set_paused(old(self)@, admin, false).0,
            r == spec_set_paused(old(self)@, admin, false).1,
            env_extended(*old(env), *final(env), spec_set_paused(old(self)@, admin, false).2),
    {
        match self.admin {
            None => Err(ContractError::NotInitialized),
            Some(stored_admin) => {
                if admin != stored_admin {
                    return Err(ContractError::NotAdmin);
                }
                env.effects.push(HostEffect::RequireAuth(admin));
                self.paused = false;
                env.effects.push(
                    HostEffect::Publish {
                        contract: self.address,
                        event: ContractEvent::ContractUnpaused(ContractUnpausedEvent { admin }),
                    },
                );
                Ok(())
            },
        }
    }

    /// Takes a donation of `amount` of token `token_id` from `donor` to
    /// campaign `campaign_id` of the campaign contract `campaign` (the one
    /// this contract was initialised with), with an optional memo of at most
    /// 28 bytes. The donation is recorded under the next id with the ledger
    /// timestamp, added to the campaign's total and the donor's history, and
    /// the campaign contract's raised amount grows by `amount`.
    fn donate(
        &mut self,
        env: &mut Env,
        campaign: &mut CampaignContract,
        donor: Address,
        campaign_id: u64,
        token_id: Address,
        amount: i128,
        memo: Option<Vec<u8>>,
    ) -> (r: Result<(), ContractError>)
        requires
            old(self)@.well_formed(),
            old(campaign)@.well_formed(),
            old(self)@.campaign_contract_id matches Some(id) ==> id == old(campaign)@.address,
        ensures
            final(self)@.well_formed(),
            final(campaign)@.well_formed(),
            final(self)@ =~= spec_donate(old(self)@, old(campaign)@, clock_of(*old(env)), old(env).ledger_timestamp, donor, campaign_id, token_id, amount, memo_view(memo)).state,
            final(campaign)@ =~= spec_donate(old(self)@, old(campaign)@, clock_of(*old(env)), old(env).ledger_timestamp, donor, campaign_id, token_id, amount, memo_view(memo)).campaign,
            r == spec_donate(old(self)@, old(campaign)@, clock_of(*old(env)), old(env).ledger_timestamp, donor, campaign_id, token_id, amount, memo_view(memo)).result,
            env_extended(*old(env), *final(env), spec_donate(old(self)@, old(campaign)@, clock_of(*old(env)), old(env).ledger_timestamp, donor, campaign_id, token_id, amount, memo_view(memo)).effects),
    {
        if self.paused {
            return Err(ContractError::Paused);
        }
        if amount <= 0 {
            return Err(ContractError::AmountNotPositive);
        }
        match &memo {
            Some(m) => {
                if m.len() > MAX_MEMO_BYTES {
                    return Err(ContractError::MemoTooLong);
                }
            },
            None => {},
        }
        if self.campaign_contract_id.is_none() {
            return Err(ContractError::CampaignContractNotSet);
        }
        let found = campaign.lookup_campaign(campaign_id);
        let current = match found {
            None => {
                return Err(ContractError::CampaignNotFound);
            },
            Some(c) => c,
        };
        if current.status != CampaignStatus::Active {
            return Err(ContractError::CampaignNotActive);
        }
        if let Some(accepted_token) = current.asset_contract_id {
            if token_id != accepted_token {
                return Err(ContractError::TokenMismatch);
            }
        }
        let count = self.donations.len();
        if count as u64 >= u64::MAX {
            return Err(ContractError::Overflow);
        }
        let total_idx = self.find_total(campaign_id);
        let current_total: i128 = match total_idx {
            Some(k) => self.totals[k].1,
            None => 0,
        };
        if current_total > i128::MAX - amount {
            return Err(ContractError::Overflow);
        }
        if campaign.is_paused() {
            return Err(ContractError::Paused);
        }
        if current.raised > i128::MAX - amount {
            return Err(ContractError::Overflow);
        }
        let donor_idx = self.find_donor(donor);
        let ghost s0 = self@;
        let ghost env0 = *env;
        env.effects.push(HostEffect::RequireAuth(donor));
        let fetched = campaign.get_campaign(env, campaign_id);
        let ghost after_fetch = env.effects@;
        env.effects.push(
            HostEffect::Transfer { token: token_id, from: donor, to: self.address, amount },
        );
        let donation_id = count as u64 + 1;
        let donation: Donation = (donor, campaign_id, amount, env.ledger_timestamp, memo);
        proof {
            lemma_record_keeps_well_formed(s0, donation_view(donation));
        }
        self.donations.push(donation);
        match total_idx {
            Some(k) => {
                self.totals.set(k, (campaign_id, current_total + amount));
            },
            None => {
                self.totals.push((campaign_id, amount));
            },
        }
        let ghost hist0 = self.history@;
        match donor_idx {
            Some(k) => {
                let mut ids = self.history[k].1.clone();
                assert(ids@ =~= self.history@[k as int].1@);
                ids.push(donation_id);
                self.history.set(k, (donor, ids));
                assert(history_view(self.history@) =~= add_to_history(s0.history, donor, donation_id));
            },
            None => {
                let mut ids: Vec<u64> = Vec::new();
                ids.push(donation_id);
                self.history.push((donor, ids));
                assert(history_view(self.history@) =~= add_to_history(s0.history, donor, donation_id));
            },
        }
        env.effects.push(
            HostEffect::Publish {
                contract: self.address,
                event: ContractEvent::DonationMade(
                    DonationMadeEvent { campaign_id, donor, amount, token_id },
                ),
            },
        );
        let raised = campaign.update_raised_amount(env, campaign_id, amount);
        assert(donation_views(self.donations@) =~= s0.donations.push(donation_view(donation)));
        Ok(())
    }

    /// Announces a withdrawal request of `amount` for campaign `campaign_id`;
    /// only the campaign's owner or the admin may ask.
    fn request_withdrawal(
        &self,
        env: &mut Env,
        campaign: &mut CampaignContract,
        caller: Address,
        campaign_id: u64,
        withdrawal_id: u64,
        amount: i128,
    ) -> (r: Result<(), ContractError>)
        requires
            self@.well_formed(),
            old(campaign)@.well_formed(),
            self@.campaign_contract_id matches Some(id) ==> id == old(campaign)@.address,
        ensures
            final(campaign)@.well_formed(),
            spec_request_withdrawal(self@, old(campaign)@, clock_of(*old(env)), caller, campaign_id, withdrawal_id, amount).state == self@,
            final(campaign)@ =~= spec_request_withdrawal(self@, old(campaign)@, clock_of(*old(env)), caller, campaign_id, withdrawal_id, amount).campaign,
            r == spec_request_withdrawal(self@, old(campaign)@, clock_of(*old(env)), caller, campaign_id, withdrawal_id, amount).result,
            env_extended(*old(env), *final(env), spec_request_withdrawal(self@, old(campaign)@, clock_of(*old(env)), caller, campaign_id, withdrawal_id, amount).effects),
    {
        if self.paused {
            return Err(ContractError::Paused);
        }
        if amount <= 0 {
            return Err(ContractError::WithdrawalAmountNotPositive);
        }
        if self.campaign_contract_id.is_none() {
            return Err(ContractError::CampaignContractNotSet);
        }
        let admin = match self.admin {
            None => {
                return Err(ContractError::NotInitialized);
            },
            Some(a) => a,
        };
        let current = match campaign.lookup_campaign(campaign_id) {
            None => {
                return Err(ContractError::CampaignNotFound);
            },
            Some(c) => c,
        };
        if caller != current.owner && caller != admin {
            return Err(ContractError::NotOwnerOrAdmin);
        }
        env.effects.push(HostEffect::RequireAuth(caller));
        let fetched = campaign.get_campaign(env, campaign_id);
        env.effects.push(
            HostEffect::Publish {
                contract: self.address,
                event: ContractEvent::WithdrawalRequested(
                    WithdrawalRequestedEvent { campaign_id, withdrawal_id, amount },
                ),
            },
        );
        Ok(())
    }

    /// Announces the admin's approval of withdrawal `withdrawal_id`, paid out
    /// in transaction `tx_hash`.
    fn approve_withdrawal(
        &self,
        env: &mut Env,
        caller: Address,
        withdrawal_id: u64,
        tx_hash: String,
    ) -> (r: Result<(), ContractError>)
        requires
            self@.well_formed(),
        ensures
            match approve_refusal(self@, caller) {
                Some(e) => r == Err::<(), ContractError>(e) && env_extended(*old(env), *final(env), seq![]),
                None => r is Ok && env_extended(*old(env), *final(env), seq![
                    HostEffect::RequireAuth(caller),
                    publish(self@, ContractEvent::WithdrawalApproved(WithdrawalApprovedEvent { withdrawal_id, tx_hash })),
                ]),
            },
    {
        if self.paused {
            return Err(ContractError::Paused);
        }
        let admin = match self.admin {
            None => {
                return Err(ContractError::NotInitialized);
            },
            Some(a) => a,
        };
        if caller != admin {
            return Err(ContractError::NotAdmin);
        }
        env.effects.push(HostEffect::RequireAuth(caller));
        env.effects.push(
            HostEffect::Publish {
                contract: self.address,
                event: ContractEvent::WithdrawalApproved(WithdrawalApprovedEvent { withdrawal_id, tx_hash }),
            },
        );
        Ok(())
    }

    /// The donations to campaign `campaign_id`, in id order.
    fn get_donations_for_campaign(&self, campaign_id: u64) -> (r: Vec<Donation>)
        requires
            self@.well_formed(),
        ensures
            donation_views(r@) =~= of_campaign(self@.donations, campaign_id),
    {
        let mut result: Vec<Donation> = Vec::new();
        let n = self.donations.len();
        let mut i: usize = 0;
        while i < n
            invariant
                0 <= i <= n,
                n == self.donations@.len(),
                self@.donations == donation_views(self.donations@),
                donation_views(result@) =~= of_campaign(self@.donations.take(i as int), campaign_id),
            decreases n - i,
        {
            let ghost ds = self@.donations;
            assert(ds.take(i + 1).drop_last() =~= ds.take(i as int));
            let ghost before = result@;
            if self.donations[i].1 == campaign_id {
                let d = copy_donation(&self.donations[i]);
                assert(donation_view(d) == ds[i as int]);
                result.push(d);
                assert(donation_views(result@) =~= donation_views(before).push(donation_view(d)));
            }
            assert(donation_views(result@) =~= of_campaign(ds.take(i + 1), campaign_id));
            i = i + 1;
        }
        assert(self@.donations.take(n as int) =~= self@.donations);
        result
    }

    /// Total given to campaign `campaign_id`: the sum of its donations.
    fn get_total_raised(&self, campaign_id: u64) -> (total: i128)
        requires
            self@.well_formed(),
        ensures
            total == total_of(self@.totals, campaign_id),
            total == sum_for(self@.donations, campaign_id),
    {
        assert(total_of(self@.totals, campaign_id) == sum_for(self@.donations, campaign_id));
        match self.find_total(campaign_id) {
            Some(k) => self.totals[k].1,
            None => 0,
        }
    }

    /// The donations made by `donor`, in id order, read through its history.
    fn get_donor_history(&self, donor: Address) -> (r: Vec<Donation>)
        requires
            self@.well_formed(),
        ensures
            donation_views(r@) =~= of_donor(self@.donations, donor),
    {
        let mut result: Vec<Donation> = Vec::new();
        proof {
            lemma_history_picks(self@.donations, donor);
        }
        match self.find_donor(donor) {
            None => {
                assert(ids_for(self@.donations, donor) == history_of(self@.history, donor));
                assert(donation_views(result@) =~= Seq::new(0, |j: int| self@.donations[ids_for(self@.donations, donor)[j] - 1]));
            },
            Some(k) => {
                let keys = &self.history[k].1;
                let ghost ds = self@.donations;
                let ghost ids = ids_for(ds, donor);
                assert(keys@ == history_of(self@.history, donor));
                let n = keys.len();
                let len = self.donations.len();
                let mut i: usize = 0;
                while i < n
                    invariant
                        0 <= i <= n,
                        n == keys@.len(),
                        keys@ == ids,
                        len == self.donations@.len(),
                        ds == donation_views(self.donations@),
                        forall|j: int| 0 <= j < ids.len() ==> 1 <= #[trigger] ids[j] <= ds.len(),
                        donation_views(result@) =~= Seq::new(i as nat, |j: int| ds[ids[j] - 1]),
                    decreases n - i,
                {
                    let key = keys[i];
                    assert(ids[i as int] == key);
                    assert(ds.len() == self.donations@.len());
                    assert(1 <= key <= ds.len());
                    let ghost before = result@;
                    if key >= 1 && key <= len as u64 {
                        let d = copy_donation(&self.donations[(key - 1) as usize]);
                        assert(donation_view(d) == ds[key - 1]);
                        result.push(d);
                        assert(donation_views(result@) =~= donation_views(before).push(donation_view(d)));
                    }
                    assert(donation_views(result@) =~= Seq::new((i + 1) as nat, |j: int| ds[ids[j] - 1]));
                    i = i + 1;
                }
            },
        }
        result
    }

    /// Every donation, in id order.
    fn get_all_donations(&self) -> (r: Vec<Donation>)
        requires
            self@.well_formed(),
        ensures
            donation_views(r@) =~= self@.donations,
    {
        let mut result: Vec<Donation> = Vec::new();
        let n = self.donations.len();
        let mut i: usize = 0;
        while i < n
            invariant
                0 <= i <= n,
                n == self.donations@.len(),
                self@.donations == donation_views(self.donations@),
                donation_views(result@) =~= self@.donations.take(i as int),
            decreases n - i,
        {
            let d = copy_donation(&self.donations[i]);
            assert(donation_view(d) == self@.donations[i as int]);
            let ghost before = result@;
            result.push(d);
            assert(donation_views(result@) =~= donation_views(before).push(donation_view(d)));
            assert(donation_views(result@) =~= self@.donations.take(i + 1));
            i = i + 1;
        }
        result
    }

    /// Where `cid` sits among the stored totals.
    fn find_total(&self, cid: u64) -> (r: Option<usize>)
        requires
            self@.well_formed(),
        ensures
            r is Some <==> has_key(self@.totals, cid),
            r matches Some(k) ==> k == key_index(self@.totals, cid) && k < self@.totals.len(),
    {
        let n = self.totals.len();
        let mut i: usize = 0;
        while i < n
            invariant
                0 <= i <= n,
                n == self@.totals.len(),
                self@.well_formed(),
                forall|j: int| 0 <= j < i ==> #[trigger] self@.totals[j].0 != cid,
            decreases n - i,
        {
            if self.totals[i].0 == cid {
                proof {
                    assert(self@.totals[i as int].0 == cid);
                    assert(has_key(self@.totals, cid));
                    let k = key_index(self@.totals, cid);
                    assert(self@.totals[k].0 == cid);
                    assert(self@.totals[k].0 == self@.totals[i as int].0);
                }
                return Some(i);
            }
            i = i + 1;
        }
        None
    }

    /// Where `donor` sits in the history.
    fn find_donor(&self, donor: Address) -> (r: Option<usize>)
        requires
            self@.well_formed(),
        ensures
            r is Some <==> has_key(self@.history, donor),
            r matches Some(k) ==> k == key_index(self@.history, donor) && k < self@.history.len(),
    {
        let n = self.history.len();
        let mut i: usize = 0;
        while i < n
            invariant
                0 <= i <= n,
                n == self.history@.len(),
                self@.well_formed(),
                self@.history == history_view(self.history@),
                forall|j: int| 0 <= j < i ==> #[trigger] self@.history[j].0 != donor,
            decreases n - i,
        {
            if self.history[i].0 == donor {
                proof {
                    assert(self@.history[i as int].0 == donor);
                    assert(has_key(self@.history, donor));
                    let k = key_index(self@.history, donor);
                    assert(self@.history[k].0 == donor);
                    assert(self@.history[k].0 == self@.history[i as int].0);
                }
                return Some(i);
            }
            i = i + 1;
        }
        None
    }
}

/// The donation contract: takes donations for campaigns registered in the
/// campaign contract, keeps their records and per-campaign totals, and
/// handles withdrawal requests.
pub struct DonationContract {
    state: DonationState,
}

impl View for DonationContract {
    type V = DonationStorage;

    closed spec fn view(&self) -> DonationStorage {
        self.state@
    }
}

impl DonationContract {
    /// The storage always satisfies its invariant.
    #[verifier::type_invariant]
    spec fn valid(self) -> bool {
        self.state@.well_formed()
    }

    /// A freshly deployed donation contract at `address`, with empty storage.
    pub fn new(address: Address) -> (c: DonationContract)
        ensures
            c@.well_formed(),
            c@ =~= (DonationStorage {
                address,
                campaign_contract_id: None,
                admin: None,
                paused: false,
                donations: Seq::empty(),
                totals: Seq::empty(),
                history: Seq::empty(),
            }),
    {
        DonationContract { state: DonationState::new(address) }
    }

    /// The contract's own address.
    pub fn address(&self) -> (a: Address)
        ensures
            a == self@.address,
    {
        proof {
            use_type_invariant(self);
        }
        self.state.address()
    }

    /// Records the campaign contract to consult and the administrator;
    /// refused once a campaign contract is recorded.
    pub fn initialize(&mut self, campaign_contract_id: Address, admin: Address) -> (r: Result<(), ContractError>)
        ensures
            final(self)@.well_formed(),
            r is Err <==> old(self)@.campaign_contract_id is Some,
            r is Err ==> r == Err::<(), ContractError>(ContractError::DonationAlreadyInitialized),
            final(self)@ =~= spec_initialize(old(self)@, campaign_contract_id, admin),
    {
        proof {
            use_type_invariant(&*self);
        }
        let mut state = DonationState::new(self.state.address);
        std::mem::swap(&mut state, &mut self.state);
        let r = state.initialize(campaign_contract_id, admin);
        self.state = state;
        r
    }

    /// Pauses the contract; only the recorded admin may, with its authorisation.
    pub fn pause(&mut self, env: &mut Env, admin: Address) -> (r: Result<(), ContractError>)
        ensures
            final(self)@.well_formed(),
            final(self)@ =~= spec_set_paused(old(self)@, admin, true).0,
            r == spec_set_paused(old(self)@, admin, true).1,
            env_extended(*old(env), *final(env), spec_set_paused(old(self)@, admin, true).2),
    {
        proof {
            use_type_invariant(&*self);
        }
        let mut state = DonationState::new(self.state.address);
        std::mem::swap(&mut state, &mut self.state);
        let r = state.pause(env, admin);
        self.state = state;
        r
    }

    /// Lifts a pause; only the recorded admin may, with its authorisation.
    pub fn unpause(&mut self, env: &mut Env, admin: Address) -> (r: Result<(), ContractError>)
        ensures
            final(self)@.well_formed(),
            final(self)@ =~= spec_set_paused(old(self)@, admin, false).0,
            r == spec_set_paused(old(self)@, admin, false).1,
            env_extended(*old(env), *final(env), spec_set_paused(old(self)@, admin, false).2),
    {
        proof {
            use_type_invariant(&*self);
        }
        let mut state = DonationState::new(self.state.address);
        std::mem::swap(&mut state, &mut self.state);
        let r = state.unpause(env, admin);
        self.state = state;
        r
    }

    /// Takes a donation of `amount` of token `token_id` from `donor` to
    /// campaign `campaign_id` of the campaign contract `campaign` (the one
    /// this contract was initialised with), with an optional memo of at most
    /// 28 bytes. The donation is recorded under the next id with the ledger
    /// timestamp, added to the campaign's total and the donor's history, and
    /// the campaign contract's raised amount grows by `amount`.
    pub fn donate(
        &mut self,
        env: &mut Env,
        campaign: &mut CampaignContract,
        donor: Address,
        campaign_id: u64,
        token_id: Address,
        amount: i128,
        memo: Option<Vec<u8>>,
    ) -> (r: Result<(), ContractError>)
        requires
            old(self)@.campaign_contract_id matches Some(id) ==> id == old(campaign)@.address,
        ensures
            final(self)@.well_formed(),
            final(campaign)@.well_formed(),
            final(self)@ =~= spec_donate(old(self)@, old(campaign)@, clock_of(*old(env)), old(env).ledger_timestamp, donor, campaign_id, token_id, amount, memo_view(memo)).state,
            final(campaign)@ =~= spec_donate(old(self)@, old(campaign)@, clock_of(*old(env)), old(env).ledger_timestamp, donor, campaign_id, token_id, amount, memo_view(memo)).campaign,
            r == spec_donate(old(self)@, old(campaign)@, clock_of(*old(env)), old(env).ledger_timestamp, donor, campaign_id, token_id, amount, memo_view(memo)).result,
            env_extended(*old(env), *final(env), spec_donate(old(self)@, old(campaign)@, clock_of(*old(env)), old(env).ledger_timestamp, donor, campaign_id, token_id, amount, memo_view(memo)).effects),
    {
        proof {
            use_type_invariant(&*campaign);
            campaign.lemma_valid();
        }
        proof {
            use_type_invariant(&*self);
        }
        let mut state = DonationState::new(self.state.address);
        std::mem::swap(&mut state, &mut self.state);
        let r = state.donate(env, campaign, donor, campaign_id, token_id, amount, memo);
        self.state = state;
        r
    }

    /// Announces a withdrawal request of `amount` for campaign `campaign_id`;
    /// only the campaign's owner or the admin may ask.
    pub fn request_withdrawal(
        &self,
        env: &mut Env,
        campaign: &mut CampaignContract,
        caller: Address,
        campaign_id: u64,
        withdrawal_id: u64,
        amount: i128,
    ) -> (r: Result<(), ContractError>)
        requires
            self@.campaign_contract_id matches Some(id) ==> id == old(campaign)@.address,
        ensures
            final(campaign)@.well_formed(),
            spec_request_withdrawal(self@, old(campaign)@, clock_of(*old(env)), caller, campaign_id, withdrawal_id, amount).state == self@,
            final(campaign)@ =~= spec_request_withdrawal(self@, old(campaign)@, clock_of(*old(env)), caller, campaign_id, withdrawal_id, amount).campaign,
            r == spec_request_withdrawal(self@, old(campaign)@, clock_of(*old(env)), caller, campaign_id, withdrawal_id, amount).result,
            env_extended(*old(env), *final(env), spec_request_withdrawal(self@, old(campaign)@, clock_of(*old(env)), caller, campaign_id, withdrawal_id, amount).effects),
    {
        proof {
            use_type_invariant(&*campaign);
            campaign.lemma_valid();
        }
        proof {
            use_type_invariant(self);
        }
        self.state.request_withdrawal(env, campaign, caller, campaign_id, withdrawal_id, amount)
    }

    /// Announces the admin's approval of withdrawal `withdrawal_id`, paid out
    /// in transaction `tx_hash`.
    pub fn approve_withdrawal(
        &self,
        env: &mut Env,
        caller: Address,
        withdrawal_id: u64,
        tx_hash: String,
    ) -> (r: Result<(), ContractError>)
        ensures
            match approve_refusal(self@, caller) {
                Some(e) => r == Err::<(), ContractError>(e) && env_extended(*old(env), *final(env), seq![]),
                None => r is Ok && env_extended(*old(env), *final(env), seq![
                    HostEffect::RequireAuth(caller),
                    publish(self@, ContractEvent::WithdrawalApproved(WithdrawalApprovedEvent { withdrawal_id, tx_hash })),
                ]),
            },
    {
        proof {
            use_type_invariant(self);
        }
        self.state.approve_withdrawal(env, caller, withdrawal_id, tx_hash)
    }

    /// The donations to campaign `campaign_id`, in id order.
    pub fn get_donations_for_campaign(&self, campaign_id: u64) -> (r: Vec<Donation>)
        ensures
            donation_views(r@) =~= of_campaign(self@.donations, campaign_id),
    {
        proof {
            use_type_invariant(self);
        }
        self.state.get_donations_for_campaign(campaign_id)
    }

    /// Total given to campaign `campaign_id`: the sum of its donations.
    pub fn get_total_raised(&self, campaign_id: u64) -> (total: i128)
        ensures
            total == total_of(self@.totals, campaign_id),
            total == sum_for(self@.donations, campaign_id),
    {
        proof {
            use_type_invariant(self);
        }
        self.state.get_total_raised(campaign_id)
    }

    /// The donations made by `donor`, in id order, read through its history.
    pub fn get_donor_history(&self, donor: Address) -> (r: Vec<Donation>)
        ensures
            donation_views(r@) =~= of_donor(self@.donations, donor),
    {
        proof {
            use_type_invariant(self);
        }
        self.state.get_donor_history(donor)
    }

    /// Every donation, in id order.
    pub fn get_all_donations(&self) -> (r: Vec<Donation>)
        ensures
            donation_views(r@) =~= self@.donations,
    {
        proof {
            use_type_invariant(self);
        }
        self.state.get_all_donations()
    }
}

} // verus!
