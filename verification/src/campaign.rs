use vstd::prelude::*;

use crate::host::{
    clock_of, env_extended, Address, Clock, CampaignRegisteredEvent, CampaignStatusChangedEvent, ContractError,
    ContractEvent, ContractPausedEvent, ContractUnpausedEvent, Env, HostEffect, StorageKey,
};
use crate::shared::{Campaign, CampaignStatus};

verus! {

/// Below this many remaining ledgers a campaign entry's lifetime is extended (7 days).
pub const CAMPAIGN_TTL_THRESHOLD_LEDGERS: u32 = 17280 * 7;

/// The lifetime, in ledgers, a campaign entry is extended to (30 days).
pub const CAMPAIGN_TTL_BUMP_TO_LEDGERS: u32 = 17280 * 30;

/// Within this many ledgers of the last extension a campaign is not extended again.
pub const CAMPAIGN_TTL_BUMP_LOCK_WINDOW_LEDGERS: u32 = 100;

pub const CAMPAIGN_STATUS_ACTIVE: u32 = 0;

pub const CAMPAIGN_STATUS_COMPLETED: u32 = 1;

pub const CAMPAIGN_STATUS_CANCELLED: u32 = 2;

pub const CAMPAIGN_STATUS_EXPIRED: u32 = 3;

#[verifier::ext_equal]
/// The storage of the campaign contract.
///
/// The campaign with id `i` sits at `campaigns[i - 1]`; the number of
/// campaigns is the campaign counter. `raised[i - 1]` is the `Raised(i)`
/// entry, the total raised by campaign `i`, which its record repeats.
/// `bump_locks[i - 1]` is the temporary bump-lock entry of campaign `i`:
/// the ledger at which its lifetime was last extended, and the ledger from
/// which the entry has expired.
pub struct CampaignStorage {
    pub address: Address,
    pub admin: Option<Address>,
    pub paused: bool,
    pub campaigns: Seq<Campaign>,
    pub raised: Seq<i128>,
    pub bump_locks: Seq<Option<(u32, u64)>>,
}

impl CampaignStorage {
    pub open spec fn well_formed(self) -> bool {
        &&& self.campaigns.len() == self.bump_locks.len()
        &&& self.campaigns.len() == self.raised.len()
        &&& self.campaigns.len() <= u64::MAX
        &&& forall|i: int| 0 <= i < self.campaigns.len() ==> #[trigger] self.campaigns[i].id == i + 1
        &&& forall|i: int| 0 <= i < self.campaigns.len() ==> #[trigger] self.campaigns[i].raised == self.raised[i]
    }

    /// The campaign counter.
    pub open spec fn count(self) -> nat {
        self.campaigns.len()
    }

    pub open spec fn lookup(self, id: u64) -> Option<Campaign> {
        if 1 <= id <= self.campaigns.len() {
            Some(self.campaigns[id - 1])
        } else {
            None
        }
    }

    pub open spec fn with_paused(self, paused: bool) -> CampaignStorage {
        CampaignStorage { paused, ..self }
    }

    pub open spec fn with_campaigns(self, campaigns: Seq<Campaign>) -> CampaignStorage {
        CampaignStorage { campaigns, ..self }
    }

    pub open spec fn with_locks(self, bump_locks: Seq<Option<(u32, u64)>>) -> CampaignStorage {
        CampaignStorage { bump_locks, ..self }
    }
}

/// The outcome of one invocation: the storage after it, what it returns, and
/// the effects it asks of the host.
pub struct CampaignStep<T> {
    pub state: CampaignStorage,
    pub result: Result<T, ContractError>,
    pub effects: Seq<HostEffect>,
}

pub open spec fn refused<T>(s: CampaignStorage, e: ContractError) -> CampaignStep<T> {
    CampaignStep { state: s, result: Err(e), effects: seq![] }
}

/// `now - last`, or 0 when `last` is later.
pub open spec fn ledger_gap(now: u32, last: u32) -> int {
    if now >= last {
        now - last
    } else {
        0
    }
}

/// A campaign's lifetime is extended unless its bump lock is still live
/// and was written within the window.
pub open spec fn bump_due(lock: Option<(u32, u64)>, now: Clock) -> bool {
    match lock {
        None => true,
        Some((last, expires)) => now.sequence >= expires || ledger_gap(now.sequence, last)
            >= CAMPAIGN_TTL_BUMP_LOCK_WINDOW_LEDGERS,
    }
}

/// The bump lock written at `now`: the ledger, and the ledger from which the
/// temporary entry has expired.
pub open spec fn new_lock(now: Clock) -> (u32, u64) {
    (now.sequence, (now.sequence + now.temp_entry_ttl) as u64)
}

pub open spec fn extend_effect(key: StorageKey) -> HostEffect {
    HostEffect::ExtendTtl {
        key,
        threshold: CAMPAIGN_TTL_THRESHOLD_LEDGERS,
        extend_to: CAMPAIGN_TTL_BUMP_TO_LEDGERS,
    }
}

pub open spec fn publish(s: CampaignStorage, event: ContractEvent) -> HostEffect {
    HostEffect::Publish { contract: s.address, event }
}

/// The bump locks after trying to extend campaign `id` at ledger `now`.
pub open spec fn bumped_locks(locks: Seq<Option<(u32, u64)>>, id: u64, now: Clock) -> Seq<Option<(u32, u64)>> {
    if bump_due(locks[id - 1], now) {
        locks.update(id - 1, Some(new_lock(now)))
    } else {
        locks
    }
}

/// The extensions asked for when trying to extend campaign `id` at ledger
/// `now`: its record and its raised total.
pub open spec fn bump_effects(locks: Seq<Option<(u32, u64)>>, id: u64, now: Clock) -> Seq<HostEffect> {
    if bump_due(locks[id - 1], now) {
        seq![extend_effect(StorageKey::Campaign(id)), extend_effect(StorageKey::Raised(id))]
    } else {
        seq![]
    }
}

/// Extending the lifetime of campaign `id` when it is active.
pub open spec fn refresh(s: CampaignStorage, id: u64, now: Clock) -> (CampaignStorage, Seq<HostEffect>) {
    if s.campaigns[id - 1].status == CampaignStatus::Active {
        (s.with_locks(bumped_locks(s.bump_locks, id, now)), bump_effects(s.bump_locks, id, now))
    } else {
        (s, seq![])
    }
}

/// Refreshing the first `n` campaigns in id order.
pub open spec fn refresh_upto(s: CampaignStorage, now: Clock, n: nat) -> (CampaignStorage, Seq<HostEffect>)
    decreases n,
{
    if n == 0 {
        (s, seq![])
    } else {
        let (mid, effs) = refresh_upto(s, now, (n - 1) as nat);
        let (last, more) = refresh(mid, n as u64, now);
        (last, effs + more)
    }
}

pub open spec fn spec_initialize(s: CampaignStorage, admin: Address) -> CampaignStep<()> {
    if s.admin is Some {
        refused(s, ContractError::AlreadyInitialized)
    } else {
        CampaignStep { state: CampaignStorage { admin: Some(admin), ..s }, result: Ok(()), effects: seq![] }
    }
}

/// Pausing (`paused == true`) or unpausing by `admin`.
pub open spec fn spec_set_paused(s: CampaignStorage, admin: Address, paused: bool) -> CampaignStep<()> {
    match s.admin {
        None => refused(s, ContractError::NotInitialized),
        Some(stored) => if admin != stored {
            refused(s, ContractError::NotAdmin)
        } else {
            CampaignStep {
                state: s.with_paused(paused),
                result: Ok(()),
                effects: seq![
                    HostEffect::RequireAuth(admin),
                    publish(s, if paused {
                        ContractEvent::ContractPaused(ContractPausedEvent { admin })
                    } else {
                        ContractEvent::ContractUnpaused(ContractUnpausedEvent { admin })
                    }),
                ],
            }
        },
    }
}

pub open spec fn new_campaign(
    id: u64,
    owner: Address,
    goal: i128,
    deadline: u64,
    asset_contract_id: Option<Address>,
) -> Campaign {
    Campaign { id, owner, goal, raised: 0, status: CampaignStatus::Active, deadline, asset_contract_id }
}

pub open spec fn spec_register_campaign(
    s: CampaignStorage,
    owner: Address,
    goal: i128,
    deadline: u64,
    asset_contract_id: Option<Address>,
    now: Clock,
) -> CampaignStep<u64> {
    if s.paused {
        refused(s, ContractError::Paused)
    } else if s.count() >= u64::MAX {
        refused(s, ContractError::Overflow)
    } else {
        let id = (s.count() + 1) as u64;
        CampaignStep {
            state: CampaignStorage {
                campaigns: s.campaigns.push(new_campaign(id, owner, goal, deadline, asset_contract_id)),
                raised: s.raised.push(0),
                bump_locks: s.bump_locks.push(Some(new_lock(now))),
                ..s
            },
            result: Ok(id),
            effects: seq![
                HostEffect::RequireAuth(owner),
                extend_effect(StorageKey::CampaignCount),
                extend_effect(StorageKey::Campaign(id)),
                extend_effect(StorageKey::Raised(id)),
                publish(s, ContractEvent::CampaignRegistered(CampaignRegisteredEvent {
                    campaign_id: id, owner, goal, deadline, asset_contract_id,
                })),
            ],
        }
    }
}

pub open spec fn spec_get_campaign(s: CampaignStorage, id: u64, now: Clock) -> CampaignStep<Campaign> {
    match s.lookup(id) {
        None => refused(s, ContractError::CampaignNotFound),
        Some(c) => {
            let (t, effs) = refresh(s, id, now);
            CampaignStep { state: t, result: Ok(c), effects: effs }
        },
    }
}

pub open spec fn spec_update_campaign_status(
    s: CampaignStorage,
    id: u64,
    status: CampaignStatus,
    now: Clock,
) -> CampaignStep<()> {
    if s.paused {
        refused(s, ContractError::Paused)
    } else {
        match s.lookup(id) {
            None => refused(s, ContractError::CampaignNotFound),
            Some(c) => {
                let updated = s.with_campaigns(s.campaigns.update(id - 1, Campaign { status, ..c }));
                let (t, effs) = refresh(updated, id, now);
                CampaignStep {
                    state: t,
                    result: Ok(()),
                    effects: effs.push(publish(s, ContractEvent::CampaignStatusUpdated(
                        CampaignStatusChangedEvent { campaign_id: id, old_status: c.status, new_status: status },
                    ))),
                }
            },
        }
    }
}

pub open spec fn spec_get_all_campaigns(s: CampaignStorage, now: Clock) -> CampaignStep<Seq<Campaign>> {
    let (t, effs) = refresh_upto(s, now, s.count());
    CampaignStep {
        state: t,
        result: Ok(s.campaigns),
        effects: seq![extend_effect(StorageKey::CampaignCount)] + effs,
    }
}

pub open spec fn spec_update_raised_amount(s: CampaignStorage, id: u64, amount: i128, now: Clock) -> CampaignStep<()> {
    if s.paused {
        refused(s, ContractError::Paused)
    } else if amount <= 0 {
        refused(s, ContractError::AmountNotPositive)
    } else {
        match s.lookup(id) {
            None => refused(s, ContractError::CampaignNotFound),
            Some(c) => if c.raised + amount > i128::MAX {
                refused(s, ContractError::Overflow)
            } else {
                let total = (c.raised + amount) as i128;
                let updated = CampaignStorage {
                    campaigns: s.campaigns.update(id - 1, Campaign { raised: total, ..c }),
                    raised: s.raised.update(id - 1, total),
                    ..s
                };
                let (t, effs) = refresh(updated, id, now);
                CampaignStep { state: t, result: Ok(()), effects: effs }
            },
        }
    }
}

pub open spec fn spec_get_raised_amount(s: CampaignStorage, id: u64, now: Clock) -> CampaignStep<i128> {
    match s.lookup(id) {
        None => CampaignStep { state: s, result: Ok(0), effects: seq![] },
        Some(c) => {
            let (t, effs) = refresh(s, id, now);
            CampaignStep { state: t, result: Ok(c.raised), effects: effs }
        },
    }
}

/// The contract's storage, which `CampaignContract` keeps well formed.
struct CampaignState {
    address: Address,
    admin: Option<Address>,
    paused: bool,
    campaigns: Vec<Campaign>,
    raised: Vec<i128>,
    bump_locks: Vec<Option<(u32, u64)>>,
}

impl View for CampaignState {
    type V = CampaignStorage;

    closed spec fn view(&self) -> CampaignStorage {
        CampaignStorage {
            address: self.address,
            admin: self.admin,
            paused: self.paused,
            campaigns: self.campaigns@,
            raised: self.raised@,
            bump_locks: self.bump_locks@,
        }
    }
}

/// The contract's storage and the host after an invocation are those `step` describes.
pub open spec fn applied<T>(
    before: Env,
    after_state: CampaignStorage,
    after_env: Env,
    result: Result<T, ContractError>,
    step: CampaignStep<T>,
) -> bool {
    &&& after_state =~= step.state
    &&& result == step.result
    &&& env_extended(before, after_env, step.effects)
}

impl CampaignState {
    /// A freshly deployed campaign contract at `address`, with empty storage.
    fn new(address: Address) -> (c: CampaignState)
        ensures
            c@.well_formed(),
            c@ == (CampaignStorage {
                address,
                admin: None,
                paused: false,
                campaigns: Seq::empty(),
                raised: Seq::empty(),
                bump_locks: Seq::empty(),
            }),
    {
        CampaignState { address, admin: None, paused: false, campaigns: Vec::new(), raised: Vec::new(), bump_locks: Vec::new() }
    }

    /// The contract's own address.
    fn address(&self) -> (a: Address)
        ensures
            a == self@.address,
    {
        self.address
    }

    /// Whether the contract is paused.
    fn is_paused(&self) -> (p: bool)
        ensures
            p == self@.paused,
    {
        self.paused
    }

    /// The stored campaign `campaign_id`, read without touching its lifetime.
    fn lookup_campaign(&self, campaign_id: u64) -> (c: Option<Campaign>)
        requires
            self@.well_formed(),
        ensures
            c == self@.lookup(campaign_id),
    {
        let len = self.campaigns.len();
        if campaign_id == 0 || campaign_id > len as u64 {
            None
        } else {
            Some(self.campaigns[(campaign_id - 1) as usize])
        }
    }

    /// Extends the lifetime of campaign `campaign_id`, unless that was done
    /// within the lock window.
    fn bump_campaign_ttl(&mut self, env: &mut Env, campaign_id: u64)
        requires
            old(self)@.well_formed(),
            1 <= campaign_id <= old(self)@.count(),
        ensures
            final(self)@ =~= old(self)@.with_locks(
                bumped_locks(old(self)@.bump_locks, campaign_id, clock_of(*old(env))),
            ),
            env_extended(
                *old(env),
                *final(env),
                bump_effects(old(self)@.bump_locks, campaign_id, clock_of(*old(env))),
            ),
    {
        let n = self.bump_locks.len();
        assert(campaign_id - 1 < n);
        let idx = (campaign_id - 1) as usize;
        let current_ledger = env.ledger_sequence;
        // An expired temporary entry reads as absent.
        if let Some((last_bumped, expires)) = self.bump_locks[idx] {
            if (current_ledger as u64) < expires
                && current_ledger.saturating_sub(last_bumped) < CAMPAIGN_TTL_BUMP_LOCK_WINDOW_LEDGERS {
                return;
            }
        }
        env.effects.push(
            HostEffect::ExtendTtl {
                key: StorageKey::Campaign(campaign_id),
                threshold: CAMPAIGN_TTL_THRESHOLD_LEDGERS,
                extend_to: CAMPAIGN_TTL_BUMP_TO_LEDGERS,
            },
        );
        env.effects.push(
            HostEffect::ExtendTtl {
                key: StorageKey::Raised(campaign_id),
                threshold: CAMPAIGN_TTL_THRESHOLD_LEDGERS,
                extend_to: CAMPAIGN_TTL_BUMP_TO_LEDGERS,
            },
        );
        let expires = current_ledger as u64 + env.temp_entry_ttl as u64;
        self.bump_locks.set(idx, Some((current_ledger, expires)));
    }

    /// Extends campaign `campaign_id`'s lifetime when it is active.
    fn refresh_campaign(&mut self, env: &mut Env, campaign_id: u64)
        requires
            old(self)@.well_formed(),
            1 <= campaign_id <= old(self)@.count(),
        ensures
            final(self)@ =~= refresh(old(self)@, campaign_id, clock_of(*old(env))).0,
            env_extended(*old(env), *final(env), refresh(old(self)@, campaign_id, clock_of(*old(env))).1),
    {
        let n = self.campaigns.len();
        assert(campaign_id - 1 < n);
        let idx = (campaign_id - 1) as usize;
        if self.campaigns[idx].status == CampaignStatus::Active {
            self.bump_campaign_ttl(env, campaign_id);
        } else {
            assert(env.effects@ =~= old(env).effects@ + Seq::<HostEffect>::empty());
        }
    }

    fn extend_index_ttl(env: &mut Env)
        ensures
            env_extended(*old(env), *final(env), seq![extend_effect(StorageKey::CampaignCount)]),
    {
        env.effects.push(
            HostEffect::ExtendTtl {
                key: StorageKey::CampaignCount,
                threshold: CAMPAIGN_TTL_THRESHOLD_LEDGERS,
                extend_to: CAMPAIGN_TTL_BUMP_TO_LEDGERS,
            },
        );
    }

    /// Records `admin` as the contract's administrator; refused when one is
    /// already recorded.
    fn initialize(&mut self, admin: Address) -> (r: Result<(), ContractError>)
        requires
            old(self)@.well_formed(),
        ensures
            final(self)@.well_formed(),
            final(self)@ == spec_initialize(old(self)@, admin).state,
            r == spec_initialize(old(self)@, admin).result,
    {
        if self.admin.is_some() {
            return Err(ContractError::AlreadyInitialized);
        }
        self.admin = Some(admin);
        Ok(())
    }

    /// Pauses the contract; only the recorded admin may, with its authorisation.
    fn pause(&mut self, env: &mut Env, admin: Address) -> (r: Result<(), ContractError>)
        requires
            old(self)@.well_formed(),
        ensures
            final(self)@.well_formed(),
            applied(*old(env), final(self)@, *final(env), r, spec_set_paused(old(self)@, admin, true)),
    {
        match self.admin {
            None => Err(ContractError::NotInitialized),
            Some(stored_admin) => {
                if admin != stored_admin {
                    return Err(ContractError::NotAdmin);
                }
                env.effects.push(HostEffect::RequireAuth(admin));
                self.paused = true;
                env.effects.push(
                    HostEffect::Publish {
                        contract: self.address,
                        event: ContractEvent::ContractPaused(ContractPausedEvent { admin }),
                    },
                );
                Ok(())
            },
        }
    }

    /// Lifts a pause; only the recorded admin may, with its authorisation.
    fn unpause(&mut self, env: &mut Env, admin: Address) -> (r: Result<(), ContractError>)
        requires
            old(self)@.well_formed(),
        ensures
            final(self)@.well_formed(),
            applied(*old(env), final(self)@, *final(env), r, spec_set_paused(old(self)@, admin, false)),
    {
        match self.admin {
            None => Err(ContractError::NotInitialized),
            Some(stored_admin) => {
                if admin != stored_admin {
                    return Err(ContractError::NotAdmin);
                }
                env.effects.push(HostEffect::RequireAuth(admin));
                self.paused = false;
                env.effects.push(
                    HostEffect::Publish {
                        contract: self.address,
                        event: ContractEvent::ContractUnpaused(ContractUnpausedEvent { admin }),
                    },
                );
                Ok(())
            },
        }
    }

    /// Registers a new active campaign for `owner`, with nothing raised yet,
    /// and returns its id: one more than the number of campaigns before.
    /// `asset_contract_id` is the token the campaign accepts (`None`: any).
    fn register_campaign(
        &mut self,
        env: &mut Env,
        owner: Address,
        goal: i128,
        deadline: u64,
        asset_contract_id: Option<Address>,
    ) -> (r: Result<u64, ContractError>)
        requires
            old(self)@.well_formed(),
        ensures
            final(self)@.well_formed(),
            applied(
                *old(env),
                final(self)@,
                *final(env),
                r,
                spec_register_campaign(old(self)@, owner, goal, deadline, asset_contract_id, clock_of(*old(env))),
            ),
    {
        if self.paused {
            return Err(ContractError::Paused);
        }
        let len = self.campaigns.len();
        if len as u64 >= u64::MAX {
            return Err(ContractError::Overflow);
        }
        let count = len as u64 + 1;
        env.effects.push(HostEffect::RequireAuth(owner));
        let campaign = Campaign {
            id: count,
            owner,
            goal,
            raised: 0,
            status: CampaignStatus::Active,
            deadline,
            asset_contract_id,
        };
        self.campaigns.push(campaign);
        self.raised.push(0);
        self.bump_locks.push(None);
        Self::extend_index_ttl(env);
        assert(self@.well_formed());
        self.bump_campaign_ttl(env, count);
        env.effects.push(
            HostEffect::Publish {
                contract: self.address,
                event: ContractEvent::CampaignRegistered(
                    CampaignRegisteredEvent { campaign_id: count, owner, goal, deadline, asset_contract_id },
                ),
            },
        );
        assert(self.bump_locks@ =~= old(self).bump_locks@.push(Some(new_lock(clock_of(*old(env))))));
        Ok(count)
    }

    /// The campaign with id `campaign_id`; reading an active campaign extends
    /// its lifetime.
    fn get_campaign(&mut self, env: &mut Env, campaign_id: u64) -> (r: Result<Campaign, ContractError>)
        requires
            old(self)@.well_formed(),
        ensures
            final(self)@.well_formed(),
            applied(*old(env), final(self)@, *final(env), r, spec_get_campaign(old(self)@, campaign_id, clock_of(*old(env)))),
    {
        let len = self.campaigns.len();
        if campaign_id == 0 || campaign_id as usize > len || campaign_id > len as u64 {
            return Err(ContractError::CampaignNotFound);
        }
        let campaign = self.campaigns[(campaign_id - 1) as usize];
        self.refresh_campaign(env, campaign_id);
        Ok(campaign)
    }

    /// Sets campaign `campaign_id`'s status; an active campaign's lifetime is
    /// then extended.
    fn update_campaign_status(
        &mut self,
        env: &mut Env,
        campaign_id: u64,
        status: CampaignStatus,
    ) -> (r: Result<(), ContractError>)
        requires
            old(self)@.well_formed(),
        ensures
            final(self)@.well_formed(),
            applied(
                *old(env),
                final(self)@,
                *final(env),
                r,
                spec_update_campaign_status(old(self)@, campaign_id, status, clock_of(*old(env))),
            ),
    {
        if self.paused {
            return Err(ContractError::Paused);
        }
        let len = self.campaigns.len();
        if campaign_id == 0 || campaign_id > len as u64 {
            return Err(ContractError::CampaignNotFound);
        }
        let idx = (campaign_id - 1) as usize;
        let campaign = self.campaigns[idx];
        let old_status = campaign.status;
        let updated = Campaign { status, ..campaign };
        self.campaigns.set(idx, updated);
        assert(self@.well_formed());
        self.refresh_campaign(env, campaign_id);
        env.effects.push(
            HostEffect::Publish {
                contract: self.address,
                event: ContractEvent::CampaignStatusUpdated(
                    CampaignStatusChangedEvent { campaign_id, old_status, new_status: status },
                ),
            },
        );
        Ok(())
    }

    /// The number of registered campaigns.
    fn get_campaign_count(&self, env: &mut Env) -> (n: u64)
        requires
            self@.well_formed(),
        ensures
            n == self@.count(),
            env_extended(*old(env), *final(env), seq![extend_effect(StorageKey::CampaignCount)]),
    {
        Self::extend_index_ttl(env);
        self.campaigns.len() as u64
    }

    /// Every campaign, in id order; the lifetime of each active one is extended.
    fn get_all_campaigns(&mut self, env: &mut Env) -> (all: Vec<Campaign>)
        requires
            old(self)@.well_formed(),
        ensures
            final(self)@.well_formed(),
            applied(*old(env), final(self)@, *final(env), Ok::<Seq<Campaign>, ContractError>(all@), spec_get_all_campaigns(old(self)@, clock_of(*old(env)))),
    {
        let mut result: Vec<Campaign> = Vec::new();
        Self::extend_index_ttl(env);
        let count = self.campaigns.len();
        let mut i: usize = 0;
        let ghost start = self@;
        let ghost env0 = env.effects@;
        while i < count
            invariant
                0 <= i <= count,
                count == start.count(),
                start.well_formed(),
                self@ == refresh_upto(start, clock_of(*env), i as nat).0,
                env.effects@ == env0 + refresh_upto(start, clock_of(*env), i as nat).1,
                clock_of(*env) == clock_of(*old(env)),
                env.ledger_timestamp == old(env).ledger_timestamp,
                env0 == old(env).effects@ + seq![extend_effect(StorageKey::CampaignCount)],
                result@ == start.campaigns.subrange(0, i as int),
                self@.well_formed(),
                self@.campaigns == start.campaigns,
            decreases count - i,
        {
            let id = (i + 1) as u64;
            proof {
                lemma_refresh_upto_keeps(start, clock_of(*env), i as nat);
            }
            result.push(self.campaigns[i]);
            self.refresh_campaign(env, id);
            assert(env.effects@ =~= env0 + refresh_upto(start, clock_of(*env), (i + 1) as nat).1);
            assert(result@ =~= start.campaigns.subrange(0, i + 1));
            i = i + 1;
        }
        assert(result@ =~= start.campaigns);
        assert(env.effects@ =~= old(env).effects@ + (seq![extend_effect(StorageKey::CampaignCount)]
            + refresh_upto(start, clock_of(*env), count as nat).1));
        result
    }

    /// Adds `amount` to campaign `campaign_id`'s raised total, in its
    /// `Raised` entry and its record; an active campaign's lifetime is then
    /// extended.
    fn update_raised_amount(&mut self, env: &mut Env, campaign_id: u64, amount: i128) -> (r: Result<(), ContractError>)
        requires
            old(self)@.well_formed(),
        ensures
            final(self)@.well_formed(),
            applied(
                *old(env),
                final(self)@,
                *final(env),
                r,
                spec_update_raised_amount(old(self)@, campaign_id, amount, clock_of(*old(env))),
            ),
    {
        if self.paused {
            return Err(ContractError::Paused);
        }
        if amount <= 0 {
            return Err(ContractError::AmountNotPositive);
        }
        let len = self.campaigns.len();
        if campaign_id == 0 || campaign_id > len as u64 {
            return Err(ContractError::CampaignNotFound);
        }
        let idx = (campaign_id - 1) as usize;
        let campaign = self.campaigns[idx];
        if campaign.raised > i128::MAX - amount {
            return Err(ContractError::Overflow);
        }
        let total = campaign.raised + amount;
        let updated = Campaign { raised: total, ..campaign };
        self.campaigns.set(idx, updated);
        self.raised.set(idx, total);
        assert(self@.well_formed());
        self.refresh_campaign(env, campaign_id);
        Ok(())
    }

    /// The amount raised by campaign `campaign_id`, 0 for an unknown campaign;
    /// reading an active campaign extends its lifetime.
    fn get_raised_amount(&mut self, env: &mut Env, campaign_id: u64) -> (raised: i128)
        requires
            old(self)@.well_formed(),
        ensures
            final(self)@.well_formed(),
            applied(
                *old(env),
                final(self)@,
                *final(env),
                Ok::<i128, ContractError>(raised),
                spec_get_raised_amount(old(self)@, campaign_id, clock_of(*old(env))),
            ),
    {
        let len = self.campaigns.len();
        if campaign_id == 0 || campaign_id > len as u64 {
            assert(env.effects@ =~= old(env).effects@ + Seq::<HostEffect>::empty());
            return 0;
        }
        let campaign = self.campaigns[(campaign_id - 1) as usize];
        self.refresh_campaign(env, campaign_id);
        campaign.raised
    }
}

/// The campaign registry contract: registers campaigns, tracks their status
/// and raised totals, and keeps active campaigns' ledger entries alive.
pub struct CampaignContract {
    state: CampaignState,
}

impl View for CampaignContract {
    type V = CampaignStorage;

    closed spec fn view(&self) -> CampaignStorage {
        self.state@
    }
}

impl CampaignContract {
    /// The storage always satisfies its invariant.
    #[verifier::type_invariant]
    pub closed spec fn valid(self) -> bool {
        self.state@.well_formed()
    }

    /// What the type invariant says of the storage.
    pub proof fn lemma_valid(self)
        requires
            self.valid(),
        ensures
            self@.well_formed(),
    {
    }

    /// A freshly deployed campaign contract at `address`, with empty storage.
    pub fn new(address: Address) -> (c: CampaignContract)
        ensures
            c@.well_formed(),
            c@ == (CampaignStorage {
                address,
                admin: None,
                paused: false,
                campaigns: Seq::empty(),
                raised: Seq::empty(),
                bump_locks: Seq::empty(),
            }),
    {
        CampaignContract { state: CampaignState::new(address) }
    }

    /// The contract's own address.
    pub fn address(&self) -> (a: Address)
        ensures
            a == self@.address,
    {
        proof {
            use_type_invariant(self);
        }
        self.state.address()
    }

    /// Whether the contract is paused.
    pub fn is_paused(&self) -> (p: bool)
        ensures
            p == self@.paused,
    {
        proof {
            use_type_invariant(self);
        }
        self.state.is_paused()
    }

    /// The stored campaign `campaign_id`, read without touching its lifetime.
    pub fn lookup_campaign(&self, campaign_id: u64) -> (c: Option<Campaign>)
        ensures
            c == self@.lookup(campaign_id),
    {
        proof {
            use_type_invariant(self);
        }
        self.state.lookup_campaign(campaign_id)
    }

    /// Records `admin` as the contract's administrator; refused when one is
    /// already recorded.
    pub fn initialize(&mut self, admin: Address) -> (r: Result<(), ContractError>)
        ensures
            final(self)@.well_formed(),
            final(self)@ == spec_initialize(old(self)@, admin).state,
            r == spec_initialize(old(self)@, admin).result,
    {
        proof {
            use_type_invariant(&*self);
        }
        let mut state = CampaignState::new(self.state.address);
        std::mem::swap(&mut state, &mut self.state);
        let r = state.initialize(admin);
        self.state = state;
        r
    }

    /// Pauses the contract; only the recorded admin may, with its authorisation.
    pub fn pause(&mut self, env: &mut Env, admin: Address) -> (r: Result<(), ContractError>)
        ensures
            final(self)@.well_formed(),
            applied(*old(env), final(self)@, *final(env), r, spec_set_paused(old(self)@, admin, true)),
    {
        proof {
            use_type_invariant(&*self);
        }
        let mut state = CampaignState::new(self.state.address);
        std::mem::swap(&mut state, &mut self.state);
        let r = state.pause(env, admin);
        self.state = state;
        r
    }

    /// Lifts a pause; only the recorded admin may, with its authorisation.
    pub fn unpause(&mut self, env: &mut Env, admin: Address) -> (r: Result<(), ContractError>)
        ensures
            final(self)@.well_formed(),
            applied(*old(env), final(self)@, *final(env), r, spec_set_paused(old(self)@, admin, false)),
    {
        proof {
            use_type_invariant(&*self);
        }
        let mut state = CampaignState::new(self.state.address);
        std::mem::swap(&mut state, &mut self.state);
        let r = state.unpause(env, admin);
        self.state = state;
        r
    }

    /// Registers a new active campaign for `owner`, with nothing raised yet,
    /// and returns its id: one more than the number of campaigns before.
    /// `asset_contract_id` is the token the campaign accepts (`None`: any).
    pub fn register_campaign(
        &mut self,
        env: &mut Env,
        owner: Address,
        goal: i128,
        deadline: u64,
        asset_contract_id: Option<Address>,
    ) -> (r: Result<u64, ContractError>)
        ensures
            final(self)@.well_formed(),
            applied(
                *old(env),
                final(self)@,
                *final(env),
                r,
                spec_register_campaign(old(self)@, owner, goal, deadline, asset_contract_id, clock_of(*old(env))),
            ),
    {
        proof {
            use_type_invariant(&*self);
        }
        let mut state = CampaignState::new(self.state.address);
        std::mem::swap(&mut state, &mut self.state);
        let r = state.register_campaign(env, owner, goal, deadline, asset_contract_id);
        self.state = state;
        r
    }

    /// The campaign with id `campaign_id`; reading an active campaign extends
    /// its lifetime.
    pub fn get_campaign(&mut self, env: &mut Env, campaign_id: u64) -> (r: Result<Campaign, ContractError>)
        ensures
            final(self)@.well_formed(),
            applied(*old(env), final(self)@, *final(env), r, spec_get_campaign(old(self)@, campaign_id, clock_of(*old(env)))),
    {
        proof {
            use_type_invariant(&*self);
        }
        let mut state = CampaignState::new(self.state.address);
        std::mem::swap(&mut state, &mut self.state);
        let r = state.get_campaign(env, campaign_id);
        self.state = state;
        r
    }

    /// Sets campaign `campaign_id`'s status; an active campaign's lifetime is
    /// then extended.
    pub fn update_campaign_status(
        &mut self,
        env: &mut Env,
        campaign_id: u64,
        status: CampaignStatus,
    ) -> (r: Result<(), ContractError>)
        ensures
            final(self)@.well_formed(),
            applied(
                *old(env),
                final(self)@,
                *final(env),
                r,
                spec_update_campaign_status(old(self)@, campaign_id, status, clock_of(*old(env))),
            ),
    {
        proof {
            use_type_invariant(&*self);
        }
        let mut state = CampaignState::new(self.state.address);
        std::mem::swap(&mut state, &mut self.state);
        let r = state.update_campaign_status(env, campaign_id, status);
        self.state = state;
        r
    }

    /// The number of registered campaigns.
    pub fn get_campaign_count(&self, env: &mut Env) -> (n: u64)
        ensures
            n == self@.count(),
            env_extended(*old(env), *final(env), seq![extend_effect(StorageKey::CampaignCount)]),
    {
        proof {
            use_type_invariant(self);
        }
        self.state.get_campaign_count(env)
    }

    /// Every campaign, in id order; the lifetime of each active one is extended.
    pub fn get_all_campaigns(&mut self, env: &mut Env) -> (all: Vec<Campaign>)
        ensures
            final(self)@.well_formed(),
            applied(*old(env), final(self)@, *final(env), Ok::<Seq<Campaign>, ContractError>(all@), spec_get_all_campaigns(old(self)@, clock_of(*old(env)))),
    {
        proof {
            use_type_invariant(&*self);
        }
        let mut state = CampaignState::new(self.state.address);
        std::mem::swap(&mut state, &mut self.state);
        let r = state.get_all_campaigns(env);
        self.state = state;
        r
    }

    /// Adds `amount` to campaign `campaign_id`'s raised total, in its
    /// `Raised` entry and its record; an active campaign's lifetime is then
    /// extended.
    pub fn update_raised_amount(&mut self, env: &mut Env, campaign_id: u64, amount: i128) -> (r: Result<(), ContractError>)
        ensures
            final(self)@.well_formed(),
            applied(
                *old(env),
                final(self)@,
                *final(env),
                r,
                spec_update_raised_amount(old(self)@, campaign_id, amount, clock_of(*old(env))),
            ),
    {
        proof {
            use_type_invariant(&*self);
        }
        let mut state = CampaignState::new(self.state.address);
        std::mem::swap(&mut state, &mut self.state);
        let r = state.update_raised_amount(env, campaign_id, amount);
        self.state = state;
        r
    }

    /// The amount raised by campaign `campaign_id`, 0 for an unknown campaign;
    /// reading an active campaign extends its lifetime.
    pub fn get_raised_amount(&mut self, env: &mut Env, campaign_id: u64) -> (raised: i128)
        ensures
            final(self)@.well_formed(),
            applied(
                *old(env),
                final(self)@,
                *final(env),
                Ok::<i128, ContractError>(raised),
                spec_get_raised_amount(old(self)@, campaign_id, clock_of(*old(env))),
            ),
    {
        proof {
            use_type_invariant(&*self);
        }
        let mut state = CampaignState::new(self.state.address);
        std::mem::swap(&mut state, &mut self.state);
        let r = state.get_raised_amount(env, campaign_id);
        self.state = state;
        r
    }
}

/// A registered campaign reads back as registered: active, with nothing
/// raised, under the id the registration returned, which is one more than
/// the number of campaigns before.
pub proof fn law_register_then_get(
    s: CampaignStorage,
    owner: Address,
    goal: i128,
    deadline: u64,
    asset_contract_id: Option<Address>,
    now: Clock,
    later: Clock,
)
    requires
        s.well_formed(),
        !s.paused,
        s.count() < u64::MAX,
    ensures
        spec_register_campaign(s, owner, goal, deadline, asset_contract_id, now).result == Ok::<u64, ContractError>(
            (s.count() + 1) as u64,
        ),
        spec_register_campaign(s, owner, goal, deadline, asset_contract_id, now).state.count() == s.count() + 1,
        spec_get_campaign(
            spec_register_campaign(s, owner, goal, deadline, asset_contract_id, now).state,
            (s.count() + 1) as u64,
            later,
        ).result == Ok::<Campaign, ContractError>(
            new_campaign((s.count() + 1) as u64, owner, goal, deadline, asset_contract_id),
        ),
{
}

/// Adding to a campaign's raised amount is seen by the next read of it.
pub proof fn law_raised_accumulates(s: CampaignStorage, id: u64, amount: i128, now: Clock, later: Clock)
    requires
        s.well_formed(),
        spec_update_raised_amount(s, id, amount, now).result is Ok,
    ensures
        spec_update_raised_amount(s, id, amount, now).state.raised[id - 1] == s.raised[id - 1] + amount,
        spec_get_raised_amount(spec_update_raised_amount(s, id, amount, now).state, id, later).result
            == Ok::<i128, ContractError>((s.lookup(id)->0.raised + amount) as i128),
{
}

/// A status update is accepted exactly when the contract is running and the
/// campaign exists, and then changes that campaign's status and nothing
/// else of the campaigns, their raised totals, the admin or the pause flag.
pub proof fn law_status_update_changes_only_status(s: CampaignStorage, id: u64, status: CampaignStatus, now: Clock)
    requires
        s.well_formed(),
    ensures
        spec_update_campaign_status(s, id, status, now).result is Ok <==> (!s.paused && s.lookup(id) is Some),
        spec_update_campaign_status(s, id, status, now).result is Ok ==> {
            let t = spec_update_campaign_status(s, id, status, now).state;
            &&& t.campaigns == s.campaigns.update(id - 1, Campaign { status, ..s.campaigns[id - 1] })
            &&& t.raised == s.raised
            &&& t.admin == s.admin
            &&& t.paused == s.paused
            &&& t.well_formed()
        },
{
}

/// A raise is accepted exactly when the contract is running, the amount is
/// positive, the campaign exists and its total does not overflow; it then
/// adds the amount to that campaign's raised total, in its record and its
/// `Raised` entry, and changes nothing else of the campaigns.
pub proof fn law_raise_changes_only_raised(s: CampaignStorage, id: u64, amount: i128, now: Clock)
    requires
        s.well_formed(),
    ensures
        spec_update_raised_amount(s, id, amount, now).result is Ok <==> (!s.paused && amount > 0 && (s.lookup(id) matches Some(
            c,
        ) && c.raised + amount <= i128::MAX)),
        spec_update_raised_amount(s, id, amount, now).result is Ok ==> {
            let t = spec_update_raised_amount(s, id, amount, now).state;
            let total = (s.campaigns[id - 1].raised + amount) as i128;
            &&& t.campaigns == s.campaigns.update(id - 1, Campaign { raised: total, ..s.campaigns[id - 1] })
            &&& t.raised == s.raised.update(id - 1, total)
            &&& t.admin == s.admin
            &&& t.paused == s.paused
        },
{
}

/// Reading a campaign gives its stored record, or `CampaignNotFound`; the
/// raised amount read is that record's total, or 0 for an unknown id.
pub proof fn law_reads_give_the_record(s: CampaignStorage, id: u64, now: Clock)
    requires
        s.well_formed(),
    ensures
        spec_get_campaign(s, id, now).result == (match s.lookup(id) {
            Some(c) => Ok::<Campaign, ContractError>(c),
            None => Err(ContractError::CampaignNotFound),
        }),
        spec_get_raised_amount(s, id, now).result == Ok::<i128, ContractError>(
            match s.lookup(id) {
                Some(c) => c.raised,
                None => 0,
            },
        ),
        s.lookup(id) matches Some(c) ==> c.raised == s.raised[id - 1],
{
}

/// Registering a campaign stores its record and a `Raised` entry of 0, and
/// extends the lifetime of both and of the campaign counter.
pub proof fn law_register_extends_entries(
    s: CampaignStorage,
    owner: Address,
    goal: i128,
    deadline: u64,
    asset_contract_id: Option<Address>,
    now: Clock,
)
    requires
        s.well_formed(),
        spec_register_campaign(s, owner, goal, deadline, asset_contract_id, now).result is Ok,
    ensures
        ({
            let step = spec_register_campaign(s, owner, goal, deadline, asset_contract_id, now);
            let id = (s.count() + 1) as u64;
            &&& step.state.raised == s.raised.push(0)
            &&& step.effects.contains(extend_effect(StorageKey::CampaignCount))
            &&& step.effects.contains(extend_effect(StorageKey::Campaign(id)))
            &&& step.effects.contains(extend_effect(StorageKey::Raised(id)))
        }),
{
    let step = spec_register_campaign(s, owner, goal, deadline, asset_contract_id, now);
    let id = (s.count() + 1) as u64;
    assert(step.effects[1] == extend_effect(StorageKey::CampaignCount));
    assert(step.effects[2] == extend_effect(StorageKey::Campaign(id)));
    assert(step.effects[3] == extend_effect(StorageKey::Raised(id)));
}

/// Updating an active campaign's status or raised total extends the
/// lifetime of its record and of its `Raised` entry, unless that was done
/// within the lock window.
pub proof fn law_updates_extend_active(
    s: CampaignStorage,
    id: u64,
    status: CampaignStatus,
    amount: i128,
    now: Clock,
)
    requires
        s.well_formed(),
        1 <= id <= s.count(),
        bump_due(s.bump_locks[id - 1], now),
    ensures
        s.campaigns[id - 1].status == CampaignStatus::Active && spec_update_raised_amount(s, id, amount, now).result is Ok
            ==> spec_update_raised_amount(s, id, amount, now).effects
            == seq![extend_effect(StorageKey::Campaign(id)), extend_effect(StorageKey::Raised(id))],
        status == CampaignStatus::Active && spec_update_campaign_status(s, id, status, now).result is Ok
            ==> spec_update_campaign_status(s, id, status, now).effects.take(2)
            == seq![extend_effect(StorageKey::Campaign(id)), extend_effect(StorageKey::Raised(id))],
{
    let e = spec_update_campaign_status(s, id, status, now).effects;
    if status == CampaignStatus::Active && spec_update_campaign_status(s, id, status, now).result is Ok {
        assert(e.take(2) =~= seq![extend_effect(StorageKey::Campaign(id)), extend_effect(StorageKey::Raised(id))]);
    }
}

/// While the contract is paused, registering and updating campaigns is
/// refused with `Paused` and changes nothing.
pub proof fn law_paused_refuses_updates(
    s: CampaignStorage,
    owner: Address,
    goal: i128,
    deadline: u64,
    asset_contract_id: Option<Address>,
    id: u64,
    status: CampaignStatus,
    amount: i128,
    now: Clock,
)
    requires
        s.paused,
    ensures
        spec_register_campaign(s, owner, goal, deadline, asset_contract_id, now)
            == refused::<u64>(s, ContractError::Paused),
        spec_update_campaign_status(s, id, status, now) == refused::<()>(s, ContractError::Paused),
        spec_update_raised_amount(s, id, amount, now) == refused::<()>(s, ContractError::Paused),
{
}

/// Only the recorded admin can pause or unpause, and unpausing undoes a pause.
pub proof fn law_pause_unpause(s: CampaignStorage, caller: Address)
    ensures
        spec_set_paused(s, caller, true).result is Ok <==> s.admin == Some(caller),
        spec_set_paused(s, caller, false).result is Ok <==> s.admin == Some(caller),
        s.admin == Some(caller) ==> spec_set_paused(spec_set_paused(s, caller, true).state, caller, false).state
            == s.with_paused(false),
        s.admin == Some(caller) && !s.paused ==> spec_set_paused(
            spec_set_paused(s, caller, true).state,
            caller,
            false,
        ).state == s,
{
}

/// The contract can be initialised only once.
pub proof fn law_initialize_once(s: CampaignStorage, first: Address, second: Address)
    ensures
        spec_initialize(spec_initialize(s, first).state, second).result == Err::<(), ContractError>(
            ContractError::AlreadyInitialized,
        ),
{
}

/// Reads never change campaign data, the admin or the pause flag; at most
/// they extend lifetimes.
pub proof fn law_reads_keep_campaigns(s: CampaignStorage, id: u64, now: Clock)
    requires
        s.well_formed(),
    ensures
        spec_get_campaign(s, id, now).state.campaigns == s.campaigns,
        spec_get_campaign(s, id, now).state.raised == s.raised,
        spec_get_campaign(s, id, now).state.admin == s.admin,
        spec_get_campaign(s, id, now).state.paused == s.paused,
        spec_get_raised_amount(s, id, now).state.campaigns == s.campaigns,
        spec_get_raised_amount(s, id, now).state.raised == s.raised,
        spec_get_raised_amount(s, id, now).state.admin == s.admin,
        spec_get_raised_amount(s, id, now).state.paused == s.paused,
        spec_get_all_campaigns(s, now).state.campaigns == s.campaigns,
        spec_get_all_campaigns(s, now).state.raised == s.raised,
        spec_get_all_campaigns(s, now).state.admin == s.admin,
        spec_get_all_campaigns(s, now).state.paused == s.paused,
        spec_get_all_campaigns(s, now).result == Ok::<Seq<Campaign>, ContractError>(s.campaigns),
{
    lemma_refresh_upto_keeps(s, now, s.count());
}

/// Once a campaign's lifetime has been extended at ledger `now`, touching it
/// again within the lock window, while the temporary lock entry has not
/// expired, extends nothing.
pub proof fn law_extension_throttled(s: CampaignStorage, id: u64, now: Clock, later: Clock)
    requires
        s.well_formed(),
        1 <= id <= s.count(),
        refresh(s, id, now).1.len() > 0,
        now.sequence <= later.sequence,
        later.sequence - now.sequence < CAMPAIGN_TTL_BUMP_LOCK_WINDOW_LEDGERS,
        later.sequence < now.sequence + now.temp_entry_ttl,
    ensures
        refresh(refresh(s, id, now).0, id, later).1 == Seq::<HostEffect>::empty(),
{
}

/// Refreshing keeps the campaigns and the shape of the storage.
proof fn lemma_refresh_upto_keeps(s: CampaignStorage, now: Clock, n: nat)
    requires
        s.well_formed(),
        n <= s.count(),
    ensures
        refresh_upto(s, now, n).0.well_formed(),
        refresh_upto(s, now, n).0 == s.with_locks(refresh_upto(s, now, n).0.bump_locks),
        refresh_upto(s, now, n).0.bump_locks.len() == s.bump_locks.len(),
    decreases n,
{
    if n > 0 {
        lemma_refresh_upto_keeps(s, now, (n - 1) as nat);
    }
}

} // verus!
