use vstd::prelude::*;

use crate::host::{
    env_extended, Address, ContractError, ContractEvent, ContractPausedEvent, ContractUnpausedEvent, Env,
    HostEffect,
};

verus! {

/// The storage of the withdrawal contract. `settings` holds the beneficiary
/// and the largest amount one withdrawal may take.
pub struct WithdrawalStorage {
    pub address: Address,
    pub settings: Option<(Address, i128)>,
    pub token_id: Option<Address>,
    pub admin: Option<Address>,
    pub paused: bool,
    pub total_withdrawn: i128,
}

/// The outcome of one invocation.
pub struct WithdrawalStep<T> {
    pub state: WithdrawalStorage,
    pub result: Result<T, ContractError>,
    pub effects: Seq<HostEffect>,
}

pub open spec fn spec_set_paused(s: WithdrawalStorage, admin: Address, paused: bool) -> WithdrawalStep<()> {
    match s.admin {
        None => WithdrawalStep { state: s, result: Err(ContractError::NotInitialized), effects: seq![] },
        Some(stored) => if admin != stored {
            WithdrawalStep { state: s, result: Err(ContractError::NotAdmin), effects: seq![] }
        } else {
            WithdrawalStep {
                state: WithdrawalStorage { paused, ..s },
                result: Ok(()),
                effects: seq![
                    HostEffect::RequireAuth(admin),
                    HostEffect::Publish {
                        contract: s.address,
                        event: if paused {
                            ContractEvent::ContractPaused(ContractPausedEvent { admin })
                        } else {
                            ContractEvent::ContractUnpaused(ContractUnpausedEvent { admin })
                        },
                    },
                ],
            }
        },
    }
}

/// Withdrawing `amount` while the token reports `balance` for this contract.
pub open spec fn spec_withdraw(s: WithdrawalStorage, amount: i128, balance: i128) -> WithdrawalStep<bool> {
    if s.paused {
        WithdrawalStep { state: s, result: Err(ContractError::Paused), effects: seq![] }
    } else {
        match s.settings {
            None => WithdrawalStep { state: s, result: Err(ContractError::WithdrawalNotInitialized), effects: seq![] },
            Some((beneficiary, max_withdrawal)) => if amount > max_withdrawal {
                WithdrawalStep { state: s, result: Ok(false), effects: seq![HostEffect::RequireAuth(beneficiary)] }
            } else {
                match s.token_id {
                    None => WithdrawalStep { state: s, result: Err(ContractError::TokenNotSet), effects: seq![] },
                    Some(token) => if balance < amount {
                        WithdrawalStep {
                            state: s,
                            result: Ok(false),
                            effects: seq![HostEffect::RequireAuth(beneficiary)],
                        }
                    } else if amount < 0 {
                        WithdrawalStep { state: s, result: Err(ContractError::NegativeTransfer), effects: seq![] }
                    } else if s.total_withdrawn + amount > i128::MAX {
                        WithdrawalStep { state: s, result: Err(ContractError::Overflow), effects: seq![] }
                    } else {
                        WithdrawalStep {
                            state: WithdrawalStorage { total_withdrawn: (s.total_withdrawn + amount) as i128, ..s },
                            result: Ok(true),
                            effects: seq![
                                HostEffect::RequireAuth(beneficiary),
                                HostEffect::Transfer { token, from: s.address, to: beneficiary, amount },
                            ],
                        }
                    },
                }
            },
        }
    }
}

/// A withdrawal that pays out takes no more than the per-call limit and the
/// contract's balance, and the total withdrawn grows by exactly the amount
/// paid; one that pays nothing changes no storage.
pub proof fn law_withdraw_bounded(s: WithdrawalStorage, amount: i128, balance: i128)
    ensures
        spec_withdraw(s, amount, balance).result == Ok::<bool, ContractError>(true) ==> {
            &&& s.settings matches Some((_, max)) && amount <= max
            &&& amount <= balance
            &&& amount >= 0
            &&& spec_withdraw(s, amount, balance).state.total_withdrawn == s.total_withdrawn + amount
        },
        spec_withdraw(s, amount, balance).result != Ok::<bool, ContractError>(true) ==> spec_withdraw(
            s,
            amount,
            balance,
        ).state == s,
{
}

/// Once initialised, unpaused and with a token set, a withdrawal of a
/// non-negative amount within the limit and the contract's balance, whose
/// total does not overflow, pays exactly that amount to the beneficiary and
/// adds it to the total withdrawn.
pub proof fn law_allowed_withdrawal_pays(s: WithdrawalStorage, amount: i128, balance: i128)
    requires
        !s.paused,
        s.settings matches Some((_, max)) && 0 <= amount <= max,
        s.token_id is Some,
        amount <= balance,
        s.total_withdrawn + amount <= i128::MAX,
    ensures
        spec_withdraw(s, amount, balance).result == Ok::<bool, ContractError>(true),
        spec_withdraw(s, amount, balance).state.total_withdrawn == s.total_withdrawn + amount,
        s.settings matches Some((beneficiary, _)) && s.token_id matches Some(token)
            && spec_withdraw(s, amount, balance).effects.contains(
            HostEffect::Transfer { token, from: s.address, to: beneficiary, amount },
        ),
{
    let (beneficiary, _) = s.settings->0;
    let token = s.token_id->0;
    assert(spec_withdraw(s, amount, balance).effects[1] == HostEffect::Transfer {
        token,
        from: s.address,
        to: beneficiary,
        amount,
    });
}

/// While paused, a withdrawal is refused with `Paused` and changes nothing.
pub proof fn law_paused_withdrawal_refused(s: WithdrawalStorage, amount: i128, balance: i128)
    requires
        s.paused,
    ensures
        spec_withdraw(s, amount, balance).result == Err::<bool, ContractError>(ContractError::Paused),
        spec_withdraw(s, amount, balance).state == s,
        spec_withdraw(s, amount, balance).effects.len() == 0,
{
}

/// Once initialised and unpaused, asking for more than the limit pays nothing.
pub proof fn law_over_limit_pays_nothing(s: WithdrawalStorage, amount: i128, balance: i128)
    requires
        !s.paused,
        s.settings matches Some((_, max)) && amount > max,
    ensures
        spec_withdraw(s, amount, balance).result == Ok::<bool, ContractError>(false),
        spec_withdraw(s, amount, balance).state == s,
{
}

/// The withdrawal contract: pays the configured beneficiary out of the
/// contract's token balance, at most `max_withdrawal` per call.
pub struct WithdrawalContract {
    address: Address,
    settings: Option<(Address, i128)>,
    token_id: Option<Address>,
    admin: Option<Address>,
    paused: bool,
    total_withdrawn: i128,
}

impl View for WithdrawalContract {
    type V = WithdrawalStorage;

    closed spec fn view(&self) -> WithdrawalStorage {
        WithdrawalStorage {
            address: self.address,
            settings: self.settings,
            token_id: self.token_id,
            admin: self.admin,
            paused: self.paused,
            total_withdrawn: self.total_withdrawn,
        }
    }
}

impl WithdrawalContract {
    /// A freshly deployed withdrawal contract at `address`, with empty storage.
    pub fn new(address: Address) -> (c: WithdrawalContract)
        ensures
            c@ == (WithdrawalStorage {
                address,
                settings: None,
                token_id: None,
                admin: None,
                paused: false,
                total_withdrawn: 0,
            }),
    {
        WithdrawalContract { address, settings: None, token_id: None, admin: None, paused: false, total_withdrawn: 0 }
    }

    /// The contract's own address.
    pub fn address(&self) -> (a: Address)
        ensures
            a == self@.address,
    {
        self.address
    }

    /// Records the beneficiary, the per-call limit, the token and the admin,
    /// replacing whatever was recorded.
    pub fn initialize(&mut self, beneficiary: Address, max_withdrawal: i128, token_id: Address, admin: Address)
        ensures
            final(self)@ == (WithdrawalStorage {
                settings: Some((beneficiary, max_withdrawal)),
                token_id: Some(token_id),
                admin: Some(admin),
                ..old(self)@
            }),
    {
        self.settings = Some((beneficiary, max_withdrawal));
        self.token_id = Some(token_id);
        self.admin = Some(admin);
    }

    /// Pauses the contract; only the recorded admin may, with its authorisation.
    pub fn pause(&mut self, env: &mut Env, admin: Address) -> (r: Result<(), ContractError>)
        ensures
            final(self)@ == spec_set_paused(old(self)@, admin, true).state,
            r == spec_set_paused(old(self)@, admin, true).result,
            env_extended(*old(env), *final(env), spec_set_paused(old(self)@, admin, true).effects),
    {
        match self.admin {
            None => Err(ContractError::NotInitialized),
            Some(stored_admin) => {
                if admin != stored_admin {
                    return Err(ContractError::NotAdmin);
                }
                env.effects.push(HostEffect::RequireAuth(admin));
                self.paused = true;
                env.effects.push(
                    HostEffect::Publish {
                        contract: self.address,
                        event: ContractEvent::ContractPaused(ContractPausedEvent { admin }),
                    },
                );
                Ok(())
            },
        }
    }

    /// Lifts a pause; only the recorded admin may, with its authorisation.
    pub fn unpause(&mut self, env: &mut Env, admin: Address) -> (r: Result<(), ContractError>)
        ensures
            final(self)@ == spec_set_paused(old(self)@, admin, false).state,
            r == spec_set_paused(old(self)@, admin, false).result,
            env_extended(*old(env), *final(env), spec_set_paused(old(self)@, admin, false).effects),
    {
        match self.admin {
            None => Err(ContractError::NotInitialized),
            Some(stored_admin) => {
                if admin != stored_admin {
                    return Err(ContractError::NotAdmin);
                }
                env.effects.push(HostEffect::RequireAuth(admin));
                self.paused = false;
                env.effects.push(
                    HostEffect::Publish {
                        contract: self.address,
                        event: ContractEvent::ContractUnpaused(ContractUnpausedEvent { admin }),
                    },
                );
                Ok(())
            },
        }
    }

    /// Pays `amount` to the beneficiary, with the beneficiary's authorisation.
    /// `contract_balance` is this contract's balance of the token as the token
    /// contract reports it. Returns `false`, paying nothing, when `amount`
    /// exceeds the per-call limit or the balance; refused when the amount is
    /// negative, which the token contract would not transfer; otherwise
    /// transfers the amount, adds it to the total withdrawn and returns `true`.
    pub fn withdraw(&mut self, env: &mut Env, amount: i128, contract_balance: i128) -> (r: Result<bool, ContractError>)
        ensures
            final(self)@ == spec_withdraw(old(self)@, amount, contract_balance).state,
            r == spec_withdraw(old(self)@, amount, contract_balance).result,
            env_extended(*old(env), *final(env), spec_withdraw(old(self)@, amount, contract_balance).effects),
    {
        if self.paused {
            return Err(ContractError::Paused);
        }
        let (beneficiary, max_withdrawal) = match self.settings {
            None => {
                return Err(ContractError::WithdrawalNotInitialized);
            },
            Some(settings) => settings,
        };
        if amount > max_withdrawal {
            env.effects.push(HostEffect::RequireAuth(beneficiary));
            return Ok(false);
        }
        let token_id = match self.token_id {
            None => {
                return Err(ContractError::TokenNotSet);
            },
            Some(t) => t,
        };
        if contract_balance < amount {
            env.effects.push(HostEffect::RequireAuth(beneficiary));
            return Ok(false);
        }
        if amount < 0 {
            return Err(ContractError::NegativeTransfer);
        }
        let total = self.total_withdrawn;
        let sum = total.checked_add(amount);
        match sum {
            None => Err(ContractError::Overflow),
            Some(new_total) => {
                env.effects.push(HostEffect::RequireAuth(beneficiary));
                env.effects.push(
                    HostEffect::Transfer { token: token_id, from: self.address, to: beneficiary, amount },
                );
                self.total_withdrawn = new_total;
                Ok(true)
            },
        }
    }

    /// The sum of all amounts paid out.
    pub fn get_total_withdrawn(&self) -> (total: i128)
        ensures
            total == self@.total_withdrawn,
    {
        self.total_withdrawn
    }
}

} // verus!
