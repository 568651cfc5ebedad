use stellar_aid::campaign::CampaignContract;
use stellar_aid::donation::DonationContract;
use stellar_aid::host::{
    Address, AddressKind, ContractError, ContractEvent, DonationMadeEvent, Env, HostEffect, WithdrawalApprovedEvent,
};
use stellar_aid::shared::CampaignStatus;

fn account(n: u128) -> Address {
    Address { kind: AddressKind::Account, hi: 0, lo: n }
}

fn contract_address(n: u128) -> Address {
    Address { kind: AddressKind::Contract, hi: 0, lo: n }
}

struct Setup {
    env: Env,
    campaigns: CampaignContract,
    client: DonationContract,
    admin: Address,
    token_id: Address,
}

/// A donation contract wired to a campaign contract, with campaign 1 owned by
/// `owner` and accepting `asset` (any token when `None`).
fn setup(owner: Address, asset: Option<Address>) -> Setup {
    let mut env = Env::new(500, 1_700_000_123, 17280);
    let mut campaigns = CampaignContract::new(contract_address(1));
    let id = campaigns.register_campaign(&mut env, owner, 1000i128, 9999999u64, asset).unwrap();
    assert_eq!(id, 1);
    let mut client = DonationContract::new(contract_address(2));
    let admin = account(100);
    client.initialize(campaigns.address(), admin).unwrap();
    env.effects.clear();
    Setup { env, campaigns, client, admin, token_id: contract_address(3) }
}

#[test]
fn test_donate_and_get_total_raised() {
    let campaign_owner = account(1);
    let mut s = setup(campaign_owner, None);
    let campaign_id = 1u64;
    let donor = account(2);
    let amount = 100i128;

    s.client.donate(&mut s.env, &mut s.campaigns, donor, campaign_id, s.token_id, amount, None).unwrap();

    assert_eq!(s.client.get_total_raised(campaign_id), amount);

    let donations = s.client.get_donations_for_campaign(campaign_id);
    assert_eq!(donations.len(), 1);
    let (donor_addr, cid, donated_amount, _, memo) = donations[0].clone();
    assert_eq!(donor_addr, donor);
    assert_eq!(cid, campaign_id);
    assert_eq!(donated_amount, amount);
    assert_eq!(memo, None);

    let history = s.client.get_donor_history(donor);
    assert_eq!(history.len(), 1);
    let (donor_addr2, cid2, amount2, _, _) = history[0].clone();
    assert_eq!(donor_addr2, donor);
    assert_eq!(cid2, campaign_id);
    assert_eq!(amount2, amount);
}

#[test]
fn test_multiple_donations() {
    let mut s = setup(account(1), None);
    let campaign_id = 1u64;
    let donor1 = account(2);
    let donor2 = account(3);

    s.client.donate(&mut s.env, &mut s.campaigns, donor1, campaign_id, s.token_id, 100i128, None).unwrap();
    s.client.donate(&mut s.env, &mut s.campaigns, donor2, campaign_id, s.token_id, 200i128, None).unwrap();

    assert_eq!(s.client.get_total_raised(campaign_id), 300i128);
    assert_eq!(s.client.get_donations_for_campaign(campaign_id).len(), 2);
    assert_eq!(s.client.get_donor_history(donor1).len(), 1);
    assert_eq!(s.client.get_donor_history(donor2).len(), 1);
}

#[test]
fn lib_test_pause_and_unpause() {
    let mut s = setup(account(1), None);
    let admin = s.admin;
    s.client.pause(&mut s.env, admin).unwrap();
    s.client.unpause(&mut s.env, admin).unwrap();

    let donor = account(2);
    s.client.donate(&mut s.env, &mut s.campaigns, donor, 1u64, s.token_id, 50i128, None).unwrap();
    assert_eq!(s.client.get_total_raised(1u64), 50i128);
}

#[test]
fn test_request_and_approve_withdrawal() {
    let campaign_owner = account(1);
    let mut s = setup(campaign_owner, None);
    let admin = s.admin;

    s.client.request_withdrawal(&mut s.env, &mut s.campaigns, campaign_owner, 1u64, 1u64, 100i128).unwrap();
    s.client.request_withdrawal(&mut s.env, &mut s.campaigns, admin, 1u64, 2u64, 200i128).unwrap();
    s.client.approve_withdrawal(&mut s.env, admin, 1u64, "txhash123".to_string()).unwrap();
}

#[test]
fn test_donate_with_custom_token() {
    let usdc_token = contract_address(9);
    let mut s = setup(account(1), Some(usdc_token));
    let campaign_id = 1u64;
    let donor = account(2);

    s.client.donate(&mut s.env, &mut s.campaigns, donor, campaign_id, usdc_token, 100i128, None).unwrap();

    assert_eq!(s.client.get_total_raised(campaign_id), 100i128);
}

#[test]
fn test_donate_with_memo() {
    let mut s = setup(account(1), None);
    let campaign_id = 1u64;
    let donor = account(2);

    let memo = b"for my friend".to_vec();
    s.client.donate(&mut s.env, &mut s.campaigns, donor, campaign_id, s.token_id, 100i128, Some(memo.clone())).unwrap();

    let (_, _, _, _, stored_memo) = s.client.get_donations_for_campaign(campaign_id)[0].clone();
    assert_eq!(stored_memo, Some(memo));
}

#[test]
fn test_donate_memo_max_length() {
    let mut s = setup(account(1), None);
    let campaign_id = 1u64;
    let donor = account(2);

    // Exactly 28 bytes — should succeed
    let memo = b"exactly28byteslong!!!!!!!!!!".to_vec();
    assert_eq!(memo.len(), 28);
    s.client.donate(&mut s.env, &mut s.campaigns, donor, campaign_id, s.token_id, 100i128, Some(memo.clone())).unwrap();

    let (_, _, _, _, stored_memo) = s.client.get_donations_for_campaign(campaign_id)[0].clone();
    assert_eq!(stored_memo, Some(memo));
}

#[test]
fn donation_reaches_the_campaign_contract() {
    let mut s = setup(account(1), None);
    let donor = account(2);
    s.client.donate(&mut s.env, &mut s.campaigns, donor, 1, s.token_id, 70, None).unwrap();
    s.client.donate(&mut s.env, &mut s.campaigns, donor, 1, s.token_id, 30, None).unwrap();
    let raised = s.campaigns.get_raised_amount(&mut s.env, 1);
    assert_eq!(raised, 100);
    assert_eq!(raised, s.client.get_total_raised(1));
}

#[test]
fn donation_effects_are_auth_transfer_and_event() {
    let mut s = setup(account(1), None);
    let donor = account(2);
    s.client.donate(&mut s.env, &mut s.campaigns, donor, 1, s.token_id, 40, None).unwrap();
    // The campaign was extended at registration on this ledger, so reading
    // it extends nothing more.
    assert_eq!(
        s.env.effects,
        vec![
            HostEffect::RequireAuth(donor),
            HostEffect::Transfer { token: s.token_id, from: donor, to: s.client.address(), amount: 40 },
            HostEffect::Publish {
                contract: s.client.address(),
                event: ContractEvent::DonationMade(DonationMadeEvent {
                    campaign_id: 1,
                    donor,
                    amount: 40,
                    token_id: s.token_id,
                }),
            },
        ]
    );
    let all = s.client.get_all_donations();
    assert_eq!(all.len(), 1);
    assert_eq!(all[0].3, 1_700_000_123);
}

#[test]
fn refused_donations_change_nothing() {
    let usdc = contract_address(9);
    let mut s = setup(account(1), Some(usdc));
    let donor = account(2);
    let cases: Vec<(u64, Address, i128, Option<Vec<u8>>, ContractError)> = vec![
        (1, usdc, 0, None, ContractError::AmountNotPositive),
        (1, usdc, -5, None, ContractError::AmountNotPositive),
        (1, usdc, 10, Some(vec![0u8; 29]), ContractError::MemoTooLong),
        (7, usdc, 10, None, ContractError::CampaignNotFound),
        (1, s.token_id, 10, None, ContractError::TokenMismatch),
    ];
    for (cid, token, amount, memo, err) in cases {
        let r = s.client.donate(&mut s.env, &mut s.campaigns, donor, cid, token, amount, memo);
        assert_eq!(r, Err(err));
    }
    assert!(s.env.effects.is_empty());
    assert!(s.client.get_all_donations().is_empty());
    assert_eq!(s.client.get_total_raised(1), 0);
    assert_eq!(s.campaigns.get_raised_amount(&mut s.env, 1), 0);
    assert_eq!(ContractError::MemoTooLong.message(), "Memo must not exceed 28 bytes");
}

#[test]
fn inactive_or_paused_campaigns_refuse_donations() {
    let mut s = setup(account(1), None);
    let donor = account(2);
    s.campaigns.update_campaign_status(&mut s.env, 1, CampaignStatus::Completed).unwrap();
    assert_eq!(
        s.client.donate(&mut s.env, &mut s.campaigns, donor, 1, s.token_id, 10, None),
        Err(ContractError::CampaignNotActive)
    );
    s.campaigns.update_campaign_status(&mut s.env, 1, CampaignStatus::Active).unwrap();
    let mut campaign_admin_env = Env::new(500, 0, 17280);
    let campaign_admin = account(55);
    s.campaigns.initialize(campaign_admin).unwrap();
    s.campaigns.pause(&mut campaign_admin_env, campaign_admin).unwrap();
    assert_eq!(
        s.client.donate(&mut s.env, &mut s.campaigns, donor, 1, s.token_id, 10, None),
        Err(ContractError::Paused)
    );
    assert!(s.client.get_all_donations().is_empty());
}

#[test]
fn uninitialised_contract_refuses_donations() {
    let mut env = Env::new(1, 0, 17280);
    let mut campaigns = CampaignContract::new(contract_address(1));
    let mut client = DonationContract::new(contract_address(2));
    assert_eq!(
        client.donate(&mut env, &mut campaigns, account(2), 1, contract_address(3), 10, None),
        Err(ContractError::CampaignContractNotSet)
    );
    assert_eq!(
        ContractError::CampaignContractNotSet.message(),
        "Campaign contract ID not set. Call initialize() first."
    );
    client.initialize(campaigns.address(), account(9)).unwrap();
    assert_eq!(
        client.initialize(campaigns.address(), account(9)),
        Err(ContractError::DonationAlreadyInitialized)
    );
}

#[test]
fn donor_history_and_campaign_lists_are_in_id_order() {
    let mut s = setup(account(1), None);
    s.campaigns.register_campaign(&mut s.env, account(1), 10, 10, None).unwrap();
    let a = account(2);
    let b = account(3);
    s.client.donate(&mut s.env, &mut s.campaigns, a, 1, s.token_id, 1, None).unwrap();
    s.client.donate(&mut s.env, &mut s.campaigns, b, 2, s.token_id, 2, None).unwrap();
    s.client.donate(&mut s.env, &mut s.campaigns, a, 2, s.token_id, 3, None).unwrap();
    s.client.donate(&mut s.env, &mut s.campaigns, a, 1, s.token_id, 4, None).unwrap();
    let amounts = |v: Vec<(Address, u64, i128, u64, Option<Vec<u8>>)>| v.iter().map(|d| d.2).collect::<Vec<_>>();
    assert_eq!(amounts(s.client.get_donor_history(a)), vec![1, 3, 4]);
    assert_eq!(amounts(s.client.get_donor_history(b)), vec![2]);
    assert_eq!(amounts(s.client.get_donations_for_campaign(1)), vec![1, 4]);
    assert_eq!(amounts(s.client.get_donations_for_campaign(2)), vec![2, 3]);
    assert_eq!(s.client.get_total_raised(1), 5);
    assert_eq!(s.client.get_total_raised(2), 5);
    assert!(s.client.get_donor_history(account(77)).is_empty());
}

#[test]
fn withdrawal_requests_need_owner_or_admin() {
    let owner = account(1);
    let mut s = setup(owner, None);
    let admin = s.admin;
    assert_eq!(
        s.client.request_withdrawal(&mut s.env, &mut s.campaigns, account(50), 1, 1, 10),
        Err(ContractError::NotOwnerOrAdmin)
    );
    assert_eq!(
        s.client.request_withdrawal(&mut s.env, &mut s.campaigns, owner, 1, 1, 0),
        Err(ContractError::WithdrawalAmountNotPositive)
    );
    assert_eq!(
        s.client.request_withdrawal(&mut s.env, &mut s.campaigns, owner, 4, 1, 10),
        Err(ContractError::CampaignNotFound)
    );
    assert_eq!(
        s.client.approve_withdrawal(&mut s.env, owner, 1, "tx".to_string()),
        Err(ContractError::NotAdmin)
    );
    assert!(s.env.effects.is_empty());
    s.client.approve_withdrawal(&mut s.env, admin, 7, "abc".to_string()).unwrap();
    assert_eq!(
        s.env.effects[1],
        HostEffect::Publish {
            contract: s.client.address(),
            event: ContractEvent::WithdrawalApproved(WithdrawalApprovedEvent { withdrawal_id: 7, tx_hash: "abc".to_string() }),
        }
    );
}
