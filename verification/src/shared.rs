use vstd::prelude::*;

use crate::host::Address;

verus! {

/// Lifecycle status of an on-ledger campaign.
#[derive(Debug, Clone, Copy, PartialEq, Eq, Structural)]
pub enum CampaignStatus {
    Active,
    Completed,
    Suspended,
    Rejected,
}

/// A campaign as the campaign contract stores it.
#[derive(Debug, Clone, Copy, PartialEq, Eq, Structural)]
pub struct Campaign {
    pub id: u64,
    pub owner: Address,
    pub goal: i128,
    pub raised: i128,
    pub status: CampaignStatus,
    pub deadline: u64,
    /// The token the campaign accepts; `None` accepts any token.
    pub asset_contract_id: Option<Address>,
}

/// A donation record shared between contracts.
#[derive(Debug, Clone, Copy, PartialEq, Eq, Structural)]
pub struct Donation {
    pub donor: Address,
    pub campaign_id: u64,
    pub amount: i128,
    pub timestamp: u64,
}

/// A withdrawal record shared between contracts.
#[derive(Debug, Clone, Copy, PartialEq, Eq, Structural)]
pub struct Withdrawal {
    pub campaign_id: u64,
    pub recipient: Address,
    pub amount: i128,
    pub approved: bool,
}

} // verus!
