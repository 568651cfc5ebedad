use vstd::prelude::*;

verus! {

/// A donation to be saved.
#[derive(Debug, Clone)]
pub struct NewDonation {
    pub tx_hash: String,
    pub campaign_id: String,
    pub donor_address: String,
    pub donor_user_id: Option<i64>,
    pub amount: u64,
    pub status: String,
}

/// A saved donation.
#[derive(Debug, Clone)]
pub struct Donation {
    pub id: i64,
    pub tx_hash: String,
    pub campaign_id: String,
    pub donor_address: String,
    pub donor_user_id: Option<i64>,
    pub amount: u64,
    pub status: String,
    pub created_at: String,
}

/// Name shown for donations not linked to a registered user.
pub open spec fn anonymous_name() -> Seq<char> {
    "Anonymous Donor"@
}

/// The name a campaign's donation list shows for a donor: the address of a
/// registered user, `Anonymous Donor` otherwise.
pub fn display_name(donor_address: String, donor_user_id: Option<i64>) -> (name: String)
    ensures
        donor_user_id is None ==> name@ == anonymous_name(),
        donor_user_id is Some ==> name@ == donor_address@,
{
    if donor_user_id.is_none() {
        "Anonymous Donor".to_string()
    } else {
        donor_address
    }
}

} // verus!
