//! Verified core of a Stellar donation platform: campaign, donation and
//! withdrawal contracts modelled as state machines, the off-chain donation
//! lifecycle, transaction checks and the SDK's amount rules.

pub mod amounts;
pub mod campaign;
pub mod config;
pub mod donation;
pub mod donation_status;
pub mod envelope;
pub mod host;
pub mod json;
pub mod repo;
pub mod sdk;
pub mod shared;
pub mod strkey;
pub mod text;
pub mod tx_check;
pub mod webhook;
pub mod withdrawal;
pub mod worker;
pub mod xdr;
