//! A fund-raising ledger: create a campaign record in a storage account,
//! accept donations into it, and let its administrator withdraw what was
//! collected above the rent-exemption threshold.

pub mod account;
pub mod codec;
pub mod laws;
pub mod processor;

pub use account::{Account, AccountModel, CampaignError, Pubkey};
pub use codec::{CampaignDetails, CampaignModel, WithdrawRequest};
pub use processor::{create_campaign, decode_opcode, donate, process_instruction, withdraw, Opcode};
