//! Account state of the clearing house.

pub mod agent_vault;
pub mod bet;
pub mod clearing_house;
pub mod group_config;
pub mod player_state;
pub mod referral_state;
