pub mod claim_yield;
pub mod init_registry;
pub mod list_asset;
pub mod mint_pt;
pub mod redeem;
pub mod strip;
