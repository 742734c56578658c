pub mod arith;
pub mod asset;
pub mod errors;
pub mod pubkey;
pub mod registry;
pub mod user_yt_position;
pub mod cpi;
pub mod utils;
pub mod instructions;
pub mod lifecycle;
