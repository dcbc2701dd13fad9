//! Verified models of six small Solana programs: a SOL vault, a profile
//! account, a native counter, Token-2022 transfer fees, a staking vault
//! with per-token rewards, and a token swap escrow.
pub mod keys;
pub mod profile;
pub mod sol_vault;
pub mod counter;
pub mod escrow;
pub mod staking;
pub mod transfer_fee;
