//! Reply-chained orchestration for a liquidity vault and its per-account lock
//! wallets: every operation is a verified transition from the persisted state
//! and the caller's input to the next persisted state and the calls to issue.
pub mod calls;
pub mod common;
pub mod directory;
pub mod error;
pub mod text;
pub mod vault;
pub mod version;
pub mod wallet;
