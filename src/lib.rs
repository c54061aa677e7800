//! Liquid-staking accounting: a claim-token ledger, an appreciating exchange
//! rate, a time-locked withdrawal queue and the vault that sequences them.
pub mod types;
pub mod rate;
pub mod ledger;
pub mod queue;
pub mod events;
pub mod vault;
pub mod token;
pub mod deploy;
