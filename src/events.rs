//! Change records that the vault appends for every mutation, for external audit.
use vstd::prelude::*;
use crate::types::Address;

verus! {

/// One change record of the vault.
#[derive(Clone, Copy, PartialEq, Eq, Structural, Debug)]
pub enum VaultEvent {
    VaultInitialized {
        owner: Address,
        treasury: Address,
        unbonding_period_days: u64,
        timestamp: u64,
    },
    Deposited {
        user: Address,
        cspr_amount: u128,
        stcspr_amount: u128,
        exchange_rate: u128,
        timestamp: u64,
    },
    WithdrawalRequested {
        withdrawal_id: u64,
        user: Address,
        stcspr_amount: u128,
        cspr_amount: u128,
        unlock_time: u64,
        timestamp: u64,
    },
    WithdrawalClaimed { withdrawal_id: u64, user: Address, cspr_amount: u128, timestamp: u64 },
    /// A claim-token movement: no sender for a mint, no recipient for a burn.
    Transfer { from: Option<Address>, to: Option<Address>, amount: u128 },
    Approval { owner: Address, spender: Address, amount: u128 },
    RewardsCompounded {
        total_rewards: u128,
        protocol_fee: u128,
        user_rewards: u128,
        timestamp: u64,
    },
    ExchangeRateUpdated {
        old_rate: u128,
        new_rate: u128,
        total_cspr: u128,
        total_stcspr: u128,
        timestamp: u64,
    },
    StakingInitiated { amount: u128, timestamp: u64 },
    PerformanceFeeUpdated { fee_bps: u32 },
    VaultPaused { timestamp: u64 },
    VaultUnpaused { timestamp: u64 },
}

/// One change record of the standalone token.
#[derive(Clone, Copy, PartialEq, Eq, Structural, Debug)]
pub enum TokenEvent {
    TokenInitialized { vault: Address, timestamp: u64 },
    /// A claim-token movement: no sender for a mint, no recipient for a burn.
    Transfer { from: Option<Address>, to: Option<Address>, amount: u128 },
    Approval { owner: Address, spender: Address, amount: u128 },
    Mint {
        to: Address,
        stcspr_amount: u128,
        cspr_amount: u128,
        exchange_rate: u128,
        timestamp: u64,
    },
    Burn {
        from: Address,
        stcspr_amount: u128,
        cspr_amount: u128,
        exchange_rate: u128,
        timestamp: u64,
    },
    ExchangeRateUpdated {
        old_rate: u128,
        new_rate: u128,
        total_cspr: u128,
        total_stcspr: u128,
        timestamp: u64,
    },
    Paused { timestamp: u64 },
    Unpaused { timestamp: u64 },
}

} // verus!
