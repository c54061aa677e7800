use stakeflow::events::VaultEvent;
use stakeflow::types::{Address, VaultError};
use stakeflow::vault::StakeFlowVaultV3;

const DAY: u64 = 86_400;

fn account(n: u64) -> Address {
    Address(n)
}

fn deploy_vault() -> StakeFlowVaultV3 {
    StakeFlowVaultV3::init(account(0), account(9), 7, 1_000).unwrap()
}

#[test]
fn test_deposit_and_mint() {
    let mut vault = deploy_vault();
    let amount: u128 = 100_000_000_000;
    let stcspr = vault.deposit(account(1), amount, 1_000).unwrap();

    assert_eq!(vault.get_tvl(), amount);
    assert_eq!(vault.balance_of(account(1)), stcspr);
    assert_eq!(vault.total_supply(), stcspr);
}

#[test]
fn test_withdrawal_queue() {
    let mut vault = deploy_vault();
    let amount: u128 = 100_000_000_000;
    let stcspr = vault.deposit(account(1), amount, 1_000).unwrap();

    let withdrawal_id = vault.request_withdrawal(account(1), stcspr, 1_000).unwrap();

    let request = vault.get_withdrawal_request(withdrawal_id).unwrap();
    assert_eq!(request.user, account(1));
    assert!(!request.is_claimed);

    assert_eq!(vault.balance_of(account(1)), 0);
}

#[test]
fn test_rewards_compounding() {
    let mut vault = deploy_vault();
    let deposit: u128 = 1_000_000_000_000;
    let stcspr_before = vault.deposit(account(1), deposit, 1_000).unwrap();

    let rewards: u128 = 100_000_000_000;
    vault.compound_rewards(account(0), rewards, 2_000).unwrap();

    let rate = vault.get_exchange_rate();
    assert!(rate > 1_000_000_000);

    let cspr_value = vault.stcspr_to_cspr(stcspr_before).unwrap();
    assert!(cspr_value > deposit);
}

#[test]
fn test_token_transfer() {
    let mut vault = deploy_vault();
    let amount: u128 = 100_000_000_000;
    let stcspr = vault.deposit(account(1), amount, 1_000).unwrap();

    let user2 = account(2);
    let transfer_amount = stcspr / 2;
    vault.transfer(account(1), user2, transfer_amount).unwrap();

    assert_eq!(vault.balance_of(account(1)), stcspr - transfer_amount);
    assert_eq!(vault.balance_of(user2), transfer_amount);
}

#[test]
fn stakeflow_vault_v3_test_approve_and_transfer_from() {
    let mut vault = deploy_vault();
    let amount: u128 = 100_000_000_000;
    let stcspr = vault.deposit(account(1), amount, 1_000).unwrap();

    let user2 = account(2);
    vault.approve(account(1), user2, stcspr).unwrap();
    assert_eq!(vault.allowance(account(1), user2), stcspr);

    let user3 = account(3);
    vault.transfer_from(user2, account(1), user3, stcspr / 2).unwrap();

    assert_eq!(vault.balance_of(user3), stcspr / 2);
}

#[test]
fn scenario_deposit_compound_withdraw_claim() {
    let start: u64 = 50_000;
    let mut vault =
        StakeFlowVaultV3::with_minimum_deposit(account(0), account(9), 7, 10, start).unwrap();
    let user = account(1);

    assert_eq!(vault.deposit(user, 100, start).unwrap(), 100);
    assert_eq!(vault.get_exchange_rate(), 1_000_000_000);

    assert_eq!(vault.compound_rewards(account(0), 10, start), Ok((0, 10)));
    assert_eq!(vault.get_tvl(), 110);
    assert_eq!(vault.get_exchange_rate(), 1_100_000_000);

    let id = vault.request_withdrawal(user, 100, start).unwrap();
    let request = vault.get_withdrawal_request(id).unwrap();
    assert_eq!(request.cspr_amount, 110);
    assert_eq!(request.stcspr_amount, 100);
    assert_eq!(request.request_time, start);
    assert_eq!(request.unlock_time, start + 7 * DAY);
    assert_eq!(vault.total_supply(), 0);

    assert_eq!(vault.claim_withdrawal(user, id, start + DAY), Err(VaultError::StillLocked));

    assert_eq!(vault.claim_withdrawal(user, id, start + 7 * DAY), Ok(110));
    assert_eq!(vault.get_tvl(), 0);
    assert!(vault.get_withdrawal_request(id).unwrap().is_claimed);

    assert_eq!(
        vault.claim_withdrawal(user, id, start + 8 * DAY),
        Err(VaultError::AlreadyClaimed)
    );
}

#[test]
fn claim_at_unlock_time_succeeds_once() {
    let mut vault = StakeFlowVaultV3::with_minimum_deposit(account(0), account(9), 1, 1, 0).unwrap();
    vault.deposit(account(4), 500, 0).unwrap();
    let id = vault.request_withdrawal(account(4), 200, 10).unwrap();
    assert_eq!(vault.claim_withdrawal(account(4), id, 10 + DAY - 1), Err(VaultError::StillLocked));
    assert_eq!(vault.claim_withdrawal(account(4), id, 10 + DAY), Ok(200));
    assert_eq!(vault.claim_withdrawal(account(4), id, 10 + DAY), Err(VaultError::AlreadyClaimed));
    assert_eq!(vault.get_tvl(), 300);
}

#[test]
fn compound_fee_is_floor_of_share() {
    let mut vault = StakeFlowVaultV3::with_minimum_deposit(account(0), account(9), 7, 1, 0).unwrap();
    vault.deposit(account(1), 1_000_000, 0).unwrap();
    let (fee, user) = vault.compound_rewards(account(0), 12_345, 5).unwrap();
    assert_eq!(fee, 617);
    assert_eq!(user, 11_728);
    assert_eq!(fee + user, 12_345);
    assert_eq!(vault.get_tvl(), 1_011_728);
    assert_eq!(vault.get_exchange_rate(), 1_011_728_000);

    vault.set_performance_fee(account(0), 1000).unwrap();
    let (fee, user) = vault.compound_rewards(account(0), 9_999, 6).unwrap();
    assert_eq!(fee, 999);
    assert_eq!(user, 9_000);

    vault.set_performance_fee(account(0), 0).unwrap();
    assert_eq!(vault.compound_rewards(account(0), 77, 7), Ok((0, 77)));
}

#[test]
fn supply_equals_sum_of_balances_through_a_sequence() {
    let mut vault = StakeFlowVaultV3::with_minimum_deposit(account(0), account(9), 7, 1, 0).unwrap();
    let users = [account(1), account(2), account(3)];
    let sum = |v: &StakeFlowVaultV3| users.iter().map(|u| v.balance_of(*u)).sum::<u128>();

    vault.deposit(users[0], 1_000, 1).unwrap();
    assert_eq!(vault.total_supply(), sum(&vault));
    vault.deposit(users[1], 333, 2).unwrap();
    assert_eq!(vault.total_supply(), sum(&vault));
    vault.compound_rewards(account(0), 101, 3).unwrap();
    assert_eq!(vault.total_supply(), sum(&vault));
    vault.deposit(users[2], 777, 4).unwrap();
    assert_eq!(vault.total_supply(), sum(&vault));
    vault.transfer(users[2], users[0], 100).unwrap();
    assert_eq!(vault.total_supply(), sum(&vault));
    vault.request_withdrawal(users[0], 250, 5).unwrap();
    assert_eq!(vault.total_supply(), sum(&vault));
    vault.compound_rewards(account(0), 59, 6).unwrap();
    assert_eq!(vault.total_supply(), sum(&vault));
}

#[test]
fn rate_never_falls_across_deposits_and_compounds() {
    let mut vault = StakeFlowVaultV3::with_minimum_deposit(account(0), account(9), 7, 1, 0).unwrap();
    let mut last = vault.get_exchange_rate();
    let steps: [(u128, u128); 5] = [(1_000, 7), (300, 11), (12_345, 1), (99, 1_000), (50, 3)];
    for (deposit, reward) in steps {
        vault.deposit(account(1), deposit, 1).unwrap();
        assert!(vault.get_exchange_rate() >= last);
        last = vault.get_exchange_rate();
        vault.compound_rewards(account(0), reward, 2).unwrap();
        assert!(vault.get_exchange_rate() >= last);
        last = vault.get_exchange_rate();
        let balance = vault.balance_of(account(1));
        vault.request_withdrawal(account(1), balance / 3 + 1, 3).unwrap();
        assert!(vault.get_exchange_rate() >= last);
        last = vault.get_exchange_rate();
    }
}

#[test]
fn round_trip_never_pays_more_than_deposited() {
    let mut vault = StakeFlowVaultV3::with_minimum_deposit(account(0), account(9), 7, 1, 0).unwrap();
    vault.deposit(account(1), 3_000, 0).unwrap();
    vault.compound_rewards(account(0), 1_000, 0).unwrap();
    let rate = vault.get_exchange_rate();
    assert_eq!(rate, 1_316_666_666);

    let x: u128 = 1_000;
    let minted = vault.deposit(account(2), x, 1).unwrap();
    assert_eq!(minted, 759);
    let id = vault.request_withdrawal(account(2), minted, 1).unwrap();
    let payout = vault.get_withdrawal_request(id).unwrap().cspr_amount;
    assert_eq!(payout, 999);
    assert!(payout <= x);
}

#[test]
fn round_trip_at_initial_rate_is_exact() {
    let mut vault = deploy_vault();
    let x: u128 = 123_456_789_012;
    let minted = vault.deposit(account(1), x, 1).unwrap();
    assert_eq!(minted, x);
    let id = vault.request_withdrawal(account(1), minted, 1).unwrap();
    assert_eq!(vault.get_withdrawal_request(id).unwrap().cspr_amount, x);
}

#[test]
fn request_freezes_payout_at_request_rate() {
    let mut vault = StakeFlowVaultV3::with_minimum_deposit(account(0), account(9), 7, 1, 0).unwrap();
    vault.deposit(account(1), 100, 0).unwrap();
    vault.deposit(account(2), 100, 0).unwrap();
    let id = vault.request_withdrawal(account(1), 100, 0).unwrap();
    vault.compound_rewards(account(0), 100, 1).unwrap();
    assert_eq!(vault.get_withdrawal_request(id).unwrap().cspr_amount, 100);
    assert_eq!(vault.get_exchange_rate(), 2_950_000_000);
}

#[test]
fn user_withdrawals_are_listed_in_order() {
    let mut vault = StakeFlowVaultV3::with_minimum_deposit(account(0), account(9), 7, 1, 0).unwrap();
    vault.deposit(account(1), 1_000, 0).unwrap();
    vault.deposit(account(2), 1_000, 0).unwrap();
    assert_eq!(vault.request_withdrawal(account(1), 10, 0), Ok(0));
    assert_eq!(vault.request_withdrawal(account(2), 10, 0), Ok(1));
    assert_eq!(vault.request_withdrawal(account(1), 10, 0), Ok(2));
    assert_eq!(vault.request_withdrawal(account(1), 10, 0), Ok(3));
    assert_eq!(vault.get_user_withdrawals(account(1)), vec![0, 2, 3]);
    assert_eq!(vault.get_user_withdrawals(account(2)), vec![1]);
    assert_eq!(vault.get_user_withdrawals(account(3)), Vec::<u64>::new());
    assert!(vault.get_withdrawal_request(4).is_none());
}

#[test]
fn deposit_errors() {
    let mut vault = deploy_vault();
    assert_eq!(vault.deposit(account(1), 9_999_999_999, 0), Err(VaultError::BelowMinimum));
    assert_eq!(vault.deposit(account(1), u128::MAX, 0), Err(VaultError::Overflow));
    vault.pause(account(0), 1).unwrap();
    assert_eq!(vault.deposit(account(1), 10_000_000_000, 2), Err(VaultError::Paused));
    vault.unpause(account(0), 3).unwrap();
    assert_eq!(vault.deposit(account(1), 10_000_000_000, 4), Ok(10_000_000_000));
    assert_eq!(vault.get_tvl(), 10_000_000_000);
}

#[test]
fn request_errors() {
    let mut vault = deploy_vault();
    vault.deposit(account(1), 20_000_000_000, 0).unwrap();
    assert_eq!(vault.request_withdrawal(account(1), 0, 1), Err(VaultError::InvalidAmount));
    assert_eq!(
        vault.request_withdrawal(account(1), 20_000_000_001, 1),
        Err(VaultError::InsufficientBalance)
    );
    assert_eq!(
        vault.request_withdrawal(account(1), 1, u64::MAX),
        Err(VaultError::Overflow)
    );
    vault.pause(account(0), 1).unwrap();
    assert_eq!(vault.request_withdrawal(account(1), 1, 1), Err(VaultError::Paused));
    assert_eq!(vault.balance_of(account(1)), 20_000_000_000);
}

#[test]
fn claim_errors() {
    let mut vault = StakeFlowVaultV3::with_minimum_deposit(account(0), account(9), 7, 1, 0).unwrap();
    vault.deposit(account(1), 1_000, 0).unwrap();
    let id = vault.request_withdrawal(account(1), 400, 0).unwrap();
    assert_eq!(vault.claim_withdrawal(account(1), id + 1, 8 * DAY), Err(VaultError::NotFound));
    assert_eq!(vault.claim_withdrawal(account(2), id, 8 * DAY), Err(VaultError::NotOwner));
    vault.stake_to_validators(account(0), 700, 1).unwrap();
    assert_eq!(vault.get_total_staked(), 700);
    assert_eq!(
        vault.claim_withdrawal(account(1), id, 8 * DAY),
        Err(VaultError::InsufficientLiquidity)
    );
    assert_eq!(
        vault.stake_to_validators(account(0), 301, 1),
        Err(VaultError::InsufficientLiquidity)
    );
}

#[test]
fn claim_is_not_blocked_by_pause() {
    let mut vault = StakeFlowVaultV3::with_minimum_deposit(account(0), account(9), 7, 1, 0).unwrap();
    vault.deposit(account(1), 1_000, 0).unwrap();
    let id = vault.request_withdrawal(account(1), 1_000, 0).unwrap();
    vault.pause(account(0), 1).unwrap();
    assert!(!vault.is_active());
    assert_eq!(vault.claim_withdrawal(account(1), id, 7 * DAY), Ok(1_000));
}

#[test]
fn owner_only_operations() {
    let mut vault = deploy_vault();
    assert_eq!(vault.compound_rewards(account(1), 10, 0), Err(VaultError::Unauthorized));
    assert_eq!(vault.set_performance_fee(account(1), 100), Err(VaultError::Unauthorized));
    assert_eq!(vault.pause(account(1), 0), Err(VaultError::Unauthorized));
    assert_eq!(vault.unpause(account(1), 0), Err(VaultError::Unauthorized));
    assert_eq!(vault.stake_to_validators(account(1), 0, 0), Err(VaultError::Unauthorized));
    assert_eq!(vault.compound_rewards(account(0), 0, 0), Err(VaultError::ZeroYield));
    assert_eq!(vault.set_performance_fee(account(0), 1001), Err(VaultError::FeeTooHigh));
    assert_eq!(vault.get_performance_fee(), 500);
    assert_eq!(vault.set_performance_fee(account(0), 1000), Ok(()));
    assert_eq!(vault.get_performance_fee(), 1000);
}

#[test]
fn compound_before_any_deposit_keeps_rate() {
    let mut vault = deploy_vault();
    assert_eq!(vault.compound_rewards(account(0), 1_000, 0), Ok((50, 950)));
    assert_eq!(vault.get_exchange_rate(), 1_000_000_000);
    assert_eq!(vault.get_tvl(), 950);
}

#[test]
fn ledger_errors_through_vault() {
    let mut vault = deploy_vault();
    vault.deposit(account(1), 10_000_000_000, 0).unwrap();
    assert_eq!(vault.transfer(account(1), account(2), 0), Err(VaultError::InvalidAmount));
    assert_eq!(vault.transfer(account(1), account(1), 5), Err(VaultError::SelfTransfer));
    assert_eq!(
        vault.transfer(account(2), account(1), 5),
        Err(VaultError::InsufficientBalance)
    );
    assert_eq!(vault.approve(account(1), account(1), 5), Err(VaultError::SelfApproval));
    vault.approve(account(1), account(2), 5).unwrap();
    assert_eq!(
        vault.transfer_from(account(2), account(1), account(3), 6),
        Err(VaultError::InsufficientAllowance)
    );
    assert_eq!(vault.transfer_from(account(2), account(1), account(3), 5), Ok(()));
    assert_eq!(vault.allowance(account(1), account(2)), 0);
    assert_eq!(vault.balance_of(account(3)), 5);
}

#[test]
fn views_and_metadata() {
    let vault = deploy_vault();
    assert_eq!(vault.name(), "Staked CSPR");
    assert_eq!(vault.symbol(), "stCSPR");
    assert_eq!(vault.decimals(), 9);
    assert_eq!(vault.get_apy(), 903);
    assert_eq!(vault.get_owner(), account(0));
    assert_eq!(vault.get_treasury(), account(9));
    assert_eq!(vault.get_min_deposit(), 10_000_000_000);
    assert_eq!(vault.get_unbonding_period(), 7 * DAY);
    assert!(vault.is_active());
    assert_eq!(vault.stcspr_to_cspr(u128::MAX), Err(VaultError::Overflow));
    assert_eq!(
        StakeFlowVaultV3::init(account(0), account(9), u64::MAX, 0).err(),
        Some(VaultError::Overflow)
    );
}

#[test]
fn events_record_each_change() {
    let mut vault = StakeFlowVaultV3::with_minimum_deposit(account(0), account(9), 7, 1, 5).unwrap();
    vault.deposit(account(1), 100, 6).unwrap();
    vault.request_withdrawal(account(1), 40, 7).unwrap();
    let events = vault.events();
    assert_eq!(events.len(), 5);
    assert_eq!(
        events[0],
        VaultEvent::VaultInitialized {
            owner: account(0),
            treasury: account(9),
            unbonding_period_days: 7,
            timestamp: 5
        }
    );
    assert_eq!(
        events[2],
        VaultEvent::Transfer { from: None, to: Some(account(1)), amount: 100 }
    );
    assert_eq!(
        events[3],
        VaultEvent::Transfer { from: Some(account(1)), to: None, amount: 40 }
    );
    assert_eq!(
        events[4],
        VaultEvent::WithdrawalRequested {
            withdrawal_id: 0,
            user: account(1),
            stcspr_amount: 40,
            cspr_amount: 40,
            unlock_time: 7 + 7 * DAY,
            timestamp: 7
        }
    );
}

#[test]
fn compound_after_claim_can_lower_rate() {
    let mut vault = StakeFlowVaultV3::with_minimum_deposit(account(0), account(9), 0, 1, 0).unwrap();
    vault.set_performance_fee(account(0), 0).unwrap();
    vault.deposit(account(1), 100, 0).unwrap();
    vault.deposit(account(2), 100, 0).unwrap();
    let id = vault.request_withdrawal(account(1), 100, 0).unwrap();
    vault.compound_rewards(account(0), 1, 0).unwrap();
    assert_eq!(vault.get_exchange_rate(), 2_010_000_000);
    assert_eq!(vault.claim_withdrawal(account(1), id, 0), Ok(100));
    vault.compound_rewards(account(0), 1, 0).unwrap();
    assert_eq!(vault.get_exchange_rate(), 1_020_000_000);
}
