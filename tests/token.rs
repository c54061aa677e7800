use stakeflow::events::TokenEvent;
use stakeflow::token::StCSPRToken;
use stakeflow::types::{Address, VaultError};

fn account(n: u64) -> Address {
    Address(n)
}

fn deploy_token() -> StCSPRToken {
    StCSPRToken::init(account(0), 0)
}

#[test]
fn stcspr_token_test_initialization() {
    let token = deploy_token();

    assert_eq!(token.name(), "Staked CSPR");
    assert_eq!(token.symbol(), "stCSPR");
    assert_eq!(token.decimals(), 9);
    assert_eq!(token.total_supply(), 0);
    assert_eq!(token.get_exchange_rate(), 1_000_000_000);
}

#[test]
fn test_mint() {
    let mut token = deploy_token();
    let user = account(1);
    let cspr_amount: u128 = 100_000_000_000;

    let stcspr_amount = token.mint(account(0), user, cspr_amount, 1).unwrap();

    assert_eq!(stcspr_amount, cspr_amount);
    assert_eq!(token.balance_of(user), stcspr_amount);
    assert_eq!(token.total_supply(), stcspr_amount);
}

#[test]
fn test_burn() {
    let mut token = deploy_token();
    let user = account(1);
    let cspr_amount: u128 = 100_000_000_000;

    let stcspr_amount = token.mint(account(0), user, cspr_amount, 1).unwrap();

    let burn_amount = stcspr_amount / 2;
    let cspr_returned = token.burn(account(0), user, burn_amount, 2).unwrap();

    assert_eq!(token.balance_of(user), stcspr_amount - burn_amount);
    assert_eq!(cspr_returned, cspr_amount / 2);
}

#[test]
fn test_transfer() {
    let mut token = deploy_token();
    let user1 = account(1);
    let user2 = account(2);
    let amount: u128 = 100_000_000_000;

    token.mint(account(0), user1, amount, 1).unwrap();

    let transfer_amount = amount / 2;
    token.transfer(user1, user2, transfer_amount).unwrap();

    assert_eq!(token.balance_of(user1), amount - transfer_amount);
    assert_eq!(token.balance_of(user2), transfer_amount);
}

#[test]
fn stcspr_token_test_approve_and_transfer_from() {
    let mut token = deploy_token();
    let owner = account(1);
    let spender = account(2);
    let recipient = account(3);
    let amount: u128 = 100_000_000_000;

    token.mint(account(0), owner, amount, 1).unwrap();

    token.approve(owner, spender, amount).unwrap();
    assert_eq!(token.allowance(owner, spender), amount);

    let transfer_amount = amount / 2;
    token.transfer_from(spender, owner, recipient, transfer_amount).unwrap();

    assert_eq!(token.balance_of(recipient), transfer_amount);
    assert_eq!(token.allowance(owner, spender), amount - transfer_amount);
}

#[test]
fn test_exchange_rate_update() {
    let mut token = deploy_token();
    let user = account(1);
    let initial_cspr: u128 = 100_000_000_000;

    let stcspr_minted = token.mint(account(0), user, initial_cspr, 1).unwrap();

    let new_total_cspr: u128 = 110_000_000_000;
    token.update_exchange_rate(account(0), new_total_cspr, 2).unwrap();

    let new_rate = token.get_exchange_rate();
    assert!(new_rate > 1_000_000_000);

    let cspr_value = token.stcspr_to_cspr(stcspr_minted).unwrap();
    assert_eq!(cspr_value, new_total_cspr);
}

#[test]
fn test_conversion_functions() {
    let token = deploy_token();

    let cspr: u128 = 100_000_000_000;
    let stcspr = token.cspr_to_stcspr(cspr).unwrap();
    let cspr_back = token.stcspr_to_cspr(stcspr).unwrap();

    assert_eq!(cspr, cspr_back);
}

#[test]
fn test_pause_and_unpause() {
    let mut token = deploy_token();

    token.pause(account(0), 1).unwrap();
    assert!(token.is_paused());

    token.unpause(account(0), 2).unwrap();
    assert!(!token.is_paused());
}

#[test]
fn token_vault_only_operations() {
    let mut token = deploy_token();
    assert_eq!(token.mint(account(1), account(1), 10, 0), Err(VaultError::Unauthorized));
    assert_eq!(token.burn(account(1), account(1), 10, 0), Err(VaultError::Unauthorized));
    assert_eq!(token.update_exchange_rate(account(1), 10, 0), Err(VaultError::Unauthorized));
    assert_eq!(token.pause(account(1), 0), Err(VaultError::Unauthorized));
    assert_eq!(token.unpause(account(1), 0), Err(VaultError::Unauthorized));
    assert_eq!(token.get_vault(), account(0));
}

#[test]
fn token_pause_blocks_holders_and_minting() {
    let mut token = deploy_token();
    token.mint(account(0), account(1), 1_000, 0).unwrap();
    token.pause(account(0), 1).unwrap();
    assert_eq!(token.mint(account(0), account(1), 10, 2), Err(VaultError::Paused));
    assert_eq!(token.burn(account(0), account(1), 10, 2), Err(VaultError::Paused));
    assert_eq!(token.transfer(account(1), account(2), 10), Err(VaultError::Paused));
    assert_eq!(token.approve(account(1), account(2), 10), Err(VaultError::Paused));
    assert_eq!(
        token.transfer_from(account(2), account(1), account(3), 10),
        Err(VaultError::Paused)
    );
    assert_eq!(token.balance_of(account(1)), 1_000);
}

#[test]
fn token_mint_and_burn_errors() {
    let mut token = deploy_token();
    assert_eq!(token.mint(account(0), account(1), 0, 0), Err(VaultError::InvalidAmount));
    assert_eq!(token.mint(account(0), account(1), u128::MAX, 0), Err(VaultError::Overflow));
    token.mint(account(0), account(1), 500, 0).unwrap();
    assert_eq!(token.burn(account(0), account(1), 0, 0), Err(VaultError::InvalidAmount));
    assert_eq!(token.burn(account(0), account(1), 501, 0), Err(VaultError::InsufficientBalance));
    assert_eq!(token.burn(account(0), account(1), 500, 0), Ok(500));
    assert_eq!(token.get_total_cspr_backing(), 0);
}

#[test]
fn token_rate_update_without_supply_changes_nothing() {
    let mut token = deploy_token();
    assert_eq!(token.update_exchange_rate(account(0), 5_000, 1), Ok(()));
    assert_eq!(token.get_exchange_rate(), 1_000_000_000);
    assert_eq!(token.get_total_cspr_backing(), 0);
    assert_eq!(token.events().len(), 1);
}

#[test]
fn token_zero_rate_is_reported() {
    let mut token = deploy_token();
    token.mint(account(0), account(1), 500, 0).unwrap();
    token.update_exchange_rate(account(0), 0, 1).unwrap();
    assert_eq!(token.get_exchange_rate(), 0);
    assert_eq!(token.cspr_to_stcspr(10), Err(VaultError::ZeroRate));
    assert_eq!(token.mint(account(0), account(1), 10, 2), Err(VaultError::ZeroRate));
    assert_eq!(token.burn(account(0), account(1), 500, 3), Ok(0));
}

#[test]
fn token_burn_pays_at_current_rate() {
    let mut token = deploy_token();
    token.mint(account(0), account(1), 300, 0).unwrap();
    token.update_exchange_rate(account(0), 400, 1).unwrap();
    assert_eq!(token.get_exchange_rate(), 1_333_333_333);
    assert_eq!(token.burn(account(0), account(1), 150, 2), Ok(199));
    assert_eq!(token.get_total_cspr_backing(), 201);
    assert_eq!(token.total_supply(), 150);
    let events = token.events();
    assert_eq!(
        events[events.len() - 1],
        TokenEvent::Transfer { from: Some(account(1)), to: None, amount: 150 }
    );
}
