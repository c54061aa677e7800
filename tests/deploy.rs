use stakeflow::deploy::{TokenDeployScript, VaultDeployScript};
use stakeflow::types::Address;

#[test]
fn deployed_vault_is_owned_and_funded_by_deployer() {
    let vault = VaultDeployScript.deploy(Address(7), 3).unwrap();
    assert_eq!(vault.get_owner(), Address(7));
    assert_eq!(vault.get_treasury(), Address(7));
    assert_eq!(vault.get_unbonding_period(), 7 * 86_400);
    assert_eq!(vault.get_exchange_rate(), 1_000_000_000);
    assert_eq!(VaultDeployScript.gas_limit(), 400_000_000_000);
}

#[test]
fn deployed_token_is_run_by_deployer() {
    let token = TokenDeployScript.deploy(Address(7), 3);
    assert_eq!(token.get_vault(), Address(7));
    assert!(!token.is_paused());
    assert_eq!(TokenDeployScript.gas_limit(), 400_000_000_000);
}
