//! What each deployment creates: the contract state a fresh deployment by a
//! given deployer starts from, and the gas limit it is sent with.
use vstd::prelude::*;
use crate::token::StCSPRToken;
use crate::types::{Address, VaultError};
use crate::vault::{StakeFlowVaultV3, DEFAULT_MIN_DEPOSIT};

verus! {

/// Gas limit each deployment is sent with: 400 whole base units.
pub const DEPLOY_GAS_LIMIT: u64 = 400_000_000_000;

/// Unbonding period of a deployed vault, in days.
pub const DEPLOY_UNBONDING_DAYS: u64 = 7;

/// Deployment of the standalone claim token.
pub struct TokenDeployScript;

impl TokenDeployScript {
    /// The gas limit of the deployment.
    pub fn gas_limit(&self) -> (r: u64)
        ensures
            r == DEPLOY_GAS_LIMIT,
    {
        DEPLOY_GAS_LIMIT
    }

    /// The token that `deployer` creates at time `now`: run by `deployer`, empty.
    pub fn deploy(&self, deployer: Address, now: u64) -> (r: StCSPRToken)
        ensures
            r.wf(),
            r.vault_id() == deployer,
            !r.paused_spec(),
            r.token().supply() == 0,
            forall|a: Address| #[trigger] r.token().balance(a) == 0,
    {
        StCSPRToken::init(deployer, now)
    }
}

/// Deployment of the vault.
pub struct VaultDeployScript;

impl VaultDeployScript {
    /// The gas limit of the deployment.
    pub fn gas_limit(&self) -> (r: u64)
        ensures
            r == DEPLOY_GAS_LIMIT,
    {
        DEPLOY_GAS_LIMIT
    }

    /// The vault that `deployer` creates at time `now`: owned by `deployer`,
    /// with `deployer` as treasury and a seven-day unbonding period.
    pub fn deploy(&self, deployer: Address, now: u64) -> (r: Result<StakeFlowVaultV3, VaultError>)
        ensures
            r matches Ok(v) && v.fresh(
                deployer,
                deployer,
                DEPLOY_UNBONDING_DAYS,
                DEFAULT_MIN_DEPOSIT as nat,
                now,
            ),
    {
        StakeFlowVaultV3::init(deployer, deployer, DEPLOY_UNBONDING_DAYS, now)
    }
}

} // verus!
