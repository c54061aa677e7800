//! The vault orchestrator: deposits, withdrawal requests and claims,
//! compounding and administration, sequenced over the ledger, the rate
//! accountant and the withdrawal queue. The host hands in the caller, the
//! attached value and the time with each call, and moves the base asset as
//! the results say.
use vstd::prelude::*;
use crate::events::VaultEvent;
use crate::ledger::{Ledger, sum_balances};
use crate::queue::{WithdrawalQueue, WithdrawalRequest, claim_decision, ids_of};
use crate::rate::{
    RateAccountant,
    RATE_SCALE,
    claim_for_base,
    lemma_round_trip,
    base_for_claim,
    rate_for,
    fee_of,
    compound_overflows,
    split_fee,
    lemma_mint_keeps_backing,
};
use crate::types::{Address, VaultError};
use vstd::arithmetic::div_mod::{lemma_fundamental_div_mod, lemma_mod_bound};

verus! {

/// The smallest deposit a vault made by `init` accepts: ten whole base units.
pub const DEFAULT_MIN_DEPOSIT: u128 = 10_000_000_000;

/// The performance fee of a new vault, in basis points.
pub const DEFAULT_FEE_BPS: u32 = 500;

/// The highest performance fee the owner may set, in basis points.
pub const MAX_FEE_BPS: u32 = 1000;

/// Seconds in a day; the clock counts seconds.
pub const SECONDS_PER_DAY: u64 = 86_400;

/// The staking yield of the base asset before fees, in basis points.
pub const BASE_APY_BPS: u32 = 950;

/// Decimal places of the claim token, as of the base asset.
pub const DECIMALS: u8 = 9;

/// The vault: custody counters, authority, fee configuration and the three
/// components it sequences.
pub struct StakeFlowVaultV3 {
    total_cspr: u128,
    total_staked: u128,
    owner: Address,
    treasury: Address,
    performance_fee_bps: u32,
    min_deposit: u128,
    active: bool,
    ledger: Ledger,
    rate: RateAccountant,
    queue: WithdrawalQueue,
    events: Vec<VaultEvent>,
}

impl StakeFlowVaultV3 {
    /// Base units in custody, liquid and staked.
    pub closed spec fn custody(&self) -> nat {
        self.total_cspr as nat
    }

    /// Base units delegated away and not liquid.
    pub closed spec fn staked(&self) -> nat {
        self.total_staked as nat
    }

    /// Base units liquid for claims.
    pub open spec fn available(&self) -> int {
        self.custody() - self.staked()
    }

    /// The identity with the administrative rights.
    pub closed spec fn owner_id(&self) -> Address {
        self.owner
    }

    /// The recipient of the protocol fee.
    pub closed spec fn treasury_id(&self) -> Address {
        self.treasury
    }

    /// The performance fee, in basis points.
    pub closed spec fn fee_bps(&self) -> nat {
        self.performance_fee_bps as nat
    }

    /// The smallest deposit accepted.
    pub closed spec fn min_deposit_spec(&self) -> nat {
        self.min_deposit as nat
    }

    /// Whether deposits and withdrawal requests are accepted.
    pub closed spec fn active(&self) -> bool {
        self.active
    }

    /// The claim-token ledger.
    pub closed spec fn token(&self) -> Ledger {
        self.ledger
    }

    /// The exchange rate, base units per claim unit scaled by `RATE_SCALE`.
    pub closed spec fn rate_spec(&self) -> nat {
        self.rate.rate_spec()
    }

    /// All withdrawal requests, by id.
    pub closed spec fn withdrawals(&self) -> Seq<WithdrawalRequest> {
        self.queue.requests()
    }

    /// The unbonding period, in seconds.
    pub closed spec fn period(&self) -> nat {
        self.queue.period() as nat
    }

    /// The change records so far, oldest first.
    pub closed spec fn log(&self) -> Seq<VaultEvent> {
        self.events@
    }

    /// Well-formedness of the vault.
    pub closed spec fn wf(&self) -> bool {
        &&& self.ledger.wf()
        &&& self.queue.wf()
        &&& self.total_staked <= self.total_cspr
        &&& self.performance_fee_bps <= MAX_FEE_BPS
    }

    /// The custody covers every claim unit at the current rate. A new vault
    /// is backed and every operation but a claim keeps it so; while it holds,
    /// compounding cannot lower the rate. A claim pays out of custody units
    /// whose claim tokens are burned already, and can leave custody short of
    /// the supply at the rate, so that a later compounding lowers the rate.
    pub open spec fn backed(&self) -> bool {
        self.custody() * RATE_SCALE >= self.rate_spec() * self.token().supply()
    }

    /// Every state of `self` other than the ledger, the custody and the log is the same in `other`.
    pub open spec fn same_settings(&self, other: &Self) -> bool {
        &&& other.owner_id() == self.owner_id()
        &&& other.treasury_id() == self.treasury_id()
        &&& other.fee_bps() == self.fee_bps()
        &&& other.min_deposit_spec() == self.min_deposit_spec()
        &&& other.active() == self.active()
        &&& other.period() == self.period()
    }

    /// `other` differs from `self` at most in the ledger and the log.
    pub open spec fn unchanged_but_ledger(&self, other: &Self) -> bool {
        &&& other.custody() == self.custody()
        &&& other.staked() == self.staked()
        &&& other.rate_spec() == self.rate_spec()
        &&& other.withdrawals() == self.withdrawals()
        &&& self.same_settings(other)
    }

    /// Custody, stake, rate, ledger and requests are the same in `self` and `other`.
    pub open spec fn same_accounting(&self, other: &Self) -> bool {
        &&& other.custody() == self.custody()
        &&& other.staked() == self.staked()
        &&& other.rate_spec() == self.rate_spec()
        &&& other.token() == self.token()
        &&& other.withdrawals() == self.withdrawals()
    }

    /// In every state a vault reaches, the claim-token supply equals the sum
    /// of all balances: every operation keeps `wf`, which holds this.
    pub proof fn lemma_supply_is_sum_of_balances(&self)
        requires
            self.wf(),
        ensures
            self.token().supply() == sum_balances(self.token().accounts()),
    {
    }

    /// A deposit of `x` base units followed at once by a withdrawal request
    /// of all the claim units it minted records a payout of at most `x`, and
    /// exactly `x` while the rate is still the initial one: the deposit
    /// leaves the rate as it is, and the request prices the units at it.
    pub proof fn lemma_deposit_then_withdraw_all(&self, x: u128)
        requires
            self.deposit_outcome(x) is Ok,
        ensures
            base_for_claim(self.deposit_outcome(x)->Ok_0 as int, self.rate_spec() as int) <= x,
            self.rate_spec() == RATE_SCALE ==> base_for_claim(
                self.deposit_outcome(x)->Ok_0 as int,
                self.rate_spec() as int,
            ) == x,
    {
        lemma_round_trip(x as int, self.rate_spec() as int);
    }

    /// A vault owned by `caller` whose fee goes to `treasury_address` and whose
    /// requests unlock `unbonding_days` days after they are made; the floor
    /// of deposits is `DEFAULT_MIN_DEPOSIT`.
    pub fn init(caller: Address, treasury_address: Address, unbonding_days: u64, now: u64) -> (r:
        Result<StakeFlowVaultV3, VaultError>)
        ensures
            unbonding_days * SECONDS_PER_DAY > u64::MAX <==> r is Err,
            r is Err ==> r == Err::<StakeFlowVaultV3, VaultError>(VaultError::Overflow),
            r matches Ok(v) ==> v.fresh(caller, treasury_address, unbonding_days, DEFAULT_MIN_DEPOSIT as nat, now),
    {
        StakeFlowVaultV3::with_minimum_deposit(caller, treasury_address, unbonding_days, DEFAULT_MIN_DEPOSIT, now)
    }

    /// What a vault made by `caller` with these settings at time `now` holds.
    pub open spec fn fresh(&self, caller: Address, treasury: Address, unbonding_days: u64, min_deposit: nat, now: u64) -> bool {
        &&& self.wf()
        &&& self.owner_id() == caller
        &&& self.treasury_id() == treasury
        &&& self.fee_bps() == DEFAULT_FEE_BPS
        &&& self.min_deposit_spec() == min_deposit
        &&& self.active()
        &&& self.period() == unbonding_days * SECONDS_PER_DAY
        &&& self.custody() == 0
        &&& self.staked() == 0
        &&& self.rate_spec() == RATE_SCALE
        &&& self.token().supply() == 0
        &&& forall|a: Address| #[trigger] self.token().balance(a) == 0
        &&& forall|o: Address, p: Address| #[trigger] self.token().allowance_spec(o, p) == 0
        &&& self.withdrawals().len() == 0
        &&& self.log() == seq![
            VaultEvent::VaultInitialized {
                owner: caller,
                treasury,
                unbonding_period_days: unbonding_days,
                timestamp: now,
            },
        ]
    }

    /// As `init`, with `min_deposit` as the floor of deposits.
    pub fn with_minimum_deposit(
        caller: Address,
        treasury_address: Address,
        unbonding_days: u64,
        min_deposit: u128,
        now: u64,
    ) -> (r: Result<StakeFlowVaultV3, VaultError>)
        ensures
            unbonding_days * SECONDS_PER_DAY > u64::MAX <==> r is Err,
            r is Err ==> r == Err::<StakeFlowVaultV3, VaultError>(VaultError::Overflow),
            r matches Ok(v) ==> v.fresh(caller, treasury_address, unbonding_days, min_deposit as nat, now),
    {
        let period = match unbonding_days.checked_mul(SECONDS_PER_DAY) {
            None => return Err(VaultError::Overflow),
            Some(p) => p,
        };
        let mut events: Vec<VaultEvent> = Vec::new();
        events.push(
            VaultEvent::VaultInitialized {
                owner: caller,
                treasury: treasury_address,
                unbonding_period_days: unbonding_days,
                timestamp: now,
            },
        );
        let v = StakeFlowVaultV3 {
            total_cspr: 0,
            total_staked: 0,
            owner: caller,
            treasury: treasury_address,
            performance_fee_bps: DEFAULT_FEE_BPS,
            min_deposit,
            active: true,
            ledger: Ledger::new(),
            rate: RateAccountant::new(),
            queue: WithdrawalQueue::new(period),
            events,
        };
        proof {
            assert(v.log() =~= seq![
                VaultEvent::VaultInitialized {
                    owner: caller,
                    treasury: treasury_address,
                    unbonding_period_days: unbonding_days,
                    timestamp: now,
                },
            ]);
        }
        Ok(v)
    }

    /// What a deposit of `attached` base units gives: the claim units to
    /// mint, or the first failure in the order paused, under the floor, zero
    /// rate, overflow, nothing to mint, overflow of the supply.
    pub open spec fn deposit_outcome(&self, attached: u128) -> Result<u128, VaultError> {
        let minted = claim_for_base(attached as int, self.rate_spec() as int);
        if !self.active() {
            Err(VaultError::Paused)
        } else if attached < self.min_deposit_spec() {
            Err(VaultError::BelowMinimum)
        } else if self.rate_spec() == 0 {
            Err(VaultError::ZeroRate)
        } else if attached * RATE_SCALE > u128::MAX || self.custody() + attached > u128::MAX {
            Err(VaultError::Overflow)
        } else if minted == 0 {
            Err(VaultError::InvalidAmount)
        } else if self.token().supply() + minted > u128::MAX {
            Err(VaultError::Overflow)
        } else {
            Ok(minted as u128)
        }
    }

    /// Takes `attached` base units from `caller` into custody and mints the
    /// claim units they buy at the current rate; returns that amount.
    pub fn deposit(&mut self, caller: Address, attached: u128, now: u64) -> (r: Result<u128, VaultError>)
        requires
            old(self).wf(),
        ensures
            final(self).wf(),
            r == old(self).deposit_outcome(attached),
            r is Err ==> *final(self) == *old(self),
            r matches Ok(minted) ==> {
                &&& final(self).custody() == old(self).custody() + attached
                &&& final(self).staked() == old(self).staked()
                &&& final(self).rate_spec() == old(self).rate_spec()
                &&& final(self).token().supply() == old(self).token().supply() + minted
                &&& final(self).token().balance(caller) == old(self).token().balance(caller) + minted
                &&& old(self).token().same_balances_except(&final(self).token(), caller, caller)
                &&& old(self).token().same_allowances(&final(self).token())
                &&& final(self).withdrawals() == old(self).withdrawals()
                &&& old(self).same_settings(final(self))
                &&& final(self).log() == old(self).log().push(
                    VaultEvent::Deposited {
                        user: caller,
                        cspr_amount: attached,
                        stcspr_amount: minted,
                        exchange_rate: old(self).rate_spec() as u128,
                        timestamp: now,
                    },
                ).push(VaultEvent::Transfer { from: None, to: Some(caller), amount: minted })
            },
            old(self).backed() ==> final(self).backed(),
    {
        if !self.active {
            return Err(VaultError::Paused);
        }
        if attached < self.min_deposit {
            return Err(VaultError::BelowMinimum);
        }
        let minted = match self.rate.to_claim_tokens(attached) {
            Err(e) => return Err(e),
            Ok(m) => m,
        };
        if attached > u128::MAX - self.total_cspr {
            return Err(VaultError::Overflow);
        }
        match self.ledger.mint(caller, minted) {
            Err(e) => return Err(e),
            Ok(()) => {},
        }
        let rate = self.rate.rate();
        self.total_cspr = self.total_cspr + attached;
        self.events.push(
            VaultEvent::Deposited {
                user: caller,
                cspr_amount: attached,
                stcspr_amount: minted,
                exchange_rate: rate,
                timestamp: now,
            },
        );
        self.events.push(VaultEvent::Transfer { from: None, to: Some(caller), amount: minted });
        proof {
            if old(self).backed() {
                lemma_mint_keeps_backing(
                    old(self).custody() as int,
                    old(self).token().supply() as int,
                    rate as int,
                    attached as int,
                );
            }
        }
        Ok(minted)
    }

    /// The request that a withdrawal of `amount` claim units by `caller` at
    /// time `now` records at the current rate.
    pub open spec fn new_request(&self, caller: Address, amount: u128, now: u64) -> WithdrawalRequest {
        WithdrawalRequest {
            user: caller,
            stcspr_amount: amount,
            cspr_amount: base_for_claim(amount as int, self.rate_spec() as int) as u128,
            request_time: now,
            unlock_time: (now + self.period()) as u64,
            is_claimed: false,
        }
    }

    /// What a withdrawal request of `amount` claim units by `caller` at time
    /// `now` gives: the id of the new request, or the first failure in the
    /// order paused, zero amount, balance too small, overflow.
    pub open spec fn request_outcome(&self, caller: Address, amount: u128, now: u64) -> Result<u64, VaultError> {
        if !self.active() {
            Err(VaultError::Paused)
        } else if amount == 0 {
            Err(VaultError::InvalidAmount)
        } else if self.token().balance(caller) < amount {
            Err(VaultError::InsufficientBalance)
        } else if amount * self.rate_spec() > u128::MAX || now + self.period() > u64::MAX
            || self.withdrawals().len() + 1 >= u64::MAX {
            Err(VaultError::Overflow)
        } else {
            Ok(self.withdrawals().len() as u64)
        }
    }

    /// Burns `amount` claim units of `caller` now and records a request for
    /// the base units they are worth at the current rate, claimable once the
    /// unbonding period has passed; returns the request id.
    pub fn request_withdrawal(&mut self, caller: Address, amount: u128, now: u64) -> (r: Result<
        u64,
        VaultError,
    >)
        requires
            old(self).wf(),
        ensures
            final(self).wf(),
            r == old(self).request_outcome(caller, amount, now),
            r is Err ==> *final(self) == *old(self),
            r matches Ok(id) ==> {
                let req = old(self).new_request(caller, amount, now);
                &&& final(self).withdrawals() == old(self).withdrawals().push(req)
                &&& final(self).custody() == old(self).custody()
                &&& final(self).staked() == old(self).staked()
                &&& final(self).rate_spec() == old(self).rate_spec()
                &&& final(self).token().supply() == old(self).token().supply() - amount
                &&& final(self).token().balance(caller) == old(self).token().balance(caller) - amount
                &&& old(self).token().same_balances_except(&final(self).token(), caller, caller)
                &&& old(self).token().same_allowances(&final(self).token())
                &&& old(self).same_settings(final(self))
                &&& final(self).log() == old(self).log().push(
                    VaultEvent::Transfer { from: Some(caller), to: None, amount },
                ).push(
                    VaultEvent::WithdrawalRequested {
                        withdrawal_id: id,
                        user: caller,
                        stcspr_amount: amount,
                        cspr_amount: req.cspr_amount,
                        unlock_time: req.unlock_time,
                        timestamp: now,
                    },
                )
            },
            old(self).backed() ==> final(self).backed(),
    {
        if !self.active {
            return Err(VaultError::Paused);
        }
        if amount == 0 {
            return Err(VaultError::InvalidAmount);
        }
        if self.ledger.balance_of(caller) < amount {
            return Err(VaultError::InsufficientBalance);
        }
        let owed = match self.rate.to_base_asset(amount) {
            Err(e) => return Err(e),
            Ok(o) => o,
        };
        let id = match self.queue.request(caller, amount, owed, now) {
            Err(e) => return Err(e),
            Ok(id) => id,
        };
        match self.ledger.burn(caller, amount) {
            Err(e) => {
                assert(false);
                return Err(e);
            },
            Ok(()) => {},
        }
        let unlock_time = self.queue.get(id).unwrap().unlock_time;
        self.events.push(VaultEvent::Transfer { from: Some(caller), to: None, amount });
        self.events.push(
            VaultEvent::WithdrawalRequested {
                withdrawal_id: id,
                user: caller,
                stcspr_amount: amount,
                cspr_amount: owed,
                unlock_time,
                timestamp: now,
            },
        );
        proof {
            let c = old(self).custody() as int;
            let q = old(self).token().supply() as int;
            let rt = old(self).rate_spec() as int;
            assert(rt * (q - amount) <= rt * q) by (nonlinear_arith)
                requires rt >= 0, amount >= 0;
        }
        Ok(id)
    }

    /// Claims request `id` for `caller` at time `now`: marks it claimed and
    /// releases its base units from custody; returns the amount the host
    /// pays out to `caller`. Pausing does not block claims.
    pub fn claim_withdrawal(&mut self, caller: Address, id: u64, now: u64) -> (r: Result<
        u128,
        VaultError,
    >)
        requires
            old(self).wf(),
        ensures
            final(self).wf(),
            r == claim_decision(old(self).withdrawals(), id, caller, now, old(self).available()),
            r is Err ==> *final(self) == *old(self),
            r matches Ok(amount) ==> {
                &&& final(self).withdrawals() == old(self).withdrawals().update(
                    id as int,
                    WithdrawalRequest { is_claimed: true, ..old(self).withdrawals()[id as int] },
                )
                &&& final(self).custody() == old(self).custody() - amount
                &&& final(self).staked() == old(self).staked()
                &&& final(self).rate_spec() == old(self).rate_spec()
                &&& final(self).token() == old(self).token()
                &&& old(self).same_settings(final(self))
                &&& final(self).log() == old(self).log().push(
                    VaultEvent::WithdrawalClaimed {
                        withdrawal_id: id,
                        user: caller,
                        cspr_amount: amount,
                        timestamp: now,
                    },
                )
            },
    {
        let available = self.total_cspr - self.total_staked;
        let amount = match self.queue.claim(id, caller, now, available) {
            Err(e) => return Err(e),
            Ok(a) => a,
        };
        self.total_cspr = self.total_cspr - amount;
        self.events.push(
            VaultEvent::WithdrawalClaimed {
                withdrawal_id: id,
                user: caller,
                cspr_amount: amount,
                timestamp: now,
            },
        );
        Ok(amount)
    }

    /// What compounding `rewards` base units of yield by `caller` gives: the
    /// fee and the users' share, or the first failure in the order not the
    /// owner, zero yield, overflow.
    pub open spec fn compound_outcome(&self, caller: Address, rewards: u128) -> Result<(u128, u128), VaultError> {
        let fee = fee_of(rewards as int, self.fee_bps() as int);
        if caller != self.owner_id() {
            Err(VaultError::Unauthorized)
        } else if rewards == 0 {
            Err(VaultError::ZeroYield)
        } else if compound_overflows(
            rewards as int,
            self.fee_bps() as int,
            self.custody() as int,
            self.token().supply() as int,
        ) {
            Err(VaultError::Overflow)
        } else {
            Ok((fee as u128, (rewards - fee) as u128))
        }
    }

    /// Records `rewards` base units of yield (owner only): the performance
    /// fee goes to the treasury outside the claim-token accounting, the rest
    /// joins the custody, and while claim units exist the rate becomes the
    /// custody per claim unit. Returns the fee, which the host pays to the
    /// treasury, and the users' share.
    pub fn compound_rewards(&mut self, caller: Address, rewards: u128, now: u64) -> (r: Result<
        (u128, u128),
        VaultError,
    >)
        requires
            old(self).wf(),
        ensures
            final(self).wf(),
            r == old(self).compound_outcome(caller, rewards),
            r is Err ==> *final(self) == *old(self),
            r matches Ok((fee, user)) ==> {
                let supply = old(self).token().supply();
                &&& fee == fee_of(rewards as int, old(self).fee_bps() as int)
                &&& fee + user == rewards
                &&& final(self).custody() == old(self).custody() + user
                &&& supply > 0 ==> final(self).rate_spec() == rate_for(final(self).custody() as int, supply as int)
                &&& supply == 0 ==> final(self).rate_spec() == old(self).rate_spec()
                &&& final(self).staked() == old(self).staked()
                &&& final(self).token() == old(self).token()
                &&& final(self).withdrawals() == old(self).withdrawals()
                &&& old(self).same_settings(final(self))
                &&& final(self).log() == if supply > 0 {
                    old(self).log().push(
                        VaultEvent::ExchangeRateUpdated {
                            old_rate: old(self).rate_spec() as u128,
                            new_rate: final(self).rate_spec() as u128,
                            total_cspr: final(self).custody() as u128,
                            total_stcspr: supply as u128,
                            timestamp: now,
                        },
                    ).push(
                        VaultEvent::RewardsCompounded {
                            total_rewards: rewards,
                            protocol_fee: fee,
                            user_rewards: user,
                            timestamp: now,
                        },
                    )
                } else {
                    old(self).log().push(
                        VaultEvent::RewardsCompounded {
                            total_rewards: rewards,
                            protocol_fee: fee,
                            user_rewards: user,
                            timestamp: now,
                        },
                    )
                }
            },
            old(self).backed() ==> final(self).backed() && final(self).rate_spec() >= old(
                self,
            ).rate_spec(),
    {
        if caller != self.owner {
            return Err(VaultError::Unauthorized);
        }
        let supply = self.ledger.total_supply();
        let old_rate = self.rate.rate();
        let (fee, user) = match self.rate.compound(
            rewards,
            self.performance_fee_bps,
            self.total_cspr,
            supply,
        ) {
            Err(e) => return Err(e),
            Ok(split) => split,
        };
        self.total_cspr = self.total_cspr + user;
        if supply > 0 {
            let new_rate = self.rate.rate();
            self.events.push(
                VaultEvent::ExchangeRateUpdated {
                    old_rate,
                    new_rate,
                    total_cspr: self.total_cspr,
                    total_stcspr: supply,
                    timestamp: now,
                },
            );
        }
        self.events.push(
            VaultEvent::RewardsCompounded {
                total_rewards: rewards,
                protocol_fee: fee,
                user_rewards: user,
                timestamp: now,
            },
        );
        proof {
            if old(self).backed() && supply > 0 {
                lemma_rate_never_falls_when_backed(
                    old(self).custody() as int,
                    supply as int,
                    old_rate as int,
                    user as int,
                );
            }
        }
        Ok((fee, user))
    }

    /// Sets the performance fee to `new_fee_bps` basis points (owner only, at most `MAX_FEE_BPS`).
    pub fn set_performance_fee(&mut self, caller: Address, new_fee_bps: u32) -> (r: Result<(), VaultError>)
        requires
            old(self).wf(),
        ensures
            final(self).wf(),
            old(self).backed() ==> final(self).backed(),
            caller != old(self).owner_id() ==> r == Err::<(), VaultError>(VaultError::Unauthorized),
            caller == old(self).owner_id() && new_fee_bps > MAX_FEE_BPS ==> r == Err::<(), VaultError>(
                VaultError::FeeTooHigh,
            ),
            caller == old(self).owner_id() && new_fee_bps <= MAX_FEE_BPS ==> r is Ok,
            r is Err ==> *final(self) == *old(self),
            r is Ok ==> final(self).fee_bps() == new_fee_bps && old(self).same_accounting(final(self))
                && final(self).owner_id() == old(self).owner_id() && final(self).treasury_id()
                == old(self).treasury_id() && final(self).min_deposit_spec() == old(
                self,
            ).min_deposit_spec() && final(self).active() == old(self).active() && final(self).period()
                == old(self).period() && final(self).log() == old(self).log().push(
                VaultEvent::PerformanceFeeUpdated { fee_bps: new_fee_bps },
            ),
    {
        if caller != self.owner {
            return Err(VaultError::Unauthorized);
        }
        if new_fee_bps > MAX_FEE_BPS {
            return Err(VaultError::FeeTooHigh);
        }
        self.performance_fee_bps = new_fee_bps;
        self.events.push(VaultEvent::PerformanceFeeUpdated { fee_bps: new_fee_bps });
        Ok(())
    }

    /// Stops deposits and withdrawal requests (owner only).
    pub fn pause(&mut self, caller: Address, now: u64) -> (r: Result<(), VaultError>)
        requires
            old(self).wf(),
        ensures
            final(self).wf(),
            old(self).backed() ==> final(self).backed(),
            caller != old(self).owner_id() <==> r == Err::<(), VaultError>(VaultError::Unauthorized),
            caller == old(self).owner_id() <==> r is Ok,
            r is Err ==> *final(self) == *old(self),
            r is Ok ==> final(self).active() == false && old(self).same_accounting(final(self))
                && final(self).owner_id() == old(self).owner_id() && final(self).treasury_id()
                == old(self).treasury_id() && final(self).min_deposit_spec() == old(
                self,
            ).min_deposit_spec() && final(self).fee_bps() == old(self).fee_bps() && final(self).period()
                == old(self).period() && final(self).log() == old(self).log().push(
                VaultEvent::VaultPaused { timestamp: now },
            ),
    {
        if caller != self.owner {
            return Err(VaultError::Unauthorized);
        }
        self.active = false;
        self.events.push(VaultEvent::VaultPaused { timestamp: now });
        Ok(())
    }

    /// Accepts deposits and withdrawal requests again (owner only).
    pub fn unpause(&mut self, caller: Address, now: u64) -> (r: Result<(), VaultError>)
        requires
            old(self).wf(),
        ensures
            final(self).wf(),
            old(self).backed() ==> final(self).backed(),
            caller != old(self).owner_id() <==> r == Err::<(), VaultError>(VaultError::Unauthorized),
            caller == old(self).owner_id() <==> r is Ok,
            r is Err ==> *final(self) == *old(self),
            r is Ok ==> final(self).active() == true && old(self).same_accounting(final(self))
                && final(self).owner_id() == old(self).owner_id() && final(self).treasury_id()
                == old(self).treasury_id() && final(self).min_deposit_spec() == old(
                self,
            ).min_deposit_spec() && final(self).fee_bps() == old(self).fee_bps() && final(self).period()
                == old(self).period() && final(self).log() == old(self).log().push(
                VaultEvent::VaultUnpaused { timestamp: now },
            ),
    {
        if caller != self.owner {
            return Err(VaultError::Unauthorized);
        }
        self.active = true;
        self.events.push(VaultEvent::VaultUnpaused { timestamp: now });
        Ok(())
    }

    /// Records that `amount` liquid base units were delegated to validators
    /// (owner only); they stay in custody but no longer pay out claims.
    pub fn stake_to_validators(&mut self, caller: Address, amount: u128, now: u64) -> (r: Result<
        (),
        VaultError,
    >)
        requires
            old(self).wf(),
        ensures
            final(self).wf(),
            old(self).backed() ==> final(self).backed(),
            caller != old(self).owner_id() ==> r == Err::<(), VaultError>(VaultError::Unauthorized),
            caller == old(self).owner_id() && amount > old(self).available() ==> r == Err::<
                (),
                VaultError,
            >(VaultError::InsufficientLiquidity),
            caller == old(self).owner_id() && amount <= old(self).available() ==> r is Ok,
            r is Err ==> *final(self) == *old(self),
            r is Ok ==> final(self).staked() == old(self).staked() + amount && final(self).custody()
                == old(self).custody() && final(self).rate_spec() == old(self).rate_spec()
                && final(self).token() == old(self).token() && final(self).withdrawals() == old(
                self,
            ).withdrawals() && old(self).same_settings(final(self)) && final(self).log() == old(self).log().push(
                VaultEvent::StakingInitiated { amount, timestamp: now },
            ),
    {
        if caller != self.owner {
            return Err(VaultError::Unauthorized);
        }
        if amount > self.total_cspr - self.total_staked {
            return Err(VaultError::InsufficientLiquidity);
        }
        self.total_staked = self.total_staked + amount;
        self.events.push(VaultEvent::StakingInitiated { amount, timestamp: now });
        Ok(())
    }

    /// Moves `amount` claim units from `caller` to `recipient`.
    pub fn transfer(&mut self, caller: Address, recipient: Address, amount: u128) -> (r: Result<
        (),
        VaultError,
    >)
        requires
            old(self).wf(),
        ensures
            final(self).wf(),
            old(self).backed() ==> final(self).backed(),
            r == old(self).token().transfer_outcome(caller, recipient, amount),
            r is Err ==> *final(self) == *old(self),
            r is Ok ==> {
                &&& final(self).token().moved(&old(self).token(), caller, recipient, amount)
                &&& old(self).token().same_allowances(&final(self).token())
                &&& final(self).log() == old(self).log().push(
                    VaultEvent::Transfer { from: Some(caller), to: Some(recipient), amount },
                )
                &&& old(self).unchanged_but_ledger(final(self))
            },
    {
        match self.ledger.transfer(caller, recipient, amount) {
            Err(e) => return Err(e),
            Ok(()) => {},
        }
        self.events.push(VaultEvent::Transfer { from: Some(caller), to: Some(recipient), amount });
        Ok(())
    }

    /// Lets `spender` move up to `amount` claim units of `caller`.
    pub fn approve(&mut self, caller: Address, spender: Address, amount: u128) -> (r: Result<
        (),
        VaultError,
    >)
        requires
            old(self).wf(),
        ensures
            final(self).wf(),
            old(self).backed() ==> final(self).backed(),
            caller == spender <==> r == Err::<(), VaultError>(VaultError::SelfApproval),
            caller != spender <==> r is Ok,
            r is Err ==> *final(self) == *old(self),
            r is Ok ==> {
                &&& final(self).token().allowance_spec(caller, spender) == amount
                &&& old(self).token().same_allowances_except(&final(self).token(), caller, spender)
                &&& final(self).token().accounts() == old(self).token().accounts()
                &&& final(self).token().supply() == old(self).token().supply()
                &&& final(self).log() == old(self).log().push(
                    VaultEvent::Approval { owner: caller, spender, amount },
                )
                &&& old(self).unchanged_but_ledger(final(self))
            },
    {
        match self.ledger.approve(caller, spender, amount) {
            Err(e) => return Err(e),
            Ok(()) => {},
        }
        self.events.push(VaultEvent::Approval { owner: caller, spender, amount });
        Ok(())
    }

    /// `caller` moves `amount` claim units of `owner` to `recipient` out of
    /// the allowance `owner` gave it.
    pub fn transfer_from(
        &mut self,
        caller: Address,
        owner: Address,
        recipient: Address,
        amount: u128,
    ) -> (r: Result<(), VaultError>)
        requires
            old(self).wf(),
        ensures
            final(self).wf(),
            old(self).backed() ==> final(self).backed(),
            r == old(self).token().transfer_from_outcome(caller, owner, recipient, amount),
            r is Err ==> *final(self) == *old(self),
            r is Ok ==> {
                &&& final(self).token().moved(&old(self).token(), owner, recipient, amount)
                &&& final(self).token().allowance_spec(owner, caller) == old(self).token().allowance_spec(
                    owner,
                    caller,
                ) - amount
                &&& old(self).token().same_allowances_except(&final(self).token(), owner, caller)
                &&& final(self).log() == old(self).log().push(
                    VaultEvent::Transfer { from: Some(owner), to: Some(recipient), amount },
                )
                &&& old(self).unchanged_but_ledger(final(self))
            },
    {
        match self.ledger.transfer_from(caller, owner, recipient, amount) {
            Err(e) => return Err(e),
            Ok(()) => {},
        }
        self.events.push(VaultEvent::Transfer { from: Some(owner), to: Some(recipient), amount });
        Ok(())
    }

    /// The token's name.
    pub fn name(&self) -> (r: String)
        ensures
            r@ == "Staked CSPR"@,
    {
        "Staked CSPR".to_owned()
    }

    /// The token's symbol.
    pub fn symbol(&self) -> (r: String)
        ensures
            r@ == "stCSPR"@,
    {
        "stCSPR".to_owned()
    }

    /// Decimal places of the token.
    pub fn decimals(&self) -> (r: u8)
        ensures
            r == DECIMALS,
    {
        DECIMALS
    }

    /// Claim units in existence.
    pub fn total_supply(&self) -> (r: u128)
        ensures
            r == self.token().supply(),
    {
        self.ledger.total_supply()
    }

    /// Claim units held by `owner`.
    pub fn balance_of(&self, owner: Address) -> (r: u128)
        requires
            self.wf(),
        ensures
            r == self.token().balance(owner),
    {
        self.ledger.balance_of(owner)
    }

    /// Claim units `spender` may move on behalf of `owner`.
    pub fn allowance(&self, owner: Address, spender: Address) -> (r: u128)
        requires
            self.wf(),
        ensures
            r == self.token().allowance_spec(owner, spender),
    {
        self.ledger.allowance(owner, spender)
    }

    /// The exchange rate, base units per claim unit scaled by `RATE_SCALE`.
    pub fn get_exchange_rate(&self) -> (r: u128)
        ensures
            r == self.rate_spec(),
    {
        self.rate.rate()
    }

    /// Base units in custody.
    pub fn get_tvl(&self) -> (r: u128)
        ensures
            r == self.custody(),
    {
        self.total_cspr
    }

    /// Base units delegated to validators.
    pub fn get_total_staked(&self) -> (r: u128)
        ensures
            r == self.staked(),
    {
        self.total_staked
    }

    /// The withdrawal request with id `withdrawal_id`, if there is one.
    pub fn get_withdrawal_request(&self, withdrawal_id: u64) -> (r: Option<WithdrawalRequest>)
        ensures
            withdrawal_id < self.withdrawals().len() ==> r == Some(self.withdrawals()[withdrawal_id as int]),
            withdrawal_id >= self.withdrawals().len() ==> r is None,
    {
        self.queue.get(withdrawal_id)
    }

    /// The ids of the withdrawal requests of `user`, oldest first.
    pub fn get_user_withdrawals(&self, user: Address) -> (r: Vec<u64>)
        requires
            self.wf(),
        ensures
            r@ == ids_of(self.withdrawals(), user),
    {
        self.queue.user_withdrawals(user)
    }

    /// Base units that `stcspr_amount` claim units are worth at the current rate.
    pub fn stcspr_to_cspr(&self, stcspr_amount: u128) -> (r: Result<u128, VaultError>)
        ensures
            stcspr_amount * self.rate_spec() > u128::MAX ==> r == Err::<u128, VaultError>(
                VaultError::Overflow,
            ),
            stcspr_amount * self.rate_spec() <= u128::MAX ==> r == Ok::<u128, VaultError>(
                base_for_claim(stcspr_amount as int, self.rate_spec() as int) as u128,
            ),
    {
        self.rate.to_base_asset(stcspr_amount)
    }

    /// The staking yield after the performance fee, in basis points.
    pub fn get_apy(&self) -> (r: u32)
        requires
            self.wf(),
        ensures
            r == BASE_APY_BPS - fee_of(BASE_APY_BPS as int, self.fee_bps() as int),
    {
        let split = split_fee(BASE_APY_BPS as u128, self.performance_fee_bps);
        split.1 as u32
    }

    /// The performance fee, in basis points.
    pub fn get_performance_fee(&self) -> (r: u32)
        ensures
            r == self.fee_bps(),
    {
        self.performance_fee_bps
    }

    /// Whether deposits and withdrawal requests are accepted.
    pub fn is_active(&self) -> (r: bool)
        ensures
            r == self.active(),
    {
        self.active
    }

    /// The identity with the administrative rights.
    pub fn get_owner(&self) -> (r: Address)
        ensures
            r == self.owner_id(),
    {
        self.owner
    }

    /// The recipient of the protocol fee.
    pub fn get_treasury(&self) -> (r: Address)
        ensures
            r == self.treasury_id(),
    {
        self.treasury
    }

    /// The smallest deposit accepted.
    pub fn get_min_deposit(&self) -> (r: u128)
        ensures
            r == self.min_deposit_spec(),
    {
        self.min_deposit
    }

    /// The delay between a withdrawal request and its unlock time, in seconds.
    pub fn get_unbonding_period(&self) -> (r: u64)
        ensures
            r == self.period(),
    {
        self.queue.unbonding_period()
    }

    /// The change records so far, oldest first.
    pub fn events(&self) -> (r: &[VaultEvent])
        ensures
            r@ == self.log(),
    {
        self.events.as_slice()
    }
}

/// Compounding never lowers the rate of a backed vault, and keeps it backed:
/// where `custody` base units cover `supply` claim units at `rate`, adding
/// any yield and recomputing the rate gives a rate no lower, which the new
/// custody covers.
pub proof fn lemma_rate_never_falls_when_backed(custody: int, supply: int, rate: int, user_yield: int)
    requires
        custody * RATE_SCALE >= rate * supply,
        supply > 0,
        rate >= 0,
        user_yield >= 0,
    ensures
        rate_for(custody + user_yield, supply) >= rate,
        (custody + user_yield) * RATE_SCALE >= rate_for(custody + user_yield, supply) * supply,
{
    let x = (custody + user_yield) * RATE_SCALE;
    assert(x >= rate * supply) by (nonlinear_arith)
        requires
            custody * RATE_SCALE >= rate * supply,
            user_yield >= 0,
            x == (custody + user_yield) * RATE_SCALE;
    lemma_fundamental_div_mod(x, supply);
    lemma_mod_bound(x, supply);
    let q = x / supply;
    assert(q >= rate) by (nonlinear_arith)
        requires
            x == supply * q + x % supply,
            x % supply < supply,
            x >= rate * supply,
            supply > 0;
    assert(x >= q * supply) by (nonlinear_arith)
        requires
            x == supply * q + x % supply,
            x % supply >= 0;
}

} // verus!
