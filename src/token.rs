//! The claim token on its own: a ledger whose minting and burning convert at
//! its own exchange rate, run by the vault that created it, with a pause
//! switch over holder operations.
use vstd::prelude::*;
use crate::events::TokenEvent;
use crate::ledger::Ledger;
use crate::rate::{
    RateAccountant,
    RATE_SCALE,
    claim_for_base,
    base_for_claim,
    rate_for,
    lemma_mint_keeps_backing,
    lemma_burn_keeps_backing,
    lemma_rebase_backs,
};
use crate::types::{Address, VaultError};
use crate::vault::DECIMALS;

verus! {

/// The claim token, minted and burned by its vault against base units.
pub struct StCSPRToken {
    ledger: Ledger,
    rate: RateAccountant,
    total_cspr_backing: u128,
    vault: Address,
    paused: bool,
    events: Vec<TokenEvent>,
}

impl StCSPRToken {
    /// The ledger of the token.
    pub closed spec fn token(&self) -> Ledger {
        self.ledger
    }

    /// The exchange rate, base units per claim unit scaled by `RATE_SCALE`.
    pub closed spec fn rate_spec(&self) -> nat {
        self.rate.rate_spec()
    }

    /// Base units backing the supply.
    pub closed spec fn backing(&self) -> nat {
        self.total_cspr_backing as nat
    }

    /// The vault that may mint, burn, rebase and pause.
    pub closed spec fn vault_id(&self) -> Address {
        self.vault
    }

    /// Whether holder operations and minting are stopped.
    pub closed spec fn paused_spec(&self) -> bool {
        self.paused
    }

    /// The change records so far, oldest first.
    pub closed spec fn log(&self) -> Seq<TokenEvent> {
        self.events@
    }

    /// Well-formedness: a well-formed ledger whose supply the backing covers at the rate.
    pub open spec fn wf(&self) -> bool {
        &&& self.token().wf()
        &&& self.backing() * RATE_SCALE >= self.rate_spec() * self.token().supply()
    }

    /// Everything but the ledger and the log is the same in `self` and `other`.
    pub open spec fn same_but_ledger(&self, other: &Self) -> bool {
        &&& other.rate_spec() == self.rate_spec()
        &&& other.backing() == self.backing()
        &&& other.vault_id() == self.vault_id()
        &&& other.paused_spec() == self.paused_spec()
    }

    /// A token whose vault is `caller`, with nothing minted, at the initial rate.
    pub fn init(caller: Address, now: u64) -> (r: StCSPRToken)
        ensures
            r.wf(),
            r.vault_id() == caller,
            !r.paused_spec(),
            r.rate_spec() == RATE_SCALE,
            r.backing() == 0,
            r.token().supply() == 0,
            forall|a: Address| #[trigger] r.token().balance(a) == 0,
            forall|o: Address, p: Address| #[trigger] r.token().allowance_spec(o, p) == 0,
            r.log() == seq![TokenEvent::TokenInitialized { vault: caller, timestamp: now }],
    {
        let mut events: Vec<TokenEvent> = Vec::new();
        events.push(TokenEvent::TokenInitialized { vault: caller, timestamp: now });
        let r = StCSPRToken {
            ledger: Ledger::new(),
            rate: RateAccountant::new(),
            total_cspr_backing: 0,
            vault: caller,
            paused: false,
            events,
        };
        proof {
            assert(r.log() =~= seq![TokenEvent::TokenInitialized { vault: caller, timestamp: now }]);
        }
        r
    }

    /// The token's name.
    pub fn name(&self) -> (r: String)
        ensures
            r@ == "Staked CSPR"@,
    {
        "Staked CSPR".to_owned()
    }

    /// The token's symbol.
    pub fn symbol(&self) -> (r: String)
        ensures
            r@ == "stCSPR"@,
    {
        "stCSPR".to_owned()
    }

    /// Decimal places of the token.
    pub fn decimals(&self) -> (r: u8)
        ensures
            r == DECIMALS,
    {
        DECIMALS
    }

    /// Claim units in existence.
    pub fn total_supply(&self) -> (r: u128)
        ensures
            r == self.token().supply(),
    {
        self.ledger.total_supply()
    }

    /// Claim units held by `owner`.
    pub fn balance_of(&self, owner: Address) -> (r: u128)
        requires
            self.wf(),
        ensures
            r == self.token().balance(owner),
    {
        self.ledger.balance_of(owner)
    }

    /// Claim units `spender` may move on behalf of `owner`.
    pub fn allowance(&self, owner: Address, spender: Address) -> (r: u128)
        requires
            self.wf(),
        ensures
            r == self.token().allowance_spec(owner, spender),
    {
        self.ledger.allowance(owner, spender)
    }

    /// The exchange rate, base units per claim unit scaled by `RATE_SCALE`.
    pub fn get_exchange_rate(&self) -> (r: u128)
        ensures
            r == self.rate_spec(),
    {
        self.rate.rate()
    }

    /// Base units that `stcspr_amount` claim units are worth at the current rate.
    pub fn stcspr_to_cspr(&self, stcspr_amount: u128) -> (r: Result<u128, VaultError>)
        ensures
            stcspr_amount * self.rate_spec() > u128::MAX ==> r == Err::<u128, VaultError>(
                VaultError::Overflow,
            ),
            stcspr_amount * self.rate_spec() <= u128::MAX ==> r == Ok::<u128, VaultError>(
                base_for_claim(stcspr_amount as int, self.rate_spec() as int) as u128,
            ),
    {
        self.rate.to_base_asset(stcspr_amount)
    }

    /// Claim units that `cspr_amount` base units buy at the current rate.
    pub fn cspr_to_stcspr(&self, cspr_amount: u128) -> (r: Result<u128, VaultError>)
        ensures
            self.rate_spec() == 0 ==> r == Err::<u128, VaultError>(VaultError::ZeroRate),
            self.rate_spec() > 0 && cspr_amount * RATE_SCALE > u128::MAX ==> r == Err::<
                u128,
                VaultError,
            >(VaultError::Overflow),
            self.rate_spec() > 0 && cspr_amount * RATE_SCALE <= u128::MAX ==> r == Ok::<
                u128,
                VaultError,
            >(claim_for_base(cspr_amount as int, self.rate_spec() as int) as u128),
    {
        self.rate.to_claim_tokens(cspr_amount)
    }

    /// Base units backing the supply.
    pub fn get_total_cspr_backing(&self) -> (r: u128)
        ensures
            r == self.backing(),
    {
        self.total_cspr_backing
    }

    /// The vault that runs the token.
    pub fn get_vault(&self) -> (r: Address)
        ensures
            r == self.vault_id(),
    {
        self.vault
    }

    /// Whether holder operations and minting are stopped.
    pub fn is_paused(&self) -> (r: bool)
        ensures
            r == self.paused_spec(),
    {
        self.paused
    }

    /// The change records so far, oldest first.
    pub fn events(&self) -> (r: &[TokenEvent])
        ensures
            r@ == self.log(),
    {
        self.events.as_slice()
    }

    /// What minting against `cspr_amount` base units by `caller` gives: the
    /// claim units minted, or the first failure in the order not the vault,
    /// paused, zero amount, zero rate, overflow, nothing to mint, overflow of
    /// the supply.
    pub open spec fn mint_outcome(&self, caller: Address, cspr_amount: u128) -> Result<u128, VaultError> {
        let minted = claim_for_base(cspr_amount as int, self.rate_spec() as int);
        if caller != self.vault_id() {
            Err(VaultError::Unauthorized)
        } else if self.paused_spec() {
            Err(VaultError::Paused)
        } else if cspr_amount == 0 {
            Err(VaultError::InvalidAmount)
        } else if self.rate_spec() == 0 {
            Err(VaultError::ZeroRate)
        } else if cspr_amount * RATE_SCALE > u128::MAX || self.backing() + cspr_amount > u128::MAX {
            Err(VaultError::Overflow)
        } else if minted == 0 {
            Err(VaultError::InvalidAmount)
        } else if self.token().supply() + minted > u128::MAX {
            Err(VaultError::Overflow)
        } else {
            Ok(minted as u128)
        }
    }

    /// Mints to `to` the claim units that `cspr_amount` base units buy at the
    /// current rate and adds those base units to the backing (vault only).
    pub fn mint(&mut self, caller: Address, to: Address, cspr_amount: u128, now: u64) -> (r: Result<
        u128,
        VaultError,
    >)
        requires
            old(self).wf(),
        ensures
            final(self).wf(),
            r == old(self).mint_outcome(caller, cspr_amount),
            r is Err ==> *final(self) == *old(self),
            r matches Ok(minted) ==> {
                &&& final(self).token().supply() == old(self).token().supply() + minted
                &&& final(self).token().balance(to) == old(self).token().balance(to) + minted
                &&& old(self).token().same_balances_except(&final(self).token(), to, to)
                &&& old(self).token().same_allowances(&final(self).token())
                &&& final(self).backing() == old(self).backing() + cspr_amount
                &&& final(self).rate_spec() == old(self).rate_spec()
                &&& final(self).vault_id() == old(self).vault_id()
                &&& final(self).paused_spec() == old(self).paused_spec()
                &&& final(self).log() == old(self).log().push(
                    TokenEvent::Mint {
                        to,
                        stcspr_amount: minted,
                        cspr_amount,
                        exchange_rate: old(self).rate_spec() as u128,
                        timestamp: now,
                    },
                ).push(TokenEvent::Transfer { from: None, to: Some(to), amount: minted })
            },
    {
        if caller != self.vault {
            return Err(VaultError::Unauthorized);
        }
        if self.paused {
            return Err(VaultError::Paused);
        }
        if cspr_amount == 0 {
            return Err(VaultError::InvalidAmount);
        }
        let minted = match self.rate.to_claim_tokens(cspr_amount) {
            Err(e) => return Err(e),
            Ok(m) => m,
        };
        if cspr_amount > u128::MAX - self.total_cspr_backing {
            return Err(VaultError::Overflow);
        }
        match self.ledger.mint(to, minted) {
            Err(e) => return Err(e),
            Ok(()) => {},
        }
        let rate = self.rate.rate();
        self.total_cspr_backing = self.total_cspr_backing + cspr_amount;
        self.events.push(
            TokenEvent::Mint {
                to,
                stcspr_amount: minted,
                cspr_amount,
                exchange_rate: rate,
                timestamp: now,
            },
        );
        self.events.push(TokenEvent::Transfer { from: None, to: Some(to), amount: minted });
        proof {
            lemma_mint_keeps_backing(
                old(self).backing() as int,
                old(self).token().supply() as int,
                rate as int,
                cspr_amount as int,
            );
        }
        Ok(minted)
    }

    /// What burning `stcspr_amount` claim units of `from` by `caller` gives:
    /// the base units they are worth, or the first failure in the order not
    /// the vault, paused, zero amount, balance too small, overflow.
    pub open spec fn burn_outcome(&self, caller: Address, from: Address, stcspr_amount: u128) -> Result<
        u128,
        VaultError,
    > {
        if caller != self.vault_id() {
            Err(VaultError::Unauthorized)
        } else if self.paused_spec() {
            Err(VaultError::Paused)
        } else if stcspr_amount == 0 {
            Err(VaultError::InvalidAmount)
        } else if self.token().balance(from) < stcspr_amount {
            Err(VaultError::InsufficientBalance)
        } else if stcspr_amount * self.rate_spec() > u128::MAX {
            Err(VaultError::Overflow)
        } else {
            Ok(base_for_claim(stcspr_amount as int, self.rate_spec() as int) as u128)
        }
    }

    /// Burns `stcspr_amount` claim units of `from` and takes the base units
    /// they are worth at the current rate off the backing (vault only);
    /// returns that base amount.
    pub fn burn(&mut self, caller: Address, from: Address, stcspr_amount: u128, now: u64) -> (r:
        Result<u128, VaultError>)
        requires
            old(self).wf(),
        ensures
            final(self).wf(),
            r == old(self).burn_outcome(caller, from, stcspr_amount),
            r is Err ==> *final(self) == *old(self),
            r matches Ok(cspr_amount) ==> {
                &&& final(self).token().supply() == old(self).token().supply() - stcspr_amount
                &&& final(self).token().balance(from) == old(self).token().balance(from) - stcspr_amount
                &&& old(self).token().same_balances_except(&final(self).token(), from, from)
                &&& old(self).token().same_allowances(&final(self).token())
                &&& final(self).backing() == old(self).backing() - cspr_amount
                &&& final(self).rate_spec() == old(self).rate_spec()
                &&& final(self).vault_id() == old(self).vault_id()
                &&& final(self).paused_spec() == old(self).paused_spec()
                &&& final(self).log() == old(self).log().push(
                    TokenEvent::Burn {
                        from,
                        stcspr_amount,
                        cspr_amount,
                        exchange_rate: old(self).rate_spec() as u128,
                        timestamp: now,
                    },
                ).push(TokenEvent::Transfer { from: Some(from), to: None, amount: stcspr_amount })
            },
    {
        if caller != self.vault {
            return Err(VaultError::Unauthorized);
        }
        if self.paused {
            return Err(VaultError::Paused);
        }
        if stcspr_amount == 0 {
            return Err(VaultError::InvalidAmount);
        }
        if self.ledger.balance_of(from) < stcspr_amount {
            return Err(VaultError::InsufficientBalance);
        }
        let cspr_amount = match self.rate.to_base_asset(stcspr_amount) {
            Err(e) => return Err(e),
            Ok(c) => c,
        };
        match self.ledger.burn(from, stcspr_amount) {
            Err(e) => {
                assert(false);
                return Err(e);
            },
            Ok(()) => {},
        }
        proof {
            lemma_burn_keeps_backing(
                old(self).backing() as int,
                old(self).token().supply() as int,
                old(self).rate_spec() as int,
                stcspr_amount as int,
            );
        }
        let rate = self.rate.rate();
        self.total_cspr_backing = self.total_cspr_backing - cspr_amount;
        self.events.push(
            TokenEvent::Burn { from, stcspr_amount, cspr_amount, exchange_rate: rate, timestamp: now },
        );
        self.events.push(TokenEvent::Transfer { from: Some(from), to: None, amount: stcspr_amount });
        Ok(cspr_amount)
    }

    /// Sets the backing to `new_total_cspr` and the rate to what it gives per
    /// claim unit (vault only); while no claim units exist nothing changes.
    pub fn update_exchange_rate(&mut self, caller: Address, new_total_cspr: u128, now: u64) -> (r:
        Result<(), VaultError>)
        requires
            old(self).wf(),
        ensures
            final(self).wf(),
            caller != old(self).vault_id() ==> r == Err::<(), VaultError>(VaultError::Unauthorized),
            caller == old(self).vault_id() && old(self).token().supply() > 0 && new_total_cspr
                * RATE_SCALE > u128::MAX ==> r == Err::<(), VaultError>(VaultError::Overflow),
            caller == old(self).vault_id() && (old(self).token().supply() == 0 || new_total_cspr
                * RATE_SCALE <= u128::MAX) ==> r is Ok,
            r is Err || old(self).token().supply() == 0 ==> *final(self) == *old(self),
            r is Ok && old(self).token().supply() > 0 ==> {
                &&& final(self).rate_spec() == rate_for(
                    new_total_cspr as int,
                    old(self).token().supply() as int,
                )
                &&& final(self).backing() == new_total_cspr
                &&& final(self).token() == old(self).token()
                &&& final(self).vault_id() == old(self).vault_id()
                &&& final(self).paused_spec() == old(self).paused_spec()
                &&& final(self).log() == old(self).log().push(
                    TokenEvent::ExchangeRateUpdated {
                        old_rate: old(self).rate_spec() as u128,
                        new_rate: final(self).rate_spec() as u128,
                        total_cspr: new_total_cspr,
                        total_stcspr: old(self).token().supply() as u128,
                        timestamp: now,
                    },
                )
            },
    {
        if caller != self.vault {
            return Err(VaultError::Unauthorized);
        }
        let supply = self.ledger.total_supply();
        if supply == 0 {
            return Ok(());
        }
        let old_rate = self.rate.rate();
        match self.rate.rebase(new_total_cspr, supply) {
            Err(e) => return Err(e),
            Ok(()) => {},
        }
        self.total_cspr_backing = new_total_cspr;
        let new_rate = self.rate.rate();
        self.events.push(
            TokenEvent::ExchangeRateUpdated {
                old_rate,
                new_rate,
                total_cspr: new_total_cspr,
                total_stcspr: supply,
                timestamp: now,
            },
        );
        proof {
            lemma_rebase_backs(new_total_cspr as int, supply as int);
        }
        Ok(())
    }

    /// Moves `amount` claim units from `caller` to `recipient`, unless paused.
    pub fn transfer(&mut self, caller: Address, recipient: Address, amount: u128) -> (r: Result<
        (),
        VaultError,
    >)
        requires
            old(self).wf(),
        ensures
            final(self).wf(),
            old(self).paused_spec() ==> r == Err::<(), VaultError>(VaultError::Paused),
            !old(self).paused_spec() ==> r == old(self).token().transfer_outcome(caller, recipient, amount),
            r is Err ==> *final(self) == *old(self),
            r is Ok ==> {
                &&& final(self).token().moved(&old(self).token(), caller, recipient, amount)
                &&& old(self).token().same_allowances(&final(self).token())
                &&& old(self).same_but_ledger(final(self))
                &&& final(self).log() == old(self).log().push(
                    TokenEvent::Transfer { from: Some(caller), to: Some(recipient), amount },
                )
            },
    {
        if self.paused {
            return Err(VaultError::Paused);
        }
        match self.ledger.transfer(caller, recipient, amount) {
            Err(e) => return Err(e),
            Ok(()) => {},
        }
        self.events.push(TokenEvent::Transfer { from: Some(caller), to: Some(recipient), amount });
        Ok(())
    }

    /// Lets `spender` move up to `amount` claim units of `caller`, unless paused.
    pub fn approve(&mut self, caller: Address, spender: Address, amount: u128) -> (r: Result<
        (),
        VaultError,
    >)
        requires
            old(self).wf(),
        ensures
            final(self).wf(),
            old(self).paused_spec() ==> r == Err::<(), VaultError>(VaultError::Paused),
            !old(self).paused_spec() && caller == spender ==> r == Err::<(), VaultError>(
                VaultError::SelfApproval,
            ),
            !old(self).paused_spec() && caller != spender ==> r is Ok,
            r is Err ==> *final(self) == *old(self),
            r is Ok ==> {
                &&& final(self).token().allowance_spec(caller, spender) == amount
                &&& old(self).token().same_allowances_except(&final(self).token(), caller, spender)
                &&& final(self).token().accounts() == old(self).token().accounts()
                &&& final(self).token().supply() == old(self).token().supply()
                &&& old(self).same_but_ledger(final(self))
                &&& final(self).log() == old(self).log().push(
                    TokenEvent::Approval { owner: caller, spender, amount },
                )
            },
    {
        if self.paused {
            return Err(VaultError::Paused);
        }
        match self.ledger.approve(caller, spender, amount) {
            Err(e) => return Err(e),
            Ok(()) => {},
        }
        self.events.push(TokenEvent::Approval { owner: caller, spender, amount });
        Ok(())
    }

    /// `caller` moves `amount` claim units of `owner` to `recipient` out of
    /// the allowance `owner` gave it, unless paused.
    pub fn transfer_from(
        &mut self,
        caller: Address,
        owner: Address,
        recipient: Address,
        amount: u128,
    ) -> (r: Result<(), VaultError>)
        requires
            old(self).wf(),
        ensures
            final(self).wf(),
            old(self).paused_spec() ==> r == Err::<(), VaultError>(VaultError::Paused),
            !old(self).paused_spec() ==> r == old(self).token().transfer_from_outcome(
                caller,
                owner,
                recipient,
                amount,
            ),
            r is Err ==> *final(self) == *old(self),
            r is Ok ==> {
                &&& final(self).token().moved(&old(self).token(), owner, recipient, amount)
                &&& final(self).token().allowance_spec(owner, caller) == old(self).token().allowance_spec(
                    owner,
                    caller,
                ) - amount
                &&& old(self).token().same_allowances_except(&final(self).token(), owner, caller)
                &&& old(self).same_but_ledger(final(self))
                &&& final(self).log() == old(self).log().push(
                    TokenEvent::Transfer { from: Some(owner), to: Some(recipient), amount },
                )
            },
    {
        if self.paused {
            return Err(VaultError::Paused);
        }
        match self.ledger.transfer_from(caller, owner, recipient, amount) {
            Err(e) => return Err(e),
            Ok(()) => {},
        }
        self.events.push(TokenEvent::Transfer { from: Some(owner), to: Some(recipient), amount });
        Ok(())
    }

    /// Stops holder operations and minting (vault only).
    pub fn pause(&mut self, caller: Address, now: u64) -> (r: Result<(), VaultError>)
        requires
            old(self).wf(),
        ensures
            final(self).wf(),
            caller != old(self).vault_id() <==> r == Err::<(), VaultError>(VaultError::Unauthorized),
            caller == old(self).vault_id() <==> r is Ok,
            r is Err ==> *final(self) == *old(self),
            r is Ok ==> {
                &&& final(self).paused_spec()
                &&& final(self).token() == old(self).token()
                &&& final(self).rate_spec() == old(self).rate_spec()
                &&& final(self).backing() == old(self).backing()
                &&& final(self).vault_id() == old(self).vault_id()
                &&& final(self).log() == old(self).log().push(TokenEvent::Paused { timestamp: now })
            },
    {
        if caller != self.vault {
            return Err(VaultError::Unauthorized);
        }
        self.paused = true;
        self.events.push(TokenEvent::Paused { timestamp: now });
        Ok(())
    }

    /// Resumes holder operations and minting (vault only).
    pub fn unpause(&mut self, caller: Address, now: u64) -> (r: Result<(), VaultError>)
        requires
            old(self).wf(),
        ensures
            final(self).wf(),
            caller != old(self).vault_id() <==> r == Err::<(), VaultError>(VaultError::Unauthorized),
            caller == old(self).vault_id() <==> r is Ok,
            r is Err ==> *final(self) == *old(self),
            r is Ok ==> {
                &&& !final(self).paused_spec()
                &&& final(self).token() == old(self).token()
                &&& final(self).rate_spec() == old(self).rate_spec()
                &&& final(self).backing() == old(self).backing()
                &&& final(self).vault_id() == old(self).vault_id()
                &&& final(self).log() == old(self).log().push(TokenEvent::Unpaused { timestamp: now })
            },
    {
        if caller != self.vault {
            return Err(VaultError::Unauthorized);
        }
        self.paused = false;
        self.events.push(TokenEvent::Unpaused { timestamp: now });
        Ok(())
    }
}

} // verus!
