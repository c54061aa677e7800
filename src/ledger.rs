//! The claim-token ledger: balances, allowances and the total supply, with
//! the supply equal to the sum of all balances in every state.
use vstd::prelude::*;
use crate::types::{Address, VaultError};

verus! {

/// The balance that `s` records for `a`; zero where `a` has no entry.
pub open spec fn balance_in(s: Seq<(Address, u128)>, a: Address) -> nat
    decreases s.len(),
{
    if s.len() == 0 {
        0
    } else if s.last().0 == a {
        s.last().1 as nat
    } else {
        balance_in(s.drop_last(), a)
    }
}

/// The sum of all balances in `s`.
pub open spec fn sum_balances(s: Seq<(Address, u128)>) -> nat
    decreases s.len(),
{
    if s.len() == 0 {
        0
    } else {
        sum_balances(s.drop_last()) + s.last().1 as nat
    }
}

/// Each holder has at most one entry.
pub open spec fn holders_unique(s: Seq<(Address, u128)>) -> bool {
    forall|i: int, j: int| 0 <= i < j < s.len() ==> s[i].0 != s[j].0
}

/// The amount that `s` lets `spender` move from `owner`; zero where none is recorded.
pub open spec fn allowance_in(s: Seq<(Address, Address, u128)>, owner: Address, spender: Address) -> nat
    decreases s.len(),
{
    if s.len() == 0 {
        0
    } else if s.last().0 == owner && s.last().1 == spender {
        s.last().2 as nat
    } else {
        allowance_in(s.drop_last(), owner, spender)
    }
}

/// Each (owner, spender) pair has at most one entry.
pub open spec fn pairs_unique(s: Seq<(Address, Address, u128)>) -> bool {
    forall|i: int, j: int|
        0 <= i < j < s.len() ==> !(s[i].0 == s[j].0 && s[i].1 == s[j].1)
}

proof fn lemma_balance_at(s: Seq<(Address, u128)>, i: int)
    requires
        holders_unique(s),
        0 <= i < s.len(),
    ensures
        balance_in(s, s[i].0) == s[i].1,
    decreases s.len(),
{
    if i != s.len() - 1 {
        lemma_balance_at(s.drop_last(), i);
    }
}

proof fn lemma_balance_absent(s: Seq<(Address, u128)>, a: Address)
    requires
        forall|i: int| 0 <= i < s.len() ==> s[i].0 != a,
    ensures
        balance_in(s, a) == 0,
    decreases s.len(),
{
    if s.len() > 0 {
        lemma_balance_absent(s.drop_last(), a);
    }
}

proof fn lemma_sum_update(s: Seq<(Address, u128)>, i: int, e: (Address, u128))
    requires
        0 <= i < s.len(),
    ensures
        sum_balances(s.update(i, e)) == sum_balances(s) - s[i].1 + e.1,
    decreases s.len(),
{
    let t = s.update(i, e);
    if i == s.len() - 1 {
        assert(t.drop_last() =~= s.drop_last());
    } else {
        assert(t.drop_last() =~= s.drop_last().update(i, e));
        lemma_sum_update(s.drop_last(), i, e);
    }
}

proof fn lemma_sum_push(s: Seq<(Address, u128)>, e: (Address, u128))
    ensures
        sum_balances(s.push(e)) == sum_balances(s) + e.1,
{
    assert(s.push(e).drop_last() =~= s);
}

proof fn lemma_balance_le_sum(s: Seq<(Address, u128)>, a: Address)
    ensures
        balance_in(s, a) <= sum_balances(s),
    decreases s.len(),
{
    if s.len() > 0 {
        lemma_balance_le_sum(s.drop_last(), a);
    }
}

proof fn lemma_allowance_at(s: Seq<(Address, Address, u128)>, i: int)
    requires
        pairs_unique(s),
        0 <= i < s.len(),
    ensures
        allowance_in(s, s[i].0, s[i].1) == s[i].2,
    decreases s.len(),
{
    if i != s.len() - 1 {
        lemma_allowance_at(s.drop_last(), i);
    }
}

proof fn lemma_allowance_absent(s: Seq<(Address, Address, u128)>, o: Address, p: Address)
    requires
        forall|i: int| 0 <= i < s.len() ==> !(s[i].0 == o && s[i].1 == p),
    ensures
        allowance_in(s, o, p) == 0,
    decreases s.len(),
{
    if s.len() > 0 {
        lemma_allowance_absent(s.drop_last(), o, p);
    }
}

/// Balances, allowances and total supply of the claim token.
pub struct Ledger {
    accounts: Vec<(Address, u128)>,
    allowances: Vec<(Address, Address, u128)>,
    total_supply: u128,
}

impl Ledger {
    /// One entry per holder: the holder and its balance.
    pub closed spec fn accounts(&self) -> Seq<(Address, u128)> {
        self.accounts@
    }

    /// One entry per (owner, spender) pair: the pair and the approved amount.
    pub closed spec fn approvals(&self) -> Seq<(Address, Address, u128)> {
        self.allowances@
    }

    /// The recorded total supply.
    pub closed spec fn supply(&self) -> nat {
        self.total_supply as nat
    }

    /// The balance of `a`.
    pub open spec fn balance(&self, a: Address) -> nat {
        balance_in(self.accounts(), a)
    }

    /// The amount `spender` may move on behalf of `owner`.
    pub open spec fn allowance_spec(&self, owner: Address, spender: Address) -> nat {
        allowance_in(self.approvals(), owner, spender)
    }

    /// Well-formedness: unique entries, and the supply equals the sum of all balances.
    pub open spec fn wf(&self) -> bool {
        &&& holders_unique(self.accounts())
        &&& pairs_unique(self.approvals())
        &&& self.supply() == sum_balances(self.accounts())
    }

    /// Every balance other than those of `a` and `b` is the same in `self` and `other`.
    pub open spec fn same_balances_except(&self, other: &Ledger, a: Address, b: Address) -> bool {
        forall|x: Address| x != a && x != b ==> #[trigger] other.balance(x) == self.balance(x)
    }

    /// Every allowance is the same in `self` and `other`.
    pub open spec fn same_allowances(&self, other: &Ledger) -> bool {
        forall|o: Address, p: Address| #[trigger] other.allowance_spec(o, p) == self.allowance_spec(o, p)
    }

    /// `self` is `before` with `amount` moved from `from` to `to`.
    pub open spec fn moved(&self, before: &Ledger, from: Address, to: Address, amount: u128) -> bool {
        &&& self.supply() == before.supply()
        &&& self.balance(from) == before.balance(from) - amount
        &&& self.balance(to) == before.balance(to) + amount
        &&& before.same_balances_except(self, from, to)
    }

    /// What a transfer of `amount` from `from` to `to` gives: success, or the
    /// first failure in the order zero amount, same identity, balance too small.
    pub open spec fn transfer_outcome(&self, from: Address, to: Address, amount: u128) -> Result<(), VaultError> {
        if amount == 0 {
            Err(VaultError::InvalidAmount)
        } else if from == to {
            Err(VaultError::SelfTransfer)
        } else if self.balance(from) < amount {
            Err(VaultError::InsufficientBalance)
        } else {
            Ok(())
        }
    }

    /// What a transfer of `amount` from `owner` to `to` by `spender` gives:
    /// success, or the first failure in the order zero amount, same identity,
    /// allowance too small, balance too small.
    pub open spec fn transfer_from_outcome(&self, spender: Address, owner: Address, to: Address, amount: u128) -> Result<
        (),
        VaultError,
    > {
        if amount == 0 {
            Err(VaultError::InvalidAmount)
        } else if owner == to {
            Err(VaultError::SelfTransfer)
        } else if self.allowance_spec(owner, spender) < amount {
            Err(VaultError::InsufficientAllowance)
        } else if self.balance(owner) < amount {
            Err(VaultError::InsufficientBalance)
        } else {
            Ok(())
        }
    }

    /// Every allowance but that of (`owner`, `spender`) is the same in `self` and `other`.
    pub open spec fn same_allowances_except(&self, other: &Ledger, owner: Address, spender: Address) -> bool {
        forall|o: Address, p: Address|
            !(o == owner && p == spender) ==> #[trigger] other.allowance_spec(o, p) == self.allowance_spec(o, p)
    }

    /// An empty ledger.
    pub fn new() -> (r: Ledger)
        ensures
            r.wf(),
            r.supply() == 0,
            forall|a: Address| #[trigger] r.balance(a) == 0,
            forall|o: Address, p: Address| #[trigger] r.allowance_spec(o, p) == 0,
    {
        Ledger { accounts: Vec::new(), allowances: Vec::new(), total_supply: 0 }
    }

    fn find_account(&self, a: Address) -> (r: Option<usize>)
        ensures
            r matches Some(i) ==> i < self.accounts().len() && self.accounts()[i as int].0 == a,
            r is None ==> forall|i: int| 0 <= i < self.accounts().len() ==> self.accounts()[i].0 != a,
    {
        let mut i: usize = 0;
        while i < self.accounts.len()
            invariant
                i <= self.accounts@.len(),
                forall|j: int| 0 <= j < i ==> self.accounts@[j].0 != a,
            decreases self.accounts@.len() - i,
        {
            if self.accounts[i].0 == a {
                return Some(i);
            }
            i = i + 1;
        }
        None
    }

    fn find_allowance(&self, owner: Address, spender: Address) -> (r: Option<usize>)
        ensures
            r matches Some(i) ==> i < self.approvals().len() && self.approvals()[i as int].0 == owner
                && self.approvals()[i as int].1 == spender,
            r is None ==> forall|i: int|
                0 <= i < self.approvals().len() ==> !(self.approvals()[i].0 == owner
                    && self.approvals()[i].1 == spender),
    {
        let mut i: usize = 0;
        while i < self.allowances.len()
            invariant
                i <= self.allowances@.len(),
                forall|j: int|
                    0 <= j < i ==> !(self.allowances@[j].0 == owner && self.allowances@[j].1 == spender),
            decreases self.allowances@.len() - i,
        {
            if self.allowances[i].0 == owner && self.allowances[i].1 == spender {
                return Some(i);
            }
            i = i + 1;
        }
        None
    }

    /// The balance of `owner`.
    pub fn balance_of(&self, owner: Address) -> (r: u128)
        requires
            self.wf(),
        ensures
            r == self.balance(owner),
    {
        match self.find_account(owner) {
            Some(i) => {
                proof {
                    lemma_balance_at(self.accounts(), i as int);
                }
                self.accounts[i].1
            },
            None => {
                proof {
                    lemma_balance_absent(self.accounts(), owner);
                }
                0
            },
        }
    }

    /// The amount `spender` may move on behalf of `owner`.
    pub fn allowance(&self, owner: Address, spender: Address) -> (r: u128)
        requires
            self.wf(),
        ensures
            r == self.allowance_spec(owner, spender),
    {
        match self.find_allowance(owner, spender) {
            Some(i) => {
                proof {
                    lemma_allowance_at(self.approvals(), i as int);
                }
                self.allowances[i].2
            },
            None => {
                proof {
                    lemma_allowance_absent(self.approvals(), owner, spender);
                }
                0
            },
        }
    }

    /// The total supply.
    pub fn total_supply(&self) -> (r: u128)
        ensures
            r == self.supply(),
    {
        self.total_supply
    }

    /// Sets the balance of `a` to `v`, leaving the recorded supply as it is.
    fn set_balance(&mut self, a: Address, v: u128)
        requires
            holders_unique(old(self).accounts()),
        ensures
            holders_unique(final(self).accounts()),
            final(self).balance(a) == v,
            forall|x: Address| x != a ==> #[trigger] final(self).balance(x) == old(self).balance(x),
            sum_balances(final(self).accounts()) == sum_balances(old(self).accounts()) - old(
                self,
            ).balance(a) + v,
            final(self).supply() == old(self).supply(),
            final(self).approvals() == old(self).approvals(),
    {
        let ghost s = self.accounts@;
        match self.find_account(a) {
            Some(i) => {
                proof {
                    lemma_balance_at(s, i as int);
                    lemma_sum_update(s, i as int, (a, v));
                }
                self.accounts.set(i, (a, v));
                proof {
                    let t = self.accounts@;
                    assert(t == s.update(i as int, (a, v)));
                    assert forall|j: int, k: int| 0 <= j < k < t.len() implies t[j].0 != t[k].0 by {
                        assert(t[j].0 == s[j].0 && t[k].0 == s[k].0);
                    }
                    lemma_balance_at(t, i as int);
                    assert forall|x: Address| x != a implies #[trigger] balance_in(t, x) == balance_in(s, x) by {
                        if exists|j: int| 0 <= j < s.len() && s[j].0 == x {
                            let j = choose|j: int| 0 <= j < s.len() && s[j].0 == x;
                            lemma_balance_at(s, j);
                            lemma_balance_at(t, j);
                        } else {
                            lemma_balance_absent(s, x);
                            lemma_balance_absent(t, x);
                        }
                    }
                }
            },
            None => {
                proof {
                    lemma_balance_absent(s, a);
                    lemma_sum_push(s, (a, v));
                }
                self.accounts.push((a, v));
                proof {
                    let t = self.accounts@;
                    assert(t == s.push((a, v)));
                    assert(t.drop_last() =~= s);
                    assert forall|x: Address| x != a implies #[trigger] balance_in(t, x) == balance_in(s, x) by {
                    }
                }
            },
        }
    }

    /// Sets the allowance of (`owner`, `spender`) to `v`.
    fn set_allowance(&mut self, owner: Address, spender: Address, v: u128)
        requires
            pairs_unique(old(self).approvals()),
        ensures
            pairs_unique(final(self).approvals()),
            final(self).allowance_spec(owner, spender) == v,
            forall|o: Address, p: Address|
                !(o == owner && p == spender) ==> #[trigger] final(self).allowance_spec(o, p)
                    == old(self).allowance_spec(o, p),
            final(self).accounts() == old(self).accounts(),
            final(self).supply() == old(self).supply(),
    {
        let ghost s = self.allowances@;
        match self.find_allowance(owner, spender) {
            Some(i) => {
                self.allowances.set(i, (owner, spender, v));
                proof {
                    let t = self.allowances@;
                    assert(t == s.update(i as int, (owner, spender, v)));
                    assert forall|j: int, k: int| 0 <= j < k < t.len() implies !(t[j].0 == t[k].0
                        && t[j].1 == t[k].1) by {
                        assert(t[j].0 == s[j].0 && t[k].0 == s[k].0);
                        assert(t[j].1 == s[j].1 && t[k].1 == s[k].1);
                    }
                    lemma_allowance_at(t, i as int);
                    assert forall|o: Address, p: Address| !(o == owner && p == spender) implies #[trigger] allowance_in(t, o, p)
                        == allowance_in(s, o, p) by {
                        if exists|j: int| 0 <= j < s.len() && s[j].0 == o && s[j].1 == p {
                            let j = choose|j: int| 0 <= j < s.len() && s[j].0 == o && s[j].1 == p;
                            lemma_allowance_at(s, j);
                            lemma_allowance_at(t, j);
                        } else {
                            lemma_allowance_absent(s, o, p);
                            lemma_allowance_absent(t, o, p);
                        }
                    }
                }
            },
            None => {
                self.allowances.push((owner, spender, v));
                proof {
                    let t = self.allowances@;
                    assert(t == s.push((owner, spender, v)));
                    assert(t.drop_last() =~= s);
                    assert forall|o: Address, p: Address| !(o == owner && p == spender) implies #[trigger] allowance_in(t, o, p)
                        == allowance_in(s, o, p) by {
                    }
                }
            },
        }
    }

    /// Moves `amount` from `from` to `to`.
    fn move_balance(&mut self, from: Address, to: Address, amount: u128)
        requires
            old(self).wf(),
            from != to,
            old(self).balance(from) >= amount,
        ensures
            final(self).wf(),
            final(self).supply() == old(self).supply(),
            final(self).balance(from) == old(self).balance(from) - amount,
            final(self).balance(to) == old(self).balance(to) + amount,
            old(self).same_balances_except(final(self), from, to),
            final(self).approvals() == old(self).approvals(),
    {
        let from_balance = self.balance_of(from);
        let to_balance = self.balance_of(to);
        self.set_balance(from, from_balance - amount);
        proof {
            lemma_balance_le_sum(self.accounts(), to);
            assert(self.balance(to) == to_balance);
            assert(sum_balances(self.accounts()) == self.supply() - amount);
        }
        self.set_balance(to, to_balance + amount);
    }

    /// Creates `amount` new units in the balance of `to`.
    pub fn mint(&mut self, to: Address, amount: u128) -> (r: Result<(), VaultError>)
        requires
            old(self).wf(),
        ensures
            final(self).wf(),
            amount == 0 ==> r == Err::<(), VaultError>(VaultError::InvalidAmount),
            amount > 0 && old(self).supply() + amount > u128::MAX ==> r == Err::<(), VaultError>(
                VaultError::Overflow,
            ),
            amount > 0 && old(self).supply() + amount <= u128::MAX ==> r is Ok,
            r is Err ==> *final(self) == *old(self),
            r is Ok ==> {
                &&& final(self).supply() == old(self).supply() + amount
                &&& final(self).balance(to) == old(self).balance(to) + amount
                &&& old(self).same_balances_except(final(self), to, to)
                &&& old(self).same_allowances(final(self))
            },
    {
        if amount == 0 {
            return Err(VaultError::InvalidAmount);
        }
        if amount > u128::MAX - self.total_supply {
            return Err(VaultError::Overflow);
        }
        let balance = self.balance_of(to);
        proof {
            lemma_balance_le_sum(self.accounts(), to);
        }
        self.total_supply = self.total_supply + amount;
        self.set_balance(to, balance + amount);
        Ok(())
    }

    /// Destroys `amount` units of the balance of `from`.
    pub fn burn(&mut self, from: Address, amount: u128) -> (r: Result<(), VaultError>)
        requires
            old(self).wf(),
        ensures
            final(self).wf(),
            amount == 0 ==> r == Err::<(), VaultError>(VaultError::InvalidAmount),
            amount > 0 && old(self).balance(from) < amount ==> r == Err::<(), VaultError>(
                VaultError::InsufficientBalance,
            ),
            amount > 0 && old(self).balance(from) >= amount ==> r is Ok,
            r is Err ==> *final(self) == *old(self),
            r is Ok ==> {
                &&& final(self).supply() == old(self).supply() - amount
                &&& final(self).balance(from) == old(self).balance(from) - amount
                &&& old(self).same_balances_except(final(self), from, from)
                &&& old(self).same_allowances(final(self))
            },
    {
        if amount == 0 {
            return Err(VaultError::InvalidAmount);
        }
        let balance = self.balance_of(from);
        if balance < amount {
            return Err(VaultError::InsufficientBalance);
        }
        proof {
            lemma_balance_le_sum(self.accounts(), from);
        }
        self.total_supply = self.total_supply - amount;
        self.set_balance(from, balance - amount);
        Ok(())
    }

    /// Moves `amount` from the balance of `from` to that of `to`.
    pub fn transfer(&mut self, from: Address, to: Address, amount: u128) -> (r: Result<
        (),
        VaultError,
    >)
        requires
            old(self).wf(),
        ensures
            final(self).wf(),
            r == old(self).transfer_outcome(from, to, amount),
            r is Err ==> *final(self) == *old(self),
            r is Ok ==> final(self).moved(old(self), from, to, amount) && old(self).same_allowances(
                final(self),
            ),
    {
        if amount == 0 {
            return Err(VaultError::InvalidAmount);
        }
        if from == to {
            return Err(VaultError::SelfTransfer);
        }
        if self.balance_of(from) < amount {
            return Err(VaultError::InsufficientBalance);
        }
        self.move_balance(from, to, amount);
        Ok(())
    }

    /// Lets `spender` move up to `amount` on behalf of `owner`, replacing any
    /// earlier approval.
    pub fn approve(&mut self, owner: Address, spender: Address, amount: u128) -> (r: Result<
        (),
        VaultError,
    >)
        requires
            old(self).wf(),
        ensures
            final(self).wf(),
            owner == spender <==> r == Err::<(), VaultError>(VaultError::SelfApproval),
            owner != spender <==> r is Ok,
            r is Err ==> *final(self) == *old(self),
            r is Ok ==> {
                &&& final(self).allowance_spec(owner, spender) == amount
                &&& old(self).same_allowances_except(final(self), owner, spender)
                &&& final(self).accounts() == old(self).accounts()
                &&& final(self).supply() == old(self).supply()
            },
    {
        if owner == spender {
            return Err(VaultError::SelfApproval);
        }
        self.set_allowance(owner, spender, amount);
        Ok(())
    }

    /// `spender` moves `amount` from `owner` to `to` out of its allowance.
    pub fn transfer_from(&mut self, spender: Address, owner: Address, to: Address, amount: u128) -> (r:
        Result<(), VaultError>)
        requires
            old(self).wf(),
        ensures
            final(self).wf(),
            r == old(self).transfer_from_outcome(spender, owner, to, amount),
            r is Err ==> *final(self) == *old(self),
            r is Ok ==> {
                &&& final(self).moved(old(self), owner, to, amount)
                &&& final(self).allowance_spec(owner, spender) == old(self).allowance_spec(
                    owner,
                    spender,
                ) - amount
                &&& old(self).same_allowances_except(final(self), owner, spender)
            },
    {
        if amount == 0 {
            return Err(VaultError::InvalidAmount);
        }
        if owner == to {
            return Err(VaultError::SelfTransfer);
        }
        let approved = self.allowance(owner, spender);
        if approved < amount {
            return Err(VaultError::InsufficientAllowance);
        }
        if self.balance_of(owner) < amount {
            return Err(VaultError::InsufficientBalance);
        }
        let ghost before = *self;
        self.set_allowance(owner, spender, approved - amount);
        let ghost approved_state = *self;
        self.move_balance(owner, to, amount);
        assert forall|o: Address, p: Address| #[trigger]
            self.allowance_spec(o, p) == approved_state.allowance_spec(o, p) by {}
        assert forall|x: Address| x != owner && x != to implies #[trigger] self.balance(x)
            == before.balance(x) by {
            assert(approved_state.balance(x) == before.balance(x));
        }
        Ok(())
    }
}

} // verus!
