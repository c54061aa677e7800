//! The withdrawal queue: an append-only log of time-locked redemption
//! requests, and for each requester the ordered list of its request ids.
use vstd::prelude::*;
use crate::types::{Address, VaultError};

verus! {

/// A redemption request: claim units burned, the base amount owed at the
/// rate of the request, and when it may be claimed.
#[derive(Clone, Copy, PartialEq, Eq, Structural, Debug)]
pub struct WithdrawalRequest {
    pub user: Address,
    pub stcspr_amount: u128,
    pub cspr_amount: u128,
    pub request_time: u64,
    pub unlock_time: u64,
    pub is_claimed: bool,
}

/// The ids of the requests of `reqs` made by `user`, in increasing order.
pub open spec fn ids_of(reqs: Seq<WithdrawalRequest>, user: Address) -> Seq<u64>
    decreases reqs.len(),
{
    if reqs.len() == 0 {
        Seq::empty()
    } else if reqs.last().user == user {
        ids_of(reqs.drop_last(), user).push((reqs.len() - 1) as u64)
    } else {
        ids_of(reqs.drop_last(), user)
    }
}

/// The ids that `index` lists for `user`; empty where it has no entry.
pub open spec fn listed_ids(index: Seq<(Address, Seq<u64>)>, user: Address) -> Seq<u64>
    decreases index.len(),
{
    if index.len() == 0 {
        Seq::empty()
    } else if index.last().0 == user {
        index.last().1
    } else {
        listed_ids(index.drop_last(), user)
    }
}

/// Each user has at most one entry in `index`.
pub open spec fn users_unique(index: Seq<(Address, Seq<u64>)>) -> bool {
    forall|i: int, j: int| 0 <= i < j < index.len() ==> index[i].0 != index[j].0
}

/// What claiming request `id` by `caller` at time `now` gives, with
/// `available` base units liquid: the amount owed, or the first failure in
/// the order unknown id, wrong requester, claimed already, still locked,
/// not enough liquidity.
pub open spec fn claim_decision(
    reqs: Seq<WithdrawalRequest>,
    id: u64,
    caller: Address,
    now: u64,
    available: int,
) -> Result<u128, VaultError> {
    if id >= reqs.len() {
        Err(VaultError::NotFound)
    } else {
        let r = reqs[id as int];
        if r.user != caller {
            Err(VaultError::NotOwner)
        } else if r.is_claimed {
            Err(VaultError::AlreadyClaimed)
        } else if now < r.unlock_time {
            Err(VaultError::StillLocked)
        } else if r.cspr_amount > available {
            Err(VaultError::InsufficientLiquidity)
        } else {
            Ok(r.cspr_amount)
        }
    }
}

/// The time lock of a pending request of `caller`: a claim before its
/// unlock time fails with `StillLocked`; one at or after it, with the payout
/// liquid, succeeds; and once it has succeeded, every later claim fails with
/// `AlreadyClaimed`.
pub proof fn lemma_claim_time_lock(
    reqs: Seq<WithdrawalRequest>,
    id: u64,
    caller: Address,
    now: u64,
    available: int,
    later: u64,
    available_later: int,
)
    requires
        id < reqs.len(),
        reqs[id as int].user == caller,
        !reqs[id as int].is_claimed,
    ensures
        now < reqs[id as int].unlock_time ==> claim_decision(reqs, id, caller, now, available)
            == Err::<u128, VaultError>(VaultError::StillLocked),
        now >= reqs[id as int].unlock_time && reqs[id as int].cspr_amount <= available
            ==> claim_decision(reqs, id, caller, now, available) == Ok::<u128, VaultError>(
            reqs[id as int].cspr_amount,
        ),
        claim_decision(
            reqs.update(id as int, WithdrawalRequest { is_claimed: true, ..reqs[id as int] }),
            id,
            caller,
            later,
            available_later,
        ) == Err::<u128, VaultError>(VaultError::AlreadyClaimed),
{
}

proof fn lemma_listed_at(index: Seq<(Address, Seq<u64>)>, i: int)
    requires
        users_unique(index),
        0 <= i < index.len(),
    ensures
        listed_ids(index, index[i].0) == index[i].1,
    decreases index.len(),
{
    if i != index.len() - 1 {
        lemma_listed_at(index.drop_last(), i);
    }
}

proof fn lemma_listed_absent(index: Seq<(Address, Seq<u64>)>, u: Address)
    requires
        forall|i: int| 0 <= i < index.len() ==> index[i].0 != u,
    ensures
        listed_ids(index, u) == Seq::<u64>::empty(),
    decreases index.len(),
{
    if index.len() > 0 {
        lemma_listed_absent(index.drop_last(), u);
    }
}

proof fn lemma_ids_keep_users(reqs: Seq<WithdrawalRequest>, i: int, r: WithdrawalRequest, u: Address)
    requires
        0 <= i < reqs.len(),
        r.user == reqs[i].user,
    ensures
        ids_of(reqs.update(i, r), u) == ids_of(reqs, u),
    decreases reqs.len(),
{
    let t = reqs.update(i, r);
    if i == reqs.len() - 1 {
        assert(t.drop_last() =~= reqs.drop_last());
    } else {
        assert(t.drop_last() =~= reqs.drop_last().update(i, r));
        lemma_ids_keep_users(reqs.drop_last(), i, r, u);
    }
}

/// Requests and the per-user index, with the unbonding period fixed at creation.
pub struct WithdrawalQueue {
    requests: Vec<WithdrawalRequest>,
    index: Vec<(Address, Vec<u64>)>,
    unbonding_period: u64,
}

impl WithdrawalQueue {
    /// All requests, the position of each being its id.
    pub closed spec fn requests(&self) -> Seq<WithdrawalRequest> {
        self.requests@
    }

    /// The delay between a request and its unlock time.
    pub closed spec fn period(&self) -> u64 {
        self.unbonding_period
    }

    closed spec fn index_view(&self) -> Seq<(Address, Seq<u64>)> {
        self.index@.map_values(|e: (Address, Vec<u64>)| (e.0, e.1@))
    }

    /// The request ids of `user`, oldest first.
    pub closed spec fn user_ids(&self, user: Address) -> Seq<u64> {
        listed_ids(self.index_view(), user)
    }

    /// Well-formedness: ids fit in `u64`, and the index lists for each user
    /// exactly the ids of its requests, in increasing order.
    pub closed spec fn wf(&self) -> bool {
        &&& self.requests@.len() < u64::MAX
        &&& users_unique(self.index_view())
        &&& forall|u: Address| #[trigger] listed_ids(self.index_view(), u) == ids_of(self.requests@, u)
    }

    /// An empty queue whose requests unlock `unbonding_period` after they are made.
    pub fn new(unbonding_period: u64) -> (r: WithdrawalQueue)
        ensures
            r.wf(),
            r.requests() == Seq::<WithdrawalRequest>::empty(),
            r.period() == unbonding_period,
    {
        let r = WithdrawalQueue { requests: Vec::new(), index: Vec::new(), unbonding_period };
        proof {
            assert(r.index_view() =~= Seq::<(Address, Seq<u64>)>::empty());
        }
        r
    }

    /// The delay between a request and its unlock time.
    pub fn unbonding_period(&self) -> (r: u64)
        ensures
            r == self.period(),
    {
        self.unbonding_period
    }

    /// The id that the next request will get.
    pub fn next_id(&self) -> (r: u64)
        requires
            self.wf(),
        ensures
            r == self.requests().len(),
    {
        self.requests.len() as u64
    }

    /// The request with id `id`, if there is one.
    pub fn get(&self, id: u64) -> (r: Option<WithdrawalRequest>)
        ensures
            id < self.requests().len() ==> r == Some(self.requests()[id as int]),
            id >= self.requests().len() ==> r is None,
    {
        if id < self.requests.len() as u64 {
            Some(self.requests[id as usize])
        } else {
            None
        }
    }

    fn find_user(&self, user: Address) -> (r: Option<usize>)
        ensures
            r matches Some(i) ==> i < self.index@.len() && self.index@[i as int].0 == user,
            r is None ==> forall|i: int| 0 <= i < self.index@.len() ==> self.index@[i].0 != user,
    {
        let mut i: usize = 0;
        while i < self.index.len()
            invariant
                i <= self.index@.len(),
                forall|j: int| 0 <= j < i ==> self.index@[j].0 != user,
            decreases self.index@.len() - i,
        {
            if self.index[i].0 == user {
                return Some(i);
            }
            i = i + 1;
        }
        None
    }

    /// The ids of the requests of `user`, oldest first.
    pub fn user_withdrawals(&self, user: Address) -> (r: Vec<u64>)
        requires
            self.wf(),
        ensures
            r@ == ids_of(self.requests(), user),
    {
        match self.find_user(user) {
            Some(i) => {
                proof {
                    lemma_listed_at(self.index_view(), i as int);
                }
                self.index[i].1.clone()
            },
            None => {
                proof {
                    lemma_listed_absent(self.index_view(), user);
                }
                Vec::new()
            },
        }
    }

    /// Appends a request of `user`, who burned `stcspr_amount` claim units
    /// for `cspr_amount` base units at time `now`, and returns its id. Fails
    /// with `Overflow` before any change when the unlock time or the id would
    /// not fit.
    pub fn request(
        &mut self,
        user: Address,
        stcspr_amount: u128,
        cspr_amount: u128,
        now: u64,
    ) -> (r: Result<u64, VaultError>)
        requires
            old(self).wf(),
        ensures
            final(self).wf(),
            final(self).period() == old(self).period(),
            now + old(self).period() > u64::MAX || old(self).requests().len() + 1 >= u64::MAX
                <==> r is Err,
            r is Err ==> r == Err::<u64, VaultError>(VaultError::Overflow),
            r is Err ==> *final(self) == *old(self),
            r matches Ok(id) ==> {
                &&& id == old(self).requests().len()
                &&& final(self).requests() == old(self).requests().push(
                    WithdrawalRequest {
                        user,
                        stcspr_amount,
                        cspr_amount,
                        request_time: now,
                        unlock_time: (now + old(self).period()) as u64,
                        is_claimed: false,
                    },
                )
            },
    {
        if self.requests.len() as u64 >= u64::MAX - 1 {
            return Err(VaultError::Overflow);
        }
        let unlock_time = match now.checked_add(self.unbonding_period) {
            None => return Err(VaultError::Overflow),
            Some(t) => t,
        };
        let id = self.requests.len() as u64;
        let ghost old_reqs = self.requests@;
        let ghost old_view = self.index_view();
        self.requests.push(
            WithdrawalRequest {
                user,
                stcspr_amount,
                cspr_amount,
                request_time: now,
                unlock_time,
                is_claimed: false,
            },
        );
        let ghost new_reqs = self.requests@;
        proof {
            assert(new_reqs.drop_last() =~= old_reqs);
            assert forall|u: Address| u != user implies #[trigger] ids_of(new_reqs, u) == ids_of(old_reqs, u) by {}
            assert(ids_of(new_reqs, user) == ids_of(old_reqs, user).push(id));
        }
        match self.find_user(user) {
            Some(i) => {
                proof {
                    lemma_listed_at(old_view, i as int);
                }
                self.index[i].1.push(id);
                proof {
                    let v = self.index_view();
                    assert(v =~= old_view.update(i as int, (user, ids_of(new_reqs, user))));
                    assert forall|j: int, k: int| 0 <= j < k < v.len() implies v[j].0 != v[k].0 by {
                        assert(v[j].0 == old_view[j].0 && v[k].0 == old_view[k].0);
                    }
                    assert forall|u: Address| #[trigger] listed_ids(v, u) == ids_of(new_reqs, u) by {
                        if u == user {
                            lemma_listed_at(v, i as int);
                        } else if exists|j: int| 0 <= j < old_view.len() && old_view[j].0 == u {
                            let j = choose|j: int| 0 <= j < old_view.len() && old_view[j].0 == u;
                            lemma_listed_at(old_view, j);
                            lemma_listed_at(v, j);
                        } else {
                            lemma_listed_absent(old_view, u);
                            lemma_listed_absent(v, u);
                        }
                    }
                }
            },
            None => {
                proof {
                    assert forall|j: int| 0 <= j < old_view.len() implies old_view[j].0 != user by {
                        assert(old_view[j].0 == self.index@[j].0);
                    }
                    lemma_listed_absent(old_view, user);
                }
                let mut ids: Vec<u64> = Vec::new();
                ids.push(id);
                self.index.push((user, ids));
                proof {
                    let v = self.index_view();
                    assert(v =~= old_view.push((user, ids_of(new_reqs, user))));
                    assert(v.drop_last() =~= old_view);
                    assert forall|u: Address| #[trigger] listed_ids(v, u) == ids_of(new_reqs, u) by {
                        if u != user {
                            assert(listed_ids(v, u) == listed_ids(old_view, u));
                        }
                    }
                }
            },
        }
        Ok(id)
    }

    /// Claims request `id` for `caller` at time `now`, with `available` base
    /// units liquid: marks it claimed and returns the amount owed, or fails
    /// as `claim_decision` says, before any change.
    pub fn claim(&mut self, id: u64, caller: Address, now: u64, available: u128) -> (r: Result<
        u128,
        VaultError,
    >)
        requires
            old(self).wf(),
        ensures
            final(self).wf(),
            r == claim_decision(old(self).requests(), id, caller, now, available as int),
            r is Err ==> *final(self) == *old(self),
            r is Ok ==> final(self).requests() == old(self).requests().update(
                id as int,
                WithdrawalRequest { is_claimed: true, ..old(self).requests()[id as int] },
            ),
            final(self).period() == old(self).period(),
    {
        if id >= self.requests.len() as u64 {
            return Err(VaultError::NotFound);
        }
        let req = self.requests[id as usize];
        if req.user != caller {
            return Err(VaultError::NotOwner);
        }
        if req.is_claimed {
            return Err(VaultError::AlreadyClaimed);
        }
        if now < req.unlock_time {
            return Err(VaultError::StillLocked);
        }
        if req.cspr_amount > available {
            return Err(VaultError::InsufficientLiquidity);
        }
        let ghost old_reqs = self.requests@;
        let claimed = WithdrawalRequest { is_claimed: true, ..req };
        self.requests.set(id as usize, claimed);
        proof {
            assert forall|u: Address| #[trigger] ids_of(self.requests@, u) == ids_of(old_reqs, u) by {
                lemma_ids_keep_users(old_reqs, id as int, claimed, u);
            }
        }
        Ok(req.cspr_amount)
    }
}

} // verus!
