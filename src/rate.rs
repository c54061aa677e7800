//! The rate accountant: the scaled exchange rate between the base asset and
//! the claim token, the conversions in both directions, and the fee split of
//! compounded yield.
use vstd::prelude::*;
use vstd::arithmetic::div_mod::{
    lemma_fundamental_div_mod,
    lemma_fundamental_div_mod_converse_div,
    lemma_multiply_divide_le,
    lemma_mod_bound,
    lemma_div_multiples_vanish,
};
use crate::types::VaultError;

verus! {

/// Fixed-point scale of the exchange rate: base units per claim unit, times `10^9`.
pub const RATE_SCALE: u128 = 1_000_000_000;

/// Basis points in one whole.
pub const BPS_DENOMINATOR: u32 = 10_000;

/// Claim units that `base` base units buy at `rate` (floor).
pub open spec fn claim_for_base(base: int, rate: int) -> int {
    base * RATE_SCALE / rate
}

/// Base units that `claim` claim units are worth at `rate` (floor).
pub open spec fn base_for_claim(claim: int, rate: int) -> int {
    claim * rate / RATE_SCALE as int
}

/// The rate at which `supply` claim units share `custody` base units (floor).
pub open spec fn rate_for(custody: int, supply: int) -> int {
    custody * RATE_SCALE / supply
}

/// The protocol's share of `amount` at `bps` basis points (floor).
pub open spec fn fee_of(amount: int, bps: int) -> int {
    amount * bps / BPS_DENOMINATOR as int
}

/// Splits `amount` into the fee at `fee_bps` basis points and the rest.
pub fn split_fee(amount: u128, fee_bps: u32) -> (r: (u128, u128))
    requires
        fee_bps <= BPS_DENOMINATOR,
    ensures
        r.0 == fee_of(amount as int, fee_bps as int),
        r.0 + r.1 == amount,
{
    let d: u128 = BPS_DENOMINATOR as u128;
    let b: u128 = fee_bps as u128;
    let q: u128 = amount / d;
    let rem: u128 = amount % d;
    proof {
        lemma_fundamental_div_mod(amount as int, d as int);
        assert(q * b <= q * d) by (nonlinear_arith)
            requires b <= d;
        assert(rem * b < d * d) by (nonlinear_arith)
            requires rem < d, b <= d;
    }
    let low: u128 = rem * b / d;
    proof {
        lemma_fundamental_div_mod((rem * b) as int, d as int);
        let x = amount as int * b as int;
        assert(x == (q * b + low) * d + (rem * b) % (d as int)) by (nonlinear_arith)
            requires
                amount == d * q + rem,
                rem * b == d * low + (rem * b) % (d as int),
                x == amount * b;
        lemma_fundamental_div_mod_converse_div(x, d as int, q * b + low, (rem * b) % (d as int));
        assert(x <= amount * d) by (nonlinear_arith)
            requires x == amount * b, b <= d;
        lemma_multiply_divide_le(x, d as int, amount as int);
    }
    let fee: u128 = q * b + low;
    (fee, amount - fee)
}

/// Converting base units to claim units and back never gives more than was
/// put in, and gives it all back at the initial rate.
pub proof fn lemma_round_trip(x: int, rate: int)
    requires
        x >= 0,
        rate > 0,
    ensures
        base_for_claim(claim_for_base(x, rate), rate) <= x,
        rate == RATE_SCALE ==> base_for_claim(claim_for_base(x, rate), rate) == x,
{
    let s = RATE_SCALE as int;
    let m = claim_for_base(x, rate);
    lemma_fundamental_div_mod(x * s, rate);
    lemma_mod_bound(x * s, rate);
    assert(m * rate <= x * s) by (nonlinear_arith)
        requires
            x * s == rate * m + (x * s) % rate,
            (x * s) % rate >= 0;
    assert(m >= 0) by (nonlinear_arith)
        requires x >= 0, rate > 0, s > 0, m == x * s / rate;
    lemma_multiply_divide_le(m * rate, s, x);
    if rate == s {
        lemma_div_multiples_vanish(x, s);
    }
}

/// Minting what `x` base units buy at `rate` keeps custody covering the supply.
pub proof fn lemma_mint_keeps_backing(custody: int, supply: int, rate: int, x: int)
    requires
        custody * RATE_SCALE >= rate * supply,
        rate > 0,
        x >= 0,
    ensures
        (custody + x) * RATE_SCALE >= rate * (supply + claim_for_base(x, rate)),
{
    let m = claim_for_base(x, rate);
    lemma_fundamental_div_mod(x * RATE_SCALE, rate);
    lemma_mod_bound(x * RATE_SCALE, rate);
    assert((custody + x) * RATE_SCALE >= rate * (supply + m)) by (nonlinear_arith)
        requires
            custody * RATE_SCALE >= rate * supply,
            x * RATE_SCALE == rate * m + (x * RATE_SCALE) % rate,
            (x * RATE_SCALE) % rate >= 0;
}

/// Burning `claim` of `supply` claim units against what they are worth at
/// `rate` takes no more than `custody` holds, and keeps custody covering
/// the rest of the supply.
pub proof fn lemma_burn_keeps_backing(custody: int, supply: int, rate: int, claim: int)
    requires
        custody * RATE_SCALE >= rate * supply,
        0 <= claim <= supply,
        rate >= 0,
    ensures
        base_for_claim(claim, rate) <= custody,
        (custody - base_for_claim(claim, rate)) * RATE_SCALE >= rate * (supply - claim),
{
    let s = RATE_SCALE as int;
    let x = claim * rate;
    let b = base_for_claim(claim, rate);
    lemma_fundamental_div_mod(x, s);
    lemma_mod_bound(x, s);
    assert(b * s <= x) by (nonlinear_arith)
        requires
            x == s * b + x % s,
            x % s >= 0;
    assert(x <= rate * supply) by (nonlinear_arith)
        requires x == claim * rate, claim <= supply, rate >= 0;
    assert(b <= custody) by (nonlinear_arith)
        requires b * s <= x, x <= rate * supply, custody * s >= rate * supply, s > 0;
    assert((custody - b) * s >= rate * (supply - claim)) by (nonlinear_arith)
        requires b * s <= x, x == claim * rate, custody * s >= rate * supply;
}

/// The custody covers the supply at the rate computed from them.
pub proof fn lemma_rebase_backs(custody: int, supply: int)
    requires
        custody >= 0,
        supply > 0,
    ensures
        custody * RATE_SCALE >= rate_for(custody, supply) * supply,
        rate_for(custody, supply) >= 0,
{
    let x = custody * RATE_SCALE;
    lemma_fundamental_div_mod(x, supply);
    lemma_mod_bound(x, supply);
    assert(x >= (x / supply) * supply) by (nonlinear_arith)
        requires
            x == supply * (x / supply) + x % supply,
            x % supply >= 0;
    assert(x / supply >= 0) by (nonlinear_arith)
        requires x >= 0, supply > 0, x == custody * RATE_SCALE;
}

/// The exchange rate, owned by the accountant and moved only by compounding.
pub struct RateAccountant {
    rate: u128,
}

impl RateAccountant {
    /// The current rate.
    pub closed spec fn rate_spec(&self) -> nat {
        self.rate as nat
    }

    /// A fresh accountant at one base unit per claim unit.
    pub fn new() -> (r: RateAccountant)
        ensures
            r.rate_spec() == RATE_SCALE,
    {
        RateAccountant { rate: RATE_SCALE }
    }

    /// The current rate.
    pub fn rate(&self) -> (r: u128)
        ensures
            r == self.rate_spec(),
    {
        self.rate
    }

    /// Converts a base amount to claim units at the current rate.
    pub fn to_claim_tokens(&self, base_amount: u128) -> (r: Result<u128, VaultError>)
        ensures
            self.rate_spec() == 0 ==> r == Err::<u128, VaultError>(VaultError::ZeroRate),
            self.rate_spec() > 0 && base_amount * RATE_SCALE > u128::MAX ==> r == Err::<
                u128,
                VaultError,
            >(VaultError::Overflow),
            self.rate_spec() > 0 && base_amount * RATE_SCALE <= u128::MAX ==> r == Ok::<
                u128,
                VaultError,
            >(claim_for_base(base_amount as int, self.rate_spec() as int) as u128),
    {
        if self.rate == 0 {
            return Err(VaultError::ZeroRate);
        }
        match base_amount.checked_mul(RATE_SCALE) {
            None => Err(VaultError::Overflow),
            Some(scaled) => Ok(scaled / self.rate),
        }
    }

    /// Converts a claim amount to base units at the current rate.
    pub fn to_base_asset(&self, claim_amount: u128) -> (r: Result<u128, VaultError>)
        ensures
            claim_amount * self.rate_spec() > u128::MAX ==> r == Err::<u128, VaultError>(
                VaultError::Overflow,
            ),
            claim_amount * self.rate_spec() <= u128::MAX ==> r == Ok::<u128, VaultError>(
                base_for_claim(claim_amount as int, self.rate_spec() as int) as u128,
            ),
    {
        match claim_amount.checked_mul(self.rate) {
            None => Err(VaultError::Overflow),
            Some(scaled) => Ok(scaled / RATE_SCALE),
        }
    }

    /// Moves the rate to what `custody` base units give per unit of `supply`
    /// claim units; leaves it as it is while no claim units exist. Fails
    /// with `Overflow` before any change when the scaled custody does not fit.
    pub fn rebase(&mut self, custody: u128, supply: u128) -> (r: Result<(), VaultError>)
        ensures
            supply > 0 && custody * RATE_SCALE > u128::MAX <==> r == Err::<(), VaultError>(
                VaultError::Overflow,
            ),
            r is Err ==> r == Err::<(), VaultError>(VaultError::Overflow),
            r is Err ==> *final(self) == *old(self),
            r is Ok && supply > 0 ==> final(self).rate_spec() == rate_for(custody as int, supply as int),
            r is Ok && supply == 0 ==> *final(self) == *old(self),
    {
        if supply == 0 {
            return Ok(());
        }
        match custody.checked_mul(RATE_SCALE) {
            None => Err(VaultError::Overflow),
            Some(scaled) => {
                self.rate = scaled / supply;
                Ok(())
            },
        }
    }

    /// Records `yield_amount` of yield: splits off the fee at `fee_bps`, and
    /// when claim tokens exist, moves the rate to what `custody` plus the
    /// users' share gives per unit of `supply`. Returns the fee and the users'
    /// share; fails before any change when the yield is zero or an amount
    /// would not fit.
    pub fn compound(&mut self, yield_amount: u128, fee_bps: u32, custody: u128, supply: u128) -> (r:
        Result<(u128, u128), VaultError>)
        requires
            fee_bps <= BPS_DENOMINATOR,
        ensures
            r is Err ==> *final(self) == *old(self),
            r == Err::<(u128, u128), VaultError>(VaultError::ZeroYield) <==> yield_amount == 0,
            r == Err::<(u128, u128), VaultError>(VaultError::Overflow) <==> yield_amount > 0
                && compound_overflows(yield_amount as int, fee_bps as int, custody as int, supply as int),
            r is Err ==> r == Err::<(u128, u128), VaultError>(VaultError::ZeroYield) || r == Err::<
                (u128, u128),
                VaultError,
            >(VaultError::Overflow),
            r matches Ok((fee, user)) ==> {
                &&& fee == fee_of(yield_amount as int, fee_bps as int)
                &&& fee + user == yield_amount
                &&& custody + user <= u128::MAX
                &&& supply > 0 ==> final(self).rate_spec() == rate_for(custody + user, supply as int)
                &&& supply == 0 ==> final(self).rate_spec() == old(self).rate_spec()
            },
    {
        if yield_amount == 0 {
            return Err(VaultError::ZeroYield);
        }
        let (fee, user) = split_fee(yield_amount, fee_bps);
        let new_custody = match custody.checked_add(user) {
            None => return Err(VaultError::Overflow),
            Some(c) => c,
        };
        match self.rebase(new_custody, supply) {
            Err(e) => return Err(e),
            Ok(()) => {},
        }
        Ok((fee, user))
    }
}

/// Whether compounding `yield_amount` at `fee_bps` onto `custody` and
/// `supply` leaves an amount that does not fit: the new custody, or the
/// scaled custody that the new rate is computed from.
pub open spec fn compound_overflows(yield_amount: int, fee_bps: int, custody: int, supply: int) -> bool {
    let user = yield_amount - fee_of(yield_amount, fee_bps);
    custody + user > u128::MAX || (supply > 0 && (custody + user) * RATE_SCALE > u128::MAX)
}

} // verus!
