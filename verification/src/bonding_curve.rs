//! Bonding-curve token sale: the price per token is the reserve divided by
//! the supply plus one; buyers pay the average of the prices before and
//! after their trade, sellers are paid the same way out of the reserve.

use vstd::prelude::*;

use crate::common::{fits_i128, quot_trunc, AccountId, Transfer};

verus! {

/// Errors returned by the bonding-curve contract.
#[derive(Clone, Copy, Debug, PartialEq, Eq, Structural)]
pub enum BondingCurveError {
    /// `initialize` was called on an already-initialized contract.
    AlreadyInitialized,
    /// An operation was attempted before the contract was initialized.
    NotInitialized,
    /// Caller is not the admin.
    Unauthorized,
    /// Amount is zero or negative, or outside the caller's price bound.
    InvalidAmount,
    /// Insufficient reserve to sell.
    InsufficientReserve,
    /// Arithmetic overflow.
    Overflow,
}

impl BondingCurveError {
    /// The numeric code of this error in the contract interface.
    pub open spec fn spec_code(self) -> u32 {
        match self {
            BondingCurveError::AlreadyInitialized => 1,
            BondingCurveError::NotInitialized => 2,
            BondingCurveError::Unauthorized => 3,
            BondingCurveError::InvalidAmount => 4,
            BondingCurveError::InsufficientReserve => 5,
            BondingCurveError::Overflow => 6,
        }
    }

    /// Returns the numeric code of this error.
    pub fn code(&self) -> (c: u32)
        ensures
            c == self.spec_code(),
    {
        match self {
            BondingCurveError::AlreadyInitialized => 1,
            BondingCurveError::NotInitialized => 2,
            BondingCurveError::Unauthorized => 3,
            BondingCurveError::InvalidAmount => 4,
            BondingCurveError::InsufficientReserve => 5,
            BondingCurveError::Overflow => 6,
        }
    }
}

/// Fixed-point scale of prices.
pub const PRICE_SCALE: i128 = 1_000_000;

/// The curve price `reserve * PRICE_SCALE / (supply + 1)`, rounded toward
/// zero, or `None` when a step leaves `i128` or divides by zero.
pub open spec fn price_spec(reserve: int, supply: int) -> Option<int> {
    if !fits_i128(supply + 1) || supply + 1 == 0 || !fits_i128(reserve * PRICE_SCALE) {
        None
    } else if !fits_i128(quot_trunc(reserve * PRICE_SCALE, supply + 1)) {
        None
    } else {
        Some(quot_trunc(reserve * PRICE_SCALE, supply + 1))
    }
}

/// Value of `amount` tokens traded between supplies `s1` and `s2`: `amount`
/// times the average of the two curve prices, divided by `PRICE_SCALE`
/// (each division rounding toward zero), or `None` on overflow.
pub open spec fn trade_value(reserve: int, s1: int, s2: int, amount: int) -> Option<int> {
    match (price_spec(reserve, s1), price_spec(reserve, s2)) {
        (Some(p1), Some(p2)) => {
            if !fits_i128(p1 + p2) || !fits_i128(amount * quot_trunc(p1 + p2, 2)) {
                None
            } else {
                Some(quot_trunc(amount * quot_trunc(p1 + p2, 2), PRICE_SCALE as int))
            }
        },
        _ => None,
    }
}

/// What `buy_cost` returns for these arguments.
pub open spec fn buy_cost_spec(reserve: int, supply: int, amount: int) -> Result<int, BondingCurveError> {
    if amount <= 0 {
        Err(BondingCurveError::InvalidAmount)
    } else if !fits_i128(supply + amount) {
        Err(BondingCurveError::Overflow)
    } else {
        match trade_value(reserve, supply, supply + amount, amount) {
            Some(c) => Ok(c),
            None => Err(BondingCurveError::Overflow),
        }
    }
}

/// What `sell_proceeds` returns for these arguments.
pub open spec fn sell_proceeds_spec(reserve: int, supply: int, amount: int) -> Result<int, BondingCurveError> {
    if amount <= 0 || amount > supply {
        Err(BondingCurveError::InvalidAmount)
    } else {
        match trade_value(reserve, supply, supply - amount, amount) {
            Some(c) => Ok(c),
            None => Err(BondingCurveError::Overflow),
        }
    }
}

/// Curve price for `reserve` and `supply`; `Overflow` when `supply + 1`
/// is zero or a step leaves `i128`.
pub fn calculate_price(reserve: i128, supply: i128) -> (r: Result<i128, BondingCurveError>)
    ensures
        r == (match price_spec(reserve as int, supply as int) {
            Some(p) => Ok(p as i128),
            None => Err(BondingCurveError::Overflow),
        }),
{
    let d = match supply.checked_add(1) {
        Some(d) => d,
        None => return Err(BondingCurveError::Overflow),
    };
    if d == 0 {
        return Err(BondingCurveError::Overflow);
    }
    let scaled = match reserve.checked_mul(PRICE_SCALE) {
        Some(v) => v,
        None => return Err(BondingCurveError::Overflow),
    };
    match scaled.checked_div(d) {
        Some(p) => Ok(p),
        None => Err(BondingCurveError::Overflow),
    }
}

fn trade_value_exec(reserve: i128, s1: i128, s2: i128, amount: i128) -> (r: Result<i128, BondingCurveError>)
    ensures
        r == (match trade_value(reserve as int, s1 as int, s2 as int, amount as int) {
            Some(v) => Ok(v as i128),
            None => Err(BondingCurveError::Overflow),
        }),
{
    let p1 = calculate_price(reserve, s1)?;
    let p2 = calculate_price(reserve, s2)?;
    let sum = match p1.checked_add(p2) {
        Some(v) => v,
        None => return Err(BondingCurveError::Overflow),
    };
    let avg = match sum.checked_div(2) {
        Some(v) => v,
        None => return Err(BondingCurveError::Overflow),
    };
    let gross = match amount.checked_mul(avg) {
        Some(v) => v,
        None => return Err(BondingCurveError::Overflow),
    };
    match gross.checked_div(PRICE_SCALE) {
        Some(v) => Ok(v),
        None => Err(BondingCurveError::Overflow),
    }
}

/// Cost of buying `amount` tokens when the curve holds `reserve` and
/// `supply`: `amount` times the average of the prices at `supply` and at
/// `supply + amount`, divided by `PRICE_SCALE`.
pub fn buy_cost(reserve: i128, supply: i128, amount: i128) -> (r: Result<i128, BondingCurveError>)
    ensures
        r == (match buy_cost_spec(reserve as int, supply as int, amount as int) {
            Ok(c) => Ok(c as i128),
            Err(e) => Err(e),
        }),
{
    if amount <= 0 {
        return Err(BondingCurveError::InvalidAmount);
    }
    let new_supply = match supply.checked_add(amount) {
        Some(v) => v,
        None => return Err(BondingCurveError::Overflow),
    };
    trade_value_exec(reserve, supply, new_supply, amount)
}

/// Proceeds of selling `amount` tokens when the curve holds `reserve` and
/// `supply`: `amount` times the average of the prices at `supply` and at
/// `supply - amount`, divided by `PRICE_SCALE`.
pub fn sell_proceeds(reserve: i128, supply: i128, amount: i128) -> (r: Result<i128, BondingCurveError>)
    ensures
        r == (match sell_proceeds_spec(reserve as int, supply as int, amount as int) {
            Ok(c) => Ok(c as i128),
            Err(e) => Err(e),
        }),
{
    if amount <= 0 || amount > supply {
        return Err(BondingCurveError::InvalidAmount);
    }
    trade_value_exec(reserve, supply, supply - amount, amount)
}

/// State of the bonding-curve contract.
pub struct BondingCurveContract {
    /// The admin, once initialized.
    pub admin: Option<AccountId>,
    /// Token paid into and out of the reserve.
    pub token: AccountId,
    /// Tokens held in the reserve.
    pub reserve: i128,
    /// Curve tokens in circulation.
    pub supply: i128,
    /// Price after the last trade.
    pub price: i128,
}

impl BondingCurveContract {
    /// The reserve and the supply are not negative.
    pub open spec fn wf(&self) -> bool {
        self.reserve >= 0 && self.supply >= 0
    }

    /// A contract with empty storage.
    pub fn new() -> (c: Self)
        ensures
            c == (BondingCurveContract { admin: None, token: 0, reserve: 0, supply: 0, price: 0 }),
            c.wf(),
    {
        BondingCurveContract { admin: None, token: 0, reserve: 0, supply: 0, price: 0 }
    }

    /// Initializes the curve with an empty reserve. The admin authorizes
    /// the call.
    pub fn initialize(&mut self, admin: AccountId, token: AccountId) -> (r: Result<(), BondingCurveError>)
        ensures
            old(self).admin is Some ==> r == Err::<(), _>(BondingCurveError::AlreadyInitialized)
                && *final(self) == *old(self),
            old(self).admin is None ==> r is Ok && *final(self) == (BondingCurveContract {
                admin: Some(admin),
                token,
                reserve: 0,
                supply: 0,
                price: 0,
            }),
    {
        if self.admin.is_some() {
            return Err(BondingCurveError::AlreadyInitialized);
        }
        let p = calculate_price(0, 0)?;
        assert(p == 0);
        *self = BondingCurveContract { admin: Some(admin), token, reserve: 0, supply: 0, price: p };
        Ok(())
    }

    /// The first check of `buy` that fails, if any.
    pub open spec fn buy_error(&self, amount: int, max_cost: int) -> Option<BondingCurveError> {
        if self.admin is None {
            Some(BondingCurveError::NotInitialized)
        } else if amount <= 0 {
            Some(BondingCurveError::InvalidAmount)
        } else {
            match buy_cost_spec(self.reserve as int, self.supply as int, amount) {
                Err(e) => Some(e),
                Ok(cost) => if cost > max_cost {
                    Some(BondingCurveError::InvalidAmount)
                } else if !fits_i128(self.reserve + cost) || price_spec(
                    self.reserve + cost,
                    self.supply + amount,
                ) is None {
                    Some(BondingCurveError::Overflow)
                } else {
                    None
                },
            }
        }
    }

    /// `buyer`, who authorizes the call, buys `amount` curve tokens for at
    /// most `max_cost`; the cost is paid into the reserve.
    pub fn buy(&mut self, buyer: AccountId, amount: i128, max_cost: i128) -> (r: Result<
        Vec<Transfer>,
        BondingCurveError,
    >)
        ensures
            match old(self).buy_error(amount as int, max_cost as int) {
                Some(e) => r == Err::<Vec<Transfer>, _>(e) && *final(self) == *old(self),
                None => {
                    let cost = buy_cost_spec(old(self).reserve as int, old(self).supply as int, amount as int)->Ok_0;
                    &&& r is Ok
                    &&& final(self).reserve == old(self).reserve + cost
                    &&& final(self).supply == old(self).supply + amount
                    &&& Some(final(self).price as int) == price_spec(final(self).reserve as int, final(self).supply as int)
                    &&& final(self).admin == old(self).admin
                    &&& final(self).token == old(self).token
                    &&& r.unwrap()@ == seq![Transfer::Deposit { token: old(self).token, from: buyer, amount: cost as i128 }]
                },
            },
            old(self).wf() ==> final(self).wf(),
    {
        if self.admin.is_none() {
            return Err(BondingCurveError::NotInitialized);
        }
        if amount <= 0 {
            return Err(BondingCurveError::InvalidAmount);
        }
        proof {
            if old(self).wf() {
                lemma_trade_value_nonneg(self.reserve as int, self.supply as int, self.supply + amount, amount as int);
            }
        }
        let cost = buy_cost(self.reserve, self.supply, amount)?;
        if cost > max_cost {
            return Err(BondingCurveError::InvalidAmount);
        }
        let new_reserve = match self.reserve.checked_add(cost) {
            Some(v) => v,
            None => return Err(BondingCurveError::Overflow),
        };
        let new_supply = self.supply + amount;
        let new_price = calculate_price(new_reserve, new_supply)?;
        self.reserve = new_reserve;
        self.supply = new_supply;
        self.price = new_price;
        let mut out: Vec<Transfer> = Vec::new();
        out.push(Transfer::Deposit { token: self.token, from: buyer, amount: cost });
        Ok(out)
    }

    /// The first check of `sell` that fails, if any.
    pub open spec fn sell_error(&self, amount: int, min_proceeds: int) -> Option<BondingCurveError> {
        if self.admin is None {
            Some(BondingCurveError::NotInitialized)
        } else if amount <= 0 || amount > self.supply {
            Some(BondingCurveError::InvalidAmount)
        } else {
            match sell_proceeds_spec(self.reserve as int, self.supply as int, amount) {
                Err(e) => Some(e),
                Ok(p) => if p < min_proceeds {
                    Some(BondingCurveError::InvalidAmount)
                } else if p > self.reserve {
                    Some(BondingCurveError::InsufficientReserve)
                } else if !fits_i128(self.reserve - p) || price_spec(
                    self.reserve - p,
                    self.supply - amount,
                ) is None {
                    Some(BondingCurveError::Overflow)
                } else {
                    None
                },
            }
        }
    }

    /// `seller`, who authorizes the call, sells `amount` curve tokens for at
    /// least `min_proceeds`, paid out of the reserve.
    pub fn sell(&mut self, seller: AccountId, amount: i128, min_proceeds: i128) -> (r: Result<
        Vec<Transfer>,
        BondingCurveError,
    >)
        ensures
            match old(self).sell_error(amount as int, min_proceeds as int) {
                Some(e) => r == Err::<Vec<Transfer>, _>(e) && *final(self) == *old(self),
                None => {
                    let p = sell_proceeds_spec(old(self).reserve as int, old(self).supply as int, amount as int)->Ok_0;
                    &&& r is Ok
                    &&& final(self).reserve == old(self).reserve - p
                    &&& final(self).supply == old(self).supply - amount
                    &&& Some(final(self).price as int) == price_spec(final(self).reserve as int, final(self).supply as int)
                    &&& final(self).admin == old(self).admin
                    &&& final(self).token == old(self).token
                    &&& r.unwrap()@ == seq![Transfer::Payout { token: old(self).token, to: seller, amount: p as i128 }]
                },
            },
            old(self).wf() ==> final(self).wf(),
    {
        if self.admin.is_none() {
            return Err(BondingCurveError::NotInitialized);
        }
        if amount <= 0 || amount > self.supply {
            return Err(BondingCurveError::InvalidAmount);
        }
        let proceeds = sell_proceeds(self.reserve, self.supply, amount)?;
        if proceeds < min_proceeds {
            return Err(BondingCurveError::InvalidAmount);
        }
        if proceeds > self.reserve {
            return Err(BondingCurveError::InsufficientReserve);
        }
        let new_reserve = match self.reserve.checked_sub(proceeds) {
            Some(v) => v,
            None => return Err(BondingCurveError::Overflow),
        };
        let new_supply = self.supply - amount;
        let new_price = calculate_price(new_reserve, new_supply)?;
        self.reserve = new_reserve;
        self.supply = new_supply;
        self.price = new_price;
        let mut out: Vec<Transfer> = Vec::new();
        out.push(Transfer::Payout { token: self.token, to: seller, amount: proceeds });
        Ok(out)
    }

    /// Tokens held in the reserve.
    pub fn get_reserve(&self) -> (v: i128)
        ensures
            v == self.reserve,
    {
        self.reserve
    }

    /// Curve tokens in circulation.
    pub fn get_supply(&self) -> (v: i128)
        ensures
            v == self.supply,
    {
        self.supply
    }

    /// Price after the last trade.
    pub fn get_price(&self) -> (v: i128)
        ensures
            v == self.price,
    {
        self.price
    }
}

/// With a reserve and supplies that are not negative, curve prices and
/// trade values are not negative either.
pub proof fn lemma_trade_value_nonneg(reserve: int, s1: int, s2: int, amount: int)
    requires
        reserve >= 0,
        s1 >= 0,
        s2 >= 0,
        amount > 0,
    ensures
        price_spec(reserve, s1) matches Some(p) ==> p >= 0,
        price_spec(reserve, s2) matches Some(p) ==> p >= 0,
        trade_value(reserve, s1, s2, amount) matches Some(v) ==> v >= 0,
{
    let sc = PRICE_SCALE as int;
    assert(reserve * sc >= 0) by (nonlinear_arith)
        requires reserve >= 0, sc > 0;
    assert((reserve * sc) / (s1 + 1) >= 0) by (nonlinear_arith)
        requires reserve * sc >= 0, s1 + 1 > 0;
    assert((reserve * sc) / (s2 + 1) >= 0) by (nonlinear_arith)
        requires reserve * sc >= 0, s2 + 1 > 0;
    if let (Some(p1), Some(p2)) = (price_spec(reserve, s1), price_spec(reserve, s2)) {
        let avg = quot_trunc(p1 + p2, 2);
        assert(avg >= 0);
        assert(amount * avg >= 0) by (nonlinear_arith)
            requires amount > 0, avg >= 0;
        assert((amount * avg) / sc >= 0) by (nonlinear_arith)
            requires amount * avg >= 0, sc > 0;
    }
}

} // verus!
