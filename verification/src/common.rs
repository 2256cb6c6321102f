//! Shared ledger vocabulary: account identifiers, token movements and
//! basis-point arithmetic.

use vstd::prelude::*;

verus! {

/// Identifier of an account or a contract on the ledger.
pub type AccountId = u64;

/// One whole expressed in basis points (100 %).
pub const BPS_DENOMINATOR: u32 = 10_000;

/// A token movement that a contract operation asks the ledger to perform.
///
/// The contract itself is the counterparty of `Deposit` and `Payout`.
#[derive(Clone, Copy, Debug, PartialEq, Eq, Structural)]
pub enum Transfer {
    /// `from` pays `amount` units of `token` into the contract.
    Deposit { token: AccountId, from: AccountId, amount: i128 },
    /// The contract pays `amount` units of `token` out to `to`.
    Payout { token: AccountId, to: AccountId, amount: i128 },
    /// `from` pays `amount` units of `token` directly to `to`.
    Direct { token: AccountId, from: AccountId, to: AccountId, amount: i128 },
}

/// Integer division of `x` by a positive `d`, rounding toward zero as Rust's
/// `/` does on signed integers.
pub open spec fn div_trunc(x: int, d: int) -> int {
    if x >= 0 {
        x / d
    } else {
        -((-x) / d)
    }
}

/// Integer division of `x` by a non-zero `d` of either sign, rounding
/// toward zero as Rust's `/` does on signed integers.
pub open spec fn quot_trunc(x: int, d: int) -> int {
    if x == 0 {
        0
    } else if x > 0 && d > 0 {
        x / d
    } else if x < 0 && d < 0 {
        (-x) / (-d)
    } else if x < 0 {
        -((-x) / d)
    } else {
        -(x / (-d))
    }
}

/// The `bps` basis-point share of `amount`, rounded toward zero.
pub open spec fn bps_share(amount: int, bps: int) -> int {
    div_trunc(amount * bps, 10_000)
}

/// Whether `x` lies in the range of `i128`.
pub open spec fn fits_i128(x: int) -> bool {
    i128::MIN <= x <= i128::MAX
}

/// Computes the `bps` basis-point share of `amount` (`amount * bps / 10_000`,
/// rounded toward zero), or `None` when the product leaves `i128`.
pub fn apply_bps_fee(amount: i128, bps: u32) -> (fee: Option<i128>)
    ensures
        fee == (if fits_i128(amount * bps) {
            Some(bps_share(amount as int, bps as int) as i128)
        } else {
            None::<i128>
        }),
{
    let b: i128 = bps as i128;
    match amount.checked_mul(b) {
        Some(p) => p.checked_div(10_000),
        None => None,
    }
}

/// The `bps` share of `amount`, or zero when `amount * bps` leaves `i128`.
pub open spec fn bps_fee_or_zero(amount: int, bps: int) -> int {
    if fits_i128(amount * bps) {
        bps_share(amount, bps)
    } else {
        0
    }
}

/// Splits `amount` into `(net, fee)` where `fee` is the `bps` share of
/// `amount` (zero when the product leaves `i128`) and `net` the remainder,
/// so that `net + fee == amount`.
pub fn split_bps(amount: i128, bps: u32) -> (r: (i128, i128))
    requires
        0 <= amount,
        bps <= 10_000,
    ensures
        r.1 == bps_fee_or_zero(amount as int, bps as int),
        r.0 + r.1 == amount,
        0 <= r.1 <= amount,
        0 <= r.0 <= amount,
{
    proof {
        lemma_bps_share_bounds(amount as int, bps as int);
    }
    let fee: i128 = match apply_bps_fee(amount, bps) {
        Some(f) => f,
        None => 0,
    };
    (amount - fee, fee)
}

/// For a non-negative amount and at most 10 000 basis points, the share is
/// between zero and the amount itself, and the product stays in `i128`.
pub proof fn lemma_bps_share_bounds(amount: int, bps: int)
    requires
        0 <= amount <= i128::MAX,
        0 <= bps <= 10_000,
    ensures
        0 <= bps_share(amount, bps) <= amount,
{
    assert(0 <= amount * bps <= amount * 10_000) by (nonlinear_arith)
        requires 0 <= amount, 0 <= bps <= 10_000;
    assert(amount * bps / 10_000 <= amount) by (nonlinear_arith)
        requires 0 <= amount * bps <= amount * 10_000;
}

/// The `bps` basis-point share of a non-negative `gross`, rounded down:
/// `gross * bps / 10_000`, computed without leaving `i128`.
pub fn bps_fee_exact(gross: i128, bps: u32) -> (fee: i128)
    requires
        gross >= 0,
        bps <= 10_000,
    ensures
        fee == gross * bps / 10_000,
        0 <= fee <= gross,
{
    let q: i128 = gross / 10_000;
    let r: i128 = gross % 10_000;
    let b: i128 = bps as i128;
    proof {
        let g = gross as int;
        let bi = bps as int;
        assert(g == 10_000 * q + r && 0 <= r < 10_000) by (nonlinear_arith)
            requires g >= 0, q == g / 10_000, r == g % 10_000;
        assert(g * bi == 10_000 * (q * bi) + r * bi) by (nonlinear_arith)
            requires g == 10_000 * q + r;
        assert(0 <= r * bi < 10_000 * 10_000) by (nonlinear_arith)
            requires 0 <= r < 10_000, 0 <= bi <= 10_000;
        assert((10_000 * (q * bi) + r * bi) / 10_000 == q * bi + (r * bi) / 10_000) by (nonlinear_arith)
            requires r * bi >= 0, q * bi >= 0;
        assert(0 <= q * bi <= q * 10_000) by (nonlinear_arith)
            requires q >= 0, 0 <= bi <= 10_000;
        assert(0 <= r * bi <= r * 10_000) by (nonlinear_arith)
            requires 0 <= r, 0 <= bi <= 10_000;
        assert((r * bi) / 10_000 <= r) by (nonlinear_arith)
            requires 0 <= r, 0 <= bi <= 10_000, 0 <= r * bi <= r * 10_000;
    }
    q * b + (r * b) / 10_000
}

/// Fewest ledgers by which a deadline must lie ahead of the current ledger.
///
/// The contracts share this bound. The common crate of the contract family
/// that defines it is not a dependency of this library, and no test pins
/// its value, so ten ledgers (about a minute) is this library's own choice;
/// every contract reads it from here, so changing it changes them all alike.
pub const MIN_DEADLINE_BUFFER: u32 = 10;

/// A deadline is acceptable at `ledger` when it lies at least
/// `MIN_DEADLINE_BUFFER` ledgers ahead.
pub open spec fn deadline_ok(deadline: int, ledger: int) -> bool {
    deadline >= ledger + MIN_DEADLINE_BUFFER
}

/// Whether `deadline` lies at least `MIN_DEADLINE_BUFFER` ledgers after
/// `ledger`.
pub fn validate_deadline(deadline: u32, ledger: u32) -> (b: bool)
    ensures
        b == deadline_ok(deadline as int, ledger as int),
{
    (deadline as u64) >= (ledger as u64) + (MIN_DEADLINE_BUFFER as u64)
}

/// No account occurs twice in `s`.
pub open spec fn no_duplicates(s: Seq<AccountId>) -> bool {
    forall|i: int, j: int| 0 <= i < j < s.len() ==> s[i] != s[j]
}

/// Whether `list` holds `who`.
pub fn contains_account(list: &Vec<AccountId>, who: AccountId) -> (b: bool)
    ensures
        b == list@.contains(who),
{
    let mut i: usize = 0;
    while i < list.len()
        invariant
            i <= list@.len(),
            forall|k: int| 0 <= k < i ==> list@[k] != who,
        decreases list@.len() - i,
    {
        if list[i] == who {
            assert(list@[i as int] == who);
            return true;
        }
        i = i + 1;
    }
    false
}

/// Whether `list` is non-empty and holds no account twice.
pub fn is_unique_nonempty(list: &Vec<AccountId>) -> (b: bool)
    ensures
        b == (list@.len() > 0 && no_duplicates(list@)),
{
    if list.len() == 0 {
        return false;
    }
    let mut i: usize = 0;
    while i < list.len()
        invariant
            i <= list@.len(),
            no_duplicates(list@.take(i as int)),
        decreases list@.len() - i,
    {
        let mut j: usize = 0;
        while j < i
            invariant
                j <= i < list@.len(),
                forall|k: int| 0 <= k < j ==> list@[k] != list@[i as int],
            decreases i - j,
        {
            if list[j] == list[i] {
                return false;
            }
            j = j + 1;
        }
        assert(no_duplicates(list@.take(i + 1)));
        i = i + 1;
    }
    assert(list@.take(list@.len() as int) =~= list@);
    true
}

/// `x` clamped to the range of `i128`.
pub open spec fn sat_i128(x: int) -> int {
    if x > i128::MAX {
        i128::MAX as int
    } else if x < i128::MIN {
        i128::MIN as int
    } else {
        x
    }
}

/// `a + b`, saturating at the bounds of `i128`.
pub fn sat_add_i128(a: i128, b: i128) -> (r: i128)
    ensures
        r == sat_i128(a + b),
{
    match a.checked_add(b) {
        Some(x) => x,
        None => {
            if b > 0 {
                i128::MAX
            } else {
                i128::MIN
            }
        },
    }
}

/// `a * b`, saturating at the bounds of `i128`.
pub fn sat_mul_i128(a: i128, b: i128) -> (r: i128)
    ensures
        r == sat_i128(a * b),
{
    match a.checked_mul(b) {
        Some(x) => x,
        None => {
            proof {
                lemma_mul_sign(a as int, b as int);
            }
            if (a > 0 && b > 0) || (a < 0 && b < 0) {
                i128::MAX
            } else {
                i128::MIN
            }
        },
    }
}

/// The sign of a product follows the signs of its factors.
pub proof fn lemma_mul_sign(a: int, b: int)
    ensures
        (a > 0 && b > 0) || (a < 0 && b < 0) ==> a * b > 0,
        (a > 0 && b < 0) || (a < 0 && b > 0) ==> a * b < 0,
        a == 0 || b == 0 ==> a * b == 0,
{
    assert((a > 0 && b > 0) || (a < 0 && b < 0) ==> a * b > 0) by (nonlinear_arith);
    assert((a > 0 && b < 0) || (a < 0 && b > 0) ==> a * b < 0) by (nonlinear_arith);
    assert(a == 0 || b == 0 ==> a * b == 0) by (nonlinear_arith);
}

} // verus!
