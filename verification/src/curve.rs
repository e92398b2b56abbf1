//! The linear bonding curve: the price of the `k`-th token unit sold is `k`
//! (in units of `1 / DENOMINATOR_C` lamports), so a purchase or a sale costs
//! the sum of the unit prices over the range of units it moves.

use vstd::prelude::*;
use vstd::arithmetic::div_mod::{lemma_div_is_ordered, lemma_fundamental_div_mod, lemma_div_multiples_vanish};

verus! {

/// Total token supply minted into the curve: 10^9 tokens of 6 decimals.
pub const TOKEN_SUPPLY: u64 = 1_000_000_000_000_000;

/// Scale of the curve: the lamport price of a range of units is its unit sum
/// divided by this.
pub const DENOMINATOR_C: u64 = 2_100_000_000_000_000_000;

/// State of one curve: the number of token units sold out of it, and whether
/// it is closed for trading while it migrates.
pub struct LinearBondingCurve {
    pub token: u64,
    pub closed: bool,
}

/// The sum of all integers `k` with `a <= k <= b` (zero when `b < a`).
pub open spec fn range_sum(a: int, b: int) -> int
    decreases b + 1 - a,
{
    if b < a {
        0
    } else {
        range_sum(a, b - 1) + b
    }
}

/// Closed form of the discrete integral over `a..=b`: `(b + 1 - a) * (a + b) / 2`.
pub open spec fn integral(a: int, b: int) -> int {
    (b + 1 - a) * (a + b) / 2
}

/// The inputs on which the discrete integral over `a..=b` is computed
/// without any step leaving the range of `u64`.
pub open spec fn integral_fits(a: u64, b: u64) -> bool {
    &&& b < u64::MAX
    &&& a <= b + 1
    &&& a + b <= u64::MAX
    &&& integral(a as int, b as int) <= u64::MAX
}

proof fn lemma_integral_steps(a: int, b: int)
    requires
        0 <= a <= b + 1,
        0 <= b,
    ensures
        ((b + 1 - a) / 2) * (a + b) + ((b + 1 - a) % 2) * (a + b) / 2 == integral(a, b),
        0 <= ((b + 1 - a) / 2) * (a + b),
        0 <= ((b + 1 - a) % 2) * (a + b) <= a + b,
        0 <= ((b + 1 - a) % 2) * (a + b) / 2,
{
    let n = b + 1 - a;
    let s = a + b;
    let q = n / 2;
    let r = n % 2;
    assert(n == 2 * q + r && 0 <= r < 2 && q >= 0);
    assert(s >= 0);
    if r == 0 {
        assert(n * s == 2 * (q * s)) by (nonlinear_arith)
            requires
                n == 2 * q,
        ;
        assert(r * s == 0) by (nonlinear_arith)
            requires
                r == 0,
        ;
    } else {
        assert(s == 2 * (q + a)) by (nonlinear_arith)
            requires
                n == 2 * q + 1,
                n == b + 1 - a,
                s == a + b,
        ;
        assert(n * s == 2 * (q * s) + 2 * (q + a)) by (nonlinear_arith)
            requires
                n == 2 * q + 1,
                s == 2 * (q + a),
        ;
        assert(r * s == s) by (nonlinear_arith)
            requires
                r == 1,
        ;
    }
    assert(q * s >= 0) by (nonlinear_arith)
        requires
            q >= 0,
            s >= 0,
    ;
}

/// Lamports that buying `amount` units costs when `token` units are sold:
/// the unit sum over `token..=token + amount`, scaled down, plus one.
pub open spec fn buy_cost(token: int, amount: int) -> int {
    integral(token, token + amount) / (DENOMINATOR_C as int) + 1
}

/// Lamports that selling `amount` units pays out when `token` units are sold:
/// the unit sum over `token - amount..=token`, scaled down, plus one.
pub open spec fn sell_proceeds(token: int, amount: int) -> int {
    integral(token - amount, token) / (DENOMINATOR_C as int) + 1
}

/// The purchases that `buy` carries out without leaving the range of `u64`.
pub open spec fn buy_fits(token: u64, amount: u64) -> bool {
    &&& token + amount <= u64::MAX
    &&& integral_fits(token, (token + amount) as u64)
}

/// The sales that `sell` carries out without leaving the range of `u64`.
pub open spec fn sell_fits(token: u64, amount: u64) -> bool {
    &&& amount <= token
    &&& integral_fits((token - amount) as u64, token)
}

/// Market capitalisation, as the curve computes it: whole multiples of
/// `DENOMINATOR_C` sold, times the total supply.
pub open spec fn market_cap(token: int) -> int {
    token / (DENOMINATOR_C as int) * (TOKEN_SUPPLY as int)
}

/// Decides `integral_fits` with checked arithmetic.
fn integral_fits_exec(a: u64, b: u64) -> (fits: bool)
    ensures
        fits == integral_fits(a, b),
{
    if b == u64::MAX || a > b + 1 {
        return false;
    }
    let sum: u64 = match a.checked_add(b) {
        Some(s) => s,
        None => {
            return false;
        },
    };
    proof {
        lemma_integral_steps(a as int, b as int);
    }
    let temp: u64 = b + 1 - a;
    let times: u64 = temp / 2;
    let bit: u64 = (temp % 2) * sum / 2;
    match times.checked_mul(sum) {
        Some(p) => p.checked_add(bit).is_some(),
        None => false,
    }
}

proof fn lemma_double_range_sum(a: int, b: int)
    requires
        a <= b + 1,
    ensures
        2 * range_sum(a, b) == (b + 1 - a) * (a + b),
    decreases b + 1 - a,
{
    if b < a {
        assert((b + 1 - a) * (a + b) == 0) by (nonlinear_arith)
            requires
                b + 1 - a == 0,
        ;
    } else {
        lemma_double_range_sum(a, b - 1);
        assert((b + 1 - a) * (a + b) == (b - a) * (a + b - 1) + 2 * b) by (nonlinear_arith);
    }
}

/// The discrete integral is the sum of the unit prices it ranges over:
/// `integral(a, b) == a + (a + 1) + ... + b`.
pub proof fn lemma_integral_is_range_sum(a: int, b: int)
    requires
        a <= b + 1,
    ensures
        integral(a, b) == range_sum(a, b),
{
    lemma_double_range_sum(a, b);
    let x = range_sum(a, b);
    lemma_div_multiples_vanish(x, 2);
}

/// Unit sums over adjacent ranges add up: the sum over `a..=b` is the sum over
/// `a..=m` plus the sum over `m + 1..=b`.
pub proof fn lemma_range_sum_split(a: int, m: int, b: int)
    requires
        a <= m + 1,
        m <= b,
    ensures
        range_sum(a, b) == range_sum(a, m) + range_sum(m + 1, b),
    decreases b - m,
{
    if b > m {
        lemma_range_sum_split(a, m, b - 1);
    }
}

/// The price of a purchase is pinned by the unit prices it ranges over: with
/// `token` units sold, buying `amount` units costs one lamport plus the whole
/// multiples of `DENOMINATOR_C` in `token + (token + 1) + ... + (token + amount)`,
/// that is, the cost `c` satisfies `(c - 1) * DENOMINATOR_C <= sum < c * DENOMINATOR_C`.
pub proof fn lemma_buy_cost_is_scaled_unit_sum(token: int, amount: int)
    requires
        0 <= token,
        0 <= amount,
    ensures
        buy_cost(token, amount) == range_sum(token, token + amount) / (DENOMINATOR_C as int) + 1,
        (buy_cost(token, amount) - 1) * (DENOMINATOR_C as int) <= range_sum(token, token + amount),
        range_sum(token, token + amount) < buy_cost(token, amount) * (DENOMINATOR_C as int),
{
    lemma_integral_is_range_sum(token, token + amount);
    lemma_scaled_bracket(range_sum(token, token + amount));
}

/// The payout of a sale is pinned by the unit prices it ranges over: with
/// `token` units sold, selling `amount` of them back pays one lamport plus the
/// whole multiples of `DENOMINATOR_C` in `(token - amount) + ... + token`, that
/// is, the payout `p` satisfies `(p - 1) * DENOMINATOR_C <= sum < p * DENOMINATOR_C`.
pub proof fn lemma_sell_proceeds_is_scaled_unit_sum(token: int, amount: int)
    requires
        0 <= amount <= token,
    ensures
        sell_proceeds(token, amount) == range_sum(token - amount, token) / (DENOMINATOR_C as int)
            + 1,
        (sell_proceeds(token, amount) - 1) * (DENOMINATOR_C as int) <= range_sum(
            token - amount,
            token,
        ),
        range_sum(token - amount, token) < sell_proceeds(token, amount) * (DENOMINATOR_C as int),
{
    lemma_integral_is_range_sum(token - amount, token);
    lemma_scaled_bracket(range_sum(token - amount, token));
}

proof fn lemma_scaled_bracket(x: int)
    ensures
        (x / (DENOMINATOR_C as int)) * (DENOMINATOR_C as int) <= x,
        x < (x / (DENOMINATOR_C as int) + 1) * (DENOMINATOR_C as int),
{
    let d = DENOMINATOR_C as int;
    lemma_fundamental_div_mod(x, d);
    let q = x / d;
    assert(q * d <= x && x < (q + 1) * d) by (nonlinear_arith)
        requires
            x == d * q + x % d,
            0 <= x % d < d,
    ;
}

/// Selling back the units just bought is always possible and pays out exactly
/// what the purchase cost: the curve prices a sale and a purchase over the
/// same range of units alike.
pub proof fn lemma_sell_back_pays_purchase_cost(token: u64, amount: u64)
    requires
        buy_fits(token, amount),
    ensures
        sell_fits((token + amount) as u64, amount),
        sell_proceeds(token + amount, amount as int) == buy_cost(token as int, amount as int),
{
}

/// A purchase costs no less when more units are bought, or when more units
/// have already been sold: the price never falls along the curve.
pub proof fn lemma_buy_cost_monotonic(token1: int, amount1: int, token2: int, amount2: int)
    requires
        0 <= token1 <= token2,
        0 <= amount1 <= amount2,
    ensures
        buy_cost(token1, amount1) <= buy_cost(token2, amount2),
{
    assert((amount1 + 1) * (2 * token1 + amount1) <= (amount2 + 1) * (2 * token2 + amount2))
        by (nonlinear_arith)
        requires
            0 <= token1 <= token2,
            0 <= amount1 <= amount2,
    ;
    assert(token1 + amount1 + 1 - token1 == amount1 + 1);
    assert(token2 + amount2 + 1 - token2 == amount2 + 1);
    lemma_div_is_ordered(
        (amount1 + 1) * (2 * token1 + amount1),
        (amount2 + 1) * (2 * token2 + amount2),
        2,
    );
    lemma_div_is_ordered(integral(token1, token1 + amount1), integral(token2, token2 + amount2), DENOMINATOR_C as int);
}

/// A sale pays out no less when more units are sold back, or when more units
/// are in circulation when it is made.
pub proof fn lemma_sell_proceeds_monotonic(token1: int, amount1: int, token2: int, amount2: int)
    requires
        0 <= amount1 <= token1,
        0 <= amount2 <= token2,
        amount1 <= amount2,
        token1 - amount1 <= token2 - amount2,
    ensures
        sell_proceeds(token1, amount1) <= sell_proceeds(token2, amount2),
{
    let lo1 = token1 - amount1;
    let lo2 = token2 - amount2;
    assert((amount1 + 1) * (2 * lo1 + amount1) <= (amount2 + 1) * (2 * lo2 + amount2))
        by (nonlinear_arith)
        requires
            0 <= lo1 <= lo2,
            0 <= amount1 <= amount2,
    ;
    assert(token1 + 1 - lo1 == amount1 + 1 && lo1 + token1 == 2 * lo1 + amount1);
    assert(token2 + 1 - lo2 == amount2 + 1 && lo2 + token2 == 2 * lo2 + amount2);
    lemma_div_is_ordered(
        (amount1 + 1) * (2 * lo1 + amount1),
        (amount2 + 1) * (2 * lo2 + amount2),
        2,
    );
    lemma_div_is_ordered(integral(lo1, token1), integral(lo2, token2), DENOMINATOR_C as int);
}

proof fn lemma_floor_sum(x: int, y: int, d: int)
    requires
        x >= 0,
        y >= 0,
        d > 0,
    ensures
        (x + y) / d <= x / d + y / d + 1,
{
    lemma_fundamental_div_mod(x, d);
    lemma_fundamental_div_mod(y, d);
    lemma_fundamental_div_mod(x + y, d);
    let qx = x / d;
    let qy = y / d;
    let q = (x + y) / d;
    assert(q <= qx + qy + 1) by (nonlinear_arith)
        requires
            x == d * qx + x % d,
            y == d * qy + y % d,
            x + y == d * q + (x + y) % d,
            0 <= x % d < d,
            0 <= y % d < d,
            0 <= (x + y) % d < d,
            d > 0,
    ;
}

/// Splitting a purchase in two never makes it cheaper: buying `amount1` and
/// then `amount2` units costs at least as much as buying `amount1 + amount2`
/// units at once.
pub proof fn lemma_split_purchase_costs_no_less(token: int, amount1: int, amount2: int)
    requires
        token >= 0,
        amount1 >= 0,
        amount2 >= 0,
    ensures
        buy_cost(token, amount1) + buy_cost(token + amount1, amount2) >= buy_cost(
            token,
            amount1 + amount2,
        ),
{
    let m = token + amount1;
    let e = m + amount2;
    lemma_integral_is_range_sum(token, m);
    lemma_integral_is_range_sum(m, e);
    lemma_integral_is_range_sum(token, e);
    lemma_range_sum_split(token, m, e);
    lemma_range_sum_split(m, m, e);
    assert(range_sum(m, m) == m) by {
        assert(range_sum(m, m - 1) == 0);
    }
    let d = DENOMINATOR_C as int;
    let x = integral(token, m);
    let y = integral(m, e);
    assert(x >= 0 && y >= 0) by {
        assert((m + 1 - token) * (token + m) >= 0) by (nonlinear_arith)
            requires
                m + 1 - token >= 0,
                token + m >= 0,
        ;
        assert((e + 1 - m) * (m + e) >= 0) by (nonlinear_arith)
            requires
                e + 1 - m >= 0,
                m + e >= 0,
        ;
    }
    lemma_floor_sum(x, y, d);
    lemma_div_is_ordered(integral(token, e), x + y, d);
}

impl LinearBondingCurve {
    /// Whether `buy(token_amount)` stays within `u64` arithmetic on this curve.
    pub fn can_buy(&self, token_amount: u64) -> (ok: bool)
        ensures
            ok == buy_fits(self.token, token_amount),
    {
        match self.token.checked_add(token_amount) {
            Some(b) => integral_fits_exec(self.token, b),
            None => false,
        }
    }

    /// Whether `sell(token_amount)` stays within `u64` arithmetic on this curve.
    pub fn can_sell(&self, token_amount: u64) -> (ok: bool)
        ensures
            ok == sell_fits(self.token, token_amount),
    {
        if token_amount > self.token {
            false
        } else {
            integral_fits_exec(self.token - token_amount, self.token)
        }
    }

    /// Buys `token_amount` units: moves the sold count up by that many and
    /// returns the lamports the purchase costs.
    pub fn buy(&mut self, token_amount: u64) -> (lamports: u64)
        requires
            buy_fits(old(self).token, token_amount),
        ensures
            final(self).token == old(self).token + token_amount,
            final(self).closed == old(self).closed,
            lamports == buy_cost(old(self).token as int, token_amount as int),
            lamports == range_sum(old(self).token as int, old(self).token + token_amount)
                / (DENOMINATOR_C as int) + 1,
            lamports >= 1,
    {
        proof {
            lemma_buy_cost_is_scaled_unit_sum(self.token as int, token_amount as int);
        }
        let result: u64 = self.discrete_integral(self.token, self.token + token_amount);
        self.token += token_amount;
        return (result / DENOMINATOR_C) + 1;
    }

    /// Sells `token_amount` units back: moves the sold count down by that many
    /// and returns the lamports the sale pays out.
    pub fn sell(&mut self, token_amount: u64) -> (lamports: u64)
        requires
            sell_fits(old(self).token, token_amount),
        ensures
            final(self).token == old(self).token - token_amount,
            final(self).closed == old(self).closed,
            lamports == sell_proceeds(old(self).token as int, token_amount as int),
            lamports == range_sum(old(self).token - token_amount, old(self).token as int)
                / (DENOMINATOR_C as int) + 1,
            lamports >= 1,
    {
        proof {
            lemma_sell_proceeds_is_scaled_unit_sum(self.token as int, token_amount as int);
        }
        let result: u64 = self.discrete_integral(self.token - token_amount, self.token);
        self.token -= token_amount;
        return (result / DENOMINATOR_C) + 1;
    }

    /// The curve's market capitalisation.
    pub fn mkt_cap(&self) -> (cap: u64)
        ensures
            cap == market_cap(self.token as int),
            cap == (self.token / DENOMINATOR_C) * TOKEN_SUPPLY,
    {
        return self.token / DENOMINATOR_C * TOKEN_SUPPLY;
    }

    /// The sum of the unit prices `a + (a + 1) + ... + b`.
    fn discrete_integral(&self, a: u64, b: u64) -> (result: u64)
        requires
            integral_fits(a, b),
        ensures
            result == integral(a as int, b as int),
    {
        proof {
            lemma_integral_steps(a as int, b as int);
        }
        let temp: u64 = b + 1 - a;
        let times: u64 = temp / 2;
        let sum: u64 = a + b;
        let bit: u64 = (temp % 2) * sum / 2;
        times * sum + bit
    }
}

} // verus!
