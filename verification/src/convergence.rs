//! What is known of a result of the solvers.
//!
//! A result is settled or turning. A settled result is one Newton step from
//! an estimate that it differs from by one at most, and the equation is
//! nearly met there. A turning result is the smaller of two estimates that
//! the step takes to each other; there the two sides of the equation change
//! order between the two, so the root lies between them.
//!
//! For a pool with two equal balances the invariant is the sum of the two.
//! The balance that a swap leaves is one unit above a result of the solver
//! for the other balance, at the invariant from before the swap, and the
//! reverse of the swap solves back from the balance left, at the same
//! invariant.

use crate::error::ContractError;
use crate::math::{
    accepted,
    fits,
    lemma_mul_bound,
    calc_ask_amount_spec,
    calc_offer_amount_spec,
    close,
    compute_d_spec,
    compute_new_balance_out_spec,
    d_from,
    d_product,
    next_d,
    next_y,
    step_denominator,
    step_fits,
    step_numerator,
    y_b,
    y_c,
    y_from,
    ITERATIONS,
};
use crate::wide::limit;
use vstd::prelude::*;

verus! {

/// The quotient of `n` by `d` is the one number `q` with `q * d <= n < (q +
/// 1) * d`.
pub proof fn lemma_quotient(n: int, d: int, q: int)
    by (nonlinear_arith)
    requires
        0 < d,
        q * d <= n < (q + 1) * d,
    ensures
        n / d == q,
{
}

/// The quotient of a number that is not negative lies between `n / d - 1`
/// and `n / d`, all times `d`.
pub proof fn lemma_quotient_bounds(n: int, d: int)
    by (nonlinear_arith)
    requires
        0 < d,
    ensures
        (n / d) * d <= n < (n / d) * d + d,
{
}

/// Whether `r` is one Newton step for `D` from the estimate `p` and differs
/// from it by one at most.
pub open spec fn settled_d(l: int, s: int, a: int, b: int, p: int, r: int) -> bool {
    next_d(l, s, a, b, p) == Ok::<int, ContractError>(r) && close(r, p)
}

/// Whether the Newton step for `D` takes `r` up to `q`, two or more above,
/// and `q` back down to `r`.
pub open spec fn turning_d(l: int, s: int, a: int, b: int, r: int, q: int) -> bool {
    &&& next_d(l, s, a, b, r) == Ok::<int, ContractError>(q)
    &&& next_d(l, s, a, b, q) == Ok::<int, ContractError>(r)
    &&& q > r + 1
}

/// Whether `r` is a settled or a turning result for `D`, with the estimate
/// `p` beside it.
pub open spec fn result_d(l: int, s: int, a: int, b: int, p: int, r: int) -> bool {
    settled_d(l, s, a, b, p, r) || turning_d(l, s, a, b, r, p)
}

/// A result of the iteration for `D` is settled or turning.
pub proof fn lemma_d_from_is_settled_or_turning(
    l: int,
    s: int,
    a: int,
    b: int,
    prev: Option<int>,
    d: int,
    rounds: nat,
)
    requires
        prev matches Some(p) ==> next_d(l, s, a, b, p) == Ok::<int, ContractError>(d),
    ensures
        d_from(l, s, a, b, prev, d, rounds) is Ok ==> exists|p: int|
            #[trigger] result_d(l, s, a, b, p, d_from(l, s, a, b, prev, d, rounds)->Ok_0 as int),
    decreases rounds,
{
    let whole = d_from(l, s, a, b, prev, d, rounds);
    if rounds > 0 && whole is Ok {
        let found = whole->Ok_0 as int;
        let n = next_d(l, s, a, b, d)->Ok_0;
        assert(next_d(l, s, a, b, d) == Ok::<int, ContractError>(n));
        if accepted(prev, d, n) is Some {
            assert(accepted(prev, d, n) == Some(found));
            if close(n, d) {
                assert(settled_d(l, s, a, b, d, found));
                assert(result_d(l, s, a, b, d, found));
            } else if n <= d {
                assert(turning_d(l, s, a, b, found, d));
                assert(result_d(l, s, a, b, d, found));
            } else {
                assert(turning_d(l, s, a, b, found, n));
                assert(result_d(l, s, a, b, n, found));
            }
        } else {
            let rest = d_from(l, s, a, b, Some(d), n, (rounds - 1) as nat);
            assert(whole == rest);
            lemma_d_from_is_settled_or_turning(l, s, a, b, Some(d), n, (rounds - 1) as nat);
            let p = choose|p: int| #[trigger] result_d(l, s, a, b, p, rest->Ok_0 as int);
            assert(result_d(l, s, a, b, p, found));
        }
    }
}

/// The invariant that the solver returns for balances that are not both
/// zero is settled or turning.
pub proof fn lemma_compute_d_is_settled_or_turning(leverage: u64, amount_a: u128, amount_b: u128)
    requires
        amount_a + amount_b > 0,
    ensures
        compute_d_spec(leverage, amount_a, amount_b) is Ok ==> exists|p: int|
            #[trigger] result_d(
                leverage as int,
                amount_a + amount_b,
                amount_a as int,
                amount_b as int,
                p,
                compute_d_spec(leverage, amount_a, amount_b)->Ok_0 as int,
            ),
{
    if amount_a + amount_b <= u128::MAX {
        lemma_d_from_is_settled_or_turning(
            leverage as int,
            amount_a + amount_b,
            amount_a as int,
            amount_b as int,
            None,
            amount_a + amount_b,
            ITERATIONS as nat,
        );
    }
}

/// What the left side of the invariant equation exceeds the right side by at
/// the estimate `p`, with each term rounded as the solver rounds it: `l * s /
/// 100 + p` less `l * p / 100 + D^3 / (4 * x * y)`.
pub open spec fn residual(l: int, s: int, a: int, b: int, p: int) -> int {
    l * s / 100 - p * (l - 100) / 100 - d_product(a, b, p)
}

/// At an estimate from which a Newton step moves by one at most, the
/// invariant equation is nearly met: what its two sides differ by, times the
/// estimate, is at least minus the denominator of the step and below twice
/// the denominator. So the exact step from there, which is that product over
/// the denominator, is shorter than two.
pub proof fn lemma_residual_at_settled_estimate(l: int, s: int, a: int, b: int, p: int, d: int)
    requires
        settled_d(l, s, a, b, p, d),
    ensures
        -step_denominator(l, a, b, p) <= residual(l, s, a, b, p) * p < 2 * step_denominator(
            l,
            a,
            b,
            p,
        ),
{
    let n = step_numerator(l, s, a, b, p);
    let m = step_denominator(l, a, b, p);
    let r = residual(l, s, a, b, p);
    assert(m > 0);
    assert(n == (m + r) * p);
    lemma_quotient_bounds(n, m);
    assert(d == n / m);
    assert(-m <= r * p < 2 * m) by (nonlinear_arith)
        requires
            n == (m + r) * p,
            d * m <= n < d * m + m,
            m > 0,
            d - p <= 1,
            p - d <= 1,
    ;
}

/// Where the estimates turn, the root lies between them: at the smaller one
/// the left side of the invariant equation exceeds the right side, and at
/// the larger one the right side exceeds the left.
pub proof fn lemma_turning_estimates_bracket_the_root(
    l: int,
    s: int,
    a: int,
    b: int,
    r: int,
    q: int,
)
    requires
        turning_d(l, s, a, b, r, q),
    ensures
        residual(l, s, a, b, r) * r >= 2 * step_denominator(l, a, b, r) > 0,
        residual(l, s, a, b, q) * q < -step_denominator(l, a, b, q) < 0,
{
    let nr = step_numerator(l, s, a, b, r);
    let mr = step_denominator(l, a, b, r);
    let rr = residual(l, s, a, b, r);
    assert(nr == (mr + rr) * r);
    lemma_quotient_bounds(nr, mr);
    assert(rr * r >= 2 * mr) by (nonlinear_arith)
        requires
            nr == (mr + rr) * r,
            q * mr <= nr,
            mr > 0,
            q >= r + 2,
    ;
    let nq = step_numerator(l, s, a, b, q);
    let mq = step_denominator(l, a, b, q);
    let rq = residual(l, s, a, b, q);
    assert(nq == (mq + rq) * q);
    lemma_quotient_bounds(nq, mq);
    assert(rq * q < -mq) by (nonlinear_arith)
        requires
            nq == (mq + rq) * q,
            nq < r * mq + mq,
            mq > 0,
            q >= r + 2,
    ;
}

/// The solver does not fail on a pool with two equal balances of at least
/// four units and below two to the power 84: the first estimate, the sum of
/// the balances, is accepted after one step and is returned as it is.
pub proof fn lemma_compute_d_of_balanced_pool(leverage: u64, amount: u128)
    requires
        100 <= leverage <= 200_000_000,
        4 <= amount <= 0xf_ffff_ffff_ffff_ffff_ffff,
    ensures
        compute_d_spec(leverage, amount, amount) == Ok::<u128, ContractError>(
            (2 * amount) as u128,
        ),
{
    let l = leverage as int;
    let x = amount as int;
    let d = 2 * x;
    let f = l * d / 100;
    assert(d * d * d / ((2 * x + 1) * (2 * x + 1)) == d - 2) by {
        let q = (d + 1) * (d + 1);
        assert(q > 0 && (d - 2) * q <= d * d * d < (d - 2 + 1) * q) by (nonlinear_arith)
            requires
                d >= 8,
                q == (d + 1) * (d + 1),
        ;
        lemma_quotient(d * d * d, q, d - 2);
    }
    assert(d_product(x, x, d) == d - 2);
    assert(d * (l - 100) / 100 == f - d) by {
        lemma_quotient_bounds(l * d, 100);
        assert((f - d) * 100 <= d * (l - 100) < (f - d + 1) * 100) by (nonlinear_arith)
            requires
                f * 100 <= l * d < f * 100 + 100,
        ;
        lemma_quotient(d * (l - 100), 100, f - d);
    }
    assert(d <= f <= 2_000_000 * d) by {
        lemma_quotient_bounds(l * d, 100);
        assert(d * 100 <= l * d <= 200_000_000 * d) by (nonlinear_arith)
            requires
                100 <= l <= 200_000_000,
                d >= 0,
        ;
    }
    let m = f - d + 3 * (d - 2);
    let n = (f + 2 * (d - 2)) * d;
    assert(step_denominator(l, x, x, d) == m);
    assert(step_numerator(l, d, x, x, d) == n);
    let bound = 0x20_0000_0000_0000_0000_0000int;
    let square = 0x400_0000_0000_0000_0000_0000_0000_0000_0000_0000_0000int;
    let cube = 0x8000_0000_0000_0000_0000_0000_0000_0000_0000_0000_0000_0000_0000_0000_0000_0000int;
    assert(bound * bound == square && square * bound == cube) by (nonlinear_arith)
        requires
            bound == 0x20_0000_0000_0000_0000_0000int,
            square == 0x400_0000_0000_0000_0000_0000_0000_0000_0000_0000_0000int,
            cube == 0x8000_0000_0000_0000_0000_0000_0000_0000_0000_0000_0000_0000_0000_0000_0000_0000int,
    ;
    assert(0 <= d * d * d < cube && 0 <= (d + 1) * (d + 1) <= square && 0 <= n < 0x40_0000
        * square && 0 <= d * (l - 100) < 0x1000_0000 * bound) by (nonlinear_arith)
        requires
            8 <= d < bound,
            bound * bound == square,
            square * bound == cube,
            d <= f <= 2_000_000 * d,
            n == (f + 2 * (d - 2)) * d,
            100 <= l <= 200_000_000,
    ;
    assert(step_fits(l, d, x, x, d));
    assert(n / m == d) by {
        assert(d * m <= n < (d + 1) * m) by (nonlinear_arith)
            requires
                n == (f + 2 * (d - 2)) * d,
                m == f - d + 3 * (d - 2),
                f >= d,
                d >= 8,
        ;
        lemma_quotient(n, m, d);
    }
    assert(next_d(l, d, x, x, d) == Ok::<int, ContractError>(d));
    assert(accepted(None, d, d) == Some(d));
    assert(ITERATIONS as nat > 0);
}

/// Whether a pool is one on which no step of the solver for `D` can fail:
/// both balances hold a unit at least, their sum is not above two to the
/// power 82, and the leverage is that of an amplification from one to a
/// million.
pub open spec fn workable(l: int, a: int, b: int) -> bool {
    &&& 200 <= l <= 200_000_000
    &&& 1 <= a
    &&& 1 <= b
    &&& a + b <= 0x4_0000_0000_0000_0000_0000
}

/// On a workable pool a step from an estimate between one and four times the
/// sum of the balances can be taken, and leads to such an estimate again.
pub proof fn lemma_step_stays_in_range(l: int, a: int, b: int, d: int)
    requires
        workable(l, a, b),
        1 <= d <= 4 * (a + b),
    ensures
        next_d(l, a + b, a, b, d) is Ok,
        1 <= next_d(l, a + b, a, b, d)->Ok_0 <= 4 * (a + b),
{
    let s = a + b;
    let top = 0x4_0000_0000_0000_0000_0000int;
    let q = (2 * a + 1) * (2 * b + 1);
    let cube = d * d * d;
    let p = cube / q;
    let c = l * s / 100;
    let k = d * (l - 100) / 100;
    let n = (c + 2 * p) * d;
    let m = k + 3 * p;
    assert(3 * s <= q <= 9 * s * s && 0 <= cube <= 64 * (s * s * s) && 1 <= cube) by (nonlinear_arith)
        requires
            q == (2 * a + 1) * (2 * b + 1),
            cube == d * d * d,
            s == a + b,
            a >= 1,
            b >= 1,
            1 <= d <= 4 * s,
    ;
    lemma_quotient_bounds(cube, q);
    lemma_quotient_bounds(l * s, 100);
    lemma_quotient_bounds(d * (l - 100), 100);
    assert(0 <= p && 3 * p <= 64 * (s * s)) by (nonlinear_arith)
        requires
            p * q <= cube < p * q + q,
            3 * s <= q,
            0 <= cube <= 64 * (s * s * s),
            s >= 2,
    ;
    assert(d == 1 ==> p == 0) by (nonlinear_arith)
        requires
            p * q <= cube,
            cube == d * d * d,
            q >= 6,
            p >= 0,
    ;
    assert(0 <= c && 100 * c <= l * s && l * s <= 100 * c + 99 && 2 * s <= c <= 2_000_000 * s)
        by (nonlinear_arith)
        requires
            c * 100 <= l * s < c * 100 + 100,
            200 <= l <= 200_000_000,
            s >= 2,
    ;
    assert(1 <= k && 100 * k <= d * (l - 100) && d * (l - 100) <= 100 * k + 99) by (nonlinear_arith)
        requires
            k * 100 <= d * (l - 100) < k * 100 + 100,
            200 <= l,
            d >= 1,
    ;
    assert(m >= 1);
    // The step does not fall below one.
    assert(c * d >= k) by (nonlinear_arith)
        requires
            l * s <= 100 * c + 99,
            100 * k <= d * (l - 100),
            s >= 2,
            d >= 1,
            c >= 0,
            l >= 200,
    ;
    assert(2 * p * d >= 3 * p) by (nonlinear_arith)
        requires
            p >= 0,
            d >= 1,
            d == 1 ==> p == 0,
    ;
    assert(n >= m) by (nonlinear_arith)
        requires
            n == (c + 2 * p) * d,
            m == k + 3 * p,
            c * d >= k,
            2 * p * d >= 3 * p,
    ;
    // The step does not rise above four times the sum.
    assert(c * d < (4 * s + 1) * k) by {
        if d * (l - 100) >= 200 {
            assert(100 * (c * d) < 100 * ((4 * s + 1) * k)) by (nonlinear_arith)
                requires
                    100 * c <= l * s,
                    d * (l - 100) <= 100 * k + 99,
                    d * (l - 100) >= 200,
                    l >= 200,
                    s >= 2,
                    d >= 1,
                    c >= 0,
                    k >= 1,
            ;
        } else {
            assert(d == 1 && l < 300) by (nonlinear_arith)
                requires
                    d * (l - 100) < 200,
                    d >= 1,
                    l >= 200,
            ;
            assert(c < 3 * s) by (nonlinear_arith)
                requires
                    100 * c <= l * s,
                    l < 300,
                    s >= 2,
            ;
            assert(c * d < (4 * s + 1) * k) by (nonlinear_arith)
                requires
                    d == 1,
                    c < 3 * s,
                    k >= 1,
                    s >= 2,
                    c >= 0,
            ;
        }
    }
    assert(n < (4 * s + 1) * m) by (nonlinear_arith)
        requires
            n == (c + 2 * p) * d,
            m == k + 3 * p,
            c * d < (4 * s + 1) * k,
            1 <= d <= 4 * s,
            p >= 0,
    ;
    // Everything on the way is a 256-bit number.
    assert(top * top * top * 64 < limit() && 9 * (top * top) < limit() && 2_000_100 * top * (4
        * top) + 44 * (top * top) * (4 * top) < limit()) by (nonlinear_arith)
        requires
            top == 0x4_0000_0000_0000_0000_0000int,
            limit() == 0x1_0000_0000_0000_0000_0000_0000_0000_0000_0000_0000_0000_0000_0000_0000_0000_0000nat,
    ;
    assert(s * s <= top * top && s * s * s <= top * top * top) by (nonlinear_arith)
        requires
            2 <= s <= top,
    ;
    let most = 2_000_000 * top + 44 * (top * top);
    assert(0 <= c + 2 * p <= most);
    lemma_mul_bound(c + 2 * p, d, most, 4 * top);
    assert(most * (4 * top) == 2_000_100 * top * (4 * top) + 44 * (top * top) * (4 * top) - 100
        * top * (4 * top)) by (nonlinear_arith)
        requires
            most == 2_000_000 * top + 44 * (top * top),
    ;
    assert(100 * top * (4 * top) >= 0) by (nonlinear_arith)
        requires
            top >= 0,
    ;
    assert(fits(n));
    lemma_mul_bound(d, l - 100, 4 * top, 200_000_000);
    assert(4 * top * 200_000_000 < limit()) by (nonlinear_arith)
        requires
            top == 0x4_0000_0000_0000_0000_0000int,
            limit() == 0x1_0000_0000_0000_0000_0000_0000_0000_0000_0000_0000_0000_0000_0000_0000_0000_0000nat,
    ;
    assert(fits(d * (l - 100)));
    assert(fits(cube));
    assert(9 * s * s == 9 * (s * s)) by (nonlinear_arith);
    assert(fits(q));
    assert(fits(c + 2 * p));
    assert(fits(3 * p));
    assert(fits(m));
    assert(d_product(a, b, d) == p);
    assert(step_numerator(l, s, a, b, d) == n);
    assert(step_denominator(l, a, b, d) == m);
    assert(step_fits(l, s, a, b, d));
    lemma_quotient_bounds(n, m);
    assert(1 <= n / m <= 4 * s) by (nonlinear_arith)
        requires
            (n / m) * m <= n < (n / m) * m + m,
            m <= n < (4 * s + 1) * m,
            m >= 1,
    ;
}

/// On a workable pool the iteration for `D` fails in one way only, by
/// running out of rounds; and what it returns lies between one and four
/// times the sum of the balances.
pub proof fn lemma_d_from_fails_only_by_rounds(
    l: int,
    a: int,
    b: int,
    prev: Option<int>,
    d: int,
    rounds: nat,
)
    requires
        workable(l, a, b),
        1 <= d <= 4 * (a + b),
        prev matches Some(p) ==> 1 <= p <= 4 * (a + b),
    ensures
        d_from(l, a + b, a, b, prev, d, rounds) is Err ==> d_from(l, a + b, a, b, prev, d, rounds)
            == Err::<u128, ContractError>(ContractError::NotConverged),
        d_from(l, a + b, a, b, prev, d, rounds) is Ok ==> 1 <= d_from(
            l,
            a + b,
            a,
            b,
            prev,
            d,
            rounds,
        )->Ok_0 <= 4 * (a + b),
    decreases rounds,
{
    if rounds > 0 {
        lemma_step_stays_in_range(l, a, b, d);
        let n = next_d(l, a + b, a, b, d)->Ok_0;
        if accepted(prev, d, n) is None {
            lemma_d_from_fails_only_by_rounds(l, a, b, Some(d), n, (rounds - 1) as nat);
        }
    }
}

/// On a workable pool the solver for `D` fails in one way only, by running
/// out of rounds: no step overflows and none divides by zero. What it returns
/// lies between one and four times the sum of the balances.
pub proof fn lemma_compute_d_fails_only_by_rounds(leverage: u64, amount_a: u128, amount_b: u128)
    requires
        workable(leverage as int, amount_a as int, amount_b as int),
    ensures
        compute_d_spec(leverage, amount_a, amount_b) is Err ==> compute_d_spec(
            leverage,
            amount_a,
            amount_b,
        ) == Err::<u128, ContractError>(ContractError::NotConverged),
        compute_d_spec(leverage, amount_a, amount_b) is Ok ==> 1 <= compute_d_spec(
            leverage,
            amount_a,
            amount_b,
        )->Ok_0 <= 4 * (amount_a + amount_b),
{
    lemma_d_from_fails_only_by_rounds(
        leverage as int,
        amount_a as int,
        amount_b as int,
        None,
        amount_a + amount_b,
        ITERATIONS as nat,
    );
}

/// Whether `r` is one Newton step for the other balance from the estimate
/// `p` and differs from it by one at most.
pub open spec fn settled_y(b: int, c: int, d: int, p: int, r: int) -> bool {
    next_y(b, c, d, p) == Ok::<int, ContractError>(r) && close(r, p)
}

/// Whether the Newton step for the other balance takes `r` up to `q`, two
/// or more above, and `q` back down to `r`.
pub open spec fn turning_y(b: int, c: int, d: int, r: int, q: int) -> bool {
    &&& next_y(b, c, d, r) == Ok::<int, ContractError>(q)
    &&& next_y(b, c, d, q) == Ok::<int, ContractError>(r)
    &&& q > r + 1
}

/// Whether `r` is a settled or a turning result for the other balance, with
/// the estimate `p` beside it.
pub open spec fn result_y(b: int, c: int, d: int, p: int, r: int) -> bool {
    settled_y(b, c, d, p, r) || turning_y(b, c, d, r, p)
}

/// A result of the iteration for the other balance is settled or turning.
pub proof fn lemma_y_from_is_settled_or_turning(
    b: int,
    c: int,
    d: int,
    prev: Option<int>,
    y: int,
    rounds: nat,
)
    requires
        prev matches Some(p) ==> next_y(b, c, d, p) == Ok::<int, ContractError>(y),
    ensures
        y_from(b, c, d, prev, y, rounds) is Ok ==> exists|p: int|
            #[trigger] result_y(b, c, d, p, y_from(b, c, d, prev, y, rounds)->Ok_0 as int),
    decreases rounds,
{
    let whole = y_from(b, c, d, prev, y, rounds);
    if rounds > 0 && whole is Ok {
        let found = whole->Ok_0 as int;
        let n = next_y(b, c, d, y)->Ok_0;
        assert(next_y(b, c, d, y) == Ok::<int, ContractError>(n));
        if accepted(prev, y, n) is Some {
            assert(accepted(prev, y, n) == Some(found));
            if close(n, y) {
                assert(settled_y(b, c, d, y, found));
                assert(result_y(b, c, d, y, found));
            } else if n <= y {
                assert(turning_y(b, c, d, found, y));
                assert(result_y(b, c, d, y, found));
            } else {
                assert(turning_y(b, c, d, found, n));
                assert(result_y(b, c, d, n, found));
            }
        } else {
            let rest = y_from(b, c, d, Some(y), n, (rounds - 1) as nat);
            assert(whole == rest);
            lemma_y_from_is_settled_or_turning(b, c, d, Some(y), n, (rounds - 1) as nat);
            let p = choose|p: int| #[trigger] result_y(b, c, d, p, rest->Ok_0 as int);
            assert(result_y(b, c, d, p, found));
        }
    }
}

/// What the left side of the equation for the other balance, `y^2 + (b - d)
/// * y = c`, exceeds the right side by at the estimate `p`.
pub open spec fn y_residual(b: int, c: int, d: int, p: int) -> int {
    p * p + (b - d) * p - c
}

/// At an estimate from which a Newton step for the other balance moves by
/// one at most, the equation for that balance is nearly met: what its two
/// sides differ by is above minus twice the denominator of the step and not
/// above the denominator. So the exact step from there is shorter than two.
pub proof fn lemma_y_residual_at_settled_estimate(b: int, c: int, d: int, p: int, n: int)
    requires
        settled_y(b, c, d, p, n),
    ensures
        -2 * (2 * p + b - d) < y_residual(b, c, d, p) <= 2 * p + b - d,
{
    let m = 2 * p + b - d;
    let num = p * p + c;
    assert(m > 0);
    lemma_quotient_bounds(num, m);
    assert(n == num / m);
    assert(-2 * m < p * p + (b - d) * p - c <= m) by (nonlinear_arith)
        requires
            m == 2 * p + b - d,
            num == p * p + c,
            n * m <= num < n * m + m,
            m > 0,
            n - p <= 1,
            p - n <= 1,
    ;
}

/// Where the estimates of the other balance turn, the root lies between
/// them: at the smaller one the right side of the equation exceeds the left,
/// and at the larger one the left side exceeds the right.
pub proof fn lemma_turning_balances_bracket_the_root(b: int, c: int, d: int, r: int, q: int)
    requires
        turning_y(b, c, d, r, q),
    ensures
        y_residual(b, c, d, r) <= -2 * (2 * r + b - d) < 0,
        y_residual(b, c, d, q) > 2 * q + b - d > 0,
{
    let mr = 2 * r + b - d;
    let nr = r * r + c;
    lemma_quotient_bounds(nr, mr);
    assert(r * r + (b - d) * r - c <= -2 * mr) by (nonlinear_arith)
        requires
            mr == 2 * r + b - d,
            nr == r * r + c,
            q * mr <= nr,
            mr > 0,
            q >= r + 2,
    ;
    let mq = 2 * q + b - d;
    let nq = q * q + c;
    lemma_quotient_bounds(nq, mq);
    assert(q * q + (b - d) * q - c > mq) by (nonlinear_arith)
        requires
            mq == 2 * q + b - d,
            nq == q * q + c,
            nq < r * mq + mq,
            mq > 0,
            q >= r + 2,
    ;
}

/// A swap holds the invariant and rounds for the pool. The balance that the
/// solver finds for the asset asked for, at the invariant from before the
/// swap, is settled or turning; the swap leaves one unit more than that
/// balance, and pays nothing where the solver finds the balance unchanged.
pub proof fn lemma_swap_holds_the_invariant(
    offer_pool: u128,
    ask_pool: u128,
    offer_amount: u128,
    amp: u64,
)
    ensures
        calc_ask_amount_spec(offer_pool, ask_pool, offer_amount, amp) matches Ok(r) ==> {
            let l = (amp * 2) as u64;
            let x = offer_pool + offer_amount;
            let d = compute_d_spec(l, offer_pool, ask_pool)->Ok_0;
            let y = compute_new_balance_out_spec(l, x as u128, d)->Ok_0;
            &&& compute_d_spec(l, offer_pool, ask_pool) is Ok
            &&& compute_new_balance_out_spec(l, x as u128, d) is Ok
            &&& y <= ask_pool
            &&& r < ask_pool || ask_pool == 0
            &&& (y < ask_pool ==> ask_pool - r == y + 1)
            &&& (y == ask_pool ==> r == 0)
            &&& exists|p: int|
                #[trigger] result_y(
                    y_b(l as int, x, d as int),
                    y_c(l as int, x, d as int),
                    d as int,
                    p,
                    y as int,
                )
        },
{
    if calc_ask_amount_spec(offer_pool, ask_pool, offer_amount, amp) is Ok {
        let l = (amp * 2) as u64;
        let x = offer_pool + offer_amount;
        let d = compute_d_spec(l, offer_pool, ask_pool)->Ok_0;
        lemma_y_from_is_settled_or_turning(
            y_b(l as int, x, d as int),
            y_c(l as int, x, d as int),
            d as int,
            None,
            d as int,
            ITERATIONS as nat,
        );
    }
}

/// The reverse of a swap solves back from the balance that the swap left, at
/// the same invariant, and rounds for the pool: what has to be offered for
/// the amount that the swap returned is one unit more than the balance that
/// the solver finds for the offered asset from there, less the balance before
/// the swap. It does not fail for want of a balance to solve from: a swap
/// never pays out the whole of the asset asked for.
pub proof fn lemma_reverse_solves_back(
    offer_pool: u128,
    ask_pool: u128,
    offer_amount: u128,
    amp: u64,
)
    ensures
        calc_ask_amount_spec(offer_pool, ask_pool, offer_amount, amp) matches Ok(r) ==> {
            let l = (amp * 2) as u64;
            let d = compute_d_spec(l, offer_pool, ask_pool)->Ok_0;
            let left = (ask_pool - r) as u128;
            &&& (ask_pool > 0 ==> left > 0)
            &&& calc_offer_amount_spec(offer_pool, ask_pool, r, amp) == match compute_new_balance_out_spec(
                l,
                left,
                d,
            ) {
                Err(e) => Err::<u128, ContractError>(e),
                Ok(back) => if back < offer_pool || back - offer_pool + 1 > u128::MAX {
                    Err::<u128, ContractError>(ContractError::Overflow)
                } else {
                    Ok::<u128, ContractError>((back - offer_pool + 1) as u128)
                },
            }
        },
{
}

} // verus!
