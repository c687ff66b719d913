use pair_stable_bluna::error::ContractError;
use pair_stable_bluna::math::{
    calc_ask_amount, calc_offer_amount, compute_d, compute_new_balance_out, AMP_PRECISION,
    ITERATIONS, MAX_AMP, MAX_AMP_CHANGE, MIN_AMP_CHANGING_TIME, N_COINS,
};

const AMP: u64 = 100 * AMP_PRECISION;

#[test]
fn constants_have_their_values() {
    assert_eq!(N_COINS, 2);
    assert_eq!(ITERATIONS, 32);
    assert_eq!(MAX_AMP, 1_000_000);
    assert_eq!(MAX_AMP_CHANGE, 10);
    assert_eq!(MIN_AMP_CHANGING_TIME, 86400);
    assert_eq!(AMP_PRECISION, 100);
}

#[test]
fn invariant_of_empty_pool_is_zero() {
    assert_eq!(compute_d(2 * AMP, 0, 0), Ok(0));
}

#[test]
fn invariant_of_balanced_pool_is_the_sum() {
    assert_eq!(compute_d(2 * AMP, 1_000_000, 1_000_000), Ok(2_000_000));
    assert_eq!(compute_d(200, 1000, 1000), Ok(2000));
    assert_eq!(compute_d(200, 4, 4), Ok(8));
    assert_eq!(compute_d(200, 2, 2), Ok(4));
    assert_eq!(compute_d(200, 3, 3), Ok(6));
}

#[test]
fn invariant_of_imbalanced_pool_is_below_the_sum() {
    assert_eq!(compute_d(2 * AMP, 1_000_000, 2_000_000), Ok(2_998_147));
    assert_eq!(compute_d(200, 100, 100_000), Ok(19_371));
    assert_eq!(compute_d(2000, 5_000_000_000, 1_000_000), Ok(1_159_706_683));
    assert_eq!(compute_d(2 * AMP, 123_456_789, 987_654_321), Ok(1_102_873_438));
}

#[test]
fn invariant_of_one_sided_pool() {
    assert_eq!(compute_d(200, 0, 1000), Ok(154));
    assert_eq!(compute_d(200, 1000, 0), Ok(154));
}

#[test]
fn invariant_fails_when_the_sum_overflows() {
    assert_eq!(compute_d(200, u128::MAX, 1), Err(ContractError::Overflow));
}

#[test]
fn invariant_fails_when_leverage_is_below_the_scale() {
    assert_eq!(compute_d(99, 1000, 1000), Err(ContractError::Overflow));
    assert_eq!(compute_d(0, 5, 5), Err(ContractError::Overflow));
}

#[test]
fn invariant_fails_when_a_product_overflows() {
    assert_eq!(compute_d(200, 1 << 127, 1 << 127), Err(ContractError::Overflow));
    assert_eq!(compute_d(200, 1, 1 << 127), Err(ContractError::Overflow));
}

#[test]
fn invariant_fails_when_the_cube_of_the_sum_needs_more_than_256_bits() {
    assert_eq!(compute_d(2000, 1 << 126, 1 << 126), Err(ContractError::Overflow));
    assert_eq!(compute_d(200, 1 << 100, 1 << 100), Err(ContractError::Overflow));
    assert_eq!(compute_d(200, 1 << 85, 1 << 85), Err(ContractError::Overflow));
    // The cube of two to the power 85 still fits.
    assert_eq!(compute_d(200, 1 << 84, 1 << 84), Ok(1 << 85));
    assert_eq!(compute_d(200, (1 << 84) - 1, (1 << 84) - 1), Ok((1 << 85) - 2));
    assert_eq!(compute_d(200, 1 << 83, 1 << 83), Ok(1 << 84));
}

#[test]
fn invariant_of_a_pool_out_of_balance_at_a_low_amplification() {
    // Forty-five to one at an amplification of one.
    assert_eq!(compute_d(200, 443_671_818, 9_846_373), Ok(228_076_600));
    assert_eq!(compute_d(200, 9_846_373, 443_671_818), Ok(228_076_600));
    // A thousand and a million to one.
    assert!(compute_d(200, 1_000_000_000_000, 1_000_000_000).is_ok());
    assert!(compute_d(200, 1_000_000_000_000_000, 1_000_000_000).is_ok());
}

#[test]
fn invariant_of_a_pool_on_which_the_estimates_alternate() {
    // The estimates go 2, 4, 2, ...: the smaller is taken.
    assert_eq!(compute_d(200, 1, 1), Ok(2));
}

#[test]
fn invariant_is_the_same_whichever_balance_comes_first() {
    let pools: [(u128, u128); 4] =
        [(1, 1_000), (1_000_000, 2_000_000), (123_456_789, 987_654_321), (7, 1_000_000_000_000)];
    for (a, b) in pools {
        for l in [200u64, 2_000, 20_000, 200_000_000] {
            assert_eq!(compute_d(l, a, b), compute_d(l, b, a));
        }
    }
}

#[test]
fn invariant_fails_when_the_iteration_does_not_settle() {
    assert_eq!(
        compute_d(45_424_200, 1, 800_241_972_155_818_478_298),
        Err(ContractError::NotConverged)
    );
}

#[test]
fn other_balance_for_a_grown_balance() {
    assert_eq!(compute_new_balance_out(2 * AMP, 1_010_000, 2_000_000), Ok(990_000));
    assert_eq!(compute_new_balance_out(200, 1, 1000), Ok(11_432));
    assert_eq!(compute_new_balance_out(2 * AMP, 1_000_000, 0), Ok(0));
}

#[test]
fn other_balance_fails_on_zero_balance_or_leverage() {
    assert_eq!(
        compute_new_balance_out(2 * AMP, 0, 2_000_000),
        Err(ContractError::DivideByZero)
    );
    assert_eq!(compute_new_balance_out(0, 100, 100), Err(ContractError::DivideByZero));
}

#[test]
fn other_balance_fails_when_the_cube_overflows() {
    assert_eq!(compute_new_balance_out(200, 1000, 1 << 90), Err(ContractError::Overflow));
    assert_eq!(compute_new_balance_out(200, 1000, 1 << 84), Err(ContractError::Overflow));
}

#[test]
fn ask_amount_near_one_to_one_in_a_balanced_pool() {
    assert_eq!(calc_ask_amount(1_000_000, 1_000_000, 10_000, AMP), Ok(9_999));
    assert_eq!(calc_ask_amount(1_000_000, 1_000_000, 0, AMP), Ok(0));
}

#[test]
fn ask_amount_in_an_imbalanced_pool() {
    assert_eq!(calc_ask_amount(1_000_000_000_000, 1_000_000_000, 1000, AMP), Ok(3));
    assert_eq!(calc_ask_amount(0, 1000, 10, AMP), Ok(413));
    assert_eq!(calc_ask_amount(1000, 0, 10, AMP), Ok(0));
    assert_eq!(calc_ask_amount(0, 0, 10, AMP), Ok(0));
}

#[test]
fn ask_amount_fails_on_overflow() {
    assert_eq!(calc_ask_amount(u128::MAX, 1, 1, AMP), Err(ContractError::Overflow));
    assert_eq!(calc_ask_amount(1000, 1000, 100, 1 << 63), Err(ContractError::Overflow));
}

#[test]
fn offer_amount_for_an_ask_amount() {
    assert_eq!(calc_offer_amount(1_000_000, 1_000_000, 9_999, AMP), Ok(10_000));
    assert_eq!(calc_offer_amount(1_000_000, 1_000_000, 0, AMP), Ok(1));
    assert_eq!(calc_offer_amount(1_000_000, 1_000_000, 999_999, AMP), Ok(99_999_950));
}

#[test]
fn offer_amount_fails_when_more_is_asked_than_there_is() {
    assert_eq!(
        calc_offer_amount(1_000_000, 1_000_000, 1_000_001, AMP),
        Err(ContractError::Overflow)
    );
    assert_eq!(
        calc_offer_amount(1_000_000, 1_000_000, 1_000_000, AMP),
        Err(ContractError::DivideByZero)
    );
}

#[test]
fn swap_leaves_a_balance_that_nearly_solves_the_curve() {
    let cases: [(u128, u128, u128); 4] = [
        (1_000_000, 1_000_000, 10_000),
        (123_456_789, 987_654_321, 500_000),
        (1_000_000_000, 1_000_000_000_000, 900_000),
        (1_000_000_000_000, 1_000_000_000, 1_000),
    ];
    for (offer_pool, ask_pool, offer) in cases {
        let l = (2 * AMP) as i128;
        let d = compute_d(2 * AMP, offer_pool, ask_pool).unwrap() as i128;
        let r = calc_ask_amount(offer_pool, ask_pool, offer, AMP).unwrap();
        // The swap leaves one unit more than the solver finds.
        let left = (ask_pool - r) as i128 - 1;
        assert_eq!(
            compute_new_balance_out(2 * AMP, offer_pool + offer, d as u128),
            Ok(left as u128)
        );
        let x = (offer_pool + offer) as i128;
        let c = d * d * d * 100 / (4 * x * l);
        let b = x + d * 100 / l;
        let m = 2 * left + b - d;
        let residual = left * left + (b - d) * left - c;
        assert!(-3 * m < residual && residual <= 2 * m);
        // The reverse goes back from there at the same invariant.
        let back = compute_new_balance_out(2 * AMP, ask_pool - r, d as u128).unwrap();
        assert_eq!(calc_offer_amount(offer_pool, ask_pool, r, AMP), Ok(back - offer_pool + 1));
    }
}

#[test]
fn accepted_invariant_is_one_step_from_a_close_estimate() {
    // The step from the result itself moves by less than two.
    let cases: [(u64, u128, u128); 4] = [
        (2 * AMP, 1_000_000, 2_000_000),
        (200, 100, 100_000),
        (2000, 5_000_000_000, 1_000_000),
        (2 * AMP, 123_456_789, 987_654_321),
    ];
    for (l, a, b) in cases {
        let d = compute_d(l, a, b).unwrap() as i128;
        let s = (a + b) as i128;
        let dp = d * d * d / ((2 * a as i128 + 1) * (2 * b as i128 + 1));
        let n = (l as i128 * s / 100 + 2 * dp) * d;
        let m = d * (l as i128 - 100) / 100 + 3 * dp;
        let next = n / m;
        assert!((next - d).abs() <= 2);
        let residual = l as i128 * s / 100 - d * (l as i128 - 100) / 100 - dp;
        assert!(-2 * m <= residual * d && residual * d < 3 * m);
    }
}

/// A small generator of numbers that look random; the same on every run.
fn next_number(state: &mut u64) -> u64 {
    *state = state.wrapping_mul(6364136223846793005).wrapping_add(1442695040888963407);
    *state >> 11
}

#[test]
fn invariant_is_found_on_ordinary_pools() {
    // Balances from one unit up to about ten to the power 24, in a ratio of up
    // to a thousand million to one, at amplifications from 1 to a million.
    let amps: [u64; 7] = [1, 2, 5, 10, 100, 10_000, 1_000_000];
    let mut state: u64 = 20_220_517;
    let mut alternated = 0;
    for _ in 0..30_000 {
        let digits = next_number(&mut state) % 15;
        let mut a: u128 = 1 + (next_number(&mut state) as u128) % 10u128.pow(digits as u32 + 1);
        let span = 10u128.pow((next_number(&mut state) % 10) as u32);
        let ratio = 1 + (next_number(&mut state) as u128) % span;
        let mut b: u128 = if next_number(&mut state) % 2 == 0 { a * ratio } else { a / ratio };
        if b == 0 {
            b = 1;
        }
        if next_number(&mut state) % 2 == 0 {
            std::mem::swap(&mut a, &mut b);
        }
        let amp = amps[(next_number(&mut state) % 7) as usize] * AMP_PRECISION;
        let d = compute_d(2 * amp, a, b);
        assert!(d.is_ok(), "balances {} {} at amplification {}: {:?}", a, b, amp, d);
        let d = d.unwrap();
        // Above the sum by rounding only, and within the range that no step leaves.
        assert!(d <= a + b + 1 && d >= 1 && d <= 4 * (a + b));
        // The result is settled or turning; checked where the numbers of the
        // step fit in 128 bits.
        if a + b < 1 << 30 {
            let (l, s, d) = ((2 * amp) as i128, (a + b) as i128, d as i128);
            let step = |e: i128| {
                let dp = e * e * e / ((2 * a as i128 + 1) * (2 * b as i128 + 1));
                (l * s / 100 + 2 * dp) * e / (e * (l - 100) / 100 + 3 * dp)
            };
            let settled = (d - 1..=d + 1).any(|e| e > 0 && step(e) == d);
            let turning = step(d) >= d + 2 && step(step(d)) == d;
            assert!(settled || turning, "balances {} {} at amplification {}: {}", a, b, amp, d);
            if turning && !settled {
                alternated += 1;
            }
        }
        // A swap of a hundredth of the offer side succeeds, and so does the
        // reverse of what it returns.
        let offer = a / 100 + 1;
        let out = calc_ask_amount(a, b, offer, amp);
        assert!(out.is_ok(), "swap of {} into {} {}: {:?}", offer, a, b, out);
        let out = out.unwrap();
        assert!(out < b);
        if out > 0 {
            let back = calc_offer_amount(a, b, out, amp);
            assert!(back.is_ok(), "reverse of {} on {} {}: {:?}", out, a, b, back);
        }
    }
    assert!(alternated < 100);
}

#[test]
fn solver_fails_on_pools_within_its_range_by_running_out_of_rounds_only() {
    // At a ratio of ten to the power 20 the rounds do not suffice; nothing else
    // goes wrong, for the sum is below two to the power 82.
    assert_eq!(
        compute_d(45_424_200, 1, 800_241_972_155_818_478_298),
        Err(ContractError::NotConverged)
    );
    assert_eq!(compute_d(200, 1, 1 << 81), Err(ContractError::NotConverged));
    // Outside the range other failures appear.
    assert_eq!(compute_d(200, 1, 1 << 86), Err(ContractError::Overflow));
    assert_eq!(compute_d(199, 1000, 1000), Ok(2000));
    assert_eq!(compute_d(100, 1, 1), Err(ContractError::DivideByZero));
}
