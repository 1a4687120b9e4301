//! Integer square root on 128-bit unsigned values.
//!
//! The pool uses the floor square root of the product of its two reserves as
//! its geometric-mean liquidity value.  Flooring is a deliberate,
//! one-directional rounding bias: pool value is never over-estimated, so no
//! unbacked LP value is ever minted.

use vstd::prelude::*;

verus! {

/// `r` is the floor of the square root of `x`: the largest integer whose
/// square does not exceed `x`.
pub open spec fn is_floor_sqrt(x: int, r: int) -> bool {
    0 <= r && r * r <= x && x < (r + 1) * (r + 1)
}

/// The floor square root of a non-negative integer, as a value.
pub open spec fn floor_sqrt(x: int) -> int {
    choose|r: int| #[trigger] is_floor_sqrt(x, r)
}

/// Every non-negative integer has a floor square root.
pub proof fn lemma_floor_sqrt_exists(x: int)
    requires
        0 <= x,
    ensures
        is_floor_sqrt(x, floor_sqrt(x)),
    decreases x,
{
    if x == 0 {
        assert(is_floor_sqrt(0, 0));
    } else {
        lemma_floor_sqrt_exists(x - 1);
        let p = floor_sqrt(x - 1);
        if x < (p + 1) * (p + 1) {
            assert(is_floor_sqrt(x, p));
        } else {
            // x - 1 < (p + 1) * (p + 1) <= x, so x == (p + 1) * (p + 1).
            assert((p + 2) * (p + 2) > x) by (nonlinear_arith)
                requires
                    x == (p + 1) * (p + 1),
                    0 <= p,
            ;
            assert(is_floor_sqrt(x, p + 1));
        }
    }
}

/// The floor square root is unique.
pub proof fn lemma_floor_sqrt_unique(x: int, r1: int, r2: int)
    requires
        is_floor_sqrt(x, r1),
        is_floor_sqrt(x, r2),
    ensures
        r1 == r2,
{
    assert(r1 == r2) by (nonlinear_arith)
        requires
            0 <= r1 && r1 * r1 <= x && x < (r1 + 1) * (r1 + 1),
            0 <= r2 && r2 * r2 <= x && x < (r2 + 1) * (r2 + 1),
    ;
}

/// A root whose square exceeds `x` bounds the floor square root from above.
pub proof fn lemma_floor_sqrt_bound(x: int, r: int, b: int)
    requires
        is_floor_sqrt(x, r),
        0 <= b,
        x < b * b,
    ensures
        r < b,
{
    assert(r < b) by (nonlinear_arith)
        requires
            0 <= r && r * r <= x && x < b * b && 0 <= b,
    ;
}

/// One Newton step from any positive guess lands at or above the floor
/// square root: with `q = x / g`, the next guess `(q + g) / 2` (here `m`,
/// given through `2 * m >= q + g - 1`) satisfies `(m + 1)^2 > x`.
proof fn lemma_newton_step_upper(x: int, g: int, q: int, rem: int, m: int)
    by (nonlinear_arith)
    requires
        1 <= g,
        0 <= q,
        0 <= rem < g,
        x == q * g + rem,
        2 * m >= q + g - 1,
        0 <= m,
    ensures
        x < (m + 1) * (m + 1),
{
    // (q + g + 1)^2 - 4x >= (q - g + 1)^2 + 4 > 0, and 2(m + 1) >= q + g + 1.
    assert((q + g + 1) * (q + g + 1) - 4 * x >= (q - g + 1) * (q - g + 1) + 4);
    assert((2 * (m + 1)) * (2 * (m + 1)) >= (q + g + 1) * (q + g + 1));
}

/// When a Newton step does not decrease the guess, the guess's square is
/// already at most `x`.
proof fn lemma_newton_fixed_point(x: int, g: int, q: int, rem: int)
    by (nonlinear_arith)
    requires
        1 <= g,
        0 <= rem < g,
        x == q * g + rem,
        q >= g,
    ensures
        g * g <= x,
{
}

/// Floor square root of a 128-bit unsigned value, by Newton (Babylonian)
/// iteration starting from half the input, terminating at the fixed point.
pub fn sqrt_u128(input: u128) -> (r: u128)
    ensures
        is_floor_sqrt(input as int, r as int),
        r == floor_sqrt(input as int),
{
    if input == 0 {
        proof {
            lemma_floor_sqrt_exists(0);
            lemma_floor_sqrt_unique(0, floor_sqrt(0), 0);
        }
        return 0;
    }

    // First guess: (input + 1) / 2, computed without overflowing.
    let mut guess: u128 = input / 2 + input % 2;
    let mut result: u128 = input;

    proof {
        assert(2 * guess >= input);
        assert(input < (guess + 1) * (guess + 1)) by (nonlinear_arith)
            requires
                2 * guess >= input,
                0 <= guess,
        ;
        assert(input < (result + 1) * (result + 1)) by (nonlinear_arith)
            requires
                result == input,
                1 <= input,
        ;
        if guess >= result {
            // Only possible for input == 1, where result * result == input.
            assert(2 * guess == input + input % 2);
            assert(input <= 1);
            assert(result * result <= input) by (nonlinear_arith)
                requires
                    result == input,
                    input == 1,
            ;
        }
    }

    while guess < result
        invariant
            1 <= input,
            input < (result + 1) * (result + 1),
            input < (guess + 1) * (guess + 1),
            guess >= result ==> result * result <= input,
        decreases result,
    {
        proof {
            // guess == 0 would force input < 1.
            assert(1 <= guess) by (nonlinear_arith)
                requires
                    1 <= input,
                    input < (guess + 1) * (guess + 1),
                    0 <= guess,
            ;
        }
        result = guess;
        // (input / result + result) / 2, computed without overflowing.
        let q: u128 = input / result;
        guess = q / 2 + result / 2 + (q % 2 + result % 2) / 2;
        proof {
            vstd::arithmetic::div_mod::lemma_fundamental_div_mod(input as int, result as int);
            assert(guess == (q + result) / 2);
            assert(2 * guess >= q + result - 1);
            lemma_newton_step_upper(
                input as int,
                result as int,
                q as int,
                (input % result) as int,
                guess as int,
            );
            if guess >= result {
                assert(q >= result);
                lemma_newton_fixed_point(
                    input as int,
                    result as int,
                    q as int,
                    (input % result) as int,
                );
            }
        }
    }

    proof {
        assert(is_floor_sqrt(input as int, result as int));
        lemma_floor_sqrt_exists(input as int);
        lemma_floor_sqrt_unique(input as int, floor_sqrt(input as int), result as int);
    }
    result
}

} // verus!
