//! Reconnect backoff policy: delays double with each failed attempt, the
//! exponent is capped so the doubling cannot overflow, and the whole delay is
//! capped at a fixed ceiling.

use vstd::arithmetic::mul::{lemma_mul_inequality, lemma_mul_upper_bound};
use vstd::arithmetic::power2::{
    lemma2_to64, lemma_pow2_pos, lemma_pow2_strictly_increases, lemma_pow2_unfold, pow2,
};
use vstd::math::min;
use vstd::prelude::*;

verus! {

/// Longest delay between two connection attempts, in milliseconds.
pub const MAX_BACKOFF_DELAY_MS: u64 = 15000;

/// Largest exponent the doubling may reach; keeps `base * 2^steps` far from
/// overflow even when the attempt counter grows without bound.
pub const MAX_BACKOFF_STEPS: u32 = 10;

/// Exponent used for the given 1-based attempt count: `min(attempts - 1, 10)`,
/// taken as zero for an attempt count of zero.
pub open spec fn backoff_steps_spec(attempts: u32) -> int {
    min(if attempts == 0 { 0 } else { attempts - 1 }, MAX_BACKOFF_STEPS as int)
}

/// Delay, in milliseconds, before reconnect attempt number `attempts`
/// (1-based): `base * 2^(min(attempts - 1, 10))`, capped at 15000 ms.
pub open spec fn backoff_delay(attempts: u32, base_delay_ms: u64) -> int {
    min(base_delay_ms * pow2(backoff_steps_spec(attempts) as nat), MAX_BACKOFF_DELAY_MS as int)
}

/// Exponent used for the given attempt count.
fn backoff_steps(attempts: u32) -> (r: u32)
    ensures
        r == backoff_steps_spec(attempts),
        r <= MAX_BACKOFF_STEPS,
{
    if attempts == 0 {
        0
    } else if attempts - 1 < MAX_BACKOFF_STEPS {
        attempts - 1
    } else {
        MAX_BACKOFF_STEPS
    }
}

/// `2^e` for the small exponents the backoff uses.
fn pow2_u64(e: u32) -> (r: u64)
    requires
        e <= MAX_BACKOFF_STEPS,
    ensures
        r == pow2(e as nat),
        r <= 1024,
{
    proof {
        lemma2_to64();
        if e < 10 {
            lemma_pow2_strictly_increases(e as nat, 10);
        }
    }
    let mut r: u64 = 1;
    let mut i: u32 = 0;
    while i < e
        invariant
            i <= e,
            e <= MAX_BACKOFF_STEPS,
            r == pow2(i as nat),
            pow2(e as nat) <= 1024,
        decreases e - i,
    {
        proof {
            lemma_pow2_unfold((i + 1) as nat);
            if i + 1 < e {
                lemma_pow2_strictly_increases((i + 1) as nat, e as nat);
            }
            assert(pow2((i + 1) as nat) <= pow2(e as nat));
        }
        r = r * 2;
        i = i + 1;
    }
    r
}

/// Computes the capped exponential backoff delay for the given attempt count.
pub fn compute_backoff_delay(attempts: u32, base_delay_ms: u64) -> (r: u64)
    ensures
        r == backoff_delay(attempts, base_delay_ms),
        r <= MAX_BACKOFF_DELAY_MS,
{
    let steps = backoff_steps(attempts);
    if base_delay_ms >= MAX_BACKOFF_DELAY_MS {
        proof {
            lemma_pow2_pos(steps as nat);
            lemma_mul_inequality(1, pow2(steps as nat) as int, base_delay_ms as int);
            assert(1 * (base_delay_ms as int) == base_delay_ms as int);
            assert(base_delay_ms * pow2(steps as nat) >= base_delay_ms);
        }
        MAX_BACKOFF_DELAY_MS
    } else {
        let factor = pow2_u64(steps);
        proof {
            lemma_mul_upper_bound(
                base_delay_ms as int,
                (MAX_BACKOFF_DELAY_MS - 1) as int,
                factor as int,
                1024,
            );
        }
        let raw = base_delay_ms * factor;
        if raw < MAX_BACKOFF_DELAY_MS {
            raw
        } else {
            MAX_BACKOFF_DELAY_MS
        }
    }
}

/// The backoff delay never shrinks as failures accumulate: for any base delay,
/// a later attempt waits at least as long as an earlier one, up to the cap.
pub proof fn lemma_backoff_monotonic(a1: u32, a2: u32, base_delay_ms: u64)
    requires
        a1 <= a2,
    ensures
        backoff_delay(a1, base_delay_ms) <= backoff_delay(a2, base_delay_ms),
{
    let s1 = backoff_steps_spec(a1);
    let s2 = backoff_steps_spec(a2);
    if s1 < s2 {
        lemma_pow2_strictly_increases(s1 as nat, s2 as nat);
    }
    assert(pow2(s1 as nat) <= pow2(s2 as nat));
    lemma_mul_inequality(pow2(s1 as nat) as int, pow2(s2 as nat) as int, base_delay_ms as int);
    assert(base_delay_ms * pow2(s1 as nat) <= base_delay_ms * pow2(s2 as nat));
}

/// The first failure after a success (which resets the attempt counter, making
/// the next failure attempt number one) waits exactly the base delay, up to
/// the cap.
pub proof fn lemma_backoff_restarts_at_base(base_delay_ms: u64)
    ensures
        backoff_delay(1, base_delay_ms) == min(base_delay_ms as int, MAX_BACKOFF_DELAY_MS as int),
{
    lemma2_to64();
    assert(pow2(0) == 1);
    assert(backoff_steps_spec(1) == 0);
    assert(base_delay_ms * pow2(0) == base_delay_ms);
}

} // verus!
